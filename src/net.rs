//! Socket endpoints and their canonical text forms.
use vstd::prelude::*;

verus! {

/// An IP address: four octets, or eight 16-bit segments.
#[derive(Clone, Copy, Debug, PartialEq, Eq)]
pub enum IpAddr {
    V4([u8; 4]),
    V6([u16; 8]),
}

/// An IP address together with a port.
#[derive(Clone, Copy, Debug, PartialEq, Eq)]
pub struct SocketAddr {
    pub ip: IpAddr,
    pub port: u16,
}

/// Both addresses are IPv4, or both are IPv6.
pub open spec fn same_family(a: IpAddr, b: IpAddr) -> bool {
    (a is V4) == (b is V4)
}

impl IpAddr {
    /// The IPv4 address `a.b.c.d`.
    pub fn v4(a: u8, b: u8, c: u8, d: u8) -> (r: IpAddr)
        ensures
            r == IpAddr::V4([a, b, c, d]),
    {
        IpAddr::V4([a, b, c, d])
    }

    /// The IPv6 address with the given segments, most significant first.
    pub fn v6(segments: [u16; 8]) -> (r: IpAddr)
        ensures
            r == IpAddr::V6(segments),
    {
        IpAddr::V6(segments)
    }

    pub fn is_ipv4(&self) -> (r: bool)
        ensures
            r == (*self is V4),
    {
        match self {
            IpAddr::V4(_) => true,
            IpAddr::V6(_) => false,
        }
    }
}

impl SocketAddr {
    pub fn new(ip: IpAddr, port: u16) -> (r: SocketAddr)
        ensures
            r == (SocketAddr { ip, port }),
    {
        SocketAddr { ip, port }
    }
}


/// ASCII digit for `d` in `0..10`.
pub open spec fn dec_digit(d: nat) -> u8 {
    (48 + d) as u8
}

/// Base-10 text of `n`, without leading zeros.
pub open spec fn dec_text(n: nat) -> Seq<u8>
    decreases n,
{
    if n < 10 {
        seq![dec_digit(n)]
    } else {
        dec_text(n / 10) + seq![dec_digit(n % 10)]
    }
}

/// Lower-case hexadecimal digit for `d` in `0..16`.
pub open spec fn hex_digit(d: nat) -> u8 {
    if d < 10 {
        (48 + d) as u8
    } else {
        (87 + d) as u8
    }
}

/// Lower-case base-16 text of `n`, without leading zeros.
pub open spec fn hex_text(n: nat) -> Seq<u8>
    decreases n,
{
    if n < 16 {
        seq![hex_digit(n)]
    } else {
        hex_text(n / 16) + seq![hex_digit(n % 16)]
    }
}

/// Dotted-quad text of four octets.
pub open spec fn ipv4_text(o: Seq<u8>) -> Seq<u8> {
    dec_text(o[0] as nat) + seq![46u8] + dec_text(o[1] as nat) + seq![46u8] + dec_text(
        o[2] as nat,
    ) + seq![46u8] + dec_text(o[3] as nat)
}

/// Segments in hex, separated by colons.
pub open spec fn hex_join(segs: Seq<u16>) -> Seq<u8>
    decreases segs.len(),
{
    if segs.len() == 0 {
        seq![]
    } else if segs.len() == 1 {
        hex_text(segs[0] as nat)
    } else {
        hex_join(segs.drop_last()) + seq![58u8] + hex_text(segs.last() as nat)
    }
}

/// How many zero segments follow one another from index `i` on.
pub open spec fn zero_run_at(segs: Seq<u16>, i: int) -> nat
    decreases segs.len() - i,
{
    if 0 <= i < segs.len() && segs[i] == 0 {
        1 + zero_run_at(segs, i + 1)
    } else {
        0
    }
}

/// Start and length of the longest run of zero segments that starts at `i`
/// or later; of runs of equal length, the first. Length 0 when there is none.
pub open spec fn longest_zero_run(segs: Seq<u16>, i: int) -> (int, nat)
    decreases segs.len() - i,
{
    if i < 0 || i >= segs.len() {
        (segs.len() as int, 0)
    } else {
        let (s, l) = longest_zero_run(segs, i + 1);
        let r = zero_run_at(segs, i);
        if r > 0 && r >= l {
            (i, r)
        } else {
            (s, l)
        }
    }
}

/// `::ffff:a.b.c.d`, an IPv4 address mapped into IPv6.
pub open spec fn is_ipv4_mapped(segs: Seq<u16>) -> bool {
    &&& segs[0] == 0
    &&& segs[1] == 0
    &&& segs[2] == 0
    &&& segs[3] == 0
    &&& segs[4] == 0
    &&& segs[5] == 0xffff
}

/// The four octets carried by the last two segments.
pub open spec fn low_octets(segs: Seq<u16>) -> Seq<u8> {
    seq![
        (segs[6] / 256) as u8,
        (segs[6] % 256) as u8,
        (segs[7] / 256) as u8,
        (segs[7] % 256) as u8,
    ]
}

/// Canonical IPv6 text: an IPv4-mapped address as `::ffff:` and a dotted quad;
/// otherwise lower-case hex segments, with the longest run of two or more zero
/// segments (the first of equal ones) written as `::`.
pub open spec fn ipv6_text(segs: Seq<u16>) -> Seq<u8> {
    if is_ipv4_mapped(segs) {
        seq![58u8, 58u8, 102u8, 102u8, 102u8, 102u8, 58u8] + ipv4_text(low_octets(segs))
    } else {
        let (s, l) = longest_zero_run(segs, 0);
        if l > 1 {
            hex_join(segs.subrange(0, s)) + seq![58u8, 58u8] + hex_join(
                segs.subrange(s + l, segs.len() as int),
            )
        } else {
            hex_join(segs)
        }
    }
}

/// Canonical text of an IP address.
pub open spec fn ip_text(ip: IpAddr) -> Seq<u8> {
    match ip {
        IpAddr::V4(o) => ipv4_text(o@),
        IpAddr::V6(s) => ipv6_text(s@),
    }
}

/// Appends the base-10 text of `n`.
pub fn push_dec(out: &mut Vec<u8>, n: u16)
    ensures
        final(out)@ == old(out)@ + dec_text(n as nat),
    decreases n,
{
    if n >= 10 {
        push_dec(out, n / 10);
    }
    out.push((48 + n % 10) as u8);
    proof {
        if n >= 10 {
            assert(dec_text(n as nat) == dec_text((n / 10) as nat) + seq![dec_digit((n % 10) as nat)]);
        }
    }
    assert(final(out)@ =~= old(out)@ + dec_text(n as nat));
}

/// Appends the lower-case hex text of `n`.
pub fn push_hex(out: &mut Vec<u8>, n: u16)
    ensures
        final(out)@ == old(out)@ + hex_text(n as nat),
    decreases n,
{
    if n >= 16 {
        push_hex(out, n / 16);
    }
    let d = n % 16;
    if d < 10 {
        out.push((48 + d) as u8);
    } else {
        out.push((87 + d) as u8);
    }
    proof {
        if n >= 16 {
            assert(hex_text(n as nat) == hex_text((n / 16) as nat) + seq![hex_digit((n % 16) as nat)]);
        }
    }
    assert(final(out)@ =~= old(out)@ + hex_text(n as nat));
}

/// Appends the dotted-quad text of four octets.
pub fn push_ipv4(out: &mut Vec<u8>, o: [u8; 4])
    ensures
        final(out)@ == old(out)@ + ipv4_text(o@),
{
    push_dec(out, o[0] as u16);
    out.push(46u8);
    push_dec(out, o[1] as u16);
    out.push(46u8);
    push_dec(out, o[2] as u16);
    out.push(46u8);
    push_dec(out, o[3] as u16);
    assert(final(out)@ =~= old(out)@ + ipv4_text(o@));
}

/// Appends segments `from..to` in hex, separated by colons.
fn push_hex_join(out: &mut Vec<u8>, segs: &[u16; 8], from: usize, to: usize)
    requires
        from <= to <= 8,
    ensures
        final(out)@ == old(out)@ + hex_join(segs@.subrange(from as int, to as int)),
{
    let mut i: usize = from;
    assert(hex_join(segs@.subrange(from as int, from as int)) =~= seq![]);
    assert(out@ =~= old(out)@ + hex_join(segs@.subrange(from as int, from as int)));
    while i < to
        invariant
            from <= i <= to <= 8,
            out@ == old(out)@ + hex_join(segs@.subrange(from as int, i as int)),
        decreases to - i,
    {
        let ghost prev = out@;
        if i > from {
            out.push(58u8);
        }
        push_hex(out, segs[i]);
        proof {
            let sub = segs@.subrange(from as int, i as int + 1);
            assert(sub.drop_last() =~= segs@.subrange(from as int, i as int));
            assert(sub.last() == segs@[i as int]);
            if i == from {
                assert(sub.len() == 1);
            }
        }
        i = i + 1;
        assert(out@ =~= old(out)@ + hex_join(segs@.subrange(from as int, i as int)));
    }
}

proof fn lemma_zero_run_bound(segs: Seq<u16>, i: int)
    requires
        0 <= i <= segs.len(),
    ensures
        i + zero_run_at(segs, i) <= segs.len(),
    decreases segs.len() - i,
{
    if i < segs.len() {
        lemma_zero_run_bound(segs, i + 1);
    }
}

pub proof fn lemma_longest_zero_run_bound(segs: Seq<u16>, i: int)
    requires
        0 <= i <= segs.len(),
    ensures
        0 <= longest_zero_run(segs, i).0,
        longest_zero_run(segs, i).0 + longest_zero_run(segs, i).1 <= segs.len(),
    decreases segs.len() - i,
{
    if i < segs.len() {
        lemma_longest_zero_run_bound(segs, i + 1);
        lemma_zero_run_bound(segs, i);
    }
}

/// Start and length of the longest run of zero segments, as `longest_zero_run`.
fn find_zero_run(segs: &[u16; 8]) -> (r: (usize, usize))
    ensures
        r.0 as int == longest_zero_run(segs@, 0).0,
        r.1 as nat == longest_zero_run(segs@, 0).1,
        r.0 + r.1 <= 8,
{
    let mut i: usize = 8;
    let mut run: usize = 0;
    let mut best_start: usize = 8;
    let mut best_len: usize = 0;
    while i > 0
        invariant
            i <= 8,
            segs@.len() == 8,
            run as nat == zero_run_at(segs@, i as int),
            best_start as int == longest_zero_run(segs@, i as int).0,
            best_len as nat == longest_zero_run(segs@, i as int).1,
            run <= 8 - i,
        decreases i,
    {
        i = i - 1;
        if segs[i] == 0 {
            run = run + 1;
        } else {
            run = 0;
        }
        if run > 0 && run >= best_len {
            best_start = i;
            best_len = run;
        }
    }
    proof {
        lemma_longest_zero_run_bound(segs@, 0);
    }
    (best_start, best_len)
}

/// Appends the canonical IPv6 text of the given segments.
pub fn push_ipv6(out: &mut Vec<u8>, segs: &[u16; 8])
    ensures
        final(out)@ == old(out)@ + ipv6_text(segs@),
{
    if segs[0] == 0 && segs[1] == 0 && segs[2] == 0 && segs[3] == 0 && segs[4] == 0 && segs[5]
        == 0xffff {
        out.push(58u8);
        out.push(58u8);
        out.push(102u8);
        out.push(102u8);
        out.push(102u8);
        out.push(102u8);
        out.push(58u8);
        let o: [u8; 4] = [
            (segs[6] / 256) as u8,
            (segs[6] % 256) as u8,
            (segs[7] / 256) as u8,
            (segs[7] % 256) as u8,
        ];
        push_ipv4(out, o);
        assert(o@ =~= low_octets(segs@));
        assert(final(out)@ =~= old(out)@ + ipv6_text(segs@));
    } else {
        let (s, l) = find_zero_run(segs);
        if l > 1 {
            push_hex_join(out, segs, 0, s);
            out.push(58u8);
            out.push(58u8);
            push_hex_join(out, segs, s + l, 8);
            assert(final(out)@ =~= old(out)@ + ipv6_text(segs@));
        } else {
            push_hex_join(out, segs, 0, 8);
            assert(segs@.subrange(0, 8) =~= segs@);
        }
    }
}

/// Appends the canonical text of an IP address.
pub fn push_ip(out: &mut Vec<u8>, ip: &IpAddr)
    ensures
        final(out)@ == old(out)@ + ip_text(*ip),
{
    match ip {
        IpAddr::V4(o) => push_ipv4(out, *o),
        IpAddr::V6(s) => push_ipv6(out, s),
    }
}

} // verus!

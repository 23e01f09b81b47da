//! PROXY protocol version 1: one ASCII line announcing the true endpoints of a relayed connection.
use vstd::prelude::*;
use crate::net::{
    dec_text, hex_join, hex_text, ip_text, ipv4_text, ipv6_text, is_ipv4_mapped, longest_zero_run,
    low_octets, push_dec, push_ipv4, push_ipv6, same_family, IpAddr, SocketAddr,
};

verus! {

/// The longest line that the version 1 protocol allows, CRLF included.
pub const MAX_LINE_LEN: usize = 107;

/// The addresses of a version 1 header; both ends share one family.
#[allow(inconsistent_fields)]
#[derive(Clone, Copy, Debug, PartialEq, Eq)]
pub enum Addresses {
    Tcp4 { src_ip: [u8; 4], dst_ip: [u8; 4], src_port: u16, dst_port: u16 },
    Tcp6 { src_ip: [u16; 8], dst_ip: [u16; 8], src_port: u16, dst_port: u16 },
}

/// `"PROXY TCP"`.
pub open spec fn line_prefix() -> Seq<u8> {
    seq![80u8, 82u8, 79u8, 88u8, 89u8, 32u8, 84u8, 67u8, 80u8]
}

/// `"\r\n"`.
pub open spec fn crlf() -> Seq<u8> {
    seq![13u8, 10u8]
}

/// `' '`.
pub open spec fn sp() -> Seq<u8> {
    seq![32u8]
}

/// The full header line: `PROXY TCP4|TCP6 <src> <dst> <src port> <dst port>\r\n`.
pub open spec fn v1_line(a: Addresses) -> Seq<u8> {
    match a {
        Addresses::Tcp4 { src_ip, dst_ip, src_port, dst_port } => line_prefix() + seq![52u8] + sp()
            + ipv4_text(src_ip@) + sp() + ipv4_text(dst_ip@) + sp() + dec_text(src_port as nat)
            + sp() + dec_text(dst_port as nat) + crlf(),
        Addresses::Tcp6 { src_ip, dst_ip, src_port, dst_port } => line_prefix() + seq![54u8] + sp()
            + ipv6_text(src_ip@) + sp() + ipv6_text(dst_ip@) + sp() + dec_text(src_port as nat)
            + sp() + dec_text(dst_port as nat) + crlf(),
    }
}

/// The record for a source and destination, when both share a family.
pub open spec fn spec_from_endpoints(src: SocketAddr, dst: SocketAddr) -> Option<Addresses> {
    match (src.ip, dst.ip) {
        (IpAddr::V4(s), IpAddr::V4(d)) => Some(
            Addresses::Tcp4 { src_ip: s, dst_ip: d, src_port: src.port, dst_port: dst.port },
        ),
        (IpAddr::V6(s), IpAddr::V6(d)) => Some(
            Addresses::Tcp6 { src_ip: s, dst_ip: d, src_port: src.port, dst_port: dst.port },
        ),
        _ => None,
    }
}

impl Addresses {
    /// TCP over IPv4.
    pub fn new_tcp4(src_ip: [u8; 4], dst_ip: [u8; 4], src_port: u16, dst_port: u16) -> (r:
        Addresses)
        ensures
            r == (Addresses::Tcp4 { src_ip, dst_ip, src_port, dst_port }),
    {
        Addresses::Tcp4 { src_ip, dst_ip, src_port, dst_port }
    }

    /// TCP over IPv6.
    pub fn new_tcp6(src_ip: [u16; 8], dst_ip: [u16; 8], src_port: u16, dst_port: u16) -> (r:
        Addresses)
        ensures
            r == (Addresses::Tcp6 { src_ip, dst_ip, src_port, dst_port }),
    {
        Addresses::Tcp6 { src_ip, dst_ip, src_port, dst_port }
    }

    /// The record for `src` and `dst`; `None` when their families differ.
    pub fn from_endpoints(src: &SocketAddr, dst: &SocketAddr) -> (r: Option<Addresses>)
        ensures
            r == spec_from_endpoints(*src, *dst),
            r is Some <==> same_family(src.ip, dst.ip),
    {
        match (src.ip, dst.ip) {
            (IpAddr::V4(s), IpAddr::V4(d)) => Some(
                Addresses::Tcp4 { src_ip: s, dst_ip: d, src_port: src.port, dst_port: dst.port },
            ),
            (IpAddr::V6(s), IpAddr::V6(d)) => Some(
                Addresses::Tcp6 { src_ip: s, dst_ip: d, src_port: src.port, dst_port: dst.port },
            ),
            _ => None,
        }
    }

    /// The header line, as bytes; never longer than `MAX_LINE_LEN`.
    pub fn encode(&self) -> (r: Vec<u8>)
        ensures
            r@ == v1_line(*self),
            r@.len() <= MAX_LINE_LEN,
    {
        let mut out: Vec<u8> = Vec::new();
        out.push(80u8);
        out.push(82u8);
        out.push(79u8);
        out.push(88u8);
        out.push(89u8);
        out.push(32u8);
        out.push(84u8);
        out.push(67u8);
        out.push(80u8);
        match self {
            Addresses::Tcp4 { src_ip, dst_ip, src_port, dst_port } => {
                out.push(52u8);
                out.push(32u8);
                push_ipv4(&mut out, *src_ip);
                out.push(32u8);
                push_ipv4(&mut out, *dst_ip);
                out.push(32u8);
                push_dec(&mut out, *src_port);
                out.push(32u8);
                push_dec(&mut out, *dst_port);
            },
            Addresses::Tcp6 { src_ip, dst_ip, src_port, dst_port } => {
                out.push(54u8);
                out.push(32u8);
                push_ipv6(&mut out, src_ip);
                out.push(32u8);
                push_ipv6(&mut out, dst_ip);
                out.push(32u8);
                push_dec(&mut out, *src_port);
                out.push(32u8);
                push_dec(&mut out, *dst_port);
            },
        }
        out.push(13u8);
        out.push(10u8);
        assert(out@ =~= v1_line(*self));
        proof {
            lemma_line_len(*self);
        }
        out
    }
}

/// A byte of a decimal number.
pub open spec fn is_digit(c: u8) -> bool {
    48 <= c <= 57
}

/// A non-empty run of decimal digits.
pub open spec fn is_number(s: Seq<u8>) -> bool {
    s.len() > 0 && forall|i: int| 0 <= i < s.len() ==> is_digit(#[trigger] s[i])
}

/// A non-empty run of bytes with no space, CR or LF.
pub open spec fn is_token(s: Seq<u8>) -> bool {
    s.len() > 0 && forall|i: int| 0 <= i < s.len() ==> #[trigger] s[i] != 32 && s[i] != 13 && s[i]
        != 10
}

/// `PROXY TCP[46] <token> <token> <number> <number>\r\n`.
pub open spec fn is_v1_shaped(line: Seq<u8>) -> bool {
    exists|fam: u8, a: Seq<u8>, b: Seq<u8>, p: Seq<u8>, q: Seq<u8>|
        #![trigger line_prefix() + seq![fam] + sp() + a + sp() + b + sp() + p + sp() + q + crlf()]
        (fam == 52 || fam == 54) && is_token(a) && is_token(b) && is_number(p) && is_number(q)
            && line == line_prefix() + seq![fam] + sp() + a + sp() + b + sp() + p + sp() + q
            + crlf()
}

proof fn lemma_dec_text(n: nat)
    ensures
        is_number(dec_text(n)),
        n < 10 ==> dec_text(n).len() == 1,
        n < 100 ==> dec_text(n).len() <= 2,
        n < 1000 ==> dec_text(n).len() <= 3,
        n < 10000 ==> dec_text(n).len() <= 4,
        n < 100000 ==> dec_text(n).len() <= 5,
    decreases n,
{
    if n >= 10 {
        lemma_dec_text(n / 10);
        let s = dec_text(n);
        assert(s == dec_text(n / 10) + seq![(48 + n % 10) as u8]);
        assert forall|i: int| 0 <= i < s.len() implies is_digit(#[trigger] s[i]) by {
            if i < dec_text(n / 10).len() {
                assert(s[i] == dec_text(n / 10)[i]);
            }
        }
    }
}

/// A byte that canonical IP text may hold: a hex digit, `.` or `:`.
pub open spec fn is_ip_char(c: u8) -> bool {
    48 <= c <= 58 || 97 <= c <= 102 || c == 46
}

pub open spec fn all_ip_chars(s: Seq<u8>) -> bool {
    forall|i: int| 0 <= i < s.len() ==> is_ip_char(#[trigger] s[i])
}

proof fn lemma_hex_text(n: nat)
    ensures
        all_ip_chars(hex_text(n)),
        hex_text(n).len() >= 1,
        n < 16 ==> hex_text(n).len() == 1,
        n < 256 ==> hex_text(n).len() <= 2,
        n < 4096 ==> hex_text(n).len() <= 3,
        n < 65536 ==> hex_text(n).len() <= 4,
    decreases n,
{
    if n >= 16 {
        lemma_hex_text(n / 16);
        let s = hex_text(n);
        assert(s == hex_text(n / 16) + seq![crate::net::hex_digit(n % 16)]);
        assert forall|i: int| 0 <= i < s.len() implies is_ip_char(#[trigger] s[i]) by {
            if i < hex_text(n / 16).len() {
                assert(s[i] == hex_text(n / 16)[i]);
            }
        }
    }
}

proof fn lemma_concat_ip_chars(a: Seq<u8>, b: Seq<u8>)
    requires
        all_ip_chars(a),
        all_ip_chars(b),
    ensures
        all_ip_chars(a + b),
{
    assert forall|i: int| 0 <= i < (a + b).len() implies is_ip_char(#[trigger] (a + b)[i]) by {
        if i < a.len() {
            assert((a + b)[i] == a[i]);
        } else {
            assert((a + b)[i] == b[i - a.len()]);
        }
    }
}

proof fn lemma_dec_ip_chars(n: nat)
    ensures
        all_ip_chars(dec_text(n)),
{
    lemma_dec_text(n);
}

proof fn lemma_ipv4_text(o: Seq<u8>)
    requires
        o.len() == 4,
    ensures
        all_ip_chars(ipv4_text(o)),
        1 <= ipv4_text(o).len() <= 15,
{
    lemma_dec_text(o[0] as nat);
    lemma_dec_text(o[1] as nat);
    lemma_dec_text(o[2] as nat);
    lemma_dec_text(o[3] as nat);
    lemma_dec_ip_chars(o[0] as nat);
    lemma_dec_ip_chars(o[1] as nat);
    lemma_dec_ip_chars(o[2] as nat);
    lemma_dec_ip_chars(o[3] as nat);
    let dot = seq![46u8];
    assert(all_ip_chars(dot));
    lemma_concat_ip_chars(dec_text(o[0] as nat), dot);
    lemma_concat_ip_chars(dec_text(o[0] as nat) + dot, dec_text(o[1] as nat));
    lemma_concat_ip_chars(dec_text(o[0] as nat) + dot + dec_text(o[1] as nat), dot);
    lemma_concat_ip_chars(
        dec_text(o[0] as nat) + dot + dec_text(o[1] as nat) + dot,
        dec_text(o[2] as nat),
    );
    lemma_concat_ip_chars(
        dec_text(o[0] as nat) + dot + dec_text(o[1] as nat) + dot + dec_text(o[2] as nat),
        dot,
    );
    lemma_concat_ip_chars(
        dec_text(o[0] as nat) + dot + dec_text(o[1] as nat) + dot + dec_text(o[2] as nat) + dot,
        dec_text(o[3] as nat),
    );
}

proof fn lemma_hex_join(segs: Seq<u16>)
    ensures
        all_ip_chars(hex_join(segs)),
        segs.len() == 0 ==> hex_join(segs).len() == 0,
        segs.len() > 0 ==> 1 <= hex_join(segs).len() <= 5 * segs.len() - 1,
    decreases segs.len(),
{
    if segs.len() == 1 {
        lemma_hex_text(segs[0] as nat);
    } else if segs.len() > 1 {
        lemma_hex_join(segs.drop_last());
        lemma_hex_text(segs.last() as nat);
        assert(all_ip_chars(seq![58u8]));
        lemma_concat_ip_chars(hex_join(segs.drop_last()), seq![58u8]);
        lemma_concat_ip_chars(hex_join(segs.drop_last()) + seq![58u8], hex_text(segs.last() as nat));
    }
}

proof fn lemma_ipv6_text(segs: Seq<u16>)
    requires
        segs.len() == 8,
    ensures
        all_ip_chars(ipv6_text(segs)),
        1 <= ipv6_text(segs).len() <= 39,
{
    if is_ipv4_mapped(segs) {
        lemma_ipv4_text(low_octets(segs));
        let head = seq![58u8, 58u8, 102u8, 102u8, 102u8, 102u8, 58u8];
        assert(all_ip_chars(head));
        lemma_concat_ip_chars(head, ipv4_text(low_octets(segs)));
    } else {
        let (s, l) = longest_zero_run(segs, 0);
        crate::net::lemma_longest_zero_run_bound(segs, 0);
        if l > 1 {
            let a = segs.subrange(0, s);
            let b = segs.subrange(s + l, 8);
            lemma_hex_join(a);
            lemma_hex_join(b);
            assert(all_ip_chars(seq![58u8, 58u8]));
            lemma_concat_ip_chars(hex_join(a), seq![58u8, 58u8]);
            lemma_concat_ip_chars(hex_join(a) + seq![58u8, 58u8], hex_join(b));
        } else {
            lemma_hex_join(segs);
        }
    }
}

proof fn lemma_ip_text(ip: IpAddr)
    ensures
        all_ip_chars(ip_text(ip)),
        1 <= ip_text(ip).len() <= 39,
        ip is V4 ==> ip_text(ip).len() <= 15,
{
    match ip {
        IpAddr::V4(o) => lemma_ipv4_text(o@),
        IpAddr::V6(s) => lemma_ipv6_text(s@),
    }
}

proof fn lemma_ip_token(ip: IpAddr)
    ensures
        is_token(ip_text(ip)),
{
    lemma_ip_text(ip);
    let t = ip_text(ip);
    assert forall|i: int| 0 <= i < t.len() implies #[trigger] t[i] != 32 && t[i] != 13 && t[i]
        != 10 by {
        assert(is_ip_char(t[i]));
    }
}

proof fn lemma_line_len(a: Addresses)
    ensures
        v1_line(a).len() <= MAX_LINE_LEN,
{
    match a {
        Addresses::Tcp4 { src_ip, dst_ip, src_port, dst_port } => {
            lemma_ip_text(IpAddr::V4(src_ip));
            lemma_ip_text(IpAddr::V4(dst_ip));
        },
        Addresses::Tcp6 { src_ip, dst_ip, src_port, dst_port } => {
            lemma_ip_text(IpAddr::V6(src_ip));
            lemma_ip_text(IpAddr::V6(dst_ip));
        },
    }
    match a {
        Addresses::Tcp4 { src_port, dst_port, .. } | Addresses::Tcp6 { src_port, dst_port, .. } => {
            lemma_dec_text(src_port as nat);
            lemma_dec_text(dst_port as nat);
        },
    }
}

/// Every version 1 line has the shape `PROXY TCP[46] <addr> <addr> <port> <port>\r\n`
/// and is at most `MAX_LINE_LEN` bytes long.
pub proof fn lemma_v1_line_shape(a: Addresses)
    ensures
        is_v1_shaped(v1_line(a)),
        v1_line(a).len() <= MAX_LINE_LEN,
{
    lemma_line_len(a);
    match a {
        Addresses::Tcp4 { src_ip, dst_ip, src_port, dst_port } => {
            lemma_ip_token(IpAddr::V4(src_ip));
            lemma_ip_token(IpAddr::V4(dst_ip));
            lemma_dec_text(src_port as nat);
            lemma_dec_text(dst_port as nat);
            let (sa, da, p, q) = (
                ipv4_text(src_ip@),
                ipv4_text(dst_ip@),
                dec_text(src_port as nat),
                dec_text(dst_port as nat),
            );
            assert(v1_line(a) == line_prefix() + seq![52u8] + sp() + sa + sp() + da + sp() + p
                + sp() + q + crlf());
        },
        Addresses::Tcp6 { src_ip, dst_ip, src_port, dst_port } => {
            lemma_ip_token(IpAddr::V6(src_ip));
            lemma_ip_token(IpAddr::V6(dst_ip));
            lemma_dec_text(src_port as nat);
            lemma_dec_text(dst_port as nat);
            let (sa, da, p, q) = (
                ipv6_text(src_ip@),
                ipv6_text(dst_ip@),
                dec_text(src_port as nat),
                dec_text(dst_port as nat),
            );
            assert(v1_line(a) == line_prefix() + seq![54u8] + sp() + sa + sp() + da + sp() + p
                + sp() + q + crlf());
        },
    }
}

} // verus!

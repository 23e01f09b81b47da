//! PROXY protocol version 2: a binary header with an optional opaque tail.
use vstd::prelude::*;

verus! {

/// The largest value of the header's 16-bit length field.
pub const MAX_LENGTH: usize = 65535;

/// What the receiver is asked to do with the connection.
#[derive(Clone, Copy, Debug, PartialEq, Eq)]
pub enum Command {
    /// The connection was made by the proxy itself (health checks and the like).
    Local,
    /// The connection is relayed on behalf of another endpoint.
    Proxy,
}

/// The transport of the relayed connection.
#[derive(Clone, Copy, Debug, PartialEq, Eq)]
pub enum Protocol {
    Unspecified,
    Stream,
    Datagram,
}

/// The address block of a header.
#[allow(inconsistent_fields)]
#[derive(Clone, Copy, Debug, PartialEq, Eq)]
pub enum Addresses {
    Unspecified,
    IPv4 { src_ip: [u8; 4], dst_ip: [u8; 4], src_port: u16, dst_port: u16 },
    IPv6 { src_ip: [u16; 8], dst_ip: [u16; 8], src_port: u16, dst_port: u16 },
    Unix { src: [u8; 108], dst: [u8; 108] },
}

/// Why a header cannot be built.
#[derive(Clone, Copy, Debug, PartialEq, Eq)]
pub enum EncodeError {
    /// Address block and payload together exceed the 16-bit length field.
    PayloadTooLarge,
}

/// A header under construction.
#[derive(Clone, Debug)]
pub struct Builder {
    pub command: Command,
    pub protocol: Protocol,
    pub addresses: Addresses,
    pub payload: Vec<u8>,
}

/// The twelve bytes that open every version 2 header.
pub open spec fn signature() -> Seq<u8> {
    seq![0x0Du8, 0x0Au8, 0x0Du8, 0x0Au8, 0x00u8, 0x0Du8, 0x0Au8, 0x51u8, 0x55u8, 0x49u8, 0x54u8, 0x0Au8]
}

pub open spec fn command_nibble(c: Command) -> u8 {
    match c {
        Command::Local => 0,
        Command::Proxy => 1,
    }
}

pub open spec fn protocol_nibble(p: Protocol) -> u8 {
    match p {
        Protocol::Unspecified => 0,
        Protocol::Stream => 1,
        Protocol::Datagram => 2,
    }
}

pub open spec fn family_nibble(a: Addresses) -> u8 {
    match a {
        Addresses::Unspecified => 0,
        Addresses::IPv4 { .. } => 1,
        Addresses::IPv6 { .. } => 2,
        Addresses::Unix { .. } => 3,
    }
}

/// `n` as two bytes, most significant first.
pub open spec fn be16(n: nat) -> Seq<u8> {
    seq![(n / 256) as u8, (n % 256) as u8]
}

/// IPv6 segments as bytes, each most significant first.
pub open spec fn segments_be(s: Seq<u16>) -> Seq<u8> {
    Seq::new(
        2 * s.len(),
        |i: int|
            if i % 2 == 0 {
                (s[i / 2] / 256) as u8
            } else {
                (s[i / 2] % 256) as u8
            },
    )
}

/// The address block: source and destination addresses, then the ports.
pub open spec fn address_block(a: Addresses) -> Seq<u8> {
    match a {
        Addresses::Unspecified => seq![],
        Addresses::IPv4 { src_ip, dst_ip, src_port, dst_port } => src_ip@ + dst_ip@ + be16(
            src_port as nat,
        ) + be16(dst_port as nat),
        Addresses::IPv6 { src_ip, dst_ip, src_port, dst_port } => segments_be(src_ip@)
            + segments_be(dst_ip@) + be16(src_port as nat) + be16(dst_port as nat),
        Addresses::Unix { src, dst } => src@ + dst@,
    }
}

/// The value of the length field: address block plus payload.
pub open spec fn body_len(a: Addresses, payload: Seq<u8>) -> nat {
    address_block(a).len() + payload.len()
}

/// The whole header.
pub open spec fn header_bytes(c: Command, p: Protocol, a: Addresses, payload: Seq<u8>) -> Seq<u8> {
    signature() + seq![(0x20 + command_nibble(c)) as u8, (family_nibble(a) * 16 + protocol_nibble(p)) as u8]
        + be16(body_len(a, payload)) + address_block(a) + payload
}

/// Appends all of `b`.
pub fn push_all(out: &mut Vec<u8>, b: &[u8])
    ensures
        final(out)@ == old(out)@ + b@,
{
    let mut i: usize = 0;
    while i < b.len()
        invariant
            i <= b@.len(),
            out@ == old(out)@ + b@.subrange(0, i as int),
        decreases b@.len() - i,
    {
        out.push(b[i]);
        i = i + 1;
        assert(out@ =~= old(out)@ + b@.subrange(0, i as int));
    }
    assert(b@.subrange(0, b@.len() as int) =~= b@);
}

fn push_be16(out: &mut Vec<u8>, n: u16)
    ensures
        final(out)@ == old(out)@ + be16(n as nat),
{
    out.push((n / 256) as u8);
    out.push((n % 256) as u8);
    assert(final(out)@ =~= old(out)@ + be16(n as nat));
}

fn push_segments(out: &mut Vec<u8>, s: &[u16; 8])
    ensures
        final(out)@ == old(out)@ + segments_be(s@),
{
    let mut i: usize = 0;
    while i < 8
        invariant
            i <= 8,
            s@.len() == 8,
            out@ == old(out)@ + segments_be(s@.subrange(0, i as int)),
        decreases 8 - i,
    {
        push_be16(out, s[i]);
        i = i + 1;
        assert(out@ =~= old(out)@ + segments_be(s@.subrange(0, i as int)));
    }
    assert(s@.subrange(0, 8) =~= s@);
}

fn push_address_block(out: &mut Vec<u8>, a: &Addresses)
    ensures
        final(out)@ == old(out)@ + address_block(*a),
{
    match a {
        Addresses::Unspecified => {
            assert(final(out)@ =~= old(out)@ + address_block(*a));
        },
        Addresses::IPv4 { src_ip, dst_ip, src_port, dst_port } => {
            push_all(out, src_ip);
            push_all(out, dst_ip);
            push_be16(out, *src_port);
            push_be16(out, *dst_port);
            assert(final(out)@ =~= old(out)@ + address_block(*a));
        },
        Addresses::IPv6 { src_ip, dst_ip, src_port, dst_port } => {
            push_segments(out, src_ip);
            push_segments(out, dst_ip);
            push_be16(out, *src_port);
            push_be16(out, *dst_port);
            assert(final(out)@ =~= old(out)@ + address_block(*a));
        },
        Addresses::Unix { src, dst } => {
            push_all(out, src);
            push_all(out, dst);
            assert(final(out)@ =~= old(out)@ + address_block(*a));
        },
    }
}

impl Addresses {
    /// Length of the address block: 0, 12, 36 or 216 bytes.
    pub fn block_len(&self) -> (r: usize)
        ensures
            r == address_block(*self).len(),
            r <= 216,
    {
        match self {
            Addresses::Unspecified => 0,
            Addresses::IPv4 { .. } => 12,
            Addresses::IPv6 { .. } => 36,
            Addresses::Unix { .. } => 216,
        }
    }
}

impl Builder {
    /// A header with the given command, protocol and addresses, and no payload.
    pub fn with_addresses(command: Command, protocol: Protocol, addresses: Addresses) -> (r:
        Builder)
        ensures
            r.command == command,
            r.protocol == protocol,
            r.addresses == addresses,
            r.payload@ == Seq::<u8>::empty(),
    {
        Builder { command, protocol, addresses, payload: Vec::new() }
    }

    /// Appends `payload` after what was written before. Fails when the length
    /// field could no longer hold address block and payload.
    pub fn write_payload(self, payload: &[u8]) -> (r: Result<Builder, EncodeError>)
        ensures
            r is Err <==> body_len(self.addresses, self.payload@ + payload@) > MAX_LENGTH,
            r is Err ==> r == Err::<Builder, EncodeError>(EncodeError::PayloadTooLarge),
            r matches Ok(b) ==> b.command == self.command && b.protocol == self.protocol
                && b.addresses == self.addresses && b.payload@ == self.payload@ + payload@,
    {
        let block = self.addresses.block_len();
        if self.payload.len() > MAX_LENGTH || payload.len() > MAX_LENGTH - self.payload.len()
            || self.payload.len() + payload.len() > MAX_LENGTH - block {
            return Err(EncodeError::PayloadTooLarge);
        }
        let mut b = self;
        push_all(&mut b.payload, payload);
        Ok(b)
    }

    /// The header's bytes. Fails when the length field cannot hold address
    /// block and payload.
    pub fn build(&self) -> (r: Result<Vec<u8>, EncodeError>)
        ensures
            r is Err <==> body_len(self.addresses, self.payload@) > MAX_LENGTH,
            r is Err ==> r == Err::<Vec<u8>, EncodeError>(EncodeError::PayloadTooLarge),
            r matches Ok(v) ==> v@ == header_bytes(
                self.command,
                self.protocol,
                self.addresses,
                self.payload@,
            ),
    {
        let block = self.addresses.block_len();
        if self.payload.len() > MAX_LENGTH - block {
            return Err(EncodeError::PayloadTooLarge);
        }
        let len = (block + self.payload.len()) as u16;
        let mut out: Vec<u8> = Vec::new();
        let sig: [u8; 12] = [0x0D, 0x0A, 0x0D, 0x0A, 0x00, 0x0D, 0x0A, 0x51, 0x55, 0x49, 0x54, 0x0A];
        push_all(&mut out, &sig);
        let cmd: u8 = match self.command {
            Command::Local => 0,
            Command::Proxy => 1,
        };
        out.push(0x20 + cmd);
        let fam: u8 = match self.addresses {
            Addresses::Unspecified => 0,
            Addresses::IPv4 { .. } => 1,
            Addresses::IPv6 { .. } => 2,
            Addresses::Unix { .. } => 3,
        };
        let proto: u8 = match self.protocol {
            Protocol::Unspecified => 0,
            Protocol::Stream => 1,
            Protocol::Datagram => 2,
        };
        out.push(fam * 16 + proto);
        push_be16(&mut out, len);
        push_address_block(&mut out, &self.addresses);
        push_all(&mut out, self.payload.as_slice());
        assert(sig@ =~= signature());
        assert(out@ =~= header_bytes(self.command, self.protocol, self.addresses, self.payload@));
        Ok(out)
    }
}

/// The length field (bytes 14 and 15, big-endian) of every header equals the
/// address block's length plus the payload's.
pub proof fn lemma_v2_length_field(c: Command, p: Protocol, a: Addresses, payload: Seq<u8>)
    requires
        body_len(a, payload) <= MAX_LENGTH,
    ensures
        ({
            let h = header_bytes(c, p, a, payload);
            h[14] as nat * 256 + h[15] as nat == address_block(a).len() + payload.len()
        }),
        address_block(a).len() == match a {
            Addresses::Unspecified => 0nat,
            Addresses::IPv4 { .. } => 12nat,
            Addresses::IPv6 { .. } => 36nat,
            Addresses::Unix { .. } => 216nat,
        },
{
    let h = header_bytes(c, p, a, payload);
    let n = body_len(a, payload);
    assert(h[14] == (n / 256) as u8);
    assert(h[15] == (n % 256) as u8);
}

/// Every header opens with the twelve-byte signature, and the high nibble of
/// its thirteenth byte is the version, 2.
pub proof fn lemma_v2_signature(c: Command, p: Protocol, a: Addresses, payload: Seq<u8>)
    ensures
        header_bytes(c, p, a, payload).subrange(0, 12) == signature(),
        header_bytes(c, p, a, payload)[12] / 16 == 2,
{
    let h = header_bytes(c, p, a, payload);
    assert(h.subrange(0, 12) =~= signature());
    assert(h[12] == (0x20 + command_nibble(c)) as u8);
}

} // verus!

//! SOCKS5 address model: a literal socket address (IPv4 or IPv6) or a
//! domain name with a port, and its wire encoding: one type byte
//! (0x01 = IPv4, 0x03 = domain name, 0x04 = IPv6), the address payload
//! (4 octets, a length-prefixed name, or 16 octets) and a big-endian port.

use vstd::prelude::*;

verus! {

/// Wire type byte for an IPv4 literal address.
pub const ADDR_TYPE_IPV4: u8 = 0x01;

/// Wire type byte for a domain-name address.
pub const ADDR_TYPE_DOMAIN: u8 = 0x03;

/// Wire type byte for an IPv6 literal address.
pub const ADDR_TYPE_IPV6: u8 = 0x04;

/// Error for malformed or unsupported SOCKS5 wire data.  Decoders fail with
/// the most specific kind and never retry internally.
#[derive(Clone, Copy, Debug, PartialEq, Eq, Structural)]
pub enum ProtocolError {
    /// A version byte other than 0x05 was found.
    VersionMismatch,
    /// An address type byte other than 0x01, 0x03 or 0x04 was found.
    UnsupportedAddressType,
    /// Fewer bytes remain than the message requires.
    Truncated,
}

/// A literal socket address: IP octets plus a port.
pub enum SocketAddress {
    V4 { octets: Vec<u8>, port: u16 },
    V6 { octets: Vec<u8>, port: u16 },
}

/// Mathematical model of a literal socket address.
pub enum SocketAddressView {
    V4 { octets: Seq<u8>, port: u16 },
    V6 { octets: Seq<u8>, port: u16 },
}

impl View for SocketAddress {
    type V = SocketAddressView;

    open spec fn view(&self) -> SocketAddressView {
        match self {
            SocketAddress::V4 { octets, port } => SocketAddressView::V4 {
                octets: octets@,
                port: *port,
            },
            SocketAddress::V6 { octets, port } => SocketAddressView::V6 {
                octets: octets@,
                port: *port,
            },
        }
    }
}

impl SocketAddressView {
    /// An IPv4 address has exactly 4 octets, an IPv6 address exactly 16.
    pub open spec fn wf(self) -> bool {
        match self {
            SocketAddressView::V4 { octets, .. } => octets.len() == 4,
            SocketAddressView::V6 { octets, .. } => octets.len() == 16,
        }
    }
}

impl SocketAddress {
    /// Builds an IPv4 literal; rejects octet strings that are not 4 bytes.
    pub fn new_v4(octets: Vec<u8>, port: u16) -> (r: Option<SocketAddress>)
        ensures
            r is Some <==> octets@.len() == 4,
            r matches Some(a) ==> a@ == (SocketAddressView::V4 { octets: octets@, port }),
    {
        if octets.len() == 4 {
            Some(SocketAddress::V4 { octets, port })
        } else {
            None
        }
    }

    /// Builds an IPv6 literal; rejects octet strings that are not 16 bytes.
    pub fn new_v6(octets: Vec<u8>, port: u16) -> (r: Option<SocketAddress>)
        ensures
            r is Some <==> octets@.len() == 16,
            r matches Some(a) ==> a@ == (SocketAddressView::V6 { octets: octets@, port }),
    {
        if octets.len() == 16 {
            Some(SocketAddress::V6 { octets, port })
        } else {
            None
        }
    }

    /// An owned copy with the same model value.
    pub fn duplicate(&self) -> (r: SocketAddress)
        ensures
            r@ == self@,
    {
        match self {
            SocketAddress::V4 { octets, port } => SocketAddress::V4 {
                octets: copy_bytes(octets),
                port: *port,
            },
            SocketAddress::V6 { octets, port } => SocketAddress::V6 {
                octets: copy_bytes(octets),
                port: *port,
            },
        }
    }

    /// The port of the address.
    pub fn port(&self) -> (r: u16)
        ensures
            r == self@.port_of(),
    {
        match self {
            SocketAddress::V4 { port, .. } => *port,
            SocketAddress::V6 { port, .. } => *port,
        }
    }

    /// True exactly when the two addresses denote the same endpoint.
    pub fn same_as(&self, other: &SocketAddress) -> (r: bool)
        ensures
            r <==> self@ == other@,
    {
        match (self, other) {
            (
                SocketAddress::V4 { octets: a, port: p },
                SocketAddress::V4 { octets: b, port: q },
            ) => bytes_eq(a, b) && *p == *q,
            (
                SocketAddress::V6 { octets: a, port: p },
                SocketAddress::V6 { octets: b, port: q },
            ) => bytes_eq(a, b) && *p == *q,
            _ => false,
        }
    }
}

impl SocketAddressView {
    /// The port of the address.
    pub open spec fn port_of(self) -> u16 {
        match self {
            SocketAddressView::V4 { port, .. } => port,
            SocketAddressView::V6 { port, .. } => port,
        }
    }
}

/// A SOCKS5 endpoint: either a literal socket address or a domain name
/// (at most 255 bytes once encoded) with a port.
pub enum Address {
    Literal(SocketAddress),
    DomainName(Vec<u8>, u16),
}

/// Mathematical model of a SOCKS5 endpoint.
pub enum AddressView {
    Literal(SocketAddressView),
    DomainName(Seq<u8>, u16),
}

impl View for Address {
    type V = AddressView;

    open spec fn view(&self) -> AddressView {
        match self {
            Address::Literal(sa) => AddressView::Literal(sa@),
            Address::DomainName(name, port) => AddressView::DomainName(name@, *port),
        }
    }
}

impl AddressView {
    /// Octet counts fit their address family and the name fits its
    /// one-byte length prefix.
    pub open spec fn wf(self) -> bool {
        match self {
            AddressView::Literal(sa) => sa.wf(),
            AddressView::DomainName(name, _) => name.len() <= 255,
        }
    }
}

impl Address {
    /// Builds a domain-name endpoint; rejects names longer than 255 bytes.
    pub fn new_domain(name: Vec<u8>, port: u16) -> (r: Option<Address>)
        ensures
            r is Some <==> name@.len() <= 255,
            r matches Some(a) ==> a@ == AddressView::DomainName(name@, port),
    {
        if name.len() <= 255 {
            Some(Address::DomainName(name, port))
        } else {
            None
        }
    }

    /// An owned copy with the same model value.
    pub fn duplicate(&self) -> (r: Address)
        ensures
            r@ == self@,
    {
        match self {
            Address::Literal(sa) => Address::Literal(sa.duplicate()),
            Address::DomainName(name, port) => Address::DomainName(copy_bytes(name), *port),
        }
    }

    /// True exactly when the two endpoints denote the same destination.
    pub fn same_as(&self, other: &Address) -> (r: bool)
        ensures
            r <==> self@ == other@,
    {
        match (self, other) {
            (Address::Literal(a), Address::Literal(b)) => a.same_as(b),
            (Address::DomainName(a, p), Address::DomainName(b, q)) => bytes_eq(a, b) && *p == *q,
            _ => false,
        }
    }
}

/// True exactly when the two byte strings are equal.
pub fn bytes_eq(a: &Vec<u8>, b: &Vec<u8>) -> (r: bool)
    ensures
        r <==> a@ == b@,
{
    if a.len() != b.len() {
        return false;
    }
    let n = a.len();
    let mut i: usize = 0;
    while i < n
        invariant
            n == a@.len() == b@.len(),
            i <= n,
            forall|j: int| 0 <= j < i ==> a@[j] == b@[j],
        decreases n - i,
    {
        if a[i] != b[i] {
            return false;
        }
        i += 1;
    }
    proof {
        assert(a@ =~= b@);
    }
    true
}

/// An owned copy of a byte string.
pub fn copy_bytes(a: &Vec<u8>) -> (r: Vec<u8>)
    ensures
        r@ == a@,
{
    copy_range(a, 0, a.len())
}

/// An owned copy of `buf[start .. start + count]`.
pub fn copy_range(buf: &Vec<u8>, start: usize, count: usize) -> (r: Vec<u8>)
    requires
        start + count <= buf@.len(),
    ensures
        r@ == buf@.subrange(start as int, start as int + count as int),
{
    let len: usize = buf.len();
    let mut r: Vec<u8> = Vec::new();
    let mut i: usize = 0;
    while i < count
        invariant
            len == buf@.len(),
            start + count <= buf@.len(),
            i <= count,
            r@ == buf@.subrange(start as int, start as int + i as int),
        decreases count - i,
    {
        r.push(buf[start + i]);
        proof {
            assert(r@ =~= buf@.subrange(start as int, start as int + (i + 1) as int));
        }
        i += 1;
    }
    r
}

/// Appends all of `bytes` to `out`.
pub fn push_bytes(out: &mut Vec<u8>, bytes: &Vec<u8>)
    ensures
        final(out)@ == old(out)@ + bytes@,
{
    let n = bytes.len();
    let mut i: usize = 0;
    while i < n
        invariant
            n == bytes@.len(),
            i <= n,
            out@ == old(out)@ + bytes@.subrange(0, i as int),
        decreases n - i,
    {
        out.push(bytes[i]);
        proof {
            assert(out@ =~= old(out)@ + bytes@.subrange(0, (i + 1) as int));
        }
        i += 1;
    }
    proof {
        assert(bytes@.subrange(0, n as int) =~= bytes@);
    }
}

/// High byte of a big-endian port.
pub open spec fn spec_port_hi(p: u16) -> u8 {
    (p / 256) as u8
}

/// Low byte of a big-endian port.
pub open spec fn spec_port_lo(p: u16) -> u8 {
    (p % 256) as u8
}

/// The port read back from its two big-endian bytes.
pub open spec fn spec_port_from_be(hi: u8, lo: u8) -> u16 {
    (hi as int * 256 + lo as int) as u16
}

/// Reading the two big-endian bytes of a port gives the port back.
pub proof fn lemma_port_round_trip(p: u16)
    ensures
        spec_port_from_be(spec_port_hi(p), spec_port_lo(p)) == p,
{
    assert(p as int == (p as int / 256) * 256 + p as int % 256) by (nonlinear_arith);
}

/// Reads a big-endian port from two bytes.
pub fn port_from_be(hi: u8, lo: u8) -> (r: u16)
    ensures
        r == spec_port_from_be(hi, lo),
{
    (hi as u16) * 256 + (lo as u16)
}

/// Appends the two big-endian bytes of a port.
pub fn push_port(out: &mut Vec<u8>, p: u16)
    ensures
        final(out)@ == old(out)@ + seq![spec_port_hi(p), spec_port_lo(p)],
{
    out.push((p / 256) as u8);
    out.push((p % 256) as u8);
    proof {
        assert(out@ =~= old(out)@ + seq![spec_port_hi(p), spec_port_lo(p)]);
    }
}

/// The wire encoding of a literal socket address (type byte, octets, port).
pub open spec fn spec_encode_socket_address(sa: SocketAddressView) -> Seq<u8> {
    match sa {
        SocketAddressView::V4 { octets, port } => seq![ADDR_TYPE_IPV4] + octets + seq![
            spec_port_hi(port),
            spec_port_lo(port),
        ],
        SocketAddressView::V6 { octets, port } => seq![ADDR_TYPE_IPV6] + octets + seq![
            spec_port_hi(port),
            spec_port_lo(port),
        ],
    }
}

/// The wire encoding of a SOCKS5 endpoint.
pub open spec fn spec_encode_address(a: AddressView) -> Seq<u8> {
    match a {
        AddressView::Literal(sa) => spec_encode_socket_address(sa),
        AddressView::DomainName(name, port) => seq![ADDR_TYPE_DOMAIN, name.len() as u8] + name
            + seq![spec_port_hi(port), spec_port_lo(port)],
    }
}

/// Appends the wire encoding of `addr` to `out`.
pub fn encode_address(addr: &Address, out: &mut Vec<u8>)
    requires
        addr@.wf(),
    ensures
        final(out)@ == old(out)@ + spec_encode_address(addr@),
{
    match addr {
        Address::Literal(SocketAddress::V4 { octets, port }) => {
            out.push(ADDR_TYPE_IPV4);
            push_bytes(out, octets);
            push_port(out, *port);
            proof {
                assert(out@ =~= old(out)@ + spec_encode_address(addr@));
            }
        },
        Address::Literal(SocketAddress::V6 { octets, port }) => {
            out.push(ADDR_TYPE_IPV6);
            push_bytes(out, octets);
            push_port(out, *port);
            proof {
                assert(out@ =~= old(out)@ + spec_encode_address(addr@));
            }
        },
        Address::DomainName(name, port) => {
            out.push(ADDR_TYPE_DOMAIN);
            out.push(name.len() as u8);
            push_bytes(out, name);
            push_port(out, *port);
            proof {
                assert(out@ =~= old(out)@ + spec_encode_address(addr@));
            }
        },
    }
}

/// The result of decoding an address from the front of `s`: the endpoint and
/// the number of bytes it occupied, or the specific wire error.
pub open spec fn spec_decode_address(s: Seq<u8>) -> Result<(AddressView, int), ProtocolError> {
    if s.len() < 1 {
        Err(ProtocolError::Truncated)
    } else if s[0] == ADDR_TYPE_IPV4 {
        if s.len() < 7 {
            Err(ProtocolError::Truncated)
        } else {
            Ok(
                (
                    AddressView::Literal(
                        SocketAddressView::V4 {
                            octets: s.subrange(1, 5),
                            port: spec_port_from_be(s[5], s[6]),
                        },
                    ),
                    7,
                ),
            )
        }
    } else if s[0] == ADDR_TYPE_DOMAIN {
        if s.len() < 2 {
            Err(ProtocolError::Truncated)
        } else if s.len() < 4 + s[1] as int {
            Err(ProtocolError::Truncated)
        } else {
            Ok(
                (
                    AddressView::DomainName(
                        s.subrange(2, 2 + s[1] as int),
                        spec_port_from_be(s[2 + s[1] as int], s[3 + s[1] as int]),
                    ),
                    4 + s[1] as int,
                ),
            )
        }
    } else if s[0] == ADDR_TYPE_IPV6 {
        if s.len() < 19 {
            Err(ProtocolError::Truncated)
        } else {
            Ok(
                (
                    AddressView::Literal(
                        SocketAddressView::V6 {
                            octets: s.subrange(1, 17),
                            port: spec_port_from_be(s[17], s[18]),
                        },
                    ),
                    19,
                ),
            )
        }
    } else {
        Err(ProtocolError::UnsupportedAddressType)
    }
}

/// Decodes an address from `buf` starting at `pos`; on success returns the
/// endpoint and the position of the first byte after it.
pub fn decode_address(buf: &Vec<u8>, pos: usize) -> (r: Result<(Address, usize), ProtocolError>)
    requires
        pos <= buf@.len(),
    ensures
        match r {
            Ok(p) => spec_decode_address(buf@.skip(pos as int)) matches Ok(q) && p.0@ == q.0
                && p.0@.wf() && p.1 == pos + q.1 && pos < p.1 <= buf@.len(),
            Err(e) => spec_decode_address(buf@.skip(pos as int)) == Err::<
                (AddressView, int),
                ProtocolError,
            >(e),
        },
{
    let ghost s: Seq<u8> = buf@.skip(pos as int);
    proof {
        assert forall|j: int| 0 <= j < s.len() implies s[j] == buf@[pos + j] by {}
    }
    let remaining: usize = buf.len() - pos;
    if remaining < 1 {
        return Err(ProtocolError::Truncated);
    }
    let t: u8 = buf[pos];
    if t == ADDR_TYPE_IPV4 {
        if remaining < 7 {
            return Err(ProtocolError::Truncated);
        }
        let octets = copy_range(buf, pos + 1, 4);
        proof {
            assert(octets@ =~= s.subrange(1, 5));
        }
        let port = port_from_be(buf[pos + 5], buf[pos + 6]);
        let a = Address::Literal(SocketAddress::V4 { octets, port });
        Ok((a, pos + 7))
    } else if t == ADDR_TYPE_DOMAIN {
        if remaining < 2 {
            return Err(ProtocolError::Truncated);
        }
        let n: usize = buf[pos + 1] as usize;
        if remaining < 4 || remaining - 4 < n {
            return Err(ProtocolError::Truncated);
        }
        let name = copy_range(buf, pos + 2, n);
        proof {
            assert(name@ =~= s.subrange(2, 2 + s[1] as int));
        }
        let port = port_from_be(buf[pos + 2 + n], buf[pos + 3 + n]);
        let a = Address::DomainName(name, port);
        Ok((a, pos + 4 + n))
    } else if t == ADDR_TYPE_IPV6 {
        if remaining < 19 {
            return Err(ProtocolError::Truncated);
        }
        let octets = copy_range(buf, pos + 1, 16);
        proof {
            assert(octets@ =~= s.subrange(1, 17));
        }
        let port = port_from_be(buf[pos + 17], buf[pos + 18]);
        let a = Address::Literal(SocketAddress::V6 { octets, port });
        Ok((a, pos + 19))
    } else {
        Err(ProtocolError::UnsupportedAddressType)
    }
}

/// Round trip: decoding an encoded endpoint from the front of any buffer
/// gives the endpoint back exactly and consumes exactly its encoding.
pub proof fn lemma_address_round_trip(a: AddressView, rest: Seq<u8>)
    requires
        a.wf(),
    ensures
        spec_decode_address(spec_encode_address(a) + rest) matches Ok(p) && p.0 == a && p.1
            == spec_encode_address(a).len(),
{
    let enc = spec_encode_address(a);
    let s = enc + rest;
    match a {
        AddressView::Literal(sa) => {
            let (octets, port, tb, n) = match sa {
                SocketAddressView::V4 { octets, port } => (octets, port, ADDR_TYPE_IPV4, 7int),
                SocketAddressView::V6 { octets, port } => (octets, port, ADDR_TYPE_IPV6, 19int),
            };
            assert(enc.len() == n);
            assert(s[0] == tb);
            assert(s.subrange(1, n - 2) =~= octets);
            assert(s[n - 2] == spec_port_hi(port));
            assert(s[n - 1] == spec_port_lo(port));
            lemma_port_round_trip(port);
        },
        AddressView::DomainName(name, port) => {
            let n = name.len() as int;
            assert(enc.len() == 4 + n);
            assert(s[0] == ADDR_TYPE_DOMAIN);
            assert(s[1] == n as u8);
            assert(s[1] as int == n);
            assert(s.subrange(2, 2 + n) =~= name);
            assert(s[2 + n] == spec_port_hi(port));
            assert(s[3 + n] == spec_port_lo(port));
            lemma_port_round_trip(port);
        },
    }
}

} // verus!

//! SOCKS5 UDP associate frames: two reserved bytes, a fragment byte, the
//! target address, then the raw payload with no further framing — the frame
//! boundary is the transport datagram boundary.  Fragment 0 means a
//! standalone, unfragmented datagram; only that case is fully supported by
//! this client.

use vstd::prelude::*;

use crate::address::{
    decode_address, encode_address, spec_decode_address, spec_encode_address, Address, AddressView,
    ProtocolError,
};
use crate::tcp::RESERVED;

verus! {

/// A UDP associate datagram: fragment number, target address and payload.
pub struct UdpFrame {
    pub fragment: u8,
    pub address: Address,
    pub payload: Vec<u8>,
}

/// Mathematical model of a UDP associate datagram.
pub struct UdpFrameView {
    pub fragment: u8,
    pub address: AddressView,
    pub payload: Seq<u8>,
}

impl View for UdpFrame {
    type V = UdpFrameView;

    open spec fn view(&self) -> UdpFrameView {
        UdpFrameView { fragment: self.fragment, address: self.address@, payload: self.payload@ }
    }
}

impl UdpFrameView {
    /// The carried address is well formed.
    pub open spec fn wf(self) -> bool {
        self.address.wf()
    }
}

impl UdpFrame {
    /// Builds a frame for a fragment number, target and payload.
    pub fn new(fragment: u8, address: Address, payload: Vec<u8>) -> (r: UdpFrame)
        ensures
            r@ == (UdpFrameView { fragment, address: address@, payload: payload@ }),
    {
        UdpFrame { fragment, address, payload }
    }
}

/// The wire encoding of a UDP associate datagram.
pub open spec fn spec_encode_udp_frame(f: UdpFrameView) -> Seq<u8> {
    seq![RESERVED, RESERVED, f.fragment] + spec_encode_address(f.address) + f.payload
}

/// Appends the wire encoding of a frame to `out`.
pub fn encode_udp_frame(f: &UdpFrame, out: &mut Vec<u8>)
    requires
        f@.wf(),
    ensures
        final(out)@ == old(out)@ + spec_encode_udp_frame(f@),
{
    out.push(RESERVED);
    out.push(RESERVED);
    out.push(f.fragment);
    encode_address(&f.address, out);
    crate::address::push_bytes(out, &f.payload);
    proof {
        assert(out@ =~= old(out)@ + spec_encode_udp_frame(f@));
    }
}

/// The result of decoding a whole datagram `s`: the frame whose payload is
/// everything after the address, or the specific wire error.  The reserved
/// bytes are read and ignored.
pub open spec fn spec_decode_udp_frame(s: Seq<u8>) -> Result<UdpFrameView, ProtocolError> {
    if s.len() < 3 {
        Err(ProtocolError::Truncated)
    } else {
        match spec_decode_address(s.skip(3)) {
            Ok((a, n)) => Ok(
                UdpFrameView { fragment: s[2], address: a, payload: s.skip(3 + n) },
            ),
            Err(e) => Err(e),
        }
    }
}

/// Decodes a whole datagram: everything after the address becomes the
/// payload.
pub fn decode_udp_frame(buf: &Vec<u8>) -> (r: Result<UdpFrame, ProtocolError>)
    ensures
        match r {
            Ok(f) => spec_decode_udp_frame(buf@) matches Ok(g) && f@ == g && f@.wf(),
            Err(e) => spec_decode_udp_frame(buf@) == Err::<UdpFrameView, ProtocolError>(e),
        },
{
    if buf.len() < 3 {
        return Err(ProtocolError::Truncated);
    }
    let fragment: u8 = buf[2];
    match decode_address(buf, 3) {
        Ok((address, end)) => {
            let payload = crate::address::copy_range(buf, end, buf.len() - end);
            proof {
                assert(payload@ =~= buf@.skip(end as int));
            }
            Ok(UdpFrame { fragment, address, payload })
        },
        Err(e) => Err(e),
    }
}

/// Round trip: decoding the encoding of a frame gives the frame back
/// exactly, payload bytes included.
pub proof fn lemma_udp_frame_round_trip(f: UdpFrameView)
    requires
        f.wf(),
    ensures
        spec_decode_udp_frame(spec_encode_udp_frame(f)) matches Ok(g) && g == f,
{
    let s = spec_encode_udp_frame(f);
    let ea = spec_encode_address(f.address);
    assert(s.skip(3) =~= ea + f.payload);
    crate::address::lemma_address_round_trip(f.address, f.payload);
    assert(s[2] == f.fragment);
    assert(s.skip(3 + ea.len() as int) =~= f.payload);
}

} // verus!

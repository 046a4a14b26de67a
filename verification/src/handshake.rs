//! SOCKS5 method negotiation: the client offers authentication methods
//! (version byte 0x05, a count, then the method identifiers) and the server
//! answers with a single chosen method.  This client only proceeds when the
//! chosen method is "no authentication required" (0x00); every other choice,
//! including the "no acceptable methods" sentinel 0xFF, aborts the exchange.

use vstd::prelude::*;

use crate::address::ProtocolError;

verus! {

/// SOCKS protocol version byte.
pub const SOCKS_VERSION: u8 = 0x05;

/// Identifier of the "no authentication required" method.
pub const METHOD_NO_AUTH: u8 = 0x00;

/// Identifier the server answers when it accepts none of the offered methods.
pub const METHOD_NONE_ACCEPTABLE: u8 = 0xff;

/// The server's method choice was anything but "no authentication required";
/// the connection attempt is over.
#[derive(Clone, Copy, Debug, PartialEq, Eq, Structural)]
pub enum AuthenticationError {
    /// Carries the method byte the server chose.
    MethodRejected(u8),
}

/// The client's offer: an ordered, non-empty list of method identifiers.
pub struct HandshakeRequest {
    pub methods: Vec<u8>,
}

impl View for HandshakeRequest {
    type V = Seq<u8>;

    open spec fn view(&self) -> Seq<u8> {
        self.methods@
    }
}

impl HandshakeRequest {
    /// At least one method is offered and the count fits its one-byte field.
    pub open spec fn wf(self) -> bool {
        1 <= self.methods@.len() <= 255
    }

    /// Builds an offer; rejects an empty method list and one that does not
    /// fit the one-byte count.
    pub fn new(methods: Vec<u8>) -> (r: Option<HandshakeRequest>)
        ensures
            r is Some <==> 1 <= methods@.len() <= 255,
            r matches Some(h) ==> h@ == methods@ && h.wf(),
    {
        if 1 <= methods.len() && methods.len() <= 255 {
            Some(HandshakeRequest { methods })
        } else {
            None
        }
    }
}

/// The wire encoding of the client's offer.
pub open spec fn spec_encode_handshake_request(methods: Seq<u8>) -> Seq<u8> {
    seq![SOCKS_VERSION, methods.len() as u8] + methods
}

/// Appends the wire encoding of the offer to `out`.
pub fn encode_handshake_request(req: &HandshakeRequest, out: &mut Vec<u8>)
    requires
        req.wf(),
    ensures
        final(out)@ == old(out)@ + spec_encode_handshake_request(req@),
{
    out.push(SOCKS_VERSION);
    out.push(req.methods.len() as u8);
    crate::address::push_bytes(out, &req.methods);
    proof {
        assert(out@ =~= old(out)@ + spec_encode_handshake_request(req@));
    }
}

/// The server's answer: the single chosen method byte.
#[derive(Clone, Copy, Debug, PartialEq, Eq, Structural)]
pub struct HandshakeResponse {
    pub chosen_method: u8,
}

/// The result of decoding the server's answer from the front of `s`: the
/// answer and the number of bytes it occupied, or the specific wire error.
pub open spec fn spec_decode_handshake_response(s: Seq<u8>) -> Result<
    (HandshakeResponse, int),
    ProtocolError,
> {
    if s.len() < 1 {
        Err(ProtocolError::Truncated)
    } else if s[0] != SOCKS_VERSION {
        Err(ProtocolError::VersionMismatch)
    } else if s.len() < 2 {
        Err(ProtocolError::Truncated)
    } else {
        Ok((HandshakeResponse { chosen_method: s[1] }, 2))
    }
}

/// Decodes the server's answer from `buf` starting at `pos`; on success
/// returns the answer and the position of the first byte after it.
pub fn decode_handshake_response(buf: &Vec<u8>, pos: usize) -> (r: Result<
    (HandshakeResponse, usize),
    ProtocolError,
>)
    requires
        pos <= buf@.len(),
    ensures
        match r {
            Ok(p) => spec_decode_handshake_response(buf@.skip(pos as int)) matches Ok(q) && p.0
                == q.0 && p.1 == pos + q.1 && pos < p.1 <= buf@.len(),
            Err(e) => spec_decode_handshake_response(buf@.skip(pos as int)) == Err::<
                (HandshakeResponse, int),
                ProtocolError,
            >(e),
        },
{
    let remaining: usize = buf.len() - pos;
    if remaining < 1 {
        return Err(ProtocolError::Truncated);
    }
    if buf[pos] != SOCKS_VERSION {
        return Err(ProtocolError::VersionMismatch);
    }
    if remaining < 2 {
        return Err(ProtocolError::Truncated);
    }
    Ok((HandshakeResponse { chosen_method: buf[pos + 1] }, pos + 2))
}

/// The outcome of the negotiation policy for a chosen method byte: accepted
/// exactly for "no authentication required", rejected with the byte carried
/// back verbatim otherwise.
pub open spec fn spec_negotiation_outcome(chosen: u8) -> Result<(), AuthenticationError> {
    if chosen == METHOD_NO_AUTH {
        Ok(())
    } else {
        Err(AuthenticationError::MethodRejected(chosen))
    }
}

/// Negotiation policy: succeeds exactly when the server chose "no
/// authentication required"; any other choice is rejected with the chosen
/// byte, and the exchange must be aborted.
pub fn check_chosen_method(resp: &HandshakeResponse) -> (r: Result<(), AuthenticationError>)
    ensures
        r == spec_negotiation_outcome(resp.chosen_method),
{
    if resp.chosen_method == METHOD_NO_AUTH {
        Ok(())
    } else {
        Err(AuthenticationError::MethodRejected(resp.chosen_method))
    }
}

} // verus!

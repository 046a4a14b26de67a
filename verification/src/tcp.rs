//! SOCKS5 TCP headers: the request the client sends (version, command,
//! reserved byte, target address) and the response it reads back (version,
//! reply code, reserved byte, bound address).  Unknown reply bytes decode to
//! a distinguished unrecognized value so that servers speaking a newer
//! dialect do not break this client.

use vstd::prelude::*;

use crate::address::{
    decode_address, encode_address, spec_decode_address, spec_encode_address, Address, AddressView,
    ProtocolError,
};
use crate::handshake::SOCKS_VERSION;

verus! {

/// Wire byte of the reserved field.
pub const RESERVED: u8 = 0x00;

/// The SOCKS5 command of a request.
#[derive(Clone, Copy, Debug, PartialEq, Eq, Structural)]
pub enum Command {
    Connect,
    Bind,
    UdpAssociate,
}

/// The wire byte of a command.
pub open spec fn spec_command_byte(c: Command) -> u8 {
    match c {
        Command::Connect => 0x01,
        Command::Bind => 0x02,
        Command::UdpAssociate => 0x03,
    }
}

/// Returns the wire byte of a command.
pub fn command_byte(c: Command) -> (r: u8)
    ensures
        r == spec_command_byte(c),
{
    match c {
        Command::Connect => 0x01,
        Command::Bind => 0x02,
        Command::UdpAssociate => 0x03,
    }
}

/// The reply code of a SOCKS5 response.  The wire enumeration is closed over
/// the codes below plus one catch-all that keeps the raw byte of any code
/// this client does not know.
#[derive(Clone, Copy, Debug, PartialEq, Eq, Structural)]
pub enum ReplyCode {
    Succeeded,
    GeneralFailure,
    ConnectionNotAllowed,
    NetworkUnreachable,
    HostUnreachable,
    ConnectionRefused,
    TtlExpired,
    CommandNotSupported,
    AddressTypeNotSupported,
    Unrecognized(u8),
}

/// The reply code denoted by a wire byte; never fails, unknown bytes map to
/// the unrecognized catch-all.
pub open spec fn spec_reply_of_byte(b: u8) -> ReplyCode {
    if b == 0x00 {
        ReplyCode::Succeeded
    } else if b == 0x01 {
        ReplyCode::GeneralFailure
    } else if b == 0x02 {
        ReplyCode::ConnectionNotAllowed
    } else if b == 0x03 {
        ReplyCode::NetworkUnreachable
    } else if b == 0x04 {
        ReplyCode::HostUnreachable
    } else if b == 0x05 {
        ReplyCode::ConnectionRefused
    } else if b == 0x06 {
        ReplyCode::TtlExpired
    } else if b == 0x07 {
        ReplyCode::CommandNotSupported
    } else if b == 0x08 {
        ReplyCode::AddressTypeNotSupported
    } else {
        ReplyCode::Unrecognized(b)
    }
}

/// Maps a wire byte to its reply code.
pub fn reply_of_byte(b: u8) -> (r: ReplyCode)
    ensures
        r == spec_reply_of_byte(b),
{
    if b == 0x00 {
        ReplyCode::Succeeded
    } else if b == 0x01 {
        ReplyCode::GeneralFailure
    } else if b == 0x02 {
        ReplyCode::ConnectionNotAllowed
    } else if b == 0x03 {
        ReplyCode::NetworkUnreachable
    } else if b == 0x04 {
        ReplyCode::HostUnreachable
    } else if b == 0x05 {
        ReplyCode::ConnectionRefused
    } else if b == 0x06 {
        ReplyCode::TtlExpired
    } else if b == 0x07 {
        ReplyCode::CommandNotSupported
    } else if b == 0x08 {
        ReplyCode::AddressTypeNotSupported
    } else {
        ReplyCode::Unrecognized(b)
    }
}

/// The request header the client sends: a command and the target address.
pub struct TcpRequestHeader {
    pub command: Command,
    pub address: Address,
}

/// Mathematical model of a request header.
pub struct TcpRequestHeaderView {
    pub command: Command,
    pub address: AddressView,
}

impl View for TcpRequestHeader {
    type V = TcpRequestHeaderView;

    open spec fn view(&self) -> TcpRequestHeaderView {
        TcpRequestHeaderView { command: self.command, address: self.address@ }
    }
}

impl TcpRequestHeader {
    /// Builds a request header for a command and target.
    pub fn new(command: Command, address: Address) -> (r: TcpRequestHeader)
        ensures
            r@ == (TcpRequestHeaderView { command, address: address@ }),
    {
        TcpRequestHeader { command, address }
    }
}

/// The wire encoding of a request header.
pub open spec fn spec_encode_tcp_request(h: TcpRequestHeaderView) -> Seq<u8> {
    seq![SOCKS_VERSION, spec_command_byte(h.command), RESERVED] + spec_encode_address(h.address)
}

/// Appends the wire encoding of a request header to `out`.
pub fn encode_tcp_request(h: &TcpRequestHeader, out: &mut Vec<u8>)
    requires
        h.address@.wf(),
    ensures
        final(out)@ == old(out)@ + spec_encode_tcp_request(h@),
{
    out.push(SOCKS_VERSION);
    out.push(command_byte(h.command));
    out.push(RESERVED);
    encode_address(&h.address, out);
    proof {
        assert(out@ =~= old(out)@ + spec_encode_tcp_request(h@));
    }
}

/// The response header the client reads back: a reply code and the address
/// the server bound for the request.
pub struct TcpResponseHeader {
    pub reply: ReplyCode,
    pub address: Address,
}

/// Mathematical model of a response header.
pub struct TcpResponseHeaderView {
    pub reply: ReplyCode,
    pub address: AddressView,
}

impl View for TcpResponseHeader {
    type V = TcpResponseHeaderView;

    open spec fn view(&self) -> TcpResponseHeaderView {
        TcpResponseHeaderView { reply: self.reply, address: self.address@ }
    }
}

/// The result of decoding a response header from the front of `s`: the
/// header and the number of bytes it occupied, or the specific wire error.
/// The reserved byte is read and ignored.
pub open spec fn spec_decode_tcp_response(s: Seq<u8>) -> Result<
    (TcpResponseHeaderView, int),
    ProtocolError,
> {
    if s.len() < 1 {
        Err(ProtocolError::Truncated)
    } else if s[0] != SOCKS_VERSION {
        Err(ProtocolError::VersionMismatch)
    } else if s.len() < 3 {
        Err(ProtocolError::Truncated)
    } else {
        match spec_decode_address(s.skip(3)) {
            Ok((a, n)) => Ok(
                (TcpResponseHeaderView { reply: spec_reply_of_byte(s[1]), address: a }, 3 + n),
            ),
            Err(e) => Err(e),
        }
    }
}

/// Decodes a response header from `buf` starting at `pos`; on success
/// returns the header and the position of the first byte after it.
pub fn decode_tcp_response(buf: &Vec<u8>, pos: usize) -> (r: Result<
    (TcpResponseHeader, usize),
    ProtocolError,
>)
    requires
        pos <= buf@.len(),
    ensures
        match r {
            Ok(p) => spec_decode_tcp_response(buf@.skip(pos as int)) matches Ok(q) && p.0@ == q.0
                && p.0.address@.wf() && p.1 == pos + q.1 && pos < p.1 <= buf@.len(),
            Err(e) => spec_decode_tcp_response(buf@.skip(pos as int)) == Err::<
                (TcpResponseHeaderView, int),
                ProtocolError,
            >(e),
        },
{
    let ghost s: Seq<u8> = buf@.skip(pos as int);
    let remaining: usize = buf.len() - pos;
    if remaining < 1 {
        return Err(ProtocolError::Truncated);
    }
    if buf[pos] != SOCKS_VERSION {
        return Err(ProtocolError::VersionMismatch);
    }
    if remaining < 3 {
        return Err(ProtocolError::Truncated);
    }
    let reply = reply_of_byte(buf[pos + 1]);
    proof {
        assert(s.skip(3) =~= buf@.skip((pos + 3) as int));
    }
    match decode_address(buf, pos + 3) {
        Ok((address, end)) => Ok((TcpResponseHeader { reply, address }, end)),
        Err(e) => Err(e),
    }
}

/// Outcome policy for a response: any reply but `Succeeded` means the
/// requested operation did not complete; the specific reply code is handed
/// back and the connection must be treated as unusable for that request.
/// Retrying is the fallback lookup's business, never this codec's.
pub fn check_reply(resp: &TcpResponseHeader) -> (r: Result<(), ReplyCode>)
    ensures
        r == (if resp.reply is Succeeded {
            Ok::<(), ReplyCode>(())
        } else {
            Err(resp.reply)
        }),
{
    match resp.reply {
        ReplyCode::Succeeded => Ok(()),
        other => Err(other),
    }
}

} // verus!

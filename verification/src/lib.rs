//! Protocol core of a SOCKS5 proxy client: wire codecs for the handshake,
//! TCP request/response headers and UDP associate frames, together with the
//! name-resolution model and the ordered fallback-lookup algorithm that tries
//! resolved candidate addresses until one succeeds.

pub mod address;
pub mod handshake;
pub mod lookup;
pub mod resolver;
pub mod tcp;
pub mod udp;

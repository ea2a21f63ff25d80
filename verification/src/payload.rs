//! The fixed application payloads the demo servers and client use.

use vstd::prelude::*;

verus! {

/// The response the request/response server gives every exchange: status
/// 200 and this one body chunk.
pub fn h3_hello() -> (r: (u16, String))
    ensures
        r.0 == 200u16,
        r.1@ == "Hello from HTTP/3\n"@,
{
    (200, "Hello from HTTP/3\n".to_string())
}

/// The response the plain HTTP/2 server gives every request: status 200
/// and this body.
pub fn h2_hello() -> (r: (u16, String))
    ensures
        r.0 == 200u16,
        r.1@ == "hello from hyper http/2 (no TLS)"@,
{
    (200, "hello from hyper http/2 (no TLS)".to_string())
}

/// The bytes the demo client sends on its one stream before FIN.
pub fn client_greeting() -> (r: String)
    ensures
        r@ == "hello over QUIC"@,
{
    "hello over QUIC".to_string()
}

} // verus!

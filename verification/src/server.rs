//! The echo responder's side: it binds one UDP port and writes every
//! received datagram back to its sender unchanged.  The socket work is
//! unverified glue; the reflection itself — the reply is exactly the
//! received bytes — is stated and proved here.

use vstd::prelude::*;

verus! {

/// The echo responder's configuration: the one port it listens on.
pub struct Server {
    /// The UDP port to bind.
    pub port: u16,
}

impl Server {
    /// A responder for the given port.
    pub fn new(port: u16) -> (s: Server)
        ensures
            s.port == port,
    {
        Server { port }
    }
}

/// The reply to a received datagram: exactly the `size` bytes that
/// arrived, out of a receive buffer that may be larger.  The responder
/// never interprets them, so any size and content is tolerated.
pub fn echo_payload(data: &[u8], size: usize) -> (r: Vec<u8>)
    requires
        size <= data@.len(),
    ensures
        r@ == data@.subrange(0, size as int),
{
    let mut r: Vec<u8> = Vec::with_capacity(size);
    let mut i: usize = 0;
    while i < size
        invariant
            i <= size <= data@.len(),
            r@ =~= data@.subrange(0, i as int),
        decreases size - i,
    {
        let b = *vstd::slice::slice_index_get(data, i);
        r.push(b);
        proof {
            assert(r@ =~= data@.subrange(0, i + 1));
        }
        i = i + 1;
    }
    r
}

} // verus!

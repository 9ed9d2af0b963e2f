//! Shared configuration of the relay: the fixed endpoint both sides use, the
//! sink's per-connection buffer capacity, the collector's sampling interval,
//! and the fixed acknowledgment line the sink writes back.

use vstd::prelude::*;

verus! {

/// Capacity, in bytes, of the sink's per-connection read buffer. Bytes of a
/// payload beyond this many are never read on that connection.
pub const BUFFER_CAPACITY: usize = 1024;

/// Seconds the collector sleeps between one sample cycle and the next.
pub const INTERVAL_SECS: u64 = 5;

/// The fixed acknowledgment text, as a sequence of characters.
pub open spec fn spec_ack() -> Seq<char> {
    "Data received\n"@
}

/// The fixed endpoint text, as a sequence of characters.
pub open spec fn spec_endpoint() -> Seq<char> {
    "127.0.0.1:8080"@
}

/// The fixed loopback endpoint both sides use: the sink binds it, the
/// collector connects to it.
pub fn server_endpoint() -> (s: &'static str)
    ensures
        s@ == spec_endpoint(),
{
    "127.0.0.1:8080"
}

/// The fixed acknowledgment line the sink writes back after a successful read.
pub fn acknowledgment() -> (s: &'static str)
    ensures
        s@ == spec_ack(),
{
    "Data received\n"
}

} // verus!

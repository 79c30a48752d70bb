//! Discovery-beacon and listener constants: the well-known port, the beacon
//! cadence, the polling cadence, and the fixed marker datagram.

use vstd::prelude::*;

verus! {

/// Well-known UDP/TCP port for discovery datagrams and stream connections.
pub const DISCOVERY_PORT: u16 = 45777;

/// Milliseconds between two beacon datagrams.
pub const BEACON_INTERVAL_MS: u64 = 500;

/// Milliseconds between two polling cycles of a session handler.
pub const POLL_INTERVAL_MS: u64 = 100;

/// The fixed 4-byte marker datagram the beacon broadcasts: every byte is 80.
pub fn beacon_payload() -> (r: Vec<u8>)
    ensures
        r@.len() == 4,
        forall|i: int| 0 <= i < r@.len() ==> r@[i] == 80u8,
{
    let mut v: Vec<u8> = Vec::new();
    v.push(80);
    v.push(80);
    v.push(80);
    v.push(80);
    v
}

/// Address the beacon sends its datagrams to.
pub fn broadcast_addr() -> (r: String)
    ensures
        r@ == "255.255.255.255:45777"@,
{
    String::from_str("255.255.255.255:45777")
}

/// Address the connection listener binds on.
pub fn listen_addr() -> (r: String)
    ensures
        r@ == "0.0.0.0:45777"@,
{
    String::from_str("0.0.0.0:45777")
}

} // verus!

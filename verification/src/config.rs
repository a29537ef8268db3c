//! Connection parameters: baud-rate bounds and the fixed read timeout.

use vstd::prelude::*;

verus! {

/// Smallest baud rate the frontend offers.
pub const MIN_BAUD: u32 = 300;

/// Largest baud rate the frontend offers.
pub const MAX_BAUD: u32 = 115200;

/// Read timeout handed to the device when a connection is opened, in
/// milliseconds.
pub const READ_TIMEOUT_MS: u64 = 100;

/// Size of the chunk the reader asks the device for on each poll.
pub const READ_CHUNK_BYTES: usize = 128;

/// Pause between reader polls, in milliseconds.
pub const POLL_INTERVAL_MS: u64 = 10;

/// Grace period a disconnect grants the reader before joining it, in
/// milliseconds.
pub const DISCONNECT_GRACE_MS: u64 = 100;

/// A baud rate the connection dialog accepts.
pub open spec fn valid_baud(baud: u32) -> bool {
    MIN_BAUD <= baud <= MAX_BAUD
}

/// The baud rate forced into the accepted range, keeping in-range values
/// as they are.
pub open spec fn clamped_baud(baud: u32) -> u32 {
    if baud < MIN_BAUD {
        MIN_BAUD
    } else if baud > MAX_BAUD {
        MAX_BAUD
    } else {
        baud
    }
}

/// Everything the frontend needs to open a device: the port name, the
/// baud rate, and the fixed read timeout.
pub struct ConnectionConfig {
    pub port: String,
    pub baud: u32,
    pub timeout_ms: u64,
}

impl ConnectionConfig {
    /// A well-formed configuration carries an in-range baud rate and the
    /// fixed read timeout.
    pub open spec fn wf(&self) -> bool {
        valid_baud(self.baud) && self.timeout_ms == READ_TIMEOUT_MS
    }
}

/// Forces a baud rate into the accepted range.
pub fn clamp_baud(baud: u32) -> (r: u32)
    ensures
        r == clamped_baud(baud),
        valid_baud(r),
{
    if baud < MIN_BAUD {
        MIN_BAUD
    } else if baud > MAX_BAUD {
        MAX_BAUD
    } else {
        baud
    }
}

} // verus!

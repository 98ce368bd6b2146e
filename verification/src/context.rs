//! What the chain tells a handler about the call.

use vstd::prelude::*;

verus! {

/// Who sent the message.
#[derive(Debug, Clone, PartialEq, Eq)]
pub struct MessageInfo {
    pub sender: String,
}

/// The block that the call runs in.
#[derive(Debug, Clone, Copy, PartialEq, Eq)]
pub struct Env {
    /// The block's time, in nanoseconds since the UNIX epoch.
    pub block_time: u64,
}

} // verus!

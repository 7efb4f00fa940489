//! Frame flags.
use vstd::prelude::*;

verus! {

/// DATA frame: indicates this is the last frame.
pub const END_STREAM: u8 = 0x1;
/// DATA/HEADERS frame: padding is present.
pub const PADDED: u8 = 0x8;
/// HEADERS frame: indicates this is the last header block.
pub const END_HEADERS: u8 = 0x4;
/// HEADERS frame: priority information is present.
pub const PRIORITY: u8 = 0x20;
/// SETTINGS/PING frame: this is an acknowledgment.
pub const ACK: u8 = 0x1;

} // verus!

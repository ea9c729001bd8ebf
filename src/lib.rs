//! Decoding of UBX frames: the binary, length-prefixed and checksum-protected
//! messages that u-blox positioning receivers send over a serial or USB link.
//!
//! A frame is laid out as follows (multi-byte values are little-endian):
//!
//! | offset | size | field                    |
//! |--------|------|--------------------------|
//! | 0      | 2    | sync characters 0xB5 0x62 |
//! | 2      | 1    | message class            |
//! | 3      | 1    | message id               |
//! | 4      | 2    | payload length `N`       |
//! | 6      | N    | payload                  |
//! | 6 + N  | 1    | checksum A               |
//! | 7 + N  | 1    | checksum B               |
use vstd::prelude::*;

pub mod checksum;
pub mod class;
pub mod error;
pub mod header;
pub mod packet;

verus! {

/// A buffer must hold strictly more than this many bytes before a header is
/// decoded from it.
pub const HEADER_TOTAL_MIN_SIZE: usize = 8;

/// First sync character of every frame.
pub const SYNC_CHAR_1: u8 = 0xB5;

/// Second sync character of every frame.
pub const SYNC_CHAR_2: u8 = 0x62;

/// Offset of the message class byte.
pub const OFFSET_CLASS: usize = 2;

/// Offset of the message id byte.
pub const OFFSET_ID: usize = 3;

/// Offset of the low byte of the payload length.
pub const OFFSET_LENGTH: usize = 4;

/// Offset of the first payload byte.
pub const OFFSET_PAYLOAD: usize = 6;

/// Number of checksum bytes that follow the payload.
pub const CHECKSUM_SIZE: usize = 2;

} // verus!

//! Numeric codes of the host's window messages that the dispatcher reads.

use vstd::prelude::*;

verus! {

/// A window is being created; the payload carries the creation parameter.
pub const CREATE: u32 = 0x0001;

/// A window is being destroyed.
pub const DESTROY: u32 = 0x0002;

/// The client area changed size; the payload packs width and height.
pub const SIZE: u32 = 0x0005;

/// The client area needs repainting.
pub const PAINT: u32 = 0x000F;

/// A system-wide setting changed.
pub const SETTING_CHANGE: u32 = 0x001A;

/// The cursor is about to be set over the window.
pub const SET_CURSOR: u32 = 0x0020;

/// The host asks for the window's size limits; sent before creation.
pub const GET_MIN_MAX_INFO: u32 = 0x0024;

/// Non-client area creation; sent before creation.
pub const NC_CREATE: u32 = 0x0081;

/// Non-client area sizing; sent before creation.
pub const NC_CALC_SIZE: u32 = 0x0083;

/// Hit testing of the pointer position.
pub const NC_HIT_TEST: u32 = 0x0084;

/// Pointer movement over the non-client area.
pub const NC_MOUSE_MOVE: u32 = 0x00A0;

/// A key was pressed; the payload holds its virtual-key code.
pub const KEY_DOWN: u32 = 0x0100;

/// A key was released; the payload holds its virtual-key code.
pub const KEY_UP: u32 = 0x0101;

/// A character was typed; the payload holds its code.
pub const CHAR: u32 = 0x0102;

/// The first code free for a program's own messages.
pub const USER: u32 = 0x0400;

/// Codes that may arrive before the creation message, while no state is attached.
pub open spec fn precedes_creation(code: u32) -> bool {
    code == GET_MIN_MAX_INFO || code == NC_CREATE || code == NC_CALC_SIZE
}

/// Frequent codes that the host handles by itself and handlers never see.
pub open spec fn is_noise(code: u32) -> bool {
    code == NC_HIT_TEST || code == NC_MOUSE_MOVE || code == SET_CURSOR
}

/// Codes always left to the host's default processing.
pub open spec fn left_to_host(code: u32) -> bool {
    precedes_creation(code) || is_noise(code)
}

/// Whether `code` is always left to the host's default processing.
pub fn is_left_to_host(code: u32) -> (r: bool)
    ensures
        r == left_to_host(code),
{
    code == GET_MIN_MAX_INFO || code == NC_CREATE || code == NC_CALC_SIZE || code == NC_HIT_TEST
        || code == NC_MOUSE_MOVE || code == SET_CURSOR
}

} // verus!

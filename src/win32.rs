//! Plain-data mirrors of the Win32 records and message codes that a
//! low-level keyboard hook exchanges with the operating system.
use vstd::prelude::*;

verus! {

/// Hook type of a low-level keyboard hook.
pub const WH_KEYBOARD_LL: i32 = 13;

/// Message code of a key press.
pub const WM_KEYDOWN: usize = 0x0100;

/// Message code of a key release.
pub const WM_KEYUP: usize = 0x0101;

/// Message code of a key press while Alt is held (or of F10).
pub const WM_SYSKEYDOWN: usize = 0x0104;

/// Message code of a key release while Alt is held (or of F10).
pub const WM_SYSKEYUP: usize = 0x0105;

/// Message that ends a thread's message loop.
pub const WM_QUIT: u32 = 0x0012;

/// The record that the operating system hands a low-level keyboard hook for
/// each keyboard event.
#[allow(non_camel_case_types)]
#[derive(Clone, Copy, Debug, PartialEq, Eq)]
pub struct KBDLLHOOKSTRUCT {
    pub vk_code: u32,
    pub scan_code: u32,
    pub flags: u32,
    pub time: u32,
    pub extra_info: usize,
}

/// A thread message, as filled in by the message-retrieval call of a pump.
#[allow(non_camel_case_types)]
#[derive(Clone, Copy, Debug, PartialEq, Eq)]
pub struct MSG {
    pub hwnd: isize,
    pub message: u32,
    pub w_param: usize,
    pub l_param: isize,
    pub time: u32,
    pub pt_x: i32,
    pub pt_y: i32,
}

/// A message of the press class: `WM_KEYDOWN` or `WM_SYSKEYDOWN`.
pub open spec fn is_down_message(w_param: usize) -> bool {
    w_param == WM_KEYDOWN || w_param == WM_SYSKEYDOWN
}

/// A message of the release class: `WM_KEYUP` or `WM_SYSKEYUP`.
pub open spec fn is_up_message(w_param: usize) -> bool {
    w_param == WM_KEYUP || w_param == WM_SYSKEYUP
}

impl KBDLLHOOKSTRUCT {
    /// The record of an event for key `vk_code`, with every other field zero.
    pub fn for_key(vk_code: u32) -> (r: KBDLLHOOKSTRUCT)
        ensures
            r.vk_code == vk_code,
            r.scan_code == 0,
            r.flags == 0,
            r.time == 0,
            r.extra_info == 0,
    {
        KBDLLHOOKSTRUCT { vk_code, scan_code: 0, flags: 0, time: 0, extra_info: 0 }
    }
}

impl MSG {
    /// An all-zero message, ready to be filled in by the pump.
    pub fn empty() -> (r: MSG)
        ensures
            r.hwnd == 0,
            r.message == 0,
            r.w_param == 0,
            r.l_param == 0,
            r.time == 0,
            r.pt_x == 0,
            r.pt_y == 0,
    {
        MSG { hwnd: 0, message: 0, w_param: 0, l_param: 0, time: 0, pt_x: 0, pt_y: 0 }
    }
}

/// Whether a pump keeps running after the message-retrieval call returned
/// `get_message_result`: a positive value is an ordinary message; zero is the
/// quit message and a negative value an error, and both end the pump.
pub fn pump_continues(get_message_result: i32) -> (r: bool)
    ensures
        r == (get_message_result > 0),
{
    get_message_result > 0
}

} // verus!

//! The event callback: which raw keyboard events concern the configured key,
//! and which of those become a notification once key-repeat is suppressed.
use vstd::prelude::*;

use crate::win32::{is_down_message, is_up_message, WM_KEYDOWN, WM_KEYUP, WM_SYSKEYDOWN, WM_SYSKEYUP};

verus! {

/// A transition of the configured key, as reported by one raw event.
#[derive(Clone, Copy, Debug, PartialEq, Eq, Structural)]
pub enum KeyEdge {
    Down,
    Up,
}

/// The two notifications delivered to listeners.
#[derive(Clone, Copy, Debug, PartialEq, Eq, Structural)]
pub enum PttSignal {
    KeyDown,
    KeyUp,
}

/// The edge that a raw event reports for `configured_key`, if any.
///
/// Negative hook codes are not to be processed; a configured key that is not
/// positive is the disabled sentinel and matches nothing; other keys and
/// messages of neither class report nothing.
pub open spec fn edge_of(code: i32, w_param: usize, vk_code: u32, configured_key: i32) -> Option<KeyEdge> {
    if code >= 0 && configured_key > 0 && vk_code == configured_key as u32 {
        if is_down_message(w_param) {
            Some(KeyEdge::Down)
        } else if is_up_message(w_param) {
            Some(KeyEdge::Up)
        } else {
            None
        }
    } else {
        None
    }
}

/// The pressed flag after an edge.
pub open spec fn pressed_after(edge: KeyEdge) -> bool {
    edge == KeyEdge::Down
}

/// The notification that an edge yields when the key was believed held
/// (`was_pressed`) or not: a press only from released, a release only from
/// held. Anything else is repeat noise and yields nothing.
pub open spec fn signal_of(edge: KeyEdge, was_pressed: bool) -> Option<PttSignal> {
    match edge {
        KeyEdge::Down => if was_pressed { None } else { Some(PttSignal::KeyDown) },
        KeyEdge::Up => if was_pressed { Some(PttSignal::KeyUp) } else { None },
    }
}

impl KeyEdge {
    /// The pressed flag after this edge: held after a press, released after a
    /// release.
    pub fn pressed_after(&self) -> (r: bool)
        ensures
            r == pressed_after(*self),
    {
        match self {
            KeyEdge::Down => true,
            KeyEdge::Up => false,
        }
    }
}

impl PttSignal {
    /// The name under which the notification is delivered to listeners.
    pub fn event_name(&self) -> (r: &'static str)
        ensures
            *self == PttSignal::KeyDown ==> r@ == "ptt-hook-down"@,
            *self == PttSignal::KeyUp ==> r@ == "ptt-hook-up"@,
    {
        match self {
            PttSignal::KeyDown => "ptt-hook-down",
            PttSignal::KeyUp => "ptt-hook-up",
        }
    }
}

/// Classifies one raw event of the hook against the configured key.
pub fn key_edge(code: i32, w_param: usize, vk_code: u32, configured_key: i32) -> (r: Option<KeyEdge>)
    ensures
        r == edge_of(code, w_param, vk_code, configured_key),
{
    if code >= 0 && configured_key > 0 && vk_code == configured_key as u32 {
        if w_param == WM_KEYDOWN || w_param == WM_SYSKEYDOWN {
            Some(KeyEdge::Down)
        } else if w_param == WM_KEYUP || w_param == WM_SYSKEYUP {
            Some(KeyEdge::Up)
        } else {
            None
        }
    } else {
        None
    }
}

/// The notification for `edge`, given the pressed flag that was swapped out
/// when the flag was set to `edge.pressed_after()`.
pub fn edge_signal(edge: KeyEdge, was_pressed: bool) -> (r: Option<PttSignal>)
    ensures
        r == signal_of(edge, was_pressed),
{
    match edge {
        KeyEdge::Down => if was_pressed { None } else { Some(PttSignal::KeyDown) },
        KeyEdge::Up => if was_pressed { Some(PttSignal::KeyUp) } else { None },
    }
}

} // verus!

use vstd::prelude::*;
use crate::event::{Input, VirtualKeyCode};
use crate::decode::{
    decoded, truncate_vk, HookData, KeyboardHookData, MouseHookData, WM_KEYDOWN, WM_KEYUP,
    WM_LBUTTONDOWN, WM_LBUTTONUP, WM_MBUTTONDOWN, WM_MBUTTONUP, WM_MOUSEMOVE, WM_MOUSEWHEEL,
    WM_RBUTTONDOWN, WM_RBUTTONUP,
};

verus! {

/// Injection record type tag of a mouse record.
pub const INPUT_MOUSE: u32 = 0;
/// Injection record type tag of a keyboard record.
pub const INPUT_KEYBOARD: u32 = 1;

/// Keyboard injection flag: the key goes up.
pub const KEYEVENTF_KEYUP: u32 = 0x0002;
/// Keyboard injection flag: the key is named by its scan code.
pub const KEYEVENTF_SCANCODE: u32 = 0x0008;

/// Mouse injection flag: the pointer moves.
pub const MOUSEEVENTF_MOVE: u32 = 0x0001;
/// Mouse injection flag: the left button goes down.
pub const MOUSEEVENTF_LEFTDOWN: u32 = 0x0002;
/// Mouse injection flag: the left button goes up.
pub const MOUSEEVENTF_LEFTUP: u32 = 0x0004;
/// Mouse injection flag: the right button goes down.
pub const MOUSEEVENTF_RIGHTDOWN: u32 = 0x0008;
/// Mouse injection flag: the right button goes up.
pub const MOUSEEVENTF_RIGHTUP: u32 = 0x0010;
/// Mouse injection flag: the middle button goes down.
pub const MOUSEEVENTF_MIDDLEDOWN: u32 = 0x0020;
/// Mouse injection flag: the middle button goes up.
pub const MOUSEEVENTF_MIDDLEUP: u32 = 0x0040;
/// Mouse injection flag: the wheel turns.
pub const MOUSEEVENTF_WHEEL: u32 = 0x0800;

/// A keyboard injection record, without its time stamp and extra data,
/// which are always zero.
#[derive(PartialEq, Eq, Structural, Debug, Clone, Copy)]
pub struct KeyboardInjection {
    pub vk: u16,
    pub scan: u16,
    pub flags: u32,
}

/// A mouse injection record, without its time stamp and extra data, which
/// are always zero.
#[derive(PartialEq, Eq, Structural, Debug, Clone, Copy)]
pub struct MouseInjection {
    pub dx: i32,
    pub dy: i32,
    pub mouse_data: u32,
    pub flags: u32,
}

/// One unit handed to the injection facility.
#[derive(PartialEq, Eq, Structural, Debug, Clone, Copy)]
pub enum InjectionRecord {
    Keyboard(KeyboardInjection),
    Mouse(MouseInjection),
}

impl InjectionRecord {
    /// The record's type tag.
    pub fn input_type(&self) -> (r: u32)
        ensures
            r == (if *self is Keyboard { INPUT_KEYBOARD } else { INPUT_MOUSE }),
    {
        match self {
            InjectionRecord::Keyboard(_) => INPUT_KEYBOARD,
            InjectionRecord::Mouse(_) => INPUT_MOUSE,
        }
    }
}

impl Input {
    /// The key code of a keyboard event; none for a mouse event.
    pub open spec fn spec_key_code(self) -> Option<VirtualKeyCode> {
        match self {
            Input::KeybdPress(c) => Some(c),
            Input::KeybdRelease(c) => Some(c),
            _ => None,
        }
    }

    /// The key code of a keyboard event, which the injection needs translated
    /// to a scan code; none for a mouse event.
    pub fn key_code(&self) -> (r: Option<VirtualKeyCode>)
        ensures
            r == self.spec_key_code(),
    {
        match self {
            Input::KeybdPress(c) => Some(*c),
            Input::KeybdRelease(c) => Some(*c),
            _ => None,
        }
    }
}

/// The flags of the mouse record for a mouse event.
pub open spec fn mouse_flags(input: Input) -> u32 {
    match input {
        Input::MousePressLeft(..) => MOUSEEVENTF_LEFTDOWN,
        Input::MouseReleaseLeft(..) => MOUSEEVENTF_LEFTUP,
        Input::MousePressMiddle(..) => MOUSEEVENTF_MIDDLEDOWN,
        Input::MouseReleaseMiddle(..) => MOUSEEVENTF_MIDDLEUP,
        Input::MousePressRight(..) => MOUSEEVENTF_RIGHTDOWN,
        Input::MouseReleaseRight(..) => MOUSEEVENTF_RIGHTUP,
        Input::MouseMove(..) => MOUSEEVENTF_MOVE,
        _ => MOUSEEVENTF_WHEEL,
    }
}

/// The record that injects `input`, where `scan_code` is the host's scan
/// code for the event's key (ignored for mouse events). Only the low 16 bits
/// of the scan code fit the record; the wheel rotation is always zero.
pub open spec fn encoded(input: Input, scan_code: u32) -> InjectionRecord {
    match input {
        Input::KeybdPress(_) => InjectionRecord::Keyboard(
            KeyboardInjection { vk: 0, scan: (scan_code % 65536) as u16, flags: KEYEVENTF_SCANCODE },
        ),
        Input::KeybdRelease(_) => InjectionRecord::Keyboard(
            KeyboardInjection {
                vk: 0,
                scan: (scan_code % 65536) as u16,
                flags: KEYEVENTF_SCANCODE | KEYEVENTF_KEYUP,
            },
        ),
        Input::MousePressLeft(x, y) | Input::MouseReleaseLeft(x, y) | Input::MousePressMiddle(x, y)
        | Input::MouseReleaseMiddle(x, y) | Input::MousePressRight(x, y)
        | Input::MouseReleaseRight(x, y) | Input::MouseMove(x, y) | Input::MouseWheel(x, y, _) =>
            InjectionRecord::Mouse(
            MouseInjection { dx: x, dy: y, mouse_data: 0, flags: mouse_flags(input) },
        ),
    }
}

/// Encodes an event as the one record that injects it. `scan_code` is the
/// host's scan code for the key of a keyboard event and is not read for a
/// mouse event.
pub fn encode_input(input: &Input, scan_code: u32) -> (r: InjectionRecord)
    ensures
        r == encoded(*input, scan_code),
{
    let scan = (scan_code % 65536) as u16;
    match input {
        Input::KeybdPress(_) => InjectionRecord::Keyboard(
            KeyboardInjection { vk: 0, scan, flags: KEYEVENTF_SCANCODE },
        ),
        Input::KeybdRelease(_) => InjectionRecord::Keyboard(
            KeyboardInjection { vk: 0, scan, flags: KEYEVENTF_SCANCODE | KEYEVENTF_KEYUP },
        ),
        Input::MousePressLeft(x, y) => mouse_record(*x, *y, MOUSEEVENTF_LEFTDOWN),
        Input::MouseReleaseLeft(x, y) => mouse_record(*x, *y, MOUSEEVENTF_LEFTUP),
        Input::MousePressMiddle(x, y) => mouse_record(*x, *y, MOUSEEVENTF_MIDDLEDOWN),
        Input::MouseReleaseMiddle(x, y) => mouse_record(*x, *y, MOUSEEVENTF_MIDDLEUP),
        Input::MousePressRight(x, y) => mouse_record(*x, *y, MOUSEEVENTF_RIGHTDOWN),
        Input::MouseReleaseRight(x, y) => mouse_record(*x, *y, MOUSEEVENTF_RIGHTUP),
        Input::MouseMove(x, y) => mouse_record(*x, *y, MOUSEEVENTF_MOVE),
        Input::MouseWheel(x, y, _) => mouse_record(*x, *y, MOUSEEVENTF_WHEEL),
    }
}

fn mouse_record(x: i32, y: i32, flags: u32) -> (r: InjectionRecord)
    ensures
        r == InjectionRecord::Mouse(MouseInjection { dx: x, dy: y, mouse_data: 0, flags }),
{
    InjectionRecord::Mouse(MouseInjection { dx: x, dy: y, mouse_data: 0, flags })
}

/// The notification that a low-level hook sees for an injected record:
/// a key-up for a keyboard record with the key-up flag and a key-down
/// otherwise, carrying `vk_code`, the key the host resolves the scan code
/// to; for a mouse record with one known flag, the matching mouse code at
/// the record's position. Other records have no modelled notification.
pub open spec fn hook_form(record: InjectionRecord, vk_code: u32) -> Option<(u64, HookData)> {
    match record {
        InjectionRecord::Keyboard(k) => Some(
            (
                if k.flags & KEYEVENTF_KEYUP != 0 { WM_KEYUP } else { WM_KEYDOWN },
                HookData::Keyboard(KeyboardHookData { vk_code }),
            ),
        ),
        InjectionRecord::Mouse(m) => {
            let data = HookData::Mouse(MouseHookData { x: m.dx, y: m.dy });
            if m.flags == MOUSEEVENTF_MOVE {
                Some((WM_MOUSEMOVE, data))
            } else if m.flags == MOUSEEVENTF_LEFTDOWN {
                Some((WM_LBUTTONDOWN, data))
            } else if m.flags == MOUSEEVENTF_LEFTUP {
                Some((WM_LBUTTONUP, data))
            } else if m.flags == MOUSEEVENTF_RIGHTDOWN {
                Some((WM_RBUTTONDOWN, data))
            } else if m.flags == MOUSEEVENTF_RIGHTUP {
                Some((WM_RBUTTONUP, data))
            } else if m.flags == MOUSEEVENTF_MIDDLEDOWN {
                Some((WM_MBUTTONDOWN, data))
            } else if m.flags == MOUSEEVENTF_MIDDLEUP {
                Some((WM_MBUTTONUP, data))
            } else if m.flags == MOUSEEVENTF_WHEEL {
                Some((WM_MOUSEWHEEL, data))
            } else {
                None
            }
        },
    }
}

/// Encoding then decoding gives the event back: for every key event and
/// every mouse press, release or move, the hook notification that matches
/// the injected record decodes to the original event. For a key event,
/// `vk_code` is the key the host resolves the injected scan code to, and the
/// law needs that mapping to be stable, up to the 8 bits a key code keeps.
pub proof fn lemma_round_trip(input: Input, scan_code: u32, vk_code: u32)
    requires
        !(input is MouseWheel),
        input.spec_key_code() is Some ==> truncate_vk(vk_code) == input.spec_key_code()->0,
    ensures
        match hook_form(encoded(input, scan_code), vk_code) {
            Some((message, data)) => decoded(message, data) == Some(input),
            None => false,
        },
{
    assert((0x0008u32 | 0x0002u32) & 0x0002u32 != 0) by (bit_vector);
    assert(0x0008u32 & 0x0002u32 == 0) by (bit_vector);
}

} // verus!

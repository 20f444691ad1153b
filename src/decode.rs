use vstd::prelude::*;
use crate::event::Input;

verus! {

/// Hook notification code: a key was pressed.
pub const WM_KEYDOWN: u64 = 0x0100;
/// Hook notification code: a key was released.
pub const WM_KEYUP: u64 = 0x0101;
/// Hook notification code: the pointer moved.
pub const WM_MOUSEMOVE: u64 = 0x0200;
/// Hook notification code: the left button went down.
pub const WM_LBUTTONDOWN: u64 = 0x0201;
/// Hook notification code: the left button went up.
pub const WM_LBUTTONUP: u64 = 0x0202;
/// Hook notification code: the right button went down.
pub const WM_RBUTTONDOWN: u64 = 0x0204;
/// Hook notification code: the right button went up.
pub const WM_RBUTTONUP: u64 = 0x0205;
/// Hook notification code: the middle button went down.
pub const WM_MBUTTONDOWN: u64 = 0x0207;
/// Hook notification code: the middle button went up.
pub const WM_MBUTTONUP: u64 = 0x0208;
/// Hook notification code: the wheel turned.
pub const WM_MOUSEWHEEL: u64 = 0x020A;

/// Which low-level hook a notification code belongs to, and so which record
/// its payload points at.
#[derive(PartialEq, Eq, Structural, Debug, Clone, Copy)]
pub enum HookCategory {
    Keyboard,
    Mouse,
}

/// The fields of the keyboard hook record that decoding reads.
#[derive(PartialEq, Eq, Structural, Debug, Clone, Copy)]
pub struct KeyboardHookData {
    pub vk_code: u32,
}

/// The fields of the mouse hook record that decoding reads.
#[derive(PartialEq, Eq, Structural, Debug, Clone, Copy)]
pub struct MouseHookData {
    pub x: i32,
    pub y: i32,
}

/// The payload of a hook notification, read from the record of its category.
#[derive(PartialEq, Eq, Structural, Debug, Clone, Copy)]
pub enum HookData {
    Keyboard(KeyboardHookData),
    Mouse(MouseHookData),
}

/// The category of each notification code the decoder knows; none for the rest.
pub open spec fn category_of(message: u64) -> Option<HookCategory> {
    if message == WM_KEYDOWN || message == WM_KEYUP {
        Some(HookCategory::Keyboard)
    } else if message == WM_MOUSEMOVE || message == WM_LBUTTONDOWN || message == WM_LBUTTONUP
        || message == WM_RBUTTONDOWN || message == WM_RBUTTONUP || message == WM_MBUTTONDOWN
        || message == WM_MBUTTONUP || message == WM_MOUSEWHEEL {
        Some(HookCategory::Mouse)
    } else {
        None
    }
}

/// A virtual-key field cut down to the key code's 8 bits.
pub open spec fn truncate_vk(vk_code: u32) -> u8 {
    (vk_code % 256) as u8
}

/// The event a notification stands for. An unknown code, or a payload of
/// the other category, stands for no event.
pub open spec fn decoded(message: u64, data: HookData) -> Option<Input> {
    match data {
        HookData::Keyboard(k) => {
            if message == WM_KEYDOWN {
                Some(Input::KeybdPress(truncate_vk(k.vk_code)))
            } else if message == WM_KEYUP {
                Some(Input::KeybdRelease(truncate_vk(k.vk_code)))
            } else {
                None
            }
        },
        HookData::Mouse(m) => {
            if message == WM_MOUSEMOVE {
                Some(Input::MouseMove(m.x, m.y))
            } else if message == WM_LBUTTONDOWN {
                Some(Input::MousePressLeft(m.x, m.y))
            } else if message == WM_LBUTTONUP {
                Some(Input::MouseReleaseLeft(m.x, m.y))
            } else if message == WM_RBUTTONDOWN {
                Some(Input::MousePressRight(m.x, m.y))
            } else if message == WM_RBUTTONUP {
                Some(Input::MouseReleaseRight(m.x, m.y))
            } else if message == WM_MBUTTONDOWN {
                Some(Input::MousePressMiddle(m.x, m.y))
            } else if message == WM_MBUTTONUP {
                Some(Input::MouseReleaseMiddle(m.x, m.y))
            } else if message == WM_MOUSEWHEEL {
                Some(Input::MouseWheel(m.x, m.y, 0))
            } else {
                None
            }
        },
    }
}

/// Which hook record the payload of `message` points at, if the code is one
/// the decoder knows.
pub fn hook_category(message: u64) -> (r: Option<HookCategory>)
    ensures
        r == category_of(message),
{
    if message == WM_KEYDOWN || message == WM_KEYUP {
        Some(HookCategory::Keyboard)
    } else if message == WM_MOUSEMOVE || message == WM_LBUTTONDOWN || message == WM_LBUTTONUP
        || message == WM_RBUTTONDOWN || message == WM_RBUTTONUP || message == WM_MBUTTONDOWN
        || message == WM_MBUTTONUP || message == WM_MOUSEWHEEL {
        Some(HookCategory::Mouse)
    } else {
        None
    }
}

/// Decodes a hook notification into an event.
///
/// Key codes keep their low 8 bits; the wheel rotation is not recovered and
/// reads as zero. A code outside the known set gives no event.
pub fn decode_input(message: u64, data: HookData) -> (r: Option<Input>)
    ensures
        r == decoded(message, data),
        category_of(message) is None ==> r is None,
        r is Some <==> category_of(message) == Some(
            match data {
                HookData::Keyboard(_) => HookCategory::Keyboard,
                HookData::Mouse(_) => HookCategory::Mouse,
            },
        ),
{
    match data {
        HookData::Keyboard(k) => {
            let code = (k.vk_code % 256) as u8;
            if message == WM_KEYDOWN {
                Some(Input::KeybdPress(code))
            } else if message == WM_KEYUP {
                Some(Input::KeybdRelease(code))
            } else {
                None
            }
        },
        HookData::Mouse(m) => {
            if message == WM_MOUSEMOVE {
                Some(Input::MouseMove(m.x, m.y))
            } else if message == WM_LBUTTONDOWN {
                Some(Input::MousePressLeft(m.x, m.y))
            } else if message == WM_LBUTTONUP {
                Some(Input::MouseReleaseLeft(m.x, m.y))
            } else if message == WM_RBUTTONDOWN {
                Some(Input::MousePressRight(m.x, m.y))
            } else if message == WM_RBUTTONUP {
                Some(Input::MouseReleaseRight(m.x, m.y))
            } else if message == WM_MBUTTONDOWN {
                Some(Input::MousePressMiddle(m.x, m.y))
            } else if message == WM_MBUTTONUP {
                Some(Input::MouseReleaseMiddle(m.x, m.y))
            } else if message == WM_MOUSEWHEEL {
                Some(Input::MouseWheel(m.x, m.y, 0))
            } else {
                None
            }
        },
    }
}

} // verus!

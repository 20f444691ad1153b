use vstd::prelude::*;

verus! {

/// A virtual-key code: the host's 8-bit identifier of a logical key.
pub type VirtualKeyCode = u8;

/// One keyboard or mouse event. Every variant is plain data.
///
/// Mouse coordinates are absolute screen positions in pixels; the third
/// field of `MouseWheel` is the wheel rotation.
#[derive(PartialEq, Eq, Structural, Debug, Clone, Copy)]
pub enum Input {
    KeybdPress(VirtualKeyCode),
    KeybdRelease(VirtualKeyCode),
    MousePressLeft(i32, i32),
    MouseReleaseLeft(i32, i32),
    MousePressMiddle(i32, i32),
    MouseReleaseMiddle(i32, i32),
    MousePressRight(i32, i32),
    MouseReleaseRight(i32, i32),
    MouseMove(i32, i32),
    MouseWheel(i32, i32, i32),
}

} // verus!

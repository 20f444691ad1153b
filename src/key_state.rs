use vstd::prelude::*;

verus! {

/// Whether a key-state word reports the key's toggle indicator active:
/// its low-order bit is set.
pub open spec fn is_toggled(key_state: i16) -> bool {
    (key_state as u16) % 2 == 1
}

/// Whether a key-state word reports the key held down: its high-order bit
/// is set, which makes the word negative.
pub open spec fn is_pressed(key_state: i16) -> bool {
    key_state < 0
}

/// Reads the toggle indicator out of a key-state word. The answer depends on
/// the word alone, so two reads of an unchanged key state agree.
pub fn toggle_state_of(key_state: i16) -> (r: bool)
    ensures
        r == is_toggled(key_state),
{
    (key_state as u16) % 2 == 1
}

/// Reads whether the key is held down out of a key-state word. The answer
/// depends on the word alone, so two reads of an unchanged key state agree.
pub fn pressed_state_of(key_state: i16) -> (r: bool)
    ensures
        r == is_pressed(key_state),
{
    key_state < 0
}

} // verus!

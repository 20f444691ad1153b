//! A typed model of system-wide keyboard and mouse input, with the
//! translation between that model and the raw hook and injection records
//! of the host's low-level input facility, the bit tests behind the key-state
//! queries, and the phases of one blocking receive cycle.
pub mod event;
pub mod decode;
pub mod encode;
pub mod key_state;
pub mod lifecycle;

pub use event::{Input, VirtualKeyCode};
pub use decode::{decode_input, hook_category, HookCategory, HookData, KeyboardHookData, MouseHookData};
pub use encode::{encode_input, InjectionRecord, KeyboardInjection, MouseInjection};
pub use key_state::{pressed_state_of, toggle_state_of};
pub use lifecycle::{CycleAction, CycleEvent, Phase, ReceiveCycle};

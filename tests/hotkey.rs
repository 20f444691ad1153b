use rusty_hotkey::decode::{
    WM_KEYDOWN, WM_KEYUP, WM_LBUTTONDOWN, WM_LBUTTONUP, WM_MBUTTONDOWN, WM_MBUTTONUP,
    WM_MOUSEMOVE, WM_MOUSEWHEEL, WM_RBUTTONDOWN, WM_RBUTTONUP,
};
use rusty_hotkey::encode::{
    INPUT_KEYBOARD, INPUT_MOUSE, KEYEVENTF_KEYUP, KEYEVENTF_SCANCODE, MOUSEEVENTF_LEFTDOWN,
    MOUSEEVENTF_LEFTUP, MOUSEEVENTF_MIDDLEDOWN, MOUSEEVENTF_MIDDLEUP, MOUSEEVENTF_MOVE,
    MOUSEEVENTF_RIGHTDOWN, MOUSEEVENTF_RIGHTUP, MOUSEEVENTF_WHEEL,
};
use rusty_hotkey::{
    decode_input, encode_input, hook_category, pressed_state_of, toggle_state_of, CycleAction,
    CycleEvent, HookCategory, HookData, InjectionRecord, Input, KeyboardHookData,
    KeyboardInjection, MouseHookData, MouseInjection, Phase, ReceiveCycle,
};

fn key(vk_code: u32) -> HookData {
    HookData::Keyboard(KeyboardHookData { vk_code })
}

fn mouse(x: i32, y: i32) -> HookData {
    HookData::Mouse(MouseHookData { x, y })
}

#[test]
fn press_and_release_share_scan_code() {
    let press = encode_input(&Input::KeybdPress(0x57), 0x11);
    let release = encode_input(&Input::KeybdRelease(0x57), 0x11);
    match (press, release) {
        (InjectionRecord::Keyboard(p), InjectionRecord::Keyboard(r)) => {
            assert_eq!(p.scan, r.scan);
            assert_eq!(p.scan, 0x11);
            assert_eq!(p.flags & KEYEVENTF_KEYUP, 0);
            assert_ne!(r.flags & KEYEVENTF_KEYUP, 0);
            assert_ne!(p.flags & KEYEVENTF_SCANCODE, 0);
            assert_ne!(r.flags & KEYEVENTF_SCANCODE, 0);
        }
        _ => panic!("key events must encode as keyboard records"),
    }
}

#[test]
fn key_up_decodes_to_release() {
    assert_eq!(decode_input(WM_KEYUP, key(0x90)), Some(Input::KeybdRelease(144)));
}

#[test]
fn key_down_decodes_to_press() {
    assert_eq!(decode_input(WM_KEYDOWN, key(0x41)), Some(Input::KeybdPress(0x41)));
}

#[test]
fn mouse_move_decodes_with_its_point() {
    assert_eq!(decode_input(WM_MOUSEMOVE, mouse(100, 200)), Some(Input::MouseMove(100, 200)));
}

#[test]
fn unknown_code_decodes_to_nothing() {
    assert_eq!(decode_input(0x0203, mouse(1, 2)), None);
    assert_eq!(decode_input(0, key(0x41)), None);
    assert_eq!(decode_input(u64::MAX, mouse(1, 2)), None);
    assert_eq!(hook_category(0x0203), None);
    assert_eq!(hook_category(0x0102), None);
}

#[test]
fn payload_of_the_other_category_decodes_to_nothing() {
    assert_eq!(decode_input(WM_KEYDOWN, mouse(1, 2)), None);
    assert_eq!(decode_input(WM_MOUSEMOVE, key(0x41)), None);
}

#[test]
fn wide_key_codes_keep_their_low_byte() {
    assert_eq!(decode_input(WM_KEYDOWN, key(0x1FF)), Some(Input::KeybdPress(0xFF)));
    assert_eq!(decode_input(WM_KEYUP, key(0x10090)), Some(Input::KeybdRelease(0x90)));
}

#[test]
fn every_mouse_code_decodes() {
    assert_eq!(decode_input(WM_LBUTTONDOWN, mouse(-5, 7)), Some(Input::MousePressLeft(-5, 7)));
    assert_eq!(decode_input(WM_LBUTTONUP, mouse(-5, 7)), Some(Input::MouseReleaseLeft(-5, 7)));
    assert_eq!(decode_input(WM_RBUTTONDOWN, mouse(-5, 7)), Some(Input::MousePressRight(-5, 7)));
    assert_eq!(decode_input(WM_RBUTTONUP, mouse(-5, 7)), Some(Input::MouseReleaseRight(-5, 7)));
    assert_eq!(decode_input(WM_MBUTTONDOWN, mouse(-5, 7)), Some(Input::MousePressMiddle(-5, 7)));
    assert_eq!(decode_input(WM_MBUTTONUP, mouse(-5, 7)), Some(Input::MouseReleaseMiddle(-5, 7)));
    assert_eq!(decode_input(WM_MOUSEWHEEL, mouse(-5, 7)), Some(Input::MouseWheel(-5, 7, 0)));
}

#[test]
fn codes_name_their_hook_category() {
    assert_eq!(hook_category(WM_KEYDOWN), Some(HookCategory::Keyboard));
    assert_eq!(hook_category(WM_KEYUP), Some(HookCategory::Keyboard));
    for code in [
        WM_MOUSEMOVE,
        WM_LBUTTONDOWN,
        WM_LBUTTONUP,
        WM_RBUTTONDOWN,
        WM_RBUTTONUP,
        WM_MBUTTONDOWN,
        WM_MBUTTONUP,
        WM_MOUSEWHEEL,
    ] {
        assert_eq!(hook_category(code), Some(HookCategory::Mouse));
    }
}

#[test]
fn mouse_events_encode_with_their_flags() {
    let cases = [
        (Input::MousePressLeft(3, 4), MOUSEEVENTF_LEFTDOWN),
        (Input::MouseReleaseLeft(3, 4), MOUSEEVENTF_LEFTUP),
        (Input::MousePressRight(3, 4), MOUSEEVENTF_RIGHTDOWN),
        (Input::MouseReleaseRight(3, 4), MOUSEEVENTF_RIGHTUP),
        (Input::MousePressMiddle(3, 4), MOUSEEVENTF_MIDDLEDOWN),
        (Input::MouseReleaseMiddle(3, 4), MOUSEEVENTF_MIDDLEUP),
        (Input::MouseMove(3, 4), MOUSEEVENTF_MOVE),
        (Input::MouseWheel(3, 4, 120), MOUSEEVENTF_WHEEL),
    ];
    for (input, flags) in cases {
        let record = encode_input(&input, 0x1234);
        assert_eq!(
            record,
            InjectionRecord::Mouse(MouseInjection { dx: 3, dy: 4, mouse_data: 0, flags })
        );
        assert_eq!(record.input_type(), INPUT_MOUSE);
    }
}

#[test]
fn key_events_encode_as_keyboard_records() {
    let record = encode_input(&Input::KeybdRelease(0x10), 0x2A);
    assert_eq!(
        record,
        InjectionRecord::Keyboard(KeyboardInjection {
            vk: 0,
            scan: 0x2A,
            flags: KEYEVENTF_SCANCODE | KEYEVENTF_KEYUP,
        })
    );
    assert_eq!(record.input_type(), INPUT_KEYBOARD);
}

#[test]
fn scan_codes_keep_their_low_sixteen_bits() {
    match encode_input(&Input::KeybdPress(0x41), 0x12345) {
        InjectionRecord::Keyboard(k) => assert_eq!(k.scan, 0x2345),
        _ => panic!("key events must encode as keyboard records"),
    }
}

#[test]
fn key_codes_of_events() {
    assert_eq!(Input::KeybdPress(0x57).key_code(), Some(0x57));
    assert_eq!(Input::KeybdRelease(0x90).key_code(), Some(0x90));
    assert_eq!(Input::MouseMove(1, 2).key_code(), None);
}

fn observed(record: InjectionRecord, vk_code: u32) -> (u64, HookData) {
    match record {
        InjectionRecord::Keyboard(k) => {
            let code = if k.flags & KEYEVENTF_KEYUP != 0 { WM_KEYUP } else { WM_KEYDOWN };
            (code, key(vk_code))
        }
        InjectionRecord::Mouse(m) => {
            let code = match m.flags {
                MOUSEEVENTF_MOVE => WM_MOUSEMOVE,
                MOUSEEVENTF_LEFTDOWN => WM_LBUTTONDOWN,
                MOUSEEVENTF_LEFTUP => WM_LBUTTONUP,
                MOUSEEVENTF_RIGHTDOWN => WM_RBUTTONDOWN,
                MOUSEEVENTF_RIGHTUP => WM_RBUTTONUP,
                MOUSEEVENTF_MIDDLEDOWN => WM_MBUTTONDOWN,
                MOUSEEVENTF_MIDDLEUP => WM_MBUTTONUP,
                _ => WM_MOUSEWHEEL,
            };
            (code, mouse(m.dx, m.dy))
        }
    }
}

#[test]
fn encoded_events_decode_back() {
    let inputs = [
        Input::KeybdPress(0x57),
        Input::KeybdRelease(0x57),
        Input::MousePressLeft(i32::MIN, i32::MAX),
        Input::MouseReleaseLeft(0, 0),
        Input::MousePressRight(-1, 1),
        Input::MouseReleaseRight(640, 480),
        Input::MousePressMiddle(10, 20),
        Input::MouseReleaseMiddle(30, 40),
        Input::MouseMove(100, 200),
    ];
    for input in inputs {
        let (code, data) = observed(encode_input(&input, 0x11), 0x57);
        assert_eq!(decode_input(code, data), Some(input));
    }
}

#[test]
fn toggle_bit_is_the_low_bit() {
    assert!(toggle_state_of(1));
    assert!(toggle_state_of(-127));
    assert!(!toggle_state_of(0));
    assert!(!toggle_state_of(2));
    assert!(!toggle_state_of(i16::MIN));
}

#[test]
fn pressed_bit_is_the_high_bit() {
    assert!(pressed_state_of(i16::MIN));
    assert!(pressed_state_of(-127));
    assert!(!pressed_state_of(1));
    assert!(!pressed_state_of(0));
    assert!(!pressed_state_of(i16::MAX));
}

#[test]
fn repeated_state_reads_agree() {
    for word in [0i16, 1, -1, 0x40, i16::MIN] {
        assert_eq!(toggle_state_of(word), toggle_state_of(word));
        assert_eq!(pressed_state_of(word), pressed_state_of(word));
    }
}

#[test]
fn receive_cycle_with_a_message() {
    let mut cycle = ReceiveCycle::new();
    assert!(!cycle.hooks_installed());
    assert_eq!(cycle.step(CycleEvent::Begin), CycleAction::InstallHooks);
    assert!(cycle.hooks_installed());
    assert_eq!(cycle.step(CycleEvent::MessageRetrieved), CycleAction::RemoveHooks);
    assert_eq!(cycle.phase, Phase::Draining);
    assert!(!cycle.hooks_installed());
    assert_eq!(cycle.step(CycleEvent::HooksRemoved), CycleAction::DecodeMessage);
    assert_eq!(cycle.phase, Phase::Idle);
    assert!(!cycle.hooks_installed());
}

#[test]
fn receive_cycle_at_end_of_stream() {
    let mut cycle = ReceiveCycle::new();
    assert_eq!(cycle.step(CycleEvent::Begin), CycleAction::InstallHooks);
    assert_eq!(cycle.step(CycleEvent::StreamTerminated), CycleAction::RemoveHooksAndEnd);
    assert_eq!(cycle.phase, Phase::Idle);
    assert!(!cycle.hooks_installed());
}

#[test]
fn out_of_phase_events_are_ignored() {
    let mut cycle = ReceiveCycle::new();
    assert_eq!(cycle.step(CycleEvent::MessageRetrieved), CycleAction::Ignore);
    assert_eq!(cycle.step(CycleEvent::HooksRemoved), CycleAction::Ignore);
    assert_eq!(cycle.phase, Phase::Idle);
    assert_eq!(cycle.step(CycleEvent::Begin), CycleAction::InstallHooks);
    assert_eq!(cycle.step(CycleEvent::Begin), CycleAction::Ignore);
    assert_eq!(cycle.phase, Phase::Armed);
}

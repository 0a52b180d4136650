use imgui_baseview::keyboard::{
    key_change, key_code, modifier_flag, text_input, GuiKey, KeyCode, Modifier, ModifierKey,
};
use imgui_baseview::wheel::{pixel_wheel_steps, PixelDelta, WheelSteps};

#[test]
fn negative_horizontal_pixels_step_back_once() {
    for y in [PixelDelta::Negative, PixelDelta::Small] {
        let s = pixel_wheel_steps(PixelDelta::Negative, y);
        assert_eq!(s.horizontal, -1);
    }
}

#[test]
fn pixel_wheel_step_table() {
    assert_eq!(
        pixel_wheel_steps(PixelDelta::Small, PixelDelta::Small),
        WheelSteps { horizontal: 0, vertical: 0 }
    );
    assert_eq!(
        pixel_wheel_steps(PixelDelta::AboveOne, PixelDelta::Small),
        WheelSteps { horizontal: 1, vertical: 0 }
    );
    assert_eq!(
        pixel_wheel_steps(PixelDelta::Small, PixelDelta::Negative),
        WheelSteps { horizontal: 0, vertical: -1 }
    );
    assert_eq!(
        pixel_wheel_steps(PixelDelta::Negative, PixelDelta::Negative),
        WheelSteps { horizontal: -1, vertical: -1 }
    );
}

#[test]
fn vertical_pixels_above_one_step_horizontal_wheel() {
    assert_eq!(
        pixel_wheel_steps(PixelDelta::Small, PixelDelta::AboveOne),
        WheelSteps { horizontal: 1, vertical: 0 }
    );
    assert_eq!(
        pixel_wheel_steps(PixelDelta::AboveOne, PixelDelta::AboveOne),
        WheelSteps { horizontal: 2, vertical: 0 }
    );
    assert_eq!(
        pixel_wheel_steps(PixelDelta::Negative, PixelDelta::AboveOne),
        WheelSteps { horizontal: 0, vertical: 0 }
    );
}

#[test]
fn del_is_not_queued() {
    assert_eq!(text_input("\u{7f}"), Vec::<char>::new());
    assert_eq!(text_input("a\u{7f}b"), vec!['a', 'b']);
    assert_eq!(text_input(""), Vec::<char>::new());
}

#[test]
fn other_characters_are_queued_in_order() {
    assert_eq!(text_input("hé!"), vec!['h', 'é', '!']);
    assert_eq!(text_input("\t\u{8}"), vec!['\t', '\u{8}']);
}

#[test]
fn key_down_queues_text_and_sets_modifier() {
    let c = key_change(42, Some(ModifierKey::ShiftLeft), true, Some("A"));
    assert_eq!(c.key_index, 42);
    assert!(c.down);
    assert_eq!(c.modifier, Some(Modifier::Shift));
    assert_eq!(c.text, vec!['A']);
}

#[test]
fn key_up_queues_nothing() {
    let c = key_change(7, None, false, Some("x"));
    assert_eq!(c.key_index, 7);
    assert!(!c.down);
    assert_eq!(c.modifier, None);
    assert!(c.text.is_empty());
}

#[test]
fn key_down_with_del_queues_nothing() {
    let c = key_change(3, None, true, Some("\u{7f}"));
    assert!(c.text.is_empty());
    let d = key_change(3, None, true, None);
    assert!(d.text.is_empty());
}

#[test]
fn modifier_keys_drive_one_flag_each_side() {
    assert_eq!(modifier_flag(ModifierKey::ShiftRight), Modifier::Shift);
    assert_eq!(modifier_flag(ModifierKey::ControlLeft), Modifier::Ctrl);
    assert_eq!(modifier_flag(ModifierKey::ControlRight), Modifier::Ctrl);
    assert_eq!(modifier_flag(ModifierKey::AltLeft), Modifier::Alt);
    assert_eq!(modifier_flag(ModifierKey::AltRight), Modifier::Alt);
    assert_eq!(modifier_flag(ModifierKey::MetaLeft), Modifier::Super);
    assert_eq!(modifier_flag(ModifierKey::MetaRight), Modifier::Super);
}

#[test]
fn key_map_codes() {
    assert_eq!(key_code(GuiKey::Tab), KeyCode::Tab);
    assert_eq!(key_code(GuiKey::LeftArrow), KeyCode::ArrowLeft);
    assert_eq!(key_code(GuiKey::RightArrow), KeyCode::ArrowLeft);
    assert_eq!(key_code(GuiKey::KeyPadEnter), KeyCode::NumpadEnter);
    assert_eq!(key_code(GuiKey::Z), KeyCode::KeyZ);
}

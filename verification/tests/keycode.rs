use rmk::base_keycode::BaseKeyCode;
use rmk::keycode::KeyCode;

#[test]
fn base_keycode_numbers() {
    assert_eq!(BaseKeyCode::No.code(), 0x00);
    assert_eq!(BaseKeyCode::ErrorRollover.code(), 0x01);
    assert_eq!(BaseKeyCode::A.code(), 0x04);
    assert_eq!(BaseKeyCode::Z.code(), 0x1D);
    assert_eq!(BaseKeyCode::Kc1.code(), 0x1E);
    assert_eq!(BaseKeyCode::Kc0.code(), 0x27);
    assert_eq!(BaseKeyCode::Enter.code(), 0x28);
    assert_eq!(BaseKeyCode::ExSel.code(), 0xA4);
    assert_eq!(BaseKeyCode::SystemPower.code(), 0xA5);
    assert_eq!(BaseKeyCode::AudioMute.code(), 0xA8);
    assert_eq!(BaseKeyCode::Launchpad.code(), 0xC2);
    assert_eq!(BaseKeyCode::MouseUp.code(), 0xCD);
    assert_eq!(BaseKeyCode::MouseAcceleration2.code(), 0xDF);
    assert_eq!(BaseKeyCode::LCtrl.code(), 0xE0);
    assert_eq!(BaseKeyCode::RGui.code(), 0xE7);
    assert_eq!(BaseKeyCode::Fn0.code(), 0xE8);
    assert_eq!(BaseKeyCode::Fn15.code(), 0xF7);
    assert_eq!(BaseKeyCode::Bootloader.code(), 0xFE);
    assert_eq!(BaseKeyCode::Transparent.code(), 0xFF);
}

#[test]
fn base_keycode_reads_every_number() {
    let mut known: usize = 0;
    for n in 0..=255u8 {
        let k = BaseKeyCode::from_primitive(n);
        if k.code() == n {
            known += 1;
        } else {
            assert_eq!(k, BaseKeyCode::No);
        }
    }
    assert_eq!(known, 240);
}

#[test]
fn base_keycode_reads_unused_numbers_as_no() {
    assert_eq!(BaseKeyCode::from_primitive(0xC3), BaseKeyCode::No);
    assert_eq!(BaseKeyCode::from_primitive(0xCC), BaseKeyCode::No);
    assert_eq!(BaseKeyCode::from_primitive(0xF8), BaseKeyCode::No);
    assert_eq!(BaseKeyCode::from_primitive(0xFD), BaseKeyCode::No);
    assert_eq!(BaseKeyCode::from_primitive(0xE0), BaseKeyCode::LCtrl);
    assert_eq!(BaseKeyCode::from_primitive(0xA5), BaseKeyCode::SystemPower);
}

#[test]
fn base_keycode_order_is_that_of_the_numbers() {
    assert!(BaseKeyCode::A < BaseKeyCode::B);
    assert!(BaseKeyCode::ExSel < BaseKeyCode::SystemPower);
    assert!(BaseKeyCode::Launchpad < BaseKeyCode::MouseUp);
    assert!(BaseKeyCode::MouseAcceleration2 < BaseKeyCode::LCtrl);
    assert!(BaseKeyCode::RGui < BaseKeyCode::Fn0);
    assert!(BaseKeyCode::Bootloader < BaseKeyCode::Transparent);
    for n in 0..255u8 {
        let a = BaseKeyCode::from_primitive(n);
        let b = BaseKeyCode::from_primitive(n + 1);
        if a.code() == n && b.code() == n + 1 {
            assert!(a < b);
        }
    }
}

#[test]
fn base_keycode_modifiers() {
    assert!(BaseKeyCode::LCtrl.is_modifier());
    assert!(BaseKeyCode::RGui.is_modifier());
    assert!(BaseKeyCode::LAlt.is_modifier());
    assert!(!BaseKeyCode::MouseAcceleration2.is_modifier());
    assert!(!BaseKeyCode::Fn0.is_modifier());
    assert!(!BaseKeyCode::A.is_modifier());
}

#[test]
fn base_keycode_modifier_bits() {
    assert_eq!(BaseKeyCode::LCtrl.as_modifier_bit(), 0x01);
    assert_eq!(BaseKeyCode::LShift.as_modifier_bit(), 0x02);
    assert_eq!(BaseKeyCode::LAlt.as_modifier_bit(), 0x04);
    assert_eq!(BaseKeyCode::LGui.as_modifier_bit(), 0x08);
    assert_eq!(BaseKeyCode::RCtrl.as_modifier_bit(), 0x10);
    assert_eq!(BaseKeyCode::RShift.as_modifier_bit(), 0x20);
    assert_eq!(BaseKeyCode::RAlt.as_modifier_bit(), 0x40);
    assert_eq!(BaseKeyCode::RGui.as_modifier_bit(), 0x80);
    assert_eq!(BaseKeyCode::A.as_modifier_bit(), 0);
    assert_eq!(BaseKeyCode::Fn0.as_modifier_bit(), 0);
    assert_eq!(BaseKeyCode::No.as_modifier_bit(), 0);
}

#[test]
fn base_keycode_consumer_and_mouse() {
    assert!(BaseKeyCode::AudioMute.is_consumer());
    assert!(BaseKeyCode::Launchpad.is_consumer());
    assert!(BaseKeyCode::BrightnessDown.is_consumer());
    assert!(!BaseKeyCode::SystemWake.is_consumer());
    assert!(!BaseKeyCode::MouseUp.is_consumer());
    assert!(BaseKeyCode::MouseUp.is_mouse_key());
    assert!(BaseKeyCode::MouseAcceleration2.is_mouse_key());
    assert!(BaseKeyCode::MouseButton4.is_mouse_key());
    assert!(!BaseKeyCode::Launchpad.is_mouse_key());
    assert!(!BaseKeyCode::LCtrl.is_mouse_key());
}

#[test]
fn keycode_numbers() {
    assert_eq!(KeyCode::No.code(), 0x0000);
    assert_eq!(KeyCode::Transparent.code(), 0x0001);
    assert_eq!(KeyCode::A.code(), 0x0004);
    assert_eq!(KeyCode::RGui.code(), 0x00E7);
    assert_eq!(KeyCode::SwapHandsToggle.code(), 0x56F0);
    assert_eq!(KeyCode::MagicSwapControlCapsLock.code(), 0x7000);
    assert_eq!(KeyCode::MidiOn.code(), 0x7100);
    assert_eq!(KeyCode::MidiPitchBendUp.code(), 0x718F);
    assert_eq!(KeyCode::SequencerOn.code(), 0x7200);
    assert_eq!(KeyCode::JoystickButton0.code(), 0x7400);
    assert_eq!(KeyCode::StenoCombMax.code(), 0x74FC);
    assert_eq!(KeyCode::Macro31.code(), 0x771F);
    assert_eq!(KeyCode::RgbModeTwinkle.code(), 0x7834);
    assert_eq!(KeyCode::Bootloader.code(), 0x7C00);
    assert_eq!(KeyCode::AltRepeatKey.code(), 0x7C7A);
    assert_eq!(KeyCode::Kb0.code(), 0x7E00);
    assert_eq!(KeyCode::User31.code(), 0x7E5F);
}

#[test]
fn keycode_reads_every_number() {
    let mut known: usize = 0;
    let mut last: Option<KeyCode> = None;
    for n in 0..=u16::MAX {
        let k = KeyCode::from_primitive(n);
        if k.code() == n {
            known += 1;
            if let Some(before) = last {
                assert!(before < k);
            }
            last = Some(k);
        } else {
            assert_eq!(k, KeyCode::No);
        }
    }
    assert_eq!(known, 697);
}

#[test]
fn keycode_reads_numbers_between_the_kinds_as_no() {
    assert_eq!(KeyCode::from_primitive(0x0002), KeyCode::No);
    assert_eq!(KeyCode::from_primitive(0x00C3), KeyCode::No);
    assert_eq!(KeyCode::from_primitive(0x00E8), KeyCode::No);
    assert_eq!(KeyCode::from_primitive(0x56EF), KeyCode::No);
    assert_eq!(KeyCode::from_primitive(0x56F7), KeyCode::No);
    assert_eq!(KeyCode::from_primitive(0x7483), KeyCode::No);
    assert_eq!(KeyCode::from_primitive(0x74F3), KeyCode::No);
    assert_eq!(KeyCode::from_primitive(0xFFFF), KeyCode::No);
    assert_eq!(KeyCode::from_primitive(0x748A), KeyCode::AudioClickyToggle);
    assert_eq!(KeyCode::from_primitive(0x7C16), KeyCode::GraveEscape);
}

#[test]
fn keycode_basic_kinds() {
    assert!(KeyCode::No.is_basic());
    assert!(KeyCode::A.is_basic());
    assert!(KeyCode::RGui.is_basic());
    assert!(!KeyCode::SwapHandsToggle.is_basic());
    assert!(KeyCode::LCtrl.is_modifier());
    assert!(KeyCode::RGui.is_modifier());
    assert!(!KeyCode::MouseAccel2.is_modifier());
    assert!(KeyCode::SystemPower.is_system());
    assert!(KeyCode::SystemWake.is_system());
    assert!(!KeyCode::Exsel.is_system());
    assert!(!KeyCode::AudioMute.is_system());
    assert!(KeyCode::AudioMute.is_consumer());
    assert!(KeyCode::Launchpad.is_consumer());
    assert!(!KeyCode::SystemWake.is_consumer());
    assert!(!KeyCode::MouseUp.is_consumer());
    assert!(KeyCode::MouseUp.is_mouse_key());
    assert!(KeyCode::MouseAccel2.is_mouse_key());
    assert!(!KeyCode::LCtrl.is_mouse_key());
    assert!(!KeyCode::Launchpad.is_mouse_key());
}

#[test]
fn keycode_kinds_above_the_basic_ones() {
    assert!(KeyCode::SwapHandsToggle.is_swap_hands());
    assert!(KeyCode::SwapHandsOneShot.is_swap_hands());
    assert!(!KeyCode::RGui.is_swap_hands());
    assert!(!KeyCode::MagicSwapControlCapsLock.is_swap_hands());
    assert!(KeyCode::MagicSwapControlCapsLock.is_magic());
    assert!(KeyCode::MagicToggleEscapeCapsLock.is_magic());
    assert!(!KeyCode::MidiOn.is_magic());
    assert!(KeyCode::MidiOn.is_midi());
    assert!(KeyCode::MidiPitchBendUp.is_midi());
    assert!(!KeyCode::SequencerOn.is_midi());
    assert!(KeyCode::SequencerOn.is_sequencer());
    assert!(KeyCode::SequencerStepsClear.is_sequencer());
    assert!(!KeyCode::JoystickButton0.is_sequencer());
    assert!(KeyCode::JoystickButton0.is_joystick());
    assert!(KeyCode::JoystickButton31.is_joystick());
    assert!(!KeyCode::ProgrammableButton1.is_joystick());
    assert!(KeyCode::ProgrammableButton1.is_programmable_button());
    assert!(KeyCode::ProgrammableButton32.is_programmable_button());
    assert!(!KeyCode::AudioOn.is_programmable_button());
    assert!(KeyCode::AudioOn.is_audio());
    assert!(KeyCode::AudioVoicePrevious.is_audio());
    assert!(KeyCode::MusicOn.is_audio());
    assert!(!KeyCode::AudioMute.is_audio());
    assert!(!KeyCode::StenoBolt.is_audio());
    assert!(KeyCode::StenoBolt.is_steno());
    assert!(KeyCode::StenoCombMax.is_steno());
    assert!(!KeyCode::Macro0.is_steno());
    assert!(KeyCode::Macro0.is_macro());
    assert!(KeyCode::Macro31.is_macro());
    assert!(!KeyCode::BacklightOn.is_macro());
    assert!(KeyCode::BacklightOn.is_backlight());
    assert!(KeyCode::BacklightToggleBreathing.is_backlight());
    assert!(!KeyCode::RgbTog.is_backlight());
    assert!(KeyCode::RgbTog.is_rgb());
    assert!(KeyCode::RgbModeTwinkle.is_rgb());
    assert!(!KeyCode::Bootloader.is_rgb());
    assert!(KeyCode::Bootloader.is_rmk());
    assert!(KeyCode::AltRepeatKey.is_rmk());
    assert!(KeyCode::GraveEscape.is_rmk());
    assert!(!KeyCode::Kb0.is_rmk());
    assert!(KeyCode::Kb0.is_kb());
    assert!(KeyCode::Kb31.is_kb());
    assert!(!KeyCode::User0.is_kb());
    assert!(KeyCode::User0.is_user());
    assert!(KeyCode::User31.is_user());
    assert!(!KeyCode::Kb31.is_user());
}

#[test]
fn keycode_is_of_one_kind_at_most() {
    for n in 0..=u16::MAX {
        let k = KeyCode::from_primitive(n);
        let kinds = [
            k.is_basic(),
            k.is_swap_hands(),
            k.is_magic(),
            k.is_midi(),
            k.is_sequencer(),
            k.is_joystick(),
            k.is_programmable_button(),
            k.is_audio(),
            k.is_steno(),
            k.is_macro(),
            k.is_backlight(),
            k.is_rgb(),
            k.is_rmk(),
            k.is_kb(),
            k.is_user(),
        ];
        assert_eq!(kinds.iter().filter(|yes| **yes).count(), 1);
    }
}

#[test]
fn keycode_to_base_keycode() {
    assert_eq!(KeyCode::A.to_base_keycode(), BaseKeyCode::A);
    assert_eq!(KeyCode::No.to_base_keycode(), BaseKeyCode::No);
    assert_eq!(KeyCode::RGui.to_base_keycode(), BaseKeyCode::RGui);
    assert_eq!(KeyCode::MouseAccel2.to_base_keycode(), BaseKeyCode::MouseAcceleration2);
    assert_eq!(KeyCode::UP.to_base_keycode(), BaseKeyCode::Up);
    assert_eq!(KeyCode::MediaSelect.to_base_keycode(), BaseKeyCode::MediaEject);
    assert_eq!(KeyCode::Transparent.to_base_keycode(), BaseKeyCode::ErrorRollover);
    assert_eq!(KeyCode::Macro3.to_base_keycode(), BaseKeyCode::No);
    assert_eq!(KeyCode::Bootloader.to_base_keycode(), BaseKeyCode::No);
    assert_eq!(KeyCode::User31.to_base_keycode(), BaseKeyCode::No);
}

#[test]
fn keycode_from_base_keycode() {
    assert_eq!(KeyCode::from_base_keycode(BaseKeyCode::A), KeyCode::A);
    assert_eq!(KeyCode::from_base_keycode(BaseKeyCode::No), KeyCode::No);
    assert_eq!(KeyCode::from_base_keycode(BaseKeyCode::LShift), KeyCode::LShift);
    assert_eq!(KeyCode::from_base_keycode(BaseKeyCode::ErrorRollover), KeyCode::Transparent);
    assert_eq!(KeyCode::from_base_keycode(BaseKeyCode::PostFail), KeyCode::No);
    assert_eq!(KeyCode::from_base_keycode(BaseKeyCode::Fn0), KeyCode::No);
    assert_eq!(KeyCode::from_base_keycode(BaseKeyCode::Bootloader), KeyCode::No);
    assert_eq!(KeyCode::from_base_keycode(BaseKeyCode::Transparent), KeyCode::No);
}

#[test]
fn keycode_and_base_keycode_keep_the_number() {
    for n in 0..=255u8 {
        let base = BaseKeyCode::from_primitive(n);
        let full = KeyCode::from_base_keycode(base);
        assert!(full == KeyCode::No || full.code() == base.code() as u16);
        assert!(full.is_basic());
        let back = full.to_base_keycode();
        assert!(back == base || back == BaseKeyCode::No);
    }
}

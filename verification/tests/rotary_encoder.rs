use rmk::rotary_encoder::{Direction, EncoderState, RotaryEncoder};

#[test]
fn encoder_state_starts_empty() {
    let s = EncoderState::new();
    assert_eq!(s.bits(), 0);
    assert!(!s.pin_a());
    assert!(!s.pin_b());
    assert!(!s.pin_a_prev());
    assert!(!s.pin_b_prev());
}

#[test]
fn encoder_state_bits_are_laid_out_current_first() {
    assert_eq!(EncoderState::from_pins(false, false, true, false).bits(), 0b0001);
    assert_eq!(EncoderState::from_pins(false, false, false, true).bits(), 0b0010);
    assert_eq!(EncoderState::from_pins(true, false, false, false).bits(), 0b0100);
    assert_eq!(EncoderState::from_pins(false, true, false, false).bits(), 0b1000);
    assert_eq!(EncoderState::from_pins(true, false, true, true).bits(), 0b0111);
    assert_eq!(EncoderState::from_pins(true, true, true, true).bits(), 0b1111);
}

#[test]
fn encoder_state_from_bits_keeps_four_bits() {
    assert_eq!(EncoderState::from_bits(0b1010).bits(), 0b1010);
    assert_eq!(EncoderState::from_bits(0xF7).bits(), 0b0111);
    assert_eq!(EncoderState::from_bits(0x10).bits(), 0);
    for bits in 0..16u8 {
        let s = EncoderState::from_bits(bits);
        let again = EncoderState::from_pins(s.pin_a_prev(), s.pin_b_prev(), s.pin_a(), s.pin_b());
        assert_eq!(again, s);
    }
}

#[test]
fn encoder_state_setters_touch_one_bit() {
    let mut s = EncoderState::new();
    s.set_pin_a(true);
    assert_eq!(s.bits(), 0b0001);
    s.set_pin_b_prev(true);
    assert_eq!(s.bits(), 0b1001);
    s.set_pin_b(true);
    assert_eq!(s.bits(), 0b1011);
    s.set_pin_a_prev(true);
    assert_eq!(s.bits(), 0b1111);
    s.set_pin_a(false);
    assert_eq!(s.bits(), 0b1110);
    s.set_pin_b_prev(false);
    assert_eq!(s.bits(), 0b0110);
    s.set_pin_b_prev(false);
    assert_eq!(s.bits(), 0b0110);
    assert!(!s.pin_a());
    assert!(s.pin_b());
    assert!(s.pin_a_prev());
    assert!(!s.pin_b_prev());
}

#[test]
fn encoder_state_update_shifts_current_to_previous() {
    for bits in 0..16u8 {
        let mut s = EncoderState::from_bits(bits);
        let a = s.pin_a();
        let b = s.pin_b();
        s.update();
        assert_eq!(s.pin_a_prev(), a);
        assert_eq!(s.pin_b_prev(), b);
        assert!(!s.pin_a());
        assert!(!s.pin_b());
        assert_eq!(s.bits(), (bits << 2) & 0b1100);
    }
    let mut s = EncoderState::from_bits(0b0111);
    s.update();
    assert_eq!(s.bits(), 0b1100);
}

#[test]
fn decode_table_is_exhaustive() {
    let mut clockwise = Vec::new();
    let mut counter = Vec::new();
    let mut still = Vec::new();
    for bits in 0..16u8 {
        match EncoderState::from_bits(bits).direction() {
            Direction::Clockwise => clockwise.push(bits),
            Direction::CounterClockwise => counter.push(bits),
            Direction::NoRotation => still.push(bits),
        }
    }
    assert_eq!(clockwise, vec![0b0001, 0b0111, 0b1000, 0b1110]);
    assert_eq!(counter, vec![0b0010, 0b0100, 0b1011, 0b1101]);
    assert_eq!(still, vec![0b0000, 0b0011, 0b0101, 0b0110, 0b1001, 0b1010, 0b1100, 0b1111]);
}

#[test]
fn decode_is_the_same_each_time() {
    for bits in 0..16u8 {
        let s = EncoderState::from_bits(bits);
        assert_eq!(s.direction(), s.direction());
        assert_eq!(Direction::from(s), s.direction());
        assert_eq!(Direction::from(EncoderState::from_bits(bits)), s.direction());
    }
}

#[test]
fn clockwise_transition_sequence() {
    let first = EncoderState::from_pins(false, false, true, false);
    assert_eq!(first.bits(), 0b0001);
    assert_eq!(Direction::from(first), Direction::Clockwise);
    let second = EncoderState::from_pins(true, false, true, true);
    assert_eq!(second.bits(), 0b0111);
    assert_eq!(Direction::from(second), Direction::Clockwise);
}

#[test]
fn rotary_encoder_follows_the_transition_sequence() {
    let mut encoder = RotaryEncoder::new();
    assert_eq!(encoder.direction(), Direction::NoRotation);
    assert_eq!(encoder.report(), None);
    encoder.process(true, false);
    assert_eq!(encoder.direction(), Direction::Clockwise);
    assert_eq!(encoder.report(), Some(Direction::Clockwise));
    encoder.process(true, true);
    assert_eq!(encoder.direction(), Direction::Clockwise);
    encoder.process(false, true);
    assert_eq!(encoder.direction(), Direction::Clockwise);
    encoder.process(false, false);
    assert_eq!(encoder.direction(), Direction::Clockwise);
}

#[test]
fn rotary_encoder_turns_back() {
    let mut encoder = RotaryEncoder::new();
    encoder.process(false, true);
    assert_eq!(encoder.direction(), Direction::CounterClockwise);
    assert_eq!(encoder.report(), Some(Direction::CounterClockwise));
    encoder.process(true, true);
    assert_eq!(encoder.direction(), Direction::CounterClockwise);
    encoder.process(true, false);
    assert_eq!(encoder.direction(), Direction::CounterClockwise);
    encoder.process(false, false);
    assert_eq!(encoder.direction(), Direction::CounterClockwise);
}

#[test]
fn rotary_encoder_sees_no_rotation_in_rest_and_bounce() {
    let mut encoder = RotaryEncoder::new();
    encoder.process(false, false);
    assert_eq!(encoder.direction(), Direction::NoRotation);
    assert_eq!(encoder.report(), None);
    encoder.process(true, true);
    assert_eq!(encoder.direction(), Direction::NoRotation);
    encoder.process(true, true);
    assert_eq!(encoder.direction(), Direction::NoRotation);
    encoder.process(false, false);
    assert_eq!(encoder.direction(), Direction::NoRotation);
    assert_eq!(encoder.report(), None);
}

#[test]
fn rotary_encoder_decodes_before_it_shifts() {
    // Decoded after the shift, every tick would read a state with both
    // current bits clear, of which 0b1000 alone is clockwise.
    let mut encoder = RotaryEncoder::new();
    encoder.process(true, false);
    assert_eq!(encoder.direction(), Direction::Clockwise);
    encoder.process(true, false);
    assert_eq!(encoder.direction(), Direction::NoRotation);
}

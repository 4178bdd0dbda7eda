//! Quadrature decoding for a rotary encoder.
//!
//! The two phase-shifted lines of an encoder are sampled once per tick. The
//! previous and the current sample are packed into four bits, and the packed
//! value alone decides the direction of rotation.

use vstd::prelude::*;

verus! {

/// Mask of the bit that holds the current sample of line A.
pub const PIN_A: u8 = 0b0001;

/// Mask of the bit that holds the current sample of line B.
pub const PIN_B: u8 = 0b0010;

/// Mask of the bit that holds the previous sample of line A.
pub const PIN_A_PREV: u8 = 0b0100;

/// Mask of the bit that holds the previous sample of line B.
pub const PIN_B_PREV: u8 = 0b1000;

/// Direction of a rotary encoder's rotation.
#[derive(Clone, Copy, Debug, PartialEq, Eq, Structural)]
pub enum Direction {
    /// No rotation was seen: nothing changed, or the lines bounced.
    NoRotation,
    /// Clockwise rotation.
    Clockwise,
    /// Counter-clockwise rotation.
    CounterClockwise,
}

/// The direction that a packed state stands for.
///
/// Four patterns mean one step clockwise, four mean one step counter-clockwise,
/// and every other value of a byte, those above 15 included, means
/// no rotation.
pub open spec fn decode(bits: u8) -> Direction {
    if bits == 0b0001 || bits == 0b0111 || bits == 0b1000 || bits == 0b1110 {
        Direction::Clockwise
    } else if bits == 0b0010 || bits == 0b0100 || bits == 0b1011 || bits == 0b1101 {
        Direction::CounterClockwise
    } else {
        Direction::NoRotation
    }
}

/// The packed state made of four samples.
pub open spec fn pack(pin_a_prev: bool, pin_b_prev: bool, pin_a: bool, pin_b: bool) -> u8 {
    ((if pin_a { 1 } else { 0int }) + (if pin_b { 2 } else { 0int }) + (if pin_a_prev {
        4
    } else {
        0int
    }) + (if pin_b_prev {
        8
    } else {
        0int
    })) as u8
}

/// Whether the bit selected by `mask` is set in `bits`.
pub open spec fn bit_is_set(bits: u8, mask: u8) -> bool {
    bits & mask != 0
}

/// `bits` with the bit selected by `mask` set to `value`.
pub open spec fn with_bit(bits: u8, mask: u8, value: bool) -> u8 {
    if value {
        bits | mask
    } else {
        bits & !mask
    }
}

/// The state after a tick: the current samples become the previous ones and
/// the current bits are cleared.
pub open spec fn shifted(bits: u8) -> u8 {
    (bits << 2) & 0b1100
}

/// Position of a sample of the two lines on the cycle 00, 01, 11, 10 that a
/// clockwise turn walks through, line A counted as the low bit.
pub open spec fn phase(pin_a: bool, pin_b: bool) -> int {
    if !pin_a && !pin_b {
        0
    } else if pin_a && !pin_b {
        1
    } else if pin_a && pin_b {
        2
    } else {
        3
    }
}

/// Packed state of an encoder: the previous and the current sample of both
/// lines, in the low four bits of a byte.
#[derive(Clone, Copy, Debug, PartialEq, Eq)]
pub struct EncoderState {
    bits: u8,
}

impl View for EncoderState {
    type V = u8;

    closed spec fn view(&self) -> u8 {
        self.bits
    }
}

impl EncoderState {
    #[verifier::type_invariant]
    spec fn well_formed(self) -> bool {
        self.bits < 16
    }

    /// The state with no line high, now or before.
    pub fn new() -> (state: EncoderState)
        ensures
            state@ == 0,
    {
        EncoderState { bits: 0 }
    }

    /// The state whose low four bits are those of `bits`.
    pub fn from_bits(bits: u8) -> (state: EncoderState)
        ensures
            state@ == bits & 0b1111,
            bits < 16 ==> state@ == bits,
    {
        let low: u8 = bits & 0b1111;
        assert(bits & 0b1111 < 16) by (bit_vector);
        assert(bits < 16 ==> bits & 0b1111 == bits) by (bit_vector);
        EncoderState { bits: low }
    }

    /// The state made of a previous and a current sample.
    pub fn from_pins(pin_a_prev: bool, pin_b_prev: bool, pin_a: bool, pin_b: bool) -> (state:
        EncoderState)
        ensures
            state@ == pack(pin_a_prev, pin_b_prev, pin_a, pin_b),
    {
        let a: u8 = if pin_a { 1 } else { 0 };
        let b: u8 = if pin_b { 2 } else { 0 };
        let pa: u8 = if pin_a_prev { 4 } else { 0 };
        let pb: u8 = if pin_b_prev { 8 } else { 0 };
        EncoderState { bits: a + b + pa + pb }
    }

    /// The packed value, always below 16.
    pub fn bits(&self) -> (bits: u8)
        ensures
            bits == self@,
            bits < 16,
    {
        proof {
            use_type_invariant(self);
        }
        self.bits
    }

    /// The current sample of line A.
    pub fn pin_a(&self) -> (high: bool)
        ensures
            high == bit_is_set(self@, PIN_A),
    {
        self.bits & PIN_A != 0
    }

    /// The current sample of line B.
    pub fn pin_b(&self) -> (high: bool)
        ensures
            high == bit_is_set(self@, PIN_B),
    {
        self.bits & PIN_B != 0
    }

    /// The previous sample of line A.
    pub fn pin_a_prev(&self) -> (high: bool)
        ensures
            high == bit_is_set(self@, PIN_A_PREV),
    {
        self.bits & PIN_A_PREV != 0
    }

    /// The previous sample of line B.
    pub fn pin_b_prev(&self) -> (high: bool)
        ensures
            high == bit_is_set(self@, PIN_B_PREV),
    {
        self.bits & PIN_B_PREV != 0
    }

    /// Stores `value` in the bit selected by `mask`, one of the four masks of
    /// this module.
    fn set_bit(&mut self, mask: u8, value: bool)
        requires
            mask < 16,
        ensures
            final(self)@ == with_bit(old(self)@, mask, value),
    {
        proof {
            use_type_invariant(&*self);
        }
        let bits: u8 = self.bits;
        assert(bits < 16 && mask < 16 ==> (bits | mask) < 16 && (bits & !mask) < 16)
            by (bit_vector);
        if value {
            self.bits = bits | mask;
        } else {
            self.bits = bits & !mask;
        }
    }

    /// Stores the current sample of line A.
    pub fn set_pin_a(&mut self, value: bool)
        ensures
            final(self)@ == with_bit(old(self)@, PIN_A, value),
    {
        self.set_bit(PIN_A, value);
    }

    /// Stores the current sample of line B.
    pub fn set_pin_b(&mut self, value: bool)
        ensures
            final(self)@ == with_bit(old(self)@, PIN_B, value),
    {
        self.set_bit(PIN_B, value);
    }

    /// Stores the previous sample of line A.
    pub fn set_pin_a_prev(&mut self, value: bool)
        ensures
            final(self)@ == with_bit(old(self)@, PIN_A_PREV, value),
    {
        self.set_bit(PIN_A_PREV, value);
    }

    /// Stores the previous sample of line B.
    pub fn set_pin_b_prev(&mut self, value: bool)
        ensures
            final(self)@ == with_bit(old(self)@, PIN_B_PREV, value),
    {
        self.set_bit(PIN_B_PREV, value);
    }

    /// Ends a tick: the current samples become the previous ones, and the
    /// current bits are cleared for the next sample.
    pub fn update(&mut self)
        ensures
            final(self)@ == shifted(old(self)@),
            bit_is_set(final(self)@, PIN_A_PREV) == bit_is_set(old(self)@, PIN_A),
            bit_is_set(final(self)@, PIN_B_PREV) == bit_is_set(old(self)@, PIN_B),
            !bit_is_set(final(self)@, PIN_A),
            !bit_is_set(final(self)@, PIN_B),
    {
        let a: bool = self.pin_a();
        let b: bool = self.pin_b();
        let ghost before: u8 = self@;
        proof {
            use_type_invariant(&*self);
        }
        self.set_pin_a_prev(a);
        self.set_pin_b_prev(b);
        self.set_pin_a(false);
        self.set_pin_b(false);
        proof {
            lemma_update_steps(before);
        }
    }

    /// The direction that this state stands for.
    pub fn direction(&self) -> (dir: Direction)
        ensures
            dir == decode(self@),
    {
        let bits: u8 = self.bits;
        if bits == 0b0001 || bits == 0b0111 || bits == 0b1000 || bits == 0b1110 {
            Direction::Clockwise
        } else if bits == 0b0010 || bits == 0b0100 || bits == 0b1011 || bits == 0b1101 {
            Direction::CounterClockwise
        } else {
            Direction::NoRotation
        }
    }
}

/// Setting the two previous bits from the current ones and then clearing the
/// current ones is one shift by two places within the low four bits.
proof fn lemma_update_steps(bits: u8)
    requires
        bits < 16,
    ensures
        ({
            let a = bits & 0b0001 != 0;
            let b = bits & 0b0010 != 0;
            let s1 = if a { bits | 0b0100 } else { bits & !0b0100u8 };
            let s2 = if b { s1 | 0b1000 } else { s1 & !0b1000u8 };
            let s3 = s2 & !0b0001u8;
            let s4 = s3 & !0b0010u8;
            &&& s4 == (bits << 2) & 0b1100
            &&& (s4 & 0b0100 != 0) == a
            &&& (s4 & 0b1000 != 0) == b
            &&& s4 & 0b0001 == 0
            &&& s4 & 0b0010 == 0
        }),
{
    assert({
        let a = bits & 0b0001 != 0;
        let b = bits & 0b0010 != 0;
        let s1 = if a { bits | 0b0100 } else { bits & !0b0100u8 };
        let s2 = if b { s1 | 0b1000 } else { s1 & !0b1000u8 };
        let s3 = s2 & !0b0001u8;
        let s4 = s3 & !0b0010u8;
        &&& s4 == (bits << 2) & 0b1100
        &&& (s4 & 0b0100 != 0) == a
        &&& (s4 & 0b1000 != 0) == b
        &&& s4 & 0b0001 == 0
        &&& s4 & 0b0010 == 0
    }) by (bit_vector)
        requires
            bits < 16,
    ;
}

impl From<EncoderState> for Direction {
    /// The direction that `s` stands for.
    fn from(s: EncoderState) -> (dir: Direction) {
        s.direction()
    }
}

impl vstd::std_specs::convert::FromSpecImpl<EncoderState> for Direction {
    open spec fn obeys_from_spec() -> bool {
        true
    }

    open spec fn from_spec(s: EncoderState) -> Direction {
        decode(s@)
    }
}

/// The state after the two lines were sampled as `pin_a` and `pin_b`.
pub open spec fn sampled(bits: u8, pin_a: bool, pin_b: bool) -> u8 {
    with_bit(with_bit(bits, PIN_A, pin_a), PIN_B, pin_b)
}

/// What a rotary encoder remembers between two ticks.
pub struct RotaryEncoderView {
    /// Line A at the last tick.
    pub pin_a_prev: bool,
    /// Line B at the last tick.
    pub pin_b_prev: bool,
    /// The direction decoded at the last tick.
    pub dir: Direction,
}

/// Decoder of one rotary encoder. The push key of an encoder is part of the
/// key matrix and is not handled here.
///
/// Each tick hands in one sample of the two lines; the decoder holds the
/// previous sample and the direction that the last tick gave.
pub struct RotaryEncoder {
    state: EncoderState,
    dir: Direction,
}

impl View for RotaryEncoder {
    type V = RotaryEncoderView;

    closed spec fn view(&self) -> RotaryEncoderView {
        RotaryEncoderView {
            pin_a_prev: bit_is_set(self.state@, PIN_A_PREV),
            pin_b_prev: bit_is_set(self.state@, PIN_B_PREV),
            dir: self.dir,
        }
    }
}

impl RotaryEncoder {
    #[verifier::type_invariant]
    spec fn well_formed(self) -> bool {
        &&& self.state@ < 16
        &&& !bit_is_set(self.state@, PIN_A)
        &&& !bit_is_set(self.state@, PIN_B)
    }

    /// A decoder that has seen both lines low and no rotation.
    pub fn new() -> (encoder: RotaryEncoder)
        ensures
            encoder@ == (RotaryEncoderView {
                pin_a_prev: false,
                pin_b_prev: false,
                dir: Direction::NoRotation,
            }),
    {
        let state = EncoderState::new();
        assert(0u8 & 0b0001 == 0 && 0u8 & 0b0010 == 0 && 0u8 & 0b0100 == 0 && 0u8 & 0b1000 == 0)
            by (bit_vector);
        RotaryEncoder { state, dir: Direction::NoRotation }
    }

    /// One tick: takes the sample `pin_a`, `pin_b`, decodes the direction from
    /// the previous and the new sample, and only then makes the new sample
    /// the previous one.
    pub fn process(&mut self, pin_a: bool, pin_b: bool)
        ensures
            final(self)@ == (RotaryEncoderView {
                pin_a_prev: pin_a,
                pin_b_prev: pin_b,
                dir: decode(pack(old(self)@.pin_a_prev, old(self)@.pin_b_prev, pin_a, pin_b)),
            }),
    {
        proof {
            use_type_invariant(&*self);
        }
        let ghost before: u8 = self.state@;
        let mut state: EncoderState = self.state;
        state.set_pin_a(pin_a);
        state.set_pin_b(pin_b);
        proof {
            lemma_sampled_is_pack(before, pin_a, pin_b);
            lemma_bits_of_pack(
                bit_is_set(before, PIN_A_PREV),
                bit_is_set(before, PIN_B_PREV),
                pin_a,
                pin_b,
            );
        }
        // The direction comes from the state before the shift.
        let dir: Direction = Direction::from(state);
        state.update();
        proof {
            lemma_shifted_pack(
                bit_is_set(before, PIN_A_PREV),
                bit_is_set(before, PIN_B_PREV),
                pin_a,
                pin_b,
            );
            lemma_bits_of_pack(pin_a, pin_b, false, false);
        }
        self.state = state;
        self.dir = dir;
    }

    /// The direction decoded at the last tick.
    pub fn direction(&self) -> (dir: Direction)
        ensures
            dir == self@.dir,
    {
        self.dir
    }

    /// The rotation to report after a tick: the last direction, unless the
    /// tick saw no rotation, which is reported to nobody.
    pub fn report(&self) -> (event: Option<Direction>)
        ensures
            event == rotation_event(self@.dir),
    {
        match self.dir {
            Direction::NoRotation => None,
            Direction::Clockwise => Some(Direction::Clockwise),
            Direction::CounterClockwise => Some(Direction::CounterClockwise),
        }
    }
}

/// The event that a decoded direction gives rise to: none for no rotation.
pub open spec fn rotation_event(dir: Direction) -> Option<Direction> {
    if dir == Direction::NoRotation {
        None
    } else {
        Some(dir)
    }
}

/// Each of the four masks reads back the sample that `pack` put there.
pub proof fn lemma_bits_of_pack(pin_a_prev: bool, pin_b_prev: bool, pin_a: bool, pin_b: bool)
    ensures
        pack(pin_a_prev, pin_b_prev, pin_a, pin_b) < 16,
        bit_is_set(pack(pin_a_prev, pin_b_prev, pin_a, pin_b), PIN_A) == pin_a,
        bit_is_set(pack(pin_a_prev, pin_b_prev, pin_a, pin_b), PIN_B) == pin_b,
        bit_is_set(pack(pin_a_prev, pin_b_prev, pin_a, pin_b), PIN_A_PREV) == pin_a_prev,
        bit_is_set(pack(pin_a_prev, pin_b_prev, pin_a, pin_b), PIN_B_PREV) == pin_b_prev,
{
    let bits = pack(pin_a_prev, pin_b_prev, pin_a, pin_b);
    lemma_bits_arith(bits);
}

/// The four bits of a state below 16, read as digits of the number.
proof fn lemma_bits_arith(bits: u8)
    requires
        bits < 16,
    ensures
        (bits & 0b0001 != 0) == (bits % 2 == 1),
        (bits & 0b0010 != 0) == ((bits / 2) % 2 == 1),
        (bits & 0b0100 != 0) == ((bits / 4) % 2 == 1),
        (bits & 0b1000 != 0) == (bits / 8 == 1),
{
    assert((bits & 0b0001 != 0) == (bits % 2 == 1)) by (bit_vector);
    assert((bits & 0b0010 != 0) == ((bits / 2) % 2 == 1)) by (bit_vector);
    assert((bits & 0b0100 != 0) == ((bits / 4) % 2 == 1)) by (bit_vector);
    assert((bits & 0b1000 != 0) == (bits / 8 == 1)) by (bit_vector)
        requires
            bits < 16,
    ;
}

/// Every state below 16 is the pack of its own four bits: the sixteen packs
/// are all the states there are.
pub proof fn lemma_pack_of_bits(bits: u8)
    requires
        bits < 16,
    ensures
        bits == pack(
            bit_is_set(bits, PIN_A_PREV),
            bit_is_set(bits, PIN_B_PREV),
            bit_is_set(bits, PIN_A),
            bit_is_set(bits, PIN_B),
        ),
{
    lemma_bits_arith(bits);
}

/// Sampling into a state whose current bits are clear gives the pack of the
/// remembered and the new sample.
proof fn lemma_sampled_is_pack(bits: u8, pin_a: bool, pin_b: bool)
    requires
        bits < 16,
        !bit_is_set(bits, PIN_A),
        !bit_is_set(bits, PIN_B),
    ensures
        sampled(bits, pin_a, pin_b) == pack(
            bit_is_set(bits, PIN_A_PREV),
            bit_is_set(bits, PIN_B_PREV),
            pin_a,
            pin_b,
        ),
{
    lemma_bits_arith(bits);
    assert(bits & 0b0001 == 0 && bits & 0b0010 == 0 ==> (bits | 0b0001) == bits + 1 && (bits
        & !0b0001u8) == bits && (bits | 0b0010) == bits + 2 && (bits & !0b0010u8) == bits && ((bits
        | 0b0001) | 0b0010) == bits + 3 && ((bits | 0b0001) & !0b0010u8) == bits + 1)
        by (bit_vector)
        requires
            bits < 16,
    ;
}

/// Shifting a pack makes its current sample the previous one and leaves the
/// current bits clear.
pub proof fn lemma_shifted_pack(pin_a_prev: bool, pin_b_prev: bool, pin_a: bool, pin_b: bool)
    ensures
        shifted(pack(pin_a_prev, pin_b_prev, pin_a, pin_b)) == pack(pin_a, pin_b, false, false),
{
    let bits = pack(pin_a_prev, pin_b_prev, pin_a, pin_b);
    assert(bits < 16 ==> (bits << 2) & 0b1100 == (bits % 4) * 4) by (bit_vector);
}

/// The decode table is total and reads the turn off the two samples alone:
/// one step forward on the cycle 00, 01, 11, 10 is clockwise, one step back
/// is counter-clockwise, and no step or two steps at once is no rotation.
pub proof fn lemma_decode_by_phase(pin_a_prev: bool, pin_b_prev: bool, pin_a: bool, pin_b: bool)
    ensures
        ({
            let dir = decode(pack(pin_a_prev, pin_b_prev, pin_a, pin_b));
            let before = phase(pin_a_prev, pin_b_prev);
            let now = phase(pin_a, pin_b);
            &&& dir == Direction::Clockwise <==> now == (before + 1) % 4
            &&& dir == Direction::CounterClockwise <==> now == (before + 3) % 4
            &&& dir == Direction::NoRotation <==> now == before || now == (before + 2) % 4
        }),
{
}

/// Of the 256 bytes exactly four decode to clockwise and four to
/// counter-clockwise; all of them are below 16.
pub proof fn lemma_decode_table(bits: u8)
    ensures
        decode(bits) == Direction::Clockwise <==> bits == 1 || bits == 7 || bits == 8 || bits
            == 14,
        decode(bits) == Direction::CounterClockwise <==> bits == 2 || bits == 4 || bits == 11
            || bits == 13,
        decode(bits) != Direction::NoRotation ==> bits < 16,
{
}

} // verus!

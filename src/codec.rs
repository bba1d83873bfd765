use vstd::arithmetic::power2::{lemma2_to64, lemma_pow2_strictly_increases, lemma_pow2_unfold, pow2};
use vstd::prelude::*;

verus! {

/// Half of `v`, rounded toward zero, as integer division does on the machine.
pub open spec fn half_toward_zero(v: int) -> int {
    if v >= 0 {
        v / 2
    } else {
        -((-v) / 2)
    }
}

/// An integer type that can carry an analog input value.
///
/// Each implementation exposes its bounds and the midpoint of its range,
/// computed as `(max + min) / 2` with the type's own division.
pub trait AnalogValue: Sized + Copy {
    /// The mathematical value held.
    spec fn value(self) -> int;

    /// The smallest representable value.
    spec fn lowest() -> int;

    /// The largest representable value.
    spec fn highest() -> int;

    fn max_value() -> (r: Self)
        ensures
            r.value() == Self::highest(),
    ;

    fn min_value() -> (r: Self)
        ensures
            r.value() == Self::lowest(),
    ;

    fn midpoint() -> (r: Self)
        ensures
            r.value() == half_toward_zero(Self::highest() + Self::lowest()),
    ;

    fn is_greater(self, other: Self) -> (r: bool)
        ensures
            r == (self.value() > other.value()),
    ;
}

impl AnalogValue for u8 {
    open spec fn value(self) -> int {
        self as int
    }

    open spec fn lowest() -> int {
        u8::MIN as int
    }

    open spec fn highest() -> int {
        u8::MAX as int
    }

    fn max_value() -> (r: u8) {
        u8::MAX
    }

    fn min_value() -> (r: u8) {
        u8::MIN
    }

    fn midpoint() -> (r: u8) {
        (u8::MAX + u8::MIN) / 2
    }

    fn is_greater(self, other: u8) -> (r: bool) {
        self > other
    }
}

impl AnalogValue for i16 {
    open spec fn value(self) -> int {
        self as int
    }

    open spec fn lowest() -> int {
        i16::MIN as int
    }

    open spec fn highest() -> int {
        i16::MAX as int
    }

    fn max_value() -> (r: i16) {
        i16::MAX
    }

    fn min_value() -> (r: i16) {
        i16::MIN
    }

    fn midpoint() -> (r: i16) {
        (i16::MAX + i16::MIN) / 2
    }

    fn is_greater(self, other: i16) -> (r: bool) {
        self > other
    }
}

impl AnalogValue for u64 {
    open spec fn value(self) -> int {
        self as int
    }

    open spec fn lowest() -> int {
        u64::MIN as int
    }

    open spec fn highest() -> int {
        u64::MAX as int
    }

    fn max_value() -> (r: u64) {
        u64::MAX
    }

    fn min_value() -> (r: u64) {
        u64::MIN
    }

    fn midpoint() -> (r: u64) {
        (u64::MAX + u64::MIN) / 2
    }

    fn is_greater(self, other: u64) -> (r: bool) {
        self > other
    }
}

impl AnalogValue for i64 {
    open spec fn value(self) -> int {
        self as int
    }

    open spec fn lowest() -> int {
        i64::MIN as int
    }

    open spec fn highest() -> int {
        i64::MAX as int
    }

    fn max_value() -> (r: i64) {
        i64::MAX
    }

    fn min_value() -> (r: i64) {
        i64::MIN
    }

    fn midpoint() -> (r: i64) {
        (i64::MAX + i64::MIN) / 2
    }

    fn is_greater(self, other: i64) -> (r: bool) {
        self > other
    }
}

/// The midpoint of `T`'s range: `(max + min) / 2`, rounded toward zero.
pub fn whats_the_midpoint_of_a<T: AnalogValue>() -> (r: T)
    ensures
        r.value() == half_toward_zero(T::highest() + T::lowest()),
{
    T::midpoint()
}

/// A released button reads as the type's minimum, a pressed one as its maximum.
pub fn convert_button_to_analog<T: AnalogValue>(button: bool) -> (r: T)
    ensures
        r.value() == (if button { T::highest() } else { T::lowest() }),
{
    if button {
        T::max_value()
    } else {
        T::min_value()
    }
}

/// Whether `v` counts as a pressed button: strictly above the midpoint of its type.
pub open spec fn analog_pressed<T: AnalogValue>(v: T) -> bool {
    v.value() > half_toward_zero(T::highest() + T::lowest())
}

/// An analog value reads as pressed exactly when it lies above the midpoint of its type.
pub fn convert_analog_to_button<T: AnalogValue>(analog: T) -> (r: bool)
    ensures
        r == analog_pressed(analog),
{
    analog.is_greater(whats_the_midpoint_of_a::<T>())
}

/// Saturates a mathematical integer into the range of `i16`.
pub open spec fn clamp_i16(v: int) -> int {
    if v < i16::MIN {
        i16::MIN as int
    } else if v > i16::MAX {
        i16::MAX as int
    } else {
        v
    }
}

/// `a + b`, saturating at the bounds of `i16`.
pub fn saturating_add_i16(a: i16, b: i16) -> (r: i16)
    ensures
        r == clamp_i16(a + b),
{
    let sum: i32 = a as i32 + b as i32;
    if sum < i16::MIN as i32 {
        i16::MIN
    } else if sum > i16::MAX as i32 {
        i16::MAX
    } else {
        sum as i16
    }
}

/// `a - b`, saturating at the bounds of `i16`.
pub fn saturating_sub_i16(a: i16, b: i16) -> (r: i16)
    ensures
        r == clamp_i16(a - b),
{
    let difference: i32 = a as i32 - b as i32;
    if difference < i16::MIN as i32 {
        i16::MIN
    } else if difference > i16::MAX as i32 {
        i16::MAX
    } else {
        difference as i16
    }
}

/// The wire byte of an axis: its top eight bits (an arithmetic shift, so the
/// floor of `v / 256`), moved up by `0x80` so that a centred axis sends `0x80`.
pub open spec fn wire_byte(v: int) -> int {
    v / 256 + 0x80
}

/// Scales a 16-bit signed axis to the unsigned byte the protocol carries.
pub fn convert_for_dualshock(number: i16) -> (r: u8)
    ensures
        r == wire_byte(number as int),
{
    let high: i16 = number >> 8u32;
    proof {
        let low: i16 = number & 255i16;
        assert((high as i32) * 256i32 + (low as i32) == number as i32) by (bit_vector)
            requires
                high == number >> 8u32,
                low == number & 255i16,
        ;
        assert(0 <= low < 256) by (bit_vector)
            requires
                low == number & 255i16,
        ;
        assert(-128 <= high < 128) by (bit_vector)
            requires
                high == number >> 8u32,
        ;
        assert(high as int == number as int / 256);
    }
    (high + 0x80) as u8
}

/// The full-range value of a half axis (a trigger read on `0..=i16::MAX`).
///
/// `i16::MAX` is kept; any other value is moved down by half of the range
/// and doubled, both steps saturating, so that `0` and below give `i16::MIN`.
pub open spec fn half_axis_positive(v: int) -> int {
    if v == i16::MAX {
        i16::MAX as int
    } else {
        let n = clamp_i16(v + i16::MIN / 2);
        clamp_i16(n + n)
    }
}

/// The mirror of `half_axis_positive` for the negative half of an axis.
pub open spec fn half_axis_negative(v: int) -> int {
    half_axis_positive(-clamp_i16(v + 1))
}

/// Spreads the positive half of an axis over the whole range of `i16`.
pub fn convert_half_axis_positive(stick: i16) -> (r: i16)
    ensures
        r == half_axis_positive(stick as int),
{
    if stick == i16::MAX {
        return i16::MAX;
    }
    let half_minimum: i16 = i16::MIN / 2;
    let normalised_stick = saturating_add_i16(stick, half_minimum);
    saturating_add_i16(normalised_stick, normalised_stick)
}

/// Spreads the negative half of an axis over the whole range of `i16`,
/// `i16::MIN` giving `i16::MAX`.
pub fn convert_half_axis_negative(stick: i16) -> (r: i16)
    ensures
        r == half_axis_negative(stick as int),
{
    let shifted = saturating_add_i16(stick, 1);
    convert_half_axis_positive(-shifted)
}

/// `v / 10` rounded toward zero.
pub open spec fn tenth_toward_zero(v: int) -> int {
    if v >= 0 {
        v / 10
    } else {
        -((-v) / 10)
    }
}

/// One stick coordinate pushed outward by a tenth of itself, saturating:
/// the linear model of the emulated pad's wider outer deadzone.
pub open spec fn normalised_coordinate(v: int) -> int {
    clamp_i16(v + tenth_toward_zero(v))
}

/// Moves a stick position outward by ten per cent (saturating) on each axis.
pub fn normalise_stick_as_dualshock2(x: &mut i16, y: &mut i16)
    ensures
        *final(x) == normalised_coordinate(*old(x) as int),
        *final(y) == normalised_coordinate(*old(y) as int),
{
    *x = saturating_add_i16(*x, *x / 10);
    *y = saturating_add_i16(*y, *y / 10);
}

/// The number whose binary digits, most significant first, are `flags`.
pub open spec fn pack_bits(flags: Seq<bool>) -> int
    decreases flags.len(),
{
    if flags.len() == 0 {
        0
    } else {
        2 * pack_bits(flags.drop_last()) + (if flags.last() { 1int } else { 0int })
    }
}

/// Which of `values` read as pressed buttons.
pub open spec fn pressed_flags<T: AnalogValue>(values: Seq<T>) -> Seq<bool> {
    values.map_values(|v: T| analog_pressed(v))
}

/// Packing `n` flags gives a number below `2^n`.
pub proof fn lemma_pack_bits_bound(flags: Seq<bool>)
    ensures
        0 <= pack_bits(flags) < pow2(flags.len()),
    decreases flags.len(),
{
    if flags.len() > 0 {
        lemma_pack_bits_bound(flags.drop_last());
        lemma_pow2_unfold(flags.len());
    } else {
        lemma2_to64();
    }
}

/// Why a group of values could not be packed into a byte.
#[derive(Debug, Clone, Copy, PartialEq, Eq, Structural)]
pub enum CollapseError {
    /// Not exactly eight values were given.
    InvalidInputLength,
}

/// Packs eight analog values into one byte, the first value in the most
/// significant bit; a bit is set when its value reads as pressed.
pub fn collapse_bits<T: AnalogValue>(values: &[T]) -> (r: Result<u8, CollapseError>)
    ensures
        match r {
            Ok(byte) => values@.len() == 8 && byte as int == pack_bits(pressed_flags(values@)),
            Err(e) => values@.len() != 8 && e == CollapseError::InvalidInputLength,
        },
{
    if values.len() != 8 {
        return Err(CollapseError::InvalidInputLength);
    }
    let ghost flags = pressed_flags(values@);
    let mut byte: u8 = 0;
    let mut i: usize = 0;
    while i < 8
        invariant
            values@.len() == 8,
            flags == pressed_flags(values@),
            0 <= i <= 8,
            byte as int == pack_bits(flags.take(i as int)),
        decreases 8 - i,
    {
        let pressed = convert_analog_to_button(values[i]);
        proof {
            let next = flags.take(i + 1);
            assert(next.drop_last() =~= flags.take(i as int));
            assert(next.last() == pressed);
            lemma_pack_bits_bound(next);
            lemma2_to64();
            if i + 1 < 8 {
                lemma_pow2_strictly_increases((i + 1) as nat, 8);
            }
        }
        byte = 2 * byte + if pressed { 1u8 } else { 0u8 };
        i = i + 1;
    }
    assert(flags.take(8) =~= flags);
    Ok(byte)
}

/// A value reads as a pressed button exactly when it is above the midpoint of
/// its type, which is 127 for `u8` and 0 for `i16`.
pub proof fn lemma_button_threshold()
    ensures
        half_toward_zero(<u8 as AnalogValue>::highest() + <u8 as AnalogValue>::lowest()) == 127,
        half_toward_zero(<i16 as AnalogValue>::highest() + <i16 as AnalogValue>::lowest()) == 0,
        forall|v: u8| #[trigger] analog_pressed(v) <==> v > 127,
        forall|v: i16| #[trigger] analog_pressed(v) <==> v > 0,
{
}

} // verus!

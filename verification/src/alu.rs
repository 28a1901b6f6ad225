//! The arithmetic-logic unit and the status flags it reports.

use vstd::prelude::*;
use vstd::string::StringExecFns;

verus! {

/// Position of the sign flag within the flags byte.
pub const SIGN_BIT: u8 = 7;

/// Position of the zero flag within the flags byte.
pub const ZERO_BIT: u8 = 6;

/// Position of the half-carry flag within the flags byte.
pub const HALF_CARRY_BIT: u8 = 4;

/// Position of the parity/overflow flag within the flags byte.
pub const PARITY_OVERFLOW_BIT: u8 = 2;

/// Position of the subtract flag within the flags byte.
pub const SUBTRACT_BIT: u8 = 1;

/// Position of the carry flag within the flags byte.
pub const CARRY_BIT: u8 = 0;

/// The value that the bit at `position` contributes to a byte: two to the
/// power of `position`.
pub open spec fn bit_weight(position: u8) -> int {
    if position == 0 {
        1
    } else if position == 1 {
        2
    } else if position == 2 {
        4
    } else if position == 3 {
        8
    } else if position == 4 {
        16
    } else if position == 5 {
        32
    } else if position == 6 {
        64
    } else {
        128
    }
}

/// Whether the bit at `position` is set in `bits`.
pub open spec fn has_bit(bits: u8, position: u8) -> bool {
    (bits as int / bit_weight(position)) % 2 == 1
}

/// `bits` with the bit at `position` switched on or off and every other bit
/// left as it was.
pub open spec fn with_bit(bits: u8, position: u8, enabled: bool) -> int {
    bits - (if has_bit(bits, position) {
        bit_weight(position)
    } else {
        0
    }) + (if enabled {
        bit_weight(position)
    } else {
        0
    })
}

/// A byte of status flags.
pub struct Flags(u8);

impl View for Flags {
    type V = u8;

    closed spec fn view(&self) -> u8 {
        self.0
    }
}

/// The mask for a bit position is the weight of that bit.
proof fn lemma_mask_is_weight(position: u8)
    requires
        position < 8,
    ensures
        (1u8 << position) == bit_weight(position),
{
    assert(position < 8 ==> (1u8 << position) == (if position == 0 {
        1u8
    } else if position == 1 {
        2u8
    } else if position == 2 {
        4u8
    } else if position == 3 {
        8u8
    } else if position == 4 {
        16u8
    } else if position == 5 {
        32u8
    } else if position == 6 {
        64u8
    } else {
        128u8
    })) by (bit_vector);
}

/// Testing, setting and clearing a bit with a mask do what `has_bit` and
/// `with_bit` say in arithmetic.
proof fn lemma_masked_is_has_bit(bits: u8, position: u8)
    requires
        position < 8,
    ensures
        (bits & (1u8 << position) != 0) == has_bit(bits, position),
        (bits | (1u8 << position)) == with_bit(bits, position, true),
        (bits & !(1u8 << position)) == with_bit(bits, position, false),
{
    lemma_mask_is_weight(position);
    assert(position < 8 ==> (bits & (1u8 << position) != 0) == ((bits / (1u8 << position)) % 2
        == 1)) by (bit_vector);
    assert(position < 8 ==> (bits | (1u8 << position)) == (if bits & (1u8 << position) != 0 {
        bits
    } else {
        (bits + (1u8 << position)) as u8
    }) && (bits & (1u8 << position) != 0 || bits + (1u8 << position) < 256)) by (bit_vector);
    assert(position < 8 ==> (bits & !(1u8 << position)) == (if bits & (1u8 << position) != 0 {
        (bits - (1u8 << position)) as u8
    } else {
        bits
    }) && (bits & (1u8 << position) == 0 || bits >= (1u8 << position))) by (bit_vector);
}

impl Flags {
    /// Wraps a raw flags byte.
    pub fn from(value: u8) -> (flags: Self)
        ensures
            flags@ == value,
    {
        Self(value)
    }

    /// Whether the flag at `flag_bit` is set.
    pub open spec fn spec_get(&self, flag_bit: u8) -> bool {
        has_bit(self@, flag_bit)
    }

    /// Switches the flag at `flag_bit` on or off; the other flags keep
    /// their values.
    pub fn set(&mut self, flag_bit: u8, enabled: bool)
        requires
            flag_bit < 8,
        ensures
            final(self)@ == with_bit(old(self)@, flag_bit, enabled),
    {
        proof {
            lemma_masked_is_has_bit(self.0, flag_bit);
        }
        if enabled {
            self.0 |= 1 << flag_bit;
        } else {
            self.0 &= !(1 << flag_bit);
        }
    }

    /// Reads the flag at `flag_bit`.
    #[verifier::when_used_as_spec(spec_get)]
    pub fn get(&self, flag_bit: u8) -> (enabled: bool)
        requires
            flag_bit < 8,
        ensures
            enabled == self.spec_get(flag_bit),
    {
        proof {
            lemma_masked_is_has_bit(self.0, flag_bit);
        }
        self.0 & (1 << flag_bit) != 0
    }

    /// The flags as text: `|S:_ Z:_ H:_ PV: _ N:_ C:_|`, with `1` for a flag
    /// that is set and `0` for one that is clear.
    pub open spec fn text(&self) -> Seq<char> {
        "|S:"@ + flag_digit(self.spec_get(SIGN_BIT)) + " Z:"@ + flag_digit(
            self.spec_get(ZERO_BIT),
        ) + " H:"@ + flag_digit(self.spec_get(HALF_CARRY_BIT)) + " PV: "@ + flag_digit(
            self.spec_get(PARITY_OVERFLOW_BIT),
        ) + " N:"@ + flag_digit(self.spec_get(SUBTRACT_BIT)) + " C:"@ + flag_digit(
            self.spec_get(CARRY_BIT),
        ) + "|"@
    }

    /// Renders the six flags as text.
    pub fn to_string(&self) -> (text: String)
        ensures
            text@ == self.text(),
    {
        let mut text = String::from_str("|S:");
        text.append(flag_digit_text(self.get(SIGN_BIT)));
        text.append(" Z:");
        text.append(flag_digit_text(self.get(ZERO_BIT)));
        text.append(" H:");
        text.append(flag_digit_text(self.get(HALF_CARRY_BIT)));
        text.append(" PV: ");
        text.append(flag_digit_text(self.get(PARITY_OVERFLOW_BIT)));
        text.append(" N:");
        text.append(flag_digit_text(self.get(SUBTRACT_BIT)));
        text.append(" C:");
        text.append(flag_digit_text(self.get(CARRY_BIT)));
        text.append("|");
        text
    }
}

/// The digit that stands for a flag in text.
pub open spec fn flag_digit(enabled: bool) -> Seq<char> {
    if enabled {
        "1"@
    } else {
        "0"@
    }
}

/// The digit that stands for a flag in text, as a string.
fn flag_digit_text(enabled: bool) -> (text: &'static str)
    ensures
        text@ == flag_digit(enabled),
{
    if enabled {
        "1"
    } else {
        "0"
    }
}

impl From<Flags> for u8 {
    fn from(val: Flags) -> (bits: u8)
        ensures
            bits == val@,
    {
        val.0
    }
}

impl vstd::std_specs::convert::FromSpecImpl<Flags> for u8 {
    open spec fn obeys_from_spec() -> bool {
        true
    }

    open spec fn from_spec(val: Flags) -> u8 {
        val@
    }
}

/// The value of a byte read as a two's-complement number.
pub open spec fn signed_value(byte: u8) -> int {
    if byte < 128 {
        byte as int
    } else {
        byte - 256
    }
}

/// The eight-bit sum of two bytes: what is left of `left + right` once the
/// ninth bit is dropped.
pub open spec fn sum_byte(left: u8, right: u8) -> u8 {
    ((left + right) % 256) as u8
}

/// Whether adding the two bytes carries out of bit 7.
pub open spec fn sum_carries(left: u8, right: u8) -> bool {
    left + right > 255
}

/// Whether adding the low nibbles of the two bytes carries into bit 4.
pub open spec fn sum_half_carries(left: u8, right: u8) -> bool {
    left % 16 + right % 16 > 15
}

/// Whether the sum of the two bytes, both read as two's-complement numbers,
/// lies outside what a signed byte can hold.
pub open spec fn sum_overflows(left: u8, right: u8) -> bool {
    let sum = signed_value(left) + signed_value(right);
    sum < -128 || sum > 127
}

/// The flags byte with the given flags set and the two unused bits clear.
pub open spec fn flags_byte(
    sign: bool,
    zero: bool,
    half_carry: bool,
    overflow: bool,
    subtract: bool,
    carry: bool,
) -> int {
    (if sign {
        bit_weight(SIGN_BIT)
    } else {
        0
    }) + (if zero {
        bit_weight(ZERO_BIT)
    } else {
        0
    }) + (if half_carry {
        bit_weight(HALF_CARRY_BIT)
    } else {
        0
    }) + (if overflow {
        bit_weight(PARITY_OVERFLOW_BIT)
    } else {
        0
    }) + (if subtract {
        bit_weight(SUBTRACT_BIT)
    } else {
        0
    }) + (if carry {
        bit_weight(CARRY_BIT)
    } else {
        0
    })
}

/// In a number written as `(2 * high + bit) * weight + low` with `low`
/// below `weight`, the binary digit of that weight is `bit`.
proof fn lemma_binary_digit(value: int, weight: int, high: int, bit: bool, low: int)
    requires
        weight > 0,
        0 <= low < weight,
        value == (2 * high + (if bit {
            1int
        } else {
            0int
        })) * weight + low,
    ensures
        ((value / weight) % 2 == 1) == bit,
{
    let digit: int = if bit {
        1
    } else {
        0
    };
    vstd::arithmetic::div_mod::lemma_fundamental_div_mod_converse(
        value,
        weight,
        2 * high + digit,
        low,
    );
    vstd::arithmetic::div_mod::lemma_fundamental_div_mod_converse(
        2 * high + digit,
        2,
        high,
        digit,
    );
}

/// Each flag can be read back from the byte that `flags_byte` packs, and
/// the two unused bits of that byte are clear.
pub proof fn lemma_flags_byte_bits(
    sign: bool,
    zero: bool,
    half_carry: bool,
    overflow: bool,
    subtract: bool,
    carry: bool,
)
    ensures
        0 <= flags_byte(sign, zero, half_carry, overflow, subtract, carry) < 256,
        ({
            let bits = flags_byte(sign, zero, half_carry, overflow, subtract, carry) as u8;
            &&& has_bit(bits, SIGN_BIT) == sign
            &&& has_bit(bits, ZERO_BIT) == zero
            &&& !has_bit(bits, 5)
            &&& has_bit(bits, HALF_CARRY_BIT) == half_carry
            &&& !has_bit(bits, 3)
            &&& has_bit(bits, PARITY_OVERFLOW_BIT) == overflow
            &&& has_bit(bits, SUBTRACT_BIT) == subtract
            &&& has_bit(bits, CARRY_BIT) == carry
        }),
{
    let value = flags_byte(sign, zero, half_carry, overflow, subtract, carry);
    let s: int = if sign { 1 } else { 0 };
    let z: int = if zero { 1 } else { 0 };
    let h: int = if half_carry { 1 } else { 0 };
    let o: int = if overflow { 1 } else { 0 };
    let n: int = if subtract { 1 } else { 0 };
    let c: int = if carry { 1 } else { 0 };
    lemma_binary_digit(value, 128, 0, sign, 64 * z + 16 * h + 4 * o + 2 * n + c);
    lemma_binary_digit(value, 64, s, zero, 16 * h + 4 * o + 2 * n + c);
    lemma_binary_digit(value, 32, 2 * s + z, false, 16 * h + 4 * o + 2 * n + c);
    lemma_binary_digit(value, 16, 4 * s + 2 * z, half_carry, 4 * o + 2 * n + c);
    lemma_binary_digit(value, 8, 8 * s + 4 * z + h, false, 4 * o + 2 * n + c);
    lemma_binary_digit(value, 4, 16 * s + 8 * z + 2 * h, overflow, 2 * n + c);
    lemma_binary_digit(value, 2, 32 * s + 16 * z + 4 * h + o, subtract, c);
    lemma_binary_digit(value, 1, 64 * s + 32 * z + 8 * h + 2 * o + n, carry, 0);
}

/// The flags byte that an addition of the two bytes reports.
pub open spec fn sum_flags(left: u8, right: u8) -> u8 {
    flags_byte(
        sum_byte(left, right) >= 128,
        sum_byte(left, right) == 0,
        sum_half_carries(left, right),
        sum_overflows(left, right),
        false,
        sum_carries(left, right),
    ) as u8
}

/// What each flag says after an addition: sign and zero describe the sum,
/// half-carry and carry the unsigned addition, parity/overflow the signed
/// one. Subtract and the two unused bits are clear.
pub proof fn lemma_sum_flags(left: u8, right: u8)
    ensures
        has_bit(sum_flags(left, right), SIGN_BIT) == (sum_byte(left, right) >= 128),
        has_bit(sum_flags(left, right), ZERO_BIT) == (sum_byte(left, right) == 0),
        has_bit(sum_flags(left, right), HALF_CARRY_BIT) == sum_half_carries(left, right),
        has_bit(sum_flags(left, right), PARITY_OVERFLOW_BIT) == sum_overflows(left, right),
        !has_bit(sum_flags(left, right), SUBTRACT_BIT),
        has_bit(sum_flags(left, right), CARRY_BIT) == sum_carries(left, right),
        !has_bit(sum_flags(left, right), 3),
        !has_bit(sum_flags(left, right), 5),
{
    lemma_flags_byte_bits(
        sum_byte(left, right) >= 128,
        sum_byte(left, right) == 0,
        sum_half_carries(left, right),
        sum_overflows(left, right),
        false,
        sum_carries(left, right),
    );
}

/// The bit tests that the adder makes agree with the arithmetic meaning of
/// the flags.
proof fn lemma_sum_bits(left: u8, right: u8, result: u8)
    requires
        result == sum_byte(left, right),
    ensures
        (result & 0b1000_0000 != 0) == (result >= 128),
        (left & 0xf) == left % 16,
        (right & 0xf) == right % 16,
        ((left ^ result) & (right ^ result) & 0b1000_0000 != 0) == sum_overflows(left, right),
{
    assert((result & 0b1000_0000 != 0) == (result >= 128) && (left & 0xf) == left % 16 && (right
        & 0xf) == right % 16) by (bit_vector);
    assert(((left ^ result) & (right ^ result) & 0b1000_0000 != 0) == ((left < 128) == (right
        < 128) && (left < 128) != (result < 128))) by (bit_vector);
}

/// Adds two bytes. Returns the eight-bit sum and the flags of the addition:
/// sign and zero describe the sum, carry and half-carry the unsigned
/// addition, parity/overflow the signed one; subtract is clear.
pub fn alu_add(left: u8, right: u8) -> (outcome: (u8, Flags))
    ensures
        outcome.0 == sum_byte(left, right),
        outcome.1@ == sum_flags(left, right),
{
    let result = left.wrapping_add(right);
    let carry = result < left;
    proof {
        lemma_sum_bits(left, right, result);
    }

    let sign = result & 0b1000_0000 != 0;
    let zero = result == 0;
    let half_carry = ((left & 0xf) + (right & 0xf)) > 0xf;
    let overflow = (left ^ result) & (right ^ result) & 0b1000_0000 != 0;

    proof {
        lemma_flags_byte_bits(false, false, false, false, false, false);
        lemma_flags_byte_bits(sign, false, false, false, false, false);
        lemma_flags_byte_bits(sign, zero, false, false, false, false);
        lemma_flags_byte_bits(sign, zero, half_carry, false, false, false);
        lemma_flags_byte_bits(sign, zero, half_carry, overflow, false, false);
    }
    let mut flags = Flags(0);
    flags.set(SIGN_BIT, sign);
    assert(flags@ == flags_byte(sign, false, false, false, false, false));
    flags.set(ZERO_BIT, zero);
    assert(flags@ == flags_byte(sign, zero, false, false, false, false));
    flags.set(HALF_CARRY_BIT, half_carry);
    assert(flags@ == flags_byte(sign, zero, half_carry, false, false, false));
    flags.set(PARITY_OVERFLOW_BIT, overflow);
    assert(flags@ == flags_byte(sign, zero, half_carry, overflow, false, false));
    flags.set(SUBTRACT_BIT, false);
    assert(flags@ == flags_byte(sign, zero, half_carry, overflow, false, false));
    flags.set(CARRY_BIT, carry);
    assert(flags@ == flags_byte(sign, zero, half_carry, overflow, false, carry));

    (result, flags)
}

} // verus!

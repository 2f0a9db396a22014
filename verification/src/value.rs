//! Operands with their width, and the arithmetic on them that gives the
//! condition codes.
use vstd::prelude::*;
use crate::addressing_mode::DataSize;
use crate::registers::{sign_extended, ConditionCode};

verus! {

/// An operand together with its width.
#[derive(Debug, Clone, Copy, PartialEq, Eq, Structural)]
pub enum Value {
    Byte(u8),
    Word(u16),
    LongWord(u32),
}

impl Value {
    /// The operand's width.
    pub open spec fn size(self) -> DataSize {
        match self {
            Value::Byte(_) => DataSize::Byte,
            Value::Word(_) => DataSize::Word,
            Value::LongWord(_) => DataSize::LongWord,
        }
    }

    /// The operand as an unsigned number.
    pub open spec fn unsigned(self) -> int {
        match self {
            Value::Byte(v) => v as int,
            Value::Word(v) => v as int,
            Value::LongWord(v) => v as int,
        }
    }

    /// The operand as a signed number in two's complement at its own width.
    pub open spec fn signed(self) -> int {
        if self.unsigned() >= self.size().sign_bit() {
            self.unsigned() - self.size().modulus()
        } else {
            self.unsigned()
        }
    }

    /// The value of width `size` whose unsigned number is `n`, for
    /// `0 <= n < size.modulus()`.
    pub open spec fn of_int(size: DataSize, n: int) -> Value {
        match size {
            DataSize::Byte => Value::Byte(n as u8),
            DataSize::Word => Value::Word(n as u16),
            DataSize::LongWord => Value::LongWord(n as u32),
        }
    }

    /// The value of width `size` that holds the lowest bits of `value`.
    pub open spec fn spec_from_raw(size: DataSize, value: u32) -> Value {
        Value::of_int(size, size.low(value as int))
    }

    /// The operand brought to width `size`: narrowed by dropping its high bits,
    /// widened by adding zero bits.
    pub open spec fn coerced(self, size: DataSize) -> Value {
        Value::of_int(size, size.low(self.unsigned()))
    }

    /// The value of width `size` that holds the lowest bits of `value`.
    pub fn from_raw(size: DataSize, value: u32) -> (r: Value)
        ensures
            r == Value::spec_from_raw(size, value),
            r.size() == size,
            r.unsigned() == size.low(value as int),
    {
        match size {
            DataSize::Byte => Value::Byte((value % 0x100) as u8),
            DataSize::Word => Value::Word((value % 0x1_0000) as u16),
            DataSize::LongWord => Value::LongWord(value),
        }
    }

    /// The operand's width.
    pub fn data_size(&self) -> (r: DataSize)
        ensures
            r == self.size(),
    {
        match self {
            Value::Byte(_) => DataSize::Byte,
            Value::Word(_) => DataSize::Word,
            Value::LongWord(_) => DataSize::LongWord,
        }
    }

    /// The operand as an unsigned 32-bit number.
    pub fn to_u32(&self) -> (r: u32)
        ensures
            r == self.unsigned(),
    {
        match self {
            Value::Byte(v) => *v as u32,
            Value::Word(v) => *v as u32,
            Value::LongWord(v) => *v,
        }
    }

    /// The operand's lowest 16 bits.
    pub fn to_u16(&self) -> (r: u16)
        ensures
            r == self.unsigned() % 0x1_0000,
    {
        match self {
            Value::Byte(v) => *v as u16,
            Value::Word(v) => *v,
            Value::LongWord(v) => (*v % 0x1_0000) as u16,
        }
    }

    /// The operand's lowest 8 bits.
    pub fn to_u8(&self) -> (r: u8)
        ensures
            r == self.unsigned() % 0x100,
    {
        match self {
            Value::Byte(v) => *v,
            Value::Word(v) => (*v % 0x100) as u8,
            Value::LongWord(v) => (*v % 0x100) as u8,
        }
    }

    /// The operand as a signed 32-bit number: widening keeps the sign.
    pub fn to_i32(&self) -> (r: i32)
        ensures
            r == self.signed(),
    {
        match self {
            Value::Byte(v) => if *v >= 0x80 {
                *v as i32 - 0x100
            } else {
                *v as i32
            },
            Value::Word(v) => if *v >= 0x8000 {
                *v as i32 - 0x1_0000
            } else {
                *v as i32
            },
            Value::LongWord(v) => if *v >= 0x8000_0000 {
                (*v as i64 - 0x1_0000_0000) as i32
            } else {
                *v as i32
            },
        }
    }

    /// The operand sign-extended to 32 bits, in two's complement.
    pub fn sign_extend(&self) -> (r: u32)
        ensures
            r == sign_extended(*self),
    {
        match self {
            Value::Byte(v) => if *v >= 0x80 {
                *v as u32 + 0xffff_ff00
            } else {
                *v as u32
            },
            Value::Word(v) => if *v >= 0x8000 {
                *v as u32 + 0xffff_0000
            } else {
                *v as u32
            },
            Value::LongWord(v) => *v,
        }
    }

    /// The operand brought to width `size`.
    pub fn coerce(&self, size: DataSize) -> (r: Value)
        ensures
            r == self.coerced(size),
            r.size() == size,
    {
        Value::from_raw(size, self.to_u32())
    }
}

impl From<Value> for u32 {
    /// The operand as an unsigned 32-bit number.
    fn from(value: Value) -> (r: u32) {
        value.to_u32()
    }
}

impl vstd::std_specs::convert::FromSpecImpl<Value> for u32 {
    open spec fn obeys_from_spec() -> bool {
        true
    }

    open spec fn from_spec(value: Value) -> u32 {
        value.unsigned() as u32
    }
}

impl From<Value> for u16 {
    /// The operand's lowest 16 bits.
    fn from(value: Value) -> (r: u16) {
        value.to_u16()
    }
}

impl vstd::std_specs::convert::FromSpecImpl<Value> for u16 {
    open spec fn obeys_from_spec() -> bool {
        true
    }

    open spec fn from_spec(value: Value) -> u16 {
        low_word(value)
    }
}

impl From<Value> for u8 {
    /// The operand's lowest 8 bits.
    fn from(value: Value) -> (r: u8) {
        value.to_u8()
    }
}

impl vstd::std_specs::convert::FromSpecImpl<Value> for u8 {
    open spec fn obeys_from_spec() -> bool {
        true
    }

    open spec fn from_spec(value: Value) -> u8 {
        low_byte(value)
    }
}

impl From<Value> for i32 {
    /// The operand as a signed 32-bit number: widening keeps the sign.
    fn from(value: Value) -> (r: i32) {
        value.to_i32()
    }
}

impl vstd::std_specs::convert::FromSpecImpl<Value> for i32 {
    open spec fn obeys_from_spec() -> bool {
        true
    }

    open spec fn from_spec(value: Value) -> i32 {
        value.signed() as i32
    }
}

/// Whether the sign bit of `value`, brought to width `size`, is set.
pub open spec fn negative_at(size: DataSize, value: Value) -> bool {
    value.coerced(size).unsigned() >= size.sign_bit()
}

/// Whether `value`, brought to width `size`, is zero.
pub open spec fn zero_at(size: DataSize, value: Value) -> bool {
    value.coerced(size).unsigned() == 0
}

/// The sum of two operands at width `size`: the carry out of the highest bit
/// is dropped.
pub open spec fn sum_at(size: DataSize, augend: Value, addend: Value) -> Value {
    Value::of_int(
        size,
        size.low(augend.coerced(size).unsigned() + addend.coerced(size).unsigned()),
    )
}

/// The condition codes of an addition at width `size`.
///
/// Z: the sum is zero. N: its sign bit is set. C: the unsigned sum does not
/// fit. V: both operands have the same sign and the sum the other one. X is C.
pub open spec fn sum_flags(size: DataSize, augend: Value, addend: Value) -> ConditionCode {
    let sum = sum_at(size, augend, addend);
    let carry = augend.coerced(size).unsigned() + addend.coerced(size).unsigned()
        >= size.modulus();
    ConditionCode {
        x: carry,
        n: negative_at(size, sum),
        z: zero_at(size, sum),
        v: negative_at(size, augend) == negative_at(size, addend) && negative_at(size, sum)
            != negative_at(size, augend),
        c: carry,
    }
}

/// The difference of two operands at width `size`: the borrow into the highest
/// bit is dropped.
pub open spec fn difference_at(size: DataSize, minuend: Value, subtrahend: Value) -> Value {
    Value::of_int(
        size,
        size.low(minuend.coerced(size).unsigned() - subtrahend.coerced(size).unsigned()),
    )
}

/// The condition codes of a subtraction at width `size`.
///
/// Z: the difference is zero. N: its sign bit is set. C: the subtrahend is the
/// larger unsigned number, so that a borrow is needed. V: the operands differ
/// in sign and the difference has not the sign of the minuend. X is C.
pub open spec fn difference_flags(
    size: DataSize,
    minuend: Value,
    subtrahend: Value,
) -> ConditionCode {
    let difference = difference_at(size, minuend, subtrahend);
    let borrow = minuend.coerced(size).unsigned() < subtrahend.coerced(size).unsigned();
    ConditionCode {
        x: borrow,
        n: negative_at(size, difference),
        z: zero_at(size, difference),
        v: negative_at(size, minuend) != negative_at(size, subtrahend) && negative_at(
            size,
            difference,
        ) != negative_at(size, minuend),
        c: borrow,
    }
}

/// The condition codes that a logical operation or a move gives for `result`
/// at width `size`: N and Z describe the result, V and C are clear. X is
/// clear here; the instruction keeps the X it had.
pub open spec fn logic_flags(size: DataSize, result: Value) -> ConditionCode {
    ConditionCode {
        x: false,
        n: negative_at(size, result),
        z: zero_at(size, result),
        v: false,
        c: false,
    }
}

/// The lowest 8 bits of `value`.
pub open spec fn low_byte(value: Value) -> u8 {
    (value.unsigned() % 0x100) as u8
}

/// The lowest 16 bits of `value`.
pub open spec fn low_word(value: Value) -> u16 {
    (value.unsigned() % 0x1_0000) as u16
}

/// All 32 bits of `value`, the high ones zero where it is narrower.
pub open spec fn long_word(value: Value) -> u32 {
    value.unsigned() as u32
}

/// The bitwise exclusive or of two operands at width `size`.
pub open spec fn eor_at(size: DataSize, a: Value, b: Value) -> Value {
    match size {
        DataSize::Byte => Value::Byte(low_byte(a) ^ low_byte(b)),
        DataSize::Word => Value::Word(low_word(a) ^ low_word(b)),
        DataSize::LongWord => Value::LongWord(long_word(a) ^ long_word(b)),
    }
}

/// The bitwise or of two operands at width `size`.
pub open spec fn or_at(size: DataSize, a: Value, b: Value) -> Value {
    match size {
        DataSize::Byte => Value::Byte(low_byte(a) | low_byte(b)),
        DataSize::Word => Value::Word(low_word(a) | low_word(b)),
        DataSize::LongWord => Value::LongWord(long_word(a) | long_word(b)),
    }
}

/// The bitwise and of two operands at width `size`.
pub open spec fn and_at(size: DataSize, a: Value, b: Value) -> Value {
    match size {
        DataSize::Byte => Value::Byte(low_byte(a) & low_byte(b)),
        DataSize::Word => Value::Word(low_word(a) & low_word(b)),
        DataSize::LongWord => Value::LongWord(long_word(a) & long_word(b)),
    }
}

/// A number at most one modulus away from the range of width `size` is brought
/// into it by adding or subtracting the modulus once.
pub proof fn lemma_wrap_once(size: DataSize, n: int)
    requires
        -size.modulus() <= n < 2 * size.modulus(),
    ensures
        size.low(n) == if n < 0 {
            n + size.modulus()
        } else if n >= size.modulus() {
            n - size.modulus()
        } else {
            n
        },
{
    match size {
        DataSize::Byte => {
            assert(n % 0x100 == if n < 0 {
                n + 0x100
            } else if n >= 0x100 {
                n - 0x100
            } else {
                n
            });
        },
        DataSize::Word => {
            assert(n % 0x1_0000 == if n < 0 {
                n + 0x1_0000
            } else if n >= 0x1_0000 {
                n - 0x1_0000
            } else {
                n
            });
        },
        DataSize::LongWord => {
            assert(n % 0x1_0000_0000 == if n < 0 {
                n + 0x1_0000_0000
            } else if n >= 0x1_0000_0000 {
                n - 0x1_0000_0000
            } else {
                n
            });
        },
    }
}

/// The sum of two unsigned operands of width `size`, kept to that width, and
/// whether a carry left at the high end.
pub fn wrapping_sum(size: DataSize, a: u32, b: u32) -> (r: (u32, bool))
    requires
        a < size.modulus(),
        b < size.modulus(),
    ensures
        r.0 == size.low(a + b),
        r.0 == size.low(r.0 as int),
        r.1 == (a + b >= size.modulus()),
{
    let wide: u64 = a as u64 + b as u64;
    match size {
        DataSize::Byte => ((wide % 0x100) as u32, wide >= 0x100),
        DataSize::Word => ((wide % 0x1_0000) as u32, wide >= 0x1_0000),
        DataSize::LongWord => ((wide % 0x1_0000_0000) as u32, wide >= 0x1_0000_0000),
    }
}

/// The difference of two unsigned operands of width `size`, kept to that
/// width, and whether a borrow was needed at the high end.
pub fn wrapping_difference(size: DataSize, a: u32, b: u32) -> (r: (u32, bool))
    requires
        a < size.modulus(),
        b < size.modulus(),
    ensures
        r.0 == size.low(a - b),
        r.0 == size.low(r.0 as int),
        r.1 == (a < b),
{
    let wide: u64 = a as u64 + 0x1_0000_0000 - b as u64;
    match size {
        DataSize::Byte => ((wide % 0x100) as u32, a < b),
        DataSize::Word => ((wide % 0x1_0000) as u32, a < b),
        DataSize::LongWord => ((wide % 0x1_0000_0000) as u32, a < b),
    }
}

/// Whether the sign bit of `value`, brought to width `size`, is set.
pub fn is_negative(size: DataSize, value: Value) -> (r: bool)
    ensures
        r == negative_at(size, value),
{
    let v: u32 = value.coerce(size).to_u32();
    match size {
        DataSize::Byte => v >= 0x80,
        DataSize::Word => v >= 0x8000,
        DataSize::LongWord => v >= 0x8000_0000,
    }
}

/// Whether `value`, brought to width `size`, is zero.
pub fn is_zero(size: DataSize, value: Value) -> (r: bool)
    ensures
        r == zero_at(size, value),
{
    value.coerce(size).to_u32() == 0
}

/// The condition codes of a logical result: see `logic_flags`.
pub fn flags_of(size: DataSize, result: Value) -> (r: ConditionCode)
    ensures
        r == logic_flags(size, result),
{
    ConditionCode {
        x: false,
        n: is_negative(size, result),
        z: is_zero(size, result),
        v: false,
        c: false,
    }
}

impl Value {
    /// Adds `value` to this operand at width `size`.
    pub fn add_cc(self, size: DataSize, value: Value) -> (r: (Value, ConditionCode))
        ensures
            r.0 == sum_at(size, self, value),
            r.0.size() == size,
            r.1 == sum_flags(size, self, value),
    {
        let (low, carry): (u32, bool) = wrapping_sum(
            size,
            self.coerce(size).to_u32(),
            value.coerce(size).to_u32(),
        );
        let sum: Value = Value::from_raw(size, low);
        let a_negative: bool = is_negative(size, self);
        let sum_negative: bool = is_negative(size, sum);
        let flags = ConditionCode {
            x: carry,
            n: sum_negative,
            z: is_zero(size, sum),
            v: a_negative == is_negative(size, value) && sum_negative != a_negative,
            c: carry,
        };
        (sum, flags)
    }

    /// Subtracts `value` from this operand at width `size`.
    pub fn sub_cc(self, size: DataSize, value: Value) -> (r: (Value, ConditionCode))
        ensures
            r.0 == difference_at(size, self, value),
            r.0.size() == size,
            r.1 == difference_flags(size, self, value),
    {
        let (low, borrow): (u32, bool) = wrapping_difference(
            size,
            self.coerce(size).to_u32(),
            value.coerce(size).to_u32(),
        );
        let difference: Value = Value::from_raw(size, low);
        let a_negative: bool = is_negative(size, self);
        let difference_negative: bool = is_negative(size, difference);
        let flags = ConditionCode {
            x: borrow,
            n: difference_negative,
            z: is_zero(size, difference),
            v: a_negative != is_negative(size, value) && difference_negative != a_negative,
            c: borrow,
        };
        (difference, flags)
    }

    /// The bitwise exclusive or of this operand and `value` at width `size`,
    /// with the codes of a logical result.
    pub fn eor_cc(self, size: DataSize, value: Value) -> (r: (Value, ConditionCode))
        ensures
            r.0 == eor_at(size, self, value),
            r.0.size() == size,
            r.1 == logic_flags(size, r.0),
    {
        let result: Value = match size {
            DataSize::Byte => Value::Byte(self.to_u8() ^ value.to_u8()),
            DataSize::Word => Value::Word(self.to_u16() ^ value.to_u16()),
            DataSize::LongWord => Value::LongWord(self.to_u32() ^ value.to_u32()),
        };
        (result, flags_of(size, result))
    }

    /// The bitwise or of this operand and `value` at width `size`, with the
    /// codes of a logical result.
    pub fn or_cc(self, size: DataSize, value: Value) -> (r: (Value, ConditionCode))
        ensures
            r.0 == or_at(size, self, value),
            r.0.size() == size,
            r.1 == logic_flags(size, r.0),
    {
        let result: Value = match size {
            DataSize::Byte => Value::Byte(self.to_u8() | value.to_u8()),
            DataSize::Word => Value::Word(self.to_u16() | value.to_u16()),
            DataSize::LongWord => Value::LongWord(self.to_u32() | value.to_u32()),
        };
        (result, flags_of(size, result))
    }

    /// The bitwise and of this operand and `value` at width `size`, with the
    /// codes of a logical result.
    pub fn and_cc(self, size: DataSize, value: Value) -> (r: (Value, ConditionCode))
        ensures
            r.0 == and_at(size, self, value),
            r.0.size() == size,
            r.1 == logic_flags(size, r.0),
    {
        let result: Value = match size {
            DataSize::Byte => Value::Byte(self.to_u8() & value.to_u8()),
            DataSize::Word => Value::Word(self.to_u16() & value.to_u16()),
            DataSize::LongWord => Value::LongWord(self.to_u32() & value.to_u32()),
        };
        (result, flags_of(size, result))
    }
}

/// An addition overflows as a signed operation exactly when the sum of the
/// signed operands is no signed number of that width, and carries exactly when
/// the sum of the unsigned operands is no unsigned number of that width; where
/// it does not overflow, the result is the sum of the signed operands.
pub proof fn lemma_sum_flags(size: DataSize, augend: Value, addend: Value)
    ensures
        ({
            let a = augend.coerced(size);
            let b = addend.coerced(size);
            let flags = sum_flags(size, augend, addend);
            let sum = sum_at(size, augend, addend);
            &&& sum.size() == size
            &&& flags.v <==> !(-size.sign_bit() <= a.signed() + b.signed() < size.sign_bit())
            &&& flags.c <==> !(a.unsigned() + b.unsigned() < size.modulus())
            &&& flags.x == flags.c
            &&& flags.z <==> sum.unsigned() == 0
            &&& flags.n <==> sum.signed() < 0
            &&& !flags.v ==> sum.signed() == a.signed() + b.signed()
            &&& !flags.c ==> sum.unsigned() == a.unsigned() + b.unsigned()
        }),
{
    let a = augend.coerced(size).unsigned();
    let b = addend.coerced(size).unsigned();
    assert(0 <= a < size.modulus() && 0 <= b < size.modulus());
    let low = size.low(a + b);
    lemma_wrap_once(size, a + b);
    lemma_wrap_once(size, low);
    assert(sum_at(size, augend, addend).unsigned() == low);
}

/// A subtraction overflows as a signed operation exactly when the difference
/// of the signed operands is no signed number of that width, and borrows
/// exactly when the difference of the unsigned operands is negative; where it
/// does not overflow, the result is the difference of the signed operands.
pub proof fn lemma_difference_flags(size: DataSize, minuend: Value, subtrahend: Value)
    ensures
        ({
            let a = minuend.coerced(size);
            let b = subtrahend.coerced(size);
            let flags = difference_flags(size, minuend, subtrahend);
            let difference = difference_at(size, minuend, subtrahend);
            &&& difference.size() == size
            &&& flags.v <==> !(-size.sign_bit() <= a.signed() - b.signed() < size.sign_bit())
            &&& flags.c <==> a.unsigned() - b.unsigned() < 0
            &&& flags.x == flags.c
            &&& flags.z <==> difference.unsigned() == 0
            &&& flags.n <==> difference.signed() < 0
            &&& !flags.v ==> difference.signed() == a.signed() - b.signed()
            &&& !flags.c ==> difference.unsigned() == a.unsigned() - b.unsigned()
        }),
{
    let a = minuend.coerced(size).unsigned();
    let b = subtrahend.coerced(size).unsigned();
    assert(0 <= a < size.modulus() && 0 <= b < size.modulus());
    let low = size.low(a - b);
    lemma_wrap_once(size, a - b);
    lemma_wrap_once(size, low);
    assert(difference_at(size, minuend, subtrahend).unsigned() == low);
}

/// What a shift of `value` by `count` positions to the left gives at width
/// `size`: the bits that stay, and the last bit that left at the high end
/// (`false` where `count` is zero).
///
/// The operand is taken as a 64-bit number, in which no bit is lost for a
/// count up to 32: the low `size.bits()` bits of the shifted number stay, and
/// the bit above them is the last one that was shifted out. A larger count
/// leaves nothing.
pub open spec fn shifted_left(size: DataSize, count: u32, value: Value) -> (Value, bool) {
    let operand = value.coerced(size).unsigned() as u64;
    if count > 32 {
        (Value::of_int(size, 0), false)
    } else {
        let wide = operand << count;
        (
            Value::of_int(size, size.low(wide as int)),
            size.high(wide as int) % 2 == 1,
        )
    }
}

/// What a logical shift of `value` by `count` positions to the right gives at
/// width `size`: the bits that stay, with zeros entering at the high end, and
/// the last bit that left at the low end (`false` where `count` is zero).
///
/// The operand is doubled first, so that the last bit shifted out is kept
/// below the result as the lowest bit. A count above 63 leaves nothing.
pub open spec fn shifted_right(size: DataSize, count: u32, value: Value) -> (Value, bool) {
    let doubled = (2 * value.coerced(size).unsigned()) as u64;
    if count > 63 {
        (Value::of_int(size, 0), false)
    } else {
        let kept = doubled >> count;
        (Value::of_int(size, kept as int / 2), kept % 2 == 1)
    }
}

/// The condition codes of a shift that gave `result` and shifted `out` out
/// last: C and X are that bit, N and Z describe the result, V is clear.
pub open spec fn shift_flags(size: DataSize, result: Value, out: bool) -> ConditionCode {
    ConditionCode {
        x: out,
        n: negative_at(size, result),
        z: zero_at(size, result),
        v: false,
        c: out,
    }
}

/// Shifts `value` by `count` positions to the left at width `size`.
///
/// With a count of zero C and X come out clear: the instruction keeps the X
/// it had.
pub fn shift_left(size: DataSize, count: u32, value: Value) -> (r: (Value, ConditionCode))
    ensures
        r.0 == shifted_left(size, count, value).0,
        r.0.size() == size,
        r.1 == shift_flags(size, r.0, shifted_left(size, count, value).1),
{
    let operand: u64 = value.coerce(size).to_u32() as u64;
    let (low, out): (u64, bool) = if count > 32 {
        (0, false)
    } else {
        let wide: u64 = operand << count;
        match size {
            DataSize::Byte => (wide % 0x100, (wide / 0x100) % 2 == 1),
            DataSize::Word => (wide % 0x1_0000, (wide / 0x1_0000) % 2 == 1),
            DataSize::LongWord => (wide % 0x1_0000_0000, (wide / 0x1_0000_0000) % 2 == 1),
        }
    };
    let result: Value = Value::from_raw(size, low as u32);
    let flags = ConditionCode {
        x: out,
        n: is_negative(size, result),
        z: is_zero(size, result),
        v: false,
        c: out,
    };
    (result, flags)
}

/// Shifts `value` by `count` positions to the right at width `size`, filling
/// with zeros.
///
/// With a count of zero C and X come out clear: the instruction keeps the X
/// it had.
pub fn shift_right(size: DataSize, count: u32, value: Value) -> (r: (Value, ConditionCode))
    ensures
        r.0 == shifted_right(size, count, value).0,
        r.0.size() == size,
        r.1 == shift_flags(size, r.0, shifted_right(size, count, value).1),
{
    let doubled: u64 = 2 * (value.coerce(size).to_u32() as u64);
    let (low, out): (u64, bool) = if count > 63 {
        (0, false)
    } else {
        let kept: u64 = doubled >> count;
        assert(doubled >> count <= doubled) by (bit_vector);
        (kept / 2, kept % 2 == 1)
    };
    let result: Value = Value::from_raw(size, low as u32);
    let flags = ConditionCode {
        x: out,
        n: is_negative(size, result),
        z: is_zero(size, result),
        v: false,
        c: out,
    };
    (result, flags)
}

/// A shift by one position: to the left the operand doubles and its sign bit
/// leaves; to the right it halves and its lowest bit leaves. A shift by no
/// position changes nothing and no bit leaves.
pub proof fn lemma_shift_by_one(size: DataSize, value: Value)
    ensures
        ({
            let operand = value.coerced(size).unsigned();
            &&& shifted_left(size, 1, value) == (
                Value::of_int(size, size.low(2 * operand)),
                operand >= size.sign_bit(),
            )
            &&& shifted_right(size, 1, value) == (Value::of_int(size, operand / 2), operand % 2 == 1)
            &&& shifted_left(size, 0, value) == (value.coerced(size), false)
            &&& shifted_right(size, 0, value) == (value.coerced(size), false)
        }),
{
    let operand = value.coerced(size).unsigned();
    let narrow = operand as u32;
    let m = size.modulus();
    assert(0 <= operand < m);
    assert(value.coerced(size) == Value::of_int(size, operand));
    let wide_one = (operand as u64) << 1u32;
    let wide_none = (operand as u64) << 0u32;
    let kept_one = ((2 * operand) as u64) >> 1u32;
    let kept_none = ((2 * operand) as u64) >> 0u32;
    assert({
        &&& ((narrow as u64) << 1u32) == 2 * (narrow as u64)
        &&& ((narrow as u64) << 0u32) == narrow as u64
        &&& ((2 * narrow) as u64 >> 1u32) == narrow as u64
        &&& ((2 * narrow) as u64 >> 0u32) == (2 * narrow) as u64
    }) by (bit_vector);
    assert(wide_one == 2 * operand);
    assert(wide_none == operand);
    assert(kept_one == operand);
    assert(kept_none == 2 * operand);
    match size {
        DataSize::Byte => {
            assert((2 * operand / 0x100) % 2 == 1 <==> operand >= 0x80);
            assert(operand % 0x100 == operand && operand / 0x100 == 0);
        },
        DataSize::Word => {
            assert((2 * operand / 0x1_0000) % 2 == 1 <==> operand >= 0x8000);
            assert(operand % 0x1_0000 == operand && operand / 0x1_0000 == 0);
        },
        DataSize::LongWord => {
            assert((2 * operand / 0x1_0000_0000) % 2 == 1 <==> operand >= 0x8000_0000);
            assert(operand % 0x1_0000_0000 == operand && operand / 0x1_0000_0000 == 0);
        },
    }
}

} // verus!

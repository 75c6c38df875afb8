//! LEB128: the variable-length integer encoding of the binary format.
//!
//! Every byte carries seven bits of payload, least significant group first;
//! the high bit says that another byte follows.

use vstd::prelude::*;

verus! {

#[derive(Debug, Clone, Copy, PartialEq, Eq, Structural)]
pub enum Leb128Error {
    InvalidEncoding,
    IncompleteEncoding,
}

impl Leb128Error {
    pub open spec fn text(self) -> Seq<char> {
        match self {
            Leb128Error::InvalidEncoding => "Invalid leb128 encoding"@,
            Leb128Error::IncompleteEncoding => "Incomplete leb128 encoding"@,
        }
    }

    /// The message this error is reported with.
    pub fn to_string(&self) -> (r: String)
        ensures
            r@ == self.text(),
    {
        match self {
            Leb128Error::InvalidEncoding => "Invalid leb128 encoding".to_owned(),
            Leb128Error::IncompleteEncoding => "Incomplete leb128 encoding".to_owned(),
        }
    }
}

pub const CONTINUATION_BIT: u8 = 0x80;

pub const SIGN_BIT: u8 = 0x40;

/// The seven payload bits of a byte.
pub open spec fn payload(byte: u8) -> nat {
    (byte % 128) as nat
}

/// Whether a byte announces a further byte.
pub open spec fn continues(byte: u8) -> bool {
    byte >= 128
}

/// The weight of the payload at position `n`: 128 to the power `n`.
pub open spec fn pow128(n: nat) -> nat
    decreases n,
{
    if n == 0 {
        1
    } else {
        128 * pow128((n - 1) as nat)
    }
}

/// The 32-bit two's complement reading of an integer.
pub open spec fn wrap_i32(v: int) -> i32 {
    let m = v % 0x1_0000_0000;
    if m < 0x8000_0000 {
        m as i32
    } else {
        (m - 0x1_0000_0000) as i32
    }
}

/// What decoding stops with: the value and the number of bytes used, or the
/// error and the number of bytes read when it showed.
pub type Decoded<T> = Result<(T, nat), (Leb128Error, nat)>;

/// Decoding of an unsigned 32-bit integer, continued at byte `idx` with the
/// payloads before it summed up in `acc`.
///
/// A zero byte after the first is refused, and so is a fifth byte that
/// continues or holds bits beyond the thirty-second.
pub open spec fn unsigned_from(bytes: Seq<u8>, idx: nat, acc: nat) -> Decoded<u32>
    decreases bytes.len() - idx,
{
    if idx >= bytes.len() {
        Err((Leb128Error::IncompleteEncoding, bytes.len()))
    } else {
        let byte = bytes[idx as int];
        let value = acc + payload(byte) * pow128(idx);
        if (byte == 0 && idx > 0) || (idx == 4 && payload(byte) > 0x0F) {
            Err((Leb128Error::InvalidEncoding, idx + 1))
        } else if !continues(byte) {
            Ok((value as u32, idx + 1))
        } else if idx >= 4 {
            Err((Leb128Error::InvalidEncoding, idx + 1))
        } else {
            unsigned_from(bytes, idx + 1, value)
        }
    }
}

/// The unsigned 32-bit integer at the start of `bytes`.
pub open spec fn decode_unsigned(bytes: Seq<u8>) -> Decoded<u32> {
    unsigned_from(bytes, 0, 0)
}

/// Decoding of a signed 32-bit integer, continued at byte `idx`.
///
/// The value is sign-extended where the last byte has its sign bit set and
/// fewer than 32 bits were read; bits beyond the thirty-second are dropped.
pub open spec fn signed_from(bytes: Seq<u8>, idx: nat, acc: nat) -> Decoded<i32>
    decreases bytes.len() - idx,
{
    if idx >= bytes.len() {
        Err((Leb128Error::IncompleteEncoding, bytes.len()))
    } else {
        let byte = bytes[idx as int];
        let value = acc + payload(byte) * pow128(idx);
        if !continues(byte) {
            if payload(byte) >= 64 && idx < 4 {
                Ok((wrap_i32(value - pow128(idx + 1)), idx + 1))
            } else {
                Ok((wrap_i32(value as int), idx + 1))
            }
        } else if idx >= 4 {
            Err((Leb128Error::InvalidEncoding, idx + 1))
        } else {
            signed_from(bytes, idx + 1, value)
        }
    }
}

/// The signed 32-bit integer at the start of `bytes`.
pub open spec fn decode_signed(bytes: Seq<u8>) -> Decoded<i32> {
    signed_from(bytes, 0, 0)
}

/// The 64-bit two's complement reading of an integer.
pub open spec fn wrap_i64(v: int) -> i64 {
    let m = v % 0x1_0000_0000_0000_0000;
    if m < 0x8000_0000_0000_0000 {
        m as i64
    } else {
        (m - 0x1_0000_0000_0000_0000) as i64
    }
}

/// Decoding of a signed 64-bit integer, continued at byte `idx`.
///
/// The value is sign-extended where the last byte has its sign bit set and
/// fewer than 64 bits were read; bits beyond the sixty-fourth are dropped,
/// and an eleventh byte is refused.
pub open spec fn signed64_from(bytes: Seq<u8>, idx: nat, acc: nat) -> Decoded<i64>
    decreases bytes.len() - idx,
{
    if idx >= bytes.len() {
        Err((Leb128Error::IncompleteEncoding, bytes.len()))
    } else {
        let byte = bytes[idx as int];
        let value = acc + payload(byte) * pow128(idx);
        if !continues(byte) {
            if payload(byte) >= 64 && idx < 9 {
                Ok((wrap_i64(value - pow128(idx + 1)), idx + 1))
            } else {
                Ok((wrap_i64(value as int), idx + 1))
            }
        } else if idx >= 9 {
            Err((Leb128Error::InvalidEncoding, idx + 1))
        } else {
            signed64_from(bytes, idx + 1, value)
        }
    }
}

/// The signed 64-bit integer at the start of `bytes`.
pub open spec fn decode_signed_64(bytes: Seq<u8>) -> Decoded<i64> {
    signed64_from(bytes, 0, 0)
}

/// The shortest unsigned encoding of `x`.
pub open spec fn encode_unsigned(x: nat) -> Seq<u8>
    decreases x,
{
    if x < 128 {
        seq![x as u8]
    } else {
        seq![(x % 128 + 128) as u8] + encode_unsigned(x / 128)
    }
}

/// The shortest signed encoding of `x`.
pub open spec fn encode_signed(x: int) -> Seq<u8>
    decreases
            (if x >= 0 {
                x
            } else {
                -x
            }),
{
    if -64 <= x < 64 {
        seq![(x % 128) as u8]
    } else {
        seq![(x % 128 + 128) as u8] + encode_signed(x / 128)
    }
}

/// Decoding reads at least one byte and never more than there are; only a
/// sequence that ends too early is read to its end without a result.
pub proof fn lemma_unsigned_used(bytes: Seq<u8>)
    ensures
        decode_unsigned(bytes) matches Ok((_, used)) ==> 0 < used <= bytes.len(),
        decode_unsigned(bytes) matches Err((_, used)) ==> used <= bytes.len(),
{
    lemma_unsigned_from_used(bytes, 0, 0);
}

proof fn lemma_unsigned_from_used(bytes: Seq<u8>, idx: nat, acc: nat)
    ensures
        unsigned_from(bytes, idx, acc) matches Ok((_, used)) ==> idx < used <= bytes.len(),
        unsigned_from(bytes, idx, acc) matches Err((_, used)) ==> used <= bytes.len(),
    decreases bytes.len() - idx,
{
    if idx < bytes.len() {
        let byte = bytes[idx as int];
        lemma_unsigned_from_used(bytes, idx + 1, acc + payload(byte) * pow128(idx));
    }
}

/// Decoding reads at least one byte and never more than there are.
pub proof fn lemma_signed_used(bytes: Seq<u8>)
    ensures
        decode_signed(bytes) matches Ok((_, used)) ==> 0 < used <= bytes.len(),
        decode_signed(bytes) matches Err((_, used)) ==> used <= bytes.len(),
{
    lemma_signed_from_used(bytes, 0, 0);
}

proof fn lemma_signed_from_used(bytes: Seq<u8>, idx: nat, acc: nat)
    ensures
        signed_from(bytes, idx, acc) matches Ok((_, used)) ==> idx < used <= bytes.len(),
        signed_from(bytes, idx, acc) matches Err((_, used)) ==> used <= bytes.len(),
    decreases bytes.len() - idx,
{
    if idx < bytes.len() {
        let byte = bytes[idx as int];
        lemma_signed_from_used(bytes, idx + 1, acc + payload(byte) * pow128(idx));
    }
}

pub proof fn lemma_pow128_values()
    ensures
        pow128(0) == 1,
        pow128(1) == 0x80,
        pow128(2) == 0x4000,
        pow128(3) == 0x20_0000,
        pow128(4) == 0x1000_0000,
        pow128(5) == 0x8_0000_0000,
{
    assert(pow128(1) == 128 * pow128(0));
    assert(pow128(2) == 128 * pow128(1));
    assert(pow128(3) == 128 * pow128(2));
    assert(pow128(4) == 128 * pow128(3));
    assert(pow128(5) == 128 * pow128(4));
}

#[inline(always)]
pub fn low_bits_of_byte(byte: u8) -> (r: u8)
    ensures
        r == payload(byte),
        r < 128,
{
    assert(byte & !0x80u8 == byte % 128) by (bit_vector);
    byte & !CONTINUATION_BIT
}

/// Whether the continuation bit of `byte` is set.
fn has_continuation(byte: u8) -> (r: bool)
    ensures
        r == continues(byte),
{
    assert((byte & 0x80u8 != 0) == (byte >= 128)) by (bit_vector);
    byte & CONTINUATION_BIT != 0
}

/// Whether the sign bit of `byte` is set.
fn has_sign(byte: u8) -> (r: bool)
    ensures
        r == (payload(byte) >= 64),
{
    assert((byte & 0x40u8 == 0x40u8) == (byte % 128 >= 64)) by (bit_vector);
    byte & SIGN_BIT == SIGN_BIT
}

/// Adds the payload `low` at bit position `shift` to `acc`.
fn place(acc: u32, low: u8, shift: u32) -> (r: u32)
    requires
        low < 128,
        shift == 0 || shift == 7 || shift == 14 || shift == 21 || shift == 28,
        acc < pow128((shift / 7) as nat),
    ensures
        r == (acc + low * pow128((shift / 7) as nat)) % 0x1_0000_0000,
        shift < 28 ==> r == acc + low * pow128((shift / 7) as nat),
        shift < 28 ==> r < pow128((shift / 7 + 1) as nat),
        shift == 28 && low <= 0x0F ==> r == acc + low * pow128(4),
{
    proof {
        lemma_pow128_values();
    }
    let wide = low as u32;
    assert(wide < 128 ==> {
        &&& (acc < 1 ==> (acc | (wide << 0u32)) == acc + wide)
        &&& (acc < 0x80 ==> (acc | (wide << 7u32)) == acc + wide * 0x80)
        &&& (acc < 0x4000 ==> (acc | (wide << 14u32)) == acc + wide * 0x4000)
        &&& (acc < 0x20_0000 ==> (acc | (wide << 21u32)) == acc + wide * 0x20_0000)
        &&& (acc < 0x1000_0000 ==> (acc | (wide << 28u32)) == (acc + wide * 0x1000_0000)
            % 0x1_0000_0000)
    }) by (bit_vector);
    acc | (wide << shift)
}

/// Integers with a LEB128 encoding.
pub trait Leb128: Sized {
    /// What the bytes decode to.
    spec fn decoded(bytes: Seq<u8>) -> Decoded<Self>;

    /// Reads one integer from the start of `bytes` and says how many bytes
    /// it took.
    fn read_leb128(bytes: &[u8]) -> (r: Result<(Self, usize), Leb128Error>)
        ensures
            match r {
                Ok((value, used)) => Self::decoded(bytes@) == Ok::<(Self, nat), (Leb128Error, nat)>(
                    (value, used as nat),
                ),
                Err(e) => Self::decoded(bytes@) is Err && Self::decoded(bytes@)->Err_0.0 == e,
            },
    ;
}

/// Reads an unsigned integer from the start of `bytes`. Beside the value or
/// the error it says how many bytes were read.
pub fn read_unsigned(bytes: &[u8]) -> (r: Result<(u32, usize), (Leb128Error, usize)>)
    ensures
        match r {
            Ok((value, used)) => decode_unsigned(bytes@) == Ok::<(u32, nat), (Leb128Error, nat)>(
                (value, used as nat),
            ),
            Err((e, used)) => decode_unsigned(bytes@) == Err::<(u32, nat), (Leb128Error, nat)>(
                (e, used as nat),
            ),
        },
{
    let mut result: u32 = 0;
    let mut shift: u32 = 0;
    let mut idx: usize = 0;
    while idx < bytes.len()
        invariant
            idx <= 4,
            shift == 7 * idx,
            result < pow128(idx as nat),
            unsigned_from(bytes@, idx as nat, result as nat) == decode_unsigned(bytes@),
        decreases bytes.len() - idx,
    {
        let byte = bytes[idx];
        let low = low_bits_of_byte(byte);
        if (byte == 0x00 && idx > 0) || (shift == 28 && low > 0x0F) {
            return Err((Leb128Error::InvalidEncoding, idx + 1));
        }
        result = place(result, low, shift);
        if !has_continuation(byte) {
            return Ok((result, idx + 1));
        }
        if shift >= 28 {
            return Err((Leb128Error::InvalidEncoding, idx + 1));
        }
        shift += 7;
        idx += 1;
    }
    Err((Leb128Error::IncompleteEncoding, bytes.len()))
}

impl Leb128 for u32 {
    open spec fn decoded(bytes: Seq<u8>) -> Decoded<u32> {
        decode_unsigned(bytes)
    }

    fn read_leb128(bytes: &[u8]) -> (r: Result<(u32, usize), Leb128Error>) {
        match read_unsigned(bytes) {
            Ok(done) => Ok(done),
            Err((e, _)) => Err(e),
        }
    }
}

/// Reads a signed integer from the start of `bytes`. Beside the value or the
/// error it says how many bytes were read.
pub fn read_signed(bytes: &[u8]) -> (r: Result<(i32, usize), (Leb128Error, usize)>)
    ensures
        match r {
            Ok((value, used)) => decode_signed(bytes@) == Ok::<
                (i32, nat),
                (Leb128Error, nat),
            >((value, used as nat)),
            Err((e, used)) => decode_signed(bytes@) == Err::<
                (i32, nat),
                (Leb128Error, nat),
            >((e, used as nat)),
        },
{
    let mut result: u32 = 0;
    let mut shift: u32 = 0;
    let mut idx: usize = 0;
    while idx < bytes.len()
        invariant
            idx <= 4,
            shift == 7 * idx,
            result < pow128(idx as nat),
            signed_from(bytes@, idx as nat, result as nat) == decode_signed(bytes@),
        decreases bytes.len() - idx,
    {
        let byte = bytes[idx];
        let low = low_bits_of_byte(byte);
        let ghost before = result;
        result = place(result, low, shift);
        proof {
            lemma_pow128_values();
            assert(idx == 0 || idx == 1 || idx == 2 || idx == 3 || idx == 4);
        }
        shift += 7;
        if !has_continuation(byte) {
            if shift < 32 && has_sign(byte) {
                proof {
                    let weight = pow128(idx as nat);
                    assert(low * weight >= 64 * weight) by (nonlinear_arith)
                        requires
                            low >= 64,
                            weight >= 0,
                    ;
                    assert(pow128((idx + 1) as nat) == 128 * weight);
                }
                return Ok((sign_extend(result, shift), idx + 1));
            }
            return Ok((reinterpret(result, Ghost(before + low * pow128(idx as nat))), idx + 1));
        }
        if shift >= 32 {
            return Err((Leb128Error::InvalidEncoding, idx + 1));
        }
        idx += 1;
    }
    Err((Leb128Error::IncompleteEncoding, bytes.len()))
}

/// Fills the bits of `v` from position `shift` upwards with ones and reads
/// the result as a signed integer.
fn sign_extend(v: u32, shift: u32) -> (r: i32)
    requires
        shift == 7 || shift == 14 || shift == 21 || shift == 28,
        v < pow128((shift / 7) as nat),
        2 * v >= pow128((shift / 7) as nat),
    ensures
        r == wrap_i32(v - pow128((shift / 7) as nat)),
{
    proof {
        lemma_pow128_values();
    }
    let extended = v | (0xFFFF_FFFFu32 << shift);
    assert({
        &&& (0x40 <= v < 0x80 ==> (v | (0xFFFF_FFFFu32 << 7u32)) == v + 0xFFFF_FF80)
        &&& (0x2000 <= v < 0x4000 ==> (v | (0xFFFF_FFFFu32 << 14u32)) == v + 0xFFFF_C000)
        &&& (0x10_0000 <= v < 0x20_0000 ==> (v | (0xFFFF_FFFFu32 << 21u32)) == v + 0xFFE0_0000)
        &&& (0x800_0000 <= v < 0x1000_0000 ==> (v | (0xFFFF_FFFFu32 << 28u32)) == v + 0xF000_0000)
    }) by (bit_vector);
    reinterpret(extended, Ghost(v - pow128((shift / 7) as nat)))
}

/// Reads the bits of `v` as a signed integer.
fn reinterpret(v: u32, Ghost(of): Ghost<int>) -> (r: i32)
    requires
        v == of % 0x1_0000_0000,
    ensures
        r == wrap_i32(of),
{
    assert(v < 0x8000_0000 ==> (v as i32) == v) by (bit_vector);
    assert(v >= 0x8000_0000 ==> (v as i32) == v - 0x1_0000_0000) by (bit_vector);
    v as i32
}

pub proof fn lemma_pow128_more_values()
    ensures
        pow128(6) == 0x400_0000_0000,
        pow128(7) == 0x2_0000_0000_0000,
        pow128(8) == 0x100_0000_0000_0000,
        pow128(9) == 0x8000_0000_0000_0000,
        pow128(10) == 0x40_0000_0000_0000_0000,
{
    lemma_pow128_values();
    assert(pow128(6) == 128 * pow128(5));
    assert(pow128(7) == 128 * pow128(6));
    assert(pow128(8) == 128 * pow128(7));
    assert(pow128(9) == 128 * pow128(8));
    assert(pow128(10) == 128 * pow128(9));
}

/// The weights grow with the position.
pub proof fn lemma_pow128_monotonic(a: nat, b: nat)
    requires
        a <= b,
    ensures
        0 < pow128(a) <= pow128(b),
    decreases b,
{
    if a < b {
        lemma_pow128_monotonic(a, (b - 1) as nat);
    } else if a > 0 {
        lemma_pow128_monotonic((a - 1) as nat, (a - 1) as nat);
    }
}

/// An integer of less than 64 bits, read as a signed 64-bit integer.
fn narrow(value: i128) -> (r: i64)
    requires
        -0x8000_0000_0000_0000 <= value < 0x8000_0000_0000_0000,
    ensures
        r == wrap_i64(value as int),
{
    value as i64
}

/// The lowest 64 bits of `acc`, read as a signed integer.
fn lowest_64(acc: u128) -> (r: i64)
    ensures
        r == wrap_i64(acc as int),
{
    let m = acc % 0x1_0000_0000_0000_0000;
    if m < 0x8000_0000_0000_0000 {
        m as i64
    } else {
        (m as i128 - 0x1_0000_0000_0000_0000) as i64
    }
}

/// Decoding reads at least one byte and never more than there are.
pub proof fn lemma_signed64_used(bytes: Seq<u8>)
    ensures
        decode_signed_64(bytes) matches Ok((_, used)) ==> 0 < used <= bytes.len(),
        decode_signed_64(bytes) matches Err((_, used)) ==> used <= bytes.len(),
{
    lemma_signed64_from_used(bytes, 0, 0);
}

proof fn lemma_signed64_from_used(bytes: Seq<u8>, idx: nat, acc: nat)
    ensures
        signed64_from(bytes, idx, acc) matches Ok((_, used)) ==> idx < used <= bytes.len(),
        signed64_from(bytes, idx, acc) matches Err((_, used)) ==> used <= bytes.len(),
    decreases bytes.len() - idx,
{
    if idx < bytes.len() {
        let byte = bytes[idx as int];
        lemma_signed64_from_used(bytes, idx + 1, acc + payload(byte) * pow128(idx));
    }
}

/// Reads a signed 64-bit integer from the start of `bytes`. Beside the
/// value or the error it says how many bytes were read.
pub fn read_signed_64(bytes: &[u8]) -> (r: Result<(i64, usize), (Leb128Error, usize)>)
    ensures
        match r {
            Ok((value, used)) => decode_signed_64(bytes@) == Ok::<(i64, nat), (Leb128Error, nat)>(
                (value, used as nat),
            ),
            Err((e, used)) => decode_signed_64(bytes@) == Err::<(i64, nat), (Leb128Error, nat)>(
                (e, used as nat),
            ),
        },
{
    let mut acc: u128 = 0;
    let mut weight: u128 = 1;
    let mut idx: usize = 0;
    while idx < bytes.len()
        invariant
            idx <= 9,
            weight == pow128(idx as nat),
            weight <= 0x8000_0000_0000_0000,
            acc < weight,
            signed64_from(bytes@, idx as nat, acc as nat) == decode_signed_64(bytes@),
        decreases bytes.len() - idx,
    {
        let byte = bytes[idx];
        let low = low_bits_of_byte(byte) as u128;
        proof {
            lemma_pow128_more_values();
            lemma_pow128_monotonic(idx as nat, 9);
            if idx < 9 {
                lemma_pow128_monotonic((idx + 1) as nat, 9);
            }
        }
        assert(low * weight <= 127 * weight) by (nonlinear_arith)
            requires
                low <= 127,
                weight >= 0,
        ;
        assert(pow128((idx + 1) as nat) == 128 * weight);
        acc = acc + low * weight;
        if !has_continuation(byte) {
            if low >= 64 && idx < 9 {
                assert(low * weight >= 64 * weight) by (nonlinear_arith)
                    requires
                        low >= 64,
                        weight >= 0,
                ;
                let value: i128 = acc as i128 - (128 * weight) as i128;
                return Ok((narrow(value), idx + 1));
            }
            return Ok((lowest_64(acc), idx + 1));
        }
        if idx >= 9 {
            return Err((Leb128Error::InvalidEncoding, idx + 1));
        }
        weight = weight * 128;
        idx += 1;
    }
    Err((Leb128Error::IncompleteEncoding, bytes.len()))
}

impl Leb128 for i32 {
    open spec fn decoded(bytes: Seq<u8>) -> Decoded<i32> {
        decode_signed(bytes)
    }

    fn read_leb128(bytes: &[u8]) -> (r: Result<(i32, usize), Leb128Error>) {
        match read_signed(bytes) {
            Ok(done) => Ok(done),
            Err((e, _)) => Err(e),
        }
    }
}

/// Decoding of the shortest encoding of `y`, continued behind `idx` bytes
/// that gave `acc`.
proof fn lemma_unsigned_tail(bytes: Seq<u8>, idx: nat, acc: nat, y: nat)
    requires
        idx <= 4,
        idx <= bytes.len(),
        bytes.subrange(idx as int, bytes.len() as int) == encode_unsigned(y),
        acc + y * pow128(idx) <= u32::MAX,
        idx > 0 ==> y > 0,
    ensures
        unsigned_from(bytes, idx, acc) == Ok::<(u32, nat), (Leb128Error, nat)>(
            ((acc + y * pow128(idx)) as u32, bytes.len()),
        ),
    decreases y,
{
    lemma_pow128_values();
    let rest = bytes.subrange(idx as int, bytes.len() as int);
    let weight = pow128(idx);
    assert(idx == 0 || idx == 1 || idx == 2 || idx == 3 || idx == 4);
    assert(rest.len() > 0);
    assert(bytes[idx as int] == rest[0]);
    if y < 128 {
        assert(rest.len() == 1);
    } else {
        let tail = bytes.subrange((idx + 1) as int, bytes.len() as int);
        assert(tail =~= rest.subrange(1, rest.len() as int));
        assert(rest.subrange(1, rest.len() as int) =~= encode_unsigned(y / 128));
        assert(pow128(idx + 1) == 128 * weight);
        assert(y == 128 * (y / 128) + y % 128);
        assert(acc + (y % 128) * weight + (y / 128) * (128 * weight) == acc + y * weight) by (nonlinear_arith)
            requires
                y == 128 * (y / 128) + y % 128,
        ;
        assert(idx < 4) by {
            if idx == 4 {
                assert(y * weight >= 128 * weight) by (nonlinear_arith)
                    requires
                        y >= 128,
                        weight >= 0,
                ;
            }
        }
        lemma_unsigned_tail(bytes, idx + 1, acc + (y % 128) * weight, y / 128);
    }
}

/// Decoding the shortest encoding of an unsigned 32-bit integer gives the
/// integer back and uses all of the encoding.
pub proof fn lemma_unsigned_round_trip(x: u32)
    ensures
        decode_unsigned(encode_unsigned(x as nat)) == Ok::<(u32, nat), (Leb128Error, nat)>(
            (x, encode_unsigned(x as nat).len()),
        ),
{
    let bytes = encode_unsigned(x as nat);
    lemma_pow128_values();
    assert(bytes.subrange(0, bytes.len() as int) =~= bytes);
    lemma_unsigned_tail(bytes, 0, 0, x as nat);
}

/// An integer below the weight of position `n` has an encoding of no more
/// than `n` bytes.
proof fn lemma_unsigned_length(x: nat, n: nat)
    requires
        n >= 1,
        x < pow128(n),
    ensures
        encode_unsigned(x).len() <= n,
    decreases n,
{
    if x >= 128 {
        assert(pow128(n) == 128 * pow128((n - 1) as nat));
        if n == 1 {
            assert(pow128(0) == 1);
        } else {
            lemma_unsigned_length(x / 128, (n - 1) as nat);
        }
    }
}

/// What decoding makes of `used` bytes is below the weight of position
/// `used`.
proof fn lemma_unsigned_bound(bytes: Seq<u8>, idx: nat, acc: nat)
    requires
        acc < pow128(idx),
        idx <= 4,
    ensures
        unsigned_from(bytes, idx, acc) matches Ok((value, used)) ==> used > idx && (used <= 4
            ==> value < pow128(used)),
    decreases bytes.len() - idx,
{
    if idx < bytes.len() {
        let byte = bytes[idx as int];
        let weight = pow128(idx);
        lemma_pow128_values();
        assert(idx == 0 || idx == 1 || idx == 2 || idx == 3 || idx == 4);
        assert(pow128(idx + 1) == 128 * weight);
        assert(acc + payload(byte) * weight < 128 * weight) by (nonlinear_arith)
            requires
                acc < weight,
                payload(byte) <= 127,
        ;
        if continues(byte) && idx < 4 {
            lemma_unsigned_bound(bytes, idx + 1, acc + payload(byte) * weight);
        }
    }
}

/// No encoding that decodes to an unsigned integer is shorter than the
/// shortest encoding of that integer.
pub proof fn lemma_unsigned_shortest(bytes: Seq<u8>, x: u32, used: nat)
    requires
        decode_unsigned(bytes) == Ok::<(u32, nat), (Leb128Error, nat)>((x, used)),
    ensures
        encode_unsigned(x as nat).len() <= used,
{
    lemma_pow128_values();
    lemma_unsigned_bound(bytes, 0, 0);
    lemma_unsigned_used(bytes);
    if used <= 4 {
        lemma_unsigned_length(x as nat, used);
    } else {
        lemma_unsigned_length(x as nat, 5);
    }
}

/// An integer of 32 bits is its own two's complement reading, and so is
/// the integer with a multiple of 2 to the power 32 added.
proof fn lemma_wrap_i32(v: int)
    requires
        i32::MIN <= v <= i32::MAX,
    ensures
        wrap_i32(v) == v,
        wrap_i32(v + 0x8_0000_0000) == v,
{
    if v >= 0 {
        assert(v % 0x1_0000_0000 == v);
        assert((v + 0x8_0000_0000) % 0x1_0000_0000 == v);
    } else {
        assert(v % 0x1_0000_0000 == v + 0x1_0000_0000);
        assert((v + 0x8_0000_0000) % 0x1_0000_0000 == v + 0x1_0000_0000);
    }
}

/// Decoding of the last byte of the shortest encoding of `y`.
proof fn lemma_signed_last(bytes: Seq<u8>, idx: nat, acc: nat, y: int)
    requires
        idx <= 4,
        idx + 1 == bytes.len(),
        -64 <= y < 64,
        bytes[idx as int] == (y % 128) as u8,
        acc < pow128(idx),
        i32::MIN <= acc + y * pow128(idx) <= i32::MAX,
    ensures
        signed_from(bytes, idx, acc) == Ok::<(i32, nat), (Leb128Error, nat)>(
            ((acc + y * pow128(idx)) as i32, bytes.len()),
        ),
{
    lemma_pow128_values();
    let weight = pow128(idx);
    let x = acc + y * weight;
    let low = y % 128;
    let byte = bytes[idx as int];
    assert(idx == 0 || idx == 1 || idx == 2 || idx == 3 || idx == 4);
    assert(pow128(idx + 1) == 128 * weight);
    assert(byte == low);
    assert(payload(byte) == low);
    assert(!continues(byte));
    lemma_wrap_i32(x);
    if y < 0 {
        assert(low == y + 128);
        assert(acc + low * weight == x + 128 * weight) by (nonlinear_arith)
            requires
                low == y + 128,
                x == acc + y * weight,
        ;
    } else {
        assert(low == y);
    }
}

/// Decoding of the shortest encoding of `y`, continued behind `idx` bytes
/// that gave `acc`.
proof fn lemma_signed_tail(bytes: Seq<u8>, idx: nat, acc: nat, y: int)
    requires
        idx <= 4,
        idx <= bytes.len(),
        bytes.subrange(idx as int, bytes.len() as int) == encode_signed(y),
        acc < pow128(idx),
        i32::MIN <= acc + y * pow128(idx) <= i32::MAX,
    ensures
        signed_from(bytes, idx, acc) == Ok::<(i32, nat), (Leb128Error, nat)>(
            ((acc + y * pow128(idx)) as i32, bytes.len()),
        ),
    decreases
            (if y >= 0 {
                y
            } else {
                -y
            }),
{
    let rest = bytes.subrange(idx as int, bytes.len() as int);
    let weight = pow128(idx);
    assert(rest.len() > 0);
    assert(bytes[idx as int] == rest[0]);
    if -64 <= y < 64 {
        assert(rest.len() == 1);
        lemma_signed_last(bytes, idx, acc, y);
    } else {
        lemma_pow128_values();
        assert(idx == 0 || idx == 1 || idx == 2 || idx == 3 || idx == 4);
        assert(pow128(idx + 1) == 128 * weight);
        let low = y % 128;
        let high = y / 128;
        let byte = bytes[idx as int];
        assert(byte == low + 128);
        assert(payload(byte) == low);
        assert(continues(byte));
        let tail = bytes.subrange((idx + 1) as int, bytes.len() as int);
        assert(tail =~= rest.subrange(1, rest.len() as int));
        assert(rest.subrange(1, rest.len() as int) =~= encode_signed(high));
        assert(acc + low * weight + high * (128 * weight) == acc + y * weight) by (nonlinear_arith)
            requires
                y == 128 * high + low,
        ;
        assert(acc + low * weight < 128 * weight) by (nonlinear_arith)
            requires
                acc < weight,
                0 <= low <= 127,
        ;
        assert(idx < 4) by {
            if idx == 4 {
                if y >= 64 {
                    assert(y * weight >= 64 * weight) by (nonlinear_arith)
                        requires
                            y >= 64,
                            weight >= 0,
                    ;
                } else {
                    assert(y * weight <= -65 * weight) by (nonlinear_arith)
                        requires
                            y <= -65,
                            weight >= 0,
                    ;
                }
            }
        }
        lemma_signed_tail(bytes, idx + 1, (acc + low * weight) as nat, high);
    }
}

/// Decoding the shortest encoding of a signed 32-bit integer gives the
/// integer back and uses all of the encoding.
pub proof fn lemma_signed_round_trip(x: i32)
    ensures
        decode_signed(encode_signed(x as int)) == Ok::<(i32, nat), (Leb128Error, nat)>(
            (x, encode_signed(x as int).len()),
        ),
{
    let bytes = encode_signed(x as int);
    lemma_pow128_values();
    assert(bytes.subrange(0, bytes.len() as int) =~= bytes);
    lemma_signed_tail(bytes, 0, 0, x as int);
}

/// An integer of no more than `7 * n` bits has an encoding of no more than
/// `n` bytes.
proof fn lemma_signed_length(x: int, n: nat)
    requires
        n >= 1,
        -64 * pow128((n - 1) as nat) <= x < 64 * pow128((n - 1) as nat),
    ensures
        encode_signed(x).len() <= n,
    decreases n,
{
    if !(-64 <= x < 64) {
        if n == 1 {
            assert(pow128(0) == 1);
        } else {
            assert(pow128((n - 1) as nat) == 128 * pow128((n - 2) as nat));
            lemma_signed_length(x / 128, (n - 1) as nat);
        }
    }
}

/// What decoding makes of `used` bytes has no more than `7 * used` bits.
proof fn lemma_signed_bound(bytes: Seq<u8>, idx: nat, acc: nat)
    requires
        acc < pow128(idx),
        idx <= 4,
    ensures
        signed_from(bytes, idx, acc) matches Ok((value, used)) ==> used > idx && (used <= 4
            ==> -64 * pow128((used - 1) as nat) <= value < 64 * pow128((used - 1) as nat)),
    decreases bytes.len() - idx,
{
    if idx < bytes.len() {
        let byte = bytes[idx as int];
        let weight = pow128(idx);
        lemma_pow128_values();
        assert(idx == 0 || idx == 1 || idx == 2 || idx == 3 || idx == 4);
        assert(pow128(idx + 1) == 128 * weight);
        assert(acc + payload(byte) * weight < 128 * weight) by (nonlinear_arith)
            requires
                acc < weight,
                payload(byte) <= 127,
        ;
        if !continues(byte) {
            if idx < 4 {
                if payload(byte) >= 64 {
                    lemma_wrap_i32(acc + payload(byte) * weight - 128 * weight);
                } else {
                    lemma_wrap_i32((acc + payload(byte) * weight) as int);
                }
            }
            if payload(byte) >= 64 {
                assert(acc + payload(byte) * weight >= 64 * weight) by (nonlinear_arith)
                    requires
                        payload(byte) >= 64,
                        weight >= 0,
                        acc >= 0,
                ;
            } else {
                assert(acc + payload(byte) * weight < 64 * weight) by (nonlinear_arith)
                    requires
                        payload(byte) <= 63,
                        acc < weight,
                ;
            }
        } else if idx < 4 {
            lemma_signed_bound(bytes, idx + 1, acc + payload(byte) * weight);
        }
    }
}

/// No encoding that decodes to a signed integer is shorter than the
/// shortest encoding of that integer.
pub proof fn lemma_signed_shortest(bytes: Seq<u8>, x: i32, used: nat)
    requires
        decode_signed(bytes) == Ok::<(i32, nat), (Leb128Error, nat)>((x, used)),
    ensures
        encode_signed(x as int).len() <= used,
{
    lemma_pow128_values();
    lemma_signed_bound(bytes, 0, 0);
    lemma_signed_used(bytes);
    if used <= 4 {
        lemma_signed_length(x as int, used);
    } else {
        lemma_signed_length(x as int, 5);
    }
}

} // verus!

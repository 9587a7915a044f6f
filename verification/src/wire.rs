//! Byte-level primitives of the vanilla action payloads: unsigned LEB128
//! varints, zigzag signed varints, optional values, booleans, positions and
//! little-endian 32-bit words, each with its reader, its writer and the fact
//! that reading what was written gives the value back.

use vstd::prelude::*;
use crate::action_payloads::ActionPayloadError;

verus! {

/// `128` to the power `i`.
pub open spec fn pow128(i: nat) -> nat
    decreases i,
{
    if i == 0 {
        1
    } else {
        128 * pow128((i - 1) as nat)
    }
}

/// Unsigned LEB128: seven value bits per byte, lowest group first, the high
/// bit set on every byte but the last.
pub open spec fn var_uint_bytes(v: nat) -> Seq<u8>
    decreases v,
{
    if v < 128 {
        seq![v as u8]
    } else {
        seq![(v % 128 + 128) as u8] + var_uint_bytes(v / 128)
    }
}

/// Why a varint could not be read.
pub enum VarIntFault {
    Eof,
    TooLong,
}

/// Reading a varint of at most `n` bytes starting at `start`, with `i` bytes
/// already consumed and `acc` their accumulated value. Byte `i` adds its low
/// seven bits times `128^i`; a clear high bit ends the value; the `n`-th
/// byte may be at most `last_max`.
pub open spec fn spec_read_var(
    p: Seq<u8>,
    start: int,
    i: nat,
    n: nat,
    last_max: u8,
    acc: nat,
) -> Result<(nat, int), VarIntFault>
    decreases n - i,
{
    if i >= n {
        Err(VarIntFault::TooLong)
    } else if start + i >= p.len() || start + i < 0 {
        Err(VarIntFault::Eof)
    } else {
        let b = p[start + i];
        if i + 1 == n && b > last_max {
            Err(VarIntFault::TooLong)
        } else {
            let acc2 = acc + (b % 128) as nat * pow128(i);
            if b < 128 {
                Ok((acc2, start + i + 1))
            } else {
                spec_read_var(p, start, i + 1, n, last_max, acc2)
            }
        }
    }
}

/// Reading one byte at `c`.
pub open spec fn spec_u8(p: Seq<u8>, c: int, field: &'static str) -> Result<
    (u8, int),
    ActionPayloadError,
> {
    if 0 <= c < p.len() {
        Ok((p[c], c + 1))
    } else {
        Err(ActionPayloadError::UnexpectedEof { field })
    }
}

/// Reading a boolean byte: `0` or `1`, anything else is an invalid value.
pub open spec fn spec_bool(p: Seq<u8>, c: int, field: &'static str) -> Result<
    (bool, int),
    ActionPayloadError,
> {
    match spec_u8(p, c, field) {
        Ok((b, c1)) => if b == 0 {
            Ok((false, c1))
        } else if b == 1 {
            Ok((true, c1))
        } else {
            Err(ActionPayloadError::InvalidEnumValue { field, value: b })
        },
        Err(e) => Err(e),
    }
}

/// Reading an unsigned 32-bit varint (at most five bytes, the fifth at most `0x0F`).
pub open spec fn spec_var_u32(p: Seq<u8>, c: int, field: &'static str) -> Result<
    (u32, int),
    ActionPayloadError,
> {
    match spec_read_var(p, c, 0, 5, 0x0F, 0) {
        Ok((v, c1)) => Ok((v as u32, c1)),
        Err(VarIntFault::Eof) => Err(ActionPayloadError::UnexpectedEof { field }),
        Err(VarIntFault::TooLong) => Err(ActionPayloadError::VarintTooLong { field }),
    }
}

/// Reading an unsigned 64-bit varint (at most ten bytes, the tenth at most `0x01`).
pub open spec fn spec_var_u64(p: Seq<u8>, c: int, field: &'static str) -> Result<
    (u64, int),
    ActionPayloadError,
> {
    match spec_read_var(p, c, 0, 10, 0x01, 0) {
        Ok((v, c1)) => Ok((v as u64, c1)),
        Err(VarIntFault::Eof) => Err(ActionPayloadError::UnexpectedEof { field }),
        Err(VarIntFault::TooLong) => Err(ActionPayloadError::VarintU64TooLong { field }),
    }
}

/// Zigzag mapping of a signed value onto an unsigned one: `0, -1, 1, -2, ...`
/// become `0, 1, 2, 3, ...`.
pub open spec fn zigzag(v: i32) -> nat {
    if v >= 0 {
        (2 * v) as nat
    } else {
        (-2 * v - 1) as nat
    }
}

/// Inverse of [`zigzag`].
pub open spec fn unzigzag(r: u32) -> i32 {
    if r % 2 == 0 {
        (r / 2) as i32
    } else {
        (-(r / 2) - 1) as i32
    }
}

/// Wire bytes of a signed 32-bit varint.
pub open spec fn var_i32_bytes(v: i32) -> Seq<u8> {
    var_uint_bytes(zigzag(v))
}

/// Reading a signed 32-bit zigzag varint.
pub open spec fn spec_var_i32(p: Seq<u8>, c: int, field: &'static str) -> Result<
    (i32, int),
    ActionPayloadError,
> {
    match spec_var_u32(p, c, field) {
        Ok((r, c1)) => Ok((unzigzag(r), c1)),
        Err(e) => Err(e),
    }
}

/// Wire bytes of a block position: three signed varints.
pub open spec fn pos_bytes(pos: (i32, i32, i32)) -> Seq<u8> {
    var_i32_bytes(pos.0) + var_i32_bytes(pos.1) + var_i32_bytes(pos.2)
}

/// Reading a block position.
pub open spec fn spec_pos(p: Seq<u8>, c: int, field: &'static str) -> Result<
    ((i32, i32, i32), int),
    ActionPayloadError,
> {
    match spec_var_i32(p, c, field) {
        Ok((x, c1)) => match spec_var_i32(p, c1, field) {
            Ok((y, c2)) => match spec_var_i32(p, c2, field) {
                Ok((z, c3)) => Ok(((x, y, z), c3)),
                Err(e) => Err(e),
            },
            Err(e) => Err(e),
        },
        Err(e) => Err(e),
    }
}

/// Wire bytes of an optional u32: a `0` byte, or a `1` byte and the varint.
pub open spec fn opt_u32_bytes(v: Option<u32>) -> Seq<u8> {
    match v {
        Some(x) => seq![1u8] + var_uint_bytes(x as nat),
        None => seq![0u8],
    }
}

/// Wire bytes of an optional u64.
pub open spec fn opt_u64_bytes(v: Option<u64>) -> Seq<u8> {
    match v {
        Some(x) => seq![1u8] + var_uint_bytes(x as nat),
        None => seq![0u8],
    }
}

/// Reading an optional u32.
pub open spec fn spec_opt_u32(p: Seq<u8>, c: int, field: &'static str) -> Result<
    (Option<u32>, int),
    ActionPayloadError,
> {
    match spec_u8(p, c, field) {
        Ok((tag, c1)) => if tag == 0 {
            Ok((None, c1))
        } else if tag == 1 {
            match spec_var_u32(p, c1, field) {
                Ok((v, c2)) => Ok((Some(v), c2)),
                Err(e) => Err(e),
            }
        } else {
            Err(ActionPayloadError::InvalidEnumValue { field, value: tag })
        },
        Err(e) => Err(e),
    }
}

/// Reading an optional u64.
pub open spec fn spec_opt_u64(p: Seq<u8>, c: int, field: &'static str) -> Result<
    (Option<u64>, int),
    ActionPayloadError,
> {
    match spec_u8(p, c, field) {
        Ok((tag, c1)) => if tag == 0 {
            Ok((None, c1))
        } else if tag == 1 {
            match spec_var_u64(p, c1, field) {
                Ok((v, c2)) => Ok((Some(v), c2)),
                Err(e) => Err(e),
            }
        } else {
            Err(ActionPayloadError::InvalidEnumValue { field, value: tag })
        },
        Err(e) => Err(e),
    }
}

/// Little-endian bytes of a 32-bit word.
pub open spec fn u32_le_bytes(v: u32) -> Seq<u8> {
    seq![
        (v % 256) as u8,
        ((v / 256) % 256) as u8,
        ((v / 65536) % 256) as u8,
        (v / 16777216) as u8,
    ]
}

/// Reading a little-endian 32-bit word (the bit pattern of an `f32`).
pub open spec fn spec_u32_le(p: Seq<u8>, c: int, field: &'static str) -> Result<
    (u32, int),
    ActionPayloadError,
> {
    if 0 <= c && c + 4 <= p.len() {
        Ok(
            (
                (p[c] + 256 * p[c + 1] + 65536 * p[c + 2] + 16777216 * p[c + 3]) as u32,
                c + 4,
            ),
        )
    } else {
        Err(ActionPayloadError::UnexpectedEof { field })
    }
}

/// `p` holds `e` at offset `c`.
pub open spec fn holds_at(p: Seq<u8>, c: int, e: Seq<u8>) -> bool {
    &&& 0 <= c
    &&& c + e.len() <= p.len()
    &&& p.subrange(c, c + e.len()) == e
}

// ---------------------------------------------------------------------------
// Readers
// ---------------------------------------------------------------------------

pub fn read_u8(payload: &[u8], cursor: &mut usize, field: &'static str) -> (r: Result<
    u8,
    ActionPayloadError,
>)
    ensures
        match spec_u8(payload@, *old(cursor) as int, field) {
            Ok((b, c)) => r == Ok::<u8, ActionPayloadError>(b) && *final(cursor) == c,
            Err(e) => r == Err::<u8, ActionPayloadError>(e),
        },
{
    if *cursor >= payload.len() {
        return Err(ActionPayloadError::UnexpectedEof { field });
    }
    let b = payload[*cursor];
    *cursor = *cursor + 1;
    Ok(b)
}

pub fn read_bool(payload: &[u8], cursor: &mut usize, field: &'static str) -> (r: Result<
    bool,
    ActionPayloadError,
>)
    ensures
        match spec_bool(payload@, *old(cursor) as int, field) {
            Ok((b, c)) => r == Ok::<bool, ActionPayloadError>(b) && *final(cursor) == c,
            Err(e) => r == Err::<bool, ActionPayloadError>(e),
        },
{
    let b = read_u8(payload, cursor, field)?;
    if b == 0 {
        Ok(false)
    } else if b == 1 {
        Ok(true)
    } else {
        Err(ActionPayloadError::InvalidEnumValue { field, value: b })
    }
}

/// Concrete powers of 128 used by the 32- and 64-bit varint readers.
pub proof fn lemma_pow128_values()
    ensures
        pow128(0) == 1,
        pow128(1) == 0x80,
        pow128(2) == 0x4000,
        pow128(3) == 0x20_0000,
        pow128(4) == 0x1000_0000,
        pow128(5) == 0x8_0000_0000,
        pow128(6) == 0x400_0000_0000,
        pow128(7) == 0x2_0000_0000_0000,
        pow128(8) == 0x100_0000_0000_0000,
        pow128(9) == 0x8000_0000_0000_0000,
        pow128(10) == 0x40_0000_0000_0000_0000,
{
    reveal_with_fuel(pow128, 11);
}

proof fn lemma_pow128_step(i: nat)
    ensures
        pow128(i + 1) == 128 * pow128(i),
        pow128(i) >= 1,
    decreases i,
{
    if i > 0 {
        lemma_pow128_step((i - 1) as nat);
    }
}

pub fn read_var_u32(payload: &[u8], cursor: &mut usize, field: &'static str) -> (r: Result<
    u32,
    ActionPayloadError,
>)
    ensures
        match spec_var_u32(payload@, *old(cursor) as int, field) {
            Ok((v, c)) => r == Ok::<u32, ActionPayloadError>(v) && *final(cursor) == c,
            Err(e) => r == Err::<u32, ActionPayloadError>(e),
        },
{
    let ghost p = payload@;
    let ghost start = *cursor as int;
    let mut result: u32 = 0;
    let mut mul: u32 = 1;
    let mut i: usize = 0;
    proof {
        lemma_pow128_values();
    }
    while i < 5
        invariant
            p == payload@,
            start == *old(cursor) as int,
            0 <= i <= 5,
            *cursor == start + i,
            mul == pow128(i as nat),
            result < mul,
            i < 5 ==> mul <= 0x1000_0000,
            i == 5 ==> false,
            spec_read_var(p, start, i as nat, 5, 0x0F, result as nat) == spec_read_var(
                p,
                start,
                0,
                5,
                0x0F,
                0,
            ),
        decreases 5 - i,
    {
        proof {
            lemma_pow128_step(i as nat);
            lemma_pow128_values();
        }
        let byte = read_u8(payload, cursor, field)?;
        if i == 4 && byte > 0x0F {
            return Err(ActionPayloadError::VarintTooLong { field });
        }
        let low = (byte % 128) as u32;
        assert(low as nat * pow128(i as nat) == low * mul);
        assert(low * mul + result < 0x1_0000_0000 && low * mul + result < 128 * mul) by (
        nonlinear_arith)
            requires
                low < 128,
                result < mul,
                mul <= 0x1000_0000,
                i == 4 ==> low <= 15 && mul == 0x1000_0000,
                i < 4 ==> mul <= 0x20_0000,
                i <= 4,
        {
        }
        result = result + low * mul;
        if byte < 128 {
            return Ok(result);
        }
        assert(i < 4);
        mul = mul * 128;
        i = i + 1;
    }
    Err(ActionPayloadError::VarintTooLong { field })
}


pub fn read_var_u64(payload: &[u8], cursor: &mut usize, field: &'static str) -> (r: Result<
    u64,
    ActionPayloadError,
>)
    ensures
        match spec_var_u64(payload@, *old(cursor) as int, field) {
            Ok((v, c)) => r == Ok::<u64, ActionPayloadError>(v) && *final(cursor) == c,
            Err(e) => r == Err::<u64, ActionPayloadError>(e),
        },
{
    let ghost p = payload@;
    let ghost start = *cursor as int;
    let mut result: u64 = 0;
    let mut mul: u64 = 1;
    let mut i: usize = 0;
    proof {
        lemma_pow128_values();
    }
    while i < 10
        invariant
            p == payload@,
            start == *old(cursor) as int,
            0 <= i <= 10,
            *cursor == start + i,
            mul == pow128(i as nat),
            result < mul,
            i == 10 ==> false,
            spec_read_var(p, start, i as nat, 10, 0x01, result as nat) == spec_read_var(
                p,
                start,
                0,
                10,
                0x01,
                0,
            ),
        decreases 10 - i,
    {
        proof {
            lemma_pow128_step(i as nat);
            lemma_pow128_values();
        }
        let byte = read_u8(payload, cursor, field)?;
        if i == 9 && byte > 0x01 {
            return Err(ActionPayloadError::VarintU64TooLong { field });
        }
        let low = (byte % 128) as u64;
        assert(low as nat * pow128(i as nat) == low * mul);
        assert(low * mul + result < 0x1_0000_0000_0000_0000 && low * mul + result < 128 * mul) by (
        nonlinear_arith)
            requires
                low < 128,
                result < mul,
                i == 9 ==> low <= 1 && mul == 0x8000_0000_0000_0000,
                i < 9 ==> mul <= 0x100_0000_0000_0000,
                i <= 9,
        {
        }
        result = result + low * mul;
        if byte < 128 {
            return Ok(result);
        }
        assert(i < 9);
        mul = mul * 128;
        i = i + 1;
    }
    Err(ActionPayloadError::VarintU64TooLong { field })
}

pub fn read_var_i32(payload: &[u8], cursor: &mut usize, field: &'static str) -> (r: Result<
    i32,
    ActionPayloadError,
>)
    ensures
        match spec_var_i32(payload@, *old(cursor) as int, field) {
            Ok((v, c)) => r == Ok::<i32, ActionPayloadError>(v) && *final(cursor) == c,
            Err(e) => r == Err::<i32, ActionPayloadError>(e),
        },
{
    let raw = read_var_u32(payload, cursor, field)?;
    if raw % 2 == 0 {
        Ok((raw / 2) as i32)
    } else {
        Ok(-((raw / 2) as i32) - 1)
    }
}

pub fn read_optional_var_u32(payload: &[u8], cursor: &mut usize, field: &'static str) -> (r:
    Result<Option<u32>, ActionPayloadError>)
    ensures
        match spec_opt_u32(payload@, *old(cursor) as int, field) {
            Ok((v, c)) => r == Ok::<Option<u32>, ActionPayloadError>(v) && *final(cursor) == c,
            Err(e) => r == Err::<Option<u32>, ActionPayloadError>(e),
        },
{
    let tag = read_u8(payload, cursor, field)?;
    if tag == 0 {
        Ok(None)
    } else if tag == 1 {
        let v = read_var_u32(payload, cursor, field)?;
        Ok(Some(v))
    } else {
        Err(ActionPayloadError::InvalidEnumValue { field, value: tag })
    }
}

pub fn read_optional_var_u64(payload: &[u8], cursor: &mut usize, field: &'static str) -> (r:
    Result<Option<u64>, ActionPayloadError>)
    ensures
        match spec_opt_u64(payload@, *old(cursor) as int, field) {
            Ok((v, c)) => r == Ok::<Option<u64>, ActionPayloadError>(v) && *final(cursor) == c,
            Err(e) => r == Err::<Option<u64>, ActionPayloadError>(e),
        },
{
    let tag = read_u8(payload, cursor, field)?;
    if tag == 0 {
        Ok(None)
    } else if tag == 1 {
        let v = read_var_u64(payload, cursor, field)?;
        Ok(Some(v))
    } else {
        Err(ActionPayloadError::InvalidEnumValue { field, value: tag })
    }
}

/// Reads the four little-endian bytes of a 32-bit word (an `f32` bit pattern).
pub fn read_u32_le(payload: &[u8], cursor: &mut usize, field: &'static str) -> (r: Result<
    u32,
    ActionPayloadError,
>)
    ensures
        match spec_u32_le(payload@, *old(cursor) as int, field) {
            Ok((v, c)) => r == Ok::<u32, ActionPayloadError>(v) && *final(cursor) == c,
            Err(e) => r == Err::<u32, ActionPayloadError>(e),
        },
{
    let c = *cursor;
    if c > payload.len() || payload.len() - c < 4 {
        return Err(ActionPayloadError::UnexpectedEof { field });
    }
    let b0 = payload[c] as u32;
    let b1 = payload[c + 1] as u32;
    let b2 = payload[c + 2] as u32;
    let b3 = payload[c + 3] as u32;
    *cursor = c + 4;
    Ok(b0 + 256 * b1 + 65536 * b2 + 16777216 * b3)
}

pub fn read_pos(payload: &[u8], cursor: &mut usize, field: &'static str) -> (r: Result<
    (i32, i32, i32),
    ActionPayloadError,
>)
    ensures
        match spec_pos(payload@, *old(cursor) as int, field) {
            Ok((v, c)) => r == Ok::<(i32, i32, i32), ActionPayloadError>(v) && *final(cursor) == c,
            Err(e) => r == Err::<(i32, i32, i32), ActionPayloadError>(e),
        },
{
    let x = read_var_i32(payload, cursor, field)?;
    let y = read_var_i32(payload, cursor, field)?;
    let z = read_var_i32(payload, cursor, field)?;
    Ok((x, y, z))
}

// ---------------------------------------------------------------------------
// Writers
// ---------------------------------------------------------------------------

pub fn write_var_u64(out: &mut Vec<u8>, value: u64)
    ensures
        final(out)@ == old(out)@ + var_uint_bytes(value as nat),
{
    let mut v = value;
    while v >= 128
        invariant
            out@ + var_uint_bytes(v as nat) == old(out)@ + var_uint_bytes(value as nat),
        decreases v,
    {
        let ghost before = out@;
        out.push((v % 128 + 128) as u8);
        assert(var_uint_bytes(v as nat) == seq![(v % 128 + 128) as u8] + var_uint_bytes(
            (v / 128) as nat,
        ));
        assert(out@ + var_uint_bytes((v / 128) as nat) =~= before + var_uint_bytes(v as nat));
        v = v / 128;
    }
    let ghost before = out@;
    out.push(v as u8);
    assert(out@ =~= before + var_uint_bytes(v as nat));
}

pub fn write_var_u32(out: &mut Vec<u8>, value: u32)
    ensures
        final(out)@ == old(out)@ + var_uint_bytes(value as nat),
{
    write_var_u64(out, value as u64);
}

pub fn write_var_i32(out: &mut Vec<u8>, value: i32)
    ensures
        final(out)@ == old(out)@ + var_i32_bytes(value),
{
    let encoded: u32 = if value >= 0 {
        (value as u32) * 2
    } else {
        ((-(value + 1)) as u32) * 2 + 1
    };
    assert(encoded as nat == zigzag(value));
    write_var_u32(out, encoded);
}

pub fn write_optional_var_u32(out: &mut Vec<u8>, value: Option<u32>)
    ensures
        final(out)@ == old(out)@ + opt_u32_bytes(value),
{
    match value {
        Some(v) => {
            out.push(1);
            write_var_u32(out, v);
            assert(final(out)@ =~= old(out)@ + opt_u32_bytes(value));
        },
        None => {
            out.push(0);
            assert(out@ =~= old(out)@ + opt_u32_bytes(value));
        },
    }
}

pub fn write_optional_var_u64(out: &mut Vec<u8>, value: Option<u64>)
    ensures
        final(out)@ == old(out)@ + opt_u64_bytes(value),
{
    match value {
        Some(v) => {
            out.push(1);
            write_var_u64(out, v);
            assert(out@ =~= old(out)@ + opt_u64_bytes(value));
        },
        None => {
            out.push(0);
            assert(out@ =~= old(out)@ + opt_u64_bytes(value));
        },
    }
}

/// Writes the four little-endian bytes of a 32-bit word (an `f32` bit pattern).
pub fn write_u32_le(out: &mut Vec<u8>, value: u32)
    ensures
        final(out)@ == old(out)@ + u32_le_bytes(value),
{
    out.push((value % 256) as u8);
    out.push(((value / 256) % 256) as u8);
    out.push(((value / 65536) % 256) as u8);
    out.push((value / 16777216) as u8);
    assert(out@ =~= old(out)@ + u32_le_bytes(value));
}

pub fn write_pos(out: &mut Vec<u8>, pos: (i32, i32, i32))
    ensures
        final(out)@ == old(out)@ + pos_bytes(pos),
{
    write_var_i32(out, pos.0);
    write_var_i32(out, pos.1);
    write_var_i32(out, pos.2);
    assert(out@ =~= old(out)@ + pos_bytes(pos));
}

// ---------------------------------------------------------------------------
// Reading what was written
// ---------------------------------------------------------------------------

/// A varint reader that finds the bytes of `w` at its position, having
/// accumulated `acc` below `128^i`, ends with `acc + w * 128^i` just after them,
/// provided that total fits the reader's width.
pub proof fn lemma_read_var_of_bytes(
    p: Seq<u8>,
    start: int,
    i: nat,
    n: nat,
    last_max: u8,
    acc: nat,
    w: nat,
)
    requires
        holds_at(p, start + i, var_uint_bytes(w)),
        i < n,
        last_max < 128,
        acc < pow128(i),
        acc + w * pow128(i) < pow128((n - 1) as nat) * (last_max + 1),
    ensures
        spec_read_var(p, start, i, n, last_max, acc) == Ok::<(nat, int), VarIntFault>(
            (acc + w * pow128(i), start + i + var_uint_bytes(w).len()),
        ),
    decreases w,
{
    let bytes = var_uint_bytes(w);
    let b = p[start + i];
    assert(b == p.subrange(start + i, start + i + bytes.len())[0]);
    lemma_pow128_step(i);
    if i + 1 < n {
        lemma_pow128_monotone(i + 1, (n - 1) as nat);
    }
    if w < 128 {
        assert(b == w);
        if i + 1 == n {
            assert(w < last_max + 1) by (nonlinear_arith)
                requires
                    acc + w * pow128(i) < pow128(i) * (last_max + 1),
                    pow128(i) >= 1,
            {
            }
        }
    } else {
        assert(b == (w % 128 + 128) as u8);
        if i + 1 == n {
            assert(false) by (nonlinear_arith)
                requires
                    w >= 128,
                    acc + w * pow128(i) < pow128(i) * (last_max + 1),
                    last_max < 128,
                    pow128(i) >= 1,
            {
            }
        }
        let acc2 = acc + (w % 128) * pow128(i);
        assert(acc2 < pow128(i + 1) && acc2 + (w / 128) * pow128(i + 1) == acc + w * pow128(i))
            by (nonlinear_arith)
            requires
                acc < pow128(i),
                pow128(i + 1) == 128 * pow128(i),
                acc2 == acc + (w % 128) * pow128(i),
                w >= 128,
        {
        }
        let rest = var_uint_bytes(w / 128);
        assert(bytes == seq![b] + rest);
        assert(p.subrange(start + i + 1, start + i + 1 + rest.len()) =~= rest) by {
            assert forall|k: int| 0 <= k < rest.len() implies p[start + i + 1 + k] == rest[k] by {
                assert(p.subrange(start + i, start + i + bytes.len())[k + 1] == bytes[k + 1]);
            }
        }
        lemma_read_var_of_bytes(p, start, i + 1, n, last_max, acc2, w / 128);
    }
}

pub proof fn lemma_pow128_monotone(i: nat, j: nat)
    requires
        i <= j,
    ensures
        pow128(i) <= pow128(j),
    decreases j - i,
{
    if i < j {
        lemma_pow128_monotone(i, (j - 1) as nat);
        lemma_pow128_step((j - 1) as nat);
    }
}

pub proof fn lemma_var_uint_bytes_nonempty(v: nat)
    ensures
        var_uint_bytes(v).len() >= 1,
    decreases v,
{
    if v >= 128 {
        lemma_var_uint_bytes_nonempty(v / 128);
    }
}

/// Reading a u32 varint where its encoding stands gives the value back.
pub proof fn lemma_var_u32_roundtrip(p: Seq<u8>, c: int, v: u32, field: &'static str)
    requires
        holds_at(p, c, var_uint_bytes(v as nat)),
    ensures
        spec_var_u32(p, c, field) == Ok::<(u32, int), ActionPayloadError>(
            (v, c + var_uint_bytes(v as nat).len()),
        ),
{
    lemma_pow128_values();
    lemma_read_var_of_bytes(p, c, 0, 5, 0x0F, 0, v as nat);
}

/// Reading a u64 varint where its encoding stands gives the value back.
pub proof fn lemma_var_u64_roundtrip(p: Seq<u8>, c: int, v: u64, field: &'static str)
    requires
        holds_at(p, c, var_uint_bytes(v as nat)),
    ensures
        spec_var_u64(p, c, field) == Ok::<(u64, int), ActionPayloadError>(
            (v, c + var_uint_bytes(v as nat).len()),
        ),
{
    lemma_pow128_values();
    lemma_read_var_of_bytes(p, c, 0, 10, 0x01, 0, v as nat);
}

/// Reading a zigzag i32 where its encoding stands gives the value back.
pub proof fn lemma_var_i32_roundtrip(p: Seq<u8>, c: int, v: i32, field: &'static str)
    requires
        holds_at(p, c, var_i32_bytes(v)),
    ensures
        spec_var_i32(p, c, field) == Ok::<(i32, int), ActionPayloadError>(
            (v, c + var_i32_bytes(v).len()),
        ),
{
    let z = zigzag(v) as u32;
    assert(z as nat == zigzag(v));
    lemma_var_u32_roundtrip(p, c, z, field);
    assert(unzigzag(z) == v);
}

/// Where `a + b` stands at `c`, `a` stands at `c` and `b` right after it.
pub proof fn lemma_holds_at_concat(p: Seq<u8>, c: int, a: Seq<u8>, b: Seq<u8>)
    requires
        holds_at(p, c, a + b),
    ensures
        holds_at(p, c, a),
        holds_at(p, c + a.len(), b),
{
    assert(p.subrange(c, c + a.len()) =~= a) by {
        assert forall|k: int| 0 <= k < a.len() implies p[c + k] == a[k] by {
            assert(p.subrange(c, c + (a + b).len())[k] == (a + b)[k]);
        }
    }
    assert(p.subrange(c + a.len(), c + a.len() + b.len()) =~= b) by {
        assert forall|k: int| 0 <= k < b.len() implies p[c + a.len() + k] == b[k] by {
            assert(p.subrange(c, c + (a + b).len())[a.len() + k] == (a + b)[a.len() + k]);
        }
    }
}

/// Reading a position where its encoding stands gives it back.
pub proof fn lemma_pos_roundtrip(p: Seq<u8>, c: int, pos: (i32, i32, i32), field: &'static str)
    requires
        holds_at(p, c, pos_bytes(pos)),
    ensures
        spec_pos(p, c, field) == Ok::<((i32, i32, i32), int), ActionPayloadError>(
            (pos, c + pos_bytes(pos).len()),
        ),
{
    let bx = var_i32_bytes(pos.0);
    let by = var_i32_bytes(pos.1);
    let bz = var_i32_bytes(pos.2);
    lemma_holds_at_concat(p, c, bx + by, bz);
    lemma_holds_at_concat(p, c, bx, by);
    lemma_var_i32_roundtrip(p, c, pos.0, field);
    lemma_var_i32_roundtrip(p, c + bx.len(), pos.1, field);
    lemma_var_i32_roundtrip(p, c + bx.len() + by.len(), pos.2, field);
}

/// Reading an optional u32 where its encoding stands gives it back.
pub proof fn lemma_opt_u32_roundtrip(p: Seq<u8>, c: int, v: Option<u32>, field: &'static str)
    requires
        holds_at(p, c, opt_u32_bytes(v)),
    ensures
        spec_opt_u32(p, c, field) == Ok::<(Option<u32>, int), ActionPayloadError>(
            (v, c + opt_u32_bytes(v).len()),
        ),
{
    assert(p[c] == opt_u32_bytes(v)[0]) by {
        assert(p.subrange(c, c + opt_u32_bytes(v).len())[0] == opt_u32_bytes(v)[0]);
    }
    if let Some(x) = v {
        lemma_holds_at_concat(p, c, seq![1u8], var_uint_bytes(x as nat));
        lemma_var_u32_roundtrip(p, c + 1, x, field);
    }
}

/// Reading an optional u64 where its encoding stands gives it back.
pub proof fn lemma_opt_u64_roundtrip(p: Seq<u8>, c: int, v: Option<u64>, field: &'static str)
    requires
        holds_at(p, c, opt_u64_bytes(v)),
    ensures
        spec_opt_u64(p, c, field) == Ok::<(Option<u64>, int), ActionPayloadError>(
            (v, c + opt_u64_bytes(v).len()),
        ),
{
    assert(p[c] == opt_u64_bytes(v)[0]) by {
        assert(p.subrange(c, c + opt_u64_bytes(v).len())[0] == opt_u64_bytes(v)[0]);
    }
    if let Some(x) = v {
        lemma_holds_at_concat(p, c, seq![1u8], var_uint_bytes(x as nat));
        lemma_var_u64_roundtrip(p, c + 1, x, field);
    }
}

/// Reading a little-endian word where its bytes stand gives it back.
pub proof fn lemma_u32_le_roundtrip(p: Seq<u8>, c: int, v: u32, field: &'static str)
    requires
        holds_at(p, c, u32_le_bytes(v)),
    ensures
        spec_u32_le(p, c, field) == Ok::<(u32, int), ActionPayloadError>((v, c + 4)),
{
    let e = u32_le_bytes(v);
    assert(p[c] == e[0] && p[c + 1] == e[1] && p[c + 2] == e[2] && p[c + 3] == e[3]) by {
        let s = p.subrange(c, c + 4);
        assert(s[0] == e[0] && s[1] == e[1] && s[2] == e[2] && s[3] == e[3]);
    }
}

/// Reading a byte where it stands gives it back.
pub proof fn lemma_u8_roundtrip(p: Seq<u8>, c: int, b: u8, field: &'static str)
    requires
        holds_at(p, c, seq![b]),
    ensures
        spec_u8(p, c, field) == Ok::<(u8, int), ActionPayloadError>((b, c + 1)),
{
    assert(p.subrange(c, c + 1)[0] == b);
}

/// Wire byte of a boolean.
pub open spec fn bool_byte(b: bool) -> u8 {
    if b {
        1
    } else {
        0
    }
}

/// Reading a boolean where its byte stands gives it back.
pub proof fn lemma_bool_roundtrip(p: Seq<u8>, c: int, b: bool, field: &'static str)
    requires
        holds_at(p, c, seq![bool_byte(b)]),
    ensures
        spec_bool(p, c, field) == Ok::<(bool, int), ActionPayloadError>((b, c + 1)),
{
    assert(p.subrange(c, c + 1)[0] == bool_byte(b));
}

pub fn write_bool(out: &mut Vec<u8>, b: bool)
    ensures
        final(out)@ == old(out)@.push(bool_byte(b)),
{
    out.push(if b { 1u8 } else { 0u8 });
}
} // verus!

use vstd::prelude::*;
use crate::error::GameError;

verus! {

/// The number that eight bytes spell in little-endian order.
pub open spec fn le_u64(b: Seq<u8>) -> int
    recommends
        b.len() == 8,
{
    b[0] + b[1] * 0x100 + b[2] * 0x1_0000 + b[3] * 0x100_0000 + b[4] * 0x1_0000_0000 + b[5]
        * 0x100_0000_0000 + b[6] * 0x1_0000_0000_0000 + b[7] * 0x100_0000_0000_0000
}

/// The eight bytes that spell `v` in little-endian order.
pub open spec fn le_bytes(v: u64) -> Seq<u8> {
    seq![
        (v % 0x100) as u8,
        (v / 0x100 % 0x100) as u8,
        (v / 0x100 / 0x100 % 0x100) as u8,
        (v / 0x100 / 0x100 / 0x100 % 0x100) as u8,
        (v / 0x100 / 0x100 / 0x100 / 0x100 % 0x100) as u8,
        (v / 0x100 / 0x100 / 0x100 / 0x100 / 0x100 % 0x100) as u8,
        (v / 0x100 / 0x100 / 0x100 / 0x100 / 0x100 / 0x100 % 0x100) as u8,
        (v / 0x100 / 0x100 / 0x100 / 0x100 / 0x100 / 0x100 / 0x100 % 0x100) as u8,
    ]
}

/// Reading back the bytes of a number gives the number.
pub proof fn lemma_le_bytes_then_value(v: u64)
    ensures
        le_bytes(v).len() == 8,
        le_u64(le_bytes(v)) == v,
{
    let v1 = v / 0x100;
    let v2 = v1 / 0x100;
    let v3 = v2 / 0x100;
    let v4 = v3 / 0x100;
    let v5 = v4 / 0x100;
    let v6 = v5 / 0x100;
    let v7 = v6 / 0x100;
    assert(v == v % 0x100 + 0x100 * v1);
    assert(v1 == v1 % 0x100 + 0x100 * v2);
    assert(v2 == v2 % 0x100 + 0x100 * v3);
    assert(v3 == v3 % 0x100 + 0x100 * v4);
    assert(v4 == v4 % 0x100 + 0x100 * v5);
    assert(v5 == v5 % 0x100 + 0x100 * v6);
    assert(v6 == v6 % 0x100 + 0x100 * v7);
    assert(v7 < 0x100);
    assert(v7 == v7 % 0x100);
}

/// Eight bytes are the bytes of the number they spell, and that number fits in 64 bits.
pub proof fn lemma_le_value_then_bytes(b: Seq<u8>)
    requires
        b.len() == 8,
    ensures
        0 <= le_u64(b) <= u64::MAX,
        le_bytes(le_u64(b) as u64) == b,
{
    let v = le_u64(b) as u64;
    let t6 = b[6] + 0x100 * b[7];
    let t5 = b[5] + 0x100 * t6;
    let t4 = b[4] + 0x100 * t5;
    let t3 = b[3] + 0x100 * t4;
    let t2 = b[2] + 0x100 * t3;
    let t1 = b[1] + 0x100 * t2;
    assert(v == b[0] + 0x100 * t1);
    assert(v / 0x100 == t1 && v % 0x100 == b[0]);
    assert(t1 / 0x100 == t2 && t1 % 0x100 == b[1]);
    assert(t2 / 0x100 == t3 && t2 % 0x100 == b[2]);
    assert(t3 / 0x100 == t4 && t3 % 0x100 == b[3]);
    assert(t4 / 0x100 == t5 && t4 % 0x100 == b[4]);
    assert(t5 / 0x100 == t6 && t5 % 0x100 == b[5]);
    assert(t6 / 0x100 == b[7] && t6 % 0x100 == b[6]);
    assert(le_bytes(v) =~= b);
}

/// `a + b`, refused where the sum does not fit in 64 bits.
pub fn checked_add_u64(a: u64, b: u64) -> (r: Result<u64, GameError>)
    ensures
        a + b <= u64::MAX ==> r == Ok::<u64, GameError>((a + b) as u64),
        a + b > u64::MAX ==> r == Err::<u64, GameError>(GameError::Overflow),
{
    match a.checked_add(b) {
        Some(v) => Ok(v),
        None => Err(GameError::Overflow),
    }
}

/// `a - b`, refused where `b` is the larger.
pub fn checked_sub_u64(a: u64, b: u64) -> (r: Result<u64, GameError>)
    ensures
        a >= b ==> r == Ok::<u64, GameError>((a - b) as u64),
        a < b ==> r == Err::<u64, GameError>(GameError::Overflow),
{
    match a.checked_sub(b) {
        Some(v) => Ok(v),
        None => Err(GameError::Overflow),
    }
}

/// `a * b`, refused where the product does not fit in 64 bits.
pub fn checked_mul_u64(a: u64, b: u64) -> (r: Result<u64, GameError>)
    ensures
        a * b <= u64::MAX ==> r == Ok::<u64, GameError>((a * b) as u64),
        a * b > u64::MAX ==> r == Err::<u64, GameError>(GameError::Overflow),
{
    match a.checked_mul(b) {
        Some(v) => Ok(v),
        None => Err(GameError::Overflow),
    }
}

/// Reads a little-endian 64-bit number from a slice of exactly eight bytes.
/// Any other length is refused; nothing is read past the slice.
pub fn parse_u64_le(bytes: &[u8]) -> (r: Result<u64, GameError>)
    ensures
        bytes@.len() == 8 ==> r == Ok::<u64, GameError>(le_u64(bytes@) as u64) && le_u64(bytes@)
            <= u64::MAX,
        bytes@.len() != 8 ==> r == Err::<u64, GameError>(GameError::MalformedInput),
{
    if bytes.len() != 8 {
        return Err(GameError::MalformedInput);
    }
    let v: u64 = bytes[0] as u64 + bytes[1] as u64 * 0x100 + bytes[2] as u64 * 0x1_0000 + bytes[3] as u64
        * 0x100_0000 + bytes[4] as u64 * 0x1_0000_0000 + bytes[5] as u64 * 0x100_0000_0000
        + bytes[6] as u64 * 0x1_0000_0000_0000 + bytes[7] as u64 * 0x100_0000_0000_0000;
    Ok(v)
}

/// Writes `v` in little-endian order into `out[at..at + 8]` and leaves the rest as it was.
pub fn write_u64_le(out: &mut Vec<u8>, at: usize, v: u64)
    requires
        at + 8 <= old(out)@.len(),
    ensures
        final(out)@ == old(out)@.subrange(0, at as int) + le_bytes(v) + old(out)@.subrange(
            at + 8,
            old(out)@.len() as int,
        ),
{
    let n: usize = out.len();
    out[at] = (v % 0x100) as u8;
    out[at + 1] = (v / 0x100 % 0x100) as u8;
    out[at + 2] = (v / 0x100 / 0x100 % 0x100) as u8;
    out[at + 3] = (v / 0x100 / 0x100 / 0x100 % 0x100) as u8;
    out[at + 4] = (v / 0x100 / 0x100 / 0x100 / 0x100 % 0x100) as u8;
    out[at + 5] = (v / 0x100 / 0x100 / 0x100 / 0x100 / 0x100 % 0x100) as u8;
    out[at + 6] = (v / 0x100 / 0x100 / 0x100 / 0x100 / 0x100 / 0x100 % 0x100) as u8;
    out[at + 7] = (v / 0x100 / 0x100 / 0x100 / 0x100 / 0x100 / 0x100 / 0x100 % 0x100) as u8;
    assert(out@ =~= old(out)@.subrange(0, at as int) + le_bytes(v) + old(out)@.subrange(
        at + 8,
        old(out)@.len() as int,
    ));
}

} // verus!

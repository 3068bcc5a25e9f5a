use vstd::prelude::*;

verus! {

/// Appends `bytes` to the end of `buffer`.
pub fn append_bytes(buffer: &mut Vec<u8>, bytes: &[u8])
    ensures
        final(buffer)@ == old(buffer)@ + bytes@,
{
    let mut i: usize = 0;
    while i < bytes.len()
        invariant
            i <= bytes@.len(),
            buffer@ == old(buffer)@ + bytes@.subrange(0, i as int),
        decreases bytes@.len() - i,
    {
        buffer.push(bytes[i]);
        i = i + 1;
    }
    assert(bytes@.subrange(0, bytes@.len() as int) =~= bytes@);
}

/// Copies the `N` bytes that start at `offset` out of `data`.
pub fn read_array<const N: usize>(data: &[u8], offset: usize) -> (bytes: [u8; N])
    requires
        offset + N <= data@.len(),
    ensures
        bytes@ == data@.subrange(offset as int, offset + N),
{
    let length: usize = data.len();
    let mut bytes: [u8; N] = [0u8; N];
    let mut i: usize = 0;
    while i < N
        invariant
            i <= N,
            offset + N <= data@.len() == length,
            forall|k: int| 0 <= k < i ==> bytes@[k] == data@[offset + k],
        decreases N - i,
    {
        bytes[i] = data[offset + i];
        i = i + 1;
    }
    assert(bytes@ =~= data@.subrange(offset as int, offset + N));
    bytes
}

/// The two bytes of a 16-bit value, lowest first.
pub open spec fn le_bytes_u16(value: u16) -> Seq<u8> {
    seq![(value % 256) as u8, (value / 256) as u8]
}

/// The four bytes of a 32-bit value, lowest first: those of its low half,
/// then those of its high half.
#[verifier::opaque]
pub open spec fn le_bytes_u32(value: u32) -> Seq<u8> {
    le_bytes_u16((value % 0x1_0000) as u16) + le_bytes_u16((value / 0x1_0000) as u16)
}

/// The 32-bit pattern that stands for a signed value in two's complement.
pub open spec fn twos_complement(value: i32) -> u32 {
    if value >= 0 {
        value as u32
    } else {
        (value + 0x1_0000_0000) as u32
    }
}

/// The four bytes of a signed 32-bit value in two's complement, lowest
/// first.
pub open spec fn le_bytes_i32(value: i32) -> Seq<u8> {
    le_bytes_u32(twos_complement(value))
}

/// The eight bytes of a 64-bit value, lowest first: those of its low half,
/// then those of its high half.
#[verifier::opaque]
pub open spec fn le_bytes_u64(value: u64) -> Seq<u8> {
    le_bytes_u32((value % 0x1_0000_0000) as u32) + le_bytes_u32((value / 0x1_0000_0000) as u32)
}

/// The sixteen bytes of a 128-bit value, lowest first: those of its low
/// half, then those of its high half.
#[verifier::opaque]
pub open spec fn le_bytes_u128(value: u128) -> Seq<u8> {
    le_bytes_u64((value % 0x1_0000_0000_0000_0000) as u64) + le_bytes_u64(
        (value / 0x1_0000_0000_0000_0000) as u64,
    )
}

/// Splits a 16-bit value into its two bytes, lowest first.
pub fn u16_to_le_bytes(value: u16) -> (bytes: [u8; 2])
    ensures
        bytes@ == le_bytes_u16(value),
{
    let bytes: [u8; 2] = [(value % 256) as u8, (value / 256) as u8];
    assert(bytes@ =~= le_bytes_u16(value));
    bytes
}

/// Splits a 32-bit value into its four bytes, lowest first.
pub fn u32_to_le_bytes(value: u32) -> (bytes: [u8; 4])
    ensures
        bytes@ == le_bytes_u32(value),
{
    let low: [u8; 2] = u16_to_le_bytes((value % 0x1_0000) as u16);
    let high: [u8; 2] = u16_to_le_bytes((value / 0x1_0000) as u16);
    let bytes: [u8; 4] = [low[0], low[1], high[0], high[1]];
    assert(bytes@ =~= low@ + high@);
    reveal(le_bytes_u32);
    bytes
}

/// Splits a signed 32-bit value into the four bytes of its two's
/// complement, lowest first.
pub fn i32_to_le_bytes(value: i32) -> (bytes: [u8; 4])
    ensures
        bytes@ == le_bytes_i32(value),
{
    let pattern: u32 = if value >= 0 {
        value as u32
    } else {
        (value as i64 + 0x1_0000_0000i64) as u32
    };
    u32_to_le_bytes(pattern)
}

/// Splits a 64-bit value into its eight bytes, lowest first.
pub fn u64_to_le_bytes(value: u64) -> (bytes: [u8; 8])
    ensures
        bytes@ == le_bytes_u64(value),
{
    let low: [u8; 4] = u32_to_le_bytes((value % 0x1_0000_0000) as u32);
    let high: [u8; 4] = u32_to_le_bytes((value / 0x1_0000_0000) as u32);
    let bytes: [u8; 8] = [low[0], low[1], low[2], low[3], high[0], high[1], high[2], high[3]];
    assert(bytes@ =~= low@ + high@);
    reveal(le_bytes_u64);
    bytes
}

/// Splits a 128-bit value into its sixteen bytes, lowest first.
pub fn u128_to_le_bytes(value: u128) -> (bytes: [u8; 16])
    ensures
        bytes@ == le_bytes_u128(value),
{
    let low: [u8; 8] = u64_to_le_bytes((value % 0x1_0000_0000_0000_0000) as u64);
    let high: [u8; 8] = u64_to_le_bytes((value / 0x1_0000_0000_0000_0000) as u64);
    let bytes: [u8; 16] = [
        low[0],
        low[1],
        low[2],
        low[3],
        low[4],
        low[5],
        low[6],
        low[7],
        high[0],
        high[1],
        high[2],
        high[3],
        high[4],
        high[5],
        high[6],
        high[7],
    ];
    assert(bytes@ =~= low@ + high@);
    reveal(le_bytes_u128);
    bytes
}

/// Reads the 16-bit value whose two bytes, lowest first, start at `offset`.
pub fn read_u16(data: &[u8], offset: usize) -> (value: u16)
    requires
        offset + 2 <= data@.len(),
    ensures
        le_bytes_u16(value) == data@.subrange(offset as int, offset + 2),
{
    let value: u16 = data[offset] as u16 + 256 * (data[offset + 1] as u16);
    assert(le_bytes_u16(value) =~= data@.subrange(offset as int, offset + 2));
    value
}

/// Reads the 32-bit value whose four bytes, lowest first, start at `offset`.
pub fn read_u32(data: &[u8], offset: usize) -> (value: u32)
    requires
        offset + 4 <= data@.len(),
    ensures
        le_bytes_u32(value) == data@.subrange(offset as int, offset + 4),
{
    let length: usize = data.len();
    let low: u16 = read_u16(data, offset);
    let high: u16 = read_u16(data, offset + 2);
    let value: u32 = low as u32 + 0x1_0000 * (high as u32);
    assert(value % 0x1_0000 == low);
    assert(value / 0x1_0000 == high);
    reveal(le_bytes_u32);
    assert(data@.subrange(offset as int, offset + 4) =~= data@.subrange(offset as int, offset + 2)
        + data@.subrange(offset + 2, offset + 4));
    value
}

/// Reads the signed 32-bit value whose two's complement, as four bytes,
/// lowest first, starts at `offset`.
pub fn read_i32(data: &[u8], offset: usize) -> (value: i32)
    requires
        offset + 4 <= data@.len(),
    ensures
        le_bytes_i32(value) == data@.subrange(offset as int, offset + 4),
{
    let pattern: u32 = read_u32(data, offset);
    if pattern < 0x8000_0000 {
        pattern as i32
    } else {
        (pattern as i64 - 0x1_0000_0000i64) as i32
    }
}

/// Reads the 64-bit value whose eight bytes, lowest first, start at
/// `offset`.
pub fn read_u64(data: &[u8], offset: usize) -> (value: u64)
    requires
        offset + 8 <= data@.len(),
    ensures
        le_bytes_u64(value) == data@.subrange(offset as int, offset + 8),
{
    let length: usize = data.len();
    let low: u32 = read_u32(data, offset);
    let high: u32 = read_u32(data, offset + 4);
    let value: u64 = low as u64 + 0x1_0000_0000 * (high as u64);
    assert(value % 0x1_0000_0000 == low);
    assert(value / 0x1_0000_0000 == high);
    reveal(le_bytes_u64);
    assert(data@.subrange(offset as int, offset + 8) =~= data@.subrange(offset as int, offset + 4)
        + data@.subrange(offset + 4, offset + 8));
    value
}

/// Reads the 128-bit value whose sixteen bytes, lowest first, start at
/// `offset`.
pub fn read_u128(data: &[u8], offset: usize) -> (value: u128)
    requires
        offset + 16 <= data@.len(),
    ensures
        le_bytes_u128(value) == data@.subrange(offset as int, offset + 16),
{
    let length: usize = data.len();
    let low: u64 = read_u64(data, offset);
    let high: u64 = read_u64(data, offset + 8);
    let value: u128 = low as u128 + 0x1_0000_0000_0000_0000 * (high as u128);
    assert(value % 0x1_0000_0000_0000_0000 == low);
    assert(value / 0x1_0000_0000_0000_0000 == high);
    reveal(le_bytes_u128);
    assert(data@.subrange(offset as int, offset + 16) =~= data@.subrange(offset as int, offset + 8)
        + data@.subrange(offset + 8, offset + 16));
    value
}

/// A value of 16, 32, 64 or 128 bits has 2, 4, 8 or 16 bytes.
pub proof fn lemma_le_bytes_lengths(value: u128)
    ensures
        le_bytes_u16(value as u16).len() == 2,
        le_bytes_u32(value as u32).len() == 4,
        le_bytes_i32(value as i32).len() == 4,
        le_bytes_u64(value as u64).len() == 8,
        le_bytes_u128(value).len() == 16,
{
    reveal(le_bytes_u32);
    reveal(le_bytes_u64);
    reveal(le_bytes_u128);
    assert forall|v: u32| #[trigger] le_bytes_u32(v).len() == 4 by {}
    assert forall|v: u64| #[trigger] le_bytes_u64(v).len() == 8 by {}
}

/// Two concatenations that agree, and whose first parts are equally long,
/// agree part by part.
pub proof fn lemma_concat_is_injective(a: Seq<u8>, b: Seq<u8>, c: Seq<u8>, d: Seq<u8>)
    requires
        a + b == c + d,
        a.len() == c.len(),
    ensures
        a == c,
        b == d,
{
    assert(a =~= (a + b).subrange(0, a.len() as int));
    assert(c =~= (c + d).subrange(0, c.len() as int));
    assert(b =~= (a + b).subrange(a.len() as int, (a + b).len() as int));
    assert(d =~= (c + d).subrange(c.len() as int, (c + d).len() as int));
}

/// Different 16-bit values have different bytes.
pub proof fn lemma_le_bytes_u16_is_injective(x: u16, y: u16)
    requires
        le_bytes_u16(x) == le_bytes_u16(y),
    ensures
        x == y,
{
    assert(le_bytes_u16(x)[0] == le_bytes_u16(y)[0]);
    assert(le_bytes_u16(x)[1] == le_bytes_u16(y)[1]);
}

/// Different 32-bit values have different bytes.
pub proof fn lemma_le_bytes_u32_is_injective(x: u32, y: u32)
    requires
        le_bytes_u32(x) == le_bytes_u32(y),
    ensures
        x == y,
{
    reveal(le_bytes_u32);
    let x_low: u16 = (x % 0x1_0000) as u16;
    let x_high: u16 = (x / 0x1_0000) as u16;
    let y_low: u16 = (y % 0x1_0000) as u16;
    let y_high: u16 = (y / 0x1_0000) as u16;
    lemma_concat_is_injective(
        le_bytes_u16(x_low),
        le_bytes_u16(x_high),
        le_bytes_u16(y_low),
        le_bytes_u16(y_high),
    );
    lemma_le_bytes_u16_is_injective(x_low, y_low);
    lemma_le_bytes_u16_is_injective(x_high, y_high);
}

/// Different signed 32-bit values have different bytes.
pub proof fn lemma_le_bytes_i32_is_injective(x: i32, y: i32)
    requires
        le_bytes_i32(x) == le_bytes_i32(y),
    ensures
        x == y,
{
    lemma_le_bytes_u32_is_injective(twos_complement(x), twos_complement(y));
}

/// Different 64-bit values have different bytes.
pub proof fn lemma_le_bytes_u64_is_injective(x: u64, y: u64)
    requires
        le_bytes_u64(x) == le_bytes_u64(y),
    ensures
        x == y,
{
    reveal(le_bytes_u64);
    let x_low: u32 = (x % 0x1_0000_0000) as u32;
    let x_high: u32 = (x / 0x1_0000_0000) as u32;
    let y_low: u32 = (y % 0x1_0000_0000) as u32;
    let y_high: u32 = (y / 0x1_0000_0000) as u32;
    lemma_le_bytes_lengths(x_low as u128);
    lemma_le_bytes_lengths(y_low as u128);
    lemma_concat_is_injective(
        le_bytes_u32(x_low),
        le_bytes_u32(x_high),
        le_bytes_u32(y_low),
        le_bytes_u32(y_high),
    );
    lemma_le_bytes_u32_is_injective(x_low, y_low);
    lemma_le_bytes_u32_is_injective(x_high, y_high);
}

/// Different 128-bit values have different bytes.
pub proof fn lemma_le_bytes_u128_is_injective(x: u128, y: u128)
    requires
        le_bytes_u128(x) == le_bytes_u128(y),
    ensures
        x == y,
{
    reveal(le_bytes_u128);
    let x_low: u64 = (x % 0x1_0000_0000_0000_0000) as u64;
    let x_high: u64 = (x / 0x1_0000_0000_0000_0000) as u64;
    let y_low: u64 = (y % 0x1_0000_0000_0000_0000) as u64;
    let y_high: u64 = (y / 0x1_0000_0000_0000_0000) as u64;
    lemma_le_bytes_lengths(x_low as u128);
    lemma_le_bytes_lengths(y_low as u128);
    lemma_concat_is_injective(
        le_bytes_u64(x_low),
        le_bytes_u64(x_high),
        le_bytes_u64(y_low),
        le_bytes_u64(y_high),
    );
    lemma_le_bytes_u64_is_injective(x_low, y_low);
    lemma_le_bytes_u64_is_injective(x_high, y_high);
}

} // verus!

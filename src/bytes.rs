//! Little-endian integers read out of byte buffers.

use vstd::prelude::*;

verus! {

/// The unsigned 16-bit integer stored little-endian at `off`.
pub open spec fn le_u16(s: Seq<u8>, off: int) -> u16 {
    (s[off] as int + s[off + 1] as int * 0x100) as u16
}

/// The unsigned 32-bit integer stored little-endian at `off`.
pub open spec fn le_u32(s: Seq<u8>, off: int) -> u32 {
    (s[off] as int + s[off + 1] as int * 0x100 + s[off + 2] as int * 0x1_0000 + s[off + 3] as int
        * 0x100_0000) as u32
}

/// The unsigned 64-bit integer stored little-endian at `off`.
pub open spec fn le_u64(s: Seq<u8>, off: int) -> u64 {
    (le_u32(s, off) as int + le_u32(s, off + 4) as int * 0x1_0000_0000) as u64
}

/// The two's complement 32-bit integer stored little-endian at `off`.
pub open spec fn le_i32(s: Seq<u8>, off: int) -> i32 {
    le_u32(s, off) as i32
}

/// The two's complement 16-bit integer stored little-endian at `off`.
pub open spec fn le_i16(s: Seq<u8>, off: int) -> i16 {
    le_u16(s, off) as i16
}

pub fn read_u16(b: &[u8], off: usize) -> (r: u16)
    requires
        off + 2 <= b@.len(),
    ensures
        r == le_u16(b@, off as int),
{
    let b0 = b[off] as u16;
    let b1 = b[off + 1] as u16;
    assert(b0 + b1 * 0x100 <= 0xFFFF) by (nonlinear_arith)
        requires
            b0 <= 0xFF,
            b1 <= 0xFF,
    ;
    b0 + b1 * 0x100
}

pub fn read_u32(b: &[u8], off: usize) -> (r: u32)
    requires
        off + 4 <= b@.len(),
    ensures
        r == le_u32(b@, off as int),
{
    let b0 = b[off] as u32;
    let b1 = b[off + 1] as u32;
    let b2 = b[off + 2] as u32;
    let b3 = b[off + 3] as u32;
    assert(b0 + b1 * 0x100 + b2 * 0x1_0000 + b3 * 0x100_0000 <= 0xFFFF_FFFF) by (nonlinear_arith)
        requires
            b0 <= 0xFF,
            b1 <= 0xFF,
            b2 <= 0xFF,
            b3 <= 0xFF,
    ;
    b0 + b1 * 0x100 + b2 * 0x1_0000 + b3 * 0x100_0000
}

pub fn read_u64(b: &[u8], off: usize) -> (r: u64)
    requires
        off + 8 <= b@.len(),
    ensures
        r == le_u64(b@, off as int),
{
    let len = b.len();
    assert(off + 4 <= len);
    let lo = read_u32(b, off) as u64;
    let hi = read_u32(b, off + 4) as u64;
    assert(lo + hi * 0x1_0000_0000 <= 0xFFFF_FFFF_FFFF_FFFF) by (nonlinear_arith)
        requires
            lo <= 0xFFFF_FFFF,
            hi <= 0xFFFF_FFFF,
    ;
    lo + hi * 0x1_0000_0000
}

pub fn read_i32(b: &[u8], off: usize) -> (r: i32)
    requires
        off + 4 <= b@.len(),
    ensures
        r == le_i32(b@, off as int),
{
    read_u32(b, off) as i32
}

pub fn read_i16(b: &[u8], off: usize) -> (r: i16)
    requires
        off + 2 <= b@.len(),
    ensures
        r == le_i16(b@, off as int),
{
    read_u16(b, off) as i16
}

/// The four 32-bit integers stored little-endian from `off` on.
pub fn read_i32_array4(b: &[u8], off: usize) -> (r: [i32; 4])
    requires
        off + 16 <= b@.len(),
    ensures
        forall|i: int| 0 <= i < 4 ==> #[trigger] r@[i] == le_i32(b@, off + 4 * i),
{
    let len = b.len();
    assert(off + 16 <= len);
    let r = [read_i32(b, off), read_i32(b, off + 4), read_i32(b, off + 8), read_i32(b, off + 12)];
    assert forall|i: int| 0 <= i < 4 implies #[trigger] r@[i] == le_i32(b@, off + 4 * i) by {
        assert(i == 0 || i == 1 || i == 2 || i == 3);
    }
    r
}

/// The five 32-bit integers stored little-endian from `off` on.
pub fn read_i32_array5(b: &[u8], off: usize) -> (r: [i32; 5])
    requires
        off + 20 <= b@.len(),
    ensures
        forall|i: int| 0 <= i < 5 ==> #[trigger] r@[i] == le_i32(b@, off + 4 * i),
{
    let len = b.len();
    assert(off + 20 <= len);
    let r = [
        read_i32(b, off),
        read_i32(b, off + 4),
        read_i32(b, off + 8),
        read_i32(b, off + 12),
        read_i32(b, off + 16),
    ];
    assert forall|i: int| 0 <= i < 5 implies #[trigger] r@[i] == le_i32(b@, off + 4 * i) by {
        assert(i == 0 || i == 1 || i == 2 || i == 3 || i == 4);
    }
    r
}

/// The `count` unsigned 32-bit words stored little-endian from `off` on.
pub fn read_u32_words(b: &[u8], off: usize, count: usize) -> (r: Vec<u32>)
    requires
        off + 4 * count <= b@.len(),
    ensures
        r@.len() == count,
        forall|i: int| 0 <= i < count ==> #[trigger] r@[i] == le_u32(b@, off + 4 * i),
{
    let len = b.len();
    let mut r: Vec<u32> = Vec::with_capacity(count);
    let mut i: usize = 0;
    while i < count
        invariant
            i <= count,
            len == b@.len(),
            off + 4 * count <= len,
            r@.len() == i,
            forall|j: int| 0 <= j < i ==> #[trigger] r@[j] == le_u32(b@, off + 4 * j),
        decreases count - i,
    {
        r.push(read_u32(b, off + 4 * i));
        i = i + 1;
    }
    r
}

/// Copies the bytes in `[start, end)` into a new vector.
pub fn copy_range(b: &[u8], start: usize, end: usize) -> (r: Vec<u8>)
    requires
        start <= end <= b@.len(),
    ensures
        r@ == b@.subrange(start as int, end as int),
{
    let mut r: Vec<u8> = Vec::with_capacity(end - start);
    let mut i: usize = start;
    while i < end
        invariant
            start <= i <= end <= b@.len(),
            r@ == b@.subrange(start as int, i as int),
        decreases end - i,
    {
        r.push(b[i]);
        i = i + 1;
        assert(r@ =~= b@.subrange(start as int, i as int));
    }
    r
}

} // verus!

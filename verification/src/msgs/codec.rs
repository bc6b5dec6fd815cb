use vstd::prelude::*;

verus! {

/// The two bytes of a 16-bit number, most significant first.
pub open spec fn u16_bytes(x: u16) -> Seq<u8> {
    seq![(x / 256) as u8, (x % 256) as u8]
}

/// The number that two bytes stand for, most significant first.
pub open spec fn u16_of(hi: u8, lo: u8) -> u16 {
    (hi * 256 + lo) as u16
}

/// The three bytes of a 24-bit number, most significant first.
pub open spec fn u24_bytes(x: u32) -> Seq<u8>
    recommends
        x <= 0xff_ffff,
{
    seq![(x / 65536) as u8, ((x / 256) % 256) as u8, (x % 256) as u8]
}

/// The number that three bytes stand for, most significant first.
pub open spec fn u24_of(b0: u8, b1: u8, b2: u8) -> u32 {
    (b0 * 65536 + b1 * 256 + b2) as u32
}

/// The eight bytes of a 64-bit number, most significant first.
pub open spec fn u64_bytes(x: u64) -> Seq<u8> {
    seq![
        (x / 0x100_0000_0000_0000) as u8,
        ((x / 0x1_0000_0000_0000) % 256) as u8,
        ((x / 0x100_0000_0000) % 256) as u8,
        ((x / 0x1_0000_0000) % 256) as u8,
        ((x / 0x100_0000) % 256) as u8,
        ((x / 0x1_0000) % 256) as u8,
        ((x / 0x100) % 256) as u8,
        (x % 256) as u8,
    ]
}

/// Different numbers have different bytes.
pub proof fn lemma_u64_bytes_injective(x: u64, y: u64)
    requires
        u64_bytes(x) == u64_bytes(y),
    ensures
        x == y,
{
    let a = u64_bytes(x);
    let b = u64_bytes(y);
    assert(a[0] == b[0] && a[1] == b[1] && a[2] == b[2] && a[3] == b[3]);
    assert(a[4] == b[4] && a[5] == b[5] && a[6] == b[6] && a[7] == b[7]);
    lemma_u64_digits(x);
    lemma_u64_digits(y);
}

/// A 64-bit number is the sum of its bytes, each weighted by its place.
proof fn lemma_u64_digits(x: u64)
    ensures
        x == u64_bytes(x)[0] * 0x100_0000_0000_0000 + u64_bytes(x)[1] * 0x1_0000_0000_0000
            + u64_bytes(x)[2] * 0x100_0000_0000 + u64_bytes(x)[3] * 0x1_0000_0000 + u64_bytes(
            x,
        )[4] * 0x100_0000 + u64_bytes(x)[5] * 0x1_0000 + u64_bytes(x)[6] * 0x100 + u64_bytes(
            x,
        )[7],
{
    let x1 = x / 0x100;
    let x2 = x / 0x1_0000;
    let x3 = x / 0x100_0000;
    let x4 = x / 0x1_0000_0000;
    let x5 = x / 0x100_0000_0000;
    let x6 = x / 0x1_0000_0000_0000;
    let x7 = x / 0x100_0000_0000_0000;
    assert(x2 == x1 / 256);
    assert(x3 == x2 / 256);
    assert(x4 == x3 / 256);
    assert(x5 == x4 / 256);
    assert(x6 == x5 / 256);
    assert(x7 == x6 / 256);
    assert(x7 < 256);
}

/// Appends the two bytes of `x`, most significant first.
pub fn put_u16(x: u16, out: &mut Vec<u8>)
    ensures
        final(out)@ == old(out)@ + u16_bytes(x),
{
    out.push((x / 256) as u8);
    out.push((x % 256) as u8);
    assert(out@ =~= old(out)@ + u16_bytes(x));
}

/// Appends the three bytes of `x`, most significant first.
pub fn put_u24(x: u32, out: &mut Vec<u8>)
    requires
        x <= 0xff_ffff,
    ensures
        final(out)@ == old(out)@ + u24_bytes(x),
{
    out.push((x / 65536) as u8);
    out.push(((x / 256) % 256) as u8);
    out.push((x % 256) as u8);
    assert(out@ =~= old(out)@ + u24_bytes(x));
}

/// Appends the eight bytes of `x`, most significant first.
pub fn put_u64(x: u64, out: &mut Vec<u8>)
    ensures
        final(out)@ == old(out)@ + u64_bytes(x),
{
    out.push((x / 0x100_0000_0000_0000) as u8);
    out.push(((x / 0x1_0000_0000_0000) % 256) as u8);
    out.push(((x / 0x100_0000_0000) % 256) as u8);
    out.push(((x / 0x1_0000_0000) % 256) as u8);
    out.push(((x / 0x100_0000) % 256) as u8);
    out.push(((x / 0x1_0000) % 256) as u8);
    out.push(((x / 0x100) % 256) as u8);
    out.push((x % 256) as u8);
    assert(out@ =~= old(out)@ + u64_bytes(x));
}

/// The number that two bytes stand for, most significant first.
pub fn get_u16(hi: u8, lo: u8) -> (r: u16)
    ensures
        r == u16_of(hi, lo),
{
    (hi as u16) * 256 + (lo as u16)
}

/// The number that three bytes stand for, most significant first.
pub fn get_u24(b0: u8, b1: u8, b2: u8) -> (r: u32)
    ensures
        r == u24_of(b0, b1, b2),
        r <= 0xff_ffff,
{
    (b0 as u32) * 65536 + (b1 as u32) * 256 + (b2 as u32)
}

/// Appends a copy of `src`.
pub fn put_bytes(src: &[u8], out: &mut Vec<u8>)
    ensures
        final(out)@ == old(out)@ + src@,
{
    out.extend_from_slice(src);
    assert(out@ =~= old(out)@ + src@);
}

} // verus!

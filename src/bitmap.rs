//! Serialisation of a BGR pixel buffer into a 24-bit bitmap file.

use byteorder::ByteOrder;
use vstd::prelude::*;

verus! {

/// Length of the file header plus the info header.
pub const HEADER_LEN: u32 = 54;

/// Largest value of a little-endian `u32` field.
pub const U32_LIMIT: usize = 0xffff_ffff;

/// The four bytes of `n`, least significant first.
pub open spec fn le32(n: nat) -> Seq<u8> {
    seq![
        (n % 256) as u8,
        ((n / 256) % 256) as u8,
        ((n / 65536) % 256) as u8,
        ((n / 16777216) % 256) as u8,
    ]
}

/// The two bytes of `n`, least significant first.
pub open spec fn le16(n: nat) -> Seq<u8> {
    seq![(n % 256) as u8, ((n / 256) % 256) as u8]
}

/// The 54 header bytes of a bitmap of the given size whose pixel data
/// holds `data_len` bytes.
pub open spec fn bitmap_header(width: nat, height: nat, data_len: nat) -> Seq<u8> {
    seq![0x42u8, 0x4du8]
        + le32(54 + data_len)
        + le32(0)
        + le32(54)
        + le32(40)
        + le32(width)
        + le32(height)
        + le16(1)
        + le16(24)
        + le32(0)
        + le32(data_len)
        + le32(0)
        + le32(0)
        + le32(0)
        + le32(0)
}

/// Whether every size field of the header fits in a `u32`.
pub open spec fn fits_bitmap(width: nat, height: nat, data_len: nat) -> bool {
    width <= U32_LIMIT && height <= U32_LIMIT && 54 + data_len <= U32_LIMIT
}

/// The whole file: header, then the pixel bytes as given.
pub open spec fn bitmap_file(width: nat, height: nat, pixels: Seq<u8>) -> Seq<u8> {
    bitmap_header(width, height, pixels.len()) + pixels
}

/// A bitmap file is 54 header bytes followed by the pixel bytes, and its
/// file-size field, bytes 2 to 5, holds 54 plus the number of pixel bytes
/// in little-endian order.
pub proof fn lemma_bitmap_layout(width: nat, height: nat, pixels: Seq<u8>)
    ensures
        bitmap_file(width, height, pixels).len() == 54 + pixels.len(),
        bitmap_file(width, height, pixels).subrange(0, 2) == seq![0x42u8, 0x4du8],
        bitmap_file(width, height, pixels).subrange(2, 6) == le32(54 + pixels.len()),
        bitmap_file(width, height, pixels).subrange(54, 54 + pixels.len() as int) == pixels,
{
    let f = bitmap_file(width, height, pixels);
    assert(f.subrange(0, 2) =~= seq![0x42u8, 0x4du8]);
    assert(f.subrange(2, 6) =~= le32(54 + pixels.len()));
    assert(f.subrange(54, 54 + pixels.len() as int) =~= pixels);
}

/// Why a buffer could not be encoded.
#[derive(Debug, Clone, Copy, PartialEq, Eq, Structural)]
pub enum BitmapError {
    /// The width, the height or the file size does not fit a `u32` field.
    TooLarge,
}

/// Relies on byteorder's `LittleEndian::write_u32`: writes the four bytes of
/// `n` into the buffer, least significant first.
#[verifier::external_body]
fn le_u32_bytes(n: u32) -> (r: [u8; 4])
    ensures
        r@ == le32(n as nat),
{
    let mut buf = [0u8; 4];
    byteorder::LittleEndian::write_u32(&mut buf, n);
    buf
}

/// Relies on byteorder's `LittleEndian::write_u16`: writes the two bytes of
/// `n` into the buffer, least significant first.
#[verifier::external_body]
fn le_u16_bytes(n: u16) -> (r: [u8; 2])
    ensures
        r@ == le16(n as nat),
{
    let mut buf = [0u8; 2];
    byteorder::LittleEndian::write_u16(&mut buf, n);
    buf
}

fn push_u32(out: &mut Vec<u8>, n: u32)
    ensures
        final(out)@ == old(out)@ + le32(n as nat),
{
    let b = le_u32_bytes(n);
    out.push(b[0]);
    out.push(b[1]);
    out.push(b[2]);
    out.push(b[3]);
    assert(final(out)@ =~= old(out)@ + le32(n as nat));
}

fn push_u16(out: &mut Vec<u8>, n: u16)
    ensures
        final(out)@ == old(out)@ + le16(n as nat),
{
    let b = le_u16_bytes(n);
    out.push(b[0]);
    out.push(b[1]);
    assert(final(out)@ =~= old(out)@ + le16(n as nat));
}

/// Appends every byte of `bytes` to `out`, in order.
pub fn push_all(out: &mut Vec<u8>, bytes: &[u8])
    ensures
        final(out)@ == old(out)@ + bytes@,
{
    let ghost start = out@;
    let mut i: usize = 0;
    while i < bytes.len()
        invariant
            i <= bytes@.len(),
            out@ == start + bytes@.subrange(0, i as int),
        decreases bytes@.len() - i,
    {
        out.push(bytes[i]);
        assert(bytes@.subrange(0, i as int + 1) =~= bytes@.subrange(0, i as int).push(bytes@[i as int]));
        i = i + 1;
    }
    assert(bytes@.subrange(0, i as int) =~= bytes@);
}

/// The header of a bitmap of `width` by `height` pixels whose pixel data
/// holds `data_len` bytes.
pub fn encode_header(width: u32, height: u32, data_len: u32) -> (r: Vec<u8>)
    requires
        54 + data_len <= U32_LIMIT,
    ensures
        r@ == bitmap_header(width as nat, height as nat, data_len as nat),
{
    let mut out: Vec<u8> = Vec::new();
    out.push(0x42u8);
    out.push(0x4du8);
    push_u32(&mut out, HEADER_LEN + data_len);
    push_u32(&mut out, 0);
    push_u32(&mut out, HEADER_LEN);
    push_u32(&mut out, 40);
    push_u32(&mut out, width);
    push_u32(&mut out, height);
    push_u16(&mut out, 1);
    push_u16(&mut out, 24);
    push_u32(&mut out, 0);
    push_u32(&mut out, data_len);
    push_u32(&mut out, 0);
    push_u32(&mut out, 0);
    push_u32(&mut out, 0);
    push_u32(&mut out, 0);
    assert(out@ =~= bitmap_header(width as nat, height as nat, data_len as nat));
    out
}

/// The bytes of a bitmap file holding `pixels`: the header, whose file-size
/// field is 54 plus the number of pixel bytes, then the pixel bytes
/// unchanged. Fails exactly when a size field does not fit a `u32`.
pub fn encode_bitmap(width: usize, height: usize, pixels: &[u8]) -> (r: Result<Vec<u8>, BitmapError>)
    ensures
        match r {
            Ok(bytes) => fits_bitmap(width as nat, height as nat, pixels@.len())
                && bytes@ == bitmap_file(width as nat, height as nat, pixels@),
            Err(e) => !fits_bitmap(width as nat, height as nat, pixels@.len())
                && e == BitmapError::TooLarge,
        },
{
    if width > U32_LIMIT || height > U32_LIMIT || pixels.len() > U32_LIMIT - 54 {
        return Err(BitmapError::TooLarge);
    }
    let mut out = encode_header(width as u32, height as u32, pixels.len() as u32);
    push_all(&mut out, pixels);
    Ok(out)
}

} // verus!

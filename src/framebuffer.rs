//! The framebuffer: a flat BGR byte buffer laid out row by row, filled one
//! whole row at a time so that rows never share a byte.

use vstd::arithmetic::div_mod::{lemma_fundamental_div_mod, lemma_fundamental_div_mod_converse};
use vstd::prelude::*;

verus! {

/// Bytes per pixel: blue, green, red.
pub const BYTES_PER_PIXEL: usize = 3;

/// One pixel as the bytes the buffer stores.
#[derive(Debug, Clone, Copy, PartialEq, Eq, Structural)]
pub struct Pixel {
    pub blue: u8,
    pub green: u8,
    pub red: u8,
}

/// Number of bytes of a `width` by `height` buffer.
pub open spec fn frame_len(width: nat, height: nat) -> nat {
    width * height * 3
}

/// Offset of the first byte of pixel (`row`, `col`).
pub open spec fn pixel_offset(width: nat, row: nat, col: nat) -> int {
    ((row * width + col) * 3) as int
}

/// Bytes `bytes` hold pixel `p` at (`row`, `col`), blue first.
pub open spec fn holds_pixel(bytes: Seq<u8>, width: nat, row: nat, col: nat, p: Pixel) -> bool {
    let o = pixel_offset(width, row, col);
    &&& bytes[o] == p.blue
    &&& bytes[o + 1] == p.green
    &&& bytes[o + 2] == p.red
}

/// Byte `i` belongs to row `row` of a buffer `width` pixels wide.
pub open spec fn in_row(width: nat, row: nat, i: int) -> bool {
    row * width * 3 <= i < (row + 1) * width * 3
}

/// Why a framebuffer could not be built.
#[derive(Debug, Clone, Copy, PartialEq, Eq, Structural)]
pub enum FrameError {
    /// `width * height * 3` does not fit a `usize`.
    TooLarge,
    /// The number of rows differs from the height.
    RowCount,
    /// Some row's number of pixels differs from the width.
    RowWidth,
}

/// A pixel of a row that lies before row `r` ends before row `r` starts,
/// and a pixel of the image lies inside the buffer.
pub proof fn lemma_pixel_bounds(width: nat, height: nat, row: nat, col: nat, r: nat)
    requires
        col < width,
        row < r,
    ensures
        pixel_offset(width, row, col) + 3 <= r * width * 3,
        row < height ==> pixel_offset(width, row, col) + 3 <= frame_len(width, height),
        in_row(width, row, pixel_offset(width, row, col)),
        in_row(width, row, pixel_offset(width, row, col) + 2),
{
    assert(row * width + col + 1 <= r * width) by (nonlinear_arith)
        requires col < width, row < r;
    assert(row < height ==> row * width + col + 1 <= width * height) by (nonlinear_arith)
        requires col < width;
    assert((row + 1) * width == row * width + width) by (nonlinear_arith);
}

/// Every byte of a `width` by `height` buffer belongs to exactly one pixel
/// of the image, so tasks that own distinct pixels never share a byte:
/// byte `i` is byte `i % 3` of pixel (`i / 3 / width`, `i / 3 % width`), and
/// any pixel of the image and byte number below 3 that reach `i` are those.
pub proof fn lemma_bytes_partition(width: nat, height: nat, i: int, row: nat, col: nat, k: int)
    requires
        0 <= i < frame_len(width, height),
    ensures
        i / 3 / (width as int) < height,
        i / 3 % (width as int) < width,
        pixel_offset(width, (i / 3 / (width as int)) as nat, (i / 3 % (width as int)) as nat) + i % 3 == i,
        row < height && col < width && 0 <= k < 3 && pixel_offset(width, row, col) + k == i
            ==> row == i / 3 / (width as int) && col == i / 3 % (width as int) && k == i % 3,
{
    assert(width > 0) by (nonlinear_arith)
        requires i < width * height * 3, 0 <= i;
    let q = i / 3;
    lemma_fundamental_div_mod(i, 3);
    lemma_fundamental_div_mod(q, width as int);
    let r = q / width as int;
    let c = q % width as int;
    assert(0 <= c < width);
    assert(0 <= q < width * height) by (nonlinear_arith)
        requires i == 3 * q + i % 3, 0 <= i % 3 < 3, i < width * height * 3, 0 <= i;
    assert(0 <= r < height) by (nonlinear_arith)
        requires q == width * r + c, 0 <= c < width, 0 <= q < width * height, width > 0;
    assert(pixel_offset(width, r as nat, c as nat) + i % 3 == i) by (nonlinear_arith)
        requires q == width * r + c, i == 3 * q + i % 3, r >= 0, c >= 0;
    if row < height && col < width && 0 <= k < 3 && pixel_offset(width, row, col) + k == i {
        let p = row * width + col;
        assert(i == p * 3 + k);
        lemma_fundamental_div_mod_converse(i, 3, p as int, k);
        lemma_fundamental_div_mod_converse(q, width as int, row as int, col as int);
    }
}

/// Offset of the first byte of pixel (`row`, `col`) in a buffer `width`
/// pixels wide and `height` pixels high.
pub fn pixel_index(width: usize, height: usize, row: usize, col: usize) -> (r: usize)
    requires
        row < height,
        col < width,
        frame_len(width as nat, height as nat) <= usize::MAX,
    ensures
        r == pixel_offset(width as nat, row as nat, col as nat),
        r + 3 <= frame_len(width as nat, height as nat),
{
    proof {
        lemma_pixel_bounds(width as nat, height as nat, row as nat, col as nat, row as nat + 1);
        assert(row * width <= width * height) by (nonlinear_arith)
            requires row < height;
    }
    (row * width + col) * BYTES_PER_PIXEL
}

/// A `width` by `height` image as BGR bytes, row after row.
pub struct Framebuffer {
    width: usize,
    height: usize,
    bytes: Vec<u8>,
}

impl View for Framebuffer {
    type V = Seq<u8>;

    closed spec fn view(&self) -> Seq<u8> {
        self.bytes@
    }
}

impl Framebuffer {
    pub closed spec fn spec_width(&self) -> nat {
        self.width as nat
    }

    pub closed spec fn spec_height(&self) -> nat {
        self.height as nat
    }

    /// The buffer holds exactly three bytes per pixel.
    pub open spec fn wf(&self) -> bool {
        &&& self@.len() == frame_len(self.spec_width(), self.spec_height())
        &&& frame_len(self.spec_width(), self.spec_height()) <= usize::MAX
    }

    /// An all-black buffer of `width` by `height` pixels; fails exactly when
    /// its length would not fit a `usize`.
    pub fn new(width: usize, height: usize) -> (r: Result<Framebuffer, FrameError>)
        ensures
            match r {
                Ok(fb) => fb.wf() && fb.spec_width() == width && fb.spec_height() == height
                    && fb@ == Seq::new(frame_len(width as nat, height as nat), |i: int| 0u8),
                Err(e) => frame_len(width as nat, height as nat) > usize::MAX
                    && e == FrameError::TooLarge,
            },
    {
        let len = match width.checked_mul(height) {
            Some(n) => match n.checked_mul(BYTES_PER_PIXEL) {
                Some(m) => m,
                None => return Err(FrameError::TooLarge),
            },
            None => {
                proof {
                    assert(width * height * 3 >= width * height) by (nonlinear_arith);
                }
                return Err(FrameError::TooLarge);
            },
        };
        let bytes = vec![0u8; len];
        proof {
            assert(bytes@ =~= Seq::new(frame_len(width as nat, height as nat), |i: int| 0u8));
        }
        Ok(Framebuffer { width, height, bytes })
    }

    pub fn width(&self) -> (r: usize)
        ensures
            r == self.spec_width(),
    {
        self.width
    }

    pub fn height(&self) -> (r: usize)
        ensures
            r == self.spec_height(),
    {
        self.height
    }

    /// The bytes, row after row, blue-green-red per pixel.
    pub fn as_bytes(&self) -> (r: &[u8])
        ensures
            r@ == self@,
    {
        self.bytes.as_slice()
    }

    /// The pixel at (`row`, `col`).
    pub fn pixel(&self, row: usize, col: usize) -> (r: Pixel)
        requires
            self.wf(),
            row < self.spec_height(),
            col < self.spec_width(),
        ensures
            holds_pixel(self@, self.spec_width(), row as nat, col as nat, r),
    {
        let i = pixel_index(self.width, self.height, row, col);
        Pixel { blue: self.bytes[i], green: self.bytes[i + 1], red: self.bytes[i + 2] }
    }

    /// Writes pixel `p` at (`row`, `col`) and leaves every other byte as it was.
    pub fn set_pixel(&mut self, row: usize, col: usize, p: Pixel)
        requires
            old(self).wf(),
            row < old(self).spec_height(),
            col < old(self).spec_width(),
        ensures
            final(self).wf(),
            final(self).spec_width() == old(self).spec_width(),
            final(self).spec_height() == old(self).spec_height(),
            final(self)@ == old(self)@.update(
                pixel_offset(old(self).spec_width(), row as nat, col as nat),
                p.blue,
            ).update(
                pixel_offset(old(self).spec_width(), row as nat, col as nat) + 1,
                p.green,
            ).update(pixel_offset(old(self).spec_width(), row as nat, col as nat) + 2, p.red),
    {
        let i = pixel_index(self.width, self.height, row, col);
        self.bytes.set(i, p.blue);
        self.bytes.set(i + 1, p.green);
        self.bytes.set(i + 2, p.red);
    }

    /// Writes a whole row: its bytes come from `pixels`, in order, and no
    /// byte outside the row changes.
    pub fn write_row(&mut self, row: usize, pixels: &[Pixel])
        requires
            old(self).wf(),
            row < old(self).spec_height(),
            pixels@.len() == old(self).spec_width(),
        ensures
            final(self).wf(),
            final(self).spec_width() == old(self).spec_width(),
            final(self).spec_height() == old(self).spec_height(),
            forall|c: int|
                0 <= c < pixels@.len() ==> holds_pixel(
                    final(self)@,
                    final(self).spec_width(),
                    row as nat,
                    c as nat,
                    #[trigger] pixels@[c],
                ),
            forall|i: int|
                0 <= i < old(self)@.len() && !in_row(old(self).spec_width(), row as nat, i)
                    ==> #[trigger] final(self)@[i] == old(self)@[i],
    {
        let ghost start = self@;
        let ghost w = self.spec_width();
        let mut c: usize = 0;
        while c < pixels.len()
            invariant
                self.wf(),
                self.spec_width() == w,
                self.spec_height() == old(self).spec_height(),
                w == pixels@.len(),
                row < self.spec_height(),
                c <= w,
                start.len() == self@.len(),
                forall|k: int|
                    0 <= k < c ==> holds_pixel(self@, w, row as nat, k as nat, #[trigger] pixels@[k]),
                forall|i: int|
                    0 <= i < start.len() && (i < pixel_offset(w, row as nat, 0) || i
                        >= pixel_offset(w, row as nat, c as nat)) ==> #[trigger] self@[i]
                        == start[i],
            decreases w - c,
        {
            proof {
                lemma_pixel_bounds(w, self.spec_height(), row as nat, c as nat, row as nat + 1);
            }
            self.set_pixel(row, c, pixels[c]);
            c = c + 1;
        }
        proof {
            assert(pixel_offset(w, row as nat, 0) == row * w * 3);
            assert(pixel_offset(w, row as nat, w) == (row + 1) * w * 3) by (nonlinear_arith);
        }
    }

    /// The buffer whose row `r` holds `rows[r]`. Fails with `TooLarge` when
    /// its length would not fit a `usize`, else with `RowCount` when the
    /// number of rows is not `height`, else with `RowWidth` when a row does
    /// not hold `width` pixels.
    pub fn from_rows(width: usize, height: usize, rows: &Vec<Vec<Pixel>>) -> (r: Result<Framebuffer, FrameError>)
        ensures
            match r {
                Ok(fb) => {
                    &&& frame_len(width as nat, height as nat) <= usize::MAX
                    &&& rows@.len() == height
                    &&& forall|i: int| 0 <= i < rows@.len() ==> (#[trigger] rows@[i])@.len() == width
                    &&& fb.wf()
                    &&& fb.spec_width() == width
                    &&& fb.spec_height() == height
                    &&& fb@.len() == frame_len(width as nat, height as nat)
                    &&& forall|row: int, col: int|
                        0 <= row < height && 0 <= col < width ==> holds_pixel(
                            fb@,
                            width as nat,
                            row as nat,
                            col as nat,
                            #[trigger] rows@[row]@[col],
                        )
                },
                Err(FrameError::TooLarge) => frame_len(width as nat, height as nat) > usize::MAX,
                Err(FrameError::RowCount) => frame_len(width as nat, height as nat) <= usize::MAX
                    && rows@.len() != height,
                Err(FrameError::RowWidth) => frame_len(width as nat, height as nat) <= usize::MAX
                    && rows@.len() == height
                    && exists|i: int| 0 <= i < rows@.len() && (#[trigger] rows@[i])@.len() != width,
            },
    {
        let mut fb = match Framebuffer::new(width, height) {
            Ok(fb) => fb,
            Err(e) => return Err(e),
        };
        if rows.len() != height {
            return Err(FrameError::RowCount);
        }
        let mut k: usize = 0;
        while k < rows.len()
            invariant
                k <= rows@.len(),
                rows@.len() == height,
                frame_len(width as nat, height as nat) <= usize::MAX,
                forall|i: int| 0 <= i < k ==> (#[trigger] rows@[i])@.len() == width,
            decreases rows@.len() - k,
        {
            if rows[k].len() != width {
                assert((rows@[k as int])@.len() != width);
                return Err(FrameError::RowWidth);
            }
            k = k + 1;
        }
        let mut r: usize = 0;
        while r < height
            invariant
                fb.wf(),
                fb.spec_width() == width,
                fb.spec_height() == height,
                rows@.len() == height,
                forall|i: int| 0 <= i < rows@.len() ==> (#[trigger] rows@[i])@.len() == width,
                r <= height,
                forall|row: int, col: int|
                    0 <= row < r && 0 <= col < width ==> holds_pixel(
                        fb@,
                        width as nat,
                        row as nat,
                        col as nat,
                        #[trigger] rows@[row]@[col],
                    ),
            decreases height - r,
        {
            let ghost before = fb@;
            fb.write_row(r, rows[r].as_slice());
            proof {
                assert forall|row: int, col: int|
                    0 <= row < r + 1 && 0 <= col < width implies holds_pixel(
                        fb@,
                        width as nat,
                        row as nat,
                        col as nat,
                        #[trigger] rows@[row]@[col],
                    ) by {
                    if row < r {
                        lemma_pixel_bounds(width as nat, height as nat, row as nat, col as nat, r as nat);
                        let o = pixel_offset(width as nat, row as nat, col as nat);
                        assert(!in_row(width as nat, r as nat, o));
                        assert(!in_row(width as nat, r as nat, o + 1));
                        assert(!in_row(width as nat, r as nat, o + 2));
                        lemma_pixel_bounds(width as nat, height as nat, row as nat, col as nat, row as nat + 1);
                        assert(fb@[o] == before[o]);
                        assert(fb@[o + 1] == before[o + 1]);
                        assert(fb@[o + 2] == before[o + 2]);
                    } else {
                        assert(rows@[row]@[col] == rows@[r as int]@[col]);
                    }
                }
            }
            r = r + 1;
        }
        Ok(fb)
    }
}

} // verus!

//! The framebuffer of the panel: a window of rows of the screen kept in `Rgb565`, big endian.
//!
//! The buffer holds `ROWS` rows rather than all `H` of them, because a whole screen does not fit
//! in RAM next to the stack. The rows it holds are the window, which [`FrameBuffer::set_window`]
//! moves; drawing keeps taking coordinates of the whole screen and drops whatever falls outside
//! the window, so the caller draws the same picture whichever rows are held and only decides how
//! many passes to make.
use vstd::prelude::*;

use crate::graphics::{Rect, rect_contains, rect_intersection, rgb565_to_be_bytes};

verus! {

/// Byte `i` of the storage of `color`, big endian: the high byte first.
pub open spec fn color_byte(color: u16, i: int) -> u8 {
    if i % 2 == 0 {
        (color >> 8u16) as u8
    } else {
        color as u8
    }
}

/// The rows of the display the buffer stands for, as `(top, height)`.
pub open spec fn spec_window_rows(window_top: int, h: int, rows: int) -> (int, int) {
    let top = if window_top <= h {
        window_top
    } else {
        h
    };
    let height = if rows <= h - top {
        rows
    } else {
        h - top
    };
    (top, height)
}

/// What [`FrameBuffer::flush`] hands to the panel: the address window and how many bytes from
/// the start of the buffer carry it.
#[derive(Clone, Copy, PartialEq, Eq, Debug)]
pub struct FlushBand {
    /// First column, always 0: a band spans the whole width.
    pub x: u16,
    /// First row of the display.
    pub y: u16,
    /// Width (px) of the band.
    pub width: u16,
    /// Number of rows.
    pub rows: u16,
    /// Number of bytes of the buffer, from its start, that carry the band.
    pub bytes: usize,
}

/// A framebuffer that holds `ROWS` rows of a `W` by `H` display.
pub struct FrameBuffer<const W: usize, const H: usize, const ROWS: usize> {
    /// The pixels of the window, row major, two bytes each.
    buffer: Vec<u8>,
    /// Topmost row of the display the buffer currently holds.
    window_top: usize,
}

impl<const W: usize, const H: usize, const ROWS: usize> FrameBuffer<W, H, ROWS> {
    /// Whether the dimensions are those of a panel (at most 65535 px either way) and the buffer
    /// is exactly `W * ROWS * 2` bytes long.
    pub open spec fn dims_ok() -> bool {
        &&& 0 < W <= 0xFFFF
        &&& H <= 0xFFFF
        &&& ROWS <= 0xFFFF
        &&& W * ROWS * 2 <= usize::MAX
    }

    /// The bytes of the buffer.
    pub closed spec fn bytes(&self) -> Seq<u8> {
        self.buffer@
    }

    /// Topmost row of the display the buffer stands for.
    pub closed spec fn top(&self) -> int {
        self.window_top as int
    }

    /// Whether the buffer is exactly `W * ROWS * 2` bytes long.
    pub closed spec fn wf(&self) -> bool {
        &&& Self::dims_ok()
        &&& self.buffer@.len() == W * ROWS * 2
    }

    /// What a well-formed framebuffer holds: the dimensions are those of a panel and the buffer
    /// is exactly `W * ROWS * 2` bytes long.
    pub proof fn lemma_wf(&self)
        requires
            self.wf(),
        ensures
            Self::dims_ok(),
            self.bytes().len() == W * ROWS * 2,
    {
    }

    /// The rows of the display the window holds, cut off at the bottom edge: `(top, height)`.
    pub open spec fn window_rows(&self) -> (int, int) {
        spec_window_rows(self.top(), H as int, ROWS as int)
    }

    /// Whether byte `i` of the buffer stands for a pixel of the display that `area` covers: it
    /// lies within the rows of the window, and the pixel it belongs to is in `area`.
    pub open spec fn byte_in(&self, area: Rect, i: int) -> bool {
        let pixel = i / 2;
        let row = pixel / (W as int);
        let col = pixel % (W as int);
        &&& 0 <= i < W * ROWS * 2
        &&& row < self.window_rows().1
        &&& area.covers(col, self.window_rows().0 + row)
    }

    /// Wraps `buffer`, which has to be exactly `W * ROWS * 2` bytes long. The window starts at
    /// the top of the display.
    pub fn new(buffer: Vec<u8>) -> (r: Self)
        requires
            Self::dims_ok(),
            buffer@.len() == W * ROWS * 2,
        ensures
            r.wf(),
            r.bytes() == buffer@,
            r.top() == 0,
    {
        FrameBuffer { buffer, window_top: 0 }
    }

    /// The bytes of the buffer.
    pub fn buffer(&self) -> (r: &[u8])
        ensures
            r@ == self.bytes(),
    {
        self.buffer.as_slice()
    }

    /// Moves the window so that the buffer stands for the `ROWS` rows of the display below
    /// `top`. The buffer keeps whatever it held.
    pub fn set_window(&mut self, top: usize)
        ensures
            final(self).top() == top,
            final(self).bytes() == old(self).bytes(),
            old(self).wf() ==> final(self).wf(),
    {
        self.window_top = top;
    }

    /// The rows of the display the buffer currently holds, as an area in display coordinates,
    /// cut off at the bottom edge.
    pub fn window(&self) -> (r: Rect)
        requires
            self.wf(),
        ensures
            r.x == 0,
            r.y == self.window_rows().0,
            r.width == W,
            r.height == self.window_rows().1,
            r.fits(),
    {
        let top = if self.window_top <= H {
            self.window_top
        } else {
            H
        };
        let height = if ROWS <= H - top {
            ROWS
        } else {
            H - top
        };
        Rect { x: 0, y: top as i32, width: W as u32, height: height as u32 }
    }

    /// The first `height` rows of the window as what goes to the panel, or `None` when that is no
    /// row at all. A band reaching past the bottom edge or past the window is cut off there.
    pub fn flush(&self, height: usize) -> (r: Option<FlushBand>)
        requires
            self.wf(),
        ensures
            ({
                let (top, rows) = self.window_rows();
                let n = if height <= rows {
                    height as int
                } else {
                    rows
                };
                &&& n == 0 ==> r.is_none()
                &&& n > 0 ==> r == Some(
                    FlushBand { x: 0, y: top as u16, width: W as u16, rows: n as u16, bytes: (n * W * 2) as usize },
                )
            }),
    {
        let top = if self.window_top <= H {
            self.window_top
        } else {
            H
        };
        let mut height = if height <= ROWS {
            height
        } else {
            ROWS
        };
        if height > H - top {
            height = H - top;
        }
        if height == 0 {
            return None;
        }
        assert(height * W * 2 <= W * ROWS * 2 && height * W <= W * ROWS) by (nonlinear_arith)
            requires
                height <= ROWS,
        ;
        Some(
            FlushBand {
                x: 0,
                y: top as u16,
                width: W as u16,
                rows: height as u16,
                bytes: height * W * 2,
            },
        )
    }
}

/// Byte `(r * W + c) * 2 + k` of a row major buffer belongs to row `r` and column `c`.
proof fn lemma_index(w: int, r: int, c: int, k: int)
    requires
        w > 0,
        r >= 0,
        0 <= c < w,
        0 <= k < 2,
    ensures
        ((r * w + c) * 2 + k) / 2 == r * w + c,
        ((r * w + c) * 2 + k) % 2 == k,
        (r * w + c) / w == r,
        (r * w + c) % w == c,
{
    assert(((r * w + c) * 2 + k) / 2 == r * w + c) by (nonlinear_arith)
        requires
            0 <= k < 2,
    ;
    assert(((r * w + c) * 2 + k) % 2 == k) by (nonlinear_arith)
        requires
            0 <= k < 2,
    ;
    assert((r * w + c) / w == r) by (nonlinear_arith)
        requires
            w > 0,
            r >= 0,
            0 <= c < w,
    ;
    assert((r * w + c) % w == c) by (nonlinear_arith)
        requires
            w > 0,
            r >= 0,
            0 <= c < w,
    ;
}

/// Every byte index below `rows * w * 2` is `(r * w + c) * 2 + k` for a row below `rows`.
proof fn lemma_index_split(w: int, rows: int, i: int)
    requires
        w > 0,
        rows >= 0,
        0 <= i < w * rows * 2,
    ensures
        (i / 2) / w < rows,
        i == (((i / 2) / w) * w + (i / 2) % w) * 2 + i % 2,
        0 <= (i / 2) % w < w,
        0 <= (i / 2) / w,
{
    assert((i / 2) / w < rows && i == (((i / 2) / w) * w + (i / 2) % w) * 2 + i % 2 && 0 <= (i
        / 2) % w < w && 0 <= (i / 2) / w) by (nonlinear_arith)
        requires
            w > 0,
            rows >= 0,
            0 <= i < w * rows * 2,
    ;
}

impl<const W: usize, const H: usize, const ROWS: usize> FrameBuffer<W, H, ROWS> {
    /// Draws one pixel, dropping it when it falls outside the window.
    pub fn draw_pixel(&mut self, x: i32, y: i32, color: u16)
        requires
            old(self).wf(),
        ensures
            final(self).wf(),
            final(self).bytes().len() == old(self).bytes().len(),
            final(self).top() == old(self).top(),
            forall|i: int|
                0 <= i < final(self).bytes().len() ==> #[trigger] final(self).bytes()[i] == (if old(
                    self,
                ).byte_in(Rect { x, y, width: 1, height: 1 }, i) {
                    color_byte(color, i)
                } else {
                    old(self).bytes()[i]
                }),
    {
        let window = self.window();
        if rect_contains(window, x, y) {
            let bytes = rgb565_to_be_bytes(color);
            let row = (y - window.y) as usize;
            let col = x as usize;
            proof {
                assert(row < ROWS);
                lemma_index(W as int, row as int, col as int, 0);
                lemma_index(W as int, row as int, col as int, 1);
                assert((row * W + col) * 2 + 1 < W * ROWS * 2 && row * W <= W * ROWS) by (nonlinear_arith)
                    requires
                        row < ROWS,
                        col < W,
                ;
            }
            let index = (row * W + col) * 2;
            self.buffer.set(index, bytes[0]);
            self.buffer.set(index + 1, bytes[1]);
            proof {
                let area = Rect { x, y, width: 1, height: 1 };
                assert forall|i: int| 0 <= i < self.bytes().len() implies #[trigger] self.bytes()[i]
                    == (if old(self).byte_in(area, i) {
                    color_byte(color, i)
                } else {
                    old(self).bytes()[i]
                }) by {
                    lemma_index_split(W as int, ROWS as int, i);
                    let p = i / 2;
                    let r = p / (W as int);
                    let c = p % (W as int);
                    if old(self).byte_in(area, i) {
                        assert(r == row && c == col);
                        lemma_index(W as int, r, c, i % 2);
                    } else if i == index || i == index + 1 {
                        assert(r == row && c == col);
                    }
                }
            }
        } else {
            proof {
                let area = Rect { x, y, width: 1, height: 1 };
                assert forall|i: int| 0 <= i < self.bytes().len() implies !old(self).byte_in(
                    area,
                    i,
                ) by {
                    lemma_index_split(W as int, ROWS as int, i);
                }
            }
        }
    }

    /// Fills `area`, clipped to the window, one row at a time.
    pub fn fill_solid(&mut self, area: Rect, color: u16)
        requires
            old(self).wf(),
            area.fits(),
        ensures
            final(self).wf(),
            final(self).bytes().len() == old(self).bytes().len(),
            final(self).top() == old(self).top(),
            forall|i: int|
                0 <= i < final(self).bytes().len() ==> #[trigger] final(self).bytes()[i] == (if old(
                    self,
                ).byte_in(area, i) {
                    color_byte(color, i)
                } else {
                    old(self).bytes()[i]
                }),
    {
        let window = self.window();
        let drawable = rect_intersection(area, window);
        if drawable.width == 0 || drawable.height == 0 {
            proof {
                assert forall|i: int| 0 <= i < self.bytes().len() implies !old(self).byte_in(
                    area,
                    i,
                ) by {
                    lemma_index_split(W as int, ROWS as int, i);
                    let p = i / 2;
                    let r = p / (W as int);
                    let c = p % (W as int);
                    if old(self).byte_in(area, i) {
                        assert(window.covers(c, window.y + r));
                    }
                }
            }
            return ;
        }
        let bytes = rgb565_to_be_bytes(color);
        let left = drawable.x as usize;
        let width = drawable.width as usize;
        let first = (drawable.y - window.y) as usize;
        let height = drawable.height as usize;
        assert(first + height <= ROWS);
        assert(left + width <= W);
        let ghost start = self.buffer@;
        let mut row: usize = 0;
        while row < height
            invariant
                self.wf(),
                self.top() == old(self).top(),
                start == old(self).bytes(),
                0 < W <= 0xFFFF,
                ROWS <= 0xFFFF,
                first + height <= ROWS,
                left + width <= W,
                bytes[0] == (color >> 8u16) as u8,
                bytes[1] == color as u8,
                row <= height,
                forall|i: int|
                    0 <= i < self.bytes().len() ==> #[trigger] self.bytes()[i] == (if first <= (i
                        / 2) / (W as int) < first + row && left <= (i / 2) % (W as int) < left
                        + width {
                        color_byte(color, i)
                    } else {
                        start[i]
                    }),
            decreases height - row,
        {
            let mut col: usize = 0;
            while col < width
                invariant
                    self.wf(),
                    self.top() == old(self).top(),
                    0 < W <= 0xFFFF,
                    ROWS <= 0xFFFF,
                    first + height <= ROWS,
                    left + width <= W,
                    bytes[0] == (color >> 8u16) as u8,
                    bytes[1] == color as u8,
                    row < height,
                    col <= width,
                    forall|i: int|
                        0 <= i < self.bytes().len() ==> #[trigger] self.bytes()[i] == (if (first <= (
                        i / 2) / (W as int) < first + row && left <= (i / 2) % (W as int) < left
                            + width) || ((i / 2) / (W as int) == first + row && left <= (i / 2) % (
                        W as int) < left + col) {
                            color_byte(color, i)
                        } else {
                            start[i]
                        }),
                decreases width - col,
            {
                let r = first + row;
                let c = left + col;
                proof {
                    lemma_index(W as int, r as int, c as int, 0);
                    lemma_index(W as int, r as int, c as int, 1);
                    assert((r * W + c) * 2 + 1 < W * ROWS * 2 && r * W <= W * ROWS) by (nonlinear_arith)
                        requires
                            r < ROWS,
                            c < W,
                    ;
                }
                let index = (r * W + c) * 2;
                let ghost before = self.bytes();
                self.buffer.set(index, bytes[0]);
                self.buffer.set(index + 1, bytes[1]);
                proof {
                    assert(self.buffer@ == before.update(index as int, bytes[0]).update(
                        index + 1,
                        bytes[1],
                    ));
                    assert forall|i: int| 0 <= i < self.bytes().len() implies #[trigger] self.bytes()[i]
                        == (if (first <= (i / 2) / (W as int) < first + row && left <= (i / 2) % (
                    W as int) < left + width) || ((i / 2) / (W as int) == first + row && left <= (i
                        / 2) % (W as int) < left + col + 1) {
                        color_byte(color, i)
                    } else {
                        start[i]
                    }) by {
                        lemma_index_split(W as int, ROWS as int, i);
                        let p = i / 2;
                        if i == index || i == index + 1 {
                            lemma_index(W as int, r as int, c as int, i - index);
                        } else if p / (W as int) == r && p % (W as int) == c {
                            assert(i == (r * W + c) * 2 + i % 2);
                            assert(false);
                        }
                    }
                }
                col = col + 1;
            }
            row = row + 1;
        }
        proof {
            assert forall|i: int| 0 <= i < self.bytes().len() implies #[trigger] self.bytes()[i] == (
            if old(self).byte_in(area, i) {
                color_byte(color, i)
            } else {
                old(self).bytes()[i]
            }) by {
                lemma_index_split(W as int, ROWS as int, i);
                let p = i / 2;
                let r = p / (W as int);
                let c = p % (W as int);
                crate::graphics::lemma_intersection_covers(area, window, drawable, c, window.y + r);
            }
        }
    }

    /// Fills the window in one pass: every byte of the buffer, whichever rows it stands for.
    pub fn clear(&mut self, color: u16)
        requires
            old(self).wf(),
        ensures
            final(self).wf(),
            final(self).bytes().len() == old(self).bytes().len(),
            final(self).top() == old(self).top(),
            forall|i: int|
                0 <= i < final(self).bytes().len() ==> #[trigger] final(self).bytes()[i]
                    == color_byte(color, i),
    {
        let bytes = rgb565_to_be_bytes(color);
        let len = self.buffer.len();
        let mut i: usize = 0;
        while i < len
            invariant
                self.wf(),
                self.top() == old(self).top(),
                len == self.bytes().len(),
                bytes[0] == (color >> 8u16) as u8,
                bytes[1] == color as u8,
                i <= len,
                forall|j: int| 0 <= j < i ==> #[trigger] self.bytes()[j] == color_byte(color, j),
            decreases len - i,
        {
            let byte = if i % 2 == 0 {
                bytes[0]
            } else {
                bytes[1]
            };
            self.buffer.set(i, byte);
            i = i + 1;
        }
    }
}

} // verus!

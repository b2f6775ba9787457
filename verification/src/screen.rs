//! A monochrome pixel grid and the compositing of one grid onto another.

use vstd::prelude::*;
use vstd::arithmetic::div_mod::{
    lemma_fundamental_div_mod,
    lemma_fundamental_div_mod_converse,
    lemma_mod_bound,
};

verus! {

/// The value stored for a lit pixel. An unlit pixel is stored as 0.
pub const PIXEL_ON: u32 = 255;

/// A position on a grid: column `x`, row `y`.
#[derive(Debug)]
pub struct Point {
    pub x: usize,
    pub y: usize,
}

impl Point {
    pub fn new(x: usize, y: usize) -> (point: Point)
        ensures
            point.x == x,
            point.y == y,
    {
        Point { x, y }
    }
}

/// How far `position` lies after `origin` on a ring of `size` cells.
pub open spec fn ring_offset(position: int, origin: int, size: int) -> int {
    if position >= origin {
        position - origin
    } else {
        position - origin + size
    }
}

/// A grid of pixels that is about to be composited onto a larger grid: its
/// pixels in row-major order, its size, and the target cell on which its top
/// left pixel lands.
pub struct Stamp {
    pub pixels: Seq<bool>,
    pub width: int,
    pub height: int,
    pub x: int,
    pub y: int,
}

impl Stamp {
    /// Whether the stamp puts a lit pixel on cell (`x`, `y`) of a target grid
    /// that is `w` cells wide and `h` cells high. Columns and rows that run
    /// past the right or bottom edge of the target continue at its left or
    /// top edge; those that the target has no room for are left out.
    pub open spec fn lights(self, w: int, h: int, x: int, y: int) -> bool {
        let dx = ring_offset(x, self.x, w);
        let dy = ring_offset(y, self.y, h);
        dx < self.width && dy < self.height && self.pixels[dy * self.width + dx]
    }

    /// Whether the stamp puts a lit pixel on a cell of `target` that is lit
    /// already, the cell being given by its row-major index.
    pub open spec fn hits(self, target: Seq<bool>, w: int, h: int, cell: int) -> bool {
        target[cell] && self.lights(w, h, cell % w, cell / w)
    }
}

/// The grid `target`, `w` by `h` cells in row-major order, after `stamp` has
/// been combined with it by exclusive or: a cell changes exactly where the
/// stamp puts a lit pixel.
pub open spec fn stamped(target: Seq<bool>, w: int, h: int, stamp: Stamp) -> Seq<bool> {
    Seq::new(target.len(), |cell: int| target[cell] != stamp.lights(w, h, cell % w, cell / w))
}

/// Whether combining `stamp` with `target` turns off a pixel that was lit.
pub open spec fn collides(target: Seq<bool>, w: int, h: int, stamp: Stamp) -> bool {
    exists|cell: int| 0 <= cell < target.len() && #[trigger] stamp.hits(target, w, h, cell)
}

/// A rectangular grid of pixels, each lit or unlit, stored in row-major
/// order as `PIXEL_ON` or 0.
pub struct Buffer {
    width: usize,
    height: usize,
    pixels: Vec<u32>,
    dirty: bool,
}

impl View for Buffer {
    type V = Seq<bool>;

    /// The pixels in row-major order, `true` for a lit pixel.
    closed spec fn view(&self) -> Seq<bool> {
        Seq::new(self.pixels@.len(), |k: int| self.pixels@[k] != 0)
    }
}

/// Cell (`x`, `y`) of a `w` by `h` grid has a row-major index inside the grid.
proof fn lemma_cell_in_grid(x: int, y: int, w: int, h: int)
    by (nonlinear_arith)
    requires
        0 <= x < w,
        0 <= y < h,
    ensures
        0 <= y * w <= y * w + x < w * h,
{
}

/// The row-major index of cell (`x`, `y`) gives back its column and its row.
proof fn lemma_index_of_cell(x: int, y: int, w: int, h: int)
    requires
        0 <= x < w,
        0 <= y < h,
    ensures
        0 <= y * w + x < w * h,
        (y * w + x) % w == x,
        (y * w + x) / w == y,
{
    lemma_cell_in_grid(x, y, w, h);
    lemma_fundamental_div_mod_converse(y * w + x, w, y, x);
}

/// An index inside a `w` by `h` grid names a column and a row of the grid.
proof fn lemma_cell_of_index(t: int, w: int, h: int)
    requires
        0 < w,
        0 <= t < w * h,
    ensures
        0 <= t % w < w,
        0 <= t / w < h,
        t == (t / w) * w + t % w,
{
    lemma_fundamental_div_mod(t, w);
    lemma_mod_bound(t, w);
    let q = t / w;
    let r = t % w;
    assert(0 <= q < h && q * w == w * q) by (nonlinear_arith)
        requires
            t == w * q + r,
            0 <= r < w,
            0 <= t < w * h,
    ;
}

/// Whether `stamp` puts a lit pixel on `cell` and that pixel comes, in the
/// stamp's row-major order, before the pixel in column `sx` of row `sy`.
spec fn drawn(stamp: Stamp, w: int, h: int, cell: int, sx: int, sy: int) -> bool {
    let dx = ring_offset(cell % w, stamp.x, w);
    let dy = ring_offset(cell / w, stamp.y, h);
    stamp.lights(w, h, cell % w, cell / w) && (dy < sy || (dy == sy && dx < sx))
}

impl Buffer {
    pub closed spec fn spec_width(&self) -> usize {
        self.width
    }

    pub closed spec fn spec_height(&self) -> usize {
        self.height
    }

    /// Whether the pixels may have changed since a renderer last showed them.
    pub closed spec fn spec_is_dirty(&self) -> bool {
        self.dirty
    }

    /// Every stored pixel is 0 or `PIXEL_ON`.
    pub closed spec fn binary(&self) -> bool {
        forall|k: int| 0 <= k < self.pixels@.len() ==> self.pixels@[k] == 0 || self.pixels@[k] == PIXEL_ON
    }

    /// The buffer holds one binary pixel for each cell of its grid.
    pub open spec fn wf(&self) -> bool {
        &&& self.binary()
        &&& self@.len() == self.spec_width() * self.spec_height()
    }

    /// Whether the pixel in column `x` of row `y` is lit.
    pub open spec fn lit(&self, x: int, y: int) -> bool {
        self@[y * self.spec_width() + x]
    }

    /// This buffer as a stamp on a `w` by `h` grid, placed at `offset`
    /// reduced into the grid.
    pub open spec fn stamp_at(&self, offset: Point, w: int, h: int) -> Stamp {
        Stamp {
            pixels: self@,
            width: self.spec_width() as int,
            height: self.spec_height() as int,
            x: offset.x as int % w,
            y: offset.y as int % h,
        }
    }

    /// A buffer of `width` by `height` pixels: the given ones, or all unlit.
    pub fn new(width: usize, height: usize, pixels: Option<Vec<u32>>) -> (buffer: Buffer)
        requires
            width * height <= usize::MAX,
            pixels matches Some(p) ==> {
                &&& p@.len() == width * height
                &&& forall|k: int| 0 <= k < p@.len() ==> p@[k] == 0 || p@[k] == PIXEL_ON
            },
        ensures
            buffer.wf(),
            buffer.spec_width() == width,
            buffer.spec_height() == height,
            buffer.spec_is_dirty(),
            buffer@ == match pixels {
                Some(p) => Seq::new(p@.len(), |k: int| p@[k] != 0),
                None => Seq::new((width * height) as nat, |k: int| false),
            },
    {
        let pixels = match pixels {
            Some(p) => p,
            None => {
                let count = width * height;
                let mut empty_pixels: Vec<u32> = Vec::new();
                let mut k: usize = 0;
                while k < count
                    invariant
                        k <= count,
                        empty_pixels@.len() == k,
                        forall|j: int| 0 <= j < k ==> empty_pixels@[j] == 0,
                    decreases count - k,
                {
                    empty_pixels.push(0u32);
                    k += 1;
                }
                empty_pixels
            },
        };
        Buffer { width, height, pixels, dirty: true }
    }

    #[verifier::when_used_as_spec(spec_width)]
    pub fn width(&self) -> (w: usize)
        ensures
            w == self.spec_width(),
    {
        self.width
    }

    #[verifier::when_used_as_spec(spec_height)]
    pub fn height(&self) -> (h: usize)
        ensures
            h == self.spec_height(),
    {
        self.height
    }

    #[verifier::when_used_as_spec(spec_is_dirty)]
    pub fn is_dirty(&self) -> (dirty: bool)
        ensures
            dirty == self.spec_is_dirty(),
    {
        self.dirty
    }

    /// Records whether a renderer still has to show the pixels.
    pub fn set_dirty(&mut self, dirty: bool)
        ensures
            final(self).spec_is_dirty() == dirty,
            final(self)@ == old(self)@,
            final(self).spec_width() == old(self).spec_width(),
            final(self).spec_height() == old(self).spec_height(),
            final(self).binary() == old(self).binary(),
    {
        self.dirty = dirty;
    }

    /// The stored pixels in row-major order, for a renderer.
    pub fn pixels(&self) -> (pixels: &Vec<u32>)
        requires
            self.wf(),
        ensures
            pixels@.len() == self@.len(),
            forall|k: int| 0 <= k < pixels@.len() ==> #[trigger] pixels@[k] == if self@[k] { PIXEL_ON } else { 0u32 },
    {
        &self.pixels
    }

    /// Whether the pixel in column `x` of row `y` is lit.
    pub fn pixel(&self, x: usize, y: usize) -> (lit: bool)
        requires
            self.wf(),
            x < self.spec_width(),
            y < self.spec_height(),
        ensures
            lit == self.lit(x as int, y as int),
    {
        let count = self.pixels.len();
        proof {
            lemma_cell_in_grid(x as int, y as int, self.width as int, self.height as int);
            assert(self@.len() == count);
        }
        self.pixels[y * self.width + x] != 0
    }

    /// Combines `buffer` with this one by exclusive or, its top left pixel
    /// landing on `offset` reduced into this grid, and its columns and rows
    /// wrapping at the right and bottom edges. Of a `buffer` that is wider
    /// or higher than this one, the columns and rows that this one has no
    /// room for are left out. Tells whether a lit pixel was turned off.
    pub fn blit(&mut self, buffer: &Buffer, offset: Point) -> (collision: bool)
        requires
            old(self).wf(),
            buffer.wf(),
        ensures
            final(self).wf(),
            final(self).spec_width() == old(self).spec_width(),
            final(self).spec_height() == old(self).spec_height(),
            final(self).spec_is_dirty(),
            final(self)@ == stamped(
                old(self)@,
                old(self).spec_width() as int,
                old(self).spec_height() as int,
                buffer.stamp_at(offset, old(self).spec_width() as int, old(self).spec_height() as int),
            ),
            collision == collides(
                old(self)@,
                old(self).spec_width() as int,
                old(self).spec_height() as int,
                buffer.stamp_at(offset, old(self).spec_width() as int, old(self).spec_height() as int),
            ),
    {
        let w = self.width;
        let h = self.height;
        let ghost before = self@;
        let ghost stamp = buffer.stamp_at(offset, w as int, h as int);
        self.dirty = true;
        if w == 0 || h == 0 {
            proof {
                assert(w * h == 0) by (nonlinear_arith)
                    requires
                        w == 0 || h == 0,
                ;
                assert(self@ =~= stamped(before, w as int, h as int, stamp));
            }
            return false;
        }
        let ox = offset.x % w;
        let oy = offset.y % h;
        let bw = buffer.width;
        let bh = buffer.height;
        let columns = if bw < w {
            bw
        } else {
            w
        };
        let rows = if bh < h {
            bh
        } else {
            h
        };
        let count = self.pixels.len();
        let source_count = buffer.pixels.len();
        let mut collision = false;
        let mut sy: usize = 0;
        while sy < rows
            invariant
                self.width == w,
                self.height == h,
                self.dirty,
                0 < w,
                0 < h,
                ox < w,
                oy < h,
                bw == buffer.width,
                bh == buffer.height,
                columns <= w,
                columns <= bw,
                columns == w || columns == bw,
                rows <= h,
                rows <= bh,
                sy <= rows,
                buffer.pixels@.len() == bw * bh,
                source_count == bw * bh,
                self.pixels@.len() == w * h,
                count == w * h,
                before.len() == w * h,
                self.binary(),
                stamp == buffer.stamp_at(offset, w as int, h as int),
                stamp.x == ox,
                stamp.y == oy,
                forall|t: int|
                    0 <= t < w * h ==> self@[t] == (before[t] != #[trigger] drawn(
                        stamp,
                        w as int,
                        h as int,
                        t,
                        0,
                        sy as int,
                    )),
                collision <==> exists|t: int|
                    0 <= t < w * h && before[t] && #[trigger] drawn(stamp, w as int, h as int, t, 0, sy as int),
            decreases rows - sy,
        {
            let ty = if sy >= h - oy {
                sy - (h - oy)
            } else {
                oy + sy
            };
            let mut sx: usize = 0;
            while sx < columns
                invariant
                    self.width == w,
                    self.height == h,
                    self.dirty,
                    0 < w,
                    0 < h,
                    ox < w,
                    oy < h,
                    bw == buffer.width,
                    bh == buffer.height,
                    columns <= w,
                    columns <= bw,
                    columns == w || columns == bw,
                    rows <= h,
                    rows <= bh,
                    sy < rows,
                    sx <= columns,
                    ty < h,
                    ring_offset(ty as int, oy as int, h as int) == sy,
                    buffer.pixels@.len() == bw * bh,
                    source_count == bw * bh,
                    self.pixels@.len() == w * h,
                    count == w * h,
                    before.len() == w * h,
                    self.binary(),
                    stamp == buffer.stamp_at(offset, w as int, h as int),
                    stamp.x == ox,
                    stamp.y == oy,
                    forall|t: int|
                        0 <= t < w * h ==> self@[t] == (before[t] != #[trigger] drawn(
                            stamp,
                            w as int,
                            h as int,
                            t,
                            sx as int,
                            sy as int,
                        )),
                    collision <==> exists|t: int|
                        0 <= t < w * h && before[t] && #[trigger] drawn(
                            stamp,
                            w as int,
                            h as int,
                            t,
                            sx as int,
                            sy as int,
                        ),
                decreases columns - sx,
            {
                let tx = if sx >= w - ox {
                    sx - (w - ox)
                } else {
                    ox + sx
                };
                proof {
                    lemma_cell_in_grid(sx as int, sy as int, bw as int, bh as int);
                    lemma_index_of_cell(tx as int, ty as int, w as int, h as int);
                }
                let source = buffer.pixels[sy * bw + sx];
                let target = ty * w + tx;
                let ghost shown = self@;
                let ghost collided = collision;
                if source != 0 {
                    if self.pixels[target] != 0 {
                        collision = true;
                        self.pixels[target] = 0;
                    } else {
                        self.pixels[target] = PIXEL_ON;
                    }
                }
                proof {
                    assert(stamp.pixels[sy * bw + sx] == (source != 0));
                    assert(drawn(stamp, w as int, h as int, target as int, sx + 1, sy as int) == (source != 0));
                    assert(!drawn(stamp, w as int, h as int, target as int, sx as int, sy as int));
                    assert forall|t: int| 0 <= t < w * h implies self@[t] == (before[t] != #[trigger] drawn(
                        stamp,
                        w as int,
                        h as int,
                        t,
                        sx + 1,
                        sy as int,
                    )) by {
                        lemma_cell_of_index(t, w as int, h as int);
                        assert(shown[t] == (before[t] != drawn(stamp, w as int, h as int, t, sx as int, sy as int)));
                        if t != target {
                            assert(self@[t] == shown[t]);
                        }
                    }
                    if collided {
                        let t = choose|t: int|
                            0 <= t < w * h && before[t] && #[trigger] drawn(
                                stamp,
                                w as int,
                                h as int,
                                t,
                                sx as int,
                                sy as int,
                            );
                        assert(drawn(stamp, w as int, h as int, t, sx + 1, sy as int));
                    }
                    if collision && !collided {
                        assert(before[target as int]);
                        assert(drawn(stamp, w as int, h as int, target as int, sx + 1, sy as int));
                    }
                    if exists|t: int|
                        0 <= t < w * h && before[t] && #[trigger] drawn(stamp, w as int, h as int, t, sx + 1, sy as int) {
                        let t = choose|t: int|
                            0 <= t < w * h && before[t] && #[trigger] drawn(
                                stamp,
                                w as int,
                                h as int,
                                t,
                                sx + 1,
                                sy as int,
                            );
                        lemma_cell_of_index(t, w as int, h as int);
                        if t != target {
                            assert(drawn(stamp, w as int, h as int, t, sx as int, sy as int));
                        }
                    }
                }
                sx += 1;
            }
            proof {
                assert forall|t: int| 0 <= t < w * h implies drawn(
                    stamp,
                    w as int,
                    h as int,
                    t,
                    columns as int,
                    sy as int,
                ) == #[trigger] drawn(stamp, w as int, h as int, t, 0, sy + 1) by {
                    lemma_cell_of_index(t, w as int, h as int);
                }
                if collision {
                    let t = choose|t: int|
                        0 <= t < w * h && before[t] && #[trigger] drawn(
                            stamp,
                            w as int,
                            h as int,
                            t,
                            columns as int,
                            sy as int,
                        );
                    assert(drawn(stamp, w as int, h as int, t, 0, sy + 1));
                }
                if exists|t: int|
                    0 <= t < w * h && before[t] && #[trigger] drawn(stamp, w as int, h as int, t, 0, sy + 1) {
                    let t = choose|t: int|
                        0 <= t < w * h && before[t] && #[trigger] drawn(stamp, w as int, h as int, t, 0, sy + 1);
                    assert(drawn(stamp, w as int, h as int, t, columns as int, sy as int));
                }
            }
            sy += 1;
        }
        proof {
            assert forall|t: int| 0 <= t < w * h implies self@[t] == (before[t] != stamp.lights(
                w as int,
                h as int,
                t % (w as int),
                t / (w as int),
            )) by {
                lemma_cell_of_index(t, w as int, h as int);
                assert(drawn(stamp, w as int, h as int, t, 0, rows as int) == stamp.lights(
                    w as int,
                    h as int,
                    t % (w as int),
                    t / (w as int),
                ));
            }
            assert(self@ =~= stamped(before, w as int, h as int, stamp));
            if collision {
                let t = choose|t: int|
                    0 <= t < w * h && before[t] && #[trigger] drawn(stamp, w as int, h as int, t, 0, rows as int);
                assert(stamp.hits(before, w as int, h as int, t));
            }
            if collides(before, w as int, h as int, stamp) {
                let t = choose|t: int| 0 <= t < before.len() && #[trigger] stamp.hits(before, w as int, h as int, t);
                assert(drawn(stamp, w as int, h as int, t, 0, rows as int));
            }
        }
        collision
    }

    /// Turns every pixel off.
    pub fn clear(&mut self)
        requires
            old(self).wf(),
        ensures
            final(self).wf(),
            final(self).spec_width() == old(self).spec_width(),
            final(self).spec_height() == old(self).spec_height(),
            final(self).spec_is_dirty() == old(self).spec_is_dirty(),
            final(self)@ == Seq::new(old(self)@.len(), |k: int| false),
    {
        let count = self.pixels.len();
        let mut empty_pixels: Vec<u32> = Vec::new();
        let mut k: usize = 0;
        while k < count
            invariant
                k <= count,
                empty_pixels@.len() == k,
                forall|j: int| 0 <= j < k ==> empty_pixels@[j] == 0,
            decreases count - k,
        {
            empty_pixels.push(0u32);
            k += 1;
        }
        self.pixels = empty_pixels;
    }
}

impl Clone for Buffer {
    fn clone(&self) -> (copy: Buffer)
        ensures
            copy@ == self@,
            copy.spec_width() == self.spec_width(),
            copy.spec_height() == self.spec_height(),
            copy.spec_is_dirty() == self.spec_is_dirty(),
            copy.binary() == self.binary(),
    {
        let pixels = self.pixels.clone();
        assert(pixels@ =~= self.pixels@);
        Buffer { width: self.width, height: self.height, pixels, dirty: self.dirty }
    }
}

} // verus!

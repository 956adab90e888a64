//! Fixed-size offscreen pixel buffer with clipped writes.
use vstd::prelude::*;
use crate::geometry::{Color, Pixel, Point, Rect, Size};

verus! {

/// Whether `(x, y)` lies in a `width` by `height` buffer.
pub open spec fn in_bounds(width: int, height: int, x: int, y: int) -> bool {
    0 <= x < width && 0 <= y < height
}

/// The color that `(x, y)` ends with when `pixels` are written in order over
/// `base`: that of the last pixel written there, else `base`.
pub open spec fn last_write(base: Color, pixels: Seq<Pixel>, x: int, y: int) -> Color
    decreases pixels.len(),
{
    if pixels.len() == 0 {
        base
    } else if pixels.last().point.x == x && pixels.last().point.y == y {
        pixels.last().color
    } else {
        last_write(base, pixels.drop_last(), x, y)
    }
}

/// Whether some point of `points` is `(x, y)`.
pub open spec fn covers(points: Seq<Point>, x: int, y: int) -> bool {
    exists|k: int| 0 <= k < points.len() && #[trigger] points[k].x == x && points[k].y == y
}

/// Row-major index of `(x, y)` in a buffer `width` pixels wide.
pub open spec fn index_of(width: int, x: int, y: int) -> int {
    y * width + x
}

proof fn lemma_index_in_range(width: int, height: int, x: int, y: int)
    requires
        in_bounds(width, height, x, y),
    ensures
        0 <= index_of(width, x, y) < width * height,
{
    assert(0 <= y * width + x < width * height) by (nonlinear_arith)
        requires
            0 <= x < width,
            0 <= y < height,
    ;
}

proof fn lemma_index_injective(width: int, x1: int, y1: int, x2: int, y2: int)
    requires
        0 <= x1 < width,
        0 <= x2 < width,
        index_of(width, x1, y1) == index_of(width, x2, y2),
    ensures
        x1 == x2 && y1 == y2,
{
    assert(y1 == y2) by (nonlinear_arith)
        requires
            0 <= x1 < width,
            0 <= x2 < width,
            y1 * width + x1 == y2 * width + x2,
    ;
}

/// An offscreen buffer of `width * height` pixels in row-major order, with
/// the position at which it is to be placed on a larger surface.
pub struct Sprite {
    buffer: Vec<Color>,
    offset: Point,
    size: Size,
}

impl Sprite {
    pub closed spec fn width(&self) -> int {
        self.size.width as int
    }

    pub closed spec fn height(&self) -> int {
        self.size.height as int
    }

    /// The pixels, row by row.
    pub closed spec fn pixels(&self) -> Seq<Color> {
        self.buffer@
    }

    pub closed spec fn offset_spec(&self) -> Point {
        self.offset
    }

    /// The buffer holds exactly `width * height` pixels, a count that fits
    /// in a `u32`.
    pub open spec fn wf(&self) -> bool {
        &&& self.pixels().len() == self.width() * self.height()
        &&& self.width() * self.height() <= u32::MAX
    }

    /// The color at `(x, y)`, for a point in bounds.
    pub open spec fn color_at(&self, x: int, y: int) -> Color {
        self.pixels()[index_of(self.width(), x, y)]
    }

    pub open spec fn contains(&self, x: int, y: int) -> bool {
        in_bounds(self.width(), self.height(), x, y)
    }

    /// Same dimensions and offset as `other`, and well formed.
    pub open spec fn same_frame(&self, other: &Sprite) -> bool {
        &&& self.wf()
        &&& self.width() == other.width()
        &&& self.height() == other.height()
        &&& self.offset_spec() == other.offset_spec()
        &&& self.pixels().len() == other.pixels().len()
    }

    /// A black `width` by `height` sprite at offset zero.
    pub fn new(width: u32, height: u32) -> (s: Sprite)
        requires
            width * height <= u32::MAX,
        ensures
            s.wf(),
            s.width() == width,
            s.height() == height,
            s.pixels().len() == width * height,
            s.offset_spec() == (Point { x: 0, y: 0 }),
            forall|x: int, y: int| s.contains(x, y) ==> #[trigger] s.color_at(x, y) == (Color { raw: 0 }),
    {
        let n: u32 = width * height;
        let mut buffer: Vec<Color> = Vec::new();
        let mut i: u32 = 0;
        while i < n
            invariant
                i <= n,
                buffer@.len() == i,
                forall|k: int| 0 <= k < i ==> buffer@[k] == (Color { raw: 0 }),
            decreases n - i,
        {
            buffer.push(Color::black());
            i = i + 1;
        }
        let s = Sprite { buffer, offset: Point::new(0, 0), size: Size::new(width, height) };
        assert forall|x: int, y: int| s.contains(x, y) implies #[trigger] s.color_at(x, y) == (Color { raw: 0 }) by {
            lemma_index_in_range(width as int, height as int, x, y);
        }
        s
    }

    /// A sprite that wraps a precomputed pixel dump of `width` by `height`
    /// pixels, row by row, at offset zero; `None` when the dump does not
    /// hold exactly `width * height` pixels, or when that count does not fit
    /// in a `u32`.
    pub fn from_pixels(width: u32, height: u32, pixels: Vec<Color>) -> (r: Option<Sprite>)
        ensures
            r is None <==> (pixels@.len() != width * height || width * height > u32::MAX),
            r matches Some(s) ==> {
                &&& s.wf()
                &&& s.width() == width
                &&& s.height() == height
                &&& s.offset_spec() == (Point { x: 0, y: 0 })
                &&& s.pixels() == pixels@
            },
    {
        let n = pixels.len();
        assert(width * height <= u32::MAX * u32::MAX) by (nonlinear_arith)
            requires
                width <= u32::MAX,
                height <= u32::MAX,
        ;
        if n > u32::MAX as usize || n as u64 != width as u64 * height as u64 {
            return None;
        }
        Some(Sprite { buffer: pixels, offset: Point::new(0, 0), size: Size::new(width, height) })
    }

    /// The area of the target surface that the sprite covers when drawn:
    /// its size, placed at its offset.
    pub fn draw_area(&self) -> (r: Rect)
        ensures
            r.top_left == self.offset_spec(),
            r.size.width == self.width(),
            r.size.height == self.height(),
    {
        Rect::new(self.offset, self.size)
    }

    /// Width and height in pixels.
    pub fn size(&self) -> (r: Size)
        ensures
            r.width == self.width(),
            r.height == self.height(),
    {
        self.size
    }

    pub fn offset(&self) -> (r: Point)
        ensures
            r == self.offset_spec(),
    {
        self.offset
    }

    /// Sets where the sprite's top-left corner goes on the target surface.
    pub fn set_offset(&mut self, offset: Point)
        ensures
            final(self).offset_spec() == offset,
            final(self).wf() == old(self).wf(),
            final(self).width() == old(self).width(),
            final(self).height() == old(self).height(),
            final(self).pixels() == old(self).pixels(),
    {
        self.offset = offset;
    }

    /// The pixels, row by row.
    pub fn colors(&self) -> (r: &Vec<Color>)
        ensures
            r@ == self.pixels(),
            self.wf() ==> r@.len() == self.width() * self.height(),
    {
        &self.buffer
    }

    /// Writes `color` at `p`; a point outside the buffer is dropped and the
    /// buffer is left unchanged.
    pub fn set_pixel(&mut self, p: Point, color: Color)
        requires
            old(self).wf(),
        ensures
            final(self).same_frame(old(self)),
            !old(self).contains(p.x as int, p.y as int) ==> final(self).pixels() == old(self).pixels(),
            old(self).contains(p.x as int, p.y as int) ==> final(self).pixels() == old(self).pixels().update(
                index_of(old(self).width(), p.x as int, p.y as int),
                color,
            ),
            forall|x: int, y: int|
                old(self).contains(x, y) ==> #[trigger] final(self).color_at(x, y) == if x == p.x && y
                    == p.y {
                    color
                } else {
                    old(self).color_at(x, y)
                },
    {
        if p.x < 0 || p.y < 0 || self.size.width <= p.x as u32 || self.size.height <= p.y as u32 {
            return;
        }
        let ghost w = self.width();
        let ghost h = self.height();
        proof {
            lemma_index_in_range(w, h, p.x as int, p.y as int);
        }
        let index: u32 = (p.y as u32) * self.size.width + (p.x as u32);
        self.buffer.set(index as usize, color);
        assert forall|x: int, y: int| old(self).contains(x, y) implies #[trigger] self.color_at(x, y)
            == if x == p.x && y == p.y {
            color
        } else {
            old(self).color_at(x, y)
        } by {
            lemma_index_in_range(w, h, x, y);
            if index_of(w, x, y) == index as int {
                lemma_index_injective(w, x, y, p.x as int, p.y as int);
            }
        }
    }

    /// Writes the pixels in order; those outside the buffer are dropped.
    pub fn draw_iter(&mut self, pixels: &Vec<Pixel>)
        requires
            old(self).wf(),
        ensures
            final(self).same_frame(old(self)),
            forall|x: int, y: int|
                old(self).contains(x, y) ==> #[trigger] final(self).color_at(x, y) == last_write(
                    old(self).color_at(x, y),
                    pixels@,
                    x,
                    y,
                ),
            (forall|k: int|
                0 <= k < pixels@.len() ==> !old(self).contains(
                    #[trigger] pixels@[k].point.x as int,
                    pixels@[k].point.y as int,
                )) ==> final(self).pixels() == old(self).pixels(),
    {
        let mut i: usize = 0;
        while i < pixels.len()
            invariant
                i <= pixels@.len(),
                self.same_frame(old(self)),
                forall|x: int, y: int|
                    old(self).contains(x, y) ==> #[trigger] self.color_at(x, y) == last_write(
                        old(self).color_at(x, y),
                        pixels@.take(i as int),
                        x,
                        y,
                    ),
                (forall|k: int|
                    0 <= k < i ==> !old(self).contains(
                        #[trigger] pixels@[k].point.x as int,
                        pixels@[k].point.y as int,
                    )) ==> self.pixels() == old(self).pixels(),
            decreases pixels@.len() - i,
        {
            let px = pixels[i];
            self.set_pixel(px.point, px.color);
            assert(pixels@.take(i + 1).drop_last() == pixels@.take(i as int));
            assert(pixels@.take(i + 1).last() == px);
            i = i + 1;
        }
        assert(pixels@.take(pixels@.len() as int) == pixels@);
    }

    /// Sets every point of `points` that lies in the buffer to `color`.
    pub fn draw_points(&mut self, points: &Vec<Point>, color: Color)
        requires
            old(self).wf(),
        ensures
            final(self).same_frame(old(self)),
            forall|x: int, y: int|
                old(self).contains(x, y) ==> #[trigger] final(self).color_at(x, y) == if covers(
                    points@,
                    x,
                    y,
                ) {
                    color
                } else {
                    old(self).color_at(x, y)
                },
    {
        let mut i: usize = 0;
        while i < points.len()
            invariant
                i <= points@.len(),
                self.same_frame(old(self)),
                forall|x: int, y: int|
                    old(self).contains(x, y) ==> #[trigger] self.color_at(x, y) == if covers(
                        points@.take(i as int),
                        x,
                        y,
                    ) {
                        color
                    } else {
                        old(self).color_at(x, y)
                    },
            decreases points@.len() - i,
        {
            let p = points[i];
            self.set_pixel(p, color);
            assert forall|x: int, y: int| old(self).contains(x, y) implies #[trigger] self.color_at(x, y)
                == if covers(points@.take(i + 1), x, y) {
                color
            } else {
                old(self).color_at(x, y)
            } by {
                let before = points@.take(i as int);
                let after = points@.take(i + 1);
                if covers(before, x, y) {
                    let k = choose|k: int| 0 <= k < before.len() && #[trigger] before[k].x == x && before[k].y == y;
                    assert(after[k] == before[k]);
                }
                if x == p.x && y == p.y {
                    assert(after[i as int] == p);
                }
                if covers(after, x, y) && !(x == p.x && y == p.y) {
                    let k = choose|k: int| 0 <= k < after.len() && #[trigger] after[k].x == x && after[k].y == y;
                    assert(k != i);
                    assert(before[k] == after[k]);
                }
            }
            i = i + 1;
        }
        assert(points@.take(points@.len() as int) == points@);
    }

    /// Sets every pixel to `color`.
    pub fn clear(&mut self, color: Color)
        requires
            old(self).wf(),
        ensures
            final(self).same_frame(old(self)),
            forall|x: int, y: int| old(self).contains(x, y) ==> #[trigger] final(self).color_at(x, y) == color,
    {
        let n = self.buffer.len();
        let mut i: usize = 0;
        while i < n
            invariant
                i <= n,
                n == old(self).pixels().len(),
                self.same_frame(old(self)),
                forall|k: int| 0 <= k < i ==> #[trigger] self.pixels()[k] == color,
            decreases n - i,
        {
            self.buffer.set(i, color);
            i = i + 1;
        }
        assert forall|x: int, y: int| old(self).contains(x, y) implies #[trigger] self.color_at(x, y) == color by {
            lemma_index_in_range(self.width(), self.height(), x, y);
        }
    }

    /// Writes `color` at `(x, y)`, a point inside the buffer.
    fn write_at(&mut self, x: u32, y: u32, color: Color)
        requires
            old(self).wf(),
            old(self).contains(x as int, y as int),
        ensures
            final(self).same_frame(old(self)),
            forall|i: int, j: int|
                old(self).contains(i, j) ==> #[trigger] final(self).color_at(i, j) == if i == x && j == y {
                    color
                } else {
                    old(self).color_at(i, j)
                },
    {
        let ghost w = self.width();
        let ghost h = self.height();
        proof {
            lemma_index_in_range(w, h, x as int, y as int);
        }
        let index: u32 = y * self.size.width + x;
        self.buffer.set(index as usize, color);
        assert forall|i: int, j: int| old(self).contains(i, j) implies #[trigger] self.color_at(i, j)
            == if i == x && j == y {
            color
        } else {
            old(self).color_at(i, j)
        } by {
            lemma_index_in_range(w, h, i, j);
            if index_of(w, i, j) == index as int {
                lemma_index_injective(w, i, j, x as int, y as int);
            }
        }
    }

    /// Fills `area` with `colors` taken in row-major order over the whole
    /// area: the pixel at rank `k` of the area gets `colors[k]`. Positions
    /// outside the buffer still use up their color; positions past the end
    /// of `colors` are left as they were.
    pub fn fill_contiguous(&mut self, area: Rect, colors: &Vec<Color>)
        requires
            old(self).wf(),
        ensures
            final(self).same_frame(old(self)),
            forall|x: int, y: int|
                old(self).contains(x, y) ==> #[trigger] final(self).color_at(x, y) == if area.contains(x, y)
                    && area.rank(x, y) < colors@.len() {
                    colors@[area.rank(x, y)]
                } else {
                    old(self).color_at(x, y)
                },
    {
        let w = self.size.width as i64;
        let h = self.size.height as i64;
        let ax = area.top_left.x as i64;
        let ay = area.top_left.y as i64;
        let aw = area.size.width as i64;
        let ah = area.size.height as i64;
        let x0: i64 = if ax > 0 { ax } else { 0 };
        let x1: i64 = if ax + aw < w { ax + aw } else { w };
        let y0: i64 = if ay > 0 { ay } else { 0 };
        let y1: i64 = if ay + ah < h { ay + ah } else { h };
        if x1 <= x0 || y1 <= y0 {
            return;
        }
        let mut y: i64 = y0;
        while y < y1
            invariant
                0 <= y0 <= y <= y1 <= h,
                0 <= x0 < x1 <= w,
                h == old(self).height(),
                w == old(self).width(),
                ax == area.top_left.x,
                ay == area.top_left.y,
                aw == area.size.width,
                y0 == if ay > 0 { ay } else { 0 },
                x0 == if ax > 0 { ax } else { 0 },
                y1 == if ay + ah < h { ay + ah } else { h as int },
                x1 == if ax + aw < w { ax + aw } else { w as int },
                ah == area.size.height,
                self.same_frame(old(self)),
                forall|i: int, j: int|
                    old(self).contains(i, j) ==> #[trigger] self.color_at(i, j) == if y0 <= j < y && x0
                        <= i < x1 && area.rank(i, j) < colors@.len() {
                        colors@[area.rank(i, j)]
                    } else {
                        old(self).color_at(i, j)
                    },
            decreases y1 - y,
        {
            let mut x: i64 = x0;
            while x < x1
                invariant
                    0 <= y0 <= y < y1 <= h,
                    0 <= x0 <= x <= x1 <= w,
                    h == old(self).height(),
                    w == old(self).width(),
                        ax == area.top_left.x,
                    ay == area.top_left.y,
                    aw == area.size.width,
                    x0 == if ax > 0 { ax } else { 0 },
                    y0 == if ay > 0 { ay } else { 0 },
                    self.same_frame(old(self)),
                    forall|i: int, j: int|
                        old(self).contains(i, j) ==> #[trigger] self.color_at(i, j) == if ((y0 <= j < y
                            && x0 <= i < x1) || (j == y && x0 <= i < x)) && area.rank(i, j)
                            < colors@.len() {
                            colors@[area.rank(i, j)]
                        } else {
                            old(self).color_at(i, j)
                        },
                decreases x1 - x,
            {
                assert(0 <= (y - ay) * aw <= 0x3_0000_0000 * 0x1_0000_0000) by (nonlinear_arith)
                    requires
                        0 <= y - ay <= 0x3_0000_0000,
                        0 <= aw <= 0x1_0000_0000,
                ;
                let k: i128 = (y - ay) as i128 * aw as i128 + (x - ax) as i128;
                assert(k == area.rank(x as int, y as int));
                assert(0 <= k);
                let ghost prev = *self;
                if k < colors.len() as i128 {
                    let ku = k as usize;
                    self.write_at(x as u32, y as u32, colors[ku]);
                }
                assert forall|i: int, j: int| old(self).contains(i, j) implies #[trigger] self.color_at(i, j)
                    == if ((y0 <= j < y && x0 <= i < x1) || (j == y && x0 <= i < x + 1)) && area.rank(i, j)
                    < colors@.len() {
                    colors@[area.rank(i, j)]
                } else {
                    old(self).color_at(i, j)
                } by {
                    assert(prev.contains(i, j));
                    let before = prev.color_at(i, j);
                    if i == x && j == y {
                        assert(area.rank(i, j) == k);
                    } else {
                        assert(self.color_at(i, j) == before);
                    }
                }
                x = x + 1;
            }
            y = y + 1;
        }
    }
}

} // verus!

//! Logical pixels, frames, and the compositing algorithm that draws them
//! onto a `Screen` with clipping, mirroring and a world-space offset.
use vstd::prelude::*;

use crate::layout::{Coordinate, Direction, MirrorDirectionValue, SUBCELL, SUBCELL_HALF};
use crate::palette::{Color, ColorScheme};
use crate::screen::Screen;

verus! {

/// One drawable unit: a single colored grid cell.
#[derive(Clone, Copy, Debug, PartialEq, Eq, Structural)]
pub struct Cell {
    pub color: Color,
    /// Column of the cell, in whole grid cells.
    pub x: u16,
    /// Row of the cell, in whole grid cells.
    pub y: u16,
}

/// A logical pixel: the ordered list of cells produced from one color
/// scheme at one grid origin.
#[derive(Clone, Debug)]
pub struct Pixel {
    pub(crate) cells: Vec<Cell>,
}

impl View for Pixel {
    type V = Seq<Cell>;

    closed spec fn view(&self) -> Seq<Cell> {
        self.cells@
    }
}

/// The number of cells generated along a pattern direction.
pub open spec fn dir_count(dir: Direction) -> nat {
    match dir {
        Direction::Vertical(n) => n as nat,
        Direction::Horizontal(n) => n as nat,
    }
}

/// The number of cells a color scheme expands into.
pub open spec fn scheme_cell_count(scheme: ColorScheme) -> nat {
    match scheme {
        ColorScheme::Standard(_) => 1,
        ColorScheme::CheckPattern(cp) => dir_count(cp.range),
        ColorScheme::Stroke(st) => dir_count(st.range),
    }
}

/// The cell at pattern offset `i`: offset along X for `Horizontal`,
/// along Y for `Vertical`.
pub open spec fn pattern_cell(dir: Direction, x: u16, y: u16, color: Color, i: int) -> Cell {
    match dir {
        Direction::Horizontal(_) => Cell { color, x: (x + i) as u16, y },
        Direction::Vertical(_) => Cell { color, x, y: (y + i) as u16 },
    }
}

/// The `i`-th cell a color scheme expands into at origin `(x, y)`.
/// A check pattern alternates its two colors and always starts with the first.
pub open spec fn scheme_cell(scheme: ColorScheme, x: u16, y: u16, i: int) -> Cell {
    match scheme {
        ColorScheme::Standard(c) => Cell { color: c, x, y },
        ColorScheme::CheckPattern(cp) => pattern_cell(
            cp.range,
            x,
            y,
            if i % 2 == 0 {
                cp.a
            } else {
                cp.b
            },
            i,
        ),
        ColorScheme::Stroke(st) => pattern_cell(st.range, x, y, st.color, i),
    }
}

/// Every generated cell coordinate stays within `u16`.
pub open spec fn pattern_fits(dir: Direction, x: u16, y: u16) -> bool {
    match dir {
        Direction::Horizontal(n) => n == 0 || x + n - 1 <= u16::MAX,
        Direction::Vertical(n) => n == 0 || y + n - 1 <= u16::MAX,
    }
}

/// Every cell the scheme expands into at origin `(x, y)` stays within `u16`.
pub open spec fn scheme_fits(scheme: ColorScheme, x: u16, y: u16) -> bool {
    match scheme {
        ColorScheme::Standard(_) => true,
        ColorScheme::CheckPattern(cp) => pattern_fits(cp.range, x, y),
        ColorScheme::Stroke(st) => pattern_fits(st.range, x, y),
    }
}

impl Pixel {
    /// Expands a color scheme at a grid origin into its cell list.
    ///
    /// The expansion is pure: the same scheme and origin always produce the
    /// same cells in the same order.
    pub fn new(color: ColorScheme, x: u16, y: u16) -> (p: Pixel)
        requires
            scheme_fits(color, x, y),
        ensures
            p@.len() == scheme_cell_count(color),
            forall|i: int| 0 <= i < p@.len() ==> p@[i] == scheme_cell(color, x, y, i),
    {
        let mut cells: Vec<Cell> = Vec::new();
        match color {
            ColorScheme::Standard(c) => {
                cells.push(Cell { color: c, x, y });
            },
            ColorScheme::CheckPattern(cp) => {
                let n = Self::extract_count(cp.range);
                let mut i: u16 = 0;
                while i < n
                    invariant
                        i <= n,
                        n == dir_count(cp.range),
                        pattern_fits(cp.range, x, y),
                        cells@.len() == i as nat,
                        forall|k: int| 0 <= k < i ==> cells@[k] == scheme_cell(
                            ColorScheme::CheckPattern(cp),
                            x,
                            y,
                            k,
                        ),
                    decreases n - i,
                {
                    let c = if i % 2 == 0 {
                        cp.a
                    } else {
                        cp.b
                    };
                    cells.push(Self::pattern_to_cell(cp.range, x, y, c, i));
                    i = i + 1;
                }
            },
            ColorScheme::Stroke(st) => {
                let n = Self::extract_count(st.range);
                let mut i: u16 = 0;
                while i < n
                    invariant
                        i <= n,
                        n == dir_count(st.range),
                        pattern_fits(st.range, x, y),
                        cells@.len() == i as nat,
                        forall|k: int| 0 <= k < i ==> cells@[k] == scheme_cell(
                            ColorScheme::Stroke(st),
                            x,
                            y,
                            k,
                        ),
                    decreases n - i,
                {
                    cells.push(Self::pattern_to_cell(st.range, x, y, st.color, i));
                    i = i + 1;
                }
            },
        }
        Pixel { cells }
    }

    /// The cell count carried by a pattern direction.
    fn extract_count(dir: Direction) -> (n: u16)
        ensures
            n as nat == dir_count(dir),
    {
        match dir {
            Direction::Vertical(n) => n,
            Direction::Horizontal(n) => n,
        }
    }

    /// The cell at pattern offset `i` from the base origin, offset along the
    /// axis the direction names.
    fn pattern_to_cell(dir: Direction, x: u16, y: u16, color: Color, i: u16) -> (c: Cell)
        requires
            (i as nat) < dir_count(dir),
            pattern_fits(dir, x, y),
        ensures
            c == pattern_cell(dir, x, y, color, i as int),
    {
        match dir {
            Direction::Horizontal(_) => Cell { color, x: x + i, y },
            Direction::Vertical(_) => Cell { color, x, y: y + i },
        }
    }

    /// The number of cells in this pixel.
    pub fn len(&self) -> (n: usize)
        ensures
            n == self@.len(),
    {
        self.cells.len()
    }

    /// The row (Y coordinate) of the cell at the given index, if it exists.
    pub fn row_pos(&self, index: usize) -> (r: Option<u16>)
        ensures
            index < self@.len() ==> r == Some(self@[index as int].y),
            index >= self@.len() ==> r is None,
    {
        if index < self.cells.len() {
            Some(self.cells[index].y)
        } else {
            None
        }
    }

    /// The column (X coordinate) of the cell at the given index, if it exists.
    pub fn column_pos(&self, index: usize) -> (r: Option<u16>)
        ensures
            index < self@.len() ==> r == Some(self@[index as int].x),
            index >= self@.len() ==> r is None,
    {
        if index < self.cells.len() {
            Some(self.cells[index].x)
        } else {
            None
        }
    }

    /// The color of the cell at the given index, if it exists.
    pub fn color_at(&self, index: usize) -> (r: Option<Color>)
        ensures
            index < self@.len() ==> r == Some(self@[index as int].color),
            index >= self@.len() ==> r is None,
    {
        if index < self.cells.len() {
            Some(self.cells[index].color)
        } else {
            None
        }
    }

    /// Changes the color of the cell at the given index.
    ///
    /// Returns the previous color, or nothing (changing nothing) when the
    /// index is out of range.
    pub fn change_color(&mut self, index: usize, color: Color) -> (prev: Option<Color>)
        ensures
            index < old(self)@.len() ==> {
                &&& prev == Some(old(self)@[index as int].color)
                &&& final(self)@ == old(self)@.update(
                    index as int,
                    Cell { color, ..old(self)@[index as int] },
                )
            },
            index >= old(self)@.len() ==> prev is None && final(self)@ == old(self)@,
    {
        if index < self.cells.len() {
            let old_color = self.cells[index].color;
            self.cells[index] = Cell { color, ..self.cells[index] };
            Some(old_color)
        } else {
            None
        }
    }

    /// Moves the cell at the given index to an absolute coordinate on the
    /// axis named by `dir`: `Vertical(v)` replaces Y, `Horizontal(v)`
    /// replaces X. The payload is a position here, not a count.
    ///
    /// Returns the previous coordinate on that axis, or nothing (changing
    /// nothing) when the index is out of range.
    pub fn move_pos(&mut self, index: usize, dir: Direction) -> (prev: Option<u16>)
        ensures
            index < old(self)@.len() ==> match dir {
                Direction::Vertical(v) => {
                    &&& prev == Some(old(self)@[index as int].y)
                    &&& final(self)@ == old(self)@.update(
                        index as int,
                        Cell { y: v, ..old(self)@[index as int] },
                    )
                },
                Direction::Horizontal(v) => {
                    &&& prev == Some(old(self)@[index as int].x)
                    &&& final(self)@ == old(self)@.update(
                        index as int,
                        Cell { x: v, ..old(self)@[index as int] },
                    )
                },
            },
            index >= old(self)@.len() ==> prev is None && final(self)@ == old(self)@,
    {
        if index < self.cells.len() {
            match dir {
                Direction::Vertical(v) => {
                    let old_pos = self.cells[index].y;
                    self.cells[index] = Cell { y: v, ..self.cells[index] };
                    Some(old_pos)
                },
                Direction::Horizontal(v) => {
                    let old_pos = self.cells[index].x;
                    self.cells[index] = Cell { x: v, ..self.cells[index] };
                    Some(old_pos)
                },
            }
        } else {
            None
        }
    }
}

/// The largest X coordinate among a list of cells, or 0 when there are none.
pub open spec fn max_cell_x(cells: Seq<Cell>) -> int
    decreases cells.len(),
{
    if cells.len() == 0 {
        0
    } else {
        vstd::math::max(max_cell_x(cells.drop_last()), cells.last().x as int)
    }
}

/// The largest Y coordinate among a list of cells, or 0 when there are none.
pub open spec fn max_cell_y(cells: Seq<Cell>) -> int
    decreases cells.len(),
{
    if cells.len() == 0 {
        0
    } else {
        vstd::math::max(max_cell_y(cells.drop_last()), cells.last().y as int)
    }
}

/// The largest X coordinate among all cells of all pixels, or 0.
pub open spec fn pixels_max_x(pixels: Seq<Pixel>) -> int
    decreases pixels.len(),
{
    if pixels.len() == 0 {
        0
    } else {
        vstd::math::max(pixels_max_x(pixels.drop_last()), max_cell_x(pixels.last()@))
    }
}

/// The largest Y coordinate among all cells of all pixels, or 0.
pub open spec fn pixels_max_y(pixels: Seq<Pixel>) -> int
    decreases pixels.len(),
{
    if pixels.len() == 0 {
        0
    } else {
        vstd::math::max(pixels_max_y(pixels.drop_last()), max_cell_y(pixels.last()@))
    }
}

proof fn lemma_max_cell_bounds(cells: Seq<Cell>)
    ensures
        0 <= max_cell_x(cells) <= u16::MAX,
        0 <= max_cell_y(cells) <= u16::MAX,
        forall|j: int| 0 <= j < cells.len() ==> (#[trigger] cells[j]).x <= max_cell_x(cells)
            && cells[j].y <= max_cell_y(cells),
    decreases cells.len(),
{
    if cells.len() > 0 {
        lemma_max_cell_bounds(cells.drop_last());
        assert(forall|j: int| 0 <= j < cells.len() - 1 ==> cells[j] == cells.drop_last()[j]);
    }
}

proof fn lemma_pixels_max_bounds(pixels: Seq<Pixel>)
    ensures
        0 <= pixels_max_x(pixels) <= u16::MAX,
        0 <= pixels_max_y(pixels) <= u16::MAX,
        forall|i: int, j: int|
            0 <= i < pixels.len() && 0 <= j < pixels[i]@.len() ==> (#[trigger] pixels[i]@[j]).x
                <= pixels_max_x(pixels) && pixels[i]@[j].y <= pixels_max_y(pixels),
    decreases pixels.len(),
{
    if pixels.len() > 0 {
        lemma_pixels_max_bounds(pixels.drop_last());
        lemma_max_cell_bounds(pixels.last()@);
        assert(forall|i: int| 0 <= i < pixels.len() - 1 ==> pixels[i] == pixels.drop_last()[i]);
    }
}

/// A frame of the animation: a set of logical pixels together with the
/// bounding dimensions derived from them and an optional display duration
/// in microseconds.
///
/// `width` and `height` are the largest raw cell coordinates found among
/// the pixels (a crude bounding metric, deliberately not `max + 1`); the
/// mirroring math depends on exactly this value. They are derived at
/// construction and go stale if pixel positions mutate afterwards: callers
/// must call `resize` after any in-place mutation.
#[derive(Clone, Debug)]
pub struct Frame {
    /// The pixels that make up this frame.
    pub pixels: Vec<Pixel>,
    /// Largest raw cell X coordinate at the last (re)computation.
    pub width: u16,
    /// Largest raw cell Y coordinate at the last (re)computation.
    pub height: u16,
    /// How long the frame is shown, in microseconds; when unset the
    /// animation divides one second evenly among all frames.
    pub duration: Option<u64>,
}

/// The stored dimensions bound every cell coordinate of the frame. This is
/// what the mirroring transform needs to stay within its extent.
pub open spec fn frame_covered(f: Frame) -> bool {
    forall|i: int, j: int|
        0 <= i < f.pixels@.len() && 0 <= j < f.pixels@[i]@.len() ==> (#[trigger] f.pixels@[i]@[j]).x
            <= f.width && f.pixels@[i]@[j].y <= f.height
}

impl Frame {
    /// Creates a frame from pixels, deriving its bounding dimensions.
    pub fn new(pixels: Vec<Pixel>, duration: Option<u64>) -> (f: Frame)
        ensures
            f.pixels@ == pixels@,
            f.duration == duration,
            f.width == pixels_max_x(pixels@),
            f.height == pixels_max_y(pixels@),
            frame_covered(f),
    {
        let (width, height) = Frame::dimensions(&pixels);
        let f = Frame { pixels, height, width, duration };
        proof {
            lemma_pixels_max_bounds(f.pixels@);
        }
        f
    }

    /// Scans every cell of every pixel for the largest raw X and Y
    /// coordinates (not `max + 1`, not cell-count aware).
    fn dimensions(pixels: &Vec<Pixel>) -> (dims: (u16, u16))
        ensures
            dims.0 == pixels_max_x(pixels@),
            dims.1 == pixels_max_y(pixels@),
    {
        proof {
            lemma_pixels_max_bounds(pixels@);
        }
        let mut width: u16 = 0;
        let mut height: u16 = 0;
        let mut i: usize = 0;
        while i < pixels.len()
            invariant
                i <= pixels@.len(),
                width == pixels_max_x(pixels@.take(i as int)),
                height == pixels_max_y(pixels@.take(i as int)),
            decreases pixels@.len() - i,
        {
            let cells = &pixels[i].cells;
            let mut j: usize = 0;
            while j < cells.len()
                invariant
                    j <= cells@.len(),
                    cells@ == pixels@[i as int]@,
                    i < pixels@.len(),
                    width == vstd::math::max(
                        pixels_max_x(pixels@.take(i as int)),
                        max_cell_x(cells@.take(j as int)),
                    ),
                    height == vstd::math::max(
                        pixels_max_y(pixels@.take(i as int)),
                        max_cell_y(cells@.take(j as int)),
                    ),
                decreases cells@.len() - j,
            {
                proof {
                    assert(cells@.take(j + 1).drop_last() =~= cells@.take(j as int));
                    assert(cells@.take(j + 1).last() == cells@[j as int]);
                }
                let c = cells[j];
                if c.x > width {
                    width = c.x;
                }
                if c.y > height {
                    height = c.y;
                }
                j = j + 1;
            }
            proof {
                assert(cells@.take(cells@.len() as int) =~= cells@);
                assert(pixels@.take(i + 1).drop_last() =~= pixels@.take(i as int));
                assert(pixels@.take(i + 1).last() == pixels@[i as int]);
            }
            i = i + 1;
        }
        proof {
            assert(pixels@.take(pixels@.len() as int) =~= pixels@);
        }
        (width, height)
    }

    /// Recomputes the stored bounding dimensions from the current pixel
    /// data. Must be called after any in-place pixel mutation such as
    /// `Pixel::move_pos`, or the stored dimensions go stale.
    pub fn resize(&mut self)
        ensures
            final(self).pixels@ == old(self).pixels@,
            final(self).duration == old(self).duration,
            final(self).width == pixels_max_x(old(self).pixels@),
            final(self).height == pixels_max_y(old(self).pixels@),
            frame_covered(*final(self)),
    {
        let (width, height) = Frame::dimensions(&self.pixels);
        self.width = width;
        self.height = height;
        proof {
            lemma_pixels_max_bounds(self.pixels@);
        }
    }
}

/// Mirrors a coordinate value across an axis of the given extent.
pub open spec fn spec_mirror(v: int, extent: int) -> int {
    extent - v
}

/// Mirrors a cell coordinate across an axis: `extent - v`.
pub(crate) fn mirror_point(v: u16, extent: u16) -> (r: u16)
    requires
        v <= extent,
    ensures
        r as int == spec_mirror(v as int, extent as int),
{
    extent - v
}

/// Mirroring is an involution: mirroring a coordinate across the same
/// extent twice gives back the original value, for any value within the
/// extent.
pub proof fn lemma_mirror_involution(v: int, extent: int)
    requires
        0 <= v <= extent,
    ensures
        spec_mirror(spec_mirror(v, extent), extent) == v,
{
}

/// World offsets the compositor accepts; keeps the fixed-point screen
/// position arithmetic inside `i64`.
pub const OFFSET_LIMIT: i64 = 0x2000_0000_0000_0000;

/// The offset each drawn cell is shifted by stays small enough that the
/// screen-position arithmetic cannot overflow.
pub open spec fn offset_in_range(off: Coordinate) -> bool {
    &&& -OFFSET_LIMIT <= off.x <= OFFSET_LIMIT
    &&& -OFFSET_LIMIT <= off.y <= OFFSET_LIMIT
}

/// Rounds a fixed-point position to the nearest whole cell, with halves
/// rounding away from zero.
pub open spec fn round_to_cell(v: int) -> int {
    if v >= 0 {
        (v + SUBCELL_HALF) / (SUBCELL as int)
    } else {
        -((-v + SUBCELL_HALF) / (SUBCELL as int))
    }
}

/// Rounds a fixed-point position to the nearest whole cell.
pub(crate) fn round_cell(v: i64) -> (r: i64)
    requires
        -0x4000_0000_0000_0000 <= v <= 0x4000_0000_0000_0000,
    ensures
        r == round_to_cell(v as int),
{
    if v >= 0 {
        (((v + SUBCELL_HALF) as u64) / (SUBCELL as u64)) as i64
    } else {
        let m: u64 = (-v) as u64;
        -(((m + (SUBCELL_HALF as u64)) / (SUBCELL as u64)) as i64)
    }
}

/// The X coordinate of a cell after the mirror transform.
pub open spec fn mirrored_x(c: Cell, m: MirrorDirectionValue) -> int {
    match m {
        MirrorDirectionValue::FlipVertical(e) => spec_mirror(c.x as int, e as int),
        _ => c.x as int,
    }
}

/// The Y coordinate of a cell after the mirror transform.
pub open spec fn mirrored_y(c: Cell, m: MirrorDirectionValue) -> int {
    match m {
        MirrorDirectionValue::FlipHorizontal(e) => spec_mirror(c.y as int, e as int),
        _ => c.y as int,
    }
}

/// Where a cell lands in a `w * h` screen buffer: mirror, add the world
/// offset, round to the nearest whole cell, and bounds-check. `None` when
/// the final position falls outside `[0, w) x [0, h)`; otherwise the
/// row-major byte index of the cell's four bytes.
pub open spec fn cell_target(c: Cell, m: MirrorDirectionValue, off: Coordinate, w: u32, h: u32) -> Option<
    int,
> {
    let cx = round_to_cell(off.x + mirrored_x(c, m) * SUBCELL);
    let cy = round_to_cell(off.y + mirrored_y(c, m) * SUBCELL);
    if 0 <= cx && cx < w && 0 <= cy && cy < h {
        Some((cy * w + cx) * 4)
    } else {
        None
    }
}

/// The four bytes a color writes: RGB becomes fully opaque, RGBA is taken
/// verbatim.
pub open spec fn color_bytes(c: Color) -> Seq<u8> {
    match c {
        Color::RGB(r, g, b) => seq![r, g, b, 255u8],
        Color::RGBA(r, g, b, a) => seq![r, g, b, a],
    }
}

/// A buffer after drawing one cell: the cell's four color bytes overwrite
/// the bytes at its target index, or nothing changes when the cell lands
/// off screen.
pub open spec fn write_cell(
    buf: Seq<u8>,
    c: Cell,
    m: MirrorDirectionValue,
    off: Coordinate,
    w: u32,
    h: u32,
) -> Seq<u8> {
    match cell_target(c, m, off, w, h) {
        Some(idx) => if 0 <= idx && idx + 4 <= buf.len() {
            buf.update(idx, color_bytes(c.color)[0]).update(idx + 1, color_bytes(c.color)[1]).update(
                idx + 2,
                color_bytes(c.color)[2],
            ).update(idx + 3, color_bytes(c.color)[3])
        } else {
            buf
        },
        None => buf,
    }
}

/// A buffer after drawing a list of cells in order.
pub open spec fn draw_seq(
    buf: Seq<u8>,
    cells: Seq<Cell>,
    m: MirrorDirectionValue,
    off: Coordinate,
    w: u32,
    h: u32,
) -> Seq<u8>
    decreases cells.len(),
{
    if cells.len() == 0 {
        buf
    } else {
        write_cell(draw_seq(buf, cells.drop_last(), m, off, w, h), cells.last(), m, off, w, h)
    }
}

/// Drawing a concatenation draws the first list, then the second.
pub proof fn lemma_draw_seq_append(
    buf: Seq<u8>,
    a: Seq<Cell>,
    b: Seq<Cell>,
    m: MirrorDirectionValue,
    off: Coordinate,
    w: u32,
    h: u32,
)
    ensures
        draw_seq(buf, a + b, m, off, w, h) == draw_seq(draw_seq(buf, a, m, off, w, h), b, m, off, w, h),
    decreases b.len(),
{
    if b.len() == 0 {
        assert(a + b =~= a);
    } else {
        lemma_draw_seq_append(buf, a, b.drop_last(), m, off, w, h);
        assert((a + b).drop_last() =~= a + b.drop_last());
        assert((a + b).last() == b.last());
    }
}

/// A cell whose final screen position falls outside the bounds writes no
/// bytes at all: the buffer is unchanged.
pub proof fn lemma_offscreen_cell_writes_nothing(
    buf: Seq<u8>,
    c: Cell,
    m: MirrorDirectionValue,
    off: Coordinate,
    w: u32,
    h: u32,
)
    requires
        cell_target(c, m, off, w, h) is None,
    ensures
        write_cell(buf, c, m, off, w, h) == buf,
{
}

/// An on-screen cell write changes exactly the four bytes at its target
/// index — they become the cell's color bytes — and leaves every other
/// byte of the buffer untouched.
pub proof fn lemma_onscreen_cell_writes_four_bytes(
    buf: Seq<u8>,
    c: Cell,
    m: MirrorDirectionValue,
    off: Coordinate,
    w: u32,
    h: u32,
    idx: int,
)
    requires
        cell_target(c, m, off, w, h) == Some(idx),
        0 <= idx,
        idx + 4 <= buf.len(),
    ensures
        write_cell(buf, c, m, off, w, h).len() == buf.len(),
        forall|k: int| 0 <= k < 4 ==> write_cell(buf, c, m, off, w, h)[idx + k] == color_bytes(
            c.color,
        )[k],
        forall|k: int|
            0 <= k < buf.len() && !(idx <= k < idx + 4) ==> write_cell(buf, c, m, off, w, h)[k]
                == buf[k],
{
}

/// For an on-screen target, the byte index addresses a whole pixel inside
/// the buffer.
proof fn lemma_index_bound(cx: int, cy: int, w: int, h: int) by (nonlinear_arith)
    requires
        0 <= cx < w,
        0 <= cy < h,
    ensures
        0 <= cy * w + cx,
        (cy * w + cx) * 4 + 4 <= w * h * 4,
{
}

/// Whatever extent the mirror transform carries covers every cell
/// coordinate it will be applied to, so the subtraction cannot wrap.
pub open spec fn mirror_covers(cells: Seq<Cell>, m: MirrorDirectionValue) -> bool {
    match m {
        MirrorDirectionValue::FlipVertical(e) => forall|i: int|
            0 <= i < cells.len() ==> (#[trigger] cells[i]).x <= e,
        MirrorDirectionValue::FlipHorizontal(e) => forall|i: int|
            0 <= i < cells.len() ==> (#[trigger] cells[i]).y <= e,
        MirrorDirectionValue::NoMirror => true,
    }
}

impl Pixel {
    /// Draws every cell of this pixel into the screen buffer, in order:
    /// mirror, shift by the world offset, round to the nearest cell, and
    /// write the four color bytes — skipping, silently, any cell that
    /// lands off screen.
    pub fn draw(&self, screen: &mut Screen, mirror: MirrorDirectionValue, offset: Coordinate)
        requires
            old(screen).wf(),
            mirror_covers(self@, mirror),
            offset_in_range(offset),
        ensures
            final(screen).wf(),
            final(screen).width == old(screen).width,
            final(screen).height == old(screen).height,
            final(screen).buffer@ == draw_seq(
                old(screen).buffer@,
                self@,
                mirror,
                offset,
                old(screen).width,
                old(screen).height,
            ),
    {
        let w = screen.width;
        let h = screen.height;
        let buf_len: usize = screen.buffer.len();
        let mut i: usize = 0;
        while i < self.cells.len()
            invariant
                i <= self@.len(),
                screen.buffer@.len() == buf_len,
                screen.wf(),
                screen.width == w,
                screen.height == h,
                w == old(screen).width,
                h == old(screen).height,
                mirror_covers(self@, mirror),
                offset_in_range(offset),
                screen.buffer@ == draw_seq(old(screen).buffer@, self@.take(i as int), mirror, offset, w, h),
            decreases self@.len() - i,
        {
            let ghost pre = screen.buffer@;
            let c = self.cells[i];
            let (mx, my): (u16, u16) = match mirror {
                MirrorDirectionValue::FlipVertical(e) => (mirror_point(c.x, e), c.y),
                MirrorDirectionValue::FlipHorizontal(e) => (c.x, mirror_point(c.y, e)),
                MirrorDirectionValue::NoMirror => (c.x, c.y),
            };
            let tx: i64 = offset.x + (mx as i64) * SUBCELL;
            let ty: i64 = offset.y + (my as i64) * SUBCELL;
            let cx: i64 = round_cell(tx);
            let cy: i64 = round_cell(ty);
            proof {
                assert(mx as int == mirrored_x(c, mirror));
                assert(my as int == mirrored_y(c, mirror));
            }
            if cx >= 0 && cx < (w as i64) && cy >= 0 && cy < (h as i64) {
                proof {
                    lemma_index_bound(cx as int, cy as int, w as int, h as int);
                }
                let idx: usize = ((cy as usize) * (w as usize) + (cx as usize)) * 4;
                match c.color {
                    Color::RGB(r, g, b) => {
                        self.write_bytes(screen, idx, r, g, b, 255u8);
                    },
                    Color::RGBA(r, g, b, a) => {
                        self.write_bytes(screen, idx, r, g, b, a);
                    },
                }
                proof {
                    assert(cell_target(c, mirror, offset, w, h) == Some(idx as int));
                    assert(screen.buffer@ == write_cell(pre, c, mirror, offset, w, h));
                }
            } else {
                proof {
                    assert(cell_target(c, mirror, offset, w, h) is None);
                    assert(screen.buffer@ == write_cell(pre, c, mirror, offset, w, h));
                }
            }
            proof {
                assert(self@.take(i + 1).drop_last() =~= self@.take(i as int));
                assert(self@.take(i + 1).last() == self@[i as int]);
            }
            i = i + 1;
        }
        proof {
            assert(self@.take(self@.len() as int) =~= self@);
        }
    }

    /// Writes one pixel's four bytes at a byte index of the screen buffer.
    fn write_bytes(&self, screen: &mut Screen, idx: usize, r: u8, g: u8, b: u8, a: u8)
        requires
            idx + 4 <= old(screen).buffer@.len(),
            idx + 4 <= usize::MAX,
        ensures
            final(screen).width == old(screen).width,
            final(screen).height == old(screen).height,
            final(screen).buffer@ == old(screen).buffer@.update(idx as int, r).update(
                idx + 1,
                g,
            ).update(idx + 2, b).update(idx + 3, a),
    {
        screen.buffer[idx] = r;
        screen.buffer[idx + 1] = g;
        screen.buffer[idx + 2] = b;
        screen.buffer[idx + 3] = a;
    }
}

} // verus!

//! What is done for a frame of the terminal: the rectangles and texts to draw for
//! the cells, the cursor and the scrollbar, and the dirty flags to clear, in order.
use vstd::arithmetic::mul::*;
use vstd::prelude::*;
use vstd::utf8::*;

use crate::status::{value_or_error, Error, ResultCode};
use crate::utf8::{char_len, text_of};

verus! {

/// Pixels between the window's edge and the first cell.
pub const PADDING: i32 = 4;

/// Code points of a cell that are looked at.
pub const MAX_CODEPOINTS: usize = 16;

/// A text that takes this many bytes gets no further character.
pub const TEXT_LIMIT: usize = 60;

/// An opaque color.
#[derive(Clone, Copy, Debug, PartialEq, Eq, Structural)]
pub struct Rgb {
    pub r: u8,
    pub g: u8,
    pub b: u8,
}

/// A color with an alpha channel.
#[derive(Clone, Copy, Debug, PartialEq, Eq, Structural)]
pub struct Color {
    pub r: u8,
    pub g: u8,
    pub b: u8,
    pub a: u8,
}

impl Rgb {
    /// This color with the given alpha.
    pub open spec fn alpha(self, a: u8) -> Color {
        Color { r: self.r, g: self.g, b: self.b, a }
    }

    /// This color with the given alpha.
    pub fn with_alpha(self, a: u8) -> (c: Color)
        ensures
            c == self.alpha(a),
    {
        Color { r: self.r, g: self.g, b: self.b, a }
    }
}

/// The terminal's default colors and its palette.
#[derive(Clone, Copy)]
pub struct Colors {
    pub background: Rgb,
    pub foreground: Rgb,
    pub cursor: Option<Rgb>,
    pub palette: [Rgb; 256],
}

/// The background of a cell without text, as far as it has one of its own.
#[derive(Clone, Copy, Debug, PartialEq, Eq, Structural)]
pub enum Backdrop {
    Absent,
    Palette(u8),
    Direct(Rgb),
}

/// What a cell holds, as far as that decides its background.
#[derive(Clone, Copy, Debug, PartialEq, Eq, Structural)]
pub enum ContentTag {
    /// A background out of the palette, and no text.
    BgColorPalette,
    /// A background of its own, and no text.
    BgColorRgb,
    /// Anything else.
    Other,
}

/// The background that a cell without text has of its own; what cannot be read
/// counts as absent.
pub fn backdrop_of(tag: Option<ContentTag>, palette: Option<u8>, direct: Option<Rgb>) -> (b:
    Backdrop)
    ensures
        b == match (tag, palette, direct) {
            (Some(ContentTag::BgColorPalette), Some(i), _) => Backdrop::Palette(i),
            (Some(ContentTag::BgColorRgb), _, Some(c)) => Backdrop::Direct(c),
            _ => Backdrop::Absent,
        },
{
    match tag {
        Some(ContentTag::BgColorPalette) => match palette {
            Some(i) => Backdrop::Palette(i),
            None => Backdrop::Absent,
        },
        Some(ContentTag::BgColorRgb) => match direct {
            Some(c) => Backdrop::Direct(c),
            None => Backdrop::Absent,
        },
        _ => Backdrop::Absent,
    }
}

/// A color of a cell. One that has none of its own is answered with the code for
/// an invalid value.
pub fn optional_color(code: ResultCode, color: Rgb) -> (r: Result<Option<Rgb>, Error>)
    ensures
        r == (if code == ResultCode::InvalidValue {
            Ok::<Option<Rgb>, Error>(None)
        } else {
            crate::status::value_when(code, 0, Some(color))
        }),
{
    match code {
        ResultCode::InvalidValue => Ok(None),
        _ => value_or_error(code, Some(color)),
    }
}

/// The style flags that show.
#[derive(Clone, Copy, Debug, PartialEq, Eq, Structural)]
pub struct CellStyle {
    pub inverse: bool,
    pub bold: bool,
    pub italic: bool,
}

/// One cell: the number of code points that it reports, the first of them, its
/// own colors where it has any, and its style. A cell without code points shows
/// only its backdrop.
#[derive(Clone, Copy)]
pub struct Cell {
    pub grapheme_len: usize,
    pub codepoints: [char; 16],
    pub fg: Option<Rgb>,
    pub bg: Option<Rgb>,
    pub style: CellStyle,
    pub backdrop: Backdrop,
}

/// Sizes in pixels.
#[derive(Clone, Copy, Debug, PartialEq, Eq, Structural)]
pub struct Geometry {
    pub cell_width: i32,
    pub cell_height: i32,
    pub font_size: i32,
}

/// The thumb of the scrollbar.
#[derive(Clone, Copy, Debug, PartialEq, Eq, Structural)]
pub struct Thumb {
    pub screen_width: i32,
    pub y: i32,
    pub height: i32,
}

/// Everything that a frame shows, as far as it can be read. A row whose cells
/// cannot be read is `None`. Where reading a cell failed, the last row holds the
/// cells before it.
pub struct Frame {
    /// The colors, where they can be read.
    pub colors: Option<Colors>,
    /// The rows, where they can be read.
    pub rows: Option<Vec<Option<Vec<Cell>>>>,
    /// Reading a cell of the last row failed.
    pub failed: bool,
    pub cursor_visible: bool,
    pub cursor: Option<(u16, u16)>,
    pub thumb: Option<Thumb>,
}

/// One thing to do for a frame.
#[derive(Debug)]
pub enum DrawOp {
    /// A filled rectangle.
    Rect { x: i32, y: i32, width: i32, height: i32, color: Color },
    /// A text whose upper left corner is at the position.
    Text { text: String, x: i32, y: i32, color: Color },
    /// Clear the dirty flag of the row in this place.
    CleanRow { row: usize },
    /// Clear the dirty flag of the whole frame.
    CleanFrame,
}

/// What a [`DrawOp`] does.
pub enum Shape {
    Rect { x: int, y: int, width: int, height: int, color: Color },
    Text { text: Seq<char>, x: int, y: int, color: Color },
    CleanRow { row: int },
    CleanFrame,
}

impl View for DrawOp {
    type V = Shape;

    open spec fn view(&self) -> Shape {
        match self {
            DrawOp::Rect { x, y, width, height, color } => Shape::Rect {
                x: *x as int,
                y: *y as int,
                width: *width as int,
                height: *height as int,
                color: *color,
            },
            DrawOp::Text { text, x, y, color } => Shape::Text {
                text: text@,
                x: *x as int,
                y: *y as int,
                color: *color,
            },
            DrawOp::CleanRow { row } => Shape::CleanRow { row: *row as int },
            DrawOp::CleanFrame => Shape::CleanFrame,
        }
    }
}

/// What a list of operations does.
pub open spec fn shapes(ops: Seq<DrawOp>) -> Seq<Shape> {
    ops.map_values(|op: DrawOp| op@)
}

/// The longest beginning of `chars` in which no character starts at or behind
/// the byte [`TEXT_LIMIT`] of the UTF-8 encoding.
pub open spec fn clipped(chars: Seq<char>) -> Seq<char>
    decreases chars.len(),
{
    if chars.len() == 0 {
        chars
    } else {
        let init = chars.drop_last();
        if clipped(init) == init && encode_utf8(init).len() < TEXT_LIMIT {
            chars
        } else {
            clipped(init)
        }
    }
}

impl Cell {
    /// The text that the cell shows.
    pub open spec fn text(self) -> Seq<char> {
        clipped(
            self.codepoints@.take(
                if self.grapheme_len < MAX_CODEPOINTS {
                    self.grapheme_len as int
                } else {
                    MAX_CODEPOINTS as int
                },
            ),
        )
    }

    /// The color of the cell's own foreground, or the default one.
    pub open spec fn own_fg(self, colors: Colors) -> Rgb {
        match self.fg {
            Some(c) => c,
            None => colors.foreground,
        }
    }

    /// The color of the cell's own background, or the default one.
    pub open spec fn own_bg(self, colors: Colors) -> Rgb {
        match self.bg {
            Some(c) => c,
            None => colors.background,
        }
    }

    /// The color of the text: inverse cells swap it with the background.
    pub open spec fn ink(self, colors: Colors) -> Rgb {
        if self.style.inverse {
            self.own_bg(colors)
        } else {
            self.own_fg(colors)
        }
    }

    /// The color behind the text, where it is painted at all.
    pub open spec fn paper(self, colors: Colors) -> Option<Rgb> {
        if self.style.inverse {
            Some(self.own_fg(colors))
        } else {
            self.bg
        }
    }

    /// The color that fills a cell without text, if any.
    pub open spec fn fill(self, colors: Colors) -> Option<Rgb> {
        match self.backdrop {
            Backdrop::Absent => None,
            Backdrop::Palette(i) => Some(colors.palette@[i as int]),
            Backdrop::Direct(c) => Some(c),
        }
    }

    /// How far to the right of its own place the cell's text is drawn.
    pub open spec fn reach(self, g: Geometry) -> int {
        if self.grapheme_len == 0 {
            0
        } else {
            (if self.style.italic {
                g.font_size as int / 6
            } else {
                0
            }) + (if self.style.bold {
                1int
            } else {
                0
            })
        }
    }

    /// What the cell draws at the pixel position (`x`, `y`).
    pub open spec fn shapes(self, colors: Colors, g: Geometry, x: int, y: int) -> Seq<Shape> {
        if self.grapheme_len == 0 {
            g.filled(self.fill(colors), x, y)
        } else {
            let tx = x + if self.style.italic {
                g.font_size as int / 6
            } else {
                0
            };
            let color = self.ink(colors).alpha(255);
            g.filled(self.paper(colors), x, y) + seq![
                Shape::Text { text: self.text(), x: tx, y, color },
            ] + if self.style.bold {
                seq![Shape::Text { text: self.text(), x: tx + 1, y, color }]
            } else {
                Seq::empty()
            }
        }
    }
}

impl Geometry {
    /// A cell filled with a color, or nothing.
    pub open spec fn filled(self, color: Option<Rgb>, x: int, y: int) -> Seq<Shape> {
        match color {
            Some(c) => seq![
                Shape::Rect {
                    x,
                    y,
                    width: self.cell_width as int,
                    height: self.cell_height as int,
                    color: c.alpha(255),
                },
            ],
            None => Seq::empty(),
        }
    }

    /// The left edge of the column `i`.
    pub open spec fn column(self, i: int) -> int {
        PADDING + i * self.cell_width
    }

    /// The upper edge of the line `i`.
    pub open spec fn line(self, i: int) -> int {
        PADDING + i * self.cell_height
    }
}

/// What the first `n` cells of a row draw at the height `y`.
pub open spec fn row_shapes(
    cells: Seq<Cell>,
    n: nat,
    colors: Colors,
    g: Geometry,
    y: int,
) -> Seq<Shape>
    decreases n,
{
    if n == 0 {
        Seq::empty()
    } else {
        row_shapes(cells, (n - 1) as nat, colors, g, y) + cells[n - 1].shapes(
            colors,
            g,
            g.column(n - 1),
            y,
        )
    }
}

/// How many of the first `n` rows could be read.
pub open spec fn readable(rows: Seq<Option<Vec<Cell>>>, n: nat) -> nat
    decreases n,
{
    if n == 0 {
        0
    } else {
        readable(rows, (n - 1) as nat) + if rows[n - 1] is Some {
            1nat
        } else {
            0nat
        }
    }
}

/// What is done for the first `n` rows. A row that could not be read takes no
/// space; every other is drawn, and the rows before the place `whole` are marked as
/// clean behind that.
pub open spec fn grid_shapes(
    rows: Seq<Option<Vec<Cell>>>,
    n: nat,
    whole: int,
    colors: Colors,
    g: Geometry,
) -> Seq<Shape>
    decreases n,
{
    if n == 0 {
        Seq::empty()
    } else {
        grid_shapes(rows, (n - 1) as nat, whole, colors, g) + match rows[n - 1] {
            Some(cells) => row_shapes(
                cells@,
                cells@.len(),
                colors,
                g,
                g.line(readable(rows, (n - 1) as nat) as int),
            ) + row_cleaned(n - 1, whole),
            None => Seq::empty(),
        }
    }
}

/// The clearing of the row in the place `row`, where it comes before `whole`.
pub open spec fn row_cleaned(row: int, whole: int) -> Seq<Shape> {
    if row < whole {
        seq![Shape::CleanRow { row }]
    } else {
        Seq::empty()
    }
}

/// The clearings of the first `n` rows: one for each row before `whole` that could
/// be read.
pub open spec fn rows_cleaned(rows: Seq<Option<Vec<Cell>>>, n: nat, whole: int) -> Seq<Shape>
    decreases n,
{
    if n == 0 {
        Seq::empty()
    } else {
        rows_cleaned(rows, (n - 1) as nat, whole) + match rows[n - 1] {
            Some(_) => row_cleaned(n - 1, whole),
            None => Seq::empty(),
        }
    }
}

/// Every text of the row is drawn at a place that is a machine integer.
pub open spec fn row_fits(cells: Seq<Cell>, g: Geometry) -> bool {
    forall|j: int|
        0 <= j < cells.len() ==> g.column(j) + (#[trigger] cells[j]).reach(g) <= i32::MAX
}

impl Frame {
    /// The cursor: a translucent block over its cell.
    pub open spec fn cursor_shapes(self, colors: Colors, g: Geometry) -> Seq<Shape> {
        match self.cursor {
            Some((cx, cy)) if self.cursor_visible => {
                let color = match colors.cursor {
                    Some(c) => c,
                    None => colors.foreground,
                };
                seq![
                    Shape::Rect {
                        x: g.column(cx as int),
                        y: g.line(cy as int),
                        width: g.cell_width as int,
                        height: g.cell_height as int,
                        color: color.alpha(128),
                    },
                ]
            },
            _ => Seq::empty(),
        }
    }

    /// The scrollbar's thumb: six pixels wide, two from the right edge.
    pub open spec fn thumb_shapes(self) -> Seq<Shape> {
        match self.thumb {
            Some(t) => seq![
                Shape::Rect {
                    x: t.screen_width - 8,
                    y: t.y as int,
                    width: 6,
                    height: t.height as int,
                    color: Color { r: 200, g: 200, b: 200, a: 128 },
                },
            ],
            None => Seq::empty(),
        }
    }

    /// The number of rows that were read to their end: all of them, or all but the
    /// last where reading a cell failed.
    pub open spec fn whole(self) -> int {
        match self.rows {
            Some(rows) => rows@.len() - if self.failed {
                1int
            } else {
                0
            },
            None => 0,
        }
    }

    /// The whole frame. Where the colors or the rows cannot be read, nothing is
    /// done. Where reading a cell failed, nothing is done behind the cells before
    /// it. Otherwise the frame is marked as clean at the end.
    pub open spec fn shapes(self, g: Geometry) -> Seq<Shape> {
        match (self.colors, self.rows) {
            (Some(colors), Some(rows)) => {
                let grid = grid_shapes(rows@, rows@.len(), self.whole(), colors, g);
                if self.failed {
                    grid
                } else {
                    grid + self.cursor_shapes(colors, g) + self.thumb_shapes() + seq![
                        Shape::CleanFrame,
                    ]
                }
            },
            _ => Seq::empty(),
        }
    }

    /// The dirty flags that are cleared, in order: those of the rows that were read
    /// to their end, and then that of the frame, unless reading a cell failed.
    pub open spec fn cleaned(self) -> Seq<Shape> {
        match (self.colors, self.rows) {
            (Some(_), Some(rows)) => rows_cleaned(rows@, rows@.len(), self.whole())
                + if self.failed {
                Seq::empty()
            } else {
                seq![Shape::CleanFrame]
            },
            _ => Seq::empty(),
        }
    }

    /// Every coordinate that is drawn is a machine integer.
    pub open spec fn fits(self, g: Geometry) -> bool {
        match (self.colors, self.rows) {
            (Some(_), Some(rows)) => {
                &&& g.cell_width >= 1
                &&& g.cell_height >= 1
                &&& g.font_size >= 0
                &&& forall|i: int|
                    0 <= i < rows@.len() && (#[trigger] rows@[i]) is Some ==> g.line(
                        readable(rows@, i as nat) as int,
                    ) <= i32::MAX && row_fits(rows@[i]->0@, g)
                &&& !self.failed && self.cursor_visible ==> (self.cursor matches Some((cx, cy))
                    ==> g.column(cx as int) <= i32::MAX && g.line(cy as int) <= i32::MAX)
                &&& !self.failed && self.thumb is Some ==> self.thumb->0.screen_width >= i32::MIN
                    + 8
            },
            _ => true,
        }
    }
}

/// How far to the right of its own place a cell's text is drawn.
fn cell_reach(cell: &Cell, g: &Geometry) -> (n: i64)
    requires
        g.font_size >= 0,
    ensures
        n == cell.reach(*g),
        0 <= n <= i32::MAX,
{
    if cell.grapheme_len == 0 {
        return 0;
    }
    let italic: i64 = if cell.style.italic {
        (g.font_size / 6) as i64
    } else {
        0
    };
    if cell.style.bold {
        italic + 1
    } else {
        italic
    }
}

/// Whether every text of a row is drawn at a place that is a machine integer.
fn row_can_be_drawn(cells: &Vec<Cell>, g: &Geometry) -> (b: bool)
    requires
        g.cell_width >= 1,
        g.font_size >= 0,
    ensures
        b == row_fits(cells@, *g),
{
    let mut x: i64 = PADDING as i64;
    let mut j: usize = 0;
    proof {
        lemma_mul_basics(g.cell_width as int);
    }
    while j < cells.len()
        invariant
            j <= cells@.len(),
            g.cell_width >= 1,
            g.font_size >= 0,
            x == g.column(j as int),
            x <= 2 * i32::MAX,
            forall|k: int|
                0 <= k < j ==> g.column(k) + (#[trigger] cells@[k]).reach(*g) <= i32::MAX,
        decreases cells@.len() - j,
    {
        proof {
            lemma_mul_is_distributive_add_other_way(g.cell_width as int, j as int, 1);
            lemma_mul_nonnegative(j as int, g.cell_width as int);
        }
        if x + cell_reach(&cells[j], g) > i32::MAX as i64 {
            assert(g.column(j as int) + cells@[j as int].reach(*g) > i32::MAX);
            return false;
        }
        x = x + g.cell_width as i64;
        j = j + 1;
    }
    true
}

/// Whether the place `i` of a line of units behind the padding is a machine
/// integer.
fn place_fits(i: u16, unit: i32) -> (b: bool)
    requires
        unit >= 1,
    ensures
        b == (PADDING + i * unit <= i32::MAX),
{
    assert(0 <= i * unit <= 0xffff * 0x7fff_ffff) by (nonlinear_arith)
        requires
            0 <= i <= 0xffff,
            1 <= unit <= 0x7fff_ffff,
    ;
    PADDING as i64 + i as i64 * unit as i64 <= i32::MAX as i64
}

impl Frame {
    /// Whether every coordinate that is drawn is a machine integer, so that the
    /// frame can be drawn.
    pub fn can_be_drawn(&self, g: &Geometry) -> (b: bool)
        ensures
            b == self.fits(*g),
    {
        if self.colors.is_none() {
            return true;
        }
        let rows = match &self.rows {
            Some(rows) => rows,
            None => {
                return true;
            },
        };
        if g.cell_width < 1 || g.cell_height < 1 || g.font_size < 0 {
            return false;
        }
        let mut y: i64 = PADDING as i64;
        let mut i: usize = 0;
        proof {
            lemma_mul_basics(g.cell_height as int);
        }
        while i < rows.len()
            invariant
                i <= rows@.len(),
                self.colors is Some,
                self.rows == Some(*rows),
                g.cell_width >= 1,
                g.cell_height >= 1,
                g.font_size >= 0,
                y == g.line(readable(rows@, i as nat) as int),
                y <= 2 * i32::MAX,
                forall|k: int|
                    0 <= k < i && (#[trigger] rows@[k]) is Some ==> g.line(
                        readable(rows@, k as nat) as int,
                    ) <= i32::MAX && row_fits(rows@[k]->0@, *g),
            decreases rows@.len() - i,
        {
            if let Some(cells) = &rows[i] {
                proof {
                    let k = readable(rows@, i as nat) as int;
                    lemma_mul_is_distributive_add_other_way(g.cell_height as int, k, 1);
                    assert(rows@[i as int] is Some);
                }
                if y > i32::MAX as i64 || !row_can_be_drawn(cells, g) {
                    return false;
                }
                y = y + g.cell_height as i64;
            }
            i = i + 1;
        }
        if self.failed {
            return true;
        }
        if self.cursor_visible {
            if let Some((cx, cy)) = self.cursor {
                if !place_fits(cx, g.cell_width) || !place_fits(cy, g.cell_height) {
                    return false;
                }
            }
        }
        match self.thumb {
            Some(t) => t.screen_width >= i32::MIN + 8,
            None => true,
        }
    }
}

/// The text that a cell shows: at most [`MAX_CODEPOINTS`] characters, and none
/// that would start at or behind [`TEXT_LIMIT`].
fn cell_text(cell: &Cell) -> (chars: Vec<char>)
    ensures
        chars@ == cell.text(),
{
    let count: usize = if cell.grapheme_len < MAX_CODEPOINTS {
        cell.grapheme_len
    } else {
        MAX_CODEPOINTS
    };
    let ghost all = cell.codepoints@.take(count as int);
    let mut chars: Vec<char> = Vec::new();
    let mut pos: usize = 0;
    let mut i: usize = 0;
    proof {
        assert(all.take(0) =~= Seq::<char>::empty());
        assert(encode_utf8(Seq::<char>::empty()) =~= Seq::<u8>::empty());
    }
    while i < count
        invariant
            i <= count <= 16,
            all == cell.codepoints@.take(count as int),
            all.len() == count,
            cell.text() == clipped(all),
            chars@ == all.take(i as int),
            clipped(all.take(i as int)) == all.take(i as int),
            pos == encode_utf8(all.take(i as int)).len(),
            pos < TEXT_LIMIT + 4,
        decreases count - i,
    {
        if pos >= TEXT_LIMIT {
            proof {
                lemma_clipped_stays(all, i as int, count as int);
                assert(all.take(count as int) =~= all);
            }
            return chars;
        }
        let c: char = cell.codepoints[i];
        proof {
            assert(all.take(i + 1).drop_last() =~= all.take(i as int));
            assert(all.take(i + 1) =~= all.take(i as int).push(c));
            crate::utf8::lemma_encoded_len_push(all.take(i as int), c);
        }
        chars.push(c);
        pos = pos + char_len(c);
        i = i + 1;
    }
    assert(all.take(i as int) =~= all);
    chars
}

/// Once a beginning takes too many bytes, a longer one is clipped to it.
proof fn lemma_clipped_stays(chars: Seq<char>, k: int, n: int)
    requires
        0 <= k <= n <= chars.len(),
        clipped(chars.take(k)) == chars.take(k),
        encode_utf8(chars.take(k)).len() >= TEXT_LIMIT,
    ensures
        clipped(chars.take(n)) == chars.take(k),
    decreases n - k,
{
    if n > k {
        assert(chars.take(n).drop_last() =~= chars.take(n - 1));
        lemma_clipped_stays(chars, k, n - 1);
        if n - 1 > k {
            assert(chars.take(n - 1).len() != chars.take(k).len());
        }
    }
}

/// Draws a cell filled with a color.
fn push_fill(ops: &mut Vec<DrawOp>, color: Rgb, g: &Geometry, x: i32, y: i32)
    ensures
        shapes(final(ops)@) == shapes(old(ops)@) + g.filled(Some(color), x as int, y as int),
{
    let op = DrawOp::Rect {
        x,
        y,
        width: g.cell_width,
        height: g.cell_height,
        color: color.with_alpha(255),
    };
    ops.push(op);
    assert(shapes(ops@) =~= shapes(old(ops)@) + g.filled(Some(color), x as int, y as int));
}

/// Draws a text.
fn push_text(ops: &mut Vec<DrawOp>, chars: &Vec<char>, x: i32, y: i32, color: Color)
    ensures
        shapes(final(ops)@) == shapes(old(ops)@) + seq![
            Shape::Text { text: chars@, x: x as int, y: y as int, color },
        ],
{
    let text = text_of(chars.as_slice());
    let op = DrawOp::Text { text, x, y, color };
    let ghost shape = Shape::Text { text: chars@, x: x as int, y: y as int, color };
    assert(op@ == shape);
    ops.push(op);
    assert(shapes(ops@) =~= shapes(old(ops)@) + seq![shape]);
}

/// Draws one cell.
fn push_cell(ops: &mut Vec<DrawOp>, cell: &Cell, colors: &Colors, g: &Geometry, x: i32, y: i32)
    requires
        g.font_size >= 0,
        x >= 0,
        x + cell.reach(*g) <= i32::MAX,
    ensures
        shapes(final(ops)@) == shapes(old(ops)@) + cell.shapes(*colors, *g, x as int, y as int),
{
    let ghost before = shapes(ops@);
    if cell.grapheme_len == 0 {
        match cell.backdrop {
            Backdrop::Absent => {
                assert(before =~= before + cell.shapes(*colors, *g, x as int, y as int));
            },
            Backdrop::Palette(i) => {
                push_fill(ops, colors.palette[i as usize], g, x, y);
            },
            Backdrop::Direct(c) => {
                push_fill(ops, c, g, x, y);
            },
        }
        return;
    }
    let chars = cell_text(cell);
    let mut fg: Rgb = match cell.fg {
        Some(c) => c,
        None => colors.foreground,
    };
    let mut has_bg: bool = cell.bg.is_some();
    let mut bg: Rgb = match cell.bg {
        Some(c) => c,
        None => colors.background,
    };
    if cell.style.inverse {
        let swapped: Rgb = fg;
        fg = bg;
        bg = swapped;
        has_bg = true;
    }
    let color: Color = fg.with_alpha(255);
    if has_bg {
        push_fill(ops, bg, g, x, y);
    }
    let ghost filled = g.filled(cell.paper(*colors), x as int, y as int);
    assert(shapes(ops@) =~= before + filled);
    let italic_offset: i32 = if cell.style.italic {
        g.font_size / 6
    } else {
        0
    };
    let tx: i32 = x + italic_offset;
    let ghost first = Shape::Text { text: cell.text(), x: tx as int, y: y as int, color };
    let ghost second = Shape::Text { text: cell.text(), x: tx + 1, y: y as int, color };
    push_text(ops, &chars, tx, y, color);
    if cell.style.bold {
        push_text(ops, &chars, tx + 1, y, color);
        assert(shapes(ops@) =~= before + (filled + seq![first] + seq![second]));
    } else {
        assert(shapes(ops@) =~= before + (filled + seq![first] + Seq::<Shape>::empty()));
    }
}

/// Draws one row of cells.
fn push_row(ops: &mut Vec<DrawOp>, cells: &Vec<Cell>, colors: &Colors, g: &Geometry, y: i32)
    requires
        g.cell_width >= 1,
        g.font_size >= 0,
        row_fits(cells@, *g),
    ensures
        shapes(final(ops)@) == shapes(old(ops)@) + row_shapes(
            cells@,
            cells@.len(),
            *colors,
            *g,
            y as int,
        ),
{
    let ghost before = shapes(ops@);
    let mut x: i64 = PADDING as i64;
    let mut i: usize = 0;
    proof {
        lemma_mul_basics(g.cell_width as int);
        assert(before =~= before + row_shapes(cells@, 0, *colors, *g, y as int));
    }
    while i < cells.len()
        invariant
            i <= cells@.len(),
            g.cell_width >= 1,
            g.font_size >= 0,
            row_fits(cells@, *g),
            x == g.column(i as int),
            x <= 2 * i32::MAX,
            shapes(ops@) == before + row_shapes(cells@, i as nat, *colors, *g, y as int),
        decreases cells@.len() - i,
    {
        proof {
            assert(g.column(i as int) + cells@[i as int].reach(*g) <= i32::MAX);
            lemma_mul_nonnegative(i as int, g.cell_width as int);
            lemma_mul_is_distributive_add_other_way(g.cell_width as int, i as int, 1);
        }
        push_cell(ops, &cells[i], colors, g, x as i32, y);
        assert(shapes(ops@) =~= before + row_shapes(cells@, (i + 1) as nat, *colors, *g, y as int));
        x = x + g.cell_width as i64;
        i = i + 1;
    }
}

/// Adds one operation.
fn push_op(ops: &mut Vec<DrawOp>, op: DrawOp)
    ensures
        shapes(final(ops)@) == shapes(old(ops)@) + seq![op@],
{
    ops.push(op);
    assert(shapes(ops@) =~= shapes(old(ops)@) + seq![op@]);
}

/// Lists what to do for a frame.
pub fn render_terminal(frame: &Frame, g: &Geometry) -> (ops: Vec<DrawOp>)
    requires
        frame.fits(*g),
    ensures
        shapes(ops@) == frame.shapes(*g),
{
    let mut ops: Vec<DrawOp> = Vec::new();
    assert(shapes(ops@) =~= Seq::<Shape>::empty());
    let colors: Colors = match frame.colors {
        Some(colors) => colors,
        None => {
            return ops;
        },
    };
    let rows = match &frame.rows {
        Some(rows) => rows,
        None => {
            return ops;
        },
    };
    let mut y: i64 = PADDING as i64;
    let mut i: usize = 0;
    proof {
        lemma_mul_basics(g.cell_height as int);
    }
    while i < rows.len()
        invariant
            i <= rows@.len(),
            frame.fits(*g),
            frame.colors == Some(colors),
            frame.rows == Some(*rows),
            y == g.line(readable(rows@, i as nat) as int),
            y <= 2 * i32::MAX,
            shapes(ops@) == grid_shapes(rows@, i as nat, frame.whole(), colors, *g),
        decreases rows@.len() - i,
    {
        let ghost before = shapes(ops@);
        match &rows[i] {
            Some(cells) => {
                proof {
                    let k = readable(rows@, i as nat) as int;
                    assert(rows@[i as int] is Some);
                    lemma_mul_nonnegative(k, g.cell_height as int);
                    lemma_mul_is_distributive_add_other_way(g.cell_height as int, k, 1);
                }
                push_row(&mut ops, cells, &colors, g, y as i32);
                let ghost drawn = shapes(ops@);
                if !frame.failed || i + 1 < rows.len() {
                    push_op(&mut ops, DrawOp::CleanRow { row: i });
                } else {
                    assert(drawn =~= drawn + Seq::<Shape>::empty());
                }
                proof {
                    let row = row_shapes(cells@, cells@.len(), colors, *g, y as int);
                    assert(shapes(ops@) =~= before + (row + row_cleaned(i as int, frame.whole())));
                }
                y = y + g.cell_height as i64;
            },
            None => {
                assert(shapes(ops@) =~= shapes(ops@) + Seq::<Shape>::empty());
            },
        }
        i = i + 1;
    }
    if frame.failed {
        return ops;
    }
    let ghost grid = shapes(ops@);
    if let Some((cx, cy)) = frame.cursor {
        if frame.cursor_visible {
            proof {
                lemma_mul_nonnegative(cx as int, g.cell_width as int);
                lemma_mul_nonnegative(cy as int, g.cell_height as int);
            }
            let color: Rgb = match colors.cursor {
                Some(c) => c,
                None => colors.foreground,
            };
            let op = DrawOp::Rect {
                x: PADDING + cx as i32 * g.cell_width,
                y: PADDING + cy as i32 * g.cell_height,
                width: g.cell_width,
                height: g.cell_height,
                color: color.with_alpha(128),
            };
            push_op(&mut ops, op);
        }
    }
    assert(shapes(ops@) =~= grid + frame.cursor_shapes(colors, *g));
    if let Some(t) = frame.thumb {
        let op = DrawOp::Rect {
            x: t.screen_width - 6 - 2,
            y: t.y,
            width: 6,
            height: t.height,
            color: Color { r: 200, g: 200, b: 200, a: 128 },
        };
        push_op(&mut ops, op);
    }
    assert(shapes(ops@) =~= grid + frame.cursor_shapes(colors, *g) + frame.thumb_shapes());
    push_op(&mut ops, DrawOp::CleanFrame);
    ops
}

/// The window's background: the terminal's, opaque.
pub fn window_background(colors: &Colors) -> (c: Color)
    ensures
        c == colors.background.alpha(255),
{
    colors.background.with_alpha(255)
}

/// A cell's text takes at most 63 bytes.
pub proof fn law_cell_text_is_short(chars: Seq<char>)
    ensures
        encode_utf8(clipped(chars)).len() < TEXT_LIMIT + 4,
    decreases chars.len(),
{
    if chars.len() == 0 {
        assert(encode_utf8(chars) =~= Seq::<u8>::empty());
    } else {
        let init = chars.drop_last();
        law_cell_text_is_short(init);
        crate::utf8::lemma_encoded_len_push(init, chars.last());
        assert(init.push(chars.last()) =~= chars);
    }
}

/// A short text shows whole.
pub proof fn law_short_text_is_not_clipped(chars: Seq<char>)
    requires
        chars.len() <= 15,
    ensures
        clipped(chars) == chars,
        encode_utf8(chars).len() <= 4 * chars.len(),
    decreases chars.len(),
{
    if chars.len() == 0 {
        assert(encode_utf8(chars) =~= Seq::<u8>::empty());
    } else {
        let init = chars.drop_last();
        law_short_text_is_not_clipped(init);
        crate::utf8::lemma_encoded_len_push(init, chars.last());
        assert(init.push(chars.last()) =~= chars);
    }
}

/// Inverting a cell twice over swaps back: the paper of an inverse cell is the
/// ink of the plain one.
pub proof fn law_inverse_swaps_colors(cell: Cell, inverted: Cell, colors: Colors)
    requires
        !cell.style.inverse,
        inverted == (Cell {
            style: CellStyle { inverse: true, ..cell.style },
            ..cell
        }),
    ensures
        inverted.paper(colors) == Some(cell.ink(colors)),
        inverted.ink(colors) == cell.own_bg(colors),
{
}

/// A row that cannot be read moves nothing: the frame looks as if it were not
/// there.
pub proof fn law_unreadable_rows_take_no_space(
    rows: Seq<Option<Vec<Cell>>>,
    n: nat,
    whole: int,
    colors: Colors,
    g: Geometry,
)
    requires
        n < rows.len(),
        rows[n as int] is None,
    ensures
        grid_shapes(rows, n + 1, whole, colors, g) == grid_shapes(rows, n, whole, colors, g),
        readable(rows, n + 1) == readable(rows, n),
{
    assert(grid_shapes(rows, n, whole, colors, g) + Seq::<Shape>::empty() =~= grid_shapes(
        rows,
        n,
        whole,
        colors,
        g,
    ));
}

/// Where the colors or the rows cannot be read, nothing is drawn and no flag is
/// cleared.
pub proof fn law_unreadable_frames_are_left_alone(frame: Frame, g: Geometry)
    requires
        frame.colors is None || frame.rows is None,
    ensures
        frame.shapes(g).len() == 0,
{
}

/// The clearings among what is done for a frame.
pub open spec fn clearings(shapes: Seq<Shape>) -> Seq<Shape> {
    shapes.filter(|s: Shape| s is CleanRow || s is CleanFrame)
}

/// The flags that a frame clears are those of its rows that were read to their
/// end, each once and in order, and then its own. That comes once, and nothing is
/// done behind it; where reading a cell failed, it does not come.
pub proof fn law_flags_are_cleared_in_order(frame: Frame, g: Geometry)
    ensures
        clearings(frame.shapes(g)) == frame.cleaned(),
        frame.colors is Some && frame.rows is Some && !frame.failed ==> frame.shapes(g).last()
            == Shape::CleanFrame && clearings(frame.shapes(g).drop_last()) == rows_cleaned(
            frame.rows->0@,
            frame.rows->0@.len(),
            frame.whole(),
        ),
{
    if let (Some(colors), Some(rows)) = (frame.colors, frame.rows) {
        let grid = grid_shapes(rows@, rows@.len(), frame.whole(), colors, g);
        let cleaned = rows_cleaned(rows@, rows@.len(), frame.whole());
        lemma_grid_clearings(rows@, rows@.len(), frame.whole(), colors, g);
        if frame.failed {
            assert(cleaned + Seq::<Shape>::empty() =~= cleaned);
        } else {
            let cursor = frame.cursor_shapes(colors, g);
            let thumb = frame.thumb_shapes();
            let end = seq![Shape::CleanFrame];
            lemma_clearings_add(grid, cursor);
            lemma_clearings_add(grid + cursor, thumb);
            lemma_clearings_add(grid + cursor + thumb, end);
            lemma_no_clearings(cursor);
            lemma_no_clearings(thumb);
            lemma_clearings_one(Shape::CleanFrame);
            assert(frame.shapes(g).drop_last() =~= grid + cursor + thumb);
            assert(cleaned + Seq::<Shape>::empty() + Seq::<Shape>::empty() =~= cleaned);
        }
    } else {
        lemma_no_clearings(frame.shapes(g));
    }
}

proof fn lemma_clearings_add(a: Seq<Shape>, b: Seq<Shape>)
    ensures
        clearings(a + b) == clearings(a) + clearings(b),
{
    Seq::filter_distributes_over_add(a, b, |s: Shape| s is CleanRow || s is CleanFrame);
}

proof fn lemma_clearings_one(s: Shape)
    ensures
        clearings(seq![s]) == (if s is CleanRow || s is CleanFrame {
            seq![s]
        } else {
            Seq::empty()
        }),
{
    reveal(Seq::filter);
    assert(seq![s].drop_last() =~= Seq::<Shape>::empty());
    assert(clearings(seq![s].drop_last()) =~= Seq::<Shape>::empty());
    assert(clearings(seq![s]) =~= (if s is CleanRow || s is CleanFrame {
        seq![s]
    } else {
        Seq::empty()
    }));
}

proof fn lemma_no_clearings(shapes: Seq<Shape>)
    requires
        forall|i: int|
            0 <= i < shapes.len() ==> !((#[trigger] shapes[i]) is CleanRow) && !(
            shapes[i] is CleanFrame),
    ensures
        clearings(shapes) == Seq::<Shape>::empty(),
    decreases shapes.len(),
{
    reveal(Seq::filter);
    if shapes.len() > 0 {
        assert(forall|i: int|
            0 <= i < shapes.drop_last().len() ==> shapes.drop_last()[i] == shapes[i]);
        lemma_no_clearings(shapes.drop_last());
        assert(shapes[shapes.len() - 1] == shapes.last());
    }
}

proof fn lemma_cell_is_drawn(cell: Cell, colors: Colors, g: Geometry, x: int, y: int)
    ensures
        clearings(cell.shapes(colors, g, x, y)) == Seq::<Shape>::empty(),
{
    let shapes = cell.shapes(colors, g, x, y);
    assert forall|i: int| 0 <= i < shapes.len() implies !((#[trigger] shapes[i]) is CleanRow) && !(
    shapes[i] is CleanFrame) by {
        assert(g.filled(cell.fill(colors), x, y).len() <= 1);
        assert(g.filled(cell.paper(colors), x, y).len() <= 1);
    }
    lemma_no_clearings(shapes);
}

proof fn lemma_row_is_drawn(cells: Seq<Cell>, n: nat, colors: Colors, g: Geometry, y: int)
    ensures
        clearings(row_shapes(cells, n, colors, g, y)) == Seq::<Shape>::empty(),
    decreases n,
{
    if n > 0 {
        let init = row_shapes(cells, (n - 1) as nat, colors, g, y);
        let last = cells[n - 1].shapes(colors, g, g.column(n - 1), y);
        lemma_row_is_drawn(cells, (n - 1) as nat, colors, g, y);
        lemma_cell_is_drawn(cells[n - 1], colors, g, g.column(n - 1), y);
        lemma_clearings_add(init, last);
        assert(Seq::<Shape>::empty() + Seq::<Shape>::empty() =~= Seq::<Shape>::empty());
    } else {
        lemma_no_clearings(row_shapes(cells, n, colors, g, y));
    }
}

proof fn lemma_grid_clearings(
    rows: Seq<Option<Vec<Cell>>>,
    n: nat,
    whole: int,
    colors: Colors,
    g: Geometry,
)
    requires
        n <= rows.len(),
    ensures
        clearings(grid_shapes(rows, n, whole, colors, g)) == rows_cleaned(rows, n, whole),
    decreases n,
{
    if n > 0 {
        let m = (n - 1) as nat;
        let init = grid_shapes(rows, m, whole, colors, g);
        lemma_grid_clearings(rows, m, whole, colors, g);
        if let Some(cells) = rows[n - 1] {
            let y = g.line(readable(rows, m) as int);
            let row = row_shapes(cells@, cells@.len(), colors, g, y);
            let clean = row_cleaned(n - 1, whole);
            lemma_row_is_drawn(cells@, cells@.len(), colors, g, y);
            if n - 1 < whole {
                lemma_clearings_one(Shape::CleanRow { row: n - 1 });
            } else {
                lemma_no_clearings(clean);
            }
            lemma_clearings_add(row, clean);
            lemma_clearings_add(init, row + clean);
            assert(Seq::<Shape>::empty() + clean =~= clean);
        } else {
            lemma_no_clearings(Seq::<Shape>::empty());
            lemma_clearings_add(init, Seq::<Shape>::empty());
        }
    } else {
        lemma_no_clearings(grid_shapes(rows, n, whole, colors, g));
    }
}

/// A color keeps its channels when it gets an alpha.
pub proof fn law_alpha_keeps_the_color(c: Rgb, a: u8, r: Color)
    requires
        call_ensures(Rgb::with_alpha, (c, a), r),
    ensures
        r.r == c.r && r.g == c.g && r.b == c.b && r.a == a,
{
}

/// The window is cleared with the terminal's background, opaque.
pub proof fn law_windows_have_the_terminals_background(colors: &Colors, c: Color)
    requires
        call_ensures(window_background, (colors,), c),
    ensures
        c.r == colors.background.r && c.g == colors.background.g && c.b == colors.background.b
            && c.a == 255,
{
}

/// A cell has a backdrop exactly where its tag and the color that the tag calls
/// for can be read, and it is that color; the other color does not matter.
pub proof fn law_backdrops_need_tag_and_color(
    tag: Option<ContentTag>,
    palette: Option<u8>,
    direct: Option<Rgb>,
    b: Backdrop,
)
    requires
        call_ensures(backdrop_of, (tag, palette, direct), b),
    ensures
        b is Palette <==> tag == Some(ContentTag::BgColorPalette) && palette is Some,
        b is Direct <==> tag == Some(ContentTag::BgColorRgb) && direct is Some,
        b matches Backdrop::Palette(i) ==> palette == Some(i),
        b matches Backdrop::Direct(c) ==> direct == Some(c),
{
}

/// A cell has a color of its own exactly where the engine reports success; that it
/// has none is no error, and everything else is.
pub proof fn law_missing_colors_are_no_error(
    code: ResultCode,
    color: Rgb,
    r: Result<Option<Rgb>, Error>,
)
    requires
        call_ensures(optional_color, (code, color), r),
    ensures
        r is Ok && r->Ok_0 is Some <==> code == ResultCode::Success,
        r is Ok && r->Ok_0 is None <==> code == ResultCode::InvalidValue,
        r matches Ok(Some(c)) ==> c == color,
        code == ResultCode::OutOfMemory <==> r == Err::<Option<Rgb>, Error>(Error::OutOfMemory),
        code == ResultCode::OutOfSpace <==> r == Err::<Option<Rgb>, Error>(
            Error::OutOfSpace { required: 0 },
        ),
{
}

/// A cell without text draws its backdrop over the whole cell and nothing else: its
/// other colors and its style do not show.
pub proof fn law_empty_cells_draw_their_backdrop(
    cell: Cell,
    colors: Colors,
    g: Geometry,
    x: int,
    y: int,
)
    requires
        cell.grapheme_len == 0,
    ensures
        cell.backdrop == Backdrop::Absent ==> cell.shapes(colors, g, x, y).len() == 0,
        cell.backdrop matches Backdrop::Palette(i) ==> cell.shapes(colors, g, x, y) == seq![
            Shape::Rect {
                x,
                y,
                width: g.cell_width as int,
                height: g.cell_height as int,
                color: Color {
                    r: colors.palette@[i as int].r,
                    g: colors.palette@[i as int].g,
                    b: colors.palette@[i as int].b,
                    a: 255,
                },
            },
        ],
        cell.backdrop matches Backdrop::Direct(c) ==> cell.shapes(colors, g, x, y) == seq![
            Shape::Rect {
                x,
                y,
                width: g.cell_width as int,
                height: g.cell_height as int,
                color: Color { r: c.r, g: c.g, b: c.b, a: 255 },
            },
        ],
{
}

/// A plain cell paints its own background, where it has one, over the whole cell,
/// and its text over that, at the same place, in its own foreground or else in the
/// default one.
pub proof fn law_plain_cells_draw_background_and_text(
    cell: Cell,
    colors: Colors,
    g: Geometry,
    x: int,
    y: int,
)
    requires
        cell.grapheme_len > 0,
        !cell.style.inverse,
        !cell.style.bold,
        !cell.style.italic,
    ensures
        ({
            let drawn = cell.shapes(colors, g, x, y);
            let ink = match cell.fg {
                Some(c) => c,
                None => colors.foreground,
            };
            &&& drawn.len() == if cell.bg is Some {
                2int
            } else {
                1int
            }
            &&& drawn.last() == (Shape::Text {
                text: cell.text(),
                x,
                y,
                color: Color { r: ink.r, g: ink.g, b: ink.b, a: 255 },
            })
            &&& cell.bg matches Some(c) ==> drawn[0] == (Shape::Rect {
                x,
                y,
                width: g.cell_width as int,
                height: g.cell_height as int,
                color: Color { r: c.r, g: c.g, b: c.b, a: 255 },
            })
        }),
{
}

/// The text of an inverse cell has the cell's own background as its color, or else
/// the default one; what is painted behind it, once, is the cell's own foreground,
/// or else the default one.
pub proof fn law_inverse_cells_write_in_their_background(
    cell: Cell,
    colors: Colors,
    g: Geometry,
    x: int,
    y: int,
)
    requires
        cell.grapheme_len > 0,
        cell.style.inverse,
    ensures
        ({
            let drawn = cell.shapes(colors, g, x, y);
            let fg = match cell.fg {
                Some(c) => c,
                None => colors.foreground,
            };
            let bg = match cell.bg {
                Some(c) => c,
                None => colors.background,
            };
            &&& drawn.len() >= 2
            &&& drawn[0] == (Shape::Rect {
                x,
                y,
                width: g.cell_width as int,
                height: g.cell_height as int,
                color: Color { r: fg.r, g: fg.g, b: fg.b, a: 255 },
            })
            &&& forall|i: int|
                1 <= i < drawn.len() ==> (#[trigger] drawn[i]) is Text && drawn[i]->Text_color == (
                Color { r: bg.r, g: bg.g, b: bg.b, a: 255 })
        }),
{
}

/// Inverting a cell that has both colors is exchanging them.
pub proof fn law_inverting_is_exchanging_the_colors(
    cell: Cell,
    exchanged: Cell,
    colors: Colors,
    g: Geometry,
    x: int,
    y: int,
)
    requires
        cell.style.inverse,
        cell.fg is Some,
        cell.bg is Some,
        exchanged == (Cell {
            fg: cell.bg,
            bg: cell.fg,
            style: CellStyle { inverse: false, ..cell.style },
            ..cell
        }),
    ensures
        cell.shapes(colors, g, x, y) == exchanged.shapes(colors, g, x, y),
{
    assert(cell.text() == exchanged.text());
}

/// Bold text is the same text drawn once more, one pixel further to the right.
pub proof fn law_bold_text_is_drawn_twice(
    cell: Cell,
    thin: Cell,
    colors: Colors,
    g: Geometry,
    x: int,
    y: int,
)
    requires
        cell.grapheme_len > 0,
        cell.style.bold,
        thin == (Cell { style: CellStyle { bold: false, ..cell.style }, ..cell }),
    ensures
        ({
            let drawn = cell.shapes(colors, g, x, y);
            let once = thin.shapes(colors, g, x, y);
            &&& drawn.drop_last() == once
            &&& once.last() is Text
            &&& drawn.last() == (Shape::Text {
                text: once.last()->Text_text,
                x: once.last()->Text_x + 1,
                y: once.last()->Text_y,
                color: once.last()->Text_color,
            })
        }),
{
    let drawn = cell.shapes(colors, g, x, y);
    let once = thin.shapes(colors, g, x, y);
    assert(cell.text() == thin.text());
    assert(drawn.drop_last() =~= once);
}

/// Italic text is the same text moved to the right by a sixth of the font's size;
/// what is painted behind it stays.
pub proof fn law_italic_text_is_moved(
    cell: Cell,
    upright: Cell,
    colors: Colors,
    g: Geometry,
    x: int,
    y: int,
)
    requires
        cell.grapheme_len > 0,
        cell.style.italic,
        upright == (Cell { style: CellStyle { italic: false, ..cell.style }, ..cell }),
    ensures
        ({
            let drawn = cell.shapes(colors, g, x, y);
            let straight = upright.shapes(colors, g, x, y);
            &&& drawn.len() == straight.len()
            &&& forall|i: int|
                0 <= i < drawn.len() ==> #[trigger] drawn[i] == match straight[i] {
                    Shape::Text { text, x, y, color } => Shape::Text {
                        text,
                        x: x + g.font_size as int / 6,
                        y,
                        color,
                    },
                    other => other,
                }
        }),
{
    assert(cell.text() == upright.text());
}

/// A cell shows the beginning of its code points, of at most the first sixteen: as
/// many as start before the sixtieth byte of the UTF-8 encoding.
pub proof fn law_cells_show_the_beginning_of_their_text(cell: Cell)
    ensures
        ({
            let all = cell.codepoints@.take(
                if cell.grapheme_len < 16 {
                    cell.grapheme_len as int
                } else {
                    16
                },
            );
            let shown = cell.text();
            &&& shown.len() <= all.len()
            &&& shown == all.take(shown.len() as int)
            &&& shown.len() < all.len() ==> encode_utf8(shown).len() >= 60
            &&& shown.len() > 0 ==> encode_utf8(shown.drop_last()).len() < 60
        }),
{
    let all = cell.codepoints@.take(
        if cell.grapheme_len < 16 {
            cell.grapheme_len as int
        } else {
            16
        },
    );
    lemma_clipped_is_a_beginning(all);
}

proof fn lemma_clipped_is_a_beginning(chars: Seq<char>)
    ensures
        clipped(chars).len() <= chars.len(),
        clipped(chars) == chars.take(clipped(chars).len() as int),
        clipped(chars).len() < chars.len() ==> encode_utf8(clipped(chars)).len() >= 60,
        clipped(chars).len() > 0 ==> encode_utf8(clipped(chars).drop_last()).len() < 60,
    decreases chars.len(),
{
    if chars.len() == 0 {
        assert(chars.take(0) =~= chars);
    } else {
        let init = chars.drop_last();
        lemma_clipped_is_a_beginning(init);
        if clipped(init) == init && encode_utf8(init).len() < TEXT_LIMIT {
            assert(chars.take(chars.len() as int) =~= chars);
        } else {
            let k = clipped(init).len() as int;
            assert(init.take(k) =~= chars.take(k));
            if k == init.len() {
                assert(init.take(k) =~= init);
            }
        }
    }
}

proof fn lemma_rows_are_joined(cells: Seq<Cell>, n: nat, colors: Colors, g: Geometry, y: int)
    requires
        n <= cells.len(),
    ensures
        row_shapes(cells, n, colors, g, y) == Seq::new(
            n,
            |j: int| cells[j].shapes(colors, g, 4 + j * g.cell_width, y),
        ).flatten_alt(),
    decreases n,
{
    let pieces = Seq::new(n, |j: int| cells[j].shapes(colors, g, 4 + j * g.cell_width, y));
    if n > 0 {
        lemma_rows_are_joined(cells, (n - 1) as nat, colors, g, y);
        assert(pieces.drop_last() =~= Seq::new(
            (n - 1) as nat,
            |j: int| cells[j].shapes(colors, g, 4 + j * g.cell_width, y),
        ));
    }
}

proof fn lemma_readable_rows(rows: Seq<Option<Vec<Cell>>>, n: nat)
    requires
        n <= rows.len(),
    ensures
        readable(rows, n) == rows.take(n as int).filter(|r: Option<Vec<Cell>>| r is Some).len(),
    decreases n,
{
    reveal(Seq::filter);
    if n > 0 {
        lemma_readable_rows(rows, (n - 1) as nat);
        assert(rows.take(n as int).drop_last() =~= rows.take(n - 1));
    }
}

proof fn lemma_grids_are_joined(
    rows: Seq<Option<Vec<Cell>>>,
    n: nat,
    whole: int,
    colors: Colors,
    g: Geometry,
    pieces: Seq<Seq<Shape>>,
)
    requires
        n <= rows.len(),
        pieces.len() == n,
        forall|i: int|
            0 <= i < n ==> #[trigger] pieces[i] == match rows[i] {
                Some(cells) => row_shapes(
                    cells@,
                    cells@.len(),
                    colors,
                    g,
                    g.line(readable(rows, i as nat) as int),
                ) + row_cleaned(i, whole),
                None => Seq::empty(),
            },
    ensures
        grid_shapes(rows, n, whole, colors, g) == pieces.flatten_alt(),
    decreases n,
{
    if n > 0 {
        lemma_grids_are_joined(rows, (n - 1) as nat, whole, colors, g, pieces.drop_last());
        assert(pieces[n - 1] == pieces.last());
    }
}

/// A frame is drawn row by row and cell by cell. The cell in the column `j` of a
/// row lies `j` cell widths to the right of the padding of four pixels, and the row
/// as many cell heights below it as rows before it could be read. Behind its cells
/// a row is marked as clean, unless reading it failed. Then, unless reading failed,
/// the cursor lies over its cell, half transparent, in its own color or else in
/// that of the text, and the thumb stands two pixels from the right edge, six
/// wide; at last the frame is marked as clean.
pub proof fn law_frames_are_drawn_cell_by_cell(
    frame: &Frame,
    g: &Geometry,
    colors: Colors,
    rows: Vec<Option<Vec<Cell>>>,
    ops: Vec<DrawOp>,
)
    requires
        call_ensures(render_terminal, (frame, g), ops),
        frame.colors == Some(colors),
        frame.rows == Some(rows),
    ensures
        ({
            let grid = Seq::new(
                rows@.len(),
                |i: int|
                    match rows@[i] {
                        Some(cells) => Seq::new(
                            cells@.len(),
                            |j: int|
                                cells@[j].shapes(
                                    colors,
                                    *g,
                                    4 + j * g.cell_width,
                                    4 + rows@.take(i).filter(
                                        |r: Option<Vec<Cell>>| r is Some,
                                    ).len() * g.cell_height,
                                ),
                        ).flatten() + if i + 1 < rows@.len() || !frame.failed {
                            seq![Shape::CleanRow { row: i }]
                        } else {
                            Seq::empty()
                        },
                        None => Seq::empty(),
                    },
            ).flatten();
            let ink = match colors.cursor {
                Some(c) => c,
                None => colors.foreground,
            };
            let cursor = match frame.cursor {
                Some((cx, cy)) if frame.cursor_visible => seq![
                    Shape::Rect {
                        x: 4 + cx * g.cell_width,
                        y: 4 + cy * g.cell_height,
                        width: g.cell_width as int,
                        height: g.cell_height as int,
                        color: Color { r: ink.r, g: ink.g, b: ink.b, a: 128 },
                    },
                ],
                _ => Seq::empty(),
            };
            let thumb = match frame.thumb {
                Some(t) => seq![
                    Shape::Rect {
                        x: t.screen_width - 8,
                        y: t.y as int,
                        width: 6,
                        height: t.height as int,
                        color: Color { r: 200, g: 200, b: 200, a: 128 },
                    },
                ],
                None => Seq::empty(),
            };
            ops@.map_values(|op: DrawOp| op@) == if frame.failed {
                grid
            } else {
                grid + cursor + thumb + seq![Shape::CleanFrame]
            }
        }),
{
    let pieces = Seq::new(
        rows@.len(),
        |i: int|
            match rows@[i] {
                Some(cells) => Seq::new(
                    cells@.len(),
                    |j: int|
                        cells@[j].shapes(
                            colors,
                            *g,
                            4 + j * g.cell_width,
                            4 + rows@.take(i).filter(|r: Option<Vec<Cell>>| r is Some).len()
                                * g.cell_height,
                        ),
                ).flatten() + if i + 1 < rows@.len() || !frame.failed {
                    seq![Shape::CleanRow { row: i }]
                } else {
                    Seq::empty()
                },
                None => Seq::empty(),
            },
    );
    assert forall|i: int| 0 <= i < rows@.len() implies #[trigger] pieces[i] == match rows@[i] {
        Some(cells) => row_shapes(
            cells@,
            cells@.len(),
            colors,
            *g,
            g.line(readable(rows@, i as nat) as int),
        ) + row_cleaned(i, frame.whole()),
        None => Seq::empty(),
    } by {
        if let Some(cells) = rows@[i] {
            let y = 4 + rows@.take(i).filter(|r: Option<Vec<Cell>>| r is Some).len()
                * g.cell_height;
            let parts = Seq::new(
                cells@.len(),
                |j: int| cells@[j].shapes(colors, *g, 4 + j * g.cell_width, y),
            );
            lemma_readable_rows(rows@, i as nat);
            lemma_rows_are_joined(cells@, cells@.len(), colors, *g, y);
            parts.lemma_flatten_and_flatten_alt_are_equivalent();
            assert(parts =~= Seq::new(
                cells@.len(),
                |j: int|
                    cells@[j].shapes(
                        colors,
                        *g,
                        4 + j * g.cell_width,
                        4 + rows@.take(i).filter(|r: Option<Vec<Cell>>| r is Some).len()
                            * g.cell_height,
                    ),
            ));
        }
    }
    lemma_grids_are_joined(rows@, rows@.len(), frame.whole(), colors, *g, pieces);
    pieces.lemma_flatten_and_flatten_alt_are_equivalent();
}

/// A frame whose colors or rows cannot be read is not drawn at all, and it always
/// can be. Any other can be drawn exactly where the sizes are sound and every
/// coordinate that is drawn is a machine integer.
pub proof fn law_frames_can_be_drawn_where_they_fit(
    frame: &Frame,
    g: &Geometry,
    rows: Vec<Option<Vec<Cell>>>,
    b: bool,
)
    requires
        call_ensures(Frame::can_be_drawn, (frame, g), b),
    ensures
        frame.colors is None || frame.rows is None ==> b,
        frame.colors is Some && frame.rows == Some(rows) ==> (b <==> {
            &&& g.cell_width >= 1
            &&& g.cell_height >= 1
            &&& g.font_size >= 0
            &&& forall|i: int|
                #![trigger rows@[i]]
                0 <= i < rows@.len() && rows@[i] is Some ==> 4 + rows@.take(i).filter(
                    |r: Option<Vec<Cell>>| r is Some,
                ).len() * g.cell_height <= 0x7fff_ffff && forall|j: int|
                    #![trigger rows@[i]->0@[j]]
                    0 <= j < rows@[i]->0@.len() ==> 4 + j * g.cell_width + (
                    if rows@[i]->0@[j].grapheme_len > 0 && rows@[i]->0@[j].style.italic {
                        g.font_size as int / 6
                    } else {
                        0
                    }) + (if rows@[i]->0@[j].grapheme_len > 0 && rows@[i]->0@[j].style.bold {
                        1int
                    } else {
                        0
                    }) <= 0x7fff_ffff
            &&& !frame.failed && frame.cursor_visible ==> (frame.cursor matches Some((cx, cy)) ==> 4
                + cx * g.cell_width <= 0x7fff_ffff && 4 + cy * g.cell_height <= 0x7fff_ffff)
            &&& !frame.failed && frame.thumb is Some ==> frame.thumb->0.screen_width - 8
                >= -0x8000_0000int
        }),
{
    if frame.colors is Some && frame.rows == Some(rows) {
        assert forall|i: int| 0 <= i < rows@.len() implies #[trigger] readable(rows@, i as nat)
            == rows@.take(i).filter(|r: Option<Vec<Cell>>| r is Some).len() by {
            lemma_readable_rows(rows@, i as nat);
        }
    }
}

/// An operation does what its fields say.
pub proof fn law_operations_do_what_they_say(op: DrawOp)
    ensures
        op matches DrawOp::Rect { x, y, width, height, color } ==> (op@ matches Shape::Rect {
            x: left,
            y: top,
            width: w,
            height: h,
            color: c,
        } && left == x && top == y && w == width && h == height && c == color),
        op matches DrawOp::Text { text, x, y, color } ==> (op@ matches Shape::Text {
            text: t,
            x: left,
            y: top,
            color: c,
        } && t == text@ && left == x && top == y && c == color),
        op matches DrawOp::CleanRow { row } ==> op@ == (Shape::CleanRow { row: row as int }),
        op is CleanFrame ==> op@ == Shape::CleanFrame,
{
}

} // verus!

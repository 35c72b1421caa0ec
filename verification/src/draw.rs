//! The canvas with a bounded cursor.
//!
//! Here points are ordered corner-wise: a point is less than another when it
//! lies strictly above and to the left of it. A cursor may only be scrolled to
//! points on the canvas.

use vstd::prelude::*;
use vstd::std_specs::cmp::PartialOrdSpecImpl;
use vstd::std_specs::convert::FromSpecImpl;
use std::cmp::Ordering;
use std::ops::AddAssign;
use crate::arith::{clamp, sat_add, sat_sub};
use crate::arith::{sat_neg};
use crate::digits::{decimal, signed_decimal, to_decimal, to_signed_decimal};
use crate::types::same_text;
use crate::window::{DrawOp, Surface, Window};

verus! {

/// A single coordinate point on the canvas; the top left is (0, 0).
#[derive(Debug, Clone, Copy, PartialEq, Eq, Structural)]
pub struct Point {
    pub x: i64,
    pub y: i64,
}

impl Point {
    /// The top left corner of the canvas.
    pub open spec fn zero() -> Point {
        Point { x: 0, y: 0 }
    }

    /// Whether this point lies strictly above and to the left of `other`.
    pub open spec fn inside(self, other: Point) -> bool {
        self.x < other.x && self.y < other.y
    }

    /// This point as text: `(x, y)`.
    pub open spec fn text(self) -> Seq<char> {
        "("@ + signed_decimal(self.x as int) + ", "@ + signed_decimal(self.y as int) + ")"@
    }

    /// Writes this point out as `(x, y)`.
    pub fn to_string(&self) -> (s: String)
        ensures
            s@ == self.text(),
    {
        let mut s = String::from_str("(");
        s.append(to_signed_decimal(self.x).as_str());
        s.append(", ");
        s.append(to_signed_decimal(self.y).as_str());
        s.append(")");
        s
    }
}

impl Default for Point {
    fn default() -> (p: Point)
        ensures
            p == Point::zero(),
    {
        Point { x: 0, y: 0 }
    }
}

impl PartialOrd for Point {
    /// Less when strictly above and to the left, equal when the same point,
    /// greater in every other case.
    fn partial_cmp(&self, other: &Point) -> (r: Option<Ordering>) {
        if self.x < other.x && self.y < other.y {
            Some(Ordering::Less)
        } else if self.x == other.x && self.y == other.y {
            Some(Ordering::Equal)
        } else {
            Some(Ordering::Greater)
        }
    }
}

impl PartialOrdSpecImpl for Point {
    open spec fn obeys_partial_cmp_spec() -> bool {
        true
    }

    open spec fn partial_cmp_spec(&self, other: &Point) -> Option<Ordering> {
        if self.x < other.x && self.y < other.y {
            Some(Ordering::Less)
        } else if self.x == other.x && self.y == other.y {
            Some(Ordering::Equal)
        } else {
            Some(Ordering::Greater)
        }
    }
}

/// (x, y), from (0, 0) at top left.
impl From<(i64, i64)> for Point {
    fn from(other: (i64, i64)) -> (p: Point) {
        Point { x: other.0, y: other.1 }
    }
}

impl FromSpecImpl<(i64, i64)> for Point {
    open spec fn obeys_from_spec() -> bool {
        true
    }

    open spec fn from_spec(other: (i64, i64)) -> Point {
        Point { x: other.0, y: other.1 }
    }
}

/// A rectangular region on the canvas.
#[derive(Debug, Clone, Copy, PartialEq, Eq, Structural)]
pub struct Region {
    /// The top left corner.
    pub o: Point,
    /// The width.
    pub w: i64,
    /// The height.
    pub h: i64,
}

impl Region {
    /// The corner opposite the origin.
    pub open spec fn far_corner(self) -> Point {
        Point { x: clamp(self.o.x + self.w), y: clamp(self.o.y + self.h) }
    }

    /// The corner to the right of the origin.
    pub open spec fn near_corner(self) -> Point {
        Point { x: clamp(self.o.x + self.w), y: self.o.y }
    }

    /// The region that `+=` leaves: it starts at this region's origin where
    /// that lies strictly above and to the left of `other`'s, else at
    /// `other`'s, and its width and height are the larger right edge and the
    /// larger bottom edge of the two.
    pub open spec fn joined(self, other: Region) -> Region {
        Region {
            o: if self.o.inside(other.o) {
                self.o
            } else {
                other.o
            },
            w: if self.near_corner().x > other.near_corner().x {
                self.near_corner().x
            } else {
                other.near_corner().x
            },
            h: if self.far_corner().y > other.far_corner().y {
                self.far_corner().y
            } else {
                other.far_corner().y
            },
        }
    }

    /// Return this region's bottom right.
    pub fn bottom_right(&self) -> (p: Point)
        ensures
            p == self.far_corner(),
    {
        Point { x: sat_add(self.o.x, self.w), y: sat_add(self.o.y, self.h) }
    }

    /// Return this region's top right.
    pub fn top_right(&self) -> (p: Point)
        ensures
            p == self.near_corner(),
    {
        Point { x: sat_add(self.o.x, self.w), y: self.o.y }
    }

    /// Getter for origin.
    pub fn origin(&self) -> (p: Point)
        ensures
            p == self.o,
    {
        self.o
    }

    /// Getter for height.
    pub fn height(&self) -> (h: i64)
        ensures
            h == self.h,
    {
        self.h
    }

    /// Getter for width.
    pub fn width(&self) -> (w: i64)
        ensures
            w == self.w,
    {
        self.w
    }
}

impl Default for Region {
    fn default() -> (r: Region)
        ensures
            r == (Region { o: Point::zero(), w: 0, h: 0 }),
    {
        Region { o: Point { x: 0, y: 0 }, w: 0, h: 0 }
    }
}

impl AddAssign for Region {
    /// Grows this region by `other`.
    fn add_assign(&mut self, other: Region)
        ensures
            *final(self) == old(self).joined(other),
    {
        let bottom_right = self.bottom_right();
        let o_bottom_right = other.bottom_right();
        let top_right = self.top_right();
        let o_top_right = other.top_right();
        let o_winner = if self.o < other.origin() {
            self.o
        } else {
            other.origin()
        };
        *self = Region {
            o: o_winner,
            w: if top_right.x > o_top_right.x {
                top_right.x
            } else {
                o_top_right.x
            },
            h: if bottom_right.y > o_bottom_right.y {
                bottom_right.y
            } else {
                o_bottom_right.y
            },
        };
    }
}

/// (top_left, bottom_right)
impl From<(Point, Point)> for Region {
    fn from(bits: (Point, Point)) -> (r: Region) {
        Region { o: bits.0, w: sat_sub(bits.1.x, bits.0.x), h: sat_sub(bits.1.y, bits.0.y) }
    }
}

impl FromSpecImpl<(Point, Point)> for Region {
    open spec fn obeys_from_spec() -> bool {
        true
    }

    open spec fn from_spec(bits: (Point, Point)) -> Region {
        Region { o: bits.0, w: clamp(bits.1.x - bits.0.x), h: clamp(bits.1.y - bits.0.y) }
    }
}

/// (origin, width, height)
impl From<(Point, i64, i64)> for Region {
    fn from(bits: (Point, i64, i64)) -> (r: Region) {
        Region { o: bits.0, w: bits.1, h: bits.2 }
    }
}

impl FromSpecImpl<(Point, i64, i64)> for Region {
    open spec fn obeys_from_spec() -> bool {
        true
    }

    open spec fn from_spec(bits: (Point, i64, i64)) -> Region {
        Region { o: bits.0, w: bits.1, h: bits.2 }
    }
}

/// (origin_x, origin_y, width, height)
impl From<(i64, i64, i64, i64)> for Region {
    fn from(bits: (i64, i64, i64, i64)) -> (r: Region) {
        Region::from((Point::from((bits.0, bits.1)), bits.2, bits.3))
    }
}

impl FromSpecImpl<(i64, i64, i64, i64)> for Region {
    open spec fn obeys_from_spec() -> bool {
        true
    }

    open spec fn from_spec(bits: (i64, i64, i64, i64)) -> Region {
        Region { o: Point { x: bits.0, y: bits.1 }, w: bits.2, h: bits.3 }
    }
}

/// Window error type.
#[derive(Debug, Clone, PartialEq, Eq)]
pub enum WindowError {
    /// An element could not be added to the page.
    Element,
    /// The host reported a failure; the text is its description.
    JsVal(String),
    /// The cursor was asked to leave the canvas.
    OutOfBounds,
    /// Text could not be drawn.
    Text,
}

impl WindowError {
    /// What this error says.
    pub open spec fn text(self) -> Seq<char> {
        match self {
            WindowError::Element => "Could not append element to DOM"@,
            WindowError::JsVal(js) => js@,
            WindowError::Text => "Could not add text to the window"@,
            WindowError::OutOfBounds => "Attempted to scroll cursor out of bounds!"@,
        }
    }

    /// Writes out what this error says.
    pub fn to_string(&self) -> (s: String)
        ensures
            s@ == self.text(),
    {
        match self {
            WindowError::Element => String::from_str("Could not append element to DOM"),
            WindowError::JsVal(js) => js.clone(),
            WindowError::Text => String::from_str("Could not add text to the window"),
            WindowError::OutOfBounds => String::from_str(
                "Attempted to scroll cursor out of bounds!",
            ),
        }
    }
}

/// Color type, RGB.
#[derive(Debug, Clone, Copy, PartialEq, Eq, Structural)]
pub struct Color {
    pub r: u8,
    pub g: u8,
    pub b: u8,
}

impl Color {
    /// The color's name where it has one, else `#` and its three parts in
    /// decimal. Every color with a full red part is called red.
    pub open spec fn text(self) -> Seq<char> {
        if self.r == 255 {
            "red"@
        } else if self.r == 0 && self.g == 0 && self.b == 0 {
            "black"@
        } else {
            "#"@ + decimal(self.r as nat) + decimal(self.g as nat) + decimal(self.b as nat)
        }
    }

    pub fn new(r: u8, g: u8, b: u8) -> (c: Color)
        ensures
            c == (Color { r, g, b }),
    {
        Color { r, g, b }
    }

    /// Writes this color out as the canvas takes it.
    pub fn to_string(&self) -> (s: String)
        ensures
            s@ == self.text(),
    {
        if self.r == 255 {
            String::from_str("red")
        } else if self.r == 0 && self.g == 0 && self.b == 0 {
            String::from_str("black")
        } else {
            let mut s = String::from_str("#");
            s.append(to_decimal(self.r as u64).as_str());
            s.append(to_decimal(self.g as u64).as_str());
            s.append(to_decimal(self.b as u64).as_str());
            s
        }
    }

    /// Reads a color's name: `black` or `red`.
    pub fn from_str(s: &str) -> (r: Result<Color, WindowError>)
        requires
            s@ == "black"@ || s@ == "red"@,
        ensures
            r == Ok::<Color, WindowError>(
                if s@ == "black"@ {
                    Color { r: 0, g: 0, b: 0 }
                } else {
                    Color { r: 255, g: 0, b: 0 }
                },
            ),
    {
        if same_text(s, "black") {
            Ok(Color::new(0, 0, 0))
        } else {
            Ok(Color::new(255, 0, 0))
        }
    }
}

/// Layout values.
#[derive(Debug, Clone, Copy)]
pub struct Values {
    /// Total size of canvas (width, height).
    pub canvas_size: (u32, u32),
    /// Size of one die square.
    pub die_dimension: i64,
    /// Padding value used all over the place.
    pub padding: i64,
    /// What the roll dice button says.
    pub reroll_button_text: &'static str,
    /// What color to use for button border.
    pub button_color: &'static str,
    /// What font to use for buttons.
    pub font: &'static str,
    /// What size font on buttons.
    pub button_font_size: u8,
    pub font_size: u8,
}

impl Values {
    /// Whether `p` is a point of a canvas of this size.
    pub open spec fn on_canvas(self, p: Point) -> bool {
        0 <= p.x < self.canvas_size.0 && 0 <= p.y < self.canvas_size.1
    }

    pub fn new() -> (v: Values)
        ensures
            v.canvas_size == (800u32, 600u32),
            v.die_dimension == 50,
            v.padding == 10,
            v.reroll_button_text@ == "Roll!"@,
            v.button_color@ == "black"@,
            v.font@ == "Arial"@,
            v.button_font_size == 16,
            v.font_size == 12,
    {
        Values::default()
    }

    /// Return whether the given point fits on this canvas size.
    pub fn fits_canvas(&self, p: Point) -> (b: bool)
        ensures
            b == self.on_canvas(p),
    {
        p.x >= 0 && p.x < self.canvas_size.0 as i64 && p.y >= 0 && p.y < self.canvas_size.1 as i64
    }

    /// Put the font size and the font together.
    pub fn get_font_string(&self) -> (s: String)
        ensures
            s@ == decimal(self.font_size as nat) + "px "@ + self.font@,
    {
        let mut s = to_decimal(self.font_size as u64);
        s.append("px ");
        s.append(self.font);
        s
    }
}

impl Default for Values {
    fn default() -> (v: Values)
        ensures
            v.canvas_size == (800u32, 600u32),
            v.die_dimension == 50,
            v.padding == 10,
            v.reroll_button_text@ == "Roll!"@,
            v.button_color@ == "black"@,
            v.font@ == "Arial"@,
            v.button_font_size == 16,
            v.font_size == 12,
    {
        Values {
            canvas_size: (800, 600),
            die_dimension: 50,
            padding: 10,
            reroll_button_text: "Roll!",
            button_color: "black",
            font: "Arial",
            button_font_size: 16,
            font_size: 12,
        }
    }
}

/// The size of the font that text is drawn in.
pub const FONT_SIZE: u8 = 12;

/// The padding between widgets.
pub const PADDING: i64 = 10;

/// The width that was measured for `text`.
pub open spec fn width_of(s: Surface, text: Seq<char>) -> i64 {
    s.widths[text]
}

/// The same point for the window.
pub open spec fn on_window(p: Point) -> crate::types::Point {
    crate::types::Point { x: p.x, y: p.y }
}

/// The bounding box of a text drawn from `top_left`: as wide as it was
/// measured, as high as the font.
pub open spec fn text_box(text: Seq<char>, top_left: Point, s: Surface) -> Region {
    Region { o: top_left, w: width_of(s, text), h: FONT_SIZE as i64 }
}

/// The region of a text that is mounted at `top_left` while its cursor stands
/// at `cursor`: the empty region at `top_left`, grown by the text's box at the
/// cursor.
pub open spec fn mounted_text_box(text: Seq<char>, top_left: Point, cursor: Point, s: Surface) -> Region {
    (Region { o: top_left, w: 0, h: 0 }).joined(text_box(text, cursor, s))
}

/// The steps that draw a text from `at`.
pub open spec fn text_ops(text: Seq<char>, at: Point) -> Seq<DrawOp> {
    seq![
        DrawOp::BeginPath,
        DrawOp::SetFont(decimal(FONT_SIZE as nat) + "px "@ + "Arial"@),
        DrawOp::FillText(text, on_window(at)),
        DrawOp::DrawPath,
    ]
}

/// Whether `p` is a point of the canvas, which is 800 wide and 600 high.
pub open spec fn on_canvas(p: Point) -> bool {
    0 <= p.x < 800 && 0 <= p.y < 600
}

/// The cursor moved by (dx, dy), if that is a point of the canvas.
pub open spec fn scrolled(cursor: Point, dx: i64, dy: i64) -> Option<Point> {
    let moved = Point { x: clamp(cursor.x + dx), y: clamp(cursor.y + dy) };
    if on_canvas(moved) {
        Some(moved)
    } else {
        None
    }
}

/// A height as a whole number of pixels that is not negative.
pub open spec fn as_pixels(h: i64) -> u32 {
    if h < 0 {
        0
    } else if h > u32::MAX {
        u32::MAX
    } else {
        h as u32
    }
}

/// What a [`MountedWidget`] stands for: rows of texts, a text of its own to
/// draw, where its cursor stands, and where it is mounted.
pub struct Mounted {
    pub rows: Seq<Seq<Seq<char>>>,
    pub drawable: Option<Seq<char>>,
    pub cursor: Point,
    pub top_left: Point,
}

/// A cursor and a region.
pub struct Measured {
    pub cursor: Point,
    pub region: Region,
}

/// The state of a drawing: where the cursor stands, what was drawn, and
/// whether the cursor stayed on the canvas.
pub struct Strokes {
    pub cursor: Point,
    pub ops: Seq<DrawOp>,
    pub ok: bool,
}

/// The cursor and the region after the texts from `(i, j)` on: each text is
/// mounted where the cursor stands, the cursor moves to the bottom right
/// corner of its region, and the region grows by it.
pub open spec fn region_flow(
    rows: Seq<Seq<Seq<char>>>,
    i: int,
    j: int,
    cursor: Point,
    region: Region,
    s: Surface,
) -> Measured
    decreases rows.len() - i, (if 0 <= i < rows.len() {
        rows[i].len() - j
    } else {
        0
    }),
{
    if i < 0 || j < 0 || i >= rows.len() {
        Measured { cursor, region }
    } else if j >= rows[i].len() {
        region_flow(rows, i + 1, 0, cursor, region, s)
    } else {
        let child = mounted_text_box(rows[i][j], cursor, cursor, s);
        region_flow(rows, i, j + 1, child.far_corner(), region.joined(child), s)
    }
}

/// Where text `n` of a row is mounted when the row starts at `start`: each
/// text is mounted at the bottom right corner of the one before.
pub open spec fn spot(row: Seq<Seq<char>>, n: nat, start: Point, s: Surface) -> Point
    decreases n,
{
    if n == 0 {
        start
    } else {
        let before = spot(row, (n - 1) as nat, start, s);
        mounted_text_box(row[n - 1], before, before, s).far_corner()
    }
}

/// The drawing of the texts of a row from text `k` on, each where it is
/// mounted. After each text the cursor moves one padding to the right of the
/// text's bottom right corner and back up to the top of the widget; the
/// drawing ends where that leaves the canvas.
pub open spec fn row_strokes(
    row: Seq<Seq<char>>,
    k: int,
    start: Point,
    top_left: Point,
    before: Strokes,
    s: Surface,
) -> Strokes
    decreases row.len() - k,
{
    if k < 0 || k >= row.len() {
        before
    } else {
        let at = spot(row, k as nat, start, s);
        let ops = before.ops + text_ops(row[k], at);
        let end = text_box(row[k], at, s).far_corner();
        match scrolled(end, PADDING, 0) {
            None => Strokes { cursor: end, ops, ok: false },
            Some(right) => match scrolled(right, 0, clamp(-clamp(right.y - top_left.y))) {
                None => Strokes { cursor: right, ops, ok: false },
                Some(up) => row_strokes(
                    row,
                    k + 1,
                    start,
                    top_left,
                    Strokes { cursor: up, ops, ok: true },
                    s,
                ),
            },
        }
    }
}

/// The region of text `k` of a row after it was drawn: its cursor then stands
/// at the bottom right corner of the text.
pub open spec fn drawn_box(row: Seq<Seq<char>>, k: int, start: Point, s: Surface) -> Region {
    let at = spot(row, k as nat, start, s);
    mounted_text_box(row[k], at, text_box(row[k], at, s).far_corner(), s)
}

/// The greatest height, in whole pixels, of the first `n` texts of a row
/// after they were drawn.
pub open spec fn row_height(row: Seq<Seq<char>>, n: nat, start: Point, s: Surface) -> u32
    decreases n,
{
    if n == 0 {
        0
    } else {
        let rest = row_height(row, (n - 1) as nat, start, s);
        let own = as_pixels(drawn_box(row, n - 1, start, s).h);
        if own > rest {
            own
        } else {
            rest
        }
    }
}

/// The drawing of one row that is not empty: the texts are drawn; then the
/// cursor goes to the bottom right corner of the last text's region, down by
/// a padding and the row's height, and to the left margin.
pub open spec fn row_drawn(
    row: Seq<Seq<char>>,
    top_left: Point,
    before: Strokes,
    s: Surface,
) -> Strokes {
    let start = before.cursor;
    let texts = row_strokes(
        row,
        0,
        start,
        top_left,
        Strokes { cursor: top_left, ops: before.ops, ok: true },
        s,
    );
    if !texts.ok {
        texts
    } else {
        let last = drawn_box(row, row.len() - 1, start, s).far_corner();
        let height = row_height(row, row.len(), start, s);
        match scrolled(last, 0, clamp(PADDING + height)) {
            None => Strokes { cursor: last, ops: texts.ops, ok: false },
            Some(down) => Strokes {
                cursor: Point { x: PADDING, y: down.y },
                ops: texts.ops,
                ok: true,
            },
        }
    }
}

/// The drawing of the rows from row `i` on; empty rows are passed over.
pub open spec fn rows_drawn(
    rows: Seq<Seq<Seq<char>>>,
    i: int,
    top_left: Point,
    before: Strokes,
    s: Surface,
) -> Strokes
    decreases rows.len() - i,
{
    if i < 0 || i >= rows.len() {
        before
    } else if rows[i].len() == 0 {
        rows_drawn(rows, i + 1, top_left, before, s)
    } else {
        let row = row_drawn(rows[i], top_left, before, s);
        if row.ok {
            rows_drawn(rows, i + 1, top_left, row, s)
        } else {
            row
        }
    }
}

impl Mounted {
    /// What a widget says of itself: where it is mounted, how many rows it
    /// has, and whether it has a drawable.
    pub open spec fn text(self) -> Seq<char> {
        "Mounted Widget at "@ + self.top_left.text() + " with "@ + decimal(self.rows.len())
            + " rows of children,"@ + (if self.drawable is Some {
            ""@
        } else {
            " not"@
        }) + " drawable"@
    }

    /// Whether every text of this widget was measured.
    pub open spec fn measured(self, s: Surface) -> bool {
        &&& forall|i: int, j: int|
            0 <= i < self.rows.len() && 0 <= j < self.rows[i].len() ==> s.widths.dom().contains(
                #[trigger] self.rows[i][j],
            )
        &&& match self.drawable {
            None => true,
            Some(t) => s.widths.dom().contains(t),
        }
    }

    /// Where the cursor stands after the region was taken, and the region:
    /// the empty region where the widget is mounted, grown by each text and
    /// then by the widget's own text at the cursor.
    pub open spec fn region(self, s: Surface) -> Measured {
        let children = region_flow(
            self.rows,
            0,
            0,
            self.cursor,
            Region { o: self.top_left, w: 0, h: 0 },
            s,
        );
        match self.drawable {
            None => children,
            Some(t) => Measured {
                cursor: children.cursor,
                region: children.region.joined(text_box(t, children.cursor, s)),
            },
        }
    }

    /// The drawing of this widget: its rows, then its own text where the
    /// cursor then stands. A drawing that keeps the cursor on the canvas
    /// leaves the cursor at the bottom right corner of what was drawn last.
    pub open spec fn drawing(self, s: Surface) -> Strokes {
        let rows = rows_drawn(
            self.rows,
            0,
            self.top_left,
            Strokes { cursor: self.cursor, ops: Seq::empty(), ok: true },
            s,
        );
        match self.drawable {
            Some(t) if rows.ok => Strokes {
                cursor: text_box(t, rows.cursor, s).far_corner(),
                ops: rows.ops + text_ops(t, rows.cursor),
                ok: true,
            },
            _ => rows,
        }
    }
}

/// A widget that just draws some text.
#[derive(Debug)]
pub struct Text {
    text: String,
}

impl View for Text {
    type V = Seq<char>;

    closed spec fn view(&self) -> Seq<char> {
        self.text@
    }
}

/// What each of the texts of a row holds.
pub open spec fn row_view(row: Seq<Text>) -> Seq<Seq<char>> {
    Seq::new(row.len(), |k: int| row[k]@)
}

/// The cursor moved by (dx, dy), or the error for a move that leaves the
/// canvas.
fn scroll(cursor: Point, dx: i64, dy: i64) -> (r: Result<Point, WindowError>)
    ensures
        r == match scrolled(cursor, dx, dy) {
            Some(moved) => Ok::<Point, WindowError>(moved),
            None => Err::<Point, WindowError>(WindowError::OutOfBounds),
        },
{
    let new_point = Point::from((sat_add(cursor.x, dx), sat_add(cursor.y, dy)));
    if !Values::new().fits_canvas(new_point) {
        return Err(WindowError::OutOfBounds);
    }
    Ok(new_point)
}

/// A height as a whole number of pixels that is not negative.
fn pixels(h: i64) -> (r: u32)
    ensures
        r == as_pixels(h),
{
    if h < 0 {
        0
    } else if h > u32::MAX as i64 {
        u32::MAX
    } else {
        h as u32
    }
}

impl Text {
    pub fn new(s: &str) -> (t: Text)
        ensures
            t@ == s@,
    {
        Text { text: String::from_str(s) }
    }

    /// Get the Region of the bounding box of this text. The text must have
    /// been measured.
    pub fn get_region(&self, top_left: Point, w: &Window) -> (r: Region)
        requires
            w.surface().widths.dom().contains(self@),
        ensures
            r == text_box(self@, top_left, w.surface()),
    {
        let text_size = w.text_width(self.text.as_str()).unwrap();
        Region::from((top_left, text_size, Values::new().font_size as i64))
    }

    /// Draw this text with the given top left corner. Returns the bottom
    /// right corner of what was painted.
    pub fn draw_at(&self, top_left: Point, w: &mut Window) -> (r: Result<Point, WindowError>)
        requires
            old(w).surface().widths.dom().contains(self@),
        ensures
            final(w).surface() == old(w).surface(),
            final(w).drawn() == old(w).drawn() + text_ops(self@, top_left),
            r == Ok::<Point, WindowError>(text_box(self@, top_left, old(w).surface()).far_corner()),
    {
        w.begin_path();
        w.set_font(Values::new().get_font_string().as_str());
        w.fill_text(self.text.as_str(), crate::types::Point { x: top_left.x, y: top_left.y });
        w.draw_path();
        Ok(self.get_region(top_left, w).bottom_right())
    }

    /// The region of this text mounted at `top_left` while its cursor
    /// stands at `cursor`.
    fn mounted_region(&self, top_left: Point, cursor: Point, w: &Window) -> (r: Region)
        requires
            w.surface().widths.dom().contains(self@),
        ensures
            r == mounted_text_box(self@, top_left, cursor, w.surface()),
    {
        let mut ret = Region::from((top_left, 0, 0));
        ret.add_assign(self.get_region(cursor, w));
        ret
    }

    /// Make this text into a MountedWidget.
    pub fn mount_widget(&self, top_left: Point) -> (m: MountedWidget)
        ensures
            m@ == (Mounted {
                rows: seq![Seq::empty()],
                drawable: Some(self@),
                cursor: top_left,
                top_left,
            }),
    {
        let mut ret = MountedWidget::new(top_left);
        ret.set_drawable(Text::new(self.text.as_str()));
        ret
    }
}

/// A container struct for a widget.
#[derive(Debug)]
pub struct MountedWidget {
    children: Vec<Vec<Text>>,
    drawable: Option<Text>,
    cursor: Point,
    top_left: Point,
}

impl View for MountedWidget {
    type V = Mounted;

    closed spec fn view(&self) -> Mounted {
        Mounted {
            rows: Seq::new(self.children@.len(), |i: int| row_view(self.children@[i]@)),
            drawable: match self.drawable {
                Some(t) => Some(t@),
                None => None,
            },
            cursor: self.cursor,
            top_left: self.top_left,
        }
    }
}

impl Default for MountedWidget {
    /// A widget without rows at the top left corner of the canvas.
    fn default() -> (m: MountedWidget)
        ensures
            m@ == (Mounted {
                rows: Seq::empty(),
                drawable: None,
                cursor: Point::zero(),
                top_left: Point::zero(),
            }),
    {
        let m = MountedWidget {
            children: Vec::new(),
            drawable: None,
            cursor: Point::default(),
            top_left: Point::default(),
        };
        assert(m@.rows =~= Seq::empty());
        m
    }
}

impl MountedWidget {
    pub fn new(top_left: Point) -> (m: MountedWidget)
        ensures
            m@ == (Mounted { rows: seq![Seq::empty()], drawable: None, cursor: top_left, top_left }),
    {
        let mut children: Vec<Vec<Text>> = Vec::new();
        children.push(Vec::new());
        let m = MountedWidget { children, drawable: None, cursor: top_left, top_left };
        assert(m@.rows =~~= seq![Seq::<Seq<char>>::empty()]);
        m
    }

    /// What this widget says of itself: where it is mounted, how many rows
    /// it has, and whether it has a drawable.
    pub fn to_string(&self) -> (s: String)
        ensures
            s@ == self@.text(),
    {
        proof {
            self.view_of_fields();
        }
        let mut s = String::from_str("Mounted Widget at ");
        s.append(self.top_left.to_string().as_str());
        s.append(" with ");
        s.append(to_decimal(self.children.len() as u64).as_str());
        s.append(" rows of children,");
        if self.drawable.is_none() {
            s.append(" not");
        }
        s.append(" drawable");
        proof {
            reveal_strlit("");
        }
        s
    }

    /// Add a new element to the current row. The widget must have a row.
    pub fn push_current_row(&mut self, d: Text)
        requires
            old(self)@.rows.len() > 0,
        ensures
            final(self)@ == (Mounted {
                rows: old(self)@.rows.update(
                    old(self)@.rows.len() - 1,
                    old(self)@.rows.last().push(d@),
                ),
                ..old(self)@
            }),
    {
        let num_rows = self.children.len();
        let idx = if num_rows > 0 {
            num_rows - 1
        } else {
            0
        };
        self.children[idx].push(d);
        assert(self@.rows =~~= old(self)@.rows.update(
            old(self)@.rows.len() - 1,
            old(self)@.rows.last().push(d@),
        ));
    }

    /// Add a new element to a new row.
    pub fn push_new_row(&mut self, d: Text)
        ensures
            final(self)@ == (Mounted { rows: old(self)@.rows.push(seq![d@]), ..old(self)@ }),
    {
        let mut row: Vec<Text> = Vec::new();
        row.push(d);
        self.children.push(row);
        assert(self@.rows =~~= old(self)@.rows.push(seq![d@]));
    }

    /// Scroll cursor horizontally. A move that leaves the canvas is an
    /// error and moves nothing.
    pub fn scroll_horizontal(&mut self, offset: i64) -> (r: Result<(), WindowError>)
        ensures
            match scrolled(old(self)@.cursor, offset, 0) {
                Some(moved) => r == Ok::<(), WindowError>(()) && final(self)@ == (Mounted {
                    cursor: moved,
                    ..old(self)@
                }),
                None => r == Err::<(), WindowError>(WindowError::OutOfBounds) && final(self)@
                    == old(self)@,
            },
    {
        self.cursor = scroll(self.cursor, offset, 0)?;
        Ok(())
    }

    /// Scroll cursor vertical. A move that leaves the canvas is an error
    /// and moves nothing.
    pub fn scroll_vertical(&mut self, offset: i64) -> (r: Result<(), WindowError>)
        ensures
            match scrolled(old(self)@.cursor, 0, offset) {
                Some(moved) => r == Ok::<(), WindowError>(()) && final(self)@ == (Mounted {
                    cursor: moved,
                    ..old(self)@
                }),
                None => r == Err::<(), WindowError>(WindowError::OutOfBounds) && final(self)@
                    == old(self)@,
            },
    {
        self.cursor = scroll(self.cursor, 0, offset)?;
        Ok(())
    }

    /// Set drawable for this widget - overrides any currently set.
    pub fn set_drawable(&mut self, d: Text)
        ensures
            final(self)@ == (Mounted { drawable: Some(d@), ..old(self)@ }),
    {
        self.drawable = Some(d);
    }

    proof fn view_of_fields(self)
        ensures
            self@.rows.len() == self.children@.len(),
            forall|i: int|
                0 <= i < self.children@.len() ==> #[trigger] self@.rows[i] == row_view(
                    self.children@[i]@,
                ),
            forall|i: int, j: int|
                0 <= i < self.children@.len() && 0 <= j < self.children@[i]@.len() ==> (
                #[trigger] self@.rows[i][j]) == self.children@[i]@[j]@,
            self@.cursor == self.cursor,
            self@.top_left == self.top_left,
            self@.drawable == match self.drawable {
                Some(t) => Some(t@),
                None => None,
            },
    {
    }

    /// Get the region of this widget: every text is mounted in turn where
    /// the cursor stands, and moves the cursor on. Every text must have been
    /// measured.
    pub fn get_region(&mut self, _top_left: Point, w: &Window) -> (r: Region)
        requires
            old(self)@.measured(w.surface()),
        ensures
            final(self)@ == (Mounted {
                cursor: old(self)@.region(w.surface()).cursor,
                ..old(self)@
            }),
            r == old(self)@.region(w.surface()).region,
    {
        proof {
            self.view_of_fields();
        }
        let ghost s = w.surface();
        let ghost rows = self@.rows;
        let ghost total = region_flow(
            rows,
            0,
            0,
            self.cursor,
            Region { o: self.top_left, w: 0, h: 0 },
            s,
        );
        // Add up all the regions.
        let mut ret = Region::from((self.top_left, 0, 0));
        let mut cursor = self.cursor;
        let mut i: usize = 0;
        while i < self.children.len()
            invariant
                i <= self.children@.len(),
                *self == *old(self),
                s == w.surface(),
                rows == self@.rows,
                self@.measured(s),
                region_flow(rows, i as int, 0, cursor, ret, s) == total,
            decreases self.children@.len() - i,
        {
            proof {
                self.view_of_fields();
            }
            let row = &self.children[i];
            let mut j: usize = 0;
            while j < row.len()
                invariant
                    i < self.children@.len(),
                    row == &self.children@[i as int],
                    j <= row@.len(),
                    *self == *old(self),
                    s == w.surface(),
                    rows == self@.rows,
                    self@.measured(s),
                    region_flow(rows, i as int, j as int, cursor, ret, s) == total,
                decreases row@.len() - j,
            {
                proof {
                    self.view_of_fields();
                }
                let res = row[j].mounted_region(cursor, cursor, w);
                cursor = res.bottom_right();
                ret.add_assign(res);
                j += 1;
            }
            i += 1;
        }
        // add any drawable
        if let Some(d) = &self.drawable {
            let new_region = d.get_region(cursor, w);
            ret.add_assign(d.get_region(new_region.origin(), w));
        }
        self.cursor = cursor;
        proof {
            self.view_of_fields();
        }
        ret
    }
}

/// Whether every text of a row was measured.
pub open spec fn row_measured(row: Seq<Seq<char>>, s: Surface) -> bool {
    forall|k: int| 0 <= k < row.len() ==> s.widths.dom().contains(#[trigger] row[k])
}

/// Where each text of a row is mounted when the row starts at `start`.
fn spots(row: &Vec<Text>, start: Point, w: &Window) -> (at: Vec<Point>)
    requires
        row_measured(row_view(row@), w.surface()),
    ensures
        at@.len() == row@.len(),
        forall|k: int|
            0 <= k < row@.len() ==> #[trigger] at@[k] == spot(
                row_view(row@),
                k as nat,
                start,
                w.surface(),
            ),
{
    let ghost texts = row_view(row@);
    let ghost s = w.surface();
    let mut at: Vec<Point> = Vec::new();
    let mut cursor = start;
    let mut k: usize = 0;
    while k < row.len()
        invariant
            k <= row@.len(),
            texts == row_view(row@),
            s == w.surface(),
            row_measured(texts, s),
            at@.len() == k,
            cursor == spot(texts, k as nat, start, s),
            forall|n: int| 0 <= n < k ==> #[trigger] at@[n] == spot(texts, n as nat, start, s),
        decreases row@.len() - k,
    {
        assert(s.widths.dom().contains(texts[k as int]));
        at.push(cursor);
        // mount the child, and advance the cursor
        cursor = row[k].mounted_region(cursor, cursor, w).bottom_right();
        k += 1;
    }
    at
}

/// Draws the texts of a row, each where it is mounted, and moves the cursor
/// on after each. It returns where the cursor stands, and whether it stayed
/// on the canvas.
fn draw_texts(
    row: &Vec<Text>,
    at: &Vec<Point>,
    top_left: Point,
    w: &mut Window,
    Ghost(start): Ghost<Point>,
    Ghost(before): Ghost<Seq<DrawOp>>,
    Ghost(ops): Ghost<Seq<DrawOp>>,
) -> (r: (Point, bool))
    requires
        row_measured(row_view(row@), old(w).surface()),
        at@.len() == row@.len(),
        forall|k: int|
            0 <= k < row@.len() ==> #[trigger] at@[k] == spot(
                row_view(row@),
                k as nat,
                start,
                old(w).surface(),
            ),
        old(w).drawn() == before + ops,
    ensures
        final(w).surface() == old(w).surface(),
        ({
            let strokes = row_strokes(
                row_view(row@),
                0,
                start,
                top_left,
                Strokes { cursor: top_left, ops, ok: true },
                old(w).surface(),
            );
            &&& final(w).drawn() == before + strokes.ops
            &&& r == (strokes.cursor, strokes.ok)
        }),
{
    let ghost texts = row_view(row@);
    let ghost s = w.surface();
    let ghost total = row_strokes(
        texts,
        0,
        start,
        top_left,
        Strokes { cursor: top_left, ops, ok: true },
        s,
    );
    let ghost mut acc = ops;
    let mut cursor = top_left;
    let mut k: usize = 0;
    while k < row.len()
        invariant
            k <= row@.len(),
            texts == row_view(row@),
            s == w.surface(),
            s == old(w).surface(),
            row_measured(texts, s),
            at@.len() == row@.len(),
            forall|n: int|
                0 <= n < row@.len() ==> #[trigger] at@[n] == spot(texts, n as nat, start, s),
            w.drawn() == before + acc,
            total == row_strokes(
                texts,
                0,
                start,
                top_left,
                Strokes { cursor: top_left, ops, ok: true },
                s,
            ),
            row_strokes(texts, k as int, start, top_left, Strokes { cursor, ops: acc, ok: true }, s)
                == total,
        decreases row@.len() - k,
    {
        // draw the child
        let end = row[k].draw_at(at[k], w).unwrap();
        proof {
            acc = acc + text_ops(texts[k as int], at@[k as int]);
        }
        // advance the cursor horizontally by padding and back to where we started vertically
        let right = match scroll(end, PADDING, 0) {
            Ok(p) => p,
            Err(_) => {
                return (end, false);
            },
        };
        cursor =
        match scroll(right, 0, sat_neg(sat_sub(right.y, top_left.y))) {
            Ok(p) => p,
            Err(_) => {
                return (right, false);
            },
        };
        k += 1;
    }
    (cursor, true)
}

/// The greatest height of the texts of a row after they were drawn, and the
/// bottom right corner of the last one's region.
fn tallest(row: &Vec<Text>, at: &Vec<Point>, w: &Window, Ghost(start): Ghost<Point>) -> (r: (
    u32,
    Point,
))
    requires
        row@.len() > 0,
        row_measured(row_view(row@), w.surface()),
        at@.len() == row@.len(),
        forall|k: int|
            0 <= k < row@.len() ==> #[trigger] at@[k] == spot(
                row_view(row@),
                k as nat,
                start,
                w.surface(),
            ),
    ensures
        r.0 == row_height(row_view(row@), row@.len(), start, w.surface()),
        r.1 == drawn_box(row_view(row@), row@.len() - 1, start, w.surface()).far_corner(),
{
    let ghost texts = row_view(row@);
    let ghost s = w.surface();
    let mut vertical_offset: u32 = 0;
    let mut cursor = at[0];
    let mut k: usize = 0;
    while k < row.len()
        invariant
            k <= row@.len(),
            row@.len() > 0,
            texts == row_view(row@),
            s == w.surface(),
            row_measured(texts, s),
            at@.len() == row@.len(),
            forall|n: int|
                0 <= n < row@.len() ==> #[trigger] at@[n] == spot(texts, n as nat, start, s),
            vertical_offset == row_height(texts, k as nat, start, s),
            k > 0 ==> cursor == drawn_box(texts, k - 1, start, s).far_corner(),
        decreases row@.len() - k,
    {
        assert(s.widths.dom().contains(texts[k as int]));
        let end = row[k].get_region(at[k], w).bottom_right();
        let ret = row[k].mounted_region(at[k], end, w);
        cursor = ret.bottom_right();
        let height = pixels(ret.height());
        if height > vertical_offset {
            vertical_offset = height;
        }
        k += 1;
    }
    (vertical_offset, cursor)
}

/// Draws a row that is not empty, with the cursor at `cursor`. It returns
/// where the cursor stands, and whether it stayed on the canvas.
fn draw_row(
    row: &Vec<Text>,
    top_left: Point,
    cursor: Point,
    w: &mut Window,
    Ghost(before): Ghost<Seq<DrawOp>>,
    Ghost(ops): Ghost<Seq<DrawOp>>,
) -> (r: (Point, bool))
    requires
        row@.len() > 0,
        row_measured(row_view(row@), old(w).surface()),
        old(w).drawn() == before + ops,
    ensures
        final(w).surface() == old(w).surface(),
        ({
            let strokes = row_drawn(
                row_view(row@),
                top_left,
                Strokes { cursor, ops, ok: true },
                old(w).surface(),
            );
            &&& final(w).drawn() == before + strokes.ops
            &&& r == (strokes.cursor, strokes.ok)
        }),
{
    // first mount all children in row
    let at = spots(row, cursor, w);
    // Then draw them
    let (drawn_to, ok) = draw_texts(row, &at, top_left, w, Ghost(cursor), Ghost(before), Ghost(ops));
    if !ok {
        return (drawn_to, false);
    }
    // advance the cursor back to the beginning of the next line down
    // find tallest
    let (vertical_offset, last) = tallest(row, &at, w, Ghost(cursor));
    match scroll(last, 0, sat_add(PADDING, vertical_offset as i64)) {
        Ok(down) => (Point::from((PADDING, down.y)), true),
        Err(_) => (last, false),
    }
}

impl MountedWidget {
    /// Draws the rows of this widget. It returns where the cursor stands,
    /// and whether it stayed on the canvas.
    fn draw_rows(&self, w: &mut Window) -> (r: (Point, bool))
        requires
            self@.measured(old(w).surface()),
        ensures
            final(w).surface() == old(w).surface(),
            ({
                let strokes = rows_drawn(
                    self@.rows,
                    0,
                    self@.top_left,
                    Strokes { cursor: self@.cursor, ops: Seq::empty(), ok: true },
                    old(w).surface(),
                );
                &&& final(w).drawn() == old(w).drawn() + strokes.ops
                &&& r == (strokes.cursor, strokes.ok)
            }),
    {
        proof {
            self.view_of_fields();
        }
        let ghost s = w.surface();
        let ghost rows = self@.rows;
        let ghost before = w.drawn();
        let ghost total = rows_drawn(
            rows,
            0,
            self.top_left,
            Strokes { cursor: self.cursor, ops: Seq::empty(), ok: true },
            s,
        );
        let ghost mut ops: Seq<DrawOp> = Seq::empty();
        let mut cursor = self.cursor;
        let mut i: usize = 0;
        while i < self.children.len()
            invariant
                i <= self.children@.len(),
                s == w.surface(),
                s == old(w).surface(),
                before == old(w).drawn(),
                rows == self@.rows,
                self@.measured(s),
                w.drawn() == before + ops,
                rows_drawn(rows, i as int, self.top_left, Strokes { cursor, ops, ok: true }, s)
                    == total,
                total == rows_drawn(
                    self@.rows,
                    0,
                    self@.top_left,
                    Strokes { cursor: self@.cursor, ops: Seq::empty(), ok: true },
                    old(w).surface(),
                ),
            decreases self.children@.len() - i,
        {
            proof {
                self.view_of_fields();
            }
            let row = &self.children[i];
            if !row.is_empty() {
                proof {
                    assert forall|k: int| 0 <= k < row@.len() implies s.widths.dom().contains(
                        #[trigger] row_view(row@)[k],
                    ) by {
                    }
                }
                let ghost strokes = row_drawn(
                    row_view(row@),
                    self.top_left,
                    Strokes { cursor, ops, ok: true },
                    s,
                );
                let (next, ok) = draw_row(row, self.top_left, cursor, w, Ghost(before), Ghost(ops));
                proof {
                    ops = strokes.ops;
                }
                if !ok {
                    return (next, false);
                }
                cursor = next;
            }
            i += 1;
        }
        (cursor, true)
    }

    /// Draw this element and update the cursor. It returns where the cursor
    /// stands at the end; a cursor that would leave the canvas ends the
    /// drawing with an error. Every text must have been measured.
    pub fn draw(&mut self, w: &mut Window) -> (r: Result<Point, WindowError>)
        requires
            old(self)@.measured(old(w).surface()),
        ensures
            final(w).surface() == old(w).surface(),
            final(w).drawn() == old(w).drawn() + old(self)@.drawing(old(w).surface()).ops,
            final(self)@ == (Mounted {
                cursor: old(self)@.drawing(old(w).surface()).cursor,
                ..old(self)@
            }),
            r == if old(self)@.drawing(old(w).surface()).ok {
                Ok::<Point, WindowError>(old(self)@.drawing(old(w).surface()).cursor)
            } else {
                Err::<Point, WindowError>(WindowError::OutOfBounds)
            },
    {
        proof {
            self.view_of_fields();
        }
        // Draw any child widgets
        let (mut cursor, ok) = self.draw_rows(w);
        if ok {
            // draw self, if present
            if let Some(d) = &self.drawable {
                cursor = d.draw_at(cursor, w).unwrap();
            }
        }
        self.cursor = cursor;
        proof {
            self.view_of_fields();
        }
        if ok {
            Ok(cursor)
        } else {
            Err(WindowError::OutOfBounds)
        }
    }

    /// Draw this element; where it is mounted, the given corner is not
    /// looked at.
    pub fn draw_at(&mut self, _top_left: Point, w: &mut Window) -> (r: Result<Point, WindowError>)
        requires
            old(self)@.measured(old(w).surface()),
        ensures
            final(w).surface() == old(w).surface(),
            final(w).drawn() == old(w).drawn() + old(self)@.drawing(old(w).surface()).ops,
            final(self)@ == (Mounted {
                cursor: old(self)@.drawing(old(w).surface()).cursor,
                ..old(self)@
            }),
            r == if old(self)@.drawing(old(w).surface()).ok {
                Ok::<Point, WindowError>(old(self)@.drawing(old(w).surface()).cursor)
            } else {
                Err::<Point, WindowError>(WindowError::OutOfBounds)
            },
    {
        // Return new cursor position, leaving at bottom right
        self.draw(w)
    }
}

/// Top-level canvas engine object.
#[derive(Debug)]
pub struct WindowEngine {
    window: Window,
    element: MountedWidget,
}

impl WindowEngine {
    /// The engine's window.
    pub closed spec fn window(&self) -> Window {
        self.window
    }

    /// The element that the engine shows.
    pub closed spec fn element(&self) -> Mounted {
        self.element@
    }

    /// An engine that shows the text, mounted at the top left corner of the
    /// canvas.
    pub fn new(w: Window, e: Text) -> (engine: WindowEngine)
        ensures
            engine.window() == w,
            engine.element() == (Mounted {
                rows: seq![Seq::empty()],
                drawable: Some(e@),
                cursor: Point::zero(),
                top_left: Point::zero(),
            }),
    {
        let mounted_widget = e.mount_widget(Point::default());
        WindowEngine { window: w, element: mounted_widget }
    }

    /// The engine's window, to measure texts for it and to take what was
    /// drawn.
    pub fn window_mut(&mut self) -> (w: &mut Window)
        ensures
            *w == old(self).window(),
            final(self).window() == *final(w),
            final(self).element() == old(self).element(),
    {
        &mut self.window
    }

    /// Draw elements: the window is blanked, and the element is drawn from
    /// where its cursor stands. Every text must have been measured.
    pub fn draw(&mut self) -> (r: Result<(), WindowError>)
        requires
            old(self).element().measured(old(self).window().surface()),
        ensures
            final(self).window().surface() == old(self).window().surface(),
            final(self).window().drawn() == old(self).window().drawn().push(DrawOp::Blank)
                + old(self).element().drawing(old(self).window().surface()).ops,
            final(self).element() == (Mounted {
                cursor: old(self).element().drawing(old(self).window().surface()).cursor,
                ..old(self).element()
            }),
            r is Ok <==> old(self).element().drawing(old(self).window().surface()).ok,
            r is Err ==> r == Err::<(), WindowError>(WindowError::OutOfBounds),
    {
        // clear canvas
        self.window.blank();
        // Draw element
        self.element.draw(&mut self.window)?;
        Ok(())
    }
}

} // verus!

//! Points, regions and layout constants.

use vstd::prelude::*;
use vstd::std_specs::cmp::PartialOrdSpecImpl;
use vstd::std_specs::convert::FromSpecImpl;
use std::cmp::Ordering;
use std::ops::AddAssign;
use crate::arith::{clamp, sat_add, sat_sub};
use crate::digits::{decimal, hex, signed_decimal, to_decimal, to_hex, to_signed_decimal};
use crate::error::WindowError;

verus! {

/// A single coordinate point on the canvas; the top left is (0, 0).
#[derive(Debug, Clone, Copy, PartialEq, Eq, Structural)]
pub struct Point {
    pub x: i64,
    pub y: i64,
}

impl Point {
    /// The top left corner of the canvas.
    pub open spec fn zero() -> Point {
        Point { x: 0, y: 0 }
    }

    /// This point moved `offset` to the right.
    pub open spec fn right(self, offset: i64) -> Point {
        Point { x: clamp(self.x + offset), y: self.y }
    }

    /// This point moved `offset` down.
    pub open spec fn down(self, offset: i64) -> Point {
        Point { x: self.x, y: clamp(self.y + offset) }
    }

    /// Set to new point.
    pub fn set_to(&mut self, p: Point) -> (r: Result<(), WindowError>)
        ensures
            r is Ok,
            *final(self) == p,
    {
        self.x = p.x;
        self.y = p.y;
        Ok(())
    }

    /// Horizontal offset.
    pub fn horiz_offset(&mut self, offset: i64) -> (r: Result<(), WindowError>)
        ensures
            r is Ok,
            *final(self) == old(self).right(offset),
    {
        let p = Point { x: sat_add(self.x, offset), y: self.y };
        self.set_to(p)
    }

    /// Vertical offset.
    pub fn vert_offset(&mut self, offset: i64) -> (r: Result<(), WindowError>)
        ensures
            r is Ok,
            *final(self) == old(self).down(offset),
    {
        let p = Point { x: self.x, y: sat_add(self.y, offset) };
        self.set_to(p)?;
        Ok(())
    }
}

impl Point {
    /// The square of this point's distance from the top left corner.
    pub open spec fn norm(self) -> int {
        self.x * self.x + self.y * self.y
    }

    /// Whether this point lies farther out than `other`: it is not nearer to
    /// the top left corner, and it is another point.
    pub open spec fn beyond(self, other: Point) -> bool {
        self.norm() >= other.norm() && self != other
    }

    /// The square of the distance from the top left corner.
    fn distance(&self) -> (n: u128)
        ensures
            n == self.norm(),
    {
        let x: i128 = self.x as i128;
        let y: i128 = self.y as i128;
        assert(0 <= x * x <= 0x4000_0000_0000_0000_0000_0000_0000_0000) by (nonlinear_arith)
            requires
                -0x8000_0000_0000_0000 <= x <= 0x8000_0000_0000_0000,
        ;
        assert(0 <= y * y <= 0x4000_0000_0000_0000_0000_0000_0000_0000) by (nonlinear_arith)
            requires
                -0x8000_0000_0000_0000 <= y <= 0x8000_0000_0000_0000,
        ;
        let xx: u128 = (x * x) as u128;
        let yy: u128 = (y * y) as u128;
        xx + yy
    }
}

impl PartialOrd for Point {
    /// Orders two points by their distance from the top left corner. Points
    /// as far out as each other, but not the same, count as greater.
    fn partial_cmp(&self, other: &Point) -> (r: Option<Ordering>) {
        if self.distance() < other.distance() {
            Some(Ordering::Less)
        } else if self.x == other.x && self.y == other.y {
            Some(Ordering::Equal)
        } else {
            Some(Ordering::Greater)
        }
    }
}

impl PartialOrdSpecImpl for Point {
    open spec fn obeys_partial_cmp_spec() -> bool {
        true
    }

    open spec fn partial_cmp_spec(&self, other: &Point) -> Option<Ordering> {
        if self.norm() < other.norm() {
            Some(Ordering::Less)
        } else if self.x == other.x && self.y == other.y {
            Some(Ordering::Equal)
        } else {
            Some(Ordering::Greater)
        }
    }
}

/// (x, y), from (0, 0) at top left.
impl From<(i64, i64)> for Point {
    fn from(other: (i64, i64)) -> (p: Point) {
        Point { x: other.0, y: other.1 }
    }
}

impl FromSpecImpl<(i64, i64)> for Point {
    open spec fn obeys_from_spec() -> bool {
        true
    }

    open spec fn from_spec(other: (i64, i64)) -> Point {
        Point { x: other.0, y: other.1 }
    }
}

impl Default for Point {
    fn default() -> (p: Point)
        ensures
            p == Point::zero(),
    {
        Point { x: 0, y: 0 }
    }
}

impl Point {
    /// This point as text: `(x, y)`.
    pub open spec fn text(self) -> Seq<char> {
        "("@ + signed_decimal(self.x as int) + ", "@ + signed_decimal(self.y as int) + ")"@
    }

    /// Writes this point out as `(x, y)`.
    pub fn to_string(&self) -> (s: String)
        ensures
            s@ == self.text(),
    {
        let mut s = String::from_str("(");
        s.append(to_signed_decimal(self.x).as_str());
        s.append(", ");
        s.append(to_signed_decimal(self.y).as_str());
        s.append(")");
        s
    }
}

/// A rectangular region on the canvas.
#[derive(Debug, Clone, Copy, PartialEq, Eq, Structural)]
pub struct Region {
    /// The top left corner.
    pub o: Point,
    /// The width.
    pub w: i64,
    /// The height.
    pub h: i64,
}

impl Region {
    /// The corner opposite the origin.
    pub open spec fn far_corner(self) -> Point {
        Point { x: clamp(self.o.x + self.w), y: clamp(self.o.y + self.h) }
    }

    /// The corner to the right of the origin.
    pub open spec fn near_corner(self) -> Point {
        Point { x: clamp(self.o.x + self.w), y: self.o.y }
    }

    /// Whether `p` lies in this region, its edges included.
    pub open spec fn holds(self, p: Point) -> bool {
        &&& self.o.x <= p.x <= self.far_corner().x
        &&& self.o.y <= p.y <= self.far_corner().y
    }

    /// The region that `+=` leaves: it starts at the origin nearer to the top
    /// left corner of the canvas (at `other`'s where neither is nearer), and
    /// its width and height are the larger right edge and the larger bottom
    /// edge of the two.
    pub open spec fn joined(self, other: Region) -> Region {
        Region {
            o: if self.o.norm() < other.o.norm() {
                self.o
            } else {
                other.o
            },
            w: if self.near_corner().x > other.near_corner().x {
                self.near_corner().x
            } else {
                other.near_corner().x
            },
            h: if self.far_corner().y > other.far_corner().y {
                self.far_corner().y
            } else {
                other.far_corner().y
            },
        }
    }

    /// The region between two corners.
    pub open spec fn spanning(top_left: Point, bottom_right: Point) -> Region {
        Region {
            o: top_left,
            w: clamp(bottom_right.x - top_left.x),
            h: clamp(bottom_right.y - top_left.y),
        }
    }

    /// Return this region's bottom right.
    pub fn bottom_right(&self) -> (p: Point)
        ensures
            p == self.far_corner(),
    {
        Point { x: sat_add(self.o.x, self.w), y: sat_add(self.o.y, self.h) }
    }

    /// Check if given point is within this region.
    pub fn contains(&self, p: Point) -> (b: bool)
        ensures
            b == self.holds(p),
    {
        self.o.x <= p.x && self.o.y <= p.y && self.bottom_right().x >= p.x
            && self.bottom_right().y >= p.y
    }

    /// Return this region's top right.
    pub fn top_right(&self) -> (p: Point)
        ensures
            p == self.near_corner(),
    {
        Point { x: sat_add(self.o.x, self.w), y: self.o.y }
    }

    /// Getter for origin.
    pub fn origin(&self) -> (p: Point)
        ensures
            p == self.o,
    {
        self.o
    }

    /// Getter for height.
    pub fn height(&self) -> (h: i64)
        ensures
            h == self.h,
    {
        self.h
    }

    /// Getter for width.
    pub fn width(&self) -> (w: i64)
        ensures
            w == self.w,
    {
        self.w
    }

    /// Add/remove width.
    pub fn width_offset(&mut self, offset: i64)
        ensures
            *final(self) == (Region { w: clamp(old(self).w + offset), ..*old(self) }),
    {
        self.w = sat_add(self.w, offset);
    }

    /// Add/remove height.
    pub fn height_offset(&mut self, offset: i64)
        ensures
            *final(self) == (Region { h: clamp(old(self).h + offset), ..*old(self) }),
    {
        self.h = sat_add(self.h, offset);
    }
}

impl Default for Region {
    fn default() -> (r: Region)
        ensures
            r == (Region { o: Point::zero(), w: 0, h: 0 }),
    {
        Region { o: Point { x: 0, y: 0 }, w: 0, h: 0 }
    }
}

impl AddAssign for Region {
    /// Grows this region by `other`.
    fn add_assign(&mut self, other: Region)
        ensures
            *final(self) == old(self).joined(other),
    {
        let bottom_right = self.bottom_right();
        let o_bottom_right = other.bottom_right();
        let top_right = self.top_right();
        let o_top_right = other.top_right();
        let o_winner = if self.o < other.origin() {
            self.o
        } else {
            other.origin()
        };
        *self = Region {
            o: o_winner,
            w: if top_right.x > o_top_right.x {
                top_right.x
            } else {
                o_top_right.x
            },
            h: if bottom_right.y > o_bottom_right.y {
                bottom_right.y
            } else {
                o_bottom_right.y
            },
        };
    }
}

/// (top_left, bottom_right)
impl From<(Point, Point)> for Region {
    fn from(bits: (Point, Point)) -> (r: Region) {
        Region { o: bits.0, w: sat_sub(bits.1.x, bits.0.x), h: sat_sub(bits.1.y, bits.0.y) }
    }
}

impl FromSpecImpl<(Point, Point)> for Region {
    open spec fn obeys_from_spec() -> bool {
        true
    }

    open spec fn from_spec(bits: (Point, Point)) -> Region {
        Region::spanning(bits.0, bits.1)
    }
}

/// (origin, width, height)
impl From<(Point, i64, i64)> for Region {
    fn from(bits: (Point, i64, i64)) -> (r: Region) {
        Region { o: bits.0, w: bits.1, h: bits.2 }
    }
}

impl FromSpecImpl<(Point, i64, i64)> for Region {
    open spec fn obeys_from_spec() -> bool {
        true
    }

    open spec fn from_spec(bits: (Point, i64, i64)) -> Region {
        Region { o: bits.0, w: bits.1, h: bits.2 }
    }
}

/// (origin_x, origin_y, width, height)
impl From<(i64, i64, i64, i64)> for Region {
    fn from(bits: (i64, i64, i64, i64)) -> (r: Region) {
        Region::from((Point::from((bits.0, bits.1)), bits.2, bits.3))
    }
}

impl FromSpecImpl<(i64, i64, i64, i64)> for Region {
    open spec fn obeys_from_spec() -> bool {
        true
    }

    open spec fn from_spec(bits: (i64, i64, i64, i64)) -> Region {
        Region { o: Point { x: bits.0, y: bits.1 }, w: bits.2, h: bits.3 }
    }
}

/// Color type, RGB.
#[derive(Debug, Clone, Copy, PartialEq, Eq, Structural)]
pub struct Color {
    pub r: u8,
    pub g: u8,
    pub b: u8,
}

/// Whether two texts hold the same characters.
pub fn same_text(a: &str, b: &str) -> (r: bool)
    ensures
        r == (a@ == b@),
{
    String::from_str(a) == String::from_str(b)
}

impl Color {
    /// The color's name where it has one, else `#` and its three parts in
    /// hexadecimal. Every color with a full red part is called red.
    pub open spec fn text(self) -> Seq<char> {
        if self.r == 255 {
            "red"@
        } else if self.r == 0 && self.g == 0 && self.b == 0 {
            "black"@
        } else {
            "#"@ + hex(self.r as nat) + hex(self.g as nat) + hex(self.b as nat)
        }
    }

    /// Whether `s` names a color.
    pub open spec fn is_name(s: Seq<char>) -> bool {
        s == "black"@ || s == "red"@ || s == "blue"@ || s == "green"@
    }

    /// The color that `s` names.
    pub open spec fn named(s: Seq<char>) -> Color {
        if s == "black"@ {
            Color { r: 0, g: 0, b: 0 }
        } else if s == "red"@ {
            Color { r: 255, g: 0, b: 0 }
        } else if s == "blue"@ {
            Color { r: 0, g: 0, b: 255 }
        } else {
            Color { r: 0, g: 255, b: 0 }
        }
    }

    pub fn new(r: u8, g: u8, b: u8) -> (c: Color)
        ensures
            c == (Color { r, g, b }),
    {
        Color { r, g, b }
    }

    /// Writes this color out as the canvas takes it.
    pub fn to_string(&self) -> (s: String)
        ensures
            s@ == self.text(),
    {
        if self.r == 255 {
            String::from_str("red")
        } else if self.r == 0 && self.g == 0 && self.b == 0 {
            String::from_str("black")
        } else {
            let mut s = String::from_str("#");
            s.append(to_hex(self.r as u64).as_str());
            s.append(to_hex(self.g as u64).as_str());
            s.append(to_hex(self.b as u64).as_str());
            s
        }
    }

    /// Reads a color's name: `black`, `red`, `blue` or `green`.
    pub fn from_str(s: &str) -> (r: Result<Color, WindowError>)
        requires
            Color::is_name(s@),
        ensures
            r == Ok::<Color, WindowError>(Color::named(s@)),
    {
        if same_text(s, "black") {
            Ok(Color::new(0, 0, 0))
        } else if same_text(s, "red") {
            Ok(Color::new(255, 0, 0))
        } else if same_text(s, "blue") {
            Ok(Color::new(0, 0, 255))
        } else {
            Ok(Color::new(0, 255, 0))
        }
    }
}

/// The typefaces on offer.
#[derive(Debug, Clone, Copy, PartialEq, Eq, Structural)]
pub enum FontStyle {
    Arial,
}

impl Default for FontStyle {
    fn default() -> (f: FontStyle)
        ensures
            f == FontStyle::Arial,
    {
        FontStyle::Arial
    }
}

/// A font style and size.
#[derive(Debug, Clone, Copy, PartialEq, Eq, Structural)]
pub struct Font {
    pub size: u8,
    pub style: FontStyle,
}

impl Font {
    /// The font that every widget starts with.
    pub open spec fn standard() -> Font {
        Font { size: 16, style: FontStyle::Arial }
    }

    /// This font as the canvas takes it: the size in pixels, then the style.
    pub open spec fn text(self) -> Seq<char> {
        decimal(self.size as nat) + "px "@ + "Arial"@
    }

    /// Getter for font size.
    pub fn height(self) -> (h: i64)
        ensures
            h == self.size,
    {
        self.size as i64
    }

    /// Writes this font out as the canvas takes it.
    pub fn to_string(&self) -> (s: String)
        ensures
            s@ == self.text(),
    {
        let mut s = to_decimal(self.size as u64);
        s.append("px ");
        match self.style {
            FontStyle::Arial => s.append("Arial"),
        }
        s
    }
}

impl Default for Font {
    fn default() -> (f: Font)
        ensures
            f == Font::standard(),
    {
        Font { size: 16, style: FontStyle::default() }
    }
}

/// Layout values.
#[derive(Debug, Clone, Copy, PartialEq, Eq, Structural)]
pub struct Values {
    /// Total size of canvas (width, height).
    pub canvas_region: Region,
    /// Padding value between widgets.
    pub padding: i64,
}

impl Values {
    /// The values that a window starts with: a canvas of 800 by 600 and a
    /// padding of 10.
    pub open spec fn standard() -> Values {
        Values { canvas_region: Region { o: Point::zero(), w: 800, h: 600 }, padding: 10 }
    }

    pub fn new() -> (v: Values)
        ensures
            v == Values::standard(),
    {
        Values::default()
    }
}

impl Default for Values {
    fn default() -> (v: Values)
        ensures
            v == Values::standard(),
    {
        Values { canvas_region: Region::from((0, 0, 800, 600)), padding: 10 }
    }
}

} // verus!

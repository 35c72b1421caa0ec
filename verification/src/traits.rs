//! Drawables, widgets, and the mounted widget that lays them out.
//!
//! A mounted widget holds rows of children and, optionally, a drawable of its
//! own. Laying it out moves a cursor through the rows: each child goes where
//! the cursor stands, the cursor then steps on by the padding, and a child
//! that would leave the canvas starts a new line. Clicks are dispatched by
//! walking the same rows and asking each child in turn.

use vstd::prelude::*;
use crate::arith::{clamp, sat_add, sat_mul, sat_neg, sat_sub};
use crate::digits::{decimal, to_decimal};
use crate::error::WindowError;
use crate::types::{Point, Region};
use crate::widgets::{Button, ButtonView, Text, TextView};
use crate::window::{DrawOp, Surface, Window};

verus! {

/// What a drawing leaves: the steps drawn, in order, and the bottom right
/// corner of what was painted, or the error that ended the drawing.
pub struct Drawn {
    pub ops: Seq<DrawOp>,
    pub result: Result<Point, WindowError>,
}

/// Trait representing things that can be drawn to the canvas.
pub trait Drawable {
    /// The bounding box of this drawable when drawn from `top_left`.
    spec fn region(&self, top_left: Point, s: Surface) -> Result<Region, WindowError>;

    /// What drawing this from `top_left` draws and returns.
    spec fn drawing(&self, top_left: Point, s: Surface) -> Drawn;

    /// Draw this game element with the given top left corner. Returns the
    /// bottom right corner of what was painted.
    fn draw_at(&self, top_left: Point, w: &mut Window) -> (r: Result<Point, WindowError>)
        ensures
            final(w).surface() == old(w).surface(),
            final(w).drawn() == old(w).drawn() + self.drawing(top_left, old(w).surface()).ops,
            r == self.drawing(top_left, old(w).surface()).result,
    ;

    /// Get the Region of the bounding box of this drawable.
    fn get_region(&self, top_left: Point, w: &Window) -> (r: Result<Region, WindowError>)
        ensures
            r == self.region(top_left, w.surface()),
    ;
}

/// Trait representing sets of 0 or more Drawables. Each one can have a
/// variable number of rows and elements in each row.
pub trait Widget: Sized {
    /// What a click on this widget can report.
    type MSG;

    /// The tree that this widget mounts at `top_left`.
    spec fn tree(&self, top_left: Point) -> TreeView<Self::MSG>;

    /// Whether a click at `click` on this widget, mounted at `top_left`, may
    /// leave the widget as `next` and return `r`.
    spec fn answers(
        &self,
        next: &Self,
        top_left: Point,
        click: Point,
        s: Surface,
        r: Result<Option<Self::MSG>, WindowError>,
    ) -> bool;

    /// Handle a click in this region.
    fn handle_click(&mut self, top_left: Point, click: Point, w: &Window) -> (r: Result<
        Option<Self::MSG>,
        WindowError,
    >)
        ensures
            old(self).answers(final(self), top_left, click, w.surface(), r),
    ;

    /// Make this object into a MountedWidget.
    fn mount_widget(&self, top_left: Point) -> (m: MountedWidget<Self::MSG>)
        ensures
            m@ == self.tree(top_left),
    ;
}

/// Whether `r` is what a click returns that reached `hit`: the error, nothing,
/// or a message that the callback yields.
pub open spec fn fired<T>(
    hit: Result<Option<spec_fn(T) -> bool>, WindowError>,
    r: Result<Option<T>, WindowError>,
) -> bool {
    match hit {
        Err(e) => r == Err::<Option<T>, WindowError>(e),
        Ok(None) => r == Ok::<Option<T>, WindowError>(None),
        Ok(Some(callback)) => r matches Ok(Some(m)) && callback(m),
    }
}

/// The cursor `p` brought back to the height `y`. Distances that leave the
/// range of a coordinate are cut short.
pub open spec fn back_up(p: Point, y: i64) -> Point {
    p.down(clamp(-clamp(p.y - y)))
}

/// The cursor `p` brought back to the left margin, `padding` from the edge.
/// Distances that leave the range of a coordinate are cut short.
pub open spec fn carriage_return(p: Point, padding: i64) -> Point {
    p.right(clamp(-clamp(p.x - padding)))
}

/// The farther out of two points; the first where neither is.
pub open spec fn farther(best: Point, p: Point) -> Point {
    if p.beyond(best) {
        p
    } else {
        best
    }
}

/// What a [`Leaf`] stands for.
#[verifier::reject_recursive_types(T)]
pub enum LeafView<T> {
    Text(TextView),
    Button(ButtonView<T>),
}

impl<T> LeafView<T> {
    /// The bounding box when drawn from `top_left`.
    pub open spec fn region(self, top_left: Point, s: Surface) -> Result<Region, WindowError> {
        match self {
            LeafView::Text(t) => t.region(top_left, s),
            LeafView::Button(b) => b.region(top_left, s),
        }
    }

    /// What drawing from `top_left` draws and returns.
    pub open spec fn drawing(self, top_left: Point, s: Surface) -> Drawn {
        match self {
            LeafView::Text(t) => t.drawing(top_left, s),
            LeafView::Button(b) => b.drawing(top_left, s),
        }
    }
}

/// What a [`Child`] stands for.
#[verifier::reject_recursive_types(T)]
pub enum ChildView<T> {
    Text(TextView),
    Button(ButtonView<T>),
    Mounted(TreeView<T>),
}

/// What a [`MountedWidget`] stands for: its rows of children, its own
/// drawable, and where it is mounted.
#[verifier::reject_recursive_types(T)]
pub struct TreeView<T> {
    pub rows: Seq<Seq<ChildView<T>>>,
    pub drawable: Option<LeafView<T>>,
    pub top_left: Point,
}

/// The state of a drawing in progress.
#[derive(Debug, Clone, Copy, PartialEq, Eq, Structural)]
pub struct Pen {
    /// Where the next child goes.
    pub cursor: Point,
    /// The farthest bottom right corner of a child so far.
    pub bottom_right: Point,
    /// The greatest height that a child reached below the top of its row.
    pub vertical_offset: i64,
    /// Where the current row began.
    pub row_top_left: Point,
}

impl Pen {
    /// The pen at the start of a drawing from `top_left`.
    pub open spec fn start(top_left: Point) -> Pen {
        Pen {
            cursor: top_left,
            bottom_right: top_left,
            vertical_offset: 0,
            row_top_left: top_left,
        }
    }

    /// The pen after a child that was placed at `top_left`, reaches to
    /// `bottom_right` and whose drawing returned `end`: the cursor goes back
    /// up to the child's top and one padding to the right of `end`.
    pub open spec fn after_child(
        self,
        end: Point,
        top_left: Point,
        bottom_right: Point,
        padding: i64,
    ) -> Pen {
        let offset = clamp(end.y - self.row_top_left.y);
        Pen {
            cursor: back_up(end, top_left.y).right(padding),
            bottom_right: farther(self.bottom_right, bottom_right),
            vertical_offset: if offset > self.vertical_offset {
                offset
            } else {
                self.vertical_offset
            },
            row_top_left: self.row_top_left,
        }
    }

    /// The pen at the start of the next row: down by twice the padding and
    /// the greatest height so far, and back at the left margin.
    pub open spec fn next_row(self, padding: i64) -> Pen {
        let cursor = carriage_return(
            self.cursor.down(clamp(clamp(padding * 2) + self.vertical_offset)),
            padding,
        );
        Pen { cursor, row_top_left: cursor, ..self }
    }
}

/// The farthest bottom right corner of the children from `(i, j)` on, laid
/// out from `cursor`, and of `bottom_right`; or the first error. Each child
/// is measured as mounted at the cursor, and the cursor then moves one
/// padding to the right.
pub open spec fn region_flow<T>(
    rows: Seq<Seq<ChildView<T>>>,
    i: int,
    j: int,
    cursor: Point,
    bottom_right: Point,
    s: Surface,
) -> Result<Point, WindowError>
    decreases rows, rows.len() - i, (if 0 <= i < rows.len() {
        rows[i].len() - j
    } else {
        0
    }),
{
    if i < 0 || j < 0 || i >= rows.len() {
        Ok(bottom_right)
    } else if j >= rows[i].len() {
        region_flow(rows, i + 1, 0, cursor, bottom_right, s)
    } else {
        match rows[i][j].region(cursor, s) {
            Err(e) => Err(e),
            Ok(region) => region_flow(
                rows,
                i,
                j + 1,
                cursor.right(s.values.padding),
                farther(bottom_right, region.far_corner()),
                s,
            ),
        }
    }
}

/// Where a child is drawn that the cursor reaches at `cursor`, and its bottom
/// right corner there: at the cursor, if its bottom right corner is on the
/// canvas; else at the left margin, one padding below the child's height
/// from the cursor.
pub open spec fn placed<T>(child: ChildView<T>, cursor: Point, s: Surface) -> Result<
    (Point, Point),
    WindowError,
> {
    match child.region(cursor, s) {
        Err(e) => Err(e),
        Ok(first) => if s.values.canvas_region.holds(first.far_corner()) {
            Ok((cursor, first.far_corner()))
        } else {
            let moved = Point {
                x: s.values.padding,
                y: clamp(
                    clamp(clamp(first.far_corner().y - cursor.y) + s.values.padding) + cursor.y,
                ),
            };
            match child.region(moved, s) {
                Err(e) => Err(e),
                Ok(second) => Ok((moved, second.far_corner())),
            }
        },
    }
}

/// What drawing one child leaves: the steps drawn, and the pen after it, or the
/// error that ended the drawing.
pub struct Stepped {
    pub ops: Seq<DrawOp>,
    pub result: Result<Pen, WindowError>,
}

/// The drawing of one child with the pen as it stands: the child is placed,
/// then drawn where it was placed, and the pen moves on. A child that cannot
/// be placed draws nothing.
pub open spec fn draw_child<T>(child: ChildView<T>, pen: Pen, s: Surface) -> Stepped
    decreases child, 1int, 0int,
{
    match placed(child, pen.cursor, s) {
        Err(e) => Stepped { ops: Seq::empty(), result: Err(e) },
        Ok((top_left, bottom_right)) => {
            let drawn = child.drawing(top_left, s);
            Stepped {
                ops: drawn.ops,
                result: match drawn.result {
                    Err(e) => Err(e),
                    Ok(end) => Ok(
                        pen.after_child(end, top_left, bottom_right, s.values.padding),
                    ),
                },
            }
        },
    }
}

/// The drawing of the children from `(i, j)` on with the pen as it stands,
/// after the steps `ops`: all steps drawn, and the farthest bottom right
/// corner, or the first error.
pub open spec fn draw_flow<T>(
    rows: Seq<Seq<ChildView<T>>>,
    i: int,
    j: int,
    pen: Pen,
    ops: Seq<DrawOp>,
    s: Surface,
) -> Drawn
    decreases rows, rows.len() - i, (if 0 <= i < rows.len() {
        rows[i].len() - j
    } else {
        0
    }),
{
    if i < 0 || j < 0 || i >= rows.len() {
        Drawn { ops, result: Ok(pen.bottom_right) }
    } else if j >= rows[i].len() {
        draw_flow(rows, i + 1, 0, pen.next_row(s.values.padding), ops, s)
    } else {
        let step = draw_child(rows[i][j], pen, s);
        match step.result {
            Err(e) => Drawn { ops: ops + step.ops, result: Err(e) },
            Ok(next) => draw_flow(rows, i, j + 1, next, ops + step.ops, s),
        }
    }
}

/// The callback that a click at `click` reaches among the children from
/// `(i, j)` on, laid out from `cursor`: that of the first child that is hit;
/// or the first error. After a child that is not hit, the cursor moves to one
/// padding right of the child's right edge; after a row, back to the left
/// margin.
pub open spec fn hit_flow<T>(
    rows: Seq<Seq<ChildView<T>>>,
    i: int,
    j: int,
    cursor: Point,
    click: Point,
    s: Surface,
) -> Result<Option<spec_fn(T) -> bool>, WindowError>
    decreases rows, rows.len() - i, (if 0 <= i < rows.len() {
        rows[i].len() - j
    } else {
        0
    }),
{
    if i < 0 || j < 0 || i >= rows.len() {
        Ok(None)
    } else if j >= rows[i].len() {
        hit_flow(rows, i + 1, 0, carriage_return(cursor, s.values.padding), click, s)
    } else {
        match rows[i][j].hit(cursor, click, s) {
            Err(e) => Err(e),
            Ok(Some(callback)) => Ok(Some(callback)),
            Ok(None) => match rows[i][j].region(cursor, s) {
                Err(e) => Err(e),
                Ok(region) => hit_flow(
                    rows,
                    i,
                    j + 1,
                    back_up(region.far_corner(), cursor.y).right(s.values.padding),
                    click,
                    s,
                ),
            },
        }
    }
}

/// The texts of the children from `(i, j)` on, in order.
pub open spec fn texts_flow<T>(rows: Seq<Seq<ChildView<T>>>, i: int, j: int) -> Seq<Seq<char>>
    decreases rows, rows.len() - i, (if 0 <= i < rows.len() {
        rows[i].len() - j
    } else {
        0
    }),
{
    if i < 0 || j < 0 || i >= rows.len() {
        Seq::empty()
    } else if j >= rows[i].len() {
        texts_flow(rows, i + 1, 0)
    } else {
        rows[i][j].texts() + texts_flow(rows, i, j + 1)
    }
}

/// What each of the strings holds.
pub open spec fn views_of(strings: Seq<String>) -> Seq<Seq<char>> {
    Seq::new(strings.len(), |i: int| strings[i]@)
}

impl<T> LeafView<T> {
    /// The text that this leaf shows.
    pub open spec fn text(self) -> Seq<char> {
        match self {
            LeafView::Text(t) => t.text,
            LeafView::Button(b) => b.text,
        }
    }
}

impl<T> ChildView<T> {
    /// The texts that this child shows, in order.
    pub open spec fn texts(self) -> Seq<Seq<char>>
        decreases self, 0int, 0int,
    {
        match self {
            ChildView::Text(t) => seq![t.text],
            ChildView::Button(b) => seq![b.text],
            ChildView::Mounted(m) => m.texts(),
        }
    }

    /// The tree that this child mounts at `top_left`: a leaf becomes the
    /// drawable of a widget with one empty row, a mounted widget moves.
    pub open spec fn mounted(self, top_left: Point) -> TreeView<T> {
        match self {
            ChildView::Text(t) => TreeView {
                rows: seq![Seq::empty()],
                drawable: Some(LeafView::Text(t)),
                top_left,
            },
            ChildView::Button(b) => TreeView {
                rows: seq![Seq::empty()],
                drawable: Some(LeafView::Button(b)),
                top_left,
            },
            ChildView::Mounted(m) => TreeView { top_left, ..m },
        }
    }

    /// The region of this child mounted at `top_left`.
    pub open spec fn region(self, top_left: Point, s: Surface) -> Result<Region, WindowError>
        decreases self, 0int, 0int,
    {
        match self {
            ChildView::Text(t) => t.region(top_left, s),
            ChildView::Button(b) => b.region(top_left, s),
            ChildView::Mounted(m) => m.region_at(top_left, s),
        }
    }

    /// The drawing of this child mounted at `top_left`.
    pub open spec fn drawing(self, top_left: Point, s: Surface) -> Drawn
        decreases self, 0int, 0int,
    {
        match self {
            ChildView::Text(t) => t.drawing(top_left, s),
            ChildView::Button(b) => b.drawing(top_left, s),
            ChildView::Mounted(m) => m.drawing_at(top_left, s),
        }
    }

    /// The callback that a click reaches in this child at `top_left`. Text
    /// has none, a button answers for its outline, and a mounted widget asks
    /// its children.
    pub open spec fn hit(self, top_left: Point, click: Point, s: Surface) -> Result<
        Option<spec_fn(T) -> bool>,
        WindowError,
    >
        decreases self, 0int, 0int,
    {
        match self {
            ChildView::Text(t) => Ok(None),
            ChildView::Button(b) => b.hit(top_left, click, s),
            ChildView::Mounted(m) => m.hit_at(top_left, click, s),
        }
    }
}

impl<T> TreeView<T> {
    /// The texts that this tree shows: those of its children in order, then
    /// that of its own drawable. These are the texts whose widths layout
    /// may ask the window for.
    pub open spec fn texts(self) -> Seq<Seq<char>>
        decreases self, 0int, 0int,
    {
        texts_flow(self.rows, 0, 0) + match self.drawable {
            Some(d) => seq![d.text()],
            None => Seq::empty(),
        }
    }

    /// The region of this tree laid out from `top_left`: that of its
    /// drawable, if it has one; else from `top_left` to the farthest bottom
    /// right corner of its children.
    pub open spec fn region_at(self, top_left: Point, s: Surface) -> Result<Region, WindowError>
        decreases self, 0int, 0int,
    {
        match self.drawable {
            Some(d) => d.region(top_left, s),
            None => match region_flow(self.rows, 0, 0, top_left, top_left, s) {
                Ok(bottom_right) => Ok(Region::spanning(top_left, bottom_right)),
                Err(e) => Err(e),
            },
        }
    }

    /// The drawing of this tree from `top_left`: its children row by row,
    /// then its own drawable at `top_left`. It returns the drawable's bottom
    /// right corner, if there is a drawable, else the farthest of the
    /// children's.
    pub open spec fn drawing_at(self, top_left: Point, s: Surface) -> Drawn
        decreases self, 0int, 0int,
    {
        let children = draw_flow(self.rows, 0, 0, Pen::start(top_left), Seq::empty(), s);
        match (children.result, self.drawable) {
            (Ok(_), Some(d)) => {
                let own = d.drawing(top_left, s);
                Drawn { ops: children.ops + own.ops, result: own.result }
            },
            _ => children,
        }
    }

    /// The callback that a click reaches in this tree laid out from
    /// `top_left`. The tree's own drawable takes no clicks.
    pub open spec fn hit_at(self, top_left: Point, click: Point, s: Surface) -> Result<
        Option<spec_fn(T) -> bool>,
        WindowError,
    >
        decreases self, 0int, 0int,
    {
        hit_flow(self.rows, 0, 0, top_left, click, s)
    }

    /// What a widget says of itself: how many rows it has, and whether it has
    /// a drawable.
    pub open spec fn text(self) -> Seq<char> {
        "Mounted Widget: "@ + decimal(self.rows.len()) + " rows of children,"@ + (if self.drawable is Some {
            ""@
        } else {
            " not"@
        }) + " drawable"@
    }

    /// The entire region encompassing this tree where it is mounted.
    pub open spec fn region(self, s: Surface) -> Result<Region, WindowError> {
        self.region_at(self.top_left, s)
    }

    /// The drawing of this tree where it is mounted.
    pub open spec fn drawing(self, s: Surface) -> Drawn {
        self.drawing_at(self.top_left, s)
    }

    /// The callback that a click reaches in this tree where it is mounted.
    pub open spec fn hit(self, click: Point, s: Surface) -> Result<
        Option<spec_fn(T) -> bool>,
        WindowError,
    > {
        self.hit_at(self.top_left, click, s)
    }
}

/// A drawable that a mounted widget can hold as its own.
#[verifier::reject_recursive_types(T)]
pub enum Leaf<T> {
    Text(Text<T>),
    Button(Button<T>),
}

impl<T> View for Leaf<T> {
    type V = LeafView<T>;

    open spec fn view(&self) -> LeafView<T> {
        match self {
            Leaf::Text(t) => LeafView::Text(t@),
            Leaf::Button(b) => LeafView::Button(b@),
        }
    }
}

impl<T> Leaf<T> {
    /// The text that this leaf shows.
    pub fn text(&self) -> (s: String)
        ensures
            s@ == self@.text(),
    {
        match self {
            Leaf::Text(t) => t.text(),
            Leaf::Button(b) => b.text(),
        }
    }
}

impl<T> Drawable for Leaf<T> {
    open spec fn region(&self, top_left: Point, s: Surface) -> Result<Region, WindowError> {
        self@.region(top_left, s)
    }

    open spec fn drawing(&self, top_left: Point, s: Surface) -> Drawn {
        self@.drawing(top_left, s)
    }

    fn draw_at(&self, top_left: Point, w: &mut Window) -> (r: Result<Point, WindowError>) {
        match self {
            Leaf::Text(t) => t.draw_at(top_left, w),
            Leaf::Button(b) => b.draw_at(top_left, w),
        }
    }

    fn get_region(&self, top_left: Point, w: &Window) -> (r: Result<Region, WindowError>) {
        match self {
            Leaf::Text(t) => t.get_region(top_left, w),
            Leaf::Button(b) => b.get_region(top_left, w),
        }
    }
}

/// A widget in a row of a mounted widget.
#[verifier::reject_recursive_types(T)]
pub enum Child<T> {
    Text(Text<T>),
    Button(Button<T>),
    Mounted(MountedWidget<T>),
}

/// A container struct for a widget. It always has a row to push to.
#[verifier::reject_recursive_types(T)]
pub struct MountedWidget<T> {
    children: Vec<Vec<Child<T>>>,
    drawable: Option<Leaf<T>>,
    top_left: Point,
}

impl<T> Child<T> {
    /// What this child stands for.
    pub closed spec fn shape(self) -> ChildView<T>
        decreases self,
    {
        match self {
            Child::Text(t) => ChildView::Text(t@),
            Child::Button(b) => ChildView::Button(b@),
            Child::Mounted(m) => ChildView::Mounted(m.shape()),
        }
    }
}

impl<T> View for Child<T> {
    type V = ChildView<T>;

    closed spec fn view(&self) -> ChildView<T> {
        self.shape()
    }
}

impl<T> View for MountedWidget<T> {
    type V = TreeView<T>;

    closed spec fn view(&self) -> TreeView<T> {
        self.shape()
    }
}

impl<T> MountedWidget<T> {
    #[verifier::type_invariant]
    spec fn has_row(self) -> bool {
        self.children@.len() > 0
    }

    /// What this widget stands for.
    pub closed spec fn shape(self) -> TreeView<T>
        decreases self,
    {
        TreeView {
            rows: Seq::new(
                self.children@.len(),
                |i: int|
                    Seq::new(
                        self.children@[i]@.len(),
                        |j: int|
                            if 0 <= i < self.children@.len() && 0 <= j < self.children@[i]@.len() {
                                self.children@[i]@[j].shape()
                            } else {
                                arbitrary()
                            },
                    ),
            ),
            drawable: match self.drawable {
                Some(d) => Some(d@),
                None => None,
            },
            top_left: self.top_left,
        }
    }

    proof fn shape_of_fields(self)
        ensures
            self@.rows.len() == self.children@.len(),
            forall|i: int|
                0 <= i < self.children@.len() ==> (#[trigger] self@.rows[i]).len()
                    == self.children@[i]@.len(),
            forall|i: int, j: int|
                0 <= i < self.children@.len() && 0 <= j < self.children@[i]@.len() ==> (
                #[trigger] self@.rows[i][j]) == self.children@[i]@[j]@,
            self@.top_left == self.top_left,
            self@.drawable == match self.drawable {
                Some(d) => Some(d@),
                None => None,
            },
    {
    }
}

impl<T> Child<T> {
    /// The views of the three kinds of child.
    pub proof fn view_of(self)
        ensures
            self matches Child::Text(t) ==> self@ == ChildView::<T>::Text(t@),
            self matches Child::Button(b) ==> self@ == ChildView::Button(b@),
            self matches Child::Mounted(m) ==> self@ == ChildView::Mounted(m@),
    {
    }

    /// Appends the texts that this child shows to `out`.
    pub fn collect_texts(&self, out: &mut Vec<String>)
        ensures
            views_of(final(out)@) == views_of(old(out)@) + self@.texts(),
        decreases self,
    {
        match self {
            Child::Text(t) => {
                out.push(t.text());
            },
            Child::Button(b) => {
                out.push(b.text());
            },
            Child::Mounted(m) => m.collect_texts(out),
        }
    }

    /// Get the region of this child mounted at `top_left`.
    pub fn get_region(&self, top_left: Point, w: &Window) -> (r: Result<Region, WindowError>)
        ensures
            r == self@.region(top_left, w.surface()),
        decreases self,
    {
        match self {
            Child::Text(t) => t.get_region(top_left, w),
            Child::Button(b) => b.get_region(top_left, w),
            Child::Mounted(m) => m.region_at(top_left, w),
        }
    }

    /// Draw this child mounted at `top_left`.
    pub fn draw(&self, top_left: Point, w: &mut Window) -> (r: Result<Point, WindowError>)
        ensures
            final(w).surface() == old(w).surface(),
            final(w).drawn() == old(w).drawn() + self@.drawing(top_left, old(w).surface()).ops,
            r == self@.drawing(top_left, old(w).surface()).result,
        decreases self, 0int,
    {
        match self {
            Child::Text(t) => t.draw_at(top_left, w),
            Child::Button(b) => b.draw_at(top_left, w),
            Child::Mounted(m) => m.draw_from(top_left, w),
        }
    }

    /// Handle a click on this child mounted at `top_left`.
    pub fn handle_click(&self, top_left: Point, click: Point, w: &Window) -> (r: Result<
        Option<T>,
        WindowError,
    >)
        ensures
            fired(self@.hit(top_left, click, w.surface()), r),
        decreases self,
    {
        match self {
            Child::Text(_) => Ok(None),
            Child::Button(b) => b.clicked(top_left, click, w),
            Child::Mounted(m) => m.click_from(top_left, click, w),
        }
    }
}

impl<T> MountedWidget<T> {
    pub fn new(p: Point) -> (m: Self)
        ensures
            m@ == (TreeView::<T> { rows: seq![Seq::empty()], drawable: None, top_left: p }),
    {
        let mut children: Vec<Vec<Child<T>>> = Vec::new();
        children.push(Vec::new());
        let m = MountedWidget { children, drawable: None, top_left: p };
        assert(m@.rows =~~= seq![Seq::<ChildView<T>>::empty()]);
        m
    }

    /// What this widget says of itself: how many rows it has, and whether it
    /// has a drawable.
    pub fn to_string(&self) -> (s: String)
        ensures
            s@ == self@.text(),
    {
        proof {
            self.shape_of_fields();
        }
        let mut s = String::from_str("Mounted Widget: ");
        s.append(to_decimal(self.children.len() as u64).as_str());
        s.append(" rows of children,");
        if self.drawable.is_none() {
            s.append(" not");
        }
        s.append(" drawable");
        proof {
            reveal_strlit("");
        }
        s
    }

    /// Add a new element to the current row.
    pub fn push_current_row(&mut self, d: Child<T>)
        ensures
            old(self)@.rows.len() > 0,
            final(self)@ == (TreeView {
                rows: old(self)@.rows.update(
                    old(self)@.rows.len() - 1,
                    old(self)@.rows.last().push(d@),
                ),
                ..old(self)@
            }),
    {
        proof {
            use_type_invariant(&*self);
            old(self).shape_of_fields();
        }
        let num_rows = self.children.len();
        let idx = if num_rows > 0 {
            num_rows - 1
        } else {
            0
        };
        self.children[idx].push(d);
        proof {
            self.shape_of_fields();
            assert(self@.rows =~~= old(self)@.rows.update(
                old(self)@.rows.len() - 1,
                old(self)@.rows.last().push(d@),
            ));
        }
    }

    /// Add a new element to a new row.
    pub fn push_new_row(&mut self, d: Child<T>)
        ensures
            final(self)@ == (TreeView { rows: old(self)@.rows.push(seq![d@]), ..old(self)@ }),
    {
        proof {
            use_type_invariant(&*self);
            old(self).shape_of_fields();
        }
        let mut row: Vec<Child<T>> = Vec::new();
        row.push(d);
        let mut children: Vec<Vec<Child<T>>> = Vec::new();
        children.push(Vec::new());
        std::mem::swap(&mut self.children, &mut children);
        children.push(row);
        self.children = children;
        proof {
            self.shape_of_fields();
            assert(self@.rows =~~= old(self)@.rows.push(seq![d@]));
        }
    }

    /// Set drawable for this widget - overrides any currently set.
    pub fn set_drawable(&mut self, d: Leaf<T>)
        ensures
            final(self)@ == (TreeView { drawable: Some(d@), ..old(self)@ }),
    {
        proof {
            use_type_invariant(&*self);
            old(self).shape_of_fields();
        }
        self.drawable = Some(d);
        proof {
            self.shape_of_fields();
        }
    }

    /// The texts that this widget shows, in order: the texts to measure
    /// before the widget is laid out.
    pub fn texts(&self) -> (v: Vec<String>)
        ensures
            views_of(v@) == self@.texts(),
    {
        let mut v: Vec<String> = Vec::new();
        self.collect_texts(&mut v);
        v
    }

    /// Appends the texts that this widget shows to `out`.
    pub fn collect_texts(&self, out: &mut Vec<String>)
        ensures
            views_of(final(out)@) == views_of(old(out)@) + self@.texts(),
        decreases self,
    {
        proof {
            self.shape_of_fields();
        }
        let ghost rows = self@.rows;
        let ghost start = views_of(out@);
        let ghost mut seen: Seq<Seq<char>> = Seq::empty();
        let mut i: usize = 0;
        while i < self.children.len()
            invariant
                i <= self.children@.len(),
                rows == self@.rows,
                start == views_of(old(out)@),
                views_of(out@) == start + seen,
                seen + texts_flow(rows, i as int, 0) == texts_flow(rows, 0, 0),
            decreases self.children@.len() - i,
        {
            proof {
                self.shape_of_fields();
            }
            let row = &self.children[i];
            let mut j: usize = 0;
            while j < row.len()
                invariant
                    i < self.children@.len(),
                    row == &self.children@[i as int],
                    j <= row@.len(),
                    rows == self@.rows,
                    start == views_of(old(out)@),
                    views_of(out@) == start + seen,
                    seen + texts_flow(rows, i as int, j as int) == texts_flow(rows, 0, 0),
                decreases row@.len() - j,
            {
                proof {
                    self.shape_of_fields();
                }
                let ghost own = row@[j as int]@.texts();
                row[j].collect_texts(out);
                proof {
                    seen = seen + own;
                }
                j += 1;
            }
            i += 1;
        }
        if let Some(d) = &self.drawable {
            let ghost before = views_of(out@);
            out.push(d.text());
            assert(views_of(out@) =~= before + seq![d@.text()]);
        } else {
        }
    }

    /// Get the entire region encompassing this MountedWidget.
    pub fn get_region(&self, w: &Window) -> (r: Result<Region, WindowError>)
        ensures
            r == self@.region(w.surface()),
    {
        proof {
            self.shape_of_fields();
        }
        self.region_at(self.top_left, w)
    }

    /// The region of this widget laid out from `top_left`.
    #[verifier::loop_isolation(false)]
    pub fn region_at(&self, top_left: Point, w: &Window) -> (r: Result<Region, WindowError>)
        ensures
            r == self@.region_at(top_left, w.surface()),
        decreases self,
    {
        proof {
            self.shape_of_fields();
        }
        if let Some(d) = &self.drawable {
            d.get_region(top_left, w)
        } else {
            let ghost s = w.surface();
            let ghost rows = self@.rows;
            let padding = w.get_values().padding;
            let mut cursor = top_left;
            let mut bottom_right = top_left;
            let mut i: usize = 0;
            while i < self.children.len()
                invariant
                    i <= self.children@.len(),
                    s == w.surface(),
                    rows == self@.rows,
                    padding == s.values.padding,
                    region_flow(rows, i as int, 0, cursor, bottom_right, s) == region_flow(
                        rows,
                        0,
                        0,
                        top_left,
                        top_left,
                        s,
                    ),
                decreases self.children@.len() - i,
            {
                proof {
                    self.shape_of_fields();
                }
                let row = &self.children[i];
                let mut j: usize = 0;
                while j < row.len()
                    invariant
                        i < self.children@.len(),
                        row == &self.children@[i as int],
                        j <= row@.len(),
                        s == w.surface(),
                        rows == self@.rows,
                        padding == s.values.padding,
                        region_flow(rows, i as int, j as int, cursor, bottom_right, s)
                            == region_flow(rows, 0, 0, top_left, top_left, s),
                    decreases row@.len() - j,
                {
                    proof {
                        self.shape_of_fields();
                    }
                    let child_top_left = cursor;
                    let region = row[j].get_region(child_top_left, w)?;
                    if region.bottom_right() > bottom_right {
                        bottom_right = region.bottom_right();
                    }
                    cursor.vert_offset(sat_neg(sat_sub(cursor.y, child_top_left.y)))?;
                    cursor.horiz_offset(padding)?;
                    j += 1;
                }
                i += 1;
            }
            Ok(Region::from((top_left, bottom_right)))
        }
    }

    /// Draw this element. Returns the bottom right corner of what was
    /// painted.
    pub fn draw(&self, w: &mut Window) -> (r: Result<Point, WindowError>)
        ensures
            final(w).surface() == old(w).surface(),
            final(w).drawn() == old(w).drawn() + self@.drawing(old(w).surface()).ops,
            r == self@.drawing(old(w).surface()).result,
    {
        proof {
            self.shape_of_fields();
        }
        self.draw_from(self.top_left, w)
    }

    /// Where a child goes that the cursor reaches at `cursor`, and its bottom
    /// right corner there.
    fn place(child: &Child<T>, cursor: Point, w: &Window) -> (r: Result<(Point, Point), WindowError>)
        ensures
            r == placed(child@, cursor, w.surface()),
    {
        let values = w.get_values();
        let mut child_top_left = cursor;
        let mut child_bottom_right = child.get_region(child_top_left, w)?.bottom_right();
        if !values.canvas_region.contains(child_bottom_right) {
            child_top_left =
            Point::from(
                (
                    values.padding,
                    sat_add(
                        sat_add(sat_sub(child_bottom_right.y, child_top_left.y), values.padding),
                        cursor.y,
                    ),
                ),
            );
            child_bottom_right = child.get_region(child_top_left, w)?.bottom_right();
        }
        Ok((child_top_left, child_bottom_right))
    }

    /// Draws one child with the pen as it stands, and moves the pen on.
    fn draw_child(child: &Child<T>, pen: Pen, w: &mut Window) -> (r: Result<Pen, WindowError>)
        ensures
            final(w).surface() == old(w).surface(),
            final(w).drawn() == old(w).drawn() + draw_child(child@, pen, old(w).surface()).ops,
            r == draw_child(child@, pen, old(w).surface()).result,
        decreases child, 1int,
    {
        let values = w.get_values();
        let (child_top_left, child_bottom_right) = match Self::place(child, pen.cursor, w) {
            Ok(spot) => spot,
            Err(e) => {
                return Err(e);
            },
        };
        let mut cursor = pen.cursor;
        let mut bottom_right = pen.bottom_right;
        let mut vertical_offset = pen.vertical_offset;
        cursor.set_to(child.draw(child_top_left, w)?)?;
        let offset = sat_sub(cursor.y, pen.row_top_left.y);
        if offset > vertical_offset {
            vertical_offset = offset;
        }
        if child_bottom_right > bottom_right {
            bottom_right = child_bottom_right;
        }
        cursor.vert_offset(sat_neg(sat_sub(cursor.y, child_top_left.y)))?;
        cursor.horiz_offset(values.padding)?;
        Ok(Pen { cursor, bottom_right, vertical_offset, row_top_left: pen.row_top_left })
    }

    /// Moves the pen to the start of the next row.
    fn next_row(pen: Pen, padding: i64) -> (r: Result<Pen, WindowError>)
        ensures
            r == Ok::<Pen, WindowError>(pen.next_row(padding)),
    {
        let mut cursor = pen.cursor;
        cursor.vert_offset(sat_add(sat_mul(padding, 2), pen.vertical_offset))?;
        cursor.horiz_offset(sat_neg(sat_sub(cursor.x, padding)))?;
        Ok(Pen { cursor, row_top_left: cursor, ..pen })
    }

    /// Draws the rows of children from `top_left`.
    fn draw_children(&self, top_left: Point, w: &mut Window) -> (r: Result<Point, WindowError>)
        ensures
            final(w).surface() == old(w).surface(),
            final(w).drawn() == old(w).drawn() + draw_flow(
                self@.rows,
                0,
                0,
                Pen::start(top_left),
                Seq::empty(),
                old(w).surface(),
            ).ops,
            r == draw_flow(
                self@.rows,
                0,
                0,
                Pen::start(top_left),
                Seq::empty(),
                old(w).surface(),
            ).result,
        decreases self, 1int,
    {
        proof {
            self.shape_of_fields();
        }
        let ghost s = w.surface();
        let ghost rows = self@.rows;
        let ghost before = w.drawn();
        let ghost total = draw_flow(rows, 0, 0, Pen::start(top_left), Seq::empty(), s);
        let ghost mut ops: Seq<DrawOp> = Seq::empty();
        let padding = w.get_values().padding;
        let mut pen = Pen {
            cursor: top_left,
            bottom_right: top_left,
            vertical_offset: 0,
            row_top_left: top_left,
        };
        let mut i: usize = 0;
        while i < self.children.len()
            invariant
                i <= self.children@.len(),
                s == w.surface(),
                s == old(w).surface(),
                before == old(w).drawn(),
                rows == self@.rows,
                padding == s.values.padding,
                w.drawn() == before + ops,
                total == draw_flow(rows, 0, 0, Pen::start(top_left), Seq::empty(), s),
                draw_flow(rows, i as int, 0, pen, ops, s) == total,
            decreases self.children@.len() - i,
        {
            proof {
                self.shape_of_fields();
            }
            let row = &self.children[i];
            let mut j: usize = 0;
            while j < row.len()
                invariant
                    i < self.children@.len(),
                    row == &self.children@[i as int],
                    j <= row@.len(),
                    s == w.surface(),
                    s == old(w).surface(),
                    before == old(w).drawn(),
                    rows == self@.rows,
                    padding == s.values.padding,
                    w.drawn() == before + ops,
                    total == draw_flow(rows, 0, 0, Pen::start(top_left), Seq::empty(), s),
                    draw_flow(rows, i as int, j as int, pen, ops, s) == total,
                decreases row@.len() - j,
            {
                proof {
                    self.shape_of_fields();
                }
                let ghost step = draw_child(row@[j as int]@, pen, s);
                let stepped = Self::draw_child(&row[j], pen, w);
                proof {
                    ops = ops + step.ops;
                }
                pen = stepped?;
                j += 1;
            }
            pen = Self::next_row(pen, padding)?;
            i += 1;
        }
        Ok(pen.bottom_right)
    }

    /// Draw this element laid out from `top_left`.
    pub fn draw_from(&self, top_left: Point, w: &mut Window) -> (r: Result<Point, WindowError>)
        ensures
            final(w).surface() == old(w).surface(),
            final(w).drawn() == old(w).drawn() + self@.drawing_at(top_left, old(w).surface()).ops,
            r == self@.drawing_at(top_left, old(w).surface()).result,
        decreases self, 2int,
    {
        proof {
            self.shape_of_fields();
        }
        let mut bottom_right = self.draw_children(top_left, w)?;
        if let Some(d) = &self.drawable {
            let painted = d.draw_at(top_left, w);
            let mut cursor = bottom_right;
            cursor.set_to(painted?)?;
            bottom_right = cursor;
        }
        Ok(bottom_right)
    }

    /// Handle a click.
    pub fn click(&self, click: Point, w: &Window) -> (r: Result<Option<T>, WindowError>)
        ensures
            fired(self@.hit(click, w.surface()), r),
    {
        proof {
            self.shape_of_fields();
        }
        self.click_from(self.top_left, click, w)
    }

    /// Handle a click on this element laid out from `top_left`.
    #[verifier::loop_isolation(false)]
    pub fn click_from(&self, top_left: Point, click: Point, w: &Window) -> (r: Result<
        Option<T>,
        WindowError,
    >)
        ensures
            fired(self@.hit_at(top_left, click, w.surface()), r),
        decreases self,
    {
        proof {
            self.shape_of_fields();
        }
        let ghost s = w.surface();
        let ghost rows = self@.rows;
        let ghost total = hit_flow(rows, 0, 0, top_left, click, s);
        let mut cursor = top_left;
        let values = w.get_values();
        let mut i: usize = 0;
        while i < self.children.len()
            invariant
                i <= self.children@.len(),
                s == w.surface(),
                rows == self@.rows,
                values == s.values,
                hit_flow(rows, i as int, 0, cursor, click, s) == total,
            decreases self.children@.len() - i,
        {
            proof {
                self.shape_of_fields();
            }
            let row = &self.children[i];
            let mut j: usize = 0;
            while j < row.len()
                invariant
                    i < self.children@.len(),
                    row == &self.children@[i as int],
                    j <= row@.len(),
                    s == w.surface(),
                    rows == self@.rows,
                    values == s.values,
                    hit_flow(rows, i as int, j as int, cursor, click, s) == total,
                decreases row@.len() - j,
            {
                proof {
                    self.shape_of_fields();
                }
                let child_top_left = cursor;
                if let Some(m) = row[j].handle_click(child_top_left, click, w)? {
                    return Ok(Some(m));
                }
                cursor.set_to(row[j].get_region(child_top_left, w)?.bottom_right())?;
                cursor.vert_offset(sat_neg(sat_sub(cursor.y, child_top_left.y)))?;
                cursor.horiz_offset(values.padding)?;
                j += 1;
            }
            cursor.horiz_offset(sat_neg(sat_sub(cursor.x, values.padding)))?;
            i += 1;
        }
        Ok(None)
    }
}

impl<T> Default for MountedWidget<T> {
    fn default() -> (m: Self)
        ensures
            m@ == (TreeView::<T> {
                rows: seq![Seq::empty()],
                drawable: None,
                top_left: Point::zero(),
            }),
    {
        MountedWidget::new(Point::default())
    }
}

} // verus!

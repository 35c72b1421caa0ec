//! The window that widgets are laid out against and drawn into.
//!
//! A [`Window`] knows the layout values and the widths of the texts that were
//! measured for it, and it keeps what is drawn into it as a list of commands,
//! in order, for a canvas to carry out.

use vstd::prelude::*;
use crate::error::WindowError;
use crate::traits::Widget;
use crate::types::{Color, Point, Region, Values};

verus! {

/// One step of drawing.
#[derive(Debug, Clone, PartialEq, Eq)]
pub enum DrawCommand {
    /// Blank the window.
    Blank,
    /// Begin a path.
    BeginPath,
    /// Draw the current path.
    DrawPath,
    /// Set the pen color.
    SetColor(Color),
    /// Set the font.
    SetFont(String),
    /// Add a rectangle to the path.
    Rect(Region),
    /// Fill in some text from the given origin.
    FillText(String, Point),
}

/// What a [`DrawCommand`] stands for: the same step, with its texts as
/// sequences of characters.
pub enum DrawOp {
    Blank,
    BeginPath,
    DrawPath,
    SetColor(Color),
    SetFont(Seq<char>),
    Rect(Region),
    FillText(Seq<char>, Point),
}

impl View for DrawCommand {
    type V = DrawOp;

    open spec fn view(&self) -> DrawOp {
        match self {
            DrawCommand::Blank => DrawOp::Blank,
            DrawCommand::BeginPath => DrawOp::BeginPath,
            DrawCommand::DrawPath => DrawOp::DrawPath,
            DrawCommand::SetColor(c) => DrawOp::SetColor(*c),
            DrawCommand::SetFont(f) => DrawOp::SetFont(f@),
            DrawCommand::Rect(r) => DrawOp::Rect(*r),
            DrawCommand::FillText(t, o) => DrawOp::FillText(t@, *o),
        }
    }
}

/// What layout reads of a window: its values and the widths of the texts that
/// were measured.
pub struct Surface {
    pub values: Values,
    pub widths: Map<Seq<char>, i64>,
}

impl Surface {
    /// The width of `text`; an error for a text that was not measured.
    pub open spec fn text_width(self, text: Seq<char>) -> Result<i64, WindowError> {
        if self.widths.dom().contains(text) {
            Ok(self.widths[text])
        } else {
            Err(WindowError::Text)
        }
    }
}

/// The width that was measured for a text.
#[derive(Debug, Clone, PartialEq, Eq)]
pub struct Measure {
    pub text: String,
    pub width: i64,
}

/// The widths that a list of measures gives: for each text, its latest.
pub open spec fn widths_of(measures: Seq<Measure>) -> Map<Seq<char>, i64>
    decreases measures.len(),
{
    if measures.len() == 0 {
        Map::empty()
    } else {
        widths_of(measures.drop_last()).insert(measures.last().text@, measures.last().width)
    }
}

/// The steps that a list of commands stands for.
pub open spec fn ops_of(commands: Seq<DrawCommand>) -> Seq<DrawOp> {
    Seq::new(commands.len(), |i: int| commands[i]@)
}

/// A window: layout values, measured texts, and the drawing so far.
#[derive(Debug)]
pub struct Window {
    values: Values,
    measures: Vec<Measure>,
    commands: Vec<DrawCommand>,
}

impl Window {
    /// What layout reads of this window.
    pub closed spec fn surface(&self) -> Surface {
        Surface { values: self.values, widths: widths_of(self.measures@) }
    }

    /// What was drawn into this window, in order.
    pub closed spec fn drawn(&self) -> Seq<DrawOp> {
        ops_of(self.commands@)
    }

    /// A window with the given values, nothing measured and nothing drawn.
    pub fn new(values: Values) -> (w: Window)
        ensures
            w.surface() == (Surface { values, widths: Map::empty() }),
            w.drawn() == Seq::<DrawOp>::empty(),
    {
        let w = Window { values, measures: Vec::new(), commands: Vec::new() };
        w
    }

    /// Records the width of a text. A width recorded before for the same text
    /// is replaced.
    pub fn measure(&mut self, text: &str, width: i64)
        ensures
            final(self).surface() == (Surface {
                widths: old(self).surface().widths.insert(text@, width),
                ..old(self).surface()
            }),
            final(self).drawn() == old(self).drawn(),
    {
        self.measures.push(Measure { text: String::from_str(text), width });
        assert(self.measures@.drop_last() =~= old(self).measures@);
    }

    /// The commands drawn so far, in order.
    pub fn commands(&self) -> (c: &Vec<DrawCommand>)
        ensures
            ops_of(c@) == self.drawn(),
    {
        &self.commands
    }

    /// Forgets what was drawn.
    pub fn clear(&mut self)
        ensures
            final(self).surface() == old(self).surface(),
            final(self).drawn() == Seq::<DrawOp>::empty(),
    {
        self.commands = Vec::new();
    }

    fn record(&mut self, command: DrawCommand)
        ensures
            final(self).surface() == old(self).surface(),
            final(self).drawn() == old(self).drawn().push(command@),
    {
        self.commands.push(command);
    }

    /// Blank the window.
    pub fn blank(&mut self)
        ensures
            final(self).surface() == old(self).surface(),
            final(self).drawn() == old(self).drawn().push(DrawOp::Blank),
    {
        self.record(DrawCommand::Blank);
    }

    /// Get the constant values for this window.
    pub fn get_values(&self) -> (v: Values)
        ensures
            v == self.surface().values,
    {
        self.values
    }

    /// Draw a rectangle: set the pen color, then add the rectangle to the
    /// path.
    pub fn rect(&mut self, region: Region, color: Color)
        ensures
            final(self).surface() == old(self).surface(),
            final(self).drawn() == old(self).drawn().push(DrawOp::SetColor(color)).push(
                DrawOp::Rect(region),
            ),
    {
        self.set_color(color);
        self.rect_path(region);
    }

    /// Add a rectangle to the path, in the pen color that is set.
    pub fn rect_path(&mut self, region: Region)
        ensures
            final(self).surface() == old(self).surface(),
            final(self).drawn() == old(self).drawn().push(DrawOp::Rect(region)),
    {
        self.record(DrawCommand::Rect(region));
    }

    /// Set the font.
    pub fn set_font(&mut self, font: &str)
        ensures
            final(self).surface() == old(self).surface(),
            final(self).drawn() == old(self).drawn().push(DrawOp::SetFont(font@)),
    {
        self.record(DrawCommand::SetFont(String::from_str(font)));
    }

    /// Fill in some text from `origin`, in the font that is set.
    pub fn fill_text(&mut self, text: &str, origin: Point)
        ensures
            final(self).surface() == old(self).surface(),
            final(self).drawn() == old(self).drawn().push(DrawOp::FillText(text@, origin)),
    {
        self.record(DrawCommand::FillText(String::from_str(text), origin));
    }

    /// Begin a path.
    pub fn begin_path(&mut self)
        ensures
            final(self).surface() == old(self).surface(),
            final(self).drawn() == old(self).drawn().push(DrawOp::BeginPath),
    {
        self.record(DrawCommand::BeginPath);
    }

    /// Draw the current path.
    pub fn draw_path(&mut self)
        ensures
            final(self).surface() == old(self).surface(),
            final(self).drawn() == old(self).drawn().push(DrawOp::DrawPath),
    {
        self.record(DrawCommand::DrawPath);
    }

    /// Set pen color.
    pub fn set_color(&mut self, color: Color)
        ensures
            final(self).surface() == old(self).surface(),
            final(self).drawn() == old(self).drawn().push(DrawOp::SetColor(color)),
    {
        self.record(DrawCommand::SetColor(color));
    }

    /// Draw some text: set the font, then fill the text in.
    pub fn text(&mut self, text: &str, font: &str, origin: Point) -> (r: Result<(), WindowError>)
        ensures
            r is Ok,
            final(self).surface() == old(self).surface(),
            final(self).drawn() == old(self).drawn().push(DrawOp::SetFont(font@)).push(
                DrawOp::FillText(text@, origin),
            ),
    {
        self.set_font(font);
        self.fill_text(text, origin);
        Ok(())
    }

    /// Get the width of the text.
    pub fn text_width(&self, text: &str) -> (r: Result<i64, WindowError>)
        ensures
            r == self.surface().text_width(text@),
    {
        let wanted = String::from_str(text);
        let mut i: usize = self.measures.len();
        assert(self.measures@.take(i as int) =~= self.measures@);
        while i > 0
            invariant
                i <= self.measures@.len(),
                wanted@ == text@,
                widths_of(self.measures@).dom().contains(text@) <==> widths_of(
                    self.measures@.take(i as int),
                ).dom().contains(text@),
                widths_of(self.measures@).dom().contains(text@) ==> widths_of(self.measures@)[text@]
                    == widths_of(self.measures@.take(i as int))[text@],
            decreases i,
        {
            let ghost prefix = self.measures@.take(i as int);
            assert(prefix.drop_last() =~= self.measures@.take(i - 1));
            i -= 1;
            if self.measures[i].text == wanted {
                return Ok(self.measures[i].width);
            }
        }
        Err(WindowError::Text)
    }
}

/// Whether `end` is what `start` can become by handling the first `k` of the
/// clicks, one after the other, each without an error. The element is
/// mounted at the top left corner of the canvas.
#[verifier::opaque]
pub open spec fn walked<E: Widget>(start: E, clicks: Seq<Point>, s: Surface, k: nat, end: E) -> bool
    decreases k,
{
    if k == 0 {
        end == start
    } else {
        exists|mid: E, r: Result<Option<E::MSG>, WindowError>|
            {
                &&& walked(start, clicks, s, (k - 1) as nat, mid)
                &&& r is Ok
                &&& #[trigger] mid.answers(&end, Point::zero(), clicks[k - 1], s, r)
            }
    }
}

/// One more click handled without an error extends a walk.
pub proof fn walked_on<E: Widget>(
    start: E,
    clicks: Seq<Point>,
    s: Surface,
    k: nat,
    mid: E,
    end: E,
    r: Result<Option<E::MSG>, WindowError>,
)
    requires
        k < clicks.len(),
        walked(start, clicks, s, k, mid),
        r is Ok,
        mid.answers(&end, Point::zero(), clicks[k as int], s, r),
    ensures
        walked(start, clicks, s, k + 1, end),
{
    reveal(walked);
    let n = k + 1;
    assert(walked(start, clicks, s, (n - 1) as nat, mid));
}

/// Whether `end` is what `start` can become by handling the first `k` clicks
/// without an error and then failing with `e` on the next.
pub open spec fn stumbled<E: Widget>(
    start: E,
    clicks: Seq<Point>,
    s: Surface,
    k: nat,
    end: E,
    e: WindowError,
) -> bool {
    exists|mid: E|
        {
            &&& walked(start, clicks, s, k, mid)
            &&& #[trigger] mid.answers(
                &end,
                Point::zero(),
                clicks[k as int],
                s,
                Err::<Option<E::MSG>, WindowError>(e),
            )
        }
}

/// Top-level canvas engine object: a window and the element shown in it.
pub struct WindowEngine<E: Widget> {
    window: Window,
    element: E,
}

impl<E: Widget> WindowEngine<E> {
    /// The engine's window.
    pub closed spec fn window(&self) -> Window {
        self.window
    }

    /// The element that the engine shows.
    pub closed spec fn element(&self) -> E {
        self.element
    }

    pub fn new(w: Window, element: E) -> (engine: Self)
        ensures
            engine.window() == w,
            engine.element() == element,
    {
        WindowEngine { window: w, element }
    }

    /// The engine's window, to measure texts for it and to take what was
    /// drawn.
    pub fn window_mut(&mut self) -> (w: &mut Window)
        ensures
            *w == old(self).window(),
            final(self).window() == *final(w),
            final(self).element() == old(self).element(),
    {
        &mut self.window
    }

    /// The engine's element and window, to handle a click outside the
    /// engine.
    pub fn parts(&mut self) -> (r: (&mut E, &mut Window))
        ensures
            *r.0 == old(self).element(),
            *r.1 == old(self).window(),
            final(self).element() == *final(r.0),
            final(self).window() == *final(r.1),
    {
        (&mut self.element, &mut self.window)
    }

    /// The texts that the element shows as it stands: the texts to measure
    /// for the window before clicks are resolved or the element is drawn.
    pub fn texts(&self) -> (v: Vec<String>)
        ensures
            crate::traits::views_of(v@) == self.element().tree(Point::zero()).texts(),
    {
        self.element.mount_widget(Point::default()).texts()
    }

    /// Resolves clicks: the element handles them in order, and the first
    /// error ends the call. Nothing is drawn.
    pub fn resolve(&mut self, clicks: &Vec<Point>) -> (r: Result<(), WindowError>)
        ensures
            final(self).window() == old(self).window(),
            match r {
                Ok(_) => walked(
                    old(self).element(),
                    clicks@,
                    old(self).window().surface(),
                    clicks@.len(),
                    final(self).element(),
                ),
                Err(e) => exists|k: nat|
                    k < clicks@.len() && #[trigger] stumbled(
                        old(self).element(),
                        clicks@,
                        old(self).window().surface(),
                        k,
                        final(self).element(),
                        e,
                    ),
            },
    {
        let ghost s = self.window.surface();
        proof {
            reveal(walked);
        }
        let mut i: usize = 0;
        while i < clicks.len()
            invariant
                i <= clicks@.len(),
                self.window == old(self).window,
                s == self.window.surface(),
                walked(old(self).element(), clicks@, s, i as nat, self.element),
            decreases clicks@.len() - i,
        {
            let ghost mid = self.element;
            let handled = self.element.handle_click(Point::default(), clicks[i], &self.window);
            match handled {
                Ok(_) => {
                    proof {
                        walked_on(
                            old(self).element(),
                            clicks@,
                            s,
                            i as nat,
                            mid,
                            self.element,
                            handled,
                        );
                    }
                },
                Err(e) => {
                    proof {
                        let k = i as nat;
                        assert(k < clicks@.len() && stumbled(
                            old(self).element(),
                            clicks@,
                            old(self).window().surface(),
                            k,
                            self.element(),
                            e,
                        ));
                    }
                    return Err(e);
                },
            }
            i += 1;
        }
        Ok(())
    }

    /// Blanks the window and draws the element as it stands. It returns what
    /// the drawing returned: the bottom right corner of what was painted, or
    /// the error that ended the drawing.
    pub fn paint(&mut self) -> (r: Result<Point, WindowError>)
        ensures
            final(self).element() == old(self).element(),
            final(self).window().surface() == old(self).window().surface(),
            final(self).window().drawn() == old(self).window().drawn().push(DrawOp::Blank)
                + old(self).element().tree(Point::zero()).drawing(
                old(self).window().surface(),
            ).ops,
            r == old(self).element().tree(Point::zero()).drawing(
                old(self).window().surface(),
            ).result,
    {
        self.window.blank();
        let mounted = self.element.mount_widget(Point::default());
        mounted.draw(&mut self.window)
    }

    /// Draw elements. Takes a list of clicks to resolve first: the element
    /// handles them in order, and the first error ends the call with nothing
    /// drawn. Then the window is blanked and the element is drawn as it then
    /// stands; an error that ends the drawing is not passed on.
    pub fn draw(&mut self, clicks: Vec<Point>) -> (r: Result<(), WindowError>)
        ensures
            final(self).window().surface() == old(self).window().surface(),
            match r {
                Ok(_) => {
                    &&& walked(
                        old(self).element(),
                        clicks@,
                        old(self).window().surface(),
                        clicks@.len(),
                        final(self).element(),
                    )
                    &&& final(self).window().drawn() == old(self).window().drawn().push(
                        DrawOp::Blank,
                    ) + final(self).element().tree(Point::zero()).drawing(
                        old(self).window().surface(),
                    ).ops
                },
                Err(e) => {
                    &&& final(self).window().drawn() == old(self).window().drawn()
                    &&& exists|k: nat|
                        k < clicks@.len() && #[trigger] stumbled(
                            old(self).element(),
                            clicks@,
                            old(self).window().surface(),
                            k,
                            final(self).element(),
                            e,
                        )
                },
            },
    {
        // handle any received clicks
        self.resolve(&clicks)?;
        // clear canvas, then draw element
        let _ = self.paint();
        Ok(())
    }
}

} // verus!

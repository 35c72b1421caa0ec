//! Reusable widgets: text and buttons.

use vstd::prelude::*;
use std::marker::PhantomData;
use crate::arith::{clamp, half, half_of, sat_add, sat_mul};
use crate::callback::Callback;
use crate::error::WindowError;
use crate::traits::{fired, ChildView, Drawable, Drawn, Leaf, MountedWidget, TreeView, Widget};
use crate::types::{Color, Font, Point, Region};
use crate::window::{DrawOp, Surface, Window};

verus! {

/// What a [`Text`] stands for.
pub struct TextView {
    pub font: Font,
    pub text: Seq<char>,
}

impl TextView {
    /// The bounding box of the text drawn from `top_left`: as wide as the
    /// window measured the text, as high as the font.
    pub open spec fn region(self, top_left: Point, s: Surface) -> Result<Region, WindowError> {
        match s.text_width(self.text) {
            Ok(width) => Ok(Region { o: top_left, w: width, h: self.font.size as i64 }),
            Err(e) => Err(e),
        }
    }

    /// What drawing the text from `top_left` draws, and the bottom right
    /// corner of what was painted.
    pub open spec fn drawing(self, top_left: Point, s: Surface) -> Drawn {
        Drawn {
            ops: seq![
                DrawOp::BeginPath,
                DrawOp::SetFont(self.font.text()),
                DrawOp::FillText(self.text, top_left),
                DrawOp::DrawPath,
            ],
            result: match self.region(top_left, s) {
                Ok(region) => Ok(region.far_corner()),
                Err(e) => Err(e),
            },
        }
    }
}

/// A widget that just draws some text.
#[verifier::reject_recursive_types(T)]
pub struct Text<T> {
    phantom: PhantomData<T>,
    font: Font,
    text: String,
}

impl<T> View for Text<T> {
    type V = TextView;

    closed spec fn view(&self) -> TextView {
        TextView { font: self.font, text: self.text@ }
    }
}

impl<T> Text<T> {
    pub fn new(s: &str) -> (t: Self)
        ensures
            t@ == (TextView { font: Font::standard(), text: s@ }),
    {
        Text { phantom: PhantomData, font: Font::default(), text: String::from_str(s) }
    }
}

impl<T> Text<T> {
    /// The text that is drawn.
    pub fn text(&self) -> (s: String)
        ensures
            s@ == self@.text,
    {
        self.text.clone()
    }
}

impl<T> Clone for Text<T> {
    fn clone(&self) -> (t: Self)
        ensures
            t@ == self@,
    {
        Text { phantom: PhantomData, font: self.font, text: self.text.clone() }
    }
}

impl<T> Default for Text<T> {
    fn default() -> (t: Self)
        ensures
            t@ == (TextView { font: Font::standard(), text: Seq::<char>::empty() }),
    {
        Text { font: Font::default(), phantom: PhantomData, text: String::new() }
    }
}

impl<T> Drawable for Text<T> {
    open spec fn region(&self, top_left: Point, s: Surface) -> Result<Region, WindowError> {
        self@.region(top_left, s)
    }

    open spec fn drawing(&self, top_left: Point, s: Surface) -> Drawn {
        self@.drawing(top_left, s)
    }

    fn draw_at(&self, top_left: Point, w: &mut Window) -> (r: Result<Point, WindowError>) {
        w.begin_path();
        w.text(self.text.as_str(), self.font.to_string().as_str(), top_left)?;
        w.draw_path();
        Ok(Drawable::get_region(self, top_left, w)?.bottom_right())
    }

    fn get_region(&self, top_left: Point, w: &Window) -> (r: Result<Region, WindowError>) {
        Ok(Region::from((top_left, w.text_width(self.text.as_str())?, self.font.height())))
    }
}

impl<T> Widget for Text<T> {
    type MSG = T;

    open spec fn tree(&self, top_left: Point) -> TreeView<T> {
        ChildView::<T>::Text(self@).mounted(top_left)
    }

    open spec fn answers(
        &self,
        next: &Self,
        top_left: Point,
        click: Point,
        s: Surface,
        r: Result<Option<T>, WindowError>,
    ) -> bool {
        r == Ok::<Option<T>, WindowError>(None) && next@ == self@
    }

    fn handle_click(&mut self, top_left: Point, click: Point, w: &Window) -> (r: Result<
        Option<T>,
        WindowError,
    >) {
        Ok(None)
    }

    fn mount_widget(&self, top_left: Point) -> (m: MountedWidget<T>) {
        let mut ret = MountedWidget::new(top_left);
        ret.set_drawable(Leaf::Text(self.clone()));
        ret
    }
}

/// What a [`Button`] stands for.
#[verifier::reject_recursive_types(T)]
pub struct ButtonView<T> {
    /// The width and height, where they were set.
    pub bottom_right: Option<Point>,
    /// What a click runs: the values that it may return.
    pub callback: Option<spec_fn(T) -> bool>,
    pub color: Color,
    pub font: Font,
    pub text: Seq<char>,
}

impl<T> ButtonView<T> {
    /// The outline of the button drawn from `top_left`: of the size that was
    /// set, else the measured text with padding around it.
    pub open spec fn region(self, top_left: Point, s: Surface) -> Result<Region, WindowError> {
        match self.bottom_right {
            Some(p) => Ok(Region { o: top_left, w: p.x, h: p.y }),
            None => match s.text_width(self.text) {
                Ok(width) => Ok(
                    Region {
                        o: top_left,
                        w: clamp(width + s.values.padding),
                        h: clamp(self.font.size + clamp(s.values.padding * 2)),
                    },
                ),
                Err(e) => Err(e),
            },
        }
    }

    /// Where the button's text starts when the button is drawn from `top_left`.
    pub open spec fn text_origin(self, top_left: Point, s: Surface) -> Point {
        Point {
            x: clamp(top_left.x + half_of(s.values.padding)),
            y: clamp(top_left.y + clamp(s.values.padding * 2)),
        }
    }

    /// What drawing the button from `top_left` draws, and the bottom right
    /// corner of its outline.
    pub open spec fn drawing(self, top_left: Point, s: Surface) -> Drawn {
        match self.region(top_left, s) {
            Ok(outline) => Drawn {
                ops: seq![
                    DrawOp::BeginPath,
                    DrawOp::SetColor(self.color),
                    DrawOp::Rect(outline),
                    DrawOp::SetFont(self.font.text()),
                    DrawOp::FillText(self.text, self.text_origin(top_left, s)),
                    DrawOp::DrawPath,
                ],
                result: Ok(outline.far_corner()),
            },
            Err(e) => Drawn { ops: seq![DrawOp::BeginPath], result: Err(e) },
        }
    }

    /// The callback that a click at `click` reaches on the button drawn from
    /// `top_left`: the button's, where it has one and the click is in its
    /// outline.
    pub open spec fn hit(self, top_left: Point, click: Point, s: Surface) -> Result<
        Option<spec_fn(T) -> bool>,
        WindowError,
    > {
        match self.region(top_left, s) {
            Ok(outline) => if outline.holds(click) {
                Ok(self.callback)
            } else {
                Ok(None)
            },
            Err(e) => Err(e),
        }
    }
}

/// Generic button type. Optionally takes a "bottom right" point as a width
/// and height. Takes a callback to call upon click.
#[verifier::reject_recursive_types(T)]
pub struct Button<T> {
    bottom_right: Option<Point>,
    callback: Option<Callback<T>>,
    color: Color,
    font: Font,
    text: String,
}

impl<T> View for Button<T> {
    type V = ButtonView<T>;

    closed spec fn view(&self) -> ButtonView<T> {
        ButtonView {
            bottom_right: self.bottom_right,
            callback: match self.callback {
                Some(c) => Some(c.behavior()),
                None => None,
            },
            color: self.color,
            font: self.font,
            text: self.text@,
        }
    }
}

impl<T> Button<T> {
    /// The button that `new` makes for a text.
    pub open spec fn plain(text: Seq<char>) -> ButtonView<T> {
        ButtonView {
            bottom_right: None,
            callback: None,
            color: Color { r: 0, g: 0, b: 0 },
            font: Font::standard(),
            text,
        }
    }

    pub fn new(s: &str) -> (b: Self)
        ensures
            b@ == Self::plain(s@),
    {
        Button {
            bottom_right: None,
            callback: None,
            color: Color::new(0, 0, 0),
            font: Font::default(),
            text: String::from_str(s),
        }
    }

    /// Add a border color.
    pub fn add_border_color(&mut self, color: Color) -> (r: &mut Self)
        ensures
            r@ == (ButtonView { color, ..old(self)@ }),
            *final(self) == *final(r),
    {
        self.color = color;
        self
    }

    /// Set onclick action.
    pub fn set_onclick(&mut self, f: Callback<T>) -> (r: &mut Self)
        ensures
            r@ == (ButtonView { callback: Some(f.behavior()), ..old(self)@ }),
            *final(self) == *final(r),
    {
        self.callback = Some(f);
        self
    }

    /// Set size.
    pub fn set_size(&mut self, width: i64, height: i64) -> (r: &mut Self)
        ensures
            r@ == (ButtonView { bottom_right: Some(Point { x: width, y: height }), ..old(self)@ }),
            *final(self) == *final(r),
    {
        self.bottom_right = Some(Point::from((width, height)));
        self
    }
}

impl<T> Button<T> {
    /// Handle a click on this button drawn from `top_left`: run the callback,
    /// if there is one and the click is in the outline.
    pub fn clicked(&self, top_left: Point, click: Point, w: &Window) -> (r: Result<
        Option<T>,
        WindowError,
    >)
        ensures
            fired(self@.hit(top_left, click, w.surface()), r),
    {
        if Drawable::get_region(self, top_left, w)?.contains(click) {
            match &self.callback {
                Some(f) => Ok(Some(f.call())),
                None => Ok(None),
            }
        } else {
            Ok(None)
        }
    }
}

impl<T> Button<T> {
    /// The text on the button.
    pub fn text(&self) -> (s: String)
        ensures
            s@ == self@.text,
    {
        self.text.clone()
    }
}

impl<T> Clone for Button<T> {
    fn clone(&self) -> (b: Self)
        ensures
            b@ == self@,
    {
        Button {
            bottom_right: self.bottom_right,
            callback: match &self.callback {
                Some(c) => Some(c.clone()),
                None => None,
            },
            color: self.color,
            font: self.font,
            text: self.text.clone(),
        }
    }
}

impl<T> Default for Button<T> {
    fn default() -> (b: Self)
        ensures
            b@ == Self::plain(Seq::<char>::empty()),
    {
        Button {
            bottom_right: None,
            callback: None,
            color: Color::new(0, 0, 0),
            font: Font::default(),
            text: String::new(),
        }
    }
}

impl<T> Drawable for Button<T> {
    open spec fn region(&self, top_left: Point, s: Surface) -> Result<Region, WindowError> {
        self@.region(top_left, s)
    }

    open spec fn drawing(&self, top_left: Point, s: Surface) -> Drawn {
        self@.drawing(top_left, s)
    }

    fn draw_at(&self, top_left: Point, w: &mut Window) -> (r: Result<Point, WindowError>) {
        w.begin_path();
        let outline = Drawable::get_region(self, top_left, w)?;
        w.rect(outline, self.color);
        let padding = w.get_values().padding;
        let origin = Point::from(
            (sat_add(top_left.x, half(padding)), sat_add(top_left.y, sat_mul(padding, 2))),
        );
        w.text(self.text.as_str(), self.font.to_string().as_str(), origin)?;
        w.draw_path();
        Ok(outline.bottom_right())
    }

    fn get_region(&self, top_left: Point, w: &Window) -> (r: Result<Region, WindowError>) {
        match self.bottom_right {
            Some(p) => Ok(Region::from((top_left, p.x, p.y))),
            None => {
                let padding = w.get_values().padding;
                Ok(
                    Region::from(
                        (
                            top_left,
                            sat_add(w.text_width(self.text.as_str())?, padding),
                            sat_add(self.font.height(), sat_mul(padding, 2)),
                        ),
                    ),
                )
            },
        }
    }
}

impl<T> Widget for Button<T> {
    type MSG = T;

    open spec fn tree(&self, top_left: Point) -> TreeView<T> {
        ChildView::Button(self@).mounted(top_left)
    }

    open spec fn answers(
        &self,
        next: &Self,
        top_left: Point,
        click: Point,
        s: Surface,
        r: Result<Option<T>, WindowError>,
    ) -> bool {
        fired(self@.hit(top_left, click, s), r) && next@ == self@
    }

    fn handle_click(&mut self, top_left: Point, click: Point, w: &Window) -> (r: Result<
        Option<T>,
        WindowError,
    >) {
        self.clicked(top_left, click, w)
    }

    fn mount_widget(&self, top_left: Point) -> (m: MountedWidget<T>) {
        let mut ret = MountedWidget::new(top_left);
        ret.set_drawable(Leaf::Button(self.clone()));
        ret
    }
}

} // verus!

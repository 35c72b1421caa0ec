use five_dice::callback::Callback;
use five_dice::error::WindowError;
use five_dice::traits::{Child, Drawable, Leaf, MountedWidget, Widget};
use five_dice::types::{Color, Point, Region, Values};
use five_dice::widgets::{Button, Text};
use five_dice::window::{DrawCommand, Window};

fn window() -> Window {
    let mut w = Window::new(Values::default());
    w.measure("Hi", 20);
    w.measure("Roll!", 30);
    w
}

fn font() -> String {
    "16px Arial".to_string()
}

fn p(x: i64, y: i64) -> Point {
    Point { x, y }
}

#[test]
fn callbacks_run_their_closure() {
    let c = Callback::from(|| 5);
    assert_eq!(c.call(), 5);
    let d = c.clone();
    assert_eq!(d.call(), 5);
    let text = "seven".to_string();
    let owned = Callback::from(move || text.len());
    assert_eq!(owned.call(), 5);
}

#[test]
fn constant_callbacks_return_their_value() {
    let c = Callback::always(7u8);
    assert_eq!(c.call(), 7);
    assert_eq!(c.call(), 7);
    assert_eq!(c.clone().call(), 7);
}

#[test]
fn window_keeps_the_latest_measure() {
    let mut w = Window::new(Values::default());
    assert_eq!(w.get_values(), Values::default());
    assert_eq!(w.text_width("Hi"), Err(WindowError::Text));
    w.measure("Hi", 20);
    w.measure("Ho", 21);
    assert_eq!(w.text_width("Hi"), Ok(20));
    assert_eq!(w.text_width("Ho"), Ok(21));
    w.measure("Hi", 25);
    assert_eq!(w.text_width("Hi"), Ok(25));
    assert_eq!(w.text_width("Ho"), Ok(21));
    assert_eq!(w.text_width(""), Err(WindowError::Text));
    assert!(w.commands().is_empty());
}

#[test]
fn window_records_what_is_drawn_in_order() {
    let mut w = window();
    w.blank();
    w.begin_path();
    w.set_color(Color::new(1, 2, 3));
    w.rect((1, 2, 3, 4).into(), Color::new(255, 0, 0));
    assert_eq!(w.text("Hi", "12px Arial", p(5, 6)), Ok(()));
    w.draw_path();
    let expected = vec![
        DrawCommand::Blank,
        DrawCommand::BeginPath,
        DrawCommand::SetColor(Color::new(1, 2, 3)),
        DrawCommand::SetColor(Color::new(255, 0, 0)),
        DrawCommand::Rect(Region { o: p(1, 2), w: 3, h: 4 }),
        DrawCommand::SetFont("12px Arial".to_string()),
        DrawCommand::FillText("Hi".to_string(), p(5, 6)),
        DrawCommand::DrawPath,
    ];
    assert_eq!(w.commands(), &expected);
    // drawing does not change what was measured
    assert_eq!(w.text_width("Hi"), Ok(20));
    w.clear();
    assert!(w.commands().is_empty());
    assert_eq!(w.text_width("Roll!"), Ok(30));
}

#[test]
fn text_is_as_wide_as_measured_and_as_high_as_its_font() {
    let w = window();
    let t: Text<u8> = Text::new("Hi");
    assert_eq!(t.text(), "Hi");
    assert_eq!(t.get_region(p(5, 7), &w), Ok(Region { o: p(5, 7), w: 20, h: 16 }));
    let unmeasured: Text<u8> = Text::new("Unknown");
    assert_eq!(unmeasured.get_region(p(5, 7), &w), Err(WindowError::Text));
    let empty: Text<u8> = Text::default();
    assert_eq!(empty.text(), "");
    assert_eq!(t.clone().text(), "Hi");
}

#[test]
fn text_draws_itself_and_returns_its_bottom_right() {
    let mut w = window();
    let t: Text<u8> = Text::new("Hi");
    assert_eq!(t.draw_at(p(5, 7), &mut w), Ok(p(25, 23)));
    let expected = vec![
        DrawCommand::BeginPath,
        DrawCommand::SetFont(font()),
        DrawCommand::FillText("Hi".to_string(), p(5, 7)),
        DrawCommand::DrawPath,
    ];
    assert_eq!(w.commands(), &expected);
}

#[test]
fn unmeasured_text_is_drawn_before_the_error() {
    let mut w = window();
    let t: Text<u8> = Text::new("Unknown");
    assert_eq!(t.draw_at(p(0, 0), &mut w), Err(WindowError::Text));
    assert_eq!(w.commands().len(), 4);
}

#[test]
fn text_takes_no_clicks() {
    let w = window();
    let mut t: Text<u8> = Text::new("Hi");
    assert_eq!(t.handle_click(p(0, 0), p(1, 1), &w), Ok(None));
}

#[test]
fn button_outline_pads_the_text() {
    let w = window();
    let b: Button<u8> = Button::new("Roll!");
    assert_eq!(b.text(), "Roll!");
    // width: 30 and a padding; height: 16 and two paddings
    assert_eq!(b.get_region(p(0, 0), &w), Ok(Region { o: p(0, 0), w: 40, h: 36 }));
    assert_eq!(b.get_region(p(3, 4), &w), Ok(Region { o: p(3, 4), w: 40, h: 36 }));
    let unmeasured: Button<u8> = Button::new("Unknown");
    assert_eq!(unmeasured.get_region(p(0, 0), &w), Err(WindowError::Text));
}

#[test]
fn button_with_a_size_needs_no_measure() {
    let w = window();
    let mut b: Button<u8> = Button::new("Unknown");
    b.set_size(50, 60);
    assert_eq!(b.get_region(p(1, 2), &w), Ok(Region { o: p(1, 2), w: 50, h: 60 }));
}

#[test]
fn button_draws_outline_then_text() {
    let mut w = window();
    let mut b: Button<u8> = Button::new("Roll!");
    b.add_border_color(Color::new(255, 0, 0));
    assert_eq!(b.draw_at(p(100, 200), &mut w), Ok(p(140, 236)));
    let expected = vec![
        DrawCommand::BeginPath,
        DrawCommand::SetColor(Color::new(255, 0, 0)),
        DrawCommand::Rect(Region { o: p(100, 200), w: 40, h: 36 }),
        DrawCommand::SetFont(font()),
        // half a padding in, two paddings down
        DrawCommand::FillText("Roll!".to_string(), p(105, 220)),
        DrawCommand::DrawPath,
    ];
    assert_eq!(w.commands(), &expected);
}

#[test]
fn unmeasured_button_only_begins_its_path() {
    let mut w = window();
    let b: Button<u8> = Button::new("Unknown");
    assert_eq!(b.draw_at(p(0, 0), &mut w), Err(WindowError::Text));
    let expected = vec![DrawCommand::BeginPath];
    assert_eq!(w.commands(), &expected);
}

#[test]
fn button_answers_clicks_in_its_outline() {
    let w = window();
    let mut b: Button<u8> = Button::new("Roll!");
    // no callback: nothing to report
    assert_eq!(b.clicked(p(0, 0), p(1, 1), &w), Ok(None));
    b.set_onclick(Callback::from(|| 9u8));
    assert_eq!(b.clicked(p(0, 0), p(1, 1), &w), Ok(Some(9)));
    assert_eq!(b.clicked(p(0, 0), p(40, 36), &w), Ok(Some(9)));
    assert_eq!(b.clicked(p(0, 0), p(41, 36), &w), Ok(None));
    assert_eq!(b.clicked(p(10, 10), p(1, 1), &w), Ok(None));
    assert_eq!(b.handle_click(p(0, 0), p(1, 1), &w), Ok(Some(9)));
    assert_eq!(b.clone().clicked(p(0, 0), p(1, 1), &w), Ok(Some(9)));
    let mut unmeasured: Button<u8> = Button::new("Unknown");
    unmeasured.set_onclick(Callback::always(1));
    assert_eq!(unmeasured.clicked(p(0, 0), p(1, 1), &w), Err(WindowError::Text));
}

#[test]
fn leaves_mount_as_drawables() {
    let mut w = window();
    let t: Text<u8> = Text::new("Hi");
    let m = t.mount_widget(p(5, 7));
    assert_eq!(m.to_string(), "Mounted Widget: 1 rows of children, drawable");
    assert_eq!(m.get_region(&w), Ok(Region { o: p(5, 7), w: 20, h: 16 }));
    assert_eq!(m.draw(&mut w), Ok(p(25, 23)));
    assert_eq!(w.commands().len(), 4);
    assert_eq!(m.texts(), vec!["Hi".to_string()]);
    // a mounted widget's own drawable takes no clicks
    let mut b: Button<u8> = Button::new("Roll!");
    b.set_onclick(Callback::always(3));
    let m = b.mount_widget(p(0, 0));
    assert_eq!(m.click(p(1, 1), &w), Ok(None));
    assert_eq!(m.get_region(&w), Ok(Region { o: p(0, 0), w: 40, h: 36 }));
}

#[test]
fn leaf_draws_like_what_it_holds() {
    let mut w = window();
    let leaf: Leaf<u8> = Leaf::Text(Text::new("Hi"));
    assert_eq!(leaf.text(), "Hi");
    assert_eq!(leaf.get_region(p(1, 1), &w), Ok(Region { o: p(1, 1), w: 20, h: 16 }));
    assert_eq!(leaf.draw_at(p(1, 1), &mut w), Ok(p(21, 17)));
    let leaf: Leaf<u8> = Leaf::Button(Button::new("Roll!"));
    assert_eq!(leaf.text(), "Roll!");
    assert_eq!(leaf.get_region(p(1, 1), &w), Ok(Region { o: p(1, 1), w: 40, h: 36 }));
}

#[test]
fn empty_widget() {
    let mut w = window();
    let m: MountedWidget<u8> = MountedWidget::new(p(3, 4));
    assert_eq!(m.to_string(), "Mounted Widget: 1 rows of children, not drawable");
    assert_eq!(m.get_region(&w), Ok(Region { o: p(3, 4), w: 0, h: 0 }));
    assert_eq!(m.draw(&mut w), Ok(p(3, 4)));
    assert!(w.commands().is_empty());
    assert_eq!(m.click(p(3, 4), &w), Ok(None));
    assert!(m.texts().is_empty());
    let d: MountedWidget<u8> = MountedWidget::default();
    assert_eq!(d.get_region(&w), Ok(Region { o: p(0, 0), w: 0, h: 0 }));
}

fn two_in_a_row() -> MountedWidget<u8> {
    let mut m: MountedWidget<u8> = MountedWidget::new(p(0, 0));
    m.push_current_row(Child::Text(Text::new("Hi")));
    let mut b = Button::new("Roll!");
    b.set_onclick(Callback::always(1));
    m.push_current_row(Child::Button(b));
    m
}

#[test]
fn region_reaches_the_farthest_child() {
    let w = window();
    let m = two_in_a_row();
    // text at (0, 0) reaches (20, 16); the button one padding on reaches (50, 36)
    assert_eq!(m.get_region(&w), Ok(Region { o: p(0, 0), w: 50, h: 36 }));
    assert_eq!(m.texts(), vec!["Hi".to_string(), "Roll!".to_string()]);
    assert_eq!(m.to_string(), "Mounted Widget: 1 rows of children, not drawable");
}

#[test]
fn drawing_flows_along_the_row() {
    let mut w = window();
    let m = two_in_a_row();
    assert_eq!(m.draw(&mut w), Ok(p(70, 36)));
    let expected = vec![
        DrawCommand::BeginPath,
        DrawCommand::SetFont(font()),
        DrawCommand::FillText("Hi".to_string(), p(0, 0)),
        DrawCommand::DrawPath,
        // one padding right of the text's right edge
        DrawCommand::BeginPath,
        DrawCommand::SetColor(Color::new(0, 0, 0)),
        DrawCommand::Rect(Region { o: p(30, 0), w: 40, h: 36 }),
        DrawCommand::SetFont(font()),
        DrawCommand::FillText("Roll!".to_string(), p(35, 20)),
        DrawCommand::DrawPath,
    ];
    assert_eq!(w.commands(), &expected);
}

#[test]
fn rows_start_below_the_tallest_child() {
    let mut w = window();
    let mut m = two_in_a_row();
    m.push_new_row(Child::Text(Text::new("Hi")));
    assert_eq!(m.to_string(), "Mounted Widget: 2 rows of children, not drawable");
    assert_eq!(m.draw(&mut w), Ok(p(70, 36)));
    // the second row starts at the left margin, two paddings below the
    // greatest height of the first
    assert_eq!(w.commands()[12], DrawCommand::FillText("Hi".to_string(), p(10, 56)));
    assert_eq!(w.commands().len(), 14);
}

#[test]
fn child_leaving_the_canvas_starts_a_new_line() {
    let mut w = window();
    let mut m: MountedWidget<u8> = MountedWidget::new(p(750, 0));
    let mut b = Button::new("Wide");
    b.set_size(100, 50);
    m.push_current_row(Child::Button(b));
    // (850, 50) is off the canvas: the button moves to the left margin, a
    // padding below its height
    assert_eq!(m.draw(&mut w), Ok(p(750, 0)));
    assert_eq!(w.commands()[2], DrawCommand::Rect(Region { o: p(10, 60), w: 100, h: 50 }));
}

#[test]
fn the_drawable_is_drawn_last_and_gives_the_result() {
    let mut w = window();
    let mut m = two_in_a_row();
    m.set_drawable(Leaf::Text(Text::new("Hi")));
    assert_eq!(m.to_string(), "Mounted Widget: 1 rows of children, drawable");
    assert_eq!(m.draw(&mut w), Ok(p(20, 16)));
    assert_eq!(w.commands().len(), 14);
    assert_eq!(w.commands()[12], DrawCommand::FillText("Hi".to_string(), p(0, 0)));
    // and it alone gives the region
    assert_eq!(m.get_region(&w), Ok(Region { o: p(0, 0), w: 20, h: 16 }));
    assert_eq!(
        m.texts(),
        vec!["Hi".to_string(), "Roll!".to_string(), "Hi".to_string()]
    );
}

#[test]
fn an_unmeasured_child_ends_the_drawing() {
    let mut w = window();
    let mut m = two_in_a_row();
    m.push_current_row(Child::Text(Text::new("Unknown")));
    m.push_current_row(Child::Text(Text::new("Hi")));
    assert_eq!(m.draw(&mut w), Err(WindowError::Text));
    // the two measured children were drawn
    assert_eq!(w.commands().len(), 10);
    assert_eq!(m.get_region(&w), Err(WindowError::Text));
}

fn two_buttons() -> MountedWidget<u8> {
    let mut m: MountedWidget<u8> = MountedWidget::new(p(0, 0));
    let mut a = Button::new("A");
    a.set_size(50, 50);
    a.set_onclick(Callback::always(1));
    let mut b = Button::new("B");
    b.set_size(50, 50);
    b.set_onclick(Callback::from(|| 2u8));
    m.push_current_row(Child::Button(a));
    m.push_current_row(Child::Button(b));
    m
}

#[test]
fn clicks_reach_the_first_child_that_is_hit() {
    let w = window();
    let m = two_buttons();
    assert_eq!(m.click(p(10, 10), &w), Ok(Some(1)));
    assert_eq!(m.click(p(50, 50), &w), Ok(Some(1)));
    // the second button stands one padding right of the first
    assert_eq!(m.click(p(60, 10), &w), Ok(Some(2)));
    assert_eq!(m.click(p(110, 50), &w), Ok(Some(2)));
    assert_eq!(m.click(p(55, 10), &w), Ok(None));
    assert_eq!(m.click(p(10, 51), &w), Ok(None));
    assert_eq!(m.click(p(111, 10), &w), Ok(None));
}

#[test]
fn clicks_go_down_into_mounted_children() {
    let w = window();
    let mut m: MountedWidget<u8> = MountedWidget::new(p(100, 100));
    m.push_current_row(Child::Text(Text::new("Hi")));
    m.push_current_row(Child::Mounted(two_buttons()));
    // the text reaches x = 120; the buttons start one padding on
    assert_eq!(m.click(p(131, 101), &w), Ok(Some(1)));
    assert_eq!(m.click(p(191, 101), &w), Ok(Some(2)));
    assert_eq!(m.click(p(101, 101), &w), Ok(None));
    let child = Child::Mounted(two_buttons());
    assert_eq!(child.handle_click(p(0, 0), p(1, 1), &w), Ok(Some(1)));
    assert_eq!(child.get_region(p(0, 0), &w), Ok(Region { o: p(0, 0), w: 60, h: 50 }));
}

#[test]
fn an_unmeasured_child_ends_the_click() {
    let w = window();
    let mut m: MountedWidget<u8> = MountedWidget::new(p(0, 0));
    m.push_current_row(Child::Text(Text::new("Unknown")));
    m.push_current_row(Child::Mounted(two_buttons()));
    assert_eq!(m.click(p(1, 1), &w), Err(WindowError::Text));
}

#[test]
fn button_settings_chain() {
    let w = window();
    let mut b: Button<u8> = Button::new("Unknown");
    b.set_size(10, 20)
        .add_border_color(Color::new(0, 0, 255))
        .set_onclick(Callback::always(4));
    assert_eq!(b.get_region(p(0, 0), &w), Ok(Region { o: p(0, 0), w: 10, h: 20 }));
    assert_eq!(b.clicked(p(0, 0), p(5, 5), &w), Ok(Some(4)));
    let mut drawn = window();
    assert_eq!(b.draw_at(p(0, 0), &mut drawn), Ok(p(10, 20)));
    assert_eq!(drawn.commands()[1], DrawCommand::SetColor(Color::new(0, 0, 255)));
}

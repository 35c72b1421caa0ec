use five_dice::draw::{MountedWidget, Point, Region, Text, WindowEngine, WindowError};
use five_dice::types::Values;
use five_dice::window::{DrawCommand, Window};

fn window() -> Window {
    let mut w = Window::new(Values::default());
    w.measure("Hi", 20);
    w.measure("Wide", 790);
    w
}

fn p(x: i64, y: i64) -> Point {
    Point { x, y }
}

fn at(x: i64, y: i64) -> five_dice::types::Point {
    five_dice::types::Point { x, y }
}

fn text_commands(text: &str, x: i64, y: i64) -> Vec<DrawCommand> {
    vec![
        DrawCommand::BeginPath,
        DrawCommand::SetFont("12px Arial".to_string()),
        DrawCommand::FillText(text.to_string(), at(x, y)),
        DrawCommand::DrawPath,
    ]
}

#[test]
fn bounded_text_box_and_drawing() {
    let mut w = window();
    let t = Text::new("Hi");
    assert_eq!(t.get_region(p(5, 7), &w), Region { o: p(5, 7), w: 20, h: 12 });
    assert_eq!(t.draw_at(p(5, 7), &mut w), Ok(p(25, 19)));
    assert_eq!(w.commands(), &text_commands("Hi", 5, 7));
}

#[test]
fn a_mounted_text() {
    let mut w = window();
    let mut m = Text::new("Hi").mount_widget(p(5, 7));
    // the sum keeps the right and the bottom edge as width and height
    assert_eq!(m.get_region(p(0, 0), &w), Region { o: p(5, 7), w: 25, h: 19 });
    assert_eq!(m.draw(&mut w), Ok(p(25, 19)));
    assert_eq!(w.commands(), &text_commands("Hi", 5, 7));
    // the cursor now stands at the bottom right corner
    assert_eq!(m.get_region(p(0, 0), &w), Region { o: p(5, 7), w: 45, h: 31 });
}

fn two_texts() -> MountedWidget {
    let mut m = MountedWidget::new(p(0, 0));
    m.push_current_row(Text::new("Hi"));
    m.push_current_row(Text::new("Hi"));
    m
}

#[test]
fn texts_are_mounted_corner_to_corner() {
    let w = window();
    let mut m = two_texts();
    assert_eq!(m.get_region(p(3, 3), &w), Region { o: p(0, 0), w: 60, h: 36 });
}

#[test]
fn a_row_is_drawn_and_the_cursor_goes_to_the_next_line() {
    let mut w = window();
    let mut m = two_texts();
    assert_eq!(m.draw(&mut w), Ok(p(10, 94)));
    let mut expected = text_commands("Hi", 0, 0);
    expected.extend(text_commands("Hi", 20, 12));
    assert_eq!(w.commands(), &expected);
    // drawing again starts where the cursor was left; the texts are drawn,
    // and the step to the next line leaves the canvas
    w.clear();
    assert_eq!(m.draw_at(p(0, 0), &mut w), Err(WindowError::OutOfBounds));
    let mut expected = text_commands("Hi", 10, 94);
    expected.extend(text_commands("Hi", 40, 200));
    assert_eq!(w.commands(), &expected);
}

#[test]
fn empty_rows_are_passed_over() {
    let mut w = window();
    let mut m = MountedWidget::new(p(1, 2));
    assert_eq!(m.draw(&mut w), Ok(p(1, 2)));
    assert!(w.commands().is_empty());
    m.push_new_row(Text::new("Hi"));
    // a padding and the height of the text's region below its bottom edge
    assert_eq!(m.draw(&mut w), Ok(p(10, 64)));
    assert_eq!(w.commands(), &text_commands("Hi", 1, 2));
    let mut d = MountedWidget::default();
    assert_eq!(d.draw(&mut w), Ok(p(0, 0)));
    d.push_new_row(Text::new("Hi"));
    d.set_drawable(Text::new("Hi"));
    w.clear();
    assert_eq!(d.draw(&mut w), Ok(p(30, 70)));
    assert_eq!(w.commands().len(), 8);
    assert_eq!(w.commands()[6], DrawCommand::FillText("Hi".to_string(), at(10, 58)));
}

#[test]
fn a_cursor_that_leaves_the_canvas_ends_the_drawing() {
    let mut w = window();
    let mut m = MountedWidget::new(p(0, 0));
    m.push_current_row(Text::new("Wide"));
    m.push_current_row(Text::new("Hi"));
    assert_eq!(m.draw(&mut w), Err(WindowError::OutOfBounds));
    // the wide text was drawn before the cursor left
    assert_eq!(w.commands(), &text_commands("Wide", 0, 0));
}

#[test]
fn scrolling_stays_on_the_canvas() {
    let mut w = window();
    let mut m = MountedWidget::new(p(0, 0));
    assert_eq!(m.scroll_horizontal(799), Ok(()));
    assert_eq!(m.scroll_horizontal(1), Err(WindowError::OutOfBounds));
    assert_eq!(m.scroll_vertical(599), Ok(()));
    assert_eq!(m.scroll_vertical(1), Err(WindowError::OutOfBounds));
    assert_eq!(m.scroll_vertical(-600), Err(WindowError::OutOfBounds));
    assert_eq!(m.scroll_horizontal(-799), Ok(()));
    // the cursor stands at (0, 599)
    assert_eq!(m.draw(&mut w), Ok(p(0, 599)));
}

#[test]
fn the_bounded_engine_blanks_then_draws() {
    let mut engine = WindowEngine::new(window(), Text::new("Hi"));
    assert_eq!(engine.draw(), Ok(()));
    let mut expected = vec![DrawCommand::Blank];
    expected.extend(text_commands("Hi", 0, 0));
    assert_eq!(engine.window_mut().commands(), &expected);
    // the next frame draws from where the cursor was left
    engine.window_mut().clear();
    assert_eq!(engine.draw(), Ok(()));
    assert_eq!(
        engine.window_mut().commands()[3],
        DrawCommand::FillText("Hi".to_string(), at(20, 12))
    );
}

#[test]
fn a_bounded_widget_says_where_it_is() {
    let mut m = MountedWidget::new(p(3, 4));
    assert_eq!(m.to_string(), "Mounted Widget at (3, 4) with 1 rows of children, not drawable");
    m.push_new_row(Text::new("Hi"));
    m.set_drawable(Text::new("Hi"));
    assert_eq!(m.to_string(), "Mounted Widget at (3, 4) with 2 rows of children, drawable");
    assert_eq!(
        MountedWidget::default().to_string(),
        "Mounted Widget at (0, 0) with 0 rows of children, not drawable"
    );
}

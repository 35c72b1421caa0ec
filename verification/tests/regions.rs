use five_dice::draw::{Color, Point, Region, Values, WindowError};

#[test]
fn test_add_adding_region() {
    let mut orig: Region = (0, 0, 10, 10).into();
    let other: Region = (4, 6, 20, 8).into();
    orig += other;
    assert_eq!(orig, (0, 0, 24, 14).into());
}

#[test]
fn test_add_adding_up() {
    let mut orig: Region = (10, 10, 5, 5).into();
    let other: Region = (4, 16, 10, 10).into();
    orig += other;
    assert_eq!(orig, (4, 16, 15, 26).into());
}

#[test]
fn test_add_disparate() {
    let mut orig: Region = (0, 0, 5, 5).into();
    let other: Region = (13, 10, 5, 5).into();
    orig += other;
    assert_eq!(orig, (0, 0, 18, 15).into());
}

#[test]
fn corner_wise_points() {
    let a = Point { x: 1, y: 1 };
    let b = Point { x: 2, y: 2 };
    let c = Point { x: 0, y: 5 };
    assert!(a < b);
    assert!(b > a);
    // not strictly above and to the left: greater, both ways
    assert!(a > c);
    assert!(c > a);
    assert!(!(a < c));
    assert!(a >= a);
    assert!(!(a > a));
    assert_eq!(Point::from((3, 4)), Point { x: 3, y: 4 });
    assert_eq!(Point::default().to_string(), "(0, 0)");
}

#[test]
fn bounded_canvas_values() {
    let v = Values::new();
    assert_eq!(v.canvas_size, (800, 600));
    assert_eq!(v.die_dimension, 50);
    assert_eq!(v.padding, 10);
    assert_eq!(v.reroll_button_text, "Roll!");
    assert_eq!(v.button_color, "black");
    assert_eq!(v.font, "Arial");
    assert_eq!(v.button_font_size, 16);
    assert_eq!(v.font_size, 12);
    assert_eq!(v.get_font_string(), "12px Arial");
    assert!(v.fits_canvas(Point { x: 0, y: 0 }));
    assert!(v.fits_canvas(Point { x: 799, y: 599 }));
    assert!(!v.fits_canvas(Point { x: 800, y: 0 }));
    assert!(!v.fits_canvas(Point { x: 0, y: 600 }));
    assert!(!v.fits_canvas(Point { x: -1, y: 0 }));
    assert!(!v.fits_canvas(Point { x: 0, y: -1 }));
}

#[test]
fn bounded_canvas_colors_and_errors() {
    assert_eq!(Color::new(255, 1, 2).to_string(), "red");
    assert_eq!(Color::new(0, 0, 0).to_string(), "black");
    assert_eq!(Color::new(1, 20, 255).to_string(), "#120255");
    assert_eq!(Color::from_str("black"), Ok(Color::new(0, 0, 0)));
    assert_eq!(Color::from_str("red"), Ok(Color::new(255, 0, 0)));
    assert_eq!(WindowError::Element.to_string(), "Could not append element to DOM");
    assert_eq!(WindowError::JsVal("boom".to_string()).to_string(), "boom");
    assert_eq!(WindowError::Text.to_string(), "Could not add text to the window");
    assert_eq!(
        WindowError::OutOfBounds.to_string(),
        "Attempted to scroll cursor out of bounds!"
    );
}

#[test]
fn bounded_canvas_region_parts() {
    let r: Region = (Point { x: 2, y: 3 }, Point { x: 10, y: 20 }).into();
    assert_eq!(r.origin(), Point { x: 2, y: 3 });
    assert_eq!(r.width(), 8);
    assert_eq!(r.height(), 17);
    assert_eq!(r.bottom_right(), Point { x: 10, y: 20 });
    assert_eq!(r.top_right(), Point { x: 10, y: 3 });
    let r: Region = (Point { x: 2, y: 3 }, 1, 1).into();
    assert_eq!(r.bottom_right(), Point { x: 3, y: 4 });
    assert_eq!(Region::default().width(), 0);
}

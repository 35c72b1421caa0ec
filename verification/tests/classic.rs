use five_dice::classic::{
    draw_button, draw_text, Context, Die, Game, Hand, Message, Player, Score, Values,
};
use five_dice::game::RollResult;
use five_dice::random::Roller;
use five_dice::types::{Color, Point, Region};
use five_dice::window::{DrawCommand, Window};

fn p(x: i64, y: i64) -> Point {
    Point { x, y }
}

fn window() -> Window {
    Window::new(five_dice::types::Values::default())
}

#[test]
fn the_fixed_layout_values() {
    let v = Values::new();
    assert_eq!(v.canvas_size, (640, 480));
    assert_eq!(v.die_dimension, 50);
    assert_eq!(v.padding, 10);
    assert_eq!(v.reroll_button_text, "Roll!");
    assert_eq!(v.button_color, Color::new(0, 0, 0));
    assert_eq!(v.button_font, "Arial");
    assert_eq!(v.button_font_size, 16);
    assert_eq!(v.get_button_height(), 28);
    assert_eq!(v.get_font_string(), "16px Arial");
    assert_eq!(v.dice_origin(), (10, 0));
}

#[test]
fn the_buttons_stand_below_the_dice() {
    let v = Values::default();
    // two paddings below the dice; as wide as the text and a padding
    assert_eq!(v.reroll_button_corners(30), ((10, 70), (50, 98)));
    // one padding below the roll button
    assert_eq!(v.start_over_button_corners(30, 60), ((10, 108), (80, 136)));
}

#[test]
fn detecting_a_region_includes_its_edges() {
    let game = Game::new();
    assert!(game.detect_region(5, 5, 0, 0, 10, 10));
    assert!(game.detect_region(0, 10, 0, 0, 10, 10));
    assert!(!game.detect_region(11, 5, 0, 0, 10, 10));
    assert!(!game.detect_region(5, -1, 0, 0, 10, 10));
}

#[test]
fn a_blank_score() {
    let s = Score::new();
    assert_eq!(s, Score::default());
    assert_eq!(s.ones, None);
    assert_eq!(s.stone_soup, None);
    assert!(!s.five_dice);
    assert!(!s.two_and_three);
}

#[test]
fn dice_roll_unless_held() {
    let mut rng = rand::thread_rng();
    let mut die = Die::new(RollResult::Two);
    assert_eq!(die, Die { value: RollResult::Two, held: false });
    die.toggle_held();
    for _ in 0..50 {
        die.roll(&mut rng);
        assert_eq!(die, Die { value: RollResult::Two, held: true });
    }
    die.toggle_held();
    let mut seen = [false; 6];
    for _ in 0..500 {
        die.roll(&mut rng);
        seen[(die.value.value() - 1) as usize] = true;
    }
    assert_eq!(seen, [true; 6]);
    assert!(!Die::get_random(&mut rng).held);
    let hand = Hand::new(&mut rng);
    assert_eq!(hand.remaining_rolls, 3);
    let player = Player::new(&mut rng);
    assert_eq!(player.score, Score::default());
}

#[test]
fn a_click_in_a_die_box_holds_the_die() {
    let mut game = Game::new();
    assert!(game.get_hand().iter().all(|d| !d.held));
    // the dice stand at x = 10, 70, 130, 190, 250, each 50 wide
    game.handle_click(75, 5, 30);
    assert!(game.get_hand()[1].held);
    game.handle_click(300, 50, 30);
    assert!(game.get_hand()[4].held);
    game.handle_click(10, 0, 30);
    assert!(game.get_hand()[0].held);
    // between two dice, and below them: nothing
    let before = game.get_hand();
    game.handle_click(65, 5, 30);
    game.handle_click(75, 51, 30);
    assert_eq!(game.get_hand(), before);
    game.handle_click(75, 5, 30);
    assert!(!game.get_hand()[1].held);
}

#[test]
fn a_click_in_the_roll_button_rolls_the_free_dice() {
    let mut game = Game::new();
    game.hold_die(2);
    let kept = game.get_hand()[2];
    let mut changed = false;
    for _ in 0..50 {
        let before = game.get_hand();
        game.handle_click(20, 80, 30);
        assert_eq!(game.get_hand()[2], kept);
        if game.get_hand() != before {
            changed = true;
        }
    }
    assert!(changed);
    // right of the button nothing rolls
    let before = game.get_hand();
    game.handle_click(51, 80, 30);
    assert_eq!(game.get_hand(), before);
    // a wider text makes a wider button
    game.hold_die(0);
    game.hold_die(1);
    game.hold_die(3);
    game.hold_die(4);
    let all_held = game.get_hand();
    game.handle_click(51, 80, 31);
    assert_eq!(game.get_hand(), all_held);
}

#[test]
fn the_classic_reducer() {
    let mut game = Game::default();
    game.reducer(Message::HoldDie(3));
    assert!(game.get_hand()[3].held);
    game.reducer(Message::HoldDie(5));
    assert!(game.get_hand()[3].held);
    let kept = game.get_hand()[3];
    game.reducer(Message::RollDice);
    assert_eq!(game.get_hand()[3], kept);
    game.roll_dice();
    assert_eq!(game.get_hand()[3], kept);
    assert_eq!(game.values.padding, 10);
}

#[test]
fn drawing_a_button_and_a_text() {
    let mut w = window();
    let v = Values::default();
    assert_eq!(draw_button("Roll!", 10, 70, 30, &mut w, &v), Ok(()));
    let expected = vec![
        DrawCommand::BeginPath,
        DrawCommand::SetFont("16px Arial".to_string()),
        DrawCommand::SetColor(Color::new(0, 0, 0)),
        DrawCommand::Rect(Region { o: p(10, 70), w: 40, h: 28 }),
        DrawCommand::FillText("Roll!".to_string(), p(15, 84)),
        DrawCommand::DrawPath,
    ];
    assert_eq!(w.commands(), &expected);
    w.clear();
    assert_eq!(draw_text("Rolls left: 3", 70, 98, &mut w), Ok(()));
    let expected = vec![
        DrawCommand::BeginPath,
        DrawCommand::FillText("Rolls left: 3".to_string(), p(70, 98)),
        DrawCommand::DrawPath,
    ];
    assert_eq!(w.commands(), &expected);
}

#[test]
fn drawing_a_die() {
    let mut w = window();
    let v = Values::default();
    let mut die = Die::new(RollResult::Six);
    assert_eq!(die.draw_at(20, 0, &mut w, &v), Ok(()));
    let expected = vec![
        DrawCommand::BeginPath,
        DrawCommand::Rect(Region { o: p(20, 0), w: 50, h: 50 }),
        DrawCommand::SetFont("12px Arial".to_string()),
        DrawCommand::SetColor(Color::new(0, 0, 0)),
        DrawCommand::FillText("Six".to_string(), p(25, 25)),
        DrawCommand::DrawPath,
    ];
    assert_eq!(w.commands(), &expected);
    die.toggle_held();
    w.clear();
    assert_eq!(die.draw_at(20, 0, &mut w, &v), Ok(()));
    assert_eq!(w.commands()[3], DrawCommand::SetColor(Color::new(255, 0, 0)));
}

#[test]
fn drawing_the_game() {
    let mut w = window();
    let game = Game::new();
    assert_eq!(game.draw(&mut w, 30, 60), Ok(()));
    let commands = w.commands();
    // blank, five dice, the roll button, the rolls left, the start over button
    assert_eq!(commands.len(), 1 + 5 * 6 + 6 + 3 + 6);
    assert_eq!(commands[0], DrawCommand::Blank);
    // die i is drawn at x = 10 + (60 i + 10)
    assert_eq!(commands[2], DrawCommand::Rect(Region { o: p(20, 0), w: 50, h: 50 }));
    assert_eq!(commands[8], DrawCommand::Rect(Region { o: p(80, 0), w: 50, h: 50 }));
    assert_eq!(commands[26], DrawCommand::Rect(Region { o: p(260, 0), w: 50, h: 50 }));
    assert_eq!(commands[34], DrawCommand::Rect(Region { o: p(10, 70), w: 40, h: 28 }));
    // three paddings right of the roll button's width, at its bottom edge
    assert_eq!(commands[38], DrawCommand::FillText("Rolls left: 3".to_string(), p(70, 98)));
    assert_eq!(commands[43], DrawCommand::Rect(Region { o: p(10, 108), w: 70, h: 28 }));
    assert_eq!(commands[44], DrawCommand::FillText("Start Over".to_string(), p(15, 122)));
    let mut at = window();
    assert_eq!(game.draw_at(5, 7, &mut at, 30, 60), Ok(()));
    assert_eq!(at.commands()[1], DrawCommand::Rect(Region { o: p(25, 7), w: 50, h: 50 }));
}

#[test]
fn a_context_holds_the_values() {
    let c = Context::new();
    assert_eq!(c.values.canvas_size, (640, 480));
    assert_eq!(c.values.padding, 10);
}

/// A roller that goes round the faces in order, from one.
struct Round(i64);

impl Roller for Round {
    fn pick(&mut self, low: i64, high: i64) -> i64 {
        let picked = low + self.0 % (high - low);
        self.0 += 1;
        picked
    }
}

fn pips<R: Roller>(game: &Game<R>) -> Vec<u8> {
    game.get_hand().iter().map(|d| d.value.value()).collect()
}

#[test]
fn classic_dice_are_rolled_with_the_roller_given() {
    let mut game = Game::with_roller(Round(0));
    assert_eq!(pips(&game), vec![1, 2, 3, 4, 5]);
    game.handle_click(75, 5, 30);
    game.handle_click(20, 80, 30);
    assert_eq!(pips(&game), vec![6, 2, 1, 2, 3]);
    let six = RollResult::Six;
    game.click_to(20, 80, 30, [six, six, six, six, six]);
    assert_eq!(pips(&game), vec![6, 2, 6, 6, 6]);
    game.click_to(10, 50, 30, [six, six, six, six, six]);
    assert!(game.get_hand()[0].held);
    game.roll_dice_to([RollResult::One; 5]);
    assert_eq!(pips(&game), vec![6, 2, 1, 1, 1]);
    let mut die = Die::new(RollResult::One);
    die.roll_to(RollResult::Three);
    assert_eq!(die.value, RollResult::Three);
}

#[test]
fn a_classic_random_result_is_the_face_that_the_roller_picks() {
    let mut roller = Round(3);
    assert_eq!(Die::get_random_result(&mut roller), RollResult::Four);
    assert_eq!(Die::get_random_result(&mut roller), RollResult::Five);
    assert_eq!(roller.0, 5);
}

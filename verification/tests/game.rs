use five_dice::error::WindowError;
use five_dice::game::{
    Die, FiveDiceMessage, Game, Hand, Player, RollResult, Score, ScoreSlot, ScoreType, DIE_DIMENSION,
    HAND_SIZE, ROLLS_PER_HAND, SCORE_SLOTS,
};
use five_dice::random::Roller;
use five_dice::traits::Widget;
use five_dice::types::{Point, Region, Values};
use five_dice::window::{DrawCommand, Window, WindowEngine};
use five_dice::yahtzee;

fn p(x: i64, y: i64) -> Point {
    Point { x, y }
}

/// A roller that goes round the faces in order, from one.
struct Round(i64);

impl Roller for Round {
    fn pick(&mut self, low: i64, high: i64) -> i64 {
        let picked = low + self.0 % (high - low);
        self.0 += 1;
        picked
    }
}

fn faces(pips: [i64; 5]) -> [RollResult; 5] {
    [
        RollResult::from_roll(pips[0]),
        RollResult::from_roll(pips[1]),
        RollResult::from_roll(pips[2]),
        RollResult::from_roll(pips[3]),
        RollResult::from_roll(pips[4]),
    ]
}

fn pips<R: Roller>(game: &Game<R>) -> Vec<u8> {
    game.get_hand().dice.iter().map(|d| d.value.value()).collect()
}

/// A window in which every text of the game is measured.
fn window_for<R: Roller>(game: &Game<R>) -> Window {
    let mut w = Window::new(Values::default());
    for text in game.mount_widget(p(0, 0)).texts() {
        w.measure(&text, 60);
    }
    w.measure("Roll!", 600);
    w
}

#[test]
fn faces_have_pips_and_names() {
    assert_eq!(RollResult::from_roll(1), RollResult::One);
    assert_eq!(RollResult::from_roll(2), RollResult::Two);
    assert_eq!(RollResult::from_roll(3), RollResult::Three);
    assert_eq!(RollResult::from_roll(4), RollResult::Four);
    assert_eq!(RollResult::from_roll(5), RollResult::Five);
    assert_eq!(RollResult::from_roll(6), RollResult::Six);
    assert_eq!(RollResult::Four.value(), 4);
    assert_eq!(RollResult::Six.to_string(), "Six");
    assert_eq!(RollResult::One.to_string(), "One");
    assert_eq!(RollResult::try_from_roll(0), None);
    assert_eq!(RollResult::try_from_roll(7), None);
    assert_eq!(RollResult::try_from_roll(3), Some(RollResult::Three));
}

#[test]
fn a_held_die_is_not_rolled() {
    let mut rng = rand::thread_rng();
    let mut die = Die::new(2, RollResult::Three);
    assert_eq!(die, Die { id: 2, value: RollResult::Three, held: false });
    die.toggle_held();
    assert!(die.held);
    for _ in 0..50 {
        die.roll(&mut rng);
        assert_eq!(die, Die { id: 2, value: RollResult::Three, held: true });
    }
    die.toggle_held();
    assert!(!die.held);
    let mut seen = [false; 6];
    for _ in 0..500 {
        die.roll(&mut rng);
        assert_eq!(die.id, 2);
        assert!(!die.held);
        seen[(die.value.value() - 1) as usize] = true;
    }
    // every face comes up in five hundred rolls
    assert_eq!(seen, [true; 6]);
    let random = Die::get_random(4, &mut rng);
    assert_eq!(random.id, 4);
    assert!(!random.held);
    let face = Die::get_random_result(&mut rng);
    assert!(1 <= face.value() && face.value() <= 6);
}

#[test]
fn a_hand_has_three_rolls() {
    let mut rng = rand::thread_rng();
    let mut hand = Hand::new(&mut rng);
    assert_eq!(hand.remaining_rolls, ROLLS_PER_HAND);
    assert_eq!(hand.dice.len(), HAND_SIZE);
    for (i, die) in hand.dice.iter().enumerate() {
        assert_eq!(die.id as usize, i);
        assert!(!die.held);
    }
    hand.dice[1].toggle_held();
    let kept = hand.dice[1];
    hand.roll(&mut rng);
    assert_eq!(hand.remaining_rolls, 2);
    assert_eq!(hand.dice[1], kept);
    hand.roll(&mut rng);
    hand.roll(&mut rng);
    assert_eq!(hand.remaining_rolls, 0);
    // without rolls left nothing changes
    let before = hand.dice;
    hand.roll(&mut rng);
    assert_eq!(hand.remaining_rolls, 0);
    assert_eq!(hand.dice, before);
}

#[test]
fn score_types_and_slots_as_text() {
    assert_eq!(ScoreType::Ones(0).to_string(), "Ones(0)");
    assert_eq!(ScoreType::Sixes(30).to_string(), "Sixes(30)");
    assert_eq!(ScoreType::ThreeKind.to_string(), "ThreeKind");
    assert_eq!(ScoreType::AllFiveBonus(100).to_string(), "AllFiveBonus(100)");
    assert_eq!(ScoreType::StoneSoup(7).to_string(), "StoneSoup(7)");
    let slot = ScoreSlot::new(ScoreType::Twos(0));
    assert_eq!(slot, ScoreSlot { taken: false, value: ScoreType::Twos(0) });
    assert_eq!(slot.to_string(), "ScoreSlot { taken: false, value: Twos(0) }");
    let taken = ScoreSlot { taken: true, value: ScoreType::LgStraight };
    assert_eq!(taken.to_string(), "ScoreSlot { taken: true, value: LgStraight }");
}

#[test]
fn a_blank_score_has_every_option_once() {
    let score = Score::new();
    assert_eq!(score.len(), SCORE_SLOTS);
    assert_eq!(score.len(), 14);
    assert_eq!(score.slot(0), ScoreSlot::new(ScoreType::Ones(0)));
    assert_eq!(score.slot(5), ScoreSlot::new(ScoreType::Sixes(0)));
    assert_eq!(score.slot(6), ScoreSlot::new(ScoreType::ThreeKind));
    assert_eq!(score.slot(11), ScoreSlot::new(ScoreType::AllFive));
    assert_eq!(score.slot(13), ScoreSlot::new(ScoreType::StoneSoup(0)));
    for i in 0..score.len() {
        assert!(!score.slot(i).taken);
        for j in 0..i {
            assert_ne!(score.slot(i), score.slot(j));
        }
        assert!(score.contains(score.slot(i)));
    }
    assert!(!score.contains(ScoreSlot::new(ScoreType::Ones(1))));
    assert!(!score.contains(ScoreSlot { taken: true, value: ScoreType::Ones(0) }));
    let copy = score.clone();
    assert_eq!(copy.len(), 14);
    assert_eq!(copy.slot(3), score.slot(3));
    assert_eq!(Score::default().slot(12), ScoreSlot::new(ScoreType::AllFiveBonus(0)));
}

#[test]
fn a_score_slot_is_shown_as_text() {
    let mut w = Window::new(Values::default());
    let mut slot = ScoreSlot::new(ScoreType::Fives(0));
    let label = "ScoreSlot { taken: false, value: Fives(0) }";
    let mounted = slot.mount_widget(p(1, 2));
    assert_eq!(mounted.texts(), vec![label.to_string()]);
    w.measure(label, 200);
    assert_eq!(mounted.get_region(&w), Ok(Region { o: p(1, 2), w: 200, h: 16 }));
    assert_eq!(slot.handle_click(p(1, 2), p(3, 3), &w), Ok(None));
}

#[test]
fn a_score_shows_its_slots_one_below_the_other() {
    let mut score = Score::new();
    let mounted = score.mount_widget(p(0, 0));
    assert_eq!(mounted.to_string(), "Mounted Widget: 15 rows of children, not drawable");
    let texts = mounted.texts();
    assert_eq!(texts.len(), 14);
    assert_eq!(texts[0], "ScoreSlot { taken: false, value: Ones(0) }");
    assert_eq!(texts[13], "ScoreSlot { taken: false, value: StoneSoup(0) }");
    let w = Window::new(Values::default());
    assert_eq!(score.handle_click(p(0, 0), p(1, 1), &w), Ok(None));
}

#[test]
fn a_die_is_a_square_button_that_reports_a_hold() {
    let mut w = Window::new(Values::default());
    let mut die = Die::new(3, RollResult::Five);
    let mounted = die.mount_widget(p(10, 20));
    assert_eq!(mounted.texts(), vec!["Five".to_string()]);
    assert_eq!(
        mounted.get_region(&w),
        Ok(Region { o: p(10, 20), w: DIE_DIMENSION, h: DIE_DIMENSION })
    );
    assert_eq!(mounted.click(p(10, 20), &w), Ok(Some(FiveDiceMessage::HoldDie(3))));
    assert_eq!(mounted.click(p(60, 70), &w), Ok(Some(FiveDiceMessage::HoldDie(3))));
    assert_eq!(mounted.click(p(61, 70), &w), Ok(None));
    assert_eq!(die.handle_click(p(0, 0), p(5, 5), &w), Ok(Some(FiveDiceMessage::HoldDie(3))));
    assert_eq!(die.handle_click(p(0, 0), p(55, 5), &w), Ok(None));
    // black while free, red while held
    assert_eq!(mounted.draw(&mut w), Ok(p(60, 70)));
    assert_eq!(
        w.commands()[1],
        DrawCommand::SetColor(five_dice::types::Color::new(0, 0, 0))
    );
    assert_eq!(w.commands()[4], DrawCommand::FillText("Five".to_string(), p(15, 40)));
    die.toggle_held();
    w.clear();
    assert_eq!(die.mount_widget(p(10, 20)).draw(&mut w), Ok(p(60, 70)));
    assert_eq!(
        w.commands()[1],
        DrawCommand::SetColor(five_dice::types::Color::new(255, 0, 0))
    );
}

#[test]
fn a_hand_shows_dice_button_and_rolls_left() {
    let mut rng = rand::thread_rng();
    let mut hand = Hand::new(&mut rng);
    let mounted = hand.mount_widget(p(0, 0));
    let texts = mounted.texts();
    assert_eq!(texts.len(), 7);
    for i in 0..HAND_SIZE {
        assert_eq!(texts[i], hand.dice[i].value.to_string());
    }
    assert_eq!(texts[5], "Roll!");
    assert_eq!(texts[6], "Remaining rolls: 3");
    assert_eq!(mounted.to_string(), "Mounted Widget: 2 rows of children, not drawable");
    let mut w = Window::new(Values::default());
    w.measure("Roll!", 30);
    w.measure("Remaining rolls: 3", 100);
    // the dice stand a padding apart
    assert_eq!(hand.handle_click(p(0, 0), p(5, 5), &w), Ok(Some(FiveDiceMessage::HoldDie(0))));
    assert_eq!(hand.handle_click(p(0, 0), p(65, 5), &w), Ok(Some(FiveDiceMessage::HoldDie(1))));
    assert_eq!(hand.handle_click(p(0, 0), p(245, 5), &w), Ok(Some(FiveDiceMessage::HoldDie(4))));
    assert_eq!(hand.handle_click(p(0, 0), p(55, 5), &w), Ok(None));
    // the dice are not changed by handling a click
    assert!(hand.dice.iter().all(|d| !d.held));
}

#[test]
fn a_new_game() {
    let game = Game::new();
    assert_eq!(game.get_score().len(), 14);
    let hand = game.get_hand();
    assert_eq!(hand.remaining_rolls, 3);
    assert!(hand.dice.iter().all(|d| !d.held));
    let mounted = game.mount_widget(p(0, 0));
    assert_eq!(mounted.to_string(), "Mounted Widget: 3 rows of children, not drawable");
    let texts = mounted.texts();
    assert_eq!(texts.len(), 1 + 7 + 14);
    assert_eq!(texts[0], "Start Over");
}

#[test]
fn the_reducer_takes_each_message() {
    let mut game = Game::new();
    game.reducer(FiveDiceMessage::HoldDie(2));
    assert!(game.get_hand().dice[2].held);
    assert!(!game.get_hand().dice[1].held);
    let held = game.get_hand().dice[2];
    game.reducer(FiveDiceMessage::RollDice);
    assert_eq!(game.get_hand().remaining_rolls, 2);
    assert_eq!(game.get_hand().dice[2], held);
    // no such die: nothing changes
    let before = game.get_hand();
    game.reducer(FiveDiceMessage::HoldDie(HAND_SIZE));
    assert_eq!(game.get_hand().dice, before.dice);
    assert_eq!(game.get_hand().remaining_rolls, 2);
    game.reducer(FiveDiceMessage::HoldDie(2));
    assert!(!game.get_hand().dice[2].held);
    game.hold_die(0);
    game.roll_dice();
    assert_eq!(game.get_hand().remaining_rolls, 1);
    game.reducer(FiveDiceMessage::StartOver);
    assert_eq!(game.get_hand().remaining_rolls, 3);
    assert!(game.get_hand().dice.iter().all(|d| !d.held));
    assert_eq!(game.get_score().len(), 14);
    game.hold_die(4);
    game.reset();
    assert!(!game.get_hand().dice[4].held);
}

#[test]
fn a_click_on_a_die_holds_it() {
    let mut game = Game::new();
    let w = window_for(&game);
    // the second die stands at x from 70 to 120; nothing is passed up
    assert_eq!(game.handle_click(p(0, 0), p(75, 5), &w), Ok(None));
    let dice = game.get_hand().dice;
    assert!(dice[1].held);
    assert!(!dice[0].held && !dice[2].held && !dice[3].held && !dice[4].held);
    assert_eq!(game.get_hand().remaining_rolls, 3);
    assert_eq!(game.handle_click(p(0, 0), p(75, 5), &w), Ok(None));
    assert!(!game.get_hand().dice[1].held);
}

#[test]
fn a_click_on_the_roll_button_rolls() {
    let mut game = Game::new();
    let w = window_for(&game);
    game.hold_die(3);
    let kept = game.get_hand().dice[3];
    // between the second and the third die, on the wide roll button
    assert_eq!(game.handle_click(p(0, 0), p(125, 5), &w), Ok(None));
    assert_eq!(game.get_hand().remaining_rolls, 2);
    assert_eq!(game.get_hand().dice[3], kept);
}

#[test]
fn a_click_on_start_over_starts_over() {
    let mut game = Game::new();
    let w = window_for(&game);
    game.hold_die(0);
    game.roll_dice();
    assert_eq!(game.handle_click(p(0, 0), p(5, 5), &w), Ok(None));
    assert_eq!(game.get_hand().remaining_rolls, 3);
    assert!(!game.get_hand().dice[0].held);
}

#[test]
fn a_click_on_nothing_changes_nothing() {
    let mut game = Game::new();
    let w = window_for(&game);
    let before = game.get_hand();
    assert_eq!(game.handle_click(p(0, 0), p(700, 500), &w), Ok(None));
    assert_eq!(game.get_hand().dice, before.dice);
    assert_eq!(game.get_hand().remaining_rolls, 3);
}

#[test]
fn a_click_fails_on_an_unmeasured_text() {
    let mut game = Game::new();
    let w = Window::new(Values::default());
    let before = game.get_hand();
    assert_eq!(game.handle_click(p(0, 0), p(75, 5), &w), Err(WindowError::Text));
    assert_eq!(game.get_hand().dice, before.dice);
}

#[test]
fn the_engine_resolves_clicks_then_draws() {
    let game = Game::new();
    let w = window_for(&game);
    let mut engine = WindowEngine::new(w, game);
    assert_eq!(engine.texts().len(), 22);
    assert_eq!(engine.draw(vec![p(75, 5), p(135, 5)]), Ok(()));
    let commands = engine.window_mut().commands().clone();
    assert_eq!(commands[0], DrawCommand::Blank);
    // the start over button comes first, at the top left corner
    assert_eq!(
        commands[3],
        DrawCommand::Rect(Region { o: p(0, 0), w: 70, h: 36 })
    );
    // start over, five dice and the roll button draw six steps each; the
    // fifteen texts four each
    assert_eq!(commands.len(), 1 + 7 * 6 + 15 * 4);
    // the held dice are drawn in red
    let reds = commands
        .iter()
        .filter(|c| **c == DrawCommand::SetColor(five_dice::types::Color::new(255, 0, 0)))
        .count();
    assert_eq!(reds, 2);
}

#[test]
fn the_engine_stops_at_the_first_error() {
    let game = Game::new();
    let mut engine = WindowEngine::new(Window::new(Values::default()), game);
    assert_eq!(engine.draw(vec![p(75, 5)]), Err(WindowError::Text));
    assert!(engine.window_mut().commands().is_empty());
    assert_eq!(engine.resolve(&vec![]), Ok(()));
    // an error in the drawing is returned by paint, and not passed on by draw
    assert_eq!(engine.paint(), Err(WindowError::Text));
    engine.window_mut().clear();
    assert_eq!(engine.draw(vec![]), Ok(()));
    assert_eq!(engine.window_mut().commands()[0], DrawCommand::Blank);
}

#[test]
fn a_player_starts_with_a_hand() {
    let mut rng = rand::thread_rng();
    let player = Player::new(&mut rng);
    assert_eq!(player.get_hand().remaining_rolls, 3);
}

#[test]
fn one_roll_of_one_die() {
    let mut seen = [false; 6];
    for _ in 0..500 {
        let face = yahtzee::roll_die(rand::thread_rng());
        seen[(face.value() - 1) as usize] = true;
    }
    assert_eq!(seen, [true; 6]);
    let player = yahtzee::Player::new();
    assert_eq!(player.score, yahtzee::Score::default());
    assert_eq!(player.score.ones, None);
    assert!(!player.score.yahtzee);
    assert_eq!(yahtzee::Score::new().chance, None);
}

#[test]
fn dice_are_rolled_with_the_roller_given() {
    let mut game = Game::with_roller(Round(0));
    assert_eq!(pips(&game), vec![1, 2, 3, 4, 5]);
    game.hold_die(1);
    game.hold_die(3);
    // only the free dice take a number from the roller
    game.roll_dice();
    assert_eq!(pips(&game), vec![6, 2, 1, 4, 2]);
    assert_eq!(game.get_hand().remaining_rolls, 2);
    game.reset();
    assert_eq!(pips(&game), vec![3, 4, 5, 6, 1]);
    let mut die = Die::new(0, RollResult::One);
    die.roll(&mut Round(4));
    assert_eq!(die.value, RollResult::Five);
    assert_eq!(Die::get_random(7, &mut Round(2)), Die::new(7, RollResult::Three));
}

#[test]
fn steps_with_the_faces_that_came_up() {
    let mut game = Game::with_roller(Round(0));
    game.step(FiveDiceMessage::HoldDie(0), faces([6, 6, 6, 6, 6]));
    assert_eq!(pips(&game), vec![1, 2, 3, 4, 5]);
    assert!(game.get_hand().dice[0].held);
    game.step(FiveDiceMessage::RollDice, faces([6, 5, 4, 3, 2]));
    assert_eq!(pips(&game), vec![1, 5, 4, 3, 2]);
    assert_eq!(game.get_hand().remaining_rolls, 2);
    game.step(FiveDiceMessage::RollDice, faces([2, 2, 2, 2, 2]));
    game.step(FiveDiceMessage::RollDice, faces([3, 3, 3, 3, 3]));
    assert_eq!(pips(&game), vec![1, 3, 3, 3, 3]);
    assert_eq!(game.get_hand().remaining_rolls, 0);
    // no rolls left
    game.step(FiveDiceMessage::RollDice, faces([4, 4, 4, 4, 4]));
    assert_eq!(pips(&game), vec![1, 3, 3, 3, 3]);
    game.step(FiveDiceMessage::StartOver, faces([6, 1, 6, 1, 6]));
    assert_eq!(pips(&game), vec![6, 1, 6, 1, 6]);
    assert_eq!(game.get_hand().remaining_rolls, 3);
    assert!(game.get_hand().dice.iter().all(|d| !d.held));
    assert_eq!(
        game.get_hand().dice.iter().map(|d| d.id).collect::<Vec<u8>>(),
        vec![0, 1, 2, 3, 4]
    );
}

#[test]
fn clicks_with_the_faces_that_came_up() {
    let mut game = Game::with_roller(Round(0));
    let w = window_for(&game);
    // on the second die
    assert_eq!(game.click_to(p(0, 0), p(75, 5), &w, faces([6, 6, 6, 6, 6])), Ok(None));
    assert!(game.get_hand().dice[1].held);
    assert_eq!(pips(&game), vec![1, 2, 3, 4, 5]);
    // on the roll button
    assert_eq!(game.click_to(p(0, 0), p(125, 5), &w, faces([6, 6, 6, 6, 6])), Ok(None));
    assert_eq!(pips(&game), vec![6, 2, 6, 6, 6]);
    // the roll changed what the game shows: the old measures no longer do
    assert_eq!(
        game.click_to(p(0, 0), p(700, 500), &w, faces([1, 1, 1, 1, 1])),
        Err(WindowError::Text)
    );
    let w = window_for(&game);
    // on nothing
    assert_eq!(game.click_to(p(0, 0), p(700, 500), &w, faces([1, 1, 1, 1, 1])), Ok(None));
    assert_eq!(pips(&game), vec![6, 2, 6, 6, 6]);
    // on start over
    assert_eq!(game.click_to(p(0, 0), p(5, 5), &w, faces([1, 1, 1, 1, 1])), Ok(None));
    assert_eq!(pips(&game), vec![1, 1, 1, 1, 1]);
    let unmeasured = Window::new(Values::default());
    assert_eq!(
        game.click_to(p(0, 0), p(5, 5), &unmeasured, faces([2, 2, 2, 2, 2])),
        Err(WindowError::Text)
    );
    assert_eq!(pips(&game), vec![1, 1, 1, 1, 1]);
}

#[test]
fn hands_and_dice_take_the_faces_given() {
    let mut hand = Hand::fresh(faces([2, 3, 4, 5, 6]));
    assert_eq!(hand.remaining_rolls, 3);
    assert_eq!(hand.dice[4], Die { id: 4, value: RollResult::Six, held: false });
    hand.dice[2].toggle_held();
    hand.roll_to(faces([1, 1, 1, 1, 1]));
    assert_eq!(
        hand.dice.iter().map(|d| d.value.value()).collect::<Vec<u8>>(),
        vec![1, 1, 4, 1, 1]
    );
    assert_eq!(hand.remaining_rolls, 2);
    let mut die = Die::new(0, RollResult::One);
    die.roll_to(RollResult::Four);
    assert_eq!(die.value, RollResult::Four);
    die.toggle_held();
    die.roll_to(RollResult::Two);
    assert_eq!(die.value, RollResult::Four);
}

#[test]
fn the_engine_hands_out_its_parts() {
    let game = Game::with_roller(Round(0));
    let w = window_for(&game);
    let mut engine = WindowEngine::new(w, game);
    {
        let (game, window) = engine.parts();
        assert_eq!(game.click_to(p(0, 0), p(75, 5), window, faces([1, 1, 1, 1, 1])), Ok(None));
    }
    assert_eq!(engine.draw(vec![]), Ok(()));
    let reds = engine
        .window_mut()
        .commands()
        .iter()
        .filter(|c| **c == DrawCommand::SetColor(five_dice::types::Color::new(255, 0, 0)))
        .count();
    assert_eq!(reds, 1);
}

#[test]
fn a_random_result_is_the_face_that_the_roller_picks() {
    let mut roller = Round(0);
    let seen: Vec<u8> = (0..7).map(|_| Die::get_random_result(&mut roller).value()).collect();
    assert_eq!(seen, vec![1, 2, 3, 4, 5, 6, 1]);
    assert_eq!(roller.0, 7);
}

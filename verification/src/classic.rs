//! The game on a fixed layout: five dice in a row, the roll button below
//! them, and the button that starts over below that. Clicks are resolved
//! against the boxes that the layout values give.

use vstd::prelude::*;
use rand::rngs::ThreadRng;
use crate::arith::{clamp, half, half_of, sat_add, sat_mul, sat_sub};
use crate::digits::{decimal, to_decimal};
use crate::error::WindowError;
use crate::game::{RollResult, HAND_SIZE};
use crate::random::{thread_rng, Roller};
use crate::types::{Color, Point, Region};
use crate::window::{DrawOp, Window};

verus! {

/// Layout values.
#[derive(Debug, Clone, Copy)]
pub struct Values {
    /// Total size of canvas (width, height).
    pub canvas_size: (u32, u32),
    /// Size of one die square.
    pub die_dimension: i64,
    /// Padding value used all over the place.
    pub padding: i64,
    /// What the roll dice button says.
    pub reroll_button_text: &'static str,
    /// What color to use for button border.
    pub button_color: Color,
    /// What font to use for buttons.
    pub button_font: &'static str,
    /// What size font on buttons.
    pub button_font_size: u8,
}

/// A box on the canvas, by its top left and its bottom right corner, each as
/// (x, y).
pub type Corners = ((i64, i64), (i64, i64));

impl Values {
    /// The height of a button: the font size, the padding and two more.
    pub open spec fn button_height(self) -> i64 {
        clamp(self.button_font_size + clamp(self.padding + 2))
    }

    /// The top left corner of the hand display.
    pub open spec fn dice_start(self) -> (i64, i64) {
        (self.padding, 0)
    }

    /// The box of the roll button, for a text of the given width: one padding
    /// from the left edge and two paddings below the dice; as wide as the
    /// text and a padding, and as high as a button.
    pub open spec fn reroll_button(self, text_width: i64) -> Corners {
        let top_left = (
            self.padding,
            clamp(clamp(self.dice_start().1 + self.die_dimension) + clamp(self.padding * 2)),
        );
        (
            top_left,
            (
                clamp(top_left.0 + clamp(text_width + self.padding)),
                clamp(top_left.1 + self.button_height()),
            ),
        )
    }

    /// The box of the button that starts over, for texts of the given widths:
    /// one padding below the roll button.
    pub open spec fn start_over_button(self, reroll_width: i64, text_width: i64) -> Corners {
        let top_left = (
            self.padding,
            clamp((self.reroll_button(reroll_width).1).1 + self.padding),
        );
        (
            top_left,
            (
                clamp(clamp(top_left.0 + text_width) + self.padding),
                clamp(top_left.1 + self.button_height()),
            ),
        )
    }

    /// The box of die `i`: the dice stand side by side from the start of the
    /// hand display, a padding apart.
    pub open spec fn die_box(self, i: int) -> Corners {
        let step = clamp(clamp(self.die_dimension + self.padding) * i);
        (
            (clamp(self.dice_start().0 + step), self.dice_start().1),
            (
                clamp(clamp(self.dice_start().0 + self.die_dimension) + step),
                clamp(self.dice_start().1 + self.die_dimension),
            ),
        )
    }

    /// The values that a game starts with.
    pub open spec fn standard(self) -> bool {
        &&& self.canvas_size == (640u32, 480u32)
        &&& self.die_dimension == 50
        &&& self.padding == 10
        &&& self.reroll_button_text@ == "Roll!"@
        &&& self.button_color == Color { r: 0, g: 0, b: 0 }
        &&& self.button_font@ == "Arial"@
        &&& self.button_font_size == 16
    }

    pub fn new() -> (v: Values)
        ensures
            v.standard(),
    {
        Values::default()
    }

    /// Get button height.
    pub fn get_button_height(&self) -> (h: i64)
        ensures
            h == self.button_height(),
    {
        sat_add(self.button_font_size as i64, sat_add(self.padding, 2))
    }

    /// Put the font size and the font together.
    pub fn get_font_string(&self) -> (s: String)
        ensures
            s@ == decimal(self.button_font_size as nat) + "px "@ + self.button_font@,
    {
        let mut s = to_decimal(self.button_font_size as u64);
        s.append("px ");
        s.append(self.button_font);
        s
    }

    /// Get top left corner of hand display.
    pub fn dice_origin(&self) -> (p: (i64, i64))
        ensures
            p == self.dice_start(),
    {
        (self.padding, 0)
    }

    /// Get the corners of the reroll dice button (topleft, bottomright), both
    /// as (x, y), for the measured width of its text.
    pub fn reroll_button_corners(&self, text_width: i64) -> (c: Corners)
        ensures
            c == self.reroll_button(text_width),
    {
        let button_width = sat_add(text_width, self.padding);
        let button_height = self.get_button_height();
        let top_left = (
            self.padding,
            sat_add(sat_add(self.dice_origin().1, self.die_dimension), sat_mul(self.padding, 2)),
        );
        let bottom_right = (sat_add(top_left.0, button_width), sat_add(top_left.1, button_height));
        (top_left, bottom_right)
    }

    /// Get the corners of the start over button, for the measured widths of
    /// the roll button's text and of its own.
    pub fn start_over_button_corners(&self, reroll_width: i64, text_width: i64) -> (c: Corners)
        ensures
            c == self.start_over_button(reroll_width, text_width),
    {
        let top_left = (
            self.padding,
            sat_add((self.reroll_button_corners(reroll_width).1).1, self.padding),
        );
        let bottom_right = (
            sat_add(sat_add(top_left.0, text_width), self.padding),
            sat_add(top_left.1, self.get_button_height()),
        );
        (top_left, bottom_right)
    }
}

impl Default for Values {
    fn default() -> (v: Values)
        ensures
            v.standard(),
    {
        Values {
            canvas_size: (640, 480),
            die_dimension: 50,
            padding: 10,
            reroll_button_text: "Roll!",
            button_color: Color::new(0, 0, 0),
            button_font: "Arial",
            button_font_size: 16,
        }
    }
}

/// The context that is passed around: the layout values.
#[derive(Debug)]
pub struct Context {
    pub values: Values,
}

impl Context {
    pub fn new() -> (c: Context)
        ensures
            c.values.standard(),
    {
        Context { values: Values::new() }
    }
}

/// A single player's score object.
#[derive(Debug, Clone, Copy, PartialEq, Eq, Structural)]
pub struct Score {
    pub ones: Option<u8>,
    pub twos: Option<u8>,
    pub threes: Option<u8>,
    pub fours: Option<u8>,
    pub fives: Option<u8>,
    pub sixes: Option<u8>,
    pub three_kind: bool,
    pub four_kind: bool,
    pub two_and_three: bool,
    pub sm_straight: bool,
    pub lg_straight: bool,
    pub five_dice: bool,
    pub five_dice_again: Option<u8>,
    pub stone_soup: Option<u8>,
}

impl Score {
    /// The score with nothing scored.
    pub open spec fn blank() -> Score {
        Score {
            ones: None,
            twos: None,
            threes: None,
            fours: None,
            fives: None,
            sixes: None,
            three_kind: false,
            four_kind: false,
            two_and_three: false,
            sm_straight: false,
            lg_straight: false,
            five_dice: false,
            five_dice_again: None,
            stone_soup: None,
        }
    }

    pub fn new() -> (s: Score)
        ensures
            s == Score::blank(),
    {
        Score::default()
    }
}

impl Default for Score {
    fn default() -> (s: Score)
        ensures
            s == Score::blank(),
    {
        Score {
            ones: None,
            twos: None,
            threes: None,
            fours: None,
            fives: None,
            sixes: None,
            three_kind: false,
            four_kind: false,
            two_and_three: false,
            sm_straight: false,
            lg_straight: false,
            five_dice: false,
            five_dice_again: None,
            stone_soup: None,
        }
    }
}

/// A single Die, can be held or not.
#[derive(Debug, Clone, Copy, PartialEq, Eq, Structural)]
pub struct Die {
    pub value: RollResult,
    pub held: bool,
}

impl Die {
    /// This die after a roll that came up `face`: a held die stays as it is.
    pub open spec fn rolled(self, face: RollResult) -> Die {
        if self.held {
            self
        } else {
            Die { value: face, ..self }
        }
    }

    /// This die with its hold turned over.
    pub open spec fn toggled(self) -> Die {
        Die { held: !self.held, ..self }
    }

    pub fn new(value: RollResult) -> (d: Die)
        ensures
            d == (Die { value, held: false }),
    {
        Die { value, held: false }
    }

    /// Get a random die.
    pub fn get_random<R: Roller>(rng: &mut R) -> (d: Die)
        ensures
            !d.held,
    {
        Die::new(Die::get_random_result(rng))
    }

    /// Get a random result: the face with as many pips as the roller picks
    /// from 1 to 6.
    pub fn get_random_result<R: Roller>(rng: &mut R) -> (r: RollResult)
        ensures
            old(rng).picks(final(rng), 1, 7, r.pips() as i64),
    {
        RollResult::from_roll(rng.pick(1, 7))
    }

    /// Roll this die - no action if currently held.
    pub fn roll<R: Roller>(&mut self, rng: &mut R)
        ensures
            exists|face: RollResult| *final(self) == old(self).rolled(face),
    {
        if !self.held {
            self.value = Die::get_random_result(rng);
            assert(*self == old(self).rolled(self.value));
        } else {
        }
    }

    /// Roll this die to the face that came up - no action if currently held.
    pub fn roll_to(&mut self, face: RollResult)
        ensures
            *final(self) == old(self).rolled(face),
    {
        if !self.held {
            self.value = face;
        }
    }

    /// Toggles whether this die is held.
    pub fn toggle_held(&mut self)
        ensures
            *final(self) == old(self).toggled(),
    {
        self.held = !self.held;
    }
}

/// All the various ways the game can be interacted with.
#[derive(Debug, Clone, Copy, PartialEq, Eq, Structural)]
pub enum Message {
    HoldDie(usize),
    RollDice,
}

/// Whether the point (x, y) falls in the box between two corners, the edges
/// included.
pub open spec fn in_box(x: i64, y: i64, corners: Corners) -> bool {
    (corners.0).0 <= x <= (corners.1).0 && (corners.0).1 <= y <= (corners.1).1
}

/// The dice after a hold of die `idx`; unchanged where there is no such die.
pub open spec fn held(dice: Seq<Die>, idx: int) -> Seq<Die> {
    if 0 <= idx < dice.len() {
        dice.update(idx, dice[idx].toggled())
    } else {
        dice
    }
}

/// The dice after a roll that came up `faces`: every die that is not held
/// takes its new face.
pub open spec fn rolled(dice: Seq<Die>, faces: Seq<RollResult>) -> Seq<Die> {
    Seq::new(dice.len(), |i: int| dice[i].rolled(faces[i]))
}

/// The dice after `msg`.
pub open spec fn reduced(dice: Seq<Die>, msg: Message, faces: Seq<RollResult>) -> Seq<Die> {
    match msg {
        Message::HoldDie(idx) => held(dice, idx as int),
        Message::RollDice => rolled(dice, faces),
    }
}

/// The dice after the holds that a click at (x, y) asks for: the hold of
/// each of the first `n` dice whose box the click falls in is turned over.
pub open spec fn holds_clicked(dice: Seq<Die>, values: Values, x: i64, y: i64, n: nat) -> Seq<Die>
    decreases n,
{
    if n == 0 {
        dice
    } else {
        let before = holds_clicked(dice, values, x, y, (n - 1) as nat);
        if in_box(x, y, values.die_box(n - 1)) {
            held(before, n - 1)
        } else {
            before
        }
    }
}

/// The dice after a click at (x, y): first the holds that the click asks for,
/// then, if the click falls in the roll button, a roll that came up `faces`.
pub open spec fn clicked(
    dice: Seq<Die>,
    values: Values,
    x: i64,
    y: i64,
    text_width: i64,
    faces: Seq<RollResult>,
) -> Seq<Die> {
    let after_holds = holds_clicked(dice, values, x, y, HAND_SIZE as nat);
    if in_box(x, y, values.reroll_button(text_width)) {
        rolled(after_holds, faces)
    } else {
        after_holds
    }
}

/// A set of 5 dice for a single play.
#[derive(Debug, Clone, Copy)]
pub struct Hand {
    pub dice: [Die; HAND_SIZE],
    pub remaining_rolls: u8,
}

impl Hand {
    /// A hand of random dice, none held.
    pub fn new<R: Roller>(rng: &mut R) -> (h: Hand)
        ensures
            h.remaining_rolls == 3,
            forall|i: int| 0 <= i < HAND_SIZE ==> !(#[trigger] h.dice@[i]).held,
    {
        Hand {
            dice: [
                Die::get_random(rng),
                Die::get_random(rng),
                Die::get_random(rng),
                Die::get_random(rng),
                Die::get_random(rng),
            ],
            remaining_rolls: 3,
        }
    }
}

/// The Player object.
#[derive(Debug)]
pub struct Player {
    pub score: Score,
    pub current_hand: Hand,
}

impl Player {
    pub fn new<R: Roller>(rng: &mut R) -> (p: Player)
        ensures
            p.score == Score::blank(),
            p.current_hand.remaining_rolls == 3,
            forall|i: int| 0 <= i < HAND_SIZE ==> !(#[trigger] p.current_hand.dice@[i]).held,
    {
        Player { current_hand: Hand::new(rng), score: Score::new() }
    }
}

/// The Game object. It rolls its dice with the roller that it was made with.
#[derive(Debug)]
pub struct Game<R: Roller = ThreadRng> {
    player: Player,
    /// The layout constants to use.
    pub values: Values,
    rng: R,
}

impl<R: Roller> Game<R> {
    /// The dice in play.
    pub closed spec fn dice(&self) -> Seq<Die> {
        self.player.current_hand.dice@
    }

    /// The player's score.
    pub closed spec fn score(&self) -> Score {
        self.player.score
    }

    /// The layout constants in use.
    pub closed spec fn layout(&self) -> Values {
        self.values
    }

    /// A new game that rolls its dice with `rng`.
    pub fn with_roller(rng: R) -> (g: Game<R>)
        ensures
            g.layout().standard(),
            g.score() == Score::blank(),
            g.dice().len() == HAND_SIZE,
            forall|i: int| 0 <= i < HAND_SIZE ==> !(#[trigger] g.dice()[i]).held,
    {
        let mut rng = rng;
        let player = Player::new(&mut rng);
        Game { player, values: Values::new(), rng }
    }

    /// If the given coordinates fall in a given region.
    pub fn detect_region(
        &self,
        x: i64,
        y: i64,
        top_left_x: i64,
        top_left_y: i64,
        bottom_right_x: i64,
        bottom_right_y: i64,
    ) -> (b: bool)
        ensures
            b == in_box(x, y, ((top_left_x, top_left_y), (bottom_right_x, bottom_right_y))),
    {
        if x >= top_left_x && x <= bottom_right_x && y >= top_left_y && y <= bottom_right_y {
            true
        } else {
            false
        }
    }

    /// Handle a click at (click_x, click_y), given the measured width of the
    /// roll button's text.
    pub fn handle_click(&mut self, click_x: i64, click_y: i64, text_width: i64)
        ensures
            final(self).layout() == old(self).layout(),
            final(self).score() == old(self).score(),
            exists|faces: Seq<RollResult>|
                faces.len() == HAND_SIZE && final(self).dice() == #[trigger] clicked(
                    old(self).dice(),
                    old(self).layout(),
                    click_x,
                    click_y,
                    text_width,
                    faces,
                ),
    {
        // Check if it hit a die
        // grab relevant dimensions from the values struct
        let dice_dim = self.values.die_dimension;
        let dice_start_x = self.values.dice_origin().0;
        let dice_start_y = self.values.dice_origin().1;
        let dice_padding = sat_add(dice_dim, self.values.padding);
        // check if hit given is in each die's boundary
        let mut i: usize = 0;
        while i < HAND_SIZE
            invariant
                i <= HAND_SIZE,
                self.values == old(self).values,
                self.score() == old(self).score(),
                dice_dim == self.values.die_dimension,
                dice_start_x == self.values.dice_start().0,
                dice_start_y == self.values.dice_start().1,
                dice_padding == clamp(dice_dim + self.values.padding),
                self.dice() == holds_clicked(
                    old(self).dice(),
                    old(self).values,
                    click_x,
                    click_y,
                    i as nat,
                ),
            decreases HAND_SIZE - i,
        {
            let step = sat_mul(dice_padding, i as i64);
            let die_start_x = sat_add(dice_start_x, step);
            let die_end_x = sat_add(sat_add(dice_start_x, dice_dim), step);
            let die_end_y = sat_add(dice_start_y, dice_dim);
            if self.detect_region(
                click_x,
                click_y,
                die_start_x,
                dice_start_y,
                die_end_x,
                die_end_y,
            ) {
                self.reducer(Message::HoldDie(i));
            }
            i += 1;
        }

        // check if we hit the Roll button
        let roll_button_corners = self.values.reroll_button_corners(text_width);
        let top_left = roll_button_corners.0;
        let bottom_right = roll_button_corners.1;
        if self.detect_region(
            click_x,
            click_y,
            top_left.0,
            top_left.1,
            bottom_right.0,
            bottom_right.1,
        ) {
            let ghost before = self.dice();
            self.reducer(Message::RollDice);
            proof {
                let faces = choose|faces: Seq<RollResult>|
                    faces.len() == HAND_SIZE && self.dice() == reduced(
                        before,
                        Message::RollDice,
                        faces,
                    );
                assert(self.dice() == clicked(
                    old(self).dice(),
                    old(self).values,
                    click_x,
                    click_y,
                    text_width,
                    faces,
                ));
            }
        } else {
            proof {
                let faces = Seq::new(HAND_SIZE as nat, |i: int| RollResult::One);
                assert(self.dice() == clicked(
                    old(self).dice(),
                    old(self).values,
                    click_x,
                    click_y,
                    text_width,
                    faces,
                ));
            }
        }
    }

    /// Roll all unheld dice to the faces that came up.
    pub fn roll_dice_to(&mut self, faces: [RollResult; HAND_SIZE])
        ensures
            final(self).layout() == old(self).layout(),
            final(self).score() == old(self).score(),
            final(self).dice() == rolled(old(self).dice(), faces@),
    {
        let mut i: usize = 0;
        while i < HAND_SIZE
            invariant
                i <= HAND_SIZE,
                self.values == old(self).values,
                self.score() == old(self).score(),
                self.dice().len() == HAND_SIZE,
                forall|k: int|
                    0 <= k < i ==> self.dice()[k] == old(self).dice()[k].rolled(faces@[k]),
                forall|k: int| i <= k < HAND_SIZE ==> self.dice()[k] == old(self).dice()[k],
            decreases HAND_SIZE - i,
        {
            let mut die = self.player.current_hand.dice[i];
            die.roll_to(faces[i]);
            self.player.current_hand.dice[i] = die;
            i += 1;
        }
    }

    /// Handle a click at (click_x, click_y) with dice that come up `faces`
    /// where the click has them rolled, given the measured width of the roll
    /// button's text.
    pub fn click_to(
        &mut self,
        click_x: i64,
        click_y: i64,
        text_width: i64,
        faces: [RollResult; HAND_SIZE],
    )
        ensures
            final(self).layout() == old(self).layout(),
            final(self).score() == old(self).score(),
            final(self).dice() == clicked(
                old(self).dice(),
                old(self).layout(),
                click_x,
                click_y,
                text_width,
                faces@,
            ),
    {
        let dice_dim = self.values.die_dimension;
        let dice_start_x = self.values.dice_origin().0;
        let dice_start_y = self.values.dice_origin().1;
        let dice_padding = sat_add(dice_dim, self.values.padding);
        let mut i: usize = 0;
        while i < HAND_SIZE
            invariant
                i <= HAND_SIZE,
                self.values == old(self).values,
                self.score() == old(self).score(),
                dice_dim == self.values.die_dimension,
                dice_start_x == self.values.dice_start().0,
                dice_start_y == self.values.dice_start().1,
                dice_padding == clamp(dice_dim + self.values.padding),
                self.dice() == holds_clicked(
                    old(self).dice(),
                    old(self).values,
                    click_x,
                    click_y,
                    i as nat,
                ),
            decreases HAND_SIZE - i,
        {
            let step = sat_mul(dice_padding, i as i64);
            let die_start_x = sat_add(dice_start_x, step);
            let die_end_x = sat_add(sat_add(dice_start_x, dice_dim), step);
            let die_end_y = sat_add(dice_start_y, dice_dim);
            if self.detect_region(
                click_x,
                click_y,
                die_start_x,
                dice_start_y,
                die_end_x,
                die_end_y,
            ) {
                self.hold_die(i);
            }
            i += 1;
        }
        let roll_button_corners = self.values.reroll_button_corners(text_width);
        let top_left = roll_button_corners.0;
        let bottom_right = roll_button_corners.1;
        if self.detect_region(
            click_x,
            click_y,
            top_left.0,
            top_left.1,
            bottom_right.0,
            bottom_right.1,
        ) {
            self.roll_dice_to(faces);
        }
    }

    /// Return all the current dice in play.
    pub fn get_hand(&self) -> (dice: [Die; HAND_SIZE])
        ensures
            dice@ == self.dice(),
    {
        self.player.current_hand.dice
    }

    /// Toggle one die on the player.
    pub fn hold_die(&mut self, die_idx: usize)
        ensures
            final(self).layout() == old(self).layout(),
            final(self).score() == old(self).score(),
            final(self).dice() == held(old(self).dice(), die_idx as int),
    {
        if die_idx < HAND_SIZE {
            self.player.current_hand.dice[die_idx].toggle_held();
        }
    }

    /// Handle all incoming messages.
    pub fn reducer(&mut self, msg: Message)
        ensures
            final(self).layout() == old(self).layout(),
            final(self).score() == old(self).score(),
            exists|faces: Seq<RollResult>|
                faces.len() == HAND_SIZE && final(self).dice() == #[trigger] reduced(
                    old(self).dice(),
                    msg,
                    faces,
                ),
    {
        match msg {
            Message::HoldDie(idx) => {
                self.hold_die(idx);
                proof {
                    let faces = Seq::new(HAND_SIZE as nat, |i: int| RollResult::One);
                    assert(faces.len() == HAND_SIZE && self.dice() == reduced(
                        old(self).dice(),
                        msg,
                        faces,
                    ));
                }
            },
            Message::RollDice => {
                self.roll_dice();
                proof {
                    let faces = choose|faces: Seq<RollResult>|
                        faces.len() == HAND_SIZE && self.dice() == rolled(old(self).dice(), faces);
                    assert(faces.len() == HAND_SIZE && self.dice() == reduced(
                        old(self).dice(),
                        msg,
                        faces,
                    ));
                }
            },
        }
    }

    /// Roll all unheld dice.
    pub fn roll_dice(&mut self)
        ensures
            final(self).layout() == old(self).layout(),
            final(self).score() == old(self).score(),
            exists|faces: Seq<RollResult>|
                faces.len() == HAND_SIZE && final(self).dice() == #[trigger] rolled(
                    old(self).dice(),
                    faces,
                ),
    {
        let ghost mut faces: Seq<RollResult> = Seq::empty();
        let mut i: usize = 0;
        while i < HAND_SIZE
            invariant
                i <= HAND_SIZE,
                faces.len() == i,
                self.values == old(self).values,
                self.score() == old(self).score(),
                self.dice().len() == HAND_SIZE,
                forall|k: int| 0 <= k < i ==> self.dice()[k] == old(self).dice()[k].rolled(faces[k]),
                forall|k: int| i <= k < HAND_SIZE ==> self.dice()[k] == old(self).dice()[k],
            decreases HAND_SIZE - i,
        {
            let mut die = self.player.current_hand.dice[i];
            let ghost before = die;
            die.roll(&mut self.rng);
            proof {
                let face = choose|face: RollResult| die == before.rolled(face);
                faces = faces.push(face);
            }
            self.player.current_hand.dice[i] = die;
            i += 1;
        }
        proof {
            assert(self.dice() =~= rolled(old(self).dice(), faces));
        }
    }
}

impl Game<ThreadRng> {
    /// A new game that rolls its dice with the generator of the calling
    /// thread.
    pub fn new() -> (g: Game<ThreadRng>)
        ensures
            g.layout().standard(),
            g.score() == Score::blank(),
            g.dice().len() == HAND_SIZE,
            forall|i: int| 0 <= i < HAND_SIZE ==> !(#[trigger] g.dice()[i]).held,
    {
        Game::default()
    }
}

impl Default for Game<ThreadRng> {
    fn default() -> (g: Game<ThreadRng>)
        ensures
            g.layout().standard(),
            g.score() == Score::blank(),
            g.dice().len() == HAND_SIZE,
            forall|i: int| 0 <= i < HAND_SIZE ==> !(#[trigger] g.dice()[i]).held,
    {
        Game::with_roller(thread_rng())
    }
}

/// The steps that draw a button at (x, y), for the measured width of its
/// text: the outline, as wide as the text and a padding and as high as a
/// button, and the text, half a padding in and half the height down.
pub open spec fn button_ops(text: Seq<char>, x: i64, y: i64, text_width: i64, values: Values) -> Seq<
    DrawOp,
> {
    seq![
        DrawOp::BeginPath,
        DrawOp::SetFont(decimal(values.button_font_size as nat) + "px "@ + values.button_font@),
        DrawOp::SetColor(values.button_color),
        DrawOp::Rect(
            Region {
                o: Point { x, y },
                w: clamp(text_width + values.padding),
                h: values.button_height(),
            },
        ),
        DrawOp::FillText(
            text,
            Point {
                x: clamp(x + half_of(values.padding)),
                y: clamp(y + half_of(values.button_height())),
            },
        ),
        DrawOp::DrawPath,
    ]
}

/// The steps that draw some text at (x, y) in the font that is set.
pub open spec fn text_ops(text: Seq<char>, x: i64, y: i64) -> Seq<DrawOp> {
    seq![DrawOp::BeginPath, DrawOp::FillText(text, Point { x, y }), DrawOp::DrawPath]
}

/// The steps that draw a die at (x, y): a square, and in it the name of the
/// face; in red when the die is held, else in the color of buttons.
pub open spec fn die_ops(die: Die, x: i64, y: i64, values: Values) -> Seq<DrawOp> {
    seq![
        DrawOp::BeginPath,
        DrawOp::Rect(
            Region { o: Point { x, y }, w: values.die_dimension, h: values.die_dimension },
        ),
        DrawOp::SetFont("12px Arial"@),
        DrawOp::SetColor(
            if die.held {
                Color { r: 255, g: 0, b: 0 }
            } else {
                values.button_color
            },
        ),
        DrawOp::FillText(
            die.value.text(),
            Point {
                x: clamp(x + half_of(values.padding)),
                y: clamp(y + half_of(values.die_dimension)),
            },
        ),
        DrawOp::DrawPath,
    ]
}

/// Where die `i` of a hand at (x, y) is drawn.
pub open spec fn die_spot(i: int, x: i64, y: i64, values: Values) -> (i64, i64) {
    (
        clamp(
            clamp(
                values.dice_start().0 + clamp(
                    clamp(i * clamp(values.dice_start().0 + values.die_dimension)) + values.padding,
                ),
            ) + x,
        ),
        clamp(values.dice_start().1 + y),
    )
}

/// The steps that draw the first `n` dice of a hand at (x, y).
pub open spec fn dice_ops(dice: Seq<Die>, n: nat, x: i64, y: i64, values: Values) -> Seq<DrawOp>
    decreases n,
{
    if n == 0 {
        Seq::empty()
    } else {
        let spot = die_spot(n - 1, x, y, values);
        dice_ops(dice, (n - 1) as nat, x, y, values) + die_ops(dice[n - 1], spot.0, spot.1, values)
    }
}

/// Where the number of rolls left is written: three paddings right of the
/// roll button's width, at the height of its bottom edge.
pub open spec fn rolls_left_spot(values: Values, reroll_width: i64) -> (i64, i64) {
    let corners = values.reroll_button(reroll_width);
    (
        clamp(
            clamp(clamp((corners.1).0 - (corners.0).0) + clamp(values.padding * 2))
                + values.padding,
        ),
        (corners.1).1,
    )
}

/// The steps that draw a hand at (x, y): the dice, the roll button, and the
/// number of rolls left.
pub open spec fn hand_ops(hand: Hand, x: i64, y: i64, values: Values, reroll_width: i64) -> Seq<
    DrawOp,
> {
    let corners = values.reroll_button(reroll_width);
    let spot = rolls_left_spot(values, reroll_width);
    dice_ops(hand.dice@, HAND_SIZE as nat, x, y, values) + button_ops(
        values.reroll_button_text@,
        (corners.0).0,
        (corners.0).1,
        reroll_width,
        values,
    ) + text_ops("Rolls left: "@ + decimal(hand.remaining_rolls as nat), spot.0, spot.1)
}

/// Draw a button, given the measured width of its text.
pub fn draw_button(text: &str, x: i64, y: i64, text_width: i64, w: &mut Window, values: &Values) -> (r:
    Result<(), WindowError>)
    ensures
        r is Ok,
        final(w).surface() == old(w).surface(),
        final(w).drawn() == old(w).drawn() + button_ops(text@, x, y, text_width, *values),
{
    w.begin_path();
    // Configure font
    w.set_font(values.get_font_string().as_str());
    // Configure button size
    let button_width = sat_add(text_width, values.padding);
    let button_height = values.get_button_height();
    // Set color
    w.set_color(values.button_color);
    // Stage border
    w.rect_path(Region::from((Point::from((x, y)), button_width, button_height)));
    // Stage button text
    w.fill_text(
        text,
        Point::from((sat_add(x, half(values.padding)), sat_add(y, half(button_height)))),
    );
    // Draw and return
    w.draw_path();
    Ok(())
}

/// Draw some text.
pub fn draw_text(text: &str, x: i64, y: i64, w: &mut Window) -> (r: Result<(), WindowError>)
    ensures
        r is Ok,
        final(w).surface() == old(w).surface(),
        final(w).drawn() == old(w).drawn() + text_ops(text@, x, y),
{
    w.begin_path();
    w.fill_text(text, Point::from((x, y)));
    w.draw_path();
    Ok(())
}

impl Die {
    /// Draw this die with the given top left corner.
    pub fn draw_at(&self, x: i64, y: i64, w: &mut Window, values: &Values) -> (r: Result<
        (),
        WindowError,
    >)
        ensures
            r is Ok,
            final(w).surface() == old(w).surface(),
            final(w).drawn() == old(w).drawn() + die_ops(*self, x, y, *values),
    {
        // draw a rectangle
        // if it's held, set the font color to red, otherwise black
        w.begin_path();
        w.rect_path(Region::from((Point::from((x, y)), values.die_dimension, values.die_dimension)));
        w.set_font("12px Arial");
        if self.held {
            w.set_color(Color::new(255, 0, 0));
        } else {
            w.set_color(values.button_color);
        }
        w.fill_text(
            self.value.to_string().as_str(),
            Point::from(
                (sat_add(x, half(values.padding)), sat_add(y, half(values.die_dimension))),
            ),
        );
        w.draw_path();
        Ok(())
    }
}

impl Hand {
    /// Draw this hand with the given top left corner, given the measured
    /// width of the roll button's text.
    pub fn draw_at(&self, x: i64, y: i64, w: &mut Window, values: &Values, reroll_width: i64) -> (r:
        Result<(), WindowError>)
        ensures
            r is Ok,
            final(w).surface() == old(w).surface(),
            final(w).drawn() == old(w).drawn() + hand_ops(*self, x, y, *values, reroll_width),
    {
        // draw each die
        let mut i: usize = 0;
        while i < HAND_SIZE
            invariant
                i <= HAND_SIZE,
                w.surface() == old(w).surface(),
                w.drawn() == old(w).drawn() + dice_ops(self.dice@, i as nat, x, y, *values),
            decreases HAND_SIZE - i,
        {
            // draw each die taking into account offsets for die index and global game offset
            self.dice[i].draw_at(
                sat_add(
                    sat_add(
                        values.dice_origin().0,
                        sat_add(
                            sat_mul(
                                i as i64,
                                sat_add(values.dice_origin().0, values.die_dimension),
                            ),
                            values.padding,
                        ),
                    ),
                    x,
                ),
                sat_add(values.dice_origin().1, y),
                w,
                values,
            )?;
            i += 1;
        }

        // draw the Reroll button
        let reroll_button_corners = values.reroll_button_corners(reroll_width);
        let reroll_button_top_left = reroll_button_corners.0;
        let reroll_button_bottom_right = reroll_button_corners.1;
        draw_button(
            values.reroll_button_text,
            reroll_button_top_left.0,
            reroll_button_top_left.1,
            reroll_width,
            w,
            values,
        )?;

        // Draw remaining rolls readout
        let remaining_rolls_x = sat_add(
            sat_add(
                sat_sub(reroll_button_bottom_right.0, reroll_button_top_left.0),
                sat_mul(values.padding, 2),
            ),
            values.padding,
        );
        let remaining_rolls_y = reroll_button_bottom_right.1;
        let mut label = String::from_str("Rolls left: ");
        label.append(to_decimal(self.remaining_rolls as u64).as_str());
        draw_text(label.as_str(), remaining_rolls_x, remaining_rolls_y, w)?;
        Ok(())
    }
}

impl<R: Roller> Game<R> {
    /// The hand in play.
    pub closed spec fn hand(&self) -> Hand {
        self.player.current_hand
    }

    /// The steps that draw the game at (x, y): the hand, and the button that
    /// starts over.
    pub open spec fn ops(&self, x: i64, y: i64, reroll_width: i64, start_over_width: i64) -> Seq<
        DrawOp,
    > {
        let corners = self.layout().start_over_button(reroll_width, start_over_width);
        hand_ops(self.hand(), x, y, self.layout(), reroll_width) + button_ops(
            "Start Over"@,
            (corners.0).0,
            (corners.0).1,
            start_over_width,
            self.layout(),
        )
    }

    /// Draw the game with the given top left corner, given the measured
    /// widths of the texts of the two buttons.
    pub fn draw_at(
        &self,
        x: i64,
        y: i64,
        w: &mut Window,
        reroll_width: i64,
        start_over_width: i64,
    ) -> (r: Result<(), WindowError>)
        ensures
            r is Ok,
            final(w).surface() == old(w).surface(),
            final(w).drawn() == old(w).drawn() + self.ops(x, y, reroll_width, start_over_width),
    {
        // draw current hand
        self.player.current_hand.draw_at(x, y, w, &self.values, reroll_width)?;

        // draw start over button
        let start_over_top_left = self.values.start_over_button_corners(
            reroll_width,
            start_over_width,
        ).0;
        draw_button(
            "Start Over",
            start_over_top_left.0,
            start_over_top_left.1,
            start_over_width,
            w,
            &self.values,
        )?;
        Ok(())
    }

    /// Redraw the screen: blank the window, then draw the game from its top
    /// left corner.
    pub fn draw(&self, w: &mut Window, reroll_width: i64, start_over_width: i64) -> (r: Result<
        (),
        WindowError,
    >)
        ensures
            r is Ok,
            final(w).surface() == old(w).surface(),
            final(w).drawn() == old(w).drawn().push(DrawOp::Blank) + self.ops(
                0,
                0,
                reroll_width,
                start_over_width,
            ),
    {
        w.blank();
        self.draw_at(0, 0, w, reroll_width, start_over_width)?;
        Ok(())
    }
}

} // verus!

//! The game logic.

use vstd::prelude::*;
use rand::rngs::ThreadRng;
use crate::callback::Callback;
use crate::digits::{decimal, to_decimal};
use crate::error::WindowError;
use crate::random::{thread_rng, Roller};
use crate::traits::{fired, Child, ChildView, MountedWidget, TreeView, Widget};
use crate::types::{Color, Font, Point};
use crate::widgets::{Button, ButtonView, Text, TextView};
use crate::window::{Surface, Window};

verus! {

/// Number of dice in a turn.
pub const HAND_SIZE: usize = 5;

/// How many times a fresh hand may be rolled.
pub const ROLLS_PER_HAND: u8 = 3;

/// Each possible Die result.
#[derive(Debug, Clone, Copy, PartialEq, Eq, Structural)]
pub enum RollResult {
    One,
    Two,
    Three,
    Four,
    Five,
    Six,
}

impl RollResult {
    /// How many pips the face shows.
    pub open spec fn pips(self) -> int {
        match self {
            RollResult::One => 1,
            RollResult::Two => 2,
            RollResult::Three => 3,
            RollResult::Four => 4,
            RollResult::Five => 5,
            RollResult::Six => 6,
        }
    }

    /// The face's name.
    pub open spec fn text(self) -> Seq<char> {
        match self {
            RollResult::One => "One"@,
            RollResult::Two => "Two"@,
            RollResult::Three => "Three"@,
            RollResult::Four => "Four"@,
            RollResult::Five => "Five"@,
            RollResult::Six => "Six"@,
        }
    }

    /// How many pips the face shows.
    pub fn value(&self) -> (n: u8)
        ensures
            n == self.pips(),
    {
        match self {
            RollResult::One => 1,
            RollResult::Two => 2,
            RollResult::Three => 3,
            RollResult::Four => 4,
            RollResult::Five => 5,
            RollResult::Six => 6,
        }
    }

    /// The face with `n` pips, for `n` from 1 to 6.
    pub fn from_roll(n: i64) -> (r: RollResult)
        requires
            1 <= n <= 6,
        ensures
            r.pips() == n,
    {
        match n {
            1 => RollResult::One,
            2 => RollResult::Two,
            3 => RollResult::Three,
            4 => RollResult::Four,
            5 => RollResult::Five,
            _ => RollResult::Six,
        }
    }

    /// The face with `n` pips, if there is one.
    pub fn try_from_roll(n: i64) -> (r: Option<RollResult>)
        ensures
            1 <= n <= 6 ==> (r matches Some(face) && face.pips() == n),
            !(1 <= n <= 6) ==> r is None,
    {
        if 1 <= n && n <= 6 {
            Some(RollResult::from_roll(n))
        } else {
            None
        }
    }

    /// Writes out the face's name.
    pub fn to_string(&self) -> (s: String)
        ensures
            s@ == self.text(),
    {
        match self {
            RollResult::One => String::from_str("One"),
            RollResult::Two => String::from_str("Two"),
            RollResult::Three => String::from_str("Three"),
            RollResult::Four => String::from_str("Four"),
            RollResult::Five => String::from_str("Five"),
            RollResult::Six => String::from_str("Six"),
        }
    }
}

/// A single Die, can be held or not.
#[derive(Debug, Clone, Copy, PartialEq, Eq, Structural)]
pub struct Die {
    pub id: u8,
    pub value: RollResult,
    pub held: bool,
}

impl Die {
    /// This die after a roll that came up `face`: a held die stays as it is.
    pub open spec fn rolled(self, face: RollResult) -> Die {
        if self.held {
            self
        } else {
            Die { value: face, ..self }
        }
    }

    /// This die with its hold turned over.
    pub open spec fn toggled(self) -> Die {
        Die { held: !self.held, ..self }
    }

    pub fn new(id: u8, value: RollResult) -> (d: Die)
        ensures
            d == (Die { id, value, held: false }),
    {
        Die { id, value, held: false }
    }

    /// Get a random die.
    pub fn get_random<R: Roller>(id: u8, rng: &mut R) -> (d: Die)
        ensures
            d.id == id,
            !d.held,
    {
        Die::new(id, Die::get_random_result(rng))
    }

    /// Get a random result: the face with as many pips as the roller picks
    /// from 1 to 6.
    pub fn get_random_result<R: Roller>(rng: &mut R) -> (r: RollResult)
        ensures
            old(rng).picks(final(rng), 1, 7, r.pips() as i64),
    {
        RollResult::from_roll(rng.pick(1, 7))
    }

    /// Roll this die - no action if currently held.
    pub fn roll<R: Roller>(&mut self, rng: &mut R)
        ensures
            exists|face: RollResult| *final(self) == old(self).rolled(face),
    {
        if !self.held {
            self.value = Die::get_random_result(rng);
            assert(*self == old(self).rolled(self.value));
        } else {
        }
    }

    /// Roll this die to the face that came up - no action if currently held.
    pub fn roll_to(&mut self, face: RollResult)
        ensures
            *final(self) == old(self).rolled(face),
    {
        if !self.held {
            self.value = face;
        }
    }

    /// Toggles whether this die is held.
    pub fn toggle_held(&mut self)
        ensures
            *final(self) == old(self).toggled(),
    {
        self.held = !self.held;
    }
}

/// A set of 5 dice for a single play.
#[derive(Debug, Clone, Copy)]
pub struct Hand {
    pub dice: [Die; HAND_SIZE],
    pub remaining_rolls: u8,
}

/// What a [`Hand`] stands for: its dice in order and the rolls left.
pub struct HandView {
    pub dice: Seq<Die>,
    pub remaining_rolls: u8,
}

impl HandView {
    /// A fresh hand whose dice came up `faces`: five dice, numbered from 0,
    /// none held, and three rolls left.
    pub open spec fn fresh(faces: Seq<RollResult>) -> HandView {
        HandView {
            dice: Seq::new(
                HAND_SIZE as nat,
                |i: int| Die { id: i as u8, value: faces[i], held: false },
            ),
            remaining_rolls: ROLLS_PER_HAND,
        }
    }

    /// This hand after a roll whose dice came up `faces`: without rolls left
    /// nothing changes; else every die that is not held takes its new face,
    /// and one roll is used up.
    pub open spec fn rolled(self, faces: Seq<RollResult>) -> HandView {
        if self.remaining_rolls > 0 {
            HandView {
                dice: Seq::new(self.dice.len(), |i: int| self.dice[i].rolled(faces[i])),
                remaining_rolls: (self.remaining_rolls - 1) as u8,
            }
        } else {
            self
        }
    }

    /// This hand with the hold of die `idx` turned over; unchanged where
    /// there is no such die.
    pub open spec fn held(self, idx: int) -> HandView {
        if 0 <= idx < self.dice.len() {
            HandView { dice: self.dice.update(idx, self.dice[idx].toggled()), ..self }
        } else {
            self
        }
    }
}

impl View for Hand {
    type V = HandView;

    open spec fn view(&self) -> HandView {
        HandView { dice: self.dice@, remaining_rolls: self.remaining_rolls }
    }
}

impl Hand {
    /// A fresh hand of random dice.
    pub fn new<R: Roller>(rng: &mut R) -> (h: Hand)
        ensures
            exists|faces: Seq<RollResult>| faces.len() == HAND_SIZE && h@ == HandView::fresh(faces),
    {
        let h = Hand {
            dice: [
                Die::get_random(0, rng),
                Die::get_random(1, rng),
                Die::get_random(2, rng),
                Die::get_random(3, rng),
                Die::get_random(4, rng),
            ],
            remaining_rolls: ROLLS_PER_HAND,
        };
        proof {
            let faces = Seq::new(HAND_SIZE as nat, |i: int| h.dice@[i].value);
            assert(h@.dice =~= HandView::fresh(faces).dice);
        }
        h
    }

    /// A fresh hand whose dice came up `faces`.
    pub fn fresh(faces: [RollResult; HAND_SIZE]) -> (h: Hand)
        ensures
            h@ == HandView::fresh(faces@),
    {
        let h = Hand {
            dice: [
                Die::new(0, faces[0]),
                Die::new(1, faces[1]),
                Die::new(2, faces[2]),
                Die::new(3, faces[3]),
                Die::new(4, faces[4]),
            ],
            remaining_rolls: ROLLS_PER_HAND,
        };
        assert(h@.dice =~= HandView::fresh(faces@).dice);
        h
    }

    /// Roll all unheld dice to the faces that came up, if there are rolls
    /// left.
    pub fn roll_to(&mut self, faces: [RollResult; HAND_SIZE])
        ensures
            final(self)@ == old(self)@.rolled(faces@),
    {
        if self.remaining_rolls > 0 {
            let mut i: usize = 0;
            while i < HAND_SIZE
                invariant
                    i <= HAND_SIZE,
                    self.remaining_rolls == old(self).remaining_rolls,
                    forall|k: int|
                        0 <= k < i ==> self.dice@[k] == old(self).dice@[k].rolled(faces@[k]),
                    forall|k: int| i <= k < HAND_SIZE ==> self.dice@[k] == old(self).dice@[k],
                decreases HAND_SIZE - i,
            {
                let mut die = self.dice[i];
                die.roll_to(faces[i]);
                self.dice[i] = die;
                i += 1;
            }
            self.remaining_rolls -= 1;
            assert(self@.dice =~= old(self)@.rolled(faces@).dice);
        }
    }

    /// Roll all unheld dice if there are rolls left.
    pub fn roll<R: Roller>(&mut self, rng: &mut R)
        ensures
            exists|faces: Seq<RollResult>|
                faces.len() == HAND_SIZE && final(self)@ == old(self)@.rolled(faces),
    {
        if self.remaining_rolls > 0 {
            let ghost mut faces: Seq<RollResult> = Seq::empty();
            let mut i: usize = 0;
            while i < HAND_SIZE
                invariant
                    i <= HAND_SIZE,
                    faces.len() == i,
                    self.remaining_rolls == old(self).remaining_rolls,
                    forall|k: int| 0 <= k < i ==> self.dice@[k] == old(self).dice@[k].rolled(faces[k]),
                    forall|k: int| i <= k < HAND_SIZE ==> self.dice@[k] == old(self).dice@[k],
                decreases HAND_SIZE - i,
            {
                let mut die = self.dice[i];
                let ghost before = die;
                die.roll(rng);
                proof {
                    let face = choose|face: RollResult| die == before.rolled(face);
                    faces = faces.push(face);
                }
                self.dice[i] = die;
                i += 1;
            }
            self.remaining_rolls -= 1;
            proof {
                assert(self@.dice =~= old(self)@.rolled(faces).dice);
            }
        } else {
            proof {
                let faces = Seq::new(HAND_SIZE as nat, |i: int| RollResult::One);
                assert(faces.len() == HAND_SIZE && self@ == old(self)@.rolled(faces));
            }
        }
    }
}

/// Each possible option.
#[derive(Debug, Clone, Copy, PartialEq, Eq, Structural)]
pub enum ScoreType {
    Ones(u8),
    Twos(u8),
    Threes(u8),
    Fours(u8),
    Fives(u8),
    Sixes(u8),
    ThreeKind,
    FourKind,
    TwoAndThree,
    SmStraight,
    LgStraight,
    AllFive,
    AllFiveBonus(u8),
    StoneSoup(u8),
}

/// How many options a score sheet has.
pub const SCORE_SLOTS: usize = 14;

impl ScoreType {
    /// The option in place `i` of a blank score sheet, with nothing scored.
    pub open spec fn nth(i: int) -> ScoreType {
        if i == 0 {
            ScoreType::Ones(0)
        } else if i == 1 {
            ScoreType::Twos(0)
        } else if i == 2 {
            ScoreType::Threes(0)
        } else if i == 3 {
            ScoreType::Fours(0)
        } else if i == 4 {
            ScoreType::Fives(0)
        } else if i == 5 {
            ScoreType::Sixes(0)
        } else if i == 6 {
            ScoreType::ThreeKind
        } else if i == 7 {
            ScoreType::FourKind
        } else if i == 8 {
            ScoreType::TwoAndThree
        } else if i == 9 {
            ScoreType::SmStraight
        } else if i == 10 {
            ScoreType::LgStraight
        } else if i == 11 {
            ScoreType::AllFive
        } else if i == 12 {
            ScoreType::AllFiveBonus(0)
        } else {
            ScoreType::StoneSoup(0)
        }
    }

    /// The option's name, with what was scored in brackets where it keeps a
    /// number.
    pub open spec fn text(self) -> Seq<char> {
        match self {
            ScoreType::Ones(n) => "Ones("@ + decimal(n as nat) + ")"@,
            ScoreType::Twos(n) => "Twos("@ + decimal(n as nat) + ")"@,
            ScoreType::Threes(n) => "Threes("@ + decimal(n as nat) + ")"@,
            ScoreType::Fours(n) => "Fours("@ + decimal(n as nat) + ")"@,
            ScoreType::Fives(n) => "Fives("@ + decimal(n as nat) + ")"@,
            ScoreType::Sixes(n) => "Sixes("@ + decimal(n as nat) + ")"@,
            ScoreType::ThreeKind => "ThreeKind"@,
            ScoreType::FourKind => "FourKind"@,
            ScoreType::TwoAndThree => "TwoAndThree"@,
            ScoreType::SmStraight => "SmStraight"@,
            ScoreType::LgStraight => "LgStraight"@,
            ScoreType::AllFive => "AllFive"@,
            ScoreType::AllFiveBonus(n) => "AllFiveBonus("@ + decimal(n as nat) + ")"@,
            ScoreType::StoneSoup(n) => "StoneSoup("@ + decimal(n as nat) + ")"@,
        }
    }

    fn counted(name: &str, n: u8) -> (s: String)
        ensures
            s@ == name@ + decimal(n as nat) + ")"@,
    {
        let mut s = String::from_str(name);
        s.append(to_decimal(n as u64).as_str());
        s.append(")");
        s
    }

    /// Writes out the option's name and what was scored.
    pub fn to_string(&self) -> (s: String)
        ensures
            s@ == self.text(),
    {
        match self {
            ScoreType::Ones(n) => ScoreType::counted("Ones(", *n),
            ScoreType::Twos(n) => ScoreType::counted("Twos(", *n),
            ScoreType::Threes(n) => ScoreType::counted("Threes(", *n),
            ScoreType::Fours(n) => ScoreType::counted("Fours(", *n),
            ScoreType::Fives(n) => ScoreType::counted("Fives(", *n),
            ScoreType::Sixes(n) => ScoreType::counted("Sixes(", *n),
            ScoreType::ThreeKind => String::from_str("ThreeKind"),
            ScoreType::FourKind => String::from_str("FourKind"),
            ScoreType::TwoAndThree => String::from_str("TwoAndThree"),
            ScoreType::SmStraight => String::from_str("SmStraight"),
            ScoreType::LgStraight => String::from_str("LgStraight"),
            ScoreType::AllFive => String::from_str("AllFive"),
            ScoreType::AllFiveBonus(n) => ScoreType::counted("AllFiveBonus(", *n),
            ScoreType::StoneSoup(n) => ScoreType::counted("StoneSoup(", *n),
        }
    }
}

/// A single score option.
#[derive(Debug, Clone, Copy, PartialEq, Eq, Structural)]
pub struct ScoreSlot {
    pub taken: bool,
    pub value: ScoreType,
}

impl ScoreSlot {
    /// The slot as it is shown: its two fields by name.
    pub open spec fn text(self) -> Seq<char> {
        "ScoreSlot { taken: "@ + (if self.taken {
            "true"@
        } else {
            "false"@
        }) + ", value: "@ + self.value.text() + " }"@
    }

    pub fn new(value: ScoreType) -> (s: ScoreSlot)
        ensures
            s == (ScoreSlot { taken: false, value }),
    {
        ScoreSlot { taken: false, value }
    }

    /// Writes the slot out as it is shown.
    pub fn to_string(&self) -> (s: String)
        ensures
            s@ == self.text(),
    {
        let mut s = String::from_str("ScoreSlot { taken: ");
        if self.taken {
            s.append("true");
        } else {
            s.append("false");
        }
        s.append(", value: ");
        s.append(self.value.to_string().as_str());
        s.append(" }");
        s
    }
}

/// Whether no slot occurs twice in `slots`.
pub open spec fn distinct(slots: Seq<ScoreSlot>) -> bool {
    forall|i: int, j: int| 0 <= i < j < slots.len() ==> slots[i] != slots[j]
}

/// A single player's score object: a set of slots, kept in the order in which
/// they were put in. No slot occurs twice.
#[derive(Debug)]
pub struct Score {
    slots: Vec<ScoreSlot>,
}

impl View for Score {
    type V = Seq<ScoreSlot>;

    closed spec fn view(&self) -> Seq<ScoreSlot> {
        self.slots@
    }
}

impl Score {
    #[verifier::type_invariant]
    spec fn no_slot_twice(self) -> bool {
        distinct(self.slots@)
    }

    /// The slots of a blank score sheet: every option once, none taken.
    pub open spec fn blank() -> Seq<ScoreSlot> {
        Seq::new(
            SCORE_SLOTS as nat,
            |i: int| ScoreSlot { taken: false, value: ScoreType::nth(i) },
        )
    }

    pub fn new() -> (s: Score)
        ensures
            s@ == Score::blank(),
    {
        Score::default()
    }

    /// How many slots the score has. No slot occurs twice among them.
    pub fn len(&self) -> (n: usize)
        ensures
            n == self@.len(),
            distinct(self@),
    {
        proof {
            use_type_invariant(self);
        }
        self.slots.len()
    }

    /// The slot in place `i`.
    pub fn slot(&self, i: usize) -> (s: ScoreSlot)
        requires
            i < self@.len(),
        ensures
            s == self@[i as int],
    {
        self.slots[i]
    }

    /// Whether the score holds `slot`.
    pub fn contains(&self, slot: ScoreSlot) -> (b: bool)
        ensures
            b == self@.contains(slot),
    {
        let mut i: usize = 0;
        while i < self.slots.len()
            invariant
                i <= self.slots@.len(),
                forall|k: int| 0 <= k < i ==> self.slots@[k] != slot,
            decreases self.slots@.len() - i,
        {
            if self.slots[i] == slot {
                return true;
            }
            i += 1;
        }
        false
    }
}

impl Clone for Score {
    fn clone(&self) -> (s: Score)
        ensures
            s@ == self@,
    {
        proof {
            use_type_invariant(self);
        }
        let mut slots: Vec<ScoreSlot> = Vec::new();
        let mut i: usize = 0;
        while i < self.slots.len()
            invariant
                i <= self.slots@.len(),
                slots@ == self.slots@.take(i as int),
            decreases self.slots@.len() - i,
        {
            slots.push(self.slots[i]);
            i += 1;
        }
        Score { slots }
    }
}

impl Default for Score {
    fn default() -> (s: Score)
        ensures
            s@ == Score::blank(),
    {
        let mut slots: Vec<ScoreSlot> = Vec::new();
        slots.push(ScoreSlot::new(ScoreType::Ones(0)));
        slots.push(ScoreSlot::new(ScoreType::Twos(0)));
        slots.push(ScoreSlot::new(ScoreType::Threes(0)));
        slots.push(ScoreSlot::new(ScoreType::Fours(0)));
        slots.push(ScoreSlot::new(ScoreType::Fives(0)));
        slots.push(ScoreSlot::new(ScoreType::Sixes(0)));
        slots.push(ScoreSlot::new(ScoreType::ThreeKind));
        slots.push(ScoreSlot::new(ScoreType::FourKind));
        slots.push(ScoreSlot::new(ScoreType::TwoAndThree));
        slots.push(ScoreSlot::new(ScoreType::SmStraight));
        slots.push(ScoreSlot::new(ScoreType::LgStraight));
        slots.push(ScoreSlot::new(ScoreType::AllFive));
        slots.push(ScoreSlot::new(ScoreType::AllFiveBonus(0)));
        slots.push(ScoreSlot::new(ScoreType::StoneSoup(0)));
        Score { slots }
    }
}

/// All the various ways the game can be interacted with.
#[derive(Debug, Clone, Copy, PartialEq, Eq, Structural)]
pub enum FiveDiceMessage {
    HoldDie(usize),
    RollDice,
    StartOver,
}

/// The side of a die's square.
pub const DIE_DIMENSION: i64 = 50;

/// The behaviour of a callback that always reports `msg`.
pub open spec fn says(msg: FiveDiceMessage) -> spec_fn(FiveDiceMessage) -> bool {
    Callback::only(msg)
}

/// A button with the given text that reports `msg` when clicked.
pub open spec fn message_button(text: Seq<char>, msg: FiveDiceMessage) -> ButtonView<
    FiveDiceMessage,
> {
    ButtonView {
        bottom_right: None,
        callback: Some(says(msg)),
        color: Color { r: 0, g: 0, b: 0 },
        font: Font::standard(),
        text,
    }
}

/// The widget of a score slot: one row that holds the slot as text.
pub open spec fn slot_tree(slot: ScoreSlot, top_left: Point) -> TreeView<FiveDiceMessage> {
    TreeView {
        rows: seq![seq![ChildView::Text(TextView { font: Font::standard(), text: slot.text() })]],
        drawable: None,
        top_left,
    }
}

/// The widget of a score: an empty row, then one row for each slot.
pub open spec fn score_tree(slots: Seq<ScoreSlot>, top_left: Point) -> TreeView<FiveDiceMessage> {
    TreeView {
        rows: seq![Seq::empty()] + Seq::new(
            slots.len(),
            |i: int| seq![ChildView::Mounted(slot_tree(slots[i], Point::zero()))],
        ),
        drawable: None,
        top_left,
    }
}

/// The widget of a die: a square button that shows the face, red when the die
/// is held, and that reports a hold of the die when clicked.
pub open spec fn die_tree(die: Die, top_left: Point) -> TreeView<FiveDiceMessage> {
    TreeView {
        rows: seq![
            seq![
                ChildView::Button(
                    ButtonView {
                        bottom_right: Some(Point { x: DIE_DIMENSION, y: DIE_DIMENSION }),
                        callback: Some(says(FiveDiceMessage::HoldDie(die.id as usize))),
                        color: if die.held {
                            Color { r: 255, g: 0, b: 0 }
                        } else {
                            Color { r: 0, g: 0, b: 0 }
                        },
                        font: Font::standard(),
                        text: die.value.text(),
                    },
                ),
            ],
        ],
        drawable: None,
        top_left,
    }
}

/// The widget of a hand: the dice in a row, and below them the button that
/// rolls and the number of rolls left.
pub open spec fn hand_tree(hand: HandView, top_left: Point) -> TreeView<FiveDiceMessage> {
    TreeView {
        rows: seq![
            Seq::new(
                hand.dice.len(),
                |i: int| ChildView::Mounted(die_tree(hand.dice[i], Point::zero())),
            ),
            seq![
                ChildView::Button(message_button("Roll!"@, FiveDiceMessage::RollDice)),
                ChildView::Text(
                    TextView {
                        font: Font::standard(),
                        text: "Remaining rolls: "@ + decimal(hand.remaining_rolls as nat),
                    },
                ),
            ],
        ],
        drawable: None,
        top_left,
    }
}

impl Widget for ScoreSlot {
    type MSG = FiveDiceMessage;

    open spec fn tree(&self, top_left: Point) -> TreeView<FiveDiceMessage> {
        slot_tree(*self, top_left)
    }

    open spec fn answers(
        &self,
        next: &Self,
        top_left: Point,
        click: Point,
        s: Surface,
        r: Result<Option<FiveDiceMessage>, WindowError>,
    ) -> bool {
        r == Ok::<Option<FiveDiceMessage>, WindowError>(None) && next == self
    }

    fn handle_click(&mut self, top_left: Point, click: Point, w: &Window) -> (r: Result<
        Option<FiveDiceMessage>,
        WindowError,
    >) {
        Ok(None)
    }

    fn mount_widget(&self, top_left: Point) -> (m: MountedWidget<FiveDiceMessage>) {
        let mut ret = MountedWidget::new(top_left);
        let child = Child::Text(Text::new(self.to_string().as_str()));
        proof {
            child.view_of();
        }
        ret.push_current_row(child);
        assert(ret@.rows =~~= slot_tree(*self, top_left).rows);
        ret
    }
}

impl Widget for Score {
    type MSG = FiveDiceMessage;

    open spec fn tree(&self, top_left: Point) -> TreeView<FiveDiceMessage> {
        score_tree(self@, top_left)
    }

    open spec fn answers(
        &self,
        next: &Self,
        top_left: Point,
        click: Point,
        s: Surface,
        r: Result<Option<FiveDiceMessage>, WindowError>,
    ) -> bool {
        r == Ok::<Option<FiveDiceMessage>, WindowError>(None) && next@ == self@
    }

    fn handle_click(&mut self, top_left: Point, click: Point, w: &Window) -> (r: Result<
        Option<FiveDiceMessage>,
        WindowError,
    >) {
        Ok(None)
    }

    fn mount_widget(&self, top_left: Point) -> (m: MountedWidget<FiveDiceMessage>) {
        let mut ret = MountedWidget::new(top_left);
        let n = self.len();
        let mut i: usize = 0;
        while i < n
            invariant
                n == self@.len(),
                i <= n,
                ret@ == (TreeView {
                    rows: seq![Seq::empty()] + Seq::new(
                        i as nat,
                        |k: int| seq![ChildView::Mounted(slot_tree(self@[k], Point::zero()))],
                    ),
                    drawable: None,
                    top_left,
                }),
            decreases n - i,
        {
            let child = Child::Mounted(self.slot(i).mount_widget(Point::default()));
            proof {
                child.view_of();
            }
            ret.push_new_row(child);
            assert(ret@.rows =~~= seq![Seq::empty()] + Seq::new(
                (i + 1) as nat,
                |k: int| seq![ChildView::Mounted(slot_tree(self@[k], Point::zero()))],
            ));
            i += 1;
        }
        ret
    }
}

impl Widget for Die {
    type MSG = FiveDiceMessage;

    open spec fn tree(&self, top_left: Point) -> TreeView<FiveDiceMessage> {
        die_tree(*self, top_left)
    }

    open spec fn answers(
        &self,
        next: &Self,
        top_left: Point,
        click: Point,
        s: Surface,
        r: Result<Option<FiveDiceMessage>, WindowError>,
    ) -> bool {
        fired(die_tree(*self, top_left).hit(click, s), r) && next == self
    }

    fn handle_click(&mut self, top_left: Point, click: Point, w: &Window) -> (r: Result<
        Option<FiveDiceMessage>,
        WindowError,
    >) {
        let mw = self.mount_widget(top_left);
        mw.click(click, w)
    }

    fn mount_widget(&self, top_left: Point) -> (m: MountedWidget<FiveDiceMessage>) {
        let mut ret = MountedWidget::new(top_left);
        let id = self.id as usize;
        let die_color = if self.held {
            Color::new(255, 0, 0)
        } else {
            Color::new(0, 0, 0)
        };
        let mut button = Button::new(self.value.to_string().as_str());
        button.add_border_color(die_color);
        button.set_onclick(Callback::always(FiveDiceMessage::HoldDie(id)));
        button.set_size(DIE_DIMENSION, DIE_DIMENSION);
        let child = Child::Button(button);
        proof {
            child.view_of();
        }
        ret.push_current_row(child);
        assert(ret@.rows =~~= die_tree(*self, top_left).rows);
        ret
    }
}

impl Widget for Hand {
    type MSG = FiveDiceMessage;

    open spec fn tree(&self, top_left: Point) -> TreeView<FiveDiceMessage> {
        hand_tree(self@, top_left)
    }

    open spec fn answers(
        &self,
        next: &Self,
        top_left: Point,
        click: Point,
        s: Surface,
        r: Result<Option<FiveDiceMessage>, WindowError>,
    ) -> bool {
        fired(hand_tree(self@, top_left).hit(click, s), r) && next@ == self@
    }

    fn handle_click(&mut self, top_left: Point, click: Point, w: &Window) -> (r: Result<
        Option<FiveDiceMessage>,
        WindowError,
    >) {
        let mw = self.mount_widget(top_left);
        mw.click(click, w)
    }

    fn mount_widget(&self, top_left: Point) -> (m: MountedWidget<FiveDiceMessage>) {
        let mut ret = MountedWidget::new(top_left);
        assert(ret@.rows =~~= seq![
            Seq::new(0, |k: int| ChildView::Mounted(die_tree(self.dice@[k], Point::zero()))),
        ]);
        let mut i: usize = 0;
        while i < HAND_SIZE
            invariant
                i <= HAND_SIZE,
                ret@ == (TreeView {
                    rows: seq![
                        Seq::new(
                            i as nat,
                            |k: int| ChildView::Mounted(die_tree(self.dice@[k], Point::zero())),
                        ),
                    ],
                    drawable: None,
                    top_left,
                }),
            decreases HAND_SIZE - i,
        {
            let child = Child::Mounted(self.dice[i].mount_widget(Point::default()));
            proof {
                child.view_of();
            }
            ret.push_current_row(child);
            assert(ret@.rows =~~= seq![
                Seq::new(
                    (i + 1) as nat,
                    |k: int| ChildView::Mounted(die_tree(self.dice@[k], Point::zero())),
                ),
            ]);
            i += 1;
        }
        let mut button = Button::new("Roll!");
        button.set_onclick(Callback::always(FiveDiceMessage::RollDice));
        let roll = Child::Button(button);
        let mut label = String::from_str("Remaining rolls: ");
        label.append(to_decimal(self.remaining_rolls as u64).as_str());
        let rolls = Child::Text(Text::new(label.as_str()));
        proof {
            roll.view_of();
            rolls.view_of();
        }
        ret.push_new_row(roll);
        ret.push_current_row(rolls);
        assert(ret@.rows =~~= hand_tree(self@, top_left).rows);
        ret
    }
}

/// The Player object.
#[derive(Debug)]
pub struct Player {
    score: Score,
    current_hand: Hand,
}

impl Player {
    /// The player's score.
    pub closed spec fn score(&self) -> Seq<ScoreSlot> {
        self.score@
    }

    /// The player's hand.
    pub closed spec fn hand(&self) -> HandView {
        self.current_hand@
    }

    /// A player with a blank score and a fresh hand.
    pub fn new<R: Roller>(rng: &mut R) -> (p: Player)
        ensures
            p.score() == Score::blank(),
            exists|faces: Seq<RollResult>|
                faces.len() == HAND_SIZE && p.hand() == HandView::fresh(faces),
    {
        Player { current_hand: Hand::new(rng), score: Score::new() }
    }

    /// The player's hand.
    pub fn get_hand(&self) -> (h: Hand)
        ensures
            h@ == self.hand(),
    {
        self.current_hand
    }
}

/// What a [`Game`] stands for: the hand in play and the two score sheets.
pub struct GameView {
    pub hand: HandView,
    pub player_score: Seq<ScoreSlot>,
    pub score: Seq<ScoreSlot>,
}

impl GameView {
    /// The game after `msg`, where dice that are rolled come up `faces`.
    /// Holding turns over the hold of one die, rolling rolls the hand, and
    /// starting over gives the player a fresh hand and a blank score.
    pub open spec fn reduced(self, msg: FiveDiceMessage, faces: Seq<RollResult>) -> GameView {
        match msg {
            FiveDiceMessage::HoldDie(idx) => GameView { hand: self.hand.held(idx as int), ..self },
            FiveDiceMessage::RollDice => GameView { hand: self.hand.rolled(faces), ..self },
            FiveDiceMessage::StartOver => GameView {
                hand: HandView::fresh(faces),
                player_score: Score::blank(),
                ..self
            },
        }
    }

    /// Whether `next` is this game after `msg`, however the dice came up.
    pub open spec fn steps_to(self, msg: FiveDiceMessage, next: GameView) -> bool {
        exists|faces: Seq<RollResult>|
            faces.len() == HAND_SIZE && next == #[trigger] self.reduced(msg, faces)
    }
}

/// The widget of a game: the button that starts over, below it the hand, and
/// below that the score.
pub open spec fn game_tree(game: GameView, top_left: Point) -> TreeView<FiveDiceMessage> {
    TreeView {
        rows: seq![
            seq![ChildView::Button(message_button("Start Over"@, FiveDiceMessage::StartOver))],
            seq![ChildView::Mounted(hand_tree(game.hand, Point::zero()))],
            seq![ChildView::Mounted(score_tree(game.score, Point::zero()))],
        ],
        drawable: None,
        top_left,
    }
}

/// The Game object. It rolls its dice with the roller that it was made with.
#[derive(Debug)]
pub struct Game<R: Roller = ThreadRng> {
    // For now, just a solo game
    player: Player,
    score: Score,
    rng: R,
}

impl<R: Roller> View for Game<R> {
    type V = GameView;

    closed spec fn view(&self) -> GameView {
        GameView {
            hand: self.player.current_hand@,
            player_score: self.player.score@,
            score: self.score@,
        }
    }
}

impl Game<ThreadRng> {
    /// A new game that rolls its dice with the generator of the calling
    /// thread.
    pub fn new() -> (g: Game<ThreadRng>)
        ensures
            g@.player_score == Score::blank(),
            g@.score == Score::blank(),
            exists|faces: Seq<RollResult>|
                faces.len() == HAND_SIZE && g@.hand == HandView::fresh(faces),
    {
        Game::with_roller(thread_rng())
    }
}

impl<R: Roller> Game<R> {
    /// A new game that rolls its dice with `rng`.
    pub fn with_roller(rng: R) -> (g: Game<R>)
        ensures
            g@.player_score == Score::blank(),
            g@.score == Score::blank(),
            exists|faces: Seq<RollResult>|
                faces.len() == HAND_SIZE && g@.hand == HandView::fresh(faces),
    {
        let mut rng = rng;
        let player = Player::new(&mut rng);
        Game { player, score: Score::new(), rng }
    }

    /// Get a pointer to the current score.
    pub fn get_score(&self) -> (s: &Score)
        ensures
            s@ == self@.score,
    {
        &self.score
    }

    /// The hand in play.
    pub fn get_hand(&self) -> (h: Hand)
        ensures
            h@ == self@.hand,
    {
        self.player.get_hand()
    }

    /// Toggle one die on the player.
    pub fn hold_die(&mut self, die_idx: usize)
        ensures
            final(self)@ == (GameView { hand: old(self)@.hand.held(die_idx as int), ..old(self)@ }),
    {
        if die_idx < HAND_SIZE {
            self.player.current_hand.dice[die_idx].toggle_held();
        }
    }

    /// Handle all incoming messages.
    pub fn reducer(&mut self, msg: FiveDiceMessage)
        ensures
            old(self)@.steps_to(msg, final(self)@),
    {
        match msg {
            FiveDiceMessage::HoldDie(idx) => {
                self.hold_die(idx);
                assert(self@ == old(self)@.reduced(msg, Seq::new(HAND_SIZE as nat, |i: int| RollResult::One)));
            },
            FiveDiceMessage::RollDice => {
                self.roll_dice();
                proof {
                    let faces = choose|faces: Seq<RollResult>|
                        faces.len() == HAND_SIZE && self@.hand == old(self)@.hand.rolled(faces);
                    assert(self@ == old(self)@.reduced(msg, faces));
                }
            },
            FiveDiceMessage::StartOver => {
                self.reset();
                proof {
                    let faces = choose|faces: Seq<RollResult>|
                        faces.len() == HAND_SIZE && self@.hand == HandView::fresh(faces);
                    assert(self@ == old(self)@.reduced(msg, faces));
                }
            },
        }
    }

    /// Take the step that `msg` asks for, with dice that come up `faces`
    /// where they are rolled.
    pub fn step(&mut self, msg: FiveDiceMessage, faces: [RollResult; HAND_SIZE])
        ensures
            final(self)@ == old(self)@.reduced(msg, faces@),
    {
        match msg {
            FiveDiceMessage::HoldDie(idx) => self.hold_die(idx),
            FiveDiceMessage::RollDice => self.player.current_hand.roll_to(faces),
            FiveDiceMessage::StartOver => {
                self.player = Player { current_hand: Hand::fresh(faces), score: Score::new() };
            },
        }
    }

    /// Handle a click with dice that come up `faces` where the click has
    /// them rolled: the game takes the step that the click asks for, and
    /// nothing is passed up.
    pub fn click_to(
        &mut self,
        top_left: Point,
        click: Point,
        w: &Window,
        faces: [RollResult; HAND_SIZE],
    ) -> (r: Result<Option<FiveDiceMessage>, WindowError>)
        ensures
            match game_tree(old(self)@, top_left).hit(click, w.surface()) {
                Err(e) => r == Err::<Option<FiveDiceMessage>, WindowError>(e) && final(self)@
                    == old(self)@,
                Ok(None) => r == Ok::<Option<FiveDiceMessage>, WindowError>(None) && final(self)@
                    == old(self)@,
                Ok(Some(callback)) => r == Ok::<Option<FiveDiceMessage>, WindowError>(None)
                    && exists|m: FiveDiceMessage| #[trigger]
                    callback(m) && final(self)@ == old(self)@.reduced(m, faces@),
            },
    {
        let mw = self.mount_widget(top_left);
        let msg = mw.click(click, w)?;
        if let Some(m) = msg {
            self.step(m, faces);
        }
        Ok(None)
    }

    /// Start a fresh new game.
    pub fn reset(&mut self)
        ensures
            final(self)@.score == old(self)@.score,
            final(self)@.player_score == Score::blank(),
            exists|faces: Seq<RollResult>|
                faces.len() == HAND_SIZE && final(self)@.hand == HandView::fresh(faces),
    {
        self.player = Player::new(&mut self.rng);
    }

    /// Roll all unheld dice.
    pub fn roll_dice(&mut self)
        ensures
            final(self)@.score == old(self)@.score,
            final(self)@.player_score == old(self)@.player_score,
            exists|faces: Seq<RollResult>|
                faces.len() == HAND_SIZE && final(self)@.hand == old(self)@.hand.rolled(faces),
    {
        self.player.current_hand.roll(&mut self.rng);
    }
}

impl<R: Roller> Widget for Game<R> {
    type MSG = FiveDiceMessage;

    open spec fn tree(&self, top_left: Point) -> TreeView<FiveDiceMessage> {
        game_tree(self@, top_left)
    }

    /// A click that reaches a callback is handled here: the game takes the
    /// step that the callback's message asks for, and nothing is passed up.
    open spec fn answers(
        &self,
        next: &Self,
        top_left: Point,
        click: Point,
        s: Surface,
        r: Result<Option<FiveDiceMessage>, WindowError>,
    ) -> bool {
        match game_tree(self@, top_left).hit(click, s) {
            Err(e) => r == Err::<Option<FiveDiceMessage>, WindowError>(e) && next@ == self@,
            Ok(None) => r == Ok::<Option<FiveDiceMessage>, WindowError>(None) && next@ == self@,
            Ok(Some(callback)) => r == Ok::<Option<FiveDiceMessage>, WindowError>(None) && exists|
                m: FiveDiceMessage,
            | #[trigger] callback(m) && self@.steps_to(m, next@),
        }
    }

    fn handle_click(&mut self, top_left: Point, click: Point, w: &Window) -> (r: Result<
        Option<FiveDiceMessage>,
        WindowError,
    >) {
        // Mount the widget and collect any message for this click point
        let mw = self.mount_widget(top_left);
        let msg = mw.click(click, w)?;
        if let Some(m) = msg {
            // Handle the click
            self.reducer(m);
        }
        // Nothing to pass up to the caller
        Ok(None)
    }

    fn mount_widget(&self, top_left: Point) -> (m: MountedWidget<FiveDiceMessage>) {
        let mut ret = MountedWidget::new(top_left);
        let mut button = Button::new("Start Over");
        button.set_onclick(Callback::always(FiveDiceMessage::StartOver));
        let start_over = Child::Button(button);
        let hand = Child::Mounted(self.player.get_hand().mount_widget(Point::default()));
        let score = Child::Mounted(self.get_score().mount_widget(Point::default()));
        proof {
            start_over.view_of();
            hand.view_of();
            score.view_of();
        }
        ret.push_current_row(start_over);
        ret.push_new_row(hand);
        ret.push_new_row(score);
        assert(ret@.rows =~~= game_tree(self@, top_left).rows);
        ret
    }
}

} // verus!

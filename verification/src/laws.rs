//! What holds of the library, whatever the inputs.

use vstd::prelude::*;
use crate::arith::clamp;
use crate::draw;
use crate::game::{
    die_tree, game_tree, hand_tree, says, score_tree, slot_tree, FiveDiceMessage, GameView,
    HandView, RollResult, HAND_SIZE,
};
use crate::traits::{
    back_up, carriage_return, draw_child, draw_flow, farther, hit_flow, placed, region_flow,
    texts_flow, ChildView, Pen, TreeView,
};
use crate::types::{Point, Region};
use crate::error::WindowError;
use crate::window::{DrawOp, Surface};

verus! {

/// A cursor that is brought back up comes to stand at the height asked for,
/// as long as the way there fits in a coordinate.
pub proof fn back_up_reaches(p: Point, y: i64)
    requires
        i64::MIN < p.y - y <= i64::MAX,
    ensures
        back_up(p, y) == (Point { x: p.x, y }),
{
}

/// A cursor that is brought back to the left margin comes to stand one
/// padding from the edge, as long as the way there fits in a coordinate.
pub proof fn carriage_return_reaches(p: Point, padding: i64)
    requires
        i64::MIN < p.x - padding <= i64::MAX,
    ensures
        carriage_return(p, padding) == (Point { x: padding, y: p.y }),
{
}

/// A region that does not leave the range of coordinates is the region
/// between its origin and its bottom right corner.
pub proof fn region_spans_its_corners(r: Region)
    requires
        i64::MIN <= r.o.x + r.w <= i64::MAX,
        i64::MIN <= r.o.y + r.h <= i64::MAX,
    ensures
        Region::spanning(r.o, r.far_corner()) == r,
{
}

/// A region whose width and height are not negative holds its origin and
/// its bottom right corner.
pub proof fn region_holds_its_corners(r: Region)
    requires
        r.w >= 0,
        r.h >= 0,
    ensures
        r.holds(r.o),
        r.holds(r.far_corner()),
{
}

/// Growing a region by itself changes it only where its edges are not its
/// width and height: the origin stays, and the width and height become the
/// right and the bottom edge.
pub proof fn region_joined_with_itself(r: Region)
    ensures
        r.joined(r) == (Region { o: r.o, w: r.far_corner().x, h: r.far_corner().y }),
{
}

/// Of two different points at least one lies farther out than the other, and
/// no point lies farther out than itself.
pub proof fn points_compare(a: Point, b: Point)
    ensures
        !a.beyond(a),
        a != b ==> a.beyond(b) || b.beyond(a),
        a.beyond(b) && b.beyond(a) <==> a != b && a.norm() == b.norm(),
{
}

/// A text child laid out at a point is the tree that it mounts there: it has
/// the same region and the same drawing, and takes no clicks either way.
pub proof fn mounted_text_is_the_text<T>(child: ChildView<T>, top_left: Point, click: Point, s: Surface)
    requires
        child is Text,
    ensures
        child.mounted(top_left).region(s) == child.region(top_left, s),
        child.mounted(top_left).drawing(s) == child.drawing(top_left, s),
        child.mounted(top_left).hit(click, s) == child.hit(top_left, click, s),
{
    let tree = child.mounted(top_left);
    reveal_with_fuel(draw_flow, 3);
    reveal_with_fuel(hit_flow, 3);
    let children = draw_flow(tree.rows, 0, 0, Pen::start(top_left), Seq::empty(), s);
}

/// A button child laid out at a point has the region and the drawing of the
/// tree that it mounts there. The tree takes no clicks: a button answers
/// clicks only as a child.
pub proof fn mounted_button_is_the_button<T>(
    child: ChildView<T>,
    top_left: Point,
    click: Point,
    s: Surface,
)
    requires
        child is Button,
    ensures
        child.mounted(top_left).region(s) == child.region(top_left, s),
        child.mounted(top_left).drawing(s) == child.drawing(top_left, s),
        child.mounted(top_left).hit(click, s) == Ok::<Option<spec_fn(T) -> bool>, WindowError>(None),
{
    let tree = child.mounted(top_left);
    reveal_with_fuel(draw_flow, 3);
    reveal_with_fuel(hit_flow, 3);
    let children = draw_flow(tree.rows, 0, 0, Pen::start(top_left), Seq::empty(), s);
}

/// A mounted child laid out at a point is itself, mounted there: where it
/// was mounted before does not matter.
pub proof fn mounted_child_moves<T>(child: ChildView<T>, top_left: Point, click: Point, s: Surface)
    requires
        child is Mounted,
    ensures
        child.mounted(top_left).region(s) == child.region(top_left, s),
        child.mounted(top_left).drawing(s) == child.drawing(top_left, s),
        child.mounted(top_left).hit(click, s) == child.hit(top_left, click, s),
{
}

/// Turning the hold of a die over twice leaves the hand as it was.
pub proof fn hold_twice_is_nothing(hand: HandView, idx: int)
    ensures
        hand.held(idx).held(idx) == hand,
{
    assert(hand.held(idx).held(idx).dice =~= hand.dice);
}

/// A roll never changes a die that is held, nor which dice are held, nor the
/// number of dice; and it uses up one roll, if there is one left.
pub proof fn roll_keeps_held_dice(hand: HandView, faces: Seq<RollResult>, i: int)
    requires
        0 <= i < hand.dice.len(),
    ensures
        hand.rolled(faces).dice.len() == hand.dice.len(),
        hand.rolled(faces).dice[i].held == hand.dice[i].held,
        hand.rolled(faces).dice[i].id == hand.dice[i].id,
        hand.dice[i].held ==> hand.rolled(faces).dice[i] == hand.dice[i],
        hand.remaining_rolls > 0 ==> hand.rolled(faces).remaining_rolls == hand.remaining_rolls - 1,
        hand.remaining_rolls == 0 ==> hand.rolled(faces) == hand,
{
}

/// A fresh hand has five dice, numbered from 0, none of them held, and three
/// rolls.
pub proof fn fresh_hand(faces: Seq<RollResult>, i: int)
    requires
        0 <= i < HAND_SIZE,
    ensures
        HandView::fresh(faces).dice.len() == HAND_SIZE,
        HandView::fresh(faces).dice[i].id == i,
        !HandView::fresh(faces).dice[i].held,
        HandView::fresh(faces).dice[i].value == faces[i],
        HandView::fresh(faces).remaining_rolls == 3,
{
}

/// Whether each of the texts was measured.
pub open spec fn all_measured(texts: Seq<Seq<char>>, s: Surface) -> bool {
    forall|k: int| 0 <= k < texts.len() ==> s.widths.dom().contains(#[trigger] texts[k])
}

/// A list of texts was measured when both of its parts were.
pub proof fn measured_in_parts(a: Seq<Seq<char>>, b: Seq<Seq<char>>, s: Surface)
    ensures
        all_measured(a + b, s) <==> all_measured(a, s) && all_measured(b, s),
{
    if all_measured(a + b, s) {
        assert forall|k: int| 0 <= k < a.len() implies s.widths.dom().contains(#[trigger] a[k]) by {
            assert((a + b)[k] == a[k]);
        }
        assert forall|k: int| 0 <= k < b.len() implies s.widths.dom().contains(#[trigger] b[k]) by {
            assert((a + b)[a.len() + k] == b[k]);
        }
    }
    if all_measured(a, s) && all_measured(b, s) {
        assert forall|k: int| 0 <= k < (a + b).len() implies s.widths.dom().contains(
            #[trigger] (a + b)[k],
        ) by {
            if k < a.len() {
            } else {
            }
        }
    }
}

/// A child whose texts were all measured can be laid out anywhere: it has a
/// region, its drawing comes to an end, and a click on it is resolved.
pub proof fn measured_child_lays_out<T>(child: ChildView<T>, top_left: Point, click: Point, s: Surface)
    requires
        all_measured(child.texts(), s),
    ensures
        child.region(top_left, s) is Ok,
        child.drawing(top_left, s).result is Ok,
        child.hit(top_left, click, s) is Ok,
    decreases child, 0int, 0int,
{
    match child {
        ChildView::Text(t) => {
            assert(child.texts()[0] == t.text);
        },
        ChildView::Button(b) => {
            assert(child.texts()[0] == b.text);
        },
        ChildView::Mounted(m) => {
            measured_tree_lays_out(m, top_left, click, s);
        },
    }
}

/// A tree whose texts were all measured can be laid out anywhere: it has a
/// region, its drawing comes to an end, and a click on it is resolved. So a
/// window in which the texts of a tree were measured never fails the tree.
pub proof fn measured_tree_lays_out<T>(tree: TreeView<T>, top_left: Point, click: Point, s: Surface)
    requires
        all_measured(tree.texts(), s),
    ensures
        tree.region_at(top_left, s) is Ok,
        tree.drawing_at(top_left, s).result is Ok,
        tree.hit_at(top_left, click, s) is Ok,
    decreases tree, 0int, 0int,
{
    let own = match tree.drawable {
        Some(d) => seq![d.text()],
        None => Seq::<Seq<char>>::empty(),
    };
    measured_in_parts(texts_flow(tree.rows, 0, 0), own, s);
    measured_rows_have_a_region(tree.rows, 0, 0, top_left, top_left, s);
    measured_rows_are_drawn(tree.rows, 0, 0, Pen::start(top_left), Seq::empty(), s);
    measured_rows_resolve_clicks(tree.rows, 0, 0, top_left, click, s);
    match tree.drawable {
        Some(d) => {
            assert(own[0] == d.text());
        },
        None => {},
    }
}

/// The rows of a tree have a region from any child on whose texts, and those
/// of the children after it, were all measured.
pub proof fn measured_rows_have_a_region<T>(
    rows: Seq<Seq<ChildView<T>>>,
    i: int,
    j: int,
    cursor: Point,
    bottom_right: Point,
    s: Surface,
)
    requires
        all_measured(texts_flow(rows, i, j), s),
    ensures
        region_flow(rows, i, j, cursor, bottom_right, s) is Ok,
    decreases rows, rows.len() - i, (if 0 <= i < rows.len() {
        rows[i].len() - j
    } else {
        0
    }),
{
    if i < 0 || j < 0 || i >= rows.len() {
    } else if j >= rows[i].len() {
        measured_rows_have_a_region(rows, i + 1, 0, cursor, bottom_right, s);
    } else {
        measured_in_parts(rows[i][j].texts(), texts_flow(rows, i, j + 1), s);
        measured_child_lays_out(rows[i][j], cursor, cursor, s);
        let region = rows[i][j].region(cursor, s)->Ok_0;
        measured_rows_have_a_region(
            rows,
            i,
            j + 1,
            cursor.right(s.values.padding),
            farther(bottom_right, region.far_corner()),
            s,
        );
    }
}

/// The rows of a tree are drawn to the end from any child on whose texts,
/// and those of the children after it, were all measured.
pub proof fn measured_rows_are_drawn<T>(
    rows: Seq<Seq<ChildView<T>>>,
    i: int,
    j: int,
    pen: Pen,
    ops: Seq<DrawOp>,
    s: Surface,
)
    requires
        all_measured(texts_flow(rows, i, j), s),
    ensures
        draw_flow(rows, i, j, pen, ops, s).result is Ok,
    decreases rows, rows.len() - i, (if 0 <= i < rows.len() {
        rows[i].len() - j
    } else {
        0
    }),
{
    if i < 0 || j < 0 || i >= rows.len() {
    } else if j >= rows[i].len() {
        measured_rows_are_drawn(rows, i + 1, 0, pen.next_row(s.values.padding), ops, s);
    } else {
        let child = rows[i][j];
        measured_in_parts(child.texts(), texts_flow(rows, i, j + 1), s);
        measured_child_lays_out(child, pen.cursor, pen.cursor, s);
        let first = child.region(pen.cursor, s)->Ok_0;
        let moved = Point {
            x: s.values.padding,
            y: clamp(
                clamp(clamp(first.far_corner().y - pen.cursor.y) + s.values.padding) + pen.cursor.y,
            ),
        };
        measured_child_lays_out(child, moved, moved, s);
        let spot = placed(child, pen.cursor, s)->Ok_0;
        measured_child_lays_out(child, spot.0, spot.0, s);
        let step = draw_child(child, pen, s);
        measured_rows_are_drawn(rows, i, j + 1, step.result->Ok_0, ops + step.ops, s);
    }
}

/// A click is resolved by the rows of a tree from any child on whose texts,
/// and those of the children after it, were all measured.
pub proof fn measured_rows_resolve_clicks<T>(
    rows: Seq<Seq<ChildView<T>>>,
    i: int,
    j: int,
    cursor: Point,
    click: Point,
    s: Surface,
)
    requires
        all_measured(texts_flow(rows, i, j), s),
    ensures
        hit_flow(rows, i, j, cursor, click, s) is Ok,
    decreases rows, rows.len() - i, (if 0 <= i < rows.len() {
        rows[i].len() - j
    } else {
        0
    }),
{
    if i < 0 || j < 0 || i >= rows.len() {
    } else if j >= rows[i].len() {
        measured_rows_resolve_clicks(
            rows,
            i + 1,
            0,
            carriage_return(cursor, s.values.padding),
            click,
            s,
        );
    } else {
        let child = rows[i][j];
        measured_in_parts(child.texts(), texts_flow(rows, i, j + 1), s);
        measured_child_lays_out(child, cursor, click, s);
        let region = child.region(cursor, s)->Ok_0;
        measured_rows_resolve_clicks(
            rows,
            i,
            j + 1,
            back_up(region.far_corner(), cursor.y).right(s.values.padding),
            click,
            s,
        );
    }
}

/// Whether every callback of a button in the tree has the property `q`.
pub open spec fn tree_speaks<T>(tree: TreeView<T>, q: spec_fn(spec_fn(T) -> bool) -> bool) -> bool
    decreases tree, 1int,
{
    forall|i: int, j: int|
        0 <= i < tree.rows.len() && 0 <= j < tree.rows[i].len() ==> child_speaks(
            #[trigger] tree.rows[i][j],
            q,
        )
}

/// Whether every callback of a button in the child has the property `q`.
pub open spec fn child_speaks<T>(child: ChildView<T>, q: spec_fn(spec_fn(T) -> bool) -> bool) -> bool
    decreases child, 0int,
{
    match child {
        ChildView::Text(_) => true,
        ChildView::Button(b) => b.callback matches Some(c) ==> q(c),
        ChildView::Mounted(m) => tree_speaks(m, q),
    }
}

/// A click reaches only callbacks of buttons among the children: what holds
/// of all of them holds of the callback that is reached.
pub proof fn click_reaches_a_button<T>(
    rows: Seq<Seq<ChildView<T>>>,
    i: int,
    j: int,
    cursor: Point,
    click: Point,
    s: Surface,
    q: spec_fn(spec_fn(T) -> bool) -> bool,
)
    requires
        forall|a: int, b: int|
            0 <= a < rows.len() && 0 <= b < rows[a].len() ==> child_speaks(
                #[trigger] rows[a][b],
                q,
            ),
    ensures
        hit_flow(rows, i, j, cursor, click, s) matches Ok(Some(callback)) ==> q(callback),
    decreases rows, rows.len() - i, (if 0 <= i < rows.len() {
        rows[i].len() - j
    } else {
        0
    }),
{
    if i < 0 || j < 0 || i >= rows.len() {
    } else if j >= rows[i].len() {
        click_reaches_a_button(
            rows,
            i + 1,
            0,
            carriage_return(cursor, s.values.padding),
            click,
            s,
            q,
        );
    } else {
        let child = rows[i][j];
        child_click_reaches_a_button(child, cursor, click, s, q);
        match child.region(cursor, s) {
            Ok(region) => {
                click_reaches_a_button(
                    rows,
                    i,
                    j + 1,
                    back_up(region.far_corner(), cursor.y).right(s.values.padding),
                    click,
                    s,
                    q,
                );
            },
            Err(_) => {},
        }
    }
}

/// A click on a child reaches only callbacks of buttons in it.
pub proof fn child_click_reaches_a_button<T>(
    child: ChildView<T>,
    top_left: Point,
    click: Point,
    s: Surface,
    q: spec_fn(spec_fn(T) -> bool) -> bool,
)
    requires
        child_speaks(child, q),
    ensures
        child.hit(top_left, click, s) matches Ok(Some(callback)) ==> q(callback),
    decreases child, 0int, 0int,
{
    match child {
        ChildView::Mounted(m) => {
            click_reaches_a_button(m.rows, 0, 0, top_left, click, s, q);
        },
        _ => {},
    }
}

/// Whether `msg` is a step that the widget of the game can ask for: to start
/// over, to roll, or to turn over the hold of one of the dice in play.
pub open spec fn asked_by(game: GameView, msg: FiveDiceMessage) -> bool {
    match msg {
        FiveDiceMessage::StartOver => true,
        FiveDiceMessage::RollDice => true,
        FiveDiceMessage::HoldDie(idx) => exists|k: int|
            0 <= k < game.hand.dice.len() && idx == (#[trigger] game.hand.dice[k]).id,
    }
}

/// Whether a callback reports one message, and that a step that the widget
/// of the game can ask for.
pub open spec fn reports_a_step(game: GameView) -> spec_fn(spec_fn(FiveDiceMessage) -> bool) -> bool {
    |callback: spec_fn(FiveDiceMessage) -> bool|
        exists|msg: FiveDiceMessage| callback == says(msg) && asked_by(game, msg)
}

/// Whatever is clicked in the widget of the game, the callback that is
/// reached reports exactly one message: to start over, to roll, or to turn
/// over the hold of one of the dice in play.
pub proof fn a_click_on_the_game_asks_for_a_step(
    game: GameView,
    top_left: Point,
    click: Point,
    s: Surface,
)
    ensures
        game_tree(game, top_left).hit(click, s) matches Ok(Some(callback)) ==> exists|
            msg: FiveDiceMessage,
        | callback == says(msg) && asked_by(game, msg),
{
    let q = reports_a_step(game);
    let tree = game_tree(game, top_left);
    let hand = hand_tree(game.hand, Point::zero());
    let score = score_tree(game.score, Point::zero());
    assert forall|a: int, b: int|
        0 <= a < hand.rows.len() && 0 <= b < hand.rows[a].len() implies child_speaks(
        #[trigger] hand.rows[a][b],
        q,
    ) by {
        if a == 0 {
            let die = game.hand.dice[b];
            let mounted = die_tree(die, Point::zero());
            assert forall|c: int, d: int|
                0 <= c < mounted.rows.len() && 0 <= d < mounted.rows[c].len() implies child_speaks(
                #[trigger] mounted.rows[c][d],
                q,
            ) by {
                let msg = FiveDiceMessage::HoldDie(die.id as usize);
            }
        } else if b == 0 {
        }
    }
    assert forall|a: int, b: int|
        0 <= a < score.rows.len() && 0 <= b < score.rows[a].len() implies child_speaks(
        #[trigger] score.rows[a][b],
        q,
    ) by {
        let mounted = slot_tree(game.score[a - 1], Point::zero());
        assert forall|c: int, d: int|
            0 <= c < mounted.rows.len() && 0 <= d < mounted.rows[c].len() implies child_speaks(
            #[trigger] mounted.rows[c][d],
            q,
        ) by {}
    }
    assert forall|a: int, b: int|
        0 <= a < tree.rows.len() && 0 <= b < tree.rows[a].len() implies child_speaks(
        #[trigger] tree.rows[a][b],
        q,
    ) by {
        if a == 0 {
        } else if a == 1 {
        } else {
        }
    }
    click_reaches_a_button(tree.rows, 0, 0, top_left, click, s, q);
}

/// Every message that a click on the widget of the game can report is a step
/// that the widget can ask for. So a click on the game leaves the game as it
/// was, or starts over, or rolls, or turns over the hold of one die in play.
pub proof fn a_click_on_the_game_reports_a_step(
    game: GameView,
    top_left: Point,
    click: Point,
    s: Surface,
    m: FiveDiceMessage,
)
    requires
        game_tree(game, top_left).hit(click, s) matches Ok(Some(callback)) && callback(m),
    ensures
        asked_by(game, m),
{
    a_click_on_the_game_asks_for_a_step(game, top_left, click, s);
}

/// Two regions at the top left corner of the canvas sum up to their bounding
/// box: the sum holds every point that one of them holds.
pub proof fn regions_at_the_corner_sum_to_their_bounding_box(a: Region, b: Region, p: Point)
    requires
        a.o == Point::zero(),
        b.o == Point::zero(),
    ensures
        a.joined(b) == (Region {
            o: Point::zero(),
            w: if a.w > b.w {
                a.w
            } else {
                b.w
            },
            h: if a.h > b.h {
                a.h
            } else {
                b.h
            },
        }),
        a.holds(p) || b.holds(p) ==> a.joined(b).holds(p),
{
}

/// With corner-wise points too, two regions at the top left corner of the
/// canvas sum up to their bounding box.
pub proof fn bounded_regions_at_the_corner_sum_to_their_bounding_box(
    a: draw::Region,
    b: draw::Region,
)
    requires
        a.o == draw::Point::zero(),
        b.o == draw::Point::zero(),
    ensures
        a.joined(b) == (draw::Region {
            o: draw::Point::zero(),
            w: if a.w > b.w {
                a.w
            } else {
                b.w
            },
            h: if a.h > b.h {
                a.h
            } else {
                b.h
            },
        }),
{
}

/// A text that is mounted has the region that the bounded canvas takes for
/// it, and is drawn where it is mounted: taking its region leaves the cursor
/// where it stands, and drawing it leaves the cursor at the bottom right
/// corner of the text.
pub proof fn a_mounted_text_on_the_bounded_canvas(text: Seq<char>, top_left: draw::Point, s: Surface)
    ensures
        ({
            let mounted = draw::Mounted {
                rows: seq![Seq::empty()],
                drawable: Some(text),
                cursor: top_left,
                top_left,
            };
            &&& mounted.region(s) == (draw::Measured {
                cursor: top_left,
                region: draw::mounted_text_box(text, top_left, top_left, s),
            })
            &&& mounted.drawing(s) == (draw::Strokes {
                cursor: draw::text_box(text, top_left, s).far_corner(),
                ops: draw::text_ops(text, top_left),
                ok: true,
            })
        }),
{
    let mounted = draw::Mounted {
        rows: seq![Seq::empty()],
        drawable: Some(text),
        cursor: top_left,
        top_left,
    };
    reveal_with_fuel(draw::region_flow, 3);
    reveal_with_fuel(draw::rows_drawn, 3);
}

} // verus!

//! Properties that hold of every vehicle and every command sequence.
use vstd::prelude::*;

use crate::heading::{heading_named, CarType, Heading};
use crate::model::{all_commands, is_command, move_distance, Rover};

verus! {

/// How far east a vehicle facing `h` gets by going `n` cells.
pub open spec fn east_of(h: Heading, n: int) -> int {
    if h == Heading::E {
        n
    } else if h == Heading::W {
        -n
    } else {
        0
    }
}

/// How far north a vehicle facing `h` gets by going `n` cells.
pub open spec fn north_of(h: Heading, n: int) -> int {
    if h == Heading::N {
        n
    } else if h == Heading::S {
        -n
    } else {
        0
    }
}

/// The quarter turns, heading by heading: left is counter-clockwise and
/// right is clockwise on the compass N, E, S, W.
pub proof fn lemma_turn_table()
    ensures
        Heading::N.left() == Heading::W,
        Heading::W.left() == Heading::S,
        Heading::S.left() == Heading::E,
        Heading::E.left() == Heading::N,
        Heading::N.right() == Heading::E,
        Heading::E.right() == Heading::S,
        Heading::S.right() == Heading::W,
        Heading::W.right() == Heading::N,
{
}

/// The letters that name headings, in either case, and no others.
pub proof fn lemma_heading_letters(c: char)
    ensures
        heading_named('N') == Some(Heading::N) && heading_named('n') == Some(Heading::N),
        heading_named('S') == Some(Heading::S) && heading_named('s') == Some(Heading::S),
        heading_named('E') == Some(Heading::E) && heading_named('e') == Some(Heading::E),
        heading_named('W') == Some(Heading::W) && heading_named('w') == Some(Heading::W),
        heading_named(c) is Some <==> (c == 'N' || c == 'n' || c == 'S' || c == 's' || c == 'E'
            || c == 'e' || c == 'W' || c == 'w'),
{
}

/// `M` goes straight along the heading: 1 cell for an ordinary car or a bus
/// and 2 for a sports car, twice that with boost, and backwards in reverse
/// mode. Only the coordinate along the heading changes (y grows facing N and
/// shrinks facing S; x grows facing E and shrinks facing W); heading, modes
/// and kind stay.
pub proof fn lemma_move_effect(r: Rover)
    ensures
        ({
            let d: int = if r.car == CarType::SportsCar {
                if r.boost { 4 } else { 2 }
            } else {
                if r.boost { 2 } else { 1 }
            };
            let s: int = if r.reverse { -d } else { d };
            let q = r.apply('M');
            &&& q.x == r.x + east_of(r.heading, s)
            &&& q.y == r.y + north_of(r.heading, s)
            &&& q.heading == r.heading
            &&& q.reverse == r.reverse
            &&& q.boost == r.boost
            &&& q.car == r.car
        }),
{
}

/// `L` (when `left`) or `R`: the vehicle goes some cells along its heading,
/// makes a quarter turn and goes some cells along its new heading. Before the
/// turn an ordinary car or a sports car goes 1 cell with boost and none
/// without; a bus goes 2 cells with boost and 1 without. After the turn only a
/// sports car goes 1 cell. In reverse mode the cells are gone backwards and
/// the turn is to the other side. Modes and kind stay.
pub proof fn lemma_turn_effect(r: Rover, left: bool)
    ensures
        ({
            let before: int = if r.car == CarType::Bus {
                if r.boost { 2 } else { 1 }
            } else {
                if r.boost { 1 } else { 0 }
            };
            let after: int = if r.car == CarType::SportsCar { 1 } else { 0 };
            let sb: int = if r.reverse { -before } else { before };
            let sa: int = if r.reverse { -after } else { after };
            let h2 = if left != r.reverse { r.heading.left() } else { r.heading.right() };
            let q = r.apply(if left { 'L' } else { 'R' });
            &&& q.heading == h2
            &&& q.x == r.x + east_of(r.heading, sb) + east_of(h2, sa)
            &&& q.y == r.y + north_of(r.heading, sb) + north_of(h2, sa)
            &&& q.reverse == r.reverse
            &&& q.boost == r.boost
            &&& q.car == r.car
        }),
{
}

/// A left turn undoes a right turn and vice versa.
pub proof fn lemma_turns_cancel(h: Heading)
    ensures
        h.left().right() == h,
        h.right().left() == h,
{
}

/// Four quarter turns the same way bring the vehicle back to its heading.
pub proof fn lemma_four_turns(h: Heading)
    ensures
        h.left().left().left().left() == h,
        h.right().right().right().right() == h,
{
}

/// The letter of a heading names that heading again.
pub proof fn lemma_letter_names_heading(h: Heading)
    ensures
        heading_named(h.letter()) == Some(h),
{
}

/// `B` and `F` only flip their mode: the position, heading and kind stay,
/// and giving the same toggle twice restores the vehicle exactly.
pub proof fn lemma_toggles(r: Rover)
    ensures
        r.apply('B') == (Rover { reverse: !r.reverse, ..r }),
        r.apply('F') == (Rover { boost: !r.boost, ..r }),
        r.apply('B').apply('B') == r,
        r.apply('F').apply('F') == r,
{
}

/// A character that is not a command changes nothing.
pub proof fn lemma_invalid_is_noop(r: Rover, c: char)
    requires
        !is_command(c),
    ensures
        r.apply(c) == r,
        r.run(seq![c]) == r,
{
}

/// Running a one-character sequence is the same as applying that character.
pub proof fn lemma_run_single(r: Rover, c: char)
    ensures
        r.run(seq![c]) == r.apply(c),
        r.run_fits(seq![c]) == (is_command(c) ==> r.apply(c).fits()),
{
    let s = seq![c];
    assert(s.len() == 1 && s[0] == c);
    assert(s.drop_first() =~= Seq::<char>::empty());
    assert(r.apply(c).run(Seq::<char>::empty()) == r.apply(c));
    assert(r.apply(c).run_fits(Seq::<char>::empty()));
}

/// Running `s` and then `t` is the same as running `s + t`, when every
/// character of `s` is a command; otherwise running stops inside `s`.
pub proof fn lemma_run_append(r: Rover, s: Seq<char>, t: Seq<char>)
    ensures
        all_commands(s) ==> r.run(s + t) == r.run(s).run(t),
        !all_commands(s) ==> r.run(s + t) == r.run(s),
    decreases s.len(),
{
    if s.len() == 0 {
        assert(s + t =~= t);
    } else {
        assert((s + t)[0] == s[0]);
        if is_command(s[0]) {
            assert((s + t).drop_first() =~= s.drop_first() + t);
            lemma_run_append(r.apply(s[0]), s.drop_first(), t);
            if all_commands(s) {
                assert(all_commands(s.drop_first())) by {
                    assert forall|i: int| 0 <= i < s.drop_first().len() implies is_command(
                        #[trigger] s.drop_first()[i],
                    ) by {
                        assert(s.drop_first()[i] == s[i + 1]);
                    }
                }
            } else {
                let k = choose|k: int| 0 <= k < s.len() && !is_command(#[trigger] s[k]);
                assert(s.drop_first()[k - 1] == s[k]);
            }
        }
    }
}

/// No command changes the kind of vehicle.
pub proof fn lemma_run_keeps_car(r: Rover, cmds: Seq<char>)
    ensures
        r.run(cmds).car == r.car,
    decreases cmds.len(),
{
    if cmds.len() > 0 && is_command(cmds[0]) {
        lemma_run_keeps_car(r.apply(cmds[0]), cmds.drop_first());
    }
}

/// `L` followed by `R` leaves the heading as it was, whatever the kind of
/// vehicle and the modes.
pub proof fn lemma_left_then_right(r: Rover)
    ensures
        r.apply('L').apply('R').heading == r.heading,
        r.apply('R').apply('L').heading == r.heading,
{
}

/// `L` turns the vehicle to the left and `R` to the right, except in reverse
/// mode, where the two swap.
pub proof fn lemma_turn_directions(r: Rover)
    ensures
        r.apply('L').heading == (if r.reverse { r.heading.right() } else { r.heading.left() }),
        r.apply('R').heading == (if r.reverse { r.heading.left() } else { r.heading.right() }),
{
}

/// For an ordinary car or a bus, `L` and `R` from the same state end at the
/// same position, in the same modes, facing opposite ways.
pub proof fn lemma_left_right_mirror(r: Rover)
    requires
        r.car != CarType::SportsCar,
    ensures
        r.apply('L').x == r.apply('R').x,
        r.apply('L').y == r.apply('R').y,
        r.apply('R').heading == r.apply('L').heading.right().right(),
        r.apply('L').reverse == r.apply('R').reverse,
        r.apply('L').boost == r.apply('R').boost,
        r.apply('L').car == r.apply('R').car,
{
}

/// Going `m` cells and then `n` cells is going `m + n` cells; going 0 cells
/// changes nothing, so going `k` cells and then `-k` cells restores the state.
pub proof fn lemma_advance_adds(r: Rover, m: int, n: int)
    ensures
        r.advance(m).advance(n) == r.advance(m + n),
        r.advance(0) == r,
        r.advance(m).advance(-m) == r,
{
}

/// Moving, switching reverse mode and moving again brings the vehicle back
/// to where it started, facing the same way.
pub proof fn lemma_move_and_back(r: Rover)
    ensures
        ({
            let q = r.apply('M').apply('B').apply('M');
            q.x == r.x && q.y == r.y && q.heading == r.heading && q.reverse == !r.reverse
        }),
{
}

/// Boost mode doubles the distance of a move, and a sports car covers twice
/// the distance of an ordinary car or a bus.
pub proof fn lemma_move_distances(boost: bool)
    ensures
        move_distance(CarType::Normal, true) == 2 * move_distance(CarType::Normal, false),
        move_distance(CarType::SportsCar, true) == 2 * move_distance(CarType::SportsCar, false),
        move_distance(CarType::Bus, true) == 2 * move_distance(CarType::Bus, false),
        move_distance(CarType::SportsCar, boost) == 2 * move_distance(CarType::Normal, boost),
        move_distance(CarType::Bus, boost) == move_distance(CarType::Normal, boost),
{
}

/// An ordinary car without boost turns in place.
pub proof fn lemma_normal_turns_in_place(r: Rover)
    requires
        r.car == CarType::Normal,
        !r.boost,
    ensures
        r.apply('L').x == r.x && r.apply('L').y == r.y,
        r.apply('R').x == r.x && r.apply('R').y == r.y,
{
}

} // verus!

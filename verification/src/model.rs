//! The mathematical model of a vehicle and of what each command does to it.
//!
//! Positions are unbounded integers here; the executable state keeps them in
//! `i32`, and its operations require that the model's result stays in range.
use vstd::prelude::*;

use crate::heading::{CarType, Heading};

verus! {

/// The complete state of a vehicle: its position on the grid, the way it
/// faces, its two driving modes and its kind.
pub struct Rover {
    pub x: int,
    pub y: int,
    pub heading: Heading,
    /// Reverse mode: moves go backwards and left and right turns swap.
    pub reverse: bool,
    /// Boost mode: moves cover more ground.
    pub boost: bool,
    pub car: CarType,
}

/// `n` with its sign flipped when driving in reverse.
pub open spec fn signed(reverse: bool, n: int) -> int {
    if reverse {
        -n
    } else {
        n
    }
}

/// How many cells one `M` command covers.
pub open spec fn move_distance(car: CarType, boost: bool) -> int {
    match car {
        CarType::Normal => if boost { 2 } else { 1 },
        CarType::SportsCar => if boost { 4 } else { 2 },
        CarType::Bus => if boost { 2 } else { 1 },
    }
}

/// How many cells a turn command covers before the vehicle turns.
pub open spec fn steps_before_turn(car: CarType, boost: bool) -> int {
    match car {
        CarType::Normal => if boost { 1 } else { 0 },
        CarType::SportsCar => if boost { 1 } else { 0 },
        CarType::Bus => if boost { 2 } else { 1 },
    }
}

/// How many cells a turn command covers after the vehicle has turned.
pub open spec fn steps_after_turn(car: CarType) -> int {
    match car {
        CarType::SportsCar => 1,
        _ => 0,
    }
}

/// The characters that are commands: `M` (move), `L` (left), `R` (right),
/// `B` (toggle reverse) and `F` (toggle boost).
pub open spec fn is_command(c: char) -> bool {
    c == 'M' || c == 'L' || c == 'R' || c == 'B' || c == 'F'
}

/// Every character of `cmds` is a command.
pub open spec fn all_commands(cmds: Seq<char>) -> bool {
    forall|i: int| 0 <= i < cmds.len() ==> is_command(#[trigger] cmds[i])
}

impl Rover {
    /// Both coordinates fit in an `i32`.
    pub open spec fn fits(self) -> bool {
        i32::MIN <= self.x <= i32::MAX && i32::MIN <= self.y <= i32::MAX
    }

    /// The vehicle after going `steps` cells the way it faces (backwards
    /// when `steps` is negative).
    pub open spec fn advance(self, steps: int) -> Rover {
        match self.heading {
            Heading::N => Rover { y: self.y + steps, ..self },
            Heading::S => Rover { y: self.y - steps, ..self },
            Heading::E => Rover { x: self.x + steps, ..self },
            Heading::W => Rover { x: self.x - steps, ..self },
        }
    }

    /// The vehicle after a quarter turn, to the left when `to_left`.
    pub open spec fn turned(self, to_left: bool) -> Rover {
        Rover { heading: if to_left { self.heading.left() } else { self.heading.right() }, ..self }
    }

    /// The effect of `M`.
    pub open spec fn moved(self) -> Rover {
        self.advance(signed(self.reverse, move_distance(self.car, self.boost)))
    }

    /// The effect of `L` (when `left`) or `R`: go some cells, turn, go some
    /// cells. In reverse mode the cells are gone backwards and the turn is
    /// to the other side.
    pub open spec fn turn_command(self, left: bool) -> Rover {
        self.advance(signed(self.reverse, steps_before_turn(self.car, self.boost))).turned(
            left != self.reverse,
        ).advance(signed(self.reverse, steps_after_turn(self.car)))
    }

    /// The effect of one character: a command changes the vehicle as
    /// described above, any other character leaves it as it is.
    pub open spec fn apply(self, c: char) -> Rover {
        if c == 'M' {
            self.moved()
        } else if c == 'L' {
            self.turn_command(true)
        } else if c == 'R' {
            self.turn_command(false)
        } else if c == 'B' {
            Rover { reverse: !self.reverse, ..self }
        } else if c == 'F' {
            Rover { boost: !self.boost, ..self }
        } else {
            self
        }
    }

    /// The vehicle after the commands of `cmds` in order, stopping at the
    /// first character that is not a command.
    pub open spec fn run(self, cmds: Seq<char>) -> Rover
        decreases cmds.len(),
    {
        if cmds.len() == 0 || !is_command(cmds[0]) {
            self
        } else {
            self.apply(cmds[0]).run(cmds.drop_first())
        }
    }

    /// Every state that running `cmds` passes through has its position
    /// within `i32`.
    pub open spec fn run_fits(self, cmds: Seq<char>) -> bool
        decreases cmds.len(),
    {
        if cmds.len() == 0 || !is_command(cmds[0]) {
            true
        } else {
            self.apply(cmds[0]).fits() && self.apply(cmds[0]).run_fits(cmds.drop_first())
        }
    }
}

} // verus!

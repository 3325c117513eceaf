//! Compass headings and vehicle kinds.
use vstd::prelude::*;

verus! {

/// One of the four compass directions the vehicle can face.
#[derive(Debug, Clone, Copy, PartialEq, Eq, Structural)]
pub enum Heading {
    N,
    S,
    E,
    W,
}

impl Heading {
    /// The heading reached by a quarter turn to the left (counter-clockwise).
    pub open spec fn left(self) -> Heading {
        match self {
            Heading::N => Heading::W,
            Heading::W => Heading::S,
            Heading::S => Heading::E,
            Heading::E => Heading::N,
        }
    }

    /// The heading reached by a quarter turn to the right (clockwise).
    pub open spec fn right(self) -> Heading {
        match self {
            Heading::N => Heading::E,
            Heading::E => Heading::S,
            Heading::S => Heading::W,
            Heading::W => Heading::N,
        }
    }

    /// Quarter turn to the left.
    pub fn turn_left(&self) -> (h: Self)
        ensures
            h == self.left(),
    {
        match self {
            Heading::N => Heading::W,
            Heading::W => Heading::S,
            Heading::S => Heading::E,
            Heading::E => Heading::N,
        }
    }

    /// Quarter turn to the right.
    pub fn turn_right(&self) -> (h: Self)
        ensures
            h == self.right(),
    {
        match self {
            Heading::N => Heading::E,
            Heading::E => Heading::S,
            Heading::S => Heading::W,
            Heading::W => Heading::N,
        }
    }
}

/// The heading that a character names, in upper or lower case.
pub open spec fn heading_named(c: char) -> Option<Heading> {
    if c == 'N' || c == 'n' {
        Some(Heading::N)
    } else if c == 'S' || c == 's' {
        Some(Heading::S)
    } else if c == 'E' || c == 'e' {
        Some(Heading::E)
    } else if c == 'W' || c == 'w' {
        Some(Heading::W)
    } else {
        None
    }
}

impl Heading {
    /// The upper-case letter that names this heading.
    pub open spec fn letter(self) -> char {
        match self {
            Heading::N => 'N',
            Heading::S => 'S',
            Heading::E => 'E',
            Heading::W => 'W',
        }
    }

    /// The heading named by `c`, case-insensitively. Only the letters
    /// N, S, E and W (in either case) name a heading.
    pub fn from_char(c: char) -> (h: Heading)
        requires
            heading_named(c) is Some,
        ensures
            heading_named(c) == Some(h),
    {
        if c == 'N' || c == 'n' {
            Heading::N
        } else if c == 'S' || c == 's' {
            Heading::S
        } else if c == 'E' || c == 'e' {
            Heading::E
        } else {
            Heading::W
        }
    }
}

/// The kind of vehicle; it decides how far each command moves it.
#[derive(Debug, Clone, Copy, PartialEq, Eq, Structural)]
pub enum CarType {
    /// An ordinary car (the default).
    Normal,
    /// A sports car: it covers twice the distance of an ordinary car on `M`,
    /// and goes one cell after each turn.
    SportsCar,
    /// A bus, which moves before it turns.
    Bus,
}

} // verus!

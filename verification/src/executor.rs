//! The executor: a vehicle that carries out single-character commands.
use vstd::prelude::*;

use crate::heading::{heading_named, CarType, Heading};
use crate::model::{all_commands, is_command, Rover};

verus! {

/// The error returned for a character that is not a command.
pub const INVALID_COMMAND: &'static str = "无效指令，只支持 M, L, R, B, F";

/// A vehicle on the grid together with its driving modes.
#[derive(Debug, Clone, PartialEq, Eq, Structural)]
pub struct Executor {
    x: i32,
    y: i32,
    heading: Heading,
    reverse_mode: bool,
    boost_mode: bool,
    car_type: CarType,
}

impl View for Executor {
    type V = Rover;

    closed spec fn view(&self) -> Rover {
        Rover {
            x: self.x as int,
            y: self.y as int,
            heading: self.heading,
            reverse: self.reverse_mode,
            boost: self.boost_mode,
            car: self.car_type,
        }
    }
}

/// The position of every executor fits in an `i32`.
pub proof fn lemma_executor_fits(e: &Executor)
    ensures
        e@.fits(),
{
}

/// A fresh vehicle stands exactly where it was put, faces the given way, is
/// of the given kind and has both modes off.
pub proof fn lemma_fresh(x: int, y: int, heading: Heading, car: CarType)
    ensures
        fresh(x, y, heading, car).x == x,
        fresh(x, y, heading, car).y == y,
        fresh(x, y, heading, car).heading == heading,
        fresh(x, y, heading, car).car == car,
        !fresh(x, y, heading, car).reverse,
        !fresh(x, y, heading, car).boost,
{
}

/// The state of a vehicle of kind `car` at (`x`, `y`) facing `heading`, with
/// both modes off.
pub open spec fn fresh(x: int, y: int, heading: Heading, car: CarType) -> Rover {
    Rover { x, y, heading, reverse: false, boost: false, car }
}

impl Default for Executor {
    /// An ordinary car at (0, 0) facing north, with both modes off.
    fn default() -> (e: Self)
        ensures
            e@ == fresh(0, 0, Heading::N, CarType::Normal),
            e@.x == 0 && e@.y == 0 && e@.heading == Heading::N,
            !e@.reverse && !e@.boost && e@.car == CarType::Normal,
    {
        Executor {
            x: 0,
            y: 0,
            heading: Heading::N,
            reverse_mode: false,
            boost_mode: false,
            car_type: CarType::Normal,
        }
    }
}

impl Executor {
    /// An ordinary car at (0, 0) facing north, with both modes off.
    pub fn new() -> (e: Self)
        ensures
            e@ == fresh(0, 0, Heading::N, CarType::Normal),
            e@.x == 0 && e@.y == 0 && e@.heading == Heading::N,
            !e@.reverse && !e@.boost && e@.car == CarType::Normal,
    {
        Self::default()
    }

    /// An ordinary car at (`x`, `y`) facing the heading that `heading` names.
    pub fn init(x: i32, y: i32, heading: char) -> (e: Self)
        requires
            heading_named(heading) is Some,
        ensures
            e@ == fresh(x as int, y as int, heading_named(heading)->0, CarType::Normal),
            e@.x == x && e@.y == y && Some(e@.heading) == heading_named(heading),
            !e@.reverse && !e@.boost && e@.car == CarType::Normal,
    {
        Self::init_with_type(x, y, heading, CarType::Normal)
    }

    /// A vehicle of kind `car_type` at (`x`, `y`) facing the heading that
    /// `heading` names, with both modes off.
    pub fn init_with_type(x: i32, y: i32, heading: char, car_type: CarType) -> (e: Self)
        requires
            heading_named(heading) is Some,
        ensures
            e@ == fresh(x as int, y as int, heading_named(heading)->0, car_type),
            e@.x == x && e@.y == y && Some(e@.heading) == heading_named(heading),
            !e@.reverse && !e@.boost && e@.car == car_type,
    {
        Executor {
            x,
            y,
            heading: Heading::from_char(heading),
            reverse_mode: false,
            boost_mode: false,
            car_type,
        }
    }

    /// Carries out one command. A character that is not a command is
    /// refused with [`INVALID_COMMAND`] and changes nothing.
    pub fn execute(&mut self, command: char) -> (r: Result<(), &'static str>)
        requires
            is_command(command) ==> old(self)@.apply(command).fits(),
        ensures
            final(self)@ == old(self)@.apply(command),
            r is Ok <==> is_command(command),
            r matches Err(e) ==> e@ == INVALID_COMMAND@,
    {
        match command {
            'M' => self.exec_move(),
            'L' => self.exec_turn_left(),
            'R' => self.exec_turn_right(),
            'B' => {
                self.reverse_mode = !self.reverse_mode;
                Ok(())
            },
            'F' => {
                self.boost_mode = !self.boost_mode;
                Ok(())
            },
            _ => Err(INVALID_COMMAND),
        }
    }

    /// Carries out the commands of `commands` in order. At the first
    /// character that is not a command it stops with [`INVALID_COMMAND`];
    /// the commands before it stay carried out.
    pub fn execute_batch(&mut self, commands: &str) -> (r: Result<(), &'static str>)
        requires
            old(self)@.run_fits(commands@),
        ensures
            final(self)@ == old(self)@.run(commands@),
            r is Ok <==> all_commands(commands@),
            r matches Err(e) ==> e@ == INVALID_COMMAND@,
    {
        let ghost cmds = commands@;
        let ghost start = self@;
        assert(cmds.skip(0) =~= cmds);
        for c in it: commands.chars()
            invariant
                it.seq() == cmds,
                start == old(self)@,
                cmds == commands@,
                start.run(cmds) == self@.run(cmds.skip(it.index())),
                self@.run_fits(cmds.skip(it.index())),
                forall|j: int| 0 <= j < it.index() ==> is_command(#[trigger] cmds[j]),
        {
            let ghost rest = cmds.skip(it.index());
            assert(rest[0] == c && cmds[it.index() as int] == c);
            assert(rest.drop_first() =~= cmds.skip(it.index() + 1));
            match self.execute(c) {
                Ok(()) => {},
                Err(e) => {
                    return Err(e);
                },
            }
        }
        assert(cmds.skip(cmds.len() as int) =~= Seq::<char>::empty());
        Ok(())
    }

    fn exec_move(&mut self) -> (r: Result<(), &'static str>)
        requires
            old(self)@.moved().fits(),
        ensures
            r is Ok,
            final(self)@ == old(self)@.moved(),
    {
        let steps: i32 = match (self.car_type, self.reverse_mode, self.boost_mode) {
            (CarType::Normal, false, false) => 1,
            (CarType::Normal, true, false) => -1,
            (CarType::Normal, false, true) => 2,
            (CarType::Normal, true, true) => -2,
            (CarType::SportsCar, false, false) => 2,
            (CarType::SportsCar, true, false) => -2,
            (CarType::SportsCar, false, true) => 4,
            (CarType::SportsCar, true, true) => -4,
            (CarType::Bus, false, false) => 1,
            (CarType::Bus, true, false) => -1,
            (CarType::Bus, false, true) => {
                self.move_steps(1);
                self.move_steps(1);
                return Ok(());
            },
            (CarType::Bus, true, true) => {
                self.move_steps(-1);
                self.move_steps(-1);
                return Ok(());
            },
        };
        self.move_steps(steps);
        Ok(())
    }

    fn exec_turn_left(&mut self) -> (r: Result<(), &'static str>)
        requires
            old(self)@.turn_command(true).fits(),
        ensures
            r is Ok,
            final(self)@ == old(self)@.turn_command(true),
    {
        match (self.car_type, self.reverse_mode, self.boost_mode) {
            (CarType::Normal, false, false) => self.turn_left(),
            (CarType::Normal, true, false) => self.turn_right(),
            (CarType::Normal, false, true) => {
                self.move_steps(1);
                self.turn_left();
            },
            (CarType::Normal, true, true) => {
                self.move_steps(-1);
                self.turn_right();
            },
            (CarType::SportsCar, false, false) => {
                self.turn_left();
                self.move_steps(1);
            },
            (CarType::SportsCar, true, false) => {
                self.turn_right();
                self.move_steps(-1);
            },
            (CarType::SportsCar, false, true) => {
                self.move_steps(1);
                self.turn_left();
                self.move_steps(1);
            },
            (CarType::SportsCar, true, true) => {
                self.move_steps(-1);
                self.turn_right();
                self.move_steps(-1);
            },
            (CarType::Bus, false, false) => {
                self.move_steps(1);
                self.turn_left();
            },
            (CarType::Bus, true, false) => {
                self.move_steps(-1);
                self.turn_right();
            },
            (CarType::Bus, false, true) => {
                self.move_steps(1);
                self.move_steps(1);
                self.turn_left();
            },
            (CarType::Bus, true, true) => {
                self.move_steps(-1);
                self.move_steps(-1);
                self.turn_right();
            },
        }
        Ok(())
    }

    fn exec_turn_right(&mut self) -> (r: Result<(), &'static str>)
        requires
            old(self)@.turn_command(false).fits(),
        ensures
            r is Ok,
            final(self)@ == old(self)@.turn_command(false),
    {
        match (self.car_type, self.reverse_mode, self.boost_mode) {
            (CarType::Normal, false, false) => self.turn_right(),
            (CarType::Normal, true, false) => self.turn_left(),
            (CarType::Normal, false, true) => {
                self.move_steps(1);
                self.turn_right();
            },
            (CarType::Normal, true, true) => {
                self.move_steps(-1);
                self.turn_left();
            },
            (CarType::SportsCar, false, false) => {
                self.turn_right();
                self.move_steps(1);
            },
            (CarType::SportsCar, true, false) => {
                self.turn_left();
                self.move_steps(-1);
            },
            (CarType::SportsCar, false, true) => {
                self.move_steps(1);
                self.turn_right();
                self.move_steps(1);
            },
            (CarType::SportsCar, true, true) => {
                self.move_steps(-1);
                self.turn_left();
                self.move_steps(-1);
            },
            (CarType::Bus, false, false) => {
                self.move_steps(1);
                self.turn_right();
            },
            (CarType::Bus, true, false) => {
                self.move_steps(-1);
                self.turn_left();
            },
            (CarType::Bus, false, true) => {
                self.move_steps(1);
                self.move_steps(1);
                self.turn_right();
            },
            (CarType::Bus, true, true) => {
                self.move_steps(-1);
                self.move_steps(-1);
                self.turn_left();
            },
        }
        Ok(())
    }

    fn move_steps(&mut self, steps: i32)
        requires
            old(self)@.advance(steps as int).fits(),
        ensures
            final(self)@ == old(self)@.advance(steps as int),
    {
        match self.heading {
            Heading::N => self.y = self.y + steps,
            Heading::S => self.y = self.y - steps,
            Heading::E => self.x = self.x + steps,
            Heading::W => self.x = self.x - steps,
        }
    }

    fn turn_left(&mut self)
        ensures
            final(self)@ == old(self)@.turned(true),
    {
        self.heading = self.heading.turn_left();
    }

    fn turn_right(&mut self)
        ensures
            final(self)@ == old(self)@.turned(false),
    {
        self.heading = self.heading.turn_right();
    }
    /// The position (x, y).
    pub fn position(&self) -> (p: (i32, i32))
        ensures
            p.0 as int == self@.x,
            p.1 as int == self@.y,
    {
        (self.x, self.y)
    }

    /// The way the vehicle faces.
    pub fn heading(&self) -> (h: Heading)
        ensures
            h == self@.heading,
    {
        self.heading
    }

    /// The letter (N, S, E or W) of the way the vehicle faces.
    pub fn heading_char(&self) -> (c: char)
        ensures
            c == self@.heading.letter(),
    {
        match self.heading {
            Heading::N => 'N',
            Heading::S => 'S',
            Heading::E => 'E',
            Heading::W => 'W',
        }
    }

    /// The position and the letter of the heading: (x, y, heading).
    pub fn state(&self) -> (s: (i32, i32, char))
        ensures
            s.0 as int == self@.x,
            s.1 as int == self@.y,
            s.2 == self@.heading.letter(),
    {
        (self.x, self.y, self.heading_char())
    }

    /// The driving modes: (reverse, boost).
    pub fn modes(&self) -> (m: (bool, bool))
        ensures
            m == (self@.reverse, self@.boost),
    {
        (self.reverse_mode, self.boost_mode)
    }

    /// The kind of vehicle.
    pub fn car_type(&self) -> (t: CarType)
        ensures
            t == self@.car,
    {
        self.car_type
    }
}

} // verus!

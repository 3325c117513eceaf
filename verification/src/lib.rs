//! Command executor for a vehicle on a grid: it moves, turns and switches
//! driving modes according to single-character commands.
pub mod executor;
pub mod heading;
pub mod laws;
pub mod model;

pub use crate::executor::{Executor, INVALID_COMMAND};
pub use crate::heading::{CarType, Heading};
pub use crate::model::Rover;

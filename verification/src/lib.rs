//! An interpreter for Symbol, a two-dimensional stack-based language.
//!
//! A program is a grid of single-character instructions.  An instruction
//! pointer walks the grid in one of four cardinal directions, executing the
//! character under it each step, until it walks off the grid or reaches an
//! explicit terminate instruction.  Execution state is a stack of signed
//! 32-bit integers plus position and direction registers.

pub mod engine;
pub mod grid;
pub mod laws;
pub mod state;

pub use engine::{feed_input, step, ErrorKind, StepOutcome};
pub use grid::lines;
pub use state::{Direction, State};

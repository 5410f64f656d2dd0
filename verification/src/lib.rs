//! Interpreter for a tiny command language that drives a single painter
//! across a fixed-size two-dimensional pixel grid.
//!
//! A command string is executed one character at a time: `C` cycles the
//! painter's color, `F` moves it one step in its current direction (with
//! toroidal wrap-around) and draws, `R` rotates it by 45 degrees, `S`
//! signals a pause to the caller, and `[` / `]` delimit a loop whose body
//! runs exactly twice.

pub mod buffer;
pub mod enums;
pub mod executor;
pub mod painter;

pub use buffer::CFRBuffer;
pub use enums::{CFRColor, CFRDirection, CFRError};
pub use executor::CommandExecutor;
pub use painter::CFRPainter;

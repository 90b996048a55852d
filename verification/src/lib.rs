//! A terminal stopwatch and countdown: the clock arithmetic, the text codec
//! and the control loop's decisions, with the terminal itself left to the caller.
//!
//! - [`span`]: what is relied on from `std::time::Duration`.
//! - [`decimal`]: numbers in digits, read and written.
//! - [`hms`]: hours, minutes, seconds and tenths, to and from spans and text.
//! - [`parse`]: the text form `[[hour:]minute:]second`.
//! - [`input`]: keys and lines, what they ask for, and the listener's steps.
//! - [`render`]: the status line and how it is drawn in place.
//! - [`session`]: the timer's state and what each turn of its loop decides.

pub mod decimal;
pub mod hms;
pub mod input;
pub mod parse;
pub mod render;
pub mod session;
pub mod span;

pub use hms::Hms;
pub use parse::ParseError;
pub use session::Timer;

//! The control state of a desktop metronome.
//!
//! - [`metronome`] holds the state controller: a tempo counter without
//!   bounds, a beats-per-measure counter that cycles through `0..=8`, and a
//!   mode flag that decides which of the two the Up and Down controls change.
//! - [`laws`] proves what holds of the controller's transitions in every
//!   state.
//! - [`shell`] holds the application model around the controller: it decides
//!   what each message of the user interface does.

pub mod laws;
pub mod metronome;
pub mod shell;

//! Change and edge detection for state variables.
//!
//! [`on_changed`] stores a new value and reports whether it differs from the
//! one it replaces. [`State`] does the same for a boolean and names the
//! direction of the change with a [`Signal`]; [`AtomicState`] is its
//! counterpart for a cell shared between threads, and [`RunOnce`] builds on it
//! to let a single caller through.
//!
//! ```
//! // Boolean state variable, low by default
//! let mut state = trigger::State::default();
//!
//! // Nothing changes while it stays low
//! assert!(!state.update(false).changed());
//!
//! // When updated to true the signal is 'raised'
//! assert!(state.update(true).raised());
//!
//! // When updated to true again the signal is unchanged
//! assert!(!state.update(true).changed());
//!
//! // When updated to false the signal 'fell'
//! assert!(state.update(false).fell());
//! ```

pub mod atomic;
pub mod change;
pub mod once;
pub mod signal;
pub mod state;

pub use atomic::AtomicState;
pub use change::on_changed;
pub use once::RunOnce;
pub use signal::Signal;
pub use state::State;

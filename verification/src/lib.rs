//! The state, events and screen layout of a small terminal status application.
//!
//! The application shows a titled panel with one progress gauge, reacts to two
//! keys and follows a background task that reports its progress on a timer.
//! This crate holds everything the application decides: how an event changes
//! the state, what the background task reports at each tick, and what is drawn
//! where. Reading the terminal, sleeping and painting are left to the caller.
//!
//! Progress is kept in fixed point, in hundredths of a percent, so that every
//! value has exactly one label with two decimal places.

pub mod app;
pub mod event;
pub mod layout;
pub mod progress;
pub mod scene;

//! Automatic clock-in and clock-out against an attendance service: the
//! schedule of a working day, the jittered times at which to punch, and the
//! daily cycle that decides when to authenticate, wait, punch or skip.
//!
//! The library computes and decides; it neither sleeps nor talks to the
//! network. [`scheduler`] holds the daily cycle as a state machine for a
//! driver to run, [`workday_schedule`] the plan of a day and its punch
//! times, [`time`] the instants they are made of. [`calendar`], [`response`]
//! and [`login`] hold what is computed around the service's answers, over
//! the JSON values of [`json`].

pub mod calendar;
pub mod config;
pub mod jitter;
pub mod json;
pub mod login;
pub mod punch;
pub mod response;
pub mod scheduler;
pub mod text;
pub mod time;
pub mod workday_schedule;

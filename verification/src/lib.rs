//! Attendance management for scheduled school events on the intranet.
//!
//! The library models an event's roster of registered students, the rules
//! for deriving and mutating each student's presence state, and the exact
//! wire format the remote intranet expects when the roster is read back
//! or uploaded. Network transport is left to the caller: every function
//! here either computes from plain values or takes the outcome of a
//! transport call as an argument.

pub mod auth;
pub mod event;
pub mod intra;
pub mod student;
pub mod text;

//! Keyboard-driven pointer control: key transitions in, pointer actions out.
//!
//! The crate holds the decisions of the control loop and nothing that touches
//! a device. A caller reads raw events from a keyboard, hands them over as
//! [`translator::RawEvent`] values, and carries out the [`translator::Action`]
//! values that come back on a synthetic pointer.

pub mod config;
pub mod control_loop;
pub mod document;
pub mod keys;
pub mod motion;
pub mod state;
pub mod translator;

//! Protocol core of a USB RF sweep analyzer.
//!
//! The analyzer speaks a protocol of fixed frames over a blocking transport.
//! This crate holds what there is to know about that protocol and about
//! running sweeps with it:
//!
//! - [`commands`] and [`codec`]: the operations the firmware understands and
//!   the frames that carry them, out and back;
//! - [`exchange`]: what a backend and its driver say to each other;
//! - [`analyzer`], [`foxdelta`], [`dummy`], [`backend`]: the capabilities of
//!   an analyzer, and the hardware and the simulated backend that have them;
//! - [`transport`] and [`driver`]: the transport as a backend sees it, and
//!   the part of a driver that needs no clock;
//! - [`token`], [`stream`], [`bridge`]: the cancellation flag and the sample
//!   stream of a running sweep, and the bridge that hands the one device to
//!   one sweep at a time;
//! - [`device`]: a backend together with its transport, as the bridge holds
//!   it.
//!
//! A backend never blocks and never waits. It is a state machine that says
//! what is to be done next, a write, a read, a wait, a sample to hand on,
//! and is told how that went. Whoever drives it decides where that happens.

pub mod analyzer;
pub mod backend;
pub mod bridge;
pub mod codec;
pub mod commands;
pub mod device;
pub mod driver;
pub mod dummy;
pub mod error;
pub mod exchange;
pub mod foxdelta;
pub mod stream;
pub mod token;
pub mod transport;

//! The core of a conformance-test harness for a windowing toolkit: a minimal
//! window manager, an event bridge and a virtual-input controller, written as
//! pure state machines so that every decision they take is verified.
//!
//! The harness runs a private display server per test, acts as its window
//! manager and injects keyboard input through a companion channel. All I/O
//! lives with the caller; this crate decides which requests go on the wire,
//! how the window table changes on each server event, and when a waiting task
//! may proceed.
//!
//! - [`wm`] is the window-manager reactor, [`window`] the record it keeps of
//!   each window, [`props`] and [`hints`] the meaning of window properties,
//!   and [`wait`] the polls of those who wait for a window to reach a state.
//! - [`event`] and [`eventloop`] are the event bridge.
//! - [`seat`], [`device`], [`keyboard`] and [`injection`] are the virtual
//!   input: seats, keyboards, held keys, and the protocol of the injection
//!   channel.
//! - [`wire`] holds the requests and their failure policy, [`atoms`] the
//!   atom table, [`render`] the search for a window's pixel format.
//! - [`lifecycle`] prepares the start of the display server, [`flags`]
//!   decides which tests a backend can run, and [`toolkit`] hands icons to
//!   the toolkit under test.

pub mod atoms;
pub mod device;
pub mod event;
pub mod eventloop;
pub mod flags;
pub mod hints;
pub mod injection;
pub mod keyboard;
pub mod lifecycle;
pub mod props;
pub mod render;
pub mod seat;
pub mod toolkit;
pub mod wait;
pub mod window;
pub mod wire;
pub mod wm;

//! Zone-state reconciliation and debounced broadcast for a remote display
//! of a Roon audio system, together with the logic that its presentation
//! layers share.
//!
//! The heart of the crate is [`roon::RoonClient`], a state machine: the
//! host hands it each upstream event with the time on its clock, and gets
//! back what to do: messages to publish, images to fetch, deadlines at
//! which to call again. The machine never waits and never does I/O, so
//! what it does is stated exactly, in `roon::model`, and the properties
//! that make the display calm (a stop that is taken back is never shown,
//! a stop reported twice is shown at once, no image is fetched twice) are
//! proved of that statement by Verus.
//!
//! The other modules hold what the terminal UI, the command shell, the
//! HTTP server and the clients of UPnP and dCS devices decide and compute;
//! sockets, terminals, files and timers are left to the program that uses
//! the crate.

pub mod cli;
pub mod dcs;
pub mod json;
pub mod roon;
pub mod server;
pub mod text;
pub mod tui;
pub mod upnp;

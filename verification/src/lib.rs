//! Core of an interactive screen color picker: a magnifying-glass overlay
//! tracks the pointer over a full-screen snapshot until a click or key
//! press picks a pixel's color or cancels the session.
//!
//! The library holds everything that is pure computation or decision
//! making, with contracts: the snapshot cache and its clamped color
//! lookup, the magnifier extraction and composition pipeline, the pixel
//! wire encoding, the visual scan, and the session state machine with its
//! grab policies. The display-server connection, the grabs themselves and
//! the event loop live with the caller, who feeds decoded events in and
//! carries the decided actions out.

pub mod magnifier;
pub mod pixel;
pub mod session;
pub mod snapshot;
pub mod visual;

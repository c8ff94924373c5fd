//! Grammar-checking and text-restyling assistant core.
//!
//! The crate holds the request/response orchestration layer of a desktop
//! grammar assistant: prompt construction for the two operations (grammar
//! check, style enhancement), extraction of a JSON payload from a model
//! response that may be wrapped in markdown fences, decoding of the remote
//! endpoint's response envelope, rendering of typed results into display
//! text, the style-preset table, and the application state machine that
//! serializes user-triggered operations. Network and file I/O, clipboard
//! access and widget rendering live outside the library and talk to it
//! through plain values.

pub mod config;
pub mod extract;
pub mod i18n;
pub mod json;
pub mod ops;
pub mod presets;
pub mod prompt;
pub mod results;
pub mod state;
pub mod text;
pub mod wire;

use vstd::prelude::*;

verus! {

} // verus!

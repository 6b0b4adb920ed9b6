//! Structural transcoder for fitness-activity data.
//!
//! Two transformations share one representation, the tagged field record:
//! a flat sequence of workout-step records is compiled into a nested
//! interval tree of steps and repetitions (`workout`), and a session
//! summary plus a telemetry-sample sequence is compiled into an ordered
//! sequence of definition/data protocol messages (`activity`).  Shared
//! numeric scaling and offset conventions live in `codec`, the message
//! model in `messages`.

pub mod activity;
pub mod codec;
pub mod messages;
pub mod workout;

use vstd::prelude::*;

verus! {

/// Failure taxonomy of the transcoder.  Every error is a leaf reported to
/// the caller; the core performs no retries and no silent recovery.
#[derive(Clone, Copy, Debug, PartialEq, Eq, Structural)]
pub enum TranscodeError {
    /// Malformed upstream input, propagated rather than repaired.
    Decode,
    /// A repeat-closing record's count is inconsistent with the number of
    /// prior siblings on the current level.
    Structure,
    /// The telemetry-sample and position sequences differ in length.
    Alignment,
    /// Surfaced verbatim from the external binary writer.
    Encode,
}

/// Reply of the authentication endpoint, decoded at the edge and handed
/// to the caller as plain optional strings.
pub struct AuthResponse {
    pub error: Option<String>,
    pub error_description: Option<String>,
    pub access_token: Option<String>,
}

} // verus!

//! Audio-facing effect payloads: ambient music tracks and the "a line is
//! being spoken" notification with its display duration.

use vstd::prelude::*;

verus! {

/// Ambient music tracks the flow can switch between.
#[derive(Debug, Clone, Copy, PartialEq, Eq, Structural)]
pub enum MusicTrack {
    Background,
    Boss,
}

/// Request to display a spoken line for a computed duration.
/// The duration paces the reveal of the text and its auto-dismissal;
/// see [`crate::npc::line_duration_millis`] for the pacing rule.
#[derive(Debug, Clone)]
pub struct SayEvent {
    pub text: String,
    pub duration_millis: u64,
}

} // verus!

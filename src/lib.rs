//! Editing of the camera's radius and angle tracks of a chart.
//!
//! A track is a time-ordered list of keyframes; the segment between two
//! neighbours is shaped by two ease parameters. The tool lets the user drag a
//! segment's control handle to reshape it, move the radius and angle sliders,
//! and turn both into deferred commands on the tracks. Values, ease
//! parameters, sub-tick times and screen positions are fixed-point integers
//! in steps of `fixed::UNIT`.
//!
//! - `fixed`: clamped fixed-point fractions
//! - `keyframe`: keyframes, tracks and their order
//! - `camera_paths`: the selector between the two tracks
//! - `command`: the commands and what applying them does
//! - `tool`: the edit session, hit-testing and sliders
//! - `preview`: the preview camera pose and track geometry
//! - `laws`: properties that hold across these operations

use vstd::prelude::*;

pub mod fixed;
pub mod keyframe;
pub mod camera_paths;
pub mod command;
pub mod tool;
pub mod preview;
pub mod laws;

verus! {

} // verus!

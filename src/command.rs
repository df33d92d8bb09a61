use vstd::prelude::*;
use vstd::string::*;

use crate::camera_paths::CameraPaths;
use crate::keyframe::{
    control_point, new_control_point, set_ease, sort_by_time, sorted_by_time, with_ease,
    CameraCurves, Keyframe,
};

verus! {

/// A deferred, undoable change to the camera tracks of a chart.
#[derive(Clone, Copy, Debug, PartialEq, Eq, Structural)]
pub enum Command {
    /// Store a new ease shape on the keyframe that starts segment `index`.
    CommitCurveEdit { track: CameraPaths, index: usize, ease_a: i64, ease_b: i64 },
    /// Add a keyframe at `time` to each track whose value is given.
    AddControlPoint { time: u32, radius: Option<i64>, angle: Option<i64> },
}

/// `s` with a control point of value `v` at `time` appended, if a value is
/// given, then sorted by time.
pub open spec fn with_optional_point(s: Seq<Keyframe>, time: u32, v: Option<i64>) -> Seq<
    Keyframe,
> {
    match v {
        Some(v) => sorted_by_time(s.push(control_point(time, v))),
        None => sorted_by_time(s),
    }
}

/// The zoom track after applying `c`.
pub open spec fn applied_zoom(c: Command, s: Seq<Keyframe>) -> Seq<Keyframe> {
    match c {
        Command::CommitCurveEdit { track, index, ease_a, ease_b } => if track
            == CameraPaths::Zoom {
            with_ease(s, index as int, ease_a, ease_b)
        } else {
            s
        },
        Command::AddControlPoint { time, radius, angle } => with_optional_point(s, time, radius),
    }
}

/// The rotation track after applying `c`.
pub open spec fn applied_rotation(c: Command, s: Seq<Keyframe>) -> Seq<Keyframe> {
    match c {
        Command::CommitCurveEdit { track, index, ease_a, ease_b } => if track
            == CameraPaths::RotationX {
            with_ease(s, index as int, ease_a, ease_b)
        } else {
            s
        },
        Command::AddControlPoint { time, radius, angle } => with_optional_point(s, time, angle),
    }
}

fn insert_optional_point(track: &mut Vec<Keyframe>, time: u32, v: Option<i64>)
    ensures
        final(track)@ == with_optional_point(old(track)@, time, v),
{
    if let Some(v) = v {
        track.push(new_control_point(time, v));
    }
    sort_by_time(track);
}

impl Command {
    /// Applies the change. A curve edit sets the ease of one keyframe; one
    /// whose keyframe is gone changes nothing. Adding a control point appends
    /// it to each track that gets one, then sorts both tracks by time,
    /// stably. Applying never fails.
    pub fn apply(&self, curves: &mut CameraCurves)
        ensures
            final(curves).zoom@ == applied_zoom(*self, old(curves).zoom@),
            final(curves).rotation_x@ == applied_rotation(*self, old(curves).rotation_x@),
    {
        match *self {
            Command::CommitCurveEdit { track, index, ease_a, ease_b } => match track {
                CameraPaths::Zoom => set_ease(&mut curves.zoom, index, ease_a, ease_b),
                CameraPaths::RotationX => set_ease(&mut curves.rotation_x, index, ease_a, ease_b),
            },
            Command::AddControlPoint { time, radius, angle } => {
                insert_optional_point(&mut curves.rotation_x, time, angle);
                insert_optional_point(&mut curves.zoom, time, radius);
            },
        }
    }

    /// The human-readable description shown in the undo history.
    pub fn description(&self) -> (r: String)
        ensures
            r@ == (match *self {
                Command::CommitCurveEdit { track: CameraPaths::Zoom, .. } =>
                    "Edit curve for camera radius."@,
                Command::CommitCurveEdit { track: CameraPaths::RotationX, .. } =>
                    "Edit curve for camera angle."@,
                Command::AddControlPoint { .. } => "Added camera control point."@,
            }),
    {
        match self {
            Command::CommitCurveEdit { track: CameraPaths::Zoom, .. } => String::from_str(
                "Edit curve for camera radius.",
            ),
            Command::CommitCurveEdit { track: CameraPaths::RotationX, .. } => String::from_str(
                "Edit curve for camera angle.",
            ),
            Command::AddControlPoint { .. } => String::from_str("Added camera control point."),
        }
    }
}

} // verus!

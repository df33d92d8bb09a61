use vstd::prelude::*;
use vstd::string::*;

use crate::keyframe::{CameraCurves, Keyframe};

verus! {

/// Which of the two camera parameter tracks is shown and edited.
#[derive(Clone, Copy, Debug, PartialEq, Eq, Structural)]
pub enum CameraPaths {
    Zoom,
    RotationX,
}

/// The track of `curves` that `p` selects.
pub open spec fn track_of(p: CameraPaths, curves: CameraCurves) -> Seq<Keyframe> {
    match p {
        CameraPaths::Zoom => curves.zoom@,
        CameraPaths::RotationX => curves.rotation_x@,
    }
}

impl Default for CameraPaths {
    fn default() -> (r: Self)
        ensures
            r == CameraPaths::Zoom,
    {
        CameraPaths::Zoom
    }
}

impl CameraPaths {
    /// The label shown in the track selector.
    pub fn to_string(&self) -> (r: String)
        ensures
            r@ == (match *self {
                CameraPaths::Zoom => "Radius"@,
                CameraPaths::RotationX => "Angle"@,
            }),
    {
        match self {
            CameraPaths::Zoom => String::from_str("Radius"),
            CameraPaths::RotationX => String::from_str("Angle"),
        }
    }

    /// The track that this selector reads from `curves`.
    pub fn track<'a>(&self, curves: &'a CameraCurves) -> (r: &'a Vec<Keyframe>)
        ensures
            r@ == track_of(*self, *curves),
    {
        match self {
            CameraPaths::Zoom => &curves.zoom,
            CameraPaths::RotationX => &curves.rotation_x,
        }
    }
}

} // verus!

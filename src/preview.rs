use vstd::prelude::*;

use crate::fixed::UNIT;

verus! {

/// Width of the previewed track, fixed point.
pub const TRACK_WIDTH: i64 = UNIT;

/// Length of the previewed track, fixed point.
pub const TRACK_LENGTH: i64 = 16 * UNIT;

/// Half the thickness of the thin lines drawn on the track (a hundredth of a
/// unit), fixed point.
pub const LINE_HALF_WIDTH: i64 = 10_000;

/// Camera pose for the preview. Angles are fixed-point degrees, lengths
/// fixed-point track units.
#[derive(Clone, Copy, Debug, PartialEq)]
pub struct CameraPose {
    pub center: (i64, i64, i64),
    pub angle: i128,
    pub field_of_view: i64,
    pub radius: i128,
    pub tilt: i64,
    pub track_length: i64,
}

/// An axis-aligned, single-coloured rectangle in the track's local plane
/// (fixed point; `x` across the track, `y` along it).
#[derive(Clone, Copy, Debug, PartialEq)]
pub struct ColoredRect {
    pub min: (i64, i64),
    pub max: (i64, i64),
    pub color: (u8, u8, u8),
}

/// The preview camera angle, in fixed-point degrees, for an angle track value.
pub open spec fn pose_angle(angle_value: int) -> int {
    -45 * UNIT - 14 * angle_value
}

/// The pose that the preview uses for the given radius and angle track
/// values: `angle = -45 - 14 * angle_value` degrees, `radius = (3.1 -
/// radius_value) / 2` rounded down to the fixed-point step, a 70 degree field
/// of view, no tilt, a 16 unit track, centred on the origin.
pub open spec fn pose_of(radius_value: i64, angle_value: i64, p: CameraPose) -> bool {
    &&& p.center == (0i64, 0i64, 0i64)
    &&& p.angle == pose_angle(angle_value as int)
    &&& p.field_of_view == 70 * UNIT
    &&& p.tilt == 0
    &&& p.track_length == TRACK_LENGTH
    &&& 2 * p.radius <= 3_100_000 - radius_value < 2 * p.radius + 2
}

/// Builds the preview camera pose from the radius and angle track values.
pub fn camera_pose(radius_value: i64, angle_value: i64) -> (r: CameraPose)
    ensures
        pose_of(radius_value, angle_value, r),
{
    let n: i128 = 3_100_000 - radius_value as i128;
    let radius: i128 = if n >= 0 {
        n / 2
    } else {
        -((-n + 1) / 2)
    };
    CameraPose {
        center: (0, 0, 0),
        angle: -45 * UNIT as i128 - 14 * angle_value as i128,
        field_of_view: 70 * UNIT,
        radius,
        tilt: 0,
        track_length: TRACK_LENGTH,
    }
}

/// The `x` of lane line `i` (of five), spaced a sixth of the width apart.
pub open spec fn lane_line_x(i: int) -> int {
    -(TRACK_WIDTH / 2) + (i + 1) * TRACK_WIDTH / 6
}

/// A rectangle spanning the track's length between `x0` and `x1`.
pub open spec fn strip(x0: int, x1: int, color: (u8, u8, u8)) -> ColoredRect {
    ColoredRect { min: (x0 as i64, 0), max: (x1 as i64, TRACK_LENGTH), color }
}

/// The rectangles that make up the previewed track, back to front: the
/// surface, five lane lines, the two side strips and the judgement line.
pub open spec fn track_layout() -> Seq<ColoredRect> {
    let left = -(TRACK_WIDTH / 2);
    let right = TRACK_WIDTH / 2;
    let line = |i: int|
        strip(lane_line_x(i) - LINE_HALF_WIDTH, lane_line_x(i) + LINE_HALF_WIDTH, (100u8, 100u8, 100u8));
    seq![
        strip(left as int, right as int, (50u8, 50u8, 50u8)),
        line(0),
        line(1),
        line(2),
        line(3),
        line(4),
        strip(left as int, left + TRACK_WIDTH / 6, (255u8, 0u8, 100u8)),
        strip(right - TRACK_WIDTH / 6, right as int, (0u8, 100u8, 255u8)),
        ColoredRect {
            min: (left as i64, (-LINE_HALF_WIDTH) as i64),
            max: (right as i64, LINE_HALF_WIDTH),
            color: (255u8, 0u8, 0u8),
        },
    ]
}

/// Returns the rectangles of `track_layout`.
pub fn track_rects() -> (r: Vec<ColoredRect>)
    ensures
        r@ == track_layout(),
{
    let left: i64 = -(TRACK_WIDTH / 2);
    let right: i64 = TRACK_WIDTH / 2;
    let mut r: Vec<ColoredRect> = Vec::new();
    r.push(ColoredRect { min: (left, 0), max: (right, TRACK_LENGTH), color: (50, 50, 50) });
    let mut i: i64 = 0;
    while i < 5
        invariant
            0 <= i <= 5,
            left == -(TRACK_WIDTH / 2),
            r@ == track_layout().take(i + 1),
        decreases 5 - i,
    {
        assert(0 <= (i + 1) * 1_000_000 / 6 <= 1_000_000) by (nonlinear_arith)
            requires
                0 <= i < 5,
        ;
        let x: i64 = left + (i + 1) * TRACK_WIDTH / 6;
        r.push(
            ColoredRect {
                min: (x - LINE_HALF_WIDTH, 0),
                max: (x + LINE_HALF_WIDTH, TRACK_LENGTH),
                color: (100, 100, 100),
            },
        );
        assert(track_layout().take(i + 2) =~= track_layout().take(i + 1).push(
            track_layout()[i + 1],
        ));
        i = i + 1;
    }
    r.push(
        ColoredRect {
            min: (left, 0),
            max: (left + TRACK_WIDTH / 6, TRACK_LENGTH),
            color: (255, 0, 100),
        },
    );
    r.push(
        ColoredRect {
            min: (right - TRACK_WIDTH / 6, 0),
            max: (right, TRACK_LENGTH),
            color: (0, 100, 255),
        },
    );
    r.push(
        ColoredRect {
            min: (left, -LINE_HALF_WIDTH),
            max: (right, LINE_HALF_WIDTH),
            color: (255, 0, 0),
        },
    );
    assert(r@ =~= track_layout());
    r
}

} // verus!

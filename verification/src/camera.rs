//! The orbit camera: its persistent state, the per-frame input fold, and
//! the camera transform builder.
//!
//! The builder takes the sine and cosine of yaw and pitch as fixed-point
//! values (trigonometry itself is left to the caller, outside the verified
//! core) and assembles `Translate(0,0,distance) * RotateX(pitch) *
//! RotateY(yaw)` exactly.

use vstd::prelude::*;
use crate::fixed::{
    clamp, clamp_spec, fx_mul, fx_mul_spec, lemma_div_trunc_bound, lemma_fx_mul_bound, SCALE,
};
use crate::geometry::{in_coord_range, wf_mat, Mat4, MAX_COORD};

verus! {

/// Radians of yaw or pitch added per fixed-point pixel of primary drag
/// (0.01).
pub const ROT_RATE: i64 = 10_000;

/// Pan units added per fixed-point pixel of secondary drag (0.5).
pub const PAN_RATE: i64 = 500_000;

/// Zoom factor lost per fixed-point step of scroll (0.001).
pub const ZOOM_RATE: i64 = 1_000;

/// Smallest multiplicative zoom factor a single scroll can apply (0.05).
pub const MIN_ZOOM_FACTOR: i64 = 50_000;

/// Strictly positive floor for the camera distance (0.001 units), so the
/// projection scale can never become degenerate.
pub const MIN_DISTANCE: i64 = 1_000;

/// Saturation bound for the accumulated yaw and pitch angles, far beyond
/// any useful rotation, kept so the fold can never overflow.
pub const ANGLE_LIMIT: i64 = 1_000_000_000_000;

/// Largest drag or scroll delta accepted in one frame (1000 pixels in
/// fixed-point).
pub const MAX_DELTA: i64 = 1_000_000_000;

/// Camera distance at startup (3.0 units).
pub const START_DISTANCE: i64 = 3_000_000;

/// Pointer and scroll state sampled once at the start of a frame.
#[derive(Clone, Copy, PartialEq, Eq, Structural, Debug)]
pub struct InputState {
    pub is_dragging: bool,
    pub primary_down: bool,
    pub secondary_down: bool,
    pub drag_dx: i64,
    pub drag_dy: i64,
    pub scroll_y: i64,
}

/// Per-frame input deltas the camera accepts.
pub open spec fn wf_input(i: InputState) -> bool {
    &&& -MAX_DELTA <= i.drag_dx <= MAX_DELTA
    &&& -MAX_DELTA <= i.drag_dy <= MAX_DELTA
    &&& -MAX_DELTA <= i.scroll_y <= MAX_DELTA
}

/// The only persistent mutable state of the core: yaw and pitch in
/// fixed-point radians, the camera distance, and the 2D pan offset.
#[derive(Clone, Copy, PartialEq, Eq, Structural, Debug)]
pub struct CameraState {
    pub yaw: i64,
    pub pitch: i64,
    pub distance: i64,
    pub pan_x: i64,
    pub pan_y: i64,
}

/// Camera invariant: angles saturate at `ANGLE_LIMIT`, the distance stays
/// in `[MIN_DISTANCE, MAX_COORD]` (strictly positive), and the pan offset
/// stays in coordinate range.
pub open spec fn wf_camera(c: CameraState) -> bool {
    &&& -ANGLE_LIMIT <= c.yaw <= ANGLE_LIMIT
    &&& -ANGLE_LIMIT <= c.pitch <= ANGLE_LIMIT
    &&& MIN_DISTANCE <= c.distance <= MAX_COORD
    &&& in_coord_range(c.pan_x as int)
    &&& in_coord_range(c.pan_y as int)
}

/// Yaw after a primary drag of `dx`: `yaw - dx * 0.01`, saturated.
pub open spec fn yaw_after(yaw: int, dx: int) -> int {
    clamp_spec(yaw - fx_mul_spec(dx, ROT_RATE as int), -ANGLE_LIMIT as int, ANGLE_LIMIT as int)
}

/// Pitch after a primary drag of `dy`: `pitch + dy * 0.01`, saturated.
pub open spec fn pitch_after(pitch: int, dy: int) -> int {
    clamp_spec(pitch + fx_mul_spec(dy, ROT_RATE as int), -ANGLE_LIMIT as int, ANGLE_LIMIT as int)
}

/// Pan coordinate after a secondary drag of `d`: `pan + d * 0.5`, kept in
/// coordinate range.
pub open spec fn pan_after(pan: int, d: int) -> int {
    clamp_spec(pan + fx_mul_spec(d, PAN_RATE as int), -MAX_COORD as int, MAX_COORD as int)
}

/// Distance after a scroll of `s`: multiplied by `1 - s * 0.001`, the
/// factor floored at `MIN_ZOOM_FACTOR`, the product clamped back into the
/// invariant range.
pub open spec fn distance_after(dist: int, s: int) -> int {
    clamp_spec(
        fx_mul_spec(
            dist,
            if SCALE - fx_mul_spec(s, ZOOM_RATE as int) < MIN_ZOOM_FACTOR {
                MIN_ZOOM_FACTOR as int
            } else {
                SCALE - fx_mul_spec(s, ZOOM_RATE as int)
            },
        ),
        MIN_DISTANCE as int,
        MAX_COORD as int,
    )
}

impl CameraState {
    /// The startup camera: no rotation, no pan, three units back.
    pub fn new() -> (c: CameraState)
        ensures
            c == (CameraState { yaw: 0, pitch: 0, distance: START_DISTANCE, pan_x: 0, pan_y: 0 }),
            wf_camera(c),
    {
        CameraState { yaw: 0, pitch: 0, distance: START_DISTANCE, pan_x: 0, pan_y: 0 }
    }

    /// Fold one frame's input into the camera, exactly as the control
    /// mapping prescribes: primary drag rotates, secondary drag pans, and a
    /// nonzero scroll zooms multiplicatively. Each result is saturated so
    /// the invariant is preserved.
    pub fn apply_input(&mut self, input: InputState)
        requires
            wf_camera(*old(self)),
            wf_input(input),
        ensures
            wf_camera(*final(self)),
            final(self).yaw == if input.is_dragging && input.primary_down {
                yaw_after(old(self).yaw as int, input.drag_dx as int)
            } else {
                old(self).yaw as int
            },
            final(self).pitch == if input.is_dragging && input.primary_down {
                pitch_after(old(self).pitch as int, input.drag_dy as int)
            } else {
                old(self).pitch as int
            },
            final(self).pan_x == if input.is_dragging && !input.primary_down && input.secondary_down {
                pan_after(old(self).pan_x as int, input.drag_dx as int)
            } else {
                old(self).pan_x as int
            },
            final(self).pan_y == if input.is_dragging && !input.primary_down && input.secondary_down {
                pan_after(old(self).pan_y as int, input.drag_dy as int)
            } else {
                old(self).pan_y as int
            },
            final(self).distance == if input.scroll_y != 0 {
                distance_after(old(self).distance as int, input.scroll_y as int)
            } else {
                old(self).distance as int
            },
    {
        proof {
            lemma_fx_mul_bound(ROT_RATE as int, input.drag_dx as int, MAX_DELTA as int);
            lemma_fx_mul_bound(ROT_RATE as int, input.drag_dy as int, MAX_DELTA as int);
            lemma_fx_mul_bound(PAN_RATE as int, input.drag_dx as int, MAX_DELTA as int);
            lemma_fx_mul_bound(PAN_RATE as int, input.drag_dy as int, MAX_DELTA as int);
            assert(forall|a: int, b: int|
                -MAX_DELTA <= a <= MAX_DELTA && -SCALE <= b <= SCALE
                    ==> -(MAX_DELTA * SCALE) <= #[trigger] (a * b) <= MAX_DELTA * SCALE)
                by (nonlinear_arith);
            assert(MAX_DELTA * SCALE <= i64::MAX);
        }
        if input.is_dragging {
            if input.primary_down {
                let dyaw = fx_mul(input.drag_dx, ROT_RATE);
                let dpitch = fx_mul(input.drag_dy, ROT_RATE);
                self.yaw = clamp(self.yaw - dyaw, -ANGLE_LIMIT, ANGLE_LIMIT);
                self.pitch = clamp(self.pitch + dpitch, -ANGLE_LIMIT, ANGLE_LIMIT);
            } else if input.secondary_down {
                let dpx = fx_mul(input.drag_dx, PAN_RATE);
                let dpy = fx_mul(input.drag_dy, PAN_RATE);
                self.pan_x = clamp(self.pan_x + dpx, -MAX_COORD, MAX_COORD);
                self.pan_y = clamp(self.pan_y + dpy, -MAX_COORD, MAX_COORD);
            }
        }
        if input.scroll_y != 0 {
            proof {
                // The scroll shrink term is at most one whole unit, so the
                // zoom factor stays within [MIN_ZOOM_FACTOR, 2 * SCALE].
                assert(-(MAX_DELTA * ZOOM_RATE) <= input.scroll_y * ZOOM_RATE
                    <= MAX_DELTA * ZOOM_RATE) by (nonlinear_arith)
                    requires
                        -MAX_DELTA <= input.scroll_y <= MAX_DELTA,
                ;
                lemma_div_trunc_bound(
                    input.scroll_y * ZOOM_RATE, MAX_DELTA * ZOOM_RATE, SCALE as int);
                assert((MAX_DELTA * ZOOM_RATE) / (SCALE as int) == SCALE);
            }
            let shrink = fx_mul(input.scroll_y, ZOOM_RATE);
            let factor = if SCALE - shrink < MIN_ZOOM_FACTOR {
                MIN_ZOOM_FACTOR
            } else {
                SCALE - shrink
            };
            proof {
                assert(forall|a: int, b: int|
                    MIN_DISTANCE <= a <= MAX_COORD && MIN_ZOOM_FACTOR <= b <= 2 * SCALE
                        ==> 0 <= #[trigger] (a * b) <= MAX_COORD * 2 * SCALE)
                    by (nonlinear_arith);
                assert(MAX_COORD * 2 * SCALE <= i64::MAX);
            }
            let scaled = fx_mul(self.distance, factor);
            self.distance = clamp(scaled, MIN_DISTANCE, MAX_COORD);
        }
    }
}

/// The camera matrix as a function of the rotation's sines and cosines and
/// the distance: the closed form of `Translate(0,0,d) * RotX * RotY`. Each
/// nonzero linear entry is a single fixed-point product, so the assembly
/// rounds each entry once.
pub open spec fn camera_mat_spec(sy: int, cy: int, sp: int, cp: int, d: int) -> Mat4 {
    Mat4 {
        m00: cy as i64, m01: 0, m02: sy as i64, m03: 0,
        m10: fx_mul_spec(sp, sy) as i64, m11: cp as i64,
        m12: (-fx_mul_spec(sp, cy)) as i64, m13: 0,
        m20: (-fx_mul_spec(cp, sy)) as i64, m21: sp as i64,
        m22: fx_mul_spec(cp, cy) as i64, m23: d as i64,
        m30: 0, m31: 0, m32: 0, m33: SCALE,
    }
}

/// Camera transform builder. `sin_yaw`..`cos_pitch` are the fixed-point
/// sine and cosine of the yaw and pitch angles; `distance` pushes the
/// camera back along the view axis. Yaw is applied first, then pitch, then
/// the translation.
pub fn build_camera(sin_yaw: i64, cos_yaw: i64, sin_pitch: i64, cos_pitch: i64, distance: i64)
    -> (m: Mat4)
    requires
        -SCALE <= sin_yaw <= SCALE,
        -SCALE <= cos_yaw <= SCALE,
        -SCALE <= sin_pitch <= SCALE,
        -SCALE <= cos_pitch <= SCALE,
        in_coord_range(distance as int),
    ensures
        m == camera_mat_spec(
            sin_yaw as int, cos_yaw as int, sin_pitch as int, cos_pitch as int, distance as int),
        wf_mat(m),
{
    proof {
        lemma_fx_mul_bound(sin_pitch as int, sin_yaw as int, SCALE as int);
        lemma_fx_mul_bound(sin_pitch as int, cos_yaw as int, SCALE as int);
        lemma_fx_mul_bound(cos_pitch as int, sin_yaw as int, SCALE as int);
        lemma_fx_mul_bound(cos_pitch as int, cos_yaw as int, SCALE as int);
        assert(forall|a: int, b: int|
            -SCALE <= a <= SCALE && -SCALE <= b <= SCALE
                ==> -(SCALE * SCALE) <= #[trigger] (a * b) <= SCALE * SCALE)
            by (nonlinear_arith);
        assert(SCALE * SCALE <= i64::MAX);
    }
    Mat4 {
        m00: cos_yaw, m01: 0, m02: sin_yaw, m03: 0,
        m10: fx_mul(sin_pitch, sin_yaw), m11: cos_pitch,
        m12: -fx_mul(sin_pitch, cos_yaw), m13: 0,
        m20: -fx_mul(cos_pitch, sin_yaw), m21: sin_pitch,
        m22: fx_mul(cos_pitch, cos_yaw), m23: distance,
        m30: 0, m31: 0, m32: 0, m33: SCALE,
    }
}

} // verus!

//! The camera: a world-to-pixel affine projection that the scene keeps
//! locked to the player.
//!
//! One world unit is drawn [`PIX_PER_UNIT`] pixels wide. To keep the
//! projection exact, pixel results are returned in thousandths of a pixel;
//! the renderer divides once when it draws.

use crate::world::space::{add_clamped, GamePos, POS_LIMIT};
use vstd::prelude::*;

verus! {

/// Pixels drawn per world unit.
pub const PIX_PER_UNIT: i64 = 10;

/// Largest viewport extent the camera tracks, in thousandths of a world
/// unit (a generous bound over any real window size).
pub const VIEW_LIMIT: i64 = 1_000_000_000_000;

/// An axis-aligned rectangle; the unit (pixels, or thousandths of a pixel)
/// is the caller's.
#[derive(Clone, Copy, PartialEq, Eq, Structural, Debug)]
pub struct PixRect {
    pub left: i64,
    pub top: i64,
    pub right: i64,
    pub bottom: i64,
}

impl PixRect {
    /// Whether the point lies inside the rectangle (edges on the left and
    /// top count as inside).
    pub open spec fn spec_contains(self, point: (i64, i64)) -> bool {
        self.left <= point.0 < self.right && self.top <= point.1 < self.bottom
    }

    /// Whether the point lies inside the rectangle.
    pub fn contains(&self, point: (i64, i64)) -> (r: bool)
        ensures
            r == self.spec_contains(point),
    {
        self.left <= point.0 && point.0 < self.right && self.top <= point.1 && point.1
            < self.bottom
    }
}

/// Where a world point lands on screen, in thousandths of a pixel: the
/// point is taken relative to the camera, shifted so the camera position is
/// the middle of the viewport, and scaled to pixels.
pub open spec fn spec_game_to_pix(cam: Camera, p: GamePos) -> (int, int) {
    (
        (p.x - cam.pos.x + cam.width / 2) * PIX_PER_UNIT,
        (p.y - cam.pos.y + cam.height / 2) * PIX_PER_UNIT,
    )
}

/// World-to-pixel projector, following a world position, with the viewport
/// extent in thousandths of a world unit.
pub struct Camera {
    pub pos: GamePos,
    pub width: i64,
    pub height: i64,
}

impl Camera {
    /// Position within world limits and a sane, non-negative viewport.
    pub open spec fn wf(self) -> bool {
        &&& self.pos.in_pos_bounds()
        &&& 0 <= self.width <= VIEW_LIMIT
        &&& 0 <= self.height <= VIEW_LIMIT
    }

    pub fn new(pos: GamePos, width: i64, height: i64) -> (r: Camera)
        ensures
            r == (Camera { pos, width, height }),
    {
        Camera { pos, width, height }
    }

    /// Translates the camera, clamped to world limits.
    pub fn moove(&mut self, change_pos: GamePos)
        requires
            old(self).wf(),
            change_pos.in_pos_bounds(),
        ensures
            final(self).pos.x == crate::world::space::spec_clamp(
                old(self).pos.x + change_pos.x,
                POS_LIMIT as int,
            ),
            final(self).pos.y == crate::world::space::spec_clamp(
                old(self).pos.y + change_pos.y,
                POS_LIMIT as int,
            ),
            final(self).width == old(self).width,
            final(self).height == old(self).height,
            final(self).wf(),
    {
        self.pos = GamePos {
            x: add_clamped(self.pos.x, change_pos.x, POS_LIMIT),
            y: add_clamped(self.pos.y, change_pos.y, POS_LIMIT),
        };
    }

    /// Projects a world point to screen, in thousandths of a pixel.
    pub fn game_to_pix(&self, game_pos: GamePos) -> (r: (i64, i64))
        requires
            self.wf(),
            -2 * POS_LIMIT <= game_pos.x <= 2 * POS_LIMIT,
            -2 * POS_LIMIT <= game_pos.y <= 2 * POS_LIMIT,
        ensures
            (r.0 as int, r.1 as int) == spec_game_to_pix(*self, game_pos),
    {
        let half_w: i64 = ((self.width as u64) / 2) as i64;
        let half_h: i64 = ((self.height as u64) / 2) as i64;
        let px: i64 = (game_pos.x - self.pos.x + half_w) * PIX_PER_UNIT;
        let py: i64 = (game_pos.y - self.pos.y + half_h) * PIX_PER_UNIT;
        (px, py)
    }
}

} // verus!

//! Background tiles: static, purely decorative entities.
//!
//! A tile shows one fixed atlas cell. It answers the common entity surface,
//! but animation control and acceleration are no-ops and only `moove`
//! offsets its position.

use crate::entity::{entity_draw_cmd, spec_draw_cmd, Atlas, DrawCmd, SIZE_LIMIT};
use crate::screen::camera::Camera;
use crate::utility::animation::{Animation, AnimationSelectError};
use crate::world::space::{add_clamped, spec_clamp, GamePos, POS_LIMIT};
use vstd::prelude::*;

verus! {

/// Edge of a tile, in thousandths of a world unit.
pub const TILE_SIZE_MILLI: i64 = 5_000;

/// Cells across and down the tile atlas.
pub const TILE_GRID: u16 = 5;

pub struct Tile {
    pub pos: GamePos,
    pub anim: Animation,
    pub game_size: (i64, i64),
}

impl Tile {
    pub open spec fn wf(self) -> bool {
        &&& self.pos.in_pos_bounds()
        &&& self.anim.wf()
        &&& 0 <= self.game_size.0 <= SIZE_LIMIT
        &&& 0 <= self.game_size.1 <= SIZE_LIMIT
    }

    /// A tile at `pos` showing atlas cell `display`.
    pub fn new(display: (u16, u16), pos: GamePos) -> (r: Tile)
        requires
            pos.in_pos_bounds(),
        ensures
            r.pos == pos,
            r.game_size == (TILE_SIZE_MILLI, TILE_SIZE_MILLI),
            r.anim.current == display,
            r.anim.default_cell == display,
            r.anim.cell_grid == (TILE_GRID, TILE_GRID),
            r.anim.frames@.len() == 0,
            r.wf(),
    {
        let anim = Animation::new((TILE_GRID, TILE_GRID), Vec::new(), display, 100);
        Tile { pos, anim, game_size: (TILE_SIZE_MILLI, TILE_SIZE_MILLI) }
    }

    pub fn draw(&self, camera: &Camera) -> (r: DrawCmd)
        requires
            self.wf(),
            camera.wf(),
        ensures
            r == spec_draw_cmd(Atlas::Tile, self.anim, self.pos, self.game_size, *camera),
    {
        entity_draw_cmd(Atlas::Tile, &self.anim, self.pos, self.game_size, camera)
    }

    /// Offsets the tile within world limits.
    pub fn moove(&mut self, change_pos: GamePos)
        requires
            old(self).wf(),
            change_pos.in_pos_bounds(),
        ensures
            final(self).pos.x == spec_clamp(old(self).pos.x + change_pos.x, POS_LIMIT as int),
            final(self).pos.y == spec_clamp(old(self).pos.y + change_pos.y, POS_LIMIT as int),
            final(self).anim == old(self).anim,
            final(self).game_size == old(self).game_size,
            final(self).wf(),
    {
        self.pos = GamePos {
            x: add_clamped(self.pos.x, change_pos.x, POS_LIMIT),
            y: add_clamped(self.pos.y, change_pos.y, POS_LIMIT),
        };
    }

    /// Tiles ignore animation selection.
    pub fn set_anim(&mut self, anim_name: &str) -> (r: Result<(), AnimationSelectError>)
        ensures
            *final(self) == *old(self),
            r is Ok,
    {
        let _ = anim_name;
        Ok(())
    }

    /// Tiles ignore animation interception.
    pub fn intercept_anim(&mut self, anim_name: &str) -> (r: Result<(), AnimationSelectError>)
        ensures
            *final(self) == *old(self),
            r is Ok,
    {
        let _ = anim_name;
        Ok(())
    }

    /// Tiles ignore animation clearing.
    pub fn remove_anim(&mut self)
        ensures
            *final(self) == *old(self),
    {
    }

    /// Tiles ignore acceleration.
    pub fn accelerate(&mut self, vector: GamePos)
        ensures
            *final(self) == *old(self),
    {
        let _ = vector;
    }

    pub fn get_pos(&self) -> (r: GamePos)
        ensures
            r == self.pos,
    {
        self.pos
    }
}

} // verus!

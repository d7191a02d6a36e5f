//! Entities and their shared per-tick physics.
//!
//! Player, goblin and tile form a closed set of entity kinds with a common
//! capability surface: draw, move, accelerate, animation control, position
//! query. The per-tick integration — gravity, drag, ground clamp, facing
//! update — is one shared function with one spec-level transition, so its
//! laws hold for every moving entity.

use crate::screen::game::{DRAG_KEEP_MILLI, GRAVITY_MILLI};
use crate::world::space::{
    add_clamped, mul_milli, spec_clamp, spec_mul_milli, GamePos, POS_LIMIT, VEL_LIMIT,
};
use vstd::prelude::*;

pub mod goblin;
pub mod player;
pub mod tile;

verus! {

/// Velocity change per accelerate call is the handed vector scaled by this
/// many thousandths.
pub const SPEED_SCALE_MILLI: i64 = 100;

/// Horizontal facing of a moving entity.
#[derive(Clone, Copy, PartialEq, Eq, Structural, Debug)]
pub enum Direction {
    Left,
    Right,
}

/// Which sprite atlas a draw command blits from.
#[derive(Clone, Copy, PartialEq, Eq, Structural, Debug)]
pub enum Atlas {
    Player,
    Goblin,
    Tile,
}

/// One image-region blit: cell `cell` of an atlas divided into `grid`
/// cells, drawn into `dest` (in thousandths of a pixel).
#[derive(Clone, Copy, PartialEq, Eq, Debug)]
pub struct DrawCmd {
    pub atlas: Atlas,
    pub grid: (u16, u16),
    pub cell: (u16, u16),
    pub dest: crate::screen::camera::PixRect,
}

/// Horizontal velocity after one tick: dragged, with no gravity term.
pub open spec fn spec_tick_vel_x(vel: GamePos) -> int {
    spec_mul_milli(vel.x as int, DRAG_KEEP_MILLI as int)
}

/// Vertical velocity after gravity and drag, before the ground clamp.
pub open spec fn spec_tick_vel_y(vel: GamePos) -> int {
    spec_mul_milli(vel.y + GRAVITY_MILLI, DRAG_KEEP_MILLI as int)
}

/// Facing after one tick: the sign of the new horizontal velocity, kept
/// unchanged when that velocity is exactly zero.
pub open spec fn spec_tick_dir(vel: GamePos, dir: Direction) -> Direction {
    if spec_tick_vel_x(vel) > 0 {
        Direction::Right
    } else if spec_tick_vel_x(vel) < 0 {
        Direction::Left
    } else {
        dir
    }
}

/// One physics tick: gravity is added to the vertical velocity, both
/// components are dragged, the velocity is added to the position, and a
/// position past the ground plane (y over zero, downward positive) is
/// clamped to the ground with the vertical velocity zeroed. Horizontal
/// position stays within world limits.
pub open spec fn spec_integrate(pos: GamePos, vel: GamePos, dir: Direction) -> (
    GamePos,
    GamePos,
    Direction,
) {
    let vx = spec_tick_vel_x(vel);
    let vy = spec_tick_vel_y(vel);
    let px = spec_clamp(pos.x + vx, POS_LIMIT as int);
    let raw_y = pos.y + vy;
    let grounded = raw_y > 0;
    let py = if grounded {
        0
    } else {
        spec_clamp(raw_y, POS_LIMIT as int)
    };
    (
        GamePos { x: px as i64, y: py as i64 },
        GamePos { x: vx as i64, y: if grounded {
            0
        } else {
            vy as i64
        } },
        spec_tick_dir(vel, dir),
    )
}

/// Velocity after an accelerate call: the vector, scaled down by
/// `SPEED_SCALE_MILLI` thousandths, is added to the velocity, which stays
/// within velocity limits.
pub open spec fn spec_accelerate(vel: GamePos, vector: GamePos) -> GamePos {
    GamePos {
        x: spec_clamp(
            vel.x + spec_mul_milli(vector.x as int, SPEED_SCALE_MILLI as int),
            VEL_LIMIT as int,
        ) as i64,
        y: spec_clamp(
            vel.y + spec_mul_milli(vector.y as int, SPEED_SCALE_MILLI as int),
            VEL_LIMIT as int,
        ) as i64,
    }
}

/// Dragging an in-range velocity component (after at most one gravity term)
/// lands back inside the velocity limit.
proof fn lemma_drag_restores_bound(v: int)
    requires
        -VEL_LIMIT - GRAVITY_MILLI <= v <= VEL_LIMIT + GRAVITY_MILLI,
    ensures
        -VEL_LIMIT <= spec_mul_milli(v, DRAG_KEEP_MILLI as int) <= VEL_LIMIT,
{
    let m = if v >= 0 {
        v
    } else {
        -v
    };
    assert(m * 900 <= (VEL_LIMIT + GRAVITY_MILLI) * 900) by (nonlinear_arith)
        requires
            0 <= m <= VEL_LIMIT + GRAVITY_MILLI,
    ;
    vstd::arithmetic::div_mod::lemma_div_is_ordered(
        m * 900,
        (VEL_LIMIT + GRAVITY_MILLI) * 900,
        1000,
    );
    vstd::arithmetic::mul::lemma_mul_nonnegative(m, 900);
    vstd::arithmetic::div_mod::lemma_div_pos_is_pos(m * 900, 1000);
}

/// One physics tick over position, velocity and facing.
pub fn integrate(pos: GamePos, vel: GamePos, dir: Direction) -> (r: (GamePos, GamePos, Direction))
    requires
        pos.in_pos_bounds(),
        vel.in_vel_bounds(),
    ensures
        r == spec_integrate(pos, vel, dir),
        r.0.in_pos_bounds(),
        r.1.in_vel_bounds(),
        r.0.y <= 0,
{
    proof {
        lemma_drag_restores_bound(vel.x as int);
        lemma_drag_restores_bound(vel.y + GRAVITY_MILLI);
    }
    let vy_pulled: i64 = vel.y + GRAVITY_MILLI;
    let vx: i64 = mul_milli(vel.x, DRAG_KEEP_MILLI);
    let vy: i64 = mul_milli(vy_pulled, DRAG_KEEP_MILLI);
    let px: i64 = add_clamped(pos.x, vx, POS_LIMIT);
    let raw_y: i64 = pos.y + vy;
    let (py, vy_final): (i64, i64) = if raw_y > 0 {
        (0, 0)
    } else {
        (add_clamped(pos.y, vy, POS_LIMIT), vy)
    };
    let new_dir: Direction = if vx > 0 {
        Direction::Right
    } else if vx < 0 {
        Direction::Left
    } else {
        dir
    };
    (GamePos { x: px, y: py }, GamePos { x: vx, y: vy_final }, new_dir)
}

/// Velocity after an accelerate call.
pub fn accelerate_vel(vel: GamePos, vector: GamePos) -> (r: GamePos)
    requires
        vel.in_vel_bounds(),
        vector.in_pos_bounds(),
    ensures
        r == spec_accelerate(vel, vector),
        r.in_vel_bounds(),
{
    let dx: i64 = mul_milli(vector.x, SPEED_SCALE_MILLI);
    let dy: i64 = mul_milli(vector.y, SPEED_SCALE_MILLI);
    GamePos { x: add_clamped(vel.x, dx, VEL_LIMIT), y: add_clamped(vel.y, dy, VEL_LIMIT) }
}

/// Largest entity display extent, in thousandths of a world unit.
pub const SIZE_LIMIT: i64 = 1_000_000;

/// The blit that draws an entity: the animation's current atlas cell into
/// the projection of the entity's bounding rectangle.
pub open spec fn spec_draw_cmd(
    atlas: Atlas,
    anim: crate::utility::animation::Animation,
    pos: GamePos,
    game_size: (i64, i64),
    cam: crate::screen::camera::Camera,
) -> DrawCmd {
    let p0 = crate::screen::camera::spec_game_to_pix(cam, pos);
    let p1 = crate::screen::camera::spec_game_to_pix(
        cam,
        GamePos { x: (pos.x + game_size.0) as i64, y: (pos.y + game_size.1) as i64 },
    );
    DrawCmd {
        atlas,
        grid: anim.cell_grid,
        cell: anim.current,
        dest: crate::screen::camera::PixRect {
            left: p0.0 as i64,
            top: p0.1 as i64,
            right: p1.0 as i64,
            bottom: p1.1 as i64,
        },
    }
}

/// Builds the draw command for one entity.
pub fn entity_draw_cmd(
    atlas: Atlas,
    anim: &crate::utility::animation::Animation,
    pos: GamePos,
    game_size: (i64, i64),
    cam: &crate::screen::camera::Camera,
) -> (r: DrawCmd)
    requires
        cam.wf(),
        pos.in_pos_bounds(),
        0 <= game_size.0 <= SIZE_LIMIT,
        0 <= game_size.1 <= SIZE_LIMIT,
    ensures
        r == spec_draw_cmd(atlas, *anim, pos, game_size, *cam),
{
    let p0: (i64, i64) = cam.game_to_pix(pos);
    let far: GamePos = GamePos { x: pos.x + game_size.0, y: pos.y + game_size.1 };
    let p1: (i64, i64) = cam.game_to_pix(far);
    DrawCmd {
        atlas,
        grid: anim.cell_grid,
        cell: anim.current,
        dest: crate::screen::camera::PixRect { left: p0.0, top: p0.1, right: p1.0, bottom: p1.1 },
    }
}

/// The closed set of entity kinds, dispatched without dynamic calls. Every
/// kind answers the same surface: draw, move, accelerate, animation
/// control, position query.
pub enum Entity {
    Player(crate::entity::player::Player),
    Goblin(crate::entity::goblin::Goblin),
    Tile(crate::entity::tile::Tile),
}

/// An entity moved by `c`: the player shifts and turns toward the change,
/// the goblin takes it as its new velocity, the tile shifts.
pub open spec fn spec_entity_moove(e: Entity, c: GamePos) -> Entity {
    match e {
        Entity::Player(p) => Entity::Player(
            crate::entity::player::Player {
                pos: GamePos {
                    x: spec_clamp(p.pos.x + c.x, POS_LIMIT as int) as i64,
                    y: spec_clamp(p.pos.y + c.y, POS_LIMIT as int) as i64,
                },
                direction: if c.x > 0 {
                    Direction::Right
                } else if c.x < 0 {
                    Direction::Left
                } else {
                    p.direction
                },
                ..p
            },
        ),
        Entity::Goblin(g) => Entity::Goblin(crate::entity::goblin::Goblin { velocity: c, ..g }),
        Entity::Tile(t) => Entity::Tile(
            crate::entity::tile::Tile {
                pos: GamePos {
                    x: spec_clamp(t.pos.x + c.x, POS_LIMIT as int) as i64,
                    y: spec_clamp(t.pos.y + c.y, POS_LIMIT as int) as i64,
                },
                ..t
            },
        ),
    }
}

/// The blit that draws an entity, whatever its kind.
pub open spec fn spec_entity_draw(e: Entity, cam: crate::screen::camera::Camera) -> DrawCmd {
    match e {
        Entity::Player(p) => spec_draw_cmd(Atlas::Player, p.anim, p.pos, p.screen_size, cam),
        Entity::Goblin(g) => spec_draw_cmd(Atlas::Goblin, g.anim, g.pos, g.game_size, cam),
        Entity::Tile(t) => spec_draw_cmd(Atlas::Tile, t.anim, t.pos, t.game_size, cam),
    }
}

impl Entity {
    pub open spec fn wf(self) -> bool {
        match self {
            Entity::Player(p) => p.wf(),
            Entity::Goblin(g) => g.wf(),
            Entity::Tile(t) => t.wf(),
        }
    }

    pub open spec fn spec_pos(self) -> GamePos {
        match self {
            Entity::Player(p) => p.pos,
            Entity::Goblin(g) => g.pos,
            Entity::Tile(t) => t.pos,
        }
    }

    pub fn draw(&self, camera: &crate::screen::camera::Camera) -> (r: DrawCmd)
        requires
            self.wf(),
            camera.wf(),
        ensures
            r == spec_entity_draw(*self, *camera),
    {
        match self {
            Entity::Player(p) => p.draw(camera),
            Entity::Goblin(g) => g.draw(camera),
            Entity::Tile(t) => t.draw(camera),
        }
    }

    pub fn moove(&mut self, change_pos: GamePos)
        requires
            old(self).wf(),
            change_pos.in_pos_bounds(),
            change_pos.in_vel_bounds(),
        ensures
            *final(self) == spec_entity_moove(*old(self), change_pos),
            final(self).wf(),
    {
        match self {
            Entity::Player(p) => p.moove(change_pos),
            Entity::Goblin(g) => g.moove(change_pos),
            Entity::Tile(t) => t.moove(change_pos),
        }
    }

    /// Selects an animation mode; tiles ignore the call.
    pub fn set_anim(&mut self, anim_name: &str) -> (r: Result<
        (),
        crate::utility::animation::AnimationSelectError,
    >)
        requires
            old(self).wf(),
        ensures
            (match *old(self) {
                Entity::Player(p) => (match crate::entity::player::spec_map_animation(
                    anim_name@,
                    p.direction,
                ) {
                    Some(full) => *final(self) == Entity::Player(
                        crate::entity::player::Player { anim: p.anim.spec_select(full), ..p },
                    ) && (r is Ok <==> p.anim.has_anim(full)),
                    None => r is Err && *final(self) == *old(self),
                }),
                Entity::Goblin(g) => (match crate::entity::goblin::spec_map_animation(
                    anim_name@,
                    g.direction,
                ) {
                    Some(full) => *final(self) == Entity::Goblin(
                        crate::entity::goblin::Goblin { anim: g.anim.spec_select(full), ..g },
                    ) && (r is Ok <==> g.anim.has_anim(full)),
                    None => r is Err && *final(self) == *old(self),
                }),
                Entity::Tile(_) => r is Ok && *final(self) == *old(self),
            }),
            final(self).wf(),
    {
        match self {
            Entity::Player(p) => p.set_anim(anim_name),
            Entity::Goblin(g) => g.set_anim(anim_name),
            Entity::Tile(t) => t.set_anim(anim_name),
        }
    }

    /// Intercepts with an animation mode; tiles ignore the call.
    pub fn intercept_anim(&mut self, anim_name: &str) -> (r: Result<
        (),
        crate::utility::animation::AnimationSelectError,
    >)
        requires
            old(self).wf(),
        ensures
            (match *old(self) {
                Entity::Player(p) => (match crate::entity::player::spec_map_animation(
                    anim_name@,
                    p.direction,
                ) {
                    Some(full) => *final(self) == Entity::Player(
                        crate::entity::player::Player { anim: p.anim.spec_intercept(full), ..p },
                    ) && (r is Ok <==> p.anim.has_anim(full)),
                    None => r is Err && *final(self) == *old(self),
                }),
                Entity::Goblin(g) => (match crate::entity::goblin::spec_map_animation(
                    anim_name@,
                    g.direction,
                ) {
                    Some(full) => *final(self) == Entity::Goblin(
                        crate::entity::goblin::Goblin { anim: g.anim.spec_intercept(full), ..g },
                    ) && (r is Ok <==> g.anim.has_anim(full)),
                    None => r is Err && *final(self) == *old(self),
                }),
                Entity::Tile(_) => r is Ok && *final(self) == *old(self),
            }),
            final(self).wf(),
    {
        match self {
            Entity::Player(p) => p.intercept_anim(anim_name),
            Entity::Goblin(g) => g.intercept_anim(anim_name),
            Entity::Tile(t) => t.intercept_anim(anim_name),
        }
    }

    /// Clears the animation selection; tiles ignore the call.
    pub fn remove_anim(&mut self)
        requires
            old(self).wf(),
        ensures
            (match *old(self) {
                Entity::Player(p) => *final(self) == Entity::Player(
                    crate::entity::player::Player { anim: p.anim.spec_deselect(), ..p },
                ),
                Entity::Goblin(g) => *final(self) == Entity::Goblin(
                    crate::entity::goblin::Goblin { anim: g.anim.spec_deselect(), ..g },
                ),
                Entity::Tile(_) => *final(self) == *old(self),
            }),
            final(self).wf(),
    {
        match self {
            Entity::Player(p) => p.remove_anim(),
            Entity::Goblin(g) => g.remove_anim(),
            Entity::Tile(t) => t.remove_anim(),
        }
    }

    /// Adds the scaled vector to the velocity; tiles ignore the call.
    pub fn accelerate(&mut self, vector: GamePos)
        requires
            old(self).wf(),
            vector.in_pos_bounds(),
        ensures
            (match *old(self) {
                Entity::Player(p) => *final(self) == Entity::Player(
                    crate::entity::player::Player {
                        velocity: spec_accelerate(p.velocity, vector),
                        ..p
                    },
                ),
                Entity::Goblin(g) => *final(self) == Entity::Goblin(
                    crate::entity::goblin::Goblin {
                        velocity: spec_accelerate(g.velocity, vector),
                        ..g
                    },
                ),
                Entity::Tile(_) => *final(self) == *old(self),
            }),
            final(self).wf(),
    {
        match self {
            Entity::Player(p) => p.accelerate(vector),
            Entity::Goblin(g) => g.accelerate(vector),
            Entity::Tile(t) => t.accelerate(vector),
        }
    }

    pub fn get_pos(&self) -> (r: GamePos)
        ensures
            r == self.spec_pos(),
    {
        match self {
            Entity::Player(p) => p.get_pos(),
            Entity::Goblin(g) => g.get_pos(),
            Entity::Tile(t) => t.get_pos(),
        }
    }
}

/// Law (ground clamp): a physics tick never leaves an entity past the
/// ground plane — the new vertical position is at most zero — and whenever
/// the unclamped update would land past it, the result is exactly the
/// ground with the vertical velocity zeroed.
pub proof fn lemma_ground_clamp(pos: GamePos, vel: GamePos, dir: Direction)
    requires
        pos.in_pos_bounds(),
        vel.in_vel_bounds(),
    ensures
        spec_integrate(pos, vel, dir).0.y <= 0,
        pos.y + spec_tick_vel_y(vel) > 0 ==> spec_integrate(pos, vel, dir).0.y == 0
            && spec_integrate(pos, vel, dir).1.y == 0,
{
    lemma_drag_restores_bound(vel.y + GRAVITY_MILLI);
}

/// Law (direction hysteresis): with horizontal velocity exactly zero, a
/// physics tick keeps the facing, whatever it was.
pub proof fn lemma_direction_hysteresis(pos: GamePos, vel: GamePos, dir: Direction)
    requires
        pos.in_pos_bounds(),
        vel.in_vel_bounds(),
        vel.x == 0,
    ensures
        spec_integrate(pos, vel, dir).2 == dir,
{
    assert(spec_tick_vel_x(vel) == 0);
}

} // verus!

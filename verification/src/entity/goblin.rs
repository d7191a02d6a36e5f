//! The goblin entity and its per-tick decision rule.

use crate::entity::{
    accelerate_vel, entity_draw_cmd, integrate, spec_accelerate, spec_draw_cmd, spec_integrate,
    Atlas, Direction, DrawCmd, SIZE_LIMIT,
};
use crate::screen::camera::Camera;
use crate::screen::game::GOBLIN_ATTACK_DIST_MILLI;
use crate::utility::animation::{cell_run, is_cell_run, AnimSeq, Animation, AnimationSelectError};
use crate::world::space::{GamePos, VEL_LIMIT};
use vstd::prelude::*;

verus! {

/// Edge of the goblin sprite, in thousandths of a world unit.
pub const GOBLIN_SIZE_MILLI: i64 = 10_000;

/// Horizontal speeds smaller than this count as standing still when the
/// goblin picks between its idle and movement animations.
pub const IDLE_EPS_MILLI: i64 = 10;

/// The animation keys the goblin's atlas must offer: attack, idle and
/// movement, each per facing.
pub open spec fn goblin_has_required_anims(a: Animation) -> bool {
    &&& a.has_anim("attack left"@)
    &&& a.has_anim("attack right"@)
    &&& a.has_anim("idle left"@)
    &&& a.has_anim("idle right"@)
    &&& a.has_anim("move left"@)
    &&& a.has_anim("move right"@)
}

/// The coarse animation mode combined with the facing into the concrete
/// key, for the modes the goblin knows; any other name is unknown.
pub open spec fn spec_map_animation(name: Seq<char>, dir: Direction) -> Option<Seq<char>> {
    if name == "move"@ {
        Some(
            if dir is Left {
                "move left"@
            } else {
                "move right"@
            },
        )
    } else if name == "attack"@ {
        Some(
            if dir is Left {
                "attack left"@
            } else {
                "attack right"@
            },
        )
    } else if name == "idle"@ {
        Some(
            if dir is Left {
                "idle left"@
            } else {
                "idle right"@
            },
        )
    } else {
        None
    }
}

/// The coarse mode a goblin is in after a physics tick: attacking wins,
/// else near-zero horizontal speed is idle, else movement.
pub open spec fn spec_mode(attacking: bool, vx: int) -> Seq<char> {
    if attacking {
        "attack"@
    } else if -IDLE_EPS_MILLI < vx < IDLE_EPS_MILLI {
        "idle"@
    } else {
        "move"@
    }
}

pub struct Goblin {
    pub pos: GamePos,
    pub anim: Animation,
    pub game_size: (i64, i64),
    pub direction: Direction,
    pub velocity: GamePos,
    pub attacking: bool,
}

/// The goblin after one decision step against the player's position:
/// beyond the attack distance it accelerates toward the player; within the
/// attack distance (by straight-line distance) it halts horizontally and
/// raises its attacking flag; in the horizontal band between, it coasts.
pub open spec fn spec_seek(g: Goblin, player_pos: GamePos) -> Goblin {
    let dx = g.pos.x - player_pos.x;
    let dy = g.pos.y - player_pos.y;
    if dx > GOBLIN_ATTACK_DIST_MILLI {
        Goblin { velocity: spec_accelerate(g.velocity, GamePos { x: -1000i64, y: 0i64 }), ..g }
    } else if dx < -GOBLIN_ATTACK_DIST_MILLI {
        Goblin { velocity: spec_accelerate(g.velocity, GamePos { x: 1000i64, y: 0i64 }), ..g }
    } else if dx * dx + dy * dy < GOBLIN_ATTACK_DIST_MILLI * GOBLIN_ATTACK_DIST_MILLI {
        Goblin { velocity: GamePos { x: 0, y: g.velocity.y }, attacking: true, ..g }
    } else {
        g
    }
}

/// The goblin's atlas layout, exactly: the two attack runs play once, the
/// movement and idle runs loop, one row per facing, and no other entries.
pub open spec fn goblin_frame_table(frames: Seq<AnimSeq>) -> bool {
    &&& frames.len() == 6
    &&& frames[0].name@ == "attack right"@ && !frames[0].looping && is_cell_run(
        frames[0].cells@,
        0,
        4,
        2,
    )
    &&& frames[1].name@ == "attack left"@ && !frames[1].looping && is_cell_run(
        frames[1].cells@,
        0,
        4,
        3,
    )
    &&& frames[2].name@ == "move right"@ && frames[2].looping && is_cell_run(
        frames[2].cells@,
        0,
        4,
        0,
    )
    &&& frames[3].name@ == "move left"@ && frames[3].looping && is_cell_run(
        frames[3].cells@,
        0,
        4,
        1,
    )
    &&& frames[4].name@ == "idle right"@ && frames[4].looping && is_cell_run(
        frames[4].cells@,
        0,
        1,
        0,
    )
    &&& frames[5].name@ == "idle left"@ && frames[5].looping && is_cell_run(
        frames[5].cells@,
        0,
        1,
        1,
    )
}

/// A goblin as `Goblin::new` makes it: at the spawn point, at rest, facing
/// right, not attacking, nothing selected, the frame timer at zero, with
/// exactly the standard atlas layout.
pub open spec fn is_fresh_goblin(g: Goblin) -> bool {
    &&& g.pos == (GamePos { x: 0, y: 0 })
    &&& g.velocity == (GamePos { x: 0, y: 0 })
    &&& g.direction == Direction::Right
    &&& g.attacking == false
    &&& g.game_size == (GOBLIN_SIZE_MILLI, GOBLIN_SIZE_MILLI)
    &&& g.anim.selected is None
    &&& g.anim.intercepted is None
    &&& g.anim.current == g.anim.default_cell
    &&& g.anim.default_cell == (0u16, 0u16)
    &&& g.anim.cell_grid == (10u16, 10u16)
    &&& g.anim.last_advance_ms == 0
    &&& g.anim.frame_interval_ms == 100
    &&& goblin_frame_table(g.anim.frames@)
}

/// The goblin after one full per-tick step: the physics tick, one
/// frame-timer step, the attacking flag cleared when the attack run has
/// just finished, and the animation policy applied — an intercept with the
/// attack key while the flag holds, else a selection of idle or movement by
/// horizontal speed.
pub open spec fn spec_goblin_tick(g: Goblin, now: u64) -> Goblin {
    let moved = spec_integrate(g.pos, g.velocity, g.direction);
    let stepped = g.anim.spec_advance(now);
    let attacking = g.attacking && !stepped.1;
    let key = spec_map_animation(spec_mode(attacking, moved.1.x as int), moved.2)->Some_0;
    let anim = if attacking {
        stepped.0.spec_intercept(key)
    } else {
        stepped.0.spec_select(key)
    };
    Goblin {
        pos: moved.0,
        velocity: moved.1,
        direction: moved.2,
        attacking,
        anim,
        ..g
    }
}

impl Goblin {
    pub open spec fn wf(self) -> bool {
        &&& self.pos.in_pos_bounds()
        &&& self.velocity.in_vel_bounds()
        &&& self.anim.wf()
        &&& goblin_has_required_anims(self.anim)
        &&& 0 <= self.game_size.0 <= SIZE_LIMIT
        &&& 0 <= self.game_size.1 <= SIZE_LIMIT
    }

    /// A fresh goblin: at the spawn point, at rest, facing right, not
    /// attacking, with the standard atlas layout (the attack runs play
    /// once; idle and movement loop).
    pub fn new() -> (r: Goblin)
        ensures
            is_fresh_goblin(r),
            r.wf(),
    {
        let mut frames: Vec<AnimSeq> = Vec::new();
        frames.push(
            AnimSeq { name: "attack right".to_owned(), looping: false, cells: cell_run(0, 4, 2) },
        );
        frames.push(
            AnimSeq { name: "attack left".to_owned(), looping: false, cells: cell_run(0, 4, 3) },
        );
        frames.push(
            AnimSeq { name: "move right".to_owned(), looping: true, cells: cell_run(0, 4, 0) },
        );
        frames.push(
            AnimSeq { name: "move left".to_owned(), looping: true, cells: cell_run(0, 4, 1) },
        );
        frames.push(
            AnimSeq { name: "idle right".to_owned(), looping: true, cells: cell_run(0, 1, 0) },
        );
        frames.push(
            AnimSeq { name: "idle left".to_owned(), looping: true, cells: cell_run(0, 1, 1) },
        );
        proof {
            reveal_strlit("attack right");
            reveal_strlit("attack left");
            reveal_strlit("move right");
            reveal_strlit("move left");
            reveal_strlit("idle right");
            reveal_strlit("idle left");
            assert(frames@[0].name@ == "attack right"@);
            assert(frames@[1].name@ == "attack left"@);
            assert(frames@[2].name@ == "move right"@);
            assert(frames@[3].name@ == "move left"@);
            assert(frames@[4].name@ == "idle right"@);
            assert(frames@[5].name@ == "idle left"@);
            assert(("move right"@)[0] != ("idle right"@)[0]);
            assert(("move left"@)[0] != ("idle left"@)[0]);
        }
        let anim = Animation::new((10, 10), frames, (0, 0), 100);
        Goblin {
            pos: GamePos { x: 0, y: 0 },
            anim,
            game_size: (GOBLIN_SIZE_MILLI, GOBLIN_SIZE_MILLI),
            direction: Direction::Right,
            velocity: GamePos { x: 0, y: 0 },
            attacking: false,
        }
    }

    pub fn draw(&self, camera: &Camera) -> (r: DrawCmd)
        requires
            self.wf(),
            camera.wf(),
        ensures
            r == spec_draw_cmd(Atlas::Goblin, self.anim, self.pos, self.game_size, *camera),
    {
        entity_draw_cmd(Atlas::Goblin, &self.anim, self.pos, self.game_size, camera)
    }

    /// Replaces the velocity.
    pub fn moove(&mut self, change_pos: GamePos)
        requires
            old(self).wf(),
            change_pos.in_vel_bounds(),
        ensures
            final(self).velocity == change_pos,
            *final(self) == (Goblin { velocity: change_pos, ..*old(self) }),
            final(self).wf(),
    {
        self.velocity = change_pos;
    }

    /// Adds the scaled vector to the velocity.
    pub fn accelerate(&mut self, vector: GamePos)
        requires
            old(self).wf(),
            vector.in_pos_bounds(),
        ensures
            final(self).velocity == spec_accelerate(old(self).velocity, vector),
            *final(self) == (Goblin { velocity: final(self).velocity, ..*old(self) }),
            final(self).wf(),
    {
        self.velocity = accelerate_vel(self.velocity, vector);
    }

    /// The coarse mode combined with the current facing into the concrete
    /// animation key.
    pub fn map_animation(&self, anim_name: &str) -> (r: Option<&'static str>)
        ensures
            (match r {
                Some(s) => spec_map_animation(anim_name@, self.direction) == Some(s@),
                None => spec_map_animation(anim_name@, self.direction) is None,
            }),
    {
        if crate::utility::str_eq(anim_name, "move") {
            match self.direction {
                Direction::Left => Some("move left"),
                Direction::Right => Some("move right"),
            }
        } else if crate::utility::str_eq(anim_name, "attack") {
            match self.direction {
                Direction::Left => Some("attack left"),
                Direction::Right => Some("attack right"),
            }
        } else if crate::utility::str_eq(anim_name, "idle") {
            match self.direction {
                Direction::Left => Some("idle left"),
                Direction::Right => Some("idle right"),
            }
        } else {
            None
        }
    }

    /// Selects the animation for a coarse mode. Fails, changing nothing,
    /// exactly when the mode is unknown or its key is absent.
    pub fn set_anim(&mut self, name: &str) -> (r: Result<(), AnimationSelectError>)
        requires
            old(self).wf(),
        ensures
            (match spec_map_animation(name@, old(self).direction) {
                Some(full) => final(self).anim == old(self).anim.spec_select(full) && (r is Ok
                    <==> old(self).anim.has_anim(full)),
                None => r is Err,
            }),
            r is Err ==> *final(self) == *old(self),
            *final(self) == (Goblin { anim: final(self).anim, ..*old(self) }),
            final(self).wf(),
    {
        match self.map_animation(name) {
            Some(full) => self.anim.select(full),
            None => Err(AnimationSelectError::NotFound),
        }
    }

    /// Intercepts with the animation for a coarse mode. Fails, changing
    /// nothing, exactly when the mode is unknown or its key is absent.
    pub fn intercept_anim(&mut self, name: &str) -> (r: Result<(), AnimationSelectError>)
        requires
            old(self).wf(),
        ensures
            (match spec_map_animation(name@, old(self).direction) {
                Some(full) => final(self).anim == old(self).anim.spec_intercept(full) && (r is Ok
                    <==> old(self).anim.has_anim(full)),
                None => r is Err,
            }),
            r is Err ==> *final(self) == *old(self),
            *final(self) == (Goblin { anim: final(self).anim, ..*old(self) }),
            final(self).wf(),
    {
        match self.map_animation(name) {
            Some(full) => self.anim.intercept(full),
            None => Err(AnimationSelectError::NotFound),
        }
    }

    /// Clears the animation selection.
    pub fn remove_anim(&mut self)
        requires
            old(self).wf(),
        ensures
            final(self).anim == old(self).anim.spec_deselect(),
            *final(self) == (Goblin { anim: final(self).anim, ..*old(self) }),
            final(self).wf(),
    {
        self.anim.deselect();
    }

    pub fn get_pos(&self) -> (r: GamePos)
        ensures
            r == self.pos,
    {
        self.pos
    }

    /// One decision step against the player's position.
    pub fn seek_player(&mut self, player_pos: GamePos)
        requires
            old(self).wf(),
            player_pos.in_pos_bounds(),
        ensures
            *final(self) == spec_seek(*old(self), player_pos),
            final(self).wf(),
    {
        let delta: GamePos = self.pos.sub(player_pos);
        if delta.x > GOBLIN_ATTACK_DIST_MILLI {
            self.velocity = accelerate_vel(self.velocity, GamePos { x: -1000, y: 0 });
        } else if delta.x < -GOBLIN_ATTACK_DIST_MILLI {
            self.velocity = accelerate_vel(self.velocity, GamePos { x: 1000, y: 0 });
        } else {
            proof {
                assert(delta.x * delta.x < 0x4000_0000_0000_0000) by (nonlinear_arith)
                    requires
                        -2_000_000_000 <= delta.x <= 2_000_000_000,
                ;
                assert(delta.y * delta.y < 0x4000_0000_0000_0000) by (nonlinear_arith)
                    requires
                        -2_000_000_000 <= delta.y <= 2_000_000_000,
                ;
                assert(delta.x * delta.x >= 0) by (nonlinear_arith);
                assert(delta.y * delta.y >= 0) by (nonlinear_arith);
            }
            let dist2: i64 = delta.x * delta.x + delta.y * delta.y;
            if dist2 < GOBLIN_ATTACK_DIST_MILLI * GOBLIN_ATTACK_DIST_MILLI {
                self.velocity = GamePos { x: 0, y: self.velocity.y };
                self.attacking = true;
            }
        }
    }

    /// One physics tick, one frame-timer step, and the animation policy:
    /// the attacking flag clears when the attack run has just finished;
    /// then the goblin intercepts with its attack animation while the flag
    /// holds, else selects idle or movement by its horizontal speed. The
    /// goblin's atlas holds every key the policy can name, so the step
    /// cannot fail.
    pub fn update(&mut self, now: u64) -> (r: Result<(), AnimationSelectError>)
        requires
            old(self).wf(),
            old(self).anim.last_advance_ms <= now,
        ensures
            r is Ok,
            *final(self) == spec_goblin_tick(*old(self), now),
            final(self).anim.last_advance_ms <= now,
            final(self).wf(),
    {
        let (p, v, d) = integrate(self.pos, self.velocity, self.direction);
        self.pos = p;
        self.velocity = v;
        self.direction = d;
        let finished = self.anim.advance(now);
        if finished {
            self.attacking = false;
        }
        proof {
            reveal_strlit("move");
            reveal_strlit("attack");
            reveal_strlit("idle");
            assert(("move"@)[0] != ("idle"@)[0]);
            assert(("move"@).len() != ("attack"@).len());
            assert(("idle"@).len() != ("attack"@).len());
        }
        if self.attacking {
            self.intercept_anim("attack")
        } else if -IDLE_EPS_MILLI < self.velocity.x && self.velocity.x < IDLE_EPS_MILLI {
            self.set_anim("idle")
        } else {
            self.set_anim("move")
        }
    }
}

} // verus!

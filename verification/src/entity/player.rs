//! The player entity.

use crate::entity::{
    accelerate_vel, entity_draw_cmd, integrate, spec_accelerate, spec_draw_cmd, spec_integrate,
    Atlas, Direction, DrawCmd, SIZE_LIMIT,
};
use crate::screen::camera::Camera;
use crate::utility::animation::{cell_run, is_cell_run, AnimSeq, Animation, AnimationSelectError};
use crate::world::space::{add_clamped, spec_clamp, GamePos, POS_LIMIT};
use vstd::prelude::*;

verus! {

/// Edge of the player sprite, in thousandths of a world unit.
pub const PLAYER_SIZE_MILLI: i64 = 8_000;

/// The animation keys the player's atlas must offer: movement and attack,
/// each per facing.
pub open spec fn player_has_required_anims(a: Animation) -> bool {
    &&& a.has_anim("move left"@)
    &&& a.has_anim("move right"@)
    &&& a.has_anim("attack left"@)
    &&& a.has_anim("attack right"@)
}

/// The coarse animation mode combined with the facing into the concrete
/// key, for the modes the player knows; any other name is unknown.
pub open spec fn spec_map_animation(name: Seq<char>, dir: Direction) -> Option<Seq<char>> {
    if name == "move"@ {
        Some(
            if dir is Left {
                "move left"@
            } else {
                "move right"@
            },
        )
    } else if name == "attack"@ {
        Some(
            if dir is Left {
                "attack left"@
            } else {
                "attack right"@
            },
        )
    } else {
        None
    }
}

pub struct Player {
    pub pos: GamePos,
    pub velocity: GamePos,
    pub anim: Animation,
    pub screen_size: (i64, i64),
    pub direction: Direction,
}

/// The player's atlas layout, exactly: the two attack runs play once, the
/// two movement runs loop, and there is no idle entry — the controller
/// deselects instead when no input is held.
pub open spec fn player_frame_table(frames: Seq<AnimSeq>) -> bool {
    &&& frames.len() == 4
    &&& frames[0].name@ == "attack right"@ && !frames[0].looping && is_cell_run(
        frames[0].cells@,
        0,
        5,
        1,
    )
    &&& frames[1].name@ == "attack left"@ && !frames[1].looping && is_cell_run(
        frames[1].cells@,
        0,
        5,
        2,
    )
    &&& frames[2].name@ == "move left"@ && frames[2].looping && is_cell_run(
        frames[2].cells@,
        3,
        2,
        0,
    )
    &&& frames[3].name@ == "move right"@ && frames[3].looping && is_cell_run(
        frames[3].cells@,
        1,
        2,
        0,
    )
}

/// A player as `Player::new` makes it: at the scene's start position, at
/// rest, facing right, nothing selected, the frame timer at zero, with
/// exactly the standard atlas layout.
pub open spec fn is_fresh_player(p: Player) -> bool {
    &&& p.pos == (GamePos { x: 300_000, y: 300_000 })
    &&& p.velocity == (GamePos { x: 0, y: 0 })
    &&& p.direction == Direction::Right
    &&& p.screen_size == (PLAYER_SIZE_MILLI, PLAYER_SIZE_MILLI)
    &&& p.anim.selected is None
    &&& p.anim.intercepted is None
    &&& p.anim.current == p.anim.default_cell
    &&& p.anim.default_cell == (0u16, 0u16)
    &&& p.anim.cell_grid == (8u16, 10u16)
    &&& p.anim.last_advance_ms == 0
    &&& p.anim.frame_interval_ms == 100
    &&& player_frame_table(p.anim.frames@)
}

impl Player {
    pub open spec fn wf(self) -> bool {
        &&& self.pos.in_pos_bounds()
        &&& self.velocity.in_vel_bounds()
        &&& self.anim.wf()
        &&& player_has_required_anims(self.anim)
        &&& 0 <= self.screen_size.0 <= SIZE_LIMIT
        &&& 0 <= self.screen_size.1 <= SIZE_LIMIT
    }

    /// A fresh player: at the scene's start position, at rest, facing
    /// right, with the standard atlas layout.
    pub fn new() -> (r: Player)
        ensures
            is_fresh_player(r),
            r.wf(),
    {
        let mut frames: Vec<AnimSeq> = Vec::new();
        frames.push(
            AnimSeq { name: "attack right".to_owned(), looping: false, cells: cell_run(0, 5, 1) },
        );
        frames.push(
            AnimSeq { name: "attack left".to_owned(), looping: false, cells: cell_run(0, 5, 2) },
        );
        frames.push(
            AnimSeq { name: "move left".to_owned(), looping: true, cells: cell_run(3, 2, 0) },
        );
        frames.push(
            AnimSeq { name: "move right".to_owned(), looping: true, cells: cell_run(1, 2, 0) },
        );
        proof {
            reveal_strlit("attack right");
            reveal_strlit("attack left");
            reveal_strlit("move left");
            reveal_strlit("move right");
            assert(frames@[0].name@ == "attack right"@);
            assert(frames@[1].name@ == "attack left"@);
            assert(frames@[2].name@ == "move left"@);
            assert(frames@[3].name@ == "move right"@);
        }
        let anim = Animation::new((8, 10), frames, (0, 0), 100);
        Player {
            pos: GamePos { x: 300_000, y: 300_000 },
            velocity: GamePos { x: 0, y: 0 },
            anim,
            screen_size: (PLAYER_SIZE_MILLI, PLAYER_SIZE_MILLI),
            direction: Direction::Right,
        }
    }

    pub fn draw(&self, camera: &Camera) -> (r: DrawCmd)
        requires
            self.wf(),
            camera.wf(),
        ensures
            r == spec_draw_cmd(Atlas::Player, self.anim, self.pos, self.screen_size, *camera),
    {
        entity_draw_cmd(Atlas::Player, &self.anim, self.pos, self.screen_size, camera)
    }

    /// Offsets the position and turns to face the direction of the change;
    /// a purely horizontal-zero change keeps the facing.
    pub fn moove(&mut self, change_pos: GamePos)
        requires
            old(self).wf(),
            change_pos.in_pos_bounds(),
        ensures
            final(self).pos.x == spec_clamp(old(self).pos.x + change_pos.x, POS_LIMIT as int),
            final(self).pos.y == spec_clamp(old(self).pos.y + change_pos.y, POS_LIMIT as int),
            final(self).direction == (if change_pos.x > 0 {
                Direction::Right
            } else if change_pos.x < 0 {
                Direction::Left
            } else {
                old(self).direction
            }),
            final(self).velocity == old(self).velocity,
            final(self).anim == old(self).anim,
            final(self).screen_size == old(self).screen_size,
            final(self).wf(),
    {
        self.direction = if change_pos.x > 0 {
            Direction::Right
        } else if change_pos.x < 0 {
            Direction::Left
        } else {
            self.direction
        };
        self.pos = GamePos {
            x: add_clamped(self.pos.x, change_pos.x, POS_LIMIT),
            y: add_clamped(self.pos.y, change_pos.y, POS_LIMIT),
        };
    }

    /// Adds the scaled vector to the velocity.
    pub fn accelerate(&mut self, vector: GamePos)
        requires
            old(self).wf(),
            vector.in_pos_bounds(),
        ensures
            final(self).velocity == spec_accelerate(old(self).velocity, vector),
            *final(self) == (Player { velocity: final(self).velocity, ..*old(self) }),
            final(self).wf(),
    {
        self.velocity = accelerate_vel(self.velocity, vector);
    }

    /// The coarse mode (`"move"` or `"attack"`) combined with the current
    /// facing into the concrete animation key.
    pub fn map_animation(&self, anim_name: &str) -> (r: Option<&'static str>)
        ensures
            (match r {
                Some(s) => spec_map_animation(anim_name@, self.direction) == Some(s@),
                None => spec_map_animation(anim_name@, self.direction) is None,
            }),
    {
        if crate::utility::str_eq(anim_name, "move") {
            match self.direction {
                Direction::Left => Some("move left"),
                Direction::Right => Some("move right"),
            }
        } else if crate::utility::str_eq(anim_name, "attack") {
            match self.direction {
                Direction::Left => Some("attack left"),
                Direction::Right => Some("attack right"),
            }
        } else {
            None
        }
    }

    /// Selects the animation for a coarse mode. Fails, changing nothing,
    /// exactly when the mode is unknown or its key is absent.
    pub fn set_anim(&mut self, name: &str) -> (r: Result<(), AnimationSelectError>)
        requires
            old(self).wf(),
        ensures
            (match spec_map_animation(name@, old(self).direction) {
                Some(full) => final(self).anim == old(self).anim.spec_select(full) && (r is Ok
                    <==> old(self).anim.has_anim(full)),
                None => r is Err,
            }),
            r is Err ==> *final(self) == *old(self),
            *final(self) == (Player { anim: final(self).anim, ..*old(self) }),
            final(self).wf(),
    {
        match self.map_animation(name) {
            Some(full) => self.anim.select(full),
            None => Err(AnimationSelectError::NotFound),
        }
    }

    /// Intercepts with the animation for a coarse mode. Fails, changing
    /// nothing, exactly when the mode is unknown or its key is absent.
    pub fn intercept_anim(&mut self, name: &str) -> (r: Result<(), AnimationSelectError>)
        requires
            old(self).wf(),
        ensures
            (match spec_map_animation(name@, old(self).direction) {
                Some(full) => final(self).anim == old(self).anim.spec_intercept(full) && (r is Ok
                    <==> old(self).anim.has_anim(full)),
                None => r is Err,
            }),
            r is Err ==> *final(self) == *old(self),
            *final(self) == (Player { anim: final(self).anim, ..*old(self) }),
            final(self).wf(),
    {
        match self.map_animation(name) {
            Some(full) => self.anim.intercept(full),
            None => Err(AnimationSelectError::NotFound),
        }
    }

    /// Clears the animation selection.
    pub fn remove_anim(&mut self)
        requires
            old(self).wf(),
        ensures
            final(self).anim == old(self).anim.spec_deselect(),
            *final(self) == (Player { anim: final(self).anim, ..*old(self) }),
            final(self).wf(),
    {
        self.anim.deselect();
    }

    /// One physics tick and one frame-timer step.
    pub fn update(&mut self, now: u64) -> (finished: bool)
        requires
            old(self).wf(),
            old(self).anim.last_advance_ms <= now,
        ensures
            (final(self).pos, final(self).velocity, final(self).direction) == spec_integrate(
                old(self).pos,
                old(self).velocity,
                old(self).direction,
            ),
            (final(self).anim, finished) == old(self).anim.spec_advance(now),
            final(self).screen_size == old(self).screen_size,
            final(self).anim.last_advance_ms <= now,
            final(self).wf(),
    {
        let (p, v, d) = integrate(self.pos, self.velocity, self.direction);
        self.pos = p;
        self.velocity = v;
        self.direction = d;
        self.anim.advance(now)
    }

    pub fn get_pos(&self) -> (r: GamePos)
        ensures
            r == self.pos,
    {
        self.pos
    }
}

} // verus!

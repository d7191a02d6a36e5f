//! The in-game scene: entity collections, input routing, the spawn
//! scheduler and the per-frame update and draw order.

use crate::entity::goblin::{is_fresh_goblin, spec_goblin_tick, spec_seek, Goblin};
use crate::entity::player::{is_fresh_player, spec_map_animation, Player};
use crate::entity::tile::Tile;
use crate::entity::{spec_accelerate, spec_draw_cmd, spec_entity_draw, Atlas, DrawCmd, Entity};
use crate::screen::camera::Camera;
use crate::screen::title::{spec_title_screen, TitleScreen};
use crate::screen::{ActiveScreen, Key, Screen};
use crate::utility::animation::AnimationSelectError;
use crate::utility::serial_namer::SerialNamer;
use crate::world::space::GamePos;
use vstd::arithmetic::div_mod::lemma_fundamental_div_mod_converse;
use vstd::prelude::*;

verus! {

/// Downward pull added to the vertical velocity each tick, in thousandths
/// of a world unit per tick.
pub const GRAVITY_MILLI: i64 = 200;

/// Thousandths of the velocity kept after drag each tick.
pub const DRAG_KEEP_MILLI: i64 = 900;

/// Vertical impulse of a jump or dive, in thousandths of a world unit per
/// tick.
pub const JUMP_MILLI: i64 = 23_000;

/// Distance at which a goblin stops approaching and attacks, in
/// thousandths of a world unit.
pub const GOBLIN_ATTACK_DIST_MILLI: i64 = 5_000;

/// Milliseconds between goblin spawns.
pub const SPAWN_INTERVAL_MS: u16 = 1_000;

/// How many background tiles the scene lays out at entry.
pub const TILE_COUNT: u16 = 30;

/// Bit for each held input.
pub const INPUT_LEFT: u8 = 0b00000001;

pub const INPUT_RIGHT: u8 = 0b00000010;

pub const INPUT_UP: u8 = 0b00000100;

pub const INPUT_DOWN: u8 = 0b00001000;

pub const INPUT_ATTACK: u8 = 0b00010000;

/// The set of currently held inputs, one bit per input.
#[derive(Clone, Copy, PartialEq, Eq, Structural, Debug)]
pub struct Input {
    pub bits: u8,
}

impl Input {
    pub open spec fn spec_is_empty(self) -> bool {
        self.bits == 0
    }

    pub fn none() -> (r: Input)
        ensures
            r.bits == 0,
    {
        Input { bits: 0 }
    }

    pub fn is_empty(&self) -> (r: bool)
        ensures
            r == self.spec_is_empty(),
    {
        self.bits == 0
    }
}

/// Whether every bit of `comp_flag` is held in `flag`.
pub fn check_input(flag: Input, comp_flag: Input) -> (r: bool)
    ensures
        r == (flag.bits & comp_flag.bits == comp_flag.bits),
{
    flag.bits & comp_flag.bits == comp_flag.bits
}

/// The input bit a key holds down, zero for keys that are no input.
pub open spec fn spec_key_mask(key: Key) -> u8 {
    match key {
        Key::Left => INPUT_LEFT,
        Key::Right => INPUT_RIGHT,
        Key::Up => INPUT_UP,
        Key::Down => INPUT_DOWN,
        Key::X => INPUT_ATTACK,
        _ => 0,
    }
}

/// The input bit a key holds down, zero for keys that are no input.
pub fn key_mask(key: Key) -> (r: u8)
    ensures
        r == spec_key_mask(key),
{
    match key {
        Key::Left => INPUT_LEFT,
        Key::Right => INPUT_RIGHT,
        Key::Up => INPUT_UP,
        Key::Down => INPUT_DOWN,
        Key::X => INPUT_ATTACK,
        _ => 0,
    }
}

/// Relies on rand::Rng::gen_range over rand::thread_rng: a draw from the
/// range `0..bound`, so whatever value comes back is below the bound.
#[verifier::external_body]
fn random_below(bound: u16) -> (r: u16)
    requires
        bound > 0,
    ensures
        r < bound,
{
    rand::Rng::gen_range(&mut rand::thread_rng(), 0..bound)
}

/// How many goblins the scheduler owes at `now`: none before the first
/// full interval since `start`, else one per full interval elapsed.
pub open spec fn spec_spawn_count(start: Option<u64>, interval_ms: u16, now: u64) -> int {
    match start {
        None => 0,
        Some(s) => if now < s + interval_ms {
            0
        } else {
            (now - s) / (interval_ms as int)
        },
    }
}

/// The player after one frame of input handling and physics: with no input
/// held the animation selection is cleared; otherwise held direction keys
/// accelerate, a dive or a jump from the ground sets the vertical velocity
/// outright, and the attack input intercepts with the attack animation
/// while anything else selects movement. Then the physics tick and the
/// frame-timer step run.
pub open spec fn spec_player_frame(p: Player, input: Input, now: u64) -> Player {
    let p1 = if input.bits == 0 {
        Player { anim: p.anim.spec_deselect(), ..p }
    } else {
        let left = input.bits & INPUT_LEFT == INPUT_LEFT;
        let right = input.bits & INPUT_RIGHT == INPUT_RIGHT;
        let down = input.bits & INPUT_DOWN == INPUT_DOWN;
        let up = input.bits & INPUT_UP == INPUT_UP;
        let attack = input.bits & INPUT_ATTACK == INPUT_ATTACK;
        let mvmt = if left {
            GamePos { x: -1000i64, y: 0i64 }
        } else if right {
            GamePos { x: 1000i64, y: 0i64 }
        } else {
            GamePos { x: 0i64, y: 0i64 }
        };
        let pa = Player { velocity: spec_accelerate(p.velocity, mvmt), ..p };
        let pd = if !left && !right && down {
            Player { velocity: GamePos { x: pa.velocity.x, y: JUMP_MILLI }, ..pa }
        } else {
            pa
        };
        let pu = if up && p.pos.y == 0 {
            Player { velocity: GamePos { x: pd.velocity.x, y: (-JUMP_MILLI) as i64 }, ..pd }
        } else {
            pd
        };
        let key = spec_map_animation(
            if attack {
                "attack"@
            } else {
                "move"@
            },
            p.direction,
        )->Some_0;
        if attack {
            Player { anim: pu.anim.spec_intercept(key), ..pu }
        } else {
            Player { anim: pu.anim.spec_select(key), ..pu }
        }
    };
    let moved = crate::entity::spec_integrate(p1.pos, p1.velocity, p1.direction);
    let adv = p1.anim.spec_advance(now);
    Player { pos: moved.0, velocity: moved.1, direction: moved.2, anim: adv.0, ..p1 }
}

/// One frame of input handling and physics for the player. The player's
/// atlas holds both keys the policy can name, so the step cannot fail.
pub fn update_player_frame(player: &mut Player, input: Input, now: u64) -> (r: Result<
    (),
    AnimationSelectError,
>)
    requires
        old(player).wf(),
        old(player).anim.last_advance_ms <= now,
    ensures
        r is Ok,
        *final(player) == spec_player_frame(*old(player), input, now),
        final(player).wf(),
        final(player).anim.last_advance_ms <= now,
{
    if input.is_empty() {
        player.remove_anim();
    } else {
        let left = check_input(input, Input { bits: INPUT_LEFT });
        let right = check_input(input, Input { bits: INPUT_RIGHT });
        let down = check_input(input, Input { bits: INPUT_DOWN });
        let up = check_input(input, Input { bits: INPUT_UP });
        let attack = check_input(input, Input { bits: INPUT_ATTACK });
        let mvmt: GamePos = if left {
            GamePos { x: -1000, y: 0 }
        } else if right {
            GamePos { x: 1000, y: 0 }
        } else {
            GamePos { x: 0, y: 0 }
        };
        player.accelerate(mvmt);
        if !left && !right && down {
            player.velocity = GamePos { x: player.velocity.x, y: JUMP_MILLI };
        }
        if up && player.pos.y == 0 {
            player.velocity = GamePos { x: player.velocity.x, y: -JUMP_MILLI };
        }
        proof {
            reveal_strlit("move");
            reveal_strlit("attack");
            assert(("move"@).len() != ("attack"@).len());
        }
        let res = if attack {
            player.intercept_anim("attack")
        } else {
            player.set_anim("move")
        };
        match res {
            Err(e) => {
                return Err(e);
            },
            Ok(()) => {},
        }
    }
    player.update(now);
    Ok(())
}

/// One decision step, physics tick and draw command for every goblin, in
/// order. The commands are appended to `cmds`.
fn update_goblins(
    goblins: &mut Vec<Goblin>,
    camera: &Camera,
    player_pos: GamePos,
    now: u64,
    cmds: &mut Vec<DrawCmd>,
) -> (r: Result<(), AnimationSelectError>)
    requires
        camera.wf(),
        player_pos.in_pos_bounds(),
        forall|j: int|
            0 <= j < old(goblins)@.len() ==> (#[trigger] old(goblins)@[j]).wf() && old(
                goblins,
            )@[j].anim.last_advance_ms <= now,
    ensures
        r is Ok,
        final(goblins)@.len() == old(goblins)@.len(),
        forall|j: int|
            0 <= j < old(goblins)@.len() ==> (#[trigger] final(goblins)@[j]) == spec_goblin_tick(
                spec_seek(old(goblins)@[j], player_pos),
                now,
            ) && final(goblins)@[j].wf() && final(goblins)@[j].anim.last_advance_ms <= now,
        final(cmds)@ == old(cmds)@ + Seq::new(
            old(goblins)@.len(),
            |j: int|
                spec_draw_cmd(
                    Atlas::Goblin,
                    final(goblins)@[j].anim,
                    final(goblins)@[j].pos,
                    final(goblins)@[j].game_size,
                    *camera,
                ),
        ),
{
    let ghost goblins0 = goblins@;
    let ghost cmds0 = cmds@;
    let n: usize = goblins.len();
    let mut i: usize = 0;
    while i < n
        invariant
            i <= n,
            n == goblins@.len(),
            goblins@.len() == goblins0.len(),
            camera.wf(),
            player_pos.in_pos_bounds(),
            forall|j: int| i <= j < n ==> (#[trigger] goblins@[j]) == goblins0[j],
            forall|j: int|
                0 <= j < n ==> (#[trigger] goblins0[j]).wf() && goblins0[j].anim.last_advance_ms
                    <= now,
            forall|j: int|
                0 <= j < i ==> (#[trigger] goblins@[j]) == spec_goblin_tick(
                    spec_seek(goblins0[j], player_pos),
                    now,
                ) && goblins@[j].wf() && goblins@[j].anim.last_advance_ms <= now,
            cmds@.len() == cmds0.len() + i,
            forall|j: int| 0 <= j < cmds0.len() ==> (#[trigger] cmds@[j]) == cmds0[j],
            forall|j: int|
                0 <= j < i ==> (#[trigger] cmds@[cmds0.len() + j]) == spec_draw_cmd(
                    Atlas::Goblin,
                    goblins@[j].anim,
                    goblins@[j].pos,
                    goblins@[j].game_size,
                    *camera,
                ),
        decreases n - i,
    {
        let gob: &mut Goblin = &mut goblins[i];
        gob.seek_player(player_pos);
        let res = gob.update(now);
        match res {
            Err(e) => {
                return Err(e);
            },
            Ok(()) => {},
        }
        let cmd: DrawCmd = goblins[i].draw(camera);
        cmds.push(cmd);
        i = i + 1;
    }
    proof {
        let tail = Seq::new(
            goblins0.len(),
            |j: int|
                spec_draw_cmd(
                    Atlas::Goblin,
                    goblins@[j].anim,
                    goblins@[j].pos,
                    goblins@[j].game_size,
                    *camera,
                ),
        );
        assert forall|j: int| 0 <= j < cmds@.len() implies cmds@[j] == (cmds0 + tail)[j] by {
            if j >= cmds0.len() {
                assert(cmds@[cmds0.len() + (j - cmds0.len())] == spec_draw_cmd(
                    Atlas::Goblin,
                    goblins@[j - cmds0.len()].anim,
                    goblins@[j - cmds0.len()].pos,
                    goblins@[j - cmds0.len()].game_size,
                    *camera,
                ));
            }
        }
        assert(cmds@ =~= cmds0 + tail);
    }
    Ok(())
}

/// The in-game scene.
pub struct GameScreen {
    pub new_screen: Option<Box<ActiveScreen>>,
    pub background: Option<Vec<(u64, Entity)>>,
    pub player: Option<Player>,
    pub goblins: Vec<Goblin>,
    pub current_input: Input,
    pub camera: Camera,
    pub namer: SerialNamer,
    pub start: Option<u64>,
    pub spawn_interval_ms: u16,
    pub res: (u32, u32),
}

/// A game scene as `GameScreen::new` makes it for a viewport: no world
/// yet, no goblins, no input held, the camera at the origin sized to the
/// viewport, the spawn timer not started.
pub open spec fn is_fresh_game(g: GameScreen, res: (u32, u32)) -> bool {
    &&& g.new_screen is None
    &&& g.background is None
    &&& g.player is None
    &&& g.goblins@.len() == 0
    &&& g.current_input.bits == 0
    &&& g.camera == (Camera {
        pos: GamePos { x: 0, y: 0 },
        width: (res.0 as i64 * 100) as i64,
        height: (res.1 as i64 * 100) as i64,
    })
    &&& g.namer.next_id == 0
    &&& g.start is None
    &&& g.spawn_interval_ms == SPAWN_INTERVAL_MS
    &&& g.res == res
}

/// The goblin at position `j` joined the scene this frame: it is some
/// fresh goblin, stepped once against the frame's player position.
pub open spec fn spawned_goblin_ok_at(gs: Seq<Goblin>, j: int, ppos: GamePos, now: u64) -> bool {
    exists|g0: Goblin|
        #![trigger is_fresh_goblin(g0)]
        is_fresh_goblin(g0) && gs[j] == spec_goblin_tick(spec_seek(g0, ppos), now)
}

/// Every goblin from `lo` on joined the scene this frame.
pub open spec fn spawned_goblins_ok(gs: Seq<Goblin>, lo: int, ppos: GamePos, now: u64) -> bool {
    forall|j: int| lo <= j < gs.len() ==> #[trigger] spawned_goblin_ok_at(gs, j, ppos, now)
}

/// Goblins that are fresh and then stepped once satisfy
/// [`spawned_goblins_ok`].
proof fn lemma_spawned_goblins_ok(
    gs: Seq<Goblin>,
    mids: Seq<Goblin>,
    lo: int,
    ppos: GamePos,
    now: u64,
)
    requires
        mids.len() == gs.len(),
        forall|j: int| lo <= j < gs.len() ==> is_fresh_goblin(#[trigger] mids[j]),
        forall|j: int|
            lo <= j < gs.len() ==> (#[trigger] gs[j]) == spec_goblin_tick(
                spec_seek(mids[j], ppos),
                now,
            ),
    ensures
        spawned_goblins_ok(gs, lo, ppos, now),
{
    assert forall|j: int| lo <= j < gs.len() implies #[trigger] spawned_goblin_ok_at(
        gs,
        j,
        ppos,
        now,
    ) by {
        let g0 = mids[j];
        assert(is_fresh_goblin(g0) && gs[j] == spec_goblin_tick(spec_seek(g0, ppos), now));
        assert(spawned_goblin_ok_at(gs, j, ppos, now));
    }
}

/// Effect of a key press on the game scene: escape leaves a freshly built
/// title scene pending; any other key lowers its input bit into the held
/// set.
pub open spec fn spec_key_down_effect(pre: GameScreen, post: GameScreen, key: Key) -> bool {
    &&& (key == Key::Escape ==> (match post.new_screen {
        Some(b) => *b == ActiveScreen::Title(spec_title_screen(pre.res)),
        None => false,
    }) && post.current_input == pre.current_input)
    &&& (key != Key::Escape ==> post.current_input.bits == (pre.current_input.bits
        | spec_key_mask(key)) && post.new_screen == pre.new_screen)
    &&& post == (GameScreen {
        new_screen: post.new_screen,
        current_input: post.current_input,
        ..pre
    })
}

/// Effect of a key release on the game scene: the key's input bit is
/// raised out of the held set.
pub open spec fn spec_key_up_effect(pre: GameScreen, post: GameScreen, key: Key) -> bool {
    &&& post.current_input.bits == (pre.current_input.bits & !spec_key_mask(key))
    &&& post == (GameScreen { current_input: post.current_input, ..pre })
}

/// Effect of a viewport change on the game scene: the camera viewport is
/// rescaled and the resolution remembered.
pub open spec fn spec_resize_effect(pre: GameScreen, post: GameScreen, size: (u32, u32)) -> bool {
    post == (GameScreen {
        camera: Camera {
            pos: pre.camera.pos,
            width: (size.0 as i64 * 100) as i64,
            height: (size.1 as i64 * 100) as i64,
        },
        res: size,
        ..pre
    })
}

/// Every goblin present before the frame was stepped: one decision against
/// the frame's player position, then one per-tick step.
pub open spec fn goblins_stepped(
    pre: Seq<Goblin>,
    post: Seq<Goblin>,
    ppos: GamePos,
    now: u64,
) -> bool {
    forall|j: int|
        0 <= j < pre.len() ==> (#[trigger] post[j]) == spec_goblin_tick(
            spec_seek(pre[j], ppos),
            now,
        )
}

/// The draw list opens with one blit per goblin, in order.
pub open spec fn goblin_cmds_ok(cmds: Seq<DrawCmd>, gs: Seq<Goblin>, cam: Camera) -> bool {
    forall|j: int|
        0 <= j < gs.len() ==> (#[trigger] cmds[j]) == spec_draw_cmd(
            Atlas::Goblin,
            gs[j].anim,
            gs[j].pos,
            gs[j].game_size,
            cam,
        )
}

/// After the goblins, the draw list holds one blit per background entity,
/// in order.
pub open spec fn background_cmds_ok(
    cmds: Seq<DrawCmd>,
    glen: int,
    bg: Seq<(u64, Entity)>,
    cam: Camera,
) -> bool {
    forall|k: int|
        0 <= k < bg.len() ==> (#[trigger] cmds[glen + k]) == spec_entity_draw(bg[k].1, cam)
}

/// On the scene's first frame the player is brought in fresh and then
/// takes the frame like any other: some fresh player, stepped once with
/// the held input.
pub open spec fn first_frame_player_ok(post_player: Option<Player>, input: Input, now: u64) -> bool {
    exists|p0: Player|
        #![trigger is_fresh_player(p0)]
        is_fresh_player(p0) && post_player == Some(spec_player_frame(p0, input, now))
}

/// The background the scene lays out on its first frame: one row of tiles
/// along the ground, five world units apart, each showing some cell of the
/// four-by-four tile block, keyed by consecutive serial ids.
pub open spec fn first_frame_background_ok(bg: Seq<(u64, Entity)>, first_id: u64) -> bool {
    &&& bg.len() == TILE_COUNT as int
    &&& forall|k: int|
        0 <= k < bg.len() ==> (#[trigger] bg[k]).0 == first_id + k && (bg[k].1 matches Entity::Tile(
            t,
        ) && t.pos == (GamePos { x: ((k - 10) * 5000) as i64, y: 10_000 }) && t.anim.current.0 < 4
            && t.anim.current.1 < 4)
}

/// One whole frame of the game scene, relating the state before, the state
/// after, and the draw list: the camera locks to the player's position
/// from the start of the frame; the scheduler pays out its due spawns; the
/// pre-existing goblins are stepped exactly and the spawned ones are
/// stepped fresh goblins; the player takes the held input and a physics
/// tick; controls, pending switch and viewport are untouched; and the draw
/// list is the goblins, the background, then the player.
pub open spec fn spec_game_frame(
    pre: GameScreen,
    post: GameScreen,
    cmds: Seq<DrawCmd>,
    now: u64,
) -> bool {
    let ppos = spec_tick_player_pos(pre);
    &&& post.camera.pos == (GamePos { x: ppos.x, y: 0i64 })
    &&& post.camera.width == pre.camera.width
    &&& post.camera.height == pre.camera.height
    &&& post.goblins@.len() == pre.goblins@.len() + spec_spawn_count(
        pre.start,
        pre.spawn_interval_ms,
        now,
    )
    &&& goblins_stepped(pre.goblins@, post.goblins@, ppos, now)
    &&& spawned_goblins_ok(post.goblins@, pre.goblins@.len() as int, ppos, now)
    &&& (match pre.player {
        Some(p) => post.player == Some(spec_player_frame(p, pre.current_input, now)),
        None => first_frame_player_ok(post.player, pre.current_input, now),
    })
    &&& post.background is Some
    &&& (pre.background matches Some(b) ==> post.background == Some(b) && post.namer == pre.namer)
    &&& (pre.background is None ==> (match post.background {
        Some(b) => first_frame_background_ok(b@, pre.namer.next_id),
        None => false,
    }) && post.namer.next_id == pre.namer.next_id + TILE_COUNT)
    &&& post.current_input == pre.current_input
    &&& post.new_screen == pre.new_screen
    &&& post.res == pre.res
    &&& post.spawn_interval_ms == pre.spawn_interval_ms
    &&& cmds.len() == post.goblins@.len() + post.background->Some_0@.len() + 1
    &&& goblin_cmds_ok(cmds, post.goblins@, post.camera)
    &&& background_cmds_ok(
        cmds,
        post.goblins@.len() as int,
        post.background->Some_0@,
        post.camera,
    )
    &&& (post.player matches Some(p2) ==> cmds[cmds.len() - 1] == spec_draw_cmd(
        Atlas::Player,
        p2.anim,
        p2.pos,
        p2.screen_size,
        post.camera,
    ))
}

/// The player position a frame reads: the player's, or the start position
/// when the world is only being built this frame.
pub open spec fn spec_tick_player_pos(s: GameScreen) -> GamePos {
    match s.player {
        Some(p) => p.pos,
        None => GamePos { x: 300_000i64, y: 300_000i64 },
    }
}

impl GameScreen {
    pub fn new(res: (u32, u32)) -> (r: GameScreen)
        ensures
            is_fresh_game(r, res),
            r.inv(),
            forall|t: u64| r.time_ok(t),
    {
        GameScreen {
            new_screen: None,
            background: None,
            player: None,
            goblins: Vec::new(),
            current_input: Input { bits: 0 },
            camera: Camera::new(GamePos { x: 0, y: 0 }, res.0 as i64 * 100, res.1 as i64 * 100),
            namer: SerialNamer::new(),
            start: None,
            spawn_interval_ms: SPAWN_INTERVAL_MS,
            res,
        }
    }

    /// Escape asks for the title scene; any other key lowers its input bit
    /// into the held set.
    pub fn on_key_down(&mut self, key: Key)
        requires
            old(self).inv(),
        ensures
            final(self).inv(),
            (forall|t: u64| old(self).time_ok(t) ==> #[trigger] final(self).time_ok(t)),
            spec_key_down_effect(*old(self), *final(self), key),
    {
        match key {
            Key::Escape => {
                self.new_screen = Some(
                    Box::new(ActiveScreen::Title(TitleScreen::new(self.res))),
                );
            },
            _ => {
                self.current_input = Input { bits: self.current_input.bits | key_mask(key) };
            },
        }
    }

    /// Raises the key's input bit out of the held set.
    pub fn on_key_up(&mut self, key: Key)
        requires
            old(self).inv(),
        ensures
            final(self).inv(),
            (forall|t: u64| old(self).time_ok(t) ==> #[trigger] final(self).time_ok(t)),
            spec_key_up_effect(*old(self), *final(self), key),
    {
        self.current_input = Input { bits: self.current_input.bits & !key_mask(key) };
    }

    /// Resizes the camera viewport to the new pixel size.
    pub fn on_resize(&mut self, size_pixels: (u32, u32))
        requires
            old(self).inv(),
        ensures
            final(self).inv(),
            (forall|t: u64| old(self).time_ok(t) ==> #[trigger] final(self).time_ok(t)),
            spec_resize_effect(*old(self), *final(self), size_pixels),
    {
        self.camera.width = size_pixels.0 as i64 * 100;
        self.camera.height = size_pixels.1 as i64 * 100;
        self.res = size_pixels;
    }

    /// Runs the spawn scheduler: once a full interval has elapsed, one
    /// goblin per elapsed interval joins the scene, and the timer start
    /// moves up by exactly the intervals paid out — the overshoot is kept,
    /// so frame jitter does not slow the spawn rate down. The first call
    /// starts the timer.
    #[verifier::rlimit(50)]
    pub fn process_timer(&mut self, now: u64) -> (spawned: u64)
        requires
            old(self).inv(),
            old(self).time_ok(now),
        ensures
            final(self).inv(),
            final(self).time_ok(now),
            spawned == spec_spawn_count(old(self).start, old(self).spawn_interval_ms, now),
            (match old(self).start {
                None => final(self).start == Some(now),
                Some(s) => final(self).start matches Some(s2) && s2 == s + spawned * (old(
                    self,
                ).spawn_interval_ms as u64) && now - s2 < old(self).spawn_interval_ms,
            }),
            final(self).goblins@.len() == old(self).goblins@.len() + spawned,
            forall|j: int|
                0 <= j < old(self).goblins@.len() ==> (#[trigger] final(self).goblins@[j]) == old(
                    self,
                ).goblins@[j],
            forall|j: int|
                old(self).goblins@.len() <= j < final(self).goblins@.len() ==> is_fresh_goblin(
                    #[trigger] final(self).goblins@[j],
                ) && final(self).goblins@[j].wf(),
            *final(self) == (GameScreen {
                start: final(self).start,
                goblins: final(self).goblins,
                ..*old(self)
            }),
    {
        let interval: u64 = self.spawn_interval_ms as u64;
        let spawned_count: u64 = match self.start {
            None => {
                self.start = Some(now);
                0
            },
            Some(s) => {
                let ghost self0 = *self;
                let mut cur: u64 = s;
                let mut count: u64 = 0;
                while now - cur >= interval
                    invariant
                        interval == self0.spawn_interval_ms as u64,
                        interval > 0,
                        s <= now,
                        cur <= now,
                        cur == s + count * interval,
                        self.goblins@.len() == self0.goblins@.len() + count,
                        forall|j: int|
                            0 <= j < self0.goblins@.len() ==> (#[trigger] self.goblins@[j])
                                == self0.goblins@[j],
                        forall|j: int|
                            self0.goblins@.len() <= j < self.goblins@.len() ==> is_fresh_goblin(
                                #[trigger] self.goblins@[j],
                            ) && self.goblins@[j].wf(),
                        *self == (GameScreen { goblins: self.goblins, ..self0 }),
                    decreases now - cur,
                {
                    proof {
                        assert(count <= count * interval) by (nonlinear_arith)
                            requires
                                interval >= 1,
                                count >= 0,
                        ;
                        assert((count + 1) * interval == count * interval + interval)
                            by (nonlinear_arith);
                    }
                    self.goblins.push(Goblin::new());
                    cur = cur + interval;
                    count = count + 1;
                }
                self.start = Some(cur);
                proof {
                    lemma_fundamental_div_mod_converse(
                        (now - s) as int,
                        interval as int,
                        count as int,
                        (now - cur) as int,
                    );
                }
                count
            },
        };
        proof {
            let iv = old(self).spawn_interval_ms as int;
            match old(self).start {
                Some(s0) => if now < s0 + iv {
                    vstd::arithmetic::div_mod::lemma_basic_div((now - s0) as int, iv);
                },
                None => {},
            }
        }
        spawned_count
    }

    /// Lays out the background tiles — a row of randomly chosen tile cells
    /// along the ground — and brings in the player. Runs once, on the
    /// scene's first frame.
    pub fn init_sprites(&mut self)
        requires
            old(self).inv(),
            old(self).player is None,
        ensures
            final(self).inv(),
            (forall|t: u64| old(self).time_ok(t) ==> #[trigger] final(self).time_ok(t)),
            (match final(self).player {
                Some(p) => is_fresh_player(p) && p.wf(),
                None => false,
            }),
            (match final(self).background {
                Some(b) => {
                    &&& b@.len() == TILE_COUNT as int
                    &&& forall|k: int|
                        0 <= k < b@.len() ==> (#[trigger] b@[k]).0 == old(self).namer.next_id + k
                            && (b@[k].1 matches Entity::Tile(t) && t.pos == (GamePos {
                            x: ((k - 10) * 5000) as i64,
                            y: 10_000,
                        }) && t.anim.current.0 < 4 && t.anim.current.1 < 4)
                },
                None => false,
            }),
            final(self).namer.next_id == old(self).namer.next_id + TILE_COUNT,
            *final(self) == (GameScreen {
                background: final(self).background,
                player: final(self).player,
                namer: final(self).namer,
                ..*old(self)
            }),
    {
        let ghost self0 = *self;
        let mut background: Vec<(u64, Entity)> = Vec::new();
        let mut i: u16 = 0;
        while i < TILE_COUNT
            invariant
                i <= TILE_COUNT,
                self0.namer.next_id <= u64::MAX - TILE_COUNT as u64,
                self.namer.next_id == self0.namer.next_id + i,
                background@.len() == i as int,
                forall|k: int|
                    0 <= k < i as int ==> (#[trigger] background@[k]).0 == self0.namer.next_id + k
                        && (background@[k].1 matches Entity::Tile(t) && t.pos == (GamePos {
                        x: ((k - 10) * 5000) as i64,
                        y: 10_000,
                    }) && t.anim.current.0 < 4 && t.anim.current.1 < 4 && t.wf()),
                *self == (GameScreen { namer: self.namer, ..self0 }),
            decreases TILE_COUNT - i,
        {
            let display: (u16, u16) = (random_below(4), random_below(4));
            let x: i64 = (i as i64 - 10) * 5000;
            let tile = Tile::new(display, GamePos { x, y: 10_000 });
            let id = self.namer.gen_name();
            background.push((id, Entity::Tile(tile)));
            i = i + 1;
        }
        self.background = Some(background);
        self.player = Some(Player::new());
    }

    /// One frame: build the world on the first call, pay out due spawns,
    /// route the held input to the player, lock the camera to the player's
    /// position from the start of the frame, step every goblin, and return
    /// the draw list — goblins first, then the background, the player on
    /// top. No step can fail: every animation key the policies name is in
    /// the entities' atlases.
    #[verifier::rlimit(50)]
    pub fn on_draw(&mut self, now: u64) -> (r: Result<Vec<DrawCmd>, AnimationSelectError>)
        requires
            old(self).inv(),
            old(self).time_ok(now),
        ensures
            r is Ok,
            final(self).inv(),
            (forall|t: u64| t >= now ==> #[trigger] final(self).time_ok(t)),
            (match r {
                Ok(cmds) => spec_game_frame(*old(self), *final(self), cmds@, now),
                Err(_) => false,
            }),
    {
        if self.player.is_none() {
            self.init_sprites();
        }
        let _spawned = self.process_timer(now);
        let mut cmds: Vec<DrawCmd> = Vec::new();
        match self.player.take() {
            // the world was just built, so the player is always present;
            // kept total for the type's sake
            None => Ok(cmds),
            Some(mut player) => {
                let ghost player0 = player;
                let player_pos: GamePos = player.get_pos();
                let input: Input = self.current_input;
                let res = update_player_frame(&mut player, input, now);
                match res {
                    Err(e) => {
                        self.player = Some(player);
                        return Err(e);
                    },
                    Ok(()) => {},
                }
                self.camera.pos = GamePos { x: player_pos.x, y: 0 };
                let ghost goblins_mid = self.goblins@;
                let res2 = update_goblins(
                    &mut self.goblins,
                    &self.camera,
                    player_pos,
                    now,
                    &mut cmds,
                );
                match res2 {
                    Err(e) => {
                        self.player = Some(player);
                        return Err(e);
                    },
                    Ok(()) => {},
                }
                match &self.background {
                    None => {},
                    Some(b) => {
                        let m: usize = b.len();
                        let ghost cmds1 = cmds@;
                        let mut k: usize = 0;
                        while k < m
                            invariant
                                k <= m,
                                m == b@.len(),
                                self.camera.wf(),
                                forall|j: int| 0 <= j < b@.len() ==> (#[trigger] b@[j]).1.wf(),
                                cmds@.len() == cmds1.len() + k,
                                forall|j: int|
                                    0 <= j < cmds1.len() ==> (#[trigger] cmds@[j]) == cmds1[j],
                                forall|j: int|
                                    0 <= j < k ==> (#[trigger] cmds@[cmds1.len() + j])
                                        == spec_entity_draw(b@[j].1, self.camera),
                            decreases m - k,
                        {
                            let cmd: DrawCmd = b[k].1.draw(&self.camera);
                            cmds.push(cmd);
                            k = k + 1;
                        }
                    },
                }
                let pcmd: DrawCmd = player.draw(&self.camera);
                cmds.push(pcmd);
                self.player = Some(player);
                proof {
                    let pre = *old(self);
                    let gs = self.goblins@;
                    let lo = pre.goblins@.len() as int;
                    let ppos = spec_tick_player_pos(pre);
                    assert(player_pos == ppos);
                    assert(goblins_mid.len() == gs.len());
                    lemma_spawned_goblins_ok(gs, goblins_mid, lo, ppos, now);
                    assert(goblins_stepped(pre.goblins@, gs, ppos, now));
                    assert(goblin_cmds_ok(cmds@, gs, self.camera));
                    assert(background_cmds_ok(
                        cmds@,
                        gs.len() as int,
                        self.background->Some_0@,
                        self.camera,
                    ));
                    if pre.player is None {
                        assert(is_fresh_player(player0) && self.player == Some(
                            spec_player_frame(player0, pre.current_input, now),
                        ));
                        assert(first_frame_player_ok(self.player, pre.current_input, now));
                        assert(first_frame_background_ok(
                            self.background->Some_0@,
                            pre.namer.next_id,
                        ));
                    }
                    assert(spec_game_frame(pre, *self, cmds@, now));
                }
                Ok(cmds)
            },
        }
    }
}

impl Screen for GameScreen {
    /// Entities well-formed, the viewport sane, the player and the
    /// background present together, a positive spawn interval, any pending
    /// scene switch freshly built, and id headroom for the one-time scene
    /// layout.
    open spec fn inv(&self) -> bool {
        &&& self.camera.wf()
        &&& (self.player matches Some(p) ==> p.wf())
        &&& (self.player is Some <==> self.background is Some)
        &&& (self.background matches Some(b) ==> forall|i: int|
            0 <= i < b@.len() ==> (#[trigger] b@[i]).1.wf())
        &&& (forall|i: int| 0 <= i < self.goblins@.len() ==> (#[trigger] self.goblins@[i]).wf())
        &&& self.spawn_interval_ms > 0
        &&& (self.new_screen matches Some(b) ==> crate::screen::is_fresh_screen(*b))
        &&& (self.player is None ==> self.namer.next_id <= u64::MAX - TILE_COUNT as u64)
    }

    open spec fn spec_pending(&self) -> Option<ActiveScreen> {
        match self.new_screen {
            Some(b) => Some(*b),
            None => None,
        }
    }

    open spec fn time_ok(&self, now: u64) -> bool {
        &&& (self.start matches Some(s) ==> s <= now)
        &&& (self.player matches Some(p) ==> p.anim.last_advance_ms <= now)
        &&& (forall|i: int|
            0 <= i < self.goblins@.len() ==> (#[trigger] self.goblins@[i]).anim.last_advance_ms
                <= now)
    }

    fn change_screen(&mut self) -> (r: Option<Box<ActiveScreen>>) {
        if self.new_screen.is_some() {
            return self.new_screen.take();
        }
        None
    }
}

} // verus!


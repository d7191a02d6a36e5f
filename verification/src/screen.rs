//! Scene controllers and the handler that routes events to the live scene.
//!
//! The outer event loop talks to one [`RedirectHandler`], which owns the
//! live scene as a closed variant (title or game) and forwards every event
//! to it; at the start of each frame it honours a pending scene switch.

use crate::entity::DrawCmd;
use crate::screen::game::GameScreen;
use crate::screen::title::TitleScreen;
use crate::utility::animation::AnimationSelectError;
use vstd::prelude::*;

pub mod camera;
pub mod game;
pub mod title;

verus! {

/// A logical key, as far as the scenes care.
#[derive(Clone, Copy, PartialEq, Eq, Structural, Debug)]
pub enum Key {
    Left,
    Right,
    Up,
    Down,
    X,
    Escape,
    Space,
    Other,
}

/// A logical mouse button.
#[derive(Clone, Copy, PartialEq, Eq, Structural, Debug)]
pub enum MouseButton {
    Left,
    Right,
    Middle,
    Other,
}

/// The closed set of scenes.
pub enum ActiveScreen {
    Title(TitleScreen),
    Game(GameScreen),
}

/// A scene controller: it may ask for a scene switch, which the handler
/// honours at the start of the next frame.
pub trait Screen: Sized {
    /// The scene's internal invariant.
    spec fn inv(&self) -> bool;

    /// Every timestamp the scene has stored is at most `now`.
    spec fn time_ok(&self, now: u64) -> bool;

    /// The scene switch the controller has requested, if any.
    spec fn spec_pending(&self) -> Option<ActiveScreen>;

    /// Takes the pending switch request: the pending scene — always
    /// freshly built — is returned exactly once and cleared; with nothing
    /// pending, nothing is returned and nothing changes.
    fn change_screen(&mut self) -> (r: Option<Box<ActiveScreen>>)
        requires
            old(self).inv(),
        ensures
            final(self).inv(),
            (forall|t: u64| old(self).time_ok(t) ==> #[trigger] final(self).time_ok(t)),
            final(self).spec_pending() is None,
            (match old(self).spec_pending() {
                Some(s) => r matches Some(b) && *b == s && is_fresh_screen(s),
                None => r is None && *final(self) == *old(self),
            }),
    ;
}

/// The scene an event-loop frame runs: the pending switch when the live
/// scene holds one, else the live scene itself.
pub open spec fn spec_after_switch(s: ActiveScreen) -> ActiveScreen {
    match s {
        ActiveScreen::Title(t) => (match t.spec_pending() {
            Some(p) => p,
            None => s,
        }),
        ActiveScreen::Game(g) => (match g.spec_pending() {
            Some(p) => p,
            None => s,
        }),
    }
}

/// Whether a scene is exactly as its constructor builds it (for its own
/// viewport).
pub open spec fn is_fresh_screen(s: ActiveScreen) -> bool {
    match s {
        ActiveScreen::Title(t) => t == crate::screen::title::spec_title_screen(t.res),
        ActiveScreen::Game(g) => crate::screen::game::is_fresh_game(g, g.res),
    }
}

impl ActiveScreen {
    pub open spec fn wf(self) -> bool {
        match self {
            ActiveScreen::Title(t) => t.inv(),
            ActiveScreen::Game(g) => g.inv(),
        }
    }

    pub open spec fn time_ok(self, now: u64) -> bool {
        match self {
            ActiveScreen::Title(t) => t.time_ok(now),
            ActiveScreen::Game(g) => g.time_ok(now),
        }
    }
}

/// A freshly built scene satisfies its invariant and carries no
/// timestamps.
pub proof fn lemma_fresh_screen_ok(s: ActiveScreen)
    requires
        is_fresh_screen(s),
    ensures
        s.wf(),
        forall|t: u64| s.time_ok(t),
{
}

/// Owns the live scene, routes every event to it, and swaps scenes when
/// one asks for it.
pub struct RedirectHandler {
    pub my_handler: ActiveScreen,
}

impl RedirectHandler {
    pub open spec fn wf(self) -> bool {
        self.my_handler.wf()
    }

    pub open spec fn time_ok(self, now: u64) -> bool {
        self.my_handler.time_ok(now)
    }

    pub fn new(my_handler: ActiveScreen) -> (r: RedirectHandler)
        ensures
            r == (RedirectHandler { my_handler }),
    {
        RedirectHandler { my_handler }
    }

    /// One frame: honour a pending scene switch, then let the live scene
    /// update its world and say what to draw. Timestamps must not run
    /// backwards between frames.
    pub fn on_draw(&mut self, now: u64) -> (r: Result<Vec<DrawCmd>, AnimationSelectError>)
        requires
            old(self).wf(),
            old(self).time_ok(now),
        ensures
            final(self).wf(),
            (forall|t: u64| t >= now ==> #[trigger] final(self).time_ok(t)),
            r is Ok,
            (match spec_after_switch(old(self).my_handler) {
                ActiveScreen::Title(t) => final(self).my_handler == ActiveScreen::Title(t) && (
                r matches Ok(cmds) && cmds@.len() == 0),
                ActiveScreen::Game(g) => final(self).my_handler matches ActiveScreen::Game(g2) && (
                r matches Ok(cmds) && crate::screen::game::spec_game_frame(g, g2, cmds@, now)),
            }),
    {
        let next: Option<Box<ActiveScreen>> = match &mut self.my_handler {
            ActiveScreen::Title(t) => t.change_screen(),
            ActiveScreen::Game(g) => g.change_screen(),
        };
        if let Some(new_screen) = next {
            proof {
                lemma_fresh_screen_ok(*new_screen);
            }
            self.my_handler = *new_screen;
        }
        match &mut self.my_handler {
            ActiveScreen::Title(t) => Ok(t.on_draw()),
            ActiveScreen::Game(g) => g.on_draw(now),
        }
    }

    pub fn on_key_down(&mut self, key: Key)
        requires
            old(self).wf(),
        ensures
            final(self).wf(),
            (forall|t: u64| old(self).time_ok(t) ==> #[trigger] final(self).time_ok(t)),
            (match old(self).my_handler {
                ActiveScreen::Title(t) => final(self).my_handler matches ActiveScreen::Title(t2)
                    && crate::screen::title::spec_key_down_effect(t, t2, key),
                ActiveScreen::Game(g) => final(self).my_handler matches ActiveScreen::Game(g2)
                    && crate::screen::game::spec_key_down_effect(g, g2, key),
            }),
    {
        match &mut self.my_handler {
            ActiveScreen::Title(t) => t.on_key_down(key),
            ActiveScreen::Game(g) => g.on_key_down(key),
        }
    }

    pub fn on_key_up(&mut self, key: Key)
        requires
            old(self).wf(),
        ensures
            final(self).wf(),
            (forall|t: u64| old(self).time_ok(t) ==> #[trigger] final(self).time_ok(t)),
            (match old(self).my_handler {
                ActiveScreen::Title(_) => final(self).my_handler == old(self).my_handler,
                ActiveScreen::Game(g) => final(self).my_handler matches ActiveScreen::Game(g2)
                    && crate::screen::game::spec_key_up_effect(g, g2, key),
            }),
    {
        match &mut self.my_handler {
            ActiveScreen::Title(_) => {},
            ActiveScreen::Game(g) => g.on_key_up(key),
        }
    }

    pub fn on_mouse_move(&mut self, position: (i64, i64))
        requires
            old(self).wf(),
        ensures
            final(self).wf(),
            (forall|t: u64| old(self).time_ok(t) ==> #[trigger] final(self).time_ok(t)),
            (match old(self).my_handler {
                ActiveScreen::Title(t) => final(self).my_handler == ActiveScreen::Title(
                    TitleScreen { mouse_pos: position, ..t },
                ),
                ActiveScreen::Game(_) => final(self).my_handler == old(self).my_handler,
            }),
    {
        match &mut self.my_handler {
            ActiveScreen::Title(t) => t.on_mouse_move(position),
            ActiveScreen::Game(_) => {},
        }
    }

    /// Returns the user event the scene wants delivered, if any.
    pub fn on_mouse_button_down(&mut self, button: MouseButton) -> (r: Option<&'static str>)
        requires
            old(self).wf(),
        ensures
            final(self).wf(),
            (forall|t: u64| old(self).time_ok(t) ==> #[trigger] final(self).time_ok(t)),
            (match old(self).my_handler {
                ActiveScreen::Title(t) => final(self).my_handler matches ActiveScreen::Title(t2)
                    && crate::screen::title::spec_mouse_down_effect(t, t2, button, r is Some) && (
                r matches Some(ev) ==> ev@ == "start"@),
                ActiveScreen::Game(_) => final(self).my_handler == old(self).my_handler
                    && r is None,
            }),
    {
        match &mut self.my_handler {
            ActiveScreen::Title(t) => t.on_mouse_button_down(button),
            ActiveScreen::Game(_) => None,
        }
    }

    pub fn on_mouse_button_up(&mut self, button: MouseButton)
        requires
            old(self).wf(),
        ensures
            final(self).wf(),
            (forall|t: u64| old(self).time_ok(t) ==> #[trigger] final(self).time_ok(t)),
            (match old(self).my_handler {
                ActiveScreen::Title(t) => final(self).my_handler == ActiveScreen::Title(
                    TitleScreen { mouse_up: true, ..t },
                ),
                ActiveScreen::Game(_) => final(self).my_handler == old(self).my_handler,
            }),
    {
        match &mut self.my_handler {
            ActiveScreen::Title(t) => t.on_mouse_button_up(button),
            ActiveScreen::Game(_) => {},
        }
    }

    pub fn on_user_event(&mut self, user_event: &str)
        requires
            old(self).wf(),
        ensures
            final(self).wf(),
            (forall|t: u64| old(self).time_ok(t) ==> #[trigger] final(self).time_ok(t)),
            (match old(self).my_handler {
                ActiveScreen::Title(t) => final(self).my_handler matches ActiveScreen::Title(t2)
                    && crate::screen::title::spec_user_event_effect(t, t2, user_event@),
                ActiveScreen::Game(_) => final(self).my_handler == old(self).my_handler,
            }),
    {
        match &mut self.my_handler {
            ActiveScreen::Title(t) => t.on_user_event(user_event),
            ActiveScreen::Game(_) => {},
        }
    }

    pub fn on_resize(&mut self, size_pixels: (u32, u32))
        requires
            old(self).wf(),
        ensures
            final(self).wf(),
            (forall|t: u64| old(self).time_ok(t) ==> #[trigger] final(self).time_ok(t)),
            (match old(self).my_handler {
                ActiveScreen::Title(t) => final(self).my_handler matches ActiveScreen::Title(t2)
                    && crate::screen::title::spec_resize_effect(t, t2, size_pixels),
                ActiveScreen::Game(g) => final(self).my_handler matches ActiveScreen::Game(g2)
                    && crate::screen::game::spec_resize_effect(g, g2, size_pixels),
            }),
    {
        match &mut self.my_handler {
            ActiveScreen::Title(t) => t.on_resize(size_pixels),
            ActiveScreen::Game(g) => g.on_resize(size_pixels),
        }
    }
}

} // verus!

//! The title scene: a start button and the decision when to enter the game.
//!
//! Fonts and the button's looks live with the renderer; this scene owns the
//! flow — which key, click or user event starts a game — and the button's
//! hit rectangle.

use crate::screen::camera::PixRect;
use crate::screen::game::GameScreen;
use crate::screen::{ActiveScreen, Key, MouseButton, Screen};
use crate::utility::str_eq;
use vstd::prelude::*;

verus! {

/// Start button extent, in pixels.
pub const BUTTON_WIDTH_PX: u32 = 180;

pub const BUTTON_HEIGHT_PX: u32 = 60;

/// Rectangle of the given pixel size centred on `center`.
pub open spec fn spec_rect_from_size(width: u32, height: u32, center: (u32, u32)) -> PixRect {
    PixRect {
        left: (center.0 - width / 2) as i64,
        top: (center.1 - height / 2) as i64,
        right: (center.0 - width / 2 + width) as i64,
        bottom: (center.1 - height / 2 + height) as i64,
    }
}

/// Rectangle of the given pixel size centred on `center`.
pub fn rect_from_size(width: u32, height: u32, center: (u32, u32)) -> (r: PixRect)
    ensures
        r == spec_rect_from_size(width, height, center),
{
    let left: i64 = center.0 as i64 - (width / 2) as i64;
    let top: i64 = center.1 as i64 - (height / 2) as i64;
    PixRect { left, top, right: left + width as i64, bottom: top + height as i64 }
}

/// Effect of a key press on the title scene: the space key leaves a
/// freshly built game scene pending; everything else changes nothing.
pub open spec fn spec_key_down_effect(pre: TitleScreen, post: TitleScreen, key: Key) -> bool {
    &&& (key == Key::Space ==> (match post.new_screen {
        Some(b) => (*b) matches ActiveScreen::Game(g) && crate::screen::game::is_fresh_game(
            g,
            pre.res,
        ),
        None => false,
    }))
    &&& (key != Key::Space ==> post.new_screen == pre.new_screen)
    &&& post == (TitleScreen { new_screen: post.new_screen, ..pre })
}

/// Effect of a user event on the title scene: the start event leaves a
/// freshly built game scene pending; any other event changes nothing.
pub open spec fn spec_user_event_effect(pre: TitleScreen, post: TitleScreen, ev: Seq<char>) -> bool {
    &&& (ev == "start"@ ==> (match post.new_screen {
        Some(b) => (*b) matches ActiveScreen::Game(g) && crate::screen::game::is_fresh_game(
            g,
            pre.res,
        ),
        None => false,
    }))
    &&& (ev != "start"@ ==> post.new_screen == pre.new_screen)
    &&& post == (TitleScreen { new_screen: post.new_screen, ..pre })
}

/// Whether a press fires the start button: a fresh left click inside it.
pub open spec fn spec_click_fires(t: TitleScreen, button: MouseButton) -> bool {
    t.mouse_up && button == MouseButton::Left && t.start_button.spec_contains(t.mouse_pos)
}

/// Effect of a mouse press on the title scene: the press is remembered,
/// and `fired` says whether the start button was hit by a fresh click.
pub open spec fn spec_mouse_down_effect(
    pre: TitleScreen,
    post: TitleScreen,
    button: MouseButton,
    fired: bool,
) -> bool {
    &&& post == (TitleScreen { mouse_up: false, ..pre })
    &&& fired == spec_click_fires(pre, button)
}

/// Effect of a viewport change on the title scene: the resolution is
/// remembered and the start button recentred.
pub open spec fn spec_resize_effect(pre: TitleScreen, post: TitleScreen, size: (u32, u32)) -> bool {
    post == (TitleScreen {
        res: size,
        start_button: spec_rect_from_size(BUTTON_WIDTH_PX, BUTTON_HEIGHT_PX, (
            size.0 / 2,
            size.1 / 2,
        )),
        ..pre
    })
}

pub struct TitleScreen {
    pub new_screen: Option<Box<ActiveScreen>>,
    pub mouse_up: bool,
    pub mouse_pos: (i64, i64),
    pub res: (u32, u32),
    pub start_button: PixRect,
}

/// The title scene as `TitleScreen::new` makes it for a viewport.
pub open spec fn spec_title_screen(res: (u32, u32)) -> TitleScreen {
    TitleScreen {
        new_screen: None,
        mouse_up: true,
        mouse_pos: (0i64, 0i64),
        res,
        start_button: spec_rect_from_size(
            BUTTON_WIDTH_PX,
            BUTTON_HEIGHT_PX,
            (res.0 / 2, res.1 / 2),
        ),
    }
}

impl TitleScreen {
    pub fn new(res: (u32, u32)) -> (r: TitleScreen)
        ensures
            r == spec_title_screen(res),
            r.inv(),
    {
        TitleScreen {
            new_screen: None,
            mouse_up: true,
            mouse_pos: (0, 0),
            res,
            start_button: rect_from_size(BUTTON_WIDTH_PX, BUTTON_HEIGHT_PX, (
                res.0 / 2,
                res.1 / 2,
            )),
        }
    }

    /// The title scene issues no world draws; its button is rendered
    /// outside, over the cleared screen.
    pub fn on_draw(&self) -> (r: Vec<crate::entity::DrawCmd>)
        ensures
            r@.len() == 0,
    {
        Vec::new()
    }

    /// The space key enters the game.
    pub fn on_key_down(&mut self, key: Key)
        requires
            old(self).inv(),
        ensures
            final(self).inv(),
            spec_key_down_effect(*old(self), *final(self), key),
    {
        match key {
            Key::Space => {
                self.new_screen = Some(Box::new(ActiveScreen::Game(GameScreen::new(self.res))));
            },
            _ => {},
        }
    }

    pub fn on_mouse_move(&mut self, position: (i64, i64))
        ensures
            *final(self) == (TitleScreen { mouse_pos: position, ..*old(self) }),
    {
        self.mouse_pos = position;
    }

    pub fn on_mouse_button_up(&mut self, button: MouseButton)
        ensures
            *final(self) == (TitleScreen { mouse_up: true, ..*old(self) }),
    {
        let _ = button;
        self.mouse_up = true;
    }

    /// A fresh left click inside the start button fires the start event;
    /// the event is returned for the event loop to deliver. Any press ends
    /// the "fresh click" state until the button is released.
    pub fn on_mouse_button_down(&mut self, button: MouseButton) -> (r: Option<&'static str>)
        ensures
            spec_mouse_down_effect(*old(self), *final(self), button, r is Some),
            (r matches Some(ev) ==> ev@ == "start"@),
    {
        let mut fired: Option<&'static str> = None;
        if self.mouse_up {
            if matches!(button, MouseButton::Left) {
                if self.start_button.contains(self.mouse_pos) {
                    fired = Some("start");
                }
            }
        }
        self.mouse_up = false;
        fired
    }

    /// The start event enters the game.
    pub fn on_user_event(&mut self, user_event: &str)
        requires
            old(self).inv(),
        ensures
            final(self).inv(),
            spec_user_event_effect(*old(self), *final(self), user_event@),
    {
        if str_eq(user_event, "start") {
            self.new_screen = Some(Box::new(ActiveScreen::Game(GameScreen::new(self.res))));
        }
    }

    /// Remembers the viewport and recentres the start button in it.
    pub fn on_resize(&mut self, size_pixels: (u32, u32))
        ensures
            spec_resize_effect(*old(self), *final(self), size_pixels),
    {
        self.res = size_pixels;
        self.start_button = rect_from_size(BUTTON_WIDTH_PX, BUTTON_HEIGHT_PX, (
            size_pixels.0 / 2,
            size_pixels.1 / 2,
        ));
    }
}

impl Screen for TitleScreen {
    open spec fn inv(&self) -> bool {
        match self.new_screen {
            Some(b) => crate::screen::is_fresh_screen(*b),
            None => true,
        }
    }

    open spec fn spec_pending(&self) -> Option<ActiveScreen> {
        match self.new_screen {
            Some(b) => Some(*b),
            None => None,
        }
    }

    open spec fn time_ok(&self, now: u64) -> bool {
        true
    }

    fn change_screen(&mut self) -> (r: Option<Box<ActiveScreen>>) {
        if self.new_screen.is_some() {
            return self.new_screen.take();
        }
        None
    }
}

} // verus!

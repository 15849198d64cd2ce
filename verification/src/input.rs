//! The input of the launcher: what the keys and the controller said, for the
//! user interface to take.

pub mod utils;

use vstd::prelude::*;

use crate::input::utils::{
    after_clear, after_key_event, after_tick, new_key_hits, KeyEvent, KeyHitGenerator, KeyHits,
};
use crate::utils::TimeMilliseconds;

verus! {

/// What the input holds: the two flags and the key hits of the four
/// directions.
pub struct Keys {
    pub quit: bool,
    pub select: bool,
    pub right: KeyHits,
    pub left: KeyHits,
    pub up: KeyHits,
    pub down: KeyHits,
}

/// The input before anything happened.
pub open spec fn new_keys() -> Keys {
    Keys {
        quit: false,
        select: false,
        right: new_key_hits(),
        left: new_key_hits(),
        up: new_key_hits(),
        down: new_key_hits(),
    }
}

/// The input after a tick at `now`, which lets each direction that is held
/// down make its hits.
pub open spec fn keys_after_tick(keys: Keys, now: u32) -> Keys {
    Keys {
        up: after_tick(keys.up, now, true),
        down: after_tick(keys.down, now, true),
        left: after_tick(keys.left, now, true),
        right: after_tick(keys.right, now, true),
        ..keys
    }
}

/// The input of the launcher.
pub struct InputManager {
    quit: bool,
    select: bool,
    right: KeyHitGenerator,
    left: KeyHitGenerator,
    up: KeyHitGenerator,
    down: KeyHitGenerator,
}

impl View for InputManager {
    type V = Keys;

    closed spec fn view(&self) -> Keys {
        Keys {
            quit: self.quit,
            select: self.select,
            right: self.right@,
            left: self.left@,
            up: self.up@,
            down: self.down@,
        }
    }
}

impl InputManager {
    /// An input on which nothing has happened yet.
    pub fn new() -> (input: InputManager)
        ensures
            input@ == new_keys(),
    {
        InputManager {
            quit: false,
            select: false,
            right: KeyHitGenerator::new(),
            left: KeyHitGenerator::new(),
            up: KeyHitGenerator::new(),
            down: KeyHitGenerator::new(),
        }
    }

    /// Lets the directions that are held down make their hits. To be called
    /// once per round of the driving loop.
    pub fn update(&mut self, current_time: &TimeMilliseconds)
        ensures
            final(self)@ == keys_after_tick(old(self)@, current_time.0),
    {
        self.up.update(current_time, true);
        self.down.update(current_time, true);
        self.left.update(current_time, true);
        self.right.update(current_time, true);
    }
}

/// The side of the input that takes what happened.
pub trait InputUpdater {
    /// What the input holds.
    spec fn keys(&self) -> Keys;

    /// Sets whether the launcher shall quit.
    fn set_quit(&mut self, value: bool)
        ensures
            final(self).keys() == (Keys { quit: value, ..old(self).keys() }),
    ;

    /// Sets whether the selected command queue shall be launched.
    fn set_select(&mut self, value: bool)
        ensures
            final(self).keys() == (Keys { select: value, ..old(self).keys() }),
    ;

    /// Takes note of what happened to the key for right.
    fn update_right(&mut self, key_event: KeyEvent, current_time: &TimeMilliseconds)
        ensures
            final(self).keys() == (Keys {
                right: after_key_event(old(self).keys().right, key_event, current_time.0),
                ..old(self).keys()
            }),
    ;

    /// Takes note of what happened to the key for left.
    fn update_left(&mut self, key_event: KeyEvent, current_time: &TimeMilliseconds)
        ensures
            final(self).keys() == (Keys {
                left: after_key_event(old(self).keys().left, key_event, current_time.0),
                ..old(self).keys()
            }),
    ;

    /// Takes note of what happened to the key for up.
    fn update_up(&mut self, key_event: KeyEvent, current_time: &TimeMilliseconds)
        ensures
            final(self).keys() == (Keys {
                up: after_key_event(old(self).keys().up, key_event, current_time.0),
                ..old(self).keys()
            }),
    ;

    /// Takes note of what happened to the key for down.
    fn update_down(&mut self, key_event: KeyEvent, current_time: &TimeMilliseconds)
        ensures
            final(self).keys() == (Keys {
                down: after_key_event(old(self).keys().down, key_event, current_time.0),
                ..old(self).keys()
            }),
    ;
}

/// The side of the input that tells what happened. A hit or a request to
/// launch is told once: to ask takes it.
pub trait Input {
    /// What the input holds.
    spec fn pending(&self) -> Keys;

    /// Whether the launcher shall quit.
    fn quit(&self) -> (quit: bool)
        ensures
            quit == self.pending().quit,
    ;

    /// Whether the selected command queue shall be launched.
    fn select(&mut self) -> (select: bool)
        ensures
            select == old(self).pending().select,
            final(self).pending() == (Keys { select: false, ..old(self).pending() }),
    ;

    /// Whether right was hit.
    fn right(&mut self) -> (hit: bool)
        ensures
            hit == old(self).pending().right.key_hit,
            final(self).pending() == (Keys {
                right: after_clear(old(self).pending().right),
                ..old(self).pending()
            }),
    ;

    /// Whether left was hit.
    fn left(&mut self) -> (hit: bool)
        ensures
            hit == old(self).pending().left.key_hit,
            final(self).pending() == (Keys {
                left: after_clear(old(self).pending().left),
                ..old(self).pending()
            }),
    ;

    /// Whether up was hit.
    fn up(&mut self) -> (hit: bool)
        ensures
            hit == old(self).pending().up.key_hit,
            final(self).pending() == (Keys {
                up: after_clear(old(self).pending().up),
                ..old(self).pending()
            }),
    ;

    /// Whether down was hit.
    fn down(&mut self) -> (hit: bool)
        ensures
            hit == old(self).pending().down.key_hit,
            final(self).pending() == (Keys {
                down: after_clear(old(self).pending().down),
                ..old(self).pending()
            }),
    ;
}

impl InputUpdater for InputManager {
    open spec fn keys(&self) -> Keys {
        self@
    }

    fn set_quit(&mut self, value: bool) {
        self.quit = value;
    }

    fn set_select(&mut self, value: bool) {
        self.select = value;
    }

    fn update_right(&mut self, key_event: KeyEvent, current_time: &TimeMilliseconds) {
        self.right.update_from_key_event(key_event, current_time)
    }

    fn update_left(&mut self, key_event: KeyEvent, current_time: &TimeMilliseconds) {
        self.left.update_from_key_event(key_event, current_time)
    }

    fn update_up(&mut self, key_event: KeyEvent, current_time: &TimeMilliseconds) {
        self.up.update_from_key_event(key_event, current_time)
    }

    fn update_down(&mut self, key_event: KeyEvent, current_time: &TimeMilliseconds) {
        self.down.update_from_key_event(key_event, current_time)
    }
}

impl Input for InputManager {
    open spec fn pending(&self) -> Keys {
        self@
    }

    fn quit(&self) -> (quit: bool) {
        self.quit
    }

    fn select(&mut self) -> (select: bool) {
        let select = self.select;
        self.select = false;
        select
    }

    fn right(&mut self) -> (hit: bool) {
        self.right.key_hit()
    }

    fn left(&mut self) -> (hit: bool) {
        self.left.key_hit()
    }

    fn up(&mut self) -> (hit: bool) {
        self.up.key_hit()
    }

    fn down(&mut self) -> (hit: bool) {
        self.down.key_hit()
    }
}

} // verus!

//! Key hits: what a key that is pressed, held and released amounts to.

use vstd::prelude::*;

use crate::utils::{elapsed, TimeMilliseconds, Timer};

verus! {

/// What happened to a key.
#[derive(Clone, Copy, Debug, PartialEq, Eq, Structural)]
pub enum KeyEvent {
    KeyUp,
    KeyDown,
}

/// How a key that is held down makes hits.
#[derive(Clone, Copy, Debug, PartialEq, Eq, Structural)]
pub enum KeyHitState {
    /// The key went down and has made no hit yet: its release is a hit.
    NormalMode,
    /// The key was held long enough to make hits by itself.
    ScrollMode,
}

/// The milliseconds that a key is held before it makes a hit by itself, and
/// between two such hits.
pub const MILLISECONDS_BETWEEN_KEY_HITS: u32 = 300;

/// What a key hit generator is.
pub struct KeyHits {
    pub milliseconds_between_key_hits: u32,
    /// When the key went down, or made its last hit by itself.
    pub timer_start: u32,
    /// None while the key is up.
    pub state: Option<KeyHitState>,
    /// Whether a hit waits to be taken.
    pub key_hit: bool,
}

/// A new generator: the key is up and no hit waits.
pub open spec fn new_key_hits() -> KeyHits {
    KeyHits {
        milliseconds_between_key_hits: MILLISECONDS_BETWEEN_KEY_HITS,
        timer_start: 0,
        state: None,
        key_hit: false,
    }
}

/// The generator after the key went down at `now`: a key that was up is now
/// down and timed from `now`; a key that was down already stays as it was.
pub open spec fn after_down(keys: KeyHits, now: u32) -> KeyHits {
    match keys.state {
        None => KeyHits { state: Some(KeyHitState::NormalMode), timer_start: now, ..keys },
        Some(_) => keys,
    }
}

/// The generator after the key went up: the release is a hit where the key
/// was down and had made no hit by itself, and is none otherwise.
pub open spec fn after_up(keys: KeyHits) -> KeyHits {
    KeyHits { key_hit: keys.state == Some(KeyHitState::NormalMode), state: None, ..keys }
}

/// The generator after a key event at `now`.
pub open spec fn after_key_event(keys: KeyHits, key_event: KeyEvent, now: u32) -> KeyHits {
    match key_event {
        KeyEvent::KeyUp => after_up(keys),
        KeyEvent::KeyDown => after_down(keys, now),
    }
}

/// The generator after a tick at `now`: a key that is down and has been so,
/// or has made no hit, for the time between key hits makes a hit and is
/// timed anew. A tick with `key_down` false changes nothing.
pub open spec fn after_tick(keys: KeyHits, now: u32, key_down: bool) -> KeyHits {
    if key_down && keys.state is Some && elapsed(keys.timer_start, now)
        >= keys.milliseconds_between_key_hits {
        KeyHits { state: Some(KeyHitState::ScrollMode), key_hit: true, timer_start: now, ..keys }
    } else {
        keys
    }
}

/// The generator after its hit was taken or cleared.
pub open spec fn after_clear(keys: KeyHits) -> KeyHits {
    KeyHits { key_hit: false, ..keys }
}

/// Makes key hits of key events: one for each release of a key, and one
/// after another while the key is held down long enough.
pub struct KeyHitGenerator {
    milliseconds_between_key_hits: u32,
    timer: Timer,
    state: Option<KeyHitState>,
    key_hit: bool,
}

impl View for KeyHitGenerator {
    type V = KeyHits;

    closed spec fn view(&self) -> KeyHits {
        KeyHits {
            milliseconds_between_key_hits: self.milliseconds_between_key_hits,
            timer_start: self.timer@,
            state: self.state,
            key_hit: self.key_hit,
        }
    }
}

impl KeyHitGenerator {
    /// A generator whose key is up, with 300 milliseconds between key hits.
    pub fn new() -> (generator: KeyHitGenerator)
        ensures
            generator@ == new_key_hits(),
    {
        KeyHitGenerator {
            milliseconds_between_key_hits: MILLISECONDS_BETWEEN_KEY_HITS,
            timer: Timer::new(),
            state: None,
            key_hit: false,
        }
    }

    /// Takes note of a key event.
    pub fn update_from_key_event(&mut self, key_event: KeyEvent, current_time: &TimeMilliseconds)
        ensures
            final(self)@ == after_key_event(old(self)@, key_event, current_time.0),
    {
        match key_event {
            KeyEvent::KeyUp => self.up(),
            KeyEvent::KeyDown => self.down(current_time),
        }
    }

    /// Makes a hit if the key is down and enough time has passed since it
    /// went down or made its last hit by itself. Does nothing where
    /// `key_down` is false.
    pub fn update(&mut self, current_time: &TimeMilliseconds, key_down: bool)
        ensures
            final(self)@ == after_tick(old(self)@, current_time.0, key_down),
    {
        if !key_down {
            return ;
        }
        match self.state {
            Some(KeyHitState::NormalMode) => {
                if self.timer.check(current_time, self.milliseconds_between_key_hits) {
                    self.state = Some(KeyHitState::ScrollMode);
                    self.key_hit = true;
                }
            },
            Some(KeyHitState::ScrollMode) => {
                if self.timer.check(current_time, self.milliseconds_between_key_hits) {
                    self.key_hit = true;
                }
            },
            None => {},
        }
    }

    /// Takes note that the key went down.
    pub fn down(&mut self, current_time: &TimeMilliseconds)
        ensures
            final(self)@ == after_down(old(self)@, current_time.0),
    {
        match self.state {
            None => {
                self.state = Some(KeyHitState::NormalMode);
                self.timer.reset(current_time);
            },
            Some(_) => {},
        }
    }

    /// Takes note that the key went up.
    pub fn up(&mut self)
        ensures
            final(self)@ == after_up(old(self)@),
    {
        match self.state {
            Some(KeyHitState::NormalMode) => {
                self.key_hit = true;
            },
            _ => {
                self.key_hit = false;
            },
        }
        self.state = None;
    }

    /// Tells whether a hit waits, and takes it.
    pub fn key_hit(&mut self) -> (hit: bool)
        ensures
            hit == old(self)@.key_hit,
            final(self)@ == after_clear(old(self)@),
    {
        if self.key_hit {
            self.clear();
            true
        } else {
            false
        }
    }

    /// Drops the hit that waits, if one does.
    pub fn clear(&mut self)
        ensures
            final(self)@ == after_clear(old(self)@),
    {
        self.key_hit = false;
    }
}

} // verus!

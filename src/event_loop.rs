use vstd::prelude::*;
use crate::animation::{Animation, AnimationController, advances_to};

verus! {

/// Time between two frames of the animation, in milliseconds.
pub const FRAME_DELAY_MS: u64 = 500;

/// Time between two refreshes of the weather, in milliseconds.
pub const REFRESH_INTERVAL_MS: u64 = 60000;

/// How long the loop waits for a key press in each round, in milliseconds.
pub const POLL_TIMEOUT_MS: u64 = 50;

/// The key of a key press, as far as the loop tells keys apart.
#[derive(Clone, Copy, PartialEq, Eq, Structural)]
pub enum Key {
    Char(char),
    Other,
}

/// A key press: the key, and whether Control was held.
#[derive(Clone, Copy, PartialEq, Eq, Structural)]
pub struct KeyPress {
    pub key: Key,
    pub ctrl: bool,
}

/// `q`, `Q` and Control-C end the program.
pub open spec fn spec_is_quit(k: KeyPress) -> bool {
    k.key == Key::Char('q') || k.key == Key::Char('Q') || (k.key == Key::Char('c') && k.ctrl)
}

/// Whether the key press ends the program.
pub fn is_quit_key(k: &KeyPress) -> (r: bool)
    ensures
        r == spec_is_quit(*k),
{
    match k.key {
        Key::Char(c) => c == 'q' || c == 'Q' || (c == 'c' && k.ctrl),
        Key::Other => false,
    }
}

/// What the loop does at the end of a round.
#[derive(Clone, Copy, PartialEq, Eq, Structural)]
pub struct Tick {
    /// Leave the loop.
    pub quit: bool,
    /// The animation moved on to its next frame: restart the frame timer.
    pub advance_frame: bool,
    /// Restart the refresh timer.
    pub reset_refresh: bool,
}

/// The decision at the end of a round, given the key pressed during the poll
/// (if any) and the time since the frame timer and the refresh timer last
/// restarted. A quit key ends the loop before anything else happens.
pub open spec fn spec_decide(key: Option<KeyPress>, since_frame_ms: u64, since_refresh_ms: u64) -> Tick {
    let quit = key is Some && spec_is_quit(key->0);
    Tick {
        quit,
        advance_frame: !quit && since_frame_ms >= FRAME_DELAY_MS,
        reset_refresh: !quit && since_refresh_ms >= REFRESH_INTERVAL_MS,
    }
}

/// The decision at the end of a round; see `spec_decide`.
pub fn decide(key: Option<KeyPress>, since_frame_ms: u64, since_refresh_ms: u64) -> (r: Tick)
    ensures
        r == spec_decide(key, since_frame_ms, since_refresh_ms),
{
    let quit = match key {
        Some(k) => is_quit_key(&k),
        None => false,
    };
    Tick {
        quit,
        advance_frame: !quit && since_frame_ms >= FRAME_DELAY_MS,
        reset_refresh: !quit && since_refresh_ms >= REFRESH_INTERVAL_MS,
    }
}

/// Ends a round of the loop: decides as `decide` does and, when the frame
/// is due, moves the controller on by one frame.
pub fn end_round<A: Animation>(
    controller: &mut AnimationController,
    animation: &A,
    key: Option<KeyPress>,
    since_frame_ms: u64,
    since_refresh_ms: u64,
) -> (r: Tick)
    ensures
        r == spec_decide(key, since_frame_ms, since_refresh_ms),
        r.advance_frame ==> advances_to(
            old(controller).index(),
            final(controller).index(),
            animation.frames().len(),
        ),
        r.advance_frame && old(controller).index() < usize::MAX ==> final(controller).index()
            == old(controller).index() + 1,
        !r.advance_frame ==> final(controller).index() == old(controller).index(),
{
    let tick = decide(key, since_frame_ms, since_refresh_ms);
    if tick.advance_frame {
        controller.next_frame(animation);
    }
    tick
}

} // verus!

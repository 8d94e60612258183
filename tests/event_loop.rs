use weathr::animation::{AnimationController, SunnyAnimation};
use weathr::event_loop::{decide, end_round, is_quit_key, Key, KeyPress};

fn press(c: char, ctrl: bool) -> KeyPress {
    KeyPress { key: Key::Char(c), ctrl }
}

#[test]
fn quit_keys() {
    assert!(is_quit_key(&press('q', false)));
    assert!(is_quit_key(&press('Q', false)));
    assert!(is_quit_key(&press('c', true)));
    assert!(!is_quit_key(&press('c', false)));
    assert!(!is_quit_key(&press('x', true)));
    assert!(!is_quit_key(&KeyPress { key: Key::Other, ctrl: true }));
}

#[test]
fn q_during_poll_ends_the_loop() {
    let a = SunnyAnimation::new();
    let mut c = AnimationController::new();
    let t = end_round(&mut c, &a, Some(press('q', false)), 1000, 70000);
    assert!(t.quit);
    assert!(!t.advance_frame);
    assert!(!t.reset_refresh);
    assert_eq!(c.current_index(), 0);
}

#[test]
fn frame_advances_after_delay() {
    let a = SunnyAnimation::new();
    let mut c = AnimationController::new();
    let t = end_round(&mut c, &a, None, 499, 0);
    assert!(!t.quit && !t.advance_frame);
    assert_eq!(c.current_index(), 0);
    let t = end_round(&mut c, &a, Some(press('x', false)), 500, 0);
    assert!(!t.quit && t.advance_frame);
    assert_eq!(c.current_index(), 1);
}

#[test]
fn refresh_timer_resets_after_a_minute() {
    assert!(!decide(None, 0, 59999).reset_refresh);
    assert!(decide(None, 0, 60000).reset_refresh);
}

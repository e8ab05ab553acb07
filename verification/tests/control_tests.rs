use donut::input::{command_of, listener_step, Command, Controls, Key, ListenerState};
use donut::renderer::{pace_ms, FpsCounter};

#[test]
fn new_controls_start_lowered() {
    let c = Controls::new();
    assert!(!c.paused);
    assert!(!c.quit);
    assert!(!c.reset);
}

#[test]
fn toggling_pause_twice_restores_state() {
    let mut c = Controls::new();
    c.toggle_pause();
    assert!(c.paused);
    c.toggle_pause();
    assert!(!c.paused);

    let mut d = Controls::new();
    d.toggle_pause();
    d.toggle_pause();
    assert_eq!(d.paused, false);
    assert_eq!(d.quit, false);
    assert_eq!(d.reset, false);
}

#[test]
fn consumed_reset_reads_false_until_set_again() {
    let mut c = Controls::new();
    c.request_reset();
    assert!(c.reset);
    let was = c.consume_reset();
    assert!(was);
    assert!(!c.reset);
    let was_again = c.consume_reset();
    assert!(!was_again);
    assert!(!c.reset);
    c.request_reset();
    assert!(c.reset);
}

#[test]
fn quit_is_observable_and_sticky() {
    let mut c = Controls::new();
    c.set_quit();
    assert!(c.quit);
    c.toggle_pause();
    c.request_reset();
    let _ = c.consume_reset();
    assert!(c.quit);
}

#[test]
fn key_map_matches_the_contract() {
    assert!(matches!(command_of(Some(Key::Char(' '))), Command::TogglePause));
    assert!(matches!(command_of(Some(Key::Char('r'))), Command::RequestReset));
    assert!(matches!(command_of(Some(Key::Char('R'))), Command::RequestReset));
    assert!(matches!(command_of(Some(Key::Char('q'))), Command::Quit));
    assert!(matches!(command_of(Some(Key::Char('Q'))), Command::Quit));
    assert!(matches!(command_of(Some(Key::Esc)), Command::Quit));
    assert!(matches!(command_of(Some(Key::Char('x'))), Command::Ignore));
    assert!(matches!(command_of(Some(Key::Other)), Command::Ignore));
    assert!(matches!(command_of(None), Command::Ignore));
}

#[test]
fn listener_stops_on_quit_key() {
    let mut c = Controls::new();
    let st = listener_step(&mut c, Some(Key::Char('q')));
    assert!(matches!(st, ListenerState::Stopped));
    assert!(c.quit);
}

#[test]
fn listener_stops_on_escape() {
    let mut c = Controls::new();
    let st = listener_step(&mut c, Some(Key::Esc));
    assert!(matches!(st, ListenerState::Stopped));
    assert!(c.quit);
}

#[test]
fn listener_observes_externally_set_quit() {
    let mut c = Controls::new();
    c.set_quit();
    let st = listener_step(&mut c, None);
    assert!(matches!(st, ListenerState::Stopped));
}

#[test]
fn listener_keeps_listening_on_other_keys() {
    let mut c = Controls::new();
    let st = listener_step(&mut c, Some(Key::Char('z')));
    assert!(matches!(st, ListenerState::Listening));
    assert!(!c.paused && !c.quit && !c.reset);
    let st = listener_step(&mut c, Some(Key::Char(' ')));
    assert!(matches!(st, ListenerState::Listening));
    assert!(c.paused);
    let st = listener_step(&mut c, Some(Key::Char('r')));
    assert!(matches!(st, ListenerState::Listening));
    assert!(c.reset);
}

#[test]
fn fps_counter_publishes_once_a_second() {
    let mut f = FpsCounter::new();
    assert_eq!(f.frames, 0);
    assert_eq!(f.display, 0);
    f.frame_done(false);
    f.frame_done(false);
    f.frame_done(false);
    assert_eq!(f.frames, 3);
    assert_eq!(f.display, 0);
    f.frame_done(true);
    assert_eq!(f.display, 4);
    assert_eq!(f.frames, 0);
    f.frame_done(false);
    assert_eq!(f.frames, 1);
    assert_eq!(f.display, 4);
}

#[test]
fn pacing_never_goes_negative() {
    assert_eq!(pace_ms(33, 10), 23);
    assert_eq!(pace_ms(33, 33), 0);
    assert_eq!(pace_ms(33, 50), 0);
    assert_eq!(pace_ms(0, 0), 0);
}

//! Control flags shared between the render loop and the input listener,
//! and the listener's own protocol: which keys mean what, and how each
//! recognized key changes the flags.
//!
//! The listener side of the program owns one atomic boolean per flag; this
//! module holds the verified meaning of every transition on the flag
//! triple, and the binary replays each transition on its atomics.

use vstd::prelude::*;

verus! {

/// The three independent control signals.
///
/// `paused` freezes recomputation, `quit` ends both loops and is never
/// taken back, `reset` asks the renderer to zero its rotation angles and
/// is cleared again the moment it is consumed.
pub struct Controls {
    pub paused: bool,
    pub quit: bool,
    pub reset: bool,
}

/// A key event as the listener sees it: a printable character, the
/// escape key, or anything else (ignored).
pub enum Key {
    Char(char),
    Esc,
    Other,
}

/// What a key event asks of the renderer.
pub enum Command {
    TogglePause,
    RequestReset,
    Quit,
    Ignore,
}

/// The listener state machine: it listens until quit is observed.
pub enum ListenerState {
    Listening,
    Stopped,
}

/// The key map: space toggles pause, `r`/`R` requests a reset,
/// `q`/`Q` or escape quits, and every other event is ignored.
pub open spec fn spec_command_of(ev: Option<Key>) -> Command {
    match ev {
        Option::Some(Key::Char(c)) => {
            if c == ' ' {
                Command::TogglePause
            } else if c == 'r' || c == 'R' {
                Command::RequestReset
            } else if c == 'q' || c == 'Q' {
                Command::Quit
            } else {
                Command::Ignore
            }
        },
        Option::Some(Key::Esc) => Command::Quit,
        Option::Some(Key::Other) => Command::Ignore,
        Option::None => Command::Ignore,
    }
}

/// How one command changes the flag triple.
pub open spec fn spec_apply(c: Controls, cmd: Command) -> Controls {
    match cmd {
        Command::TogglePause => Controls { paused: !c.paused, ..c },
        Command::RequestReset => Controls { reset: true, ..c },
        Command::Quit => Controls { quit: true, ..c },
        Command::Ignore => c,
    }
}

impl Controls {
    /// All three flags start lowered.
    pub fn new() -> (r: Controls)
        ensures
            !r.paused,
            !r.quit,
            !r.reset,
    {
        Controls { paused: false, quit: false, reset: false }
    }

    /// Flip the pause flag; the other flags are untouched.
    pub fn toggle_pause(&mut self)
        ensures
            *final(self) == spec_apply(*old(self), Command::TogglePause),
    {
        self.paused = !self.paused;
    }

    /// Raise the reset request; the other flags are untouched.
    pub fn request_reset(&mut self)
        ensures
            *final(self) == spec_apply(*old(self), Command::RequestReset),
    {
        self.reset = true;
    }

    /// Raise the quit flag; it is never lowered again.
    pub fn set_quit(&mut self)
        ensures
            *final(self) == spec_apply(*old(self), Command::Quit),
    {
        self.quit = true;
    }

    /// Read and clear the reset request in one step, so a request is
    /// consumed exactly once.
    pub fn consume_reset(&mut self) -> (was: bool)
        ensures
            was == old(self).reset,
            !final(self).reset,
            final(self).paused == old(self).paused,
            final(self).quit == old(self).quit,
    {
        let was = self.reset;
        self.reset = false;
        was
    }
}

/// Translate one key event into a command.
pub fn command_of(ev: Option<Key>) -> (cmd: Command)
    ensures
        cmd == spec_command_of(ev),
{
    match ev {
        Option::Some(Key::Char(c)) => {
            if c == ' ' {
                Command::TogglePause
            } else if c == 'r' || c == 'R' {
                Command::RequestReset
            } else if c == 'q' || c == 'Q' {
                Command::Quit
            } else {
                Command::Ignore
            }
        },
        Option::Some(Key::Esc) => Command::Quit,
        Option::Some(Key::Other) => Command::Ignore,
        Option::None => Command::Ignore,
    }
}

/// One pass of the listener loop: apply the event's command to the flags,
/// then keep listening exactly as long as quit has not been observed —
/// whether the event raised it or another party already had.
pub fn listener_step(ctl: &mut Controls, ev: Option<Key>) -> (st: ListenerState)
    ensures
        *final(ctl) == spec_apply(*old(ctl), spec_command_of(ev)),
        (st is Stopped) == final(ctl).quit,
{
    let cmd = command_of(ev);
    match cmd {
        Command::TogglePause => ctl.toggle_pause(),
        Command::RequestReset => ctl.request_reset(),
        Command::Quit => ctl.set_quit(),
        Command::Ignore => (),
    }
    if ctl.quit {
        ListenerState::Stopped
    } else {
        ListenerState::Listening
    }
}

/// Toggling pause twice returns the flags to exactly their original
/// state.
pub proof fn lemma_pause_toggle_involutive(c: Controls)
    ensures
        spec_apply(spec_apply(c, Command::TogglePause), Command::TogglePause) == c,
{
}

/// Quit is monotonic: once raised, no command lowers it.
pub proof fn lemma_quit_monotonic(c: Controls, cmd: Command)
    requires
        c.quit,
    ensures
        spec_apply(c, cmd).quit,
{
}

/// A consumed reset request stays consumed: only a new reset command
/// raises the flag again.
pub proof fn lemma_reset_stays_consumed(c: Controls, cmd: Command)
    requires
        !c.reset,
        !(cmd is RequestReset),
    ensures
        !spec_apply(c, cmd).reset,
{
}

} // verus!

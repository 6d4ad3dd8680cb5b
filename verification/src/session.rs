use vstd::prelude::*;

use crate::BrowserError;
use crate::term_api;

verus! {

/// One terminal-control action a session performs: switching the terminal
/// into raw mode, restoring a saved set of attributes, hiding the cursor,
/// or showing it again.
pub enum TermEvent {
    RawModeSet,
    ModeRestored(termios::Termios),
    CursorHidden,
    CursorShown,
}

/// The control sequence that hides the cursor.
pub open spec fn hide_cursor_seq() -> Seq<char> {
    "\x1b[?25l"@
}

/// The control sequence that shows the cursor.
pub open spec fn show_cursor_seq() -> Seq<char> {
    "\x1b[?25h"@
}

/// The control sequence that hides the cursor, as sent to the terminal.
pub fn hide_cursor_sequence() -> (s: &'static str)
    ensures
        s@ == hide_cursor_seq(),
{
    "\x1b[?25l"
}

/// The control sequence that shows the cursor, as sent to the terminal.
pub fn show_cursor_sequence() -> (s: &'static str)
    ensures
        s@ == show_cursor_seq(),
{
    "\x1b[?25h"
}

/// The actions opening a session performs, in order: enter raw mode, then
/// hide the cursor.
pub open spec fn open_actions() -> Seq<TermEvent> {
    seq![TermEvent::RawModeSet, TermEvent::CursorHidden]
}

/// The actions closing a session performs, in order: restore the saved
/// attributes, then show the cursor.
pub open spec fn close_actions(saved: termios::Termios) -> Seq<TermEvent> {
    seq![TermEvent::ModeRestored(saved), TermEvent::CursorShown]
}

/// Every action a session opened on attributes `saved` performs over its
/// whole lifetime: nothing between open and close touches the terminal's
/// configuration.
pub open spec fn full_session_log(saved: termios::Termios) -> Seq<TermEvent> {
    open_actions() + close_actions(saved)
}

/// How many times an action occurs in a log.
pub open spec fn count_events(log: Seq<TermEvent>, e: TermEvent) -> nat
    decreases log.len(),
{
    if log.len() == 0 {
        0
    } else {
        (if log[0] == e {
            1nat
        } else {
            0nat
        }) + count_events(log.drop_first(), e)
    }
}

/// The guard that owns the terminal for the browser's lifetime.
///
/// It captures the terminal's attributes when opened, holds them untouched
/// — no method changes them, only `close` consumes the guard — and applies
/// exactly those attributes again when closed, so the mode in force before
/// the session always comes back, whatever happened in between.
pub struct Session {
    saved: termios::Termios,
    events: Ghost<Seq<TermEvent>>,
}

impl Session {
    /// The terminal attributes captured when the session was opened,
    /// restored verbatim at close.
    pub closed spec fn saved_mode(self) -> termios::Termios {
        self.saved
    }

    /// The terminal-control actions the session has performed so far.
    pub closed spec fn log(self) -> Seq<TermEvent> {
        self.events@
    }

    /// Capture the current terminal attributes, switch the terminal into
    /// raw (non-canonical, non-echoing) input mode, and hide the cursor.
    ///
    /// Fails with `TerminalConfig` when the attributes cannot be queried —
    /// before any raw-mode side effect — and likewise when they cannot be
    /// set. On success, the session has entered raw mode and hidden the
    /// cursor, each exactly once, and has saved the queried attributes for
    /// close to restore.
    pub fn open() -> (r: Result<Session, BrowserError>)
        ensures
            r matches Ok(s) ==> s.log() == open_actions(),
            r matches Err(e) ==> e == BrowserError::TerminalConfig,
    {
        let saved = match term_api::query_terminal_mode() {
            Ok(mode) => mode,
            Err(_) => {
                return Err(BrowserError::TerminalConfig);
            },
        };
        match term_api::enable_raw_mode(&saved) {
            Ok(()) => {},
            Err(_) => {
                return Err(BrowserError::TerminalConfig);
            },
        }
        term_api::write_stdout(hide_cursor_sequence());
        term_api::flush_stdout();
        Ok(Session { saved, events: Ghost(open_actions()) })
    }

    /// Block until one byte of input is available and return it as a
    /// character — always a single byte, never a wider code point. Fails
    /// with `Input` on end of input or a device error.
    ///
    /// This touches no terminal configuration: it takes the session by
    /// shared reference, so the saved attributes and the log cannot change.
    pub fn read_key(&self) -> (r: Result<char, BrowserError>)
        ensures
            r matches Ok(c) ==> (c as u32) <= 255,
            r matches Err(e) ==> e == BrowserError::Input,
    {
        match term_api::read_byte_stdin() {
            Ok(b) => Ok(b as char),
            Err(_) => Err(BrowserError::Input),
        }
    }

    /// End the session: apply exactly the attributes captured at open back
    /// to the terminal, then show the cursor again. Failures are swallowed
    /// — this is the last-ditch restoration, and there is no recovery at
    /// teardown.
    ///
    /// Returns the complete log of the session's terminal-control actions:
    /// whatever was read in between, it is the open actions followed by the
    /// close actions on the saved attributes.
    pub fn close(self) -> (log: Ghost<Seq<TermEvent>>)
        ensures
            log@ == self.log() + close_actions(self.saved_mode()),
    {
        let _ = term_api::apply_terminal_mode(&self.saved);
        term_api::write_stdout(show_cursor_sequence());
        term_api::flush_stdout();
        Ghost(self.events@ + close_actions(self.saved_mode()))
    }
}

/// Over a whole session lifetime — open, any amount of reading and
/// rendering, close — the cursor is hidden exactly once (at open) and shown
/// exactly once (at close), the terminal's attributes are restored exactly
/// once, and the only attributes ever restored are exactly the ones saved
/// at open.
pub proof fn lemma_session_lifecycle(saved: termios::Termios)
    ensures
        count_events(full_session_log(saved), TermEvent::CursorHidden) == 1,
        count_events(full_session_log(saved), TermEvent::CursorShown) == 1,
        count_events(full_session_log(saved), TermEvent::ModeRestored(saved)) == 1,
        forall|i: int|
            0 <= i < full_session_log(saved).len() ==> (#[trigger] full_session_log(saved)[i] matches
            TermEvent::ModeRestored(m) ==> m == saved),
{
    reveal_with_fuel(count_events, 6);
    assert(full_session_log(saved) =~= seq![
        TermEvent::RawModeSet,
        TermEvent::CursorHidden,
        TermEvent::ModeRestored(saved),
        TermEvent::CursorShown,
    ]);
}

} // verus!

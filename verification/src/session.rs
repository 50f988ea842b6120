use vstd::prelude::*;
use crate::color::Color;
use crate::error::ConsoleError;
use crate::key::Key;

verus! {

/// One primitive call into the external console-control library.
///
/// The library never performs these calls itself: every call a session
/// decides to make is recorded, in order, in the trace of its
/// [`ConsoleHost`], and an unverified shell performs them against the real
/// device. The device state after a sequence of operations is therefore the
/// trace they leave behind.
#[derive(Debug, PartialEq)]
pub enum Command {
    /// Switch the terminal into raw/no-echo/application mode.
    Init,
    /// Restore the terminal to the mode it had before `Init`.
    Reset,
    /// Clear the visible screen.
    ClearScreen,
    /// Draw the given bytes at the current cursor position.
    DrawText(Vec<u8>),
    /// Set the foreground and background color by device code.
    SetColor(i8, i8),
    /// Reset foreground and background to the default color.
    ResetColor,
    /// Switch underlined rendering on or off.
    SetUnderline(bool),
    /// Move the cursor to the given column and row.
    SetCursorPos(i32, i32),
}

/// The abstract state of the process-wide console slot: whether the single
/// exclusivity token is held, whether the fault-safety hook is enabled and
/// whether it has been installed, and the trace of primitive calls issued to
/// the external console-control library so far.
#[verifier::ext_equal]
pub struct HostState {
    /// The exclusivity token: true while a session is active.
    pub held: bool,
    /// Whether the fault-safety capability is switched on for this process.
    pub hook_enabled: bool,
    /// Whether the one-shot fault hook has been installed.
    pub hook_installed: bool,
    /// Every primitive call issued so far, oldest first.
    pub trace: Seq<Command>,
}

impl HostState {
    /// An acquisition can succeed exactly while no session holds the token.
    pub open spec fn can_acquire(self) -> bool {
        !self.held
    }

    /// The state after a successful acquisition: the token is taken, the
    /// mode-initialization primitive has run once, and, where the
    /// fault-safety capability is enabled, the hook is installed (at most
    /// once for the whole process).
    pub open spec fn acquire_transition(self) -> HostState {
        HostState {
            held: true,
            hook_installed: self.hook_installed || self.hook_enabled,
            trace: self.trace.push(Command::Init),
            ..self
        }
    }

    /// The state after the session ends. The token is returned either way.
    /// The reset primitive runs unless the process is unwinding from a fault
    /// while the fault-safety capability is active: in that case the hook
    /// has already restored the terminal and the release path must not
    /// repeat it.
    pub open spec fn release_transition(self, unwinding: bool) -> HostState {
        HostState {
            held: false,
            trace: if unwinding && self.hook_enabled {
                self.trace
            } else {
                self.trace.push(Command::Reset)
            },
            ..self
        }
    }

    /// The state after the process's fault-reporting machinery runs the
    /// installed hook: if a session is still active at that moment, the
    /// terminal is restored immediately, so the fault diagnostic prints to a
    /// terminal back in its normal mode; otherwise nothing happens. The
    /// token itself is not released.
    pub open spec fn fault_transition(self) -> HostState {
        if self.hook_installed && self.held {
            HostState { trace: self.trace.push(Command::Reset), ..self }
        } else {
            self
        }
    }

    /// The state after one further primitive call.
    pub open spec fn record(self, c: Command) -> HostState {
        HostState { trace: self.trace.push(c), ..self }
    }

    /// The command that `set_color` issues for the given pair.
    pub open spec fn set_color_transition(self, fg: Color, bg: Color) -> HostState {
        self.record(Command::SetColor(fg.spec_code(), bg.spec_code()))
    }

    /// The command that `set_color_invertible` issues: the pair is swapped
    /// exactly when `inverted` holds.
    pub open spec fn set_color_invertible_transition(
        self,
        fg: Color,
        bg: Color,
        inverted: bool,
    ) -> HostState {
        if inverted {
            self.set_color_transition(bg, fg)
        } else {
            self.set_color_transition(fg, bg)
        }
    }
}

/// The process-wide console slot together with the modelled device: it owns
/// the exclusivity token, the fault-hook latches, and the trace of primitive
/// calls. A process holds exactly one value of this type; its view is a
/// [`HostState`].
pub struct ConsoleHost {
    held: bool,
    hook_enabled: bool,
    hook_installed: bool,
    trace: Vec<Command>,
}

impl View for ConsoleHost {
    type V = HostState;

    closed spec fn view(&self) -> HostState {
        HostState {
            held: self.held,
            hook_enabled: self.hook_enabled,
            hook_installed: self.hook_installed,
            trace: self.trace@,
        }
    }
}

impl ConsoleHost {
    /// A fresh console slot: no session is active, no hook is installed,
    /// and no primitive call has been issued. `hook_enabled` switches the
    /// optional fault-safety capability on for the life of the process.
    pub fn new(hook_enabled: bool) -> (h: ConsoleHost)
        ensures
            !h@.held,
            h@.hook_enabled == hook_enabled,
            !h@.hook_installed,
            h@.trace == Seq::<Command>::empty(),
    {
        ConsoleHost { held: false, hook_enabled, hook_installed: false, trace: Vec::new() }
    }

    /// Whether a session currently holds the exclusivity token.
    pub fn is_active(&self) -> (r: bool)
        ensures
            r == self@.held,
    {
        self.held
    }

    /// Whether the fault-safety hook has been installed.
    pub fn hook_installed(&self) -> (r: bool)
        ensures
            r == self@.hook_installed,
    {
        self.hook_installed
    }

    /// The trace of primitive calls issued so far, oldest first.
    pub fn trace(&self) -> (t: &Vec<Command>)
        ensures
            t@ == self@.trace,
    {
        &self.trace
    }

    /// The installed fault-safety hook, run by the process's
    /// fault-reporting machinery while it is about to emit a crash
    /// diagnostic. Restores the terminal iff the hook is installed and a
    /// session is still active; the exclusivity token stays held, so the
    /// session's own release path still runs (and then skips the repeated
    /// reset).
    pub fn fault_restore(&mut self)
        ensures
            final(self)@ == old(self)@.fault_transition(),
    {
        if self.hook_installed && self.held {
            self.trace.push(Command::Reset);
        }
    }
}

/// The sole live handle granting console access.
///
/// A value of this type exists only between a successful [`Console::new`]
/// and the [`Console::release`] that consumes it; at most one is live per
/// [`ConsoleHost`] at any time.
#[derive(Debug)]
pub struct Console {
    // Private, so that a session can only come from a successful acquisition.
    token: (),
}

impl Console {
    /// Attempts to take the exclusivity token of `host` without blocking.
    ///
    /// If another session is active the attempt fails immediately with a
    /// [`ConsoleError`] and the slot is left exactly as it was. On success
    /// the mode-initialization primitive runs exactly once before the
    /// session is handed out, and, the first time only, the fault-safety
    /// hook is installed where that capability is enabled.
    pub fn new(host: &mut ConsoleHost) -> (r: Result<Console, ConsoleError>)
        ensures
            r is Ok <==> old(host)@.can_acquire(),
            old(host)@.can_acquire() ==> final(host)@ == old(host)@.acquire_transition(),
            !old(host)@.can_acquire() ==> final(host)@ == old(host)@,
            !old(host)@.can_acquire() ==> (r matches Err(e)
                && e@ == "Only one instance of Console can exist at once!"@),
    {
        if host.held {
            Err(ConsoleError::new("Only one instance of Console can exist at once!"))
        } else {
            host.held = true;
            host.trace.push(Command::Init);
            if host.hook_enabled {
                host.hook_installed = true;
            }
            Ok(Console { token: () })
        }
    }

    /// Ends the session and returns the exclusivity token.
    ///
    /// `unwinding` says whether the process is unwinding from an abnormal
    /// fault at this moment. The reset primitive runs exactly once per
    /// session: here, unless the fault-safety capability is active while
    /// unwinding, in which case the installed hook has already restored the
    /// terminal and this path must not reset again.
    pub fn release(self, host: &mut ConsoleHost, unwinding: bool)
        requires
            old(host)@.held,
        ensures
            final(host)@ == old(host)@.release_transition(unwinding),
    {
        if !(unwinding && host.hook_enabled) {
            host.trace.push(Command::Reset);
        }
        host.held = false;
    }

    /// Clears the visible screen.
    pub fn repaint(&self, host: &mut ConsoleHost)
        requires
            old(host)@.held,
        ensures
            final(host)@ == old(host)@.record(Command::ClearScreen),
    {
        host.trace.push(Command::ClearScreen);
    }

    /// Interprets the two integers the size primitive wrote as the console's
    /// character grid (width, height).
    ///
    /// The primitive overwrites its outputs with non-negative values
    /// unconditionally, so negative inputs are left out here. The size is
    /// sampled at call time: there is no live resize tracking, and callers
    /// that need up-to-date dimensions must re-query.
    pub fn get_console_size(&self, raw_width: i32, raw_height: i32) -> (r: (usize, usize))
        requires
            raw_width >= 0,
            raw_height >= 0,
        ensures
            r.0 == raw_width,
            r.1 == raw_height,
    {
        (raw_width as usize, raw_height as usize)
    }

    /// Interprets the result of the input-probe primitive: any non-zero
    /// answer means key input is pending.
    ///
    /// Callers that poll for input must also probe the mouse state in every
    /// cycle, even when mouse data goes unused: on some platforms leaving
    /// clicks unread starves keyboard delivery. That ordering is part of the
    /// polling contract, not a hidden implementation detail.
    pub fn has_input(&self, raw: i32) -> (r: bool)
        ensures
            r == (raw != 0),
    {
        raw != 0
    }

    /// Interprets the result of the key-read primitive. A negative raw code
    /// is the "no key pending" sentinel, not an error; any other code is
    /// reported as a key.
    pub fn get_key(&self, raw: i32) -> (r: Option<Key>)
        ensures
            r is Some <==> raw >= 0,
            0 <= raw <= u16::MAX ==> (r matches Some(k) && k@ == raw),
            raw > u16::MAX ==> (r matches Some(k) && k@ == raw % 0x10000),
    {
        if raw < 0 {
            None
        } else {
            Some(Key::from_code((raw % 0x10000) as u16))
        }
    }

    /// Interprets the result of the mouse primitive. A negative raw
    /// coordinate is the "no click occurred" sentinel, not an error;
    /// otherwise the pair is the character position of the click.
    pub fn get_mouse_pos_clicked(&self, raw_x: i32, raw_y: i32) -> (r: Option<(usize, usize)>)
        ensures
            r is Some <==> (raw_x >= 0 && raw_y >= 0),
            raw_x >= 0 && raw_y >= 0 ==> (r matches Some(p) && p.0 == raw_x && p.1 == raw_y),
    {
        if raw_x < 0 || raw_y < 0 {
            None
        } else {
            Some((raw_x as usize, raw_y as usize))
        }
    }

    /// Draws text at the current cursor position.
    ///
    /// The drawing primitive takes a null-terminated buffer, so text with an
    /// embedded null byte cannot be forwarded: it fails fast with an error
    /// and draws nothing, rather than silently truncating. Non-ASCII bytes
    /// and text past the right edge of the console render
    /// terminal-dependently, by contract.
    pub fn draw_text(&self, host: &mut ConsoleHost, text: Vec<u8>) -> (r: Result<(), ConsoleError>)
        requires
            old(host)@.held,
        ensures
            r is Ok <==> !contains_null(text@),
            !contains_null(text@) ==> final(host)@ == old(host)@.record(Command::DrawText(text)),
            contains_null(text@) ==> final(host)@ == old(host)@,
            contains_null(text@) ==> (r matches Err(e)
                && e@ == "Text with an embedded null byte cannot be drawn!"@),
    {
        let mut i: usize = 0;
        while i < text.len()
            invariant
                i <= text@.len(),
                forall|j: int| 0 <= j < i ==> text@[j] != 0,
            decreases text@.len() - i,
        {
            if text[i] == 0 {
                assert(text@[i as int] == 0);
                return Err(ConsoleError::new("Text with an embedded null byte cannot be drawn!"));
            }
            i += 1;
        }
        host.trace.push(Command::DrawText(text));
        Ok(())
    }

    /// Sets the foreground and background color.
    pub fn set_color(&self, host: &mut ConsoleHost, fg: Color, bg: Color)
        requires
            old(host)@.held,
        ensures
            final(host)@ == old(host)@.set_color_transition(fg, bg),
    {
        host.trace.push(Command::SetColor(fg.code(), bg.code()));
    }

    /// Sets the foreground and background color, swapped when `inverted`
    /// holds.
    pub fn set_color_invertible(&self, host: &mut ConsoleHost, fg: Color, bg: Color, inverted: bool)
        requires
            old(host)@.held,
        ensures
            final(host)@ == old(host)@.set_color_invertible_transition(fg, bg, inverted),
    {
        if inverted {
            self.set_color(host, bg, fg);
        } else {
            self.set_color(host, fg, bg);
        }
    }

    /// Resets the foreground and background color to the default.
    pub fn reset_color(&self, host: &mut ConsoleHost)
        requires
            old(host)@.held,
        ensures
            final(host)@ == old(host)@.record(Command::ResetColor),
    {
        host.trace.push(Command::ResetColor);
    }

    /// Switches underlined rendering on or off.
    pub fn set_underline(&self, host: &mut ConsoleHost, underline: bool)
        requires
            old(host)@.held,
        ensures
            final(host)@ == old(host)@.record(Command::SetUnderline(underline)),
    {
        host.trace.push(Command::SetUnderline(underline));
    }

    /// Moves the cursor to the given column and row. A negative coordinate
    /// makes the whole call a silent no-op: the cursor primitive is not
    /// reached.
    pub fn set_cursor_pos(&self, host: &mut ConsoleHost, x: i32, y: i32)
        requires
            old(host)@.held,
        ensures
            x >= 0 && y >= 0 ==> final(host)@ == old(host)@.record(Command::SetCursorPos(x, y)),
            x < 0 || y < 0 ==> final(host)@ == old(host)@,
    {
        if x < 0 || y < 0 {
            return;
        }
        host.trace.push(Command::SetCursorPos(x, y));
    }
}

/// There is a null byte somewhere in the text.
pub open spec fn contains_null(s: Seq<u8>) -> bool {
    exists|i: int| 0 <= i < s.len() && s[i] == 0
}

/// Mutual exclusion: once an acquisition has succeeded, no further
/// acquisition can succeed until the session is released.
pub proof fn lemma_acquire_is_exclusive(h: HostState)
    requires
        h.can_acquire(),
    ensures
        !h.acquire_transition().can_acquire(),
{
}

/// Release returns the token rather than leaking it: after a session ends,
/// whether normally or during unwinding, a new acquisition can succeed.
pub proof fn lemma_release_reopens_slot(h: HostState, unwinding: bool)
    ensures
        h.release_transition(unwinding).can_acquire(),
{
}

/// Drawing with inverted colors leaves exactly the device state that
/// `set_color` with the swapped pair leaves, and without inversion exactly
/// the state of `set_color` with the pair as given.
pub proof fn lemma_inverted_colors_swap(h: HostState, fg: Color, bg: Color)
    ensures
        h.set_color_invertible_transition(fg, bg, true) == h.set_color_transition(bg, fg),
        h.set_color_invertible_transition(fg, bg, false) == h.set_color_transition(fg, bg),
{
}

/// The terminal is restored exactly once per session. A session that ends
/// normally resets here and now; a session that ends while the process
/// unwinds from a fault is reset by the hook, and the release path adds
/// nothing. In both histories exactly one reset follows the trace so far.
/// (`h.hook_installed == h.hook_enabled` holds for every host whose
/// sessions were acquired through `Console::new`.)
pub proof fn lemma_restore_exactly_once(h: HostState)
    requires
        h.held,
        h.hook_installed == h.hook_enabled,
    ensures
        h.release_transition(false).trace =~= h.trace.push(Command::Reset),
        h.fault_transition().release_transition(true).trace =~= h.trace.push(Command::Reset),
{
}

} // verus!

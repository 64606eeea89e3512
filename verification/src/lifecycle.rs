//! Process-wide record of reversible console blocking-mode changes.
//!
//! The console streams are the only resources shared across the whole
//! process.  Before the relay can multiplex them it must put them into
//! non-blocking mode; whichever stream was still blocking at that moment
//! must be put back on exit.  [`GlobalState`] records exactly which streams
//! this process changed, and the functions here are the decision core:
//! given the observed modes they say which flags to set and which streams a
//! teardown has to touch.  The syscalls themselves are performed by an
//! unverified driver that follows these decisions.

use vstd::prelude::*;

verus! {

/// The blocking modes of the two console streams, as observed or as they
/// are to be left: `true` means the stream is in non-blocking mode.
#[derive(Clone, Copy, Debug, PartialEq, Eq, Structural)]
pub struct ConsoleModes {
    pub stdin_nonblocking: bool,
    pub stdout_nonblocking: bool,
}

/// Process-wide record of which console streams this process switched from
/// blocking to non-blocking mode and is therefore responsible for reverting.
///
/// A flag is set only when the stream was observed blocking before this
/// process touched it; a stream that was already non-blocking is never
/// restored.
#[derive(Clone, Copy, Debug, PartialEq, Eq, Structural)]
pub struct GlobalState {
    pub need_to_restore_stdin_blocking_status: bool,
    pub need_to_restore_stdout_blocking_status: bool,
}

/// The modes console setup leaves both streams in: non-blocking, so the
/// cooperative reactor can multiplex them.
pub open spec fn setup_target_modes() -> ConsoleModes {
    ConsoleModes { stdin_nonblocking: true, stdout_nonblocking: true }
}

/// The state after console setup has inspected the streams: a flag becomes
/// set where the stream was observed still blocking, and an already-set
/// flag is never cleared.
pub open spec fn spec_after_setup(s: GlobalState, observed: ConsoleModes) -> GlobalState {
    GlobalState {
        need_to_restore_stdin_blocking_status: s.need_to_restore_stdin_blocking_status
            || !observed.stdin_nonblocking,
        need_to_restore_stdout_blocking_status: s.need_to_restore_stdout_blocking_status
            || !observed.stdout_nonblocking,
    }
}

/// The modes the streams are in after restoration runs against `current`:
/// a flagged stream is switched back to blocking, an unflagged one is left
/// untouched.  Restoration never switches a stream to non-blocking mode.
pub open spec fn spec_restore(s: GlobalState, current: ConsoleModes) -> ConsoleModes {
    ConsoleModes {
        stdin_nonblocking: current.stdin_nonblocking
            && !s.need_to_restore_stdin_blocking_status,
        stdout_nonblocking: current.stdout_nonblocking
            && !s.need_to_restore_stdout_blocking_status,
    }
}

impl GlobalState {
    /// The state at process start: nothing has been changed, nothing is to
    /// be restored.
    pub fn new() -> (r: GlobalState)
        ensures
            r == (GlobalState {
                need_to_restore_stdin_blocking_status: false,
                need_to_restore_stdout_blocking_status: false,
            }),
    {
        GlobalState {
            need_to_restore_stdin_blocking_status: false,
            need_to_restore_stdout_blocking_status: false,
        }
    }

    /// Record the observed mode of the input stream: when it is still
    /// blocking, this process is about to change it and takes on the
    /// obligation to restore it; when it is already non-blocking, the
    /// record is left exactly as it was.
    pub fn observe_stdin(&mut self, observed_nonblocking: bool)
        ensures
            final(self).need_to_restore_stdin_blocking_status
                == (old(self).need_to_restore_stdin_blocking_status || !observed_nonblocking),
            final(self).need_to_restore_stdout_blocking_status
                == old(self).need_to_restore_stdout_blocking_status,
    {
        if !observed_nonblocking {
            self.need_to_restore_stdin_blocking_status = true;
        }
    }

    /// Record the observed mode of the output stream, symmetrically to
    /// [`GlobalState::observe_stdin`].
    pub fn observe_stdout(&mut self, observed_nonblocking: bool)
        ensures
            final(self).need_to_restore_stdout_blocking_status
                == (old(self).need_to_restore_stdout_blocking_status || !observed_nonblocking),
            final(self).need_to_restore_stdin_blocking_status
                == old(self).need_to_restore_stdin_blocking_status,
    {
        if !observed_nonblocking {
            self.need_to_restore_stdout_blocking_status = true;
        }
    }

    /// The decision core of console-endpoint construction: record both
    /// observed modes and return the modes the driver must now put the
    /// streams into (both non-blocking).
    pub fn register_console_setup(&mut self, observed: ConsoleModes) -> (target: ConsoleModes)
        ensures
            *final(self) == spec_after_setup(*old(self), observed),
            target == setup_target_modes(),
    {
        self.observe_stdin(observed.stdin_nonblocking);
        self.observe_stdout(observed.stdout_nonblocking);
        ConsoleModes { stdin_nonblocking: true, stdout_nonblocking: true }
    }

    /// The decision core of restoration: given the modes the streams are
    /// currently in, the modes they are to be left in.  Only flagged
    /// streams change, and only towards blocking mode.
    pub fn restored_modes(&self, current: ConsoleModes) -> (r: ConsoleModes)
        ensures
            r == spec_restore(*self, current),
    {
        ConsoleModes {
            stdin_nonblocking: current.stdin_nonblocking
                && !self.need_to_restore_stdin_blocking_status,
            stdout_nonblocking: current.stdout_nonblocking
                && !self.need_to_restore_stdout_blocking_status,
        }
    }

    /// Whether teardown has to switch the input stream back to blocking.
    pub fn needs_stdin_restore(&self) -> (b: bool)
        ensures
            b == self.need_to_restore_stdin_blocking_status,
    {
        self.need_to_restore_stdin_blocking_status
    }

    /// Whether teardown has to switch the output stream back to blocking.
    pub fn needs_stdout_restore(&self) -> (b: bool)
        ensures
            b == self.need_to_restore_stdout_blocking_status,
    {
        self.need_to_restore_stdout_blocking_status
    }
}

impl Default for GlobalState {
    /// Same as [`GlobalState::new`]: no restoration obligations.
    fn default() -> (r: GlobalState)
        ensures
            r == (GlobalState {
                need_to_restore_stdin_blocking_status: false,
                need_to_restore_stdout_blocking_status: false,
            }),
    {
        GlobalState::new()
    }
}

/// Whatever modes the streams were in before construction, running setup
/// from a fresh record and then restoration puts each stream back in
/// exactly its original mode.
pub proof fn lemma_setup_then_restore_round_trip(s: GlobalState, observed: ConsoleModes)
    requires
        !s.need_to_restore_stdin_blocking_status,
        !s.need_to_restore_stdout_blocking_status,
    ensures
        spec_restore(spec_after_setup(s, observed), setup_target_modes()) == observed,
{
}

/// Restoration is idempotent: running it a second time over the modes the
/// first run produced changes nothing, so an interrupt-time restoration
/// followed by the normal teardown is harmless.
pub proof fn lemma_restore_idempotent(s: GlobalState, current: ConsoleModes)
    ensures
        spec_restore(s, spec_restore(s, current)) == spec_restore(s, current),
{
}

/// A stream that was already non-blocking at construction time leaves no
/// restoration obligation behind, and teardown never alters it.
pub proof fn lemma_untouched_stream_not_restored(
    s: GlobalState,
    observed: ConsoleModes,
    later: ConsoleModes,
)
    ensures
        (!s.need_to_restore_stdin_blocking_status && observed.stdin_nonblocking) ==> {
            &&& !spec_after_setup(s, observed).need_to_restore_stdin_blocking_status
            &&& spec_restore(spec_after_setup(s, observed), later).stdin_nonblocking
                == later.stdin_nonblocking
        },
        (!s.need_to_restore_stdout_blocking_status && observed.stdout_nonblocking) ==> {
            &&& !spec_after_setup(s, observed).need_to_restore_stdout_blocking_status
            &&& spec_restore(spec_after_setup(s, observed), later).stdout_nonblocking
                == later.stdout_nonblocking
        },
{
}

/// Restoration never forces a stream into non-blocking mode: a stream is
/// non-blocking after restoration only if it already was before.
pub proof fn lemma_restore_never_forces_nonblocking(s: GlobalState, current: ConsoleModes)
    ensures
        spec_restore(s, current).stdin_nonblocking ==> current.stdin_nonblocking,
        spec_restore(s, current).stdout_nonblocking ==> current.stdout_nonblocking,
{
}

} // verus!

use vstd::prelude::*;

verus! {

/// What reading the script file produced: its text, or the reason it
/// could not be read.
pub type SourceRead = Result<String, String>;

/// The two states of the reload watcher.
#[derive(Debug, Clone, Copy, PartialEq, Eq, Structural)]
pub enum WatchState {
    /// No change of the script file is waiting to be acted on.
    Clean,
    /// The script file changed and has not been reloaded yet.
    Dirty,
}

/// Remembers whether the script file changed since it was last loaded,
/// and what was read from it when the change was noticed.
#[derive(Debug)]
pub struct ReloadWatcher {
    pending: Option<SourceRead>,
}

impl ReloadWatcher {
    /// What was read at the latest change not yet acted on, if any.
    pub closed spec fn pending(&self) -> Option<SourceRead> {
        self.pending
    }

    /// The state of the watcher: dirty exactly while a read is pending.
    pub open spec fn state(&self) -> WatchState {
        if self.pending() is Some {
            WatchState::Dirty
        } else {
            WatchState::Clean
        }
    }

    /// A watcher with nothing to report.
    pub fn new() -> (w: ReloadWatcher)
        ensures
            w.pending() is None,
            w.state() == WatchState::Clean,
    {
        ReloadWatcher { pending: None }
    }

    /// Whether a reload is due.
    pub fn is_dirty(&self) -> (dirty: bool)
        ensures
            dirty == (self.state() == WatchState::Dirty),
    {
        self.pending.is_some()
    }

    /// Records that the script file changed and what reading it gave.
    /// The watcher is dirty afterwards; a change that was still waiting is
    /// superseded by this one.
    pub fn file_changed(&mut self, source: SourceRead)
        ensures
            final(self).pending() == Some(source),
            final(self).state() == WatchState::Dirty,
    {
        self.pending = Some(source);
    }

    /// Hands out the pending read and returns the watcher to the clean
    /// state. On a clean watcher there is nothing to hand out.
    pub fn take(&mut self) -> (source: Option<SourceRead>)
        ensures
            source == old(self).pending(),
            final(self).pending() is None,
            final(self).state() == WatchState::Clean,
    {
        self.pending.take()
    }
}

} // verus!

//! The sweep as a mathematical state machine.
//!
//! A run is a conversation. The engine asks for something (the next entry of
//! the walk, the removal of a directory, the writing of the log), the driver
//! does it and reports what happened, and the engine answers with its next
//! request. This module says, over plain sequences of characters, what the
//! engine answers to every event in every state.

use vstd::prelude::*;
use crate::log::{log_file_name, log_text};
use crate::names::is_target_name;

verus! {

/// The two switches of an invocation. Where the walk starts is the driver's
/// affair: the engine judges whatever the walk yields.
#[derive(Clone, Copy, Debug, PartialEq, Eq)]
pub struct Config {
    /// Remove the candidates. When `false` the run only reports them.
    pub commit: bool,
    /// Write no log of the removed directories.
    pub skip_log_file: bool,
}

/// Something the walk found.
pub struct EntryView {
    /// The path as the walk produced it.
    pub path: Seq<char>,
    /// The final component of the path.
    pub name: Seq<char>,
    /// Whether it is a directory.
    pub is_dir: bool,
}

/// What the driver reports to the engine.
pub enum EventView {
    /// The walk yielded an entry.
    Entry(EntryView),
    /// The walk came upon something it could not read.
    Unreadable,
    /// The walk has nothing more to yield.
    WalkEnded,
    /// The directory that the engine asked to remove is gone.
    Removed,
    /// The directory could not be removed, for the given reason.
    RemoveFailed(Seq<char>),
    /// The log is on disk.
    LogWritten,
    /// The log could not be created or written, for the given reason.
    LogFailed(Seq<char>),
}

/// A line for the user.
pub enum NoticeView {
    /// For the standard output stream.
    Info(Seq<char>),
    /// For the error stream.
    Error(Seq<char>),
}

/// Why a run failed.
pub enum EngineErrorView {
    /// The log of removed directories could not be created or written.
    LogFile(Seq<char>),
}

/// What the engine wants done next.
pub enum RequestView {
    /// Advance the walk and report what it yields.
    NextEntry,
    /// Remove the directory at this path with everything beneath it.
    Remove(Seq<char>),
    /// Create or overwrite the file `file_name` with `content`.
    WriteLog { file_name: Seq<char>, content: Seq<char> },
    /// Stop: the run is over, with this outcome.
    Finish(Result<(), EngineErrorView>),
}

/// The engine's answer to one event.
pub struct ReplyView {
    /// What to show the user, before the request is carried out.
    pub notice: Option<NoticeView>,
    /// What to do next.
    pub request: RequestView,
}

/// Where in the conversation the engine stands.
pub enum Phase {
    /// Waiting for the walk's next entry.
    Walking,
    /// Waiting to hear whether the directory at this path was removed.
    Removing(Seq<char>),
    /// Waiting to hear whether the log was written.
    Logging,
    /// Done; `Some` holds the reason if the log could not be written.
    Finished(Option<Seq<char>>),
}

/// The whole state of a run.
pub struct EngineState {
    /// The switches that the run was started with; they never change.
    pub config: Config,
    /// What the engine is waiting for.
    pub phase: Phase,
    /// The paths of the directories that were removed, oldest first.
    pub deleted: Seq<Seq<char>>,
}

/// An entry is a deletion candidate exactly when it is a directory whose base
/// name is on the deny-list.
pub open spec fn is_candidate(entry: EntryView) -> bool {
    entry.is_dir && is_target_name(entry.name)
}

/// The line that announces a removal.
pub open spec fn deleting_notice(path: Seq<char>) -> NoticeView {
    NoticeView::Info("Deleting "@ + path)
}

/// The line that a dry run prints in place of removing.
pub open spec fn would_delete_notice(path: Seq<char>) -> NoticeView {
    NoticeView::Info("Would delete "@ + path)
}

/// The line that reports a removal that failed.
pub open spec fn remove_failed_notice(cause: Seq<char>) -> NoticeView {
    NoticeView::Error("Error deleting directory: "@ + cause)
}

impl EngineState {
    /// The state in which every run starts.
    pub open spec fn initial(config: Config) -> EngineState {
        EngineState { config, phase: Phase::Walking, deleted: Seq::empty() }
    }

    /// Whether a log is to be written when the walk ends.
    pub open spec fn logs(self) -> bool {
        self.config.commit && !self.config.skip_log_file
    }

    /// The request that the engine is waiting to have answered.
    pub open spec fn awaited(self) -> RequestView {
        match self.phase {
            Phase::Walking => RequestView::NextEntry,
            Phase::Removing(path) => RequestView::Remove(path),
            Phase::Logging => RequestView::WriteLog {
                file_name: log_file_name(),
                content: log_text(self.deleted),
            },
            Phase::Finished(None) => RequestView::Finish(Ok(())),
            Phase::Finished(Some(cause)) => RequestView::Finish(
                Err(EngineErrorView::LogFile(cause)),
            ),
        }
    }

    /// Whether `event` answers the request that the engine is waiting on.
    pub open spec fn expects(self, event: EventView) -> bool {
        match self.phase {
            Phase::Walking => event is Entry || event is Unreadable || event is WalkEnded,
            Phase::Removing(_) => event is Removed || event is RemoveFailed,
            Phase::Logging => event is LogWritten || event is LogFailed,
            Phase::Finished(_) => false,
        }
    }

    /// The state after `event`. An event that the engine is not waiting for
    /// changes nothing.
    pub open spec fn next(self, event: EventView) -> EngineState {
        match (self.phase, event) {
            (Phase::Walking, EventView::Entry(entry)) => {
                if is_candidate(entry) && self.config.commit {
                    EngineState { phase: Phase::Removing(entry.path), ..self }
                } else {
                    self
                }
            },
            (Phase::Walking, EventView::WalkEnded) => {
                if self.logs() {
                    EngineState { phase: Phase::Logging, ..self }
                } else {
                    EngineState { phase: Phase::Finished(None), ..self }
                }
            },
            (Phase::Removing(path), EventView::Removed) => EngineState {
                phase: Phase::Walking,
                deleted: self.deleted.push(path),
                ..self
            },
            (Phase::Removing(_), EventView::RemoveFailed(_)) => EngineState {
                phase: Phase::Walking,
                ..self
            },
            (Phase::Logging, EventView::LogWritten) => EngineState {
                phase: Phase::Finished(None),
                ..self
            },
            (Phase::Logging, EventView::LogFailed(cause)) => EngineState {
                phase: Phase::Finished(Some(cause)),
                ..self
            },
            _ => self,
        }
    }

    /// What the user is told on `event`, if anything.
    pub open spec fn notice(self, event: EventView) -> Option<NoticeView> {
        match (self.phase, event) {
            (Phase::Walking, EventView::Entry(entry)) => {
                if !is_candidate(entry) {
                    None
                } else if self.config.commit {
                    Some(deleting_notice(entry.path))
                } else {
                    Some(would_delete_notice(entry.path))
                }
            },
            (Phase::Removing(_), EventView::RemoveFailed(cause)) => Some(
                remove_failed_notice(cause),
            ),
            _ => None,
        }
    }

    /// The engine's answer to `event`: the notice, and the request that the
    /// state after the event waits on.
    pub open spec fn reply(self, event: EventView) -> ReplyView {
        ReplyView { notice: self.notice(event), request: self.next(event).awaited() }
    }

    /// The state after a sequence of events, taken in order.
    pub open spec fn after(self, events: Seq<EventView>) -> EngineState
        decreases events.len(),
    {
        if events.len() == 0 {
            self
        } else {
            self.after(events.drop_last()).next(events.last())
        }
    }

    /// The answer to the `i`-th event of `events`.
    pub open spec fn reply_at(self, events: Seq<EventView>, i: int) -> ReplyView
        recommends
            0 <= i < events.len(),
    {
        self.after(events.take(i)).reply(events[i])
    }

    /// What holds of every state that a run can reach: nothing is removed,
    /// recorded or logged unless the configuration asks for it.
    pub open spec fn consistent(self) -> bool {
        &&& self.deleted.len() > 0 ==> self.config.commit
        &&& self.phase is Removing ==> self.config.commit
        &&& self.phase is Logging ==> self.logs()
        &&& self.phase is Finished && self.phase->Finished_0 is Some ==> self.logs()
    }
}

/// The driver keeps to the conversation: each event answers the request that
/// the engine made last.
pub open spec fn well_driven(config: Config, events: Seq<EventView>) -> bool {
    forall|i: int|
        0 <= i < events.len() ==> #[trigger] EngineState::initial(config).after(
            events.take(i),
        ).expects(events[i])
}

} // verus!

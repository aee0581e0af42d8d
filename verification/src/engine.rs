//! The engine that a driver talks to while it walks the tree.
//!
//! The types here carry strings; each has a view into the model, and
//! [`Engine::step`] is proved to answer as the model's state machine does.

use vstd::prelude::*;
use vstd::string::*;
use crate::log::{paths_of, render_log, LOG_FILE_NAME};
use crate::model::{
    Config, EngineErrorView, EngineState, EntryView, EventView, NoticeView, Phase, ReplyView,
    RequestView,
};
use crate::names::is_target;

verus! {

/// Something the walk found.
#[derive(Debug, PartialEq, Eq)]
pub struct Entry {
    /// The path as the walk produced it, in the form in which it is shown.
    pub path: String,
    /// The final component of the path.
    pub name: String,
    /// Whether it is a directory.
    pub is_dir: bool,
}

/// What the driver reports to the engine.
#[derive(Debug, PartialEq, Eq)]
pub enum Event {
    /// The walk yielded an entry.
    Entry(Entry),
    /// The walk came upon something it could not read.
    Unreadable,
    /// The walk has nothing more to yield.
    WalkEnded,
    /// The directory that the engine asked to remove is gone.
    Removed,
    /// The directory could not be removed, for the given reason.
    RemoveFailed(String),
    /// The log is on disk.
    LogWritten,
    /// The log could not be created or written, for the given reason.
    LogFailed(String),
}

/// A line for the user.
#[derive(Debug, PartialEq, Eq)]
pub enum Notice {
    /// For the standard output stream.
    Info(String),
    /// For the error stream.
    Error(String),
}

/// Why a run failed.
#[derive(Debug, PartialEq, Eq)]
pub enum EngineError {
    /// The log of removed directories could not be created or written.
    LogFile(String),
}

/// What the engine wants done next.
#[derive(Debug, PartialEq, Eq)]
pub enum Request {
    /// Advance the walk and report what it yields.
    NextEntry,
    /// Remove the directory at this path with everything beneath it, and
    /// report whether that worked.
    Remove(String),
    /// Create the file `file_name` in the working directory, replacing what is
    /// there, with `content`, and report whether that worked.
    WriteLog { file_name: String, content: String },
    /// Stop: the run is over, with this outcome.
    Finish(Result<(), EngineError>),
}

/// The engine's answer to one event.
#[derive(Debug, PartialEq, Eq)]
pub struct Reply {
    /// What to show the user, before the request is carried out.
    pub notice: Option<Notice>,
    /// What to do next.
    pub request: Request,
}

impl View for Entry {
    type V = EntryView;

    open spec fn view(&self) -> EntryView {
        EntryView { path: self.path@, name: self.name@, is_dir: self.is_dir }
    }
}

impl View for Event {
    type V = EventView;

    open spec fn view(&self) -> EventView {
        match *self {
            Event::Entry(entry) => EventView::Entry(entry@),
            Event::Unreadable => EventView::Unreadable,
            Event::WalkEnded => EventView::WalkEnded,
            Event::Removed => EventView::Removed,
            Event::RemoveFailed(cause) => EventView::RemoveFailed(cause@),
            Event::LogWritten => EventView::LogWritten,
            Event::LogFailed(cause) => EventView::LogFailed(cause@),
        }
    }
}

impl View for Notice {
    type V = NoticeView;

    open spec fn view(&self) -> NoticeView {
        match *self {
            Notice::Info(line) => NoticeView::Info(line@),
            Notice::Error(line) => NoticeView::Error(line@),
        }
    }
}

impl View for EngineError {
    type V = EngineErrorView;

    open spec fn view(&self) -> EngineErrorView {
        match *self {
            EngineError::LogFile(cause) => EngineErrorView::LogFile(cause@),
        }
    }
}

impl View for Request {
    type V = RequestView;

    open spec fn view(&self) -> RequestView {
        match *self {
            Request::NextEntry => RequestView::NextEntry,
            Request::Remove(path) => RequestView::Remove(path@),
            Request::WriteLog { file_name, content } => RequestView::WriteLog {
                file_name: file_name@,
                content: content@,
            },
            Request::Finish(Ok(())) => RequestView::Finish(Ok(())),
            Request::Finish(Err(error)) => RequestView::Finish(Err(error@)),
        }
    }
}

impl View for Reply {
    type V = ReplyView;

    open spec fn view(&self) -> ReplyView {
        ReplyView {
            notice: match self.notice {
                Some(notice) => Some(notice@),
                None => None,
            },
            request: self.request@,
        }
    }
}

impl EngineError {
    /// The reason, as the driver reported it.
    pub fn message(&self) -> (text: String)
        ensures
            self@ == EngineErrorView::LogFile(text@),
    {
        match self {
            EngineError::LogFile(cause) => cause.clone(),
        }
    }
}

/// Where in the conversation the engine stands.
enum Stage {
    Walking,
    Removing(String),
    Logging,
    Finished(Option<String>),
}

impl View for Stage {
    type V = Phase;

    closed spec fn view(&self) -> Phase {
        match *self {
            Stage::Walking => Phase::Walking,
            Stage::Removing(path) => Phase::Removing(path@),
            Stage::Logging => Phase::Logging,
            Stage::Finished(None) => Phase::Finished(None),
            Stage::Finished(Some(cause)) => Phase::Finished(Some(cause@)),
        }
    }
}

/// The state of one run: what was asked for, where the conversation stands,
/// and which directories have been removed so far.
pub struct Engine {
    config: Config,
    stage: Stage,
    deleted: Vec<String>,
}

impl View for Engine {
    type V = EngineState;

    closed spec fn view(&self) -> EngineState {
        EngineState { config: self.config, phase: self.stage@, deleted: paths_of(self.deleted@) }
    }
}

impl Engine {
    /// Nothing is being removed, recorded or logged that the configuration
    /// did not ask for.
    #[verifier::type_invariant]
    spec fn in_order(self) -> bool {
        self@.consistent()
    }

    /// An engine at the start of a run: it waits for the walk's first entry
    /// and has removed nothing.
    pub fn new(config: Config) -> (engine: Engine)
        ensures
            engine@ == EngineState::initial(config),
    {
        let deleted: Vec<String> = Vec::new();
        assert(paths_of(deleted@) =~= Seq::empty());
        Engine { config, stage: Stage::Walking, deleted }
    }

    /// The request that the engine is waiting to have answered. At the start
    /// of a run this is the first thing for the driver to do.
    ///
    /// A dry run never waits for a removal, and only a committing run that
    /// keeps a log ever waits for the log to be written.
    pub fn awaited(&self) -> (request: Request)
        ensures
            request@ == self@.awaited(),
            self@.consistent(),
            request is Remove ==> self@.config.commit,
            request is WriteLog ==> self@.config.commit && !self@.config.skip_log_file,
    {
        proof {
            use_type_invariant(self);
        }
        match &self.stage {
            Stage::Walking => Request::NextEntry,
            Stage::Removing(path) => Request::Remove(path.clone()),
            Stage::Logging => Request::WriteLog {
                file_name: String::from_str(LOG_FILE_NAME),
                content: render_log(&self.deleted),
            },
            Stage::Finished(None) => Request::Finish(Ok(())),
            Stage::Finished(Some(cause)) => Request::Finish(
                Err(EngineError::LogFile(cause.clone())),
            ),
        }
    }

    /// Takes in what the driver reports and answers with what to show and
    /// what to do next.
    ///
    /// An entry of the walk is a candidate when it is a directory whose name
    /// is on the deny-list; a committing run asks for its removal, a dry run
    /// only reports it. A removal that worked is recorded, one that failed is
    /// reported and the walk goes on. When the walk ends, a committing run
    /// that keeps a log asks for the log to be written, and only a failure to
    /// write it makes the run fail. An event that the engine is not waiting
    /// for changes nothing and is answered with the pending request.
    ///
    /// Whatever the event, a dry run is never answered with a removal, and a
    /// run that keeps no log is never answered with the writing of one.
    pub fn step(&mut self, event: Event) -> (reply: Reply)
        ensures
            final(self)@ == old(self)@.next(event@),
            reply@ == old(self)@.reply(event@),
            old(self)@.consistent() && final(self)@.consistent(),
            reply.request is Remove ==> old(self)@.config.commit,
            reply.request is WriteLog ==> old(self)@.config.commit && !old(
                self,
            )@.config.skip_log_file,
    {
        proof {
            use_type_invariant(&*self);
        }
        let mut stage = Stage::Walking;
        std::mem::swap(&mut self.stage, &mut stage);
        let notice: Option<Notice> = match (stage, event) {
            (Stage::Walking, Event::Entry(entry)) => {
                if entry.is_dir && is_target(entry.name.as_str()) {
                    if self.config.commit {
                        let line = String::from_str("Deleting ").concat(entry.path.as_str());
                        self.stage = Stage::Removing(entry.path);
                        Some(Notice::Info(line))
                    } else {
                        let line = String::from_str("Would delete ").concat(entry.path.as_str());
                        Some(Notice::Info(line))
                    }
                } else {
                    None
                }
            },
            (Stage::Walking, Event::WalkEnded) => {
                if self.config.commit && !self.config.skip_log_file {
                    self.stage = Stage::Logging;
                } else {
                    self.stage = Stage::Finished(None);
                }
                None
            },
            (Stage::Removing(path), Event::Removed) => {
                let mut deleted: Vec<String> = Vec::new();
                std::mem::swap(&mut self.deleted, &mut deleted);
                proof {
                    assert(paths_of(deleted@.push(path)) =~= paths_of(deleted@).push(path@));
                }
                deleted.push(path);
                self.deleted = deleted;
                None
            },
            (Stage::Removing(_), Event::RemoveFailed(cause)) => {
                let line = String::from_str("Error deleting directory: ").concat(cause.as_str());
                Some(Notice::Error(line))
            },
            (Stage::Logging, Event::LogWritten) => {
                self.stage = Stage::Finished(None);
                None
            },
            (Stage::Logging, Event::LogFailed(cause)) => {
                self.stage = Stage::Finished(Some(cause));
                None
            },
            (stage, _) => {
                self.stage = stage;
                None
            },
        };
        Reply { notice, request: self.awaited() }
    }

    /// The switches that this run was started with.
    pub fn config(&self) -> (config: Config)
        ensures
            config == self@.config,
    {
        self.config
    }

    /// The paths of the directories removed so far, oldest first.
    pub fn deleted_dirs(&self) -> (paths: &Vec<String>)
        ensures
            paths_of(paths@) == self@.deleted,
    {
        &self.deleted
    }
}

} // verus!

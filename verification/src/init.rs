//! One-shot installation of the process-wide file logger, as a verified
//! state machine.
//!
//! The machine owns every decision of the setup sequence: which step comes
//! next, how each collaborator outcome is classified, and that a second
//! initialization is rejected once the sink is installed. The surrounding
//! process performs the actions it is handed (resolve the configuration
//! directory, open the log file, install the sink with the standard
//! configuration and the opened file) and reports each outcome back as a
//! plain event.

use vstd::prelude::*;

use crate::paths::{log_path_for, log_path_spec};

verus! {

/// Why an initialization attempt failed.
#[derive(Debug, PartialEq)]
pub enum InitError {
    /// The platform offers no notion of a user configuration directory.
    UnsupportedPlatform,
    /// Resolving (or creating) the configuration directory failed; carries
    /// the underlying cause.
    ConfigDirError(String),
    /// Opening or creating the log file failed; carries the target path and
    /// the underlying cause.
    LogFileOpenError { path: String, cause: String },
    /// The logger was already installed by an earlier successful attempt in
    /// this process.
    AlreadyInitialized,
    /// The sink rejected installation (for instance, conflicting global
    /// state set by something else); carries the underlying cause.
    InstallError(String),
}

/// Where an initialization attempt stands.
#[derive(Debug, PartialEq)]
pub enum Phase {
    /// No attempt is running and the logger is not installed.
    Ready,
    /// Waiting for the configuration directory to be resolved.
    Resolving,
    /// Waiting for the log file at the derived path to be opened.
    Opening { path: String },
    /// Waiting for the sink to be installed.
    Installing,
    /// The logger is installed; it stays installed for the process lifetime.
    Complete,
}

/// An outcome reported back to the machine.
#[derive(Debug, PartialEq)]
pub enum Event {
    /// A caller asks for the logger to be initialized.
    Begin,
    /// The directory resolver finished: a directory, `None` on a platform
    /// without one, or a failure cause.
    DirResolved { outcome: Result<Option<String>, String> },
    /// Opening the log file finished, with a failure cause on error.
    FileOpened { outcome: Result<(), String> },
    /// Installing the sink finished, with a failure cause on error.
    SinkReady { outcome: Result<(), String> },
}

/// What the machine asks the surrounding process to do next.
#[derive(Debug, PartialEq)]
pub enum Action {
    /// Resolve the user configuration directory, creating it if absent.
    ResolveConfigDir,
    /// Open the log file at `path` with exactly these flags: create it if
    /// absent, append to it, and never truncate it.
    OpenLogFile { path: String, create: bool, append: bool, truncate: bool },
    /// Install the global sink with the standard configuration and the
    /// opened file.
    InstallSink,
    /// The attempt is over; hand this result to the caller.
    Finish(Result<(), InitError>),
}

/// The process-wide logger initializer: one per process, driven to
/// completion at most once.
pub struct LoggerInitializer {
    /// Where the current (or last) attempt stands.
    pub phase: Phase,
}

/// Whether the machine accepts an event in a given phase: each outcome event
/// answers exactly the phase that asked for it, and a new attempt may begin
/// only when none is running.
pub open spec fn accepts(p: Phase, e: Event) -> bool {
    match e {
        Event::Begin => p is Ready || p is Complete,
        Event::DirResolved { .. } => p is Resolving,
        Event::FileOpened { .. } => p is Opening,
        Event::SinkReady { .. } => p is Installing,
    }
}

/// The machine's transition relation: in phase `pre`, on event `e`, the
/// machine moves to phase `post` and issues action `a`. False for any pair
/// the machine refuses.
pub open spec fn transition(pre: Phase, e: Event, post: Phase, a: Action) -> bool {
    match e {
        Event::Begin => {
            if pre is Complete {
                &&& post is Complete
                &&& a == Action::Finish(Err(InitError::AlreadyInitialized))
            } else {
                &&& pre is Ready
                &&& post is Resolving
                &&& a == Action::ResolveConfigDir
            }
        },
        Event::DirResolved { outcome } => {
            pre is Resolving && match outcome {
                Ok(Some(dir)) => {
                    &&& post matches Phase::Opening { path } && path@ == log_path_spec(dir@)
                    &&& a matches Action::OpenLogFile { path, create, append, truncate }
                        && path@ == log_path_spec(dir@) && create && append && !truncate
                },
                Ok(None) => {
                    &&& post is Ready
                    &&& a == Action::Finish(Err(InitError::UnsupportedPlatform))
                },
                Err(cause) => {
                    &&& post is Ready
                    &&& a matches Action::Finish(r) && r matches Err(err)
                        && err matches InitError::ConfigDirError(c) && c@ == cause@
                },
            }
        },
        Event::FileOpened { outcome } => {
            pre matches Phase::Opening { path } && match outcome {
                Ok(_) => {
                    &&& post is Installing
                    &&& a == Action::InstallSink
                },
                Err(cause) => {
                    &&& post is Ready
                    &&& a matches Action::Finish(r) && r matches Err(err)
                        && err matches InitError::LogFileOpenError { path: p, cause: c }
                        && p@ == path@ && c@ == cause@
                },
            }
        },
        Event::SinkReady { outcome } => {
            pre is Installing && match outcome {
                Ok(_) => {
                    &&& post is Complete
                    &&& a == Action::Finish(Ok(()))
                },
                Err(cause) => {
                    &&& post is Ready
                    &&& a matches Action::Finish(r) && r matches Err(err)
                        && err matches InitError::InstallError(c) && c@ == cause@
                },
            }
        },
    }
}

/// A fresh machine that is handed a successful outcome at every step runs
/// exactly the setup sequence — resolve, open, install — and finishes
/// installed, with a success result.
pub proof fn lemma_success_path(
    p0: Phase,
    p1: Phase,
    p2: Phase,
    p3: Phase,
    p4: Phase,
    a1: Action,
    a2: Action,
    a3: Action,
    a4: Action,
    dir: String,
)
    requires
        p0 is Ready,
        transition(p0, Event::Begin, p1, a1),
        transition(p1, Event::DirResolved { outcome: Ok(Some(dir)) }, p2, a2),
        transition(p2, Event::FileOpened { outcome: Ok(()) }, p3, a3),
        transition(p3, Event::SinkReady { outcome: Ok(()) }, p4, a4),
    ensures
        a1 == Action::ResolveConfigDir,
        a2 matches Action::OpenLogFile { path, create, append, truncate }
            && path@ == log_path_spec(dir@) && create && append && !truncate,
        a3 == Action::InstallSink,
        a4 == Action::Finish(Ok(())),
        p4 is Complete,
{
}

/// Once the logger is installed, it stays installed: whatever event the
/// machine accepts, it never leaves `Complete`, never asks for the log file
/// to be opened again, and answers a further initialization attempt with
/// `AlreadyInitialized`.
pub proof fn lemma_installed_is_exclusive(pre: Phase, e: Event, post: Phase, a: Action)
    requires
        pre is Complete,
        transition(pre, e, post, a),
    ensures
        post is Complete,
        !(a matches Action::OpenLogFile { .. }),
        a == Action::Finish(Err(InitError::AlreadyInitialized)),
{
}

/// Every request to open the log file carries the same flags: create the
/// file if absent, append to it, and never truncate it.
pub proof fn lemma_open_never_truncates(pre: Phase, e: Event, post: Phase, a: Action)
    requires
        transition(pre, e, post, a),
        a matches Action::OpenLogFile { .. },
    ensures
        a matches Action::OpenLogFile { create, append, truncate, .. }
            && create && append && !truncate,
{
}

/// On a platform without a configuration directory the attempt fails with
/// `UnsupportedPlatform`, and the machine never asks for a file to be
/// created or opened.
pub proof fn lemma_unsupported_platform(pre: Phase, post: Phase, a: Action)
    requires
        transition(pre, Event::DirResolved { outcome: Ok(None) }, post, a),
    ensures
        a == Action::Finish(Err(InitError::UnsupportedPlatform)),
        !(a matches Action::OpenLogFile { .. }),
        post is Ready,
{
}

/// When the log file cannot be opened, the attempt fails with
/// `LogFileOpenError` carrying exactly the path the machine asked to open
/// and the reported cause.
pub proof fn lemma_open_failure_names_path(
    path: String,
    cause: String,
    post: Phase,
    a: Action,
)
    requires
        transition(
            Phase::Opening { path },
            Event::FileOpened { outcome: Err(cause) },
            post,
            a,
        ),
    ensures
        a matches Action::Finish(r) && r matches Err(err)
            && err matches InitError::LogFileOpenError { path: p, cause: c }
            && p@ == path@ && c@ == cause@,
        post is Ready,
{
}

impl LoggerInitializer {
    /// A fresh initializer: no attempt running, logger not installed.
    pub fn new() -> (l: LoggerInitializer)
        ensures
            l.phase is Ready,
    {
        LoggerInitializer { phase: Phase::Ready }
    }

    /// Whether the logger is installed.
    pub open spec fn installed(self) -> bool {
        self.phase is Complete
    }

    /// Feed one event to the machine and get the next action.
    pub fn step(&mut self, e: Event) -> (a: Action)
        requires
            accepts(old(self).phase, e),
        ensures
            transition(old(self).phase, e, final(self).phase, a),
    {
        match e {
            Event::Begin => {
                match &self.phase {
                    Phase::Complete => Action::Finish(Err(InitError::AlreadyInitialized)),
                    _ => {
                        self.phase = Phase::Resolving;
                        Action::ResolveConfigDir
                    },
                }
            },
            Event::DirResolved { outcome } => {
                match outcome {
                    Ok(Some(dir)) => {
                        let path = log_path_for(dir.as_str());
                        self.phase = Phase::Opening { path: path.clone() };
                        Action::OpenLogFile { path, create: true, append: true, truncate: false }
                    },
                    Ok(None) => {
                        self.phase = Phase::Ready;
                        Action::Finish(Err(InitError::UnsupportedPlatform))
                    },
                    Err(cause) => {
                        self.phase = Phase::Ready;
                        Action::Finish(Err(InitError::ConfigDirError(cause)))
                    },
                }
            },
            Event::FileOpened { outcome } => {
                match outcome {
                    Ok(_) => {
                        self.phase = Phase::Installing;
                        Action::InstallSink
                    },
                    Err(cause) => {
                        let path = match &self.phase {
                            Phase::Opening { path } => path.clone(),
                            _ => vstd::pervasive::unreached(),
                        };
                        self.phase = Phase::Ready;
                        Action::Finish(Err(InitError::LogFileOpenError { path, cause }))
                    },
                }
            },
            Event::SinkReady { outcome } => {
                match outcome {
                    Ok(_) => {
                        self.phase = Phase::Complete;
                        Action::Finish(Ok(()))
                    },
                    Err(cause) => {
                        self.phase = Phase::Ready;
                        Action::Finish(Err(InitError::InstallError(cause)))
                    },
                }
            },
        }
    }
}

} // verus!

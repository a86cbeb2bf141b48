//! The data of one run of the listener, from installation to teardown.

use crate::text::join_text;
use vstd::prelude::*;

verus! {

/// What a successful capture does to the session that made it.
#[derive(Clone, Copy, Debug, PartialEq, Eq, Structural)]
pub enum CapturePolicy {
    /// The first captured code resolves a one-shot slot and shuts the
    /// listener down.
    TerminateOnFirstCode,
    /// Every captured code is forwarded as an event; the listener runs until
    /// it is stopped.
    PersistUntilExplicitStop,
}

/// Where the service stands in its life cycle.
#[derive(Clone, Copy, Debug, PartialEq, Eq, Structural)]
pub enum Phase {
    /// No session exists.
    Stopped,
    /// A session is installed and its socket is being bound.
    Starting,
    /// The accept loop is serving requests.
    Running,
    /// Shutdown has been signalled; the accept loop is draining.
    Stopping,
}

/// A stage of a session that exists.
#[derive(Clone, Copy, Debug, PartialEq, Eq, Structural)]
pub enum Stage {
    /// The socket is being bound.
    Starting,
    /// The accept loop is serving requests.
    Running,
    /// Shutdown has been signalled; the accept loop is draining.
    Stopping,
}

/// Data that the page handlers read, fixed when the session starts.
#[derive(Clone, Debug, PartialEq, Eq)]
pub struct RenderContext {
    /// Display language of the pages, such as `en-US`.
    pub language: String,
}

/// The one live session.
#[derive(Debug, PartialEq, Eq)]
pub struct Session {
    /// Port of the listening socket; never changes.
    pub listen_port: u16,
    /// Chosen at start.
    pub capture_policy: CapturePolicy,
    /// Read by the page handlers.
    pub render_context: Option<RenderContext>,
    /// How far the session has come.
    pub stage: Stage,
    /// Whether the one-shot slot has been resolved.
    pub capture_resolved: bool,
}

/// Why a life-cycle operation did not go through.
#[derive(Clone, Debug, PartialEq, Eq)]
pub enum LifecycleError {
    /// A start was asked for while a session exists.
    AlreadyRunning,
    /// The port could not be bound; the reason is the binder's.
    BindError(String),
    /// A stop was asked for, or a loop exit reported, with no session to
    /// apply it to.
    NotRunning,
    /// The accept loop ended abnormally; the detail is its own.
    ShutdownError(String),
}

/// The socket that the embedding is asked to bind.
#[derive(Clone, Copy, Debug, PartialEq, Eq, Structural)]
pub struct BindRequest {
    /// Port to bind on every interface.
    pub port: u16,
}

/// What a caller of a successful start holds on to.
#[derive(Clone, Copy, Debug, PartialEq, Eq, Structural)]
pub struct CaptureHandle {
    /// Port that the session listens on.
    pub port: u16,
    /// Under `TerminateOnFirstCode` the caller awaits the one-shot slot;
    /// under `PersistUntilExplicitStop` it subscribes to events and stops the
    /// service itself.
    pub policy: CapturePolicy,
}

/// What the embedding does to carry out a stop.
#[derive(Clone, Copy, Debug, PartialEq, Eq, Structural)]
pub struct StopPlan {
    /// Whether the shutdown signal still has to be sent. It is `false` where
    /// the session was already draining.
    pub send_signal: bool,
}

impl Session {
    /// The phase that a session in this stage is reported in.
    pub open spec fn phase(self) -> Phase {
        match self.stage {
            Stage::Starting => Phase::Starting,
            Stage::Running => Phase::Running,
            Stage::Stopping => Phase::Stopping,
        }
    }

    /// Whether requests can reach the handlers of this session.
    pub open spec fn serving(self) -> bool {
        self.stage != Stage::Starting
    }

    /// The same session in another stage.
    pub open spec fn at_stage(self, stage: Stage) -> Session {
        Session { stage, ..self }
    }

    /// The same session with its one-shot slot resolved.
    pub open spec fn resolved(self) -> Session {
        Session { capture_resolved: true, ..self }
    }
}

impl LifecycleError {
    /// What the user is told.
    pub open spec fn message_text(self) -> Seq<char> {
        match self {
            LifecycleError::AlreadyRunning => "Server is already running"@,
            LifecycleError::BindError(reason) => "Failed to bind port: "@ + reason@,
            LifecycleError::NotRunning => "Server is not running"@,
            LifecycleError::ShutdownError(detail) => "Server task failed: "@ + detail@,
        }
    }

    /// What the user is told: which operation failed, and the reason where
    /// one came with it.
    pub fn message(&self) -> (text: String)
        ensures
            text@ == self.message_text(),
    {
        match self {
            LifecycleError::AlreadyRunning => "Server is already running".to_owned(),
            LifecycleError::BindError(reason) => join_text("Failed to bind port: ", reason.as_str()),
            LifecycleError::NotRunning => "Server is not running".to_owned(),
            LifecycleError::ShutdownError(detail) => join_text(
                "Server task failed: ",
                detail.as_str(),
            ),
        }
    }
}

} // verus!

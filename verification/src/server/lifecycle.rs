//! The life-cycle manager: the one slot that holds the live session, and the
//! transitions that start, stop and observe it.
//!
//! The manager decides; it performs no I/O. Binding the socket, running the
//! accept loop and sending the shutdown signal are the embedding's work,
//! which reports each outcome back through the matching transition. The
//! embedding guards the manager with one lock and holds it only around these
//! calls.

use crate::server::params::QueryParams;
use crate::server::session::{
    BindRequest, CaptureHandle, CapturePolicy, LifecycleError, Phase, RenderContext, Session,
    Stage, StopPlan,
};
use vstd::prelude::*;

verus! {

/// The slot after a start was asked for: a fresh session in `Starting` where
/// the slot was empty, the slot as it was otherwise.
pub open spec fn slot_after_start_request(
    slot: Option<Session>,
    port: u16,
    policy: CapturePolicy,
    render_context: Option<RenderContext>,
) -> Option<Session> {
    match slot {
        Some(_) => slot,
        None => Some(
            Session {
                listen_port: port,
                capture_policy: policy,
                render_context,
                stage: Stage::Starting,
                capture_resolved: false,
            },
        ),
    }
}

/// The answer to a start request: a bind order where the slot was empty,
/// `AlreadyRunning` otherwise.
pub open spec fn reply_to_start_request(slot: Option<Session>, port: u16) -> Result<
    BindRequest,
    LifecycleError,
> {
    match slot {
        Some(_) => Err(LifecycleError::AlreadyRunning),
        None => Ok(BindRequest { port }),
    }
}

/// The slot after the outcome of the bind came in. A session in `Starting`
/// moves to `Running` on success and is cleared on failure; any other slot
/// stays as it was.
pub open spec fn slot_after_bind(slot: Option<Session>, outcome: Result<(), String>) -> Option<
    Session,
> {
    match slot {
        Some(session) if session.stage == Stage::Starting => match outcome {
            Ok(_) => Some(session.at_stage(Stage::Running)),
            Err(_) => None,
        },
        _ => slot,
    }
}

/// The answer to the outcome of the bind.
pub open spec fn reply_to_bind(slot: Option<Session>, outcome: Result<(), String>) -> Result<
    CaptureHandle,
    LifecycleError,
> {
    match slot {
        Some(session) => if session.stage == Stage::Starting {
            match outcome {
                Ok(_) => Ok(
                    CaptureHandle { port: session.listen_port, policy: session.capture_policy },
                ),
                Err(reason) => Err(LifecycleError::BindError(reason)),
            }
        } else {
            Err(LifecycleError::AlreadyRunning)
        },
        None => Err(LifecycleError::NotRunning),
    }
}

/// The slot after a stop was asked for: a running session starts draining.
pub open spec fn slot_after_stop_request(slot: Option<Session>) -> Option<Session> {
    match slot {
        Some(session) if session.stage == Stage::Running => Some(
            session.at_stage(Stage::Stopping),
        ),
        _ => slot,
    }
}

/// The answer to a stop request: a plan where a session is serving,
/// `NotRunning` otherwise.
pub open spec fn reply_to_stop_request(slot: Option<Session>) -> Result<StopPlan, LifecycleError> {
    match slot {
        Some(session) if session.serving() => Ok(
            StopPlan { send_signal: session.stage == Stage::Running },
        ),
        _ => Err(LifecycleError::NotRunning),
    }
}

/// The slot after the accept loop was seen to end: a serving session is
/// cleared, whatever the loop reported.
pub open spec fn slot_after_loop_exit(slot: Option<Session>) -> Option<Session> {
    match slot {
        Some(session) if session.serving() => None,
        _ => slot,
    }
}

/// The answer to the end of the accept loop: the loop's own failure is
/// surfaced as `ShutdownError`.
pub open spec fn reply_to_loop_exit(slot: Option<Session>, outcome: Result<(), String>) -> Result<
    (),
    LifecycleError,
> {
    match slot {
        Some(session) if session.serving() => match outcome {
            Ok(_) => Ok(()),
            Err(detail) => Err(LifecycleError::ShutdownError(detail)),
        },
        _ => Err(LifecycleError::NotRunning),
    }
}

/// The port that a status query reports: that of a serving session.
pub open spec fn reported_port(slot: Option<Session>) -> Option<u16> {
    match slot {
        Some(session) if session.serving() => Some(session.listen_port),
        _ => None,
    }
}

/// The phase that a slot stands for.
pub open spec fn phase_of(slot: Option<Session>) -> Phase {
    match slot {
        Some(session) => session.phase(),
        None => Phase::Stopped,
    }
}

/// Whether a callback with these parameters counts as a successful
/// authorization: the key `code` is present.
pub open spec fn carries_code(params: Map<Seq<char>, Seq<char>>) -> bool {
    params.contains_key("code"@)
}

/// Whether a callback resolves the one-shot slot: the session serves under
/// `TerminateOnFirstCode`, a code came, and the slot is still open.
pub open spec fn resolves_slot(slot: Option<Session>, has_code: bool) -> bool {
    slot matches Some(session) && session.serving() && has_code && session.capture_policy
        == CapturePolicy::TerminateOnFirstCode && !session.capture_resolved
}

/// Whether a callback is forwarded as an event: the session serves under
/// `PersistUntilExplicitStop` and a code came.
pub open spec fn forwards_event(slot: Option<Session>, has_code: bool) -> bool {
    slot matches Some(session) && session.serving() && has_code && session.capture_policy
        == CapturePolicy::PersistUntilExplicitStop
}

/// Where the parameters of a callback go.
pub open spec fn capture_for(slot: Option<Session>, params: QueryParams) -> Capture {
    if resolves_slot(slot, carries_code(params@)) {
        Capture::Deliver(params)
    } else if forwards_event(slot, carries_code(params@)) {
        Capture::Emit(params)
    } else {
        Capture::Nothing
    }
}

/// The slot after a callback: a resolving callback marks the slot resolved
/// and starts the drain; any other leaves the slot as it was.
pub open spec fn slot_after_callback(slot: Option<Session>, has_code: bool) -> Option<Session> {
    match slot {
        Some(session) if resolves_slot(slot, has_code) => Some(
            session.resolved().at_stage(Stage::Stopping),
        ),
        _ => slot,
    }
}

/// Whether a close request sends the shutdown signal: the session is running.
pub open spec fn close_signals(slot: Option<Session>) -> bool {
    slot matches Some(session) && session.stage == Stage::Running
}

/// Whether a callback sends the shutdown signal: it resolves the slot of a
/// session that was not draining yet.
pub open spec fn callback_signals(slot: Option<Session>, has_code: bool) -> bool {
    resolves_slot(slot, has_code) && close_signals(slot)
}

/// Where the parameters of a callback go.
#[derive(Debug)]
pub enum Capture {
    /// Nowhere: no code came, no session serves, or the one-shot slot was
    /// resolved before.
    Nothing,
    /// Into the one-shot slot, which this resolves.
    Deliver(QueryParams),
    /// To the host as an event.
    Emit(QueryParams),
}

/// What the embedding does after a callback was handled.
#[derive(Debug)]
pub struct CallbackEffects {
    /// Where the parameters go.
    pub capture: Capture,
    /// Whether to send the shutdown signal, best effort, right after the
    /// delivery.
    pub signal_shutdown: bool,
}

/// Owner of the session slot. One manager stands for one service; the
/// embedding creates it once and shares it behind its lock.
pub struct ServerManager {
    session: Option<Session>,
}

impl View for ServerManager {
    type V = Option<Session>;

    closed spec fn view(&self) -> Option<Session> {
        self.session
    }
}

impl ServerManager {
    /// A manager with no session.
    pub fn new() -> (manager: Self)
        ensures
            manager@ is None,
    {
        ServerManager { session: None }
    }

    /// Asks for a session on `port`. Succeeds only where no session exists,
    /// and then installs the new session before it returns, so that a second
    /// request finds the slot taken.
    pub fn request_start(
        &mut self,
        port: u16,
        policy: CapturePolicy,
        render_context: Option<RenderContext>,
    ) -> (reply: Result<BindRequest, LifecycleError>)
        ensures
            final(self)@ == slot_after_start_request(old(self)@, port, policy, render_context),
            reply == reply_to_start_request(old(self)@, port),
    {
        if self.session.is_some() {
            return Err(LifecycleError::AlreadyRunning);
        }
        self.session = Some(
            Session {
                listen_port: port,
                capture_policy: policy,
                render_context,
                stage: Stage::Starting,
                capture_resolved: false,
            },
        );
        Ok(BindRequest { port })
    }

    /// Reports how the bind went. On failure the half-installed session is
    /// cleared and the reason returned as `BindError`.
    pub fn bind_finished(&mut self, outcome: Result<(), String>) -> (reply: Result<
        CaptureHandle,
        LifecycleError,
    >)
        ensures
            final(self)@ == slot_after_bind(old(self)@, outcome),
            reply == reply_to_bind(old(self)@, outcome),
    {
        match self.session.take() {
            None => Err(LifecycleError::NotRunning),
            Some(session) => {
                match session.stage {
                    Stage::Starting => match outcome {
                        Ok(_) => {
                            let handle = CaptureHandle {
                                port: session.listen_port,
                                policy: session.capture_policy,
                            };
                            self.session = Some(Session { stage: Stage::Running, ..session });
                            Ok(handle)
                        },
                        Err(reason) => Err(LifecycleError::BindError(reason)),
                    },
                    _ => {
                        self.session = Some(session);
                        Err(LifecycleError::AlreadyRunning)
                    },
                }
            },
        }
    }

    /// Asks for the session to stop. The plan says whether the shutdown
    /// signal is still to be sent; the caller then waits for the accept loop
    /// and reports its end with [`ServerManager::loop_finished`].
    pub fn request_stop(&mut self) -> (reply: Result<StopPlan, LifecycleError>)
        ensures
            final(self)@ == slot_after_stop_request(old(self)@),
            reply == reply_to_stop_request(old(self)@),
    {
        match self.session.take() {
            None => Err(LifecycleError::NotRunning),
            Some(session) => {
                match session.stage {
                    Stage::Starting => {
                        self.session = Some(session);
                        Err(LifecycleError::NotRunning)
                    },
                    Stage::Running => {
                        self.session = Some(Session { stage: Stage::Stopping, ..session });
                        Ok(StopPlan { send_signal: true })
                    },
                    Stage::Stopping => {
                        self.session = Some(session);
                        Ok(StopPlan { send_signal: false })
                    },
                }
            },
        }
    }

    /// Reports that the accept loop has ended, by a stop, by policy or on
    /// its own. The slot is cleared whatever the loop reported.
    pub fn loop_finished(&mut self, outcome: Result<(), String>) -> (reply: Result<
        (),
        LifecycleError,
    >)
        ensures
            final(self)@ == slot_after_loop_exit(old(self)@),
            reply == reply_to_loop_exit(old(self)@, outcome),
    {
        match self.session.take() {
            None => Err(LifecycleError::NotRunning),
            Some(session) => {
                match session.stage {
                    Stage::Starting => {
                        self.session = Some(session);
                        Err(LifecycleError::NotRunning)
                    },
                    _ => match outcome {
                        Ok(_) => Ok(()),
                        Err(detail) => Err(LifecycleError::ShutdownError(detail)),
                    },
                }
            },
        }
    }

    /// Decides what a callback with `params` does. Parameters without a
    /// `code` are delivered nowhere and change nothing.
    pub fn on_callback(&mut self, params: QueryParams) -> (effects: CallbackEffects)
        ensures
            final(self)@ == slot_after_callback(old(self)@, carries_code(params@)),
            effects.capture == capture_for(old(self)@, params),
            effects.signal_shutdown == callback_signals(old(self)@, carries_code(params@)),
    {
        let has_code = params.contains_key("code");
        match self.session.take() {
            None => CallbackEffects { capture: Capture::Nothing, signal_shutdown: false },
            Some(session) => {
                let serving = match session.stage {
                    Stage::Starting => false,
                    _ => true,
                };
                if !(serving && has_code) {
                    self.session = Some(session);
                    return CallbackEffects { capture: Capture::Nothing, signal_shutdown: false };
                }
                match session.capture_policy {
                    CapturePolicy::PersistUntilExplicitStop => {
                        self.session = Some(session);
                        CallbackEffects { capture: Capture::Emit(params), signal_shutdown: false }
                    },
                    CapturePolicy::TerminateOnFirstCode => {
                        if session.capture_resolved {
                            self.session = Some(session);
                            CallbackEffects { capture: Capture::Nothing, signal_shutdown: false }
                        } else {
                            let signal_shutdown = match session.stage {
                                Stage::Running => true,
                                _ => false,
                            };
                            self.session = Some(
                                Session {
                                    stage: Stage::Stopping,
                                    capture_resolved: true,
                                    ..session
                                },
                            );
                            CallbackEffects { capture: Capture::Deliver(params), signal_shutdown }
                        }
                    },
                }
            },
        }
    }

    /// Decides what a close request does: a running session starts
    /// draining, and the result says whether the shutdown signal is to be
    /// sent. Closing twice sends it once.
    pub fn on_close(&mut self) -> (signal_shutdown: bool)
        ensures
            final(self)@ == slot_after_stop_request(old(self)@),
            signal_shutdown == close_signals(old(self)@),
    {
        match self.session.take() {
            None => false,
            Some(session) => {
                match session.stage {
                    Stage::Running => {
                        self.session = Some(Session { stage: Stage::Stopping, ..session });
                        true
                    },
                    _ => {
                        self.session = Some(session);
                        false
                    },
                }
            },
        }
    }

    /// The port of the serving session, if any. Reads memory only.
    pub fn status(&self) -> (port: Option<u16>)
        ensures
            port == reported_port(self@),
    {
        match &self.session {
            Some(session) => match session.stage {
                Stage::Starting => None,
                _ => Some(session.listen_port),
            },
            None => None,
        }
    }

    /// Where the service stands.
    pub fn phase(&self) -> (phase: Phase)
        ensures
            phase == phase_of(self@),
    {
        match &self.session {
            Some(session) => match session.stage {
                Stage::Starting => Phase::Starting,
                Stage::Running => Phase::Running,
                Stage::Stopping => Phase::Stopping,
            },
            None => Phase::Stopped,
        }
    }

    /// The render context of the session, if one exists and has one.
    pub fn render_context(&self) -> (context: Option<&RenderContext>)
        ensures
            match context {
                Some(found) => self@ matches Some(session) && session.render_context == Some(
                    *found,
                ),
                None => self@ matches Some(session) ==> session.render_context is None,
            },
    {
        match &self.session {
            Some(session) => session.render_context.as_ref(),
            None => None,
        }
    }
}

/// The port that the service listens on, or `None` where it is not serving.
pub fn get_server_status(manager: &ServerManager) -> (port: Option<u16>)
    ensures
        port == reported_port(manager@),
{
    manager.status()
}

} // verus!

//! What holds of the service whatever the order of events: stated over the
//! transitions of the life-cycle manager and the route table.

use crate::server::lifecycle::{
    callback_signals, close_signals, forwards_event, phase_of, reply_to_bind, reply_to_loop_exit,
    reply_to_start_request, reply_to_stop_request, reported_port, resolves_slot,
    slot_after_bind, slot_after_callback, slot_after_loop_exit, slot_after_start_request,
    slot_after_stop_request,
};
use crate::server::routes::{route_for, Route};
use crate::server::session::{
    BindRequest, CaptureHandle, CapturePolicy, LifecycleError, Phase, RenderContext, Session,
    Stage, StopPlan,
};
use vstd::prelude::*;

verus! {

/// One request to start the service.
pub struct StartRequest {
    /// Port to listen on.
    pub port: u16,
    /// Policy of the session.
    pub policy: CapturePolicy,
    /// Render context of the session.
    pub render_context: Option<RenderContext>,
}

/// Anything that can happen to the manager.
pub enum Event {
    /// A start was asked for.
    StartRequested(StartRequest),
    /// The bind came back.
    BindFinished(Result<(), String>),
    /// A stop was asked for.
    StopRequested,
    /// The accept loop ended.
    LoopFinished(Result<(), String>),
    /// A callback was handled; the flag says whether it carried a code.
    Callback(bool),
    /// A close request was handled.
    Close,
}

/// The slot after `event`.
pub open spec fn step(slot: Option<Session>, event: Event) -> Option<Session> {
    match event {
        Event::StartRequested(request) => slot_after_start_request(
            slot,
            request.port,
            request.policy,
            request.render_context,
        ),
        Event::BindFinished(outcome) => slot_after_bind(slot, outcome),
        Event::StopRequested => slot_after_stop_request(slot),
        Event::LoopFinished(_) => slot_after_loop_exit(slot),
        Event::Callback(has_code) => slot_after_callback(slot, has_code),
        Event::Close => slot_after_stop_request(slot),
    }
}

/// The slot after a run of events, first to last.
pub open spec fn run(slot: Option<Session>, events: Seq<Event>) -> Option<Session>
    decreases events.len(),
{
    if events.len() == 0 {
        slot
    } else {
        run(step(slot, events.first()), events.drop_first())
    }
}

/// How many of the start requests in a run of events go through.
pub open spec fn starts_accepted(slot: Option<Session>, events: Seq<Event>) -> nat
    decreases events.len(),
{
    if events.len() == 0 {
        0
    } else {
        let accepted: nat = if events.first() matches Event::StartRequested(request)
            && reply_to_start_request(slot, request.port) is Ok {
            1
        } else {
            0
        };
        accepted + starts_accepted(step(slot, events.first()), events.drop_first())
    }
}

/// How many callbacks in a run of events resolve the one-shot slot.
pub open spec fn resolutions(slot: Option<Session>, events: Seq<Event>) -> nat
    decreases events.len(),
{
    if events.len() == 0 {
        0
    } else {
        let resolved: nat = if events.first() matches Event::Callback(has_code) && resolves_slot(
            slot,
            has_code,
        ) {
            1
        } else {
            0
        };
        resolved + resolutions(step(slot, events.first()), events.drop_first())
    }
}

/// Whether a run of events holds no report that the accept loop ended and
/// no failed bind: nothing in it clears the slot.
pub open spec fn keeps_session(events: Seq<Event>) -> bool {
    forall|i: int|
        0 <= i < events.len() ==> !(#[trigger] events[i] is LoopFinished) && !(events[i]
            matches Event::BindFinished(Err(_)))
}

/// Mutual exclusion, one request: while a session exists, in whatever
/// phase, a start request is refused with `AlreadyRunning` and changes
/// nothing.
pub proof fn lemma_start_refused_while_session_exists(
    slot: Option<Session>,
    request: StartRequest,
)
    requires
        slot is Some,
    ensures
        reply_to_start_request(slot, request.port) == Err::<BindRequest, LifecycleError>(
            LifecycleError::AlreadyRunning,
        ),
        slot_after_start_request(slot, request.port, request.policy, request.render_context)
            == slot,
{
}

/// No event but the end of the accept loop or a failed bind clears the
/// slot.
pub proof fn lemma_session_kept(slot: Option<Session>, events: Seq<Event>)
    requires
        slot is Some,
        keeps_session(events),
    ensures
        run(slot, events) is Some,
    decreases events.len(),
{
    if events.len() > 0 {
        assert(!(events[0] is LoopFinished));
        let rest = events.drop_first();
        assert forall|i: int| 0 <= i < rest.len() implies !(#[trigger] rest[i] is LoopFinished)
            && !(rest[i] matches Event::BindFinished(Err(_))) by {
            assert(rest[i] == events[i + 1]);
        }
        lemma_session_kept(step(slot, events.first()), rest);
    }
}

/// Mutual exclusion, any interleaving: of the start requests in a run of
/// events during which the session is not torn down, none goes through
/// where a session existed at the outset, and at most one where none did.
/// The manager is called under one lock, so concurrent calls reach it as
/// such a run.
pub proof fn lemma_at_most_one_start_accepted(slot: Option<Session>, events: Seq<Event>)
    requires
        keeps_session(events),
    ensures
        slot is Some ==> starts_accepted(slot, events) == 0,
        slot is None ==> starts_accepted(slot, events) <= 1,
        slot is None && (exists|i: int| 0 <= i < events.len() && events[i] is StartRequested)
            ==> starts_accepted(slot, events) == 1,
    decreases events.len(),
{
    if events.len() > 0 {
        let rest = events.drop_first();
        assert(!(events[0] is LoopFinished));
        assert forall|i: int| 0 <= i < rest.len() implies !(#[trigger] rest[i] is LoopFinished)
            && !(rest[i] matches Event::BindFinished(Err(_))) by {
            assert(rest[i] == events[i + 1]);
        }
        lemma_at_most_one_start_accepted(step(slot, events.first()), rest);
        if slot is None && !(events.first() is StartRequested) {
            if exists|i: int| 0 <= i < events.len() && events[i] is StartRequested {
                let i = choose|i: int| 0 <= i < events.len() && events[i] is StartRequested;
                assert(rest[i - 1] is StartRequested);
            }
        }
    }
}

/// Idempotent stop: stopping a serving session succeeds and clears the
/// slot once the accept loop has ended cleanly; a second stop then finds
/// nothing to stop and says `NotRunning`.
pub proof fn lemma_stop_twice(slot: Option<Session>)
    requires
        slot matches Some(session) && session.serving(),
    ensures
        reply_to_stop_request(slot) is Ok,
        reply_to_loop_exit(slot_after_stop_request(slot), Ok(())) == Ok::<(), LifecycleError>(()),
        slot_after_loop_exit(slot_after_stop_request(slot)) is None,
        reply_to_stop_request(slot_after_loop_exit(slot_after_stop_request(slot))) == Err::<
            StopPlan,
            LifecycleError,
        >(LifecycleError::NotRunning),
{
}

/// A stop always clears the slot: whatever the accept loop reported at its
/// end, failure included, no session is left to block the next start.
pub proof fn lemma_stop_clears_slot_even_on_failure(
    slot: Option<Session>,
    outcome: Result<(), String>,
)
    requires
        slot matches Some(session) && session.serving(),
    ensures
        slot_after_loop_exit(slot_after_stop_request(slot)) is None,
        outcome matches Err(detail) ==> reply_to_loop_exit(slot_after_stop_request(slot), outcome)
            == Err::<(), LifecycleError>(LifecycleError::ShutdownError(detail)),
{
}

/// Restart: once a stop has completed, a start on the same port is
/// accepted, and with a successful bind the service reports that port
/// again.
pub proof fn lemma_restart_after_stop(
    slot: Option<Session>,
    outcome: Result<(), String>,
    request: StartRequest,
)
    requires
        slot matches Some(session) && session.serving() && session.listen_port == request.port,
    ensures
        ({
            let stopped = slot_after_loop_exit(slot_after_stop_request(slot));
            let starting = slot_after_start_request(
                stopped,
                request.port,
                request.policy,
                request.render_context,
            );
            let running = slot_after_bind(starting, Ok(()));
            &&& reply_to_start_request(stopped, request.port) == Ok::<
                BindRequest,
                LifecycleError,
            >(BindRequest { port: request.port })
            &&& reply_to_bind(starting, Ok(())) == Ok::<CaptureHandle, LifecycleError>(
                CaptureHandle { port: request.port, policy: request.policy },
            )
            &&& phase_of(running) == Phase::Running
            &&& reported_port(running) == Some(request.port)
        }),
{
}

/// A failed bind leaves nothing behind: the slot is empty again and the
/// next start is accepted.
pub proof fn lemma_failed_bind_clears_slot(request: StartRequest, reason: String)
    ensures
        ({
            let starting = slot_after_start_request(
                None,
                request.port,
                request.policy,
                request.render_context,
            );
            &&& phase_of(starting) == Phase::Starting
            &&& slot_after_bind(starting, Err(reason)) is None
            &&& reply_to_bind(starting, Err(reason)) == Err::<CaptureHandle, LifecycleError>(
                LifecycleError::BindError(reason),
            )
        }),
{
}

/// No-code tolerance: a callback without a code resolves nothing, forwards
/// nothing, sends no signal and leaves the session as it was.
pub proof fn lemma_callback_without_code_changes_nothing(slot: Option<Session>)
    ensures
        slot_after_callback(slot, false) == slot,
        !resolves_slot(slot, false),
        !forwards_event(slot, false),
        !callback_signals(slot, false),
{
}

/// First code under `TerminateOnFirstCode`: the callback resolves the slot
/// and signals shutdown, and the session is gone as soon as the accept
/// loop is seen to end.
pub proof fn lemma_first_code_terminates(session: Session, outcome: Result<(), String>)
    requires
        session.stage == Stage::Running,
        session.capture_policy == CapturePolicy::TerminateOnFirstCode,
        !session.capture_resolved,
    ensures
        resolves_slot(Some(session), true),
        callback_signals(Some(session), true),
        phase_of(slot_after_callback(Some(session), true)) == Phase::Stopping,
        phase_of(slot_after_loop_exit(slot_after_callback(Some(session), true)))
            == Phase::Stopped,
{
}

/// Under `PersistUntilExplicitStop` a callback with a code is forwarded and
/// the session keeps running.
pub proof fn lemma_persistent_session_keeps_running(session: Session)
    requires
        session.stage == Stage::Running,
        session.capture_policy == CapturePolicy::PersistUntilExplicitStop,
    ensures
        forwards_event(Some(session), true),
        !callback_signals(Some(session), true),
        slot_after_callback(Some(session), true) == Some(session),
{
}

/// A resolved slot stays resolved for as long as its session lives.
proof fn lemma_resolved_stays_resolved(session: Session, event: Event)
    requires
        session.capture_resolved,
    ensures
        step(Some(session), event) matches Some(next) ==> next.capture_resolved,
{
}

/// Once the slot of a session is resolved, no later callback of that
/// session resolves it again.
proof fn lemma_no_resolution_after_resolved(slot: Option<Session>, events: Seq<Event>)
    requires
        slot matches Some(session) && session.capture_resolved,
        keeps_session(events),
    ensures
        resolutions(slot, events) == 0,
    decreases events.len(),
{
    if events.len() > 0 {
        let rest = events.drop_first();
        assert(!(events[0] is LoopFinished));
        assert(!(events[0] matches Event::BindFinished(Err(_))));
        assert forall|i: int| 0 <= i < rest.len() implies !(#[trigger] rest[i] is LoopFinished)
            && !(rest[i] matches Event::BindFinished(Err(_))) by {
            assert(rest[i] == events[i + 1]);
        }
        lemma_resolved_stays_resolved(slot->0, events.first());
        lemma_no_resolution_after_resolved(step(slot, events.first()), rest);
    }
}

/// The one-shot slot is resolved at most once: in any run of events within
/// the life of one session, at most one callback resolves it, and every
/// later one is ignored.
pub proof fn lemma_slot_resolved_at_most_once(slot: Option<Session>, events: Seq<Event>)
    requires
        keeps_session(events),
    ensures
        resolutions(slot, events) <= 1,
    decreases events.len(),
{
    if events.len() > 0 {
        let rest = events.drop_first();
        assert(!(events[0] is LoopFinished));
        assert forall|i: int| 0 <= i < rest.len() implies !(#[trigger] rest[i] is LoopFinished)
            && !(rest[i] matches Event::BindFinished(Err(_))) by {
            assert(rest[i] == events[i + 1]);
        }
        if events.first() matches Event::Callback(has_code) && resolves_slot(slot, has_code) {
            lemma_no_resolution_after_resolved(step(slot, events.first()), rest);
        } else {
            lemma_slot_resolved_at_most_once(step(slot, events.first()), rest);
        }
    }
}

/// What a session is made with never changes: across any event that leaves
/// it in place, its port, its policy and its render context are the same.
pub proof fn lemma_session_settings_fixed(session: Session, event: Event)
    ensures
        step(Some(session), event) matches Some(next) ==> {
            &&& next.listen_port == session.listen_port
            &&& next.capture_policy == session.capture_policy
            &&& next.render_context == session.render_context
        },
{
}

/// The phases follow one cycle: `Stopped`, `Starting`, `Running`,
/// `Stopping`, `Stopped`. An event leaves the phase as it is or moves it
/// one step on; only a failed bind goes from `Starting` straight back to
/// `Stopped`, and only the end of the accept loop from `Running` straight
/// to `Stopped`.
pub proof fn lemma_phases_follow_cycle(slot: Option<Session>, event: Event)
    ensures
        ({
            let before = phase_of(slot);
            let after = phase_of(step(slot, event));
            match before {
                Phase::Stopped => after == Phase::Stopped || (after == Phase::Starting && event
                    is StartRequested),
                Phase::Starting => after == Phase::Starting || (after == Phase::Running && event
                    matches Event::BindFinished(Ok(_))) || (after == Phase::Stopped && event
                    matches Event::BindFinished(Err(_))),
                Phase::Running => after == Phase::Running || after == Phase::Stopping || (after
                    == Phase::Stopped && event is LoopFinished),
                Phase::Stopping => after == Phase::Stopping || (after == Phase::Stopped && event
                    is LoopFinished),
            }
        }),
{
}

/// A status query reports a port exactly while a session serves, and then
/// the port that the session was started on.
pub proof fn lemma_status_reports_serving_port(slot: Option<Session>)
    ensures
        reported_port(slot) is Some <==> (phase_of(slot) == Phase::Running || phase_of(slot)
            == Phase::Stopping),
        slot matches Some(session) ==> (session.serving() ==> reported_port(slot) == Some(
            session.listen_port,
        )),
{
}

/// A close request is idempotent: the first one on a running session sends
/// the signal, and a second one sends nothing and changes nothing.
pub proof fn lemma_close_idempotent(slot: Option<Session>)
    ensures
        !close_signals(slot_after_stop_request(slot)),
        slot_after_stop_request(slot_after_stop_request(slot)) == slot_after_stop_request(slot),
{
}

/// Unknown route: `/nonexistent` is not found, whatever the method. The
/// route is found without a look at the session, so the answer is the same
/// in every state.
pub proof fn lemma_nonexistent_is_not_found(method: Seq<char>)
    ensures
        route_for(method, "/nonexistent"@) == Route::NotFound,
{
    reveal_strlit("/nonexistent");
    reveal_strlit("/oauth/callback");
    reveal_strlit("/pclce_oauth");
    reveal_strlit("/close");
    reveal_strlit("/assets/");
    let path = "/nonexistent"@;
    assert(path[1] == 'n');
    assert("/pclce_oauth"@[1] == 'p');
    assert("/assets/"@[1] == 'a');
    assert(path.take(8)[1] == 'n');
}

/// Only the paths of the table are routed: whatever is neither a callback
/// path, nor the close path, nor below the asset prefix is not found.
pub proof fn lemma_unlisted_path_is_not_found(method: Seq<char>, path: Seq<char>)
    requires
        !crate::server::routes::is_callback_path(path),
        !crate::server::routes::is_close_path(path),
        !crate::server::routes::is_asset_path(path),
    ensures
        route_for(method, path) == Route::NotFound,
{
}

} // verus!

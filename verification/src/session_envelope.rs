//! The shape of what a [`ResponsesSessionObserver`] emits over a whole
//! session.
//!
//! [`ResponsesSessionObserver`]: crate::responses_session::ResponsesSessionObserver

use std::time::Instant;

use vstd::prelude::*;

use crate::redaction::RedactionPolicy;

verus! {

/// Where a session stands in its envelope.
pub enum Phase {
    /// No `response.session_started` yet.
    Unopened,
    /// Between turns.
    Idle,
    /// Between a `response.turn_started` and its `response.turn_completed`.
    InTurn,
    /// After `response.session_ended`.
    Ended,
}

/// Where `kind` takes a session, and `None` where it is out of place there or
/// belongs to another session. Events outside the session lifecycle may stand
/// anywhere.
pub open spec fn advance(phase: Phase, kind: crate::event::KindView, session: Seq<char>) -> Option<
    Phase,
> {
    match kind {
        crate::event::KindView::ResponseSessionStarted { session_id, .. } => if phase is Unopened
            && session_id == session {
            Some(Phase::Idle)
        } else {
            None
        },
        crate::event::KindView::ResponseTurnStarted { session_id, .. } => if phase is Idle
            && session_id == session {
            Some(Phase::InTurn)
        } else {
            None
        },
        crate::event::KindView::ResponseTurnCompleted { session_id, .. } => if phase is InTurn
            && session_id == session {
            Some(Phase::Idle)
        } else {
            None
        },
        crate::event::KindView::ResponseSessionEnded { session_id, .. } => if phase is Idle
            && session_id == session {
            Some(Phase::Ended)
        } else {
            None
        },
        _ => Some(phase),
    }
}

/// Where a sequence of events takes a session, and `None` where one of them is
/// out of place.
pub open spec fn advance_all(
    phase: Phase,
    emissions: Seq<crate::emit::EmissionView>,
    session: Seq<char>,
) -> Option<Phase>
    decreases emissions.len(),
{
    if emissions.len() == 0 {
        Some(phase)
    } else {
        match advance_all(phase, emissions.drop_last(), session) {
            Some(reached) => advance(reached, emissions.last().kind, session),
            None => None,
        }
    }
}

/// What can happen on a session, and when.
pub enum SessionOp {
    /// A turn is announced.
    Send { previous_response_id: Option<Seq<char>>, now: Instant },
    /// Sending failed.
    SendError { now: Instant },
    /// The server sent an event.
    Event { event: crate::responses_session::SessionEventView, now: Instant },
    /// The session was closed.
    Close { reason: Seq<char>, now: Instant },
}

impl SessionOp {
    /// When it happens.
    pub open spec fn moment(self) -> Instant {
        match self {
            SessionOp::Send { now, .. } => now,
            SessionOp::SendError { now } => now,
            SessionOp::Event { now, .. } => now,
            SessionOp::Close { now, .. } => now,
        }
    }
}

/// Whether an observer in `state` may emit `emissions` on `op` and be in
/// `next` afterwards.
pub open spec fn may_step<R: RedactionPolicy>(
    policy: R,
    state: crate::responses_session::SessionView,
    op: SessionOp,
    emissions: Seq<crate::emit::EmissionView>,
    next: crate::responses_session::SessionView,
) -> bool {
    match op {
        SessionOp::Send { previous_response_id, now } => {
            &&& next == state.after_send(previous_response_id, now)
            &&& emissions == state.send_emissions(previous_response_id, now)
        },
        SessionOp::SendError { now } => {
            &&& next == state.with_send_error().finalized()
            &&& emissions == state.with_send_error().finalize_emissions(now)
        },
        SessionOp::Event { event, now } => {
            &&& next == state.after_event(event)
            &&& state.may_emit_on_event(policy, event, now, emissions)
        },
        SessionOp::Close { reason, now } => {
            &&& next == state.after_close()
            &&& emissions == state.close_emissions(reason, now)
        },
    }
}

/// Where an observer stands.
pub open spec fn phase_of(state: crate::responses_session::SessionView) -> Phase {
    if !state.session_started {
        Phase::Unopened
    } else if state.in_turn {
        Phase::InTurn
    } else if state.session_ended {
        Phase::Ended
    } else {
        Phase::Idle
    }
}

/// What holds of an observer to which nothing is sent after its close: a turn
/// is open in a running session only, a session that ended had started, and
/// an open turn has counted no hosted call.
pub open spec fn orderly(state: crate::responses_session::SessionView) -> bool {
    &&& state.in_turn ==> state.session_started && !state.session_ended
    &&& state.session_ended ==> state.session_started
    &&& state.in_turn ==> state.turn.hosted_tool_calls == 0
}

/// All emissions of a run, in order.
pub open spec fn joined(outputs: Seq<Seq<crate::emit::EmissionView>>) -> Seq<
    crate::emit::EmissionView,
>
    decreases outputs.len(),
{
    if outputs.len() == 0 {
        seq![]
    } else {
        joined(outputs.drop_last()) + outputs.last()
    }
}

/// Whether `states` and `outputs` are a run of an observer on `ops`.
pub open spec fn run<R: RedactionPolicy>(
    policy: R,
    states: Seq<crate::responses_session::SessionView>,
    ops: Seq<SessionOp>,
    outputs: Seq<Seq<crate::emit::EmissionView>>,
) -> bool {
    &&& states.len() == ops.len() + 1
    &&& outputs.len() == ops.len()
    &&& forall|i: int|
        0 <= i < ops.len() ==> may_step(
            policy,
            states[i],
            #[trigger] ops[i],
            outputs[i],
            states[i + 1],
        )
}

/// Whether `states` and `outputs` are a run of an observer on `ops`, in which
/// no turn is announced on a session that has ended.
pub open spec fn orderly_run<R: RedactionPolicy>(
    policy: R,
    states: Seq<crate::responses_session::SessionView>,
    ops: Seq<SessionOp>,
    outputs: Seq<Seq<crate::emit::EmissionView>>,
) -> bool {
    &&& run(policy, states, ops, outputs)
    &&& forall|i: int|
        0 <= i < ops.len() && #[trigger] ops[i] is Send ==> !states[i].session_ended
}

proof fn lemma_advance_concat(
    phase: Phase,
    first: Seq<crate::emit::EmissionView>,
    second: Seq<crate::emit::EmissionView>,
    session: Seq<char>,
)
    ensures
        advance_all(phase, first + second, session) == (match advance_all(phase, first, session) {
            Some(reached) => advance_all(reached, second, session),
            None => None,
        }),
    decreases second.len(),
{
    if second.len() == 0 {
        assert(first + second =~= first);
    } else {
        lemma_advance_concat(phase, first, second.drop_last(), session);
        assert((first + second).drop_last() =~= first + second.drop_last());
        assert((first + second).last() == second.last());
    }
}

proof fn lemma_advance_one(
    phase: Phase,
    emission: crate::emit::EmissionView,
    session: Seq<char>,
)
    ensures
        advance_all(phase, seq![emission], session) == advance(phase, emission.kind, session),
{
    assert(seq![emission].drop_last() =~= seq![]);
    assert(advance_all(phase, seq![emission].drop_last(), session) == Some(phase));
}

proof fn lemma_advance_outside(
    phase: Phase,
    emissions: Seq<crate::emit::EmissionView>,
    session: Seq<char>,
)
    requires
        forall|i: int|
            0 <= i < emissions.len() ==> !(
            #[trigger] emissions[i]).kind.response_lifecycle_related(),
    ensures
        advance_all(phase, emissions, session) == Some(phase),
    decreases emissions.len(),
{
    if emissions.len() > 0 {
        lemma_advance_outside(phase, emissions.drop_last(), session);
        assert(!emissions[emissions.len() - 1].kind.response_lifecycle_related());
    }
}

proof fn lemma_hosted_pairs_are_outside<R: RedactionPolicy>(
    policy: R,
    conversation_id: Seq<char>,
    calls: Seq<crate::responses_extract::HostedView>,
    response_id: Option<Seq<char>>,
    emissions: Seq<crate::emit::EmissionView>,
)
    requires
        crate::responses_extract::emits_pairs(
            policy,
            conversation_id,
            calls,
            response_id,
            emissions,
        ),
    ensures
        forall|i: int|
            0 <= i < emissions.len() ==> !(
            #[trigger] emissions[i]).kind.response_lifecycle_related(),
{
    assert forall|i: int| 0 <= i < emissions.len() implies !(
    #[trigger] emissions[i]).kind.response_lifecycle_related() by {
        let call = calls[i / 2];
        assert(emissions[2 * (i / 2)].kind is ToolHostedInvoked);
        assert(emissions[2 * (i / 2) + 1].kind is ToolHostedCompleted);
        assert(i == 2 * (i / 2) || i == 2 * (i / 2) + 1);
    }
}

proof fn lemma_finalize_advances(
    state: crate::responses_session::SessionView,
    now: Instant,
)
    requires
        orderly(state) || (state.in_turn && state.session_started && !state.session_ended),
    ensures
        advance_all(
            phase_of(state),
            state.finalize_emissions(now),
            state.session_id,
        ) == Some(phase_of(state.finalized())),
{
    if state.in_turn {
        lemma_advance_one(
            phase_of(state),
            state.emission(state.turn_completed(now)),
            state.session_id,
        );
    }
}

/// One step keeps the envelope well-formed: what is emitted takes the session
/// from where it stands to where it stands afterwards.
pub proof fn lemma_step_keeps_envelope<R: RedactionPolicy>(
    policy: R,
    state: crate::responses_session::SessionView,
    op: SessionOp,
    emissions: Seq<crate::emit::EmissionView>,
    next: crate::responses_session::SessionView,
)
    requires
        orderly(state),
        may_step(policy, state, op, emissions, next),
        op is Send ==> !state.session_ended,
    ensures
        orderly(next),
        next.session_id == state.session_id,
        advance_all(phase_of(state), emissions, state.session_id) == Some(phase_of(next)),
{
    let session = state.session_id;
    match op {
        SessionOp::Send { previous_response_id, now } => {
            lemma_finalize_advances(state, now);
            let ended = state.finalize_emissions(now);
            let turn = state.emission(
                crate::event::KindView::ResponseTurnStarted { session_id: session, previous_response_id },
            );
            if state.session_started {
                assert(emissions =~= ended + seq![turn]);
                lemma_advance_concat(phase_of(state), ended, seq![turn], session);
                lemma_advance_one(Phase::Idle, turn, session);
            } else {
                let start = state.emission(
                    crate::event::KindView::ResponseSessionStarted {
                        model: state.model,
                        session_id: session,
                    },
                );
                assert(emissions =~= seq![start] + seq![turn]);
                lemma_advance_concat(phase_of(state), seq![start], seq![turn], session);
                lemma_advance_one(Phase::Unopened, start, session);
                lemma_advance_one(Phase::Idle, turn, session);
            }
        },
        SessionOp::SendError { now } => {
            lemma_finalize_advances(state.with_send_error(), now);
        },
        SessionOp::Event { event, now } => {
            let updated = state.with_event(event);
            match event {
                crate::responses_session::SessionEventView::Done { response } => {
                    let calls = crate::responses_extract::hosted_calls(
                        crate::responses_extract::output_items(response),
                    );
                    let hosted = choose|hosted: Seq<crate::emit::EmissionView>| #[trigger]
                        crate::responses_extract::emits_pairs(
                            policy,
                            state.conversation_id,
                            calls,
                            updated.turn.response_id,
                            hosted,
                        ) && emissions == hosted + updated.finalize_emissions(now);
                    lemma_hosted_pairs_are_outside(
                        policy,
                        state.conversation_id,
                        calls,
                        updated.turn.response_id,
                        hosted,
                    );
                    lemma_advance_outside(phase_of(state), hosted, session);
                    lemma_advance_concat(
                        phase_of(state),
                        hosted,
                        updated.finalize_emissions(now),
                        session,
                    );
                    lemma_finalize_advances(updated, now);
                },
                crate::responses_session::SessionEventView::Error => {
                    lemma_finalize_advances(updated, now);
                },
                _ => {},
            }
        },
        SessionOp::Close { reason, now } => {
            lemma_finalize_advances(state, now);
            let ended = state.finalize_emissions(now);
            if state.session_started && !state.session_ended {
                let end = state.emission(
                    crate::event::KindView::ResponseSessionEnded { session_id: session, reason },
                );
                lemma_advance_concat(phase_of(state), ended, seq![end], session);
                lemma_advance_one(Phase::Idle, end, session);
            } else {
                assert(emissions =~= ended);
            }
        },
    }
}

/// Whatever happens on a session, as long as no turn is announced after its
/// end, its envelope is well-formed: one `response.session_started` before
/// anything else of the lifecycle, `response.turn_started` and
/// `response.turn_completed` in turn, at most one `response.session_ended` and
/// nothing of the lifecycle after it, all with the id of the session.
pub proof fn lemma_envelope_is_well_formed<R: RedactionPolicy>(
    policy: R,
    conversation_id: Seq<char>,
    model: Seq<char>,
    session_id: Seq<char>,
    states: Seq<crate::responses_session::SessionView>,
    ops: Seq<SessionOp>,
    outputs: Seq<Seq<crate::emit::EmissionView>>,
)
    requires
        orderly_run(policy, states, ops, outputs),
        states[0] == crate::responses_session::fresh_session(conversation_id, model, session_id),
    ensures
        orderly(states.last()),
        states.last().session_id == session_id,
        advance_all(Phase::Unopened, joined(outputs), session_id) == Some(
            phase_of(states.last()),
        ),
    decreases ops.len(),
{
    if ops.len() > 0 {
        let n = ops.len() - 1;
        assert forall|i: int| 0 <= i < n implies may_step(
            policy,
            states.drop_last()[i],
            #[trigger] ops.drop_last()[i],
            outputs.drop_last()[i],
            states.drop_last()[i + 1],
        ) && (ops.drop_last()[i] is Send ==> !states.drop_last()[i].session_ended) by {
            assert(may_step(policy, states[i], ops[i], outputs[i], states[i + 1]));
        }
        lemma_envelope_is_well_formed(
            policy,
            conversation_id,
            model,
            session_id,
            states.drop_last(),
            ops.drop_last(),
            outputs.drop_last(),
        );
        assert(may_step(policy, states[n], ops[n], outputs[n], states[n + 1]));
        lemma_step_keeps_envelope(policy, states[n], ops[n], outputs[n], states[n + 1]);
        lemma_advance_concat(
            Phase::Unopened,
            joined(outputs.drop_last()),
            outputs.last(),
            session_id,
        );
    }
}

/// How many of the emissions are `response.session_started`.
pub open spec fn starts_in(emissions: Seq<crate::emit::EmissionView>) -> nat
    decreases emissions.len(),
{
    if emissions.len() == 0 {
        0
    } else {
        starts_in(emissions.drop_last()) + (if emissions.last().kind is ResponseSessionStarted {
            1nat
        } else {
            0nat
        })
    }
}

/// How many of the emissions are `response.session_ended`.
pub open spec fn ends_in(emissions: Seq<crate::emit::EmissionView>) -> nat
    decreases emissions.len(),
{
    if emissions.len() == 0 {
        0
    } else {
        ends_in(emissions.drop_last()) + (if emissions.last().kind is ResponseSessionEnded {
            1nat
        } else {
            0nat
        })
    }
}

/// Whether a turn is announced somewhere among `ops`.
pub open spec fn announces(ops: Seq<SessionOp>) -> bool {
    exists|i: int| 0 <= i < ops.len() && #[trigger] ops[i] is Send
}

proof fn lemma_marks_concat(
    first: Seq<crate::emit::EmissionView>,
    second: Seq<crate::emit::EmissionView>,
)
    ensures
        starts_in(first + second) == starts_in(first) + starts_in(second),
        ends_in(first + second) == ends_in(first) + ends_in(second),
    decreases second.len(),
{
    if second.len() == 0 {
        assert(first + second =~= first);
    } else {
        lemma_marks_concat(first, second.drop_last());
        assert((first + second).drop_last() =~= first + second.drop_last());
        assert((first + second).last() == second.last());
    }
}

proof fn lemma_no_marks(emissions: Seq<crate::emit::EmissionView>)
    requires
        forall|i: int|
            0 <= i < emissions.len() ==> !((#[trigger] emissions[i]).kind is ResponseSessionStarted)
                && !(emissions[i].kind is ResponseSessionEnded),
    ensures
        starts_in(emissions) == 0,
        ends_in(emissions) == 0,
    decreases emissions.len(),
{
    if emissions.len() > 0 {
        lemma_no_marks(emissions.drop_last());
        assert(!(emissions[emissions.len() - 1].kind is ResponseSessionStarted));
    }
}

proof fn lemma_one_mark(emission: crate::emit::EmissionView)
    ensures
        starts_in(seq![emission]) == (if emission.kind is ResponseSessionStarted {
            1nat
        } else {
            0nat
        }),
        ends_in(seq![emission]) == (if emission.kind is ResponseSessionEnded {
            1nat
        } else {
            0nat
        }),
{
    assert(seq![emission].drop_last() =~= seq![]);
    assert(starts_in(seq![emission].drop_last()) == 0);
    assert(ends_in(seq![emission].drop_last()) == 0);
}

/// One step emits `response.session_started` exactly where it starts the
/// session and `response.session_ended` exactly where it ends it; it starts it
/// only by announcing a turn, and undoes neither.
proof fn lemma_step_marks<R: RedactionPolicy>(
    policy: R,
    state: crate::responses_session::SessionView,
    op: SessionOp,
    emissions: Seq<crate::emit::EmissionView>,
    next: crate::responses_session::SessionView,
)
    requires
        may_step(policy, state, op, emissions, next),
    ensures
        next.session_started == (state.session_started || op is Send),
        state.session_ended ==> next.session_ended,
        next.session_ended ==> state.session_ended || state.session_started,
        starts_in(emissions) == (if next.session_started && !state.session_started {
            1nat
        } else {
            0nat
        }),
        ends_in(emissions) == (if next.session_ended && !state.session_ended {
            1nat
        } else {
            0nat
        }),
{
    match op {
        SessionOp::Send { previous_response_id, now } => {
            let ended = state.finalize_emissions(now);
            let start = state.emission(
                crate::event::KindView::ResponseSessionStarted {
                    model: state.model,
                    session_id: state.session_id,
                },
            );
            let turn = state.emission(
                crate::event::KindView::ResponseTurnStarted {
                    session_id: state.session_id,
                    previous_response_id,
                },
            );
            lemma_no_marks(ended);
            lemma_one_mark(start);
            lemma_one_mark(turn);
            if state.session_started {
                assert(emissions =~= ended + seq![turn]);
                lemma_marks_concat(ended, seq![turn]);
            } else {
                assert(emissions =~= (ended + seq![start]) + seq![turn]);
                lemma_marks_concat(ended, seq![start]);
                lemma_marks_concat(ended + seq![start], seq![turn]);
            }
        },
        SessionOp::SendError { now } => {
            lemma_no_marks(emissions);
        },
        SessionOp::Event { event, now } => {
            let updated = state.with_event(event);
            match event {
                crate::responses_session::SessionEventView::Done { response } => {
                    let calls = crate::responses_extract::hosted_calls(
                        crate::responses_extract::output_items(response),
                    );
                    let hosted = choose|hosted: Seq<crate::emit::EmissionView>| #[trigger]
                        crate::responses_extract::emits_pairs(
                            policy,
                            state.conversation_id,
                            calls,
                            updated.turn.response_id,
                            hosted,
                        ) && emissions == hosted + updated.finalize_emissions(now);
                    lemma_hosted_pairs_are_outside(
                        policy,
                        state.conversation_id,
                        calls,
                        updated.turn.response_id,
                        hosted,
                    );
                    lemma_no_marks(hosted);
                    lemma_no_marks(updated.finalize_emissions(now));
                    lemma_marks_concat(hosted, updated.finalize_emissions(now));
                },
                _ => {
                    lemma_no_marks(emissions);
                },
            }
        },
        SessionOp::Close { reason, now } => {
            let ended = state.finalize_emissions(now);
            lemma_no_marks(ended);
            if state.session_started && !state.session_ended {
                let end = state.emission(
                    crate::event::KindView::ResponseSessionEnded {
                        session_id: state.session_id,
                        reason,
                    },
                );
                assert(emissions =~= ended + seq![end]);
                lemma_one_mark(end);
                lemma_marks_concat(ended, seq![end]);
            } else {
                assert(emissions =~= ended);
            }
        },
    }
}

/// Whatever happens on a session, sends after its close among it,
/// `response.session_started` is emitted exactly once where a turn was ever
/// announced and never where none was, and `response.session_ended` at most
/// once, and only on a session that was started.
pub proof fn lemma_session_starts_and_ends_once<R: RedactionPolicy>(
    policy: R,
    conversation_id: Seq<char>,
    model: Seq<char>,
    session_id: Seq<char>,
    states: Seq<crate::responses_session::SessionView>,
    ops: Seq<SessionOp>,
    outputs: Seq<Seq<crate::emit::EmissionView>>,
)
    requires
        run(policy, states, ops, outputs),
        states[0] == crate::responses_session::fresh_session(conversation_id, model, session_id),
    ensures
        starts_in(joined(outputs)) == (if announces(ops) {
            1nat
        } else {
            0nat
        }),
        ends_in(joined(outputs)) <= starts_in(joined(outputs)),
        states.last().session_started == announces(ops),
        ends_in(joined(outputs)) == (if states.last().session_ended {
            1nat
        } else {
            0nat
        }),
        states.last().session_ended ==> states.last().session_started,
    decreases ops.len(),
{
    if ops.len() > 0 {
        let n = ops.len() - 1;
        let fewer = ops.drop_last();
        lemma_run_shortened(policy, states, ops, outputs);
        lemma_session_starts_and_ends_once(
            policy,
            conversation_id,
            model,
            session_id,
            states.drop_last(),
            fewer,
            outputs.drop_last(),
        );
        assert(announces(ops) <==> announces(fewer) || ops.last() is Send) by {
            if announces(fewer) {
                let i = choose|i: int| 0 <= i < fewer.len() && #[trigger] fewer[i] is Send;
                assert(ops[i] is Send);
            }
            if announces(ops) && !(ops.last() is Send) {
                let i = choose|i: int| 0 <= i < ops.len() && #[trigger] ops[i] is Send;
                assert(fewer[i] is Send);
            }
            if ops.last() is Send {
                assert(ops[n] is Send);
            }
        }
        assert(may_step(policy, states[n], ops[n], outputs[n], states[n + 1]));
        lemma_step_marks(policy, states[n], ops[n], outputs[n], states[n + 1]);
        lemma_marks_concat(joined(outputs.drop_last()), outputs.last());
    }
}

/// Whether a turn is open after `emissions`, where `open` says whether one was
/// before them; `None` where a turn starts while one is open, one completes
/// while none is, or an event belongs to another session.
pub open spec fn turns_after(
    open: bool,
    emissions: Seq<crate::emit::EmissionView>,
    session: Seq<char>,
) -> Option<bool>
    decreases emissions.len(),
{
    if emissions.len() == 0 {
        Some(open)
    } else {
        match (turns_after(open, emissions.drop_last(), session), emissions.last().kind) {
            (
                Some(reached),
                crate::event::KindView::ResponseTurnStarted { session_id, .. },
            ) => if !reached && session_id == session {
                Some(true)
            } else {
                None
            },
            (
                Some(reached),
                crate::event::KindView::ResponseTurnCompleted { session_id, .. },
            ) => if reached && session_id == session {
                Some(false)
            } else {
                None
            },
            (reached, _) => reached,
        }
    }
}

proof fn lemma_turns_concat(
    open: bool,
    first: Seq<crate::emit::EmissionView>,
    second: Seq<crate::emit::EmissionView>,
    session: Seq<char>,
)
    ensures
        turns_after(open, first + second, session) == (match turns_after(open, first, session) {
            Some(reached) => turns_after(reached, second, session),
            None => None,
        }),
    decreases second.len(),
{
    if second.len() == 0 {
        assert(first + second =~= first);
    } else {
        lemma_turns_concat(open, first, second.drop_last(), session);
        assert((first + second).drop_last() =~= first + second.drop_last());
        assert((first + second).last() == second.last());
    }
}

proof fn lemma_turns_one(open: bool, emission: crate::emit::EmissionView, session: Seq<char>)
    ensures
        turns_after(open, seq![emission], session) == (match emission.kind {
            crate::event::KindView::ResponseTurnStarted { session_id, .. } => if !open && session_id
                == session {
                Some(true)
            } else {
                None
            },
            crate::event::KindView::ResponseTurnCompleted { session_id, .. } => if open
                && session_id == session {
                Some(false)
            } else {
                None
            },
            _ => Some(open),
        }),
{
    assert(seq![emission].drop_last() =~= seq![]);
    assert(turns_after(open, seq![emission].drop_last(), session) == Some(open));
}

proof fn lemma_turns_outside(
    open: bool,
    emissions: Seq<crate::emit::EmissionView>,
    session: Seq<char>,
)
    requires
        forall|i: int|
            0 <= i < emissions.len() ==> !(
            #[trigger] emissions[i]).kind.response_lifecycle_related(),
    ensures
        turns_after(open, emissions, session) == Some(open),
    decreases emissions.len(),
{
    if emissions.len() > 0 {
        lemma_turns_outside(open, emissions.drop_last(), session);
        assert(!emissions[emissions.len() - 1].kind.response_lifecycle_related());
    }
}

proof fn lemma_turns_finalized(state: crate::responses_session::SessionView, now: Instant)
    ensures
        turns_after(state.in_turn, state.finalize_emissions(now), state.session_id) == Some(false),
        !state.finalized().in_turn,
{
    if state.in_turn {
        lemma_turns_one(true, state.emission(state.turn_completed(now)), state.session_id);
    }
}

/// One step keeps turns alternating: what is emitted takes the turn from
/// whether it is open before to whether it is open afterwards.
pub proof fn lemma_step_alternates_turns<R: RedactionPolicy>(
    policy: R,
    state: crate::responses_session::SessionView,
    op: SessionOp,
    emissions: Seq<crate::emit::EmissionView>,
    next: crate::responses_session::SessionView,
)
    requires
        may_step(policy, state, op, emissions, next),
    ensures
        next.session_id == state.session_id,
        turns_after(state.in_turn, emissions, state.session_id) == Some(next.in_turn),
{
    let session = state.session_id;
    match op {
        SessionOp::Send { previous_response_id, now } => {
            let ended = state.finalize_emissions(now);
            let start = state.emission(
                crate::event::KindView::ResponseSessionStarted {
                    model: state.model,
                    session_id: session,
                },
            );
            let turn = state.emission(
                crate::event::KindView::ResponseTurnStarted { session_id: session, previous_response_id },
            );
            lemma_turns_finalized(state, now);
            lemma_turns_one(false, start, session);
            lemma_turns_one(false, turn, session);
            if state.session_started {
                assert(emissions =~= ended + seq![turn]);
                lemma_turns_concat(state.in_turn, ended, seq![turn], session);
            } else {
                assert(emissions =~= (ended + seq![start]) + seq![turn]);
                lemma_turns_concat(state.in_turn, ended, seq![start], session);
                lemma_turns_concat(state.in_turn, ended + seq![start], seq![turn], session);
            }
        },
        SessionOp::SendError { now } => {
            lemma_turns_finalized(state.with_send_error(), now);
        },
        SessionOp::Event { event, now } => {
            let updated = state.with_event(event);
            lemma_turns_finalized(updated, now);
            match event {
                crate::responses_session::SessionEventView::Done { response } => {
                    let calls = crate::responses_extract::hosted_calls(
                        crate::responses_extract::output_items(response),
                    );
                    let hosted = choose|hosted: Seq<crate::emit::EmissionView>| #[trigger]
                        crate::responses_extract::emits_pairs(
                            policy,
                            state.conversation_id,
                            calls,
                            updated.turn.response_id,
                            hosted,
                        ) && emissions == hosted + updated.finalize_emissions(now);
                    lemma_hosted_pairs_are_outside(
                        policy,
                        state.conversation_id,
                        calls,
                        updated.turn.response_id,
                        hosted,
                    );
                    lemma_turns_outside(state.in_turn, hosted, session);
                    lemma_turns_concat(
                        state.in_turn,
                        hosted,
                        updated.finalize_emissions(now),
                        session,
                    );
                },
                _ => {},
            }
        },
        SessionOp::Close { reason, now } => {
            let ended = state.finalize_emissions(now);
            lemma_turns_finalized(state, now);
            if state.session_started && !state.session_ended {
                let end = state.emission(
                    crate::event::KindView::ResponseSessionEnded { session_id: session, reason },
                );
                assert(emissions =~= ended + seq![end]);
                lemma_turns_one(false, end, session);
                lemma_turns_concat(state.in_turn, ended, seq![end], session);
            } else {
                assert(emissions =~= ended);
            }
        },
    }
}

/// Whatever happens on a session, sends after its close among it, its
/// `response.turn_started` and `response.turn_completed` alternate, beginning
/// with a start, all with the id of the session; after the run a turn is open
/// if and only if the last of them is a start.
pub proof fn lemma_turns_alternate<R: RedactionPolicy>(
    policy: R,
    conversation_id: Seq<char>,
    model: Seq<char>,
    session_id: Seq<char>,
    states: Seq<crate::responses_session::SessionView>,
    ops: Seq<SessionOp>,
    outputs: Seq<Seq<crate::emit::EmissionView>>,
)
    requires
        run(policy, states, ops, outputs),
        states[0] == crate::responses_session::fresh_session(conversation_id, model, session_id),
    ensures
        states.last().session_id == session_id,
        turns_after(false, joined(outputs), session_id) == Some(states.last().in_turn),
    decreases ops.len(),
{
    if ops.len() > 0 {
        let n = ops.len() - 1;
        lemma_run_shortened(policy, states, ops, outputs);
        lemma_turns_alternate(
            policy,
            conversation_id,
            model,
            session_id,
            states.drop_last(),
            ops.drop_last(),
            outputs.drop_last(),
        );
        lemma_step_alternates_turns(policy, states[n], ops[n], outputs[n], states[n + 1]);
        lemma_turns_concat(false, joined(outputs.drop_last()), outputs.last(), session_id);
    }
}

/// A run without its last step is a run.
pub proof fn lemma_run_shortened<R: RedactionPolicy>(
    policy: R,
    states: Seq<crate::responses_session::SessionView>,
    ops: Seq<SessionOp>,
    outputs: Seq<Seq<crate::emit::EmissionView>>,
)
    requires
        run(policy, states, ops, outputs),
        ops.len() > 0,
    ensures
        run(policy, states.drop_last(), ops.drop_last(), outputs.drop_last()),
        may_step(
            policy,
            states[ops.len() - 1],
            ops[ops.len() - 1],
            outputs[ops.len() - 1],
            states[ops.len() as int],
        ),
        states.drop_last().last() == states[ops.len() - 1],
{
    assert forall|i: int| 0 <= i < ops.len() - 1 implies may_step(
        policy,
        states.drop_last()[i],
        #[trigger] ops.drop_last()[i],
        outputs.drop_last()[i],
        states.drop_last()[i + 1],
    ) by {
        assert(may_step(policy, states[i], ops[i], outputs[i], states[i + 1]));
    }
    let n = ops.len() - 1;
    assert(may_step(policy, states[n], ops[n], outputs[n], states[n + 1]));
}

/// When the last turn among `ops` was announced.
pub open spec fn last_send(ops: Seq<SessionOp>) -> Option<Instant>
    decreases ops.len(),
{
    if ops.len() == 0 {
        None
    } else if ops.last() is Send {
        Some(ops.last().moment())
    } else {
        last_send(ops.drop_last())
    }
}

/// A start is held exactly while a turn is open, and it is that of the turn:
/// the moment of the last send.
pub proof fn lemma_start_is_that_of_the_turn<R: RedactionPolicy>(
    policy: R,
    conversation_id: Seq<char>,
    model: Seq<char>,
    session_id: Seq<char>,
    states: Seq<crate::responses_session::SessionView>,
    ops: Seq<SessionOp>,
    outputs: Seq<Seq<crate::emit::EmissionView>>,
)
    requires
        run(policy, states, ops, outputs),
        states[0] == crate::responses_session::fresh_session(conversation_id, model, session_id),
    ensures
        states.last().timed(),
        states.last().in_turn ==> states.last().started_at == last_send(ops),
    decreases ops.len(),
{
    if ops.len() > 0 {
        lemma_run_shortened(policy, states, ops, outputs);
        lemma_start_is_that_of_the_turn(
            policy,
            conversation_id,
            model,
            session_id,
            states.drop_last(),
            ops.drop_last(),
            outputs.drop_last(),
        );
    }
}

/// Every turn is timed from its own start: whatever happened on a session
/// before, a `response.turn_completed` that the next step emits carries the
/// time from the last send to that step.
pub proof fn lemma_turns_are_timed_from_their_send<R: RedactionPolicy>(
    policy: R,
    conversation_id: Seq<char>,
    model: Seq<char>,
    session_id: Seq<char>,
    states: Seq<crate::responses_session::SessionView>,
    ops: Seq<SessionOp>,
    outputs: Seq<Seq<crate::emit::EmissionView>>,
    i: int,
)
    requires
        run(policy, states, ops, outputs),
        states[0] == crate::responses_session::fresh_session(conversation_id, model, session_id),
        ops.len() > 0,
        0 <= i < outputs.last().len(),
    ensures
        outputs.last()[i].kind matches crate::event::KindView::ResponseTurnCompleted {
            duration_ms,
            ..
        } ==> last_send(ops.drop_last()) matches Some(sent_at) && duration_ms == Some(
            crate::clock::elapsed_between(sent_at, ops.last().moment()),
        ),
{
    let n = ops.len() - 1;
    lemma_run_shortened(policy, states, ops, outputs);
    lemma_start_is_that_of_the_turn(
        policy,
        conversation_id,
        model,
        session_id,
        states.drop_last(),
        ops.drop_last(),
        outputs.drop_last(),
    );
    let state = states[n];
    if let SessionOp::Event { event, now } = ops[n] {
        if let crate::responses_session::SessionEventView::Done { response } = event {
            let updated = state.with_event(event);
            let calls = crate::responses_extract::hosted_calls(
                crate::responses_extract::output_items(response),
            );
            let hosted = choose|hosted: Seq<crate::emit::EmissionView>| #[trigger]
                crate::responses_extract::emits_pairs(
                    policy,
                    state.conversation_id,
                    calls,
                    updated.turn.response_id,
                    hosted,
                ) && outputs[n] == hosted + updated.finalize_emissions(now);
            lemma_hosted_pairs_are_outside(
                policy,
                state.conversation_id,
                calls,
                updated.turn.response_id,
                hosted,
            );
            if i < hosted.len() {
                assert(!hosted[i].kind.response_lifecycle_related());
            }
        }
    }
}

/// A run that ends with a close leaves a complete envelope: either nothing of
/// the lifecycle was emitted, or the session has ended and every turn was
/// completed.
pub proof fn lemma_close_completes_envelope<R: RedactionPolicy>(
    policy: R,
    conversation_id: Seq<char>,
    model: Seq<char>,
    session_id: Seq<char>,
    states: Seq<crate::responses_session::SessionView>,
    ops: Seq<SessionOp>,
    outputs: Seq<Seq<crate::emit::EmissionView>>,
)
    requires
        orderly_run(policy, states, ops, outputs),
        states[0] == crate::responses_session::fresh_session(conversation_id, model, session_id),
        ops.len() > 0,
        ops.last() is Close,
    ensures
        ({
            let reached = advance_all(Phase::Unopened, joined(outputs), session_id);
            reached == Some(Phase::Unopened) || reached == Some(Phase::Ended)
        }),
{
    lemma_envelope_is_well_formed(
        policy,
        conversation_id,
        model,
        session_id,
        states,
        ops,
        outputs,
    );
    let n = ops.len() - 1;
    assert(may_step(policy, states[n], ops[n], outputs[n], states[n + 1]));
}

/// Closing twice is closing once: after a close, another one emits nothing
/// and changes nothing.
pub proof fn lemma_close_is_idempotent(
    state: crate::responses_session::SessionView,
    reason: Seq<char>,
    now: Instant,
)
    ensures
        state.after_close().close_emissions(reason, now) == Seq::<
            crate::emit::EmissionView,
        >::empty(),
        state.after_close().after_close() == state.after_close(),
{
    assert(state.after_close().close_emissions(reason, now) =~= Seq::<
        crate::emit::EmissionView,
    >::empty());
}

/// The `response.turn_completed` that a `Done` in an open turn emits comes
/// last and counts exactly the hosted calls whose pairs precede it.
pub proof fn lemma_done_counts_hosted_calls<R: RedactionPolicy>(
    policy: R,
    state: crate::responses_session::SessionView,
    response: serde_json::Value,
    now: Instant,
    emissions: Seq<crate::emit::EmissionView>,
)
    requires
        orderly(state),
        state.in_turn,
        state.may_emit_on_event(
            policy,
            crate::responses_session::SessionEventView::Done { response },
            now,
            emissions,
        ),
        crate::responses_extract::hosted_calls(
            crate::responses_extract::output_items(response),
        ).len() <= usize::MAX,
    ensures
        ({
            let count = crate::responses_extract::hosted_calls(
                crate::responses_extract::output_items(response),
            ).len();
            &&& emissions.len() == 2 * count + 1
            &&& emissions.last().kind matches crate::event::KindView::ResponseTurnCompleted {
                hosted_tool_calls,
                ..
            } && hosted_tool_calls == count
        }),
{
}

} // verus!

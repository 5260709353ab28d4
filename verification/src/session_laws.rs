//! What the events of a Responses session say, told from what happened on it.

use vstd::prelude::*;

use crate::redaction::RedactionPolicy;
use crate::responses_session::{ResponseChunkKind, SessionEvent};
use crate::session_envelope::SessionOp;

verus! {

/// A server event reads as what it says.
pub proof fn lemma_session_event_contents(event: SessionEvent)
    ensures
        match event {
            SessionEvent::Response(chunk) => event@ matches crate::responses_session::SessionEventView::Response {
                kind,
                response_id,
                status,
                usage,
            } && {
                &&& kind == chunk.kind
                &&& response_id == chunk.response_id@
                &&& status == chunk.status.deep_view()
                &&& usage == chunk.usage
            },
            SessionEvent::Done(payload) => event@ matches crate::responses_session::SessionEventView::Done {
                response,
            } && response == payload,
            SessionEvent::Error => event@ is Error,
            SessionEvent::Item => event@ is Item,
        },
{
}

/// The status that a response chunk tells: that of its kind where the response
/// is over, else the one that it reports.
pub open spec fn status_told(op: SessionOp) -> Option<Seq<char>> {
    match op {
        SessionOp::Event {
            event: crate::responses_session::SessionEventView::Response { kind, status, .. },
            ..
        } => match kind {
            ResponseChunkKind::ResponseCompleted => Some("completed"@),
            ResponseChunkKind::ResponseFailed => Some("failed"@),
            ResponseChunkKind::ResponseIncomplete => Some("incomplete"@),
            ResponseChunkKind::ResponseCreated => status,
            ResponseChunkKind::ResponseInProgress => status,
        },
        _ => None,
    }
}

/// The response that a response chunk belongs to.
pub open spec fn response_told(op: SessionOp) -> Option<Seq<char>> {
    match op {
        SessionOp::Event {
            event: crate::responses_session::SessionEventView::Response { response_id, .. },
            ..
        } => Some(response_id),
        _ => None,
    }
}

/// The input tokens that a response chunk reports.
pub open spec fn input_told(op: SessionOp) -> Option<u64> {
    match op {
        SessionOp::Event {
            event: crate::responses_session::SessionEventView::Response { usage: Some(usage), .. },
            ..
        } => Some(usage.input_tokens),
        _ => None,
    }
}

/// The output tokens that a response chunk reports.
pub open spec fn output_told(op: SessionOp) -> Option<u64> {
    match op {
        SessionOp::Event {
            event: crate::responses_session::SessionEventView::Response { usage: Some(usage), .. },
            ..
        } => Some(usage.output_tokens),
        _ => None,
    }
}

/// The last thing that was told since the last send, if anything was.
pub open spec fn last_told<T>(ops: Seq<SessionOp>, told: spec_fn(SessionOp) -> Option<T>) -> Option<T>
    decreases ops.len(),
{
    if ops.len() == 0 || ops.last() is Send {
        None
    } else if told(ops.last()) is Some {
        told(ops.last())
    } else {
        last_told(ops.drop_last(), told)
    }
}

/// The chain ancestor that the last send named.
pub open spec fn last_ancestor(ops: Seq<SessionOp>) -> Option<Seq<char>>
    decreases ops.len(),
{
    if ops.len() == 0 {
        None
    } else {
        match ops.last() {
            SessionOp::Send { previous_response_id, .. } => previous_response_id,
            _ => last_ancestor(ops.drop_last()),
        }
    }
}

/// Whether a turn is open: it was sent, and since then sending did not fail, the
/// response was neither done nor in error, and the session was not closed.
pub open spec fn turn_is_open(ops: Seq<SessionOp>) -> bool
    decreases ops.len(),
{
    if ops.len() == 0 {
        false
    } else {
        match ops.last() {
            SessionOp::Send { .. } => true,
            SessionOp::SendError { .. } => false,
            SessionOp::Close { .. } => false,
            SessionOp::Event { event, .. } => if event is Done || event is Error {
                false
            } else {
                turn_is_open(ops.drop_last())
            },
        }
    }
}

/// Whether a turn was ever sent.
pub open spec fn was_sent(ops: Seq<SessionOp>) -> bool
    decreases ops.len(),
{
    ops.len() > 0 && (ops.last() is Send || was_sent(ops.drop_last()))
}

/// Whether the session was closed after a turn was sent.
pub open spec fn was_closed(ops: Seq<SessionOp>) -> bool
    decreases ops.len(),
{
    ops.len() > 0 && (was_closed(ops.drop_last()) || ops.last() is Close && was_sent(
        ops.drop_last(),
    ))
}

/// The first of two that is there.
pub open spec fn either<T>(first: Option<T>, second: Option<T>) -> Option<T> {
    if first is Some {
        first
    } else {
        second
    }
}

/// How the turn that was open after `ops` ends on `op`: with `send_error` where
/// sending failed; with the status that a `response.done` payload carries; else
/// with what the last chunk of the turn told; and where nothing told any, with
/// `error` on an error event and `completed` in any other case.
pub open spec fn final_status(ops: Seq<SessionOp>, op: SessionOp) -> Seq<char> {
    let before = last_told(ops, |op: SessionOp| status_told(op));
    match op {
        SessionOp::SendError { .. } => "send_error"@,
        SessionOp::Event {
            event: crate::responses_session::SessionEventView::Done { response },
            ..
        } => match either(crate::hosted_laws::string_at(response, "status"@), before) {
            Some(status) => status,
            None => "completed"@,
        },
        SessionOp::Event { event: crate::responses_session::SessionEventView::Error, .. } =>
            match before {
                Some(status) => status,
                None => "error"@,
            },
        _ => match before {
            Some(status) => status,
            None => "completed"@,
        },
    }
}

/// A number that a `response.done` payload reports under `usage`.
pub open spec fn usage_done(op: SessionOp, name: Seq<char>) -> Option<u64> {
    match op {
        SessionOp::Event {
            event: crate::responses_session::SessionEventView::Done { response },
            ..
        } => match crate::json::json_member(response, "usage"@) {
            Some(usage) => crate::hosted_laws::number_at(usage, name),
            None => None,
        },
        _ => None,
    }
}

/// The `id` that a `response.done` payload carries.
pub open spec fn response_done(op: SessionOp) -> Option<Seq<char>> {
    match op {
        SessionOp::Event {
            event: crate::responses_session::SessionEventView::Done { response },
            ..
        } => crate::hosted_laws::string_at(response, "id"@),
        _ => None,
    }
}

/// What an observer holds of an open turn is what was told since it was sent;
/// whether a turn is open and whether the session has started and ended follow
/// from what happened.
pub proof fn lemma_turn_is_what_was_told<R: RedactionPolicy>(
    policy: R,
    conversation_id: Seq<char>,
    model: Seq<char>,
    session_id: Seq<char>,
    states: Seq<crate::responses_session::SessionView>,
    ops: Seq<SessionOp>,
    outputs: Seq<Seq<crate::emit::EmissionView>>,
)
    requires
        crate::session_envelope::run(policy, states, ops, outputs),
        states[0] == crate::responses_session::fresh_session(conversation_id, model, session_id),
    ensures
        states.last().conversation_id == conversation_id,
        states.last().model == model,
        states.last().session_id == session_id,
        states.last().in_turn <==> turn_is_open(ops),
        states.last().session_started <==> was_sent(ops),
        states.last().session_ended <==> was_closed(ops),
        turn_is_open(ops) ==> {
            let turn = states.last().turn;
            &&& turn.previous_response_id == last_ancestor(ops)
            &&& turn.response_id == last_told(ops, |op: SessionOp| response_told(op))
            &&& turn.status == last_told(ops, |op: SessionOp| status_told(op))
            &&& turn.tokens_in == last_told(ops, |op: SessionOp| input_told(op))
            &&& turn.tokens_out == last_told(ops, |op: SessionOp| output_told(op))
            &&& turn.hosted_tool_calls == 0
        },
    decreases ops.len(),
{
    if ops.len() > 0 {
        crate::session_envelope::lemma_run_shortened(policy, states, ops, outputs);
        lemma_turn_is_what_was_told(
            policy,
            conversation_id,
            model,
            session_id,
            states.drop_last(),
            ops.drop_last(),
            outputs.drop_last(),
        );
    }
}

proof fn lemma_where_it_stands<R: RedactionPolicy>(
    policy: R,
    state: crate::responses_session::SessionView,
    op: SessionOp,
    emissions: Seq<crate::emit::EmissionView>,
    next: crate::responses_session::SessionView,
    i: int,
)
    requires
        crate::session_envelope::may_step(policy, state, op, emissions, next),
        0 <= i < emissions.len(),
    ensures
        emissions[i].conversation_id == state.conversation_id,
        match emissions[i].kind {
            crate::event::KindView::ResponseTurnCompleted { .. } => {
                let ending = match op {
                    SessionOp::SendError { .. } => state.with_send_error(),
                    SessionOp::Event { event, .. } => state.with_event(event),
                    _ => state,
                };
                &&& state.in_turn
                &&& emissions[i].kind == ending.turn_completed(op.moment())
                &&& op matches SessionOp::Event { event, .. } ==> event is Done || event is Error
            },
            crate::event::KindView::ResponseTurnStarted { session_id: session, previous_response_id } => {
                &&& op matches SessionOp::Send { previous_response_id: sent, .. }
                    && previous_response_id == sent
                &&& session == state.session_id
                &&& i == emissions.len() - 1
            },
            crate::event::KindView::ResponseSessionStarted { model, session_id: session } => {
                &&& op is Send
                &&& model == state.model
                &&& session == state.session_id
            },
            crate::event::KindView::ResponseSessionEnded { session_id: session, reason } => {
                &&& op matches SessionOp::Close { reason: given, .. } && reason == given
                &&& session == state.session_id
            },
            crate::event::KindView::ToolHostedInvoked { .. } => op matches SessionOp::Event { event, .. }
                && event is Done,
            crate::event::KindView::ToolHostedCompleted { .. } => op matches SessionOp::Event { event, .. }
                && event is Done,
            _ => false,
        },
{
    if let SessionOp::Event { event, now } = op {
        if let crate::responses_session::SessionEventView::Done { response } = event {
            let updated = state.with_event(event);
            let calls = crate::responses_extract::hosted_calls(
                crate::responses_extract::output_items(response),
            );
            let hosted = choose|hosted: Seq<crate::emit::EmissionView>| #[trigger]
                crate::responses_extract::emits_pairs(
                    policy,
                    state.conversation_id,
                    calls,
                    updated.turn.response_id,
                    hosted,
                ) && emissions == hosted + updated.finalize_emissions(now);
            if i < hosted.len() {
                assert(hosted[i] == emissions[i]);
                let call = calls[i / 2];
                assert(hosted[2 * (i / 2)].kind is ToolHostedInvoked);
                assert(hosted[2 * (i / 2) + 1].kind is ToolHostedCompleted);
                assert(i == 2 * (i / 2) || i == 2 * (i / 2) + 1);
            }
        }
    }
}

/// What the last step of any run emits, told from what happened. Every event
/// stands in the conversation of the session. A `response.turn_completed`
/// completes a turn that was open, with the id of the session, the chain ancestor
/// that its send named, the status, response and usage that were told of it,
/// `response.done` before the last chunk, and the number of hosted calls in the
/// payload. A `response.turn_started` comes of a send and names its ancestor; a
/// `response.session_started` comes of a send and names the model; a
/// `response.session_ended` comes of a close and gives its reason.
pub proof fn lemma_emissions_say_what_was_told<R: RedactionPolicy>(
    policy: R,
    conversation_id: Seq<char>,
    model: Seq<char>,
    session_id: Seq<char>,
    states: Seq<crate::responses_session::SessionView>,
    ops: Seq<SessionOp>,
    outputs: Seq<Seq<crate::emit::EmissionView>>,
    i: int,
)
    requires
        crate::session_envelope::run(policy, states, ops, outputs),
        states[0] == crate::responses_session::fresh_session(conversation_id, model, session_id),
        ops.len() > 0,
        0 <= i < outputs.last().len(),
    ensures
        outputs.last()[i].conversation_id == conversation_id,
        match outputs.last()[i].kind {
            crate::event::KindView::ResponseTurnCompleted {
                session_id: session,
                response_id,
                previous_response_id,
                status,
                tokens_in,
                tokens_out,
                hosted_tool_calls,
                duration_ms,
            } => {
                let earlier = ops.drop_last();
                let op = ops.last();
                &&& turn_is_open(earlier)
                &&& session == session_id
                &&& previous_response_id == last_ancestor(earlier)
                &&& status == final_status(earlier, op)
                &&& match either(
                    response_done(op),
                    last_told(earlier, |op: SessionOp| response_told(op)),
                ) {
                    Some(id) => response_id == id,
                    None => response_id.len() == 0,
                }
                &&& tokens_in == either(
                    usage_done(op, "input_tokens"@),
                    last_told(earlier, |op: SessionOp| input_told(op)),
                )
                &&& tokens_out == either(
                    usage_done(op, "output_tokens"@),
                    last_told(earlier, |op: SessionOp| output_told(op)),
                )
                &&& match op {
                    SessionOp::Event {
                        event: crate::responses_session::SessionEventView::Done { response },
                        ..
                    } => {
                        let count = crate::responses_extract::hosted_calls(
                            crate::responses_extract::output_items(response),
                        ).len();
                        count <= usize::MAX ==> hosted_tool_calls == count
                    },
                    _ => hosted_tool_calls == 0,
                }
                &&& crate::session_envelope::last_send(earlier) matches Some(sent_at)
                    && duration_ms == Some(
                    crate::clock::elapsed_between(sent_at, op.moment()),
                )
            },
            crate::event::KindView::ResponseTurnStarted { session_id: session, previous_response_id } => {
                &&& ops.last() matches SessionOp::Send { previous_response_id: sent, .. }
                    && previous_response_id == sent
                &&& session == session_id
            },
            crate::event::KindView::ResponseSessionStarted { model: named, session_id: session } => {
                &&& ops.last() is Send
                &&& !was_sent(ops.drop_last())
                &&& named == model
                &&& session == session_id
            },
            crate::event::KindView::ResponseSessionEnded { session_id: session, reason } => {
                &&& ops.last() matches SessionOp::Close { reason: given, .. } && reason == given
                &&& was_sent(ops.drop_last())
                &&& !was_closed(ops.drop_last())
                &&& session == session_id
            },
            crate::event::KindView::ToolHostedInvoked { .. } => ops.last() matches SessionOp::Event {
                event,
                ..
            } && event is Done,
            crate::event::KindView::ToolHostedCompleted { .. } => ops.last() matches SessionOp::Event {
                event,
                ..
            } && event is Done,
            _ => false,
        },
{
    let n = ops.len() - 1;
    crate::session_envelope::lemma_run_shortened(policy, states, ops, outputs);
    lemma_turn_is_what_was_told(
        policy,
        conversation_id,
        model,
        session_id,
        states.drop_last(),
        ops.drop_last(),
        outputs.drop_last(),
    );
    crate::session_envelope::lemma_turns_are_timed_from_their_send(
        policy,
        conversation_id,
        model,
        session_id,
        states,
        ops,
        outputs,
        i,
    );
    lemma_where_it_stands(policy, states[n], ops[n], outputs[n], states[n + 1], i);
}

/// When a turn completes: where one was open and is sent anew, failed to send,
/// done, in error, or closed, the step says so exactly once; no other step does.
pub proof fn lemma_turns_complete<R: RedactionPolicy>(
    policy: R,
    conversation_id: Seq<char>,
    model: Seq<char>,
    session_id: Seq<char>,
    states: Seq<crate::responses_session::SessionView>,
    ops: Seq<SessionOp>,
    outputs: Seq<Seq<crate::emit::EmissionView>>,
)
    requires
        crate::session_envelope::run(policy, states, ops, outputs),
        states[0] == crate::responses_session::fresh_session(conversation_id, model, session_id),
        ops.len() > 0,
    ensures
        ({
            let earlier = ops.drop_last();
            let emitted = outputs.last();
            let completing = turn_is_open(earlier) && match ops.last() {
                SessionOp::Event { event, .. } => event is Done || event is Error,
                _ => true,
            };
            &&& completing <==> exists|i: int|
                0 <= i < emitted.len() && (#[trigger] emitted[i]).kind is ResponseTurnCompleted
            &&& forall|i: int, j: int|
                0 <= i < j < emitted.len() ==> !((#[trigger] emitted[i]).kind is ResponseTurnCompleted
                    && (#[trigger] emitted[j]).kind is ResponseTurnCompleted)
            &&& ops.last() is Send ==> emitted.len() > 0
                && emitted.last().kind is ResponseTurnStarted
            &&& ops.last() is Send && !was_sent(earlier) ==> exists|i: int|
                0 <= i < emitted.len() && (#[trigger] emitted[i]).kind is ResponseSessionStarted
            &&& ops.last() is Close && was_sent(earlier) && !was_closed(earlier) ==> emitted.len()
                > 0 && emitted.last().kind is ResponseSessionEnded
            &&& match ops.last() {
                SessionOp::Event {
                    event: crate::responses_session::SessionEventView::Done { response },
                    ..
                } => {
                    let calls = crate::responses_extract::hosted_calls(
                        crate::responses_extract::output_items(response),
                    );
                    &&& emitted.len() == 2 * calls.len() + (if turn_is_open(earlier) {
                        1int
                    } else {
                        0int
                    })
                    &&& turn_is_open(earlier) ==> crate::responses_extract::emits_pairs(
                        policy,
                        conversation_id,
                        calls,
                        either(
                            response_done(ops.last()),
                            last_told(earlier, |op: SessionOp| response_told(op)),
                        ),
                        emitted.drop_last(),
                    )
                    &&& !turn_is_open(earlier) ==> exists|response_id: Option<Seq<char>>|
                        #[trigger] crate::responses_extract::emits_pairs(
                            policy,
                            conversation_id,
                            calls,
                            response_id,
                            emitted,
                        ) && (response_done(ops.last()) is Some ==> response_id == response_done(
                            ops.last(),
                        ))
                },
                SessionOp::Event { event, .. } => event is Response || event is Item
                    ==> emitted.len() == 0,
                _ => true,
            }
        }),
{
    let n = ops.len() - 1;
    let op = ops[n];
    let state = states[n];
    let emitted = outputs[n];
    crate::session_envelope::lemma_run_shortened(policy, states, ops, outputs);
    lemma_turn_is_what_was_told(
        policy,
        conversation_id,
        model,
        session_id,
        states.drop_last(),
        ops.drop_last(),
        outputs.drop_last(),
    );
    match op {
        SessionOp::Send { previous_response_id, now } => {
            if state.in_turn {
                assert(emitted[0].kind is ResponseTurnCompleted);
            }
            if !state.session_started {
                let at = state.finalize_emissions(now).len() as int;
                assert(emitted[at].kind is ResponseSessionStarted);
            }
        },
        SessionOp::SendError { now } => {
            if state.in_turn {
                assert(emitted[0].kind is ResponseTurnCompleted);
            }
        },
        SessionOp::Close { reason, now } => {
            if state.in_turn {
                assert(emitted[0].kind is ResponseTurnCompleted);
            }
        },
        SessionOp::Event { event, now } => {
            match event {
                crate::responses_session::SessionEventView::Done { response } => {
                    let updated = state.with_event(event);
                    let calls = crate::responses_extract::hosted_calls(
                        crate::responses_extract::output_items(response),
                    );
                    let hosted = choose|hosted: Seq<crate::emit::EmissionView>| #[trigger]
                        crate::responses_extract::emits_pairs(
                            policy,
                            state.conversation_id,
                            calls,
                            updated.turn.response_id,
                            hosted,
                        ) && emitted == hosted + updated.finalize_emissions(now);
                    assert forall|i: int| 0 <= i < hosted.len() implies !(
                    #[trigger] emitted[i].kind is ResponseTurnCompleted) by {
                        assert(hosted[i] == emitted[i]);
                        let call = calls[i / 2];
                        assert(hosted[2 * (i / 2)].kind is ToolHostedInvoked);
                        assert(hosted[2 * (i / 2) + 1].kind is ToolHostedCompleted);
                        assert(i == 2 * (i / 2) || i == 2 * (i / 2) + 1);
                    }
                    if state.in_turn {
                        assert(emitted[hosted.len() as int].kind is ResponseTurnCompleted);
                        assert(emitted.drop_last() =~= hosted);
                    } else {
                        assert(emitted =~= hosted);
                    }
                },
                crate::responses_session::SessionEventView::Error => {
                    if state.in_turn {
                        assert(emitted[0].kind is ResponseTurnCompleted);
                    }
                },
                _ => {},
            }
        },
    }
}

/// A session that was just made has neither started nor ended, no turn of it is
/// open, and it is known by what it was made with.
pub proof fn lemma_fresh_sessions(
    conversation_id: Seq<char>,
    model: Seq<char>,
    session_id: Seq<char>,
)
    ensures
        ({
            let state = crate::responses_session::fresh_session(conversation_id, model, session_id);
            &&& state.conversation_id == conversation_id
            &&& state.model == model
            &&& state.session_id == session_id
            &&& !state.session_started
            &&& !state.session_ended
            &&& !state.in_turn
        }),
{
}

/// A session that its client closes ends with `client_close` where the close was
/// completed, and else with `transport_error`.
pub proof fn lemma_close_reasons(completed: bool, reason: &'static str)
    requires
        call_ensures(crate::responses_session::close_reason, (completed,), reason),
    ensures
        completed ==> reason@ == "client_close"@,
        !completed ==> reason@ == "transport_error"@,
{
}

/// The status of a chunk is that of its kind where the response is over, else
/// the one that the chunk reports.
pub proof fn lemma_chunk_statuses(reported: Option<Seq<char>>)
    ensures
        crate::responses_session::chunk_status(ResponseChunkKind::ResponseCompleted, reported)
            == Some("completed"@),
        crate::responses_session::chunk_status(ResponseChunkKind::ResponseFailed, reported) == Some(
            "failed"@,
        ),
        crate::responses_session::chunk_status(ResponseChunkKind::ResponseIncomplete, reported)
            == Some("incomplete"@),
        crate::responses_session::chunk_status(ResponseChunkKind::ResponseCreated, reported)
            == reported,
        crate::responses_session::chunk_status(ResponseChunkKind::ResponseInProgress, reported)
            == reported,
{
}

} // verus!

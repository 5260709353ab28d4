//! Observer of an OpenAI Responses WebSocket session.
//!
//! Such a session is a long-lived stateful socket: one
//! `response.session_started`, N `response.turn_*` pairs, one
//! `response.session_ended`. [`ResponsesSessionObserver`] is a pure state
//! machine, driven by the caller, that turns what happens on the socket into
//! these events.
//!
//! # Hosted tools
//!
//! On every [`SessionEvent::Done`] the observer runs the hosted-tool
//! extraction against the raw response payload, the only one that still holds
//! `web_search_call` / `file_search_call` / `computer_use_call` /
//! `code_interpreter_call` items.
//!
//! # Turn finalization
//!
//! The observer defers `response.turn_completed` until either:
//!
//! 1. a [`SessionEvent::Done`] arrives — preferred, gives the raw `output[]`
//!    so hosted-tool extraction has data to work with;
//! 2. a [`SessionEvent::Error`] arrives — fatal for the turn;
//! 3. the caller invokes [`ResponsesSessionObserver::observe_send`] for
//!    the next turn or [`ResponsesSessionObserver::observe_close`] —
//!    safety net for callers that read only a terminal
//!    [`SessionEvent::Response`] and never poll for `Done`.
//!
//! Deferring this way keeps the `hosted_tool_calls` count accurate when
//! `Done` is consumed, and never *omits* the event when the caller
//! short-circuits before `Done`.

use std::time::Instant;

use serde_json::Value;

use vstd::prelude::*;

use crate::clock::{instant_now, millis_between};
use crate::emit::Emission;
use crate::event::EventKind;
use crate::json::{member_str, member_u64, value_member};
use crate::redaction::{IdentityRedaction, RedactionPolicy};
use crate::responses_extract::{extract_hosted_tools, hosted_emissions};
use crate::text::{copy_option, own_option};

verus! {

/// Kind of a response lifecycle chunk.
#[derive(Debug, Clone, Copy, PartialEq, Eq, Structural)]
pub enum ResponseChunkKind {
    /// `response.created`
    ResponseCreated,
    /// `response.in_progress`
    ResponseInProgress,
    /// `response.completed`
    ResponseCompleted,
    /// `response.failed`
    ResponseFailed,
    /// `response.incomplete`
    ResponseIncomplete,
}

/// What the observer reads of a response lifecycle chunk.
#[derive(Debug, PartialEq)]
pub struct ResponseChunk {
    /// Kind of the chunk.
    pub kind: ResponseChunkKind,
    /// Identifier of the response.
    pub response_id: String,
    /// Wire name of the status that the response carries, where it has one.
    pub status: Option<String>,
    /// Token usage, where the chunk reports it.
    pub usage: Option<TurnUsage>,
}

/// Token usage of one turn.
#[derive(Debug, Clone, Copy, PartialEq, Eq, Structural)]
pub struct TurnUsage {
    /// Input tokens.
    pub input_tokens: u64,
    /// Output tokens.
    pub output_tokens: u64,
}

/// A server event of a Responses WebSocket session.
#[derive(Debug, PartialEq)]
pub enum SessionEvent {
    /// A response lifecycle event such as `response.created` or
    /// `response.completed`.
    Response(ResponseChunk),
    /// A `response.done` event with its raw payload.
    Done(Value),
    /// A protocol-level error event.
    Error,
    /// A streaming item or delta event.
    Item,
}

/// The content of a [`SessionEvent`].
#[verifier::ext_equal]
pub enum SessionEventView {
    Response {
        kind: ResponseChunkKind,
        response_id: Seq<char>,
        status: Option<Seq<char>>,
        usage: Option<TurnUsage>,
    },
    Done { response: Value },
    Error,
    Item,
}

impl View for SessionEvent {
    type V = SessionEventView;

    open spec fn view(&self) -> SessionEventView {
        match self {
            SessionEvent::Response(chunk) => SessionEventView::Response {
                kind: chunk.kind,
                response_id: chunk.response_id@,
                status: chunk.status.deep_view(),
                usage: chunk.usage,
            },
            SessionEvent::Done(response) => SessionEventView::Done { response: *response },
            SessionEvent::Error => SessionEventView::Error,
            SessionEvent::Item => SessionEventView::Item,
        }
    }
}

/// The status that a chunk settles on: the one its kind stands for, or else
/// the one that the response carries.
pub open spec fn chunk_status(kind: ResponseChunkKind, reported: Option<Seq<char>>) -> Option<
    Seq<char>,
> {
    match kind {
        ResponseChunkKind::ResponseCompleted => Some("completed"@),
        ResponseChunkKind::ResponseFailed => Some("failed"@),
        ResponseChunkKind::ResponseIncomplete => Some("incomplete"@),
        ResponseChunkKind::ResponseCreated => reported,
        ResponseChunkKind::ResponseInProgress => reported,
    }
}

/// Reads the status that a chunk settles on.
pub fn response_status_string(kind: ResponseChunkKind, fallback: &Option<String>) -> (status:
    Option<String>)
    ensures
        status.deep_view() == chunk_status(kind, fallback.deep_view()),
{
    match kind {
        ResponseChunkKind::ResponseCompleted => Some("completed".to_owned()),
        ResponseChunkKind::ResponseFailed => Some("failed".to_owned()),
        ResponseChunkKind::ResponseIncomplete => Some("incomplete".to_owned()),
        ResponseChunkKind::ResponseCreated | ResponseChunkKind::ResponseInProgress => copy_option(
            fallback,
        ),
    }
}

/// The reason recorded when a session is closed by its client: whether the
/// close handshake completed.
pub fn close_reason(completed: bool) -> (reason: &'static str)
    ensures
        reason@ == (if completed {
            "client_close"@
        } else {
            "transport_error"@
        }),
{
    if completed {
        "client_close"
    } else {
        "transport_error"
    }
}

/// What has been gathered of the current turn.
#[verifier::ext_equal]
pub struct TurnView {
    pub previous_response_id: Option<Seq<char>>,
    pub response_id: Option<Seq<char>>,
    pub status: Option<Seq<char>>,
    pub tokens_in: Option<u64>,
    pub tokens_out: Option<u64>,
    pub hosted_tool_calls: usize,
}

/// The state of a [`ResponsesSessionObserver`], without its policy.
#[verifier::ext_equal]
pub struct SessionView {
    pub conversation_id: Seq<char>,
    pub model: Seq<char>,
    pub session_id: Seq<char>,
    pub session_started: bool,
    pub session_ended: bool,
    pub in_turn: bool,
    pub started_at: Option<Instant>,
    pub turn: TurnView,
}

/// A turn of which nothing is known but its chain ancestor.
pub open spec fn fresh_turn(previous_response_id: Option<Seq<char>>) -> TurnView {
    TurnView {
        previous_response_id,
        response_id: None,
        status: None,
        tokens_in: None,
        tokens_out: None,
        hosted_tool_calls: 0,
    }
}

impl SessionView {
    /// An emission in the conversation of the session.
    pub open spec fn emission(self, kind: crate::event::KindView) -> crate::emit::EmissionView {
        crate::emit::EmissionView { conversation_id: self.conversation_id, kind }
    }

    /// The time from the start of the current turn to `now`, and `0` where no
    /// turn has started.
    pub open spec fn elapsed(self, now: Instant) -> u64 {
        match self.started_at {
            Some(started_at) => crate::clock::elapsed_between(started_at, now),
            None => 0,
        }
    }

    /// A start is held exactly while a turn is open.
    pub open spec fn timed(self) -> bool {
        self.started_at is Some <==> self.in_turn
    }

    /// The `response.turn_completed` of the current turn, which ends at `now`.
    pub open spec fn turn_completed(self, now: Instant) -> crate::event::KindView {
        crate::event::KindView::ResponseTurnCompleted {
            session_id: self.session_id,
            response_id: crate::event::or_empty(self.turn.response_id),
            previous_response_id: self.turn.previous_response_id,
            status: match self.turn.status {
                Some(status) => status,
                None => "completed"@,
            },
            tokens_in: self.turn.tokens_in,
            tokens_out: self.turn.tokens_out,
            hosted_tool_calls: self.turn.hosted_tool_calls,
            duration_ms: Some(self.elapsed(now)),
        }
    }

    /// The state once an open turn has been finalized.
    pub open spec fn finalized(self) -> SessionView {
        if self.in_turn {
            SessionView { in_turn: false, started_at: None, turn: fresh_turn(None), ..self }
        } else {
            self
        }
    }

    /// What finalizing an open turn at `now` emits.
    pub open spec fn finalize_emissions(self, now: Instant) -> Seq<crate::emit::EmissionView> {
        if self.in_turn {
            seq![self.emission(self.turn_completed(now))]
        } else {
            seq![]
        }
    }

    /// The state after a turn was announced at `now`.
    pub open spec fn after_send(
        self,
        previous_response_id: Option<Seq<char>>,
        now: Instant,
    ) -> SessionView {
        SessionView {
            session_started: true,
            in_turn: true,
            started_at: Some(now),
            turn: fresh_turn(previous_response_id),
            ..self
        }
    }

    /// What announcing a turn emits: the end of the turn before it, the start
    /// of the session on the first turn, and the start of the turn.
    pub open spec fn send_emissions(
        self,
        previous_response_id: Option<Seq<char>>,
        now: Instant,
    ) -> Seq<crate::emit::EmissionView> {
        let start = if self.session_started {
            seq![]
        } else {
            seq![
                self.emission(
                    crate::event::KindView::ResponseSessionStarted {
                        model: self.model,
                        session_id: self.session_id,
                    },
                ),
            ]
        };
        self.finalize_emissions(now) + start + seq![
            self.emission(
                crate::event::KindView::ResponseTurnStarted {
                    session_id: self.session_id,
                    previous_response_id,
                },
            ),
        ]
    }

    /// The open turn marked as failed to send.
    pub open spec fn with_send_error(self) -> SessionView {
        if self.in_turn {
            SessionView { turn: TurnView { status: Some("send_error"@), ..self.turn }, ..self }
        } else {
            self
        }
    }

    /// The state with what a `response.done` payload tells of the turn.
    pub open spec fn with_done(self, response: Value) -> SessionView {
        let usage = crate::json::json_member(response, "usage"@);
        let input = match usage {
            Some(usage) => crate::json::u64_member(usage, "input_tokens"@),
            None => None,
        };
        let output = match usage {
            Some(usage) => crate::json::u64_member(usage, "output_tokens"@),
            None => None,
        };
        let hosted = crate::responses_extract::hosted_calls(
            crate::responses_extract::output_items(response),
        ).len();
        SessionView {
            turn: TurnView {
                previous_response_id: self.turn.previous_response_id,
                response_id: or_else(
                    crate::json::str_member(response, "id"@),
                    self.turn.response_id,
                ),
                status: or_else(
                    crate::json::str_member(response, "status"@),
                    self.turn.status,
                ),
                tokens_in: or_else(input, self.turn.tokens_in),
                tokens_out: or_else(output, self.turn.tokens_out),
                hosted_tool_calls: if self.turn.hosted_tool_calls + hosted > usize::MAX {
                    usize::MAX
                } else {
                    (self.turn.hosted_tool_calls + hosted) as usize
                },
            },
            ..self
        }
    }

    /// The state with what a server event tells of the turn, before the turn
    /// is finalized.
    pub open spec fn with_event(self, event: SessionEventView) -> SessionView {
        match event {
            SessionEventView::Response { kind, response_id, status, usage } => SessionView {
                turn: TurnView {
                    response_id: Some(response_id),
                    status: or_else(chunk_status(kind, status), self.turn.status),
                    tokens_in: match usage {
                        Some(usage) => Some(usage.input_tokens),
                        None => self.turn.tokens_in,
                    },
                    tokens_out: match usage {
                        Some(usage) => Some(usage.output_tokens),
                        None => self.turn.tokens_out,
                    },
                    ..self.turn
                },
                ..self
            },
            SessionEventView::Done { response } => self.with_done(response),
            SessionEventView::Error => if self.in_turn {
                SessionView {
                    turn: TurnView {
                        status: or_else(self.turn.status, Some("error"@)),
                        ..self.turn
                    },
                    ..self
                }
            } else {
                self
            },
            SessionEventView::Item => self,
        }
    }

    /// The state after a server event.
    pub open spec fn after_event(self, event: SessionEventView) -> SessionView {
        if event is Done || event is Error {
            self.with_event(event).finalized()
        } else {
            self.with_event(event)
        }
    }

    /// Whether `emissions` may come of a server event: on `Done` the pairs of
    /// its hosted calls and then the end of the turn, on an error the end of
    /// the turn, else nothing.
    pub open spec fn may_emit_on_event<R: RedactionPolicy>(
        self,
        policy: R,
        event: SessionEventView,
        now: Instant,
        emissions: Seq<crate::emit::EmissionView>,
    ) -> bool {
        let updated = self.with_event(event);
        match event {
            SessionEventView::Done { response } => {
                let calls = crate::responses_extract::hosted_calls(
                    crate::responses_extract::output_items(response),
                );
                exists|hosted: Seq<crate::emit::EmissionView>| #[trigger]
                    crate::responses_extract::emits_pairs(
                        policy,
                        self.conversation_id,
                        calls,
                        updated.turn.response_id,
                        hosted,
                    ) && emissions == hosted + updated.finalize_emissions(now)
            },
            SessionEventView::Error => emissions == updated.finalize_emissions(now),
            _ => emissions == Seq::<crate::emit::EmissionView>::empty(),
        }
    }

    /// The state after the session was closed.
    pub open spec fn after_close(self) -> SessionView {
        let done = self.finalized();
        SessionView { session_ended: done.session_started || done.session_ended, ..done }
    }

    /// What closing the session emits: the end of an open turn, and the end
    /// of a session that has started and not ended.
    pub open spec fn close_emissions(self, reason: Seq<char>, now: Instant) -> Seq<
        crate::emit::EmissionView,
    > {
        let end = if self.session_started && !self.session_ended {
            seq![
                self.emission(
                    crate::event::KindView::ResponseSessionEnded {
                        session_id: self.session_id,
                        reason,
                    },
                ),
            ]
        } else {
            seq![]
        };
        self.finalize_emissions(now) + end
    }
}

/// `first` where it is there, else `second`.
pub open spec fn or_else<T>(first: Option<T>, second: Option<T>) -> Option<T> {
    match first {
        Some(value) => Some(value),
        None => second,
    }
}

/// State machine that translates what happens on a Responses WebSocket
/// session into `response.session_started`, `response.turn_started`,
/// `response.turn_completed`, `response.session_ended`,
/// `tool.hosted_invoked` and `tool.hosted_completed` events.
///
/// Every method returns the events that are due, in order.
#[derive(Debug)]
pub struct ResponsesSessionObserver<R: RedactionPolicy> {
    conversation_id: String,
    model: String,
    session_id: String,
    session_started: bool,
    session_ended: bool,
    in_turn: bool,
    turn_started_at: Option<Instant>,
    turn_previous_response_id: Option<String>,
    turn_response_id: Option<String>,
    turn_status: Option<String>,
    turn_tokens_in: Option<u64>,
    turn_tokens_out: Option<u64>,
    turn_hosted_tool_calls: usize,
    redaction: R,
}

impl<R: RedactionPolicy> View for ResponsesSessionObserver<R> {
    type V = SessionView;

    closed spec fn view(&self) -> SessionView {
        SessionView {
            conversation_id: self.conversation_id@,
            model: self.model@,
            session_id: self.session_id@,
            session_started: self.session_started,
            session_ended: self.session_ended,
            in_turn: self.in_turn,
            started_at: self.turn_started_at,
            turn: TurnView {
                previous_response_id: self.turn_previous_response_id.deep_view(),
                response_id: self.turn_response_id.deep_view(),
                status: self.turn_status.deep_view(),
                tokens_in: self.turn_tokens_in,
                tokens_out: self.turn_tokens_out,
                hosted_tool_calls: self.turn_hosted_tool_calls,
            },
        }
    }
}

/// The state of an observer that has seen nothing.
pub open spec fn fresh_session(
    conversation_id: Seq<char>,
    model: Seq<char>,
    session_id: Seq<char>,
) -> SessionView {
    SessionView {
        conversation_id,
        model,
        session_id,
        session_started: false,
        session_ended: false,
        in_turn: false,
        started_at: None,
        turn: fresh_turn(None),
    }
}

impl ResponsesSessionObserver<IdentityRedaction> {
    /// Construct an observer scoped to a single websocket session.
    ///
    /// `conversation_id` is stamped on every emitted event. `model` is
    /// recorded once on `response.session_started`. `session_id` is the
    /// producer-chosen stable identifier that correlates every
    /// `response.turn_*` and the eventual `response.session_ended` —
    /// pick something durable.
    #[must_use]
    pub fn new(conversation_id: &str, model: &str, session_id: &str) -> (observer: Self)
        ensures
            observer@ == fresh_session(conversation_id@, model@, session_id@),
            observer.policy() == IdentityRedaction,
    {
        ResponsesSessionObserver {
            conversation_id: conversation_id.to_owned(),
            model: model.to_owned(),
            session_id: session_id.to_owned(),
            session_started: false,
            session_ended: false,
            in_turn: false,
            turn_started_at: None,
            turn_previous_response_id: None,
            turn_response_id: None,
            turn_status: None,
            turn_tokens_in: None,
            turn_tokens_out: None,
            turn_hosted_tool_calls: 0,
            redaction: IdentityRedaction,
        }
    }
}

impl<R: RedactionPolicy> ResponsesSessionObserver<R> {
    /// The policy that scrubs hosted-tool payloads.
    pub closed spec fn policy(self) -> R {
        self.redaction
    }

    /// Install a [`RedactionPolicy`] that scrubs the payloads of hosted tools
    /// before they are emitted.
    #[must_use]
    pub fn with_redaction_policy<P: RedactionPolicy>(self, policy: P) -> (observer:
        ResponsesSessionObserver<P>)
        ensures
            observer@ == self@,
            observer.policy() == policy,
    {
        ResponsesSessionObserver {
            conversation_id: self.conversation_id,
            model: self.model,
            session_id: self.session_id,
            session_started: self.session_started,
            session_ended: self.session_ended,
            in_turn: self.in_turn,
            turn_started_at: self.turn_started_at,
            turn_previous_response_id: self.turn_previous_response_id,
            turn_response_id: self.turn_response_id,
            turn_status: self.turn_status,
            turn_tokens_in: self.turn_tokens_in,
            turn_tokens_out: self.turn_tokens_out,
            turn_hosted_tool_calls: self.turn_hosted_tool_calls,
            redaction: policy,
        }
    }

    /// Returns the session identifier this observer was constructed with.
    #[must_use]
    pub fn session_id(&self) -> (id: &str)
        ensures
            id@ == self@.session_id,
    {
        self.session_id.as_str()
    }

    /// Returns the model identifier this observer was constructed with.
    #[must_use]
    pub fn model(&self) -> (model: &str)
        ensures
            model@ == self@.model,
    {
        self.model.as_str()
    }

    /// Returns `true` once `response.session_started` has been emitted.
    #[must_use]
    pub fn session_started(&self) -> (started: bool)
        ensures
            started == self@.session_started,
    {
        self.session_started
    }

    /// Returns `true` once `response.session_ended` has been emitted.
    #[must_use]
    pub fn session_ended(&self) -> (ended: bool)
        ensures
            ended == self@.session_ended,
    {
        self.session_ended
    }

    /// Milliseconds from the start of the current turn to `now`, and `0` where
    /// none has started.
    fn turn_elapsed(&self, now: Instant) -> (elapsed_ms: u64)
        ensures
            elapsed_ms == self@.elapsed(now),
    {
        match self.turn_started_at {
            Some(started_at) => millis_between(started_at, now),
            None => 0,
        }
    }

    fn start_session_if_needed(&mut self, emissions: &mut Vec<Emission>)
        ensures
            final(self)@ == (SessionView { session_started: true, ..old(self)@ }),
            final(self).policy() == old(self).policy(),
            final(emissions).deep_view() == old(emissions).deep_view() + (if old(
                self,
            )@.session_started {
                seq![]
            } else {
                seq![
                    old(self)@.emission(
                        crate::event::KindView::ResponseSessionStarted {
                            model: old(self)@.model,
                            session_id: old(self)@.session_id,
                        },
                    ),
                ]
            }),
    {
        let ghost before = emissions.deep_view();
        if self.session_started {
            assert(emissions.deep_view() =~= before + seq![]);
            return;
        }
        emissions.push(
            Emission {
                conversation_id: self.conversation_id.clone(),
                kind: EventKind::ResponseSessionStarted {
                    model: self.model.clone(),
                    session_id: self.session_id.clone(),
                },
            },
        );
        self.session_started = true;
        assert(emissions.deep_view() =~= before + seq![
            old(self)@.emission(
                crate::event::KindView::ResponseSessionStarted {
                    model: old(self)@.model,
                    session_id: old(self)@.session_id,
                },
            ),
        ]);
    }

    fn finalize_turn(&mut self, now: Instant, emissions: &mut Vec<Emission>)
        ensures
            final(self)@ == old(self)@.finalized(),
            final(self).policy() == old(self).policy(),
            final(emissions).deep_view() == old(emissions).deep_view()
                + old(self)@.finalize_emissions(now),
    {
        let ghost before = emissions.deep_view();
        if !self.in_turn {
            assert(emissions.deep_view() =~= before + seq![]);
            return;
        }
        let response_id = match &self.turn_response_id {
            Some(id) => id.clone(),
            None => String::new(),
        };
        let status = match &self.turn_status {
            Some(status) => status.clone(),
            None => "completed".to_owned(),
        };
        emissions.push(
            Emission {
                conversation_id: self.conversation_id.clone(),
                kind: EventKind::ResponseTurnCompleted {
                    session_id: self.session_id.clone(),
                    response_id,
                    previous_response_id: copy_option(&self.turn_previous_response_id),
                    status,
                    tokens_in: self.turn_tokens_in,
                    tokens_out: self.turn_tokens_out,
                    hosted_tool_calls: self.turn_hosted_tool_calls,
                    duration_ms: Some(self.turn_elapsed(now)),
                },
            },
        );
        self.in_turn = false;
        self.turn_started_at = None;
        self.turn_previous_response_id = None;
        self.turn_response_id = None;
        self.turn_status = None;
        self.turn_tokens_in = None;
        self.turn_tokens_out = None;
        self.turn_hosted_tool_calls = 0;
        assert(emissions.deep_view() =~= before + old(self)@.finalize_emissions(now));
    }

    /// Notify the observer that a new turn is about to be sent on the
    /// underlying session. Emits `response.session_started` on first
    /// call (lazily) and `response.turn_started` for every call.
    ///
    /// If a previous turn is still open (e.g. the caller stopped
    /// reading after the terminal `Response` and never observed
    /// `Done`), it is finalized with `status = "completed"` before the
    /// new turn is announced. This keeps the
    /// `session_started → turn_started → turn_completed → ... → session_ended`
    /// envelope well-formed even when the caller short-circuits.
    pub fn observe_send(&mut self, previous_response_id: Option<&str>) -> (emissions: Vec<Emission>)
        ensures
            final(self).policy() == old(self).policy(),
            exists|now: Instant|
                {
                    &&& final(self)@ == old(self)@.after_send(
                        previous_response_id.deep_view(),
                        now,
                    )
                    &&& emissions.deep_view() == #[trigger] old(self)@.send_emissions(
                        previous_response_id.deep_view(),
                        now,
                    )
                },
    {
        let now = instant_now();
        self.observe_send_at(previous_response_id, now)
    }

    /// Like [`observe_send`](Self::observe_send), at the moment that the caller gives.
    pub fn observe_send_at(
        &mut self,
        previous_response_id: Option<&str>,
        now: Instant,
    ) -> (emissions: Vec<Emission>)
        ensures
            final(self)@ == old(self)@.after_send(previous_response_id.deep_view(), now),
            final(self).policy() == old(self).policy(),
            emissions.deep_view() == old(self)@.send_emissions(
                previous_response_id.deep_view(),
                now,
            ),
            crate::session_envelope::may_step(
                old(self).policy(),
                old(self)@,
                crate::session_envelope::SessionOp::Send {
                    previous_response_id: previous_response_id.deep_view(),
                    now,
                },
                emissions.deep_view(),
                final(self)@,
            ),
    {
        let mut emissions: Vec<Emission> = Vec::new();
        assert(emissions.deep_view() =~= seq![]);
        self.finalize_turn(now, &mut emissions);
        self.start_session_if_needed(&mut emissions);
        let ghost before = emissions.deep_view();
        self.in_turn = true;
        self.turn_started_at = Some(now);
        self.turn_previous_response_id = own_option(previous_response_id);
        self.turn_response_id = None;
        self.turn_status = None;
        self.turn_tokens_in = None;
        self.turn_tokens_out = None;
        self.turn_hosted_tool_calls = 0;
        emissions.push(
            Emission {
                conversation_id: self.conversation_id.clone(),
                kind: EventKind::ResponseTurnStarted {
                    session_id: self.session_id.clone(),
                    previous_response_id: copy_option(&self.turn_previous_response_id),
                },
            },
        );
        proof {
            let start = old(self)@.emission(
                crate::event::KindView::ResponseTurnStarted {
                    session_id: old(self)@.session_id,
                    previous_response_id: previous_response_id.deep_view(),
                },
            );
            assert(emissions.deep_view() =~= before + seq![start]);
            assert(emissions.deep_view() =~= old(self)@.send_emissions(
                previous_response_id.deep_view(),
                now,
            ));
        }
        emissions
    }

    /// Notify the observer that sending on the underlying session returned an
    /// error. Finalizes the open turn with `status = "send_error"` so the
    /// lifecycle stays well-formed.
    pub fn observe_send_error(&mut self) -> (emissions: Vec<Emission>)
        ensures
            final(self)@ == old(self)@.with_send_error().finalized(),
            final(self).policy() == old(self).policy(),
            exists|now: Instant|
                emissions.deep_view() == #[trigger] old(
                    self,
                )@.with_send_error().finalize_emissions(now),
    {
        let now = instant_now();
        self.observe_send_error_at(now)
    }

    /// Like [`observe_send_error`](Self::observe_send_error), at the moment that the caller gives.
    pub fn observe_send_error_at(&mut self, now: Instant) -> (emissions: Vec<Emission>)
        ensures
            final(self)@ == old(self)@.with_send_error().finalized(),
            final(self).policy() == old(self).policy(),
            emissions.deep_view() == old(self)@.with_send_error().finalize_emissions(now),
            crate::session_envelope::may_step(
                old(self).policy(),
                old(self)@,
                crate::session_envelope::SessionOp::SendError { now },
                emissions.deep_view(),
                final(self)@,
            ),
    {
        let mut emissions: Vec<Emission> = Vec::new();
        assert(emissions.deep_view() =~= seq![]);
        if self.in_turn {
            self.turn_status = Some("send_error".to_owned());
            self.finalize_turn(now, &mut emissions);
        }
        assert(emissions.deep_view() =~= old(self)@.with_send_error().finalize_emissions(
            now,
        ));
        emissions
    }

    /// Notify the observer of a single server event. Accumulates the
    /// terminal `response_id`, status, and token usage for the in-flight
    /// turn; on `Done` runs hosted-tool extraction against the raw
    /// `response` value and emits the matching `tool.hosted_*` events;
    /// finalizes the turn on `Done` / `Error`.
    pub fn observe_event(&mut self, event: &SessionEvent) -> (emissions: Vec<Emission>)
        ensures
            final(self)@ == old(self)@.after_event(event@),
            final(self).policy() == old(self).policy(),
            exists|now: Instant| #[trigger]
                old(self)@.may_emit_on_event(
                    old(self).policy(),
                    event@,
                    now,
                    emissions.deep_view(),
                ),
    {
        let now = instant_now();
        self.observe_event_at(event, now)
    }

    /// Like [`observe_event`](Self::observe_event), at the moment that the caller gives.
    pub fn observe_event_at(&mut self, event: &SessionEvent, now: Instant) -> (emissions: Vec<
        Emission,
    >)
        ensures
            final(self)@ == old(self)@.after_event(event@),
            final(self).policy() == old(self).policy(),
            old(self)@.may_emit_on_event(
                old(self).policy(),
                event@,
                now,
                emissions.deep_view(),
            ),
            crate::session_envelope::may_step(
                old(self).policy(),
                old(self)@,
                crate::session_envelope::SessionOp::Event { event: event@, now },
                emissions.deep_view(),
                final(self)@,
            ),
    {
        match event {
            SessionEvent::Response(chunk) => {
                self.turn_response_id = Some(chunk.response_id.clone());
                let status = response_status_string(chunk.kind, &chunk.status);
                if status.is_some() {
                    self.turn_status = status;
                }
                if let Some(usage) = &chunk.usage {
                    self.turn_tokens_in = Some(usage.input_tokens);
                    self.turn_tokens_out = Some(usage.output_tokens);
                }
                // Wait for Done before finalizing so hosted-tool
                // extraction has the raw `output[]` array.
                let emissions: Vec<Emission> = Vec::new();
                assert(emissions.deep_view() =~= seq![]);
                emissions
            },
            SessionEvent::Done(response) => {
                self.read_done(response);
                let hosted = extract_hosted_tools(response);
                self.count_hosted(hosted.len());
                let mut emissions = hosted_emissions(
                    self.conversation_id.as_str(),
                    hosted,
                    &self.turn_response_id,
                    &self.redaction,
                );
                assert(self@ == old(self)@.with_done(*response));
                self.finalize_turn(now, &mut emissions);
                emissions
            },
            SessionEvent::Error => {
                let mut emissions: Vec<Emission> = Vec::new();
                assert(emissions.deep_view() =~= seq![]);
                if self.in_turn {
                    if self.turn_status.is_none() {
                        self.turn_status = Some("error".to_owned());
                    }
                    assert(self@ == old(self)@.with_event(event@));
                    self.finalize_turn(now, &mut emissions);
                }
                assert(emissions.deep_view() =~= old(self)@.with_event(event@).finalize_emissions(
                    now,
                ));
                emissions
            },
            SessionEvent::Item => {
                let emissions: Vec<Emission> = Vec::new();
                assert(emissions.deep_view() =~= seq![]);
                emissions
            },
        }
    }

    /// Takes over identifier, status and usage from a `response.done` payload.
    fn read_done(&mut self, response: &Value)
        ensures
            final(self)@ == (SessionView {
                turn: TurnView {
                    hosted_tool_calls: old(self)@.turn.hosted_tool_calls,
                    ..old(self)@.with_done(*response).turn
                },
                ..old(self)@
            }),
            final(self).policy() == old(self).policy(),
    {
        let response_id = member_str(response, "id");
        if response_id.is_some() {
            self.turn_response_id = own_option(response_id);
        }
        let status = member_str(response, "status");
        if status.is_some() {
            self.turn_status = own_option(status);
        }
        if let Some(usage) = value_member(response, "usage") {
            let input = member_u64(usage, "input_tokens");
            if input.is_some() {
                self.turn_tokens_in = input;
            }
            let output = member_u64(usage, "output_tokens");
            if output.is_some() {
                self.turn_tokens_out = output;
            }
        }
    }

    /// Adds to the hosted calls of the turn, saturating.
    fn count_hosted(&mut self, count: usize)
        ensures
            final(self)@ == (SessionView {
                turn: TurnView {
                    hosted_tool_calls: if old(self)@.turn.hosted_tool_calls + count > usize::MAX {
                        usize::MAX
                    } else {
                        (old(self)@.turn.hosted_tool_calls + count) as usize
                    },
                    ..old(self)@.turn
                },
                ..old(self)@
            }),
            final(self).policy() == old(self).policy(),
    {
        let calls: usize = self.turn_hosted_tool_calls;
        self.turn_hosted_tool_calls = if calls > usize::MAX - count {
            usize::MAX
        } else {
            calls + count
        };
    }

    /// Notify the observer that the underlying session has been closed
    /// (clean handshake, transport error, or caller-driven shutdown).
    /// Finalizes any in-flight turn, then emits
    /// `response.session_ended` once. `reason` is recorded verbatim on
    /// the event (e.g. `"client_close"`, `"transport_error"`,
    /// `"response_failed"`).
    pub fn observe_close(&mut self, reason: &str) -> (emissions: Vec<Emission>)
        ensures
            final(self)@ == old(self)@.after_close(),
            final(self).policy() == old(self).policy(),
            exists|now: Instant|
                emissions.deep_view() == #[trigger] old(self)@.close_emissions(reason@, now),
    {
        let now = instant_now();
        self.observe_close_at(reason, now)
    }

    /// Like [`observe_close`](Self::observe_close), at the moment that the caller gives.
    pub fn observe_close_at(&mut self, reason: &str, now: Instant) -> (emissions: Vec<
        Emission,
    >)
        ensures
            final(self)@ == old(self)@.after_close(),
            final(self).policy() == old(self).policy(),
            emissions.deep_view() == old(self)@.close_emissions(reason@, now),
            crate::session_envelope::may_step(
                old(self).policy(),
                old(self)@,
                crate::session_envelope::SessionOp::Close { reason: reason@, now },
                emissions.deep_view(),
                final(self)@,
            ),
    {
        let mut emissions: Vec<Emission> = Vec::new();
        assert(emissions.deep_view() =~= seq![]);
        self.finalize_turn(now, &mut emissions);
        if self.session_started && !self.session_ended {
            let ghost before = emissions.deep_view();
            emissions.push(
                Emission {
                    conversation_id: self.conversation_id.clone(),
                    kind: EventKind::ResponseSessionEnded {
                        session_id: self.session_id.clone(),
                        reason: reason.to_owned(),
                    },
                },
            );
            self.session_ended = true;
            assert(emissions.deep_view() =~= before.push(emissions@.last()@));
        }
        assert(emissions.deep_view() =~= old(self)@.close_emissions(reason@, now));
        emissions
    }
}

} // verus!

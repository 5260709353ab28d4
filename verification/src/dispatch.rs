//! [`DispatchObserveHook`]: events of the kernel-direct dispatch path.
//!
//! The [`crate::TelemetryHook`] only fires when the caller drives tool
//! invocations through a Rig agent. Callers that hand-build invocations for a
//! `rig-compose` kernel never trigger that path. This hook closes that gap
//! with the same event shape and `call_id` correlation:
//!
//! - `before_invocation` emits `tool.invoked`.
//! - `after_invocation_with_outcome` emits `tool.completed` paired by
//!   `call_id`.
//! - Hook-provided skip results emit `tool.skipped` with the dispatch
//!   outcome reason when available. If this observer did not see
//!   `before_invocation` because an earlier hook skipped, it first emits a
//!   synthetic `tool.invoked` so the `call_id` remains pairable.
//! - `on_invocation_error` emits `tool.terminated` paired by `call_id`
//!   for the invocation that just failed.

use std::sync::Arc;
use std::time::Instant;

use serde_json::Value;

use vstd::prelude::*;

use crate::clock::{instant_now, millis_between};
use crate::emit::{next_tick, Emission, SequenceCounter};
use crate::event::{EventKind, PAYLOAD_TRUNCATE_BYTES};
use crate::float::Float64;
use crate::json::value_text;
use crate::redaction::{carry_args, carry_result, IdentityRedaction, RedactionPolicy};
use crate::text::decimal_text;

verus! {

/// How a dispatched invocation ended.
#[derive(Debug, PartialEq, Eq)]
pub enum ToolInvocationOutcome {
    /// The tool body ran and produced the result.
    Completed,
    /// A hook supplied a synthetic skip result instead of invoking the tool.
    Skipped {
        /// Optional human-readable reason the tool body was not invoked.
        reason: Option<String>,
    },
}

/// The content of a [`ToolInvocationOutcome`].
#[verifier::ext_equal]
pub enum OutcomeView {
    Completed,
    Skipped { reason: Option<Seq<char>> },
}

impl View for ToolInvocationOutcome {
    type V = OutcomeView;

    open spec fn view(&self) -> OutcomeView {
        match self {
            ToolInvocationOutcome::Completed => OutcomeView::Completed,
            ToolInvocationOutcome::Skipped { reason } => OutcomeView::Skipped {
                reason: reason.deep_view(),
            },
        }
    }
}

/// The call id of the `counter`-th invocation of hook `instance`:
/// `dispatch-{instance}-{counter}`.
pub open spec fn call_id_text(instance: u64, counter: u64) -> Seq<char> {
    "dispatch-"@ + crate::text::decimal(instance as nat) + "-"@ + crate::text::decimal(
        counter as nat,
    )
}

/// The state of a [`DispatchObserveHook`], without its policy. An invocation
/// in flight is held by its call id and the moment at which it began.
#[verifier::ext_equal]
pub struct DispatchView {
    pub conversation_id: Seq<char>,
    pub limit: usize,
    pub instance: u64,
    pub counter: u64,
    pub loop_counter: u64,
    pub kernel_started: bool,
    pub kernel_id: Option<Seq<char>>,
    pub in_flight: Option<(Seq<char>, Instant)>,
}

impl DispatchView {
    /// An emission in the conversation of the hook.
    pub open spec fn emission(self, kind: crate::event::KindView) -> crate::emit::EmissionView {
        crate::emit::EmissionView { conversation_id: self.conversation_id, kind }
    }

    /// The call id that the next invocation gets.
    pub open spec fn next_id(self) -> Seq<char> {
        call_id_text(self.instance, self.counter)
    }

    /// The state once the next call id was handed out.
    pub open spec fn after_next_id(self) -> DispatchView {
        DispatchView { counter: crate::emit::following(self.counter), ..self }
    }

    /// Whether `emission` may announce the invocation of a tool under
    /// `call_id`.
    pub open spec fn may_announce<R: RedactionPolicy>(
        self,
        policy: R,
        tool_name: Seq<char>,
        args: Value,
        call_id: Seq<char>,
        emission: crate::emit::EmissionView,
    ) -> bool {
        exists|carried: (Seq<char>, bool)| #[trigger]
            crate::redaction::may_carry_args(
                policy,
                tool_name,
                crate::json::json_text(args),
                self.limit as nat,
                carried,
            ) && emission == self.emission(
                crate::redaction::invoked_kind(tool_name, None, call_id, carried),
            )
    }

    /// The call id under which the end of an invocation is reported: that of
    /// the invocation in flight, or else a new one.
    pub open spec fn ending_id(self) -> Seq<char> {
        match self.in_flight {
            Some((call_id, _)) => call_id,
            None => self.next_id(),
        }
    }

    /// The time from the begin of the invocation in flight to `now`, where one
    /// was seen to begin.
    pub open spec fn elapsed(self, now: Instant) -> Option<u64> {
        match self.in_flight {
            Some((_, began_at)) => Some(crate::clock::elapsed_between(began_at, now)),
            None => None,
        }
    }

    /// The state after an invocation began at `now`.
    pub open spec fn after_beginning(self, now: Instant) -> DispatchView {
        DispatchView { in_flight: Some((self.next_id(), now)), ..self.after_next_id() }
    }

    /// The state after the end of an invocation was reported.
    pub open spec fn after_ending(self) -> DispatchView {
        match self.in_flight {
            Some(_) => DispatchView { in_flight: None, ..self },
            None => self.after_next_id(),
        }
    }

    /// Whether `emissions` report the end of an invocation by `end`: where the
    /// invocation was not seen to begin, it is announced first.
    pub open spec fn may_end<R: RedactionPolicy>(
        self,
        policy: R,
        tool_name: Seq<char>,
        args: Value,
        end: crate::emit::EmissionView,
        emissions: Seq<crate::emit::EmissionView>,
    ) -> bool {
        match self.in_flight {
            Some(_) => emissions == seq![end],
            None => {
                &&& emissions.len() == 2
                &&& self.may_announce(policy, tool_name, args, self.next_id(), emissions[0])
                &&& emissions[1] == end
            },
        }
    }

    /// Whether `end` may report the outcome of an invocation that ends at
    /// `now`.
    pub open spec fn may_report<R: RedactionPolicy>(
        self,
        policy: R,
        tool_name: Seq<char>,
        output: Value,
        outcome: OutcomeView,
        now: Instant,
        end: crate::emit::EmissionView,
    ) -> bool {
        match outcome {
            OutcomeView::Completed => exists|carried: (Seq<char>, bool)| #[trigger]
                crate::redaction::may_carry_result(
                    policy,
                    tool_name,
                    crate::json::json_text(output),
                    self.limit as nat,
                    carried,
                ) && end == self.emission(
                    crate::redaction::completed_kind(
                        tool_name,
                        None,
                        self.ending_id(),
                        carried,
                        self.elapsed(now),
                    ),
                ),
            OutcomeView::Skipped { reason } => end == self.emission(
                crate::event::KindView::ToolSkipped {
                    tool_name,
                    call_id: self.ending_id(),
                    reason: match reason {
                        Some(reason) => reason,
                        None => "skipped"@,
                    },
                },
            ),
        }
    }

    /// The event that reports a terminated invocation.
    pub open spec fn terminated(self, tool_name: Seq<char>, reason: Seq<char>) ->
        crate::emit::EmissionView {
        self.emission(
            crate::event::KindView::ToolTerminated {
                tool_name,
                call_id: self.ending_id(),
                reason,
            },
        )
    }

    /// The number of the iteration that the next step begins.
    pub open spec fn next_iteration(self) -> u64 {
        if self.kernel_started {
            self.loop_counter
        } else {
            0
        }
    }

    /// The state after a step began.
    pub open spec fn after_step(self, kernel_id: Seq<char>) -> DispatchView {
        DispatchView {
            kernel_id: match self.kernel_id {
                Some(first) => Some(first),
                None => Some(kernel_id),
            },
            kernel_started: true,
            loop_counter: crate::emit::following(self.next_iteration()),
            ..self
        }
    }

    /// What a step emits: the start of the kernel on the first one, and the
    /// start of an iteration.
    pub open spec fn step_emissions(
        self,
        kernel_id: Seq<char>,
        skills: usize,
        tools: usize,
    ) -> Seq<crate::emit::EmissionView> {
        let start = if self.kernel_started {
            seq![]
        } else {
            seq![
                self.emission(
                    crate::event::KindView::ComposeKernelStart {
                        kernel_id,
                        skills_registered: Some(skills),
                        tools_registered: Some(tools),
                    },
                ),
            ]
        };
        start + seq![
            self.emission(
                crate::event::KindView::ComposeLoopIteration {
                    kernel_id,
                    iteration: self.next_iteration(),
                    skill_id: None,
                    confidence: None,
                },
            ),
        ]
    }
}

/// Hook that mirrors [`crate::TelemetryHook`]'s emission shape for
/// kernel-direct dispatch.
///
/// # Correlation
///
/// `call_id`s are synthesized as `dispatch-{instance}-{counter}` where
/// `instance` is a per-process unique id assigned at construction and
/// `counter` increments per invocation. The most recent in-flight
/// `call_id` is held alongside the invocation start time; the kernel
/// guarantees sequential dispatch, so at most one is pending at a time. The
/// start time is used to stamp `duration_ms` on the paired `tool.completed`.
#[derive(Debug)]
pub struct DispatchObserveHook<R: RedactionPolicy> {
    conversation_id: String,
    payload_truncate_bytes: usize,
    instance: u64,
    counter: u64,
    loop_counter: u64,
    kernel_started: bool,
    kernel_id_cache: Option<String>,
    in_flight: Option<(String, Instant)>,
    redaction: R,
}

impl<R: RedactionPolicy> View for DispatchObserveHook<R> {
    type V = DispatchView;

    closed spec fn view(&self) -> DispatchView {
        DispatchView {
            conversation_id: self.conversation_id@,
            limit: self.payload_truncate_bytes,
            instance: self.instance,
            counter: self.counter,
            loop_counter: self.loop_counter,
            kernel_started: self.kernel_started,
            kernel_id: self.kernel_id_cache.deep_view(),
            in_flight: match self.in_flight {
                Some(entry) => Some((entry.0@, entry.1)),
                None => None,
            },
        }
    }
}

impl DispatchObserveHook<IdentityRedaction> {
    /// Build a hook stamping events with `conversation_id` and the default
    /// payload truncation threshold. `instances` numbers the hooks of the
    /// process.
    pub fn new(instances: &mut SequenceCounter, conversation_id: &str) -> (hook: Self)
        ensures
            hook@ == (DispatchView {
                conversation_id: conversation_id@,
                limit: PAYLOAD_TRUNCATE_BYTES,
                instance: old(instances)@,
                counter: 0,
                loop_counter: 0,
                kernel_started: false,
                kernel_id: None,
                in_flight: None,
            }),
            hook.policy() == IdentityRedaction,
            final(instances)@ == crate::emit::following(old(instances)@),
    {
        let instance: u64 = next_tick(instances);
        DispatchObserveHook {
            conversation_id: conversation_id.to_owned(),
            payload_truncate_bytes: PAYLOAD_TRUNCATE_BYTES,
            instance,
            counter: 0,
            loop_counter: 0,
            kernel_started: false,
            kernel_id_cache: None,
            in_flight: None,
            redaction: IdentityRedaction,
        }
    }
}

impl<R: RedactionPolicy> DispatchObserveHook<R> {
    /// The policy that scrubs payloads.
    pub closed spec fn policy(self) -> R {
        self.redaction
    }

    /// Override the payload truncation threshold applied to inline args
    /// and tool results.
    #[must_use]
    pub fn with_payload_truncate_bytes(self, bytes: usize) -> (hook: Self)
        ensures
            hook@ == (DispatchView { limit: bytes, ..self@ }),
            hook.policy() == self.policy(),
    {
        DispatchObserveHook { payload_truncate_bytes: bytes, ..self }
    }

    /// Install a [`RedactionPolicy`] that scrubs inline args and tool results
    /// before they are truncated and emitted.
    #[must_use]
    pub fn with_redaction_policy<P: RedactionPolicy>(self, policy: P) -> (hook: DispatchObserveHook<
        P,
    >)
        ensures
            hook@ == self@,
            hook.policy() == policy,
    {
        DispatchObserveHook {
            conversation_id: self.conversation_id,
            payload_truncate_bytes: self.payload_truncate_bytes,
            instance: self.instance,
            counter: self.counter,
            loop_counter: self.loop_counter,
            kernel_started: self.kernel_started,
            kernel_id_cache: self.kernel_id_cache,
            in_flight: self.in_flight,
            redaction: policy,
        }
    }

    /// Wrap `self` in an [`Arc`] for sharing across threads or registries
    /// that want a `'static` reference.
    #[must_use]
    pub fn into_arc(self) -> (hook: Arc<Self>)
        ensures
            *hook == self,
    {
        Arc::new(self)
    }

    /// The number of this hook within its process.
    pub fn instance(&self) -> (instance: u64)
        ensures
            instance == self@.instance,
    {
        self.instance
    }

    /// Hands out the next call id.
    pub fn next_call_id(&mut self) -> (id: String)
        ensures
            id@ == old(self)@.next_id(),
            final(self)@ == old(self)@.after_next_id(),
            final(self).policy() == old(self).policy(),
    {
        let n: u64 = self.counter;
        self.counter = if n == u64::MAX {
            0
        } else {
            n + 1
        };
        let mut id = "dispatch-".to_owned();
        id.append(decimal_text(self.instance).as_str());
        id.append("-");
        id.append(decimal_text(n).as_str());
        id
    }

    /// Cache the kernel id seen on the first lifecycle event, for the
    /// shutdown event at the end.
    fn cache_kernel_id(&mut self, kernel_id: &str)
        ensures
            final(self)@ == (DispatchView {
                kernel_id: match old(self)@.kernel_id {
                    Some(first) => Some(first),
                    None => Some(kernel_id@),
                },
                ..old(self)@
            }),
            final(self).policy() == old(self).policy(),
    {
        if self.kernel_id_cache.is_none() {
            self.kernel_id_cache = Some(kernel_id.to_owned());
        }
    }

    /// Announces the invocation of a tool under `call_id`.
    fn emit_invoked(&self, tool_name: &str, args: &Value, call_id: &str) -> (emission: Emission)
        ensures
            self@.may_announce(self.policy(), tool_name@, *args, call_id@, emission@),
    {
        let args_raw = value_text(args);
        let (args_json, truncated) = carry_args(
            &self.redaction,
            tool_name,
            args_raw.as_str(),
            self.payload_truncate_bytes,
        );
        let ghost carried = (args_json@, truncated);
        assert(crate::redaction::may_carry_args(
            self.policy(),
            tool_name@,
            crate::json::json_text(*args),
            self@.limit as nat,
            carried,
        ));
        Emission {
            conversation_id: self.conversation_id.clone(),
            kind: EventKind::ToolInvoked {
                tool_name: tool_name.to_owned(),
                provider_call_id: None,
                call_id: call_id.to_owned(),
                args_json,
                truncated,
            },
        }
    }

    /// A tool is about to be invoked: announces the invocation and keeps it in
    /// flight.
    pub fn before_invocation(&mut self, tool_name: &str, args: &Value) -> (emission: Emission)
        ensures
            exists|now: Instant| final(self)@ == #[trigger] old(self)@.after_beginning(now),
            final(self).policy() == old(self).policy(),
            old(self)@.may_announce(
                old(self).policy(),
                tool_name@,
                *args,
                old(self)@.next_id(),
                emission@,
            ),
    {
        self.before_invocation_at(tool_name, args, instant_now())
    }

    /// Like [`before_invocation`](Self::before_invocation), at the moment that
    /// the caller gives.
    pub fn before_invocation_at(&mut self, tool_name: &str, args: &Value, now: Instant) -> (emission:
        Emission)
        ensures
            final(self)@ == old(self)@.after_beginning(now),
            final(self).policy() == old(self).policy(),
            old(self)@.may_announce(
                old(self).policy(),
                tool_name@,
                *args,
                old(self)@.next_id(),
                emission@,
            ),
            crate::dispatch_trace::may_step(
                old(self).policy(),
                old(self)@,
                crate::dispatch_trace::DispatchOp::Before { tool_name: tool_name@, args: *args, now },
                seq![emission@],
                final(self)@,
            ),
    {
        let call_id = self.next_call_id();
        let emission = self.emit_invoked(tool_name, args, call_id.as_str());
        self.in_flight = Some((call_id, now));
        emission
    }

    /// Time from the begin of the invocation in flight to `now`.
    fn in_flight_elapsed(&self, now: Instant) -> (elapsed_ms: Option<u64>)
        ensures
            elapsed_ms == self@.elapsed(now),
    {
        match &self.in_flight {
            Some(entry) => Some(millis_between(entry.1, now)),
            None => None,
        }
    }

    /// Takes the call id under which the end of an invocation is reported,
    /// announcing an invocation that was not seen to begin.
    fn call_id_for_end(&mut self, tool_name: &str, args: &Value, emissions: &mut Vec<Emission>) ->
        (call_id: String)
        requires
            old(emissions).len() == 0,
        ensures
            call_id@ == old(self)@.ending_id(),
            final(self)@ == old(self)@.after_ending(),
            final(self).policy() == old(self).policy(),
            match old(self)@.in_flight {
                Some(_) => final(emissions).len() == 0,
                None => {
                    &&& final(emissions).len() == 1
                    &&& old(self)@.may_announce(
                        old(self).policy(),
                        tool_name@,
                        *args,
                        old(self)@.next_id(),
                        final(emissions)[0]@,
                    )
                },
            },
    {
        match self.in_flight.take() {
            Some(entry) => entry.0,
            None => {
                let call_id = self.next_call_id();
                let announced = self.emit_invoked(tool_name, args, call_id.as_str());
                emissions.push(announced);
                call_id
            },
        }
    }

    /// An invocation ended with a result. Emits `tool.completed`, or
    /// `tool.skipped` for a hook-provided skip result.
    pub fn after_invocation_with_outcome(
        &mut self,
        tool_name: &str,
        args: &Value,
        output: &Value,
        outcome: &ToolInvocationOutcome,
    ) -> (emissions: Vec<Emission>)
        ensures
            final(self)@ == old(self)@.after_ending(),
            final(self).policy() == old(self).policy(),
            exists|now: Instant, end: crate::emit::EmissionView|
                {
                    &&& #[trigger] old(self)@.may_report(
                        old(self).policy(),
                        tool_name@,
                        *output,
                        outcome@,
                        now,
                        end,
                    )
                    &&& old(self)@.may_end(
                        old(self).policy(),
                        tool_name@,
                        *args,
                        end,
                        emissions.deep_view(),
                    )
                },
    {
        self.after_invocation_at(tool_name, args, output, outcome, instant_now())
    }

    /// Like [`after_invocation_with_outcome`](Self::after_invocation_with_outcome),
    /// at the moment that the caller gives.
    pub fn after_invocation_at(
        &mut self,
        tool_name: &str,
        args: &Value,
        output: &Value,
        outcome: &ToolInvocationOutcome,
        now: Instant,
    ) -> (emissions: Vec<Emission>)
        ensures
            final(self)@ == old(self)@.after_ending(),
            final(self).policy() == old(self).policy(),
            exists|end: crate::emit::EmissionView|
                {
                    &&& #[trigger] old(self)@.may_report(
                        old(self).policy(),
                        tool_name@,
                        *output,
                        outcome@,
                        now,
                        end,
                    )
                    &&& old(self)@.may_end(
                        old(self).policy(),
                        tool_name@,
                        *args,
                        end,
                        emissions.deep_view(),
                    )
                },
            crate::dispatch_trace::may_step(
                old(self).policy(),
                old(self)@,
                crate::dispatch_trace::DispatchOp::After {
                    tool_name: tool_name@,
                    args: *args,
                    output: *output,
                    outcome: outcome@,
                    now,
                },
                emissions.deep_view(),
                final(self)@,
            ),
    {
        let elapsed_ms = self.in_flight_elapsed(now);
        let mut emissions: Vec<Emission> = Vec::new();
        let call_id = self.call_id_for_end(tool_name, args, &mut emissions);
        let kind = match outcome {
            ToolInvocationOutcome::Completed => {
                let result_raw = value_text(output);
                let (result, truncated) = carry_result(
                    &self.redaction,
                    tool_name,
                    result_raw.as_str(),
                    self.payload_truncate_bytes,
                );
                let ghost carried = (result@, truncated);
                assert(crate::redaction::may_carry_result(
                    old(self).policy(),
                    tool_name@,
                    crate::json::json_text(*output),
                    old(self)@.limit as nat,
                    carried,
                ));
                EventKind::ToolCompleted {
                    tool_name: tool_name.to_owned(),
                    provider_call_id: None,
                    call_id,
                    result,
                    truncated,
                    duration_ms: elapsed_ms,
                }
            },
            ToolInvocationOutcome::Skipped { reason } => EventKind::ToolSkipped {
                tool_name: tool_name.to_owned(),
                call_id,
                reason: match reason {
                    Some(reason) => reason.clone(),
                    None => "skipped".to_owned(),
                },
            },
        };
        let end = Emission { conversation_id: self.conversation_id.clone(), kind };
        assert(old(self)@.may_report(
            old(self).policy(),
            tool_name@,
            *output,
            outcome@,
            now,
            end@,
        ));
        let ghost announced = emissions.deep_view();
        emissions.push(end);
        assert(emissions.deep_view() =~= announced.push(end@));
        assert(old(self)@.in_flight is Some ==> emissions.deep_view() =~= seq![end@]);
        proof {
            crate::dispatch_trace::lemma_end_is_a_step(
                old(self).policy(),
                old(self)@,
                tool_name@,
                *args,
                *output,
                outcome@,
                now,
                end@,
                emissions.deep_view(),
            );
        }
        emissions
    }

    /// An invocation failed, or a gate terminated the dispatch. Both map to
    /// `tool.terminated`; consumers can distinguish them by `reason`.
    pub fn on_invocation_error(&mut self, tool_name: &str, args: &Value, reason: &str) -> (emissions:
        Vec<Emission>)
        ensures
            final(self)@ == old(self)@.after_ending(),
            final(self).policy() == old(self).policy(),
            old(self)@.may_end(
                old(self).policy(),
                tool_name@,
                *args,
                old(self)@.terminated(tool_name@, reason@),
                emissions.deep_view(),
            ),
            crate::dispatch_trace::may_step(
                old(self).policy(),
                old(self)@,
                crate::dispatch_trace::DispatchOp::Failed {
                    tool_name: tool_name@,
                    args: *args,
                    reason: reason@,
                },
                emissions.deep_view(),
                final(self)@,
            ),
    {
        let mut emissions: Vec<Emission> = Vec::new();
        let call_id = self.call_id_for_end(tool_name, args, &mut emissions);
        let end = Emission {
            conversation_id: self.conversation_id.clone(),
            kind: EventKind::ToolTerminated {
                tool_name: tool_name.to_owned(),
                call_id,
                reason: reason.to_owned(),
            },
        };
        let ghost announced = emissions.deep_view();
        emissions.push(end);
        assert(emissions.deep_view() =~= announced.push(end@));
        assert(old(self)@.in_flight is Some ==> emissions.deep_view() =~= seq![end@]);
        emissions
    }

    /// An agent step begins. The first one emits `compose.kernel_start`; every
    /// one emits `compose.loop_iteration`, numbered from zero.
    pub fn before_step(&mut self, kernel_id: &str, skills: usize, tools: usize) -> (emissions: Vec<
        Emission,
    >)
        ensures
            final(self)@ == old(self)@.after_step(kernel_id@),
            final(self).policy() == old(self).policy(),
            emissions.deep_view() == old(self)@.step_emissions(kernel_id@, skills, tools),
            crate::dispatch_trace::may_step(
                old(self).policy(),
                old(self)@,
                crate::dispatch_trace::DispatchOp::Step { kernel_id: kernel_id@, skills, tools },
                emissions.deep_view(),
                final(self)@,
            ),
    {
        let mut emissions: Vec<Emission> = Vec::new();
        self.cache_kernel_id(kernel_id);
        if !self.kernel_started {
            self.kernel_started = true;
            self.loop_counter = 0;
            emissions.push(
                Emission {
                    conversation_id: self.conversation_id.clone(),
                    kind: EventKind::ComposeKernelStart {
                        kernel_id: kernel_id.to_owned(),
                        skills_registered: Some(skills),
                        tools_registered: Some(tools),
                    },
                },
            );
        }
        // One `compose.loop_iteration` event per agent step. Per-skill
        // resolution is reported via `compose.skill_resolved` only.
        let iteration: u64 = self.next_iteration();
        emissions.push(
            Emission {
                conversation_id: self.conversation_id.clone(),
                kind: EventKind::ComposeLoopIteration {
                    kernel_id: kernel_id.to_owned(),
                    iteration,
                    skill_id: None,
                    confidence: None,
                },
            },
        );
        assert(emissions.deep_view() =~= old(self)@.step_emissions(kernel_id@, skills, tools));
        emissions
    }

    fn next_iteration(&mut self) -> (iteration: u64)
        ensures
            iteration == old(self)@.loop_counter,
            final(self)@ == (DispatchView {
                loop_counter: crate::emit::following(old(self)@.loop_counter),
                ..old(self)@
            }),
            final(self).policy() == old(self).policy(),
    {
        let iteration: u64 = self.loop_counter;
        self.loop_counter = if iteration == u64::MAX {
            0
        } else {
            iteration + 1
        };
        iteration
    }

    /// A skill was considered. One that does not apply is reported as resolved
    /// with the unchanged confidence; one that applies is reported once it ran.
    pub fn before_skill(
        &self,
        kernel_id: &str,
        skill_id: &str,
        applies: bool,
        confidence: Float64,
    ) -> (out: Option<Emission>)
        ensures
            out.deep_view() == (if applies {
                None
            } else {
                Some(
                    self@.emission(
                        crate::event::KindView::ComposeSkillResolved {
                            kernel_id: kernel_id@,
                            skill_id: skill_id@,
                            applies: false,
                            delta: None,
                            confidence: Some(confidence),
                        },
                    ),
                )
            }),
    {
        if applies {
            return None;
        }
        Some(
            Emission {
                conversation_id: self.conversation_id.clone(),
                kind: EventKind::ComposeSkillResolved {
                    kernel_id: kernel_id.to_owned(),
                    skill_id: skill_id.to_owned(),
                    applies: false,
                    delta: None,
                    confidence: Some(confidence),
                },
            },
        )
    }

    /// A skill ran.
    pub fn after_skill(
        &self,
        kernel_id: &str,
        skill_id: &str,
        confidence_delta: Float64,
        confidence: Float64,
    ) -> (emission: Emission)
        ensures
            emission@ == self@.emission(
                crate::event::KindView::ComposeSkillResolved {
                    kernel_id: kernel_id@,
                    skill_id: skill_id@,
                    applies: true,
                    delta: Some(confidence_delta),
                    confidence: Some(confidence),
                },
            ),
    {
        Emission {
            conversation_id: self.conversation_id.clone(),
            kind: EventKind::ComposeSkillResolved {
                kernel_id: kernel_id.to_owned(),
                skill_id: skill_id.to_owned(),
                applies: true,
                delta: Some(confidence_delta),
                confidence: Some(confidence),
            },
        }
    }

    /// A step failed: a recovery event, not a kernel shutdown. The outer
    /// driver decides whether to keep the loop alive.
    pub fn on_step_error(&self, kernel_id: &str, reason: &str) -> (emission: Emission)
        ensures
            emission@ == self@.emission(
                crate::event::KindView::ComposeRecovery {
                    kernel_id: kernel_id@,
                    reason: reason@,
                    recovered: false,
                },
            ),
    {
        Emission {
            conversation_id: self.conversation_id.clone(),
            kind: EventKind::ComposeRecovery {
                kernel_id: kernel_id.to_owned(),
                reason: reason.to_owned(),
                recovered: false,
            },
        }
    }

    /// The hook is released. Emits `compose.kernel_shutdown` if the kernel
    /// actually started: the hook may have been built and never bound to an
    /// agent.
    pub fn shutdown(self) -> (out: Option<Emission>)
        ensures
            out.deep_view() == (if self@.kernel_started && self@.kernel_id is Some {
                Some(
                    self@.emission(
                        crate::event::KindView::ComposeKernelShutdown {
                            kernel_id: self@.kernel_id->0,
                            reason: "normal"@,
                        },
                    ),
                )
            } else {
                None
            }),
    {
        if !self.kernel_started {
            return None;
        }
        match self.kernel_id_cache {
            Some(kernel_id) => Some(
                Emission {
                    conversation_id: self.conversation_id,
                    kind: EventKind::ComposeKernelShutdown {
                        kernel_id,
                        reason: "normal".to_owned(),
                    },
                },
            ),
            None => None,
        }
    }
}

/// Call ids are unique: two invocations have the same id only if hook and
/// counter agree.
pub proof fn lemma_call_ids_are_unique(
    instance: u64,
    counter: u64,
    other_instance: u64,
    other_counter: u64,
)
    ensures
        call_id_text(instance, counter) == call_id_text(other_instance, other_counter) ==> instance
            == other_instance && counter == other_counter,
{
    let a = call_id_text(instance, counter);
    let b = call_id_text(other_instance, other_counter);
    if a == b {
        reveal_strlit("dispatch-");
        reveal_strlit("-");
        let ai = crate::text::decimal(instance as nat);
        let bi = crate::text::decimal(other_instance as nat);
        let ac = crate::text::decimal(counter as nat);
        let bc = crate::text::decimal(other_counter as nat);
        crate::text::lemma_decimal_digits(instance as nat);
        crate::text::lemma_decimal_digits(other_instance as nat);
        let prefix = "dispatch-"@.len() as int;
        if ai.len() < bi.len() {
            assert(a[prefix + ai.len()] == '-');
            assert(b[prefix + ai.len()] == bi[ai.len() as int]);
        } else if bi.len() < ai.len() {
            assert(b[prefix + bi.len()] == '-');
            assert(a[prefix + bi.len()] == ai[bi.len() as int]);
        } else {
            assert(a.subrange(prefix, prefix + ai.len()) =~= ai);
            assert(b.subrange(prefix, prefix + bi.len()) =~= bi);
            assert(a.skip(prefix + ai.len() + 1) =~= ac);
            assert(b.skip(prefix + bi.len() + 1) =~= bc);
            crate::text::lemma_decimal_is_injective(instance as nat, other_instance as nat);
            crate::text::lemma_decimal_is_injective(counter as nat, other_counter as nat);
        }
    }
}

} // verus!

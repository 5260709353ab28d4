//! Hosted-tool extractor for OpenAI Responses-style payloads.
//!
//! Provider-native hosted tools — OpenAI Responses `web_search`,
//! `file_search`, `computer_use`, `code_interpreter`, and future
//! Anthropic / Google equivalents — execute inside the provider's
//! infrastructure. They never fire `PromptHook::on_tool_call`, so they
//! are invisible to [`TelemetryHook`](crate::TelemetryHook).
//!
//! This module surfaces them as `tool.hosted_invoked` /
//! `tool.hosted_completed` event pairs by walking the raw JSON `output[]`
//! array of a finished Responses-API payload. The pair is correlated by
//! [`HostedToolCall::call_id`], which falls back to a deterministic synthetic
//! value (`"<tool_name>-<output_index>"`) when the provider omits an `id`.

use serde_json::Value;

use vstd::prelude::*;

use crate::emit::Emission;
use crate::event::{EventKind, PAYLOAD_TRUNCATE_BYTES};
use crate::json::{member_str, object_of, value_items, value_member, value_text};
use crate::redaction::{carry_args, carry_result, IdentityRedaction, RedactionPolicy};
use crate::text::{copy_option, decimal_text, own_option, same_text};

verus! {

/// A hosted-tool call extracted from a Responses-API JSON payload.
///
/// Use [`extract_hosted_tools`] to obtain a `Vec<HostedToolCall>` from a
/// raw payload, or [`emit_hosted_tools`] to walk a payload and obtain the
/// matching `tool.hosted_invoked` / `tool.hosted_completed` event pairs
/// directly.
#[non_exhaustive]
#[derive(Debug, Clone, PartialEq, Eq)]
pub struct HostedToolCall {
    /// Hosted-tool name with the trailing `_call` stripped — e.g.
    /// `"web_search"`, `"file_search"`, `"computer_use"`,
    /// `"code_interpreter"`. Unknown providers pass through verbatim
    /// (minus the suffix), so the extractor stays forward-compatible.
    pub tool_name: String,
    /// Provider-supplied call ID, when the payload includes one.
    pub provider_call_id: Option<String>,
    /// Stable correlation ID used to pair `tool.hosted_invoked` with
    /// `tool.hosted_completed`. Falls back to a synthetic
    /// `"<tool_name>-<output_index>"` when the provider omits an `id`.
    pub call_id: String,
    /// Provider-reported status (`"in_progress"`, `"completed"`,
    /// `"failed"`, ...). `None` when the payload omits it.
    pub status: Option<String>,
    /// Compact JSON-encoded view of the hosted-tool *inputs* — the
    /// fields the model handed the hosted tool. Pulled from the union
    /// of known input-bearing keys (`action`, `queries`, `query`,
    /// `code`, `input`, `arguments`, `container_id`, `parameters`).
    /// Empty string when none are present.
    pub args_json: String,
    /// JSON-encoded view of the hosted-tool *result*. Pulled from the
    /// union of known output-bearing keys (`output`, `results`,
    /// `result`, `output_text`). Empty string when none are present.
    pub result_json: String,
    /// The raw JSON sub-object as it appeared in `output[]`. Callers
    /// can dig further for provider-specific fields that the extractor
    /// does not model directly.
    pub raw: Value,
    /// Zero-based position in the `output[]` array. Useful as a
    /// fallback ordering key and for surfacing in diagnostics.
    pub output_index: usize,
}

/// The content of a [`HostedToolCall`].
#[verifier::ext_equal]
pub struct HostedView {
    pub tool_name: Seq<char>,
    pub provider_call_id: Option<Seq<char>>,
    pub call_id: Seq<char>,
    pub status: Option<Seq<char>>,
    pub args_json: Seq<char>,
    pub result_json: Seq<char>,
    pub raw: Value,
    pub output_index: nat,
}

impl View for HostedToolCall {
    type V = HostedView;

    open spec fn view(&self) -> HostedView {
        HostedView {
            tool_name: self.tool_name@,
            provider_call_id: self.provider_call_id.deep_view(),
            call_id: self.call_id@,
            status: self.status.deep_view(),
            args_json: self.args_json@,
            result_json: self.result_json@,
            raw: self.raw,
            output_index: self.output_index as nat,
        }
    }
}

impl DeepView for HostedToolCall {
    type V = HostedView;

    open spec fn deep_view(&self) -> HostedView {
        self@
    }
}

/// Keys whose values are inputs of a hosted tool, in the order in which they
/// are collected.
pub open spec fn input_key_names() -> Seq<Seq<char>> {
    seq![
        "action"@,
        "queries"@,
        "query"@,
        "code"@,
        "input"@,
        "arguments"@,
        "container_id"@,
        "parameters"@,
    ]
}

/// Keys whose values are outputs of a hosted tool, in the order in which they
/// are collected.
pub open spec fn output_key_names() -> Seq<Seq<char>> {
    seq!["output"@, "results"@, "result"@, "output_text"@]
}

fn input_keys() -> (keys: Vec<&'static str>)
    ensures
        keys.deep_view() == input_key_names(),
{
    let keys = vec![
        "action",
        "queries",
        "query",
        "code",
        "input",
        "arguments",
        "container_id",
        "parameters",
    ];
    assert(keys.deep_view() =~= input_key_names());
    keys
}

fn output_keys() -> (keys: Vec<&'static str>)
    ensures
        keys.deep_view() == output_key_names(),
{
    let keys = vec!["output", "results", "result", "output_text"];
    assert(keys.deep_view() =~= output_key_names());
    keys
}

/// The members of `item` under `keys`, in the order of the keys.
pub open spec fn picked(item: Value, keys: Seq<Seq<char>>) -> Seq<(Seq<char>, Value)>
    decreases keys.len(),
{
    if keys.len() == 0 {
        seq![]
    } else {
        let before = picked(item, keys.drop_last());
        match crate::json::json_member(item, keys.last()) {
            Some(member) => before.push((keys.last(), member)),
            None => before,
        }
    }
}

/// Compact JSON text of the members of `item` under `keys`, empty where there
/// are none.
pub open spec fn subset_text(item: Value, keys: Seq<Seq<char>>) -> Seq<char> {
    if picked(item, keys).len() == 0 {
        seq![]
    } else {
        crate::json::json_text(crate::json::json_object(picked(item, keys)))
    }
}

/// What is picked is what the item holds under the keys, and all of it.
pub proof fn lemma_picked_members(item: Value, keys: Seq<Seq<char>>)
    ensures
        forall|i: int|
            0 <= i < picked(item, keys).len() ==> {
                let (key, member) = #[trigger] picked(item, keys)[i];
                keys.contains(key) && crate::json::json_member(item, key) == Some(member)
            },
        forall|key: Seq<char>|
            keys.contains(key) && crate::json::json_member(item, key) is Some
                ==> #[trigger] crate::json::names_key(picked(item, keys), key),
    decreases keys.len(),
{
    if keys.len() > 0 {
        let shorter = keys.drop_last();
        let before = picked(item, shorter);
        let now = picked(item, keys);
        lemma_picked_members(item, shorter);
        assert forall|i: int| 0 <= i < now.len() implies {
            let (key, member) = #[trigger] now[i];
            keys.contains(key) && crate::json::json_member(item, key) == Some(member)
        } by {
            if i < before.len() {
                assert(now[i] == before[i]);
                let at = shorter.index_of(before[i].0);
                assert(keys[at] == now[i].0);
            } else {
                assert(keys[keys.len() - 1] == now[i].0);
            }
        }
        assert forall|key: Seq<char>|
            keys.contains(key) && crate::json::json_member(
                item,
                key,
            ) is Some implies #[trigger] crate::json::names_key(now, key) by {
            if key == keys.last() {
                assert(now[now.len() - 1].0 == key);
            } else {
                let at = keys.index_of(key);
                assert(shorter[at] == key);
                assert(crate::json::names_key(before, key));
                let i = choose|i: int| 0 <= i < before.len() && (#[trigger] before[i]).0 == key;
                assert(now[i] == before[i]);
            }
        }
    }
}

/// Whether the object made of the members of `item` under `names` holds under
/// each of them what `item` holds there, and nothing else.
pub open spec fn renders_members(item: Value, names: Seq<Seq<char>>) -> bool {
    picked(item, names).len() > 0 ==> forall|key: Seq<char>| #[trigger]
        crate::json::json_member(crate::json::json_object(picked(item, names)), key) == (
        if names.contains(key) {
            crate::json::json_member(item, key)
        } else {
            None
        })
}

/// Serializes a stable-ordered subset of `item`'s fields whose keys
/// appear in `keys`. Returns an empty string when no keys match.
///
/// The object that is serialized holds under each of the keys what `item`
/// holds there, and nothing else.
pub fn compact_json_subset(item: &Value, keys: &Vec<&str>) -> (text: String)
    ensures
        text@ == subset_text(*item, keys.deep_view()),
        picked(*item, keys.deep_view()).len() > 0 ==> forall|key: Seq<char>| #[trigger]
            crate::json::json_member(
                crate::json::json_object(picked(*item, keys.deep_view())),
                key,
            ) == (if keys.deep_view().contains(key) {
                crate::json::json_member(*item, key)
            } else {
                None
            }),
{
    let ghost names = keys.deep_view();
    let mut entries: Vec<(String, Value)> = Vec::new();
    let mut i: usize = 0;
    while i < keys.len()
        invariant
            i <= keys.len(),
            names == keys.deep_view(),
            crate::json::entry_views(entries@) == picked(*item, names.take(i as int)),
        decreases keys.len() - i,
    {
        let ghost before = entries@;
        assert(names.take(i + 1).drop_last() =~= names.take(i as int));
        assert(names.take(i + 1).last() == keys[i as int]@);
        if let Some(member) = value_member(item, keys[i]) {
            entries.push((keys[i].to_owned(), member.clone()));
        }
        proof {
            if entries@.len() > before.len() {
                assert(crate::json::entry_views(entries@) =~= crate::json::entry_views(before).push(
                    (keys[i as int]@, entries@.last().1),
                ));
            }
        }
        i += 1;
    }
    assert(names.take(i as int) =~= names);
    if entries.is_empty() {
        assert(picked(*item, names).len() == 0);
        return String::new();
    }
    let object = object_of(entries);
    proof {
        lemma_picked_members(*item, names);
        assert forall|key: Seq<char>| #[trigger] crate::json::json_member(object, key) == (
        if names.contains(key) {
            crate::json::json_member(*item, key)
        } else {
            None
        }) by {
            if let Some(member) = crate::json::json_member(object, key) {
                assert(picked(*item, names).contains((key, member)));
            }
        }
    }
    value_text(&object)
}

/// The name of the hosted tool that an item of the given `type` calls: any
/// type that ends in `_call` with something before it, other than a function
/// call.
pub open spec fn hosted_name(raw_type: Seq<char>) -> Option<Seq<char>> {
    if raw_type == "function_call"@ || raw_type == "function_call_output"@ {
        None
    } else if raw_type.len() > 5 && raw_type.skip(raw_type.len() - 5) == "_call"@ {
        Some(raw_type.take(raw_type.len() - 5))
    } else {
        None
    }
}

fn hosted_tool_name(raw_type: &str) -> (name: Option<&str>)
    ensures
        name.deep_view() == hosted_name(raw_type@),
{
    // `function_call` is the typed-tool path that already fires
    // `PromptHook::on_tool_call` — skip so we don't double-emit.
    if same_text(raw_type, "function_call") || same_text(raw_type, "function_call_output") {
        return None;
    }
    let len: usize = raw_type.unicode_len();
    if len <= 5 {
        return None;
    }
    let suffix = raw_type.substring_char(len - 5, len);
    assert(suffix@ =~= raw_type@.skip(len - 5));
    if same_text(suffix, "_call") {
        let name = raw_type.substring_char(0, len - 5);
        assert(name@ =~= raw_type@.take(len - 5));
        Some(name)
    } else {
        None
    }
}

/// The identifier given to a call for which the provider sent none.
pub open spec fn synthetic_call_id(tool_name: Seq<char>, output_index: nat) -> Seq<char> {
    tool_name + "-"@ + crate::text::decimal(output_index)
}

/// The hosted-tool call that `item` describes, if it describes one.
pub open spec fn hosted_item(item: Value, output_index: nat) -> Option<HostedView> {
    match crate::json::str_member(item, "type"@) {
        None => None,
        Some(raw_type) => match hosted_name(raw_type) {
            None => None,
            Some(tool_name) => {
                let id = crate::json::str_member(item, "id"@);
                Some(
                    HostedView {
                        tool_name,
                        provider_call_id: id,
                        call_id: match id {
                            Some(id) => id,
                            None => synthetic_call_id(tool_name, output_index),
                        },
                        status: crate::json::str_member(item, "status"@),
                        args_json: subset_text(item, input_key_names()),
                        result_json: subset_text(item, output_key_names()),
                        raw: item,
                        output_index,
                    },
                )
            },
        },
    }
}

/// Reads one item of the `output[]` array.
pub fn parse_hosted_item(item: &Value, output_index: usize) -> (call: Option<HostedToolCall>)
    ensures
        call.deep_view() == hosted_item(*item, output_index as nat),
        call is Some ==> renders_members(*item, input_key_names()),
        call is Some ==> renders_members(*item, output_key_names()),
{
    let raw_type = match member_str(item, "type") {
        Some(raw_type) => raw_type,
        None => return None,
    };
    let tool_name = match hosted_tool_name(raw_type) {
        Some(name) => name.to_owned(),
        None => return None,
    };
    let provider_call_id = own_option(member_str(item, "id"));
    let call_id = match &provider_call_id {
        Some(id) => id.clone(),
        None => {
            let mut id = tool_name.clone();
            id.append("-");
            id.append(decimal_text(output_index as u64).as_str());
            id
        },
    };
    let status = own_option(member_str(item, "status"));
    let args_json = compact_json_subset(item, &input_keys());
    let result_json = compact_json_subset(item, &output_keys());
    Some(
        HostedToolCall {
            tool_name,
            provider_call_id,
            call_id,
            status,
            args_json,
            result_json,
            raw: item.clone(),
            output_index,
        },
    )
}

/// The hosted-tool calls among `items`, in their order.
pub open spec fn hosted_calls(items: Seq<Value>) -> Seq<HostedView>
    decreases items.len(),
{
    if items.len() == 0 {
        seq![]
    } else {
        let before = hosted_calls(items.drop_last());
        match hosted_item(items.last(), (items.len() - 1) as nat) {
            Some(call) => before.push(call),
            None => before,
        }
    }
}

/// The items of the `output[]` array of `payload`: none where it has no such
/// array.
pub open spec fn output_items(payload: Value) -> Seq<Value> {
    match crate::json::json_member(payload, "output"@) {
        None => seq![],
        Some(output) => match crate::json::json_items(output) {
            None => seq![],
            Some(items) => items,
        },
    }
}

/// Walks the `output[]` array of a Responses-API JSON payload and
/// returns every hosted-tool call it finds.
///
/// A hosted-tool item is any object whose `type` field ends in `_call`
/// **other than** `function_call` (function tools already fire
/// `PromptHook::on_tool_call` and surface as
/// [`EventKind::ToolInvoked`]).
///
/// Returns an empty vector when `payload.output` is missing, not an
/// array, or empty.
#[must_use]
pub fn extract_hosted_tools(payload: &Value) -> (calls: Vec<HostedToolCall>)
    ensures
        calls.deep_view() == hosted_calls(output_items(*payload)),
        calls.len() <= output_items(*payload).len(),
{
    let mut calls: Vec<HostedToolCall> = Vec::new();
    let items = match value_member(payload, "output") {
        Some(output) => match value_items(output) {
            Some(items) => items,
            None => {
                assert(calls.deep_view() =~= hosted_calls(output_items(*payload)));
                return calls;
            },
        },
        None => {
            assert(calls.deep_view() =~= hosted_calls(output_items(*payload)));
            return calls;
        },
    };
    let mut i: usize = 0;
    while i < items.len()
        invariant
            i <= items.len(),
            items@ == output_items(*payload),
            calls.deep_view() =~= hosted_calls(items@.take(i as int)),
            calls.len() <= i,
        decreases items.len() - i,
    {
        assert(items@.take(i + 1).drop_last() =~= items@.take(i as int));
        if let Some(call) = parse_hosted_item(&items[i], i) {
            calls.push(call);
        }
        i += 1;
    }
    assert(items@.take(i as int) =~= items@);
    calls
}

/// The event pairs that a hosted call may be emitted as: its identity and
/// status as they are, its payloads as the policy and the truncation limit
/// leave them.
pub open spec fn may_emit_pair<R: RedactionPolicy>(
    policy: R,
    call: HostedView,
    response_id: Option<Seq<char>>,
    invoked: crate::event::KindView,
    completed: crate::event::KindView,
) -> bool {
    &&& exists|carried: (Seq<char>, bool)| #[trigger]
        crate::redaction::may_carry_args(
            policy,
            call.tool_name,
            call.args_json,
            PAYLOAD_TRUNCATE_BYTES as nat,
            carried,
        ) && invoked == (crate::event::KindView::ToolHostedInvoked {
            tool_name: call.tool_name,
            provider_call_id: call.provider_call_id,
            call_id: call.call_id,
            response_id,
            args_json: carried.0,
            truncated: carried.1,
        })
    &&& exists|carried: (Seq<char>, bool)| #[trigger]
        crate::redaction::may_carry_result(
            policy,
            call.tool_name,
            call.result_json,
            PAYLOAD_TRUNCATE_BYTES as nat,
            carried,
        ) && completed == (crate::event::KindView::ToolHostedCompleted {
            tool_name: call.tool_name,
            provider_call_id: call.provider_call_id,
            call_id: call.call_id,
            response_id,
            status: call.status,
            result: carried.0,
            truncated: carried.1,
            duration_ms: None,
        })
}

/// Builds the event pair of one hosted call.
pub fn emit_hosted_invoked_completed<R: RedactionPolicy>(
    call: HostedToolCall,
    response_id: &Option<String>,
    redaction: &R,
) -> (pair: (EventKind, EventKind))
    ensures
        may_emit_pair(*redaction, call@, response_id.deep_view(), pair.0@, pair.1@),
{
    let (args_payload, args_truncated) = carry_args(
        redaction,
        call.tool_name.as_str(),
        call.args_json.as_str(),
        PAYLOAD_TRUNCATE_BYTES,
    );
    let (result_payload, result_truncated) = carry_result(
        redaction,
        call.tool_name.as_str(),
        call.result_json.as_str(),
        PAYLOAD_TRUNCATE_BYTES,
    );
    let ghost carried_args = (args_payload@, args_truncated);
    let ghost carried_result = (result_payload@, result_truncated);
    assert(crate::redaction::may_carry_args(
        *redaction,
        call@.tool_name,
        call@.args_json,
        PAYLOAD_TRUNCATE_BYTES as nat,
        carried_args,
    ));
    assert(crate::redaction::may_carry_result(
        *redaction,
        call@.tool_name,
        call@.result_json,
        PAYLOAD_TRUNCATE_BYTES as nat,
        carried_result,
    ));
    let invoked = EventKind::ToolHostedInvoked {
        tool_name: call.tool_name.clone(),
        provider_call_id: copy_option(&call.provider_call_id),
        call_id: call.call_id.clone(),
        response_id: copy_option(response_id),
        args_json: args_payload,
        truncated: args_truncated,
    };
    let completed = EventKind::ToolHostedCompleted {
        tool_name: call.tool_name,
        provider_call_id: call.provider_call_id,
        call_id: call.call_id,
        response_id: copy_option(response_id),
        status: call.status,
        result: result_payload,
        truncated: result_truncated,
        duration_ms: None,
    };
    (invoked, completed)
}

/// Whether `emissions` are the event pairs of `calls`, one pair after the
/// other in the order of the calls, all in one conversation.
pub open spec fn emits_pairs<R: RedactionPolicy>(
    policy: R,
    conversation_id: Seq<char>,
    calls: Seq<HostedView>,
    response_id: Option<Seq<char>>,
    emissions: Seq<crate::emit::EmissionView>,
) -> bool {
    &&& emissions.len() == 2 * calls.len()
    &&& forall|i: int| 0 <= i < emissions.len() ==> (#[trigger] emissions[i]).conversation_id
        == conversation_id
    &&& forall|i: int|
        0 <= i < calls.len() ==> may_emit_pair(
            policy,
            #[trigger] calls[i],
            response_id,
            emissions[2 * i].kind,
            emissions[2 * i + 1].kind,
        )
}

/// Builds the event pairs of `calls`, in their order.
pub fn hosted_emissions<R: RedactionPolicy>(
    conversation_id: &str,
    calls: Vec<HostedToolCall>,
    response_id: &Option<String>,
    redaction: &R,
) -> (emissions: Vec<Emission>)
    ensures
        emits_pairs(
            *redaction,
            conversation_id@,
            calls.deep_view(),
            response_id.deep_view(),
            emissions.deep_view(),
        ),
{
    let ghost whole = calls.deep_view();
    let ghost given = calls@;
    let mut emissions: Vec<Emission> = Vec::new();
    for call in iter: calls
        invariant
            iter.seq() == given,
            whole =~= Seq::new(given.len(), |k: int| given[k]@),
            emits_pairs(
                *redaction,
                conversation_id@,
                whole.take(iter.index()),
                response_id.deep_view(),
                emissions.deep_view(),
            ),
    {
        let ghost done = iter.index();
        let ghost before = emissions.deep_view();
        assert(call@ == whole[done]);
        let (invoked, completed) = emit_hosted_invoked_completed(call, response_id, redaction);
        emissions.push(Emission { conversation_id: conversation_id.to_owned(), kind: invoked });
        emissions.push(Emission { conversation_id: conversation_id.to_owned(), kind: completed });
        proof {
            let after = emissions.deep_view();
            assert(forall|i: int| 0 <= i < before.len() ==> after[i] == before[i]);
            assert forall|i: int| 0 <= i < done + 1 implies may_emit_pair(
                *redaction,
                #[trigger] whole.take(done + 1)[i],
                response_id.deep_view(),
                after[2 * i].kind,
                after[2 * i + 1].kind,
            ) by {
                if i < done {
                    assert(whole.take(done)[i] == whole.take(done + 1)[i]);
                    assert(after[2 * i] == before[2 * i]);
                    assert(after[2 * i + 1] == before[2 * i + 1]);
                }
            }
        }
    }
    assert(whole.take(whole.len() as int) =~= whole);
    emissions
}

/// The two events of a pair carry the `call_id` of the call that they report,
/// and the same response id, whatever the policy does to the payloads.
pub proof fn lemma_pairs_share_call_id<R: RedactionPolicy>(
    policy: R,
    call: HostedView,
    response_id: Option<Seq<char>>,
    invoked: crate::event::KindView,
    completed: crate::event::KindView,
)
    requires
        may_emit_pair(policy, call, response_id, invoked, completed),
    ensures
        invoked.call_id() == Some(call.call_id),
        completed.call_id() == Some(call.call_id),
        invoked.scalars() == completed.scalars(),
        invoked.scalars().response_id == crate::event::or_empty(response_id),
{
}

/// Extraction walks the array in order: the calls that come out point at
/// ever later items, each holds the item that it points at, and no item is a
/// function call.
pub proof fn lemma_extraction_keeps_order(items: Seq<Value>)
    ensures
        ({
            let calls = hosted_calls(items);
            &&& forall|i: int|
                0 <= i < calls.len() ==> {
                    &&& (#[trigger] calls[i]).output_index < items.len()
                    &&& Some(calls[i]) == hosted_item(
                        items[calls[i].output_index as int],
                        calls[i].output_index,
                    )
                    &&& crate::json::str_member(calls[i].raw, "type"@) != Some("function_call"@)
                }
            &&& forall|i: int, j: int|
                0 <= i < j < calls.len() ==> (#[trigger] calls[i]).output_index < (
                #[trigger] calls[j]).output_index
        }),
    decreases items.len(),
{
    if items.len() > 0 {
        lemma_extraction_keeps_order(items.drop_last());
    }
}

/// No hosted call is missed: every item that describes one is among the calls
/// that come out.
pub proof fn lemma_extraction_is_complete(items: Seq<Value>, index: nat)
    requires
        index < items.len(),
        hosted_item(items[index as int], index) is Some,
    ensures
        hosted_calls(items).contains(hosted_item(items[index as int], index)->0),
    decreases items.len(),
{
    let shorter = items.drop_last();
    if index < shorter.len() {
        lemma_extraction_is_complete(shorter, index);
        let call = hosted_item(items[index as int], index)->0;
        let at = choose|at: int| 0 <= at < hosted_calls(shorter).len() && hosted_calls(shorter)[at] == call;
        assert(hosted_calls(items)[at] == call);
    } else {
        assert(hosted_calls(items).last() == hosted_item(items[index as int], index)->0);
    }
}

/// A synthetic call id tells items apart: two items without an id of their
/// own get different ids unless they call different tools.
pub proof fn lemma_synthetic_ids_differ(tool_name: Seq<char>, index: nat, other: nat)
    requires
        index != other,
    ensures
        synthetic_call_id(tool_name, index) != synthetic_call_id(tool_name, other),
{
    let prefix = tool_name + "-"@;
    let a = synthetic_call_id(tool_name, index);
    let b = synthetic_call_id(tool_name, other);
    crate::text::lemma_decimal_is_injective(index, other);
    if a == b {
        assert(a.skip(prefix.len() as int) =~= crate::text::decimal(index));
        assert(b.skip(prefix.len() as int) =~= crate::text::decimal(other));
    }
}

/// The response identifier stamped on hosted events: the caller's, or else the
/// one that the payload carries.
pub open spec fn resolved_response_id(response_id: Option<Seq<char>>, payload: Value) -> Option<
    Seq<char>,
> {
    match response_id {
        Some(id) => Some(id),
        None => crate::json::str_member(payload, "id"@),
    }
}

/// Walks `payload` for hosted-tool calls and returns one
/// `tool.hosted_invoked` + `tool.hosted_completed` pair for each, with the
/// number of pairs.
///
/// Use this when you already have a finished Responses-API payload (e.g.
/// `ResponsesWebSocketDoneEvent.response`) and want hosted-tool visibility
/// without manually constructing events.
///
/// `response_id` is stamped on every emitted event when `Some`. The
/// extractor also tries `payload["id"]` when the caller passes `None`.
///
/// This helper performs **no redaction**. If the payload may contain PII or
/// secrets, use [`emit_hosted_tools_redacted`] with a [`RedactionPolicy`]
/// instead.
pub fn emit_hosted_tools(conversation_id: &str, response_id: Option<&str>, payload: &Value) -> (out:
    (usize, Vec<Emission>))
    ensures
        out.0 == hosted_calls(output_items(*payload)).len(),
        emits_pairs(
            IdentityRedaction,
            conversation_id@,
            hosted_calls(output_items(*payload)),
            resolved_response_id(response_id.deep_view(), *payload),
            out.1.deep_view(),
        ),
{
    emit_hosted_tools_redacted(conversation_id, response_id, payload, &IdentityRedaction)
}

/// Like [`emit_hosted_tools`], but scrubs every hosted-tool `args_json` and
/// `result_json` through `redaction` before truncation and emission.
///
/// Use this on producer paths that surface provider-hosted tool payloads
/// (`web_search`, `file_search`, `code_interpreter`, …) which can echo back
/// user input or sensitive data, so the same [`RedactionPolicy`] that guards
/// the agent and kernel paths also covers hosted tools.
pub fn emit_hosted_tools_redacted<R: RedactionPolicy>(
    conversation_id: &str,
    response_id: Option<&str>,
    payload: &Value,
    redaction: &R,
) -> (out: (usize, Vec<Emission>))
    ensures
        out.0 == hosted_calls(output_items(*payload)).len(),
        emits_pairs(
            *redaction,
            conversation_id@,
            hosted_calls(output_items(*payload)),
            resolved_response_id(response_id.deep_view(), *payload),
            out.1.deep_view(),
        ),
{
    let resolved = match response_id {
        Some(id) => Some(id.to_owned()),
        None => own_option(member_str(payload, "id")),
    };
    let calls = extract_hosted_tools(payload);
    let count: usize = calls.len();
    (count, hosted_emissions(conversation_id, calls, &resolved, redaction))
}

} // verus!

//! What is read of hosted-tool items, and what their events carry.

use vstd::prelude::*;

use crate::event::EventKind;
use crate::redaction::RedactionPolicy;
use crate::responses_extract::HostedToolCall;

verus! {

/// The text that an object holds under a name, where what it holds there is a
/// string.
pub open spec fn string_at(value: serde_json::Value, name: Seq<char>) -> Option<Seq<char>> {
    match crate::json::json_member(value, name) {
        Some(member) => crate::json::json_str(member),
        None => None,
    }
}

/// The number that an object holds under a name, where what it holds there is
/// an unsigned integer.
pub open spec fn number_at(value: serde_json::Value, name: Seq<char>) -> Option<u64> {
    match crate::json::json_member(value, name) {
        Some(member) => crate::json::json_u64(member),
        None => None,
    }
}

/// Whether `object` holds under `name` what `item` holds there.
pub open spec fn holds_as(
    object: serde_json::Value,
    item: serde_json::Value,
    name: Seq<char>,
) -> bool {
    crate::json::json_member(object, name) == crate::json::json_member(item, name)
}

/// The arguments of a hosted call are the JSON text of an object that holds
/// exactly the inputs of its item, each under its own name, and empty where the
/// item has none.
pub proof fn lemma_hosted_arguments(item: serde_json::Value, index: usize, call: HostedToolCall)
    requires
        call_ensures(crate::responses_extract::parse_hosted_item, (&item, index), Some(call)),
    ensures
        if {
            &&& crate::json::json_member(item, "action"@) is None
            &&& crate::json::json_member(item, "queries"@) is None
            &&& crate::json::json_member(item, "query"@) is None
            &&& crate::json::json_member(item, "code"@) is None
            &&& crate::json::json_member(item, "input"@) is None
            &&& crate::json::json_member(item, "arguments"@) is None
            &&& crate::json::json_member(item, "container_id"@) is None
            &&& crate::json::json_member(item, "parameters"@) is None
        } {
            call.args_json@.len() == 0
        } else {
            exists|object: serde_json::Value|
                {
                    &&& call.args_json@ == #[trigger] crate::json::json_text(object)
                    &&& holds_as(object, item, "action"@)
                    &&& holds_as(object, item, "queries"@)
                    &&& holds_as(object, item, "query"@)
                    &&& holds_as(object, item, "code"@)
                    &&& holds_as(object, item, "input"@)
                    &&& holds_as(object, item, "arguments"@)
                    &&& holds_as(object, item, "container_id"@)
                    &&& holds_as(object, item, "parameters"@)
                    &&& forall|name: Seq<char>| #[trigger]
                        crate::json::json_member(object, name) is Some ==> {
                            ||| name == "action"@
                            ||| name == "queries"@
                            ||| name == "query"@
                            ||| name == "code"@
                            ||| name == "input"@
                            ||| name == "arguments"@
                            ||| name == "container_id"@
                            ||| name == "parameters"@
                        }
                }
        },
{
    let object = crate::json::json_object(
        crate::responses_extract::picked(item, crate::responses_extract::input_key_names()),
    );
    let names = crate::responses_extract::input_key_names();
    assert(names[0] == "action"@);
    assert(names[1] == "queries"@);
    assert(names[2] == "query"@);
    assert(names[3] == "code"@);
    assert(names[4] == "input"@);
    assert(names[5] == "arguments"@);
    assert(names[6] == "container_id"@);
    assert(names[7] == "parameters"@);
    crate::responses_extract::lemma_picked_members(item, names);
    let picked = crate::responses_extract::picked(item, names);
    if picked.len() > 0 {
        assert(call.args_json@ == crate::json::json_text(object));
        assert(names.contains(picked[0].0));
    } else {
        assert forall|i: int| 0 <= i < 8 implies crate::json::json_member(
            item,
            #[trigger] names[i],
        ) is None by {
            if crate::json::json_member(item, names[i]) is Some {
                assert(crate::json::names_key(picked, names[i]));
            }
        }
    }
}

/// The result of a hosted call is the JSON text of an object that holds exactly
/// the outputs of its item, each under its own name, and empty where the item
/// has none.
pub proof fn lemma_hosted_results(item: serde_json::Value, index: usize, call: HostedToolCall)
    requires
        call_ensures(crate::responses_extract::parse_hosted_item, (&item, index), Some(call)),
    ensures
        if {
            &&& crate::json::json_member(item, "output"@) is None
            &&& crate::json::json_member(item, "results"@) is None
            &&& crate::json::json_member(item, "result"@) is None
            &&& crate::json::json_member(item, "output_text"@) is None
        } {
            call.result_json@.len() == 0
        } else {
            exists|object: serde_json::Value|
                {
                    &&& call.result_json@ == #[trigger] crate::json::json_text(object)
                    &&& holds_as(object, item, "output"@)
                    &&& holds_as(object, item, "results"@)
                    &&& holds_as(object, item, "result"@)
                    &&& holds_as(object, item, "output_text"@)
                    &&& forall|name: Seq<char>| #[trigger]
                        crate::json::json_member(object, name) is Some ==> {
                            ||| name == "output"@
                            ||| name == "results"@
                            ||| name == "result"@
                            ||| name == "output_text"@
                        }
                }
        },
{
    let object = crate::json::json_object(
        crate::responses_extract::picked(item, crate::responses_extract::output_key_names()),
    );
    let names = crate::responses_extract::output_key_names();
    assert(names[0] == "output"@);
    assert(names[1] == "results"@);
    assert(names[2] == "result"@);
    assert(names[3] == "output_text"@);
    crate::responses_extract::lemma_picked_members(item, names);
    let picked = crate::responses_extract::picked(item, names);
    if picked.len() > 0 {
        assert(call.result_json@ == crate::json::json_text(object));
        assert(names.contains(picked[0].0));
    } else {
        assert forall|i: int| 0 <= i < 4 implies crate::json::json_member(
            item,
            #[trigger] names[i],
        ) is None by {
            if crate::json::json_member(item, names[i]) is Some {
                assert(crate::json::names_key(picked, names[i]));
            }
        }
    }
}

/// What an item holds under a name, as an entry of an object: nothing where it
/// holds nothing there.
pub open spec fn entry_at(item: serde_json::Value, name: Seq<char>) -> Seq<
    (Seq<char>, serde_json::Value),
> {
    match crate::json::json_member(item, name) {
        Some(member) => seq![(name, member)],
        None => seq![],
    }
}

proof fn lemma_one_more_entry(item: serde_json::Value, names: Seq<Seq<char>>, name: Seq<char>)
    ensures
        crate::responses_extract::picked(item, names.push(name))
            == crate::responses_extract::picked(item, names) + entry_at(item, name),
{
    assert(names.push(name).drop_last() =~= names);
    assert(crate::responses_extract::picked(item, names.push(name)) =~= crate::responses_extract::picked(item, names)
        + entry_at(item, name));
}

/// The inputs and the outputs of an item are rendered in a fixed order.
pub proof fn lemma_members_are_rendered_in_order(
    item: serde_json::Value,
    index: nat,
    call: HostedToolCall,
)
    requires
        crate::responses_extract::hosted_item(item, index) == Some(call@),
    ensures
        ({
            let inputs = entry_at(item, "action"@) + entry_at(item, "queries"@) + entry_at(
                item,
                "query"@,
            ) + entry_at(item, "code"@) + entry_at(item, "input"@) + entry_at(item, "arguments"@)
                + entry_at(item, "container_id"@) + entry_at(item, "parameters"@);
            let outputs = entry_at(item, "output"@) + entry_at(item, "results"@) + entry_at(
                item,
                "result"@,
            ) + entry_at(item, "output_text"@);
            &&& inputs.len() > 0 ==> call.args_json@ == crate::json::json_text(
                crate::json::json_object(inputs),
            )
            &&& inputs.len() == 0 ==> call.args_json@.len() == 0
            &&& outputs.len() > 0 ==> call.result_json@ == crate::json::json_text(
                crate::json::json_object(outputs),
            )
            &&& outputs.len() == 0 ==> call.result_json@.len() == 0
        }),
{
    let none = Seq::<Seq<char>>::empty();
    let a1 = none.push("action"@);
    let a2 = a1.push("queries"@);
    let a3 = a2.push("query"@);
    let a4 = a3.push("code"@);
    let a5 = a4.push("input"@);
    let a6 = a5.push("arguments"@);
    let a7 = a6.push("container_id"@);
    let a8 = a7.push("parameters"@);
    lemma_one_more_entry(item, none, "action"@);
    lemma_one_more_entry(item, a1, "queries"@);
    lemma_one_more_entry(item, a2, "query"@);
    lemma_one_more_entry(item, a3, "code"@);
    lemma_one_more_entry(item, a4, "input"@);
    lemma_one_more_entry(item, a5, "arguments"@);
    lemma_one_more_entry(item, a6, "container_id"@);
    lemma_one_more_entry(item, a7, "parameters"@);
    assert(crate::responses_extract::picked(item, none) =~= seq![]);
    assert(crate::responses_extract::picked(item, none) + entry_at(item, "action"@) =~= entry_at(item, "action"@));
    assert(a8 =~= crate::responses_extract::input_key_names());
    let b1 = none.push("output"@);
    let b2 = b1.push("results"@);
    let b3 = b2.push("result"@);
    let b4 = b3.push("output_text"@);
    lemma_one_more_entry(item, none, "output"@);
    lemma_one_more_entry(item, b1, "results"@);
    lemma_one_more_entry(item, b2, "result"@);
    lemma_one_more_entry(item, b3, "output_text"@);
    assert(crate::responses_extract::picked(item, none) + entry_at(item, "output"@) =~= entry_at(item, "output"@));
    assert(b4 =~= crate::responses_extract::output_key_names());
}

/// Which items are hosted calls: those whose `type` is a name and `_call` after
/// it, other than function calls. The call has that name, the `id` of the item
/// or else an id made of name and position, its `status`, and the item itself.
pub proof fn lemma_hosted_items(item: serde_json::Value, index: usize, found: Option<HostedToolCall>)
    requires
        call_ensures(crate::responses_extract::parse_hosted_item, (&item, index), found),
    ensures
        found is Some <==> {
            &&& string_at(item, "type"@) matches Some(kind)
            &&& kind != "function_call"@
            &&& exists|name: Seq<char>| name.len() > 0 && kind == #[trigger] (name + "_call"@)
        },
        found matches Some(call) ==> {
            &&& string_at(item, "type"@) == Some(call.tool_name@ + "_call"@)
            &&& call.provider_call_id.deep_view() == string_at(item, "id"@)
            &&& match string_at(item, "id"@) {
                Some(id) => call.call_id@ == id,
                None => call.call_id@ == call.tool_name@ + "-"@ + crate::text::decimal(
                    index as nat,
                ),
            }
            &&& call.status.deep_view() == string_at(item, "status"@)
            &&& call.raw == item
            &&& call.output_index == index
        },
{
    reveal_strlit("_call");
    reveal_strlit("function_call_output");
    if let Some(kind) = string_at(item, "type"@) {
        if exists|name: Seq<char>| name.len() > 0 && kind == #[trigger] (name + "_call"@) {
            let name = choose|name: Seq<char>| name.len() > 0 && kind == #[trigger] (name + "_call"@);
            assert(kind.skip(kind.len() - 5) =~= "_call"@);
            if kind == "function_call_output"@ {
                assert(kind[kind.len() - 1] == 'l');
            }
        }
        if found is Some {
            let name = kind.take(kind.len() - 5);
            assert(kind =~= name + kind.skip(kind.len() - 5));
            assert(name.len() > 0 && kind == name + "_call"@);
        }
    }
}

/// One more item adds its call, if it is one, at the end; the items are those
/// that a payload holds under `output`.
pub proof fn lemma_extraction_grows(
    items: Seq<serde_json::Value>,
    item: serde_json::Value,
    payload: serde_json::Value,
)
    ensures
        crate::responses_extract::hosted_calls(Seq::empty()).len() == 0,
        crate::responses_extract::hosted_calls(items.push(item)) == (
        match crate::responses_extract::hosted_item(item, items.len()) {
            Some(call) => crate::responses_extract::hosted_calls(items).push(call),
            None => crate::responses_extract::hosted_calls(items),
        }),
        match crate::json::json_member(payload, "output"@) {
            Some(output) => match crate::json::json_items(output) {
                Some(listed) => crate::responses_extract::output_items(payload) == listed,
                None => crate::responses_extract::output_items(payload).len() == 0,
            },
            None => crate::responses_extract::output_items(payload).len() == 0,
        },
{
    assert(items.push(item).drop_last() =~= items);
}

/// The events of a hosted call carry what the call says, each member under its
/// own name: its arguments and its result as the policy may leave them, cut to
/// the limit, and told apart by whether something was cut.
pub proof fn lemma_hosted_pair<R: RedactionPolicy>(
    policy: R,
    call: HostedToolCall,
    response: Option<Seq<char>>,
    invoked: EventKind,
    completed: EventKind,
)
    requires
        crate::responses_extract::may_emit_pair(policy, call@, response, invoked@, completed@),
    ensures
        invoked matches EventKind::ToolHostedInvoked {
            tool_name,
            provider_call_id,
            call_id,
            response_id,
            args_json,
            truncated,
        } && {
            &&& tool_name@ == call.tool_name@
            &&& provider_call_id.deep_view() == call.provider_call_id.deep_view()
            &&& call_id@ == call.call_id@
            &&& response_id.deep_view() == response
            &&& exists|redacted: Seq<char>| #[trigger]
                policy.may_redact_args(call.tool_name@, call.args_json@, redacted) && (
                args_json@,
                truncated,
            ) == crate::redaction::payload(redacted, crate::event::PAYLOAD_TRUNCATE_BYTES as nat)
        },
        completed matches EventKind::ToolHostedCompleted {
            tool_name,
            provider_call_id,
            call_id,
            response_id,
            status,
            result,
            truncated,
            duration_ms,
        } && {
            &&& tool_name@ == call.tool_name@
            &&& provider_call_id.deep_view() == call.provider_call_id.deep_view()
            &&& call_id@ == call.call_id@
            &&& response_id.deep_view() == response
            &&& status.deep_view() == call.status.deep_view()
            &&& duration_ms is None
            &&& exists|redacted: Seq<char>| #[trigger]
                policy.may_redact_result(call.tool_name@, call.result_json@, redacted) && (
                result@,
                truncated,
            ) == crate::redaction::payload(redacted, crate::event::PAYLOAD_TRUNCATE_BYTES as nat)
        },
{
}

/// The events of several calls are their pairs, one after the other, all in one
/// conversation; the response is the one that the caller names, or else the `id`
/// of the payload.
pub proof fn lemma_hosted_pairs<R: RedactionPolicy>(
    policy: R,
    conversation_id: Seq<char>,
    calls: Seq<crate::responses_extract::HostedView>,
    response: Option<Seq<char>>,
    emissions: Seq<crate::emit::EmissionView>,
    payload: serde_json::Value,
    i: int,
)
    requires
        crate::responses_extract::emits_pairs(policy, conversation_id, calls, response, emissions),
        0 <= i < calls.len(),
    ensures
        emissions.len() == 2 * calls.len(),
        emissions[2 * i].conversation_id == conversation_id,
        emissions[2 * i + 1].conversation_id == conversation_id,
        crate::responses_extract::may_emit_pair(
            policy,
            calls[i],
            response,
            emissions[2 * i].kind,
            emissions[2 * i + 1].kind,
        ),
        emissions[2 * i].kind is ToolHostedInvoked,
        emissions[2 * i + 1].kind is ToolHostedCompleted,
        match response {
            Some(id) => crate::responses_extract::resolved_response_id(response, payload) == Some(
                id,
            ),
            None => crate::responses_extract::resolved_response_id(response, payload) == string_at(
                payload,
                "id"@,
            ),
        },
{
}

/// A hosted call reads as what its fields say.
pub proof fn lemma_hosted_contents(call: HostedToolCall)
    ensures
        call.deep_view() == call@,
        call@.tool_name == call.tool_name@,
        call@.provider_call_id == call.provider_call_id.deep_view(),
        call@.call_id == call.call_id@,
        call@.status == call.status.deep_view(),
        call@.args_json == call.args_json@,
        call@.result_json == call.result_json@,
        call@.raw == call.raw,
        call@.output_index == call.output_index,
{
}

} // verus!

# rig_tap

Uniform telemetry for [Rig](https://crates.io/crates/rig-core) agents and
companion crates: one stable, versioned `ObservabilityEvent` stream for
prompts, tools, memory, context, dispatch and provider sessions. The library is
written and verified in [Verus](https://github.com/verus-lang/verus).

## Layout

`src/` is the verified library. It decides which events are due and what they
hold; it sends nothing itself.

| Module | Content |
|--------|---------|
| `event` | envelope, payload variants, scalar correlators, classification |
| `wire`, `wire_kinds`, `wire_laws` | flat wire form: writing, reading, round trip |
| `emit`, `clock` | stamping of events, fields of the `tracing` record |
| `extract`, `subscriber` | reading records back, buffer of captured events |
| `truncate`, `redaction` | payload truncation and scrubbing |
| `sampling` | sampling policies |
| `hook`, `chained` | prompt-hook decisions, chaining of two hooks |
| `dispatch`, `dispatch_trace` | kernel-direct dispatch, pairing over whole runs |
| `responses_extract` | hosted tool calls in Responses payloads |
| `responses_session`, `session_envelope` | WebSocket session lifecycle |
| `observed_memory` | context size samples |
| `query`, `insights`, `spans`, `latency` | filters, rollups, tool spans, percentiles |
| `metrics_ext` | counters and histograms of an event |
| `table`, `text`, `float`, `json`, `error` | supporting types and outside values |

`app/` binds the library to `rig-core`, `rig-compose`, `tracing` and `metrics`:
it implements their traits, keeps the process-wide counters, turns wire values
into JSON text and back, offers filters and rollups with `serde` support, and
does floating-point sums and quotients.

`tests/` exercises the library from outside.

## What is proved

Contracts are stated over views: every text as a sequence of characters, every
event as its content. Public `lemma_*` functions state what holds across calls,
among them:

- an event read back from its wire form is the event that was written, whatever
  unknown fields stand beside it, and a field that stands there twice is refused;
- truncation keeps the longest prefix of whole characters within the limit;
- a `tool.invoked` and its `tool.completed` are both kept or both dropped under
  one sampling rate;
- every dispatched call is announced under an id of its own before its end is
  reported under the same id;
- whatever happens in a session until it is closed, its events form one
  well-formed envelope, and closing it twice is closing it once;
- a session starts once where a turn was ever announced, and ends at most once,
  and its turns start and complete in alternation, whatever is sent after its
  close;
- a completed turn carries the time since its own send, and a completed call the
  time since its own begin;
- every invocation gives one span, settled by the last terminal event of its
  own call, and terminal events without an invocation leave no trace;
- a higher sampling rate keeps whatever a lower one keeps.

What outside code returns is stated in a few small wrappers: the clock, the
active span, std's hasher and sort, and the accessors of `serde_json::Value`.

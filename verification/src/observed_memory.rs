//! [`ObservedMemory`]: a conversation-memory decorator that samples the size
//! of the active context.
//!
//! Use it to feed the active-context-size curve of a funnel-style observability
//! UI: every time the agent loads history before a turn, the decorator measures
//! the size of the loaded conversation and emits a sample.

use vstd::prelude::*;

use crate::emit::Emission;
use crate::event::EventKind;

verus! {

/// Wraps a conversation memory so that every load emits a `context.sampled`
/// event. Appending and clearing pass through unchanged.
#[derive(Debug, Clone)]
pub struct ObservedMemory<M> {
    inner: M,
}

impl<M> ObservedMemory<M> {
    /// The wrapped memory.
    pub closed spec fn wrapped(self) -> M {
        self.inner
    }

    /// Wrap `inner` so its loads emit `context.sampled` events.
    pub fn new(inner: M) -> (memory: Self)
        ensures
            memory.wrapped() == inner,
    {
        ObservedMemory { inner }
    }

    /// Return a reference to the wrapped memory.
    pub fn inner(&self) -> (inner: &M)
        ensures
            *inner == self.wrapped(),
    {
        &self.inner
    }

    /// Consume the decorator and return the wrapped memory.
    pub fn into_inner(self) -> (inner: M)
        ensures
            inner == self.wrapped(),
    {
        self.inner
    }

    /// The sample that a load of `message_count` messages with `byte_size`
    /// bytes of JSON emits.
    pub fn on_load(&self, conversation_id: &str, message_count: usize, byte_size: usize) -> (out:
        Emission)
        ensures
            out@ == (crate::emit::EmissionView {
                conversation_id: conversation_id@,
                kind: crate::event::KindView::ContextSampled {
                    message_count,
                    byte_size,
                    token_estimate: None,
                },
            }),
    {
        Emission {
            conversation_id: conversation_id.to_owned(),
            kind: EventKind::ContextSampled { message_count, byte_size, token_estimate: None },
        }
    }
}

/// Counts bytes that a streaming JSON serializer would emit, without ever
/// materializing the JSON.
#[derive(Debug)]
pub struct CountingWriter {
    bytes: usize,
}

/// The sum of two sizes, saturating.
pub open spec fn saturating_sum(a: int, b: int) -> int {
    if a + b > usize::MAX {
        usize::MAX as int
    } else {
        a + b
    }
}

impl View for CountingWriter {
    type V = nat;

    closed spec fn view(&self) -> nat {
        self.bytes as nat
    }
}

impl CountingWriter {
    /// A writer that has counted nothing.
    pub fn new() -> (writer: Self)
        ensures
            writer@ == 0,
    {
        CountingWriter { bytes: 0 }
    }

    /// Counts the bytes of `buf`, all of which it takes.
    pub fn write(&mut self, buf: &[u8]) -> (taken: usize)
        ensures
            taken == buf@.len(),
            final(self)@ == saturating_sum(old(self)@ as int, buf@.len() as int),
    {
        let len: usize = buf.len();
        self.bytes = if self.bytes > usize::MAX - len {
            usize::MAX
        } else {
            self.bytes + len
        };
        len
    }

    /// The size of what was written, and `0` where serialization failed on the
    /// way.
    pub fn finish(self, serialized: bool) -> (size: usize)
        ensures
            size == (if serialized {
                self@
            } else {
                0
            }),
    {
        if serialized {
            self.bytes
        } else {
            0
        }
    }
}

/// The size does not depend on how the bytes are split into writes.
pub proof fn lemma_split_does_not_matter(counted: nat, first: nat, second: nat)
    ensures
        saturating_sum(saturating_sum(counted as int, first as int), second as int)
            == saturating_sum(counted as int, (first + second) as int),
{
}

} // verus!

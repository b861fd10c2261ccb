//! A configurable stream-processing pipeline.
//!
//! Units of data (messages, grouped into batches) are read from a source,
//! passed through an ordered chain of processors, and delivered to a sink.
//! A batch is only considered consumed once it has been fully processed and
//! handed to the sink; completion is signalled back to the source through a
//! single-use acknowledgment handle.

pub mod bytesops;
pub mod engine;
pub mod http;
pub mod errors;
pub mod pattern;
pub mod processors;
pub mod proximo;
pub mod registry;
pub mod strutil;

pub use engine::{start_stream_processor, Processor, Sink, Source};
pub use processors::Pipeline;
pub use proximo::{MessageSink, MessageSinkClient, MessageSource, MessageSourceClient};
pub use registry::PipelineSpec;

use vstd::prelude::*;

verus! {

use vstd::string::StringExecFns;

/// One unit of data moving through the pipeline: an opaque payload plus
/// string-keyed metadata (first entry with a given key wins on lookup).
#[derive(Debug, PartialEq)]
pub struct Message {
    pub data: Vec<u8>,
    pub metadata: Vec<(String, String)>,
}

/// An ordered group of messages that flows between pipeline stages as one unit.
#[derive(Debug, PartialEq)]
pub struct MessageBatch {
    pub messages: Vec<Message>,
    pub metadata: Vec<(String, String)>,
}

/// The mathematical value of a `Message`.
#[verifier::ext_equal]
pub struct MessageView {
    pub data: Seq<u8>,
    pub metadata: Seq<(Seq<char>, Seq<char>)>,
}

/// The mathematical value of a `MessageBatch`.
#[verifier::ext_equal]
pub struct BatchView {
    pub messages: Seq<MessageView>,
    pub metadata: Seq<(Seq<char>, Seq<char>)>,
}

impl View for Message {
    type V = MessageView;

    open spec fn view(&self) -> MessageView {
        MessageView { data: self.data@, metadata: self.metadata.deep_view() }
    }
}

impl DeepView for Message {
    type V = MessageView;

    open spec fn deep_view(&self) -> MessageView {
        self.view()
    }
}

impl View for MessageBatch {
    type V = BatchView;

    open spec fn view(&self) -> BatchView {
        BatchView { messages: self.messages.deep_view(), metadata: self.metadata.deep_view() }
    }
}

impl DeepView for MessageBatch {
    type V = BatchView;

    open spec fn deep_view(&self) -> BatchView {
        self.view()
    }
}

/// Where one transaction's acknowledgment stands.
#[derive(Clone, Copy, Debug, PartialEq, Eq, Structural)]
pub enum AckState {
    /// The transaction is still in flight; no signal has been given.
    Pending,
    /// The transaction completed and the source was told to advance.
    Acked,
    /// The transaction failed; the source must not advance past its unit.
    Failed,
}

/// The single-use signal of one transaction. It starts pending; exactly one
/// of `acknowledge` and `fail` may be called on it, each only while it is
/// still pending — a second resolution is ruled out by their preconditions.
pub struct AckHandle {
    state: AckState,
}

impl AckHandle {
    /// Where this handle stands.
    pub closed spec fn spec_state(self) -> AckState {
        self.state
    }

    /// No signal has been given yet.
    pub open spec fn is_pending(self) -> bool {
        self.spec_state() is Pending
    }

    /// The transaction was acknowledged.
    pub open spec fn is_acked(self) -> bool {
        self.spec_state() is Acked
    }

    /// The transaction was failed.
    pub open spec fn is_failed(self) -> bool {
        self.spec_state() is Failed
    }

    /// Reads where the handle stands.
    pub fn status(&self) -> (s: AckState)
        ensures
            s == self.spec_state(),
    {
        self.state
    }

    /// A fresh, pending handle.
    pub fn new() -> (h: AckHandle)
        ensures
            h.is_pending(),
    {
        AckHandle { state: AckState::Pending }
    }

    /// Signals that the transaction completed and the source may advance.
    /// Only an open handle can be acknowledged, and only once.
    pub fn acknowledge(&mut self)
        requires
            old(self).is_pending(),
        ensures
            final(self).is_acked(),
    {
        self.state = AckState::Acked;
    }

    /// Signals that the transaction failed; the source must not advance.
    /// Only an open handle can be failed, and only once.
    pub fn fail(&mut self)
        requires
            old(self).is_pending(),
        ensures
            final(self).is_failed(),
    {
        self.state = AckState::Failed;
    }
}

/// One unit of work: a batch, and the single-use signal through which its
/// completion is reported back to the source that produced it.
pub struct Transaction {
    pub batch: MessageBatch,
    pub ack: AckHandle,
}

impl Transaction {
    /// A fresh transaction around one batch, not yet acknowledged.
    pub fn new(batch: MessageBatch) -> (t: Transaction)
        ensures
            t.batch == batch,
            t.ack.is_pending(),
    {
        Transaction { batch, ack: AckHandle::new() }
    }
}

/// Copies a metadata list; the copy holds the same pairs in the same order.
pub fn clone_metadata(m: &Vec<(String, String)>) -> (r: Vec<(String, String)>)
    ensures
        r@ == m@,
        r.deep_view() == m.deep_view(),
{
    let mut r: Vec<(String, String)> = Vec::new();
    let mut i: usize = 0;
    while i < m.len()
        invariant
            0 <= i <= m.len(),
            r@ == m@.take(i as int),
        decreases m.len() - i,
    {
        r.push((m[i].0.clone(), m[i].1.clone()));
        proof {
            assert(m@.take(i as int).push(m@[i as int]) =~= m@.take(i as int + 1));
        }
        i = i + 1;
    }
    proof {
        assert(m@.take(i as int) =~= m@);
        assert(r.deep_view() =~= m.deep_view());
    }
    r
}

impl Clone for Message {
    /// The copy has the same mathematical value as the original.
    fn clone(&self) -> (r: Self)
        ensures
            r@ == self@,
    {
        let data = self.data.clone();
        proof {
            assert(data@ =~= self.data@);
        }
        let r = Message { data, metadata: clone_metadata(&self.metadata) };
        proof {
            assert(r@.data =~= self@.data);
        }
        r
    }
}

impl Clone for MessageBatch {
    /// The copy has the same mathematical value as the original.
    fn clone(&self) -> (r: Self)
        ensures
            r@ == self@,
    {
        let mut messages: Vec<Message> = Vec::new();
        let mut i: usize = 0;
        while i < self.messages.len()
            invariant
                0 <= i <= self.messages.len(),
                messages.deep_view() == self.messages.deep_view().take(i as int),
            decreases self.messages.len() - i,
        {
            let ghost old_m = messages.deep_view();
            messages.push(self.messages[i].clone());
            proof {
                assert(messages.deep_view() =~= old_m.push(self.messages[i as int]@));
                assert(self.messages.deep_view().take(i as int).push(
                    self.messages.deep_view()[i as int],
                ) =~= self.messages.deep_view().take(i as int + 1));
            }
            i = i + 1;
        }
        proof {
            assert(self.messages.deep_view().take(i as int) =~= self.messages.deep_view());
        }
        let r = MessageBatch { messages, metadata: clone_metadata(&self.metadata) };
        r
    }
}

/// The key under which a broker sink files a message: the `partition_key`
/// metadata entry, or `"0"` when the message carries none.
pub open spec fn spec_partition_key(m: MessageView) -> Seq<char> {
    match crate::strutil::spec_assoc(m.metadata, "partition_key"@) {
        Some(v) => v,
        None => "0"@,
    }
}

/// The per-message delivery key a broker sink uses: the message's
/// `partition_key` metadata entry, defaulting to `"0"`.
pub fn partition_key(m: &Message) -> (k: String)
    ensures
        k@ == spec_partition_key(m@),
{
    match crate::strutil::assoc_get(&m.metadata, "partition_key") {
        Some(v) => v.clone(),
        None => String::from_str("0"),
    }
}

impl Message {
    /// A message carrying the given payload and no metadata.
    pub fn from_payload(data: Vec<u8>) -> (m: Message)
        ensures
            m@.data == data@,
            m@.metadata == Seq::<(Seq<char>, Seq<char>)>::empty(),
    {
        Message { data, metadata: Vec::new() }
    }
}

impl MessageBatch {
    /// The batch a source builds from one upstream unit: a single message
    /// holding the unit's payload, and no metadata.
    pub fn from_payload(data: Vec<u8>) -> (b: MessageBatch)
        ensures
            b@.messages.len() == 1,
            b@.messages[0].data == data@,
            b@.messages[0].metadata == Seq::<(Seq<char>, Seq<char>)>::empty(),
            b@.metadata == Seq::<(Seq<char>, Seq<char>)>::empty(),
    {
        let mut messages: Vec<Message> = Vec::new();
        messages.push(Message::from_payload(data));
        MessageBatch { messages, metadata: Vec::new() }
    }
}

} // verus!

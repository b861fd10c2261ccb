//! The duplex-streaming broker protocol, modelled as verified state
//! machines. A consumer opens a stream with a start directive and must
//! round-trip every delivered record through exactly one confirmation before
//! the next record may be taken; a publisher sends records carrying an id
//! (taken from the message's metadata, or generated) and blocks until the
//! confirmation bearing the same id arrives, treating a mismatch as fatal.
//! The wire itself — the duplex channel to the broker — is the caller's
//! part: it performs the sends and receives and hands the events to these
//! sessions, which decide what is sent and what must come back.

use vstd::prelude::*;

use crate::errors::PipelineError;
use crate::bytesops::copy_bytes;
use crate::strutil::{assoc_get, dec_rep, spec_assoc, str_eq, u64_to_dec};
use crate::{BatchView, Message, MessageBatch, MessageView};

verus! {

use vstd::string::StringExecFns;

/// Where a fresh consumer starts reading its topic.
#[derive(Clone, Copy, Debug, PartialEq, Eq, Structural)]
pub enum Offset {
    /// Wherever the broker's default places the consumer group.
    Default,
    /// Only records produced from now on.
    Newest,
    /// The earliest retained record.
    Oldest,
}

/// The offset a configuration word names, if any.
pub open spec fn spec_parse_offset(s: Seq<char>) -> Option<Offset> {
    if s == "default"@ {
        Some(Offset::Default)
    } else if s == "newest"@ {
        Some(Offset::Newest)
    } else if s == "oldest"@ {
        Some(Offset::Oldest)
    } else {
        None
    }
}

impl Offset {
    /// Reads an initial-offset word: `default`, `newest` or `oldest`.
    pub fn parse_str(s: &str) -> (r: Option<Offset>)
        ensures
            r == spec_parse_offset(s@),
    {
        if str_eq(s, "default") {
            Some(Offset::Default)
        } else if str_eq(s, "newest") {
            Some(Offset::Newest)
        } else if str_eq(s, "oldest") {
            Some(Offset::Oldest)
        } else {
            None
        }
    }
}

/// One record on the stream: a payload and the id its confirmation must
/// carry.
pub struct ProximoMessage {
    pub data: Vec<u8>,
    pub id: String,
}

/// The mathematical value of a `ProximoMessage`.
pub struct ProximoMessageView {
    pub data: Seq<u8>,
    pub id: Seq<char>,
}

impl View for ProximoMessage {
    type V = ProximoMessageView;

    open spec fn view(&self) -> ProximoMessageView {
        ProximoMessageView { data: self.data@, id: self.id@ }
    }
}

/// The acknowledgment of one record, by id.
pub struct Confirmation {
    pub msg_id: String,
}

/// The mathematical value of a `Confirmation`.
pub struct ConfirmationView {
    pub msg_id: Seq<char>,
}

impl View for Confirmation {
    type V = ConfirmationView;

    open spec fn view(&self) -> ConfirmationView {
        ConfirmationView { msg_id: self.msg_id@ }
    }
}

/// What a consumer sends upstream: first the start directive, then one
/// confirmation per delivered record.
pub enum ConsumerRequest {
    /// Open the stream for a consumer group on a topic.
    Start { consumer: String, topic: String, initial_offset: Offset },
    /// Confirm the record with the given id.
    Confirm(Confirmation),
}

/// The mathematical value of a `ConsumerRequest`.
pub enum ConsumerRequestView {
    Start { consumer: Seq<char>, topic: Seq<char>, initial_offset: Offset },
    Confirm(ConfirmationView),
}

impl View for ConsumerRequest {
    type V = ConsumerRequestView;

    open spec fn view(&self) -> ConsumerRequestView {
        match self {
            ConsumerRequest::Start { consumer, topic, initial_offset } => {
                ConsumerRequestView::Start {
                    consumer: consumer@,
                    topic: topic@,
                    initial_offset: *initial_offset,
                }
            },
            ConsumerRequest::Confirm(c) => ConsumerRequestView::Confirm(c@),
        }
    }
}

/// What a publisher sends upstream: first the start directive, then records.
pub enum PublisherRequest {
    /// Open the stream for a topic.
    Start { topic: String },
    /// Publish one record; its confirmation must come back before the next.
    Publish(ProximoMessage),
}

/// The mathematical value of a `PublisherRequest`.
pub enum PublisherRequestView {
    Start { topic: Seq<char> },
    Publish(ProximoMessageView),
}

impl View for PublisherRequest {
    type V = PublisherRequestView;

    open spec fn view(&self) -> PublisherRequestView {
        match self {
            PublisherRequest::Start { topic } => PublisherRequestView::Start { topic: topic@ },
            PublisherRequest::Publish(m) => PublisherRequestView::Publish(m@),
        }
    }
}

/// The batch a consumer hands the pipeline for one delivered record: one
/// message holding the record's payload, no metadata.
pub open spec fn spec_delivered_batch(pm: ProximoMessageView) -> BatchView {
    BatchView {
        messages: seq![MessageView { data: pm.data, metadata: Seq::empty() }],
        metadata: Seq::empty(),
    }
}

/// The id under which a publisher sends a message: its `id` metadata entry,
/// or the decimal rendering of the session's counter when it carries none.
pub open spec fn spec_publish_id(m: MessageView, counter: u64) -> Seq<char> {
    match spec_assoc(m.metadata, "id"@) {
        Some(v) => v,
        None => dec_rep(counter as nat),
    }
}

/// The consuming half of one duplex stream. At most one delivered record is
/// outstanding at a time, and each must be confirmed exactly once before the
/// next may be taken — the protocol's own form of the depth-one, acknowledged
/// handoff.
pub struct ConsumerSession {
    started: bool,
    outstanding: Option<String>,
}

impl ConsumerSession {
    /// Whether the start directive has been issued.
    pub closed spec fn is_started(self) -> bool {
        self.started
    }

    /// The id of the delivered record whose confirmation is still owed.
    pub closed spec fn outstanding_id(self) -> Option<Seq<char>> {
        match self.outstanding {
            Some(s) => Some(s@),
            None => None,
        }
    }

    pub(crate) fn fresh() -> (s: ConsumerSession)
        ensures
            !s.is_started(),
            s.outstanding_id() is None,
    {
        ConsumerSession { started: false, outstanding: None }
    }

    /// The directive that opens the stream. Issued once, before any record.
    pub fn start(&mut self, consumer: &str, topic: &str, initial_offset: Offset) -> (req:
        ConsumerRequest)
        requires
            !old(self).is_started(),
        ensures
            final(self).is_started(),
            final(self).outstanding_id() is None,
            req@ == (ConsumerRequestView::Start {
                consumer: consumer@,
                topic: topic@,
                initial_offset,
            }),
    {
        self.started = true;
        self.outstanding = None;
        ConsumerRequest::Start {
            consumer: consumer.to_owned(),
            topic: topic.to_owned(),
            initial_offset,
        }
    }

    /// Takes one delivered record and builds the batch the pipeline will
    /// process. Only when no earlier record awaits confirmation: the stream
    /// delivers one record at a time.
    pub fn on_message(&mut self, m: ProximoMessage) -> (b: MessageBatch)
        requires
            old(self).is_started(),
            old(self).outstanding_id() is None,
        ensures
            final(self).is_started(),
            final(self).outstanding_id() == Some(m@.id),
            b@ == spec_delivered_batch(m@),
    {
        let ghost mv = m@;
        let ProximoMessage { data, id } = m;
        let b = MessageBatch::from_payload(data);
        self.outstanding = Some(id);
        proof {
            assert(b@ =~~= spec_delivered_batch(mv));
        }
        b
    }

    /// The confirmation owed for the outstanding record: it carries that
    /// record's id, and the record stops being outstanding — it can be
    /// confirmed only this once.
    pub fn confirm(&mut self) -> (req: ConsumerRequest)
        requires
            old(self).is_started(),
            old(self).outstanding_id() is Some,
        ensures
            final(self).is_started(),
            final(self).outstanding_id() is None,
            req@ == ConsumerRequestView::Confirm(
                ConfirmationView { msg_id: old(self).outstanding_id().unwrap() },
            ),
    {
        let id = match &self.outstanding {
            Some(s) => s.clone(),
            None => String::new(),
        };
        self.outstanding = None;
        ConsumerRequest::Confirm(Confirmation { msg_id: id })
    }
}

/// The publishing half of one duplex stream. At most one sent record awaits
/// its confirmation at a time; a confirmation must bear the outstanding id,
/// and any other is fatal.
pub struct PublisherSession {
    started: bool,
    outstanding: Option<String>,
    next_id: u64,
}

impl PublisherSession {
    /// Whether the start directive has been issued.
    pub closed spec fn is_started(self) -> bool {
        self.started
    }

    /// The id of the sent record whose confirmation is still owed.
    pub closed spec fn outstanding_id(self) -> Option<Seq<char>> {
        match self.outstanding {
            Some(s) => Some(s@),
            None => None,
        }
    }

    /// How many ids the session has generated so far.
    pub closed spec fn ids_used(self) -> u64 {
        self.next_id
    }

    pub(crate) fn fresh() -> (s: PublisherSession)
        ensures
            !s.is_started(),
            s.outstanding_id() is None,
            s.ids_used() == 0,
    {
        PublisherSession { started: false, outstanding: None, next_id: 0 }
    }

    /// The directive that opens the stream. Issued once, before any record.
    pub fn start(&mut self, topic: &str) -> (req: PublisherRequest)
        requires
            !old(self).is_started(),
        ensures
            final(self).is_started(),
            final(self).outstanding_id() is None,
            final(self).ids_used() == old(self).ids_used(),
            req@ == (PublisherRequestView::Start { topic: topic@ }),
    {
        self.started = true;
        self.outstanding = None;
        PublisherRequest::Start { topic: topic.to_owned() }
    }

    /// The publish request for one message: it carries the message's payload
    /// exactly, under the message's `id` metadata entry or a generated id.
    /// The id becomes outstanding until its confirmation arrives.
    pub fn publish(&mut self, m: &Message) -> (req: PublisherRequest)
        requires
            old(self).is_started(),
            old(self).outstanding_id() is None,
            old(self).ids_used() < u64::MAX,
        ensures
            final(self).is_started(),
            req@ == PublisherRequestView::Publish(
                ProximoMessageView {
                    data: m@.data,
                    id: spec_publish_id(m@, old(self).ids_used()),
                },
            ),
            final(self).outstanding_id() == Some(spec_publish_id(m@, old(self).ids_used())),
            final(self).ids_used() == if spec_assoc(m@.metadata, "id"@) is Some {
                old(self).ids_used()
            } else {
                (old(self).ids_used() + 1) as u64
            },
    {
        let id: String = match assoc_get(&m.metadata, "id") {
            Some(v) => v.clone(),
            None => {
                let generated = u64_to_dec(self.next_id);
                self.next_id = self.next_id + 1;
                generated
            },
        };
        self.outstanding = Some(id.clone());
        PublisherRequest::Publish(ProximoMessage { data: copy_bytes(&m.data), id })
    }

    /// Takes the confirmation for the outstanding record. A confirmation
    /// bearing exactly the outstanding id settles it; a mismatched or
    /// unexpected one is fatal, and settles nothing.
    pub fn on_confirmation(&mut self, c: &Confirmation) -> (r: Result<(), PipelineError>)
        requires
            old(self).is_started(),
        ensures
            final(self).is_started(),
            final(self).ids_used() == old(self).ids_used(),
            r is Ok <==> old(self).outstanding_id() == Some(c@.msg_id),
            r is Ok ==> final(self).outstanding_id() is None,
            r is Err ==> final(self).outstanding_id() == old(self).outstanding_id(),
    {
        let matched = match &self.outstanding {
            Some(id) => str_eq(id.as_str(), c.msg_id.as_str()),
            None => false,
        };
        if matched {
            self.outstanding = None;
            Ok(())
        } else {
            Err(PipelineError::Sink(String::from_str("unexpected confirmation")))
        }
    }
}

/// Round trip: the record a publisher sends for a message carries that
/// message's payload exactly, and the batch a consumer builds from that
/// record holds that payload exactly — while any different payload yields a
/// different batch.
pub proof fn lemma_publish_consume_round_trip(
    m: MessageView,
    pm: ProximoMessageView,
    other: Seq<u8>,
)
    requires
        pm.data == m.data,
    ensures
        spec_delivered_batch(pm).messages.len() == 1,
        spec_delivered_batch(pm).messages[0].data == m.data,
        other != m.data ==> spec_delivered_batch(pm).messages[0].data != other,
{
}

/// One end of a connection to the broker, named by its endpoint.
pub struct Channel {
    /// Where the broker listens.
    pub endpoint: String,
}

impl Channel {
    /// A channel to the given endpoint.
    pub fn new(endpoint: String) -> (c: Channel)
        ensures
            c.endpoint == endpoint,
    {
        Channel { endpoint }
    }
}

/// Options for one call on a channel.
pub struct CallOption {
    /// An optional per-call timeout, in milliseconds.
    pub timeout_ms: Option<u64>,
}

impl Default for CallOption {
    /// No timeout.
    fn default() -> (r: CallOption)
        ensures
            r.timeout_ms is None,
    {
        CallOption { timeout_ms: None }
    }
}

/// The consuming client of the broker: it opens consume streams over its
/// channel.
pub struct MessageSourceClient {
    /// The connection the streams run over.
    pub channel: Channel,
}

impl MessageSourceClient {
    /// A client over the given channel.
    pub fn new(channel: Channel) -> (c: MessageSourceClient)
        ensures
            c.channel == channel,
    {
        MessageSourceClient { channel }
    }

    /// Opens one consume stream with the given options: a fresh session,
    /// nothing started and nothing outstanding.
    pub fn consume_opt(&self, opt: CallOption) -> (r: Result<ConsumerSession, PipelineError>)
        ensures
            r matches Ok(s) && !s.is_started() && s.outstanding_id() is None,
    {
        let _ = opt;
        Ok(ConsumerSession::fresh())
    }

    /// Opens one consume stream with default options.
    pub fn consume(&self) -> (r: Result<ConsumerSession, PipelineError>)
        ensures
            r matches Ok(s) && !s.is_started() && s.outstanding_id() is None,
    {
        self.consume_opt(CallOption::default())
    }
}

/// The publishing client of the broker: it opens publish streams over its
/// channel.
pub struct MessageSinkClient {
    /// The connection the streams run over.
    pub channel: Channel,
}

impl MessageSinkClient {
    /// A client over the given channel.
    pub fn new(channel: Channel) -> (c: MessageSinkClient)
        ensures
            c.channel == channel,
    {
        MessageSinkClient { channel }
    }

    /// Opens one publish stream with the given options: a fresh session,
    /// nothing started, nothing outstanding, no ids used.
    pub fn publish_opt(&self, opt: CallOption) -> (r: Result<PublisherSession, PipelineError>)
        ensures
            r matches Ok(s) && !s.is_started() && s.outstanding_id() is None && s.ids_used()
                == 0,
    {
        let _ = opt;
        Ok(PublisherSession::fresh())
    }

    /// Opens one publish stream with default options.
    pub fn publish(&self) -> (r: Result<PublisherSession, PipelineError>)
        ensures
            r matches Ok(s) && !s.is_started() && s.outstanding_id() is None && s.ids_used()
                == 0,
    {
        self.publish_opt(CallOption::default())
    }
}

/// The serving half of the consume stream: an implementation answers each
/// incoming consumer request with at most one record to deliver.
pub trait MessageSource {
    /// Handles one consumer request.
    fn consume(&mut self, req: ConsumerRequest) -> Option<ProximoMessage>;
}

/// The serving half of the publish stream: an implementation answers each
/// incoming publisher request with at most one confirmation.
pub trait MessageSink {
    /// Handles one publisher request.
    fn publish(&mut self, req: PublisherRequest) -> Option<Confirmation>;
}

/// A handler bound as a service.
pub struct Service<S> {
    /// The handler that answers the stream's requests.
    pub handler: S,
}

/// Binds a consume-stream handler as a service.
pub fn create_message_source<S: MessageSource>(s: S) -> (r: Service<S>)
    ensures
        r.handler == s,
{
    Service { handler: s }
}

/// Binds a publish-stream handler as a service.
pub fn create_message_sink<S: MessageSink>(s: S) -> (r: Service<S>)
    ensures
        r.handler == s,
{
    Service { handler: s }
}

} // verus!

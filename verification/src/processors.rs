//! The processor stages and the chain that folds a batch through them.
//!
//! A processor is a pure, order-preserving transform: one batch in, one batch
//! out, where a message may expand into several messages (split, select) or
//! be rewritten in place (replace). Patterns are compiled once, during
//! assembly, and reused for every batch.

use vstd::prelude::*;

use crate::bytesops::{append_slice, replace_all_bytes, replace_bytes, split_drop_empty,
    split_nonempty};
use crate::errors::ConfigError;
use crate::pattern::{compile_pattern, pattern_find_all, pattern_replace_all, pattern_source,
    pattern_split, pattern_valid, regex_find_all, regex_replace_all, regex_split};
use crate::{BatchView, Message, MessageBatch, MessageView};

verus! {

use vstd::utf8::encode_utf8;

/// A processor descriptor, as a pipeline specification names it: the `type`
/// discriminator picks the variant, the fields come from the descriptor's
/// body.
pub enum ProcessorConfig {
    /// Pass every batch through unchanged.
    Noop,
    /// Replace every occurrence of one literal substring by another in each
    /// message payload.
    Replace { from: String, to: String },
    /// Replace every match of a pattern in each message payload.
    RegexReplace { re: String, rep: String },
    /// Split each message payload at every match of a pattern; each fragment
    /// becomes a message of its own.
    RegexSplit { re: String },
    /// Keep only the fragments of each message payload that match a pattern;
    /// each match becomes a message of its own.
    RegexSelect { re: String },
    /// Pipe the batch through an external command: payloads newline-joined on
    /// its input, its output split back into messages. The command runs
    /// outside this library; see `subprocess_input` and
    /// `subprocess_output_batch`.
    Subprocess { name: String, args: Vec<String> },
}

/// The mathematical value of a `ProcessorConfig`.
pub enum ConfigView {
    Noop,
    Replace { from: Seq<char>, to: Seq<char> },
    RegexReplace { re: Seq<char>, rep: Seq<char> },
    RegexSplit { re: Seq<char> },
    RegexSelect { re: Seq<char> },
    Subprocess { name: Seq<char>, args: Seq<Seq<char>> },
}

impl View for ProcessorConfig {
    type V = ConfigView;

    open spec fn view(&self) -> ConfigView {
        match self {
            ProcessorConfig::Noop => ConfigView::Noop,
            ProcessorConfig::Replace { from, to } => ConfigView::Replace {
                from: from@,
                to: to@,
            },
            ProcessorConfig::RegexReplace { re, rep } => ConfigView::RegexReplace {
                re: re@,
                rep: rep@,
            },
            ProcessorConfig::RegexSplit { re } => ConfigView::RegexSplit { re: re@ },
            ProcessorConfig::RegexSelect { re } => ConfigView::RegexSelect { re: re@ },
            ProcessorConfig::Subprocess { name, args } => ConfigView::Subprocess {
                name: name@,
                args: args.deep_view(),
            },
        }
    }
}

impl DeepView for ProcessorConfig {
    type V = ConfigView;

    open spec fn deep_view(&self) -> ConfigView {
        self.view()
    }
}

/// A processor ready to run: patterns compiled, literals turned into bytes.
/// The subprocess descriptor has no compiled form here: running an external
/// command is the caller's part (see `subprocess_input`).
pub enum CompiledProcessor {
    Noop,
    Replace { from: Vec<u8>, to: Vec<u8> },
    RegexReplace { re: regex::bytes::Regex, rep: Vec<u8> },
    RegexSplit { re: regex::bytes::Regex },
    RegexSelect { re: regex::bytes::Regex },
}

/// The mathematical value of a `CompiledProcessor`: a compiled pattern is
/// identified by the pattern text it was built from.
pub enum ProcView {
    Noop,
    Replace(Seq<u8>, Seq<u8>),
    RegexReplace(Seq<char>, Seq<u8>),
    RegexSplit(Seq<char>),
    RegexSelect(Seq<char>),
}

impl View for CompiledProcessor {
    type V = ProcView;

    open spec fn view(&self) -> ProcView {
        match self {
            CompiledProcessor::Noop => ProcView::Noop,
            CompiledProcessor::Replace { from, to } => ProcView::Replace(from@, to@),
            CompiledProcessor::RegexReplace { re, rep } => ProcView::RegexReplace(
                pattern_source(*re),
                rep@,
            ),
            CompiledProcessor::RegexSplit { re } => ProcView::RegexSplit(pattern_source(*re)),
            CompiledProcessor::RegexSelect { re } => ProcView::RegexSelect(pattern_source(*re)),
        }
    }
}

impl DeepView for CompiledProcessor {
    type V = ProcView;

    open spec fn deep_view(&self) -> ProcView {
        self.view()
    }
}

/// A message carrying the given payload and no metadata, as split and select
/// produce them.
pub open spec fn plain_message(d: Seq<u8>) -> MessageView {
    MessageView { data: d, metadata: Seq::empty() }
}

/// One such message per payload, in order.
pub open spec fn plain_messages(ds: Seq<Seq<u8>>) -> Seq<MessageView>
    decreases ds.len(),
{
    if ds.len() == 0 {
        Seq::empty()
    } else {
        seq![plain_message(ds[0])] + plain_messages(ds.drop_first())
    }
}

/// What one processor makes of one message: zero or more messages, in order.
pub open spec fn proc_message(p: ProcView, m: MessageView) -> Seq<MessageView> {
    match p {
        ProcView::Noop => seq![m],
        ProcView::Replace(f, t) => seq![
            MessageView { data: replace_bytes(m.data, f, t), metadata: m.metadata },
        ],
        ProcView::RegexReplace(pat, rep) => seq![
            MessageView { data: regex_replace_all(pat, m.data, rep), metadata: m.metadata },
        ],
        ProcView::RegexSplit(pat) => plain_messages(regex_split(pat, m.data)),
        ProcView::RegexSelect(pat) => plain_messages(regex_find_all(pat, m.data)),
    }
}

/// What one processor makes of a message sequence: each message transformed,
/// the results concatenated in order.
pub open spec fn proc_messages(p: ProcView, ms: Seq<MessageView>) -> Seq<MessageView>
    decreases ms.len(),
{
    if ms.len() == 0 {
        Seq::empty()
    } else {
        proc_message(p, ms[0]) + proc_messages(p, ms.drop_first())
    }
}

/// What one processor makes of one batch: the messages transformed, the batch
/// metadata kept.
pub open spec fn proc_batch(p: ProcView, b: BatchView) -> BatchView {
    BatchView { messages: proc_messages(p, b.messages), metadata: b.metadata }
}

/// One processor applied to each batch of a sequence, independently and in
/// order.
pub open spec fn proc_batches(p: ProcView, bs: Seq<BatchView>) -> Seq<BatchView>
    decreases bs.len(),
{
    if bs.len() == 0 {
        Seq::empty()
    } else {
        seq![proc_batch(p, bs[0])] + proc_batches(p, bs.drop_first())
    }
}

/// A batch sequence folded through a processor chain, stage by stage: the
/// output of stage `n` is fed, in order, into stage `n + 1`.
pub open spec fn spec_chain(procs: Seq<ProcView>, bs: Seq<BatchView>) -> Seq<BatchView>
    decreases procs.len(),
{
    if procs.len() == 0 {
        bs
    } else {
        spec_chain(procs.drop_first(), proc_batches(procs[0], bs))
    }
}

proof fn lemma_plain_messages_push(ds: Seq<Seq<u8>>, d: Seq<u8>)
    ensures
        plain_messages(ds.push(d)) == plain_messages(ds).push(plain_message(d)),
    decreases ds.len(),
{
    if ds.len() == 0 {
        assert(ds.push(d).drop_first() =~= Seq::<Seq<u8>>::empty());
        assert(ds.push(d)[0] == d);
        assert(plain_messages(ds.push(d)) == seq![plain_message(d)] + plain_messages(
            Seq::<Seq<u8>>::empty(),
        ));
        assert(plain_messages(Seq::<Seq<u8>>::empty()) == Seq::<MessageView>::empty());
        assert(plain_messages(ds) == Seq::<MessageView>::empty());
        assert(plain_messages(ds.push(d)) =~~= plain_messages(ds).push(plain_message(d)));
    } else {
        assert(ds.push(d).drop_first() =~= ds.drop_first().push(d));
        lemma_plain_messages_push(ds.drop_first(), d);
        assert(plain_messages(ds.push(d)) =~~= plain_messages(ds).push(plain_message(d)));
    }
}

proof fn lemma_proc_messages_push(p: ProcView, ms: Seq<MessageView>, m: MessageView)
    ensures
        proc_messages(p, ms.push(m)) == proc_messages(p, ms) + proc_message(p, m),
    decreases ms.len(),
{
    if ms.len() == 0 {
        assert(ms.push(m).drop_first() =~= Seq::<MessageView>::empty());
        assert(ms.push(m)[0] == m);
        assert(proc_messages(p, ms.push(m)) == proc_message(p, m) + proc_messages(
            p,
            Seq::<MessageView>::empty(),
        ));
        assert(proc_messages(p, Seq::<MessageView>::empty()) == Seq::<MessageView>::empty());
        assert(proc_messages(p, ms) == Seq::<MessageView>::empty());
        assert(proc_messages(p, ms.push(m)) =~~= proc_messages(p, ms) + proc_message(p, m));
    } else {
        assert(ms.push(m).drop_first() =~= ms.drop_first().push(m));
        lemma_proc_messages_push(p, ms.drop_first(), m);
        assert(ms.push(m)[0] == ms[0]);
        assert(proc_messages(p, ms.push(m)) == proc_message(p, ms[0]) + proc_messages(
            p,
            ms.drop_first().push(m),
        ));
        assert(proc_messages(p, ms) == proc_message(p, ms[0]) + proc_messages(
            p,
            ms.drop_first(),
        ));
        assert(proc_messages(p, ms.push(m)) =~~= proc_messages(p, ms) + proc_message(p, m));
    }
}

proof fn lemma_proc_batches_push(p: ProcView, bs: Seq<BatchView>, b: BatchView)
    ensures
        proc_batches(p, bs.push(b)) == proc_batches(p, bs).push(proc_batch(p, b)),
    decreases bs.len(),
{
    if bs.len() == 0 {
        assert(bs.push(b).drop_first() =~= Seq::<BatchView>::empty());
        assert(bs.push(b)[0] == b);
        assert(proc_batches(p, bs.push(b)) == seq![proc_batch(p, b)] + proc_batches(
            p,
            Seq::<BatchView>::empty(),
        ));
        assert(proc_batches(p, Seq::<BatchView>::empty()) == Seq::<BatchView>::empty());
        assert(proc_batches(p, bs) == Seq::<BatchView>::empty());
        assert(proc_batches(p, bs.push(b)) =~~= proc_batches(p, bs).push(proc_batch(p, b)));
    } else {
        assert(bs.push(b).drop_first() =~= bs.drop_first().push(b));
        lemma_proc_batches_push(p, bs.drop_first(), b);
        assert(bs.push(b)[0] == bs[0]);
        assert(proc_batches(p, bs.push(b)) == seq![proc_batch(p, bs[0])] + proc_batches(
            p,
            bs.drop_first().push(b),
        ));
        assert(proc_batches(p, bs) == seq![proc_batch(p, bs[0])] + proc_batches(
            p,
            bs.drop_first(),
        ));
        assert(proc_batches(p, bs.push(b)) =~~= proc_batches(p, bs).push(proc_batch(p, b)));
    }
}

/// Builds one message per payload, in order, each without metadata.
pub fn messages_from_payloads(ps: Vec<Vec<u8>>) -> (r: Vec<Message>)
    ensures
        r.deep_view() == plain_messages(ps.deep_view()),
{
    let mut r: Vec<Message> = Vec::new();
    let mut i: usize = 0;
    proof {
        assert(ps.deep_view().take(0) =~= Seq::<Seq<u8>>::empty());
        assert(r.deep_view() =~= plain_messages(ps.deep_view().take(0)));
    }
    while i < ps.len()
        invariant
            0 <= i <= ps.len(),
            ps.deep_view().len() == ps.len(),
            r.deep_view() == plain_messages(ps.deep_view().take(i as int)),
        decreases ps.len() - i,
    {
        let ghost old_r = r.deep_view();
        let data = ps[i].clone();
        proof {
            assert(data@ =~= ps[i as int]@);
            assert(ps.deep_view()[i as int] =~= ps[i as int]@);
        }
        r.push(Message { data, metadata: Vec::new() });
        proof {
            assert(ps.deep_view().take(i as int).push(ps.deep_view()[i as int]) =~= ps.deep_view()
                .take(i as int + 1));
            lemma_plain_messages_push(ps.deep_view().take(i as int), ps.deep_view()[i as int]);
            assert(r.deep_view() =~~= old_r.push(plain_message(ps.deep_view()[i as int])));
        }
        i = i + 1;
    }
    proof {
        assert(ps.deep_view().take(i as int) =~= ps.deep_view());
        assert(r.deep_view() =~~= plain_messages(ps.deep_view()));
    }
    r
}

impl CompiledProcessor {
    /// What this processor makes of one message. A message the split pattern
    /// never matches comes through as one message equal to itself, and a
    /// message the select pattern never matches contributes no message at
    /// all.
    pub fn process_message(&self, m: &Message) -> (out: Vec<Message>)
        ensures
            out.deep_view() == proc_message(self@, m@),
            (self@ matches ProcView::RegexSplit(pat) && regex_find_all(pat, m@.data).len()
                == 0) ==> out.deep_view() == seq![plain_message(m@.data)],
            (self@ matches ProcView::RegexSelect(pat) && regex_find_all(pat, m@.data).len()
                == 0) ==> out.deep_view() == Seq::<MessageView>::empty(),
    {
        match self {
            CompiledProcessor::Noop => {
                let mut out: Vec<Message> = Vec::new();
                let c = m.clone();
                proof {
                    assert(c@ == m@);
                }
                out.push(c);
                proof {
                    assert(self@ == ProcView::Noop);
                    assert(proc_message(self@, m@) == seq![m@]);
                    assert(out.deep_view().len() == 1);
                    assert(out.deep_view()[0] == out@[0]@);
                    assert(out.deep_view() =~~= proc_message(self@, m@));
                }
                out
            },
            CompiledProcessor::Replace { from, to } => {
                let data = replace_all_bytes(m.data.as_slice(), from.as_slice(), to.as_slice());
                let mut out: Vec<Message> = Vec::new();
                out.push(Message { data, metadata: crate::clone_metadata(&m.metadata) });
                proof {
                    assert(out.deep_view() =~~= proc_message(self@, m@));
                }
                out
            },
            CompiledProcessor::RegexReplace { re, rep } => {
                let data = pattern_replace_all(re, m.data.as_slice(), rep.as_slice());
                let mut out: Vec<Message> = Vec::new();
                out.push(Message { data, metadata: crate::clone_metadata(&m.metadata) });
                proof {
                    assert(out.deep_view() =~~= proc_message(self@, m@));
                }
                out
            },
            CompiledProcessor::RegexSplit { re } => {
                let payloads = pattern_split(re, m.data.as_slice());
                let out = messages_from_payloads(payloads);
                proof {
                    if regex_find_all(pattern_source(*re), m@.data).len() == 0 {
                        assert(seq![m@.data].drop_first() =~= Seq::<Seq<u8>>::empty());
                        assert(seq![m@.data][0] == m@.data);
                        assert(plain_messages(seq![m@.data]) == seq![plain_message(m@.data)]
                            + plain_messages(Seq::<Seq<u8>>::empty()));
                        assert(plain_messages(Seq::<Seq<u8>>::empty())
                            == Seq::<MessageView>::empty());
                        assert(plain_messages(seq![m@.data]) =~~= seq![plain_message(m@.data)]);
                    }
                }
                out
            },
            CompiledProcessor::RegexSelect { re } => {
                let payloads = pattern_find_all(re, m.data.as_slice());
                let out = messages_from_payloads(payloads);
                proof {
                    if regex_find_all(pattern_source(*re), m@.data).len() == 0 {
                        assert(plain_messages(regex_find_all(pattern_source(*re), m@.data))
                            =~~= Seq::<MessageView>::empty());
                    }
                }
                out
            },
        }
    }

    /// What this processor makes of one batch: every message transformed in
    /// order, the batch metadata kept. Always exactly one output batch.
    pub fn apply(&self, batch: &MessageBatch) -> (out: Vec<MessageBatch>)
        ensures
            out.deep_view() == seq![proc_batch(self@, batch@)],
    {
        let mut msgs: Vec<Message> = Vec::new();
        let mut j: usize = 0;
        proof {
            assert(batch@.messages.take(0) =~= Seq::<MessageView>::empty());
            assert(msgs.deep_view() =~~= proc_messages(self@, batch@.messages.take(0)));
        }
        while j < batch.messages.len()
            invariant
                0 <= j <= batch.messages.len(),
                batch@.messages.len() == batch.messages.len(),
                msgs.deep_view() == proc_messages(self@, batch@.messages.take(j as int)),
            decreases batch.messages.len() - j,
        {
            let ghost old_msgs = msgs.deep_view();
            let mut produced = self.process_message(&batch.messages[j]);
            let ghost produced_view = produced.deep_view();
            msgs.append(&mut produced);
            proof {
                assert(batch@.messages[j as int] == batch.messages[j as int]@);
                assert(batch@.messages.take(j as int).push(batch@.messages[j as int])
                    =~= batch@.messages.take(j as int + 1));
                lemma_proc_messages_push(
                    self@,
                    batch@.messages.take(j as int),
                    batch@.messages[j as int],
                );
                assert(msgs.deep_view() =~~= old_msgs + produced_view);
            }
            j = j + 1;
        }
        proof {
            assert(batch@.messages.take(j as int) =~= batch@.messages);
        }
        let out_batch = MessageBatch { messages: msgs, metadata: crate::clone_metadata(
            &batch.metadata,
        ) };
        let mut out: Vec<MessageBatch> = Vec::new();
        out.push(out_batch);
        proof {
            assert(out.deep_view() =~~= seq![proc_batch(self@, batch@)]);
        }
        out
    }
}

/// Folds one batch through the whole chain: the outputs of each stage are
/// flattened, in order, into the next.
pub fn process_chain(procs: &Vec<CompiledProcessor>, batch: &MessageBatch) -> (out: Vec<
    MessageBatch,
>)
    ensures
        out.deep_view() == spec_chain(procs.deep_view(), seq![batch@]),
{
    let mut current: Vec<MessageBatch> = Vec::new();
    current.push(batch.clone());
    let mut i: usize = 0;
    proof {
        assert(current.deep_view() =~~= seq![batch@]);
        assert(procs.deep_view().skip(0) =~= procs.deep_view());
    }
    while i < procs.len()
        invariant
            0 <= i <= procs.len(),
            procs.deep_view().len() == procs.len(),
            spec_chain(procs.deep_view(), seq![batch@]) == spec_chain(
                procs.deep_view().skip(i as int),
                current.deep_view(),
            ),
        decreases procs.len() - i,
    {
        let mut next: Vec<MessageBatch> = Vec::new();
        let mut j: usize = 0;
        proof {
            assert(current.deep_view().take(0) =~= Seq::<BatchView>::empty());
            assert(next.deep_view() =~~= proc_batches(
                procs.deep_view()[i as int],
                current.deep_view().take(0),
            ));
        }
        while j < current.len()
            invariant
                0 <= j <= current.len(),
                0 <= i < procs.len(),
                current.deep_view().len() == current.len(),
                procs.deep_view().len() == procs.len(),
                next.deep_view() == proc_batches(
                    procs.deep_view()[i as int],
                    current.deep_view().take(j as int),
                ),
            decreases current.len() - j,
        {
            let ghost old_next = next.deep_view();
            let mut outs = procs[i].apply(&current[j]);
            let ghost outs_view = outs.deep_view();
            next.append(&mut outs);
            proof {
                assert(procs.deep_view()[i as int] == procs[i as int]@);
                assert(current.deep_view()[j as int] == current[j as int]@);
                assert(current.deep_view().take(j as int).push(current.deep_view()[j as int])
                    =~= current.deep_view().take(j as int + 1));
                lemma_proc_batches_push(
                    procs.deep_view()[i as int],
                    current.deep_view().take(j as int),
                    current.deep_view()[j as int],
                );
                assert(next.deep_view() =~~= old_next + outs_view);
                assert(old_next + seq![proc_batch(
                    procs.deep_view()[i as int],
                    current.deep_view()[j as int],
                )] =~~= old_next.push(proc_batch(
                    procs.deep_view()[i as int],
                    current.deep_view()[j as int],
                )));
            }
            j = j + 1;
        }
        proof {
            assert(current.deep_view().take(j as int) =~= current.deep_view());
            let rest = procs.deep_view().skip(i as int);
            assert(rest[0] == procs.deep_view()[i as int]);
            assert(rest.drop_first() =~= procs.deep_view().skip(i as int + 1));
            assert(spec_chain(rest, current.deep_view()) == spec_chain(
                procs.deep_view().skip(i as int + 1),
                proc_batches(procs.deep_view()[i as int], current.deep_view()),
            ));
        }
        current = next;
        i = i + 1;
    }
    proof {
        assert(procs.deep_view().skip(i as int) =~= Seq::<ProcView>::empty());
    }
    current
}

/// Whether a descriptor can be compiled into an in-library processor: every
/// pattern it names compiles. The subprocess descriptor never can; its
/// transform runs an external command.
pub open spec fn config_compiles(c: ConfigView) -> bool {
    match c {
        ConfigView::Noop => true,
        ConfigView::Replace { .. } => true,
        ConfigView::RegexReplace { re, .. } => pattern_valid(re),
        ConfigView::RegexSplit { re } => pattern_valid(re),
        ConfigView::RegexSelect { re } => pattern_valid(re),
        ConfigView::Subprocess { .. } => false,
    }
}

/// The compiled form of a descriptor that compiles.
pub open spec fn spec_compile(c: ConfigView) -> ProcView {
    match c {
        ConfigView::Noop => ProcView::Noop,
        ConfigView::Replace { from, to } => ProcView::Replace(
            encode_utf8(from),
            encode_utf8(to),
        ),
        ConfigView::RegexReplace { re, rep } => ProcView::RegexReplace(re, encode_utf8(rep)),
        ConfigView::RegexSplit { re } => ProcView::RegexSplit(re),
        ConfigView::RegexSelect { re } => ProcView::RegexSelect(re),
        ConfigView::Subprocess { .. } => vstd::pervasive::arbitrary(),
    }
}

fn bytes_of_str(s: &str) -> (r: Vec<u8>)
    ensures
        r@ == encode_utf8(s@),
{
    let mut r: Vec<u8> = Vec::new();
    append_slice(&mut r, s.as_bytes());
    proof {
        assert(r@ =~= encode_utf8(s@));
    }
    r
}

/// Turns one descriptor into a runnable processor, compiling its pattern.
/// The subprocess descriptor is excluded: its transform runs an external
/// command, which this library does not do; callers wrap `subprocess_input`
/// and `subprocess_output_batch` around their own command runner instead.
pub fn compile_processor(cfg: &ProcessorConfig) -> (r: Result<CompiledProcessor, ConfigError>)
    requires
        !(cfg@ is Subprocess),
    ensures
        r is Ok <==> config_compiles(cfg@),
        r matches Ok(p) ==> p@ == spec_compile(cfg@),
        r matches Err(e) ==> e matches ConfigError::InvalidPattern(s) && !pattern_valid(s@),
{
    match cfg {
        ProcessorConfig::Noop => Ok(CompiledProcessor::Noop),
        ProcessorConfig::Replace { from, to } => Ok(
            CompiledProcessor::Replace {
                from: bytes_of_str(from.as_str()),
                to: bytes_of_str(to.as_str()),
            },
        ),
        ProcessorConfig::RegexReplace { re, rep } => match compile_pattern(re.as_str()) {
            Ok(compiled) => Ok(
                CompiledProcessor::RegexReplace {
                    re: compiled,
                    rep: bytes_of_str(rep.as_str()),
                },
            ),
            Err(_) => Err(ConfigError::InvalidPattern(re.clone())),
        },
        ProcessorConfig::RegexSplit { re } => match compile_pattern(re.as_str()) {
            Ok(compiled) => Ok(CompiledProcessor::RegexSplit { re: compiled }),
            Err(_) => Err(ConfigError::InvalidPattern(re.clone())),
        },
        ProcessorConfig::RegexSelect { re } => match compile_pattern(re.as_str()) {
            Ok(compiled) => Ok(CompiledProcessor::RegexSelect { re: compiled }),
            Err(_) => Err(ConfigError::InvalidPattern(re.clone())),
        },
        ProcessorConfig::Subprocess { .. } => {
            proof {
                assert(false);
            }
            Err(ConfigError::InvalidPattern(String::new()))
        },
    }
}

proof fn lemma_noop_messages(ms: Seq<MessageView>)
    ensures
        proc_messages(ProcView::Noop, ms) == ms,
    decreases ms.len(),
{
    if ms.len() == 0 {
        assert(proc_messages(ProcView::Noop, ms) =~= ms);
    } else {
        lemma_noop_messages(ms.drop_first());
        assert(proc_messages(ProcView::Noop, ms) =~~= ms);
    }
}

proof fn lemma_noop_batches(bs: Seq<BatchView>)
    ensures
        proc_batches(ProcView::Noop, bs) == bs,
    decreases bs.len(),
{
    if bs.len() == 0 {
        assert(proc_batches(ProcView::Noop, bs) =~= bs);
    } else {
        lemma_noop_messages(bs[0].messages);
        assert(proc_batch(ProcView::Noop, bs[0]) =~= bs[0]);
        lemma_noop_batches(bs.drop_first());
        assert(proc_batches(ProcView::Noop, bs) =~~= bs);
    }
}

/// A chain holding only the no-op processor returns every batch sequence
/// unchanged: content, metadata and order are all preserved.
pub proof fn lemma_identity_chain(bs: Seq<BatchView>)
    ensures
        spec_chain(seq![ProcView::Noop], bs) == bs,
{
    lemma_noop_batches(bs);
    assert(seq![ProcView::Noop].drop_first() =~= Seq::<ProcView>::empty());
    assert(spec_chain(seq![ProcView::Noop], bs) == spec_chain(
        Seq::<ProcView>::empty(),
        proc_batches(ProcView::Noop, bs),
    ));
}

#[verifier::rlimit(50)]
proof fn lemma_replace_messages(from: Seq<u8>, to: Seq<u8>, ms: Seq<MessageView>)
    ensures
        proc_messages(ProcView::Replace(from, to), ms).len() == ms.len(),
        forall|i: int|
            0 <= i < ms.len() ==> {
                &&& #[trigger] proc_messages(ProcView::Replace(from, to), ms)[i].data
                    == replace_bytes(ms[i].data, from, to)
                &&& proc_messages(ProcView::Replace(from, to), ms)[i].metadata == ms[
                    i].metadata
            },
    decreases ms.len(),
{
    if ms.len() > 0 {
        lemma_replace_messages(from, to, ms.drop_first());
        let out = proc_messages(ProcView::Replace(from, to), ms);
        let rest = proc_messages(ProcView::Replace(from, to), ms.drop_first());
        assert forall|i: int| 0 <= i < ms.len() implies {
            &&& #[trigger] out[i].data == replace_bytes(ms[i].data, from, to)
            &&& out[i].metadata == ms[i].metadata
        } by {
            if i > 0 {
                assert(out[i] == rest[i - 1]);
                assert(ms.drop_first()[i - 1] == ms[i]);
            }
        }
    }
}

/// The substring-replace processor leaves the shape of a batch alone: the
/// batch metadata and the message count are unchanged, and each message keeps
/// its own metadata while its payload becomes the replaced payload.
pub proof fn lemma_replace_batch_shape(from: Seq<u8>, to: Seq<u8>, b: BatchView)
    ensures
        proc_batch(ProcView::Replace(from, to), b).metadata == b.metadata,
        proc_batch(ProcView::Replace(from, to), b).messages.len() == b.messages.len(),
        forall|i: int|
            0 <= i < b.messages.len() ==> {
                &&& #[trigger] proc_batch(ProcView::Replace(from, to), b).messages[i].data
                    == replace_bytes(b.messages[i].data, from, to)
                &&& proc_batch(ProcView::Replace(from, to), b).messages[i].metadata
                    == b.messages[i].metadata
            },
{
    lemma_replace_messages(from, to, b.messages);
}

proof fn lemma_proc_batches_concat(p: ProcView, b1: Seq<BatchView>, b2: Seq<BatchView>)
    ensures
        proc_batches(p, b1 + b2) == proc_batches(p, b1) + proc_batches(p, b2),
    decreases b1.len(),
{
    if b1.len() == 0 {
        assert(b1 + b2 =~= b2);
        assert(proc_batches(p, b1) =~= Seq::<BatchView>::empty());
        assert(proc_batches(p, b1) + proc_batches(p, b2) =~= proc_batches(p, b2));
    } else {
        assert((b1 + b2)[0] == b1[0]);
        assert((b1 + b2).drop_first() =~= b1.drop_first() + b2);
        lemma_proc_batches_concat(p, b1.drop_first(), b2);
        assert(proc_batches(p, b1 + b2) =~~= proc_batches(p, b1) + proc_batches(p, b2));
    }
}

/// Batch boundaries are preserved, never merged: a chain run over the
/// concatenation of two batch sequences yields the concatenation of the runs
/// over each — every input batch is processed independently of its
/// neighbours.
pub proof fn lemma_chain_batches_independent(
    procs: Seq<ProcView>,
    b1: Seq<BatchView>,
    b2: Seq<BatchView>,
)
    ensures
        spec_chain(procs, b1 + b2) == spec_chain(procs, b1) + spec_chain(procs, b2),
    decreases procs.len(),
{
    if procs.len() > 0 {
        lemma_proc_batches_concat(procs[0], b1, b2);
        lemma_chain_batches_independent(
            procs.drop_first(),
            proc_batches(procs[0], b1),
            proc_batches(procs[0], b2),
        );
    }
}

/// A pipeline ready to run: the ordered chain of compiled processors.
pub struct Pipeline {
    /// The chain, in configuration order.
    pub processors: Vec<CompiledProcessor>,
}

/// Whether every descriptor of a chain can be compiled.
pub open spec fn configs_compile(cfgs: Seq<ConfigView>) -> bool {
    forall|i: int| 0 <= i < cfgs.len() ==> config_compiles(#[trigger] cfgs[i])
}

/// Builds the processor chain from its descriptors, in order, compiling every
/// pattern once. Succeeds exactly when every pattern compiles; fails with the
/// first pattern that does not. Subprocess descriptors are excluded, as with
/// `compile_processor`.
pub fn assemble_pipeline(cfgs: &Vec<ProcessorConfig>) -> (r: Result<Pipeline, ConfigError>)
    requires
        forall|i: int| 0 <= i < cfgs.deep_view().len() ==> !(#[trigger] cfgs.deep_view()[i]
            is Subprocess),
    ensures
        r is Ok <==> configs_compile(cfgs.deep_view()),
        r matches Ok(p) ==> {
            &&& p.processors.deep_view().len() == cfgs.deep_view().len()
            &&& forall|i: int|
                0 <= i < cfgs.deep_view().len() ==> #[trigger] p.processors.deep_view()[i]
                    == spec_compile(cfgs.deep_view()[i])
        },
        r matches Err(e) ==> e matches ConfigError::InvalidPattern(s) && !pattern_valid(s@),
{
    let mut processors: Vec<CompiledProcessor> = Vec::new();
    let mut i: usize = 0;
    while i < cfgs.len()
        invariant
            0 <= i <= cfgs.len(),
            cfgs.deep_view().len() == cfgs.len(),
            forall|k: int| 0 <= k < cfgs.deep_view().len() ==> !(#[trigger] cfgs.deep_view()[k]
                is Subprocess),
            processors.deep_view().len() == i,
            forall|k: int|
                0 <= k < i ==> #[trigger] processors.deep_view()[k] == spec_compile(
                    cfgs.deep_view()[k],
                ),
            forall|k: int| 0 <= k < i ==> config_compiles(#[trigger] cfgs.deep_view()[k]),
        decreases cfgs.len() - i,
    {
        proof {
            assert(cfgs.deep_view()[i as int] == cfgs[i as int]@);
        }
        match compile_processor(&cfgs[i]) {
            Ok(p) => {
                let ghost old_ps = processors.deep_view();
                processors.push(p);
                proof {
                    assert(processors.deep_view() =~= old_ps.push(p@));
                }
            },
            Err(e) => {
                proof {
                    assert(!config_compiles(cfgs.deep_view()[i as int]));
                }
                return Err(e);
            },
        }
        i = i + 1;
    }
    Ok(Pipeline { processors })
}

/// The payloads of a batch, in order.
pub open spec fn payloads_of(b: BatchView) -> Seq<Seq<u8>> {
    payloads_of_messages(b.messages)
}

/// The payloads of a message sequence, in order.
pub open spec fn payloads_of_messages(ms: Seq<MessageView>) -> Seq<Seq<u8>>
    decreases ms.len(),
{
    if ms.len() == 0 {
        Seq::empty()
    } else {
        seq![ms[0].data] + payloads_of_messages(ms.drop_first())
    }
}

/// Payload sequences joined by one separator byte between neighbours.
pub open spec fn join_with(xs: Seq<Seq<u8>>, sep: u8) -> Seq<u8>
    decreases xs.len(),
{
    if xs.len() == 0 {
        Seq::empty()
    } else if xs.len() == 1 {
        xs[0]
    } else {
        xs[0] + seq![sep] + join_with(xs.drop_first(), sep)
    }
}

proof fn lemma_join_with_push(xs: Seq<Seq<u8>>, x: Seq<u8>, sep: u8)
    ensures
        join_with(xs.push(x), sep) == if xs.len() == 0 {
            x
        } else {
            join_with(xs, sep) + seq![sep] + x
        },
    decreases xs.len(),
{
    if xs.len() == 0 {
        assert(join_with(xs.push(x), sep) =~= x);
    } else if xs.len() == 1 {
        assert(xs.push(x).drop_first() =~= seq![x]);
        assert(join_with(seq![x], sep) == x);
        assert(join_with(xs.push(x), sep) =~= join_with(xs, sep) + seq![sep] + x);
    } else {
        assert(xs.push(x).drop_first() =~= xs.drop_first().push(x));
        lemma_join_with_push(xs.drop_first(), x, sep);
        assert(xs.drop_first().len() >= 1);
        assert(join_with(xs.push(x), sep) =~= join_with(xs, sep) + seq![sep] + x);
    }
}

proof fn lemma_payloads_push(ms: Seq<MessageView>, m: MessageView)
    ensures
        payloads_of_messages(ms.push(m)) == payloads_of_messages(ms).push(m.data),
    decreases ms.len(),
{
    if ms.len() == 0 {
        assert(ms.push(m).drop_first() =~= Seq::<MessageView>::empty());
        assert(ms.push(m)[0] == m);
        assert(payloads_of_messages(ms.push(m)) == seq![m.data] + payloads_of_messages(
            Seq::<MessageView>::empty(),
        ));
        assert(payloads_of_messages(Seq::<MessageView>::empty()) == Seq::<Seq<u8>>::empty());
        assert(payloads_of_messages(ms) == Seq::<Seq<u8>>::empty());
        assert(payloads_of_messages(ms.push(m)) =~~= payloads_of_messages(ms).push(m.data));
    } else {
        assert(ms.push(m).drop_first() =~= ms.drop_first().push(m));
        lemma_payloads_push(ms.drop_first(), m);
        assert(ms.push(m)[0] == ms[0]);
        assert(payloads_of_messages(ms.push(m)) == seq![ms[0].data] + payloads_of_messages(
            ms.drop_first().push(m),
        ));
        assert(payloads_of_messages(ms) == seq![ms[0].data] + payloads_of_messages(
            ms.drop_first(),
        ));
        assert(payloads_of_messages(ms.push(m)) =~~= payloads_of_messages(ms).push(m.data));
    }
}

/// What an external transform command is fed on its input stream: the batch's
/// payloads joined by newlines, with one trailing newline.
pub fn subprocess_input(batch: &MessageBatch) -> (r: Vec<u8>)
    ensures
        r@ == join_with(payloads_of(batch@), 10).push(10),
{
    let mut out: Vec<u8> = Vec::new();
    let mut i: usize = 0;
    proof {
        assert(batch@.messages.take(0) =~= Seq::<MessageView>::empty());
        assert(out@ =~= join_with(payloads_of_messages(batch@.messages.take(0)), 10));
    }
    while i < batch.messages.len()
        invariant
            0 <= i <= batch.messages.len(),
            batch@.messages.len() == batch.messages.len(),
            out@ == join_with(payloads_of_messages(batch@.messages.take(i as int)), 10),
        decreases batch.messages.len() - i,
    {
        let ghost pre = payloads_of_messages(batch@.messages.take(i as int));
        if i > 0 {
            out.push(10);
        }
        append_slice(&mut out, batch.messages[i].data.as_slice());
        proof {
            assert(batch@.messages[i as int] == batch.messages[i as int]@);
            assert(batch@.messages.take(i as int).push(batch@.messages[i as int])
                =~= batch@.messages.take(i as int + 1));
            lemma_payloads_push(batch@.messages.take(i as int), batch@.messages[i as int]);
            lemma_join_with_push(pre, batch@.messages[i as int].data, 10);
            if i == 0 {
                assert(pre =~= Seq::<Seq<u8>>::empty());
                assert(out@ =~= join_with(
                    payloads_of_messages(batch@.messages.take(i as int + 1)),
                    10,
                ));
            } else {
                assert(pre.len() >= 1) by {
                    assert(batch@.messages.take(i as int).len() == i);
                    lemma_payloads_len(batch@.messages.take(i as int));
                }
                assert(out@ =~= join_with(pre, 10) + seq![10u8] + batch@.messages[
                    i as int].data);
                assert(out@ =~= join_with(
                    payloads_of_messages(batch@.messages.take(i as int + 1)),
                    10,
                ));
            }
        }
        i = i + 1;
    }
    proof {
        assert(batch@.messages.take(i as int) =~= batch@.messages);
    }
    out.push(10);
    out
}

proof fn lemma_payloads_len(ms: Seq<MessageView>)
    ensures
        payloads_of_messages(ms).len() == ms.len(),
    decreases ms.len(),
{
    if ms.len() > 0 {
        lemma_payloads_len(ms.drop_first());
    }
}

/// What becomes of an external transform command's output stream: each
/// non-empty newline-delimited token is one message, and the original batch's
/// metadata is kept.
pub fn subprocess_output_batch(metadata: Vec<(String, String)>, output: &[u8]) -> (b: MessageBatch)
    ensures
        b@.metadata == metadata.deep_view(),
        b@.messages == plain_messages(split_nonempty(output@, 10)),
{
    let payloads = split_drop_empty(output, 10);
    let messages = messages_from_payloads(payloads);
    MessageBatch { messages, metadata }
}

} // verus!

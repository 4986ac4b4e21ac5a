//! Spans: their identity, their life from start to finish, and what is left
//! of them when they are finished.

use crate::channel::SpanSender;
use crate::constants::FLAG_SAMPLED;
use crate::log::logs_view;
use crate::log::Log;
use crate::log::LogView;
use crate::tag::tags_view;
use crate::tag::Tag;
use crate::tag::TagView;
use crate::text_map::put;
use crate::text_map::Entries;
use crate::text_map::TextMap;
use crate::time::whole_micros;
use crate::time::Timestamp;
use vstd::prelude::*;

verus! {

/// The 128-bit identifier of a trace, as its two halves.
#[derive(Debug, Clone, Copy, PartialEq, Eq, Structural)]
pub struct TraceId {
    pub high: u64,
    pub low: u64,
}

impl TraceId {
    /// The identifier as one number.
    pub open spec fn value(self) -> nat {
        (self.high as nat) * 0x1_0000_0000_0000_0000 + (self.low as nat)
    }

    /// The identifier with the given halves.
    pub fn new(high: u64, low: u64) -> (r: TraceId)
        ensures
            r == (TraceId { high, low }),
    {
        TraceId { high, low }
    }

    /// The identifier that is the number `value`.
    pub fn from_u128(value: u128) -> (r: TraceId)
        ensures
            r.value() == value,
            r.high == value / 0x1_0000_0000_0000_0000,
            r.low == value % 0x1_0000_0000_0000_0000,
    {
        let high = (value / 0x1_0000_0000_0000_0000) as u64;
        let low = (value % 0x1_0000_0000_0000_0000) as u64;
        TraceId { high, low }
    }

    /// The identifier as one number.
    pub fn to_u128(&self) -> (r: u128)
        ensures
            r == self.value(),
    {
        (self.high as u128) * 0x1_0000_0000_0000_0000 + (self.low as u128)
    }
}

/// Whether the flags byte says that the trace is sampled: its lowest bit.
pub open spec fn flags_sampled(flags: u8) -> bool {
    flags % 2 == 1
}

/// What identifies a span and travels with it: the trace, the span, its
/// parent, the flags and the baggage.
///
/// A parent identifier of zero says that the span has no parent.
#[derive(Debug)]
pub struct SpanContext {
    pub trace_id: TraceId,
    pub span_id: u64,
    pub parent_span_id: u64,
    pub flags: u8,
    pub baggage: TextMap,
}

/// What a span context holds.
pub struct SpanContextView {
    pub trace_id: TraceId,
    pub span_id: u64,
    pub parent_span_id: u64,
    pub flags: u8,
    pub baggage: Entries,
}

impl View for SpanContext {
    type V = SpanContextView;

    open spec fn view(&self) -> SpanContextView {
        SpanContextView {
            trace_id: self.trace_id,
            span_id: self.span_id,
            parent_span_id: self.parent_span_id,
            flags: self.flags,
            baggage: self.baggage@,
        }
    }
}

impl Clone for SpanContext {
    fn clone(&self) -> (r: Self)
        ensures
            r@ == self@,
    {
        SpanContext {
            trace_id: self.trace_id,
            span_id: self.span_id,
            parent_span_id: self.parent_span_id,
            flags: self.flags,
            baggage: self.baggage.clone(),
        }
    }
}

impl SpanContext {
    /// A context without baggage.
    pub fn new(trace_id: TraceId, span_id: u64, parent_span_id: u64, flags: u8) -> (r: SpanContext)
        ensures
            r@ == (SpanContextView {
                trace_id,
                span_id,
                parent_span_id,
                flags,
                baggage: Entries::empty(),
            }),
    {
        SpanContext { trace_id, span_id, parent_span_id, flags, baggage: TextMap::new() }
    }

    /// The trace that the span belongs to.
    pub fn trace_id(&self) -> (r: TraceId)
        ensures
            r == self@.trace_id,
    {
        self.trace_id
    }

    /// The identifier of the span.
    pub fn span_id(&self) -> (r: u64)
        ensures
            r == self@.span_id,
    {
        self.span_id
    }

    /// The identifier of the parent span, if the span has a parent.
    pub fn parent_span_id(&self) -> (r: Option<u64>)
        ensures
            r == if self@.parent_span_id == 0 {
                None
            } else {
                Some(self@.parent_span_id)
            },
    {
        if self.parent_span_id == 0 {
            None
        } else {
            Some(self.parent_span_id)
        }
    }

    /// The flags byte.
    pub fn flags(&self) -> (r: u8)
        ensures
            r == self@.flags,
    {
        self.flags
    }

    /// Whether the trace is sampled.
    pub fn is_sampled(&self) -> (r: bool)
        ensures
            r == flags_sampled(self@.flags),
    {
        self.flags % 2 == 1
    }

    /// The baggage: the text that travels with every span of the trace.
    pub fn baggage(&self) -> (r: &TextMap)
        ensures
            r@ == self@.baggage,
    {
        &self.baggage
    }

    /// Sets the baggage item `name` to `value`.
    pub fn set_baggage_item(&mut self, name: &str, value: &str)
        ensures
            final(self)@ == (SpanContextView {
                baggage: put(old(self)@.baggage, name@, value@),
                ..old(self)@
            }),
    {
        self.baggage.set(name, value);
    }
}

/// How a span relates to a span that it refers to.
#[derive(Debug, Clone, Copy, PartialEq, Eq, Structural)]
pub enum ReferenceKind {
    ChildOf,
    FollowsFrom,
}

/// A reference from one span to another.
#[derive(Debug)]
pub struct SpanReference {
    pub kind: ReferenceKind,
    pub context: SpanContext,
}

/// What a span reference holds.
pub struct SpanReferenceView {
    pub kind: ReferenceKind,
    pub context: SpanContextView,
}

impl View for SpanReference {
    type V = SpanReferenceView;

    open spec fn view(&self) -> SpanReferenceView {
        SpanReferenceView { kind: self.kind, context: self.context@ }
    }
}

impl Clone for SpanReference {
    fn clone(&self) -> (r: Self)
        ensures
            r@ == self@,
    {
        SpanReference { kind: self.kind, context: self.context.clone() }
    }
}

/// What each reference of a sequence holds.
pub open spec fn references_view(references: Seq<SpanReference>) -> Seq<SpanReferenceView> {
    references.map_values(|reference: SpanReference| reference@)
}

/// How a span is to be started: its name, what it refers to, its first tags
/// and, if it did not start just now, when it started.
#[derive(Debug)]
pub struct SpanOptions {
    pub operation_name: String,
    pub references: Vec<SpanReference>,
    pub tags: Vec<Tag>,
    pub start_time: Option<Timestamp>,
}

/// What the options for a span hold.
pub struct SpanOptionsView {
    pub operation_name: Seq<char>,
    pub references: Seq<SpanReferenceView>,
    pub tags: Seq<TagView>,
    pub start_time: Option<Timestamp>,
}

impl View for SpanOptions {
    type V = SpanOptionsView;

    open spec fn view(&self) -> SpanOptionsView {
        SpanOptionsView {
            operation_name: self.operation_name@,
            references: references_view(self.references@),
            tags: tags_view(self.tags@),
            start_time: self.start_time,
        }
    }
}

/// The options for a span of the given name that refers to nothing.
pub open spec fn options_for(operation_name: Seq<char>) -> SpanOptionsView {
    SpanOptionsView {
        operation_name,
        references: Seq::empty(),
        tags: Seq::empty(),
        start_time: None,
    }
}

/// The options with one more reference, of the given kind, to `context`.
pub open spec fn with_reference(
    options: SpanOptionsView,
    kind: ReferenceKind,
    context: SpanContextView,
) -> SpanOptionsView {
    SpanOptionsView {
        references: options.references.push(SpanReferenceView { kind, context }),
        ..options
    }
}

impl SpanOptions {
    /// Options for a span of the given name that refers to nothing, has no
    /// tags and starts when it is started.
    pub fn new(operation_name: &str) -> (r: SpanOptions)
        ensures
            r@ == options_for(operation_name@),
    {
        let r = SpanOptions {
            operation_name: operation_name.to_owned(),
            references: Vec::new(),
            tags: Vec::new(),
            start_time: None,
        };
        assert(r@.references =~= Seq::empty());
        assert(r@.tags =~= Seq::empty());
        r
    }

    fn refer(self, kind: ReferenceKind, context: &SpanContext) -> (r: SpanOptions)
        ensures
            r@ == with_reference(self@, kind, context@),
    {
        let mut options = self;
        options.references.push(SpanReference { kind, context: context.clone() });
        assert(options@.references =~= with_reference(self@, kind, context@).references);
        options
    }

    /// Adds a reference to the span with the context `parent`, of which the
    /// new span is a child.
    pub fn child_of(self, parent: &SpanContext) -> (r: SpanOptions)
        ensures
            r@ == with_reference(self@, ReferenceKind::ChildOf, parent@),
    {
        self.refer(ReferenceKind::ChildOf, parent)
    }

    /// Adds a reference to the span with the context `earlier`, which the new
    /// span follows.
    pub fn follows_from(self, earlier: &SpanContext) -> (r: SpanOptions)
        ensures
            r@ == with_reference(self@, ReferenceKind::FollowsFrom, earlier@),
    {
        self.refer(ReferenceKind::FollowsFrom, earlier)
    }

    /// Adds a tag.
    pub fn tag(self, tag: Tag) -> (r: SpanOptions)
        ensures
            r@ == (SpanOptionsView { tags: self@.tags.push(tag@), ..self@ }),
    {
        let mut options = self;
        options.tags.push(tag);
        assert(options@.tags =~= self@.tags.push(tag@));
        options
    }

    /// Sets the time at which the span started.
    pub fn start_time(self, time: Timestamp) -> (r: SpanOptions)
        ensures
            r@ == (SpanOptionsView { start_time: Some(time), ..self@ }),
    {
        let mut options = self;
        options.start_time = Some(time);
        options
    }
}

/// The identifiers that a new span may need: one for a new trace and one for
/// the span itself.
#[derive(Debug, Clone, Copy, PartialEq, Eq, Structural)]
pub struct FreshIds {
    pub trace_id: TraceId,
    pub span_id: u64,
}

/// `rand::random` for `u64`: a number that nothing here can predict.
#[verifier::external_body]
fn random_u64() -> u64 {
    rand::random()
}

/// The identifiers that are made of three numbers: the two halves of the trace
/// identifier and the span identifier, with a one in place of a trace
/// identifier or a span identifier that would be zero.
pub open spec fn fresh_ids(high: u64, low: u64, span_id: u64) -> FreshIds {
    FreshIds {
        trace_id: TraceId {
            high,
            low: if high == 0 && low == 0 {
                1
            } else {
                low
            },
        },
        span_id: if span_id == 0 {
            1
        } else {
            span_id
        },
    }
}

impl FreshIds {
    /// Identifiers made of the given numbers. Neither of them is zero, so
    /// that a span with such an identifier can be told from no span.
    pub fn from_numbers(high: u64, low: u64, span_id: u64) -> (r: FreshIds)
        ensures
            r == fresh_ids(high, low, span_id),
            r.span_id != 0,
            r.trace_id.value() != 0,
    {
        FreshIds {
            trace_id: TraceId {
                high,
                low: if high == 0 && low == 0 {
                    1
                } else {
                    low
                },
            },
            span_id: if span_id == 0 {
                1
            } else {
                span_id
            },
        }
    }

    /// Identifiers drawn at random. Neither of them is zero.
    pub fn random() -> (r: FreshIds)
        ensures
            r.span_id != 0,
            r.trace_id.value() != 0,
    {
        let high = random_u64();
        let low = random_u64();
        let span_id = random_u64();
        FreshIds::from_numbers(high, low, span_id)
    }
}

/// The context of a span that starts with the given references.
///
/// With a reference, the span joins the trace of the first one, takes that
/// span as its parent and inherits its flags and baggage. Without one it
/// begins a new trace, has no parent, and is sampled as `sampled` says.
pub open spec fn started_context(
    references: Seq<SpanReferenceView>,
    fresh: FreshIds,
    sampled: bool,
) -> SpanContextView {
    if references.len() > 0 {
        let parent = references[0].context;
        SpanContextView {
            trace_id: parent.trace_id,
            span_id: fresh.span_id,
            parent_span_id: parent.span_id,
            flags: parent.flags,
            baggage: parent.baggage,
        }
    } else {
        SpanContextView {
            trace_id: fresh.trace_id,
            span_id: fresh.span_id,
            parent_span_id: 0,
            flags: if sampled {
                FLAG_SAMPLED
            } else {
                0
            },
            baggage: Entries::empty(),
        }
    }
}

impl SpanContext {
    /// The context of a span that starts with the given references.
    ///
    /// With a reference, the span joins the trace of the first one, takes
    /// that span as its parent and inherits its flags and baggage. Without
    /// one it begins the trace `fresh.trace_id`, has no parent, and is
    /// sampled as `sampled` says. Its own identifier is `fresh.span_id`.
    pub fn started(references: &[SpanReference], fresh: FreshIds, sampled: bool) -> (r:
        SpanContext)
        ensures
            r@ == started_context(references_view(references@), fresh, sampled),
    {
        if references.len() > 0 {
            let parent = &references[0].context;
            SpanContext {
                trace_id: parent.trace_id,
                span_id: fresh.span_id,
                parent_span_id: parent.span_id,
                flags: parent.flags,
                baggage: parent.baggage.clone(),
            }
        } else {
            SpanContext::new(
                fresh.trace_id,
                fresh.span_id,
                0,
                if sampled {
                    FLAG_SAMPLED
                } else {
                    0
                },
            )
        }
    }
}

/// The span that starts with the given options at the time `now`.
pub open spec fn started(
    options: SpanOptionsView,
    fresh: FreshIds,
    sampled: bool,
    now: Timestamp,
) -> SpanView {
    SpanView {
        context: started_context(options.references, fresh, sampled),
        operation_name: options.operation_name,
        start_time: match options.start_time {
            Some(time) => time,
            None => now,
        },
        tags: options.tags,
        logs: Seq::empty(),
        references: options.references,
    }
}

/// A span that is started as the child of a span, without an earlier
/// reference, joins the trace of that span and has it as its parent.
pub proof fn lemma_child_joins_parent(
    options: SpanOptionsView,
    parent: SpanContextView,
    fresh: FreshIds,
    sampled: bool,
    now: Timestamp,
)
    requires
        options.references.len() == 0,
    ensures
        ({
            let child = started(
                with_reference(options, ReferenceKind::ChildOf, parent),
                fresh,
                sampled,
                now,
            );
            &&& child.context.trace_id == parent.trace_id
            &&& child.context.parent_span_id == parent.span_id
            &&& child.context.span_id == fresh.span_id
        }),
{
}

/// A span that is started without a reference begins the trace with the fresh
/// identifier, has no parent, and is sampled as it was decided for it.
pub proof fn lemma_root_begins_trace(
    options: SpanOptionsView,
    fresh: FreshIds,
    sampled: bool,
    now: Timestamp,
)
    requires
        options.references.len() == 0,
    ensures
        ({
            let root = started(options, fresh, sampled, now);
            &&& root.context.trace_id == fresh.trace_id
            &&& root.context.span_id == fresh.span_id
            &&& root.context.parent_span_id == 0
            &&& flags_sampled(root.context.flags) == sampled
        }),
{
}

/// What an active span holds.
pub struct SpanView {
    pub context: SpanContextView,
    pub operation_name: Seq<char>,
    pub start_time: Timestamp,
    pub tags: Seq<TagView>,
    pub logs: Seq<LogView>,
    pub references: Seq<SpanReferenceView>,
}

/// A span that has started and has not finished.
///
/// Whoever holds it may add to it. Finishing it uses it up, and only a span
/// that is finished reaches the channel of its tracer.
#[must_use]
#[derive(Debug)]
pub struct Span {
    context: SpanContext,
    operation_name: String,
    start_time: Timestamp,
    tags: Vec<Tag>,
    logs: Vec<Log>,
    references: Vec<SpanReference>,
    sender: SpanSender,
}

impl View for Span {
    type V = SpanView;

    closed spec fn view(&self) -> SpanView {
        SpanView {
            context: self.context@,
            operation_name: self.operation_name@,
            start_time: self.start_time,
            tags: tags_view(self.tags@),
            logs: logs_view(self.logs@),
            references: references_view(self.references@),
        }
    }
}

impl Span {
    /// Starts a span with the given options.
    ///
    /// `fresh` holds identifiers that no other span has, `sampled` says
    /// whether a new trace would be recorded, `now` is the current time, and
    /// `sender` leads to where the span goes when it is finished.
    pub fn start(
        options: SpanOptions,
        fresh: FreshIds,
        sampled: bool,
        now: Timestamp,
        sender: SpanSender,
    ) -> (r: Span)
        ensures
            r@ == started(options@, fresh, sampled, now),
    {
        let context = SpanContext::started(options.references.as_slice(), fresh, sampled);
        let start_time = match options.start_time {
            Some(time) => time,
            None => now,
        };
        let r = Span {
            context,
            operation_name: options.operation_name,
            start_time,
            tags: options.tags,
            logs: Vec::new(),
            references: options.references,
            sender,
        };
        assert(r@.logs =~= Seq::empty());
        r
    }

    /// The context of this span.
    pub fn context(&self) -> (r: &SpanContext)
        ensures
            r@ == self@.context,
    {
        &self.context
    }

    /// The name of the operation that this span stands for.
    pub fn operation_name(&self) -> (r: &str)
        ensures
            r@ == self@.operation_name,
    {
        self.operation_name.as_str()
    }

    /// When this span started.
    pub fn start_time(&self) -> (r: Timestamp)
        ensures
            r == self@.start_time,
    {
        self.start_time
    }

    /// The tags of this span, in the order in which they were set.
    pub fn tags(&self) -> (r: &[Tag])
        ensures
            tags_view(r@) == self@.tags,
    {
        self.tags.as_slice()
    }

    /// The logs of this span, in the order in which they were taken.
    pub fn logs(&self) -> (r: &[Log])
        ensures
            logs_view(r@) == self@.logs,
    {
        self.logs.as_slice()
    }

    /// The references of this span, in the order in which they were given.
    pub fn references(&self) -> (r: &[SpanReference])
        ensures
            references_view(r@) == self@.references,
    {
        self.references.as_slice()
    }

    /// Renames the operation.
    pub fn set_operation_name(&mut self, operation_name: &str)
        ensures
            final(self)@ == (SpanView { operation_name: operation_name@, ..old(self)@ }),
    {
        self.operation_name = operation_name.to_owned();
    }

    /// Adds a tag. Tags that were set before stay, whatever their keys.
    pub fn set_tag(&mut self, tag: Tag)
        ensures
            final(self)@ == (SpanView { tags: old(self)@.tags.push(tag@), ..old(self)@ }),
    {
        self.tags.push(tag);
        assert(tags_view(self.tags@) =~= old(self)@.tags.push(tag@));
    }

    /// Adds a log.
    pub fn log(&mut self, log: Log)
        ensures
            final(self)@ == (SpanView { logs: old(self)@.logs.push(log@), ..old(self)@ }),
    {
        self.logs.push(log);
        assert(logs_view(self.logs@) =~= old(self)@.logs.push(log@));
    }

    /// Sets the baggage item `name` to `value`.
    pub fn set_baggage_item(&mut self, name: &str, value: &str)
        ensures
            final(self)@ == (SpanView {
                context: SpanContextView {
                    baggage: put(old(self)@.context.baggage, name@, value@),
                    ..old(self)@.context
                },
                ..old(self)@
            }),
    {
        self.context.set_baggage_item(name, value);
    }

    /// Ends this span at `time`, or at its start if `time` is earlier, and
    /// returns what is left of it.
    pub fn into_finished(self, time: Timestamp) -> (r: FinishedSpan)
        ensures
            r@ == finished(self@, time),
            r@.well_formed(),
    {
        let finish_time = self.start_time.latest(time);
        FinishedSpan {
            context: self.context,
            operation_name: self.operation_name,
            start_time: self.start_time,
            finish_time,
            tags: self.tags,
            logs: self.logs,
            references: self.references,
        }
    }

    /// Ends this span at `time`, or at its start if `time` is earlier, and
    /// hands it to the channel of its tracer without blocking. Says whether
    /// the channel took it: a span that it does not take is dropped.
    pub fn finish_at(self, time: Timestamp) -> bool {
        let sender = self.sender.clone();
        let finished = self.into_finished(time);
        sender.send(finished)
    }

    /// Ends this span now and hands it to the channel of its tracer without
    /// blocking. Says whether the channel took it: a span that it does not
    /// take is dropped.
    pub fn finish(self) -> bool {
        let now = Timestamp::now();
        self.finish_at(now)
    }
}

/// What is left of `span` when it ends at `time`: the span as it was, and the
/// later of its start and `time` as its end.
pub open spec fn finished(span: SpanView, time: Timestamp) -> FinishedSpanView {
    FinishedSpanView {
        span,
        finish_time: if span.start_time.unix_nanos >= time.unix_nanos {
            span.start_time
        } else {
            time
        },
    }
}

/// What a finished span holds: the span as it was when it ended, and when it
/// ended.
pub struct FinishedSpanView {
    pub span: SpanView,
    pub finish_time: Timestamp,
}

impl FinishedSpanView {
    /// A span does not end before it starts.
    pub open spec fn well_formed(self) -> bool {
        self.span.start_time.unix_nanos <= self.finish_time.unix_nanos
    }

    /// How long the span took, in whole microseconds.
    pub open spec fn duration_micros(self) -> int {
        whole_micros(self.finish_time.unix_nanos - self.span.start_time.unix_nanos)
    }
}

/// A span that has ended. Nothing changes it any more.
#[derive(Debug)]
pub struct FinishedSpan {
    context: SpanContext,
    operation_name: String,
    start_time: Timestamp,
    finish_time: Timestamp,
    tags: Vec<Tag>,
    logs: Vec<Log>,
    references: Vec<SpanReference>,
}

impl View for FinishedSpan {
    type V = FinishedSpanView;

    closed spec fn view(&self) -> FinishedSpanView {
        FinishedSpanView {
            span: SpanView {
                context: self.context@,
                operation_name: self.operation_name@,
                start_time: self.start_time,
                tags: tags_view(self.tags@),
                logs: logs_view(self.logs@),
                references: references_view(self.references@),
            },
            finish_time: self.finish_time,
        }
    }
}

/// What each finished span of a sequence holds.
pub open spec fn finished_spans_view(spans: Seq<FinishedSpan>) -> Seq<FinishedSpanView> {
    spans.map_values(|span: FinishedSpan| span@)
}

impl FinishedSpan {
    #[verifier::type_invariant]
    spec fn ends_after_start(self) -> bool {
        self.start_time.unix_nanos <= self.finish_time.unix_nanos
    }

    /// A finished span with the given content, unless it would end before it
    /// starts.
    pub fn new(
        context: SpanContext,
        operation_name: &str,
        start_time: Timestamp,
        finish_time: Timestamp,
        tags: Vec<Tag>,
        logs: Vec<Log>,
        references: Vec<SpanReference>,
    ) -> (r: Option<FinishedSpan>)
        ensures
            r is Some <==> start_time.unix_nanos <= finish_time.unix_nanos,
            r matches Some(span) ==> span@ == (FinishedSpanView {
                span: SpanView {
                    context: context@,
                    operation_name: operation_name@,
                    start_time,
                    tags: tags_view(tags@),
                    logs: logs_view(logs@),
                    references: references_view(references@),
                },
                finish_time,
            }),
    {
        if start_time.unix_nanos <= finish_time.unix_nanos {
            Some(
                FinishedSpan {
                    context,
                    operation_name: operation_name.to_owned(),
                    start_time,
                    finish_time,
                    tags,
                    logs,
                    references,
                },
            )
        } else {
            None
        }
    }

    /// The context of this span.
    pub fn context(&self) -> (r: &SpanContext)
        ensures
            r@ == self@.span.context,
    {
        &self.context
    }

    /// The name of the operation that this span stands for.
    pub fn operation_name(&self) -> (r: &str)
        ensures
            r@ == self@.span.operation_name,
    {
        self.operation_name.as_str()
    }

    /// When this span started.
    pub fn start_time(&self) -> (r: Timestamp)
        ensures
            r == self@.span.start_time,
            self@.well_formed(),
    {
        proof {
            use_type_invariant(self);
        }
        self.start_time
    }

    /// When this span ended, which is not before it started.
    pub fn finish_time(&self) -> (r: Timestamp)
        ensures
            r == self@.finish_time,
            self@.well_formed(),
    {
        proof {
            use_type_invariant(self);
        }
        self.finish_time
    }

    /// How long this span took, in whole microseconds: what is left over is
    /// cut off.
    pub fn duration_micros(&self) -> (r: i64)
        ensures
            r == self@.duration_micros(),
            r >= 0,
    {
        proof {
            use_type_invariant(self);
        }
        self.start_time.micros_until(&self.finish_time)
    }

    /// The tags of this span, in the order in which they were set.
    pub fn tags(&self) -> (r: &[Tag])
        ensures
            tags_view(r@) == self@.span.tags,
    {
        self.tags.as_slice()
    }

    /// The logs of this span, in the order in which they were taken.
    pub fn logs(&self) -> (r: &[Log])
        ensures
            logs_view(r@) == self@.span.logs,
    {
        self.logs.as_slice()
    }

    /// The references of this span, in the order in which they were given.
    pub fn references(&self) -> (r: &[SpanReference])
        ensures
            references_view(r@) == self@.span.references,
    {
        self.references.as_slice()
    }
}

} // verus!

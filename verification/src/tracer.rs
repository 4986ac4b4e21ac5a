//! The tracer: where spans are started.

use crate::channel::span_channel;
use crate::channel::SpanReceiver;
use crate::channel::SpanSender;
use crate::sampler::Sampler;
use crate::span::options_for;
use crate::span::flags_sampled;
use crate::span::started;
use crate::span::with_reference;
use crate::span::FreshIds;
use crate::span::ReferenceKind;
use crate::span::Span;
use crate::span::SpanContext;
use crate::span::SpanOptions;
use crate::span::SpanOptionsView;
use crate::tag::Tag;
use crate::time::Timestamp;
use vstd::prelude::*;

verus! {

/// Starts spans, asks its sampler which new traces to record, and sends every
/// span that finishes into one channel.
///
/// A tracer can be cloned. All clones send into the same channel.
#[derive(Debug)]
pub struct Tracer<S: Sampler> {
    sampler: S,
    sender: SpanSender,
}

impl<S: Sampler + Clone> Clone for Tracer<S> {
    fn clone(&self) -> Self {
        Tracer { sampler: self.sampler.clone(), sender: self.sender.clone() }
    }
}

impl<S: Sampler> Tracer<S> {
    /// The sampler of this tracer.
    pub closed spec fn sampler_view(&self) -> S {
        self.sampler
    }

    /// A tracer with the given sampler, and the receiving end of its channel.
    pub fn new(sampler: S) -> (r: (Tracer<S>, SpanReceiver))
        ensures
            r.0.sampler_view() == sampler,
    {
        let (sender, receiver) = span_channel();
        (Tracer { sampler, sender }, receiver)
    }

    /// The sampler of this tracer.
    pub fn sampler(&self) -> (r: &S)
        ensures
            *r == self.sampler_view(),
    {
        &self.sampler
    }

    /// Begins the options for a span of the given name.
    pub fn span<'a>(&'a self, operation_name: &str) -> (r: StartSpanOptions<'a, S>)
        ensures
            r.options() == options_for(operation_name@),
            r.tracer() == *self,
    {
        StartSpanOptions { tracer: self, options: SpanOptions::new(operation_name) }
    }
}

/// The options for a span that a tracer is about to start.
#[derive(Debug)]
pub struct StartSpanOptions<'a, S: Sampler> {
    tracer: &'a Tracer<S>,
    options: SpanOptions,
}

impl<'a, S: Sampler> StartSpanOptions<'a, S> {
    /// The options as they are now.
    pub closed spec fn options(&self) -> SpanOptionsView {
        self.options@
    }

    /// The tracer that will start the span.
    pub closed spec fn tracer(&self) -> Tracer<S> {
        *self.tracer
    }

    /// Adds a reference to the span with the context `parent`, of which the
    /// new span is a child.
    pub fn child_of(self, parent: &SpanContext) -> (r: Self)
        ensures
            r.options() == with_reference(self.options(), ReferenceKind::ChildOf, parent@),
            r.tracer() == self.tracer(),
    {
        StartSpanOptions { tracer: self.tracer, options: self.options.child_of(parent) }
    }

    /// Adds a reference to the span with the context `earlier`, which the new
    /// span follows.
    pub fn follows_from(self, earlier: &SpanContext) -> (r: Self)
        ensures
            r.options() == with_reference(self.options(), ReferenceKind::FollowsFrom, earlier@),
            r.tracer() == self.tracer(),
    {
        StartSpanOptions { tracer: self.tracer, options: self.options.follows_from(earlier) }
    }

    /// Adds a tag.
    pub fn tag(self, tag: Tag) -> (r: Self)
        ensures
            r.options() == (SpanOptionsView {
                tags: self.options().tags.push(tag@),
                ..self.options()
            }),
            r.tracer() == self.tracer(),
    {
        StartSpanOptions { tracer: self.tracer, options: self.options.tag(tag) }
    }

    /// Sets the time at which the span started.
    pub fn start_time(self, time: Timestamp) -> (r: Self)
        ensures
            r.options() == (SpanOptionsView { start_time: Some(time), ..self.options() }),
            r.tracer() == self.tracer(),
    {
        StartSpanOptions { tracer: self.tracer, options: self.options.start_time(time) }
    }

    /// Starts the span with the given identifiers at the time `now`.
    ///
    /// A span that refers to another joins its trace. One that refers to
    /// none begins a new trace, and the sampler of the tracer is asked
    /// whether that trace is sampled. The span exists either way, and its
    /// flags show what was decided.
    pub fn start_with(self, fresh: FreshIds, now: Timestamp) -> (r: Span)
        ensures
            r@ == started(self.options(), fresh, flags_sampled(r@.context.flags), now),
    {
        let sampled = if self.options.references.len() == 0 {
            self.tracer.sampler.is_sampled(self.options.operation_name.as_str())
        } else {
            false
        };
        Span::start(self.options, fresh, sampled, now, self.tracer.sender.clone())
    }

    /// Starts the span now, with identifiers drawn at random.
    ///
    /// A span that refers to another joins its trace. One that refers to
    /// none begins a new trace, and the sampler of the tracer is asked
    /// whether that trace is sampled. The span exists either way, and its
    /// flags show what was decided.
    pub fn start(self) -> (r: Span)
        ensures
            exists|fresh: FreshIds, now: Timestamp|
                fresh.span_id != 0 && fresh.trace_id.value() != 0 && r@ == #[trigger] started(
                    self.options(),
                    fresh,
                    flags_sampled(r@.context.flags),
                    now,
                ),
    {
        let fresh = FreshIds::random();
        let now = Timestamp::now();
        self.start_with(fresh, now)
    }
}

} // verus!

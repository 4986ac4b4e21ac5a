use rustracing_jaeger::log::Log;
use rustracing_jaeger::sampler::AllSampler;
use rustracing_jaeger::sampler::NullSampler;
use rustracing_jaeger::sampler::Sampler;
use rustracing_jaeger::span::FinishedSpan;
use rustracing_jaeger::span::FreshIds;
use rustracing_jaeger::span::ReferenceKind;
use rustracing_jaeger::span::SpanContext;
use rustracing_jaeger::span::SpanOptions;
use rustracing_jaeger::span::TraceId;
use rustracing_jaeger::tag::Tag;
use rustracing_jaeger::tag::TagValue;
use rustracing_jaeger::time::Timestamp;
use rustracing_jaeger::tracer::Tracer;

fn ids(high: u64, low: u64, span_id: u64) -> FreshIds {
    FreshIds { trace_id: TraceId::new(high, low), span_id }
}

#[test]
fn two_spans_arrive_in_the_order_in_which_they_ended() {
    let (tracer, mut receiver) = Tracer::new(AllSampler);
    let root = tracer.span("root").start();
    let child = tracer.span("child").child_of(root.context()).start();
    let root_trace = root.context().trace_id();
    let root_span = root.context().span_id();
    assert!(child.finish());
    assert!(root.finish());

    let first = receiver.try_recv().unwrap();
    let second = receiver.try_recv().unwrap();
    assert!(receiver.try_recv().is_none());
    assert_eq!(first.operation_name(), "child");
    assert_eq!(second.operation_name(), "root");
    assert_eq!(first.context().trace_id(), second.context().trace_id());
    assert_eq!(first.context().trace_id(), root_trace);
    assert_eq!(first.context().parent_span_id(), Some(root_span));
    assert_eq!(second.context().span_id(), root_span);
    assert_eq!(second.context().parent_span_id(), None);
    assert!(first.context().is_sampled());
    assert!(second.context().is_sampled());
    assert_eq!(first.references().len(), 1);
    assert_eq!(first.references()[0].kind, ReferenceKind::ChildOf);
    assert_eq!(first.references()[0].context.span_id(), root_span);
    assert!(first.start_time().unix_nanos() <= first.finish_time().unix_nanos());
    assert!(second.start_time().unix_nanos() <= second.finish_time().unix_nanos());
}

#[test]
fn a_root_span_gets_the_fresh_trace_and_no_parent() {
    let (tracer, _receiver) = Tracer::new(AllSampler);
    let span = tracer.span("root").start_with(ids(3, 4, 5), Timestamp::from_unix_nanos(10));
    assert_eq!(span.context().trace_id(), TraceId::new(3, 4));
    assert_eq!(span.context().span_id(), 5);
    assert_eq!(span.context().parent_span_id(), None);
    assert_eq!(span.context().parent_span_id, 0);
    assert_eq!(span.context().flags(), 1);
    assert_eq!(span.start_time(), Timestamp::from_unix_nanos(10));
    assert_eq!(span.operation_name(), "root");
    assert!(span.tags().is_empty());
    assert!(span.logs().is_empty());
    assert!(span.references().is_empty());
}

#[test]
fn a_child_joins_the_trace_of_its_parent() {
    let (tracer, _receiver) = Tracer::new(NullSampler);
    let mut parent = SpanContext::new(TraceId::new(1, 2), 77, 66, 3);
    parent.set_baggage_item("user", "alice");
    let other = SpanContext::new(TraceId::new(8, 8), 99, 0, 0);
    let span = tracer
        .span("child")
        .child_of(&parent)
        .follows_from(&other)
        .start_with(ids(3, 4, 5), Timestamp::from_unix_nanos(10));
    assert_eq!(span.context().trace_id(), TraceId::new(1, 2));
    assert_eq!(span.context().span_id(), 5);
    assert_eq!(span.context().parent_span_id(), Some(77));
    assert_eq!(span.context().flags(), 3);
    assert_eq!(span.context().baggage().get("user"), Some("alice"));
    assert_eq!(span.references().len(), 2);
    assert_eq!(span.references()[0].kind, ReferenceKind::ChildOf);
    assert_eq!(span.references()[1].kind, ReferenceKind::FollowsFrom);
    assert_eq!(span.references()[1].context.trace_id(), TraceId::new(8, 8));
}

#[test]
fn an_unsampled_root_span_exists_and_is_sent() {
    let (tracer, mut receiver) = Tracer::new(NullSampler);
    let span = tracer.span("quiet").start();
    assert!(!span.context().is_sampled());
    assert_eq!(span.context().flags(), 0);
    assert_ne!(span.context().span_id(), 0);
    assert_ne!(span.context().trace_id(), TraceId::new(0, 0));
    assert!(span.finish());
    let finished = receiver.try_recv().unwrap();
    assert_eq!(finished.operation_name(), "quiet");
    assert!(!finished.context().is_sampled());
}

#[test]
fn a_child_of_an_unsampled_span_is_unsampled_whatever_the_sampler_says() {
    let (tracer, _receiver) = Tracer::new(AllSampler);
    let parent = SpanContext::new(TraceId::new(1, 2), 3, 0, 0);
    let span = tracer.span("child").child_of(&parent).start();
    assert!(!span.context().is_sampled());
    assert_eq!(span.context().trace_id(), TraceId::new(1, 2));
    assert_eq!(span.context().parent_span_id(), Some(3));
}

#[test]
fn options_carry_tags_and_the_start_time() {
    let (tracer, mut receiver) = Tracer::new(AllSampler);
    let mut span = tracer
        .span("work")
        .tag(Tag::string("k", "first"))
        .tag(Tag::long("k", 2))
        .start_time(Timestamp::from_unix_nanos(5_000))
        .start_with(ids(0, 1, 2), Timestamp::from_unix_nanos(9_000));
    assert_eq!(span.start_time(), Timestamp::from_unix_nanos(5_000));
    span.set_tag(Tag::bool("k", true));
    span.log(Log::new(Timestamp::from_unix_nanos(6_000), vec![Tag::string("event", "x")]));
    span.set_operation_name("renamed");
    span.set_baggage_item("a", "1");
    span.set_baggage_item("a", "2");
    assert_eq!(span.tags().len(), 3);
    assert!(span.finish_at(Timestamp::from_unix_nanos(8_500)));

    let finished = receiver.try_recv().unwrap();
    assert_eq!(finished.operation_name(), "renamed");
    assert_eq!(finished.start_time(), Timestamp::from_unix_nanos(5_000));
    assert_eq!(finished.finish_time(), Timestamp::from_unix_nanos(8_500));
    assert_eq!(finished.duration_micros(), 3);
    assert_eq!(finished.tags().len(), 3);
    assert_eq!(finished.tags()[0].key(), "k");
    assert!(matches!(finished.tags()[0].value(), TagValue::String(v) if v == "first"));
    assert!(matches!(finished.tags()[1].value(), TagValue::Long(2)));
    assert!(matches!(finished.tags()[2].value(), TagValue::Bool(true)));
    assert_eq!(finished.logs().len(), 1);
    assert_eq!(finished.logs()[0].timestamp(), Timestamp::from_unix_nanos(6_000));
    assert_eq!(finished.logs()[0].fields().len(), 1);
    assert_eq!(finished.context().baggage().len(), 1);
    assert_eq!(finished.context().baggage().get("a"), Some("2"));
}

#[test]
fn a_span_does_not_end_before_it_starts() {
    let (tracer, _receiver) = Tracer::new(AllSampler);
    let span = tracer.span("work").start_with(ids(0, 1, 2), Timestamp::from_unix_nanos(9_000));
    let finished = span.into_finished(Timestamp::from_unix_nanos(1_000));
    assert_eq!(finished.start_time(), Timestamp::from_unix_nanos(9_000));
    assert_eq!(finished.finish_time(), Timestamp::from_unix_nanos(9_000));
    assert_eq!(finished.duration_micros(), 0);

    let made = FinishedSpan::new(
        SpanContext::new(TraceId::new(0, 1), 1, 0, 1),
        "op",
        Timestamp::from_unix_nanos(2),
        Timestamp::from_unix_nanos(1),
        vec![],
        vec![],
        vec![],
    );
    assert!(made.is_none());
    let made = FinishedSpan::new(
        SpanContext::new(TraceId::new(0, 1), 1, 0, 1),
        "op",
        Timestamp::from_unix_nanos(2),
        Timestamp::from_unix_nanos(2),
        vec![],
        vec![],
        vec![],
    );
    assert!(made.is_some());
}

#[test]
fn a_span_that_nobody_waits_for_is_dropped_quietly() {
    let (tracer, receiver) = Tracer::new(AllSampler);
    let span = tracer.span("lost").start();
    drop(receiver);
    assert!(!span.finish());
}

#[test]
fn clones_of_a_tracer_share_one_channel() {
    let (tracer, mut receiver) = Tracer::new(AllSampler);
    let clone = tracer.clone();
    assert!(clone.span("from clone").start().finish());
    assert!(tracer.span("from first").start().finish());
    drop(tracer);
    drop(clone);
    assert_eq!(receiver.try_recv().unwrap().operation_name(), "from clone");
    assert_eq!(receiver.try_recv().unwrap().operation_name(), "from first");
    assert!(receiver.try_recv().is_none());
}

#[test]
fn the_receiving_end_can_be_taken_out() {
    let (tracer, receiver) = Tracer::new(AllSampler);
    assert!(tracer.span("a").start().finish());
    let mut inner = receiver.into_inner();
    assert_eq!(inner.try_recv().unwrap().operation_name(), "a");
}

#[test]
fn samplers_decide_as_they_are_named() {
    assert!(AllSampler.is_sampled("anything"));
    assert!(!NullSampler.is_sampled("anything"));
    let (tracer, _receiver) = Tracer::new(NullSampler);
    assert!(!tracer.sampler().is_sampled("x"));
}

#[test]
fn fresh_identifiers_are_never_zero() {
    for _ in 0..100 {
        let fresh = FreshIds::random();
        assert_ne!(fresh.span_id, 0);
        assert_ne!(fresh.trace_id, TraceId::new(0, 0));
    }
    assert_ne!(FreshIds::random(), FreshIds::random());
}

#[test]
fn span_options_collect_what_they_are_given() {
    let parent = SpanContext::new(TraceId::new(1, 2), 3, 0, 1);
    let options = SpanOptions::new("op")
        .child_of(&parent)
        .tag(Tag::long("n", 1))
        .start_time(Timestamp::from_unix_nanos(4));
    assert_eq!(options.operation_name, "op");
    assert_eq!(options.references.len(), 1);
    assert_eq!(options.references[0].kind, ReferenceKind::ChildOf);
    assert_eq!(options.references[0].context.span_id(), 3);
    assert_eq!(options.tags.len(), 1);
    assert_eq!(options.start_time, Some(Timestamp::from_unix_nanos(4)));
}

#[test]
fn timestamps_count_nanoseconds() {
    assert_eq!(Timestamp::from_unix_micros(3).unix_nanos(), 3_000);
    assert_eq!(Timestamp::from_unix_micros(u64::MAX).unix_nanos(), u64::MAX);
    assert_eq!(Timestamp::from_unix_micros(u64::MAX / 1000).unix_nanos(), u64::MAX / 1000 * 1000);
    assert_eq!(Timestamp::from_unix_micros(u64::MAX / 1000 + 1).unix_nanos(), u64::MAX);
    assert_eq!(Timestamp::from_unix_nanos(1_999).unix_micros(), 1);
    assert_eq!(Timestamp::from_unix_nanos(u64::MAX).unix_micros(), 18_446_744_073_709_551);
    let early = Timestamp::from_unix_nanos(1_000);
    let late = Timestamp::from_unix_nanos(3_999);
    assert_eq!(early.micros_until(&late), 2);
    assert_eq!(late.micros_until(&early), 0);
    assert_eq!(early.micros_until(&early), 0);
    assert!(early.is_at_or_before(&late));
    assert!(early.is_at_or_before(&early));
    assert!(!late.is_at_or_before(&early));
    assert_eq!(early.latest(late), late);
    assert_eq!(late.latest(early), late);
    let now = Timestamp::now();
    assert!(now.unix_nanos() > 1_600_000_000_000_000_000);
    assert!(now.is_at_or_before(&Timestamp::now()));
}

struct ByName;

impl Sampler for ByName {
    fn is_sampled(&self, operation_name: &str) -> bool {
        operation_name.starts_with("keep")
    }
}

#[test]
fn a_sampler_of_ones_own_decides_by_the_operation() {
    let (tracer, mut receiver) = Tracer::new(ByName);
    let kept = tracer.span("keep this").start();
    let skipped = tracer.span("skip this").start();
    assert!(kept.context().is_sampled());
    assert!(!skipped.context().is_sampled());
    assert!(skipped.finish());
    assert!(kept.finish());
    assert_eq!(receiver.try_recv().unwrap().operation_name(), "skip this");
    assert_eq!(receiver.try_recv().unwrap().operation_name(), "keep this");
}

#[test]
fn identifiers_made_of_numbers_avoid_zero() {
    assert_eq!(FreshIds::from_numbers(1, 2, 3), ids(1, 2, 3));
    assert_eq!(FreshIds::from_numbers(0, 0, 0), ids(0, 1, 1));
    assert_eq!(FreshIds::from_numbers(0, 5, 0), ids(0, 5, 1));
    assert_eq!(FreshIds::from_numbers(7, 0, u64::MAX), ids(7, 0, u64::MAX));
}

#[test]
fn a_time_beyond_the_range_is_the_latest_time() {
    assert_eq!(Timestamp::saturating_from_unix_nanos(5).unix_nanos(), 5);
    assert_eq!(Timestamp::saturating_from_unix_nanos(u64::MAX as u128).unix_nanos(), u64::MAX);
    assert_eq!(Timestamp::saturating_from_unix_nanos(u64::MAX as u128 + 1).unix_nanos(), u64::MAX);
    assert_eq!(Timestamp::saturating_from_unix_nanos(u128::MAX).unix_nanos(), u64::MAX);
}

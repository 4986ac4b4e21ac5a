//! Reporters: they hold what describes the reporting process and turn
//! finished spans into the datagrams that a Jaeger agent reads.
//!
//! A reporter does not own a socket. `report` returns the datagram, and
//! whoever holds the socket sends it: one call, one datagram.

use crate::constants::JAEGER_CLIENT_VERSION;
use crate::constants::JAEGER_CLIENT_VERSION_TAG_KEY;
use crate::constants::MAX_DATAGRAM_SIZE;
use crate::constants::TRACER_HOSTNAME_TAG_KEY;
use crate::constants::TRACER_IP_TAG_KEY;
use crate::encoder::bytes_view;
use crate::encoder::encode_selected;
use crate::encoder::encoded;
use crate::encoder::encoding;
use crate::encoder::Protocol;
use crate::error::ErrorKind;
use crate::error::TraceError;
use crate::jaeger::batch_of;
use crate::jaeger::emit_batch_message;
use crate::jaeger::selected_spans;
use crate::jaeger::Process;
use crate::jaeger::ProcessView;
use crate::limits::batch_fits;
use crate::limits::lemma_message_fits;
use crate::span::finished_spans_view;
use crate::span::FinishedSpan;
use crate::span::FinishedSpanView;
use crate::tag::tags_view;
use crate::tag::Tag;
use crate::tag::TagValueView;
use crate::tag::TagView;
use crate::thrift::message_fits;
use crate::thrift::ThriftMessage;
use vstd::prelude::*;

verus! {

/// `hostname::get`, with the name as text: the name of this host, if the
/// system gives one and it is valid Unicode.
#[verifier::external_body]
fn host_name() -> Option<String> {
    match hostname::get() {
        Ok(name) => match name.into_string() {
            Ok(text) => Some(text),
            Err(_) => None,
        },
        Err(_) => None,
    }
}

/// `local_ip_address::local_ip`, with the address as text: the address of
/// this host in its local network, if one is found.
#[verifier::external_body]
fn local_ip() -> Option<String> {
    match local_ip_address::local_ip() {
        Ok(address) => Some(address.to_string()),
        Err(_) => None,
    }
}

/// A tag whose value is text.
pub open spec fn text_tag(key: Seq<char>, value: Seq<char>) -> TagView {
    TagView { key, value: TagValueView::String(value) }
}

/// The text in `text`, if there is one.
pub open spec fn text_of(text: Option<String>) -> Option<Seq<char>> {
    match text {
        Some(text) => Some(text@),
        None => None,
    }
}

/// The tags that every reporter begins with: the version of this client, then
/// the name of the host and its address, each if it is known.
pub open spec fn default_tags(
    hostname: Option<Seq<char>>,
    ip: Option<Seq<char>>,
) -> Seq<TagView> {
    seq![text_tag(JAEGER_CLIENT_VERSION_TAG_KEY@, JAEGER_CLIENT_VERSION@)] + (match hostname {
        Some(name) => seq![text_tag(TRACER_HOSTNAME_TAG_KEY@, name)],
        None => Seq::empty(),
    }) + (match ip {
        Some(address) => seq![text_tag(TRACER_IP_TAG_KEY@, address)],
        None => Seq::empty(),
    })
}

/// What a reporter holds.
pub struct ReporterView {
    pub process: ProcessView,
    pub max_datagram_size: nat,
    pub report_unsampled: bool,
}

/// The reporter that `new` makes for a service on a host with the given name
/// and address.
pub open spec fn new_reporter(
    service_name: Seq<char>,
    hostname: Option<Seq<char>>,
    ip: Option<Seq<char>>,
) -> ReporterView {
    ReporterView {
        process: ProcessView { service_name, tags: default_tags(hostname, ip) },
        max_datagram_size: MAX_DATAGRAM_SIZE as nat,
        report_unsampled: true,
    }
}

/// The reporter after one more tag was added to its process.
pub open spec fn with_service_tag(reporter: ReporterView, tag: TagView) -> ReporterView {
    ReporterView {
        process: ProcessView { tags: reporter.process.tags.push(tag), ..reporter.process },
        ..reporter
    }
}

/// The message that a reporter makes of the given spans: its process, and
/// the spans in the given order, without those that are not sampled if the
/// reporter does not report them.
pub open spec fn report_message(
    reporter: ReporterView,
    spans: Seq<FinishedSpanView>,
) -> ThriftMessage {
    emit_batch_message(reporter.process, selected_spans(!reporter.report_unsampled, spans))
}

/// What becomes of an encoding when it is to be sent as one datagram.
///
/// A failure stays what it is. An encoding of more than `limit` bytes is a
/// transport failure. Any other encoding is the datagram.
pub open spec fn datagram_of(
    encoding: Result<Seq<u8>, TraceError>,
    limit: nat,
) -> Result<Seq<u8>, TraceError> {
    match encoding {
        Err(error) => Err(error),
        Ok(bytes) => if bytes.len() > limit {
            Err(TraceError { kind: ErrorKind::TransportFailed })
        } else {
            Ok(bytes)
        },
    }
}

/// What `report` returns.
///
/// A batch that thrift cannot encode is an encoding failure. One whose
/// encoding is larger than a datagram may be is a transport failure. Any
/// other batch gives its encoding.
pub open spec fn report_result(
    protocol: Protocol,
    reporter: ReporterView,
    spans: Seq<FinishedSpanView>,
) -> Result<Seq<u8>, TraceError> {
    datagram_of(encoding(protocol, report_message(reporter, spans)), reporter.max_datagram_size)
}

/// Turns an encoding into a datagram of at most `limit` bytes, or says why
/// there is none.
pub fn datagram(encoding: Result<Vec<u8>, TraceError>, limit: usize) -> (r: Result<
    Vec<u8>,
    TraceError,
>)
    ensures
        bytes_view(r) == datagram_of(bytes_view(encoding), limit as nat),
{
    match encoding {
        Err(error) => Err(error),
        Ok(bytes) => {
            if bytes.len() > limit {
                Err(TraceError::new(ErrorKind::TransportFailed))
            } else {
                Ok(bytes)
            }
        },
    }
}

/// A report whose encoding is larger than a datagram may be fails as a
/// transport failure.
pub proof fn lemma_oversized_report_fails(
    protocol: Protocol,
    reporter: ReporterView,
    spans: Seq<FinishedSpanView>,
)
    requires
        message_fits(report_message(reporter, spans)),
        encoded(protocol, report_message(reporter, spans)).len() > reporter.max_datagram_size,
    ensures
        report_result(protocol, reporter, spans) == Err::<Seq<u8>, TraceError>(
            TraceError { kind: ErrorKind::TransportFailed },
        ),
{
}

/// A report fails as an encoding failure exactly when the batch does not
/// fit: when one of its texts, byte strings or lists is longer than thrift
/// allows.
pub proof fn lemma_encoding_fails_when_batch_does_not_fit(
    protocol: Protocol,
    reporter: ReporterView,
    spans: Seq<FinishedSpanView>,
)
    ensures
        report_result(protocol, reporter, spans) == Err::<Seq<u8>, TraceError>(
            TraceError { kind: ErrorKind::EncodingFailed },
        ) <==> !batch_fits(
            batch_of(reporter.process, selected_spans(!reporter.report_unsampled, spans)),
        ),
{
    lemma_message_fits(
        batch_of(reporter.process, selected_spans(!reporter.report_unsampled, spans)),
    );
}

/// Two reports of the same spans by the same reporter give the same result.
pub proof fn lemma_reports_agree(
    protocol: Protocol,
    reporter: ReporterView,
    spans: Seq<FinishedSpanView>,
    first: Result<Vec<u8>, TraceError>,
    second: Result<Vec<u8>, TraceError>,
)
    requires
        bytes_view(first) == report_result(protocol, reporter, spans),
        bytes_view(second) == report_result(protocol, reporter, spans),
    ensures
        bytes_view(first) == bytes_view(second),
{
}

/// What the two reporters share: the process, and the size that a datagram
/// may have.
#[derive(Debug, Clone)]
pub struct JaegerReporter {
    process: Process,
    max_datagram_size: usize,
    report_unsampled: bool,
}

impl View for JaegerReporter {
    type V = ReporterView;

    closed spec fn view(&self) -> ReporterView {
        ReporterView {
            process: self.process@,
            max_datagram_size: self.max_datagram_size as nat,
            report_unsampled: self.report_unsampled,
        }
    }
}

impl JaegerReporter {
    /// A reporter for the service `service_name` on a host of which the given
    /// name and address are known.
    pub fn with_host(service_name: &str, hostname: Option<String>, ip: Option<String>) -> (r:
        JaegerReporter)
        ensures
            r@ == new_reporter(service_name@, text_of(hostname), text_of(ip)),
    {
        let process = Process { service_name: service_name.to_owned(), tags: Vec::new() };
        let mut reporter = JaegerReporter {
            process,
            max_datagram_size: MAX_DATAGRAM_SIZE,
            report_unsampled: true,
        };
        reporter.add_service_tag(Tag::string(JAEGER_CLIENT_VERSION_TAG_KEY, JAEGER_CLIENT_VERSION));
        if let Some(name) = hostname {
            reporter.add_service_tag(Tag::string(TRACER_HOSTNAME_TAG_KEY, name.as_str()));
        }
        if let Some(address) = ip {
            reporter.add_service_tag(Tag::string(TRACER_IP_TAG_KEY, address.as_str()));
        }
        assert(reporter@.process.tags =~= default_tags(text_of(hostname), text_of(ip)));
        reporter
    }

    /// A reporter for the service `service_name` on this host. Its process
    /// has the tags that every reporter begins with, with the name and the
    /// address of this host as far as the system gives them.
    pub fn new(service_name: &str) -> (r: JaegerReporter)
        ensures
            exists|hostname: Option<Seq<char>>, ip: Option<Seq<char>>|
                r@ == #[trigger] new_reporter(service_name@, hostname, ip),
    {
        let hostname = host_name();
        let ip = local_ip();
        let ghost name = text_of(hostname);
        let ghost address = text_of(ip);
        let r = JaegerReporter::with_host(service_name, hostname, ip);
        assert(r@ == new_reporter(service_name@, name, address));
        r
    }

    /// The process that this reporter reports for.
    pub fn process(&self) -> (r: &Process)
        ensures
            r@ == self@.process,
    {
        &self.process
    }

    /// The number of bytes that a datagram of this reporter may have.
    pub fn max_datagram_size(&self) -> (r: usize)
        ensures
            r == self@.max_datagram_size,
    {
        self.max_datagram_size
    }

    /// Sets the number of bytes that a datagram of this reporter may have.
    pub fn set_max_datagram_size(&mut self, size: usize)
        ensures
            final(self)@ == (ReporterView { max_datagram_size: size as nat, ..old(self)@ }),
    {
        self.max_datagram_size = size;
    }

    /// Whether this reporter reports spans that are not sampled.
    pub fn reports_unsampled(&self) -> (r: bool)
        ensures
            r == self@.report_unsampled,
    {
        self.report_unsampled
    }

    /// Sets whether this reporter reports spans that are not sampled. A new
    /// reporter reports every span that it is given.
    pub fn set_report_unsampled(&mut self, report_unsampled: bool)
        ensures
            final(self)@ == (ReporterView { report_unsampled, ..old(self)@ }),
    {
        self.report_unsampled = report_unsampled;
    }

    /// Adds `tag` to the process. Every later report carries it.
    pub fn add_service_tag(&mut self, tag: Tag)
        ensures
            final(self)@ == with_service_tag(old(self)@, tag@),
    {
        self.process.tags.push(tag);
        assert(tags_view(self.process.tags@) =~= old(self)@.process.tags.push(tag@));
    }

    /// Makes the datagram for one batch: this process with the given spans,
    /// in the given order and in the given encoding.
    pub fn report(&self, spans: &[FinishedSpan], protocol: Protocol) -> (r: Result<
        Vec<u8>,
        TraceError,
    >)
        ensures
            bytes_view(r) == report_result(protocol, self@, finished_spans_view(spans@)),
    {
        let encoding = encode_selected(protocol, &self.process, spans, !self.report_unsampled);
        datagram(encoding, self.max_datagram_size)
    }
}

/// A reporter for an agent that reads thrift in the compact encoding.
#[derive(Debug, Clone)]
pub struct JaegerCompactReporter(JaegerReporter);

impl View for JaegerCompactReporter {
    type V = ReporterView;

    closed spec fn view(&self) -> ReporterView {
        self.0@
    }
}

impl JaegerCompactReporter {
    /// A reporter for the service `service_name` on this host. Its process
    /// has the tags that every reporter begins with, with the name and the
    /// address of this host as far as the system gives them.
    pub fn new(service_name: &str) -> (r: JaegerCompactReporter)
        ensures
            exists|hostname: Option<Seq<char>>, ip: Option<Seq<char>>|
                r@ == #[trigger] new_reporter(service_name@, hostname, ip),
    {
        JaegerCompactReporter(JaegerReporter::new(service_name))
    }

    /// A reporter for the service `service_name` on a host of which the given
    /// name and address are known.
    pub fn with_host(service_name: &str, hostname: Option<String>, ip: Option<String>) -> (r:
        JaegerCompactReporter)
        ensures
            r@ == new_reporter(service_name@, text_of(hostname), text_of(ip)),
    {
        JaegerCompactReporter(JaegerReporter::with_host(service_name, hostname, ip))
    }

    /// The process that this reporter reports for.
    pub fn process(&self) -> (r: &Process)
        ensures
            r@ == self@.process,
    {
        self.0.process()
    }

    /// Sets the number of bytes that a datagram of this reporter may have.
    pub fn set_max_datagram_size(&mut self, size: usize)
        ensures
            final(self)@ == (ReporterView { max_datagram_size: size as nat, ..old(self)@ }),
    {
        self.0.set_max_datagram_size(size);
    }

    /// Sets whether this reporter reports spans that are not sampled. A new
    /// reporter reports every span that it is given.
    pub fn set_report_unsampled(&mut self, report_unsampled: bool)
        ensures
            final(self)@ == (ReporterView { report_unsampled, ..old(self)@ }),
    {
        self.0.set_report_unsampled(report_unsampled);
    }

    /// Adds `tag` to the process. Every later report carries it.
    pub fn add_service_tag(&mut self, tag: Tag)
        ensures
            final(self)@ == with_service_tag(old(self)@, tag@),
    {
        self.0.add_service_tag(tag);
    }

    /// Makes the datagram for one batch: this process with the given spans,
    /// in the given order, in the compact encoding.
    pub fn report(&self, spans: &[FinishedSpan]) -> (r: Result<Vec<u8>, TraceError>)
        ensures
            bytes_view(r) == report_result(
                Protocol::Compact,
                self@,
                finished_spans_view(spans@),
            ),
    {
        self.0.report(spans, Protocol::Compact)
    }
}

/// A reporter for an agent that reads thrift in the binary encoding.
#[derive(Debug, Clone)]
pub struct JaegerBinaryReporter(JaegerReporter);

impl View for JaegerBinaryReporter {
    type V = ReporterView;

    closed spec fn view(&self) -> ReporterView {
        self.0@
    }
}

impl JaegerBinaryReporter {
    /// A reporter for the service `service_name` on this host. Its process
    /// has the tags that every reporter begins with, with the name and the
    /// address of this host as far as the system gives them.
    pub fn new(service_name: &str) -> (r: JaegerBinaryReporter)
        ensures
            exists|hostname: Option<Seq<char>>, ip: Option<Seq<char>>|
                r@ == #[trigger] new_reporter(service_name@, hostname, ip),
    {
        JaegerBinaryReporter(JaegerReporter::new(service_name))
    }

    /// A reporter for the service `service_name` on a host of which the given
    /// name and address are known.
    pub fn with_host(service_name: &str, hostname: Option<String>, ip: Option<String>) -> (r:
        JaegerBinaryReporter)
        ensures
            r@ == new_reporter(service_name@, text_of(hostname), text_of(ip)),
    {
        JaegerBinaryReporter(JaegerReporter::with_host(service_name, hostname, ip))
    }

    /// The process that this reporter reports for.
    pub fn process(&self) -> (r: &Process)
        ensures
            r@ == self@.process,
    {
        self.0.process()
    }

    /// Sets the number of bytes that a datagram of this reporter may have.
    pub fn set_max_datagram_size(&mut self, size: usize)
        ensures
            final(self)@ == (ReporterView { max_datagram_size: size as nat, ..old(self)@ }),
    {
        self.0.set_max_datagram_size(size);
    }

    /// Sets whether this reporter reports spans that are not sampled. A new
    /// reporter reports every span that it is given.
    pub fn set_report_unsampled(&mut self, report_unsampled: bool)
        ensures
            final(self)@ == (ReporterView { report_unsampled, ..old(self)@ }),
    {
        self.0.set_report_unsampled(report_unsampled);
    }

    /// Adds `tag` to the process. Every later report carries it.
    pub fn add_service_tag(&mut self, tag: Tag)
        ensures
            final(self)@ == with_service_tag(old(self)@, tag@),
    {
        self.0.add_service_tag(tag);
    }

    /// Makes the datagram for one batch: this process with the given spans,
    /// in the given order, in the binary encoding.
    pub fn report(&self, spans: &[FinishedSpan]) -> (r: Result<Vec<u8>, TraceError>)
        ensures
            bytes_view(r) == report_result(
                Protocol::Binary,
                self@,
                finished_spans_view(spans@),
            ),
    {
        self.0.report(spans, Protocol::Binary)
    }
}

} // verus!

//! Logs: timestamped annotations on a span.

use crate::tag::tags_view;
use crate::tag::Tag;
use crate::tag::TagView;
use crate::time::Timestamp;
use vstd::prelude::*;

verus! {

/// Something that happened while a span was active: when, and what.
#[derive(Debug, Clone)]
pub struct Log {
    pub timestamp: Timestamp,
    pub fields: Vec<Tag>,
}

/// What a log holds.
pub struct LogView {
    pub timestamp: Timestamp,
    pub fields: Seq<TagView>,
}

impl View for Log {
    type V = LogView;

    open spec fn view(&self) -> LogView {
        LogView { timestamp: self.timestamp, fields: tags_view(self.fields@) }
    }
}

/// What each log of a sequence holds.
pub open spec fn logs_view(logs: Seq<Log>) -> Seq<LogView> {
    logs.map_values(|log: Log| log@)
}

impl Log {
    /// A log taken at `timestamp` with the given fields, in the given order.
    pub fn new(timestamp: Timestamp, fields: Vec<Tag>) -> (r: Log)
        ensures
            r@ == (LogView { timestamp, fields: tags_view(fields@) }),
    {
        Log { timestamp, fields }
    }

    /// When this log was taken.
    pub fn timestamp(&self) -> (r: Timestamp)
        ensures
            r == self@.timestamp,
    {
        self.timestamp
    }

    /// The fields of this log.
    pub fn fields(&self) -> (r: &[Tag])
        ensures
            tags_view(r@) == self@.fields,
    {
        self.fields.as_slice()
    }
}

} // verus!

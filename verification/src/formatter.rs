//! What the event formatter adds to a log event so that the agent can tie the
//! event to its trace: the narrowed identifiers of the current span.

use crate::ids::DatadogId;
use crate::vendor::{lookup_trace_info, trace_info_of, OtelData, TraceInfo};
use vstd::prelude::*;
use vstd::string::StringExecFns;

verus! {

/// The formatter of log events for the agent.
#[derive(Clone, Copy, Debug, PartialEq, Eq, Structural)]
pub struct DatadogFormatter;

/// An entry that the formatter adds to an event, as the contracts speak of
/// it: its key and the identifier written under it.
pub type TraceEntryText = (Seq<char>, DatadogId);

/// The entries for a span of identifiers `info`: the span identifier under
/// `dd.span_id`, then the trace identifier under `dd.trace_id`.
pub open spec fn trace_entries_of(info: Option<TraceInfo>) -> Seq<TraceEntryText> {
    match info {
        Some(info) => seq![("dd.span_id"@, info.span_id), ("dd.trace_id"@, info.trace_id)],
        None => Seq::<TraceEntryText>::empty(),
    }
}

/// The entries `entries` as the contracts speak of them.
pub open spec fn trace_entry_texts(entries: Seq<(String, DatadogId)>) -> Seq<TraceEntryText> {
    Seq::new(entries.len(), |i: int| (entries[i].0@, entries[i].1))
}

impl DatadogFormatter {
    /// The entries to add to an event that was logged inside the span whose
    /// tracing data is `data`, in the order in which they are written. An
    /// event outside any traced span gets none.
    pub fn trace_entries(&self, data: Option<&OtelData>) -> (entries: Vec<(String, DatadogId)>)
        ensures
            trace_entry_texts(entries@) == trace_entries_of(
                trace_info_of(
                    match data {
                        Some(data) => Some(*data),
                        None => None,
                    },
                ),
            ),
    {
        let mut entries: Vec<(String, DatadogId)> = Vec::new();
        match lookup_trace_info(data) {
            Some(info) => {
                entries.push((String::from_str("dd.span_id"), info.span_id));
                entries.push((String::from_str("dd.trace_id"), info.trace_id));
                assert(trace_entry_texts(entries@) =~= trace_entries_of(Some(info)));
            },
            None => {
                assert(trace_entry_texts(entries@) =~= trace_entries_of(None));
            },
        }
        entries
    }
}

} // verus!

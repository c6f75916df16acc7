use vstd::prelude::*;
use crate::classifier::{SpanEvent, classify, record_event};
use crate::lifecycle::{LifecycleState, TracerLifecycle};
use crate::record::TelemetryRecord;

verus! {

/// A span: a name and the events recorded on it, in order.
pub struct Span {
    pub name: String,
    pub events: Vec<SpanEvent>,
    pub closed: bool,
}

pub open spec fn events_view(events: Seq<SpanEvent>) -> Seq<(Seq<char>, Seq<(Seq<char>, Seq<char>)>)> {
    events.map_values(|e: SpanEvent| e@)
}

/// The events that a batch of records translates to, one per record, in order.
pub open spec fn batch_events(records: Seq<TelemetryRecord>) -> Seq<(Seq<char>, Seq<(Seq<char>, Seq<char>)>)> {
    records.map_values(|r: TelemetryRecord| record_event(r))
}

#[derive(PartialEq, Eq, Structural, Clone, Copy, Debug)]
pub enum BatchError {
    /// No tracer provider is active.
    TracerUnavailable,
}

impl Span {
    pub fn open(name: &str) -> (s: Span)
        ensures
            s.name@ == name@,
            s.events@.len() == 0,
            !s.closed,
    {
        Span { name: name.to_string(), events: Vec::new(), closed: false }
    }

    /// Appends an event to an open span.
    pub fn add_event(&mut self, event: SpanEvent)
        requires
            !old(self).closed,
        ensures
            final(self).name == old(self).name,
            final(self).events@ == old(self).events@.push(event),
            !final(self).closed,
    {
        self.events.push(event);
    }

    pub fn close(&mut self)
        ensures
            final(self).name == old(self).name,
            final(self).events@ == old(self).events@,
            final(self).closed,
    {
        self.closed = true;
    }
}

/// Opens one span named `handler`, records the event of every record on it in
/// arrival order, and closes it.
pub fn handle_batch(records: &Vec<TelemetryRecord>) -> (span: Span)
    ensures
        span.name@ == "handler"@,
        span.closed,
        events_view(span.events@) == batch_events(records@),
{
    let mut span = Span::open("handler");
    let mut k: usize = 0;
    while k < records.len()
        invariant
            k <= records@.len(),
            span.name@ == "handler"@,
            !span.closed,
            span.events@.len() == k,
            forall|j: int| 0 <= j < k ==> #[trigger] span.events@[j]@ == record_event(records@[j]),
        decreases records@.len() - k,
    {
        let e = classify(&records[k]);
        span.add_event(e);
        k = k + 1;
    }
    span.close();
    assert(events_view(span.events@) =~= batch_events(records@));
    span
}

/// Handles a batch against the tracer lifecycle: fails only when no provider is
/// active, and otherwise yields the closed span of the batch.
pub fn process_batch(lifecycle: &TracerLifecycle, records: &Vec<TelemetryRecord>) -> (r: Result<Span, BatchError>)
    ensures
        r is Err <==> lifecycle.state != LifecycleState::Active,
        r matches Err(e) ==> e == BatchError::TracerUnavailable,
        r matches Ok(span) ==> span.name@ == "handler"@ && span.closed
            && events_view(span.events@) == batch_events(records@),
{
    if lifecycle.is_active() {
        Ok(handle_batch(records))
    } else {
        Err(BatchError::TracerUnavailable)
    }
}

/// A batch yields exactly one event per record, and the event at each position
/// is the translation of the record at that position.
pub proof fn lemma_batch_order(records: Seq<TelemetryRecord>)
    ensures
        batch_events(records).len() == records.len(),
        forall|i: int| 0 <= i < records.len() ==> #[trigger] batch_events(records)[i] == record_event(records[i]),
{
}

/// An unrecognized record yields `unhandled_event` with one attribute holding its
/// dump, and the other records of its batch yield the same events, in the same
/// order, as they would without it.
pub proof fn lemma_unknown_isolated(records: Seq<TelemetryRecord>, k: int)
    requires
        0 <= k < records.len(),
        records[k] is Unknown,
    ensures
        batch_events(records)[k] == ("unhandled_event"@, seq![("event"@, records[k]->Unknown_0@)]),
        batch_events(records.remove(k)) == batch_events(records).remove(k),
{
    assert(batch_events(records.remove(k)) =~= batch_events(records).remove(k));
}

} // verus!

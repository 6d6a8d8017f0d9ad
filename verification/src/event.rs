//! The event descriptor contract and the dispatcher.
//!
//! An event kind declares, as data, the side effects one occurrence produces:
//! exactly one structured log entry, a bounded and statically known list of
//! metric updates, and at most one further (derived) event. The dispatcher
//! consumes one event value, delivers its log entry to the log sink, then its
//! metric updates to the metrics registry — in that order, so a reader
//! correlating a log line with a counter delta sees temporally coherent data —
//! and then does the same once for the derived event, whose own emission
//! provably derives nothing further: the emission graph has depth at most one.

use vstd::prelude::*;

use crate::adapters;
use crate::common::{ComponentEventsDropped, DroppedModel};
use crate::logging::{LogEntry, LogEntryModel};
use crate::metric::{MetricUpdate, MetricUpdateModel};

verus! {

/// Everything one dispatch of one event kind does, as data: one log entry,
/// the metric updates correlated with it, and at most one derived event.
#[derive(Debug)]
pub struct Emission {
    pub log: LogEntry,
    pub metrics: Vec<MetricUpdate>,
    pub derived: Option<ComponentEventsDropped>,
}

/// Mathematical model of an [`Emission`].
#[verifier::ext_equal]
pub struct EmissionModel {
    pub log: LogEntryModel,
    pub metrics: Seq<MetricUpdateModel>,
    pub derived: Option<DroppedModel>,
}

impl View for Emission {
    type V = EmissionModel;

    open spec fn view(&self) -> EmissionModel {
        EmissionModel {
            log: self.log@,
            metrics: self.metrics.deep_view(),
            derived: self.derived.deep_view(),
        }
    }
}

/// The shared capability every event kind implements: one consuming operation
/// that turns the occurrence's data into its declared emission. It never
/// fails and never returns an error; delivery problems are absorbed by the
/// sink adapters, never by the event's own logic.
pub trait InternalEvent: Sized {
    /// What the constructing component must guarantee about the occurrence's
    /// data (a defect in the caller, not a condition this core checks).
    spec fn wf(&self) -> bool;

    /// The emissions this event kind may produce for this instance. For every
    /// kind whose data the core can read in full, this pins the emission down
    /// to one exact value.
    spec fn emits(&self, e: EmissionModel) -> bool;

    /// Consumes the event and returns its declared side effects as data.
    fn effects(self) -> (e: Emission)
        requires
            self.wf(),
        ensures
            self.emits(e@),
    ;
}

/// Delivers one log entry, then its correlated metric updates, to the
/// process-wide sinks.
fn deliver(log: &LogEntry, updates: &Vec<MetricUpdate>) {
    adapters::log_write(log);
    let mut i: usize = 0;
    while i < updates.len()
        invariant
            i <= updates.len(),
        decreases updates.len() - i,
    {
        match &updates[i] {
            MetricUpdate::Counter { name, labels, delta } => {
                adapters::counter_add(name.as_str(), labels, *delta);
            },
            MetricUpdate::Histogram { name, labels, nanos } => {
                adapters::histogram_record(name.as_str(), labels, *nanos);
            },
        }
        i += 1;
    }
}

/// The dispatcher: accepts one event value and invokes its descriptor
/// operation exactly once — a local, synchronous call with no retries, no
/// buffering and no reordering relative to the calling context. Within the
/// dispatch, the log entry is written before the metric updates it is
/// correlated with; a derived event is then delivered the same way, and its
/// emission provably derives nothing further.
pub fn emit<E: InternalEvent>(event: E)
    requires
        event.wf(),
{
    let e = event.effects();
    deliver(&e.log, &e.metrics);
    if let Some(d) = e.derived {
        let e2 = d.effects();
        proof {
            assert(e2@.derived is None);
        }
        deliver(&e2.log, &e2.metrics);
    }
}

} // verus!

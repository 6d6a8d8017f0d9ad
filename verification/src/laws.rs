//! The guarantees the emission core gives as a whole, stated over the sink
//! model: aggregated counters lose no update, every error kind carries
//! exactly the registry pair declared for it, and each event kind touches
//! exactly the metrics its declaration names.

use vstd::prelude::*;

use crate::common::{dropped_emission, EndpointBytesReceived, RequestCompleted, StreamClosedError};
use crate::journald::{
    JournaldCheckpointFileOpenError, JournaldCheckpointSetError, JournaldInvalidRecordError,
    JournaldReadError, JournaldStartJournalctlError,
};
use crate::event::{EmissionModel, InternalEvent};
use crate::logging::{field_value, LogValueModel, Severity};
use crate::metric::{MetricKeyModel, MetricUpdateModel};
use crate::recording::{
    counter_value, counters_with, has_key, hist_values, key_index, sat_add, spec_apply_emission,
    spec_apply_update, spec_apply_updates, unique_keys, lemma_counter_value_at,
    lemma_counter_value_not_present, SinkModel,
};
use crate::taxonomy::{ErrorType, Stage};

verus! {

broadcast use vstd::string::group_string_axioms;

/// The sum of the increments a list of updates declares for the counter `k`.
pub open spec fn counter_deltas(us: Seq<MetricUpdateModel>, k: MetricKeyModel) -> int
    decreases us.len(),
{
    if us.len() == 0 {
        0
    } else {
        counter_deltas(us.drop_last(), k) + match us.last() {
            MetricUpdateModel::Counter { name, labels, delta } => {
                if (MetricKeyModel { name, labels }) == k {
                    delta as int
                } else {
                    0
                }
            },
            MetricUpdateModel::Histogram { .. } => 0,
        }
    }
}

/// The sum of the increments one whole dispatch declares for the counter
/// `k`, the derived drop notification included.
pub open spec fn emission_counter_deltas(m: EmissionModel, k: MetricKeyModel) -> int {
    counter_deltas(m.metrics, k) + match m.derived {
        None => 0,
        Some(d) => counter_deltas(dropped_emission(d).metrics, k),
    }
}

pub proof fn lemma_counter_deltas_nonneg(us: Seq<MetricUpdateModel>, k: MetricKeyModel)
    ensures
        counter_deltas(us, k) >= 0,
    decreases us.len(),
{
    if us.len() > 0 {
        lemma_counter_deltas_nonneg(us.drop_last(), k);
    }
}

/// Aggregating `delta` into the counter `k` adds exactly `delta` to its
/// total, leaves every other counter's total unchanged, and keeps the keys
/// unique.
pub proof fn lemma_counters_with(s: Seq<(MetricKeyModel, u64)>, k: MetricKeyModel, delta: u64)
    requires
        unique_keys(s),
    ensures
        unique_keys(counters_with(s, k, delta)),
        counter_value(counters_with(s, k, delta), k) == sat_add(counter_value(s, k), delta),
        forall|k2: MetricKeyModel| k2 != k ==> counter_value(counters_with(s, k, delta), k2)
            == counter_value(s, k2),
{
    let t = counters_with(s, k, delta);
    if has_key(s, k) {
        let i = key_index(s, k);
        assert(0 <= i < s.len() && s[i].0 == k);
        lemma_counter_value_at(s, k, i);
        assert(t =~= s.update(i, (k, sat_add(s[i].1, delta))));
        assert forall|a: int| 0 <= a < t.len() implies #[trigger] t[a].0 == s[a].0 by {
            if a == i {
                assert(t[a].0 == k);
            }
        }
        assert forall|a: int, b: int|
            #![trigger t[a], t[b]]
            0 <= a < b < t.len() implies t[a].0 != t[b].0 by {
            assert(s[a].0 != s[b].0);
        }
        lemma_counter_value_at(t, k, i);
        assert forall|k2: MetricKeyModel| k2 != k implies counter_value(t, k2) == counter_value(
            s,
            k2,
        ) by {
            if has_key(s, k2) {
                let j = choose|j: int| 0 <= j < s.len() && s[j].0 == k2;
                assert(j != i);
                assert(t[j].0 == k2 && t[j].1 == s[j].1);
                lemma_counter_value_at(s, k2, j);
                lemma_counter_value_at(t, k2, j);
            } else {
                assert(!has_key(t, k2)) by {
                    if has_key(t, k2) {
                        let w = choose|w: int| 0 <= w < t.len() && t[w].0 == k2;
                        assert(s[w].0 == k2);
                    }
                }
                lemma_counter_value_not_present(s, k2);
                lemma_counter_value_not_present(t, k2);
            }
        }
    } else {
        assert(t =~= s.push((k, delta)));
        lemma_counter_value_not_present(s, k);
        assert(counter_value(t, k) == delta);
        assert(sat_add(0, delta) == delta);
        assert forall|a: int, b: int|
            #![trigger t[a], t[b]]
            0 <= a < b < t.len() implies t[a].0 != t[b].0 by {
            if b < s.len() {
                assert(s[a].0 != s[b].0);
            } else {
                assert(t[b].0 == k);
                assert(s[a].0 != k) by {
                    if s[a].0 == k {
                        assert(has_key(s, k));
                    }
                }
            }
        }
        assert forall|k2: MetricKeyModel| k2 != k implies counter_value(t, k2) == counter_value(
            s,
            k2,
        ) by {
            assert(t.drop_last() =~= s);
            assert(t.last().0 == k);
        }
    }
}

/// One metric update adds exactly its declared increment to the counter it
/// addresses and leaves every other counter and every histogram total alone.
pub proof fn lemma_apply_update_counter(s: SinkModel, u: MetricUpdateModel, k: MetricKeyModel)
    requires
        s.wf(),
    ensures
        spec_apply_update(s, u).wf(),
        counter_value(spec_apply_update(s, u).counters, k) == match u {
            MetricUpdateModel::Counter { name, labels, delta } => {
                if (MetricKeyModel { name, labels }) == k {
                    sat_add(counter_value(s.counters, k), delta)
                } else {
                    counter_value(s.counters, k)
                }
            },
            MetricUpdateModel::Histogram { .. } => counter_value(s.counters, k),
        },
{
    match u {
        MetricUpdateModel::Counter { name, labels, delta } => {
            lemma_counters_with(s.counters, MetricKeyModel { name, labels }, delta);
        },
        MetricUpdateModel::Histogram { .. } => {},
    }
}

/// No lost updates across a list of metric updates: as long as the total
/// stays within the counter's width, the counter `k` ends exactly at its
/// starting total plus the sum of the increments declared for it.
pub proof fn lemma_apply_updates_counter(
    s: SinkModel,
    us: Seq<MetricUpdateModel>,
    k: MetricKeyModel,
)
    requires
        s.wf(),
        counter_value(s.counters, k) + counter_deltas(us, k) <= u64::MAX,
    ensures
        spec_apply_updates(s, us).wf(),
        counter_value(spec_apply_updates(s, us).counters, k) == counter_value(s.counters, k)
            + counter_deltas(us, k),
    decreases us.len(),
{
    if us.len() > 0 {
        let prefix = us.drop_last();
        lemma_counter_deltas_nonneg(prefix, k);
        match us.last() {
            MetricUpdateModel::Counter { name, labels, delta } => {
                lemma_counter_deltas_nonneg(us, k);
            },
            MetricUpdateModel::Histogram { .. } => {},
        }
        lemma_apply_updates_counter(s, prefix, k);
        lemma_apply_update_counter(spec_apply_updates(s, prefix), us.last(), k);
    }
}

/// No lost updates across one whole dispatch, the derived drop notification
/// included.
pub proof fn lemma_dispatch_counter(s: SinkModel, m: EmissionModel, k: MetricKeyModel)
    requires
        s.wf(),
        counter_value(s.counters, k) + emission_counter_deltas(m, k) <= u64::MAX,
    ensures
        spec_apply_emission(s, m).wf(),
        counter_value(spec_apply_emission(s, m).counters, k) == counter_value(s.counters, k)
            + emission_counter_deltas(m, k),
{
    let s1 = SinkModel { logs: s.logs.push(m.log), ..s };
    lemma_counter_deltas_nonneg(m.metrics, k);
    match m.derived {
        None => {
            lemma_apply_updates_counter(s1, m.metrics, k);
        },
        Some(d) => {
            let dm = dropped_emission(d);
            lemma_counter_deltas_nonneg(dm.metrics, k);
            lemma_apply_updates_counter(s1, m.metrics, k);
            let s2 = spec_apply_updates(s1, m.metrics);
            let s3 = SinkModel { logs: s2.logs.push(dm.log), ..s2 };
            lemma_apply_updates_counter(s3, dm.metrics, k);
        },
    }
}

/// The sink after a list of whole dispatches, applied in order.
pub open spec fn spec_apply_emissions(s: SinkModel, ms: Seq<EmissionModel>) -> SinkModel
    decreases ms.len(),
{
    if ms.len() == 0 {
        s
    } else {
        spec_apply_emission(spec_apply_emissions(s, ms.drop_last()), ms.last())
    }
}

/// The sum of the increments a list of dispatches declares for the counter
/// `k`.
pub open spec fn emissions_counter_deltas(ms: Seq<EmissionModel>, k: MetricKeyModel) -> int
    decreases ms.len(),
{
    if ms.len() == 0 {
        0
    } else {
        emissions_counter_deltas(ms.drop_last(), k) + emission_counter_deltas(ms.last(), k)
    }
}

pub proof fn lemma_emission_deltas_nonneg(m: EmissionModel, k: MetricKeyModel)
    ensures
        emission_counter_deltas(m, k) >= 0,
{
    lemma_counter_deltas_nonneg(m.metrics, k);
    match m.derived {
        None => {},
        Some(d) => {
            lemma_counter_deltas_nonneg(dropped_emission(d).metrics, k);
        },
    }
}

pub proof fn lemma_emissions_deltas_nonneg(ms: Seq<EmissionModel>, k: MetricKeyModel)
    ensures
        emissions_counter_deltas(ms, k) >= 0,
    decreases ms.len(),
{
    if ms.len() > 0 {
        lemma_emissions_deltas_nonneg(ms.drop_last(), k);
        lemma_emission_deltas_nonneg(ms.last(), k);
    }
}

/// No lost updates across any number of dispatches: as long as the total
/// stays within the counter's width, the counter `k` ends exactly at its
/// starting total plus the sum of the increments the dispatches declare for
/// it.
pub proof fn lemma_no_lost_updates(s: SinkModel, ms: Seq<EmissionModel>, k: MetricKeyModel)
    requires
        s.wf(),
        counter_value(s.counters, k) + emissions_counter_deltas(ms, k) <= u64::MAX,
    ensures
        spec_apply_emissions(s, ms).wf(),
        counter_value(spec_apply_emissions(s, ms).counters, k) == counter_value(s.counters, k)
            + emissions_counter_deltas(ms, k),
    decreases ms.len(),
{
    if ms.len() > 0 {
        let prefix = ms.drop_last();
        lemma_emissions_deltas_nonneg(prefix, k);
        lemma_emission_deltas_nonneg(ms.last(), k);
        lemma_no_lost_updates(s, prefix, k);
        lemma_dispatch_counter(spec_apply_emissions(s, prefix), ms.last(), k);
    }
}

/// The identity of the error counter a stream-closed error increments.
pub open spec fn stream_closed_errors_key() -> MetricKeyModel {
    MetricKeyModel {
        name: "component_errors_total"@,
        labels: seq![
            ("error_code"@, "stream_closed"@),
            ("error_type"@, ErrorType::WriterFailed.spec_label()),
            ("stage"@, Stage::Sending.spec_label()),
        ],
    }
}

/// The identity of the discarded-events counter for the given intent.
pub open spec fn discarded_events_key(intentional: bool) -> MetricKeyModel {
    MetricKeyModel {
        name: "component_discarded_events_total"@,
        labels: seq![("intentional"@, if intentional { "true"@ } else { "false"@ })],
    }
}

/// The identity of the received-bytes counter for these labels.
pub open spec fn bytes_received_key(protocol: Seq<char>, endpoint: Seq<char>) -> MetricKeyModel {
    MetricKeyModel {
        name: "component_received_bytes_total"@,
        labels: seq![("protocol"@, protocol), ("endpoint"@, endpoint)],
    }
}

/// The identity of the completed-requests counter.
pub open spec fn requests_completed_key() -> MetricKeyModel {
    MetricKeyModel { name: "requests_completed_total"@, labels: Seq::empty() }
}

/// The identity of the request-duration histogram.
pub open spec fn request_duration_key() -> MetricKeyModel {
    MetricKeyModel { name: "request_duration_seconds"@, labels: Seq::empty() }
}

/// Every stream-closed error logs one error-level entry whose stage and type
/// fields carry exactly the registry pair declared for the kind.
pub proof fn lemma_stream_closed_taxonomy(ev: StreamClosedError, e: EmissionModel)
    requires
        ev.emits(e),
    ensures
        e.log.severity == Severity::Error,
        field_value(e.log.fields, "stage"@) == Some(
            LogValueModel::Str(Stage::Sending.spec_label()),
        ),
        field_value(e.log.fields, "error_type"@) == Some(
            LogValueModel::Str(ErrorType::WriterFailed.spec_label()),
        ),
{
    reveal_strlit("stage");
    reveal_strlit("error_type");
    assert("stage"@.len() == 5);
    assert("error_type"@.len() == 10);
    reveal_with_fuel(field_value, 6);
}

/// Every invalid-record error logs one error-level entry whose stage and
/// type fields carry exactly the registry pair declared for the kind.
pub proof fn lemma_invalid_record_taxonomy(ev: JournaldInvalidRecordError, e: EmissionModel)
    requires
        ev.emits(e),
    ensures
        e.log.severity == Severity::Error,
        field_value(e.log.fields, "stage"@) == Some(
            LogValueModel::Str(Stage::Processing.spec_label()),
        ),
        field_value(e.log.fields, "error_type"@) == Some(
            LogValueModel::Str(ErrorType::ParserFailed.spec_label()),
        ),
{
    reveal_strlit("stage");
    reveal_strlit("error_type");
    assert("stage"@.len() == 5);
    assert("error_type"@.len() == 10);
    reveal_with_fuel(field_value, 6);
    let t = choose|t: Seq<char>| e == ev.emission_with(t);
    assert(e == ev.emission_with(t));
}

/// Every subprocess-start error logs one error-level entry whose stage and
/// type fields carry exactly the registry pair declared for the kind.
pub proof fn lemma_start_journalctl_taxonomy(ev: JournaldStartJournalctlError, e: EmissionModel)
    requires
        ev.emits(e),
    ensures
        e.log.severity == Severity::Error,
        field_value(e.log.fields, "stage"@) == Some(
            LogValueModel::Str(Stage::Receiving.spec_label()),
        ),
        field_value(e.log.fields, "error_type"@) == Some(
            LogValueModel::Str(ErrorType::CommandFailed.spec_label()),
        ),
{
    reveal_strlit("stage");
    reveal_strlit("error_type");
    assert("stage"@.len() == 5);
    assert("error_type"@.len() == 10);
    reveal_with_fuel(field_value, 6);
}

/// Every stream-read error logs one error-level entry whose stage and type
/// fields carry exactly the registry pair declared for the kind.
pub proof fn lemma_read_error_taxonomy(ev: JournaldReadError, e: EmissionModel)
    requires
        ev.emits(e),
    ensures
        e.log.severity == Severity::Error,
        field_value(e.log.fields, "stage"@) == Some(
            LogValueModel::Str(Stage::Processing.spec_label()),
        ),
        field_value(e.log.fields, "error_type"@) == Some(
            LogValueModel::Str(ErrorType::ReaderFailed.spec_label()),
        ),
{
    reveal_strlit("stage");
    reveal_strlit("error_type");
    assert("stage"@.len() == 5);
    assert("error_type"@.len() == 10);
    reveal_with_fuel(field_value, 6);
}

/// Every checkpoint-write error logs one error-level entry whose stage and
/// type fields carry exactly the registry pair declared for the kind.
pub proof fn lemma_checkpoint_set_taxonomy(ev: JournaldCheckpointSetError, e: EmissionModel)
    requires
        ev.emits(e),
    ensures
        e.log.severity == Severity::Error,
        field_value(e.log.fields, "stage"@) == Some(
            LogValueModel::Str(Stage::Processing.spec_label()),
        ),
        field_value(e.log.fields, "error_type"@) == Some(
            LogValueModel::Str(ErrorType::IoFailed.spec_label()),
        ),
{
    reveal_strlit("stage");
    reveal_strlit("error_type");
    assert("stage"@.len() == 5);
    assert("error_type"@.len() == 10);
    reveal_with_fuel(field_value, 6);
    let t = choose|t: Seq<char>| e == ev.emission_with(t);
    assert(e == ev.emission_with(t));
}

/// Every checkpoint-open error logs one error-level entry whose stage and
/// type fields carry exactly the registry pair declared for the kind.
pub proof fn lemma_checkpoint_open_taxonomy(ev: JournaldCheckpointFileOpenError, e: EmissionModel)
    requires
        ev.emits(e),
    ensures
        e.log.severity == Severity::Error,
        field_value(e.log.fields, "stage"@) == Some(
            LogValueModel::Str(Stage::Receiving.spec_label()),
        ),
        field_value(e.log.fields, "error_type"@) == Some(
            LogValueModel::Str(ErrorType::IoFailed.spec_label()),
        ),
{
    reveal_strlit("stage");
    reveal_strlit("error_type");
    assert("stage"@.len() == 5);
    assert("error_type"@.len() == 10);
    reveal_with_fuel(field_value, 6);
    let t = choose|t: Seq<char>| e == ev.emission_with(t);
    assert(e == ev.emission_with(t));
}

/// One stream-closed dispatch adds exactly 1 to its error counter and
/// exactly the dropped count to the unintentional discarded-events counter,
/// in that same dispatch.
pub proof fn lemma_stream_closed_dispatch(ev: StreamClosedError, e: EmissionModel, s: SinkModel)
    requires
        ev.emits(e),
        s.wf(),
        counter_value(s.counters, stream_closed_errors_key()) + 1 <= u64::MAX,
        counter_value(s.counters, discarded_events_key(false)) + ev.count as int <= u64::MAX,
    ensures
        spec_apply_emission(s, e).wf(),
        counter_value(spec_apply_emission(s, e).counters, stream_closed_errors_key())
            == counter_value(s.counters, stream_closed_errors_key()) + 1,
        counter_value(spec_apply_emission(s, e).counters, discarded_events_key(false))
            == counter_value(s.counters, discarded_events_key(false)) + ev.count as int,
{
    reveal_strlit("component_errors_total");
    reveal_strlit("component_discarded_events_total");
    assert("component_errors_total"@.len() == 22);
    assert("component_discarded_events_total"@.len() == 32);
    reveal_with_fuel(counter_deltas, 4);
    let k1 = stream_closed_errors_key();
    let k2 = discarded_events_key(false);
    assert(k1.name != k2.name);
    assert(emission_counter_deltas(e, k1) == 1);
    assert(emission_counter_deltas(e, k2) == ev.count as int);
    lemma_dispatch_counter(s, e, k1);
    lemma_dispatch_counter(s, e, k2);
}

/// One byte-received dispatch adds exactly `byte_size` to the received-bytes
/// counter under its protocol and endpoint labels, and touches no other
/// metric: every other counter and every histogram is unchanged.
pub proof fn lemma_bytes_received_dispatch(
    ev: EndpointBytesReceived,
    e: EmissionModel,
    s: SinkModel,
)
    requires
        ev.emits(e),
        s.wf(),
        counter_value(s.counters, bytes_received_key(ev.protocol@, ev.endpoint@))
            + ev.byte_size as int <= u64::MAX,
    ensures
        spec_apply_emission(s, e).wf(),
        counter_value(spec_apply_emission(s, e).counters, bytes_received_key(
            ev.protocol@,
            ev.endpoint@,
        )) == counter_value(s.counters, bytes_received_key(ev.protocol@, ev.endpoint@))
            + ev.byte_size as int,
        forall|k2: MetricKeyModel| k2 != bytes_received_key(ev.protocol@, ev.endpoint@)
            ==> counter_value(spec_apply_emission(s, e).counters, k2) == counter_value(
            s.counters,
            k2,
        ),
        spec_apply_emission(s, e).histograms == s.histograms,
{
    let k = bytes_received_key(ev.protocol@, ev.endpoint@);
    reveal_with_fuel(counter_deltas, 4);
    reveal_with_fuel(spec_apply_updates, 4);
    assert(emission_counter_deltas(e, k) == ev.byte_size as int);
    assert(spec_apply_emission(s, e).histograms == s.histograms);
    lemma_dispatch_counter(s, e, k);
    assert forall|k2: MetricKeyModel| k2 != k implies counter_value(
        spec_apply_emission(s, e).counters,
        k2,
    ) == counter_value(s.counters, k2) by {
        assert(emission_counter_deltas(e, k2) == 0);
        lemma_dispatch_counter(s, e, k2);
    }
}

/// One request-completed dispatch adds exactly 1 to the completed-requests
/// counter and records exactly one request-duration observation: the span
/// between its two clock readings, in nanoseconds.
pub proof fn lemma_request_completed_dispatch(
    ev: RequestCompleted,
    e: EmissionModel,
    s: SinkModel,
)
    requires
        ev.emits(e),
        ev.wf(),
        s.wf(),
        counter_value(s.counters, requests_completed_key()) + 1 <= u64::MAX,
    ensures
        spec_apply_emission(s, e).wf(),
        counter_value(spec_apply_emission(s, e).counters, requests_completed_key())
            == counter_value(s.counters, requests_completed_key()) + 1,
        hist_values(spec_apply_emission(s, e).histograms, request_duration_key()) == hist_values(
            s.histograms,
            request_duration_key(),
        ).push((ev.end.nanos - ev.start.nanos) as u64),
{
    reveal_with_fuel(counter_deltas, 4);
    reveal_with_fuel(hist_values, 3);
    reveal_with_fuel(spec_apply_updates, 4);
    let k = requests_completed_key();
    let hk = request_duration_key();
    assert(emission_counter_deltas(e, k) == 1);
    lemma_dispatch_counter(s, e, k);
    let nanos = (ev.end.nanos - ev.start.nanos) as u64;
    let t = spec_apply_emission(s, e);
    assert(t.histograms =~= s.histograms.push((hk, nanos)));
    assert(s.histograms.push((hk, nanos)).drop_last() =~= s.histograms);
    assert(hist_values(t.histograms, hk) == hist_values(s.histograms, hk).push(nanos));
}

} // verus!

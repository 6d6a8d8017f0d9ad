//! An in-memory sink pair: a log that keeps every entry and a metrics
//! registry that aggregates counters and keeps every histogram observation.
//! It implements the same delivery the process-wide sinks receive, fully
//! verified, so callers and tests can observe exactly what one dispatch does.

use vstd::prelude::*;

use crate::common::dropped_emission;
use crate::event::{Emission, EmissionModel, InternalEvent};
use crate::logging::{LogEntry, LogEntryModel};
use crate::metric::{copy_labels, key_eq, MetricKey, MetricKeyModel, MetricUpdate, MetricUpdateModel};

verus! {

/// `a + b`, saturating at the counter's width.
pub open spec fn sat_add(a: u64, b: u64) -> u64 {
    if a + b > u64::MAX {
        u64::MAX
    } else {
        (a + b) as u64
    }
}

/// No two aggregated entries address the same metric identity.
pub open spec fn unique_keys(s: Seq<(MetricKeyModel, u64)>) -> bool {
    forall|i: int, j: int|
        #![trigger s[i], s[j]]
        0 <= i < j < s.len() ==> s[i].0 != s[j].0
}

/// Some aggregated entry addresses `k`.
pub open spec fn has_key(s: Seq<(MetricKeyModel, u64)>, k: MetricKeyModel) -> bool {
    exists|i: int| 0 <= i < s.len() && s[i].0 == k
}

/// The index of the entry addressing `k` (unique when the keys are unique).
pub open spec fn key_index(s: Seq<(MetricKeyModel, u64)>, k: MetricKeyModel) -> int {
    choose|i: int| 0 <= i < s.len() && s[i].0 == k
}

/// The aggregated total of the counter `k`: the value of the entry addressing
/// it, or zero when none does.
pub open spec fn counter_value(s: Seq<(MetricKeyModel, u64)>, k: MetricKeyModel) -> u64
    decreases s.len(),
{
    if s.len() == 0 {
        0
    } else if s.last().0 == k {
        s.last().1
    } else {
        counter_value(s.drop_last(), k)
    }
}

/// The aggregated counters after adding `delta` to the counter `k`.
pub open spec fn counters_with(
    s: Seq<(MetricKeyModel, u64)>,
    k: MetricKeyModel,
    delta: u64,
) -> Seq<(MetricKeyModel, u64)> {
    if has_key(s, k) {
        let i = key_index(s, k);
        s.update(i, (k, sat_add(s[i].1, delta)))
    } else {
        s.push((k, delta))
    }
}

/// The observations recorded for the histogram `k`, oldest first.
pub open spec fn hist_values(s: Seq<(MetricKeyModel, u64)>, k: MetricKeyModel) -> Seq<u64>
    decreases s.len(),
{
    if s.len() == 0 {
        Seq::empty()
    } else {
        let prefix = hist_values(s.drop_last(), k);
        if s.last().0 == k {
            prefix.push(s.last().1)
        } else {
            prefix
        }
    }
}

/// Mathematical model of a [`RecordingSink`]: every log entry in order, the
/// aggregated counters, and every histogram observation in order.
#[verifier::ext_equal]
pub struct SinkModel {
    pub logs: Seq<LogEntryModel>,
    pub counters: Seq<(MetricKeyModel, u64)>,
    pub histograms: Seq<(MetricKeyModel, u64)>,
}

impl SinkModel {
    pub open spec fn wf(&self) -> bool {
        unique_keys(self.counters)
    }
}

/// An in-memory log and metrics sink that records everything delivered to it.
pub struct RecordingSink {
    logs: Vec<LogEntry>,
    counters: Vec<(MetricKey, u64)>,
    histograms: Vec<(MetricKey, u64)>,
}

impl View for RecordingSink {
    type V = SinkModel;

    closed spec fn view(&self) -> SinkModel {
        SinkModel {
            logs: self.logs.deep_view(),
            counters: self.counters.deep_view(),
            histograms: self.histograms.deep_view(),
        }
    }
}

impl RecordingSink {
    pub open spec fn wf(&self) -> bool {
        self@.wf()
    }

    /// An empty sink: no log entries, no counters, no observations.
    pub fn new() -> (r: RecordingSink)
        ensures
            r.wf(),
            r@.logs == Seq::<LogEntryModel>::empty(),
            r@.counters == Seq::<(MetricKeyModel, u64)>::empty(),
            r@.histograms == Seq::<(MetricKeyModel, u64)>::empty(),
    {
        let r = RecordingSink { logs: Vec::new(), counters: Vec::new(), histograms: Vec::new() };
        proof {
            assert(r@.logs =~= Seq::<LogEntryModel>::empty());
            assert(r@.counters =~= Seq::<(MetricKeyModel, u64)>::empty());
            assert(r@.histograms =~= Seq::<(MetricKeyModel, u64)>::empty());
        }
        r
    }

    /// Appends one log entry.
    pub fn append_log(&mut self, entry: LogEntry)
        requires
            old(self).wf(),
        ensures
            final(self).wf(),
            final(self)@ == (SinkModel { logs: old(self)@.logs.push(entry@), ..old(self)@ }),
    {
        self.logs.push(entry);
        proof {
            assert(self@.logs =~= old(self)@.logs.push(self.logs@.last()@));
            assert(self@ =~~= (SinkModel { logs: old(self)@.logs.push(self.logs@.last()@), ..old(self)@ }));
        }
    }

    /// Adds `delta` to the counter with this identity, registering it at zero
    /// first if it was never updated before. Saturates at the counter width.
    pub fn increment_counter(&mut self, key: MetricKey, delta: u64)
        requires
            old(self).wf(),
        ensures
            final(self).wf(),
            final(self)@ == (SinkModel {
                counters: counters_with(old(self)@.counters, key@, delta),
                ..old(self)@
            }),
    {
        let ghost s0 = self@.counters;
        let ghost s0e = self.counters@;
        let mut i: usize = 0;
        while i < self.counters.len()
            invariant
                *self == *old(self),
                s0 == self@.counters,
                s0e == self.counters@,
                unique_keys(s0),
                i <= self.counters.len(),
                forall|j: int| 0 <= j < i ==> self@.counters[j].0 != key@,
            decreases self.counters.len() - i,
        {
            if key_eq(&self.counters[i].0, &key) {
                proof {
                    assert(s0[i as int].0 == key@);
                    assert(has_key(s0, key@));
                    let j = key_index(s0, key@);
                    assert(0 <= j < s0.len() && s0[j].0 == key@);
                    if j < i as int {
                        assert(s0[j].0 != s0[i as int].0);
                    } else if j > i as int {
                        assert(s0[i as int].0 != s0[j].0);
                    }
                    assert(key_index(s0, key@) == i as int);
                }
                let cur = self.counters[i].1;
                let newv = if cur > u64::MAX - delta {
                    u64::MAX
                } else {
                    cur + delta
                };
                let entry = self.counters.remove(i);
                self.counters.insert(i, (entry.0, newv));
                proof {
                    assert(newv == sat_add(s0[i as int].1, delta));
                    assert(entry == s0e[i as int]);
                    assert(self.counters@ =~= s0e.update(i as int, (entry.0, newv)));
                    let target = s0.update(i as int, (key@, sat_add(s0[i as int].1, delta)));
                    assert forall|a: int| 0 <= a < self@.counters.len() implies self@.counters[a]
                        == target[a] by {
                        if a == i as int {
                            assert(self.counters@[a] == (entry.0, newv));
                            assert(entry.0@ == key@);
                        } else {
                            assert(self.counters@[a] == s0e[a]);
                        }
                    }
                    assert(self@.counters =~= target);
                    assert(self@.counters == counters_with(s0, key@, delta));
                    assert forall|a: int, b: int|
                        #![trigger target[a], target[b]]
                        0 <= a < b < target.len() implies target[a].0 != target[b].0 by {
                        assert(target[a].0 == s0[a].0);
                        assert(target[b].0 == s0[b].0);
                        assert(s0[a].0 != s0[b].0);
                    }
                    assert(unique_keys(self@.counters));
                    assert(self@ =~~= (SinkModel {
                        counters: counters_with(old(self)@.counters, key@, delta),
                        ..old(self)@
                    }));
                }
                return ;
            }
            i += 1;
        }
        proof {
            assert(!has_key(s0, key@)) by {
                if has_key(s0, key@) {
                    let w = choose|w: int| 0 <= w < s0.len() && s0[w].0 == key@;
                    assert(s0[w].0 != key@);
                }
            }
        }
        self.counters.push((key, delta));
        proof {
            let target = s0.push((key@, delta));
            assert(self@.counters =~= target);
            assert forall|a: int, b: int|
                #![trigger target[a], target[b]]
                0 <= a < b < target.len() implies target[a].0 != target[b].0 by {
                if b < s0.len() {
                    assert(s0[a].0 != s0[b].0);
                } else {
                    assert(target[b].0 == key@);
                    assert(s0[a].0 != key@);
                }
            }
            assert(unique_keys(self@.counters));
            assert(self@ =~~= (SinkModel {
                counters: counters_with(old(self)@.counters, key@, delta),
                ..old(self)@
            }));
        }
    }

    /// Records one observation for the histogram with this identity.
    pub fn record_histogram(&mut self, key: MetricKey, nanos: u64)
        requires
            old(self).wf(),
        ensures
            final(self).wf(),
            final(self)@ == (SinkModel {
                histograms: old(self)@.histograms.push((key@, nanos)),
                ..old(self)@
            }),
    {
        self.histograms.push((key, nanos));
        proof {
            assert(self@.histograms =~= old(self)@.histograms.push((key@, nanos)));
            assert(self@ =~~= (SinkModel {
                histograms: old(self)@.histograms.push((key@, nanos)),
                ..old(self)@
            }));
        }
    }

    /// The aggregated total of the named counter under these labels.
    pub fn counter(&self, name: &str, labels: &Vec<(String, String)>) -> (r: u64)
        requires
            self.wf(),
        ensures
            r == counter_value(
                self@.counters,
                MetricKeyModel { name: name@, labels: labels.deep_view() },
            ),
    {
        let ghost k = MetricKeyModel { name: name@, labels: labels.deep_view() };
        let probe = MetricKey { name: name.to_owned(), labels: copy_labels(labels) };
        let mut i: usize = 0;
        while i < self.counters.len()
            invariant
                i <= self.counters.len(),
                self.wf(),
                probe@ == k,
                k == (MetricKeyModel { name: name@, labels: labels.deep_view() }),
                forall|j: int| 0 <= j < i ==> self@.counters[j].0 != k,
            decreases self.counters.len() - i,
        {
            if key_eq(&self.counters[i].0, &probe) {
                proof {
                    lemma_counter_value_at(self@.counters, k, i as int);
                    assert(self@.counters[i as int] == (
                        self.counters@[i as int].0@,
                        self.counters@[i as int].1,
                    ));
                }
                return self.counters[i].1;
            }
            i += 1;
        }
        proof {
            assert(!has_key(self@.counters, k)) by {
                if has_key(self@.counters, k) {
                    let w = choose|w: int|
                        0 <= w < self@.counters.len() && self@.counters[w].0 == k;
                    assert(self@.counters[w].0 != k);
                }
            }
            lemma_counter_value_not_present(self@.counters, k);
        }
        0
    }

    /// Every observation of the named histogram under these labels, oldest
    /// first.
    pub fn histogram(&self, name: &str, labels: &Vec<(String, String)>) -> (r: Vec<u64>)
        ensures
            r@ == hist_values(
                self@.histograms,
                MetricKeyModel { name: name@, labels: labels.deep_view() },
            ),
    {
        let ghost k = MetricKeyModel { name: name@, labels: labels.deep_view() };
        let probe = MetricKey { name: name.to_owned(), labels: copy_labels(labels) };
        let mut r: Vec<u64> = Vec::new();
        let mut i: usize = 0;
        while i < self.histograms.len()
            invariant
                i <= self.histograms.len(),
                probe@ == k,
                k == (MetricKeyModel { name: name@, labels: labels.deep_view() }),
                r@ == hist_values(self@.histograms.take(i as int), k),
            decreases self.histograms.len() - i,
        {
            proof {
                assert(self@.histograms.take(i as int + 1).drop_last() =~= self@.histograms.take(
                    i as int,
                ));
                assert(self@.histograms.take(i as int + 1).last() == self@.histograms[i as int]);
                assert(self@.histograms[i as int] == (
                    self.histograms@[i as int].0@,
                    self.histograms@[i as int].1,
                ));
            }
            if key_eq(&self.histograms[i].0, &probe) {
                r.push(self.histograms[i].1);
            }
            i += 1;
        }
        proof {
            assert(self@.histograms.take(self@.histograms.len() as int) =~= self@.histograms);
        }
        r
    }

    /// How many distinct counters have been touched.
    pub fn counters_len(&self) -> (r: usize)
        ensures
            r == self@.counters.len(),
    {
        self.counters.len()
    }

    /// How many histogram observations have been recorded in all.
    pub fn histograms_len(&self) -> (r: usize)
        ensures
            r == self@.histograms.len(),
    {
        self.histograms.len()
    }

    /// How many log entries have been written.
    pub fn logs_len(&self) -> (r: usize)
        ensures
            r == self@.logs.len(),
    {
        self.logs.len()
    }

    /// The log entry at this position, oldest first.
    pub fn log_at(&self, i: usize) -> (r: &LogEntry)
        requires
            i < self@.logs.len(),
        ensures
            r@ == self@.logs[i as int],
    {
        &self.logs[i]
    }
}

/// The sink after one metric update: a counter update aggregates into the
/// entry addressing its identity; a histogram update appends one observation.
pub open spec fn spec_apply_update(s: SinkModel, u: MetricUpdateModel) -> SinkModel {
    match u {
        MetricUpdateModel::Counter { name, labels, delta } => SinkModel {
            counters: counters_with(s.counters, MetricKeyModel { name, labels }, delta),
            ..s
        },
        MetricUpdateModel::Histogram { name, labels, nanos } => SinkModel {
            histograms: s.histograms.push((MetricKeyModel { name, labels }, nanos)),
            ..s
        },
    }
}

/// The sink after a list of metric updates, applied in order.
pub open spec fn spec_apply_updates(s: SinkModel, us: Seq<MetricUpdateModel>) -> SinkModel
    decreases us.len(),
{
    if us.len() == 0 {
        s
    } else {
        spec_apply_update(spec_apply_updates(s, us.drop_last()), us.last())
    }
}

/// The sink after one log entry.
pub open spec fn spec_apply_log(s: SinkModel, entry: LogEntryModel) -> SinkModel {
    SinkModel { logs: s.logs.push(entry), ..s }
}

/// The sink after one whole dispatch: the emission's log entry, then its
/// metric updates, then — for a derived drop notification — that event's own
/// log entry and metric updates.
pub open spec fn spec_apply_emission(s: SinkModel, m: EmissionModel) -> SinkModel {
    let s1 = spec_apply_updates(spec_apply_log(s, m.log), m.metrics);
    match m.derived {
        None => s1,
        Some(d) => {
            let dm = dropped_emission(d);
            spec_apply_updates(spec_apply_log(s1, dm.log), dm.metrics)
        },
    }
}

impl RecordingSink {
    /// Delivers one metric update.
    pub fn apply_update(&mut self, update: &MetricUpdate)
        requires
            old(self).wf(),
        ensures
            final(self).wf(),
            final(self)@ == spec_apply_update(old(self)@, update@),
    {
        match update {
            MetricUpdate::Counter { name, labels, delta } => {
                self.increment_counter(
                    MetricKey { name: name.as_str().to_owned(), labels: copy_labels(labels) },
                    *delta,
                );
            },
            MetricUpdate::Histogram { name, labels, nanos } => {
                self.record_histogram(
                    MetricKey { name: name.as_str().to_owned(), labels: copy_labels(labels) },
                    *nanos,
                );
            },
        }
    }

    /// Delivers a list of metric updates, in order.
    pub fn apply_updates(&mut self, updates: &Vec<MetricUpdate>)
        requires
            old(self).wf(),
        ensures
            final(self).wf(),
            final(self)@ == spec_apply_updates(old(self)@, updates.deep_view()),
    {
        let ghost all = updates.deep_view();
        let mut i: usize = 0;
        while i < updates.len()
            invariant
                i <= updates.len(),
                all == updates.deep_view(),
                all.len() == updates.len(),
                self.wf(),
                self@ == spec_apply_updates(old(self)@, all.take(i as int)),
            decreases updates.len() - i,
        {
            proof {
                assert(all.take(i as int + 1).drop_last() =~= all.take(i as int));
                assert(all.take(i as int + 1).last() == all[i as int]);
                assert(updates@[i as int].deep_view() == all[i as int]);
            }
            self.apply_update(&updates[i]);
            i += 1;
        }
        proof {
            assert(all.take(i as int) =~= all);
        }
    }

    /// Dispatches one event into this sink: the same delivery the
    /// process-wide sinks receive — the log entry first, then its metric
    /// updates, then the derived event's, when there is one — recorded where
    /// the caller can observe it.
    pub fn dispatch<E: InternalEvent>(&mut self, event: E)
        requires
            event.wf(),
            old(self).wf(),
        ensures
            final(self).wf(),
            exists|m: EmissionModel| #[trigger] event.emits(m) && final(self)@
                == spec_apply_emission(old(self)@, m),
    {
        let e = event.effects();
        let ghost m = e@;
        let Emission { log, metrics, derived } = e;
        self.append_log(log);
        self.apply_updates(&metrics);
        if let Some(d) = derived {
            let ghost dv = d@;
            let e2 = d.effects();
            proof {
                assert(e2@ == dropped_emission(dv));
            }
            let Emission { log: log2, metrics: metrics2, derived: _ } = e2;
            self.append_log(log2);
            self.apply_updates(&metrics2);
        }
        proof {
            assert(event.emits(m) && self@ == spec_apply_emission(old(self)@, m));
        }
    }
}

/// A counter never updated has total zero.
pub proof fn lemma_counter_value_not_present(s: Seq<(MetricKeyModel, u64)>, k: MetricKeyModel)
    requires
        !has_key(s, k),
    ensures
        counter_value(s, k) == 0,
    decreases s.len(),
{
    if s.len() > 0 {
        assert(s.last().0 != k);
        assert(!has_key(s.drop_last(), k)) by {
            if has_key(s.drop_last(), k) {
                let w = choose|w: int| 0 <= w < s.drop_last().len() && s.drop_last()[w].0 == k;
                assert(s[w].0 == k);
            }
        }
        lemma_counter_value_not_present(s.drop_last(), k);
    }
}

/// With unique keys, a counter's total is the value of its entry.
pub proof fn lemma_counter_value_at(s: Seq<(MetricKeyModel, u64)>, k: MetricKeyModel, i: int)
    requires
        unique_keys(s),
        0 <= i < s.len(),
        s[i].0 == k,
    ensures
        counter_value(s, k) == s[i].1,
    decreases s.len(),
{
    if i == s.len() - 1 {
        assert(s.last().0 == k);
    } else {
        assert(s.last().0 != k) by {
            assert(s[i].0 != s[s.len() - 1].0);
        }
        assert(unique_keys(s.drop_last())) by {
            assert(forall|a: int, b: int|
                #![trigger s.drop_last()[a], s.drop_last()[b]]
                0 <= a < b < s.drop_last().len() ==> s.drop_last()[a].0 != s.drop_last()[b].0)
                by {
                assert(forall|a: int| 0 <= a < s.drop_last().len() ==> s.drop_last()[a] == s[a]);
            }
        }
        lemma_counter_value_at(s.drop_last(), k, i);
    }
}

} // verus!

//! The metrics side of an emission: updates to named, labeled monotonic
//! counters and duration histograms. A metric identity is its name plus its
//! label pairs; the catalog keeps label values drawn from closed sets or from
//! configuration-bounded endpoint strings, so cardinality stays bounded.

use vstd::prelude::*;

verus! {

/// One update to the metrics sink: a counter increment or one histogram
/// observation (a duration, carried as whole nanoseconds).
#[derive(Debug)]
pub enum MetricUpdate {
    Counter { name: String, labels: Vec<(String, String)>, delta: u64 },
    Histogram { name: String, labels: Vec<(String, String)>, nanos: u64 },
}

/// Mathematical model of a [`MetricUpdate`].
#[verifier::ext_equal]
pub enum MetricUpdateModel {
    Counter { name: Seq<char>, labels: Seq<(Seq<char>, Seq<char>)>, delta: u64 },
    Histogram { name: Seq<char>, labels: Seq<(Seq<char>, Seq<char>)>, nanos: u64 },
}

impl View for MetricUpdate {
    type V = MetricUpdateModel;

    open spec fn view(&self) -> MetricUpdateModel {
        match self {
            MetricUpdate::Counter { name, labels, delta } => MetricUpdateModel::Counter {
                name: name@,
                labels: labels.deep_view(),
                delta: *delta,
            },
            MetricUpdate::Histogram { name, labels, nanos } => MetricUpdateModel::Histogram {
                name: name@,
                labels: labels.deep_view(),
                nanos: *nanos,
            },
        }
    }
}

impl DeepView for MetricUpdate {
    type V = MetricUpdateModel;

    open spec fn deep_view(&self) -> MetricUpdateModel {
        self.view()
    }
}

/// The identity of a metric: its name and its label pairs.
#[derive(Debug)]
pub struct MetricKey {
    pub name: String,
    pub labels: Vec<(String, String)>,
}

/// Mathematical model of a [`MetricKey`].
#[verifier::ext_equal]
pub struct MetricKeyModel {
    pub name: Seq<char>,
    pub labels: Seq<(Seq<char>, Seq<char>)>,
}

impl View for MetricKey {
    type V = MetricKeyModel;

    open spec fn view(&self) -> MetricKeyModel {
        MetricKeyModel { name: self.name@, labels: self.labels.deep_view() }
    }
}

impl DeepView for MetricKey {
    type V = MetricKeyModel;

    open spec fn deep_view(&self) -> MetricKeyModel {
        self.view()
    }
}

/// Builds one label pair.
pub fn label(key: &str, value: &str) -> (r: (String, String))
    ensures
        r.0@ == key@,
        r.1@ == value@,
{
    (key.to_owned(), value.to_owned())
}

/// Builds a counter increment.
pub fn counter_update(name: &str, labels: Vec<(String, String)>, delta: u64) -> (r: MetricUpdate)
    ensures
        r@ == (MetricUpdateModel::Counter { name: name@, labels: labels.deep_view(), delta }),
{
    MetricUpdate::Counter { name: name.to_owned(), labels, delta }
}

/// Builds one histogram observation of a duration in whole nanoseconds.
pub fn histogram_update(name: &str, labels: Vec<(String, String)>, nanos: u64) -> (r: MetricUpdate)
    ensures
        r@ == (MetricUpdateModel::Histogram { name: name@, labels: labels.deep_view(), nanos }),
{
    MetricUpdate::Histogram { name: name.to_owned(), labels, nanos }
}

/// Copies a label list.
pub fn copy_labels(labels: &Vec<(String, String)>) -> (r: Vec<(String, String)>)
    ensures
        r.deep_view() == labels.deep_view(),
{
    let mut r: Vec<(String, String)> = Vec::new();
    let mut i: usize = 0;
    while i < labels.len()
        invariant
            i <= labels.len(),
            r.deep_view() =~= labels.deep_view().take(i as int),
        decreases labels.len() - i,
    {
        let ghost r0 = r.deep_view();
        let key_part = labels[i].0.clone();
        let value_part = labels[i].1.clone();
        let ghost gk = key_part@;
        let ghost gv = value_part@;
        proof {
            assert(gk == labels@[i as int].0@);
            assert(gv == labels@[i as int].1@);
            assert(labels.deep_view()[i as int] == (labels@[i as int].0@, labels@[i as int].1@));
        }
        let ghost re0 = r@;
        r.push((key_part, value_part));
        proof {
            assert(r0.len() == labels.deep_view().take(i as int).len());
            assert(re0.len() == i as int);
            assert(r@.len() == re0.len() + 1);
            assert(forall|j: int| 0 <= j < re0.len() ==> r@[j] == re0[j]);
            assert(r@[re0.len() as int].0@ == gk);
            assert(r@[re0.len() as int].1@ == gv);
            assert forall|j: int| 0 <= j < r.deep_view().len() implies r.deep_view()[j]
                == labels.deep_view().take(i as int + 1)[j] by {
                assert(r.deep_view()[j] == r@[j].deep_view());
                if j < i as int {
                    assert(r@[j].deep_view() == r0[j]);
                    assert(r0[j] == labels.deep_view()[j]);
                } else {
                    assert(r@[j].0@ == gk);
                    assert(r@[j].1@ == gv);
                }
            }
            assert(r.deep_view().len() == i as int + 1);
            assert(r.deep_view() =~= labels.deep_view().take(i as int + 1));
        }
        i += 1;
    }
    proof {
        assert(r.deep_view() =~= labels.deep_view());
    }
    r
}

/// Compares two label lists by content.
pub fn labels_eq(a: &Vec<(String, String)>, b: &Vec<(String, String)>) -> (r: bool)
    ensures
        r == (a.deep_view() == b.deep_view()),
{
    if a.len() != b.len() {
        assert(a.deep_view().len() != b.deep_view().len());
        return false;
    }
    let mut i: usize = 0;
    while i < a.len()
        invariant
            i <= a.len(),
            a.len() == b.len(),
            forall|j: int| 0 <= j < i ==> a.deep_view()[j] == b.deep_view()[j],
        decreases a.len() - i,
    {
        if !(a[i].0 == b[i].0) || !(a[i].1 == b[i].1) {
            assert(a.deep_view()[i as int] != b.deep_view()[i as int]);
            return false;
        }
        assert(a.deep_view()[i as int] == b.deep_view()[i as int]);
        i += 1;
    }
    assert(a.deep_view() =~= b.deep_view());
    true
}

/// Compares two metric identities by content.
pub fn key_eq(a: &MetricKey, b: &MetricKey) -> (r: bool)
    ensures
        r == (a@ == b@),
{
    let names_equal = a.name == b.name;
    if names_equal && labels_eq(&a.labels, &b.labels) {
        assert(a@ =~= b@);
        true
    } else {
        false
    }
}

} // verus!

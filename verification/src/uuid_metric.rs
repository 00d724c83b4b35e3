//! The UUID-valued metric: the representative metric type of the commit
//! protocol. It expresses "always replace" through the overwrite commit and
//! "seed once, then keep" through the merge commit, purely via the decision
//! function it hands to storage.

use vstd::prelude::*;
use crate::common::CommonMetricData;
use crate::glean::Glean;
use crate::metric::{Metric, MetricValue};
use crate::storage::{reports_stored_value, stored_value};
use crate::uuid_value::{is_canonical_uuid, UuidValue};

verus! {

/// What one permitted merge commit of [`UuidMetric::generate_if_missing`]
/// leaves in the store: a UUID already held under the identity stays as it
/// is; in every other case — nothing stored, or a stored value of another
/// kind — the freshly drawn encoding `fresh` goes in.
pub open spec fn after_generate_if_missing(
    m: Map<u64, MetricValue>,
    id: u64,
    fresh: Seq<char>,
) -> Map<u64, MetricValue> {
    match stored_value(m, id) {
        Option::Some(MetricValue::Uuid(_)) => m,
        _ => m.insert(id, MetricValue::Uuid(fresh)),
    }
}

/// A UUID-valued metric instance: at most one stored UUID per identity.
#[derive(Debug)]
pub struct UuidMetric {
    meta: CommonMetricData,
}

impl UuidMetric {
    /// The descriptor this metric instance was created with.
    pub closed spec fn metadata(&self) -> CommonMetricData {
        self.meta
    }

    /// A new metric instance for the given descriptor.
    pub fn new(meta: CommonMetricData) -> (r: Self)
        ensures
            r.metadata() == meta,
    {
        UuidMetric { meta }
    }

    /// Unconditionally replaces this metric's stored value with the
    /// canonical encoding of the caller's `value` — provided both the
    /// recording policy and the upload switch say yes; otherwise nothing
    /// is written.
    pub fn set(&self, glean: &mut Glean, value: &UuidValue)
        ensures
            final(glean).spec_upload_enabled() == old(glean).spec_upload_enabled(),
            !(self.metadata().permits() && old(glean).spec_upload_enabled())
                ==> final(glean).store_map() == old(glean).store_map(),
            self.metadata().permits() && old(glean).spec_upload_enabled()
                ==> final(glean).store_map()
                    == old(glean).store_map().insert(self.metadata().id, MetricValue::Uuid(value@)),
    {
        if !self.meta.should_record() || !glean.is_upload_enabled() {
            return;
        }
        let m = value.to_metric();
        glean.record(&self.meta, m);
    }

    /// Draws a fresh random (version-4) UUID and hands it to
    /// [`Self::set`]. Whether or not that write went through, the caller
    /// gets the drawn UUID back and can go on working with it.
    pub fn generate(&self, glean: &mut Glean) -> (r: UuidValue)
        ensures
            is_canonical_uuid(r@),
            final(glean).spec_upload_enabled() == old(glean).spec_upload_enabled(),
            !(self.metadata().permits() && old(glean).spec_upload_enabled())
                ==> final(glean).store_map() == old(glean).store_map(),
            self.metadata().permits() && old(glean).spec_upload_enabled()
                ==> final(glean).store_map()
                    == old(glean).store_map().insert(self.metadata().id, MetricValue::Uuid(r@)),
    {
        let value = UuidValue::random();
        self.set(glean, &value);
        value
    }

    /// Seeds this metric's value where none is established yet. When the
    /// gate says no, nothing happens, not even a storage read. Otherwise
    /// one atomic merge commit runs: its decision keeps a UUID that is
    /// already stored and puts a freshly drawn one over anything else, so
    /// repeated calls can only ever settle on a single UUID per identity.
    pub fn generate_if_missing(&self, glean: &mut Glean)
        ensures
            final(glean).spec_upload_enabled() == old(glean).spec_upload_enabled(),
            !(self.metadata().permits() && old(glean).spec_upload_enabled())
                ==> final(glean).store_map() == old(glean).store_map(),
            self.metadata().permits() && old(glean).spec_upload_enabled() ==> exists|fresh: Seq<char>|
                #![trigger after_generate_if_missing(old(glean).store_map(), self.metadata().id, fresh)]
                {
                    &&& (stored_value(old(glean).store_map(), self.metadata().id) matches Option::Some(
                        MetricValue::Uuid(_),
                    )) || is_canonical_uuid(fresh)
                    &&& final(glean).store_map() == after_generate_if_missing(
                        old(glean).store_map(),
                        self.metadata().id,
                        fresh,
                    )
                },
    {
        if !self.meta.should_record() || !glean.is_upload_enabled() {
            return;
        }
        let decide = |old_value: Option<Metric>| -> (r: Metric)
            ensures
                match old_value {
                    Option::Some(Metric::Uuid(s)) => r@ == MetricValue::Uuid(s@),
                    _ => r@ matches MetricValue::Uuid(f) && is_canonical_uuid(f),
                },
            {
                match old_value {
                    Option::Some(Metric::Uuid(s)) => Metric::Uuid(s),
                    _ => {
                        let fresh = UuidValue::random();
                        fresh.to_metric()
                    },
                }
            };
        let ghost decide_g = decide;
        glean.record_with(&self.meta, decide);
        proof {
            let id = self.meta.id;
            let m0 = old(glean).store_map();
            let (prev, nv) = choose|prev: Option<Metric>, nv: Metric|
                {
                    &&& reports_stored_value(prev, m0, id)
                    &&& #[trigger] call_ensures(decide_g, (prev,), nv)
                    &&& glean.store_map() == m0.insert(id, nv@)
                };
            match stored_value(m0, id) {
                Option::Some(MetricValue::Uuid(s0)) => {
                    assert(prev matches Option::Some(p) && p@ == MetricValue::Uuid(s0));
                    assert(nv@ == MetricValue::Uuid(s0));
                    assert(m0.insert(id, nv@) =~= m0);
                    assert(after_generate_if_missing(m0, id, s0) == m0);
                    assert(glean.store_map() == after_generate_if_missing(m0, id, s0));
                },
                _ => {
                    assert(!(prev matches Option::Some(p) && p@ matches MetricValue::Uuid(_)));
                    let f = choose|f: Seq<char>| nv@ == MetricValue::Uuid(f) && is_canonical_uuid(f);
                    assert(after_generate_if_missing(m0, id, f) == m0.insert(
                        id,
                        MetricValue::Uuid(f),
                    ));
                    assert(glean.store_map() == after_generate_if_missing(m0, id, f));
                },
            }
        }
    }
}

} // verus!

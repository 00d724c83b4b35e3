//! The storage engine's value map and the commit interface the metric
//! types call: plain overwrite, and a merge where a function chosen by the
//! caller turns the old value into the new one.
//!
//! The core is synchronous: holding the map behind `&mut` makes every
//! merge cycle — read, decide, write — one indivisible step, so two merges
//! aimed at the same identity cannot interleave.

use std::collections::HashMap;
use vstd::prelude::*;
use crate::common::CommonMetricData;
use crate::metric::{Metric, MetricValue};

verus! {

broadcast use vstd::std_specs::hash::group_hash_axioms;

/// The stored value under an identity, or `None` as the absent marker.
pub open spec fn stored_value(m: Map<u64, MetricValue>, id: u64) -> Option<MetricValue> {
    if m.contains_key(id) {
        Option::Some(m[id])
    } else {
        Option::None
    }
}

/// Whether `prev`, as handed to a merge decision function, is a faithful
/// copy of what the map `m` held under `id` when the merge cycle began.
pub open spec fn reports_stored_value(
    prev: Option<Metric>,
    m: Map<u64, MetricValue>,
    id: u64,
) -> bool {
    match prev {
        Option::Some(p) => m.contains_key(id) && m[id] == p@,
        Option::None => !m.contains_key(id),
    }
}

/// The storage engine's value map, keyed by metric identity.
pub struct MetricStore {
    entries: HashMap<u64, Metric>,
}

impl View for MetricStore {
    type V = Map<u64, MetricValue>;

    closed spec fn view(&self) -> Map<u64, MetricValue> {
        Map::new(|k: u64| self.entries@.contains_key(k), |k: u64| self.entries@[k]@)
    }
}

impl MetricStore {
    /// An empty store.
    pub fn new() -> (r: MetricStore)
        ensures
            r@ == Map::<u64, MetricValue>::empty(),
    {
        let r = MetricStore { entries: HashMap::new() };
        proof {
            assert(r@ =~= Map::<u64, MetricValue>::empty());
        }
        r
    }

    /// Plain overwrite: whatever the identity held before, it now holds
    /// `value` and nothing else.
    pub fn record(&mut self, meta: &CommonMetricData, value: Metric)
        ensures
            final(self)@ == old(self)@.insert(meta.id, value@),
    {
        let ghost v = value;
        self.entries.insert(meta.id, value);
        proof {
            assert(self@ =~= old(self)@.insert(meta.id, v@));
        }
    }

    /// Merge commit: `decide` is given what the identity held before the
    /// call (or `None`) and answers with the value to put there. Nothing
    /// can come between the read, the decision and the write, so per merge
    /// cycle there is exactly one effective write.
    pub fn record_with<F: FnOnce(Option<Metric>) -> Metric>(
        &mut self,
        meta: &CommonMetricData,
        decide: F,
    )
        requires
            forall|prev: Option<Metric>| #[trigger] call_requires(decide, (prev,)),
        ensures
            exists|prev: Option<Metric>, nv: Metric|
                {
                    &&& reports_stored_value(prev, old(self)@, meta.id)
                    &&& #[trigger] call_ensures(decide, (prev,), nv)
                    &&& final(self)@ == old(self)@.insert(meta.id, nv@)
                },
    {
        let prev: Option<Metric> = match self.entries.get(&meta.id) {
            Option::Some(m) => Option::Some(m.clone()),
            Option::None => Option::None,
        };
        let ghost prev_g = prev;
        proof {
            assert(reports_stored_value(prev_g, old(self)@, meta.id));
        }
        let nv = decide(prev);
        let ghost nv_g = nv;
        self.entries.insert(meta.id, nv);
        proof {
            assert(self@ =~= old(self)@.insert(meta.id, nv_g@));
            assert(call_ensures(decide, (prev_g,), nv_g));
        }
    }

    /// The stored value for this identity, if any.
    pub fn get(&self, meta: &CommonMetricData) -> (r: Option<&Metric>)
        ensures
            match r {
                Option::Some(m) => stored_value(self@, meta.id) == Option::Some(m@),
                Option::None => stored_value(self@, meta.id) is None,
            },
    {
        self.entries.get(&meta.id)
    }
}

} // verus!

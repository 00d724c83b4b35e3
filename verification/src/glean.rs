//! The session object: the process-wide upload switch, fixed at session
//! start, and the storage engine the metric types commit into.

use vstd::prelude::*;
use crate::common::CommonMetricData;
use crate::metric::{Metric, MetricValue};
use crate::storage::{reports_stored_value, stored_value, MetricStore};

verus! {

/// One session: the global upload flag and the value store.
///
/// Metric operations only read the flag; while it is false they commit
/// nothing, whatever the per-metric policy would have allowed.
pub struct Glean {
    upload_enabled: bool,
    store: MetricStore,
}

impl Glean {
    /// The process-wide upload switch.
    pub closed spec fn spec_upload_enabled(&self) -> bool {
        self.upload_enabled
    }

    /// The storage engine's value map.
    pub closed spec fn store_map(&self) -> Map<u64, MetricValue> {
        self.store@
    }

    /// A fresh session with an empty store.
    pub fn new(upload_enabled: bool) -> (r: Glean)
        ensures
            r.spec_upload_enabled() == upload_enabled,
            r.store_map() == Map::<u64, MetricValue>::empty(),
    {
        Glean { upload_enabled, store: MetricStore::new() }
    }

    /// Whether upload is enabled for this session.
    pub fn is_upload_enabled(&self) -> (r: bool)
        ensures
            r == self.spec_upload_enabled(),
    {
        self.upload_enabled
    }

    /// Overwrite commit into this session's store.
    pub fn record(&mut self, meta: &CommonMetricData, value: Metric)
        ensures
            final(self).spec_upload_enabled() == old(self).spec_upload_enabled(),
            final(self).store_map() == old(self).store_map().insert(meta.id, value@),
    {
        self.store.record(meta, value);
    }

    /// Merge commit into this session's store; see
    /// [`MetricStore::record_with`].
    pub fn record_with<F: FnOnce(Option<Metric>) -> Metric>(
        &mut self,
        meta: &CommonMetricData,
        decide: F,
    )
        requires
            forall|prev: Option<Metric>| #[trigger] call_requires(decide, (prev,)),
        ensures
            final(self).spec_upload_enabled() == old(self).spec_upload_enabled(),
            exists|prev: Option<Metric>, nv: Metric|
                {
                    &&& reports_stored_value(prev, old(self).store_map(), meta.id)
                    &&& #[trigger] call_ensures(decide, (prev,), nv)
                    &&& final(self).store_map() == old(self).store_map().insert(meta.id, nv@)
                },
    {
        self.store.record_with(meta, decide);
    }

    /// The stored value for this identity, if any.
    pub fn get_value(&self, meta: &CommonMetricData) -> (r: Option<&Metric>)
        ensures
            match r {
                Option::Some(m) => stored_value(self.store_map(), meta.id) == Option::Some(m@),
                Option::None => stored_value(self.store_map(), meta.id) is None,
            },
    {
        self.store.get(meta)
    }
}

} // verus!

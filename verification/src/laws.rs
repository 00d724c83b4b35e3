//! The commit protocol's laws, stated and proved over the storage model the
//! metric operations' contracts are written in.

use vstd::prelude::*;
use crate::metric::MetricValue;
use crate::storage::stored_value;
use crate::uuid_metric::after_generate_if_missing;

verus! {

/// Last write wins: committing `a` and then `b` under one identity comes
/// to the same as committing `b` alone, and what the identity then holds
/// is `b`, with no trace of `a`.
pub proof fn lemma_overwrite_last_write_wins(
    m: Map<u64, MetricValue>,
    id: u64,
    a: MetricValue,
    b: MetricValue,
)
    ensures
        m.insert(id, a).insert(id, b) == m.insert(id, b),
        m.insert(id, a).insert(id, b)[id] == b,
{
    assert(m.insert(id, a).insert(id, b) =~= m.insert(id, b));
}

/// Idempotent initialization: one permitted `generate_if_missing` commit
/// establishes a UUID under the identity, and a second permitted commit —
/// whatever fresh encoding it would draw — leaves the store exactly as the
/// first left it.
pub proof fn lemma_generate_if_missing_idempotent(
    m: Map<u64, MetricValue>,
    id: u64,
    f1: Seq<char>,
    f2: Seq<char>,
)
    ensures
        stored_value(after_generate_if_missing(m, id, f1), id) matches Option::Some(
            MetricValue::Uuid(_),
        ),
        after_generate_if_missing(after_generate_if_missing(m, id, f1), id, f2)
            == after_generate_if_missing(m, id, f1),
{
}

/// A merge commit does not keep a stored value of another kind: exactly as
/// for an empty slot, the freshly generated encoding goes in over it.
pub proof fn lemma_non_uuid_treated_as_missing(
    m: Map<u64, MetricValue>,
    id: u64,
    fresh: Seq<char>,
)
    requires
        !(stored_value(m, id) matches Option::Some(MetricValue::Uuid(_))),
    ensures
        after_generate_if_missing(m, id, fresh) == m.insert(id, MetricValue::Uuid(fresh)),
        stored_value(after_generate_if_missing(m, id, fresh), id) == Option::Some(
            MetricValue::Uuid(fresh),
        ),
{
}

} // verus!

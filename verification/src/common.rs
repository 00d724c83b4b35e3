//! The immutable descriptor attached to every metric instance, and the
//! per-metric recording policy gate evaluated over it.

use vstd::prelude::*;

verus! {

/// The identity and recording policy of one metric instance.
///
/// `id` stands for the stable storage key the metric's value is stored and
/// merged under (in the full system: name, category and lifetime).
/// `disabled` carries the metric's own eligibility rule; a full system
/// would fold several conditions into it, but the commit protocol only
/// looks at the resulting yes or no. A descriptor never changes once
/// constructed.
#[derive(Debug, Clone, Copy, PartialEq, Eq, Structural)]
pub struct CommonMetricData {
    pub id: u64,
    pub disabled: bool,
}

impl CommonMetricData {
    /// The recording policy gate's verdict for this metric.
    pub open spec fn permits(&self) -> bool {
        !self.disabled
    }

    /// Whether a write for this metric may proceed at all. A negative
    /// answer is an ordinary outcome, not a failure, and nothing is
    /// evaluated twice: the check has no side effects.
    pub fn should_record(&self) -> (r: bool)
        ensures
            r == self.permits(),
    {
        !self.disabled
    }
}

} // verus!

//! The closed union of metric value kinds. The commit protocol works on
//! the UUID kind; a second kind exists so that a merge decision can meet a
//! stored value it did not expect.

use vstd::prelude::*;

verus! {

/// A metric value as it is held by the storage engine.
///
/// A `Uuid` value carries the canonical text form of the UUID, since the
/// metric types that commit values only ever construct it from validated
/// or freshly generated encodings.
#[derive(Debug, PartialEq, Eq)]
pub enum Metric {
    /// A 128-bit UUID, as its canonical string encoding.
    Uuid(String),
    /// A boolean metric value, standing in for every other value kind.
    Boolean(bool),
}

/// The mathematical value of a [`Metric`]: the same tag, with the string
/// encoding abstracted to its character sequence.
#[verifier::ext_equal]
pub enum MetricValue {
    Uuid(Seq<char>),
    Boolean(bool),
}

impl View for Metric {
    type V = MetricValue;

    open spec fn view(&self) -> MetricValue {
        match self {
            Metric::Uuid(s) => MetricValue::Uuid(s@),
            Metric::Boolean(b) => MetricValue::Boolean(*b),
        }
    }
}

impl Clone for Metric {
    fn clone(&self) -> (res: Self)
        ensures
            res == *self,
    {
        match self {
            Metric::Uuid(s) => Metric::Uuid(s.clone()),
            Metric::Boolean(b) => Metric::Boolean(*b),
        }
    }
}

} // verus!

//! The canonical text form of a 128-bit UUID, and a validated value type
//! around it. Metric code stores this encoding and nothing else — no raw
//! byte form ever reaches storage.

use vstd::prelude::*;
use vstd::string::StrSliceExecFns;
use crate::metric::{Metric, MetricValue};

verus! {

/// The positions of the four hyphens in the canonical textual UUID form.
pub open spec fn uuid_hyphen_position(i: int) -> bool {
    i == 8 || i == 13 || i == 18 || i == 23
}

/// A lowercase hexadecimal digit: `'0'..='9'` or `'a'..='f'`.
pub open spec fn is_lower_hex_digit(c: char) -> bool {
    ('0' as u32 <= c as u32 && c as u32 <= '9' as u32) || ('a' as u32 <= c as u32 && c as u32
        <= 'f' as u32)
}

/// What the canonical form demands of the character at position `i`.
pub open spec fn canonical_uuid_char_at(s: Seq<char>, i: int) -> bool {
    if uuid_hyphen_position(i) {
        s[i] == '-'
    } else {
        is_lower_hex_digit(s[i])
    }
}

/// The canonical textual UUID representation: 36 characters, hyphens at
/// positions 8, 13, 18 and 23, lowercase hexadecimal digits everywhere else.
pub open spec fn is_canonical_uuid(s: Seq<char>) -> bool {
    s.len() == 36 && forall|i: int| 0 <= i < 36 ==> canonical_uuid_char_at(s, i)
}

/// Decides whether `s` is a canonical textual UUID.
pub fn is_canonical_uuid_str(s: &str) -> (r: bool)
    ensures
        r == is_canonical_uuid(s@),
{
    let n = s.unicode_len();
    if n != 36 {
        return false;
    }
    let mut i: usize = 0;
    while i < 36
        invariant
            0 <= i <= 36,
            s@.len() == 36,
            forall|j: int| 0 <= j < i ==> canonical_uuid_char_at(s@, j),
        decreases 36 - i,
    {
        let c = s.get_char(i);
        let ok = if i == 8 || i == 13 || i == 18 || i == 23 {
            c == '-'
        } else {
            let u = c as u32;
            ('0' as u32 <= u && u <= '9' as u32) || ('a' as u32 <= u && u <= 'f' as u32)
        };
        if !ok {
            proof {
                assert(!canonical_uuid_char_at(s@, i as int));
            }
            return false;
        }
        i += 1;
    }
    true
}

/// Relies on `uuid::Uuid::new_v4` and the `Display` encoding of
/// `uuid::Uuid`: the encoding is the hyphenated form, 36 characters with
/// hyphens at positions 8, 13, 18 and 23 and lowercase hexadecimal digits
/// everywhere else. The value itself is drawn at random, so nothing more is
/// assumed of it.
#[verifier::external_body]
fn random_canonical_uuid_string() -> (r: String)
    ensures
        is_canonical_uuid(r@),
{
    uuid::Uuid::new_v4().to_string()
}

/// A UUID, held as its canonical string encoding.
#[derive(Debug, PartialEq, Eq)]
pub struct UuidValue {
    value: String,
}

impl View for UuidValue {
    type V = Seq<char>;

    closed spec fn view(&self) -> Seq<char> {
        self.value@
    }
}

impl UuidValue {
    /// Once constructed, a UUID value always carries the canonical form.
    #[verifier::type_invariant]
    spec fn canonical(self) -> bool {
        is_canonical_uuid(self.value@)
    }

    /// Wraps an externally supplied encoding, if it is canonical.
    pub fn from_string(s: String) -> (r: Option<UuidValue>)
        ensures
            match r {
                Option::Some(u) => is_canonical_uuid(s@) && u@ == s@,
                Option::None => !is_canonical_uuid(s@),
            },
    {
        if is_canonical_uuid_str(s.as_str()) {
            Option::Some(UuidValue { value: s })
        } else {
            Option::None
        }
    }

    /// Draws a fresh random (version-4) UUID.
    pub fn random() -> (r: UuidValue)
        ensures
            is_canonical_uuid(r@),
    {
        UuidValue { value: random_canonical_uuid_string() }
    }

    /// The canonical string encoding.
    pub fn as_str(&self) -> (r: &str)
        ensures
            r@ == self@,
    {
        self.value.as_str()
    }

    /// The metric value that committing this UUID stores.
    pub fn to_metric(&self) -> (m: Metric)
        ensures
            m@ == MetricValue::Uuid(self@),
    {
        Metric::Uuid(self.value.clone())
    }
}

} // verus!

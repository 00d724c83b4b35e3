//! The queued-ping wire format: one record per file, line one the
//! destination URL, line two a JSON-encoded payload. A record without two
//! lines, or whose second line is not JSON, is dropped without complaint:
//! scanning reconciles what it can rather than validating strictly.

use vstd::prelude::*;

verus! {

/// Names the verdict of `serde_json::from_slice::<serde_json::Value>` on a
/// byte sequence: whether it is a well-formed JSON document. The verdict is
/// a function of the bytes alone.
pub uninterp spec fn json_accepted(bytes: Seq<u8>) -> bool;

/// Relies on `serde_json::from_slice::<serde_json::Value>`: whether parsing
/// succeeds is decided by the handed bytes alone.
#[verifier::external_body]
fn json_parses(bytes: &[u8]) -> (r: bool)
    ensures
        r == json_accepted(bytes@),
{
    serde_json::from_slice::<serde_json::Value>(bytes).is_ok()
}

/// Index of the first line break in `s`, or `s.len()` when there is none.
pub open spec fn first_newline(s: Seq<u8>) -> int
    decreases s.len(),
{
    if s.len() == 0 {
        0
    } else if s[0] == 10 {
        0
    } else {
        1 + first_newline(s.drop_first())
    }
}

/// `first_newline` finds a line break, and the least one.
pub proof fn lemma_first_newline(s: Seq<u8>)
    ensures
        0 <= first_newline(s) <= s.len(),
        first_newline(s) < s.len() ==> s[first_newline(s)] == 10,
        forall|j: int| 0 <= j < first_newline(s) ==> s[j] != 10,
    decreases s.len(),
{
    if s.len() == 0 {
    } else if s[0] == 10 {
    } else {
        lemma_first_newline(s.drop_first());
        assert forall|j: int| 0 <= j < first_newline(s) implies s[j] != 10 by {
            if j > 0 {
                assert(s.drop_first()[j - 1] == s[j]);
            }
        }
    }
}

/// The first line of a record: the bytes before the first line break.
pub open spec fn ping_url(s: Seq<u8>) -> Seq<u8> {
    s.subrange(0, first_newline(s))
}

/// The second line of a record: the bytes between the first line break and
/// the next one, or the end. Meaningful only when a first break exists.
pub open spec fn ping_body(s: Seq<u8>) -> Seq<u8> {
    let rest = s.subrange(first_newline(s) + 1, s.len() as int);
    rest.subrange(0, first_newline(rest))
}

/// A well-formed queued-ping record: a URL line closed by a line break,
/// then a line holding a JSON document.
pub open spec fn well_formed_ping(s: Seq<u8>) -> bool {
    first_newline(s) < s.len() && json_accepted(ping_body(s))
}

/// One successfully parsed queued-ping record: the destination URL line and
/// the JSON payload line, as raw bytes.
#[derive(Debug, PartialEq, Eq)]
pub struct QueuedPing {
    pub url: Vec<u8>,
    pub body: Vec<u8>,
}

impl View for QueuedPing {
    type V = (Seq<u8>, Seq<u8>);

    open spec fn view(&self) -> (Seq<u8>, Seq<u8>) {
        (self.url@, self.body@)
    }
}

/// Parses one record, answering `None` — absent, not failed — for
/// anything that does not have a URL line and a JSON line.
pub fn parse_queued_ping(content: &[u8]) -> (r: Option<QueuedPing>)
    ensures
        match r {
            Option::Some(p) => well_formed_ping(content@) && p.url@ == ping_url(content@)
                && p.body@ == ping_body(content@),
            Option::None => !well_formed_ping(content@),
        },
{
    let n = content.len();
    let mut i: usize = 0;
    while i < n && content[i] != 10
        invariant
            0 <= i <= n,
            n == content@.len(),
            forall|j: int| 0 <= j < i ==> content@[j] != 10,
        decreases n - i,
    {
        i += 1;
    }
    proof {
        lemma_first_newline(content@);
        assert(i as int == first_newline(content@));
    }
    if i == n {
        // a single line is not a record
        return Option::None;
    }
    let mut url: Vec<u8> = Vec::new();
    let mut k: usize = 0;
    while k < i
        invariant
            0 <= k <= i,
            i < n,
            n == content@.len(),
            url@.len() == k,
            forall|j: int| 0 <= j < k ==> url@[j] == content@[j],
        decreases i - k,
    {
        url.push(content[k]);
        k += 1;
    }
    proof {
        assert(url@ =~= ping_url(content@));
    }
    let start = i + 1;
    let ghost rest = content@.subrange(start as int, n as int);
    let mut e: usize = start;
    while e < n && content[e] != 10
        invariant
            start <= e <= n,
            start <= n,
            n == content@.len(),
            forall|j: int| start <= j < e ==> content@[j] != 10,
        decreases n - e,
    {
        e += 1;
    }
    proof {
        lemma_first_newline(rest);
        assert forall|j: int| 0 <= j < e - start implies rest[j] != 10 by {
            assert(rest[j] == content@[start + j]);
        }
        if e < n {
            assert(rest[e - start] == content@[e as int]);
        }
        assert(e - start == first_newline(rest));
    }
    let mut body: Vec<u8> = Vec::new();
    let mut k2: usize = start;
    while k2 < e
        invariant
            start <= k2 <= e <= n,
            n == content@.len(),
            body@.len() == k2 - start,
            forall|j: int| start <= j < k2 ==> body@[j - start] == content@[j],
        decreases e - k2,
    {
        body.push(content[k2]);
        k2 += 1;
    }
    proof {
        assert(body@ =~= ping_body(content@));
    }
    if json_parses(body.as_slice()) {
        Option::Some(QueuedPing { url, body })
    } else {
        Option::None
    }
}

/// The contents of a list of files, each abstracted to its byte sequence.
pub open spec fn file_contents(files: Seq<Vec<u8>>) -> Seq<Seq<u8>> {
    Seq::new(files.len(), |i: int| files[i]@)
}

/// The (URL, JSON) line pairs of the well-formed records among `files`, in
/// order; everything else is discarded.
pub open spec fn scanned_pings(files: Seq<Seq<u8>>) -> Seq<(Seq<u8>, Seq<u8>)>
    decreases files.len(),
{
    if files.len() == 0 {
        Seq::empty()
    } else {
        let rest = scanned_pings(files.drop_last());
        if well_formed_ping(files.last()) {
            rest.push((ping_url(files.last()), ping_body(files.last())))
        } else {
            rest
        }
    }
}

/// Scans the contents of the files found in a ping directory and returns
/// the (URL, JSON) pairs of the well-formed records, keeping their order
/// and dropping everything else.
pub fn scan_queued_pings(files: &Vec<Vec<u8>>) -> (r: Vec<QueuedPing>)
    ensures
        r@.len() == scanned_pings(file_contents(files@)).len(),
        forall|i: int|
            0 <= i < r@.len() ==> r@[i]@ == scanned_pings(file_contents(files@))[i],
{
    let ghost fv = file_contents(files@);
    let mut r: Vec<QueuedPing> = Vec::new();
    let mut idx: usize = 0;
    while idx < files.len()
        invariant
            0 <= idx <= files.len(),
            fv == file_contents(files@),
            fv.len() == files@.len(),
            r@.len() == scanned_pings(fv.take(idx as int)).len(),
            forall|i: int| 0 <= i < r@.len() ==> r@[i]@ == scanned_pings(fv.take(idx as int))[i],
        decreases files.len() - idx,
    {
        let parsed = parse_queued_ping(files[idx].as_slice());
        proof {
            assert(fv.take(idx as int + 1).drop_last() =~= fv.take(idx as int));
            assert(fv.take(idx as int + 1).last() == files@[idx as int]@);
        }
        match parsed {
            Option::Some(p) => r.push(p),
            Option::None => {},
        }
        idx += 1;
    }
    proof {
        assert(fv.take(files@.len() as int) =~= fv);
    }
    r
}

} // verus!

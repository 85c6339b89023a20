//! The driver's trigger report: every mode it knows, separated by spaces,
//! with the active one between square brackets (`none [timer] heartbeat`).
use vstd::prelude::*;
use crate::led::{Led, Trigger, OPEN_BRACKET, CLOSE_BRACKET, lemma_name_round_trip};

verus! {

/// Why a trigger report could not be read.
#[derive(Clone, Copy, PartialEq, Eq, Structural, Debug)]
pub enum ProtocolViolation {
    /// No `[` is followed by a `]`.
    NoSelection,
    /// The text between the brackets is no mode's name.
    UnknownMode,
}

/// The first index at or after `from` where `s` holds `c`.
pub open spec fn first_from(s: Seq<u8>, c: u8, from: int) -> Option<int>
    decreases s.len() - from,
{
    if from < 0 || from >= s.len() {
        None
    } else if s[from] == c {
        Some(from)
    } else {
        first_from(s, c, from + 1)
    }
}

/// The text strictly between the first `[` of the report and the first `]`
/// after it, if both are there.
pub open spec fn selection(report: Seq<u8>) -> Option<Seq<u8>> {
    match first_from(report, OPEN_BRACKET, 0) {
        Some(i) => match first_from(report, CLOSE_BRACKET, i + 1) {
            Some(j) => Some(report.subrange(i + 1, j)),
            None => None,
        },
        None => None,
    }
}

/// The mode that a report selects, or why it selects none.
pub open spec fn parsed(report: Seq<u8>) -> Result<Trigger, ProtocolViolation> {
    match selection(report) {
        Some(name) => match Trigger::named(name) {
            Some(t) => Ok(t),
            None => Err(ProtocolViolation::UnknownMode),
        },
        None => Err(ProtocolViolation::NoSelection),
    }
}

/// Where no byte of `s` from `from` up to `to` is `c`, the search from
/// `from` finds what the search from `to` finds.
pub proof fn lemma_first_from_skips(s: Seq<u8>, c: u8, from: int, to: int)
    requires
        0 <= from <= to <= s.len(),
        forall|k: int| from <= k < to ==> s[k] != c,
    ensures
        first_from(s, c, from) == first_from(s, c, to),
    decreases to - from,
{
    if from < to {
        lemma_first_from_skips(s, c, from + 1, to);
    }
}

/// A report that marks with brackets the name that setting the mode `t`
/// writes, and has no `[` before it, reads back as `t`, whatever else it holds.
pub proof fn lemma_report_round_trip(led: Led, t: Trigger, before: Seq<u8>, after: Seq<u8>)
    requires
        !before.contains(OPEN_BRACKET),
    ensures
        parsed(before + seq![OPEN_BRACKET] + led.trigger_write(t).1 + seq![CLOSE_BRACKET] + after)
            == Ok::<Trigger, ProtocolViolation>(t),
{
    let name = led.trigger_write(t).1;
    lemma_name_round_trip(t);
    let report = before + seq![OPEN_BRACKET] + name + seq![CLOSE_BRACKET] + after;
    let i = before.len() as int;
    let j = i + 1 + name.len();
    assert forall|k: int| 0 <= k < i implies report[k] != OPEN_BRACKET by {
        assert(report[k] == before[k]);
    }
    lemma_first_from_skips(report, OPEN_BRACKET, 0, i);
    assert(report[i] == OPEN_BRACKET);
    assert forall|k: int| i + 1 <= k < j implies report[k] != CLOSE_BRACKET by {
        assert(report[k] == name[k - i - 1]);
    }
    lemma_first_from_skips(report, CLOSE_BRACKET, i + 1, j);
    assert(report[j] == CLOSE_BRACKET);
    assert(report.subrange(i + 1, j) =~= name);
}

/// The first index at or after `from` where `s` holds `c`.
pub fn find_from(s: &[u8], c: u8, from: usize) -> (r: Option<usize>)
    ensures
        match r {
            Some(i) => from <= i < s@.len() && first_from(s@, c, from as int) == Some(i as int),
            None => first_from(s@, c, from as int) is None,
        },
{
    let mut i: usize = from;
    while i < s.len()
        invariant
            from <= i,
            i < s@.len() ==> first_from(s@, c, from as int) == first_from(s@, c, i as int),
            i >= s@.len() ==> first_from(s@, c, from as int) is None,
        decreases s@.len() - i,
    {
        if s[i] == c {
            return Some(i);
        }
        i = i + 1;
    }
    None
}

/// The mode that the driver's trigger report marks as active.
pub fn parse_trigger(report: &[u8]) -> (r: Result<Trigger, ProtocolViolation>)
    ensures
        r == parsed(report@),
{
    let n: usize = report.len();
    assert(n == report@.len());
    match find_from(report, OPEN_BRACKET, 0) {
        Some(i) => match find_from(report, CLOSE_BRACKET, i + 1) {
            Some(j) => {
                let name = slice_range(report, i + 1, j);
                assert(name@ == report@.subrange(i + 1, j as int));
                match Trigger::from_bytes(&name) {
                    Some(t) => Ok(t),
                    None => Err(ProtocolViolation::UnknownMode),
                }
            },
            None => Err(ProtocolViolation::NoSelection),
        },
        None => Err(ProtocolViolation::NoSelection),
    }
}

/// The bytes of `s` from `lo` up to, not including, `hi`.
fn slice_range(s: &[u8], lo: usize, hi: usize) -> (r: Vec<u8>)
    requires
        lo <= hi <= s@.len(),
    ensures
        r@ == s@.subrange(lo as int, hi as int),
{
    let mut r: Vec<u8> = Vec::new();
    let mut k: usize = lo;
    while k < hi
        invariant
            lo <= k <= hi <= s@.len(),
            r@ == s@.subrange(lo as int, k as int),
        decreases hi - k,
    {
        r.push(s[k]);
        k = k + 1;
        assert(r@ =~= s@.subrange(lo as int, k as int));
    }
    r
}

} // verus!

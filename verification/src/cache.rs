//! The persisted version cache: a record of the last tag the release index
//! reported and when it was stored.  The record is read before any network
//! call and written after every successful resolution; while it is fresh the
//! network is never consulted, and after expiry it still serves as the
//! rate-limit fallback.  The record format is this library's own, written
//! and parsed here with exact contracts.

use crate::strutil::{all_digits, digits_value, parse_u64_digits, spec_u64_digits, u64_to_string};
use vstd::prelude::*;
use vstd::string::StrSliceExecFns;
use vstd::string::StringExecFns;

verus! {

/// Fixed time-to-live of the persisted record: twelve hours, in seconds.
pub const VERSION_CACHE_TTL_SECS: u64 = 12 * 60 * 60;

/// The persisted record: a version tag and the Unix time it was stored.
#[derive(Debug, Clone, PartialEq, Eq)]
pub struct VersionCache {
    pub version: String,
    pub timestamp: u64,
}

/// Whether a record stored at `timestamp` has outlived its time-to-live at
/// time `now`; a record from the future counts as fresh.
pub open spec fn spec_expired(timestamp: u64, now: u64) -> bool {
    now > timestamp && now - timestamp > VERSION_CACHE_TTL_SECS
}

impl VersionCache {
    /// Whether the record has outlived its time-to-live at time `now`.
    pub fn is_expired(&self, now: u64) -> (r: bool)
        ensures
            r == spec_expired(self.timestamp, now),
    {
        if now > self.timestamp {
            now - self.timestamp > VERSION_CACHE_TTL_SECS
        } else {
            false
        }
    }
}

/// The serialized form of a record.
pub open spec fn spec_cache_json(version: Seq<char>, timestamp: nat) -> Seq<char> {
    "{\"version\":\""@ + version + "\",\"timestamp\":"@ + spec_u64_digits(timestamp) + "}"@
}

/// Serialize a record.  The tag must not contain a quote, which would make
/// the record ambiguous; release tags never do.
pub fn encode_version_cache(version: &str, timestamp: u64) -> (r: String)
    ensures
        r@ == spec_cache_json(version@, timestamp as nat),
{
    let mut r = String::from_str("{\"version\":\"");
    r.append(version);
    r.append("\",\"timestamp\":");
    let digits = u64_to_string(timestamp);
    r.append(digits.as_str());
    r.append("}");
    proof {
        assert(r@ =~= spec_cache_json(version@, timestamp as nat));
    }
    r
}

/// Index of the first occurrence of `c` in `s` at or after `from`, or the
/// length of `s` where there is none.
pub open spec fn find_char(s: Seq<char>, c: char, from: int) -> int
    recommends
        0 <= from <= s.len(),
    decreases s.len() - from,
    when 0 <= from <= s.len()
{
    if from >= s.len() {
        s.len() as int
    } else if s[from] == c {
        from
    } else {
        find_char(s, c, from + 1)
    }
}

proof fn lemma_find_char_unique(s: Seq<char>, c: char, from: int, j: int)
    requires
        0 <= from <= j <= s.len(),
        forall|k: int| from <= k < j ==> s[k] != c,
        j == s.len() || s[j] == c,
    ensures
        find_char(s, c, from) == j,
    decreases j - from,
{
    if from < j {
        lemma_find_char_unique(s, c, from + 1, j);
    }
}

/// The tag text inside a serialized record.
pub open spec fn spec_cache_version(s: Seq<char>) -> Seq<char> {
    s.subrange(12, find_char(s, '"', 12))
}

/// The timestamp digits inside a serialized record.
pub open spec fn spec_cache_digits(s: Seq<char>) -> Seq<char> {
    s.subrange(find_char(s, '"', 12) + 14, s.len() - 1)
}

/// Whether a text is a serialized record this parser accepts: the exact
/// shape the serializer produces, with any non-empty digit run whose value
/// fits in a `u64` as the timestamp.
pub open spec fn spec_cache_wf(s: Seq<char>) -> bool {
    let q = find_char(s, '"', 12);
    &&& s.len() >= 12
    &&& s.subrange(0, 12) == "{\"version\":\""@
    &&& q < s.len()
    &&& s.len() >= q + 15
    &&& s.subrange(q, q + 14) == "\",\"timestamp\":"@
    &&& s.last() == '}'
    &&& spec_cache_digits(s).len() > 0
    &&& all_digits(spec_cache_digits(s))
    &&& digits_value(spec_cache_digits(s)) <= u64::MAX
}

/// Parse a serialized record.  Succeeds exactly on the texts
/// [`spec_cache_wf`] describes, and then returns the tag and timestamp the
/// text denotes.
pub fn parse_version_cache(s: &str) -> (r: Option<VersionCache>)
    ensures
        r is Some <==> spec_cache_wf(s@),
        r matches Some(c) ==> c.version@ == spec_cache_version(s@) && c.timestamp as nat
            == digits_value(spec_cache_digits(s@)),
{
    let n = s.unicode_len();
    if n < 12 {
        return None;
    }
    let prefix = s.substring_char(0, 12);
    let p1 = String::from_str("{\"version\":\"");
    if !(prefix.to_owned() == p1) {
        return None;
    }
    let mut j: usize = 12;
    loop
        invariant
            n == s@.len(),
            12 <= j <= n,
            forall|k: int| 12 <= k < j ==> s@[k] != '"',
        ensures
            12 <= j <= n,
            forall|k: int| 12 <= k < j ==> s@[k] != '"',
            j == n || s@[j as int] == '"',
        decreases n - j,
    {
        if j < n {
            if s.get_char(j) == '"' {
                break;
            }
            j = j + 1;
        } else {
            break;
        }
    }
    proof {
        lemma_find_char_unique(s@, '"', 12, j as int);
    }
    if j == n {
        return None;
    }
    if n - j < 15 {
        return None;
    }
    let mid = s.substring_char(j, j + 14);
    let p2 = String::from_str("\",\"timestamp\":");
    if !(mid.to_owned() == p2) {
        return None;
    }
    if !(s.get_char(n - 1) == '}') {
        return None;
    }
    let digits = s.substring_char(j + 14, n - 1);
    match parse_u64_digits(digits) {
        Some(ts) => {
            let version = s.substring_char(12, j).to_owned();
            Some(VersionCache { version, timestamp: ts })
        },
        None => None,
    }
}

/// Round trip: a serialized record parses back to the same tag and
/// timestamp, for any tag free of quotes.
pub proof fn lemma_cache_round_trip(version: Seq<char>, timestamp: u64)
    requires
        forall|i: int| 0 <= i < version.len() ==> version[i] != '"',
    ensures
        spec_cache_wf(spec_cache_json(version, timestamp as nat)),
        spec_cache_version(spec_cache_json(version, timestamp as nat)) == version,
        digits_value(spec_cache_digits(spec_cache_json(version, timestamp as nat))) == timestamp,
{
    let s = spec_cache_json(version, timestamp as nat);
    let digits = spec_u64_digits(timestamp as nat);
    reveal_strlit("{\"version\":\"");
    reveal_strlit("\",\"timestamp\":");
    reveal_strlit("}");
    crate::strutil::lemma_u64_digits_value(timestamp as nat);
    let q = 12 + version.len() as int;
    assert forall|k: int| 12 <= k < q implies s[k] != '"' by {
        assert(s[k] == version[k - 12]);
    }
    assert(s[q] == '"');
    lemma_find_char_unique(s, '"', 12, q);
    assert(s.subrange(0, 12) =~= "{\"version\":\""@);
    assert(s.subrange(q, q + 14) =~= "\",\"timestamp\":"@);
    assert(s.last() == '}');
    assert(spec_cache_version(s) =~= version);
    assert(spec_cache_digits(s) =~= digits);
}

} // verus!

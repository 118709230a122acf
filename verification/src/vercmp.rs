//! Update-availability comparison of release tags.  Tags are compared under
//! semantic-version ordering where both parse, and fall back to plain
//! inequality of the trimmed tag texts where either does not.  The parsing
//! and ordering themselves are the semver crate's, reached through trusted
//! wrappers; what they return is named, never restated.

use crate::types::VersionInfo;
use vstd::prelude::*;
use vstd::string::StrSliceExecFns;
use vstd::string::StringExecFns;

verus! {

/// Declares semver's `Version` so that a parsed version can be held in a
/// field; the value itself stays opaque here.
#[verifier::external_type_specification]
#[verifier::external_body]
pub struct ExSemverVersion(semver::Version);

/// Whether semver's grammar accepts a tag text; a function of the text alone.
pub uninterp spec fn sem_parses(s: Seq<char>) -> bool;

/// Whether the version parsed from the first text orders strictly above the
/// one parsed from the second; a function of the two texts alone.
pub uninterp spec fn sem_gt(a: Seq<char>, b: Seq<char>) -> bool;

/// A successfully parsed semantic version, remembering the text it came
/// from; the only way to obtain one is [`SemVersion::parse`].
pub struct SemVersion {
    inner: semver::Version,
    source: String,
}

impl SemVersion {
    /// The text this version was parsed from.
    pub closed spec fn src(&self) -> Seq<char> {
        self.source@
    }

    /// Relies on semver::Version::parse: whether the text is accepted
    /// depends on the text alone.
    #[verifier::external_body]
    pub fn parse(s: &str) -> (r: Option<SemVersion>)
        ensures
            r is Some <==> sem_parses(s@),
            r matches Some(v) ==> v.src() == s@,
    {
        match semver::Version::parse(s) {
            Ok(v) => Some(SemVersion { inner: v, source: s.to_string() }),
            Err(_) => None,
        }
    }

    /// Relies on semver's `Ord` for `Version`: how two parsed versions order
    /// depends on the texts they were parsed from alone.
    #[verifier::external_body]
    pub fn gt(&self, other: &SemVersion) -> (r: bool)
        ensures
            r == sem_gt(self.src(), other.src()),
    {
        self.inner > other.inner
    }
}

/// A tag with every leading `v` removed.
pub open spec fn spec_trim_v(s: Seq<char>) -> Seq<char>
    decreases s.len(),
{
    if s.len() > 0 && s[0] == 'v' {
        spec_trim_v(s.subrange(1, s.len() as int))
    } else {
        s
    }
}

/// Remove every leading `v` from a tag.
pub fn trim_leading_v<'a>(s: &'a str) -> (r: &'a str)
    ensures
        r@ == spec_trim_v(s@),
{
    let n = s.unicode_len();
    let mut i: usize = 0;
    proof {
        assert(s@.subrange(0, n as int) =~= s@);
    }
    loop
        invariant
            n == s@.len(),
            0 <= i <= n,
            spec_trim_v(s@) == spec_trim_v(s@.subrange(i as int, n as int)),
        ensures
            0 <= i <= n,
            spec_trim_v(s@) == spec_trim_v(s@.subrange(i as int, n as int)),
            i == n || s@[i as int] != 'v',
        decreases n - i,
    {
        if i < n && s.get_char(i) == 'v' {
            proof {
                let rest = s@.subrange(i as int, n as int);
                assert(rest[0] == 'v');
                assert(rest.subrange(1, rest.len() as int) =~= s@.subrange(
                    i + 1 as int,
                    n as int,
                ));
            }
            i = i + 1;
        } else {
            break;
        }
    }
    proof {
        let rest = s@.subrange(i as int, n as int);
        if rest.len() > 0 {
            assert(rest[0] == s@[i as int]);
        }
        assert(spec_trim_v(rest) == rest);
    }
    s.substring_char(i, n)
}

/// Whether the `latest` tag announces an update over the `installed` tag:
/// semantic-version "strictly greater" where both trimmed tags parse,
/// otherwise plain inequality of the trimmed texts.
pub open spec fn spec_update_available(installed: Seq<char>, latest: Seq<char>) -> bool {
    let i = spec_trim_v(installed);
    let l = spec_trim_v(latest);
    if sem_parses(i) && sem_parses(l) {
        sem_gt(l, i)
    } else {
        i != l
    }
}

/// Decide whether `latest` is an upgrade over `installed`.
pub fn update_available(installed: &str, latest: &str) -> (r: bool)
    ensures
        r == spec_update_available(installed@, latest@),
{
    let i = trim_leading_v(installed);
    let l = trim_leading_v(latest);
    match (SemVersion::parse(i), SemVersion::parse(l)) {
        (Some(iv), Some(lv)) => lv.gt(&iv),
        _ => {
            let ie = i.to_owned();
            let le = l.to_owned();
            !(ie == le)
        },
    }
}

/// Assemble the version report: an update is announced exactly when both an
/// installed and a latest tag are known and the latter is an upgrade.
pub fn make_version_info(installed: Option<String>, latest: Option<String>) -> (r: VersionInfo)
    ensures
        r.installed == installed,
        r.latest == latest,
        r.update_available == match (installed, latest) {
            (Some(i), Some(l)) => spec_update_available(i@, l@),
            _ => false,
        },
{
    let update_available = match (&installed, &latest) {
        (Some(i), Some(l)) => update_available(i.as_str(), l.as_str()),
        _ => false,
    };
    VersionInfo { installed, latest, update_available }
}

} // verus!

//! The build's semantic version and its ordering.
//!
//! The takeover protocol compares the version a running instance reports
//! against the version of the build that is starting up; the comparison is
//! strictly lexicographic on (major, minor, patch).

use vstd::prelude::*;

verus! {

/// A build's semantic version. Ordered lexicographically: major decides
/// first, then minor, then patch.
#[derive(Clone, Copy, Debug, PartialEq, Eq, Structural)]
pub struct AppVersion {
    pub major: u16,
    pub minor: u16,
    pub patch: u16,
}

/// Strict lexicographic order on versions.
pub open spec fn version_lt(a: AppVersion, b: AppVersion) -> bool {
    ||| a.major < b.major
    ||| (a.major == b.major && a.minor < b.minor)
    ||| (a.major == b.major && a.minor == b.minor && a.patch < b.patch)
}

/// Non-strict lexicographic order on versions.
pub open spec fn version_le(a: AppVersion, b: AppVersion) -> bool {
    version_lt(a, b) || a == b
}

impl AppVersion {
    pub fn new(major: u16, minor: u16, patch: u16) -> (v: AppVersion)
        ensures
            v == (AppVersion { major, minor, patch }),
    {
        AppVersion { major, minor, patch }
    }

    /// `self` is strictly older than `other`.
    pub fn lt(&self, other: &AppVersion) -> (r: bool)
        ensures
            r == version_lt(*self, *other),
    {
        if self.major != other.major {
            self.major < other.major
        } else if self.minor != other.minor {
            self.minor < other.minor
        } else {
            self.patch < other.patch
        }
    }

    /// `self` is no newer than `other`.
    pub fn le(&self, other: &AppVersion) -> (r: bool)
        ensures
            r == version_le(*self, *other),
    {
        !other.lt(self)
    }
}

/// The lexicographic order on versions is strict and total: no version is
/// older than itself, the order composes transitively, and of two distinct
/// versions exactly one is the older.
pub proof fn lemma_version_order_strict_total(a: AppVersion, b: AppVersion, c: AppVersion)
    ensures
        !version_lt(a, a),
        version_lt(a, b) && version_lt(b, c) ==> version_lt(a, c),
        a != b ==> (version_lt(a, b) <==> !version_lt(b, a)),
{
}

/// The decimal number a sequence of digit characters spells, most
/// significant digit first.
pub open spec fn decimal_value(s: Seq<char>) -> int
    decreases s.len(),
{
    if s.len() == 0 {
        0
    } else {
        decimal_value(s.drop_last()) * 10 + (s.last() as u32 - '0' as u32)
    }
}

proof fn lemma_decimal_nonneg(s: Seq<char>)
    requires
        forall|j: int| 0 <= j < s.len() ==> '0' <= #[trigger] s[j] <= '9',
    ensures
        decimal_value(s) >= 0,
    decreases s.len(),
{
    if s.len() > 0 {
        assert(forall|j: int|
            0 <= j < s.drop_last().len() ==> '0' <= #[trigger] s.drop_last()[j] <= '9');
        lemma_decimal_nonneg(s.drop_last());
    }
}

proof fn lemma_decimal_prefix_le(s: Seq<char>, i: int)
    requires
        0 <= i <= s.len(),
        forall|j: int| 0 <= j < s.len() ==> '0' <= #[trigger] s[j] <= '9',
    ensures
        decimal_value(s.take(i)) <= decimal_value(s),
    decreases s.len() - i,
{
    if i == s.len() {
        assert(s.take(i) =~= s);
    } else {
        lemma_decimal_prefix_le(s, i + 1);
        assert(s.take(i + 1).drop_last() =~= s.take(i));
        assert(s.take(i + 1).last() == s[i]);
        assert(forall|j: int|
            0 <= j < s.take(i).len() ==> '0' <= #[trigger] s.take(i)[j] <= '9');
        lemma_decimal_nonneg(s.take(i));
    }
}

/// Reads one component of the build's version string as the decimal
/// number its digits spell.
///
/// Every character must be a decimal digit, at least one must be present,
/// and the spelled number must fit the component's 16-bit field (a
/// machine limit).
pub fn number_parse(s: &str) -> (r: u16)
    requires
        s@.len() > 0,
        forall|i: int| 0 <= i < s@.len() ==> '0' <= #[trigger] s@[i] <= '9',
        decimal_value(s@) <= u16::MAX,
    ensures
        r == decimal_value(s@),
{
    let end = s.unicode_len();
    let mut pos: usize = 0;
    let mut accum: u16 = 0;

    while pos < end
        invariant
            0 <= pos <= end,
            end == s@.len(),
            forall|i: int| 0 <= i < s@.len() ==> '0' <= #[trigger] s@[i] <= '9',
            decimal_value(s@) <= u16::MAX,
            accum == decimal_value(s@.take(pos as int)),
        decreases end - pos,
    {
        let d = s.get_char(pos);
        proof {
            lemma_decimal_prefix_le(s@, pos + 1);
            assert(s@.take(pos + 1).drop_last() =~= s@.take(pos as int));
            assert(s@.take(pos + 1).last() == s@[pos as int]);
        }
        accum = accum * 10 + (((d as u32) - ('0' as u32)) as u16);
        pos += 1;
    }
    proof {
        assert(s@.take(end as int) =~= s@);
    }
    accum
}

} // verus!

//! The version utility: free-form version strings are normalized to a
//! three-component form by right-padding with zeros, read into a `Version`
//! triple, and ordered lexicographically.  No other part of the crate ever
//! compares raw version strings.

use vstd::prelude::*;
use vstd::string::StrSliceExecFns;
use vstd::string::StringExecFns;

use crate::text::count_char;
use crate::text::count_char_str;
use crate::text::digits_val;
use crate::text::is_digit_char;
use crate::text::find_char_str;
use crate::text::lemma_count_char_concat;
use crate::text::lemma_split_char_first_sep;
use crate::text::lemma_split_char_len;
use crate::text::lemma_split_char_no_sep;
use crate::text::parse_u64;
use crate::text::parse_u64_digits;
use crate::text::split_char;

verus! {

/// A schema version: three numeric components, ordered lexicographically.
#[derive(PartialEq, Eq, Structural, Clone, Copy, Debug)]
pub struct Version {
    pub major: u64,
    pub minor: u64,
    pub patch: u64,
}

impl Version {
    /// The version of a brand-new store, before any migration ran.
    pub open spec fn spec_zero() -> Version {
        Version { major: 0, minor: 0, patch: 0 }
    }

    pub fn zero() -> (v: Version)
        ensures
            v == Version::spec_zero(),
    {
        Version { major: 0, minor: 0, patch: 0 }
    }

    /// Strict lexicographic order over (major, minor, patch).
    pub open spec fn spec_lt(self, other: Version) -> bool {
        self.major < other.major || (self.major == other.major && (self.minor < other.minor || (
        self.minor == other.minor && self.patch < other.patch)))
    }

    pub open spec fn spec_le(self, other: Version) -> bool {
        self.spec_lt(other) || self == other
    }

    pub fn lt(&self, other: &Version) -> (r: bool)
        ensures
            r == self.spec_lt(*other),
    {
        self.major < other.major || (self.major == other.major && (self.minor < other.minor || (
        self.minor == other.minor && self.patch < other.patch)))
    }

    pub fn le(&self, other: &Version) -> (r: bool)
        ensures
            r == self.spec_le(*other),
    {
        self.lt(other) || (self.major == other.major && self.minor == other.minor && self.patch
            == other.patch)
    }
}

/// The strict order is transitive.
pub proof fn lemma_version_lt_transitive(a: Version, b: Version, c: Version)
    requires
        a.spec_lt(b),
        b.spec_lt(c),
    ensures
        a.spec_lt(c),
{
}

/// Exactly one of `a < b`, `a == b`, `b < a` holds.
pub proof fn lemma_version_lt_total(a: Version, b: Version)
    ensures
        a.spec_lt(b) || a == b || b.spec_lt(a),
        a.spec_lt(b) ==> !b.spec_lt(a) && a != b,
{
}

/// What normalization does to a version string: a one-component string gains
/// two zero components, a two-component string gains one, anything else is
/// left as it stands.
pub open spec fn spec_normalize(s: Seq<char>) -> Seq<char> {
    if count_char(s, '.') == 0 {
        s + seq!['.', '0', '.', '0']
    } else if count_char(s, '.') == 1 {
        s + seq!['.', '0']
    } else {
        s
    }
}

/// Expands a version string to at least three dot-separated components by
/// right-padding with zeros: "1" becomes "1.0.0" and "1.2" becomes "1.2.0",
/// while "1.2.3" (or anything with more components) is returned unchanged.
pub fn normalize_version(v: &str) -> (r: String)
    ensures
        r@ == spec_normalize(v@),
{
    let dots = count_char_str(v, '.');
    if dots == 0 {
        let mut s = v.to_owned();
        s.append(".0.0");
        proof {
            reveal_strlit(".0.0");
            assert(".0.0"@ =~= seq!['.', '0', '.', '0']);
        }
        s
    } else if dots == 1 {
        let mut s = v.to_owned();
        s.append(".0");
        proof {
            reveal_strlit(".0");
            assert(".0"@ =~= seq!['.', '0']);
        }
        s
    } else {
        v.to_owned()
    }
}

/// What a version string parses to: its three dot-separated components read
/// as decimal numbers, and nothing where the component count is not three or
/// a component is not a plain number that fits.
pub open spec fn spec_parse_version(s: Seq<char>) -> Option<Version> {
    let parts = split_char(s, '.');
    if parts.len() == 3 {
        match (parse_u64_digits(parts[0]), parse_u64_digits(parts[1]), parse_u64_digits(
            parts[2],
        )) {
            (Some(major), Some(minor), Some(patch)) => Some(Version { major, minor, patch }),
            _ => None,
        }
    } else {
        None
    }
}

/// Reads a version string of exactly three dot-separated numeric components.
pub fn parse_version(s: &str) -> (r: Option<Version>)
    ensures
        r == spec_parse_version(s@),
{
    let n = s.unicode_len();
    let d1 = find_char_str(s, '.');
    if d1 == n {
        proof {
            lemma_split_char_no_sep(s@, '.');
        }
        return None;
    }
    proof {
        lemma_split_char_first_sep(s@, '.', d1 as int);
    }
    let part0 = s.substring_char(0, d1);
    let tail1 = s.substring_char(d1 + 1, n);
    let n1 = n - d1 - 1;
    proof {
        assert(tail1@.len() == n1);
    }
    let d2 = find_char_str(tail1, '.');
    if d2 == n1 {
        proof {
            lemma_split_char_no_sep(tail1@, '.');
        }
        return None;
    }
    proof {
        lemma_split_char_first_sep(tail1@, '.', d2 as int);
    }
    let part1 = tail1.substring_char(0, d2);
    let part2 = tail1.substring_char(d2 + 1, n1);
    let d3 = find_char_str(part2, '.');
    if d3 < n1 - d2 - 1 {
        proof {
            lemma_split_char_first_sep(part2@, '.', d3 as int);
            lemma_split_char_len(part2@.subrange(d3 as int + 1, part2@.len() as int), '.');
        }
        return None;
    }
    proof {
        lemma_split_char_no_sep(part2@, '.');
        assert(split_char(s@, '.') =~~= seq![part0@, part1@, part2@]);
    }
    match (parse_u64(part0), parse_u64(part1), parse_u64(part2)) {
        (Some(major), Some(minor), Some(patch)) => Some(Version { major, minor, patch }),
        _ => None,
    }
}

/// Whether a stored marker text reads as a version at all.  An absent
/// marker is handed over as the literal text "0.0.0", which reads fine; a
/// present text that does not read even after normalization is corrupted,
/// and migrating from it is a fatal error, never a silent restart from the
/// fresh-store version.
pub open spec fn spec_marker_parses(s: Seq<char>) -> bool {
    spec_parse_version(spec_normalize(s)) is Some
}

/// The version a stored marker stands for, meaningful only where the text
/// reads as one.
pub open spec fn spec_marker_version(s: Seq<char>) -> Version {
    spec_parse_version(spec_normalize(s))->0
}

/// Reads a stored version marker; nothing comes back for a corrupted text,
/// and the caller treats that as fatal.
pub fn marker_version(s: &str) -> (v: Option<Version>)
    ensures
        v == spec_parse_version(spec_normalize(s@)),
        v is Some <==> spec_marker_parses(s@),
        v matches Some(x) ==> x == spec_marker_version(s@),
{
    let normalized = normalize_version(s);
    parse_version(normalized.as_str())
}

/// The base marker text reads as the all-zero version.
pub proof fn lemma_zero_marker()
    ensures
        spec_marker_parses("0.0.0"@),
        spec_marker_version("0.0.0"@) == Version::spec_zero(),
{
    reveal_strlit("0.0.0");
    let s = "0.0.0"@;
    assert(s =~= seq!['0', '.', '0', '.', '0']);
    assert(count_char(s, '.') == 2) by {
        reveal_with_fuel(count_char, 7);
        assert(seq!['0', '.', '0', '.', '0'].drop_first() =~= seq!['.', '0', '.', '0']);
        assert(seq!['.', '0', '.', '0'].drop_first() =~= seq!['0', '.', '0']);
        assert(seq!['0', '.', '0'].drop_first() =~= seq!['.', '0']);
        assert(seq!['.', '0'].drop_first() =~= seq!['0']);
        assert(seq!['0'].drop_first() =~= Seq::<char>::empty());
    }
    assert(spec_normalize(s) == s);
    let zero_part = seq!['0'];
    lemma_split_char_first_sep(s, '.', 1);
    assert(s.subrange(0, 1) =~= zero_part);
    let t = s.subrange(2, 5);
    assert(t =~= seq!['0', '.', '0']);
    lemma_split_char_first_sep(t, '.', 1);
    assert(t.subrange(0, 1) =~= zero_part);
    let u = t.subrange(2, 3);
    assert(u =~= zero_part);
    lemma_split_char_no_sep(u, '.');
    assert(split_char(s, '.') =~~= seq![zero_part, zero_part, zero_part]);
    assert(parse_u64_digits(zero_part) == Some(0u64)) by {
        assert(is_digit_char('0'));
        assert(zero_part.drop_last() =~= Seq::<char>::empty());
        assert(digits_val(Seq::<char>::empty()) == 0);
        assert(digits_val(zero_part) == 0);
    }
    assert(spec_parse_version(s) == Some(Version { major: 0, minor: 0, patch: 0 }));
}

/// Normalization settles after one application: a normalized string has at
/// least two separators, so normalizing it again changes nothing.
pub proof fn lemma_normalize_idempotent(s: Seq<char>)
    ensures
        spec_normalize(spec_normalize(s)) == spec_normalize(s),
{
    let c = count_char(s, '.');
    if c == 0 {
        lemma_count_char_concat(s, seq!['.', '0', '.', '0'], '.');
        assert(count_char(seq!['.', '0', '.', '0'], '.') == 2) by {
            reveal_with_fuel(count_char, 6);
            assert(seq!['.', '0', '.', '0'].drop_first() =~= seq!['0', '.', '0']);
            assert(seq!['0', '.', '0'].drop_first() =~= seq!['.', '0']);
            assert(seq!['.', '0'].drop_first() =~= seq!['0']);
            assert(seq!['0'].drop_first() =~= Seq::<char>::empty());
        }
    } else if c == 1 {
        lemma_count_char_concat(s, seq!['.', '0'], '.');
        assert(count_char(seq!['.', '0'], '.') == 1) by {
            reveal_with_fuel(count_char, 4);
            assert(seq!['.', '0'].drop_first() =~= seq!['0']);
            assert(seq!['0'].drop_first() =~= Seq::<char>::empty());
        }
    }
}

/// A version string of one to three components normalizes to exactly three.
pub proof fn lemma_normalize_three_components(s: Seq<char>)
    requires
        count_char(s, '.') <= 2,
    ensures
        split_char(spec_normalize(s), '.').len() == 3,
{
    let c = count_char(s, '.');
    if c == 0 {
        lemma_count_char_concat(s, seq!['.', '0', '.', '0'], '.');
        assert(count_char(seq!['.', '0', '.', '0'], '.') == 2) by {
            reveal_with_fuel(count_char, 6);
            assert(seq!['.', '0', '.', '0'].drop_first() =~= seq!['0', '.', '0']);
            assert(seq!['0', '.', '0'].drop_first() =~= seq!['.', '0']);
            assert(seq!['.', '0'].drop_first() =~= seq!['0']);
            assert(seq!['0'].drop_first() =~= Seq::<char>::empty());
        }
    } else if c == 1 {
        lemma_count_char_concat(s, seq!['.', '0'], '.');
        assert(count_char(seq!['.', '0'], '.') == 1) by {
            reveal_with_fuel(count_char, 4);
            assert(seq!['.', '0'].drop_first() =~= seq!['0']);
            assert(seq!['0'].drop_first() =~= Seq::<char>::empty());
        }
    }
    lemma_split_char_len(spec_normalize(s), '.');
}

} // verus!

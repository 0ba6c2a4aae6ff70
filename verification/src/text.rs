//! Character-sequence utilities: counting and splitting on a separator,
//! reading and printing decimal numbers.  These are the groundwork for the
//! version utility.

use vstd::prelude::*;
use vstd::string::StrSliceExecFns;
use vstd::string::StringExecFns;

verus! {

/// One of the ten ASCII digit characters.
pub open spec fn is_digit_char(c: char) -> bool {
    48 <= c as int && c as int <= 57
}

/// Numeric value of an ASCII digit character.
pub open spec fn digit_val(c: char) -> nat {
    (c as int - 48) as nat
}

/// The digit character for a value below ten.
pub open spec fn digit_char(d: nat) -> char {
    if d == 0 {
        '0'
    } else if d == 1 {
        '1'
    } else if d == 2 {
        '2'
    } else if d == 3 {
        '3'
    } else if d == 4 {
        '4'
    } else if d == 5 {
        '5'
    } else if d == 6 {
        '6'
    } else if d == 7 {
        '7'
    } else if d == 8 {
        '8'
    } else {
        '9'
    }
}

/// How many times `c` occurs in `s`.
pub open spec fn count_char(s: Seq<char>, c: char) -> nat
    decreases s.len(),
{
    if s.len() == 0 {
        0
    } else {
        (if s[0] == c {
            1nat
        } else {
            0nat
        }) + count_char(s.drop_first(), c)
    }
}

pub proof fn lemma_count_char_push(s: Seq<char>, c: char, x: char)
    ensures
        count_char(s.push(x), c) == count_char(s, c) + (if x == c {
            1nat
        } else {
            0nat
        }),
    decreases s.len(),
{
    assert(s.push(x)[0] == if s.len() == 0 {
        x
    } else {
        s[0]
    });
    if s.len() == 0 {
        assert(s.push(x).drop_first() =~= Seq::<char>::empty());
        assert(count_char(Seq::<char>::empty(), c) == 0);
    } else {
        assert(s.push(x).drop_first() =~= s.drop_first().push(x));
        lemma_count_char_push(s.drop_first(), c, x);
        assert(count_char(s.push(x), c) == (if s[0] == c {
            1nat
        } else {
            0nat
        }) + count_char(s.drop_first().push(x), c));
    }
}

/// Counting distributes over concatenation.
pub proof fn lemma_count_char_concat(a: Seq<char>, b: Seq<char>, c: char)
    ensures
        count_char(a + b, c) == count_char(a, c) + count_char(b, c),
    decreases a.len(),
{
    if a.len() == 0 {
        assert(a + b =~= b);
    } else {
        assert((a + b).drop_first() =~= a.drop_first() + b);
        assert((a + b)[0] == a[0]);
        lemma_count_char_concat(a.drop_first(), b, c);
    }
}

/// How many times `c` occurs in `s`, by a left-to-right scan.
pub fn count_char_str(s: &str, c: char) -> (r: usize)
    ensures
        r == count_char(s@, c),
{
    let n = s.unicode_len();
    let mut cnt: usize = 0;
    let mut i: usize = 0;
    while i < n
        invariant
            n == s@.len(),
            0 <= i <= n,
            cnt == count_char(s@.subrange(0, i as int), c),
            cnt <= i,
        decreases n - i,
    {
        let ch = s.get_char(i);
        proof {
            lemma_count_char_push(s@.subrange(0, i as int), c, s@[i as int]);
            assert(s@.subrange(0, i as int).push(s@[i as int]) =~= s@.subrange(0, i as int + 1));
        }
        if ch == c {
            cnt = cnt + 1;
        }
        i = i + 1;
    }
    proof {
        assert(s@.subrange(0, n as int) =~= s@);
    }
    cnt
}

/// The components of `s` between occurrences of the separator `c`.  A string
/// without the separator is one component; each separator opens a new one, so
/// the result has one component more than `s` has separators.
pub open spec fn split_char(s: Seq<char>, c: char) -> Seq<Seq<char>>
    decreases s.len(),
{
    if s.len() == 0 {
        seq![Seq::<char>::empty()]
    } else if s[0] == c {
        seq![Seq::<char>::empty()] + split_char(s.drop_first(), c)
    } else {
        let rest = split_char(s.drop_first(), c);
        seq![seq![s[0]] + rest[0]] + rest.drop_first()
    }
}

pub proof fn lemma_split_char_len(s: Seq<char>, c: char)
    ensures
        split_char(s, c).len() == count_char(s, c) + 1,
    decreases s.len(),
{
    if s.len() > 0 {
        lemma_split_char_len(s.drop_first(), c);
    }
}

/// Where `s` holds no separator at all, it is its own single component.
pub proof fn lemma_split_char_no_sep(s: Seq<char>, c: char)
    requires
        forall|j: int| 0 <= j < s.len() ==> s[j] != c,
    ensures
        split_char(s, c) =~~= seq![s],
    decreases s.len(),
{
    if s.len() > 0 {
        lemma_split_char_no_sep(s.drop_first(), c);
        assert(split_char(s, c)[0] =~= seq![s[0]] + s.drop_first());
        assert(seq![s[0]] + s.drop_first() =~= s);
    }
}

/// Splitting at the first separator: everything before it is the first
/// component, and the rest splits on its own.
pub proof fn lemma_split_char_first_sep(s: Seq<char>, c: char, i: int)
    requires
        0 <= i < s.len(),
        s[i] == c,
        forall|j: int| 0 <= j < i ==> s[j] != c,
    ensures
        split_char(s, c) =~~= seq![s.subrange(0, i)] + split_char(
            s.subrange(i + 1, s.len() as int),
            c,
        ),
    decreases i,
{
    if i == 0 {
        assert(s.subrange(0, 0) =~= Seq::<char>::empty());
        assert(s.subrange(1, s.len() as int) =~= s.drop_first());
    } else {
        let t = s.drop_first();
        lemma_split_char_first_sep(t, c, i - 1);
        assert(split_char(t, c)[0] =~= t.subrange(0, i - 1));
        assert(seq![s[0]] + t.subrange(0, i - 1) =~= s.subrange(0, i));
        assert(t.subrange(i, t.len() as int) =~= s.subrange(i + 1, s.len() as int));
    }
}

/// True of a nonempty, all-digit sequence.
pub open spec fn all_digits(s: Seq<char>) -> bool {
    forall|i: int| 0 <= i < s.len() ==> is_digit_char(s[i])
}

/// The number written by a digit sequence, most significant digit first.
pub open spec fn digits_val(s: Seq<char>) -> nat
    decreases s.len(),
{
    if s.len() == 0 {
        0
    } else {
        digits_val(s.drop_last()) * 10 + digit_val(s.last())
    }
}

/// What a decimal read of `s` yields: the value of `s` where `s` is a
/// nonempty digit string whose value fits in a `u64`, nothing otherwise.
pub open spec fn parse_u64_digits(s: Seq<char>) -> Option<u64> {
    if s.len() > 0 && all_digits(s) && digits_val(s) <= u64::MAX {
        Some(digits_val(s) as u64)
    } else {
        None
    }
}

/// A longer digit prefix never names a smaller number.
proof fn lemma_digits_val_prefix_le(s: Seq<char>, i: int, j: int)
    requires
        0 <= i <= j <= s.len(),
    ensures
        digits_val(s.subrange(0, i)) <= digits_val(s.subrange(0, j)),
    decreases j - i,
{
    if i < j {
        lemma_digits_val_prefix_le(s, i, j - 1);
        assert(s.subrange(0, j).drop_last() =~= s.subrange(0, j - 1));
        assert(digits_val(s.subrange(0, j - 1)) * 10 >= digits_val(s.subrange(0, j - 1)))
            by (nonlinear_arith);
    }
}

/// The index of the first occurrence of `c` in `s`, or the length of `s`
/// where `c` does not occur.
pub fn find_char_str(s: &str, c: char) -> (r: usize)
    ensures
        r <= s@.len(),
        r < s@.len() ==> s@[r as int] == c,
        forall|j: int| 0 <= j < r ==> s@[j] != c,
{
    let n = s.unicode_len();
    let mut i: usize = 0;
    while i < n
        invariant
            n == s@.len(),
            0 <= i <= n,
            forall|j: int| 0 <= j < i ==> s@[j] != c,
        decreases n - i,
    {
        if s.get_char(i) == c {
            return i;
        }
        i = i + 1;
    }
    n
}

/// Reads `s` as a decimal `u64`, exactly as `parse_u64_digits` describes.
pub fn parse_u64(s: &str) -> (r: Option<u64>)
    ensures
        r == parse_u64_digits(s@),
{
    let n = s.unicode_len();
    if n == 0 {
        return None;
    }
    let mut acc: u64 = 0;
    let mut i: usize = 0;
    while i < n
        invariant
            0 < n == s@.len(),
            0 <= i <= n,
            all_digits(s@.subrange(0, i as int)),
            acc == digits_val(s@.subrange(0, i as int)),
        decreases n - i,
    {
        let ch = s.get_char(i);
        let code = ch as u32;
        proof {
            assert(s@.subrange(0, i as int + 1).drop_last() =~= s@.subrange(0, i as int));
        }
        if code < 48 || code > 57 {
            assert(!is_digit_char(s@[i as int]));
            return None;
        }
        let d: u64 = (code - 48) as u64;
        match acc.checked_mul(10) {
            None => {
                proof {
                    assert(digits_val(s@.subrange(0, i as int + 1)) > u64::MAX);
                    lemma_digits_val_prefix_le(s@, i as int + 1, s@.len() as int);
                    assert(s@.subrange(0, s@.len() as int) =~= s@);
                }
                return None;
            },
            Some(m) => {
                match m.checked_add(d) {
                    None => {
                        proof {
                            assert(digits_val(s@.subrange(0, i as int + 1)) > u64::MAX);
                            lemma_digits_val_prefix_le(s@, i as int + 1, s@.len() as int);
                            assert(s@.subrange(0, s@.len() as int) =~= s@);
                        }
                        return None;
                    },
                    Some(v) => {
                        acc = v;
                        i = i + 1;
                    },
                }
            },
        }
    }
    proof {
        assert(s@.subrange(0, n as int) =~= s@);
    }
    Some(acc)
}

/// Whether the text character `h` matches the pattern character `n` up to
/// ASCII case: equal outright, or `h` is the lowercase of `n`.
pub open spec fn ci_match(h: char, n: char) -> bool {
    h == n || (97 <= h as int && h as int <= 122 && h as int - 32 == n as int)
}

/// Whether `needle` matches inside `hay` at position `i`, up to ASCII case.
pub open spec fn ci_match_at(hay: Seq<char>, needle: Seq<char>, i: int) -> bool {
    0 <= i && i + needle.len() <= hay.len() && (forall|k: int|
        0 <= k < needle.len() ==> ci_match(hay[i + k], #[trigger] needle[k]))
}

/// Whether `needle` occurs in `hay`, up to ASCII case.
pub open spec fn contains_ci(hay: Seq<char>, needle: Seq<char>) -> bool {
    exists|i: int| ci_match_at(hay, needle, i)
}

/// Whether `needle` matches in `hay` at position `i`, up to ASCII case.
fn ci_match_at_str(hay: &str, needle: &str, i: usize) -> (r: bool)
    requires
        i + needle@.len() <= hay@.len(),
    ensures
        r == ci_match_at(hay@, needle@, i as int),
{
    let nh = hay.unicode_len();
    let nn = needle.unicode_len();
    let mut k: usize = 0;
    while k < nn
        invariant
            nh == hay@.len(),
            nn == needle@.len(),
            i + nn <= hay@.len(),
            0 <= k <= nn,
            forall|l: int| 0 <= l < k ==> ci_match(hay@[i as int + l], #[trigger] needle@[l]),
        decreases nn - k,
    {
        let h = hay.get_char(i + k);
        let n = needle.get_char(k);
        let hc = h as u32;
        let nc = n as u32;
        let ok = h == n || (97 <= hc && hc <= 122 && hc - 32 == nc);
        if !ok {
            assert(!ci_match(hay@[i as int + k as int], needle@[k as int]));
            return false;
        }
        k = k + 1;
    }
    true
}

/// Whether `needle` occurs in `hay`, matching ASCII letters regardless of
/// case, by a left-to-right scan.
pub fn contains_ci_str(hay: &str, needle: &str) -> (r: bool)
    ensures
        r == contains_ci(hay@, needle@),
{
    let nh = hay.unicode_len();
    let nn = needle.unicode_len();
    if nn > nh {
        assert(forall|i: int| !ci_match_at(hay@, needle@, i));
        return false;
    }
    let mut i: usize = 0;
    while i <= nh - nn
        invariant
            nh == hay@.len(),
            nn == needle@.len(),
            nn <= nh,
            0 <= i <= nh - nn + 1,
            forall|j: int| 0 <= j < i ==> !ci_match_at(hay@, needle@, j),
        decreases nh - i,
    {
        if ci_match_at_str(hay, needle, i) {
            return true;
        }
        i = i + 1;
    }
    assert(forall|j: int| !ci_match_at(hay@, needle@, j));
    false
}

/// `s` with every leading occurrence of `c` removed.
pub open spec fn trim_leading(s: Seq<char>, c: char) -> Seq<char>
    decreases s.len(),
{
    if s.len() > 0 && s[0] == c {
        trim_leading(s.drop_first(), c)
    } else {
        s
    }
}

/// Trimming skips exactly the leading run of `c`.
proof fn lemma_trim_leading_subrange(s: Seq<char>, c: char, i: int)
    requires
        0 <= i <= s.len(),
        forall|j: int| 0 <= j < i ==> s[j] == c,
        i < s.len() ==> s[i] != c,
    ensures
        trim_leading(s, c) == s.subrange(i, s.len() as int),
    decreases i,
{
    if i == 0 {
        assert(s.subrange(0, s.len() as int) =~= s);
    } else {
        lemma_trim_leading_subrange(s.drop_first(), c, i - 1);
        assert(s.drop_first().subrange(i - 1, s.drop_first().len() as int) =~= s.subrange(
            i,
            s.len() as int,
        ));
    }
}

/// Removes every leading occurrence of `c` from `s`.
pub fn trim_leading_str<'a>(s: &'a str, c: char) -> (r: &'a str)
    ensures
        r@ == trim_leading(s@, c),
{
    let n = s.unicode_len();
    let mut i: usize = 0;
    while i < n
        invariant
            n == s@.len(),
            0 <= i <= n,
            forall|j: int| 0 <= j < i ==> s@[j] == c,
        decreases n - i,
    {
        if s.get_char(i) != c {
            proof {
                lemma_trim_leading_subrange(s@, c, i as int);
            }
            return s.substring_char(i, n);
        }
        i = i + 1;
    }
    proof {
        lemma_trim_leading_subrange(s@, c, n as int);
    }
    s.substring_char(n, n)
}

/// What a signed decimal read of `s` yields: an optional minus sign, then
/// digits, with the value held to the `i32` range.
pub open spec fn spec_parse_i32(s: Seq<char>) -> Option<i32> {
    if s.len() > 0 && s[0] == '-' {
        match parse_u64_digits(s.drop_first()) {
            Some(m) => if m <= 2147483648u64 {
                Some((-(m as int)) as i32)
            } else {
                None
            },
            None => None,
        }
    } else {
        match parse_u64_digits(s) {
            Some(m) => if m <= 2147483647u64 {
                Some(m as i32)
            } else {
                None
            },
            None => None,
        }
    }
}

/// Reads `s` as a signed decimal `i32`, exactly as `spec_parse_i32`
/// describes.
pub fn parse_i32(s: &str) -> (r: Option<i32>)
    ensures
        r == spec_parse_i32(s@),
{
    let n = s.unicode_len();
    if n > 0 && s.get_char(0) == '-' {
        let rest = s.substring_char(1, n);
        proof {
            assert(rest@ =~= s@.drop_first());
        }
        match parse_u64(rest) {
            Some(m) => {
                if m <= 2147483648 {
                    let neg: i64 = -(m as i64);
                    Some(neg as i32)
                } else {
                    None
                }
            },
            None => None,
        }
    } else {
        match parse_u64(s) {
            Some(m) => {
                if m <= 2147483647 {
                    Some(m as i32)
                } else {
                    None
                }
            },
            None => None,
        }
    }
}

/// The decimal digit string of a signed number: a minus sign before the
/// magnitude for negatives.
pub open spec fn spec_i64_dec(v: i64) -> Seq<char> {
    if v >= 0 {
        dec_digits(v as nat)
    } else {
        seq!['-'] + dec_digits((-(v as int)) as nat)
    }
}

/// Writes a signed number in decimal.
pub fn i64_to_string(v: i64) -> (r: String)
    ensures
        r@ == spec_i64_dec(v),
{
    if v >= 0 {
        u64_to_string(v as u64)
    } else {
        let magnitude: u64 = if v == i64::MIN {
            9223372036854775808
        } else {
            (-v) as u64
        };
        let mut s = String::from_str("-");
        let digits = u64_to_string(magnitude);
        s.append(digits.as_str());
        proof {
            reveal_strlit("-");
            assert("-"@ =~= seq!['-']);
        }
        s
    }
}

/// Character-for-character string equality.
pub fn str_eq(a: &str, b: &str) -> (r: bool)
    ensures
        r == (a@ == b@),
{
    let na = a.unicode_len();
    let nb = b.unicode_len();
    if na != nb {
        return false;
    }
    let mut i: usize = 0;
    while i < na
        invariant
            na == a@.len(),
            na == b@.len(),
            0 <= i <= na,
            forall|j: int| 0 <= j < i ==> a@[j] == b@[j],
        decreases na - i,
    {
        if a.get_char(i) != b.get_char(i) {
            return false;
        }
        i = i + 1;
    }
    proof {
        assert(a@ =~= b@);
    }
    true
}

/// The decimal digit string of `n`, most significant digit first, with no
/// leading zero unless `n` itself is zero.
pub open spec fn dec_digits(n: nat) -> Seq<char>
    decreases n,
{
    if n < 10 {
        seq![digit_char(n)]
    } else {
        dec_digits(n / 10).push(digit_char(n % 10))
    }
}

/// The one-character string for a digit value.
fn digit_str(d: u64) -> (r: &'static str)
    requires
        d < 10,
    ensures
        r@ =~= seq![digit_char(d as nat)],
{
    proof {
        reveal_strlit("0");
        reveal_strlit("1");
        reveal_strlit("2");
        reveal_strlit("3");
        reveal_strlit("4");
        reveal_strlit("5");
        reveal_strlit("6");
        reveal_strlit("7");
        reveal_strlit("8");
        reveal_strlit("9");
    }
    if d == 0 {
        "0"
    } else if d == 1 {
        "1"
    } else if d == 2 {
        "2"
    } else if d == 3 {
        "3"
    } else if d == 4 {
        "4"
    } else if d == 5 {
        "5"
    } else if d == 6 {
        "6"
    } else if d == 7 {
        "7"
    } else if d == 8 {
        "8"
    } else {
        "9"
    }
}

/// Writes `n` in decimal.
pub fn u64_to_string(n: u64) -> (r: String)
    ensures
        r@ == dec_digits(n as nat),
    decreases n,
{
    if n < 10 {
        digit_str(n).to_owned()
    } else {
        let mut s = u64_to_string(n / 10);
        s.append(digit_str(n % 10));
        s
    }
}

/// The digit string of a number is nonempty and all digits.
pub proof fn lemma_dec_digits_wf(n: nat)
    ensures
        dec_digits(n).len() > 0,
        all_digits(dec_digits(n)),
    decreases n,
{
    if n >= 10 {
        lemma_dec_digits_wf(n / 10);
    }
}

/// A digit character written for a value below ten reads back as that value.
pub proof fn lemma_digit_char_val(d: nat)
    requires
        d < 10,
    ensures
        digit_val(digit_char(d)) == d,
        is_digit_char(digit_char(d)),
{
}

/// Reading back the digit string of `n` yields `n`.
pub proof fn lemma_dec_digits_val(n: nat)
    ensures
        digits_val(dec_digits(n)) == n,
    decreases n,
{
    if n < 10 {
        lemma_digit_char_val(n);
        assert(seq![digit_char(n)].drop_last() =~= Seq::<char>::empty());
        assert(digits_val(Seq::<char>::empty()) == 0);
    } else {
        lemma_dec_digits_val(n / 10);
        lemma_digit_char_val(n % 10);
        assert(dec_digits(n).drop_last() =~= dec_digits(n / 10));
        assert(dec_digits(n).last() == digit_char(n % 10));
        assert(n / 10 * 10 + n % 10 == n) by (nonlinear_arith);
    }
}

} // verus!

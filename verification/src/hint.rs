use vstd::prelude::*;
use vstd::string::*;

verus! {

/// The phrase that introduces a server wait hint inside a rate-limit
/// message, matched without regard to ASCII letter case.
pub open spec fn marker() -> Seq<char> {
    "try again in "@
}

/// ASCII whitespace, the separators recognised around the hinted number.
pub open spec fn is_ws(c: char) -> bool {
    c == ' ' || c == '\t' || c == '\n' || c == '\r'
}

/// A decimal digit.
pub open spec fn is_digit(c: char) -> bool {
    48 <= c as int <= 57
}

/// The code point of `c` with an ASCII upper-case letter folded to lower case.
pub open spec fn lower_code(c: char) -> int {
    if 65 <= c as int <= 90 {
        c as int + 32
    } else {
        c as int
    }
}

/// Case-insensitive match of `a` against a lower-case pattern character `b`.
pub open spec fn eq_ci(a: char, b: char) -> bool {
    lower_code(a) == b as int
}

/// Whether the marker phrase occurs at position `i` of `s`.
pub open spec fn marker_at(s: Seq<char>, i: int) -> bool {
    &&& 0 <= i
    &&& i + marker().len() <= s.len()
    &&& forall|j: int| 0 <= j < marker().len() ==> eq_ci(s[i + j], marker()[j])
}

/// The position of the first occurrence of the marker at or after `i`.
pub open spec fn find_marker_from(s: Seq<char>, i: int) -> Option<int>
    recommends
        0 <= i,
    decreases s.len() - i,
{
    if i + marker().len() > s.len() {
        None
    } else if marker_at(s, i) {
        Some(i)
    } else {
        find_marker_from(s, i + 1)
    }
}

/// The first position at or after `k` holding a non-whitespace character,
/// or the end of `s`.
pub open spec fn skip_ws_from(s: Seq<char>, k: int) -> int
    recommends
        0 <= k <= s.len(),
    decreases s.len() - k,
{
    if k < s.len() && is_ws(s[k]) {
        skip_ws_from(s, k + 1)
    } else {
        k
    }
}

/// The first position at or after `k` holding whitespace, or the end of `s`.
pub open spec fn token_end_from(s: Seq<char>, k: int) -> int
    recommends
        0 <= k <= s.len(),
    decreases s.len() - k,
{
    if k < s.len() && !is_ws(s[k]) {
        token_end_from(s, k + 1)
    } else {
        k
    }
}

/// Whether every character of `s` in `[a, b)` is a decimal digit.
pub open spec fn all_digits(s: Seq<char>, a: int, b: int) -> bool {
    forall|j: int| a <= j < b ==> is_digit(s[j])
}

/// The value of the decimal digit run of `s` in `[a, b)`.
pub open spec fn digits_val(s: Seq<char>, a: int, b: int) -> int
    decreases b - a,
{
    if a >= b {
        0
    } else {
        digits_val(s, a, b - 1) * 10 + (s[b - 1] as int - 48)
    }
}

/// The wait hint carried by a rate-limit message: the first whitespace-
/// delimited token after the first occurrence of the marker phrase, if
/// that token is a positive decimal number that fits in a `u64`.
pub open spec fn spec_hint(s: Seq<char>) -> Option<u64> {
    match find_marker_from(s, 0) {
        Option::None => Option::None,
        Option::Some(i) => {
            let a = skip_ws_from(s, i + marker().len());
            let b = token_end_from(s, a);
            if a < b && all_digits(s, a, b) && 0 < digits_val(s, a, b) <= u64::MAX {
                Option::Some(digits_val(s, a, b) as u64)
            } else {
                Option::None
            }
        },
    }
}

/// A digit run is never negative.
proof fn lemma_digits_val_nonneg(s: Seq<char>, a: int, b: int)
    requires
        all_digits(s, a, b),
    ensures
        digits_val(s, a, b) >= 0,
    decreases b - a,
{
    if a < b {
        lemma_digits_val_nonneg(s, a, b - 1);
        assert(is_digit(s[b - 1]));
    }
}

/// Extending a digit run to the right never lowers its value.
proof fn lemma_digits_val_grows(s: Seq<char>, a: int, k: int, b: int)
    requires
        a <= k <= b,
        all_digits(s, a, b),
    ensures
        digits_val(s, a, k) <= digits_val(s, a, b),
    decreases b - k,
{
    if k < b {
        lemma_digits_val_grows(s, a, k, b - 1);
        lemma_digits_val_nonneg(s, a, b - 1);
        assert(is_digit(s[b - 1]));
    }
}

fn eq_ci_exec(a: char, b: char) -> (r: bool)
    ensures
        r == eq_ci(a, b),
{
    let ac: u32 = a as u32;
    let bc: u32 = b as u32;
    let la: u32 = if 65 <= ac && ac <= 90 {
        ac + 32
    } else {
        ac
    };
    la == bc
}

fn is_ws_exec(c: char) -> (r: bool)
    ensures
        r == is_ws(c),
{
    c == ' ' || c == '\t' || c == '\n' || c == '\r'
}

/// Whether the marker phrase occurs, case-insensitively, at position `i`.
fn marker_matches_at(msg: &str, i: usize) -> (r: bool)
    requires
        i + marker().len() <= msg@.len(),
        msg@.len() <= usize::MAX,
    ensures
        r == marker_at(msg@, i as int),
{
    let pat = "try again in ";
    proof {
        reveal_strlit("try again in ");
    }
    let mut j: usize = 0;
    while j < 13
        invariant
            0 <= j <= 13,
            pat@ == marker(),
            marker().len() == 13,
            i + 13 <= msg@.len() <= usize::MAX,
            forall|jj: int| 0 <= jj < j ==> eq_ci(msg@[i + jj], marker()[jj]),
        decreases 13 - j,
    {
        let c = msg.get_char(i + j);
        let mc = pat.get_char(j);
        if !eq_ci_exec(c, mc) {
            assert(!eq_ci(msg@[i + j], marker()[j as int]));
            return false;
        }
        j += 1;
    }
    true
}

/// The first occurrence of the marker phrase in `msg`.
fn find_marker(msg: &str) -> (r: Option<usize>)
    ensures
        match r {
            Option::Some(i) => find_marker_from(msg@, 0) == Option::Some(i as int),
            Option::None => find_marker_from(msg@, 0) is None,
        },
{
    proof {
        reveal_strlit("try again in ");
    }
    let n = msg.unicode_len();
    if n < 13 {
        return Option::None;
    }
    let mut i: usize = 0;
    while i <= n - 13
        invariant
            marker().len() == 13,
            13 <= n == msg@.len(),
            0 <= i <= n - 13 + 1,
            find_marker_from(msg@, 0) == find_marker_from(msg@, i as int),
        decreases n - i,
    {
        if marker_matches_at(msg, i) {
            return Option::Some(i);
        }
        i += 1;
    }
    Option::None
}

/// Extracts the server wait hint, if any, from a rate-limit message:
/// the first whitespace-delimited token after the (case-insensitive)
/// phrase `try again in `, when that token is a positive decimal count
/// of seconds. Any malformed or zero token yields no hint.
pub fn parse_retry_hint(msg: &str) -> (h: Option<u64>)
    ensures
        h == spec_hint(msg@),
{
    proof {
        reveal_strlit("try again in ");
    }
    let ghost s = msg@;
    let found = find_marker(msg);
    let i = match found {
        Option::Some(i) => i,
        Option::None => {
            return Option::None;
        },
    };
    let n = msg.unicode_len();
    assert(i + 13 <= n) by {
        lemma_find_marker_in_range(s, 0);
    }

    // Skip whitespace after the marker.
    let mut a: usize = i + 13;
    while a < n && is_ws_exec(msg.get_char(a))
        invariant
            s == msg@,
            13 <= n == s.len(),
            i + 13 <= a <= n,
            skip_ws_from(s, i + 13) == skip_ws_from(s, a as int),
        decreases n - a,
    {
        a += 1;
    }
    assert(skip_ws_from(s, i + 13) == a);

    // Find the end of the token.
    let mut b: usize = a;
    while b < n && !is_ws_exec(msg.get_char(b))
        invariant
            s == msg@,
            a <= b <= n,
            n == s.len(),
            token_end_from(s, a as int) == token_end_from(s, b as int),
        decreases n - b,
    {
        b += 1;
    }
    assert(token_end_from(s, a as int) == b);

    if a == b {
        return Option::None;
    }

    // Parse the token as a positive decimal u64.
    let mut v: u64 = 0;
    let mut k: usize = a;
    while k < b
        invariant
            s == msg@,
            marker().len() == 13,
            a <= k <= b <= n,
            n == s.len(),
            i + 13 <= a,
            find_marker_from(s, 0) == Option::Some(i as int),
            a == skip_ws_from(s, i + 13),
            b == token_end_from(s, a as int),
            a < b,
            all_digits(s, a as int, k as int),
            v == digits_val(s, a as int, k as int),
        decreases b - k,
    {
        let c = msg.get_char(k);
        let cc: u32 = c as u32;
        if !(48 <= cc && cc <= 57) {
            assert(!is_digit(s[k as int]));
            return Option::None;
        }
        let d: u64 = (cc - 48) as u64;
        let next = match v.checked_mul(10) {
            Option::Some(m) => m.checked_add(d),
            Option::None => Option::None,
        };
        match next {
            Option::Some(nv) => {
                v = nv;
            },
            Option::None => {
                // The full token can only be larger still, so the spec
                // rejects it as not fitting in a u64.
                assert(digits_val(s, a as int, k + 1) > u64::MAX);
                assert(spec_hint(s) is None) by {
                    if all_digits(s, a as int, b as int) {
                        lemma_digits_val_grows(s, a as int, k + 1, b as int);
                    }
                }
                return Option::None;
            },
        }
        k += 1;
    }
    if v > 0 {
        Option::Some(v)
    } else {
        Option::None
    }
}

/// A found marker position always leaves room for the marker itself.
proof fn lemma_find_marker_in_range(s: Seq<char>, i: int)
    requires
        0 <= i,
    ensures
        match find_marker_from(s, i) {
            Option::Some(p) => i <= p && p + marker().len() <= s.len(),
            Option::None => true,
        },
    decreases s.len() - i,
{
    if i + marker().len() > s.len() {
    } else if marker_at(s, i) {
    } else {
        lemma_find_marker_in_range(s, i + 1);
    }
}

} // verus!

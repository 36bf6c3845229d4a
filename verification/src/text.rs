//! Small executable helpers over strings: equality, ASCII case-insensitive
//! matching, and decimal rendering of numbers.

use vstd::prelude::*;

verus! {

/// Whether two strings hold the same characters. The comparison goes
/// through owned copies, whose equality carries a specification.
pub fn str_eq(a: &str, b: &str) -> (r: bool)
    ensures
        r == (a@ == b@),
{
    let sa = String::from_str(a);
    let sb = String::from_str(b);
    sa == sb
}

/// Whether two optional strings hold the same characters, or are both
/// absent.
pub open spec fn opt_str_matches(a: Option<Seq<char>>, b: Option<Seq<char>>) -> bool {
    match (a, b) {
        (Option::Some(x), Option::Some(y)) => x == y,
        (Option::None, Option::None) => true,
        _ => false,
    }
}

/// The view of an optional owned string.
pub open spec fn opt_string_view(a: &Option<String>) -> Option<Seq<char>> {
    match a {
        Option::Some(s) => Option::Some(s@),
        Option::None => Option::None,
    }
}

/// Whether two optional owned strings agree.
pub fn opt_string_eq(a: &Option<String>, b: &Option<String>) -> (r: bool)
    ensures
        r == opt_str_matches(opt_string_view(a), opt_string_view(b)),
{
    match (a, b) {
        (Option::Some(x), Option::Some(y)) => str_eq(x.as_str(), y.as_str()),
        (Option::None, Option::None) => true,
        _ => false,
    }
}

/// Whether `c` is `l`, or is the ASCII uppercase letter whose lowercase
/// form is `l`.
pub open spec fn char_matches_lower(c: char, l: char) -> bool {
    ||| c == l
    ||| (65 <= c as u32 && c as u32 <= 90 && c as u32 + 32 == l as u32)
}

/// Whether `s` spells the same word as `lower`, comparing ASCII letters
/// case-insensitively; `lower` is the all-lowercase spelling.
pub open spec fn matches_ignore_ascii_case(s: Seq<char>, lower: Seq<char>) -> bool {
    &&& s.len() == lower.len()
    &&& forall|i: int| 0 <= i < s.len() ==> char_matches_lower(s[i], #[trigger] lower[i])
}

/// Whether `s` spells the same word as `lower`, comparing ASCII letters
/// case-insensitively.
pub fn eq_ignore_ascii_case(s: &str, lower: &str) -> (r: bool)
    ensures
        r == matches_ignore_ascii_case(s@, lower@),
{
    let n = s.unicode_len();
    if n != lower.unicode_len() {
        return false;
    }
    let mut i: usize = 0;
    while i < n
        invariant
            n == s@.len(),
            n == lower@.len(),
            0 <= i <= n,
            forall|j: int| 0 <= j < i ==> char_matches_lower(s@[j], #[trigger] lower@[j]),
        decreases n - i,
    {
        let c = s.get_char(i);
        let l = lower.get_char(i);
        let matches = c == l || (65 <= c as u32 && c as u32 <= 90 && c as u32 + 32 == l as u32);
        if !matches {
            return false;
        }
        i = i + 1;
    }
    true
}

/// Whether a path is directory-like, that is, ends with a path separator.
pub open spec fn directory_like(path: Seq<char>) -> bool {
    path.len() > 0 && path[path.len() - 1] == '/'
}

/// Whether `path` ends with a path separator.
pub fn is_directory_like(path: &str) -> (r: bool)
    ensures
        r == directory_like(path@),
{
    let n = path.unicode_len();
    if n == 0 {
        false
    } else {
        path.get_char(n - 1) == '/'
    }
}

/// The path naming `file` under the directory `dir`: the two joined by a
/// path separator, unless `dir` already ends with one.
pub open spec fn joined_path(dir: Seq<char>, file: Seq<char>) -> Seq<char> {
    if directory_like(dir) {
        dir + file
    } else {
        dir + "/"@ + file
    }
}

/// Joins a directory and a file name with a path separator.
pub fn join_path(dir: &str, file: &str) -> (r: String)
    ensures
        r@ == joined_path(dir@, file@),
{
    let mut s = String::from_str(dir);
    if !is_directory_like(dir) {
        s.append("/");
    }
    s.append(file);
    s
}

/// The decimal digit character for `d`, which must lie below ten.
pub open spec fn dec_digit(d: int) -> char {
    "0123456789"@[d]
}

/// The decimal spelling of the non-negative number `n`, most significant
/// digit first, with no leading zero except for zero itself.
pub open spec fn dec_str(n: int) -> Seq<char>
    decreases n,
{
    if n < 10 {
        seq![dec_digit(n)]
    } else {
        dec_str(n / 10).push(dec_digit(n % 10))
    }
}

/// Renders `n` in decimal.
pub fn u64_to_dec(n: u64) -> (r: String)
    ensures
        r@ == dec_str(n as int),
    decreases n,
{
    let digits = "0123456789";
    proof {
        reveal_strlit("0123456789");
    }
    assert(digits.is_ascii());
    if n < 10 {
        let d = digits.substring_ascii(n as usize, n as usize + 1);
        let r = String::from_str(d);
        proof {
            assert(r@ =~= seq![dec_digit(n as int)]);
        }
        r
    } else {
        let mut s = u64_to_dec(n / 10);
        let m = n % 10;
        let d = digits.substring_ascii(m as usize, m as usize + 1);
        s.append(d);
        proof {
            assert(s@ =~= dec_str((n / 10) as int).push(dec_digit((n % 10) as int)));
        }
        s
    }
}

/// Renders `n` in decimal.
pub fn u16_to_dec(n: u16) -> (r: String)
    ensures
        r@ == dec_str(n as int),
{
    u64_to_dec(n as u64)
}

} // verus!

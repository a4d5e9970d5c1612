//! String helpers shared by the request handlers: prefix trimming, literal
//! replacement, decimal rendering and case folding.
use vstd::prelude::*;

verus! {

/// `s` starts with `p`.
pub open spec fn has_prefix(s: Seq<char>, p: Seq<char>) -> bool {
    p.len() <= s.len() && s.take(p.len() as int) == p
}

/// What `str::trim_start_matches` leaves of `s` for a literal pattern `p`:
/// every leading repetition of `p` is removed (an empty pattern removes nothing).
pub open spec fn trim_start_all(s: Seq<char>, p: Seq<char>) -> Seq<char>
    decreases s.len(),
{
    if p.len() > 0 && has_prefix(s, p) {
        trim_start_all(s.skip(p.len() as int), p)
    } else {
        s
    }
}

/// What `str::replace` gives for a non-empty literal pattern: matches are found
/// left to right without overlapping, and each is replaced by `to`.
pub open spec fn replace_all(s: Seq<char>, from: Seq<char>, to: Seq<char>) -> Seq<char>
    recommends
        from.len() > 0,
    decreases s.len(),
{
    if s.len() == 0 || from.len() == 0 {
        s
    } else if has_prefix(s, from) {
        to + replace_all(s.skip(from.len() as int), from, to)
    } else {
        seq![s[0]] + replace_all(s.skip(1), from, to)
    }
}

/// The decimal digit character for `d < 10`.
pub open spec fn digit_char(d: nat) -> char {
    if d == 0 {
        '0'
    } else if d == 1 {
        '1'
    } else if d == 2 {
        '2'
    } else if d == 3 {
        '3'
    } else if d == 4 {
        '4'
    } else if d == 5 {
        '5'
    } else if d == 6 {
        '6'
    } else if d == 7 {
        '7'
    } else if d == 8 {
        '8'
    } else {
        '9'
    }
}

/// The decimal representation of `n`, without sign or leading zeros.
pub open spec fn decimal(n: nat) -> Seq<char>
    decreases n,
{
    if n < 10 {
        seq![digit_char(n)]
    } else {
        decimal(n / 10).push(digit_char(n % 10))
    }
}

/// ASCII case folding of one character.
pub open spec fn ascii_lower_char(c: char) -> char {
    if 'A' <= c && c <= 'Z' {
        ((c as u32) + 32) as char
    } else {
        c
    }
}

/// Every character of `s` is ASCII.
pub open spec fn all_ascii(s: Seq<char>) -> bool {
    forall|i: int| 0 <= i < s.len() ==> (s[i] as u32) < 128
}

/// ASCII case folding of a whole string.
pub open spec fn ascii_lower(s: Seq<char>) -> Seq<char> {
    Seq::new(s.len(), |i: int| ascii_lower_char(s[i]))
}

/// The result of `str::to_lowercase` (Unicode lower-case mapping).
pub uninterp spec fn unicode_lowercase(s: Seq<char>) -> Seq<char>;

/// Calls `str::to_lowercase`. What it returns is named `unicode_lowercase`;
/// for a string made only of ASCII characters the Unicode mapping is the ASCII
/// one, which the second clause states. Nothing is claimed about the mapping of
/// other characters.
#[verifier::external_body]
pub(crate) fn str_to_lowercase(s: &str) -> (res: String)
    ensures
        res@ == unicode_lowercase(s@),
        all_ascii(s@) ==> res@ == ascii_lower(s@),
{
    s.to_lowercase()
}

/// Characters `from..to` of `s` as an owned string.
fn substring(s: &str, from: usize, to: usize) -> (res: String)
    requires
        from <= to <= s@.len(),
    ensures
        res@ == s@.subrange(from as int, to as int),
{
    String::from_str(s.substring_char(from, to))
}

/// Whether `s` has `p` as a prefix at character position `at`.
fn matches_at(s: &str, s_len: usize, p: &str, p_len: usize, at: usize) -> (res: bool)
    requires
        s_len == s@.len(),
        p_len == p@.len(),
        at <= s_len,
    ensures
        res == has_prefix(s@.skip(at as int), p@),
{
    if p_len > s_len - at {
        return false;
    }
    let mut k: usize = 0;
    while k < p_len
        invariant
            s_len == s@.len(),
            p_len == p@.len(),
            at + p_len <= s_len,
            k <= p_len,
            forall|j: int| 0 <= j < k ==> s@[at + j] == p@[j],
        decreases p_len - k,
    {
        if s.get_char(at + k) != p.get_char(k) {
            assert(s@.skip(at as int).take(p_len as int)[k as int] != p@[k as int]);
            return false;
        }
        k = k + 1;
    }
    assert(s@.skip(at as int).take(p_len as int) =~= p@);
    true
}

/// `str::trim_start_matches` with a literal pattern: removes every leading
/// repetition of `pattern` from `s`.
pub fn trim_start_matches(s: &str, pattern: &str) -> (res: String)
    ensures
        res@ == trim_start_all(s@, pattern@),
{
    let s_len = s.unicode_len();
    let p_len = pattern.unicode_len();
    if p_len == 0 {
        return String::from_str(s);
    }
    let mut at: usize = 0;
    assert(s@.skip(0) =~= s@);
    let mut more = matches_at(s, s_len, pattern, p_len, at);
    while more
        invariant
            s_len == s@.len(),
            p_len == pattern@.len(),
            p_len > 0,
            at <= s_len,
            trim_start_all(s@, pattern@) == trim_start_all(s@.skip(at as int), pattern@),
            more == has_prefix(s@.skip(at as int), pattern@),
        decreases s_len - at,
    {
        assert(s@.skip(at as int).skip(p_len as int) =~= s@.skip(at + p_len));
        at = at + p_len;
        more = matches_at(s, s_len, pattern, p_len, at);
    }
    assert(s@.skip(at as int) =~= s@.subrange(at as int, s_len as int));
    substring(s, at, s_len)
}

/// `str::replace` with a non-empty literal pattern.
pub fn replace(s: &str, from: &str, to: &str) -> (res: String)
    requires
        from@.len() > 0,
    ensures
        res@ == replace_all(s@, from@, to@),
{
    let s_len = s.unicode_len();
    let f_len = from.unicode_len();
    let mut out = String::new();
    let mut at: usize = 0;
    assert(s@.skip(0) =~= s@);
    assert(out@ + s@ =~= s@);
    while at < s_len
        invariant
            s_len == s@.len(),
            f_len == from@.len(),
            f_len > 0,
            at <= s_len,
            out@ + replace_all(s@.skip(at as int), from@, to@) == replace_all(s@, from@, to@),
        decreases s_len - at,
    {
        if matches_at(s, s_len, from, f_len, at) {
            assert(s@.skip(at as int).skip(f_len as int) =~= s@.skip(at + f_len));
            out.append(to);
            at = at + f_len;
        } else {
            let one = s.substring_char(at, at + 1);
            assert(s@.skip(at as int).skip(1) =~= s@.skip(at + 1));
            assert(one@ =~= seq![s@.skip(at as int)[0]]);
            proof {
                assert(out@ + one@ + replace_all(s@.skip(at + 1), from@, to@) =~= out@ + (one@
                    + replace_all(s@.skip(at + 1), from@, to@)));
            }
            out.append(one);
            at = at + 1;
        }
    }
    assert(s@.skip(at as int).len() == 0);
    assert(out@ + s@.skip(at as int) =~= out@);
    out
}

/// The one-character string of the decimal digit `d < 10`.
fn digit_str(d: usize) -> (res: &'static str)
    requires
        d < 10,
    ensures
        res@ == seq![digit_char(d as nat)],
{
    let digits = "0123456789";
    proof {
        reveal_strlit("0123456789");
    }
    let one = digits.substring_char(d, d + 1);
    assert(one@ =~= seq![digit_char(d as nat)]);
    one
}

/// The decimal rendering of `n`, as `usize::to_string` gives it.
pub fn decimal_string(n: usize) -> (res: String)
    ensures
        res@ == decimal(n as nat),
    decreases n,
{
    if n < 10 {
        String::from_str(digit_str(n))
    } else {
        let mut s = decimal_string(n / 10);
        s.append(digit_str(n % 10));
        s
    }
}

/// Owned copy of `a` followed by `b`.
pub fn concat(a: &str, b: &str) -> (res: String)
    ensures
        res@ == a@ + b@,
{
    let mut s = String::from_str(a);
    s.append(b);
    s
}

/// String equality on the characters.
pub fn str_eq(a: &str, b: &str) -> (res: bool)
    ensures
        res == (a@ == b@),
{
    String::from_str(a) == String::from_str(b)
}


/// ASCII case folding keeps text ASCII and is idempotent: folding folded text
/// changes nothing.
pub proof fn lemma_ascii_lower_idempotent(s: Seq<char>)
    requires
        all_ascii(s),
    ensures
        all_ascii(ascii_lower(s)),
        ascii_lower(ascii_lower(s)) == ascii_lower(s),
{
    assert forall|i: int| 0 <= i < s.len() implies (ascii_lower(s)[i] as u32) < 128 && ascii_lower_char(
        ascii_lower(s)[i],
    ) == ascii_lower(s)[i] by {
        let c = s[i];
        if 'A' <= c && c <= 'Z' {
            assert(65 <= (c as u32) <= 90);
            let d = ((c as u32) + 32) as char;
            assert(97 <= (d as u32) <= 122);
        }
    }
    assert(ascii_lower(ascii_lower(s)) =~= ascii_lower(s));
}

} // verus!

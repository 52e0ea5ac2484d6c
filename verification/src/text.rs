//! Character-level string helpers shared by the rest of the library.
//!
//! Every helper works on the character sequence of its arguments (`s@`), so
//! the contracts elsewhere speak of `Seq<char>` values only.
use vstd::prelude::*;

verus! {

/// The characters of `s`, in order.
pub fn chars_of(s: &str) -> (v: Vec<char>)
    ensures
        v@ == s@,
{
    let mut v: Vec<char> = Vec::new();
    for c in it: s.chars()
        invariant
            v@ == it.seq().take(it.index() as int),
            it.seq() == s@,
    {
        v.push(c);
    }
    v
}

/// Collects characters into a `String` (std's `FromIterator<&char>` for
/// `String`); the contract claims that the string holds exactly these
/// characters, in order.
#[verifier::external_body]
pub fn string_of(cs: &[char]) -> (s: String)
    ensures
        s@ == cs@,
{
    cs.iter().collect()
}

/// A fresh `String` holding the characters of `s`.
pub fn owned(s: &str) -> (r: String)
    ensures
        r@ == s@,
{
    String::from_str(s)
}

/// `a` followed by `b`.
pub fn cat(a: &str, b: &str) -> (r: String)
    ensures
        r@ == a@ + b@,
{
    let mut r = String::from_str(a);
    r.append(b);
    r
}

/// `a`, `b` and `c`, one after the other.
pub fn cat3(a: &str, b: &str, c: &str) -> (r: String)
    ensures
        r@ == a@ + b@ + c@,
{
    let mut r = String::from_str(a);
    r.append(b);
    r.append(c);
    r
}

/// Whether two strings hold the same characters.
pub fn str_eq(a: &str, b: &str) -> (r: bool)
    ensures
        r == (a@ == b@),
{
    let x = String::from_str(a);
    let y = String::from_str(b);
    x == y
}

/// Appends all of `src` to `out`.
pub fn push_all(out: &mut Vec<char>, src: &Vec<char>)
    ensures
        final(out)@ == old(out)@ + src@,
{
    let ghost start = out@;
    let n = src.len();
    for i in 0..n
        invariant
            n == src@.len(),
            out@ == start + src@.take(i as int),
    {
        out.push(src[i]);
        assert(src@.take(i + 1) =~= src@.take(i as int).push(src@[i as int]));
    }
    assert(src@.take(n as int) =~= src@);
}

/// Whether `s` ends with `suffix`.
pub open spec fn ends_with(s: Seq<char>, suffix: Seq<char>) -> bool {
    suffix.len() <= s.len() && s.skip(s.len() - suffix.len()) == suffix
}

/// Whether `s` starts with `prefix`.
pub open spec fn starts_with(s: Seq<char>, prefix: Seq<char>) -> bool {
    prefix.len() <= s.len() && s.take(prefix.len() as int) == prefix
}

/// Whether `pat` occurs in `s` starting at position `i`.
pub open spec fn occurs_at(s: Seq<char>, pat: Seq<char>, i: int) -> bool {
    0 <= i && i + pat.len() <= s.len() && s.subrange(i, i + pat.len()) == pat
}

/// `s` with every occurrence of `pat` replaced by `rep`, scanning from the
/// left and never letting two replaced occurrences overlap (the rule of
/// `str::replace` for a non-empty pattern).
pub open spec fn replace_all(s: Seq<char>, pat: Seq<char>, rep: Seq<char>) -> Seq<char>
    decreases s.len(),
{
    if pat.len() == 0 || s.len() < pat.len() {
        s
    } else if s.take(pat.len() as int) == pat {
        rep + replace_all(s.skip(pat.len() as int), pat, rep)
    } else {
        seq![s[0]] + replace_all(s.skip(1), pat, rep)
    }
}

/// Whether `pat` occurs in `sv` at position `i`.
fn matches_at(sv: &Vec<char>, i: usize, pv: &Vec<char>) -> (r: bool)
    requires
        i + pv@.len() <= sv@.len(),
    ensures
        r == (sv@.subrange(i as int, i + pv@.len()) == pv@),
{
    let p = pv.len();
    let n = sv.len();
    let mut j: usize = 0;
    while j < p
        invariant
            j <= p,
            p == pv@.len(),
            n == sv@.len(),
            i + p <= n,
            forall|k: int| 0 <= k < j ==> sv@[i + k] == pv@[k],
        decreases p - j,
    {
        if sv[i + j] != pv[j] {
            assert(sv@.subrange(i as int, i + p)[j as int] != pv@[j as int]);
            return false;
        }
        j = j + 1;
    }
    assert(sv@.subrange(i as int, i + p) =~= pv@);
    true
}

/// `s` with every occurrence of `pat` replaced by `rep` (`str::replace`).
pub fn replace_all_str(s: &str, pat: &str, rep: &str) -> (r: String)
    requires
        pat@.len() > 0,
    ensures
        r@ == replace_all(s@, pat@, rep@),
{
    let sv = chars_of(s);
    let pv = chars_of(pat);
    let rv = chars_of(rep);
    let n = sv.len();
    let p = pv.len();
    let mut out: Vec<char> = Vec::new();
    let mut i: usize = 0;
    assert(sv@.skip(0) =~= sv@);
    while i < n
        invariant
            i <= n,
            n == sv@.len(),
            p == pv@.len(),
            p > 0,
            sv@ == s@,
            pv@ == pat@,
            rv@ == rep@,
            out@ + replace_all(sv@.skip(i as int), pv@, rv@) == replace_all(sv@, pv@, rv@),
        decreases n - i,
    {
        let ghost rest = sv@.skip(i as int);
        if n - i >= p && matches_at(&sv, i, &pv) {
            assert(rest.take(p as int) =~= sv@.subrange(i as int, i + p));
            assert(rest.skip(p as int) =~= sv@.skip(i + p));
            let ghost before = out@;
            push_all(&mut out, &rv);
            assert(out@ + replace_all(sv@.skip(i + p), pv@, rv@) =~= before + (rv@
                + replace_all(sv@.skip(i + p), pv@, rv@)));
            i = i + p;
        } else {
            if n - i >= p {
                assert(rest.take(p as int) =~= sv@.subrange(i as int, i + p));
            } else {
                assert(sv@.skip(i + 1).len() < p);
                assert(rest =~= seq![sv@[i as int]] + sv@.skip(i + 1));
            }
            assert(rest.skip(1) =~= sv@.skip(i + 1));
            let ghost before = out@;
            out.push(sv[i]);
            assert(out@ + replace_all(sv@.skip(i + 1), pv@, rv@) =~= before + (seq![sv@[i as int]]
                + replace_all(sv@.skip(i + 1), pv@, rv@)));
            i = i + 1;
        }
    }
    assert(sv@.skip(n as int) =~= Seq::<char>::empty());
    assert(out@ =~= out@ + replace_all(sv@.skip(n as int), pv@, rv@));
    string_of(out.as_slice())
}

/// Whether `s` ends with `suffix`.
pub fn ends_with_str(s: &str, suffix: &str) -> (r: bool)
    ensures
        r == ends_with(s@, suffix@),
{
    let sv = chars_of(s);
    let fv = chars_of(suffix);
    if fv.len() > sv.len() {
        return false;
    }
    let start = sv.len() - fv.len();
    let r = matches_at(&sv, start, &fv);
    assert(sv@.skip(start as int) =~= sv@.subrange(start as int, start + fv@.len()));
    r
}

/// Whether `s` starts with `prefix`.
pub fn starts_with_str(s: &str, prefix: &str) -> (r: bool)
    ensures
        r == starts_with(s@, prefix@),
{
    let sv = chars_of(s);
    let fv = chars_of(prefix);
    if fv.len() > sv.len() {
        return false;
    }
    let r = matches_at(&sv, 0, &fv);
    assert(sv@.take(fv@.len() as int) =~= sv@.subrange(0, fv@.len() as int));
    r
}

/// `s` without its last `n` characters.
pub fn drop_last_chars(s: &str, n: usize) -> (r: String)
    requires
        n <= s@.len(),
    ensures
        r@ == s@.take(s@.len() - n),
{
    let sv = chars_of(s);
    let keep = sv.len() - n;
    let mut out: Vec<char> = Vec::new();
    for i in 0..keep
        invariant
            keep == s@.len() - n,
            sv@ == s@,
            out@ == s@.take(i as int),
    {
        out.push(sv[i]);
        assert(s@.take(i + 1) =~= s@.take(i as int).push(s@[i as int]));
    }
    string_of(out.as_slice())
}

/// Whether `c` carries Unicode's `White_Space` property (`char::is_whitespace`).
pub open spec fn is_white_space(c: char) -> bool {
    let u = c as u32;
    ||| (9 <= u && u <= 13)
    ||| u == 32
    ||| u == 0x85
    ||| u == 0xA0
    ||| u == 0x1680
    ||| (0x2000 <= u && u <= 0x200A)
    ||| u == 0x2028
    ||| u == 0x2029
    ||| u == 0x202F
    ||| u == 0x205F
    ||| u == 0x3000
}

/// Whether `c` carries Unicode's `White_Space` property.
pub fn char_is_white_space(c: char) -> (r: bool)
    ensures
        r == is_white_space(c),
{
    let u = c as u32;
    (9 <= u && u <= 13) || u == 32 || u == 0x85 || u == 0xA0 || u == 0x1680 || (0x2000 <= u && u
        <= 0x200A) || u == 0x2028 || u == 0x2029 || u == 0x202F || u == 0x205F || u == 0x3000
}

/// Whether nothing is left of `s` once surrounding white space is trimmed,
/// that is, whether every character of `s` is white space.
pub open spec fn is_blank(s: Seq<char>) -> bool {
    forall|i: int| 0 <= i < s.len() ==> is_white_space(#[trigger] s[i])
}

/// Whether `s.trim()` is empty.
pub fn is_blank_str(s: &str) -> (r: bool)
    ensures
        r == is_blank(s@),
{
    let sv = chars_of(s);
    let n = sv.len();
    for i in 0..n
        invariant
            n == s@.len(),
            sv@ == s@,
            forall|k: int| 0 <= k < i ==> is_white_space(#[trigger] s@[k]),
    {
        if !char_is_white_space(sv[i]) {
            return false;
        }
    }
    true
}

/// Whether `c` is one of the ASCII digits `0`..`9`.
pub open spec fn is_digit(c: char) -> bool {
    '0' <= c && c <= '9'
}

/// The number written by the decimal digits `s` (most significant first).
pub open spec fn digits_value(s: Seq<char>) -> nat
    decreases s.len(),
{
    if s.len() == 0 {
        0
    } else {
        digits_value(s.drop_last()) * 10 + ((s.last() as u32) - ('0' as u32)) as nat
    }
}

/// The digits part of an unsigned decimal: `s` without one leading `+`.
pub open spec fn unsigned_digits(s: Seq<char>) -> Seq<char> {
    if s.len() > 0 && s[0] == '+' {
        s.skip(1)
    } else {
        s
    }
}

/// What `str::parse::<usize>` gives for `s`: an optional leading `+`, then
/// at least one ASCII digit and nothing else, with a value that fits in
/// `usize`.
pub open spec fn parse_usize(s: Seq<char>) -> Option<nat> {
    let d = unsigned_digits(s);
    if d.len() > 0 && (forall|i: int| 0 <= i < d.len() ==> is_digit(#[trigger] d[i]))
        && digits_value(d) <= usize::MAX {
        Some(digits_value(d))
    } else {
        None
    }
}

proof fn lemma_digits_value_monotone(s: Seq<char>, k: int)
    requires
        0 <= k <= s.len(),
        forall|i: int| 0 <= i < s.len() ==> is_digit(#[trigger] s[i]),
    ensures
        digits_value(s.take(k)) <= digits_value(s),
    decreases s.len(),
{
    if k < s.len() {
        assert(s.drop_last().take(k) =~= s.take(k));
        lemma_digits_value_monotone(s.drop_last(), k);
    } else {
        assert(s.take(k) =~= s);
    }
}

/// Parses an unsigned decimal the way `str::parse::<usize>` does.
pub fn parse_usize_str(s: &str) -> (r: Option<usize>)
    ensures
        r matches Some(v) ==> parse_usize(s@) == Some(v as nat),
        r is None ==> parse_usize(s@) is None,
{
    let sv = chars_of(s);
    let n = sv.len();
    let start: usize = if n > 0 && sv[0] == '+' {
        1
    } else {
        0
    };
    let ghost d = unsigned_digits(s@);
    assert(d =~= sv@.skip(start as int));
    if start >= n {
        return None;
    }
    let mut value: usize = 0;
    let mut i: usize = start;
    while i < n
        invariant
            start <= i <= n,
            n == sv@.len(),
            sv@ == s@,
            d == sv@.skip(start as int),
            d == unsigned_digits(s@),
            forall|k: int| 0 <= k < i - start ==> is_digit(#[trigger] d[k]),
            value as nat == digits_value(d.take(i - start)),
        decreases n - i,
    {
        let c = sv[i];
        if !('0' <= c && c <= '9') {
            assert(d[i - start] == c);
            assert(!is_digit(d[i - start]));
            return None;
        }
        let digit = (c as u32 - '0' as u32) as usize;
        assert(d.take(i + 1 - start).drop_last() =~= d.take(i - start));
        assert(d.take(i + 1 - start).last() == c);
        assert(digits_value(d.take(i + 1 - start)) == value as nat * 10 + digit as nat);
        match value.checked_mul(10) {
            Some(m) => match m.checked_add(digit) {
                Some(v) => {
                    value = v;
                },
                None => {
                    proof {
                        assert forall|k: int| 0 <= k < i + 1 - start implies is_digit(
                            #[trigger] d.take(i + 1 - start)[k],
                        ) by {
                            if k == i - start {
                                assert(d.take(i + 1 - start)[k] == c);
                            }
                        };
                        if forall|k: int| 0 <= k < d.len() ==> is_digit(#[trigger] d[k]) {
                            lemma_digits_value_monotone(d, i + 1 - start);
                        }
                    }
                    return None;
                },
            },
            None => {
                proof {
                    if forall|k: int| 0 <= k < d.len() ==> is_digit(#[trigger] d[k]) {
                        lemma_digits_value_monotone(d, i + 1 - start);
                    }
                }
                return None;
            },
        }
        i = i + 1;
    }
    assert(d.take(n - start) =~= d);
    Some(value)
}

/// Parts joined with `sep` between neighbours (`[String]::join`).
pub open spec fn join(parts: Seq<Seq<char>>, sep: Seq<char>) -> Seq<char>
    decreases parts.len(),
{
    if parts.len() == 0 {
        Seq::empty()
    } else if parts.len() == 1 {
        parts[0]
    } else {
        join(parts.drop_last(), sep) + sep + parts.last()
    }
}

/// Joins the strings of `parts` with `sep` between neighbours.
pub fn join_strings(parts: &Vec<String>, sep: &str) -> (r: String)
    ensures
        r@ == join(parts@.map_values(|p: String| p@), sep@),
{
    let ghost views = parts@.map_values(|p: String| p@);
    let mut r = String::new();
    let n = parts.len();
    for i in 0..n
        invariant
            n == parts@.len(),
            views == parts@.map_values(|p: String| p@),
            r@ == join(views.take(i as int), sep@),
    {
        assert(views.take(i + 1).drop_last() =~= views.take(i as int));
        if i > 0 {
            r.append(sep);
        } else {
            assert(r@ =~= Seq::<char>::empty());
        }
        r.append(parts[i].as_str());
        assert(views.take(i + 1).last() == parts@[i as int]@);
    }
    assert(views.take(n as int) =~= views);
    r
}

} // verus!

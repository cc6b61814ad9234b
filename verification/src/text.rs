//! Verified text utilities over `Seq<char>` views: substring search,
//! prefix/suffix tests, ASCII case folding, joining and splicing.

use vstd::prelude::*;

verus! {

/// `needle` occurs in `hay` starting at position `i`.
pub open spec fn sub_at(hay: Seq<char>, needle: Seq<char>, i: int) -> bool {
    0 <= i && i + needle.len() <= hay.len() && hay.subrange(i, i + needle.len() as int)
        == needle
}

/// `needle` occurs somewhere in `hay`.
pub open spec fn has_sub(hay: Seq<char>, needle: Seq<char>) -> bool {
    exists|i: int| sub_at(hay, needle, i)
}

/// ASCII case folding of one character: `A`..`Z` map to `a`..`z`.
pub open spec fn lower_char(c: char) -> char {
    if 'A' <= c && c <= 'Z' {
        (((c as u32) + 32) as u8) as char
    } else {
        c
    }
}

/// ASCII case folding of a character sequence.
pub open spec fn lower_seq(s: Seq<char>) -> Seq<char> {
    s.map_values(|c: char| lower_char(c))
}

/// Copies the characters of a string slice into a vector.
pub fn chars_vec(s: &str) -> (r: Vec<char>)
    ensures
        r@ == s@,
{
    let n = s.unicode_len();
    let mut out: Vec<char> = Vec::new();
    let mut i: usize = 0;
    while i < n
        invariant
            n == s@.len(),
            i <= n,
            out@ == s@.subrange(0, i as int),
        decreases n - i,
    {
        out.push(s.get_char(i));
        i = i + 1;
        assert(out@ =~= s@.subrange(0, i as int));
    }
    assert(out@ =~= s@);
    out
}

/// Appends one character to a string.
/// Relies on `String::push`: it appends exactly the given character.
#[verifier::external_body]
pub fn push_char(s: &mut String, c: char)
    ensures
        final(s)@ == old(s)@.push(c),
{
    s.push(c);
}

/// ASCII-lowercases a string.
pub fn lower(s: &str) -> (r: String)
    ensures
        r@ == lower_seq(s@),
{
    let n = s.unicode_len();
    let mut out = String::new();
    let mut i: usize = 0;
    while i < n
        invariant
            n == s@.len(),
            i <= n,
            out@ == lower_seq(s@).subrange(0, i as int),
        decreases n - i,
    {
        let c = s.get_char(i);
        let u = c as u32;
        let lc: char = if 65 <= u && u <= 90 {
            (((u + 32) as u8) as char)
        } else {
            c
        };
        assert(lc == lower_char(s@[i as int]));
        push_char(&mut out, lc);
        i = i + 1;
        assert(out@ =~= lower_seq(s@).subrange(0, i as int));
    }
    assert(out@ =~= lower_seq(s@));
    out
}

/// What `str::to_lowercase` yields on a text: the Unicode lower-case
/// folding, a function of the characters alone.
pub uninterp spec fn lower_of(s: Seq<char>) -> Seq<char>;

/// Relies on str::to_lowercase: Unicode lower-case folding, deterministic
/// in the input characters.
#[verifier::external_body]
pub fn lowercase(s: &str) -> (r: String)
    ensures
        r@ == lower_of(s@),
{
    s.to_lowercase()
}

/// Tests whether `needle` occurs at position `i` of `hay`.
fn matches_at(hay: &Vec<char>, needle: &Vec<char>, i: usize) -> (r: bool)
    requires
        i + needle@.len() <= hay@.len(),
    ensures
        r == sub_at(hay@, needle@, i as int),
{
    let m = needle.len();
    let hl = hay.len();
    let mut j: usize = 0;
    while j < m
        invariant
            m == needle@.len(),
            hl == hay@.len(),
            i + m <= hl,
            j <= m,
            forall|k: int| 0 <= k < j ==> hay@[i + k] == needle@[k],
        decreases m - j,
    {
        if hay[i + j] != needle[j] {
            assert(hay@.subrange(i as int, i + m) != needle@) by {
                assert(hay@.subrange(i as int, i + m)[j as int] != needle@[j as int]);
            }
            return false;
        }
        j = j + 1;
    }
    assert(hay@.subrange(i as int, i + m) =~= needle@);
    true
}

/// Finds the first occurrence of `needle` in `hay`, if any.
pub fn find_sub(hay: &Vec<char>, needle: &Vec<char>) -> (r: Option<usize>)
    ensures
        match r {
            Some(i) => sub_at(hay@, needle@, i as int) && forall|j: int|
                0 <= j < i ==> !sub_at(hay@, needle@, j),
            None => !has_sub(hay@, needle@),
        },
{
    if needle.len() > hay.len() {
        assert(forall|i: int| !sub_at(hay@, needle@, i));
        return None;
    }
    if needle.len() == 0 {
        assert(hay@.subrange(0, 0) =~= needle@);
        return Some(0);
    }
    let hl = hay.len();
    let nl = needle.len();
    let last = hl - nl;
    let mut i: usize = 0;
    loop
        invariant
            hl == hay@.len(),
            nl == needle@.len(),
            1 <= nl <= hl,
            last == hl - nl,
            i <= last + 1,
            forall|j: int| 0 <= j < i ==> !sub_at(hay@, needle@, j),
        ensures
            forall|j: int| 0 <= j <= last ==> !sub_at(hay@, needle@, j),
        decreases last + 1 - i,
    {
        if i > last {
            break;
        }
        if matches_at(hay, needle, i) {
            return Some(i);
        }
        i = i + 1;
    }
    proof {
        assert forall|j: int| !sub_at(hay@, needle@, j) by {
            if sub_at(hay@, needle@, j) {
                assert(0 <= j && j + needle@.len() <= hay@.len());
                assert(j <= last);
                assert(false);
            }
        }
        assert(!has_sub(hay@, needle@));
    }
    None
}

/// Whether `needle` occurs anywhere in `hay`.
pub fn str_contains(hay: &str, needle: &str) -> (b: bool)
    ensures
        b == has_sub(hay@, needle@),
{
    let h = chars_vec(hay);
    let n = chars_vec(needle);
    find_sub(&h, &n).is_some()
}

/// Whether `hay` starts with `prefix`.
pub fn str_starts_with(hay: &str, prefix: &str) -> (b: bool)
    ensures
        b == sub_at(hay@, prefix@, 0),
{
    let h = chars_vec(hay);
    let p = chars_vec(prefix);
    if p.len() > h.len() {
        return false;
    }
    matches_at(&h, &p, 0)
}

/// Whether `hay` ends with `suffix`.
pub fn str_ends_with(hay: &str, suffix: &str) -> (b: bool)
    ensures
        b == sub_at(hay@, suffix@, hay@.len() - suffix@.len()),
{
    let h = chars_vec(hay);
    let s = chars_vec(suffix);
    if s.len() > h.len() {
        return false;
    }
    let start = h.len() - s.len();
    matches_at(&h, &s, start)
}

/// Whether the character sequences of two strings are equal.
pub fn str_eq(a: &str, b: &str) -> (r: bool)
    ensures
        r == (a@ == b@),
{
    let va = chars_vec(a);
    let vb = chars_vec(b);
    if va.len() != vb.len() {
        return false;
    }
    let r = matches_at(&va, &vb, 0);
    proof {
        assert(va@.subrange(0, va@.len() as int) =~= va@);
    }
    if r {
        assert(a@ =~= b@);
    }
    r
}

/// Appends one literal string to a string vector.
pub fn push_str(v: &mut Vec<String>, s: &str)
    ensures
        final(v).deep_view() == old(v).deep_view().push(s@),
{
    v.push(String::from_str(s));
    assert(v.deep_view() =~= old(v).deep_view().push(s@));
}

/// The concatenation of `parts` separated by `sep`.
pub open spec fn spec_join(parts: Seq<Seq<char>>, sep: Seq<char>) -> Seq<char>
    decreases parts.len(),
{
    if parts.len() == 0 {
        Seq::empty()
    } else if parts.len() == 1 {
        parts[0]
    } else {
        parts[0] + sep + spec_join(parts.drop_first(), sep)
    }
}

/// Joins strings with a separator.
pub fn join_strs(parts: &Vec<String>, sep: &str) -> (r: String)
    ensures
        r@ == spec_join(parts.deep_view(), sep@),
{
    let mut out = String::new();
    if parts.len() == 0 {
        assert(out@ =~= spec_join(parts.deep_view(), sep@));
        return out;
    }
    let mut i: usize = parts.len() - 1;
    out = parts[i].clone();
    assert(out@ =~= spec_join(parts.deep_view().subrange(i as int, parts.deep_view().len() as int), sep@));
    while i > 0
        invariant
            parts@.len() > 0,
            i < parts@.len(),
            out@ == spec_join(
                parts.deep_view().subrange(i as int, parts.deep_view().len() as int),
                sep@,
            ),
        decreases i,
    {
        i = i - 1;
        let mut piece = parts[i].clone();
        piece.append(sep);
        piece.append(out.as_str());
        proof {
            let dv = parts.deep_view();
            let tail = dv.subrange(i + 1, dv.len() as int);
            assert(dv.subrange(i as int, dv.len() as int).drop_first() =~= tail);
            assert(dv.subrange(i as int, dv.len() as int)[0] == dv[i as int]);
            assert(dv.subrange(i as int, dv.len() as int).len() > 1);
        }
        out = piece;
    }
    proof {
        let dv = parts.deep_view();
        assert(dv.subrange(0, dv.len() as int) =~= dv);
    }
    out
}

/// `hay` with its first occurrence of `pat` (if any) replaced by `repl`.
pub open spec fn spec_replace_first(hay: Seq<char>, pat: Seq<char>, repl: Seq<char>) -> Seq<
    char,
> {
    if has_sub(hay, pat) {
        let i = choose|i: int|
            sub_at(hay, pat, i) && forall|j: int| 0 <= j < i ==> !sub_at(hay, pat, j);
        hay.subrange(0, i) + repl + hay.subrange(i + pat.len(), hay.len() as int)
    } else {
        hay
    }
}

/// Replaces the first occurrence of `pat` in `hay` by `repl`;
/// returns `hay` unchanged when `pat` does not occur.
pub fn replace_first(hay: &str, pat: &str, repl: &str) -> (r: String)
    ensures
        r@ == spec_replace_first(hay@, pat@, repl@),
{
    let h = chars_vec(hay);
    let p = chars_vec(pat);
    match find_sub(&h, &p) {
        Some(i) => {
            let n = hay.unicode_len();
            let plen = pat.unicode_len();
            let mut out = String::from_str(hay.substring_char(0, i));
            out.append(repl);
            out.append(hay.substring_char(i + plen, n));
            proof {
                let wit = choose|w: int|
                    sub_at(hay@, pat@, w) && forall|j: int| 0 <= j < w ==> !sub_at(hay@, pat@, j);
                assert(wit == i as int);
            }
            out
        },
        None => {
            let out = String::from_str(hay);
            out
        },
    }
}

/// A text split at every occurrence of a separator character: one more
/// piece than there are separators.
pub open spec fn spec_split_char(s: Seq<char>, c: char) -> Seq<Seq<char>>
    decreases s.len(),
    via spec_split_char_dec
{
    if !s.contains(c) {
        seq![s]
    } else {
        let i = s.index_of_first(c).unwrap();
        seq![s.subrange(0, i)] + spec_split_char(s.subrange(i + 1, s.len() as int), c)
    }
}

#[via_fn]
proof fn spec_split_char_dec(s: Seq<char>, c: char) {
    if s.contains(c) {
        s.index_of_first_ensures(c);
    }
}

/// Splits a text at a separator character.
pub fn split_char(s: &str, c: char) -> (r: Vec<String>)
    ensures
        r.deep_view() == spec_split_char(s@, c),
{
    let n = s.unicode_len();
    let ghost whole = s@;
    let mut out: Vec<String> = Vec::new();
    let mut start: usize = 0;
    let mut i: usize = 0;
    proof {
        assert(whole.subrange(0, whole.len() as int) =~= whole);
        assert(out.deep_view() + spec_split_char(whole, c) =~= spec_split_char(whole, c));
    }
    while i < n
        invariant
            n == s@.len(),
            whole == s@,
            start <= i <= n,
            forall|k: int| start <= k < i ==> whole[k] != c,
            out.deep_view() + spec_split_char(
                whole.subrange(start as int, whole.len() as int),
                c,
            ) == spec_split_char(whole, c),
        decreases n - i,
    {
        if s.get_char(i) == c {
            let piece = String::from_str(s.substring_char(start, i));
            let ghost before = out.deep_view();
            let ghost rest = whole.subrange(start as int, whole.len() as int);
            out.push(piece);
            proof {
                assert(rest.contains(c)) by {
                    assert(rest[i - start] == c);
                }
                rest.index_of_first_ensures(c);
                let fi = rest.index_of_first(c).unwrap();
                assert forall|k: int| 0 <= k < i - start implies rest[k] != c by {
                    assert(rest[k] == whole[start + k]);
                }
                assert(fi == i - start) by {
                    if fi < i - start {
                        assert(rest[fi] != c);
                    }
                    if fi > i - start {
                        assert(rest[i - start] != c);
                    }
                }
                assert(rest.subrange(0, fi) =~= whole.subrange(start as int, i as int));
                assert(rest.subrange(fi + 1, rest.len() as int) =~= whole.subrange(
                    i + 1,
                    whole.len() as int,
                ));
                assert(out.deep_view() =~= before.push(whole.subrange(start as int, i as int)));
                assert(out.deep_view() + spec_split_char(
                    whole.subrange(i + 1, whole.len() as int),
                    c,
                ) =~= spec_split_char(whole, c));
            }
            start = i + 1;
        }
        i = i + 1;
    }
    let piece = String::from_str(s.substring_char(start, n));
    let ghost before = out.deep_view();
    let ghost rest = whole.subrange(start as int, whole.len() as int);
    out.push(piece);
    proof {
        assert(!rest.contains(c)) by {
            if rest.contains(c) {
                let k = choose|k: int| 0 <= k < rest.len() && rest[k] == c;
                assert(whole[start + k] == c);
            }
        }
        assert(spec_split_char(rest, c) =~= seq![rest]);
        assert(rest =~= whole.subrange(start as int, n as int));
        assert(out.deep_view() =~= before.push(rest));
        assert(out.deep_view() =~= spec_split_char(whole, c));
    }
    out
}

/// The concatenation of all parts, in order.
pub open spec fn spec_concat(parts: Seq<Seq<char>>) -> Seq<char>
    decreases parts.len(),
{
    if parts.len() == 0 {
        Seq::empty()
    } else {
        spec_concat(parts.drop_last()) + parts.last()
    }
}

/// Concatenates strings without a separator.
pub fn concat_strs(parts: &Vec<String>) -> (r: String)
    ensures
        r@ == spec_concat(parts.deep_view()),
{
    let ghost dv = parts.deep_view();
    let mut out = String::new();
    let mut i: usize = 0;
    proof {
        assert(out@ =~= spec_concat(dv.take(0)));
    }
    while i < parts.len()
        invariant
            dv == parts.deep_view(),
            i <= dv.len(),
            out@ == spec_concat(dv.take(i as int)),
        decreases dv.len() - i,
    {
        out.append(parts[i].as_str());
        proof {
            assert(dv.take(i + 1).drop_last() =~= dv.take(i as int));
            assert(dv.take(i + 1).last() == dv[i as int]);
        }
        i = i + 1;
    }
    assert(dv.take(dv.len() as int) =~= dv);
    out
}

/// A decimal digit.
pub open spec fn is_digit(c: char) -> bool {
    '0' <= c && c <= '9'
}

/// The value of a digit string read in base ten.
pub open spec fn digits_val(s: Seq<char>) -> int
    decreases s.len(),
{
    if s.len() == 0 {
        0
    } else {
        digits_val(s.drop_last()) * 10 + (s.last() as int - 48)
    }
}

/// The value of a text as an unsigned 64-bit decimal number, when it is one.
pub open spec fn spec_dec_u64(s: Seq<char>) -> Option<int> {
    if s.len() > 0 && (forall|i: int| 0 <= i < s.len() ==> is_digit(#[trigger] s[i]))
        && digits_val(s) <= u64::MAX as int {
        Some(digits_val(s))
    } else {
        None
    }
}

/// The decimal value of a text, or zero when it is not one.
pub open spec fn dec_u64_or_zero(s: Seq<char>) -> int {
    match spec_dec_u64(s) {
        Some(v) => v,
        None => 0,
    }
}

proof fn lemma_digits_val_nonneg(s: Seq<char>)
    requires
        forall|i: int| 0 <= i < s.len() ==> is_digit(#[trigger] s[i]),
    ensures
        digits_val(s) >= 0,
    decreases s.len(),
{
    if s.len() > 0 {
        lemma_digits_val_nonneg(s.drop_last());
    }
}

proof fn lemma_digits_val_monotone(s: Seq<char>, k: int)
    requires
        forall|i: int| 0 <= i < s.len() ==> is_digit(#[trigger] s[i]),
        0 <= k <= s.len(),
    ensures
        digits_val(s) >= digits_val(s.take(k)),
    decreases s.len() - k,
{
    if k < s.len() {
        lemma_digits_val_monotone(s, k + 1);
        assert(s.take(k + 1).drop_last() =~= s.take(k));
        assert(forall|i: int| 0 <= i < s.take(k + 1).len() ==> is_digit(
            #[trigger] s.take(k + 1)[i],
        ));
        lemma_digits_val_nonneg(s.take(k));
        assert(digits_val(s.take(k + 1)) == digits_val(s.take(k)) * 10 + (s[k] as int - 48));
        assert(digits_val(s.take(k)) * 10 >= digits_val(s.take(k))) by (nonlinear_arith)
            requires
                digits_val(s.take(k)) >= 0,
        {
        }
        assert(s[k] as int - 48 >= 0);
    } else {
        assert(s.take(k) =~= s);
    }
}

/// Parses a text as an unsigned 64-bit decimal number.
pub fn parse_u64(s: &str) -> (r: Option<u64>)
    ensures
        match r {
            Some(v) => spec_dec_u64(s@) == Some(v as int),
            None => spec_dec_u64(s@) is None,
        },
{
    let n = s.unicode_len();
    if n == 0 {
        return None;
    }
    let mut acc: u64 = 0;
    let mut i: usize = 0;
    while i < n
        invariant
            n == s@.len(),
            n > 0,
            i <= n,
            forall|k: int| 0 <= k < i ==> is_digit(#[trigger] s@[k]),
            acc as int == digits_val(s@.take(i as int)),
        decreases n - i,
    {
        let c = s.get_char(i);
        let u = c as u32;
        if u < 48 || u > 57 {
            return None;
        }
        let d: u64 = (u - 48) as u64;
        if acc > (u64::MAX - d) / 10 {
            proof {
                assert(acc * 10 + d > u64::MAX) by (nonlinear_arith)
                    requires
                        acc > (u64::MAX - d) / 10,
                        d <= 9,
                {
                }
                assert(s@.take(i + 1).drop_last() =~= s@.take(i as int));
                assert(s@.take(i + 1).last() == s@[i as int]);
                assert(digits_val(s@.take(i + 1)) == acc * 10 + d);
                if forall|k: int| 0 <= k < s@.len() ==> is_digit(#[trigger] s@[k]) {
                    lemma_digits_val_monotone(s@, i + 1);
                    assert(digits_val(s@) > u64::MAX as int);
                }
            }
            return None;
        }
        proof {
            assert(acc * 10 + d <= u64::MAX) by (nonlinear_arith)
                requires
                    acc <= (u64::MAX - d) / 10,
                    d <= 9,
            {
            }
            assert(s@.take(i + 1).drop_last() =~= s@.take(i as int));
            assert(s@.take(i + 1).last() == s@[i as int]);
        }
        acc = acc * 10 + d;
        i = i + 1;
    }
    proof {
        assert(s@.take(n as int) =~= s@);
    }
    Some(acc)
}

/// `s` cut to at most `max` characters, with an ellipsis appended when cut.
pub open spec fn spec_truncate(s: Seq<char>, max: int) -> Seq<char> {
    if s.len() > max {
        s.subrange(0, max) + "..."@
    } else {
        s
    }
}

/// Shortens a string to at most `max` characters, marking the cut.
pub fn truncate(s: &str, max_len: usize) -> (r: String)
    ensures
        r@ == spec_truncate(s@, max_len as int),
{
    let n = s.unicode_len();
    if n > max_len {
        let mut out = String::from_str(s.substring_char(0, max_len));
        out.append("...");
        out
    } else {
        String::from_str(s)
    }
}

} // verus!

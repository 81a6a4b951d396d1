//! Character-level string operations with exact specifications.

use vstd::prelude::*;
use vstd::utf8::{char_is_scalar, encode_scalar, encode_utf8};

verus! {

/// `s` begins with `prefix`.
pub open spec fn has_prefix(s: Seq<char>, prefix: Seq<char>) -> bool {
    prefix.len() <= s.len() && s.take(prefix.len() as int) == prefix
}

/// `pat` occurs in `s` at position `i`.
pub open spec fn occurs_at(s: Seq<char>, i: int, pat: Seq<char>) -> bool {
    0 <= i && i + pat.len() <= s.len() && s.subrange(i, i + pat.len()) == pat
}

/// Every non-overlapping occurrence of `pat` in `s`, found from left to
/// right, replaced by `rep` (the meaning of `str::replace` for a non-empty
/// pattern).
pub open spec fn replaced(s: Seq<char>, pat: Seq<char>, rep: Seq<char>) -> Seq<char>
    decreases s.len(),
{
    if pat.len() == 0 || s.len() == 0 {
        s
    } else if has_prefix(s, pat) {
        rep + replaced(s.skip(pat.len() as int), pat, rep)
    } else {
        seq![s[0]] + replaced(s.skip(1), pat, rep)
    }
}

/// `s` with every trailing `c` removed (the meaning of `str::trim_end_matches`
/// for a single character).
pub open spec fn trimmed_end(s: Seq<char>, c: char) -> Seq<char>
    decreases s.len(),
{
    if s.len() > 0 && s.last() == c {
        trimmed_end(s.drop_last(), c)
    } else {
        s
    }
}

/// The Unicode `White_Space` property, which `char::is_whitespace` tests.
pub open spec fn is_white_space(c: char) -> bool {
    let v = c as u32;
    ||| 0x9 <= v <= 0xd
    ||| v == 0x20
    ||| v == 0x85
    ||| v == 0xa0
    ||| v == 0x1680
    ||| 0x2000 <= v <= 0x200a
    ||| v == 0x2028
    ||| v == 0x2029
    ||| v == 0x202f
    ||| v == 0x205f
    ||| v == 0x3000
}

/// Nothing is left of `s` once white space is trimmed from both ends.
pub open spec fn is_blank(s: Seq<char>) -> bool {
    forall|i: int| 0 <= i < s.len() ==> #[trigger] is_white_space(s[i])
}

/// Returns whether `s` begins with `prefix`.
pub fn starts_with(s: &str, prefix: &str) -> (r: bool)
    ensures
        r == has_prefix(s@, prefix@),
{
    let n = s.unicode_len();
    let m = prefix.unicode_len();
    if m > n {
        return false;
    }
    let mut i: usize = 0;
    while i < m
        invariant
            i <= m <= n,
            n == s@.len(),
            m == prefix@.len(),
            forall|j: int| 0 <= j < i ==> s@[j] == prefix@[j],
        decreases m - i,
    {
        if s.get_char(i) != prefix.get_char(i) {
            assert(s@.take(m as int)[i as int] != prefix@[i as int]);
            return false;
        }
        i = i + 1;
    }
    assert(s@.take(m as int) =~= prefix@);
    true
}

/// Returns whether `pat` occurs in `s` at character position `i`.
fn matches_at(s: &str, n: usize, i: usize, pat: &str, m: usize) -> (r: bool)
    requires
        n == s@.len(),
        m == pat@.len(),
        i <= n,
    ensures
        r == occurs_at(s@, i as int, pat@),
{
    if m > n - i {
        return false;
    }
    let mut k: usize = 0;
    while k < m
        invariant
            k <= m,
            i + m <= n,
            n == s@.len(),
            m == pat@.len(),
            forall|j: int| 0 <= j < k ==> s@[i + j] == pat@[j],
        decreases m - k,
    {
        if s.get_char(i + k) != pat.get_char(k) {
            assert(s@.subrange(i as int, i + m)[k as int] != pat@[k as int]);
            return false;
        }
        k = k + 1;
    }
    assert(s@.subrange(i as int, i + m) =~= pat@);
    true
}

/// Replaces every non-overlapping occurrence of `pat` in `s`, from left to
/// right, by `rep`.
pub fn replace_all(s: &str, pat: &str, rep: &str) -> (r: String)
    requires
        pat@.len() > 0,
    ensures
        r@ == replaced(s@, pat@, rep@),
{
    let n = s.unicode_len();
    let m = pat.unicode_len();
    let mut res = String::new();
    let mut i: usize = 0;
    assert(s@.skip(0) =~= s@);
    while i < n
        invariant
            i <= n,
            n == s@.len(),
            m == pat@.len(),
            m > 0,
            replaced(s@, pat@, rep@) == res@ + replaced(s@.skip(i as int), pat@, rep@),
        decreases n - i,
    {
        let ghost rest = s@.skip(i as int);
        if matches_at(s, n, i, pat, m) {
            assert(rest.take(m as int) =~= s@.subrange(i as int, i + m));
            assert(rest.skip(m as int) =~= s@.skip(i + m));
            let ghost before = res@;
            res.append(rep);
            i = i + m;
            assert(res@ + replaced(s@.skip(i as int), pat@, rep@) =~= before + (rep@
                + replaced(s@.skip(i as int), pat@, rep@)));
        } else {
            proof {
                if has_prefix(rest, pat@) {
                    assert(rest.take(m as int) =~= s@.subrange(i as int, i + m));
                }
            }
            assert(rest.skip(1) =~= s@.skip(i + 1));
            let ghost before = res@;
            res.append(s.substring_char(i, i + 1));
            assert(res@ + replaced(s@.skip(i + 1), pat@, rep@) =~= before + (seq![rest[0]]
                + replaced(rest.skip(1), pat@, rep@)));
            i = i + 1;
        }
    }
    assert(s@.skip(n as int) =~= Seq::<char>::empty());
    res
}

/// Returns `s` with every trailing `c` removed.
pub fn trim_end_char(s: &str, c: char) -> (r: String)
    ensures
        r@ == trimmed_end(s@, c),
{
    let n = s.unicode_len();
    let mut j: usize = n;
    assert(s@.take(n as int) =~= s@);
    while j > 0 && s.get_char(j - 1) == c
        invariant
            j <= n,
            n == s@.len(),
            trimmed_end(s@, c) == trimmed_end(s@.take(j as int), c),
        decreases j,
    {
        assert(s@.take(j as int).drop_last() =~= s@.take(j - 1));
        j = j - 1;
    }
    let r = String::from_str(s.substring_char(0, j));
    assert(s@.subrange(0, j as int) =~= s@.take(j as int));
    r
}

/// Whether `c` has the Unicode `White_Space` property.
pub fn is_white_space_char(c: char) -> (r: bool)
    ensures
        r == is_white_space(c),
{
    let v = c as u32;
    (0x9 <= v && v <= 0xd) || v == 0x20 || v == 0x85 || v == 0xa0 || v == 0x1680 || (0x2000 <= v
        && v <= 0x200a) || v == 0x2028 || v == 0x2029 || v == 0x202f || v == 0x205f || v == 0x3000
}

/// Whether nothing is left of `s` once white space is trimmed from both ends.
pub fn is_blank_text(s: &str) -> (r: bool)
    ensures
        r == is_blank(s@),
{
    let n = s.unicode_len();
    let mut i: usize = 0;
    while i < n
        invariant
            i <= n,
            n == s@.len(),
            forall|j: int| 0 <= j < i ==> #[trigger] is_white_space(s@[j]),
        decreases n - i,
    {
        if !is_white_space_char(s.get_char(i)) {
            return false;
        }
        i = i + 1;
    }
    true
}

/// The number of bytes in the UTF-8 form of `c`.
pub fn utf8_width(c: char) -> (w: usize)
    ensures
        w == encode_scalar(c as u32).len(),
        1 <= w <= 4,
{
    proof {
        char_is_scalar(c);
    }
    let v = c as u32;
    if v <= 0x7f {
        1
    } else if v <= 0x7ff {
        2
    } else if v <= 0xffff {
        3
    } else {
        4
    }
}

/// The UTF-8 form of a suffix of `s` is no longer than that of `s`.
pub proof fn lemma_utf8_len_of_suffix(s: Seq<char>, j: int)
    requires
        0 <= j <= s.len(),
    ensures
        encode_utf8(s).len() >= encode_utf8(s.skip(j)).len(),
    decreases j,
{
    if j > 0 {
        lemma_utf8_len_of_suffix(s, j - 1);
        assert(s.skip(j - 1).drop_first() =~= s.skip(j));
    } else {
        assert(s.skip(0) =~= s);
    }
}

/// Whether the UTF-8 form of `s` has more than `limit` bytes.
pub fn utf8_len_exceeds(s: &str, limit: usize) -> (r: bool)
    ensures
        r == (encode_utf8(s@).len() > limit),
{
    let n = s.unicode_len();
    let mut i: usize = n;
    let mut total: usize = 0;
    assert(s@.skip(n as int) =~= Seq::<char>::empty());
    while i > 0
        invariant
            i <= n,
            n == s@.len(),
            total <= limit,
            total == encode_utf8(s@.skip(i as int)).len(),
        decreases i,
    {
        let w = utf8_width(s.get_char(i - 1));
        assert(s@.skip(i - 1).drop_first() =~= s@.skip(i as int));
        assert(s@.skip(i - 1)[0] == s@[i - 1]);
        if w > limit - total {
            proof {
                lemma_utf8_len_of_suffix(s@, i - 1);
            }
            return true;
        }
        total = total + w;
        i = i - 1;
    }
    assert(s@.skip(0) =~= s@);
    false
}

/// `pat` occurs nowhere in `s`.
pub open spec fn lacks(s: Seq<char>, pat: Seq<char>) -> bool {
    forall|i: int| !#[trigger] occurs_at(s, i, pat)
}

/// Replacing a pattern that does not occur changes nothing.
pub proof fn lemma_replaced_without_occurrence(s: Seq<char>, pat: Seq<char>, rep: Seq<char>)
    requires
        pat.len() > 0,
        lacks(s, pat),
    ensures
        replaced(s, pat, rep) == s,
    decreases s.len(),
{
    if s.len() > 0 {
        if has_prefix(s, pat) {
            assert(s.take(pat.len() as int) =~= s.subrange(0, pat.len() as int));
            assert(occurs_at(s, 0, pat));
        }
        let t = s.skip(1);
        assert forall|i: int| !#[trigger] occurs_at(t, i, pat) by {
            if occurs_at(t, i, pat) {
                assert(s.subrange(i + 1, i + 1 + pat.len()) =~= t.subrange(i, i + pat.len()));
                assert(occurs_at(s, i + 1, pat));
            }
        }
        lemma_replaced_without_occurrence(t, pat, rep);
        assert(seq![s[0]] + t =~= s);
    }
}

/// A leading occurrence of the pattern is replaced, and the rest is replaced
/// on its own.
pub proof fn lemma_replaced_leading(pat: Seq<char>, s: Seq<char>, rep: Seq<char>)
    requires
        pat.len() > 0,
    ensures
        replaced(pat + s, pat, rep) == rep + replaced(s, pat, rep),
{
    assert((pat + s).take(pat.len() as int) =~= pat);
    assert((pat + s).skip(pat.len() as int) =~= s);
}

/// What `trimmed_end` leaves does not end with the trimmed character, and is
/// a prefix of the input.
pub proof fn lemma_trimmed_end_shape(s: Seq<char>, c: char)
    ensures
        trimmed_end(s, c).len() == 0 || trimmed_end(s, c).last() != c,
        trimmed_end(s, c).len() <= s.len(),
        trimmed_end(s, c) == s.take(trimmed_end(s, c).len() as int),
        forall|i: int| trimmed_end(s, c).len() <= i < s.len() ==> s[i] == c,
    decreases s.len(),
{
    if s.len() > 0 && s.last() == c {
        lemma_trimmed_end_shape(s.drop_last(), c);
        let t = trimmed_end(s, c);
        assert forall|i: int| t.len() <= i < s.len() implies s[i] == c by {
            if i < s.len() - 1 {
                assert(s.drop_last()[i] == s[i]);
            }
        }
        assert(s.drop_last().take(trimmed_end(s, c).len() as int) =~= s.take(
            trimmed_end(s, c).len() as int,
        ));
    } else {
        assert(s.take(s.len() as int) =~= s);
    }
}

/// The code points of the Unicode `White_Space` property, in order.
pub open spec fn white_space_code_points() -> Seq<u32> {
    seq![
        0x9, 0xa, 0xb, 0xc, 0xd, 0x20,
        0x85, 0xa0, 0x1680, 0x2000, 0x2001, 0x2002,
        0x2003, 0x2004, 0x2005, 0x2006, 0x2007, 0x2008,
        0x2009, 0x200a, 0x2028, 0x2029, 0x202f, 0x205f,
        0x3000
    ]
}

/// A character is white space exactly when its code point is one of the
/// 25 code points of the Unicode `White_Space` property.
pub proof fn law_white_space_code_points(c: char)
    ensures
        is_white_space(c) <==> white_space_code_points().contains(c as u32),
        is_white_space(c) ==> c as u32 <= 0x3000,
{
    let s = white_space_code_points();
    let v = c as u32;
    if is_white_space(c) {
        if v == 0x9 {
            assert(s[0] == v);
        } else if v == 0xa {
            assert(s[1] == v);
        } else if v == 0xb {
            assert(s[2] == v);
        } else if v == 0xc {
            assert(s[3] == v);
        } else if v == 0xd {
            assert(s[4] == v);
        } else if v == 0x20 {
            assert(s[5] == v);
        } else if v == 0x85 {
            assert(s[6] == v);
        } else if v == 0xa0 {
            assert(s[7] == v);
        } else if v == 0x1680 {
            assert(s[8] == v);
        } else if v == 0x2000 {
            assert(s[9] == v);
        } else if v == 0x2001 {
            assert(s[10] == v);
        } else if v == 0x2002 {
            assert(s[11] == v);
        } else if v == 0x2003 {
            assert(s[12] == v);
        } else if v == 0x2004 {
            assert(s[13] == v);
        } else if v == 0x2005 {
            assert(s[14] == v);
        } else if v == 0x2006 {
            assert(s[15] == v);
        } else if v == 0x2007 {
            assert(s[16] == v);
        } else if v == 0x2008 {
            assert(s[17] == v);
        } else if v == 0x2009 {
            assert(s[18] == v);
        } else if v == 0x200a {
            assert(s[19] == v);
        } else if v == 0x2028 {
            assert(s[20] == v);
        } else if v == 0x2029 {
            assert(s[21] == v);
        } else if v == 0x202f {
            assert(s[22] == v);
        } else if v == 0x205f {
            assert(s[23] == v);
        } else if v == 0x3000 {
            assert(s[24] == v);
        }
    }
    if s.contains(v) {
        let k = choose|k: int| 0 <= k < s.len() && s[k] == v;
        assert(is_white_space(c));
    }
}

/// A string is blank exactly when no character in it, wherever it stands,
/// is anything but white space: one character that is not white space makes
/// it not blank, and a string of white space only is blank.
pub proof fn law_blank_means_only_white_space(s: Seq<char>, i: int)
    requires
        0 <= i < s.len(),
    ensures
        !is_white_space(s[i]) ==> !is_blank(s),
        is_blank(s) ==> is_white_space(s[i]),
{
}

/// Blankness of a concatenation is blankness of both parts; the empty string
/// is blank; a single character is blank exactly when it is white space.
pub proof fn law_blank_concat(a: Seq<char>, b: Seq<char>, c: char)
    ensures
        is_blank(a + b) <==> (is_blank(a) && is_blank(b)),
        is_blank(Seq::<char>::empty()),
        is_blank(seq![c]) <==> is_white_space(c),
{
    let ab = a + b;
    if is_blank(a) && is_blank(b) {
        assert forall|i: int| 0 <= i < ab.len() implies #[trigger] is_white_space(ab[i]) by {
            if i < a.len() {
                assert(ab[i] == a[i]);
            } else {
                assert(ab[i] == b[i - a.len()]);
            }
        }
    }
    if is_blank(ab) {
        assert forall|i: int| 0 <= i < a.len() implies #[trigger] is_white_space(a[i]) by {
            assert(ab[i] == a[i]);
        }
        assert forall|i: int| 0 <= i < b.len() implies #[trigger] is_white_space(b[i]) by {
            assert(ab[i + a.len()] == b[i]);
        }
    }
    if is_white_space(c) {
        assert forall|i: int| 0 <= i < seq![c].len() implies #[trigger] is_white_space(seq![c][i]) by {
        }
    }
    if is_blank(seq![c]) {
        assert(is_white_space(seq![c][0]));
    }
}

/// `s` begins with `p` exactly when `s` has at least `p`'s length and agrees
/// with `p` on each of its positions; in particular `p + t` begins with `p`.
pub proof fn law_prefix_positions(s: Seq<char>, p: Seq<char>, t: Seq<char>)
    ensures
        has_prefix(s, p) <==> (p.len() <= s.len() && forall|i: int| 0 <= i < p.len() ==> s[i] == p[i]),
        has_prefix(p + t, p),
{
    if p.len() <= s.len() && forall|i: int| 0 <= i < p.len() ==> s[i] == p[i] {
        assert(s.take(p.len() as int) =~= p);
    }
    if has_prefix(s, p) {
        assert forall|i: int| 0 <= i < p.len() implies s[i] == p[i] by {
            assert(s.take(p.len() as int)[i] == s[i]);
        }
    }
    assert((p + t).take(p.len() as int) =~= p);
}

} // verus!

//! Character-sequence utilities the analysis is specified over: case
//! normalization, substring search, whitespace stripping, and decimal
//! rendering of line numbers.

use vstd::prelude::*;
use vstd::string::*;

verus! {

/// ASCII whitespace: space, tab, line feed, vertical tab, form feed,
/// carriage return. This ASCII reading is the intended model for the
/// analysis: every keyword and every normalization the rules depend on is
/// ASCII, so Unicode-only whitespace in scanned text is deliberately left
/// in place.
pub open spec fn is_ws(c: char) -> bool {
    c == ' ' || c == '\t' || c == '\n' || c == '\r' || c as u32 == 11 || c as u32 == 12
}

/// Exec counterpart of [`is_ws`].
pub fn is_ws_char(c: char) -> (b: bool)
    ensures
        b == is_ws(c),
{
    c == ' ' || c == '\t' || c == '\n' || c == '\r' || c as u32 == 11 || c as u32 == 12
}

/// ASCII lowercasing of one character; anything but `'A'..='Z'` is kept.
/// This ASCII reading is the intended model for the case-insensitive rule
/// matching: all rule keywords are ASCII, and non-ASCII letters in scanned
/// text are deliberately compared as they stand.
pub open spec fn lower_char(c: char) -> char {
    if 65 <= c as u32 && c as u32 <= 90 {
        (c as u32 + 32) as char
    } else {
        c
    }
}

/// Exec counterpart of [`lower_char`].
pub fn to_lower_char(c: char) -> (r: char)
    ensures
        r == lower_char(c),
{
    let u = c as u32;
    if 65 <= u && u <= 90 {
        ((u + 32) as u8) as char
    } else {
        c
    }
}

/// ASCII lowercasing of a character sequence.
pub open spec fn lower_seq(s: Seq<char>) -> Seq<char> {
    Seq::new(s.len(), |i: int| lower_char(s[i]))
}

/// Returns the ASCII-lowercased copy of `v`.
pub fn lower_chars(v: &Vec<char>) -> (r: Vec<char>)
    ensures
        r@ == lower_seq(v@),
{
    let mut r: Vec<char> = Vec::new();
    let mut i: usize = 0;
    while i < v.len()
        invariant
            i <= v@.len(),
            r@.len() == i,
            forall|j: int| 0 <= j < i ==> r@[j] == lower_char(v@[j]),
        decreases v@.len() - i,
    {
        r.push(to_lower_char(v[i]));
        i += 1;
    }
    proof {
        assert(r@ =~= lower_seq(v@));
    }
    r
}

/// The characters of `s`, in order.
pub fn chars_of(s: &str) -> (v: Vec<char>)
    ensures
        v@ == s@,
{
    let n = s.unicode_len();
    let mut v: Vec<char> = Vec::new();
    let mut i: usize = 0;
    while i < n
        invariant
            i <= n,
            n as nat == s@.len(),
            v@ == s@.take(i as int),
        decreases n - i,
    {
        let c = s.get_char(i);
        v.push(c);
        proof {
            assert(s@.take(i as int).push(s@[i as int]) =~= s@.take(i + 1 as int));
        }
        i += 1;
    }
    proof {
        assert(s@.take(n as int) =~= s@);
    }
    v
}

/// `needle` occurs in `hay` starting at position `i`.
pub open spec fn sub_at(hay: Seq<char>, needle: Seq<char>, i: int) -> bool {
    0 <= i && i + needle.len() <= hay.len() && hay.subrange(i, i + needle.len()) == needle
}

/// `needle` occurs somewhere in `hay` as a contiguous run.
pub open spec fn has_sub(hay: Seq<char>, needle: Seq<char>) -> bool {
    exists|i: int| sub_at(hay, needle, i)
}

/// Compares `hay[at .. at + needle.len()]` with `needle`.
fn match_at(hay: &Vec<char>, needle: &Vec<char>, at: usize) -> (b: bool)
    requires
        at + needle@.len() <= hay@.len(),
    ensures
        b == sub_at(hay@, needle@, at as int),
{
    let hlen = hay.len();
    let mut j: usize = 0;
    while j < needle.len()
        invariant
            at + needle@.len() <= hay@.len(),
            hay@.len() == hlen,
            j <= needle@.len(),
            forall|k: int| 0 <= k < j ==> hay@[at + k] == needle@[k],
        decreases needle@.len() - j,
    {
        if hay[at + j] != needle[j] {
            proof {
                assert(hay@.subrange(at as int, at + needle@.len())[j as int] == hay@[at + j]);
            }
            return false;
        }
        j += 1;
    }
    proof {
        assert(hay@.subrange(at as int, at + needle@.len()) =~= needle@);
    }
    true
}

/// Substring search; decides [`has_sub`] on the views.
pub fn contains_sub(hay: &Vec<char>, needle: &Vec<char>) -> (b: bool)
    ensures
        b == has_sub(hay@, needle@),
{
    if needle.len() > hay.len() {
        proof {
            assert forall|i: int| !sub_at(hay@, needle@, i) by {}
        }
        return false;
    }
    if needle.len() == 0 {
        proof {
            assert(hay@.subrange(0, 0) =~= needle@);
            assert(sub_at(hay@, needle@, 0));
        }
        return true;
    }
    let hlen = hay.len();
    let end = hay.len() - needle.len();
    let mut i: usize = 0;
    while i <= end
        invariant
            1 <= needle@.len() <= hay@.len(),
            hay@.len() == hlen,
            end == hay@.len() - needle@.len(),
            i <= end + 1,
            forall|k: int| 0 <= k < i ==> !sub_at(hay@, needle@, k),
        decreases end + 1 - i,
    {
        if match_at(hay, needle, i) {
            proof {
                assert(sub_at(hay@, needle@, i as int));
            }
            return true;
        }
        i += 1;
    }
    proof {
        assert forall|k: int| !sub_at(hay@, needle@, k) by {
            if k > end as int {
                assert(k + needle@.len() > hay@.len());
            }
        }
    }
    false
}

/// Substring search against a literal needle.
pub fn contains_lit(hay: &Vec<char>, lit: &str) -> (b: bool)
    ensures
        b == has_sub(hay@, lit@),
{
    let needle = chars_of(lit);
    contains_sub(hay, &needle)
}

/// Whether two string slices hold the same characters.
pub fn str_eq(a: &str, b: &str) -> (r: bool)
    ensures
        r == (a@ == b@),
{
    let va = chars_of(a);
    let vb = chars_of(b);
    if va.len() != vb.len() {
        return false;
    }
    let mut i: usize = 0;
    while i < va.len()
        invariant
            va@ == a@,
            vb@ == b@,
            va@.len() == vb@.len(),
            i <= va@.len(),
            forall|j: int| 0 <= j < i ==> va@[j] == vb@[j],
        decreases va@.len() - i,
    {
        if va[i] != vb[i] {
            return false;
        }
        i += 1;
    }
    proof {
        assert(a@ =~= b@);
    }
    true
}

/// `s` with every whitespace character removed, in order.
pub open spec fn strip_ws(s: Seq<char>) -> Seq<char>
    decreases s.len(),
{
    if s.len() == 0 {
        Seq::empty()
    } else if is_ws(s.last()) {
        strip_ws(s.drop_last())
    } else {
        strip_ws(s.drop_last()).push(s.last())
    }
}

/// Returns the whitespace-stripped copy of `v`.
pub fn strip_ws_chars(v: &Vec<char>) -> (r: Vec<char>)
    ensures
        r@ == strip_ws(v@),
{
    let mut r: Vec<char> = Vec::new();
    let mut i: usize = 0;
    while i < v.len()
        invariant
            i <= v@.len(),
            r@ == strip_ws(v@.take(i as int)),
        decreases v@.len() - i,
    {
        proof {
            assert(v@.take(i + 1 as int).drop_last() =~= v@.take(i as int));
            assert(v@.take(i + 1 as int).last() == v@[i as int]);
        }
        if !is_ws_char(v[i]) {
            r.push(v[i]);
        }
        i += 1;
    }
    proof {
        assert(v@.take(v@.len() as int) =~= v@);
    }
    r
}

/// The first `n` elements of `s`, or all of `s` when it is shorter.
pub open spec fn prefix_of(s: Seq<char>, n: int) -> Seq<char> {
    if s.len() <= n {
        s
    } else {
        s.take(n)
    }
}

/// Keeps only the first `n` characters of `v`.
pub fn prefix_chars(v: &mut Vec<char>, n: usize)
    ensures
        final(v)@ == prefix_of(old(v)@, n as int),
{
    if v.len() > n {
        v.truncate(n);
        proof {
            assert(v@ =~= prefix_of(old(v)@, n as int));
        }
    }
}

/// The decimal digit character for `d`.
pub open spec fn digit_char(d: int) -> char {
    ((48 + d) as u32) as char
}

/// The decimal rendering of `n`, most significant digit first.
pub open spec fn dec_str(n: int) -> Seq<char>
    decreases n,
{
    if n < 10 {
        seq![digit_char(n)]
    } else {
        dec_str(n / 10).push(digit_char(n % 10))
    }
}

/// Appends the digit character for `d` to `s`.
fn push_digit(s: &mut String, d: usize)
    requires
        d < 10,
    ensures
        final(s)@ == old(s)@.push(digit_char(d as int)),
{
    proof {
        reveal_strlit("0");
        reveal_strlit("1");
        reveal_strlit("2");
        reveal_strlit("3");
        reveal_strlit("4");
        reveal_strlit("5");
        reveal_strlit("6");
        reveal_strlit("7");
        reveal_strlit("8");
        reveal_strlit("9");
    }
    match d {
        0 => s.append("0"),
        1 => s.append("1"),
        2 => s.append("2"),
        3 => s.append("3"),
        4 => s.append("4"),
        5 => s.append("5"),
        6 => s.append("6"),
        7 => s.append("7"),
        8 => s.append("8"),
        _ => s.append("9"),
    }
    proof {
        assert(s@ =~= old(s)@.push(digit_char(d as int)));
    }
}

/// The reversed digit list, as digit characters.
spec fn digits_rev(ds: Seq<u8>) -> Seq<char> {
    Seq::new(ds.len(), |i: int| digit_char(ds[ds.len() - 1 - i] as int))
}

/// Pushing a digit prepends its character to the reversed rendering.
proof fn lemma_digits_rev_push(ds: Seq<u8>, d: u8)
    ensures
        digits_rev(ds.push(d)) == seq![digit_char(d as int)] + digits_rev(ds),
{
    let l = ds.push(d);
    assert forall|i: int| 0 <= i < l.len() implies digits_rev(l)[i] == (seq![
        digit_char(d as int),
    ] + digits_rev(ds))[i] by {
        if i == 0 {
            assert(l[l.len() - 1] == d);
        } else {
            assert(l[l.len() - 1 - i] == ds[ds.len() - 1 - (i - 1)]);
        }
    }
    assert(digits_rev(l) =~= seq![digit_char(d as int)] + digits_rev(ds));
}

/// Renders `n` in decimal, as `usize::to_string` would.
pub fn usize_to_string(n: usize) -> (s: String)
    ensures
        s@ == dec_str(n as int),
{
    let mut digits: Vec<u8> = Vec::new();
    let mut m = n;
    while m >= 10
        invariant
            dec_str(n as int) == dec_str(m as int) + digits_rev(digits@),
            forall|k: int| 0 <= k < digits@.len() ==> digits@[k] < 10,
        decreases m,
    {
        let d = (m % 10) as u8;
        let ghost pre = digits@;
        digits.push(d);
        proof {
            lemma_digits_rev_push(pre, d);
            assert(dec_str(m as int) == dec_str(m as int / 10).push(digit_char(m as int % 10)));
            assert(dec_str(m as int / 10).push(digit_char(d as int)) + digits_rev(pre)
                =~= dec_str(m as int / 10) + digits_rev(digits@));
        }
        m = m / 10;
    }
    let ghost pre = digits@;
    digits.push(m as u8);
    proof {
        lemma_digits_rev_push(pre, m as u8);
        assert(dec_str(m as int) == seq![digit_char(m as int)]);
        assert(dec_str(m as int) + digits_rev(pre) =~= digits_rev(digits@));
    }
    let mut s = String::new();
    let total = digits.len();
    let mut j: usize = 0;
    while j < total
        invariant
            total == digits@.len(),
            j <= total,
            dec_str(n as int) == digits_rev(digits@),
            s@ == digits_rev(digits@).take(j as int),
            forall|k: int| 0 <= k < digits@.len() ==> digits@[k] < 10,
        decreases total - j,
    {
        push_digit(&mut s, digits[total - 1 - j] as usize);
        proof {
            assert(digits_rev(digits@).take(j + 1 as int) =~= digits_rev(digits@).take(
                j as int,
            ).push(digit_char(digits@[digits@.len() - 1 - j] as int)));
        }
        j += 1;
    }
    proof {
        assert(digits_rev(digits@).take(total as int) =~= digits_rev(digits@));
    }
    s
}

} // verus!

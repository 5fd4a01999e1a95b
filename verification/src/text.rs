use vstd::prelude::*;

use crate::strutil::{chars_to_string, spec_div_trunc, spec_half, str_to_chars};
use crate::color::{parse_color, spec_color_of_hex, Color};
use crate::error::Error;
use crate::template::{TextData, TransformOrigin};

verus! {

// ---------------------------------------------------------------------------
// Literal replacement.
// ---------------------------------------------------------------------------

/// Non-overlapping left-to-right replacement of every occurrence of `p` by
/// `r` in `s`.
pub open spec fn spec_replaced(s: Seq<char>, p: Seq<char>, r: Seq<char>) -> Seq<char>
    recommends
        p.len() > 0,
    decreases s.len(),
{
    if p.len() == 0 || s.len() < p.len() {
        s
    } else if s.take(p.len() as int) == p {
        r + spec_replaced(s.skip(p.len() as int), p, r)
    } else {
        seq![s[0]] + spec_replaced(s.skip(1), p, r)
    }
}

pub open spec fn contains_at(s: Seq<char>, p: Seq<char>, i: int) -> bool {
    0 <= i && i + p.len() <= s.len() && s.subrange(i, i + p.len() as int) == p
}

/// Whether `p` occurs anywhere in `s`.
pub open spec fn contains_seq(s: Seq<char>, p: Seq<char>) -> bool {
    exists|i: int| contains_at(s, p, i)
}

/// Replacement is the identity when the pattern does not occur.
pub proof fn lemma_replaced_id(s: Seq<char>, p: Seq<char>, r: Seq<char>)
    requires
        p.len() > 0,
        !contains_seq(s, p),
    ensures
        spec_replaced(s, p, r) == s,
    decreases s.len(),
{
    if s.len() < p.len() {
    } else if s.take(p.len() as int) == p {
        assert(s.subrange(0, p.len() as int) =~= s.take(p.len() as int));
        assert(contains_at(s, p, 0));
    } else {
        assert forall|i: int| !contains_at(s.skip(1), p, i) by {
            if contains_at(s.skip(1), p, i) {
                assert(s.subrange(i + 1, i + 1 + p.len() as int) =~= s.skip(1).subrange(i, i + p.len() as int));
                assert(contains_at(s, p, i + 1));
            }
        }
        lemma_replaced_id(s.skip(1), p, r);
        assert(seq![s[0]] + s.skip(1) =~= s);
    }
}

/// Appends every character of `src` to `out`.
fn push_all(out: &mut Vec<char>, src: &Vec<char>)
    ensures
        final(out)@ == old(out)@ + src@,
{
    let mut j: usize = 0;
    while j < src.len()
        invariant
            j <= src@.len(),
            out@ == old(out)@ + src@.take(j as int),
        decreases src@.len() - j,
    {
        out.push(src[j]);
        proof {
            assert(out@ =~= old(out)@ + src@.take(j as int + 1));
        }
        j += 1;
    }
    proof {
        assert(old(out)@ + src@.take(src@.len() as int) =~= old(out)@ + src@);
    }
}

/// Whether `pat` occurs in `s` at exactly position `i`.
fn match_at(s: &Vec<char>, i: usize, pat: &Vec<char>) -> (r: bool)
    requires
        i <= s@.len(),
        pat@.len() > 0,
    ensures
        r == (i + pat@.len() <= s@.len() && s@.skip(i as int).take(pat@.len() as int) == pat@),
{
    if pat.len() > s.len() - i {
        return false;
    }
    let mut j: usize = 0;
    while j < pat.len()
        invariant
            j <= pat@.len(),
            i + pat@.len() <= s@.len(),
            s@.len() <= usize::MAX,
            forall|k: int| 0 <= k < j ==> s@[i + k] == pat@[k],
        decreases pat@.len() - j,
    {
        if s[i + j] != pat[j] {
            proof {
                assert(s@.skip(i as int).take(pat@.len() as int)[j as int] == s@[i + j]);
            }
            return false;
        }
        j += 1;
    }
    proof {
        assert(s@.skip(i as int).take(pat@.len() as int) =~= pat@);
    }
    true
}

/// Replaces every occurrence of `pat` in `s` by `rep`, left to right,
/// without rescanning replaced text.
pub fn replace_all(s: &Vec<char>, pat: &Vec<char>, rep: &Vec<char>) -> (out: Vec<char>)
    requires
        pat@.len() > 0,
    ensures
        out@ == spec_replaced(s@, pat@, rep@),
{
    let mut out: Vec<char> = Vec::new();
    let mut i: usize = 0;
    proof {
        assert(s@.skip(0) =~= s@);
        assert(Seq::<char>::empty() + spec_replaced(s@, pat@, rep@) =~= spec_replaced(s@, pat@, rep@));
    }
    while i < s.len()
        invariant
            i <= s@.len(),
            pat@.len() > 0,
            spec_replaced(s@, pat@, rep@) == out@ + spec_replaced(s@.skip(i as int), pat@, rep@),
        decreases s@.len() - i,
    {
        if match_at(s, i, pat) {
            push_all(&mut out, rep);
            proof {
                assert(s@.skip(i as int).skip(pat@.len() as int) =~= s@.skip(i as int + pat@.len() as int));
                assert(spec_replaced(s@, pat@, rep@) =~= out@ + spec_replaced(
                    s@.skip(i as int + pat@.len() as int),
                    pat@,
                    rep@,
                ));
            }
            i += pat.len();
        } else {
            out.push(s[i]);
            proof {
                let suf = s@.skip(i as int);
                assert(suf.skip(1) =~= s@.skip(i as int + 1));
                if suf.len() < pat@.len() {
                    assert(spec_replaced(suf, pat@, rep@) == suf);
                    assert(suf =~= seq![s@[i as int]] + s@.skip(i as int + 1));
                    assert(spec_replaced(s@.skip(i as int + 1), pat@, rep@) == s@.skip(i as int + 1));
                } else {
                    assert(suf.take(pat@.len() as int) != pat@);
                }
                assert(spec_replaced(s@, pat@, rep@) =~= out@ + spec_replaced(s@.skip(i as int + 1), pat@, rep@));
            }
            i += 1;
        }
    }
    proof {
        assert(s@.skip(s@.len() as int) =~= Seq::<char>::empty());
        assert(spec_replaced(Seq::<char>::empty(), pat@, rep@) == Seq::<char>::empty());
        assert(out@ + Seq::<char>::empty() =~= out@);
    }
    out
}

// ---------------------------------------------------------------------------
// Numbered placeholders: `$txtN[default]`.
// ---------------------------------------------------------------------------

pub open spec fn spec_is_digit(c: char) -> bool {
    '0' <= c && c <= '9'
}

/// The length of the digit run starting at `j`.
pub open spec fn digit_run(s: Seq<char>, j: int) -> int
    decreases s.len() - j,
{
    if j < 0 || j >= s.len() || !spec_is_digit(s[j]) {
        0
    } else {
        1 + digit_run(s, j + 1)
    }
}

/// The first `]` at or after `j`, unless a line break or the end of the
/// text comes first.
pub open spec fn find_close(s: Seq<char>, j: int) -> Option<int>
    decreases s.len() - j,
{
    if j < 0 || j >= s.len() {
        None
    } else if s[j] == ']' {
        Some(j)
    } else if s[j] == '\n' {
        None
    } else {
        find_close(s, j + 1)
    }
}

/// The value of the `k` digits starting at `j`.
pub open spec fn digits_val(s: Seq<char>, j: int, k: int) -> int
    decreases k,
{
    if k <= 0 {
        0
    } else {
        digits_val(s, j, k - 1) * 10 + (s[j + k - 1] as int - '0' as int)
    }
}

proof fn lemma_digit_run_bounds(s: Seq<char>, j: int)
    requires
        0 <= j <= s.len(),
    ensures
        0 <= digit_run(s, j),
        j + digit_run(s, j) <= s.len(),
        forall|t: int| j <= t < j + digit_run(s, j) ==> spec_is_digit(#[trigger] s[t]),
    decreases s.len() - j,
{
    if j < s.len() && spec_is_digit(s[j]) {
        lemma_digit_run_bounds(s, j + 1);
    }
}

proof fn lemma_find_close_bounds(s: Seq<char>, j: int)
    requires
        0 <= j,
    ensures
        match find_close(s, j) {
            Some(rb) => j <= rb < s.len() && s[rb] == ']',
            None => true,
        },
    decreases s.len() - j,
{
    if 0 <= j && j < s.len() && s[j] != ']' && s[j] != '\n' {
        lemma_find_close_bounds(s, j + 1);
    }
}

/// The placeholder starting at position `i`, if any: its number, its
/// bracketed default text, and its total length.  A placeholder is `$txt`,
/// a digit run led by 1–9, and a bracketed default closed on the same line.
pub open spec fn txt_match_at(s: Seq<char>, i: int) -> Option<(int, Seq<char>, int)> {
    if i < 0 || i + 4 > s.len() || s.subrange(i, i + 4) != "$txt"@ {
        None
    } else {
        let dl = digit_run(s, i + 4);
        if dl == 0 || s[i + 4] == '0' {
            None
        } else if i + 4 + dl >= s.len() || s[i + 4 + dl] != '[' {
            None
        } else {
            match find_close(s, i + 4 + dl + 1) {
                None => None,
                Some(rb) => Some((digits_val(s, i + 4, dl), s.subrange(i + 4 + dl + 1, rb), rb + 1 - i)),
            }
        }
    }
}

/// The text from position `i` on with every placeholder substituted once,
/// left to right: the number picks an entry of `list` (1-based), numbers
/// past the end fall back to the bracketed default text.
pub open spec fn spec_txt_from(s: Seq<char>, i: int, list: Seq<Seq<char>>) -> Seq<char>
    decreases s.len() - i,
    via spec_txt_from_decreases
{
    if i < 0 || i >= s.len() {
        Seq::empty()
    } else {
        match txt_match_at(s, i) {
            Some(m) => (if 1 <= m.0 <= list.len() {
                list[m.0 - 1]
            } else {
                m.1
            }) + spec_txt_from(s, i + m.2, list),
            None => seq![s[i]] + spec_txt_from(s, i + 1, list),
        }
    }
}

#[via_fn]
proof fn spec_txt_from_decreases(s: Seq<char>, i: int, list: Seq<Seq<char>>) {
    if 0 <= i && i < s.len() {
        match txt_match_at(s, i) {
            Some(m) => {
                lemma_digit_run_bounds(s, i + 4);
                lemma_find_close_bounds(s, i + 4 + digit_run(s, i + 4) + 1);
            },
            None => {
            },
        }
    }
}

/// The whole text with every placeholder substituted once.
pub open spec fn spec_txt_pass(s: Seq<char>, list: Seq<Seq<char>>) -> Seq<char> {
    spec_txt_from(s, 0, list)
}

/// The placeholder pass is the identity on text without placeholders.
proof fn lemma_txt_from_id(s: Seq<char>, i: int, list: Seq<Seq<char>>)
    requires
        0 <= i <= s.len(),
        forall|j: int| txt_match_at(s, j) is None,
    ensures
        spec_txt_from(s, i, list) == s.skip(i),
    decreases s.len() - i,
{
    if i >= s.len() {
        assert(s.skip(i) =~= Seq::<char>::empty());
    } else {
        lemma_txt_from_id(s, i + 1, list);
        assert(txt_match_at(s, i) is None);
        assert(seq![s[i]] + s.skip(i + 1) =~= s.skip(i));
        assert(spec_txt_from(s, i, list) == seq![s[i]] + spec_txt_from(s, i + 1, list));
    }
}


pub open spec fn pow10(k: int) -> int
    decreases k,
{
    if k <= 0 {
        1
    } else {
        10 * pow10(k - 1)
    }
}

pub proof fn lemma_digits_val_upper(s: Seq<char>, j: int, k: int)
    requires
        0 <= k,
        0 <= j,
        j + k <= s.len(),
        forall|t: int| j <= t < j + k ==> spec_is_digit(#[trigger] s[t]),
    ensures
        0 <= digits_val(s, j, k) < pow10(k),
    decreases k,
{
    if k > 0 {
        lemma_digits_val_upper(s, j, k - 1);
    }
}

pub proof fn lemma_digits_val_lower(s: Seq<char>, j: int, k: int)
    requires
        1 <= k,
        0 <= j,
        j + k <= s.len(),
        forall|t: int| j <= t < j + k ==> spec_is_digit(#[trigger] s[t]),
        s[j] != '0',
    ensures
        digits_val(s, j, k) >= pow10(k - 1),
    decreases k,
{
    if k == 1 {
        assert(spec_is_digit(s[j]));
        assert(digits_val(s, j, 0) == 0);
        assert(digits_val(s, j, 1) == s[j] as int - '0' as int);
        assert(s[j] as int - '0' as int >= 1);
    } else {
        lemma_digits_val_lower(s, j, k - 1);
    }
}

pub proof fn lemma_pow10_20()
    ensures
        pow10(20) == 100000000000000000000,
{
    assert(pow10(0) == 1);
    assert(pow10(1) == 10);
    assert(pow10(2) == 100);
    assert(pow10(3) == 1000);
    assert(pow10(4) == 10000);
    assert(pow10(5) == 100000);
    assert(pow10(6) == 1000000);
    assert(pow10(7) == 10000000);
    assert(pow10(8) == 100000000);
    assert(pow10(9) == 1000000000);
    assert(pow10(10) == 10000000000);
    assert(pow10(11) == 100000000000);
    assert(pow10(12) == 1000000000000);
    assert(pow10(13) == 10000000000000);
    assert(pow10(14) == 100000000000000);
    assert(pow10(15) == 1000000000000000);
    assert(pow10(16) == 10000000000000000);
    assert(pow10(17) == 100000000000000000);
    assert(pow10(18) == 1000000000000000000);
    assert(pow10(19) == 10000000000000000000);
}

pub proof fn lemma_pow10_mono(a: int, b: int)
    requires
        0 <= a <= b,
    ensures
        pow10(a) <= pow10(b),
        pow10(a) >= 1,
    decreases b,
{
    if a < b {
        lemma_pow10_mono(a, b - 1);
    } else if a > 0 {
        lemma_pow10_mono(a - 1, a - 1);
    }
}

/// The placeholder at position `i`, if any, reported as its digit-run
/// length and the position of its closing bracket.
fn txt_match_here(s: &Vec<char>, i: usize) -> (r: Option<(usize, usize)>)
    requires
        i < s@.len(),
    ensures
        match r {
            Some(m) => {
                &&& txt_match_at(s@, i as int) matches Some(sm)
                &&& m.0 == digit_run(s@, i as int + 4)
                &&& find_close(s@, i as int + 4 + m.0 + 1) == Some(m.1 as int)
                &&& i + 4 + m.0 < s@.len()
                &&& i < m.1 + 1 <= s@.len()
                &&& sm.0 == digits_val(s@, i as int + 4, m.0 as int)
                &&& sm.1 == s@.subrange(i as int + 4 + m.0 + 1, m.1 as int)
                &&& sm.2 == m.1 + 1 - i
            },
            None => txt_match_at(s@, i as int) is None,
        },
{
    proof {
        reveal_strlit("$txt");
        assert("$txt"@ =~= seq!['$', 't', 'x', 't']);
    }
    if s.len() - i < 4 {
        return None;
    }
    if s[i] != '$' || s[i + 1] != 't' || s[i + 2] != 'x' || s[i + 3] != 't' {
        proof {
            assert(s@.subrange(i as int, i as int + 4) != "$txt"@) by {
                if s@.subrange(i as int, i as int + 4) == "$txt"@ {
                    assert(s@.subrange(i as int, i as int + 4)[0] == s@[i as int]);
                    assert(s@.subrange(i as int, i as int + 4)[1] == s@[i as int + 1]);
                    assert(s@.subrange(i as int, i as int + 4)[2] == s@[i as int + 2]);
                    assert(s@.subrange(i as int, i as int + 4)[3] == s@[i as int + 3]);
                }
            }
        }
        return None;
    }
    proof {
        assert(s@.subrange(i as int, i as int + 4) =~= "$txt"@);
    }
    let mut dl: usize = 0;
    loop
        invariant
            i + 4 + dl <= s@.len(),
            s@.len() <= usize::MAX,
            digit_run(s@, i as int + 4) == dl + digit_run(s@, i as int + 4 + dl),
        ensures
            dl == digit_run(s@, i as int + 4),
            i + 4 + dl <= s@.len(),
            i + 4 + dl == s@.len() || !spec_is_digit(s@[i as int + 4 + dl]),
        decreases s@.len() - (i + 4 + dl),
    {
        if i + 4 + dl >= s.len() {
            break ;
        }
        let c = s[i + 4 + dl];
        if !('0' <= c && c <= '9') {
            break ;
        }
        dl += 1;
    }
    if dl == 0 || s[i + 4] == '0' {
        return None;
    }
    if i + 4 + dl >= s.len() {
        return None;
    }
    if s[i + 4 + dl] != '[' {
        return None;
    }
    let mut j: usize = i + 4 + dl + 1;
    loop
        invariant
            i + 4 + dl + 1 <= j <= s@.len(),
            s@.len() <= usize::MAX,
            i + 4 + dl < s@.len(),
            s@.subrange(i as int, i as int + 4) == "$txt"@,
            dl == digit_run(s@, i as int + 4),
            dl >= 1,
            s@[i as int + 4] != '0',
            s@[i as int + 4 + dl] == '[',
            find_close(s@, i as int + 4 + dl + 1) == find_close(s@, j as int),
        decreases s@.len() - j,
    {
        if j >= s.len() {
            return None;
        }
        let c = s[j];
        if c == ']' {
            return Some((dl, j));
        }
        if c == '\n' {
            return None;
        }
        j += 1;
    }
}

/// Resolves a placeholder's number against the extra-text list: the entry
/// it picks (zero-based), or `None` when the number is past the end.
fn txt_pick_index(s: &Vec<char>, start: usize, dl: usize, list_len: usize) -> (r: Option<usize>)
    requires
        start + dl <= s@.len(),
        1 <= dl,
        forall|t: int| start <= t < start + dl ==> spec_is_digit(#[trigger] s@[t]),
        s@[start as int] != '0',
    ensures
        match r {
            Some(idx) => 1 <= digits_val(s@, start as int, dl as int) <= list_len && idx as int
                == digits_val(s@, start as int, dl as int) - 1,
            None => digits_val(s@, start as int, dl as int) > list_len,
        },
{
    proof {
        lemma_digits_val_lower(s@, start as int, dl as int);
        lemma_digits_val_upper(s@, start as int, dl as int);
        lemma_pow10_mono(dl as int - 1, dl as int);
    }
    if dl > 20 {
        proof {
            lemma_pow10_20();
            lemma_pow10_mono(20, dl as int - 1);
        }
        return None;
    }
    let mut acc: u128 = 0;
    let mut k: usize = 0;
    let n = s.len();
    while k < dl
        invariant
            k <= dl <= 20,
            n == s@.len(),
            start + dl <= n,
            forall|t: int| start <= t < start + dl ==> spec_is_digit(#[trigger] s@[t]),
            acc == digits_val(s@, start as int, k as int),
            acc < pow10(k as int),
        decreases dl - k,
    {
        proof {
            lemma_pow10_mono(k as int + 1, 20);
            lemma_pow10_20();
        }
        let c = s[start + k];
        let d: u32 = (c as u32) - ('0' as u32);
        acc = acc * 10 + d as u128;
        k += 1;
    }
    proof {
        lemma_pow10_mono(0, dl as int - 1);
    }
    if acc <= list_len as u128 {
        Some((acc - 1) as usize)
    } else {
        None
    }
}

pub open spec fn text_list_view(list: Seq<String>) -> Seq<Seq<char>> {
    list.map_values(|t: String| t@)
}

/// Substitutes every `$txtN[default]` placeholder once, left to right: the
/// number picks an entry of the extra-text list (1-based); a number past
/// the end of the list leaves the bracketed default text.
#[verifier::rlimit(100)]
#[verifier::spinoff_prover]
pub fn apply_txt(s: &Vec<char>, list: &Vec<String>) -> (out: Vec<char>)
    ensures
        out@ == spec_txt_pass(s@, text_list_view(list@)),
{
    let ghost lview = text_list_view(list@);
    let mut out: Vec<char> = Vec::new();
    let mut i: usize = 0;
    proof {
        assert(Seq::<char>::empty() + spec_txt_from(s@, 0, lview) =~= spec_txt_from(s@, 0, lview));
    }
    while i < s.len()
        invariant
            i <= s@.len(),
            lview == text_list_view(list@),
            spec_txt_from(s@, 0, lview) == out@ + spec_txt_from(s@, i as int, lview),
        decreases s@.len() - i,
    {
        match txt_match_here(s, i) {
            Some((dl, rb)) => {
                proof {
                    lemma_digit_run_bounds(s@, i as int + 4);
                    lemma_find_close_bounds(s@, i as int + 4 + dl + 1);
                }
                let ghost m = txt_match_at(s@, i as int).unwrap();
                let ghost before = out@;
                let start = i + 4;
                match txt_pick_index(s, start, dl, list.len()) {
                    Some(idx) => {
                        let entry = str_to_chars(list[idx].as_str());
                        push_all(&mut out, &entry);
                        proof {
                            assert(out@ =~= before + lview[m.0 - 1]);
                        }
                    },
                    None => {
                        let mut t: usize = start + dl + 1;
                        proof {
                            assert(before + s@.subrange(start + dl + 1, t as int) =~= before);
                        }
                        while t < rb
                            invariant
                                start + dl + 1 <= t <= rb,
                                rb < s@.len(),
                                start == i + 4,
                                out@ == before + s@.subrange(start + dl + 1, t as int),
                            decreases rb - t,
                        {
                            out.push(s[t]);
                            proof {
                                assert(out@ =~= before + s@.subrange(start + dl + 1, t as int + 1));
                            }
                            t += 1;
                        }
                        proof {
                            assert(out@ =~= before + m.1);
                        }
                    },
                }
                proof {
                    assert(spec_txt_from(s@, i as int, lview) == (if 1 <= m.0 <= lview.len() {
                        lview[m.0 - 1]
                    } else {
                        m.1
                    }) + spec_txt_from(s@, i as int + m.2, lview));
                    assert(spec_txt_from(s@, 0, lview) =~= out@ + spec_txt_from(s@, rb + 1, lview));
                }
                i = rb + 1;
            },
            None => {
                out.push(s[i]);
                proof {
                    assert(spec_txt_from(s@, 0, lview) =~= out@ + spec_txt_from(s@, i as int + 1, lview));
                }
                i += 1;
            },
        }
    }
    proof {
        assert(spec_txt_from(s@, s@.len() as int, lview) =~= Seq::<char>::empty());
        assert(out@ + Seq::<char>::empty() =~= out@);
    }
    out
}

/// The full substitution a text layer performs on its declared text: the
/// literal role placeholders `$from`, `$to` and `$group`, in that order,
/// then the numbered `$txtN[default]` placeholders, each at most once.
pub open spec fn spec_substituted(
    text: Seq<char>,
    from: Seq<char>,
    to: Seq<char>,
    group: Seq<char>,
    list: Seq<Seq<char>>,
) -> Seq<char> {
    spec_txt_pass(
        spec_replaced(spec_replaced(spec_replaced(text, "$from"@, from), "$to"@, to), "$group"@, group),
        list,
    )
}

/// Performs the whole substitution for one text layer.
pub fn substitute(text: &str, data: &TextData) -> (r: String)
    ensures
        r@ == spec_substituted(text@, data.from@, data.to@, data.group@, text_list_view(data.text_list@)),
{
    proof {
        reveal_strlit("$from");
        reveal_strlit("$to");
        reveal_strlit("$group");
    }
    let chars = str_to_chars(text);
    let pat_from = str_to_chars("$from");
    let rep_from = str_to_chars(data.from.as_str());
    let s1 = replace_all(&chars, &pat_from, &rep_from);
    let pat_to = str_to_chars("$to");
    let rep_to = str_to_chars(data.to.as_str());
    let s2 = replace_all(&s1, &pat_to, &rep_to);
    let pat_group = str_to_chars("$group");
    let rep_group = str_to_chars(data.group.as_str());
    let s3 = replace_all(&s2, &pat_group, &rep_group);
    let out = apply_txt(&s3, &data.text_list);
    chars_to_string(&out)
}

/// Substitution is the identity on text without placeholders: when the text
/// holds no `$from`, `$to` or `$group` occurrence and no `$txtN[default]`
/// placeholder, it comes back unchanged, whatever the bound data.
pub proof fn lemma_substitute_identity(
    text: Seq<char>,
    from: Seq<char>,
    to: Seq<char>,
    group: Seq<char>,
    list: Seq<Seq<char>>,
)
    requires
        !contains_seq(text, "$from"@),
        !contains_seq(text, "$to"@),
        !contains_seq(text, "$group"@),
        forall|i: int| txt_match_at(text, i) is None,
    ensures
        spec_substituted(text, from, to, group, list) == text,
{
    reveal_strlit("$from");
    reveal_strlit("$to");
    reveal_strlit("$group");
    lemma_replaced_id(text, "$from"@, from);
    lemma_replaced_id(text, "$to"@, to);
    lemma_replaced_id(text, "$group"@, group);
    lemma_txt_from_id(text, 0, list);
    assert(text.skip(0) =~= text);
}


// ---------------------------------------------------------------------------
// Text templates, builders and models.
// ---------------------------------------------------------------------------

/// Where a text layer sits: an anchor point, or an anchor point with an
/// explicit layout width.
#[derive(Debug, Clone)]
pub enum TextPos {
    XY(i32, i32),
    XYW(i32, i32, i32),
}

#[derive(Debug, Clone, Copy, PartialEq, Eq, Structural)]
pub enum TextAlign {
    LEFT,
    RIGHT,
    CENTER,
}

#[allow(non_camel_case_types)]
#[derive(Debug, Clone, Copy, PartialEq, Eq, Structural)]
pub enum TextStyle {
    PLAIN,
    BOLD,
    ITALIC,
    BOLD_ITALIC,
}

/// How text behaves against its layout width: laid out as is, or shrunk so
/// its natural width exactly fills the target width.
#[derive(Debug, Clone, Copy, PartialEq, Eq, Structural)]
pub enum TextWrap {
    NONE,
    ZOOM,
}

/// One text layer: its raw text with placeholders, position, font, paints
/// and transform.  `size` is the font size in pixels; `angle` whole
/// degrees; `stroke_size` pixels.
#[derive(Debug, Clone)]
pub struct TextTemplate {
    pub text: String,
    pub pos: TextPos,
    pub size: i32,
    pub angle: i32,
    pub align: TextAlign,
    pub color: String,
    pub font: Vec<String>,
    pub style: TextStyle,
    pub wrap: TextWrap,
    pub stroke_color: String,
    pub stroke_size: i32,
    pub origin: TransformOrigin,
}

pub fn size_default() -> (r: i32)
    ensures
        r == 24,
{
    24
}

pub fn angle_default() -> (r: i32)
    ensures
        r == 0,
{
    0
}

pub fn align_default() -> (r: TextAlign)
    ensures
        r == TextAlign::LEFT,
{
    TextAlign::LEFT
}

/// Default text color: opaque white.
pub fn color_default() -> (r: String)
    ensures
        r@ == "#ffffff"@,
{
    "#ffffff".to_owned()
}

pub fn font_default() -> (r: Vec<String>)
    ensures
        r@.len() == 1 && r@[0]@ == "Arial"@,
{
    let mut v: Vec<String> = Vec::new();
    v.push("Arial".to_owned());
    v
}

pub fn style_default() -> (r: TextStyle)
    ensures
        r == TextStyle::PLAIN,
{
    TextStyle::PLAIN
}

pub fn wrap_default() -> (r: TextWrap)
    ensures
        r == TextWrap::NONE,
{
    TextWrap::NONE
}

pub fn stroke_color_default() -> (r: String)
    ensures
        r@ == "#ffffff"@,
{
    "#ffffff".to_owned()
}

pub fn stroke_size_default() -> (r: i32)
    ensures
        r == 0,
{
    0
}

pub fn origin_default() -> (r: TransformOrigin)
    ensures
        r == TransformOrigin::DEFAULT,
{
    TransformOrigin::DEFAULT
}

/// The rotation angle a template normalizes to: the declared angle reduced
/// modulo 360, keeping its sign.
pub open spec fn spec_angle_mod(a: int) -> int {
    if a >= 0 {
        a % 360
    } else {
        -((-a) % 360)
    }
}

/// What the backend's paragraph layout reports for one laid-out text block,
/// in pixels.
#[derive(Debug, Clone, Copy, PartialEq, Eq, Structural)]
pub struct TextMetrics {
    pub height: i32,
    pub max_intrinsic_width: i32,
    pub max_width: i32,
    pub alphabetic_baseline: i32,
}

/// A stroke pass: its color and its stroke width in pixels (half the
/// declared stroke size, rounded toward zero).
#[derive(Debug, Clone, Copy, PartialEq, Eq, Structural)]
pub struct StrokePaint {
    pub color: Color,
    pub width: i32,
}

/// A compiled text layer: the template with its angle normalized, and the
/// resolved fill and stroke paints.  A transparent fill or a zero stroke
/// width drops that paint entirely.
#[derive(Debug, Clone)]
pub struct TextBuiltTemplate {
    pub raw: TextTemplate,
    pub fill_paint: Option<Color>,
    pub stroke_paint: Option<StrokePaint>,
}

pub struct TextBuilder {
    pub built_template: TextBuiltTemplate,
}

/// Whether a text layer's declaration is consistent: a nonnegative font
/// size, a parseable fill color, and — when a stroke is declared — a
/// parseable stroke color.
pub open spec fn text_template_ok(t: TextTemplate) -> bool {
    &&& t.size >= 0
    &&& spec_color_of_hex(t.color@) is Some
    &&& (t.stroke_size == 0 || spec_color_of_hex(t.stroke_color@) is Some)
}

/// The Ok-side relation of `TextBuilder::new`: how a built text layer
/// follows from its template.
pub open spec fn spec_text_built_from(b: TextBuiltTemplate, t: TextTemplate) -> bool {
    &&& b.raw.text == t.text
    &&& b.raw.pos == t.pos
    &&& b.raw.size == t.size
    &&& b.raw.angle == spec_angle_mod(t.angle as int)
    &&& b.raw.align == t.align
    &&& b.raw.font == t.font
    &&& b.raw.style == t.style
    &&& b.raw.wrap == t.wrap
    &&& b.raw.stroke_size == t.stroke_size
    &&& b.raw.origin == t.origin
    &&& (match spec_color_of_hex(t.color@) {
        Some(c) => b.fill_paint == (if c.a != 0 {
            Some(c)
        } else {
            None::<Color>
        }),
        None => false,
    })
    &&& (if t.stroke_size != 0 {
        match spec_color_of_hex(t.stroke_color@) {
            Some(c) => (b.stroke_paint matches Some(sp) && sp.color == c && sp.width as int == spec_half(
                t.stroke_size as int,
            )),
            None => false,
        }
    } else {
        b.stroke_paint is None
    })
}

impl TextBuilder {
    /// Compiles one text layer: normalizes the angle, parses the fill and
    /// stroke colors, and resolves which paint passes remain.
    pub fn new(template: TextTemplate) -> (r: Result<TextBuilder, Error>)
        ensures
            r is Ok <==> text_template_ok(template),
            match r {
                Ok(b) => spec_text_built_from(b.built_template, template) && b.built_template.raw.size
                    >= 0,
                Err(e) => e is TemplateError,
            },
    {
        if template.size < 0 {
            return Err(Error::TemplateError("font size must not be negative".to_owned()));
        }
        let mut template = template;
        let a64: i64 = template.angle as i64;
        let na: i64 = if a64 >= 0 {
            a64 % 360
        } else {
            -((-a64) % 360)
        };
        template.angle = na as i32;
        let fill_color = parse_color(template.color.as_str())?;
        let fill_paint = if fill_color.a != 0 {
            Some(fill_color)
        } else {
            None
        };
        let stroke_paint = if template.stroke_size != 0 {
            let stroke_color = parse_color(template.stroke_color.as_str())?;
            let w64 = half_i64(template.stroke_size as i64);
            Some(StrokePaint { color: stroke_color, width: w64 as i32 })
        } else {
            None
        };
        Ok(TextBuilder { built_template: TextBuiltTemplate { raw: template, fill_paint, stroke_paint } })
    }

    /// Binds request data to this layer, substituting the placeholders.
    pub fn build(&self, data: &TextData) -> (r: TextModel)
        ensures
            r.text@ == spec_substituted(
                self.built_template.raw.text@,
                data.from@,
                data.to@,
                data.group@,
                text_list_view(data.text_list@),
            ),
    {
        TextModel::new(&self.built_template, data)
    }
}

/// A text layer bound to request data: the fully substituted text.
#[derive(Debug, Clone)]
pub struct TextModel {
    pub text: String,
}

/// One drawable text block: the laid-out text, its paints, and where the
/// backend paints it.  The fill pass is painted before the stroke pass.
/// A rotation about a pivot point, in whole degrees.
#[derive(Debug, Clone, Copy, PartialEq, Eq, Structural)]
pub struct TextRotation {
    pub angle: i32,
    pub px: i64,
    pub py: i64,
}

#[derive(Debug, Clone)]
pub struct TextDrawOp {
    pub text: String,
    pub font: Vec<String>,
    pub style: TextStyle,
    pub align: TextAlign,
    pub font_size: i64,
    pub layout_width: i64,
    pub paint_x: i64,
    pub paint_y: i64,
    pub fill: Option<Color>,
    pub stroke: Option<StrokePaint>,
    pub rotate: Option<TextRotation>,
}

/// The layout width a text layer binds: an explicit width, or an
/// alignment-dependent canvas-relative width.
pub open spec fn spec_text_width(pos: TextPos, align: TextAlign, canvas_width: int) -> int {
    match pos {
        TextPos::XY(x, _y) => match align {
            TextAlign::LEFT => canvas_width - x,
            TextAlign::CENTER => canvas_width / 2,
            TextAlign::RIGHT => x as int,
        },
        TextPos::XYW(_x, _y, w) => w as int,
    }
}

/// Where a laid-out paragraph is painted so that the anchor point lands
/// according to the alignment.
pub open spec fn spec_paint_at(align: TextAlign, x: int, y: int, m: TextMetrics) -> (int, int) {
    match align {
        TextAlign::LEFT => (x, y - m.alphabetic_baseline),
        TextAlign::CENTER => (x - m.max_width / 2, y - m.height / 2),
        TextAlign::RIGHT => (x - m.max_width, y - m.alphabetic_baseline),
    }
}

impl TextAlign {
    /// The paint position for a paragraph with the given layout metrics
    /// anchored at `(x, y)` under this alignment.
    pub fn get_by_pos(&self, metrics: &TextMetrics, x: i32, y: i32) -> (r: (i64, i64))
        requires
            metrics.height >= 0,
            metrics.max_width >= 0,
        ensures
            (r.0 as int, r.1 as int) == spec_paint_at(*self, x as int, y as int, *metrics),
    {
        match self {
            TextAlign::LEFT => (x as i64, y as i64 - metrics.alphabetic_baseline as i64),
            TextAlign::CENTER => {
                let half: i64 = metrics.max_width as i64 / 2;
                proof {
                    assert(metrics.max_width as int / 2 == metrics.max_width as i64 as int / 2);
                }
                (x as i64 - half, y as i64 - metrics.height as i64 / 2)
            },
            TextAlign::RIGHT => (x as i64 - metrics.max_width as i64, y as i64 - metrics.alphabetic_baseline as i64),
        }
    }
}

impl TextModel {
    /// Substitutes the placeholders of a built text layer against the
    /// request's substitution bundle.
    pub fn new(template: &TextBuiltTemplate, text_data: &TextData) -> (r: TextModel)
        ensures
            r.text@ == spec_substituted(
                template.raw.text@,
                text_data.from@,
                text_data.to@,
                text_data.group@,
                text_list_view(text_data.text_list@),
            ),
    {
        TextModel { text: substitute(template.raw.text.as_str(), text_data) }
    }

    /// The pixel size this layer contributes to background sizing: a fixed
    /// fallback width for anchor-only positions, the declared width
    /// otherwise, and the measured layout height.
    pub fn get_size(&self, template: &TextBuiltTemplate, measured_height: i32) -> (r: (i32, i32))
        ensures
            r.0 == (match template.raw.pos {
                TextPos::XY(_x, _y) => 200int,
                TextPos::XYW(_x, _y, w) => w as int,
            }),
            r.1 == measured_height,
    {
        let width: i32 = match template.raw.pos {
            TextPos::XY(_, _) => 200,
            TextPos::XYW(_, _, w) => w,
        };
        (width, measured_height)
    }

    /// The draw operation for this layer: the layout width from the
    /// position and alignment, the shrink-to-fit font size when the wrap
    /// policy asks for it, the alignment-adjusted paint position, and the
    /// rotation pivot.
    pub fn draw_plan(&self, template: &TextBuiltTemplate, canvas_width: i32, metrics: &TextMetrics) -> (r:
        TextDrawOp)
        requires
            metrics.max_intrinsic_width >= 1,
            metrics.height >= 0,
            metrics.max_width >= 0,
            canvas_width >= 0,
            template.raw.size >= 0,
        ensures
            r.text@ == self.text@,
            text_list_view(r.font@) == text_list_view(template.raw.font@),
            r.style == template.raw.style,
            r.align == template.raw.align,
            r.layout_width == (match template.raw.pos {
                TextPos::XY(x, _y) => spec_text_width(template.raw.pos, template.raw.align, canvas_width as int),
                TextPos::XYW(_x, _y, w) => w as int,
            }),
            r.font_size == (if template.raw.wrap == TextWrap::ZOOM {
                spec_div_trunc(template.raw.size as int * r.layout_width, metrics.max_intrinsic_width as int)
            } else {
                template.raw.size as int
            }),
            r.fill == template.fill_paint,
            r.stroke == template.stroke_paint,
            ({
                let xy = (match template.raw.pos {
                    TextPos::XY(x, y) => (x, y),
                    TextPos::XYW(x, y, _w) => (x, y),
                });
                &&& (r.paint_x as int, r.paint_y as int) == spec_paint_at(
                    template.raw.align,
                    xy.0 as int,
                    xy.1 as int,
                    *metrics,
                )
                &&& (template.raw.angle != 0 <==> r.rotate is Some)
                &&& (match r.rotate {
                    Some(rot) => {
                        &&& rot.angle == template.raw.angle
                        &&& rot.px as int == (match template.raw.origin {
                            TransformOrigin::DEFAULT => xy.0 as int,
                            TransformOrigin::CENTER => xy.0 as int + spec_half(r.layout_width as int),
                        })
                        &&& rot.py as int == (match template.raw.origin {
                            TransformOrigin::DEFAULT => xy.1 as int,
                            TransformOrigin::CENTER => xy.1 as int + metrics.height as int / 2,
                        })
                    },
                    None => true,
                })
            }),
    {
        let (x, y, width): (i32, i32, i64) = match template.raw.pos {
            TextPos::XY(x, y) => (
                x,
                y,
                match template.raw.align {
                    TextAlign::LEFT => canvas_width as i64 - x as i64,
                    TextAlign::CENTER => canvas_width as i64 / 2,
                    TextAlign::RIGHT => x as i64,
                },
            ),
            TextPos::XYW(x, y, w) => (x, y, w as i64),
        };
        proof {
            assert(canvas_width as int / 2 == canvas_width as i64 as int / 2);
        }
        let font_size: i64 = if template.raw.wrap == TextWrap::ZOOM {
            proof {
                assert((template.raw.size as int) * (width as int) <= 0x7fff_ffffint * 0x1_0000_0000int
                    && (template.raw.size as int) * (width as int) >= -(0x7fff_ffffint
                    * 0x1_0000_0000int)) by (nonlinear_arith)
                    requires
                        0 <= template.raw.size as int <= 0x7fff_ffff,
                        -0x1_0000_0000 <= width as int <= 0x1_0000_0000,
                ;
            }
            let prod: i64 = (template.raw.size as i64) * width;
            let miw: i64 = metrics.max_intrinsic_width as i64;
            if prod >= 0 {
                prod / miw
            } else {
                -((-prod) / miw)
            }
        } else {
            template.raw.size as i64
        };
        let paint_at = template.raw.align.get_by_pos(metrics, x, y);
        let rotate: Option<TextRotation> = if template.raw.angle != 0 {
            let px: i64 = match template.raw.origin {
                TransformOrigin::DEFAULT => x as i64,
                TransformOrigin::CENTER => x as i64 + half_i64(width),
            };
            let py: i64 = match template.raw.origin {
                TransformOrigin::DEFAULT => y as i64,
                TransformOrigin::CENTER => y as i64 + metrics.height as i64 / 2,
            };
            Some(TextRotation { angle: template.raw.angle, px, py })
        } else {
            None
        };
        TextDrawOp {
            text: self.text.clone(),
            font: copy_strings(&template.raw.font),
            style: template.raw.style,
            align: template.raw.align,
            font_size,
            layout_width: width,
            paint_x: paint_at.0,
            paint_y: paint_at.1,
            fill: template.fill_paint,
            stroke: template.stroke_paint,
            rotate,
        }
    }
}

/// Halves a coordinate difference, rounding toward zero.
fn half_i64(v: i64) -> (r: i64)
    requires
        v > i64::MIN,
    ensures
        r == spec_half(v as int),
{
    if v >= 0 {
        v / 2
    } else {
        -((-v) / 2)
    }
}

/// A copy of a list of strings, preserving every entry's text.
fn copy_strings(v: &Vec<String>) -> (r: Vec<String>)
    ensures
        text_list_view(r@) == text_list_view(v@),
{
    let mut out: Vec<String> = Vec::new();
    let mut i: usize = 0;
    while i < v.len()
        invariant
            i <= v@.len(),
            out@.len() == i,
            forall|k: int| 0 <= k < i ==> (#[trigger] out@[k])@ == v@[k]@,
        decreases v@.len() - i,
    {
        let s = v[i].clone();
        out.push(s);
        i += 1;
    }
    proof {
        assert(text_list_view(out@) =~~= text_list_view(v@));
    }
    out
}

pub struct TextBuilderList {
    pub builders: Vec<TextBuilder>,
}

impl TextBuilderList {
    /// Compiles every text layer of a template; the first malformed layer
    /// fails the whole template.
    pub fn new(templates: Vec<TextTemplate>) -> (r: Result<TextBuilderList, Error>)
        ensures
            match r {
                Ok(l) => {
                    &&& l.builders@.len() == templates@.len()
                    &&& forall|i: int|
                        0 <= i < templates@.len() ==> spec_text_built_from(
                            (#[trigger] l.builders@[i]).built_template,
                            templates@[i],
                        )
                    &&& forall|i: int|
                        0 <= i < templates@.len() ==> (#[trigger] l.builders@[i]).built_template.raw.size
                            >= 0
                },
                Err(e) => e is TemplateError && exists|i: int|
                    0 <= i < templates@.len() && !text_template_ok(#[trigger] templates@[i]),
            },
    {
        let mut rest = templates;
        let mut builders: Vec<TextBuilder> = Vec::new();
        while rest.len() > 0
            invariant
                builders@.len() + rest@.len() == templates@.len(),
                rest@ =~= templates@.skip(builders@.len() as int),
                forall|k: int|
                    0 <= k < builders@.len() ==> spec_text_built_from(
                        (#[trigger] builders@[k]).built_template,
                        templates@[k],
                    ),
                forall|k: int|
                    0 <= k < builders@.len() ==> (#[trigger] builders@[k]).built_template.raw.size >= 0,
            decreases rest@.len(),
        {
            let t = rest.remove(0);
            proof {
                assert(t == templates@[builders@.len() as int]);
            }
            match TextBuilder::new(t) {
                Ok(b) => {
                    builders.push(b);
                },
                Err(e) => {
                    proof {
                        assert(!text_template_ok(templates@[builders@.len() as int]));
                    }
                    return Err(e);
                },
            }
            proof {
                assert(rest@ =~= templates@.skip(builders@.len() as int));
            }
        }
        Ok(TextBuilderList { builders })
    }

    /// Binds request data to every compiled text layer.
    pub fn build(&self, text_data: &TextData) -> (r: Vec<TextModel>)
        ensures
            r@.len() == self.builders@.len(),
            forall|i: int|
                0 <= i < r@.len() ==> (#[trigger] r@[i]).text@ == spec_substituted(
                    self.builders@[i].built_template.raw.text@,
                    text_data.from@,
                    text_data.to@,
                    text_data.group@,
                    text_list_view(text_data.text_list@),
                ),
    {
        let mut models: Vec<TextModel> = Vec::new();
        let mut i: usize = 0;
        while i < self.builders.len()
            invariant
                i <= self.builders@.len(),
                models@.len() == i,
                forall|k: int|
                    0 <= k < i ==> (#[trigger] models@[k]).text@ == spec_substituted(
                        self.builders@[k].built_template.raw.text@,
                        text_data.from@,
                        text_data.to@,
                        text_data.group@,
                        text_list_view(text_data.text_list@),
                    ),
            decreases self.builders@.len() - i,
        {
            let m = self.builders[i].build(text_data);
            models.push(m);
            i += 1;
        }
        models
    }
}

} // verus!

use vstd::prelude::*;

use crate::strutil::{chars_to_string, str_to_chars};
use crate::template::TextData;
use crate::text::{digits_val, lemma_digits_val_upper, spec_is_digit, text_list_view};

verus! {

// ---------------------------------------------------------------------------
// Request payloads of the service boundary.
// ---------------------------------------------------------------------------

/// The avatar sources of one request, as addresses the fetch client
/// resolves before the core runs.
#[derive(Debug, Clone)]
pub struct AvatarDataURL {
    pub from: Option<String>,
    pub to: Option<String>,
    pub bot: Option<String>,
    pub group: Option<String>,
    pub random: Option<Vec<String>>,
}

impl Default for AvatarDataURL {
    /// No source bound for any role.
    fn default() -> (r: Self)
        ensures
            r.from is None,
            r.to is None,
            r.bot is None,
            r.group is None,
            r.random is None,
    {
        AvatarDataURL { from: None, to: None, bot: None, group: None, random: None }
    }
}

/// One generation request: the template key, the avatar sources, and the
/// substitution bundle.
#[derive(Debug)]
pub struct PetpetData {
    pub key: String,
    pub avatar: AvatarDataURL,
    pub text: TextData,
}

/// The request payload the service endpoint takes.
#[derive(Debug)]
pub struct PetpetServiceData {
    pub key: String,
    pub avatar: AvatarDataURL,
    pub text: TextData,
}

/// The fetch client's settings.
#[derive(Debug, Clone, Copy)]
pub struct RequesterOptions<'a> {
    pub user_agent: &'a str,
    pub timeout: u64,
}

/// The service's own settings: where it listens and where templates live.
#[derive(Debug, Clone)]
pub struct ServerConfig {
    pub address: String,
    pub data_path: Vec<String>,
}

pub fn address_default() -> (r: String)
    ensures
        r@ == "0.0.0.0:3000"@,
{
    "0.0.0.0:3000".to_owned()
}

pub fn data_path_default() -> (r: Vec<String>)
    ensures
        r@.len() == 1 && r@[0]@ == "./data"@,
{
    let mut v: Vec<String> = Vec::new();
    v.push("./data".to_owned());
    v
}

pub fn name_default() -> (r: String)
    ensures
        r@ == "default name"@,
{
    "default name".to_owned()
}

/// Default extra text of a query: none.
pub fn text_list_default() -> (r: String)
    ensures
        r@.len() == 0,
{
    String::new()
}

// ---------------------------------------------------------------------------
// Whitespace splitting.
// ---------------------------------------------------------------------------

/// The characters the White_Space property names.
pub open spec fn spec_is_ws(c: char) -> bool {
    ||| c == '\u{0009}'
    ||| c == '\u{000A}'
    ||| c == '\u{000B}'
    ||| c == '\u{000C}'
    ||| c == '\u{000D}'
    ||| c == ' '
    ||| c == '\u{0085}'
    ||| c == '\u{00A0}'
    ||| c == '\u{1680}'
    ||| ('\u{2000}' <= c && c <= '\u{200A}')
    ||| c == '\u{2028}'
    ||| c == '\u{2029}'
    ||| c == '\u{202F}'
    ||| c == '\u{205F}'
    ||| c == '\u{3000}'
}

fn is_ws(c: char) -> (r: bool)
    ensures
        r == spec_is_ws(c),
{
    c == '\u{0009}' || c == '\u{000A}' || c == '\u{000B}' || c == '\u{000C}' || c == '\u{000D}'
        || c == ' ' || c == '\u{0085}' || c == '\u{00A0}' || c == '\u{1680}' || ('\u{2000}' <= c
        && c <= '\u{200A}') || c == '\u{2028}' || c == '\u{2029}' || c == '\u{202F}' || c
        == '\u{205F}' || c == '\u{3000}'
}

/// The length of the non-whitespace run starting at `j`.
pub open spec fn word_run(s: Seq<char>, j: int) -> int
    decreases s.len() - j,
{
    if j < 0 || j >= s.len() || spec_is_ws(s[j]) {
        0
    } else {
        1 + word_run(s, j + 1)
    }
}

proof fn lemma_word_run_bounds(s: Seq<char>, j: int)
    requires
        0 <= j <= s.len(),
    ensures
        0 <= word_run(s, j),
        j + word_run(s, j) <= s.len(),
    decreases s.len() - j,
{
    if j < s.len() && !spec_is_ws(s[j]) {
        lemma_word_run_bounds(s, j + 1);
    }
}

/// The whitespace-separated words of `s` from position `i` on.
pub open spec fn spec_split_from(s: Seq<char>, i: int) -> Seq<Seq<char>>
    decreases s.len() - i,
    via spec_split_from_decreases
{
    if i < 0 || i >= s.len() {
        Seq::empty()
    } else if spec_is_ws(s[i]) {
        spec_split_from(s, i + 1)
    } else {
        let w = word_run(s, i);
        seq![s.subrange(i, i + w)] + spec_split_from(s, i + w)
    }
}

#[via_fn]
proof fn spec_split_from_decreases(s: Seq<char>, i: int) {
    if 0 <= i && i < s.len() && !spec_is_ws(s[i]) {
        lemma_word_run_bounds(s, i);
        lemma_word_run_bounds(s, i + 1);
        assert(word_run(s, i) == 1 + word_run(s, i + 1));
    }
}

/// The whitespace-separated words of a string, in order.
pub open spec fn spec_split_ws(s: Seq<char>) -> Seq<Seq<char>> {
    spec_split_from(s, 0)
}

/// Splits a string at runs of whitespace, dropping empty pieces.
pub fn split_whitespace_words(s: &str) -> (r: Vec<String>)
    ensures
        text_list_view(r@) == spec_split_ws(s@),
{
    let chars = str_to_chars(s);
    let mut out: Vec<String> = Vec::new();
    let mut i: usize = 0;
    proof {
        assert(text_list_view(out@) + spec_split_from(s@, 0) =~= spec_split_from(s@, 0));
    }
    while i < chars.len()
        invariant
            i <= chars@.len(),
            chars@ == s@,
            spec_split_ws(s@) == text_list_view(out@) + spec_split_from(s@, i as int),
        decreases chars@.len() - i,
    {
        if is_ws(chars[i]) {
            i += 1;
        } else {
            let start = i;
            let mut word: Vec<char> = Vec::new();
            proof {
                assert(word@ =~= s@.subrange(start as int, start as int));
            }
            loop
                invariant
                    start <= i <= chars@.len(),
                    chars@ == s@,
                    start < chars@.len(),
                    !spec_is_ws(s@[start as int]),
                    word@ == s@.subrange(start as int, i as int),
                    forall|k: int| start <= k < i ==> !spec_is_ws(#[trigger] s@[k]),
                ensures
                    start <= i <= chars@.len(),
                    word@ == s@.subrange(start as int, i as int),
                    forall|k: int| start <= k < i ==> !spec_is_ws(#[trigger] s@[k]),
                    i == chars@.len() || spec_is_ws(s@[i as int]),
                decreases chars@.len() - i,
            {
                if i >= chars.len() {
                    break ;
                }
                let c = chars[i];
                if is_ws(c) {
                    break ;
                }
                word.push(c);
                proof {
                    assert(word@ =~= s@.subrange(start as int, i as int + 1));
                }
                i += 1;
            }
            proof {
                assert(word_run(s@, start as int) == i - start) by {
                    lemma_word_run_prefix(s@, start as int, i as int);
                }
            }
            let ghost before = out@;
            let word_s = chars_to_string(&word);
            out.push(word_s);
            proof {
                assert(text_list_view(out@) =~~= text_list_view(before) + seq![
                    s@.subrange(start as int, i as int),
                ]);
                assert(spec_split_from(s@, start as int) == seq![
                    s@.subrange(start as int, i as int),
                ] + spec_split_from(s@, i as int));
            }
        }
    }
    proof {
        assert(spec_split_from(s@, chars@.len() as int) =~= Seq::<Seq<char>>::empty());
        assert(text_list_view(out@) + Seq::<Seq<char>>::empty() =~= text_list_view(out@));
    }
    out
}

/// A word runs exactly to the first whitespace or the end.
proof fn lemma_word_run_prefix(s: Seq<char>, start: int, end: int)
    requires
        0 <= start <= end <= s.len(),
        forall|k: int| start <= k < end ==> !spec_is_ws(#[trigger] s[k]),
        end == s.len() || spec_is_ws(s[end]),
    ensures
        word_run(s, start) == end - start,
    decreases end - start,
{
    if start < end {
        lemma_word_run_prefix(s, start + 1, end);
    }
}

// ---------------------------------------------------------------------------
// Query parameters.
// ---------------------------------------------------------------------------

/// The flat query-string form of a generation request.
#[derive(Debug, Clone)]
pub struct QueryParams {
    pub key: String,
    pub from_avatar: Option<String>,
    pub to_avatar: Option<String>,
    pub group_avatar: Option<String>,
    pub bot_avatar: Option<String>,
    pub from_name: String,
    pub to_name: String,
    pub group_name: String,
    pub text_list: String,
}

impl QueryParams {
    /// The request payload these parameters denote: the avatar addresses
    /// carried over, no random pool, and the extra text split at
    /// whitespace.
    pub fn to_data(self) -> (r: PetpetData)
        ensures
            r.key == self.key,
            r.avatar.from == self.from_avatar,
            r.avatar.to == self.to_avatar,
            r.avatar.bot == self.bot_avatar,
            r.avatar.group == self.group_avatar,
            r.avatar.random is None,
            r.text.from == self.from_name,
            r.text.to == self.to_name,
            r.text.group == self.group_name,
            text_list_view(r.text.text_list@) == spec_split_ws(self.text_list@),
    {
        let text_list = split_whitespace_words(self.text_list.as_str());
        PetpetData {
            key: self.key,
            avatar: AvatarDataURL {
                from: self.from_avatar,
                to: self.to_avatar,
                bot: self.bot_avatar,
                group: self.group_avatar,
                random: None,
            },
            text: TextData {
                from: self.from_name,
                to: self.to_name,
                group: self.group_name,
                text_list,
            },
        }
    }
}

// ---------------------------------------------------------------------------
// Background frame discovery.
// ---------------------------------------------------------------------------

/// Relies on `std::path::Path::exists`: whether a file exists at the given
/// path.  The answer depends on the file system, so nothing more is
/// promised of it.
#[verifier::external_body]
fn path_exists(p: &str) -> bool {
    std::path::Path::new(p).exists()
}

/// The path of a frame sequence's first file under a directory.
pub fn first_frame_path(path: &str) -> (r: String)
    ensures
        r@ == path@ + "/0.png"@,
{
    let mut chars = str_to_chars(path);
    let mut suffix = str_to_chars("/0.png");
    chars.append(&mut suffix);
    let s = chars_to_string(&chars);
    proof {
        assert(s@ =~= path@ + "/0.png"@);
    }
    s
}

/// Whether a directory holds a background frame sequence: its first frame
/// `0.png` exists.
pub fn has_image(path: &str) -> bool {
    let probe = first_frame_path(path);
    path_exists(probe.as_str())
}

/// The trailing `.png` suffixes of a file name removed, repeatedly.
pub open spec fn strip_png(s: Seq<char>) -> Seq<char>
    decreases s.len(),
{
    if s.len() >= 4 && s.subrange(s.len() - 4, s.len() as int) == ".png"@ {
        strip_png(s.take(s.len() - 4))
    } else {
        s
    }
}

/// The frame number a file name denotes: its name without the `.png`
/// suffixes, read as a decimal number, when that is possible and fits.
pub open spec fn spec_name_number(s: Seq<char>) -> Option<int> {
    let base = strip_png(s);
    if base.len() >= 1 && (forall|i: int| 0 <= i < base.len() ==> spec_is_digit(#[trigger] base[i]))
        && digits_val(base, 0, base.len() as int) <= usize::MAX {
        Some(digits_val(base, 0, base.len() as int))
    } else {
        None
    }
}

/// Strips every trailing `.png` from a file name.
fn strip_png_exec(name: &str) -> (r: Vec<char>)
    ensures
        r@ == strip_png(name@),
{
    let mut chars = str_to_chars(name);
    loop
        invariant
            strip_png(name@) == strip_png(chars@),
        ensures
            chars@ == strip_png(name@),
        decreases chars@.len(),
    {
        let n = chars.len();
        if n >= 4 && chars[n - 4] == '.' && chars[n - 3] == 'p' && chars[n - 2] == 'n' && chars[n
            - 1] == 'g' {
            proof {
                reveal_strlit(".png");
                assert(".png"@ =~= seq!['.', 'p', 'n', 'g']);
                assert(chars@.subrange(chars@.len() - 4, chars@.len() as int) =~= ".png"@);
            }
            chars.truncate(n - 4);
        } else {
            proof {
                reveal_strlit(".png");
                assert(".png"@ =~= seq!['.', 'p', 'n', 'g']);
                if chars@.len() >= 4 && chars@.subrange(chars@.len() - 4, chars@.len() as int)
                    == ".png"@ {
                    assert(chars@.subrange(chars@.len() - 4, chars@.len() as int)[0] == chars@[
                    chars@.len() - 4]);
                    assert(chars@.subrange(chars@.len() - 4, chars@.len() as int)[1] == chars@[
                    chars@.len() - 3]);
                    assert(chars@.subrange(chars@.len() - 4, chars@.len() as int)[2] == chars@[
                    chars@.len() - 2]);
                    assert(chars@.subrange(chars@.len() - 4, chars@.len() as int)[3] == chars@[
                    chars@.len() - 1]);
                }
                assert(strip_png(chars@) == chars@);
            }
            break ;
        }
    }
    chars
}

/// The frame number a file name denotes, if any.
pub fn name_number(name: &str) -> (r: Option<usize>)
    ensures
        match r {
            Some(v) => spec_name_number(name@) == Some(v as int),
            None => spec_name_number(name@) is None,
        },
{
    let base = strip_png_exec(name);
    if base.len() == 0 {
        return None;
    }
    let mut k: usize = 0;
    while k < base.len()
        invariant
            k <= base@.len(),
            base@ == strip_png(name@),
            forall|t: int| 0 <= t < k ==> spec_is_digit(#[trigger] base@[t]),
        decreases base@.len() - k,
    {
        let c = base[k];
        if !('0' <= c && c <= '9') {
            return None;
        }
        k += 1;
    }
    let big: u128 = (usize::MAX as u128) + 1;
    let mut acc: u128 = 0;
    let mut t: usize = 0;
    while t < base.len()
        invariant
            t <= base@.len(),
            big == (usize::MAX as u128) + 1,
            base@ == strip_png(name@),
            forall|q: int| 0 <= q < base@.len() ==> spec_is_digit(#[trigger] base@[q]),
            acc <= big,
            (digits_val(base@, 0, t as int) <= usize::MAX && acc == digits_val(base@, 0, t as int))
                || (digits_val(base@, 0, t as int) > usize::MAX && acc == big),
        decreases base@.len() - t,
    {
        proof {
            lemma_digits_val_upper(base@, 0, t as int);
        }
        let c = base[t];
        let d: u32 = (c as u32) - ('0' as u32);
        let next = acc * 10 + d as u128;
        acc = if next > big {
            big
        } else {
            next
        };
        proof {
            assert(digits_val(base@, 0, t as int + 1) == digits_val(base@, 0, t as int) * 10 + (
            base@[t as int] as int - '0' as int));
        }
        t += 1;
    }
    if acc <= usize::MAX as u128 {
        Some(acc as usize)
    } else {
        None
    }
}

/// Whether some name among the given ones denotes the frame number `n`.
pub open spec fn names_contain_number(names: Seq<Seq<char>>, n: int) -> bool {
    exists|i: int| 0 <= i < names.len() && spec_name_number(#[trigger] names[i]) == Some(n)
}

/// The maximal consecutive run of frame numbers from `k` on that the names
/// cover — by membership, independent of the order the directory lists its
/// entries in.  The run cannot outnumber the names, which bounds the scan.
pub open spec fn spec_count_from(names: Seq<Seq<char>>, k: int) -> int
    decreases names.len() - k,
{
    if k < 0 || k >= names.len() {
        k
    } else if names_contain_number(names, k) {
        spec_count_from(names, k + 1)
    } else {
        k
    }
}

/// The number of frame files a directory's names cover: the largest `k`
/// such that the frames numbered up to but excluding `k` are all present.
pub open spec fn spec_image_count(names: Seq<Seq<char>>) -> int {
    spec_count_from(names, 0)
}

/// Whether the names hold a file of the given frame number.
fn names_have_number(names: &Vec<String>, n: usize) -> (r: bool)
    ensures
        r == names_contain_number(text_list_view(names@), n as int),
{
    let mut i: usize = 0;
    while i < names.len()
        invariant
            i <= names@.len(),
            forall|k: int|
                0 <= k < i ==> spec_name_number(#[trigger] text_list_view(names@)[k]) != Some(
                    n as int,
                ),
        decreases names@.len() - i,
    {
        match name_number(names[i].as_str()) {
            Some(v) => {
                if v == n {
                    proof {
                        assert(spec_name_number(text_list_view(names@)[i as int]) == Some(n as int));
                    }
                    return true;
                }
            },
            None => {
            },
        }
        i += 1;
    }
    false
}

/// Counts the frame files among directory entries: the maximal consecutive
/// run numbered from zero, whatever order the entries are listed in.
pub fn image_count_from_names(names: &Vec<String>) -> (r: usize)
    ensures
        r as int == spec_image_count(text_list_view(names@)),
{
    let ghost nv = text_list_view(names@);
    let mut k: usize = 0;
    while k < names.len()
        invariant
            k <= names@.len(),
            nv == text_list_view(names@),
            spec_count_from(nv, 0) == spec_count_from(nv, k as int),
        decreases names@.len() - k,
    {
        if !names_have_number(names, k) {
            return k;
        }
        k += 1;
    }
    k
}

} // verus!

//! Path handling: joining URL path segments, the dotfile-hiding rule, and
//! the deterministic encoding of a source path into its cache file name.

use vstd::prelude::*;
use vstd::string::StrSliceExecFns;
use vstd::string::StringExecFns;

verus! {

/// The sequence without its leading slashes.
pub open spec fn spec_trim_front(s: Seq<char>) -> Seq<char>
    decreases s.len(),
{
    if s.len() > 0 && s[0] == '/' {
        spec_trim_front(s.drop_first())
    } else {
        s
    }
}

/// The sequence without its trailing slashes.
pub open spec fn spec_trim_back(s: Seq<char>) -> Seq<char>
    decreases s.len(),
{
    if s.len() > 0 && s.last() == '/' {
        spec_trim_back(s.drop_last())
    } else {
        s
    }
}

/// The sequence without leading or trailing slashes.
pub open spec fn spec_trim_slashes(s: Seq<char>) -> Seq<char> {
    spec_trim_back(spec_trim_front(s))
}

proof fn lemma_trim_front_subrange(s: Seq<char>, k: int)
    requires
        0 <= k <= s.len(),
        forall|j: int| 0 <= j < k ==> s[j] == '/',
        k == s.len() || s[k] != '/',
    ensures
        spec_trim_front(s) == s.subrange(k, s.len() as int),
    decreases k,
{
    if k == 0 {
        assert(s.subrange(0, s.len() as int) =~= s);
    } else {
        let rest = s.drop_first();
        assert(forall|j: int| 0 <= j < k - 1 ==> rest[j] == '/');
        lemma_trim_front_subrange(rest, k - 1);
        assert(rest.subrange(k - 1, rest.len() as int)
            =~= s.subrange(k, s.len() as int));
    }
}

proof fn lemma_trim_back_subrange(s: Seq<char>, e: int)
    requires
        0 <= e <= s.len(),
        forall|j: int| e <= j < s.len() ==> s[j] == '/',
        e == 0 || s[e - 1] != '/',
    ensures
        spec_trim_back(s) == s.subrange(0, e),
    decreases s.len(),
{
    if s.len() > e {
        let rest = s.drop_last();
        lemma_trim_back_subrange(rest, e);
        assert(rest.subrange(0, e) =~= s.subrange(0, e));
    } else {
        assert(s.subrange(0, e) =~= s);
    }
}

/// The slice without leading or trailing `/` characters.
fn trim_slashes(s: &str) -> (r: &str)
    ensures
        r@ == spec_trim_slashes(s@),
{
    let len = s.unicode_len();
    let mut start: usize = 0;
    loop
        invariant_except_break
            start <= len,
            len == s@.len(),
            forall|j: int| 0 <= j < start ==> s@[j] == '/',
        ensures
            start <= len,
            len == s@.len(),
            forall|j: int| 0 <= j < start ==> s@[j] == '/',
            start == len || s@[start as int] != '/',
        decreases len - start,
    {
        if start >= len {
            break;
        }
        if s.get_char(start) != '/' {
            break;
        }
        start += 1;
    }
    let mut end: usize = len;
    loop
        invariant_except_break
            start <= end <= len,
            len == s@.len(),
            forall|j: int| end <= j < len ==> s@[j] == '/',
        ensures
            start <= end <= len,
            len == s@.len(),
            forall|j: int| end <= j < len ==> s@[j] == '/',
            end == start || s@[end - 1] != '/',
        decreases end,
    {
        if end <= start {
            break;
        }
        if s.get_char(end - 1) != '/' {
            break;
        }
        end -= 1;
    }
    proof {
        lemma_trim_front_subrange(s@, start as int);
        let t = s@.subrange(start as int, s@.len() as int);
        if end > start {
            assert(t[end - start - 1] == s@[end - 1]);
        }
        lemma_trim_back_subrange(t, end - start);
        assert(t.subrange(0, end - start) =~= s@.subrange(start as int, end as int));
    }
    s.substring_char(start, end)
}

/// One joining step: append a trimmed segment and a trailing slash (unless
/// the accumulated path already ends in one).
pub open spec fn spec_join_step(acc: Seq<char>, item: Seq<char>) -> Seq<char> {
    let t = acc + spec_trim_slashes(item);
    if t.len() > 0 && t.last() == '/' {
        t
    } else {
        t.push('/')
    }
}

/// The accumulated path after joining the first `k` segments onto `/`.
pub open spec fn spec_join_prefix(items: Seq<Seq<char>>, k: int) -> Seq<char>
    decreases k,
{
    if k <= 0 {
        seq!['/']
    } else {
        spec_join_step(spec_join_prefix(items, k - 1), items[k - 1])
    }
}

/// All segments joined, with the final trailing slash dropped again; the
/// root alone collapses to the empty path.
pub open spec fn spec_join_paths(items: Seq<Seq<char>>) -> Seq<char> {
    let j = spec_join_prefix(items, items.len() as int);
    if j.len() > 0 && j.last() == '/' {
        j.drop_last()
    } else {
        j
    }
}

proof fn lemma_join_prefix_nonempty(items: Seq<Seq<char>>, k: int)
    ensures
        spec_join_prefix(items, k).len() > 0,
    decreases k,
{
    if k > 0 {
        lemma_join_prefix_nonempty(items, k - 1);
    }
}

/// Joins URL path segments into a single absolute path: every segment is
/// stripped of its surrounding slashes and separated from the next by one
/// slash, and the result carries no trailing slash.
pub fn join_paths(items: &[&str]) -> (r: String)
    ensures
        r@ == spec_join_paths(items@.map_values(|s: &str| s@)),
{
    let ghost mapped = items@.map_values(|s: &str| s@);
    let mut ret = String::new();
    ret.append("/");
    proof {
        reveal_strlit("/");
        assert(ret@ =~= seq!['/']);
    }
    let mut i: usize = 0;
    while i < items.len()
        invariant
            i <= items@.len(),
            mapped == items@.map_values(|s: &str| s@),
            mapped.len() == items@.len(),
            ret@ == spec_join_prefix(mapped, i as int),
            ret@.len() > 0,
        decreases items@.len() - i,
    {
        let item = items[i];
        proof {
            assert(mapped[i as int] == item@);
        }
        let trimmed = trim_slashes(item);
        ret.append(trimmed);
        let ret_len = ret.as_str().unicode_len();
        proof {
            lemma_join_prefix_nonempty(mapped, i + 1);
        }
        let last = ret.as_str().get_char(ret_len - 1);
        if last != '/' {
            ret.append("/");
            proof {
                reveal_strlit("/");
                assert(ret@ =~= spec_join_prefix(mapped, i as int)
                    + spec_trim_slashes(item@) + seq!['/']);
                assert(spec_join_prefix(mapped, i + 1)
                    =~= spec_join_prefix(mapped, i as int) + spec_trim_slashes(item@)
                        + seq!['/']);
            }
        }
        i += 1;
    }
    let ret_len = ret.as_str().unicode_len();
    let last = ret.as_str().get_char(ret_len - 1);
    if last == '/' {
        let shortened = ret.as_str().substring_char(0, ret_len - 1).to_owned();
        proof {
            assert(shortened@ =~= ret@.drop_last());
        }
        shortened
    } else {
        ret
    }
}

/// Some `/`-separated component of the path begins with a dot.
pub open spec fn spec_is_hidden_path(s: Seq<char>) -> bool {
    exists|i: int|
        0 <= i < s.len() && #[trigger] s[i] == '.' && (i == 0 || s[i - 1] == '/')
}

/// Whether any component of the path is a dotfile, which the server hides
/// from listings and thumbnails when so configured.
pub fn is_hidden_path(path: &str) -> (r: bool)
    ensures
        r == spec_is_hidden_path(path@),
{
    let len = path.unicode_len();
    let mut i: usize = 0;
    while i < len
        invariant
            i <= len,
            len == path@.len(),
            forall|j: int|
                0 <= j < i ==> !(#[trigger] path@[j] == '.' && (j == 0 || path@[j - 1] == '/')),
        decreases len - i,
    {
        if path.get_char(i) == '.' && (i == 0 || path.get_char(i - 1) == '/') {
            return true;
        }
        i += 1;
    }
    false
}

/// The URL-safe base64 rendering of a path's characters; what
/// `base64::encode_config` returns on the path's UTF-8 bytes.
pub uninterp spec fn base64_url_of(path: Seq<char>) -> Seq<char>;

/// Encodes a source path, relative to the index root, into the
/// collision-resistant file-name stem its cached thumbnail is stored under.
///
/// Relies on `base64::encode_config` with `base64::URL_SAFE`: a pure,
/// deterministic encoding of the path's bytes in the URL-safe alphabet with
/// padding, so the output length is a multiple of four and only the empty
/// path encodes to the empty string. The length bound keeps the encoder's
/// buffer-size arithmetic (four output bytes for every three of input, on at
/// most four UTF-8 bytes per character) from overflowing.
#[verifier::external_body]
pub fn encode_relative_path(path: &str) -> (r: String)
    requires
        path@.len() <= usize::MAX / 16,
    ensures
        r@ == base64_url_of(path@),
        r@.len() % 4 == 0,
        path@.len() == 0 ==> r@.len() == 0,
{
    base64::encode_config(path.as_bytes(), base64::URL_SAFE)
}

/// The file name a source path's cached thumbnail is stored under: the
/// encoded path with the fixed still-image extension.
pub fn cache_file_name(path: &str) -> (r: String)
    requires
        path@.len() <= usize::MAX / 16,
    ensures
        r@ == base64_url_of(path@) + ".png"@,
{
    let mut out = encode_relative_path(path);
    out.append(".png");
    out
}

} // verus!

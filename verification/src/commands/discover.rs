//! Listing the proto files under a directory: paths in `/` notation,
//! sorted, and relative to the directory.

use vstd::prelude::*;
use vstd::string::StringExecFns;
use crate::commands::requests::DiscoverProtoFilesResponse;
use crate::text::{chars_of, push_char, string_of_chars, string_views, trim_str, trimmed, has_prefix, str_eq, str_starts_with};

verus! {

broadcast use vstd::seq_lib::group_to_multiset_ensures;

/// `s` with every backslash turned into a slash.
pub open spec fn slashes_normalized(s: Seq<char>) -> Seq<char> {
    s.map_values(|c: char| if c == '\\' { '/' } else { c })
}

/// Writes a path with `/` separators only, so that paths look the same on
/// every platform.
pub fn normalize_path_for_frontend(path: &str) -> (r: String)
    ensures
        r@ == slashes_normalized(path@),
{
    let v = chars_of(path);
    let mut r = String::new();
    let mut i: usize = 0;
    while i < v.len()
        invariant
            i <= v@.len(),
            v@ == path@,
            r@ == slashes_normalized(v@.subrange(0, i as int)),
        decreases v@.len() - i,
    {
        let c = v[i];
        if c == '\\' {
            push_char(&mut r, '/');
        } else {
            push_char(&mut r, c);
        }
        i = i + 1;
        assert(r@ =~= slashes_normalized(v@.subrange(0, i as int)));
    }
    assert(v@.subrange(0, v@.len() as int) =~= v@);
    r
}

/// Whether `a` comes strictly before `b` in the order of their characters
/// (the order `String`'s comparison gives).
pub open spec fn text_lt(a: Seq<char>, b: Seq<char>) -> bool
    decreases a.len(),
{
    if b.len() == 0 {
        false
    } else if a.len() == 0 {
        true
    } else if a[0] != b[0] {
        (a[0] as int) < (b[0] as int)
    } else {
        text_lt(a.drop_first(), b.drop_first())
    }
}

/// Whether `a` comes before `b` or is `b`.
pub open spec fn text_le(a: Seq<char>, b: Seq<char>) -> bool {
    a == b || text_lt(a, b)
}

/// Whether `s` is in ascending order.
pub open spec fn texts_sorted(s: Seq<Seq<char>>) -> bool {
    forall|i: int, j: int| 0 <= i < j < s.len() ==> text_le(#[trigger] s[i], #[trigger] s[j])
}

proof fn lemma_text_lt_irreflexive(a: Seq<char>)
    ensures
        !text_lt(a, a),
    decreases a.len(),
{
    if a.len() > 0 {
        lemma_text_lt_irreflexive(a.drop_first());
    }
}

proof fn lemma_text_lt_total(a: Seq<char>, b: Seq<char>)
    ensures
        text_lt(a, b) || a == b || text_lt(b, a),
    decreases a.len(),
{
    if a.len() > 0 && b.len() > 0 && a[0] == b[0] {
        lemma_text_lt_total(a.drop_first(), b.drop_first());
        if a.drop_first() == b.drop_first() {
            assert(a =~= seq![a[0]] + a.drop_first());
            assert(b =~= seq![b[0]] + b.drop_first());
        }
    } else if a.len() == 0 && b.len() == 0 {
        assert(a =~= b);
    } else if a.len() > 0 && b.len() > 0 {
        let x = a[0];
        let y = b[0];
        assert((x as int) != (y as int));
    }
}

proof fn lemma_text_lt_transitive(a: Seq<char>, b: Seq<char>, c: Seq<char>)
    requires
        text_lt(a, b),
        text_lt(b, c),
    ensures
        text_lt(a, c),
    decreases a.len(),
{
    if a.len() > 0 && a[0] == b[0] && b[0] == c[0] {
        lemma_text_lt_transitive(a.drop_first(), b.drop_first(), c.drop_first());
    }
}

proof fn lemma_text_lt_asymmetric(a: Seq<char>, b: Seq<char>)
    requires
        text_lt(a, b),
    ensures
        !text_lt(b, a),
    decreases a.len(),
{
    if a.len() > 0 && b.len() > 0 && a[0] == b[0] {
        lemma_text_lt_asymmetric(a.drop_first(), b.drop_first());
    }
}

proof fn lemma_text_lt_skip(a: Seq<char>, b: Seq<char>, i: int)
    requires
        0 <= i <= a.len(),
        i <= b.len(),
        a.subrange(0, i) == b.subrange(0, i),
    ensures
        text_lt(a, b) == text_lt(a.subrange(i, a.len() as int), b.subrange(i, b.len() as int)),
    decreases i,
{
    if i > 0 {
        assert(a[0] == a.subrange(0, i)[0]);
        assert(b[0] == b.subrange(0, i)[0]);
        let a1 = a.drop_first();
        let b1 = b.drop_first();
        assert(a1.subrange(0, i - 1) =~= a.subrange(1, i));
        assert(b1.subrange(0, i - 1) =~= b.subrange(1, i));
        assert(a.subrange(1, i) =~= a.subrange(0, i).drop_first());
        assert(b.subrange(1, i) =~= b.subrange(0, i).drop_first());
        lemma_text_lt_skip(a1, b1, i - 1);
        assert(a1.subrange(i - 1, a1.len() as int) =~= a.subrange(i, a.len() as int));
        assert(b1.subrange(i - 1, b1.len() as int) =~= b.subrange(i, b.len() as int));
    } else {
        assert(a.subrange(0, a.len() as int) =~= a);
        assert(b.subrange(0, b.len() as int) =~= b);
    }
}

/// Whether `a` comes strictly before `b`.
fn text_less(a: &Vec<char>, b: &Vec<char>) -> (r: bool)
    ensures
        r == text_lt(a@, b@),
{
    let mut i: usize = 0;
    while i < a.len() && i < b.len()
        invariant
            i <= a@.len(),
            i <= b@.len(),
            a@.subrange(0, i as int) == b@.subrange(0, i as int),
        decreases a@.len() - i,
    {
        if a[i] != b[i] {
            proof {
                lemma_text_lt_skip(a@, b@, i as int);
                let x = a@.subrange(i as int, a@.len() as int);
                assert(x[0] == a@[i as int]);
            }
            return a[i] < b[i];
        }
        assert(a@.subrange(0, i + 1) =~= a@.subrange(0, i as int).push(a@[i as int]));
        assert(b@.subrange(0, i + 1) =~= b@.subrange(0, i as int).push(b@[i as int]));
        i = i + 1;
    }
    proof {
        lemma_text_lt_skip(a@, b@, i as int);
    }
    i < b.len()
}

/// `s` without its leading slashes.
pub open spec fn without_leading_slashes(s: Seq<char>) -> Seq<char>
    decreases s.len(),
{
    if s.len() > 0 && s[0] == '/' {
        without_leading_slashes(s.drop_first())
    } else {
        s
    }
}

/// The path of `abs` relative to the directory `root`: what follows
/// `root` and a slash, else what follows `root`, else `abs` itself; then
/// without leading slashes.
pub open spec fn relative_to(abs: Seq<char>, root: Seq<char>) -> Seq<char> {
    let rooted = root.push('/');
    let rest = if has_prefix(abs, rooted) {
        abs.subrange(rooted.len() as int, abs.len() as int)
    } else if has_prefix(abs, root) {
        abs.subrange(root.len() as int, abs.len() as int)
    } else {
        abs
    };
    without_leading_slashes(rest)
}

/// The non-empty relative paths of `paths` under `root`, in order.
pub open spec fn relative_paths(paths: Seq<Seq<char>>, root: Seq<char>) -> Seq<Seq<char>>
    decreases paths.len(),
{
    if paths.len() == 0 {
        Seq::empty()
    } else {
        let rest = relative_paths(paths.drop_last(), root);
        let r = relative_to(paths.last(), root);
        if r.len() > 0 {
            rest.push(r)
        } else {
            rest
        }
    }
}

/// Whether `p` is a prefix of `s` (executable).
fn starts_with_chars(s: &Vec<char>, p: &Vec<char>) -> (r: bool)
    ensures
        r == has_prefix(s@, p@),
{
    if p.len() > s.len() {
        return false;
    }
    let mut i: usize = 0;
    while i < p.len()
        invariant
            p@.len() <= s@.len(),
            i <= p@.len(),
            forall|k: int| 0 <= k < i ==> s@[k] == p@[k],
        decreases p@.len() - i,
    {
        if s[i] != p[i] {
            assert(s@.subrange(0, p@.len() as int)[i as int] != p@[i as int]);
            return false;
        }
        i = i + 1;
    }
    assert(s@.subrange(0, p@.len() as int) =~= p@);
    true
}

/// The relative path of `abs` under `root` (executable).
fn relative_path(abs: &str, root: &Vec<char>) -> (r: String)
    ensures
        r@ == relative_to(abs@, root@),
{
    let a = chars_of(abs);
    let mut rooted = root.clone();
    rooted.push('/');
    assert(rooted@ =~= root@.push('/'));
    let mut start: usize = if starts_with_chars(&a, &rooted) {
        rooted.len()
    } else if starts_with_chars(&a, root) {
        root.len()
    } else {
        0
    };
    let ghost rest = a@.subrange(start as int, a@.len() as int);
    assert(start == 0 ==> rest =~= a@);
    while start < a.len() && a[start] == '/'
        invariant
            start <= a@.len(),
            without_leading_slashes(rest) == without_leading_slashes(a@.subrange(start as int, a@.len() as int)),
        decreases a@.len() - start,
    {
        assert(a@.subrange(start as int, a@.len() as int).drop_first() =~= a@.subrange(start + 1, a@.len() as int));
        start = start + 1;
    }
    string_of_chars(&a, start, a.len())
}

/// The response to a listing of `root`: the directory and the files in
/// `/` notation, the files sorted, and their non-empty paths relative to
/// the directory in that order.
pub fn discover_response(root: &str, absolute: Vec<String>) -> (r: DiscoverProtoFilesResponse)
    ensures
        r.root_dir@ == slashes_normalized(root@),
        texts_sorted(string_views(r.absolute_paths@)),
        string_views(r.absolute_paths@).to_multiset()
            == string_views(absolute@).map_values(|p: Seq<char>| slashes_normalized(p)).to_multiset(),
        string_views(r.relative_paths@) == relative_paths(string_views(r.absolute_paths@), r.root_dir@),
{
    let root_dir = normalize_path_for_frontend(root);
    let ghost src = string_views(absolute@).map_values(|p: Seq<char>| slashes_normalized(p));
    let mut sorted: Vec<String> = Vec::new();
    let mut keys: Vec<Vec<char>> = Vec::new();
    let ghost input = absolute@;
    for raw in it: absolute.into_iter()
        invariant
            it.seq() == input,
            src == string_views(input).map_values(|p: Seq<char>| slashes_normalized(p)),
            keys@.len() == sorted@.len(),
            forall|k: int| 0 <= k < keys@.len() ==> (#[trigger] keys@[k])@ == sorted@[k]@,
            texts_sorted(string_views(sorted@)),
            string_views(sorted@).to_multiset() == src.take(it.index() as int).to_multiset(),
    {
        let p = normalize_path_for_frontend(raw.as_str());
        let key = chars_of(p.as_str());
        let mut pos: usize = 0;
        while pos < keys.len() && !text_less(&key, &keys[pos])
            invariant
                pos <= keys@.len(),
                keys@.len() == sorted@.len(),
                forall|k: int| 0 <= k < keys@.len() ==> (#[trigger] keys@[k])@ == sorted@[k]@,
                forall|k: int| 0 <= k < pos ==> !text_lt(key@, (#[trigger] keys@[k])@),
            decreases keys@.len() - pos,
        {
            pos = pos + 1;
        }
        let ghost old_sorted = string_views(sorted@);
        let ghost pv = p@;
        proof {
            assert(src.take(it.index() + 1) =~= src.take(it.index() as int).push(src[it.index() as int]));
            assert(src[it.index() as int] == pv);
            assert forall|i: int, j: int| 0 <= i < j < old_sorted.len() + 1 implies text_le(
                #[trigger] old_sorted.insert(pos as int, pv)[i],
                #[trigger] old_sorted.insert(pos as int, pv)[j],
            ) by {
                let n = old_sorted.insert(pos as int, pv);
                if i < pos && j == pos {
                    assert(old_sorted[i] == keys@[i]@);
                    lemma_text_lt_total(pv, old_sorted[i]);
                } else if i == pos && j > pos {
                    assert(old_sorted[pos as int] == keys@[pos as int]@);
                    assert(text_lt(pv, old_sorted[pos as int]));
                    if j - 1 > pos {
                        assert(text_le(old_sorted[pos as int], old_sorted[j - 1]));
                        if old_sorted[pos as int] != old_sorted[j - 1] {
                            lemma_text_lt_transitive(pv, old_sorted[pos as int], old_sorted[j - 1]);
                        }
                    }
                } else if i < pos && j < pos {
                    assert(n[i] == old_sorted[i] && n[j] == old_sorted[j]);
                } else if i > pos {
                    assert(n[i] == old_sorted[i - 1] && n[j] == old_sorted[j - 1]);
                } else {
                    assert(n[i] == old_sorted[i] && n[j] == old_sorted[j - 1]);
                }
            }
        }
        keys.insert(pos, key);
        sorted.insert(pos, p);
        proof {
            assert(string_views(sorted@) =~= old_sorted.insert(pos as int, pv));
            assert forall|k: int| 0 <= k < keys@.len() implies (#[trigger] keys@[k])@ == sorted@[k]@ by {
                if k < pos {
                } else if k > pos {
                }
            }
        }
    }
    proof {
        assert(src.take(src.len() as int) =~= src);
    }
    let root_chars = chars_of(root_dir.as_str());
    let mut relative: Vec<String> = Vec::new();
    let ghost sv = string_views(sorted@);
    let mut i: usize = 0;
    while i < sorted.len()
        invariant
            i <= sorted@.len(),
            sv == string_views(sorted@),
            root_chars@ == root_dir@,
            string_views(relative@) == relative_paths(sv.subrange(0, i as int), root_dir@),
        decreases sorted@.len() - i,
    {
        let rel = relative_path(sorted[i].as_str(), &root_chars);
        proof {
            assert(sv.subrange(0, i + 1).drop_last() =~= sv.subrange(0, i as int));
            assert(sv.subrange(0, i + 1).last() == sorted@[i as int]@);
        }
        if rel.as_str().unicode_len() > 0 {
            let ghost rv = rel@;
            relative.push(rel);
            proof {
                assert(string_views(relative@) =~= relative_paths(sv.subrange(0, i as int), root_dir@).push(rv));
            }
        }
        i = i + 1;
    }
    proof {
        assert(sv.subrange(0, sorted@.len() as int) =~= sv);
    }
    DiscoverProtoFilesResponse { root_dir, absolute_paths: sorted, relative_paths: relative }
}

/// A directory typed by hand, its leading `~` read: the path is `base`,
/// joined with `relative` when there is one.
#[derive(Debug, Clone, PartialEq, Eq)]
pub struct ExpandedPath {
    pub base: String,
    pub relative: Option<String>,
}

/// Whether `t` starts with `~` and a path separator.
pub open spec fn under_home(t: Seq<char>) -> bool {
    has_prefix(t, "~/"@) || has_prefix(t, "~\\"@)
}

/// Reads a leading `~` of the trimmed `raw` as the home directory `home`:
/// `~` alone is the home directory, `~/rest` (or `~\rest`) is `rest` under
/// it; without a home directory, or without a leading `~`, the trimmed
/// text is the path.
pub fn expand_tilde_path(raw: &str, home: Option<&str>) -> (r: ExpandedPath)
    ensures
        ({
            let t = trimmed(raw@);
            match home {
                Some(h) => if t == "~"@ {
                    r.base@ == h@ && r.relative is None
                } else if under_home(t) {
                    r.base@ == h@ && r.relative is Some && r.relative->Some_0@ == t.skip(2)
                } else {
                    r.base@ == t && r.relative is None
                },
                None => r.base@ == t && r.relative is None,
            }
        }),
{
    let t = trim_str(raw);
    match home {
        Some(h) => {
            proof {
                reveal_strlit("~");
                reveal_strlit("~/");
                reveal_strlit("~\\");
            }
            if str_eq(t.as_str(), "~") {
                return ExpandedPath { base: String::from_str(h), relative: None };
            }
            if str_starts_with(t.as_str(), "~/") || str_starts_with(t.as_str(), "~\\") {
                let v = chars_of(t.as_str());
                let rest = string_of_chars(&v, 2, v.len());
                return ExpandedPath { base: String::from_str(h), relative: Some(rest) };
            }
            ExpandedPath { base: t, relative: None }
        },
        None => ExpandedPath { base: t, relative: None },
    }
}

/// The directory typed for a scan, trimmed; a blank one is refused.
pub fn validate_root_dir(raw: &str) -> (r: Result<String, String>)
    ensures
        trimmed(raw@).len() == 0 ==> (r matches Err(e) && e@ == "导入目录不能为空"@),
        trimmed(raw@).len() > 0 ==> (r matches Ok(t) && t@ == trimmed(raw@)),
{
    let t = trim_str(raw);
    if t.as_str().unicode_len() == 0 {
        proof {
            reveal_strlit("导入目录不能为空");
        }
        Err(String::from_str("导入目录不能为空"))
    } else {
        Ok(t)
    }
}

/// The index of the last `.` of `s`, if any.
pub open spec fn last_dot(s: Seq<char>) -> Option<int>
    decreases s.len(),
{
    if s.len() == 0 {
        None
    } else if s.last() == '.' {
        Some(s.len() - 1)
    } else {
        last_dot(s.drop_last())
    }
}

/// The extension of a file name, as `Path::extension` reads it: what
/// follows the last `.`, none when there is no `.` or the only one starts
/// the name.
pub open spec fn file_extension(name: Seq<char>) -> Option<Seq<char>> {
    match last_dot(name) {
        Some(k) => if k > 0 {
            Some(name.subrange(k + 1, name.len() as int))
        } else {
            None
        },
        None => None,
    }
}

/// Whether `a` and `b` are the same text ignoring ASCII case, `b` being
/// written in lowercase ASCII letters.
pub open spec fn same_ignoring_ascii_case(a: Seq<char>, b: Seq<char>) -> bool {
    a.len() == b.len() && forall|i: int| 0 <= i < a.len() ==> #[trigger] a[i] == b[i] || (a[i] as u32) + 32
        == (b[i] as u32)
}

/// Whether a file name has the extension `proto`, in any ASCII case.
pub open spec fn is_proto_name(name: Seq<char>) -> bool {
    file_extension(name) matches Some(e) && same_ignoring_ascii_case(e, seq!['p', 'r', 'o', 't', 'o'])
}

/// Whether the file `file_name` is a proto file: its extension is `proto`
/// in any ASCII case.
pub fn has_proto_extension(file_name: &str) -> (r: bool)
    ensures
        r == is_proto_name(file_name@),
{
    let v = chars_of(file_name);
    let n = v.len();
    let mut k: usize = n;
    assert(v@.subrange(0, n as int) =~= v@);
    while k > 0
        invariant
            k <= n,
            n == v@.len(),
            v@ == file_name@,
            last_dot(v@) == last_dot(v@.subrange(0, k as int)),
        ensures
            k <= n,
            last_dot(v@) == last_dot(v@.subrange(0, k as int)),
            k == 0 || v@[k - 1] == '.',
        decreases k,
    {
        if v[k - 1] == '.' {
            break;
        }
        proof {
            assert(v@.subrange(0, k as int).drop_last() =~= v@.subrange(0, k - 1));
        }
        k = k - 1;
    }
    proof {
        if k == 0 {
            assert(v@.subrange(0, 0).len() == 0);
            assert(last_dot(v@) is None);
        } else {
            assert(v@.subrange(0, k as int).last() == v@[k - 1]);
            assert(last_dot(v@) == Some(k - 1));
        }
    }
    if k <= 1 {
        return false;
    }
    let start = k;
    assert(file_extension(file_name@) == Some(v@.subrange(start as int, n as int)));
    if n - start != 5 {
        return false;
    }
    let target = ['p', 'r', 'o', 't', 'o'];
    let ghost ext = v@.subrange(start as int, n as int);
    let ghost t = seq!['p', 'r', 'o', 't', 'o'];
    let mut i: usize = 0;
    while i < 5
        invariant
            i <= 5,
            file_extension(file_name@) == Some(ext),
            start + 5 == n,
            n == v@.len(),
            ext == v@.subrange(start as int, n as int),
            t == seq!['p', 'r', 'o', 't', 'o'],
            target@ == t,
            forall|j: int| 0 <= j < i ==> #[trigger] ext[j] == t[j] || (ext[j] as u32) + 32 == (t[j] as u32),
        decreases 5 - i,
    {
        let c = v[start + i];
        let d = target[i];
        assert(ext[i as int] == c);
        assert(d == t[i as int]);
        assert('a' <= d <= 'z');
        if !(c == d || (c as u32) == (d as u32) - 32) {
            assert(!(ext[i as int] == t[i as int] || (ext[i as int] as u32) + 32 == (t[i as int] as u32)));
            return false;
        }
        i = i + 1;
    }
    assert(same_ignoring_ascii_case(ext, t));
    true
}

} // verus!

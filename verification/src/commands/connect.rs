//! Planning a connection: reflection, or proto files with the directories
//! their imports are resolved against.

use vstd::prelude::*;
use vstd::string::StringExecFns;
use crate::commands::invoke::nonblank;
use crate::commands::requests::{ConnectRequest, ConnectResponse, DisconnectResponse};
use crate::ffi::bridge::ReflectionTlsConfig;
use crate::ffi::error::FfiError;
use crate::grpc::metadata::opt_text;
use crate::text::{string_views, str_eq, trim_str, trimmed};

verus! {

/// How descriptions are loaded.
#[derive(Debug, PartialEq, Eq)]
pub enum ConnectPlan {
    /// From the server, by reflection.
    Reflection,
    /// From local proto files, resolving imports against `import_paths`.
    ProtoFiles { proto_paths: Vec<String>, import_paths: Vec<String> },
}

/// The entries of `s` trimmed, blank ones dropped, in order.
pub open spec fn normalized_paths(s: Seq<Seq<char>>) -> Seq<Seq<char>>
    decreases s.len(),
{
    if s.len() == 0 {
        Seq::empty()
    } else {
        let rest = normalized_paths(s.drop_last());
        let t = trimmed(s.last());
        if t.len() > 0 {
            rest.push(t)
        } else {
            rest
        }
    }
}

/// The entries of `s` with every repeat of an earlier entry dropped.
pub open spec fn deduped(s: Seq<Seq<char>>) -> Seq<Seq<char>>
    decreases s.len(),
{
    if s.len() == 0 {
        Seq::empty()
    } else {
        let rest = deduped(s.drop_last());
        if rest.contains(s.last()) {
            rest
        } else {
            rest.push(s.last())
        }
    }
}

/// Trims the paths and drops the blank ones, keeping their order.
pub fn normalize_non_empty_paths(paths: &[String]) -> (r: Vec<String>)
    ensures
        string_views(r@) == normalized_paths(string_views(paths@)),
{
    let ghost sv = string_views(paths@);
    let mut r: Vec<String> = Vec::new();
    let mut i: usize = 0;
    while i < paths.len()
        invariant
            i <= paths@.len(),
            sv == string_views(paths@),
            string_views(r@) == normalized_paths(sv.subrange(0, i as int)),
        decreases paths@.len() - i,
    {
        let t = trim_str(paths[i].as_str());
        proof {
            assert(sv.subrange(0, i + 1).drop_last() =~= sv.subrange(0, i as int));
            assert(sv.subrange(0, i + 1).last() == paths@[i as int]@);
        }
        if t.as_str().unicode_len() > 0 {
            r.push(t);
            proof {
                assert(string_views(r@) =~= normalized_paths(sv.subrange(0, i as int)).push(t@));
            }
        }
        i = i + 1;
    }
    proof {
        assert(sv.subrange(0, paths@.len() as int) =~= sv);
    }
    r
}

/// Whether `p` is one of the strings of `v`.
fn contains_path(v: &Vec<String>, p: &String) -> (b: bool)
    ensures
        b == string_views(v@).contains(p@),
{
    let mut i: usize = 0;
    while i < v.len()
        invariant
            i <= v@.len(),
            forall|k: int| 0 <= k < i ==> v@[k]@ != p@,
        decreases v@.len() - i,
    {
        if str_eq(v[i].as_str(), p.as_str()) {
            proof {
                assert(string_views(v@)[i as int] == p@);
            }
            return true;
        }
        i = i + 1;
    }
    proof {
        if string_views(v@).contains(p@) {
            let k = choose|k: int| 0 <= k < string_views(v@).len() && string_views(v@)[k] == p@;
            assert(v@[k]@ == p@);
        }
    }
    false
}

/// Drops every repeat of an earlier path, keeping the first occurrences in
/// their order.
pub fn dedup_paths_preserve_order(paths: Vec<String>) -> (r: Vec<String>)
    ensures
        string_views(r@) == deduped(string_views(paths@)),
{
    let ghost src = paths@;
    let mut r: Vec<String> = Vec::new();
    for p in it: paths.into_iter()
        invariant
            it.seq() == src,
            string_views(r@) == deduped(string_views(src.take(it.index() as int))),
    {
        let ghost before = string_views(src.take(it.index() as int));
        let ghost after = string_views(src.take(it.index() + 1));
        proof {
            assert(after.drop_last() =~= before);
            assert(after.last() == p@);
        }
        if !contains_path(&r, &p) {
            r.push(p);
            proof {
                assert(string_views(r@) =~= deduped(before).push(after.last()));
            }
        }
    }
    proof {
        assert(src.take(src.len() as int) =~= src);
    }
    r
}

/// No path occurs twice in a deduplicated list.
pub proof fn lemma_deduped_no_duplicates(s: Seq<Seq<char>>)
    ensures
        deduped(s).no_duplicates(),
    decreases s.len(),
{
    if s.len() > 0 {
        lemma_deduped_no_duplicates(s.drop_last());
    }
}

/// A pushed sequence holds the old entries and the new one.
proof fn lemma_push_contains(a: Seq<Seq<char>>, e: Seq<char>, x: Seq<char>)
    ensures
        a.push(e).contains(x) <==> (a.contains(x) || x == e),
{
    let p = a.push(e);
    if p.contains(x) {
        let k = choose|k: int| 0 <= k < p.len() && p[k] == x;
        if k < a.len() {
            assert(a[k] == x);
        }
    }
    if a.contains(x) {
        let k = choose|k: int| 0 <= k < a.len() && a[k] == x;
        assert(p[k] == x);
    }
    if x == e {
        assert(p[a.len() as int] == x);
    }
}

/// A deduplicated list holds exactly the paths of the list it came from.
pub proof fn lemma_deduped_same_paths(s: Seq<Seq<char>>, x: Seq<char>)
    ensures
        deduped(s).contains(x) <==> s.contains(x),
    decreases s.len(),
{
    if s.len() > 0 {
        let d = s.drop_last();
        let e = s.last();
        let rest = deduped(d);
        lemma_deduped_same_paths(d, x);
        lemma_deduped_same_paths(d, e);
        assert(s =~= d.push(e));
        lemma_push_contains(d, e, x);
        lemma_push_contains(rest, e, x);
    }
}

/// A list without repeats is left as it is.
pub proof fn lemma_deduped_keeps_distinct(s: Seq<Seq<char>>)
    requires
        s.no_duplicates(),
    ensures
        deduped(s) == s,
    decreases s.len(),
{
    if s.len() > 0 {
        let d = s.drop_last();
        assert(d.no_duplicates());
        lemma_deduped_keeps_distinct(d);
        if d.contains(s.last()) {
            let k = choose|k: int| 0 <= k < d.len() && d[k] == s.last();
            assert(s[k] == s[s.len() - 1]);
        }
        assert(d.push(s.last()) =~= s);
    }
}

/// Adding paths at the end never moves the ones already kept: the
/// deduplication of `s` is the start of that of `s + t`.
pub proof fn lemma_deduped_stable_prefix(s: Seq<Seq<char>>, t: Seq<Seq<char>>)
    ensures
        deduped(s).len() <= deduped(s + t).len(),
        deduped(s + t).subrange(0, deduped(s).len() as int) == deduped(s),
    decreases t.len(),
{
    if t.len() == 0 {
        assert(s + t =~= s);
        assert(deduped(s).subrange(0, deduped(s).len() as int) =~= deduped(s));
    } else {
        let t2 = t.drop_last();
        lemma_deduped_stable_prefix(s, t2);
        assert((s + t).drop_last() =~= s + t2);
        let a = deduped(s + t2);
        let n = deduped(s).len() as int;
        if !a.contains((s + t).last()) {
            assert(a.push((s + t).last()).subrange(0, n) =~= a.subrange(0, n));
        }
    }
}

/// Whether `t` names a directory to resolve imports against: not blank
/// and not ".".
pub open spec fn import_dir_kept(t: Seq<char>) -> bool {
    t.len() > 0 && t != "."@
}

/// The import directories a chain of ancestor directories contributes:
/// each trimmed, blank ones and "." dropped, in order.
pub open spec fn import_candidates(chain: Seq<Seq<char>>) -> Seq<Seq<char>>
    decreases chain.len(),
{
    if chain.len() == 0 {
        Seq::empty()
    } else {
        let rest = import_candidates(chain.drop_last());
        let t = trimmed(chain.last());
        if import_dir_kept(t) {
            rest.push(t)
        } else {
            rest
        }
    }
}

/// Whether `p` is written with `/` separators only, in a form that every
/// platform reads alike: no `\` and no `:`, no empty component (`//`), no
/// `.` component, and no trailing `/` unless `p` is the root `/` itself.
pub open spec fn slash_path(p: Seq<char>) -> bool {
    &&& forall|i: int| 0 <= i < p.len() ==> #[trigger] p[i] != '\\' && p[i] != ':'
    &&& forall|i: int| 0 <= i < p.len() - 1 ==> !(#[trigger] p[i] == '/' && p[i + 1] == '/')
    &&& !(p.len() == 1 && p[0] == '.')
    &&& !(p.len() >= 2 && p[0] == '.' && p[1] == '/')
    &&& !(p.len() >= 2 && p[p.len() - 2] == '/' && p[p.len() - 1] == '.')
    &&& forall|i: int| 0 <= i < p.len() - 2 ==> !(#[trigger] p[i] == '/' && p[i + 1] == '.' && p[i + 2] == '/')
    &&& p.len() > 1 ==> p[p.len() - 1] != '/'
}

/// The index of the last `/` of `p`, if any.
pub open spec fn last_slash(p: Seq<char>) -> Option<int>
    decreases p.len(),
{
    if p.len() == 0 {
        None
    } else if p.last() == '/' {
        Some(p.len() - 1)
    } else {
        last_slash(p.drop_last())
    }
}

/// The parent of a path written with `/` separators: none for the empty
/// path and the root; the empty path for a single component; the root for
/// a component under the root; otherwise the path up to its last `/`.
pub open spec fn slash_parent(p: Seq<char>) -> Option<Seq<char>> {
    if p.len() == 0 || p == seq!['/'] {
        None
    } else {
        match last_slash(p) {
            None => Some(Seq::empty()),
            Some(k) => if k == 0 {
                Some(seq!['/'])
            } else {
                Some(p.subrange(0, k))
            },
        }
    }
}

/// The directories met walking up from `start` through at most `depth`
/// parents, `start` first, for paths written with `/` separators.
pub open spec fn slash_walk(start: Option<Seq<char>>, depth: nat) -> Seq<Seq<char>>
    decreases depth,
{
    match start {
        None => Seq::empty(),
        Some(s) => if depth == 0 {
            Seq::empty()
        } else {
            seq![s] + slash_walk(slash_parent(s), (depth - 1) as nat)
        },
    }
}

proof fn lemma_last_slash(p: Seq<char>)
    ensures
        match last_slash(p) {
            Some(k) => 0 <= k < p.len() && p[k] == '/' && forall|j: int| k < j < p.len() ==> p[j] != '/',
            None => forall|j: int| 0 <= j < p.len() ==> p[j] != '/',
        },
    decreases p.len(),
{
    if p.len() > 0 && p.last() != '/' {
        lemma_last_slash(p.drop_last());
        assert forall|j: int| 0 <= j < p.len() - 1 implies p.drop_last()[j] == p[j] by {}
    }
}

/// The parent of a path in `/` form is a strictly shorter start of it, and
/// in `/` form itself.
proof fn lemma_slash_parent(p: Seq<char>)
    requires
        slash_path(p),
    ensures
        slash_parent(p) matches Some(q) ==> strict_prefix(q, p) && slash_path(q),
{
    lemma_last_slash(p);
    if !(p.len() == 0 || p == seq!['/']) {
        match last_slash(p) {
            None => {
                assert(Seq::<char>::empty() =~= p.subrange(0, 0));
                assert(strict_prefix(Seq::<char>::empty(), p));
            },
            Some(k) => {
                if k == 0 {
                    let q = seq!['/'];
                    if p.len() == 1 {
                        assert(p =~= q);
                    }
                    assert(p.subrange(0, 1) =~= q);
                    assert(strict_prefix(q, p));
                } else {
                    let q = p.subrange(0, k);
                    assert forall|i: int| 0 <= i < q.len() implies #[trigger] q[i] != '\\' && q[i] != ':' by {
                        assert(q[i] == p[i]);
                    }
                    assert forall|i: int| 0 <= i < q.len() - 1 implies !(#[trigger] q[i] == '/' && q[i + 1] == '/') by {
                        assert(q[i] == p[i] && q[i + 1] == p[i + 1]);
                    }
                    assert forall|i: int| 0 <= i < q.len() - 2 implies !(#[trigger] q[i] == '/' && q[i + 1] == '.'
                        && q[i + 2] == '/') by {
                        assert(q[i] == p[i] && q[i + 1] == p[i + 1] && q[i + 2] == p[i + 2]);
                    }
                    if q.len() >= 2 && q[q.len() - 2] == '/' && q[q.len() - 1] == '.' {
                        assert(p[k - 2] == '/' && p[k - 1] == '.' && p[k] == '/');
                    }
                    if q.len() > 1 && q[q.len() - 1] == '/' {
                        assert(p[k - 1] == '/' && p[k] == '/');
                    }
                    if q.len() == 1 && q[0] == '.' {
                        assert(p[0] == '.' && p[1] == '/');
                    }
                    if q.len() >= 2 && q[0] == '.' && q[1] == '/' {
                        assert(p[0] == '.' && p[1] == '/');
                    }
                    assert(slash_path(q));
                    assert(p.subrange(0, q.len() as int) =~= q);
                    assert(strict_prefix(q, p));
                }
            },
        }
    }
}

/// Whether `p` is a strictly shorter start of `s`.
pub open spec fn strict_prefix(p: Seq<char>, s: Seq<char>) -> bool {
    p.len() < s.len() && s.subrange(0, p.len() as int) == p
}

/// Whether `chain` can be the directories met walking up from `start`
/// through at most `max_depth` parents: it starts at `start`, has at most
/// `max_depth` entries, and each is a strictly shorter start of the one
/// before it; for a start in `/` form it is exactly the walk of
/// [`slash_walk`].
pub open spec fn ancestor_chain(start: Option<Seq<char>>, chain: Seq<Seq<char>>, max_depth: nat) -> bool {
    &&& chain.len() <= max_depth
    &&& start is None ==> chain.len() == 0
    &&& start is Some && max_depth > 0 ==> chain.len() > 0 && chain[0] == start->Some_0
    &&& forall|k: int| 0 <= k < chain.len() - 1 ==> strict_prefix(#[trigger] chain[k + 1], chain[k])
    &&& (start matches Some(s) && slash_path(s)) ==> chain == slash_walk(start, max_depth)
}

/// Whether `path` is a relative path on every platform: not empty, not
/// starting with a separator (`/` or `\`), and not starting with a drive
/// letter and `:`. Such a path has neither a root nor a prefix.
pub open spec fn plainly_relative(path: Seq<char>) -> bool {
    &&& path.len() > 0
    &&& path[0] != '/'
    &&& path[0] != '\\'
    &&& !(path.len() > 1 && path[1] == ':')
}

/// The parent directory of `path`, as `Path::parent` gives it.
///
/// Calls `std::path::Path::parent`. Its documentation says it returns the
/// path without its final component, so a result is a strictly shorter
/// start of the path, and that it returns `None` only for the empty path
/// or one that ends in a root or prefix, which a plainly relative path
/// has not. Which start it is depends on the platform's separators, and
/// that is left unsaid.
#[verifier::external_body]
fn path_parent(path: &str) -> (r: Option<String>)
    ensures
        r is Some ==> strict_prefix(r->Some_0@, path@),
        plainly_relative(path@) ==> r is Some,
        slash_path(path@) ==> opt_text(r) == slash_parent(path@),
{
    match std::path::Path::new(path).parent() {
        Some(p) => Some(p.to_string_lossy().to_string()),
        None => None,
    }
}

/// Whether `path` is absolute, as `Path::is_absolute` decides it.
///
/// Calls `std::path::Path::is_absolute`. Its documentation says an absolute
/// path starts with the root (on Windows with a prefix and the root), so an
/// absolute path is not empty and a plainly relative one is not absolute;
/// the rest depends on the platform and is left unsaid.
#[verifier::external_body]
fn path_is_absolute(path: &str) -> (r: bool)
    ensures
        r ==> path@.len() > 0,
        plainly_relative(path@) ==> !r,
{
    std::path::Path::new(path).is_absolute()
}

/// The directories met walking up from `current` through at most
/// `max_depth` parents, `current` first.
pub fn collect_ancestors(current: Option<String>, max_depth: usize) -> (r: Vec<String>)
    ensures
        ancestor_chain(opt_text(current), string_views(r@), max_depth as nat),
{
    let ghost start = opt_text(current);
    let mut r: Vec<String> = Vec::new();
    let mut cur = current;
    let mut depth: usize = 0;
    while depth < max_depth
        invariant
            depth <= max_depth,
            r@.len() == depth,
            depth == 0 ==> cur == current,
            current is None ==> r@.len() == 0 && cur is None,
            current is Some && depth > 0 ==> r@[0]@ == current->Some_0@,
            depth > 0 && cur is Some ==> strict_prefix(cur->Some_0@, r@[depth - 1]@),
            forall|k: int| 0 <= k < r@.len() - 1 ==> strict_prefix(#[trigger] r@[k + 1]@, r@[k]@),
            start == opt_text(current),
            (current matches Some(c) && slash_path(c@)) ==> (cur matches Some(x) ==> slash_path(x@))
                && string_views(r@) + slash_walk(opt_text(cur), (max_depth - depth) as nat) == slash_walk(
                opt_text(current),
                max_depth as nat,
            ),
        ensures
            (current matches Some(c) && slash_path(c@)) ==> string_views(r@) + slash_walk(
                opt_text(cur),
                (max_depth - depth) as nat,
            ) == slash_walk(opt_text(current), max_depth as nat),
            depth <= max_depth,
            r@.len() == depth,
            depth == 0 ==> cur == current,
            current is None ==> r@.len() == 0,
            current is Some && depth > 0 ==> r@[0]@ == current->Some_0@,
            forall|k: int| 0 <= k < r@.len() - 1 ==> strict_prefix(#[trigger] r@[k + 1]@, r@[k]@),
            depth == max_depth || cur is None,
        decreases max_depth - depth,
    {
        let path = match cur {
            Some(p) => p,
            None => break,
        };
        let next = path_parent(path.as_str());
        let ghost prev = r@;
        let ghost pv = path@;
        proof {
            if start matches Some(c) && slash_path(c) {
                lemma_slash_parent(pv);
                assert(slash_walk(Some(pv), (max_depth - depth) as nat) == seq![pv] + slash_walk(
                    slash_parent(pv),
                    (max_depth - depth - 1) as nat,
                ));
            }
        }
        r.push(path);
        proof {
            assert(string_views(r@) =~= string_views(prev).push(pv));
            assert(string_views(prev).push(pv) + slash_walk(opt_text(next), (max_depth - depth - 1) as nat)
                =~= string_views(prev) + (seq![pv] + slash_walk(opt_text(next), (max_depth - depth - 1) as nat)));
        }
        cur = next;
        depth = depth + 1;
    }
    proof {
        if start matches Some(c) && slash_path(c) {
            assert(slash_walk(opt_text(cur), (max_depth - depth) as nat) == Seq::<Seq<char>>::empty());
            assert(string_views(r@) + Seq::<Seq<char>>::empty() =~= string_views(r@));
        }
        let sv = string_views(r@);
        if r@.len() > 0 {
            assert(sv[0] == r@[0]@);
        }
        assert forall|k: int| 0 <= k < sv.len() - 1 implies strict_prefix(#[trigger] sv[k + 1], sv[k]) by {
            assert(sv[k + 1] == r@[k + 1]@);
            assert(sv[k] == r@[k]@);
        }
    }
    r
}

/// Appends to `import_paths` the import directories `chain` contributes.
pub fn push_import_candidates(chain: &Vec<String>, import_paths: &mut Vec<String>)
    ensures
        string_views(final(import_paths)@) == string_views(old(import_paths)@) + import_candidates(string_views(chain@)),
{
    let ghost base = string_views(import_paths@);
    let ghost cv = string_views(chain@);
    let mut i: usize = 0;
    while i < chain.len()
        invariant
            i <= chain@.len(),
            cv == string_views(chain@),
            string_views(import_paths@) == base + import_candidates(cv.subrange(0, i as int)),
        decreases chain@.len() - i,
    {
        let t = trim_str(chain[i].as_str());
        proof {
            assert(cv.subrange(0, i + 1).drop_last() =~= cv.subrange(0, i as int));
            assert(cv.subrange(0, i + 1).last() == chain@[i as int]@);
        }
        if t.as_str().unicode_len() > 0 && !str_eq(t.as_str(), ".") {
            let ghost prev = import_paths@;
            let ghost tv = t@;
            import_paths.push(t);
            proof {
                assert(import_candidates(cv.subrange(0, i + 1)) == import_candidates(cv.subrange(0, i as int)).push(tv));
                assert(string_views(import_paths@) =~= string_views(prev).push(tv));
                assert(string_views(import_paths@) =~= base + import_candidates(cv.subrange(0, i as int)).push(tv));
            }
        }
        i = i + 1;
    }
    proof {
        assert(cv.subrange(0, chain@.len() as int) =~= cv);
    }
}

/// Appends to `import_paths` the directory `current` and its ancestors,
/// at most `max_depth` of them, each trimmed and skipped when blank or
/// ".".
pub fn append_import_path_ancestors(current: Option<String>, import_paths: &mut Vec<String>, max_depth: usize)
    ensures
        exists|chain: Seq<Seq<char>>| {
            &&& ancestor_chain(opt_text(current), chain, max_depth as nat)
            &&& string_views(final(import_paths)@) == string_views(old(import_paths)@) + import_candidates(chain)
        },
{
    let chain = collect_ancestors(current, max_depth);
    push_import_candidates(&chain, import_paths);
}


/// The import directories a list of chains contributes, chain after chain.
pub open spec fn all_candidates(chains: Seq<Seq<Seq<char>>>) -> Seq<Seq<char>>
    decreases chains.len(),
{
    if chains.len() == 0 {
        Seq::empty()
    } else {
        all_candidates(chains.drop_last()) + import_candidates(chains.last())
    }
}

/// The views of a vector of chains.
pub open spec fn chain_views(v: Seq<Vec<String>>) -> Seq<Seq<Seq<char>>> {
    v.map_values(|c: Vec<String>| string_views(c@))
}

/// The plan for proto files, given the directories met walking up from
/// each of them: the files as given, and the given import directories
/// followed by those the chains contribute, repeats dropped.
pub fn plan_proto_files(proto_paths: Vec<String>, import_paths: Vec<String>, chains: &Vec<Vec<String>>) -> (r: ConnectPlan)
    ensures
        r matches ConnectPlan::ProtoFiles { proto_paths: p, import_paths: i } && p == proto_paths
            && string_views(i@) == deduped(string_views(import_paths@) + all_candidates(chain_views(chains@))),
{
    let ghost base = string_views(import_paths@);
    let ghost cv = chain_views(chains@);
    let mut imports = import_paths;
    let mut k: usize = 0;
    while k < chains.len()
        invariant
            k <= chains@.len(),
            cv == chain_views(chains@),
            string_views(imports@) == base + all_candidates(cv.subrange(0, k as int)),
        decreases chains@.len() - k,
    {
        push_import_candidates(&chains[k], &mut imports);
        proof {
            assert(cv.subrange(0, k + 1).drop_last() =~= cv.subrange(0, k as int));
            assert(cv.subrange(0, k + 1).last() == string_views(chains@[k as int]@));
            assert(string_views(imports@) =~= base + all_candidates(cv.subrange(0, k + 1)));
        }
        k = k + 1;
    }
    proof {
        assert(cv.subrange(0, chains@.len() as int) =~= cv);
    }
    ConnectPlan::ProtoFiles { proto_paths, import_paths: dedup_paths_preserve_order(imports) }
}

/// Whether `chain` can be the directories whose imports a proto file at
/// `path` contributes: at most eight, the first a strictly shorter start
/// of the path, each next one a strictly shorter start of the one before;
/// exactly one for a plainly relative path; and, for a path in `/` form,
/// its parent alone (a relative path) or its parent and ancestors up to
/// eight (an absolute one; whether `/x` is absolute depends on the
/// platform).
pub open spec fn proto_file_chain(path: Seq<char>, chain: Seq<Seq<char>>) -> bool {
    &&& chain.len() <= 8
    &&& chain.len() > 0 ==> strict_prefix(chain[0], path)
    &&& forall|k: int| 0 <= k < chain.len() - 1 ==> strict_prefix(#[trigger] chain[k + 1], chain[k])
    &&& plainly_relative(path) ==> chain.len() == 1
    &&& slash_path(path) ==> (chain == slash_walk(slash_parent(path), 1) || chain == slash_walk(
        slash_parent(path),
        8,
    ))
    &&& slash_path(path) && plainly_relative(path) ==> chain == slash_walk(slash_parent(path), 1)
}

/// Whether `chain` is the directories whose imports a proto file at `path`
/// contributes, given whether the path is `absolute`: its parent and up to
/// seven further ancestors when it is, its parent alone when it is not; for
/// a path in `/` form exactly that walk, and for any path a chain of
/// strictly shorter starts, of one directory when the path is plainly
/// relative and not taken as absolute.
pub open spec fn proto_file_chain_for(path: Seq<char>, absolute: bool, chain: Seq<Seq<char>>) -> bool {
    &&& chain.len() <= (if absolute { 8nat } else { 1nat })
    &&& chain.len() > 0 ==> strict_prefix(chain[0], path)
    &&& forall|k: int| 0 <= k < chain.len() - 1 ==> strict_prefix(#[trigger] chain[k + 1], chain[k])
    &&& plainly_relative(path) ==> chain.len() >= 1
    &&& plainly_relative(path) && !absolute ==> chain.len() == 1
    &&& slash_path(path) ==> chain == slash_walk(slash_parent(path), if absolute { 8nat } else { 1nat })
}

/// The directories whose imports the proto file at `path` contributes,
/// given whether the path is `absolute`: its parent and up to seven further
/// ancestors when it is, its parent alone when it is not.
pub fn proto_file_ancestors_for(path: &str, absolute: bool) -> (r: Vec<String>)
    ensures
        proto_file_chain_for(path@, absolute, string_views(r@)),
{
    let depth: usize = if absolute { 8 } else { 1 };
    let parent = path_parent(path);
    proof {
        if slash_path(path@) {
            lemma_slash_parent(path@);
        }
    }
    let ghost pt = opt_text(parent);
    let r = collect_ancestors(parent, depth);
    proof {
        let sv = string_views(r@);
        if sv.len() > 0 {
            assert(pt is Some);
        }
        if slash_path(path@) {
            assert(pt == slash_parent(path@));
            if pt is None {
                assert(sv =~= slash_walk(pt, depth as nat));
            }
            assert(sv == slash_walk(pt, depth as nat));
        }
    }
    r
}

/// A chain for a path taken as absolute exactly when `Path::is_absolute`
/// may say so is one of the chains [`proto_file_chain`] allows.
proof fn lemma_chain_for_is_chain(path: Seq<char>, absolute: bool, chain: Seq<Seq<char>>)
    requires
        proto_file_chain_for(path, absolute, chain),
        plainly_relative(path) ==> !absolute,
    ensures
        proto_file_chain(path, chain),
{
}

/// The directories whose imports the proto file at `path` contributes: its
/// parent and up to seven further ancestors when `Path::is_absolute` says
/// the path is absolute, its parent alone otherwise, as
/// [`proto_file_ancestors_for`] says; a plainly relative path always has a
/// parent, so it contributes exactly one directory.
pub fn proto_file_ancestors(path: &str) -> (r: Vec<String>)
    ensures
        proto_file_chain(path@, string_views(r@)),
        plainly_relative(path@) ==> r@.len() == 1,
{
    let absolute = path_is_absolute(path);
    let r = proto_file_ancestors_for(path, absolute);
    proof {
        lemma_chain_for_is_chain(path@, absolute, string_views(r@));
    }
    r
}

/// The proto files a request names: its list, trimmed and without blank
/// entries, when that leaves any; else its single file, trimmed, when not
/// blank.
pub open spec fn selected_proto_paths(r: ConnectRequest) -> Seq<Seq<char>> {
    let listed = match r.proto_files {
        Some(v) => normalized_paths(string_views(v@)),
        None => Seq::empty(),
    };
    if listed.len() > 0 {
        listed
    } else {
        match nonblank(opt_text(r.proto_file)) {
            Some(t) => seq![t],
            None => Seq::empty(),
        }
    }
}

/// The import directories a request gives, trimmed and without blank
/// entries.
pub open spec fn requested_import_paths(r: ConnectRequest) -> Seq<Seq<char>> {
    match r.import_paths {
        Some(v) => normalized_paths(string_views(v@)),
        None => Seq::empty(),
    }
}

/// The error of a request that asks neither for reflection nor for a proto
/// file.
pub open spec fn no_source_message() -> Seq<char> {
    "连接失败：请启用 reflection 或选择一个 proto 文件"@
}

/// Trims the paths of an optional list and drops the blank ones.
fn normalize_optional_paths(paths: &Option<Vec<String>>) -> (r: Vec<String>)
    ensures
        string_views(r@) == (match *paths {
            Some(v) => normalized_paths(string_views(v@)),
            None => Seq::<Seq<char>>::empty(),
        }),
{
    match paths {
        Some(v) => normalize_non_empty_paths(v.as_slice()),
        None => {
            let r: Vec<String> = Vec::new();
            assert(string_views(r@) =~= Seq::<Seq<char>>::empty());
            r
        },
    }
}

/// The proto files a request names, as [`selected_proto_paths`] says.
pub fn select_proto_paths(request: &ConnectRequest) -> (r: Vec<String>)
    ensures
        string_views(r@) == selected_proto_paths(*request),
{
    let mut proto_paths = normalize_optional_paths(&request.proto_files);
    if proto_paths.len() == 0 {
        match &request.proto_file {
            Some(f) => {
                let t = trim_str(f.as_str());
                if t.as_str().unicode_len() > 0 {
                    proto_paths.push(t);
                    proof {
                        assert(string_views(proto_paths@) =~= seq![trimmed(f@)]);
                    }
                } else {
                    assert(string_views(proto_paths@) =~= Seq::<Seq<char>>::empty());
                }
            },
            None => {
                assert(string_views(proto_paths@) =~= Seq::<Seq<char>>::empty());
            },
        }
    }
    proto_paths
}

/// Whether the `j`-th proto file counts as absolute under `flags`: an
/// entry past the end counts as not absolute.
pub open spec fn flag_at(flags: Seq<bool>, j: int) -> bool {
    0 <= j < flags.len() && flags[j]
}

/// Plans a connection, given for each proto file the request names whether
/// its path is absolute (`absolute`, in the order of the files; missing
/// entries count as not absolute): reflection when asked for; else the
/// proto files, with the given import directories and those around each
/// file (its parent and up to seven further ancestors for an absolute
/// path, its parent alone otherwise), repeats dropped; an error when no
/// file is named.
pub fn connect_plan_for(request: &ConnectRequest, absolute: &Vec<bool>) -> (r: Result<ConnectPlan, String>)
    ensures
        request.use_reflection ==> r == Ok::<ConnectPlan, String>(ConnectPlan::Reflection),
        !request.use_reflection && selected_proto_paths(*request).len() == 0 ==> r is Err
            && r->Err_0@ == no_source_message(),
        !request.use_reflection && selected_proto_paths(*request).len() > 0 ==> r is Ok
            && (r->Ok_0 matches ConnectPlan::ProtoFiles { proto_paths: p, import_paths: i }
            && string_views(p@) == selected_proto_paths(*request)
            && exists|chains: Seq<Seq<Seq<char>>>| {
                &&& chains.len() == p@.len()
                &&& forall|j: int| 0 <= j < chains.len() ==> proto_file_chain_for(
                    #[trigger] p@[j]@,
                    flag_at(absolute@, j),
                    chains[j],
                )
                &&& string_views(i@) == deduped(requested_import_paths(*request) + all_candidates(chains))
            }),
{
    if request.use_reflection {
        return Ok(ConnectPlan::Reflection);
    }
    let proto_paths = select_proto_paths(request);
    if proto_paths.len() == 0 {
        return Err(String::from_str("连接失败：请启用 reflection 或选择一个 proto 文件"));
    }
    let imports = normalize_optional_paths(&request.import_paths);
    let mut chains: Vec<Vec<String>> = Vec::new();
    let mut j: usize = 0;
    while j < proto_paths.len()
        invariant
            j <= proto_paths@.len(),
            chains@.len() == j,
            forall|m: int| 0 <= m < j ==> proto_file_chain_for(
                #[trigger] proto_paths@[m]@,
                flag_at(absolute@, m),
                string_views(chains@[m]@),
            ),
        decreases proto_paths@.len() - j,
    {
        let flag = j < absolute.len() && absolute[j];
        let c = proto_file_ancestors_for(proto_paths[j].as_str(), flag);
        chains.push(c);
        j = j + 1;
    }
    let ghost chosen = chain_views(chains@);
    let ghost p = proto_paths@;
    let plan = plan_proto_files(proto_paths, imports, &chains);
    proof {
        assert forall|m: int| 0 <= m < chosen.len() implies proto_file_chain_for(
            #[trigger] p[m]@,
            flag_at(absolute@, m),
            chosen[m],
        ) by {
            assert(chosen[m] == string_views(chains@[m]@));
        }
    }
    Ok(plan)
}

/// Plans a connection as [`connect_plan_for`] does, each proto file taken
/// as absolute when `Path::is_absolute` says so.
pub fn build_connect_plan(request: &ConnectRequest) -> (r: Result<ConnectPlan, String>)
    ensures
        request.use_reflection ==> r == Ok::<ConnectPlan, String>(ConnectPlan::Reflection),
        !request.use_reflection && selected_proto_paths(*request).len() == 0 ==> r is Err
            && r->Err_0@ == no_source_message(),
        !request.use_reflection && selected_proto_paths(*request).len() > 0 ==> r is Ok
            && (r->Ok_0 matches ConnectPlan::ProtoFiles { proto_paths: p, import_paths: i }
            && string_views(p@) == selected_proto_paths(*request)
            && exists|chains: Seq<Seq<Seq<char>>>| {
                &&& chains.len() == p@.len()
                &&& forall|j: int| 0 <= j < chains.len() ==> proto_file_chain(#[trigger] p@[j]@, chains[j])
                &&& string_views(i@) == deduped(requested_import_paths(*request) + all_candidates(chains))
            }),
{
    let paths = select_proto_paths(request);
    let mut absolute: Vec<bool> = Vec::new();
    let mut j: usize = 0;
    while j < paths.len()
        invariant
            j <= paths@.len(),
            absolute@.len() == j,
            forall|m: int| 0 <= m < j ==> plainly_relative(#[trigger] paths@[m]@) ==> !absolute@[m],
        decreases paths@.len() - j,
    {
        absolute.push(path_is_absolute(paths[j].as_str()));
        j = j + 1;
    }
    let r = connect_plan_for(request, &absolute);
    proof {
        if !request.use_reflection && selected_proto_paths(*request).len() > 0 {
            let rp = r->Ok_0;
            let p = rp->proto_paths;
            let i = rp->import_paths;
            let chains = choose|chains: Seq<Seq<Seq<char>>>| {
                &&& chains.len() == p@.len()
                &&& forall|j: int| 0 <= j < chains.len() ==> proto_file_chain_for(
                    #[trigger] p@[j]@,
                    flag_at(absolute@, j),
                    chains[j],
                )
                &&& string_views(i@) == deduped(requested_import_paths(*request) + all_candidates(chains))
            };
            assert forall|j: int| 0 <= j < chains.len() implies proto_file_chain(#[trigger] p@[j]@, chains[j]) by {
                assert(p@[j]@ == string_views(p@)[j]);
                assert(paths@[j]@ == string_views(paths@)[j]);
                assert(p@[j]@ == paths@[j]@);
                lemma_chain_for_is_chain(p@[j]@, flag_at(absolute@, j), chains[j]);
            }
        }
    }
    r
}

/// The settings of a reflection connection: none unless the request has
/// TLS settings or asks to skip verification; else verification skipped
/// when either asks for it, and the certificate paths of the TLS settings.
pub fn build_reflection_tls_config(request: &ConnectRequest) -> (r: Option<ReflectionTlsConfig>)
    ensures
        request.tls is None && !request.insecure ==> r is None,
        request.tls is None && request.insecure ==> r is Some && r->Some_0.insecure
            && r->Some_0.cert_path is None && r->Some_0.key_path is None && r->Some_0.ca_path is None,
        request.tls is Some ==> r is Some && ({
            let t = request.tls->Some_0;
            let c = r->Some_0;
            &&& c.insecure == (request.insecure || t.insecure)
            &&& opt_text(c.cert_path) == opt_text(t.cert_file)
            &&& opt_text(c.key_path) == opt_text(t.key_file)
            &&& opt_text(c.ca_path) == opt_text(t.ca_file)
        }),
{
    match &request.tls {
        None => {
            if !request.insecure {
                None
            } else {
                Some(ReflectionTlsConfig { insecure: true, cert_path: None, key_path: None, ca_path: None })
            }
        },
        Some(t) => Some(ReflectionTlsConfig {
            insecure: request.insecure || t.insecure,
            cert_path: t.cert_file.clone(),
            key_path: t.key_file.clone(),
            ca_path: t.ca_file.clone(),
        }),
    }
}

/// The answer to a connect request, given the text of what failed, if
/// anything did.
pub fn connect_response(outcome: Result<(), String>) -> (r: ConnectResponse)
    ensures
        r.success == outcome is Ok,
        outcome is Ok ==> r.error is None,
        outcome is Err ==> r.error == Some(outcome->Err_0),
{
    match outcome {
        Ok(()) => ConnectResponse { success: true, error: None },
        Err(e) => ConnectResponse { success: false, error: Some(e) },
    }
}

/// The text of a failure to reset the loaded descriptions.
pub open spec fn reset_failure_message(e: FfiError) -> Seq<char> {
    "重置 gRPC 解析状态失败: "@ + e.message()
}

/// The answer to a disconnect request, given how resetting the loaded
/// descriptions went.
pub fn disconnect_response(outcome: Result<(), FfiError>) -> (r: DisconnectResponse)
    ensures
        r.success == outcome is Ok,
        outcome is Ok ==> r.error is None,
        outcome is Err ==> r.error is Some && r.error->Some_0@ == reset_failure_message(outcome->Err_0),
{
    match outcome {
        Ok(()) => DisconnectResponse { success: true, error: None },
        Err(e) => {
            let mut m = String::from_str("重置 gRPC 解析状态失败: ");
            let t = e.to_string();
            m.append(t.as_str());
            DisconnectResponse { success: false, error: Some(m) }
        },
    }
}

} // verus!

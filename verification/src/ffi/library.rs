//! Where the codec bridge's dynamic library is looked for, in order.

use vstd::prelude::*;
use vstd::string::StringExecFns;
use crate::text::string_views;

verus! {

/// The operating system the application is built for.
#[derive(Debug, Clone, Copy, PartialEq, Eq)]
pub enum TargetOs {
    MacOs,
    Linux,
    Windows,
    Other,
}

/// The file name of the library on `os`.
pub open spec fn library_file_name(os: TargetOs) -> Seq<char> {
    match os {
        TargetOs::MacOs => "libgrpc_codec_bridge.dylib"@,
        TargetOs::Windows => "grpc_codec_bridge.dll"@,
        _ => "libgrpc_codec_bridge.so"@,
    }
}

/// The file names the library may have on `os`.
pub fn library_names(os: TargetOs) -> (r: Vec<String>)
    ensures
        string_views(r@) == seq![library_file_name(os)],
{
    let name = match os {
        TargetOs::MacOs => String::from_str("libgrpc_codec_bridge.dylib"),
        TargetOs::Windows => String::from_str("grpc_codec_bridge.dll"),
        _ => String::from_str("libgrpc_codec_bridge.so"),
    };
    let mut r: Vec<String> = Vec::new();
    r.push(name);
    assert(string_views(r@) =~= seq![library_file_name(os)]);
    r
}

/// A place to look for the library: a base directory (or file) and the
/// path components joined onto it.
#[derive(Debug)]
pub struct LibraryCandidate {
    pub base: String,
    pub parts: Vec<String>,
}

/// A candidate as plain values.
pub open spec fn candidate_view(c: LibraryCandidate) -> (Seq<char>, Seq<Seq<char>>) {
    (c.base@, string_views(c.parts@))
}

/// The places under the working directory `dir` for the file `name`: the
/// directory itself, its resources, the resources of `src-tauri`, and the
/// sidecar directories one and two levels up.
pub open spec fn working_dir_candidates(dir: Seq<char>, name: Seq<char>) -> Seq<(Seq<char>, Seq<Seq<char>>)> {
    seq![
        (dir, seq![name]),
        (dir, seq!["resources"@, name]),
        (dir, seq!["src-tauri"@, "resources"@, name]),
        (dir, seq!["sidecar"@, name]),
        (dir, seq!["sidecar"@, "ffi"@, name]),
        (dir, seq![".."@, "sidecar"@, name]),
        (dir, seq![".."@, "sidecar"@, "ffi"@, name]),
        (dir, seq![".."@, ".."@, "sidecar"@, name]),
        (dir, seq![".."@, ".."@, "sidecar"@, "ffi"@, name]),
    ]
}

/// The places next to the executable's directory `dir` for the file
/// `name`.
pub open spec fn exe_dir_candidates(dir: Seq<char>, name: Seq<char>) -> Seq<(Seq<char>, Seq<Seq<char>>)> {
    seq![
        (dir, seq![name]),
        (dir, seq!["resources"@, name]),
        (dir, seq![".."@, "resources"@, name]),
        (dir, seq![".."@, "sidecar"@, name]),
        (dir, seq![".."@, "sidecar"@, "ffi"@, name]),
    ]
}

/// The candidates of every name under `dir`, name after name.
pub open spec fn all_names(
    dir: Seq<char>,
    names: Seq<Seq<char>>,
    per_name: spec_fn(Seq<char>, Seq<char>) -> Seq<(Seq<char>, Seq<Seq<char>>)>,
) -> Seq<(Seq<char>, Seq<Seq<char>>)>
    decreases names.len(),
{
    if names.len() == 0 {
        Seq::empty()
    } else {
        all_names(dir, names.drop_last(), per_name) + per_name(dir, names.last())
    }
}

/// The search order: the configured path first, then the places under the
/// working directory, then those next to the executable.
pub open spec fn search_order(
    configured: Option<Seq<char>>,
    working_dir: Option<Seq<char>>,
    exe_dir: Option<Seq<char>>,
    names: Seq<Seq<char>>,
) -> Seq<(Seq<char>, Seq<Seq<char>>)> {
    let first = match configured {
        Some(p) => seq![(p, Seq::<Seq<char>>::empty())],
        None => Seq::empty(),
    };
    let here = match working_dir {
        Some(d) => all_names(d, names, |d: Seq<char>, n: Seq<char>| working_dir_candidates(d, n)),
        None => Seq::empty(),
    };
    let beside = match exe_dir {
        Some(d) => all_names(d, names, |d: Seq<char>, n: Seq<char>| exe_dir_candidates(d, n)),
        None => Seq::empty(),
    };
    first + here + beside
}

/// `v` with the component `p` added at the end.
fn with_part(v: Vec<String>, p: &str) -> (r: Vec<String>)
    ensures
        string_views(r@) == string_views(v@).push(p@),
{
    let mut r = v;
    let ghost prev = r@;
    let s = String::from_str(p);
    r.push(s);
    proof {
        assert(r@ == prev.push(s));
        assert(string_views(r@) =~= string_views(prev).push(p@));
    }
    r
}

/// No components.
fn no_parts() -> (r: Vec<String>)
    ensures
        string_views(r@) == Seq::<Seq<char>>::empty(),
{
    let r: Vec<String> = Vec::new();
    assert(string_views(r@) =~= Seq::<Seq<char>>::empty());
    r
}

/// The candidate `base` joined with `parts`.
fn candidate(base: &str, parts: Vec<String>) -> (c: LibraryCandidate)
    ensures
        candidate_view(c) == (base@, string_views(parts@)),
{
    LibraryCandidate { base: String::from_str(base), parts }
}

/// Appends `c` to `out`.
fn push_candidate(out: &mut Vec<LibraryCandidate>, c: LibraryCandidate)
    ensures
        final(out)@.map_values(|x: LibraryCandidate| candidate_view(x))
            == old(out)@.map_values(|x: LibraryCandidate| candidate_view(x)).push(candidate_view(c)),
{
    let ghost prev = out@;
    let ghost cv = candidate_view(c);
    out.push(c);
    assert(out@.map_values(|x: LibraryCandidate| candidate_view(x)) =~= prev.map_values(|x: LibraryCandidate| candidate_view(x)).push(cv));
}

/// Appends the places under the working directory `d` for the file `n`.
fn push_working_dir_candidates(out: &mut Vec<LibraryCandidate>, d: &str, n: &str)
    ensures
        final(out)@.map_values(|x: LibraryCandidate| candidate_view(x))
            == old(out)@.map_values(|x: LibraryCandidate| candidate_view(x)) + working_dir_candidates(d@, n@),
{
    let ghost b = out@.map_values(|x: LibraryCandidate| candidate_view(x));
    let ghost w = working_dir_candidates(d@, n@);
    let c = candidate(d, with_part(no_parts(), n));
    assert(candidate_view(c).1 =~= seq![n@]);
    assert(candidate_view(c) == w[0]);
    push_candidate(out, c);
    assert(out@.map_values(|x: LibraryCandidate| candidate_view(x)) =~= b + w.subrange(0, 1));
    let c = candidate(d, with_part(with_part(no_parts(), "resources"), n));
    assert(candidate_view(c).1 =~= seq!["resources"@, n@]);
    assert(candidate_view(c) == w[1]);
    push_candidate(out, c);
    assert(out@.map_values(|x: LibraryCandidate| candidate_view(x)) =~= b + w.subrange(0, 2));
    let c = candidate(d, with_part(with_part(with_part(no_parts(), "src-tauri"), "resources"), n));
    assert(candidate_view(c).1 =~= seq!["src-tauri"@, "resources"@, n@]);
    assert(candidate_view(c) == w[2]);
    push_candidate(out, c);
    assert(out@.map_values(|x: LibraryCandidate| candidate_view(x)) =~= b + w.subrange(0, 3));
    let c = candidate(d, with_part(with_part(no_parts(), "sidecar"), n));
    assert(candidate_view(c).1 =~= seq!["sidecar"@, n@]);
    assert(candidate_view(c) == w[3]);
    push_candidate(out, c);
    assert(out@.map_values(|x: LibraryCandidate| candidate_view(x)) =~= b + w.subrange(0, 4));
    let c = candidate(d, with_part(with_part(with_part(no_parts(), "sidecar"), "ffi"), n));
    assert(candidate_view(c).1 =~= seq!["sidecar"@, "ffi"@, n@]);
    assert(candidate_view(c) == w[4]);
    push_candidate(out, c);
    assert(out@.map_values(|x: LibraryCandidate| candidate_view(x)) =~= b + w.subrange(0, 5));
    let c = candidate(d, with_part(with_part(with_part(no_parts(), ".."), "sidecar"), n));
    assert(candidate_view(c).1 =~= seq![".."@, "sidecar"@, n@]);
    assert(candidate_view(c) == w[5]);
    push_candidate(out, c);
    assert(out@.map_values(|x: LibraryCandidate| candidate_view(x)) =~= b + w.subrange(0, 6));
    let c = candidate(d, with_part(with_part(with_part(with_part(no_parts(), ".."), "sidecar"), "ffi"), n));
    assert(candidate_view(c).1 =~= seq![".."@, "sidecar"@, "ffi"@, n@]);
    assert(candidate_view(c) == w[6]);
    push_candidate(out, c);
    assert(out@.map_values(|x: LibraryCandidate| candidate_view(x)) =~= b + w.subrange(0, 7));
    let c = candidate(d, with_part(with_part(with_part(with_part(no_parts(), ".."), ".."), "sidecar"), n));
    assert(candidate_view(c).1 =~= seq![".."@, ".."@, "sidecar"@, n@]);
    assert(candidate_view(c) == w[7]);
    push_candidate(out, c);
    assert(out@.map_values(|x: LibraryCandidate| candidate_view(x)) =~= b + w.subrange(0, 8));
    let c = candidate(d, with_part(with_part(with_part(with_part(with_part(no_parts(), ".."), ".."), "sidecar"), "ffi"), n));
    assert(candidate_view(c).1 =~= seq![".."@, ".."@, "sidecar"@, "ffi"@, n@]);
    assert(candidate_view(c) == w[8]);
    push_candidate(out, c);
    assert(out@.map_values(|x: LibraryCandidate| candidate_view(x)) =~= b + w.subrange(0, 9));
    assert(w.subrange(0, 9) =~= w);
}

/// Appends the places next to the executable's directory `d` for the file `n`.
fn push_exe_dir_candidates(out: &mut Vec<LibraryCandidate>, d: &str, n: &str)
    ensures
        final(out)@.map_values(|x: LibraryCandidate| candidate_view(x))
            == old(out)@.map_values(|x: LibraryCandidate| candidate_view(x)) + exe_dir_candidates(d@, n@),
{
    let ghost b = out@.map_values(|x: LibraryCandidate| candidate_view(x));
    let ghost w = exe_dir_candidates(d@, n@);
    let c = candidate(d, with_part(no_parts(), n));
    assert(candidate_view(c).1 =~= seq![n@]);
    assert(candidate_view(c) == w[0]);
    push_candidate(out, c);
    assert(out@.map_values(|x: LibraryCandidate| candidate_view(x)) =~= b + w.subrange(0, 1));
    let c = candidate(d, with_part(with_part(no_parts(), "resources"), n));
    assert(candidate_view(c).1 =~= seq!["resources"@, n@]);
    assert(candidate_view(c) == w[1]);
    push_candidate(out, c);
    assert(out@.map_values(|x: LibraryCandidate| candidate_view(x)) =~= b + w.subrange(0, 2));
    let c = candidate(d, with_part(with_part(with_part(no_parts(), ".."), "resources"), n));
    assert(candidate_view(c).1 =~= seq![".."@, "resources"@, n@]);
    assert(candidate_view(c) == w[2]);
    push_candidate(out, c);
    assert(out@.map_values(|x: LibraryCandidate| candidate_view(x)) =~= b + w.subrange(0, 3));
    let c = candidate(d, with_part(with_part(with_part(no_parts(), ".."), "sidecar"), n));
    assert(candidate_view(c).1 =~= seq![".."@, "sidecar"@, n@]);
    assert(candidate_view(c) == w[3]);
    push_candidate(out, c);
    assert(out@.map_values(|x: LibraryCandidate| candidate_view(x)) =~= b + w.subrange(0, 4));
    let c = candidate(d, with_part(with_part(with_part(with_part(no_parts(), ".."), "sidecar"), "ffi"), n));
    assert(candidate_view(c).1 =~= seq![".."@, "sidecar"@, "ffi"@, n@]);
    assert(candidate_view(c) == w[4]);
    push_candidate(out, c);
    assert(out@.map_values(|x: LibraryCandidate| candidate_view(x)) =~= b + w.subrange(0, 5));
    assert(w.subrange(0, 5) =~= w);
}

/// The places to look for the library, in the order they are tried: the
/// configured path (`GRPC_CODEC_BRIDGE_PATH`) when set, then for each name
/// the places under the working directory, then for each name those next
/// to the executable's directory.
pub fn library_search_paths(
    configured: Option<&str>,
    working_dir: Option<&str>,
    exe_dir: Option<&str>,
    names: &Vec<String>,
) -> (r: Vec<LibraryCandidate>)
    ensures
        r@.map_values(|x: LibraryCandidate| candidate_view(x)) == search_order(
            match configured { Some(p) => Some(p@), None => None },
            match working_dir { Some(d) => Some(d@), None => None },
            match exe_dir { Some(d) => Some(d@), None => None },
            string_views(names@),
        ),
{
    let ghost nv = string_views(names@);
    let mut out: Vec<LibraryCandidate> = Vec::new();
    proof {
        assert(out@.map_values(|x: LibraryCandidate| candidate_view(x)) =~= Seq::<(Seq<char>, Seq<Seq<char>>)>::empty());
    }
    if let Some(p) = configured {
        push_candidate(&mut out, candidate(p, no_parts()));
        proof {
            assert(out@.map_values(|x: LibraryCandidate| candidate_view(x)) =~= seq![(p@, Seq::<Seq<char>>::empty())]);
        }
    }
    let ghost first = out@.map_values(|x: LibraryCandidate| candidate_view(x));
    proof {
        assert(first =~= match configured { Some(p) => seq![(p@, Seq::<Seq<char>>::empty())], None => Seq::empty() });
    }
    if let Some(d) = working_dir {
        let mut i: usize = 0;
        while i < names.len()
            invariant
                i <= names@.len(),
                nv == string_views(names@),
                out@.map_values(|x: LibraryCandidate| candidate_view(x)) == first + all_names(
                    d@,
                    nv.subrange(0, i as int),
                    |d: Seq<char>, n: Seq<char>| working_dir_candidates(d, n),
                ),
            decreases names@.len() - i,
        {
            let n = names[i].as_str();
            let ghost before = out@.map_values(|x: LibraryCandidate| candidate_view(x));
            push_working_dir_candidates(&mut out, d, n);
            proof {
                assert(nv.subrange(0, i + 1).drop_last() =~= nv.subrange(0, i as int));
                assert(nv.subrange(0, i + 1).last() == n@);
                assert(out@.map_values(|x: LibraryCandidate| candidate_view(x)) =~= before + working_dir_candidates(d@, n@));
            }
            i = i + 1;
        }
        proof {
            assert(nv.subrange(0, names@.len() as int) =~= nv);
        }
    }
    let ghost second = out@.map_values(|x: LibraryCandidate| candidate_view(x));
    proof {
        assert(second =~= first + match working_dir {
            Some(d) => all_names(d@, nv, |d: Seq<char>, n: Seq<char>| working_dir_candidates(d, n)),
            None => Seq::empty(),
        });
    }
    if let Some(d) = exe_dir {
        let mut i: usize = 0;
        while i < names.len()
            invariant
                i <= names@.len(),
                nv == string_views(names@),
                out@.map_values(|x: LibraryCandidate| candidate_view(x)) == second + all_names(
                    d@,
                    nv.subrange(0, i as int),
                    |d: Seq<char>, n: Seq<char>| exe_dir_candidates(d, n),
                ),
            decreases names@.len() - i,
        {
            let n = names[i].as_str();
            let ghost before = out@.map_values(|x: LibraryCandidate| candidate_view(x));
            push_exe_dir_candidates(&mut out, d, n);
            proof {
                assert(nv.subrange(0, i + 1).drop_last() =~= nv.subrange(0, i as int));
                assert(nv.subrange(0, i + 1).last() == n@);
                assert(out@.map_values(|x: LibraryCandidate| candidate_view(x)) =~= before + exe_dir_candidates(d@, n@));
            }
            i = i + 1;
        }
        proof {
            assert(nv.subrange(0, names@.len() as int) =~= nv);
        }
    }
    proof {
        assert(out@.map_values(|x: LibraryCandidate| candidate_view(x)) =~= second + match exe_dir {
            Some(d) => all_names(d@, nv, |d: Seq<char>, n: Seq<char>| exe_dir_candidates(d, n)),
            None => Seq::empty(),
        });
    }
    out
}

} // verus!

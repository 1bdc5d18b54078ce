//! Executable resolution: split the search-path variable into candidate
//! directories and pick the first one that holds the wanted binary as a
//! regular file. The file-system probe itself is the driver's; this
//! module decides, exactly, which candidate wins.
use vstd::prelude::*;
use crate::strutil::is_split_of;
use crate::strutil::split_on;
use crate::path_join;

verus! {

/// Splits a search-path variable on ':' into candidate directories, in
/// listed order. An empty variable yields no candidates; otherwise the
/// result is the unique sequence of colon-free segments that joins back
/// to the input.
pub fn split_search_path(path: &str) -> (r: Vec<String>)
    ensures
        path@.len() == 0 ==> r@.len() == 0,
        path@.len() > 0 ==> is_split_of(r@.map_values(|p: String| p@), path@, ':'),
        path@.len() > 0 ==> r@.len() >= 1,
{
    split_on(path, ':')
}

/// `p` is the path of `name` inside the first directory whose probe
/// reported the file present.
pub open spec fn resolves_first(
    p: Seq<char>,
    name: Seq<char>,
    dirs: Seq<Seq<char>>,
    present: Seq<bool>,
) -> bool {
    exists|i: int|
        0 <= i < dirs.len() && #[trigger] present[i] && (forall|k: int|
            0 <= k < i ==> !present[k]) && p == dirs[i] + "/"@ + name
}

/// Returns the first candidate directory whose probe found `name` as a
/// regular file, joined with the name; nothing when no probe succeeded.
/// `present[i]` is the driver's probe result for `dirs[i]`.
pub fn find_executable(name: &str, dirs: &Vec<String>, present: &Vec<bool>) -> (r: Option<String>)
    requires
        dirs@.len() == present@.len(),
    ensures
        r is None <==> (forall|k: int| 0 <= k < present@.len() ==> !present@[k]),
        r matches Some(p) ==> resolves_first(
            p@,
            name@,
            dirs@.map_values(|d: String| d@),
            present@,
        ),
{
    let n = dirs.len();
    let mut i: usize = 0;
    while i < n
        invariant
            n == dirs@.len(),
            dirs@.len() == present@.len(),
            i <= n,
            forall|k: int| 0 <= k < i ==> !present@[k],
        decreases n - i,
    {
        if present[i] {
            let p = path_join(dirs[i].as_str(), name);
            proof {
                let ghost dv = dirs@.map_values(|d: String| d@);
                assert(dv[i as int] == dirs@[i as int]@);
                assert(resolves_first(p@, name@, dv, present@));
            }
            return Some(p);
        }
        i = i + 1;
    }
    None
}

/// The resolved path is unique: two paths that both resolve first for
/// the same name against the same probes are the same path, so the
/// resolver's contract pins a single result.
pub proof fn lemma_resolves_first_unique(
    p1: Seq<char>,
    p2: Seq<char>,
    name: Seq<char>,
    dirs: Seq<Seq<char>>,
    present: Seq<bool>,
)
    requires
        resolves_first(p1, name, dirs, present),
        resolves_first(p2, name, dirs, present),
    ensures
        p1 == p2,
{
    let i1 = choose|i: int|
        0 <= i < dirs.len() && #[trigger] present[i] && (forall|k: int|
            0 <= k < i ==> !present[k]) && p1 == dirs[i] + "/"@ + name;
    let i2 = choose|i: int|
        0 <= i < dirs.len() && #[trigger] present[i] && (forall|k: int|
            0 <= k < i ==> !present[k]) && p2 == dirs[i] + "/"@ + name;
    assert(i1 == i2);
}

/// Which directory index the first successful probe has, if any.
pub fn first_present_index(present: &Vec<bool>) -> (r: Option<usize>)
    ensures
        r is None <==> (forall|k: int| 0 <= k < present@.len() ==> !present@[k]),
        r matches Some(i) ==> i < present@.len() && present@[i as int] && (forall|k: int|
            0 <= k < i ==> !present@[k]),
{
    let n = present.len();
    let mut i: usize = 0;
    while i < n
        invariant
            n == present@.len(),
            i <= n,
            forall|k: int| 0 <= k < i ==> !present@[k],
        decreases n - i,
    {
        if present[i] {
            return Some(i);
        }
        i = i + 1;
    }
    None
}

} // verus!

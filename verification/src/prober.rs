//! Environment prober: picks the runtime binary used to launch the companion
//! server. Desktop processes started from a graphical shell do not always
//! inherit the interactive shell's search path, so a fixed list of absolute
//! install locations is probed first and the bare name is only a fallback.

use vstd::prelude::*;
use vstd::string::StringExecFns;

verus! {

/// The fixed absolute locations where the runtime binary commonly resides,
/// in the order they are probed. The host checks each for existence and
/// hands the outcomes to `find_node`.
pub fn node_candidate_paths() -> (r: Vec<String>)
    ensures
        r@.len() == 3,
        r@[0]@ == "/opt/homebrew/bin/node"@,
        r@[1]@ == "/usr/local/bin/node"@,
        r@[2]@ == "/usr/bin/node"@,
{
    let mut v: Vec<String> = Vec::new();
    v.push(String::from_str("/opt/homebrew/bin/node"));
    v.push(String::from_str("/usr/local/bin/node"));
    v.push(String::from_str("/usr/bin/node"));
    v
}

/// The runtime binary chosen for a given set of existence outcomes, one per
/// candidate of `node_candidate_paths`, in probe order: the first location
/// that exists, or the bare name for spawn-time search-path resolution.
pub open spec fn chosen_node(exists: Seq<bool>) -> Seq<char>
    recommends
        exists.len() == 3,
{
    if exists[0] {
        "/opt/homebrew/bin/node"@
    } else if exists[1] {
        "/usr/local/bin/node"@
    } else if exists[2] {
        "/usr/bin/node"@
    } else {
        "node"@
    }
}

/// Picks the runtime binary: `exists[i]` says whether the `i`-th candidate of
/// `node_candidate_paths` exists on disk. Never fails; with no match it falls
/// back to the bare name and relies on the spawning process's search path.
pub fn find_node(exists: &Vec<bool>) -> (r: String)
    requires
        exists@.len() == 3,
    ensures
        r@ == chosen_node(exists@),
{
    if exists[0] {
        String::from_str("/opt/homebrew/bin/node")
    } else if exists[1] {
        String::from_str("/usr/local/bin/node")
    } else if exists[2] {
        String::from_str("/usr/bin/node")
    } else {
        String::from_str("node")
    }
}

} // verus!

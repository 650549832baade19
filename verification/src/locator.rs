//! Root locator: discovers the directory holding the companion server's
//! artifacts. Four independent strategies are tried in priority order, first
//! success wins: an explicit override directory, the ancestors of the running
//! executable's directory, the working directory and its parent, and the
//! packaged application's resources directory.
//!
//! The host observes the filesystem (which candidate directories exist and
//! which artifact markers they hold) and hands the observations in; the
//! selection itself is decided and verified here.

use vstd::prelude::*;
use vstd::string::StringExecFns;

verus! {

/// How many ancestor directories of the executable's directory are examined,
/// the executable's own directory included.
pub const ANCESTOR_SEARCH_LIMIT: usize = 10;

/// How many directories of the working-directory chain are examined: the
/// working directory itself and its immediate parent.
pub const CWD_SEARCH_LIMIT: usize = 2;

/// A candidate root directory as observed on disk: its path and whether each
/// of the two artifact markers sufficient for a project root exists under it
/// (the development entry file `server.ts`, and the secondary compiled bundle
/// `dist/server.js`).
pub struct RootCandidate {
    pub path: String,
    pub has_dev_entry: bool,
    pub has_dist_bundle: bool,
}

/// A candidate resources directory of a packaged application: its path and
/// whether the production bundle `server-bundle/server.js` exists under it.
pub struct ResourcesCandidate {
    pub path: String,
    pub has_production_bundle: bool,
}

/// A candidate qualifies as a project root when either artifact marker
/// exists under it; either one alone is sufficient.
pub open spec fn candidate_marked(c: RootCandidate) -> bool {
    c.has_dev_entry || c.has_dist_bundle
}

/// The path of the first marked candidate among the first `limit` elements,
/// or nothing when none of them is marked.
pub open spec fn first_marked(cands: Seq<RootCandidate>, limit: nat) -> Option<Seq<char>>
    decreases limit,
{
    if limit == 0 || cands.len() == 0 {
        None
    } else if candidate_marked(cands[0]) {
        Some(cands[0].path@)
    } else {
        first_marked(cands.drop_first(), (limit - 1) as nat)
    }
}

/// The root the locator must return for the given observations: the override
/// directory when it is marked; else the first marked executable ancestor
/// within the search limit; else the first marked directory of the
/// working-directory chain; else the resources directory when it holds the
/// production bundle; else nothing.
pub open spec fn locate_spec(
    override_candidate: Option<RootCandidate>,
    exe_ancestors: Seq<RootCandidate>,
    cwd_chain: Seq<RootCandidate>,
    resources: Option<ResourcesCandidate>,
) -> Option<Seq<char>> {
    if override_candidate is Some && candidate_marked(override_candidate.unwrap()) {
        Some(override_candidate.unwrap().path@)
    } else if first_marked(exe_ancestors, ANCESTOR_SEARCH_LIMIT as nat) is Some {
        first_marked(exe_ancestors, ANCESTOR_SEARCH_LIMIT as nat)
    } else if first_marked(cwd_chain, CWD_SEARCH_LIMIT as nat) is Some {
        first_marked(cwd_chain, CWD_SEARCH_LIMIT as nat)
    } else if resources is Some && resources.unwrap().has_production_bundle {
        Some(resources.unwrap().path@)
    } else {
        None
    }
}

/// The view of an optional path, for relating the locator's result to
/// `locate_spec`.
pub open spec fn path_view(r: Option<String>) -> Option<Seq<char>> {
    match r {
        Some(s) => Some(s@),
        None => None,
    }
}

proof fn lemma_first_marked_at(cands: Seq<RootCandidate>, limit: nat, i: int)
    requires
        0 <= i < cands.len(),
        i < limit,
        candidate_marked(cands[i]),
        forall|j: int| 0 <= j < i ==> !candidate_marked(cands[j]),
    ensures
        first_marked(cands, limit) == Some(cands[i].path@),
    decreases i,
{
    if i > 0 {
        lemma_first_marked_at(cands.drop_first(), (limit - 1) as nat, i - 1);
    }
}

proof fn lemma_first_marked_none(cands: Seq<RootCandidate>, limit: nat)
    requires
        forall|j: int| 0 <= j < cands.len() && j < limit ==> !candidate_marked(cands[j]),
    ensures
        first_marked(cands, limit) is None,
    decreases limit,
{
    if limit != 0 && cands.len() != 0 {
        lemma_first_marked_none(cands.drop_first(), (limit - 1) as nat);
    }
}

/// Scans the first `limit` candidates and returns the path of the first
/// marked one, if any.
fn scan_candidates(cands: &Vec<RootCandidate>, limit: usize) -> (r: Option<String>)
    ensures
        path_view(r) == first_marked(cands@, limit as nat),
{
    let n: usize = if cands.len() < limit {
        cands.len()
    } else {
        limit
    };
    let mut i: usize = 0;
    while i < n
        invariant
            0 <= i <= n,
            n <= cands@.len(),
            n == if cands@.len() < limit {
                cands@.len() as int
            } else {
                limit as int
            },
            forall|j: int| 0 <= j < i ==> !candidate_marked(cands@[j]),
        decreases n - i,
    {
        if cands[i].has_dev_entry || cands[i].has_dist_bundle {
            proof {
                lemma_first_marked_at(cands@, limit as nat, i as int);
            }
            return Some(cands[i].path.clone());
        }
        i = i + 1;
    }
    proof {
        lemma_first_marked_none(cands@, limit as nat);
    }
    None
}

/// Locates the project root from the host's observations:
/// `override_candidate` is the directory named by the override environment
/// variable (when set), `exe_ancestors` are the executable's directory and
/// its parents nearest-first, `cwd_chain` is the working directory followed
/// by its parent, and `resources` is the packaged application's resources
/// directory. Returns the first directory a strategy accepts, in priority
/// order, or nothing when every strategy fails — a recoverable condition,
/// not an error.
pub fn locate_project_root(
    override_candidate: &Option<RootCandidate>,
    exe_ancestors: &Vec<RootCandidate>,
    cwd_chain: &Vec<RootCandidate>,
    resources: &Option<ResourcesCandidate>,
) -> (r: Option<String>)
    ensures
        path_view(r) == locate_spec(*override_candidate, exe_ancestors@, cwd_chain@, *resources),
{
    match override_candidate {
        Some(c) => {
            if c.has_dev_entry || c.has_dist_bundle {
                return Some(c.path.clone());
            }
        },
        None => {},
    }
    let from_ancestors = scan_candidates(exe_ancestors, ANCESTOR_SEARCH_LIMIT);
    if from_ancestors.is_some() {
        return from_ancestors;
    }
    let from_cwd = scan_candidates(cwd_chain, CWD_SEARCH_LIMIT);
    if from_cwd.is_some() {
        return from_cwd;
    }
    match resources {
        Some(res) => {
            if res.has_production_bundle {
                return Some(res.path.clone());
            }
        },
        None => {},
    }
    None
}

/// When the override directory holds a marker, the locator returns exactly
/// that directory, whatever the later strategies would find.
pub proof fn lemma_override_strategy_wins(
    override_candidate: Option<RootCandidate>,
    exe_ancestors: Seq<RootCandidate>,
    cwd_chain: Seq<RootCandidate>,
    resources: Option<ResourcesCandidate>,
)
    requires
        override_candidate is Some,
        candidate_marked(override_candidate.unwrap()),
    ensures
        locate_spec(override_candidate, exe_ancestors, cwd_chain, resources) == Some(
            override_candidate.unwrap().path@,
        ),
{
}

/// When the override strategy fails and the first marked executable ancestor
/// within the search limit is at position `i`, the locator returns exactly
/// that ancestor.
pub proof fn lemma_ancestor_strategy_wins(
    override_candidate: Option<RootCandidate>,
    exe_ancestors: Seq<RootCandidate>,
    cwd_chain: Seq<RootCandidate>,
    resources: Option<ResourcesCandidate>,
    i: int,
)
    requires
        override_candidate is Some ==> !candidate_marked(override_candidate.unwrap()),
        0 <= i < exe_ancestors.len(),
        i < ANCESTOR_SEARCH_LIMIT,
        candidate_marked(exe_ancestors[i]),
        forall|j: int| 0 <= j < i ==> !candidate_marked(exe_ancestors[j]),
    ensures
        locate_spec(override_candidate, exe_ancestors, cwd_chain, resources) == Some(
            exe_ancestors[i].path@,
        ),
{
    lemma_first_marked_at(exe_ancestors, ANCESTOR_SEARCH_LIMIT as nat, i);
}

/// When neither the override nor any examined executable ancestor holds a
/// marker and the first marked directory of the working-directory chain is at
/// position `i`, the locator returns exactly that directory.
pub proof fn lemma_cwd_strategy_wins(
    override_candidate: Option<RootCandidate>,
    exe_ancestors: Seq<RootCandidate>,
    cwd_chain: Seq<RootCandidate>,
    resources: Option<ResourcesCandidate>,
    i: int,
)
    requires
        override_candidate is Some ==> !candidate_marked(override_candidate.unwrap()),
        forall|j: int|
            0 <= j < exe_ancestors.len() && j < ANCESTOR_SEARCH_LIMIT ==> !candidate_marked(
                exe_ancestors[j],
            ),
        0 <= i < cwd_chain.len(),
        i < CWD_SEARCH_LIMIT,
        candidate_marked(cwd_chain[i]),
        forall|j: int| 0 <= j < i ==> !candidate_marked(cwd_chain[j]),
    ensures
        locate_spec(override_candidate, exe_ancestors, cwd_chain, resources) == Some(
            cwd_chain[i].path@,
        ),
{
    lemma_first_marked_none(exe_ancestors, ANCESTOR_SEARCH_LIMIT as nat);
    lemma_first_marked_at(cwd_chain, CWD_SEARCH_LIMIT as nat, i);
}

/// When the three earlier strategies all fail and the resources directory
/// holds the production bundle, the locator returns exactly that directory.
pub proof fn lemma_resources_strategy_wins(
    override_candidate: Option<RootCandidate>,
    exe_ancestors: Seq<RootCandidate>,
    cwd_chain: Seq<RootCandidate>,
    resources: Option<ResourcesCandidate>,
)
    requires
        override_candidate is Some ==> !candidate_marked(override_candidate.unwrap()),
        forall|j: int|
            0 <= j < exe_ancestors.len() && j < ANCESTOR_SEARCH_LIMIT ==> !candidate_marked(
                exe_ancestors[j],
            ),
        forall|j: int|
            0 <= j < cwd_chain.len() && j < CWD_SEARCH_LIMIT ==> !candidate_marked(cwd_chain[j]),
        resources is Some,
        resources.unwrap().has_production_bundle,
    ensures
        locate_spec(override_candidate, exe_ancestors, cwd_chain, resources) == Some(
            resources.unwrap().path@,
        ),
{
    lemma_first_marked_none(exe_ancestors, ANCESTOR_SEARCH_LIMIT as nat);
    lemma_first_marked_none(cwd_chain, CWD_SEARCH_LIMIT as nat);
}

/// When no strategy finds a marker anywhere, the locator returns nothing.
pub proof fn lemma_no_markers_found(
    override_candidate: Option<RootCandidate>,
    exe_ancestors: Seq<RootCandidate>,
    cwd_chain: Seq<RootCandidate>,
    resources: Option<ResourcesCandidate>,
)
    requires
        override_candidate is Some ==> !candidate_marked(override_candidate.unwrap()),
        forall|j: int| 0 <= j < exe_ancestors.len() ==> !candidate_marked(exe_ancestors[j]),
        forall|j: int| 0 <= j < cwd_chain.len() ==> !candidate_marked(cwd_chain[j]),
        resources is Some ==> !resources.unwrap().has_production_bundle,
    ensures
        locate_spec(override_candidate, exe_ancestors, cwd_chain, resources) is None,
{
    lemma_first_marked_none(exe_ancestors, ANCESTOR_SEARCH_LIMIT as nat);
    lemma_first_marked_none(cwd_chain, CWD_SEARCH_LIMIT as nat);
}

} // verus!

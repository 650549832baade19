//! Launch policy selector: given a discovered project root and the existence
//! of the compiled entry points under it, decides which server entry point to
//! run and assembles the command line, working directory and environment.
//!
//! Priority: the packaged production bundle, else the secondary compiled
//! output, else the development invocation through the package runner. The
//! working directory is always the project root itself.

use vstd::prelude::*;
use vstd::string::StringExecFns;

verus! {

/// The resolved command for starting the companion server: an executable
/// name or path, its ordered arguments, and the working directory. Never
/// mutated after construction.
pub struct LaunchPlan {
    pub program: String,
    pub args: Vec<String>,
    pub working_dir: String,
}

/// What the selector must produce for a root with the given marker
/// existence: the production bundle run by the runtime binary when present,
/// else the secondary bundle run by the runtime binary, else the development
/// entry through the package runner — and in every branch the working
/// directory is the root itself.
pub open spec fn plan_selected(
    p: LaunchPlan,
    root: Seq<char>,
    node: Seq<char>,
    has_production_bundle: bool,
    has_dist_bundle: bool,
) -> bool {
    &&& p.working_dir@ == root
    &&& if has_production_bundle {
        &&& p.program@ == node
        &&& p.args@.len() == 1
        &&& p.args@[0]@ == "server-bundle/server.js"@
    } else if has_dist_bundle {
        &&& p.program@ == node
        &&& p.args@.len() == 1
        &&& p.args@[0]@ == "dist/server.js"@
    } else {
        &&& p.program@ == "npx"@
        &&& p.args@.len() == 2
        &&& p.args@[0]@ == "tsx"@
        &&& p.args@[1]@ == "server.ts"@
    }
}

/// Selects the launch plan for `root`: `node` is the resolved runtime
/// binary, and the two flags say whether the production bundle
/// `server-bundle/server.js` and the secondary bundle `dist/server.js` exist
/// under `root`.
pub fn select_launch_plan(
    root: &String,
    node: &String,
    has_production_bundle: bool,
    has_dist_bundle: bool,
) -> (p: LaunchPlan)
    ensures
        plan_selected(p, root@, node@, has_production_bundle, has_dist_bundle),
{
    if has_production_bundle {
        let mut args: Vec<String> = Vec::new();
        args.push(String::from_str("server-bundle/server.js"));
        LaunchPlan { program: node.clone(), args, working_dir: root.clone() }
    } else if has_dist_bundle {
        let mut args: Vec<String> = Vec::new();
        args.push(String::from_str("dist/server.js"));
        LaunchPlan { program: node.clone(), args, working_dir: root.clone() }
    } else {
        let mut args: Vec<String> = Vec::new();
        args.push(String::from_str("tsx"));
        args.push(String::from_str("server.ts"));
        LaunchPlan { program: String::from_str("npx"), args, working_dir: root.clone() }
    }
}

/// When the production bundle exists, the selected plan runs it through the
/// runtime binary — never the development fallback — whatever other markers
/// exist under the same root.
pub proof fn lemma_production_bundle_has_priority(
    p: LaunchPlan,
    root: Seq<char>,
    node: Seq<char>,
    has_dist_bundle: bool,
)
    requires
        plan_selected(p, root, node, true, has_dist_bundle),
    ensures
        p.program@ == node,
        p.args@.len() == 1,
        p.args@[0]@ == "server-bundle/server.js"@,
        p.args@[0]@ != "server.ts"@,
{
    reveal_strlit("server-bundle/server.js");
    reveal_strlit("server.ts");
    assert("server-bundle/server.js"@.len() == 23);
    assert("server.ts"@.len() == 9);
}

/// The selected plan's working directory equals the project root exactly,
/// whichever branch was taken.
pub proof fn lemma_working_dir_is_root(
    p: LaunchPlan,
    root: Seq<char>,
    node: Seq<char>,
    has_production_bundle: bool,
    has_dist_bundle: bool,
)
    requires
        plan_selected(p, root, node, has_production_bundle, has_dist_bundle),
    ensures
        p.working_dir@ == root,
{
}

/// The name of the environment variable forced on for the child, and the
/// value it is forced to: the runtime's production mode.
pub fn production_mode_env() -> (r: (String, String))
    ensures
        r.0@ == "NODE_ENV"@,
        r.1@ == "production"@,
{
    (String::from_str("NODE_ENV"), String::from_str("production"))
}

/// The search path handed to the child: the fixed package-manager install
/// locations probed by the environment prober, prefixed to the parent's
/// inherited search path, so that nested lookups by the child also succeed.
pub fn augmented_search_path(inherited: &str) -> (r: String)
    ensures
        r@ == "/opt/homebrew/bin:/usr/local/bin:"@ + inherited@,
{
    let mut s = String::from_str("/opt/homebrew/bin:/usr/local/bin:");
    s.append(inherited);
    s
}

} // verus!

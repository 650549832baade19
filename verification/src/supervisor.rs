//! Startup wiring: composes the root locator's outcome with the launch
//! policy selector. When no root was found there is nothing to launch — a
//! recoverable condition, the host logs a warning and assumes an external
//! server instance is already serving — and otherwise the plan for the
//! found root is produced.

use vstd::prelude::*;
use crate::plan::LaunchPlan;
use crate::plan::plan_selected;
use crate::plan::select_launch_plan;

verus! {

/// Builds the launch plan for the located root, if one was located: `node`
/// is the resolved runtime binary, and the two flags say which compiled
/// bundles exist under the located root. Returns nothing exactly when no
/// root was found.
pub fn plan_startup(
    located: &Option<String>,
    node: &String,
    has_production_bundle: bool,
    has_dist_bundle: bool,
) -> (r: Option<LaunchPlan>)
    ensures
        r is Some <==> located is Some,
        located is Some ==> plan_selected(
            r.unwrap(),
            located.unwrap()@,
            node@,
            has_production_bundle,
            has_dist_bundle,
        ),
{
    match located {
        Some(root) => Some(select_launch_plan(root, node, has_production_bundle, has_dist_bundle)),
        None => None,
    }
}

} // verus!

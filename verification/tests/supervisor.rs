use server_supervisor::lifecycle::LifecycleOwner;
use server_supervisor::lifecycle::SupervisedProcess;
use server_supervisor::locator::locate_project_root;
use server_supervisor::locator::ResourcesCandidate;
use server_supervisor::locator::RootCandidate;
use server_supervisor::plan::augmented_search_path;
use server_supervisor::plan::production_mode_env;
use server_supervisor::plan::select_launch_plan;
use server_supervisor::poller::wait_ready;
use server_supervisor::prober::find_node;
use server_supervisor::prober::node_candidate_paths;
use server_supervisor::supervisor::plan_startup;

fn root(path: &str, dev: bool, dist: bool) -> RootCandidate {
    RootCandidate {
        path: path.to_string(),
        has_dev_entry: dev,
        has_dist_bundle: dist,
    }
}

#[test]
fn prober_candidates_are_fixed() {
    let c = node_candidate_paths();
    assert_eq!(c.len(), 3);
    assert_eq!(c[0], "/opt/homebrew/bin/node");
    assert_eq!(c[1], "/usr/local/bin/node");
    assert_eq!(c[2], "/usr/bin/node");
}

#[test]
fn prober_picks_first_existing() {
    assert_eq!(find_node(&vec![true, true, true]), "/opt/homebrew/bin/node");
    assert_eq!(find_node(&vec![false, true, true]), "/usr/local/bin/node");
    assert_eq!(find_node(&vec![false, false, true]), "/usr/bin/node");
}

#[test]
fn prober_falls_back_to_bare_name() {
    assert_eq!(find_node(&vec![false, false, false]), "node");
}

#[test]
fn locator_override_strategy_finds_marked_root() {
    let ov = Some(root("/proj", true, false));
    let r = locate_project_root(&ov, &vec![], &vec![], &None);
    assert_eq!(r, Some("/proj".to_string()));
}

#[test]
fn locator_ancestor_strategy_finds_first_marked_ancestor() {
    let ancestors = vec![
        root("/proj/shell/target/debug", false, false),
        root("/proj/shell/target", false, false),
        root("/proj/shell", false, false),
        root("/proj", true, false),
    ];
    let r = locate_project_root(&None, &ancestors, &vec![], &None);
    assert_eq!(r, Some("/proj".to_string()));
}

#[test]
fn locator_ancestor_strategy_stops_at_ten_levels() {
    let mut ancestors = Vec::new();
    for i in 0..10 {
        ancestors.push(root(&format!("/a{}", i), false, false));
    }
    ancestors.push(root("/marked-too-deep", true, true));
    let r = locate_project_root(&None, &ancestors, &vec![], &None);
    assert_eq!(r, None);
}

#[test]
fn locator_cwd_strategy_finds_cwd_or_parent() {
    let cwd_only = vec![root("/work", false, true)];
    let r = locate_project_root(&None, &vec![], &cwd_only, &None);
    assert_eq!(r, Some("/work".to_string()));

    let cwd_parent = vec![root("/proj/shell", false, false), root("/proj", true, false)];
    let r = locate_project_root(&None, &vec![], &cwd_parent, &None);
    assert_eq!(r, Some("/proj".to_string()));
}

#[test]
fn locator_resources_strategy_needs_production_bundle() {
    let res = Some(ResourcesCandidate {
        path: "/App.app/Contents/Resources".to_string(),
        has_production_bundle: true,
    });
    let r = locate_project_root(&None, &vec![], &vec![], &res);
    assert_eq!(r, Some("/App.app/Contents/Resources".to_string()));

    let res = Some(ResourcesCandidate {
        path: "/App.app/Contents/Resources".to_string(),
        has_production_bundle: false,
    });
    let r = locate_project_root(&None, &vec![], &vec![], &res);
    assert_eq!(r, None);
}

#[test]
fn locator_priority_is_override_first() {
    let ov = Some(root("/override", true, false));
    let ancestors = vec![root("/ancestor", true, true)];
    let cwd = vec![root("/cwd", true, true)];
    let res = Some(ResourcesCandidate {
        path: "/res".to_string(),
        has_production_bundle: true,
    });
    let r = locate_project_root(&ov, &ancestors, &cwd, &res);
    assert_eq!(r, Some("/override".to_string()));
}

#[test]
fn locator_unmarked_override_is_skipped() {
    let ov = Some(root("/override", false, false));
    let ancestors = vec![root("/ancestor", false, true)];
    let r = locate_project_root(&ov, &ancestors, &vec![], &None);
    assert_eq!(r, Some("/ancestor".to_string()));
}

#[test]
fn locator_nothing_found_is_empty() {
    let r = locate_project_root(&None, &vec![], &vec![], &None);
    assert_eq!(r, None);
}

#[test]
fn plan_production_bundle_wins_over_everything() {
    let p = select_launch_plan(&"/proj".to_string(), &"node".to_string(), true, true);
    assert_eq!(p.program, "node");
    assert_eq!(p.args, vec!["server-bundle/server.js".to_string()]);
    assert_eq!(p.working_dir, "/proj");
}

#[test]
fn plan_dist_bundle_is_second_choice() {
    let p = select_launch_plan(&"/proj".to_string(), &"/usr/bin/node".to_string(), false, true);
    assert_eq!(p.program, "/usr/bin/node");
    assert_eq!(p.args, vec!["dist/server.js".to_string()]);
    assert_eq!(p.working_dir, "/proj");
}

#[test]
fn plan_development_fallback_uses_package_runner() {
    let p = select_launch_plan(&"/proj".to_string(), &"node".to_string(), false, false);
    assert_eq!(p.program, "npx");
    assert_eq!(p.args, vec!["tsx".to_string(), "server.ts".to_string()]);
    assert_eq!(p.working_dir, "/proj");
}

#[test]
fn plan_working_dir_always_equals_root() {
    for (prod, dist) in [(true, true), (true, false), (false, true), (false, false)] {
        let p = select_launch_plan(&"/exact/root".to_string(), &"node".to_string(), prod, dist);
        assert_eq!(p.working_dir, "/exact/root");
    }
}

#[test]
fn plan_environment_forces_production_and_prefixes_path() {
    let (name, value) = production_mode_env();
    assert_eq!(name, "NODE_ENV");
    assert_eq!(value, "production");
    let p = augmented_search_path("/usr/bin:/bin");
    assert_eq!(p, "/opt/homebrew/bin:/usr/local/bin:/usr/bin:/bin");
}

#[test]
fn override_with_only_dist_bundle_selects_dist_branch() {
    let ov = Some(root("/override", false, true));
    let located = locate_project_root(&ov, &vec![], &vec![], &None);
    assert_eq!(located, Some("/override".to_string()));
    let planned = plan_startup(&located, &"node".to_string(), false, true);
    let p = planned.expect("a located root must yield a plan");
    assert_eq!(p.program, "node");
    assert_eq!(p.args, vec!["dist/server.js".to_string()]);
    assert_eq!(p.working_dir, "/override");
}

#[test]
fn no_root_yields_no_plan_and_empty_owner() {
    let located = locate_project_root(&None, &vec![], &vec![], &None);
    assert_eq!(located, None);
    let planned = plan_startup(&located, &"node".to_string(), false, false);
    assert!(planned.is_none());
    let mut owner = LifecycleOwner::new();
    owner.store(None);
    assert_eq!(owner.handle, None);
    assert_eq!(owner.take(), None);
}

#[test]
fn poll_gives_up_after_exactly_max_attempts() {
    let (ready, attempts) = wait_ready(&vec![false, false, false], 3);
    assert!(!ready);
    assert_eq!(attempts, 3);
}

#[test]
fn poll_succeeds_on_first_attempt_without_extras() {
    let (ready, attempts) = wait_ready(&vec![true, false, false], 3);
    assert!(ready);
    assert_eq!(attempts, 1);
}

#[test]
fn poll_stops_at_first_success() {
    let (ready, attempts) = wait_ready(&vec![false, true, false], 3);
    assert!(ready);
    assert_eq!(attempts, 2);
}

#[test]
fn poll_with_zero_ceiling_makes_no_attempt() {
    let (ready, attempts) = wait_ready(&vec![], 0);
    assert!(!ready);
    assert_eq!(attempts, 0);
}

#[test]
fn take_twice_kills_once() {
    let mut owner = LifecycleOwner::new();
    owner.store(Some(SupervisedProcess { pid: 4711 }));
    let first = owner.take();
    assert_eq!(first, Some(SupervisedProcess { pid: 4711 }));
    assert_eq!(owner.handle, None);
    let second = owner.take();
    assert_eq!(second, None);
    assert_eq!(owner.handle, None);
}

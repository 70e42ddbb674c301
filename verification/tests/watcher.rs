use devpod_desktop::providers::dangling_cleanup_plan;
use devpod_desktop::supervisor::Daemon;
use devpod_desktop::watcher::{
    contains_id, diff, migrate_daemons, ProInstance, ProState, Workspace, WorkspacesState,
};
use devpod_desktop::{DaemonState, DaemonStatus};

fn workspace(id: &str) -> Workspace {
    Workspace { id: id.to_string() }
}

fn instance(host: &str, daemon: Option<Daemon>) -> ProInstance {
    ProInstance {
        host: host.to_string(),
        provider: Some("acme".to_string()),
        context: None,
        capabilities: Some(vec!["daemon".to_string()]),
        daemon,
    }
}

fn supervisor() -> Daemon {
    Daemon::new("/h".to_string(), None, Some("acme".to_string())).unwrap()
}

// The diff lists exactly the entries whose identity left and the ones
// whose identity arrived.
#[test]
fn diff_by_identity() {
    let old_list = vec![workspace("a"), workspace("b"), workspace("c")];
    let new_list = vec![workspace("b"), workspace("d")];
    let (removed, added) = diff(&old_list, &new_list);
    assert_eq!(removed, vec![0usize, 2]);
    assert_eq!(added, vec![1usize]);
}

// Diffing a collection against itself changes nothing.
#[test]
fn diff_self_is_empty() {
    let items = vec![workspace("a"), workspace("b")];
    let (removed, added) = diff(&items, &items);
    assert!(removed.is_empty());
    assert!(added.is_empty());
}

#[test]
fn contains_id_scans_identities() {
    let items = vec![workspace("a"), workspace("b")];
    assert!(contains_id(&items, &"b".to_string()));
    assert!(!contains_id(&items, &"z".to_string()));
}

// A surviving instance keeps its supervisor across a refresh; counts and
// children carry over, and dropped instances lose theirs.
#[test]
fn migration_carries_supervisors() {
    let mut d = supervisor();
    d.retry_count = 4;
    let _ = d.on_spawn_success(77, DaemonStatus::default());
    let old_list = vec![instance("one", Some(d)), instance("two", None)];
    let new_list = vec![instance("three", None), instance("one", None)];

    let merged = migrate_daemons(old_list, new_list);
    assert_eq!(merged.len(), 2);
    assert_eq!(merged[0].host, "three".to_string());
    assert!(merged[0].daemon.is_none());
    assert_eq!(merged[1].host, "one".to_string());
    let carried = merged[1].daemon.as_ref().unwrap();
    assert_eq!(carried.retry_count, 4);
    assert_eq!(carried.child, Some(77));
}

#[test]
fn capability_checks_the_list() {
    let inst = instance("one", None);
    assert!(inst.has_capability("daemon".to_string()));
    assert!(!inst.has_capability("other".to_string()));

    let bare = ProInstance {
        host: "x".to_string(),
        provider: None,
        context: None,
        capabilities: None,
        daemon: None,
    };
    assert!(!bare.has_capability("daemon".to_string()));
}

#[test]
fn find_instance_matches_host() {
    let state = ProState {
        instances: vec![instance("one", None), instance("two", None)],
        all_ready: false,
    };
    assert_eq!(state.find_instance("two".to_string()).unwrap().host, "two".to_string());
    assert!(state.find_instance("zero".to_string()).is_none());
}

// Stopping a daemon through the restart endpoint clears its child and
// resets its status, and the instance itself stays in the collection.
#[test]
fn restart_clears_child_keeps_instance() {
    let mut d = supervisor();
    let _ = d.on_spawn_success(
        4711,
        DaemonStatus { state: DaemonState::Running, online: true, login_required: false },
    );
    let mut state = ProState {
        instances: vec![instance("one", None), instance("two", Some(d))],
        all_ready: true,
    };

    let r = state.stop_daemon(&"two".to_string());
    assert_eq!(r, Some(Some(4711)));
    assert_eq!(state.instances.len(), 2);
    assert_eq!(state.instances[1].host, "two".to_string());
    let stopped = state.instances[1].daemon.as_ref().unwrap();
    assert!(stopped.child.is_none());
    assert_eq!(*stopped.status(), DaemonStatus::default());
    assert!(state.all_ready);
}

#[test]
fn restart_without_instance_or_daemon_is_not_found() {
    let mut state = ProState { instances: vec![instance("one", None)], all_ready: false };
    assert_eq!(state.stop_daemon(&"zero".to_string()), None);
    assert_eq!(state.stop_daemon(&"one".to_string()), None);
    assert_eq!(state.instances.len(), 1);
}

#[test]
fn readiness_reports_flips() {
    let mut state = ProState { instances: vec![], all_ready: false };
    assert!(state.update_all_ready(true));
    assert!(!state.update_all_ready(true));
    assert!(state.update_all_ready(false));
    assert!(!state.all_ready);
}

#[test]
fn menu_item_ids_carry_the_prefix() {
    assert_eq!(
        WorkspacesState::item_id(&"dev".to_string()),
        "workspaces-dev".to_string()
    );
    assert_eq!(ProState::item_id(&"host1".to_string()), "pro-instances-host1".to_string());
}

#[test]
fn cleanup_plan_orders_deletions() {
    let dangling = vec!["acme".to_string(), "other".to_string()];
    let instances = vec![instance("acme", None)];
    let plan = dangling_cleanup_plan(&dangling, &instances);
    assert_eq!(plan.len(), 2);
    assert_eq!(plan[0].delete_provider.provider_id, "acme".to_string());
    assert_eq!(
        plan[0].delete_instance.as_ref().unwrap().pro_id,
        "acme".to_string()
    );
    assert_eq!(plan[1].delete_provider.provider_id, "other".to_string());
    assert!(plan[1].delete_instance.is_none());
}

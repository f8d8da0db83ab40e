use cgmemtime::harness::Action;
use cgmemtime::harness::Args;
use cgmemtime::harness::Event;
use cgmemtime::harness::Harness;
use cgmemtime::harness::HarnessError;
use cgmemtime::harness::ReapInfo;
use cgmemtime::harness::reexec_args;

fn args_with(cg_dir: Option<&str>, disable_fallback: bool) -> Args {
    Args {
        cg_fs_dir: String::from("/sys/fs/cgroup"),
        cg_dir: cg_dir.map(String::from),
        machine_readable: false,
        delim: ';',
        disable_systemd_run: disable_fallback,
        command: vec![String::from("true")],
    }
}

fn good_listing() -> Option<String> {
    Some(String::from("cpuset cpu io memory hugetlb pids"))
}

fn zero_reap(status: i32) -> ReapInfo {
    ReapInfo {
        status,
        utime_sec: 0,
        utime_usec: 0,
        stime_sec: 0,
        stime_usec: 0,
        maxrss_kib: 2,
        wall_ns: 5,
    }
}

#[test]
fn explicit_run_reports_and_cleans_up() {
    let mut h = Harness::new(args_with(Some("/sys/fs/cgroup/mygrp"), false));

    let a = h.step(Event::Begin);
    match a {
        Action::ReadFsFiles { controllers_path, subtree_path } => {
            assert_eq!(controllers_path, "/sys/fs/cgroup/cgroup.controllers");
            assert_eq!(subtree_path, "/sys/fs/cgroup/cgroup.subtree_control");
        }
        _ => panic!("expected the listings to be read first"),
    }

    let a = h.step(Event::FsFiles { controllers: good_listing(), subtree: good_listing() });
    match a {
        Action::StatDir { path } => assert_eq!(path, "/sys/fs/cgroup/mygrp"),
        _ => panic!("expected the explicit directory to be examined"),
    }

    // The controller is enabled on the explicit target, not on anything else.
    let a = h.step(Event::ExplicitStat { exists: true, is_dir: true });
    match a {
        Action::EnableController { subtree_path } => {
            assert_eq!(subtree_path, "/sys/fs/cgroup/mygrp/cgroup.subtree_control");
        }
        _ => panic!("expected the controller-enable write"),
    }

    // The leaf is asked for only after the enable write succeeded, and it is
    // strictly below the explicit target, which itself is never created.
    let a = h.step(Event::ControllerEnabled { ok: true });
    match a {
        Action::CreateLeaf { path } => assert_eq!(path, "/sys/fs/cgroup/mygrp/leaf"),
        _ => panic!("expected the leaf to be created after enablement"),
    }

    // The child is asked for only after the leaf was created.
    let a = h.step(Event::LeafMade { ok: true });
    match a {
        Action::Spawn { leaf_path, argv } => {
            assert_eq!(leaf_path, "/sys/fs/cgroup/mygrp/leaf");
            assert_eq!(argv, vec![String::from("true")]);
        }
        _ => panic!("expected the spawn after leaf creation"),
    }

    let a = h.step(Event::SpawnResult { ok: true });
    assert!(matches!(a, Action::Wait));

    let a = h.step(Event::Reaped { ok: true, info: zero_reap(0) });
    match a {
        Action::ReadPeak { path } => assert_eq!(path, "/sys/fs/cgroup/mygrp/leaf/memory.peak"),
        _ => panic!("expected the peak counter to be read"),
    }

    // The leaf is removed before the report is handed out.
    let a = h.step(Event::PeakRead { content: Some(String::from("4096\n")) });
    match a {
        Action::RemoveLeaf { path } => assert_eq!(path, "/sys/fs/cgroup/mygrp/leaf"),
        _ => panic!("expected the leaf removal before the report"),
    }

    // No ephemeral directory was ever created for an explicit target, so the
    // report follows directly, with nonnegative times and exit status 0.
    let a = h.step(Event::LeafRemoved { ok: true });
    match a {
        Action::Report { metrics, code } => {
            assert_eq!(code, 0);
            assert_eq!(metrics.cg_rss_highwater, 4096);
            assert_eq!(metrics.child_rss_highwater, 2 * 1024);
            assert_eq!(metrics.child_user_ns, 0);
            assert_eq!(metrics.child_sys_ns, 0);
            assert_eq!(metrics.child_wall_ns, 5);
        }
        _ => panic!("expected the final report"),
    }
}

#[test]
fn derived_run_removes_temp_dir_before_report() {
    let mut h = Harness::new(args_with(None, false));
    h.step(Event::Begin);
    let a = h.step(Event::FsFiles { controllers: good_listing(), subtree: good_listing() });
    assert!(matches!(a, Action::ReadSelfCgroup));

    let record = "0::/user.slice/user-1000.slice/user@1000.service/app.slice/t.scope\n";
    let a = h.step(Event::SelfCgroup { record: Some(String::from(record)) });
    match a {
        Action::MakeTempDir { parent } => {
            assert_eq!(parent, "/sys/fs/cgroup/user.slice/user-1000.slice/user@1000.service");
        }
        _ => panic!("expected the ephemeral directory inside the session scope"),
    }

    let tmp = "/sys/fs/cgroup/user.slice/user-1000.slice/user@1000.service/cgmt-abc123";
    let a = h.step(Event::TempDirMade { path: Some(String::from(tmp)) });
    match a {
        Action::EnableController { subtree_path } => {
            assert_eq!(subtree_path, format!("{tmp}/cgroup.subtree_control"));
        }
        _ => panic!("expected the controller-enable write on the ephemeral target"),
    }

    let a = h.step(Event::ControllerEnabled { ok: true });
    match a {
        Action::CreateLeaf { path } => assert_eq!(path, format!("{tmp}/leaf")),
        _ => panic!("expected the leaf below the ephemeral target"),
    }
    h.step(Event::LeafMade { ok: true });
    h.step(Event::SpawnResult { ok: true });
    h.step(Event::Reaped { ok: true, info: zero_reap(0) });
    let a = h.step(Event::PeakRead { content: Some(String::from("8192")) });
    match a {
        Action::RemoveLeaf { path } => assert_eq!(path, format!("{tmp}/leaf")),
        _ => panic!("expected the leaf removal first"),
    }
    let a = h.step(Event::LeafRemoved { ok: true });
    match a {
        Action::RemoveTemp { path } => assert_eq!(path, tmp),
        _ => panic!("expected the ephemeral directory removal second"),
    }
    let a = h.step(Event::TempRemoved { ok: true });
    match a {
        Action::Report { metrics, code } => {
            assert_eq!(code, 0);
            assert_eq!(metrics.cg_rss_highwater, 8192);
        }
        _ => panic!("expected the final report last"),
    }
}

#[test]
fn failed_start_exits_127_after_cleanup() {
    let mut h = Harness::new(args_with(Some("/sys/fs/cgroup/g"), false));
    h.step(Event::Begin);
    h.step(Event::FsFiles { controllers: good_listing(), subtree: good_listing() });
    h.step(Event::ExplicitStat { exists: true, is_dir: true });
    h.step(Event::ControllerEnabled { ok: true });
    h.step(Event::LeafMade { ok: true });
    h.step(Event::SpawnResult { ok: true });
    // The child could not replace its image and terminated with status 127.
    h.step(Event::Reaped { ok: true, info: zero_reap(127 << 8) });
    let a = h.step(Event::PeakRead { content: Some(String::from("100")) });
    assert!(matches!(a, Action::RemoveLeaf { .. }));
    let a = h.step(Event::LeafRemoved { ok: true });
    match a {
        Action::Report { code, .. } => assert_eq!(code, 127),
        _ => panic!("expected the report with the distinguished status"),
    }
}

#[test]
fn missing_explicit_dir_fails_before_any_creation() {
    let mut h = Harness::new(args_with(Some("/nonexistent"), false));
    h.step(Event::Begin);
    h.step(Event::FsFiles { controllers: good_listing(), subtree: good_listing() });
    let a = h.step(Event::ExplicitStat { exists: false, is_dir: false });
    match a {
        Action::Fail { error, code } => {
            assert_eq!(error, HarnessError::ConfigurationError);
            assert_ne!(code, 0);
        }
        _ => panic!("expected an immediate configuration error, no creations"),
    }
}

#[test]
fn explicit_path_that_is_no_directory_fails() {
    let mut h = Harness::new(args_with(Some("/etc/hostname"), false));
    h.step(Event::Begin);
    h.step(Event::FsFiles { controllers: good_listing(), subtree: good_listing() });
    let a = h.step(Event::ExplicitStat { exists: true, is_dir: false });
    assert!(matches!(
        a,
        Action::Fail { error: HarnessError::ConfigurationError, .. }
    ));
}

#[test]
fn fallback_disabled_exits_119_without_spawning() {
    let mut h = Harness::new(args_with(None, true));
    h.step(Event::Begin);
    h.step(Event::FsFiles { controllers: good_listing(), subtree: good_listing() });
    // A record without a session-manager scope.
    let a = h.step(Event::SelfCgroup {
        record: Some(String::from("0::/init.scope\n")),
    });
    match a {
        Action::Fail { error, code } => {
            assert_eq!(error, HarnessError::LocatorError);
            assert_eq!(code, 119);
        }
        _ => panic!("expected the distinguished disabled-fallback status"),
    }
}

#[test]
fn fallback_reexecs_when_enabled() {
    let mut h = Harness::new(args_with(None, false));
    h.step(Event::Begin);
    h.step(Event::FsFiles { controllers: good_listing(), subtree: good_listing() });
    let a = h.step(Event::SelfCgroup {
        record: Some(String::from("0::/init.scope\n")),
    });
    assert!(matches!(a, Action::Reexec));
    // The re-launch only returns when it failed to start.
    let a = h.step(Event::ReexecReturned);
    match a {
        Action::Fail { error, code } => {
            assert_eq!(error, HarnessError::LocatorError);
            assert_eq!(code, 118);
        }
        _ => panic!("expected the distinguished delegation-failure status"),
    }
}

#[test]
fn unreadable_listing_is_a_configuration_error() {
    let mut h = Harness::new(args_with(Some("/g"), false));
    h.step(Event::Begin);
    let a = h.step(Event::FsFiles { controllers: None, subtree: good_listing() });
    assert!(matches!(
        a,
        Action::Fail { error: HarnessError::ConfigurationError, .. }
    ));
}

#[test]
fn listing_without_memory_is_a_configuration_error() {
    let mut h = Harness::new(args_with(Some("/g"), false));
    h.step(Event::Begin);
    let a = h.step(Event::FsFiles {
        controllers: Some(String::from("cpuset cpu io pids")),
        subtree: good_listing(),
    });
    assert!(matches!(
        a,
        Action::Fail { error: HarnessError::ConfigurationError, .. }
    ));
}

#[test]
fn unreadable_membership_record_is_a_locator_error() {
    let mut h = Harness::new(args_with(None, false));
    h.step(Event::Begin);
    h.step(Event::FsFiles { controllers: good_listing(), subtree: good_listing() });
    let a = h.step(Event::SelfCgroup { record: None });
    assert!(matches!(a, Action::Fail { error: HarnessError::LocatorError, .. }));
}

#[test]
fn tempdir_failure_is_a_locator_error() {
    let mut h = Harness::new(args_with(None, false));
    h.step(Event::Begin);
    h.step(Event::FsFiles { controllers: good_listing(), subtree: good_listing() });
    let record = "0::/user.slice/user-1000.slice/user@1000.service/a.scope";
    h.step(Event::SelfCgroup { record: Some(String::from(record)) });
    let a = h.step(Event::TempDirMade { path: None });
    assert!(matches!(a, Action::Fail { error: HarnessError::LocatorError, .. }));
}

#[test]
fn enable_failure_is_a_provisioning_error_and_releases_temp_dir() {
    let mut h = Harness::new(args_with(None, false));
    h.step(Event::Begin);
    h.step(Event::FsFiles { controllers: good_listing(), subtree: good_listing() });
    let record = "0::/user.slice/user-1000.slice/user@1000.service/a.scope";
    h.step(Event::SelfCgroup { record: Some(String::from(record)) });
    let tmp = "/sys/fs/cgroup/user.slice/user-1000.slice/user@1000.service/cgmt-x";
    h.step(Event::TempDirMade { path: Some(String::from(tmp)) });
    // No leaf exists yet, so the ephemeral directory is released directly.
    let a = h.step(Event::ControllerEnabled { ok: false });
    match a {
        Action::RemoveTemp { path } => assert_eq!(path, tmp),
        _ => panic!("expected the ephemeral directory to be released"),
    }
    let a = h.step(Event::TempRemoved { ok: true });
    assert!(matches!(
        a,
        Action::Fail { error: HarnessError::ProvisioningError, .. }
    ));
}

#[test]
fn leaf_failure_is_a_provisioning_error() {
    let mut h = Harness::new(args_with(Some("/g"), false));
    h.step(Event::Begin);
    h.step(Event::FsFiles { controllers: good_listing(), subtree: good_listing() });
    h.step(Event::ExplicitStat { exists: true, is_dir: true });
    h.step(Event::ControllerEnabled { ok: true });
    let a = h.step(Event::LeafMade { ok: false });
    assert!(matches!(
        a,
        Action::Fail { error: HarnessError::ProvisioningError, .. }
    ));
}

#[test]
fn spawn_failure_is_a_launch_error_with_leaf_removed_first() {
    let mut h = Harness::new(args_with(Some("/g"), false));
    h.step(Event::Begin);
    h.step(Event::FsFiles { controllers: good_listing(), subtree: good_listing() });
    h.step(Event::ExplicitStat { exists: true, is_dir: true });
    h.step(Event::ControllerEnabled { ok: true });
    h.step(Event::LeafMade { ok: true });
    let a = h.step(Event::SpawnResult { ok: false });
    match a {
        Action::RemoveLeaf { path } => assert_eq!(path, "/g/leaf"),
        _ => panic!("expected the leaf removal on the failure path too"),
    }
    let a = h.step(Event::LeafRemoved { ok: true });
    assert!(matches!(a, Action::Fail { error: HarnessError::LaunchError, .. }));
}

#[test]
fn wait_failure_is_a_collection_error() {
    let mut h = Harness::new(args_with(Some("/g"), false));
    h.step(Event::Begin);
    h.step(Event::FsFiles { controllers: good_listing(), subtree: good_listing() });
    h.step(Event::ExplicitStat { exists: true, is_dir: true });
    h.step(Event::ControllerEnabled { ok: true });
    h.step(Event::LeafMade { ok: true });
    h.step(Event::SpawnResult { ok: true });
    let a = h.step(Event::Reaped { ok: false, info: zero_reap(0) });
    assert!(matches!(a, Action::RemoveLeaf { .. }));
    let a = h.step(Event::LeafRemoved { ok: true });
    assert!(matches!(
        a,
        Action::Fail { error: HarnessError::CollectionError, .. }
    ));
}

#[test]
fn unreadable_peak_counter_is_a_collection_error() {
    let mut h = Harness::new(args_with(Some("/g"), false));
    h.step(Event::Begin);
    h.step(Event::FsFiles { controllers: good_listing(), subtree: good_listing() });
    h.step(Event::ExplicitStat { exists: true, is_dir: true });
    h.step(Event::ControllerEnabled { ok: true });
    h.step(Event::LeafMade { ok: true });
    h.step(Event::SpawnResult { ok: true });
    h.step(Event::Reaped { ok: true, info: zero_reap(0) });
    let a = h.step(Event::PeakRead { content: None });
    assert!(matches!(a, Action::RemoveLeaf { .. }));
    let a = h.step(Event::LeafRemoved { ok: true });
    assert!(matches!(
        a,
        Action::Fail { error: HarnessError::CollectionError, .. }
    ));
}

#[test]
fn malformed_peak_counter_is_a_collection_error() {
    let mut h = Harness::new(args_with(Some("/g"), false));
    h.step(Event::Begin);
    h.step(Event::FsFiles { controllers: good_listing(), subtree: good_listing() });
    h.step(Event::ExplicitStat { exists: true, is_dir: true });
    h.step(Event::ControllerEnabled { ok: true });
    h.step(Event::LeafMade { ok: true });
    h.step(Event::SpawnResult { ok: true });
    h.step(Event::Reaped { ok: true, info: zero_reap(0) });
    let a = h.step(Event::PeakRead { content: Some(String::from("not a number")) });
    assert!(matches!(a, Action::RemoveLeaf { .. }));
    let a = h.step(Event::LeafRemoved { ok: true });
    assert!(matches!(
        a,
        Action::Fail { error: HarnessError::CollectionError, .. }
    ));
}

#[test]
fn tolerated_removal_race_still_finishes() {
    let mut h = Harness::new(args_with(Some("/g"), false));
    h.step(Event::Begin);
    h.step(Event::FsFiles { controllers: good_listing(), subtree: good_listing() });
    h.step(Event::ExplicitStat { exists: true, is_dir: true });
    h.step(Event::ControllerEnabled { ok: true });
    h.step(Event::LeafMade { ok: true });
    h.step(Event::SpawnResult { ok: true });
    h.step(Event::Reaped { ok: true, info: zero_reap(0) });
    h.step(Event::PeakRead { content: Some(String::from("1")) });
    // The directory was already gone; the run still reports.
    let a = h.step(Event::LeafRemoved { ok: false });
    assert!(matches!(a, Action::Report { .. }));
}

#[test]
fn reexec_args_forwards_arguments() {
    let argv = vec![
        String::from("prog"),
        String::from("-t"),
        String::from("sleep"),
        String::from("1"),
    ];
    let r = reexec_args(&argv);
    assert_eq!(
        r,
        vec![
            String::from("--user"),
            String::from("--scope"),
            String::from("--quiet"),
            String::from("prog"),
            String::from("-Z"),
            String::from("-t"),
            String::from("sleep"),
            String::from("1"),
        ]
    );
}

use appopt::cpuset::{group_dir, group_tasks_path, CpusetManager, MoveStep};

#[test]
fn base_group_wanted() {
    assert!(CpusetManager::base_group_wanted("0-7", true));
    assert!(!CpusetManager::base_group_wanted("", true));
    assert!(!CpusetManager::base_group_wanted("0-7", false));
}

#[test]
fn disabled_manager_skips() {
    let m = CpusetManager::disabled();
    assert!(!m.enabled());
    assert_eq!(m.plan_move("4-6"), MoveStep::Skip);
}

#[test]
fn groups_are_created_once() {
    let mut m = CpusetManager::with_base_group(Some("0\n"));
    assert!(m.enabled());
    assert_eq!(m.mems(), "0");
    assert_eq!(m.plan_move(""), MoveStep::Skip);
    assert_eq!(m.plan_move("4-6"), MoveStep::CreateThenJoin);
    m.mark_created("4-6");
    assert_eq!(m.plan_move("4-6"), MoveStep::Join);
    assert_eq!(m.plan_move("7"), MoveStep::CreateThenJoin);
}

#[test]
fn mems_fallback() {
    assert_eq!(CpusetManager::with_base_group(None).mems(), "0");
    assert_eq!(CpusetManager::with_base_group(Some("  \n")).mems(), "0");
    assert_eq!(CpusetManager::with_base_group(Some(" 0-1\n")).mems(), "0-1");
}

#[test]
fn paths() {
    assert_eq!(group_dir("4-6"), "/dev/cpuset/AppOpt-RS/4-6");
    assert_eq!(group_tasks_path("0-3,7"), "/dev/cpuset/AppOpt-RS/0-3,7/tasks");
}

#[test]
fn enabled_flag_stays_over_moves() {
    let mut m = CpusetManager::with_base_group(Some("0"));
    for cores in ["0-3", "4-6", "7", "0-3"] {
        if m.plan_move(cores) == MoveStep::CreateThenJoin {
            m.mark_created(cores);
        }
        assert!(m.enabled());
        assert_eq!(m.mems(), "0");
    }
    let d = CpusetManager::disabled();
    for cores in ["0-3", "4-6"] {
        assert_eq!(d.plan_move(cores), MoveStep::Skip);
        assert!(!d.enabled());
    }
}

#[test]
fn recording_a_group_twice_changes_nothing() {
    let mut m = CpusetManager::with_base_group(Some("0"));
    m.mark_created("4-6");
    m.mark_created("4-6");
    assert_eq!(m.plan_move("4-6"), MoveStep::Join);
    assert_eq!(m.plan_move("4-7"), MoveStep::CreateThenJoin);
}

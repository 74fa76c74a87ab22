use std::collections::HashSet;

use appopt::config::{Settings, UserConfig};
use appopt::rules::{CoreTarget, EngineHint};
use appopt::scanner::{
    affinity_mask, base_package, comm_name, decide_placement, errno_name, package_from_cmdline,
    package_name, resolve_target_cores, ProcCache, ScanRound,
};
use appopt::topo::CpuTopology;

fn topo() -> CpuTopology {
    CpuTopology::from_max_freqs(&[2400000, 2400000, 2400000, 2400000, 3300000, 3300000, 3300000, 3730000])
}

fn config() -> UserConfig {
    UserConfig {
        override_threads: vec![("RenderThread".to_string(), "little".to_string())],
        override_app: vec![(
            "com.example.game".to_string(),
            vec![("RenderThread".to_string(), "big".to_string()), ("Quiet".to_string(), "default".to_string())],
        )],
        settings: Settings::default(),
    }
}

#[test]
fn resolve_targets() {
    let t = topo();
    assert_eq!(resolve_target_cores(CoreTarget::Prime, &t), vec![7]);
    assert_eq!(resolve_target_cores(CoreTarget::Big, &t), vec![4, 5, 6]);
    assert_eq!(resolve_target_cores(CoreTarget::BigAndPrime, &t), vec![4, 5, 6, 7]);
    assert_eq!(resolve_target_cores(CoreTarget::LittleAndBig, &t), vec![0, 1, 2, 3, 4, 5, 6]);
    assert_eq!(resolve_target_cores(CoreTarget::Little, &t), vec![0, 1, 2, 3]);
    assert!(resolve_target_cores(CoreTarget::Default, &t).is_empty());
}

#[test]
fn placement_precedence() {
    let t = topo();
    let c = config();
    // package override beats the global one
    let p = decide_placement(&t, &c, "com.example.game", "RenderThread").unwrap();
    assert_eq!(p.cores, vec![4, 5, 6]);
    assert_eq!(p.cpuset, "4-6");
    assert!(p.from_config);
    // global override beats the built-in rules (RenderThread is Prime there)
    let p = decide_placement(&t, &c, "com.other", "RenderThread").unwrap();
    assert_eq!(p.cpuset, "0-3");
    assert!(p.from_config);
    // built-in rules
    let p = decide_placement(&t, &c, "com.other", "UnityMain").unwrap();
    assert_eq!(p.cpuset, "7");
    assert!(!p.from_config);
    // unknown threads and `default` overrides are left alone
    assert!(decide_placement(&t, &c, "com.other", "SomeRandomThread").is_none());
    assert!(decide_placement(&t, &c, "com.example.game", "Quiet").is_none());
}

#[test]
fn no_cores_no_placement() {
    let t = CpuTopology::from_max_freqs(&[2000, 2000]);
    let c = UserConfig::default();
    // no prime cores on a one-level device
    assert!(decide_placement(&t, &c, "p", "UnityMain").is_none());
    assert_eq!(decide_placement(&t, &c, "p", "HeapTaskDaemon").unwrap().cpuset, "0-1");
}

#[test]
fn mask_bits() {
    assert!(affinity_mask(&[]).is_none());
    let m = affinity_mask(&[0, 9, 1023, 1024, 5000]).unwrap();
    assert_eq!(m.len(), 128);
    assert_eq!(m[0], 0b0000_0001);
    assert_eq!(m[1], 0b0000_0010);
    assert_eq!(m[127], 0b1000_0000);
    assert_eq!(m.iter().map(|b| b.count_ones()).sum::<u32>(), 3);
}

#[test]
fn errno_names() {
    assert_eq!(errno_name(-1), "EPERM");
    assert_eq!(errno_name(-3), "ESRCH");
    assert_eq!(errno_name(-13), "EACCES");
    assert_eq!(errno_name(-22), "EINVAL");
    assert_eq!(errno_name(-2), "?");
    assert_eq!(errno_name(i32::MIN), "?");
}

#[test]
fn package_names() {
    assert_eq!(base_package("com.tencent.mm:push"), "com.tencent.mm");
    assert_eq!(base_package("com.tencent.mm"), "com.tencent.mm");
    assert_eq!(base_package(":x"), "");
    assert_eq!(package_name("/system/bin/surfaceflinger"), Some("surfaceflinger".to_string()));
    assert_eq!(package_name("com.example"), Some("com.example".to_string()));
    assert_eq!(package_name("/system/bin/"), None);
    assert_eq!(package_from_cmdline(b"com.example.app\0--flag\0"), Some("com.example.app".to_string()));
    assert_eq!(package_from_cmdline(b"/system/bin/init\0"), Some("init".to_string()));
    assert_eq!(package_from_cmdline(b""), None);
    assert_eq!(package_from_cmdline(b"\xff\xfe\0"), None);
    assert_eq!(package_from_cmdline("线程\0".as_bytes()), Some("线程".to_string()));
    assert_eq!(comm_name("RenderThread\n"), "RenderThread");
}

#[test]
fn cache_rounds() {
    let mut c = ProcCache::default();
    assert!(c.is_new_process(10));
    assert!(c.needs_visit(100, false));
    c.remember_package(10, "a".to_string());
    c.remember_package(11, "b".to_string());
    assert_eq!(c.cached_package(10), Some("a".to_string()));
    let pids: HashSet<i32> = [10].into_iter().collect();
    let tids: HashSet<i32> = [100, 101].into_iter().collect();
    c.finish_scan(pids, tids);
    assert!(!c.is_new_process(10));
    assert!(c.is_new_process(11));
    assert_eq!(c.cached_package(11), None);
    assert_eq!(c.cached_package(10), Some("a".to_string()));
    assert!(!c.needs_visit(100, false));
    assert!(c.needs_visit(100, true));
    assert!(c.needs_visit(102, false));
    c.clear();
    assert!(c.is_new_process(10));
    assert_eq!(c.cached_package(10), None);
}

#[test]
fn scan_round_records_threads() {
    let mut r = ScanRound::new();
    r.record_process(7);
    let threads = vec![(70, None), (71, Some("UnityMain".to_string())), (72, Some("x".to_string()))];
    assert_eq!(r.record_threads(&threads), Some(EngineHint::Unity));
    let unnamed: Vec<(i32, Option<String>)> = vec![(80, None), (81, None)];
    assert_eq!(r.record_threads(&unnamed), None);
    assert_eq!(r.record_threads(&vec![(90, Some("main".to_string()))]), Some(EngineHint::Unknown));
    let expect: HashSet<i32> = [70, 71, 72, 80, 81, 90].into_iter().collect();
    assert_eq!(r.tids, expect);
    assert_eq!(r.pids, [7].into_iter().collect::<HashSet<i32>>());
}

use appopt::rules::{classify_thread, detect_engine, thread_matches, thread_rules, CoreTarget, EngineHint};

#[test]
fn test_exact_match() {
    assert_eq!(classify_thread("RenderThread"), CoreTarget::Prime);
    assert_eq!(classify_thread("UnityMain"), CoreTarget::Prime);
    assert_eq!(classify_thread("GameThread"), CoreTarget::Prime);
    assert_eq!(classify_thread("HeapTaskDaemon"), CoreTarget::Big);
    assert_eq!(classify_thread("AudioThread"), CoreTarget::Little);
}

#[test]
fn test_wildcard_match() {
    assert_eq!(classify_thread("mali-cmar-iface"), CoreTarget::Big);
    assert_eq!(classify_thread("Job.Worker1"), CoreTarget::Big);
    assert_eq!(classify_thread("Binder:1234_5"), CoreTarget::Big);
    assert_eq!(classify_thread("OkHttp ConnectionPool"), CoreTarget::Big);
}

#[test]
fn test_little_and_big_category() {
    assert_eq!(classify_thread("FMOD stream"), CoreTarget::LittleAndBig);
    assert_eq!(classify_thread("UnityChoreographer"), CoreTarget::LittleAndBig);
    assert_eq!(classify_thread("AudioTrack"), CoreTarget::LittleAndBig);
    assert_eq!(classify_thread("ThreadPoolForeground"), CoreTarget::LittleAndBig);
    assert_eq!(classify_thread("pool-3-thread-1"), CoreTarget::LittleAndBig);
    assert_eq!(classify_thread("pool-128-thread-"), CoreTarget::LittleAndBig);
    assert_eq!(classify_thread("#pool-5-thread-"), CoreTarget::LittleAndBig);
    assert_eq!(classify_thread("SoundPool_1"), CoreTarget::LittleAndBig);
    assert_eq!(classify_thread("SoundPool_2"), CoreTarget::LittleAndBig);
    assert_eq!(classify_thread("HadesPool#0"), CoreTarget::LittleAndBig);
    assert_eq!(classify_thread("HadesLibPool#1"), CoreTarget::LittleAndBig);
    assert_eq!(classify_thread("ijk_dash_pool_0"), CoreTarget::LittleAndBig);
}

#[test]
fn test_corrected_categories() {
    assert_eq!(classify_thread("glide-disk-cache-1"), CoreTarget::BigAndPrime);
    assert_eq!(classify_thread("AsyncTask #1"), CoreTarget::BigAndPrime);
    assert_eq!(classify_thread("mqt_js"), CoreTarget::BigAndPrime);
    assert_eq!(classify_thread("UnityGfxStats"), CoreTarget::Big);
}

#[test]
fn test_unknown_thread() {
    assert_eq!(classify_thread("SomeRandomThread"), CoreTarget::Default);
}

#[test]
fn test_priority_exact_over_wildcard() {
    assert_eq!(classify_thread("MainThread"), CoreTarget::Prime);
    assert_eq!(classify_thread("MainThread2"), CoreTarget::Big);
}

#[test]
fn test_wildcard_fn() {
    assert!(thread_matches("Thread-*", "Thread-123"));
    assert!(thread_matches("mali-*", "mali-cmar-iface"));
    assert!(thread_matches("?.raster", "1.raster"));
    assert!(!thread_matches("Thread-*", "MainThread"));
}

#[test]
fn first_rule_wins_among_equal_priorities() {
    // "RenderThreadX" matches the wildcard "RenderThread*" (Big) only.
    assert_eq!(classify_thread("RenderThreadX"), CoreTarget::Big);
    // "ThreadPoolX" matches "ThreadPool*" (LittleAndBig, 50) and the broad
    // "*[Pp]ool*" (BigAndPrime, 20): the higher priority wins.
    assert_eq!(classify_thread("ThreadPoolX"), CoreTarget::LittleAndBig);
    // Only broad rules: "*[Aa]nim*" (BigAndPrime) comes before "*[Aa]udio*".
    assert_eq!(classify_thread("xAnimAudio"), CoreTarget::BigAndPrime);
}

#[test]
fn exact_flutter_raster_is_big_and_prime() {
    assert_eq!(classify_thread("1.raster"), CoreTarget::BigAndPrime);
    assert_eq!(classify_thread("1.ui"), CoreTarget::Prime);
    assert_eq!(classify_thread("3.ui"), CoreTarget::BigAndPrime);
    assert_eq!(classify_thread("1.io"), CoreTarget::Big);
}

#[test]
fn empty_name_is_default() {
    assert_eq!(classify_thread(""), CoreTarget::Default);
}

#[test]
fn table_priorities() {
    let rules = thread_rules();
    assert_eq!(rules.len(), 161);
    assert_eq!(rules[0].pattern, "RenderThread");
    assert_eq!(rules[0].priority, 100);
    assert!(rules.iter().all(|r| r.priority == 20 || r.priority == 50 || r.priority == 100));
}

#[test]
fn engine_detection() {
    let v = |xs: &[&str]| xs.iter().map(|s| s.to_string()).collect::<Vec<String>>();
    assert_eq!(detect_engine(&v(&["main", "UnityGfxDeviceW"])), EngineHint::Unity);
    assert_eq!(detect_engine(&v(&["RHIThread"])), EngineHint::Unreal);
    assert_eq!(detect_engine(&v(&["x", "DartWorker-1", "UnityMain"])), EngineHint::Flutter);
    assert_eq!(detect_engine(&v(&["Chrome_IOThread"])), EngineHint::Chromium);
    assert_eq!(detect_engine(&v(&["main", "Binder:1"])), EngineHint::Unknown);
    assert_eq!(detect_engine(&v(&[])), EngineHint::Unknown);
}

use appopt::glob::glob_match;

#[test]
fn test_basic() {
    assert!(glob_match("Thread-*", "Thread-123"));
    assert!(glob_match("mali-*", "mali-cmar-iface"));
    assert!(glob_match("?.raster", "1.raster"));
    assert!(!glob_match("Thread-*", "MainThread"));
    assert!(glob_match("RenderThread", "RenderThread"));
    assert!(!glob_match("RenderThread", "RenderThreadX"));
}

#[test]
fn test_bracket_class() {
    assert!(glob_match("[Bb]inder:*", "Binder:1234"));
    assert!(glob_match("[Bb]inder:*", "binder:5"));
    assert!(!glob_match("[Bb]inder:*", "xinder:5"));
    assert!(glob_match("[Bb][Gg]*", "BGthread"));
    assert!(glob_match("[Bb][Gg]*", "bgWorker"));
    assert!(glob_match("Game[0-9]*", "Game7Loop"));
    assert!(!glob_match("Game[0-9]*", "GameXLoop"));
    assert!(glob_match("Thread-3[0-9]", "Thread-35"));
    assert!(!glob_match("Thread-3[0-9]", "Thread-45"));
    assert!(glob_match("GC?Marker??", "GCXMarkerAB"));
}

#[test]
fn test_negate_class() {
    assert!(glob_match("[!0-9]*", "abc"));
    assert!(!glob_match("[!0-9]*", "9abc"));
    assert!(glob_match("[^0-9]*", "abc"));
}

#[test]
fn test_dot_is_literal() {
    assert!(glob_match("*.*", "1.ui"));
    assert!(!glob_match("*.*", "1ui"));
}

#[test]
fn test_process_key_wildcard() {
    assert!(glob_match(
        "com.tencent.mm:xweb_sandboxed_process*",
        "com.tencent.mm:xweb_sandboxed_process0"
    ));
    assert!(!glob_match(
        "com.tencent.mm:xweb_sandboxed_process*",
        "com.tencent.mm:other_process0"
    ));
}

#[test]
fn test_mixed_pattern_from_applist() {
    assert!(glob_match("*[0-9]-[0-9]*", "Thread-12-3"));
    assert!(glob_match("Job.[Ww]orker*", "Job.Worker1"));
    assert!(glob_match("Job.[Ww]orker*", "Job.worker7"));
}

#[test]
fn star_matches_everything() {
    assert!(glob_match("*", ""));
    assert!(glob_match("*", "anything at all"));
    assert!(glob_match("**", "x"));
}

#[test]
fn question_mark_is_exactly_one_char() {
    assert!(glob_match("?", "a"));
    assert!(!glob_match("?", ""));
    assert!(!glob_match("?", "ab"));
}

#[test]
fn literal_pattern_is_equality() {
    assert!(glob_match("", ""));
    assert!(!glob_match("", "a"));
    assert!(!glob_match("abc", "ab"));
    assert!(glob_match("a.b", "a.b"));
    assert!(!glob_match("a.b", "axb"));
}

#[test]
fn unclosed_bracket_is_literal() {
    assert!(glob_match("a[b", "a[b"));
    assert!(!glob_match("a[b", "ab"));
    assert!(glob_match("[*", "[xyz"));
}

#[test]
fn empty_class_matches_nothing() {
    assert!(!glob_match("[]", "]"));
    assert!(!glob_match("[]x", "ax"));
    assert!(!glob_match("[!]", "a"));
}

#[test]
fn dash_at_class_end_is_literal() {
    assert!(glob_match("[a-]", "-"));
    assert!(glob_match("[a-]", "a"));
    assert!(!glob_match("[a-]", "b"));
}

#[test]
fn star_backtracks() {
    assert!(glob_match("*ab*ab", "xabyabab"));
    assert!(!glob_match("*ab*ab", "xabyaba"));
    assert!(glob_match("a*b*c", "aXbYbZc"));
    assert!(!glob_match("a*b*c", "aXbYbZ"));
}

#[test]
fn non_ascii_text() {
    assert!(glob_match("线程*", "线程池"));
    assert!(glob_match("?池", "线池"));
}

#[test]
fn trailing_star_extends_a_match() {
    assert!(glob_match("Thread-[0-9]", "Thread-1"));
    assert!(glob_match("Thread-[0-9]*", "Thread-1"));
    assert!(glob_match("Thread-[0-9]*", "Thread-1xyz"));
    assert!(glob_match("a[b*", "a[b"));
    assert!(glob_match("a[b**", "a[bcd"));
    assert!(glob_match("[a-*", "[a-"));
}

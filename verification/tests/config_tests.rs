use appopt::config::{parse_target, target_from_word, Settings, UserConfig};
use appopt::rules::CoreTarget;

fn s(x: &str) -> String {
    x.to_string()
}

fn sample() -> UserConfig {
    UserConfig {
        override_threads: vec![(s("RenderThread"), s("prime")), (s("Weird"), s("turbo"))],
        override_app: vec![(
            s("com.example.game"),
            vec![(s("GameMainThread"), s("Prime")), (s("RenderThread"), s("little"))],
        )],
        settings: Settings::default(),
    }
}

#[test]
fn default_settings() {
    let st = Settings::default();
    assert_eq!(st.scan_interval_ms, 2000);
    assert_eq!(st.log_level, "info");
    let c = UserConfig::default();
    assert!(c.override_threads.is_empty() && c.override_app.is_empty());
}

#[test]
fn target_words() {
    assert_eq!(parse_target("prime"), Some(CoreTarget::Prime));
    assert_eq!(parse_target("BIG"), Some(CoreTarget::Big));
    assert_eq!(parse_target("Big+Prime"), Some(CoreTarget::BigAndPrime));
    assert_eq!(parse_target("bigandprime"), Some(CoreTarget::BigAndPrime));
    assert_eq!(parse_target("little+big"), Some(CoreTarget::LittleAndBig));
    assert_eq!(parse_target("little"), Some(CoreTarget::Little));
    assert_eq!(parse_target("default"), Some(CoreTarget::Default));
    assert_eq!(parse_target("None"), Some(CoreTarget::Default));
    assert_eq!(parse_target("turbo"), None);
    assert_eq!(parse_target(""), None);
    assert_eq!(target_from_word("Prime"), None);
}

#[test]
fn global_override() {
    let c = sample();
    assert_eq!(c.get_override("RenderThread"), Some(CoreTarget::Prime));
    assert_eq!(c.get_override("Weird"), None);
    assert_eq!(c.get_override("Other"), None);
}

#[test]
fn package_override() {
    let c = sample();
    assert_eq!(c.get_app_override("com.example.game", "GameMainThread"), Some(CoreTarget::Prime));
    assert_eq!(c.get_app_override("com.example.game", "RenderThread"), Some(CoreTarget::Little));
    assert_eq!(c.get_app_override("com.example.game", "Other"), None);
    assert_eq!(c.get_app_override("com.other", "GameMainThread"), None);
}

#[test]
fn first_entry_counts() {
    let c = UserConfig {
        override_threads: vec![(s("A"), s("big")), (s("A"), s("little"))],
        override_app: vec![],
        settings: Settings::default(),
    };
    assert_eq!(c.get_override("A"), Some(CoreTarget::Big));
}

#[test]
fn unique_names_found_wherever_listed() {
    let c = UserConfig {
        override_threads: vec![(s("A"), s("big")), (s("B"), s("little")), (s("C"), s("prime"))],
        override_app: vec![(s("p1"), vec![]), (s("p2"), vec![(s("C"), s("little+big"))])],
        settings: Settings::default(),
    };
    assert_eq!(c.get_override("C"), Some(CoreTarget::Prime));
    assert_eq!(c.get_override("B"), Some(CoreTarget::Little));
    assert_eq!(c.get_override("D"), None);
    assert_eq!(c.get_app_override("p2", "C"), Some(CoreTarget::LittleAndBig));
    assert_eq!(c.get_app_override("p1", "C"), None);
}

#[test]
fn ascii_words_in_any_case() {
    assert_eq!(parse_target("PRIME"), Some(CoreTarget::Prime));
    assert_eq!(parse_target("Little+Big"), Some(CoreTarget::LittleAndBig));
    assert_eq!(parse_target("DeFaUlT"), Some(CoreTarget::Default));
}

//! Optional user overrides: a core class per thread name, for every app or
//! for one package, and a few settings.

use vstd::prelude::*;
use vstd::string::*;
use crate::rules::CoreTarget;
use crate::text::str_eq;

verus! {

/// Loop settings.
#[derive(Debug)]
pub struct Settings {
    /// Time between two scans, in milliseconds.
    pub scan_interval_ms: u64,
    /// `debug` logs every placement; `info` and `warn` do not.
    pub log_level: String,
}

impl Default for Settings {
    fn default() -> (s: Self)
        ensures
            s.scan_interval_ms == 2000,
            s.log_level@ == "info"@,
    {
        Settings { scan_interval_ms: 2000, log_level: String::from_str("info") }
    }
}

/// The user's overrides. Each list pairs a name with a value and, as the
/// tables of the configuration file it is read from, holds each name once
/// (`well_formed`); a lookup takes the first entry with the name.
#[derive(Debug)]
pub struct UserConfig {
    /// Thread name -> core class, for every app.
    pub override_threads: Vec<(String, String)>,
    /// Package name -> (thread name -> core class), for that package only.
    pub override_app: Vec<(String, Vec<(String, String)>)>,
    pub settings: Settings,
}

/// Whether no name occurs twice in `pairs`.
pub open spec fn keys_unique(pairs: Seq<(String, String)>) -> bool {
    forall|i: int, j: int| 0 <= i < j < pairs.len() ==> pairs[i].0@ != pairs[j].0@
}

/// Whether no package occurs twice in `apps`.
pub open spec fn packages_unique(apps: Seq<(String, Vec<(String, String)>)>) -> bool {
    forall|i: int, j: int| 0 <= i < j < apps.len() ==> apps[i].0@ != apps[j].0@
}

impl UserConfig {
    /// Each thread name occurs once in the global list, each package once,
    /// and each thread name once in the list of its package.
    pub open spec fn well_formed(&self) -> bool {
        &&& keys_unique(self.override_threads@)
        &&& packages_unique(self.override_app@)
        &&& forall|i: int|
            0 <= i < self.override_app@.len() ==> keys_unique(#[trigger] self.override_app@[i].1@)
    }
}

impl Default for UserConfig {
    fn default() -> (c: Self)
        ensures
            c.well_formed(),
            c.override_threads@.len() == 0,
            c.override_app@.len() == 0,
            c.settings.scan_interval_ms == 2000,
            c.settings.log_level@ == "info"@,
    {
        UserConfig {
            override_threads: Vec::new(),
            override_app: Vec::new(),
            settings: Settings::default(),
        }
    }
}

/// The value paired with `key` by the first entry of `pairs` that has it.
pub open spec fn lookup(pairs: Seq<(String, String)>, key: Seq<char>) -> Option<Seq<char>>
    decreases pairs.len(),
{
    if pairs.len() == 0 {
        None
    } else if pairs[0].0@ == key {
        Some(pairs[0].1@)
    } else {
        lookup(pairs.drop_first(), key)
    }
}

/// With each name listed once, the entry of a name is what a lookup finds,
/// wherever it stands in the list; a name with no entry is found nowhere.
pub proof fn law_unique_keys_lookup(pairs: Seq<(String, String)>, key: Seq<char>)
    requires
        keys_unique(pairs),
    ensures
        forall|i: int|
            0 <= i < pairs.len() && #[trigger] pairs[i].0@ == key ==> lookup(pairs, key) == Some(
                pairs[i].1@,
            ),
        (forall|i: int| 0 <= i < pairs.len() ==> #[trigger] pairs[i].0@ != key) ==> lookup(
            pairs,
            key,
        ) is None,
    decreases pairs.len(),
{
    if pairs.len() > 0 {
        let rest = pairs.drop_first();
        assert forall|i: int, j: int| 0 <= i < j < rest.len() implies rest[i].0@ != rest[j].0@ by {
            assert(rest[i] == pairs[i + 1] && rest[j] == pairs[j + 1]);
        }
        law_unique_keys_lookup(rest, key);
        assert forall|i: int| 0 <= i < pairs.len() && #[trigger] pairs[i].0@ == key implies lookup(
            pairs,
            key,
        ) == Some(pairs[i].1@) by {
            if i > 0 {
                assert(pairs[0].0@ != pairs[i].0@);
                assert(rest[i - 1] == pairs[i]);
            }
        }
        if forall|i: int| 0 <= i < pairs.len() ==> #[trigger] pairs[i].0@ != key {
            assert forall|i: int| 0 <= i < rest.len() implies #[trigger] rest[i].0@ != key by {
                assert(rest[i] == pairs[i + 1]);
            }
            assert(pairs[0].0@ != key);
        }
    }
}

/// With each package listed once, the thread list of a package is the one
/// its entry holds, wherever that entry stands.
pub proof fn law_unique_packages_lookup(
    apps: Seq<(String, Vec<(String, String)>)>,
    pkg: Seq<char>,
)
    requires
        packages_unique(apps),
    ensures
        forall|i: int|
            0 <= i < apps.len() && #[trigger] apps[i].0@ == pkg ==> lookup_app(apps, pkg) == Some(
                apps[i].1@,
            ),
        (forall|i: int| 0 <= i < apps.len() ==> #[trigger] apps[i].0@ != pkg) ==> lookup_app(
            apps,
            pkg,
        ) is None,
    decreases apps.len(),
{
    if apps.len() > 0 {
        let rest = apps.drop_first();
        assert forall|i: int, j: int| 0 <= i < j < rest.len() implies rest[i].0@ != rest[j].0@ by {
            assert(rest[i] == apps[i + 1] && rest[j] == apps[j + 1]);
        }
        law_unique_packages_lookup(rest, pkg);
        assert forall|i: int| 0 <= i < apps.len() && #[trigger] apps[i].0@ == pkg implies lookup_app(
            apps,
            pkg,
        ) == Some(apps[i].1@) by {
            if i > 0 {
                assert(apps[0].0@ != apps[i].0@);
                assert(rest[i - 1] == apps[i]);
            }
        }
        if forall|i: int| 0 <= i < apps.len() ==> #[trigger] apps[i].0@ != pkg {
            assert forall|i: int| 0 <= i < rest.len() implies #[trigger] rest[i].0@ != pkg by {
                assert(rest[i] == apps[i + 1]);
            }
            assert(apps[0].0@ != pkg);
        }
    }
}

/// The thread list of the first entry of `apps` for package `pkg`.
pub open spec fn lookup_app(apps: Seq<(String, Vec<(String, String)>)>, pkg: Seq<char>) -> Option<
    Seq<(String, String)>,
>
    decreases apps.len(),
{
    if apps.len() == 0 {
        None
    } else if apps[0].0@ == pkg {
        Some(apps[0].1@)
    } else {
        lookup_app(apps.drop_first(), pkg)
    }
}

/// What `str::to_lowercase` gives for `s` (Unicode lower case mapping).
pub uninterp spec fn lowercase(s: Seq<char>) -> Seq<char>;

/// Whether every character of `s` is ASCII.
pub open spec fn all_ascii(s: Seq<char>) -> bool {
    forall|i: int| 0 <= i < s.len() ==> (#[trigger] s[i] as u32) < 128
}

/// `c` with `A`-`Z` turned into `a`-`z`.
pub open spec fn ascii_lower_char(c: char) -> char {
    if 65 <= (c as u32) && (c as u32) <= 90 {
        ((c as u32) + 32) as char
    } else {
        c
    }
}

/// `s` with `A`-`Z` turned into `a`-`z`, every other character kept.
pub open spec fn ascii_lower(s: Seq<char>) -> Seq<char> {
    s.map_values(|c: char| ascii_lower_char(c))
}

/// `str::to_lowercase`: the lower-case form of `s`. Its result is taken to be
/// `lowercase(s@)`, a function of `s` alone. Of the mapping only the ASCII
/// part is stated: on ASCII text it turns `A`-`Z` into `a`-`z` and keeps
/// every other character; the rest of Unicode is not stated.
#[verifier::external_body]
fn to_lowercase(s: &str) -> (res: String)
    ensures
        res@ == lowercase(s@),
        all_ascii(s@) ==> res@ == ascii_lower(s@),
{
    s.to_lowercase()
}

/// The core class that a lower-case word names.
pub open spec fn target_of_word(w: Seq<char>) -> Option<CoreTarget> {
    if w == "prime"@ {
        Some(CoreTarget::Prime)
    } else if w == "big"@ {
        Some(CoreTarget::Big)
    } else if w == "big+prime"@ || w == "bigandprime"@ {
        Some(CoreTarget::BigAndPrime)
    } else if w == "little+big"@ {
        Some(CoreTarget::LittleAndBig)
    } else if w == "little"@ {
        Some(CoreTarget::Little)
    } else if w == "default"@ || w == "none"@ {
        Some(CoreTarget::Default)
    } else {
        None
    }
}

/// The core class that a configured value names, in any letter case.
pub open spec fn parse_target_spec(s: Seq<char>) -> Option<CoreTarget> {
    target_of_word(lowercase(s))
}

/// The core class that a lower-case word names: `prime`, `big`,
/// `big+prime` (or `bigandprime`), `little+big`, `little`, `default` (or
/// `none`); any other word names none.
pub fn target_from_word(word: &str) -> (res: Option<CoreTarget>)
    ensures
        res == target_of_word(word@),
{
    if str_eq(word, "prime") {
        Some(CoreTarget::Prime)
    } else if str_eq(word, "big") {
        Some(CoreTarget::Big)
    } else if str_eq(word, "big+prime") || str_eq(word, "bigandprime") {
        Some(CoreTarget::BigAndPrime)
    } else if str_eq(word, "little+big") {
        Some(CoreTarget::LittleAndBig)
    } else if str_eq(word, "little") {
        Some(CoreTarget::Little)
    } else if str_eq(word, "default") || str_eq(word, "none") {
        Some(CoreTarget::Default)
    } else {
        None
    }
}

/// The words that a configuration may use for a core class: `prime`,
/// `big`, `big+prime` (also `bigandprime`), `little+big`, `little` and
/// `default` (also `none`, which leaves the thread alone).
pub proof fn law_target_words()
    ensures
        target_of_word("prime"@) == Some(CoreTarget::Prime),
        target_of_word("big"@) == Some(CoreTarget::Big),
        target_of_word("big+prime"@) == Some(CoreTarget::BigAndPrime),
        target_of_word("bigandprime"@) == Some(CoreTarget::BigAndPrime),
        target_of_word("little+big"@) == Some(CoreTarget::LittleAndBig),
        target_of_word("little"@) == Some(CoreTarget::Little),
        target_of_word("default"@) == Some(CoreTarget::Default),
        target_of_word("none"@) == Some(CoreTarget::Default),
        target_of_word(Seq::empty()) is None,
{
    reveal_strlit("prime");
    reveal_strlit("big");
    reveal_strlit("big+prime");
    reveal_strlit("bigandprime");
    reveal_strlit("little+big");
    reveal_strlit("little");
    reveal_strlit("default");
    reveal_strlit("none");
    assert("prime"@.len() == 5 && "big"@.len() == 3 && "big+prime"@.len() == 9
        && "bigandprime"@.len() == 11 && "little+big"@.len() == 10 && "little"@.len() == 6
        && "default"@.len() == 7 && "none"@.len() == 4);
}

/// The core class that a configured value names, in any letter case.
pub fn parse_target(s: &str) -> (res: Option<CoreTarget>)
    ensures
        res == parse_target_spec(s@),
        all_ascii(s@) ==> res == target_of_word(ascii_lower(s@)),
{
    let lower = to_lowercase(s);
    target_from_word(lower.as_str())
}

fn find_value<'a>(pairs: &'a Vec<(String, String)>, key: &str) -> (res: Option<&'a String>)
    ensures
        match res {
            Some(v) => lookup(pairs@, key@) == Some(v@),
            None => lookup(pairs@, key@) is None,
        },
{
    let mut i: usize = 0;
    assert(pairs@.skip(0) =~= pairs@);
    while i < pairs.len()
        invariant
            i <= pairs@.len(),
            lookup(pairs@, key@) == lookup(pairs@.skip(i as int), key@),
        decreases pairs.len() - i,
    {
        let ghost rest = pairs@.skip(i as int);
        assert(rest[0] == pairs@[i as int]);
        if str_eq(pairs[i].0.as_str(), key) {
            return Some(&pairs[i].1);
        }
        assert(rest.drop_first() =~= pairs@.skip(i + 1));
        i = i + 1;
    }
    None
}

fn find_app<'a>(apps: &'a Vec<(String, Vec<(String, String)>)>, pkg: &str) -> (res: Option<
    &'a Vec<(String, String)>,
>)
    ensures
        match res {
            Some(v) => lookup_app(apps@, pkg@) == Some(v@),
            None => lookup_app(apps@, pkg@) is None,
        },
{
    let mut i: usize = 0;
    assert(apps@.skip(0) =~= apps@);
    while i < apps.len()
        invariant
            i <= apps@.len(),
            lookup_app(apps@, pkg@) == lookup_app(apps@.skip(i as int), pkg@),
        decreases apps.len() - i,
    {
        let ghost rest = apps@.skip(i as int);
        assert(rest[0] == apps@[i as int]);
        if str_eq(apps[i].0.as_str(), pkg) {
            return Some(&apps[i].1);
        }
        assert(rest.drop_first() =~= apps@.skip(i + 1));
        i = i + 1;
    }
    None
}

impl UserConfig {
    /// The override for `thread_name` that holds in every app.
    pub open spec fn override_spec(&self, thread_name: Seq<char>) -> Option<CoreTarget> {
        match lookup(self.override_threads@, thread_name) {
            Some(v) => parse_target_spec(v),
            None => None,
        }
    }

    /// The override for `thread_name` in the package `pkg`.
    pub open spec fn app_override_spec(&self, pkg: Seq<char>, thread_name: Seq<char>) -> Option<
        CoreTarget,
    > {
        match lookup_app(self.override_app@, pkg) {
            Some(threads) => match lookup(threads, thread_name) {
                Some(v) => parse_target_spec(v),
                None => None,
            },
            None => None,
        }
    }

    /// The override for a thread name that holds in every app.
    pub fn get_override(&self, thread_name: &str) -> (res: Option<CoreTarget>)
        ensures
            res == self.override_spec(thread_name@),
    {
        match find_value(&self.override_threads, thread_name) {
            Some(v) => parse_target(v.as_str()),
            None => None,
        }
    }

    /// The override for a thread name in one package.
    pub fn get_app_override(&self, pkg: &str, thread_name: &str) -> (res: Option<CoreTarget>)
        ensures
            res == self.app_override_spec(pkg@, thread_name@),
    {
        match find_app(&self.override_app, pkg) {
            Some(threads) => match find_value(threads, thread_name) {
                Some(v) => parse_target(v.as_str()),
                None => None,
            },
            None => None,
        }
    }
}

} // verus!

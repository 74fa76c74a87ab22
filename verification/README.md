# appopt

Thread-to-core placement for Android devices with prime / big / little
cores, as a Verus-verified library and a small daemon around it.

- `src/glob.rs` — glob matching of thread names (`*`, `?`, `[abc]`, `[a-z]`,
  `[!abc]`), with its meaning as a recursive specification and laws.
- `src/rules.rs` — the built-in rule table and the classification of a
  thread name (highest priority wins, first among equals), engine hints.
- `src/topo.rs` — grouping cores by maximum frequency, cpuset strings.
- `src/config.rs` — the user's overrides and settings.
- `src/cpuset.rs` — decisions for the private cpuset groups.
- `src/scanner.rs` — placement precedence, the scan's memory between
  rounds, the affinity mask, what `/proc` files say.
- `src/text.rs` — character-level helpers (trim, decimal numbers).
- `app/main.rs` — arguments, file and `/proc` reading, cpuset writes, the
  `sched_setaffinity` call, the TOML file and the scan loop.

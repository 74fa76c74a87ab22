//! Decisions of the process scan: what a thread's placement is, which
//! threads need a visit, what the scan remembers between rounds, the
//! affinity mask handed to `sched_setaffinity`, and what `/proc` files say.
//!
//! Placement precedence: a package override from the user's configuration,
//! then a global thread-name override, then the built-in rules; a thread
//! that none of them places is left to the system scheduler.

use std::collections::HashMap;
use std::collections::HashSet;
use vstd::prelude::*;
use vstd::utf8::decode_utf8;
use vstd::utf8::valid_utf8;
use crate::config::UserConfig;
use crate::rules::builtin_rules;
use crate::rules::classify_spec;
use crate::rules::classify_thread;
use crate::rules::CoreTarget;
use crate::rules::detect_engine;
use crate::rules::detect_engine_spec;
use crate::rules::string_views;
use crate::rules::EngineHint;
use crate::text::chars_of;
use crate::text::string_from_chars;
use crate::text::trim;
use crate::text::trimmed;
use crate::topo::append_cores;
use crate::topo::cpuset_spec;
use crate::topo::CpuTopology;

verus! {

broadcast use vstd::std_specs::hash::group_hash_axioms;

// ---------------------------------------------------------------------------
// What the scan remembers
// ---------------------------------------------------------------------------

/// What the scan remembers from one round to the next.
pub struct ProcCache {
    /// The threads seen in the last round.
    pub seen_tids: HashSet<i32>,
    /// The processes seen in the last round.
    pub known_pids: HashSet<i32>,
    /// The package name of each process, as read from its command line.
    pub pid_pkg: HashMap<i32, String>,
}

impl Default for ProcCache {
    fn default() -> (c: Self)
        ensures
            c.seen_tids@ == Set::<i32>::empty(),
            c.known_pids@ == Set::<i32>::empty(),
            c.pid_pkg@ == Map::<i32, String>::empty(),
    {
        ProcCache { seen_tids: HashSet::new(), known_pids: HashSet::new(), pid_pkg: HashMap::new() }
    }
}

impl ProcCache {
    /// Forgets everything.
    pub fn clear(&mut self)
        ensures
            final(self).seen_tids@ == Set::<i32>::empty(),
            final(self).known_pids@ == Set::<i32>::empty(),
            final(self).pid_pkg@ == Map::<i32, String>::empty(),
    {
        self.seen_tids.clear();
        self.known_pids.clear();
        self.pid_pkg.clear();
    }

    /// Whether `pid` was not seen in the last round.
    pub fn is_new_process(&self, pid: i32) -> (res: bool)
        ensures
            res == !self.known_pids@.contains(pid),
    {
        !self.known_pids.contains(&pid)
    }

    /// Whether the thread `tid` is to be placed in this round: every thread
    /// of a new process, and every thread not seen in the last round.
    pub fn needs_visit(&self, tid: i32, is_new_proc: bool) -> (res: bool)
        ensures
            res == (is_new_proc || !self.seen_tids@.contains(tid)),
    {
        !(self.seen_tids.contains(&tid) && !is_new_proc)
    }

    /// The package name remembered for `pid`.
    pub fn cached_package(&self, pid: i32) -> (res: Option<String>)
        ensures
            match res {
                Some(s) => self.pid_pkg@.contains_key(pid) && s@ == self.pid_pkg@[pid]@,
                None => !self.pid_pkg@.contains_key(pid),
            },
    {
        match self.pid_pkg.get(&pid) {
            Some(s) => Some(s.clone()),
            None => None,
        }
    }

    /// Remembers the package name of `pid`.
    pub fn remember_package(&mut self, pid: i32, pkg: String)
        ensures
            final(self).pid_pkg@ == old(self).pid_pkg@.insert(pid, pkg),
            final(self).seen_tids@ == old(self).seen_tids@,
            final(self).known_pids@ == old(self).known_pids@,
    {
        self.pid_pkg.insert(pid, pkg);
    }

    /// Ends a round: the processes and threads of this round replace those
    /// of the last, and package names of processes that are gone are
    /// forgotten.
    pub fn finish_scan(&mut self, new_pids: HashSet<i32>, new_tids: HashSet<i32>)
        ensures
            final(self).known_pids@ == new_pids@,
            final(self).seen_tids@ == new_tids@,
            final(self).pid_pkg@ == old(self).pid_pkg@.restrict(new_pids@),
    {
        let ghost before = self.pid_pkg@;
        let mut stale: Vec<i32> = Vec::new();
        for k in it: self.pid_pkg.keys()
            invariant
                before == self.pid_pkg@,
                it.seq().unref().to_set() == before.dom(),
                forall|j: int|
                    0 <= j < stale@.len() ==> before.dom().contains(#[trigger] stale@[j])
                        && !new_pids@.contains(stale@[j]),
                forall|j: int|
                    0 <= j < it.index() && !new_pids@.contains(*#[trigger] it.seq()[j])
                        ==> stale@.contains(*it.seq()[j]),
        {
            let ghost idx = it.index();
            let ghost old_stale = stale@;
            assert(it.seq()[idx] == k);
            if !new_pids.contains(k) {
                stale.push(*k);
            }
            assert forall|x: i32| old_stale.contains(x) implies stale@.contains(x) by {
                let j = choose|j: int| 0 <= j < old_stale.len() && old_stale[j] == x;
                assert(stale@[j] == x);
            }
            assert forall|j: int|
                0 <= j <= idx && !new_pids@.contains(*#[trigger] it.seq()[j]) implies stale@.contains(
                *it.seq()[j],
            ) by {
                if j == idx {
                    assert(stale@[stale@.len() - 1] == *k);
                } else {
                    assert(old_stale.contains(*it.seq()[j]));
                }
            }
        }
        let mut i: usize = 0;
        while i < stale.len()
            invariant
                i <= stale@.len(),
                forall|j: int|
                    0 <= j < stale@.len() ==> before.dom().contains(#[trigger] stale@[j])
                        && !new_pids@.contains(stale@[j]),
                forall|x: i32|
                    before.dom().contains(x) && !new_pids@.contains(x) ==> stale@.contains(x),
                self.pid_pkg@ == before.remove_keys(stale@.subrange(0, i as int).to_set()),
            decreases stale.len() - i,
        {
            let k = stale[i];
            self.pid_pkg.remove(&k);
            proof {
                let s0 = stale@.subrange(0, i as int);
                let s1 = stale@.subrange(0, i + 1);
                assert(s1 =~= s0.push(k));
                s0.lemma_push_to_set_commute(k);
                assert(before.remove_keys(s1.to_set()) =~= before.remove_keys(s0.to_set()).remove(
                    k,
                ));
            }
            i = i + 1;
        }
        proof {
            assert(stale@.subrange(0, stale@.len() as int) =~= stale@);
            assert(before.remove_keys(stale@.to_set()) =~= before.restrict(new_pids@)) by {
                assert forall|x: i32| stale@.to_set().contains(x) implies !new_pids@.contains(x) by {
                    let j = choose|j: int| 0 <= j < stale@.len() && stale@[j] == x;
                    assert(before.dom().contains(stale@[j]) && !new_pids@.contains(stale@[j]));
                }
            }
        }
        self.known_pids = new_pids;
        self.seen_tids = new_tids;
    }
}


/// The names of `threads` that could be read, in order.
pub open spec fn readable_names(threads: Seq<(i32, Option<String>)>) -> Seq<Seq<char>>
    decreases threads.len(),
{
    if threads.len() == 0 {
        Seq::empty()
    } else {
        let rest = readable_names(threads.drop_last());
        match threads.last().1 {
            Some(name) => rest.push(name@),
            None => rest,
        }
    }
}

/// The thread ids of `threads`.
pub open spec fn thread_ids(threads: Seq<(i32, Option<String>)>) -> Set<i32> {
    Set::new(|tid: i32| exists|i: int| 0 <= i < threads.len() && #[trigger] threads[i].0 == tid)
}

/// What one round of the scan has seen so far: the processes and threads
/// that are handed to `ProcCache::finish_scan` at its end.
pub struct ScanRound {
    pub pids: HashSet<i32>,
    pub tids: HashSet<i32>,
}

impl ScanRound {
    /// A round that has seen nothing yet.
    pub fn new() -> (r: ScanRound)
        ensures
            r.pids@ == Set::<i32>::empty(),
            r.tids@ == Set::<i32>::empty(),
    {
        ScanRound { pids: HashSet::new(), tids: HashSet::new() }
    }

    /// Records a process of this round.
    pub fn record_process(&mut self, pid: i32)
        ensures
            final(self).pids@ == old(self).pids@.insert(pid),
            final(self).tids@ == old(self).tids@,
    {
        self.pids.insert(pid);
    }

    /// Records the threads of one process, each with its name where it could
    /// be read. Every thread counts as seen, named or not. Returns the
    /// process's engine hint from the names, or `None` when no name could be
    /// read: such a process is not placed in this round.
    pub fn record_threads(&mut self, threads: &Vec<(i32, Option<String>)>) -> (res: Option<
        EngineHint,
    >)
        ensures
            final(self).tids@ == old(self).tids@.union(thread_ids(threads@)),
            final(self).pids@ == old(self).pids@,
            res is None <==> readable_names(threads@).len() == 0,
            res matches Some(e) ==> e == detect_engine_spec(readable_names(threads@)),
    {
        let mut names: Vec<String> = Vec::new();
        let mut i: usize = 0;
        while i < threads.len()
            invariant
                i <= threads@.len(),
                string_views(names@) == readable_names(threads@.subrange(0, i as int)),
                self.tids@ == old(self).tids@.union(thread_ids(threads@.subrange(0, i as int))),
                self.pids@ == old(self).pids@,
            decreases threads.len() - i,
        {
            let ghost pre = threads@.subrange(0, i as int);
            let ghost nxt = threads@.subrange(0, i + 1);
            assert(nxt.drop_last() =~= pre);
            let tid = threads[i].0;
            match &threads[i].1 {
                Some(name) => {
                    let ghost before = names@;
                    names.push(name.clone());
                    assert(string_views(names@) =~= string_views(before).push(name@));
                },
                None => {},
            }
            self.tids.insert(tid);
            assert(thread_ids(nxt) =~= thread_ids(pre).insert(tid)) by {
                assert(nxt[i as int].0 == tid);
                assert forall|x: i32| thread_ids(nxt).contains(x) implies thread_ids(pre).insert(
                    tid,
                ).contains(x) by {
                    let k = choose|k: int| 0 <= k < nxt.len() && #[trigger] nxt[k].0 == x;
                    if k < i {
                        assert(pre[k] == nxt[k]);
                    }
                }
                assert forall|x: i32| thread_ids(pre).insert(tid).contains(x) implies thread_ids(
                    nxt,
                ).contains(x) by {
                    if x != tid {
                        let k = choose|k: int| 0 <= k < pre.len() && #[trigger] pre[k].0 == x;
                        assert(nxt[k] == pre[k]);
                    }
                }
            }
            i = i + 1;
        }
        assert(threads@.subrange(0, threads@.len() as int) =~= threads@);
        if names.len() == 0 {
            None
        } else {
            Some(detect_engine(names.as_slice()))
        }
    }
}

// ---------------------------------------------------------------------------
// Placement
// ---------------------------------------------------------------------------

/// The cores that `target` stands for on `topo`.
pub open spec fn target_cores(target: CoreTarget, topo: CpuTopology) -> Seq<u32> {
    match target {
        CoreTarget::BigAndPrime => topo.big@ + topo.prime@,
        CoreTarget::LittleAndBig => topo.little@ + topo.big@,
        CoreTarget::Prime => topo.prime@,
        CoreTarget::Big => topo.big@,
        CoreTarget::Little => topo.little@,
        CoreTarget::Default => Seq::empty(),
    }
}

/// The cores that `target` stands for on `topo`; none for `Default`.
pub fn resolve_target_cores(target: CoreTarget, topo: &CpuTopology) -> (res: Vec<u32>)
    ensures
        res@ == target_cores(target, *topo),
{
    match target {
        CoreTarget::BigAndPrime => {
            let mut c = topo.big.clone();
            append_cores(&mut c, &topo.prime);
            c
        },
        CoreTarget::LittleAndBig => {
            let mut c = topo.little.clone();
            append_cores(&mut c, &topo.big);
            c
        },
        CoreTarget::Prime => topo.prime.clone(),
        CoreTarget::Big => topo.big.clone(),
        CoreTarget::Little => topo.little.clone(),
        CoreTarget::Default => Vec::new(),
    }
}

/// On every topology, a class stands for exactly the cores of its groups,
/// each once: `LittleAndBig` for the little and the big cores, `BigAndPrime`
/// for the big and the prime cores, whatever the other groups hold (a
/// device without prime cores still gets little and big for
/// `LittleAndBig`); `Prime`, `Big` and `Little` for their own group, and
/// `Default` for none.
pub proof fn law_target_cores_are_groups(topo: CpuTopology, x: u32)
    ensures
        target_cores(CoreTarget::LittleAndBig, topo).contains(x) <==> (topo.little@.contains(x)
            || topo.big@.contains(x)),
        target_cores(CoreTarget::LittleAndBig, topo).len() == topo.little@.len()
            + topo.big@.len(),
        target_cores(CoreTarget::BigAndPrime, topo).contains(x) <==> (topo.big@.contains(x)
            || topo.prime@.contains(x)),
        target_cores(CoreTarget::BigAndPrime, topo).len() == topo.big@.len() + topo.prime@.len(),
        target_cores(CoreTarget::Prime, topo) == topo.prime@,
        target_cores(CoreTarget::Big, topo) == topo.big@,
        target_cores(CoreTarget::Little, topo) == topo.little@,
        target_cores(CoreTarget::Default, topo).len() == 0,
{
    let lb = topo.little@ + topo.big@;
    let bp = topo.big@ + topo.prime@;
    if topo.little@.contains(x) {
        let k = choose|k: int| 0 <= k < topo.little@.len() && topo.little@[k] == x;
        assert(lb[k] == x);
    }
    if topo.big@.contains(x) {
        let k = choose|k: int| 0 <= k < topo.big@.len() && topo.big@[k] == x;
        assert(lb[topo.little@.len() + k] == x);
        assert(bp[k] == x);
    }
    if topo.prime@.contains(x) {
        let k = choose|k: int| 0 <= k < topo.prime@.len() && topo.prime@[k] == x;
        assert(bp[topo.big@.len() + k] == x);
    }
    if lb.contains(x) {
        let k = choose|k: int| 0 <= k < lb.len() && lb[k] == x;
        if k < topo.little@.len() {
            assert(topo.little@[k] == x);
        } else {
            assert(topo.big@[k - topo.little@.len()] == x);
        }
    }
    if bp.contains(x) {
        let k = choose|k: int| 0 <= k < bp.len() && bp[k] == x;
        if k < topo.big@.len() {
            assert(topo.big@[k] == x);
        } else {
            assert(topo.prime@[k - topo.big@.len()] == x);
        }
    }
}

/// The class that the user's configuration gives a thread of package `pkg`:
/// the package override, else the global one.
pub open spec fn configured_target(config: UserConfig, pkg: Seq<char>, comm: Seq<char>) -> Option<
    CoreTarget,
> {
    match config.app_override_spec(pkg, comm) {
        Some(t) => Some(t),
        None => config.override_spec(comm),
    }
}

/// The class a thread gets: the configured one, else the built-in one.
pub open spec fn chosen_target(config: UserConfig, pkg: Seq<char>, comm: Seq<char>) -> CoreTarget {
    match configured_target(config, pkg, comm) {
        Some(t) => t,
        None => classify_spec(builtin_rules(), comm),
    }
}

/// The cores a thread is bound to.
pub open spec fn placement_cores(
    topo: CpuTopology,
    config: UserConfig,
    pkg: Seq<char>,
    comm: Seq<char>,
) -> Seq<u32> {
    target_cores(chosen_target(config, pkg, comm), topo)
}

/// Where a thread goes.
pub struct Placement {
    /// The cores to bind it to.
    pub cores: Vec<u32>,
    /// The same cores as a cpuset string.
    pub cpuset: String,
    /// Whether the user's configuration decided (rather than the built-in
    /// rules).
    pub from_config: bool,
}

/// Where the thread named `comm` of package `base_pkg` goes, or `None` when
/// it is left to the system: the package override, else the global
/// override, else the built-in rules decide its class, and a class with no
/// cores on this device places nothing.
pub fn decide_placement(topo: &CpuTopology, config: &UserConfig, base_pkg: &str, comm: &str) -> (res:
    Option<Placement>)
    ensures
        res is None <==> placement_cores(*topo, *config, base_pkg@, comm@).len() == 0,
        res matches Some(p) ==> {
            &&& p.cores@ == placement_cores(*topo, *config, base_pkg@, comm@)
            &&& p.cpuset@ == cpuset_spec(p.cores@)
            &&& p.from_config == configured_target(*config, base_pkg@, comm@) is Some
        },
{
    let configured = match config.get_app_override(base_pkg, comm) {
        Some(t) => Some(t),
        None => config.get_override(comm),
    };
    let from_config = configured.is_some();
    let target = match configured {
        Some(t) => t,
        None => classify_thread(comm),
    };
    let cores = resolve_target_cores(target, topo);
    if cores.len() == 0 {
        return None;
    }
    let cpuset = CpuTopology::cores_to_cpuset(cores.as_slice());
    Some(Placement { cores, cpuset, from_config })
}

/// A package override beats a global override, which beats the built-in
/// rules; with neither override, the built-in rules decide.
pub proof fn law_override_precedence(config: UserConfig, pkg: Seq<char>, comm: Seq<char>)
    ensures
        config.app_override_spec(pkg, comm) matches Some(t) ==> chosen_target(config, pkg, comm)
            == t,
        config.app_override_spec(pkg, comm) is None ==> (config.override_spec(comm) matches Some(t)
            ==> chosen_target(config, pkg, comm) == t),
        config.app_override_spec(pkg, comm) is None && config.override_spec(comm) is None
            ==> chosen_target(config, pkg, comm) == classify_spec(builtin_rules(), comm),
{
}

/// A thread that no override names and no built-in rule recognises is left
/// to the system scheduler.
pub proof fn law_unknown_thread_left_alone(
    topo: CpuTopology,
    config: UserConfig,
    pkg: Seq<char>,
    comm: Seq<char>,
)
    requires
        configured_target(config, pkg, comm) is None,
        classify_spec(builtin_rules(), comm) == CoreTarget::Default,
    ensures
        placement_cores(topo, config, pkg, comm).len() == 0,
{
}

// ---------------------------------------------------------------------------
// The affinity mask
// ---------------------------------------------------------------------------

/// Whether bit `cpu` of `mask` is set: bit `cpu % 8` of byte `cpu / 8`.
pub open spec fn mask_bit(mask: Seq<u8>, cpu: int) -> bool {
    (mask[cpu / 8] >> ((cpu % 8) as u8)) & 1u8 == 1u8
}

proof fn lemma_bit_set(b: u8, k: u8, j: u8)
    requires
        k < 8,
        j < 8,
    ensures
        ((b | (1u8 << k)) >> j) & 1u8 == 1u8 <==> (j == k || (b >> j) & 1u8 == 1u8),
{
    assert(((b | (1u8 << k)) >> j) & 1u8 == 1u8 <==> (j == k || (b >> j) & 1u8 == 1u8))
        by (bit_vector)
        requires
            k < 8,
            j < 8,
    ;
}

proof fn lemma_zero_bits(j: u8)
    requires
        j < 8,
    ensures
        (0u8 >> j) & 1u8 != 1u8,
{
    assert((0u8 >> j) & 1u8 != 1u8) by (bit_vector)
        requires
            j < 8,
    ;
}

/// The 1024-bit CPU mask (128 bytes) of `cores` for `sched_setaffinity`,
/// or `None` when `cores` is empty. Cores from 1024 on are left out.
pub fn affinity_mask(cores: &[u32]) -> (res: Option<Vec<u8>>)
    ensures
        res is None <==> cores@.len() == 0,
        res matches Some(m) ==> {
            &&& m@.len() == 128
            &&& forall|cpu: int| 0 <= cpu < 1024 ==> (mask_bit(m@, cpu) <==> cores@.contains(cpu as u32))
        },
{
    if cores.len() == 0 {
        return None;
    }
    let mut mask: Vec<u8> = Vec::new();
    while mask.len() < 128
        invariant
            mask@.len() <= 128,
            forall|j: int| 0 <= j < mask@.len() ==> mask@[j] == 0u8,
        decreases 128 - mask@.len(),
    {
        mask.push(0u8);
    }
    assert forall|cpu: int| 0 <= cpu < 1024 implies !mask_bit(mask@, cpu) by {
        lemma_zero_bits((cpu % 8) as u8);
    }
    let mut i: usize = 0;
    while i < cores.len()
        invariant
            i <= cores@.len(),
            mask@.len() == 128,
            forall|cpu: int|
                0 <= cpu < 1024 ==> (mask_bit(mask@, cpu) <==> cores@.subrange(0, i as int).contains(
                    cpu as u32,
                )),
        decreases cores.len() - i,
    {
        let cpu = cores[i];
        let ghost before = mask@;
        if cpu < 1024 {
            let idx = (cpu / 8) as usize;
            let bit = (cpu % 8) as u8;
            let b = mask[idx];
            mask.set(idx, b | (1u8 << bit));
            assert forall|c: int| 0 <= c < 1024 implies (mask_bit(mask@, c) <==> (mask_bit(before, c)
                || c == cpu)) by {
                if c / 8 == idx {
                    lemma_bit_set(b, bit, (c % 8) as u8);
                } else {
                    assert(mask@[c / 8] == before[c / 8]);
                }
            }
        }
        proof {
            let s0 = cores@.subrange(0, i as int);
            let s1 = cores@.subrange(0, i + 1);
            assert(s1 =~= s0.push(cpu));
            assert forall|c: int| 0 <= c < 1024 implies (#[trigger] s1.contains(c as u32) <==> (
            s0.contains(c as u32) || c == cpu)) by {
                if s1.contains(c as u32) {
                    let j = choose|j: int| 0 <= j < s1.len() && s1[j] == c as u32;
                    if j < s0.len() {
                        assert(s0[j] == c as u32);
                    }
                }
                if s0.contains(c as u32) {
                    let j = choose|j: int| 0 <= j < s0.len() && s0[j] == c as u32;
                    assert(s1[j] == c as u32);
                }
                if c == cpu {
                    assert(s1[i as int] == c as u32);
                }
            }
            assert forall|c: int| 0 <= c < 1024 implies (mask_bit(mask@, c) <==> s1.contains(
                c as u32,
            )) by {
                assert(mask_bit(before, c) <==> s0.contains(c as u32));
                assert(s1.contains(c as u32) <==> (s0.contains(c as u32) || c == cpu));
                if cpu >= 1024 {
                    assert(mask@ == before);
                } else {
                    assert(mask_bit(mask@, c) <==> (mask_bit(before, c) || c == cpu));
                }
            }
        }
        i = i + 1;
    }
    assert(cores@.subrange(0, cores@.len() as int) =~= cores@);
    Some(mask)
}

/// The name of a `-errno` result of `sched_setaffinity`.
pub open spec fn errno_text(ret: i32) -> Seq<char> {
    if ret == -1 {
        "EPERM"@
    } else if ret == -3 {
        "ESRCH"@
    } else if ret == -13 {
        "EACCES"@
    } else if ret == -22 {
        "EINVAL"@
    } else {
        "?"@
    }
}

/// The name of a `-errno` result: `EPERM` (not allowed, often SELinux),
/// `ESRCH` (the thread is gone), `EACCES`, `EINVAL`, or `?`.
pub fn errno_name(ret: i32) -> (res: &'static str)
    ensures
        res@ == errno_text(ret),
{
    if ret == -1 {
        "EPERM"
    } else if ret == -3 {
        "ESRCH"
    } else if ret == -13 {
        "EACCES"
    } else if ret == -22 {
        "EINVAL"
    } else {
        "?"
    }
}

// ---------------------------------------------------------------------------
// What /proc files say
// ---------------------------------------------------------------------------

/// The part of `s` before the first `sep` (all of `s` without one).
pub open spec fn first_field(s: Seq<char>, sep: char) -> Seq<char>
    decreases s.len(),
{
    if s.len() == 0 || s[0] == sep {
        Seq::empty()
    } else {
        seq![s[0]] + first_field(s.drop_first(), sep)
    }
}

/// The part of `s` after the last `sep` (all of `s` without one).
pub open spec fn last_field(s: Seq<char>, sep: char) -> Seq<char>
    decreases s.len(),
{
    if s.len() == 0 || s.last() == sep {
        Seq::empty()
    } else {
        last_field(s.drop_last(), sep).push(s.last())
    }
}

/// The bytes of `b` before the first NUL (all of `b` without one).
pub open spec fn until_nul(b: Seq<u8>) -> Seq<u8>
    decreases b.len(),
{
    if b.len() == 0 || b[0] == 0 {
        Seq::empty()
    } else {
        seq![b[0]] + until_nul(b.drop_first())
    }
}

proof fn lemma_first_field(s: Seq<char>, sep: char, k: int)
    requires
        0 <= k <= s.len(),
        forall|j: int| 0 <= j < k ==> s[j] != sep,
        k == s.len() || s[k] == sep,
    ensures
        first_field(s, sep) == s.subrange(0, k),
    decreases k,
{
    if k > 0 {
        lemma_first_field(s.drop_first(), sep, k - 1);
        assert(s.subrange(0, k) =~= seq![s[0]] + s.drop_first().subrange(0, k - 1));
    } else {
        assert(s.subrange(0, 0) =~= Seq::<char>::empty());
    }
}

proof fn lemma_until_nul(b: Seq<u8>, k: int)
    requires
        0 <= k <= b.len(),
        forall|j: int| 0 <= j < k ==> b[j] != 0,
        k == b.len() || b[k] == 0,
    ensures
        until_nul(b) == b.subrange(0, k),
    decreases k,
{
    if k > 0 {
        lemma_until_nul(b.drop_first(), k - 1);
        assert(b.subrange(0, k) =~= seq![b[0]] + b.drop_first().subrange(0, k - 1));
    } else {
        assert(b.subrange(0, 0) =~= Seq::<u8>::empty());
    }
}

proof fn lemma_last_field(s: Seq<char>, sep: char, k: int)
    requires
        0 <= k <= s.len(),
        forall|j: int| k <= j < s.len() ==> s[j] != sep,
        k == 0 || s[k - 1] == sep,
    ensures
        last_field(s, sep) == s.subrange(k, s.len() as int),
    decreases s.len() - k,
{
    if k < s.len() {
        lemma_last_field(s.drop_last(), sep, k);
        assert(s.subrange(k, s.len() as int) =~= s.drop_last().subrange(k, s.len() - 1).push(
            s.last(),
        ));
    } else {
        assert(s.subrange(k, k) =~= Seq::<char>::empty());
    }
}

/// A process `package:sub` of a multi-process app is looked up under its
/// package: the part after the first `:` is ignored.
pub proof fn law_subprocess_name_ignored(pkg: Seq<char>, sub: Seq<char>)
    requires
        forall|j: int| 0 <= j < pkg.len() ==> #[trigger] pkg[j] != ':',
    ensures
        first_field(pkg + seq![':'] + sub, ':') == pkg,
        first_field(pkg, ':') == pkg,
{
    let s = pkg + seq![':'] + sub;
    assert forall|j: int| 0 <= j < pkg.len() implies #[trigger] s[j] != ':' by {
        assert(s[j] == pkg[j]);
    }
    lemma_first_field(s, ':', pkg.len() as int);
    assert(s.subrange(0, pkg.len() as int) =~= pkg);
    lemma_first_field(pkg, ':', pkg.len() as int);
    assert(pkg.subrange(0, pkg.len() as int) =~= pkg);
}

/// The package name of a command-line argument is its last path component:
/// `dir/name` gives `name`, a bare `name` gives itself, and an argument
/// that ends in `/` gives none.
pub proof fn law_package_name_drops_directory(dir: Seq<char>, name: Seq<char>)
    requires
        name.len() > 0,
        forall|j: int| 0 <= j < name.len() ==> #[trigger] name[j] != '/',
    ensures
        package_name_spec(dir + seq!['/'] + name) == Some(name),
        package_name_spec(name) == Some(name),
        package_name_spec(dir.push('/')) is None,
{
    let s = dir + seq!['/'] + name;
    let k: int = dir.len() as int + 1;
    assert forall|j: int| k <= j < s.len() implies s[j] != '/' by {
        assert(s[j] == name[j - k]);
    }
    lemma_last_field(s, '/', k);
    assert(s.subrange(k, s.len() as int) =~= name);
    lemma_last_field(name, '/', 0);
    assert(name.subrange(0, name.len() as int) =~= name);
    let d = dir.push('/');
    lemma_last_field(d, '/', d.len() as int);
}

/// The first argument of a command line is what comes before its first
/// NUL byte: `arg` followed by NUL and anything gives `arg`, and so does
/// `arg` alone.
pub proof fn law_cmdline_first_argument(arg: Seq<u8>, rest: Seq<u8>)
    requires
        forall|j: int| 0 <= j < arg.len() ==> #[trigger] arg[j] != 0,
    ensures
        until_nul(arg + seq![0u8] + rest) == arg,
        until_nul(arg) == arg,
{
    let b = arg + seq![0u8] + rest;
    assert forall|j: int| 0 <= j < arg.len() implies b[j] != 0 by {
        assert(b[j] == arg[j]);
    }
    assert(b[arg.len() as int] == 0);
    lemma_until_nul(b, arg.len() as int);
    assert(b.subrange(0, arg.len() as int) =~= arg);
    lemma_until_nul(arg, arg.len() as int);
    assert(arg.subrange(0, arg.len() as int) =~= arg);
}

/// The names given to the `-errno` results of `sched_setaffinity` are the
/// Linux ones: 1 is `EPERM`, 3 `ESRCH`, 13 `EACCES`, 22 `EINVAL`; any other
/// result is `?`.
pub proof fn law_errno_names(ret: i32)
    ensures
        errno_text(-1i32) == "EPERM"@,
        errno_text(-3i32) == "ESRCH"@,
        errno_text(-13i32) == "EACCES"@,
        errno_text(-22i32) == "EINVAL"@,
        ret != -1 && ret != -3 && ret != -13 && ret != -22 ==> errno_text(ret) == "?"@,
{
}

/// The package name of a process name: the part before the first `:`
/// (multi-process apps name their processes `package:process`).
pub fn base_package(pkg: &str) -> (res: String)
    ensures
        res@ == first_field(pkg@, ':'),
{
    let cs = chars_of(pkg);
    let mut k: usize = 0;
    while k < cs.len() && cs[k] != ':'
        invariant
            k <= cs@.len(),
            forall|j: int| 0 <= j < k ==> cs@[j] != ':',
        decreases cs.len() - k,
    {
        k = k + 1;
    }
    proof {
        lemma_first_field(cs@, ':', k as int);
    }
    let mut out: Vec<char> = Vec::new();
    let mut i: usize = 0;
    while i < k
        invariant
            i <= k <= cs@.len(),
            out@ == cs@.subrange(0, i as int),
        decreases k - i,
    {
        out.push(cs[i]);
        i = i + 1;
        assert(out@ =~= cs@.subrange(0, i as int));
    }
    string_from_chars(&out)
}

/// The package name given by a process's command line: its first argument
/// without any directory part, or `None` when that is empty.
pub open spec fn package_name_spec(arg: Seq<char>) -> Option<Seq<char>> {
    if last_field(arg, '/').len() == 0 {
        None
    } else {
        Some(last_field(arg, '/'))
    }
}

/// The package name in the first command-line argument `arg`: the part
/// after the last `/`, or `None` when that is empty.
pub fn package_name(arg: &str) -> (res: Option<String>)
    ensures
        match res {
            Some(s) => package_name_spec(arg@) == Some(s@),
            None => package_name_spec(arg@) is None,
        },
{
    let cs = chars_of(arg);
    let mut k: usize = cs.len();
    while k > 0 && cs[k - 1] != '/'
        invariant
            k <= cs@.len(),
            forall|j: int| k <= j < cs@.len() ==> cs@[j] != '/',
        decreases k,
    {
        k = k - 1;
    }
    proof {
        lemma_last_field(cs@, '/', k as int);
    }
    if k == cs.len() {
        return None;
    }
    let mut out: Vec<char> = Vec::new();
    let mut i: usize = k;
    while i < cs.len()
        invariant
            k <= i <= cs@.len(),
            out@ == cs@.subrange(k as int, i as int),
        decreases cs.len() - i,
    {
        out.push(cs[i]);
        i = i + 1;
        assert(out@ =~= cs@.subrange(k as int, i as int));
    }
    Some(string_from_chars(&out))
}

/// `std::str::from_utf8`: the text that `bytes` encode in UTF-8, or `None`
/// when they are not valid UTF-8.
#[verifier::external_body]
fn utf8_text(bytes: &[u8]) -> (res: Option<String>)
    ensures
        res is Some <==> valid_utf8(bytes@),
        res matches Some(s) ==> s@ == decode_utf8(bytes@),
{
    match std::str::from_utf8(bytes) {
        Ok(s) => Some(s.to_string()),
        Err(_) => None,
    }
}

/// The package name given by the contents of `/proc/<pid>/cmdline`.
pub open spec fn package_from_cmdline_spec(content: Seq<u8>) -> Option<Seq<char>> {
    if valid_utf8(until_nul(content)) {
        package_name_spec(decode_utf8(until_nul(content)))
    } else {
        None
    }
}

/// The package name given by the contents of `/proc/<pid>/cmdline`: the
/// first NUL-terminated argument, decoded as UTF-8, without its directory
/// part; `None` when it is not UTF-8 or the name is empty.
pub fn package_from_cmdline(content: &[u8]) -> (res: Option<String>)
    ensures
        match res {
            Some(s) => package_from_cmdline_spec(content@) == Some(s@),
            None => package_from_cmdline_spec(content@) is None,
        },
{
    let mut k: usize = 0;
    while k < content.len() && content[k] != 0
        invariant
            k <= content@.len(),
            forall|j: int| 0 <= j < k ==> content@[j] != 0,
        decreases content.len() - k,
    {
        k = k + 1;
    }
    proof {
        lemma_until_nul(content@, k as int);
    }
    let mut arg: Vec<u8> = Vec::new();
    let mut i: usize = 0;
    while i < k
        invariant
            i <= k <= content@.len(),
            arg@ == content@.subrange(0, i as int),
        decreases k - i,
    {
        arg.push(content[i]);
        i = i + 1;
        assert(arg@ =~= content@.subrange(0, i as int));
    }
    match utf8_text(arg.as_slice()) {
        Some(text) => package_name(text.as_str()),
        None => None,
    }
}

/// The thread name given by the contents of `/proc/<pid>/task/<tid>/comm`:
/// the contents without surrounding white space.
pub fn comm_name(content: &str) -> (res: String)
    ensures
        res@ == trimmed(content@),
{
    trim(content)
}

} // verus!

//! Decisions for the private cpuset groups.
//!
//! Android may confine background threads to the little cores through its
//! cpuset cgroups; `sched_setaffinity` then refuses any core outside the
//! thread's current cpuset. A thread is therefore first moved into a group
//! of our own, one per core combination, whose `cpus` are exactly that
//! combination, under a base group beside the system's groups. Where
//! `/dev/cpuset` is missing or the base group cannot be made, the manager is
//! disabled and only `sched_setaffinity` is used.
//!
//! The file system work is done by the caller; this module decides what to
//! do and keeps track of which groups exist.

use vstd::prelude::*;
use vstd::string::*;
use crate::text::str_eq;
use crate::text::trim;
use crate::text::trimmed;

verus! {

/// The base group, beside the system's `background`, `top-app` and others.
pub const BASE_DIR: &'static str = "/dev/cpuset/AppOpt-RS";

/// What to do to move a thread into the group of a core combination.
#[derive(Debug, Clone, Copy, PartialEq, Eq, Structural)]
pub enum MoveStep {
    /// Nothing: the manager is disabled or the combination is empty.
    Skip,
    /// Create the group (directory, `cpus`, `mems`), then write the tid to
    /// its `tasks`.
    CreateThenJoin,
    /// The group exists: write the tid to its `tasks`.
    Join,
}

/// The state of the private cpuset groups.
pub struct CpusetManager {
    /// False where `/dev/cpuset` is missing or the base group could not be
    /// made; every move is then skipped.
    enabled: bool,
    /// The `mems` value that every group is given.
    mems: String,
    /// The core combinations whose group has been created.
    created: Vec<String>,
}

/// Whether no string occurs twice in `list`.
pub open spec fn no_repeats(list: Seq<String>) -> bool {
    forall|i: int, j: int| 0 <= i < j < list.len() ==> list[i]@ != list[j]@
}

/// Whether one of `list` is `s`.
pub open spec fn listed(list: Seq<String>, s: Seq<char>) -> bool {
    exists|i: int| 0 <= i < list.len() && #[trigger] list[i]@ == s
}

/// The `mems` value to use, given what was read back from the base group:
/// the trimmed contents, or `0` when nothing (non-blank) could be read.
pub open spec fn mems_value(read: Option<Seq<char>>) -> Seq<char> {
    match read {
        Some(s) => if trimmed(s).len() > 0 {
            trimmed(s)
        } else {
            "0"@
        },
        None => "0"@,
    }
}

/// What `plan_move` decides for the manager `m` and the core string `cores`.
pub open spec fn move_plan(m: CpusetManager, cores: Seq<char>) -> MoveStep {
    if !m.is_enabled() || cores.len() == 0 {
        MoveStep::Skip
    } else if m.has_group(cores) {
        MoveStep::Join
    } else {
        MoveStep::CreateThenJoin
    }
}

/// What `mark_created(cores)` does: the flag and `mems` stay, and the group
/// of `cores` is added to those created.
pub open spec fn created_step(before: CpusetManager, after: CpusetManager, cores: Seq<char>) -> bool {
    &&& after.is_enabled() == before.is_enabled()
    &&& after.mems_spec() == before.mems_spec()
    &&& forall|c: Seq<char>| #[trigger] after.has_group(c) == (before.has_group(c) || c == cores)
}

/// Each core combination's group is created at most once: once it has
/// been recorded as created, moving a thread into it only joins it.
pub proof fn law_group_created_once(before: CpusetManager, after: CpusetManager, cores: Seq<char>)
    requires
        created_step(before, after, cores),
    ensures
        move_plan(after, cores) != MoveStep::CreateThenJoin,
        before.is_enabled() && cores.len() > 0 ==> move_plan(after, cores) == MoveStep::Join,
{
    assert(after.has_group(cores));
}

/// Over any run of moves (planning reads the manager; recording a created
/// group is the only change), the enabled flag and `mems` stay what they
/// were at the start, and a manager that starts disabled skips every move.
pub proof fn law_enabled_flag_fixed(ms: Seq<CpusetManager>, cores: Seq<Seq<char>>)
    requires
        ms.len() == cores.len() + 1,
        forall|i: int| 0 <= i < cores.len() ==> created_step(ms[i], ms[i + 1], #[trigger] cores[i]),
    ensures
        forall|k: int|
            0 <= k < ms.len() ==> #[trigger] ms[k].is_enabled() == ms[0].is_enabled()
                && ms[k].mems_spec() == ms[0].mems_spec(),
        !ms[0].is_enabled() ==> forall|k: int, c: Seq<char>|
            0 <= k < ms.len() ==> #[trigger] move_plan(ms[k], c) == MoveStep::Skip,
    decreases cores.len(),
{
    if cores.len() > 0 {
        let n = cores.len() - 1;
        law_enabled_flag_fixed(ms.drop_last(), cores.drop_last());
        assert forall|i: int| 0 <= i < n implies created_step(
            ms.drop_last()[i],
            ms.drop_last()[i + 1],
            #[trigger] cores.drop_last()[i],
        ) by {
            assert(created_step(ms[i], ms[i + 1], cores[i]));
        }
        assert(created_step(ms[n], ms[n + 1], cores[n]));
        assert forall|k: int| 0 <= k < ms.len() implies #[trigger] ms[k].is_enabled()
            == ms[0].is_enabled() && ms[k].mems_spec() == ms[0].mems_spec() by {
            if k <= n {
                assert(ms[k] == ms.drop_last()[k]);
            } else {
                assert(ms.drop_last()[n] == ms[n]);
            }
        }
    }
}

impl CpusetManager {
    /// Each core combination is recorded once.
    #[verifier::type_invariant]
    spec fn groups_recorded_once(self) -> bool {
        no_repeats(self.created@)
    }

    pub closed spec fn is_enabled(&self) -> bool {
        self.enabled
    }

    pub closed spec fn mems_spec(&self) -> Seq<char> {
        self.mems@
    }

    /// Whether the group of `cores` has been created.
    pub closed spec fn has_group(&self, cores: Seq<char>) -> bool {
        listed(self.created@, cores)
    }

    /// Whether the base group should be attempted: there are cores and the
    /// cpuset file system is present.
    pub fn base_group_wanted(all_cores: &str, cpuset_fs_present: bool) -> (res: bool)
        ensures
            res == (all_cores@.len() > 0 && cpuset_fs_present),
    {
        let n = all_cores.unicode_len();
        n > 0 && cpuset_fs_present
    }

    /// A disabled manager: every move is skipped.
    pub fn disabled() -> (m: CpusetManager)
        ensures
            !m.is_enabled(),
            forall|c: Seq<char>| !m.has_group(c),
    {
        CpusetManager { enabled: false, mems: String::new(), created: Vec::new() }
    }

    /// An enabled manager, once the base group exists; `mems_read` is what
    /// its `mems` file holds, when it could be read.
    pub fn with_base_group(mems_read: Option<&str>) -> (m: CpusetManager)
        ensures
            m.is_enabled(),
            m.mems_spec() == mems_value(
                match mems_read {
                    Some(s) => Some(s@),
                    None => None,
                },
            ),
            forall|c: Seq<char>| !m.has_group(c),
    {
        let mems = match mems_read {
            Some(s) => {
                let t = trim(s);
                if t.as_str().unicode_len() > 0 {
                    t
                } else {
                    String::from_str("0")
                }
            },
            None => String::from_str("0"),
        };
        CpusetManager { enabled: true, mems, created: Vec::new() }
    }

    /// Whether the manager is in use.
    pub fn enabled(&self) -> (res: bool)
        ensures
            res == self.is_enabled(),
    {
        self.enabled
    }

    /// The `mems` value for new groups.
    pub fn mems(&self) -> (res: &str)
        ensures
            res@ == self.mems_spec(),
    {
        self.mems.as_str()
    }

    /// What to do to move a thread into the group of `cores_str`.
    pub fn plan_move(&self, cores_str: &str) -> (res: MoveStep)
        ensures
            res == move_plan(*self, cores_str@),
    {
        if !self.enabled || cores_str.unicode_len() == 0 {
            return MoveStep::Skip;
        }
        let mut i: usize = 0;
        while i < self.created.len()
            invariant
                i <= self.created@.len(),
                self.enabled,
                cores_str@.len() > 0,
                forall|j: int| 0 <= j < i ==> self.created@[j]@ != cores_str@,
            decreases self.created.len() - i,
        {
            if str_eq(self.created[i].as_str(), cores_str) {
                assert(self.created@[i as int]@ == cores_str@);
                return MoveStep::Join;
            }
            i = i + 1;
        }
        MoveStep::CreateThenJoin
    }

    /// Whether the group of `cores_str` has been recorded.
    fn is_recorded(&self, cores_str: &str) -> (res: bool)
        ensures
            res == self.has_group(cores_str@),
    {
        let mut i: usize = 0;
        while i < self.created.len()
            invariant
                i <= self.created@.len(),
                forall|j: int| 0 <= j < i ==> self.created@[j]@ != cores_str@,
            decreases self.created.len() - i,
        {
            if str_eq(self.created[i].as_str(), cores_str) {
                assert(self.created@[i as int]@ == cores_str@);
                return true;
            }
            i = i + 1;
        }
        false
    }

    /// Records that the group of `cores_str` now exists; a group already
    /// recorded is not recorded again.
    pub fn mark_created(&mut self, cores_str: &str)
        ensures
            created_step(*old(self), *final(self), cores_str@),
    {
        proof {
            use_type_invariant(&*self);
        }
        if self.is_recorded(cores_str) {
            return;
        }
        let ghost before = self.created@;
        let name = String::from_str(cores_str);
        proof {
            assert(no_repeats(before.push(name))) by {
                assert forall|i: int, j: int| 0 <= i < j < before.push(name).len() implies before.push(
                    name,
                )[i]@ != before.push(name)[j]@ by {
                    if j == before.len() {
                        assert(before[i] == before.push(name)[i]);
                        assert(!listed(before, cores_str@));
                    } else {
                        assert(before[i] == before.push(name)[i]);
                        assert(before[j] == before.push(name)[j]);
                    }
                }
            }
        }
        let mut list: Vec<String> = Vec::new();
        std::mem::swap(&mut list, &mut self.created);
        list.push(name);
        self.created = list;
        assert forall|c: Seq<char>| #[trigger]
            listed(self.created@, c) == (listed(before, c) || c == cores_str@) by {
            if listed(self.created@, c) {
                let i = choose|i: int| 0 <= i < self.created@.len() && #[trigger] self.created@[i]@ == c;
                if i < before.len() {
                    assert(before[i] == self.created@[i]);
                }
            }
            if listed(before, c) {
                let i = choose|i: int| 0 <= i < before.len() && #[trigger] before[i]@ == c;
                assert(self.created@[i] == before[i]);
            }
            if c == cores_str@ {
                assert(self.created@[before.len() as int]@ == c);
            }
        }
    }
}

/// The directory of the group for `cores_str`: `BASE_DIR/cores_str`.
pub fn group_dir(cores_str: &str) -> (res: String)
    ensures
        res@ == BASE_DIR@ + "/"@ + cores_str@,
{
    let mut p = String::from_str(BASE_DIR);
    p.append("/");
    p.append(cores_str);
    p
}

/// The `tasks` file of the group for `cores_str`.
pub fn group_tasks_path(cores_str: &str) -> (res: String)
    ensures
        res@ == BASE_DIR@ + "/"@ + cores_str@ + "/tasks"@,
{
    let mut p = group_dir(cores_str);
    p.append("/tasks");
    p
}

} // verus!

//! CPU topology: cores grouped into prime / big / little by their maximum
//! frequency, and the cpuset strings (such as `0-3,7`) that name core lists.

use vstd::prelude::*;
use crate::text::decimal;
use crate::text::decimal_chars;
use crate::text::string_from_chars;
use crate::text::chars_of;
use crate::text::parse_u32;
use crate::text::parse_u32_spec;
use crate::text::trim;
use crate::text::trimmed;

verus! {

// ---------------------------------------------------------------------------
// Cpuset strings
// ---------------------------------------------------------------------------

/// Whether `s` is strictly increasing.
pub open spec fn strictly_increasing(s: Seq<u32>) -> bool {
    forall|i: int, j: int| 0 <= i < j < s.len() ==> s[i] < s[j]
}

/// The cores of `cores` in increasing order, each once.
pub open spec fn sorted_cores(cores: Seq<u32>) -> Seq<u32> {
    choose|s: Seq<u32>| strictly_increasing(s) && s.to_set() == cores.to_set()
}

/// Where the run of consecutive numbers that ends at position `i` of `s`
/// begins.
pub open spec fn run_start(s: Seq<u32>, i: int) -> int
    decreases i,
{
    if i > 0 && i < s.len() && s[i - 1] + 1 == s[i] {
        run_start(s, i - 1)
    } else {
        i
    }
}

/// `a` alone, or `a-b`.
pub open spec fn range_text(a: u32, b: u32) -> Seq<char> {
    if a == b {
        decimal(a as nat)
    } else {
        decimal(a as nat) + seq!['-'] + decimal(b as nat)
    }
}

/// The cpuset string of a strictly increasing list of cores: its maximal
/// runs of consecutive cores, each written as `a` or `a-b`, joined by `,`.
pub open spec fn cpuset_text(s: Seq<u32>) -> Seq<char>
    decreases s.len(),
{
    if s.len() == 0 {
        Seq::empty()
    } else {
        let i = run_start(s, s.len() - 1);
        let last = range_text(s[i], s.last());
        if 0 < i < s.len() {
            cpuset_text(s.subrange(0, i)) + seq![','] + last
        } else {
            last
        }
    }
}

/// The cpuset string of any list of cores (order and repeats do not count).
pub open spec fn cpuset_spec(cores: Seq<u32>) -> Seq<char> {
    cpuset_text(sorted_cores(cores))
}

proof fn lemma_run_start_bounds(s: Seq<u32>, i: int)
    requires
        0 <= i,
    ensures
        0 <= run_start(s, i) <= i,
    decreases i,
{
    if i > 0 && i < s.len() && s[i - 1] + 1 == s[i] {
        lemma_run_start_bounds(s, i - 1);
    }
}

/// A run that begins at `r` and reaches `k` without a gap starts at `r`.
proof fn lemma_run_start_at(s: Seq<u32>, r: int, k: int)
    requires
        0 <= r <= k < s.len(),
        forall|j: int| r <= j < k ==> #[trigger] s[j] + 1 == s[j + 1],
        r == 0 || s[r - 1] + 1 != s[r],
    ensures
        run_start(s, k) == r,
    decreases k,
{
    if k > r {
        assert(s[k - 1] + 1 == s[k]);
        lemma_run_start_at(s, r, k - 1);
    }
}

/// `run_start` only reads the prefix up to its position.
proof fn lemma_run_start_prefix(s: Seq<u32>, n: int, i: int)
    requires
        0 <= i < n <= s.len(),
    ensures
        run_start(s.subrange(0, n), i) == run_start(s, i),
    decreases i,
{
    if i > 0 {
        lemma_run_start_prefix(s, n, i - 1);
    }
}

/// Two strictly increasing sequences with the same elements are equal.
proof fn lemma_sorted_unique(a: Seq<u32>, b: Seq<u32>)
    requires
        strictly_increasing(a),
        strictly_increasing(b),
        a.to_set() == b.to_set(),
    ensures
        a == b,
    decreases a.len(),
{
    if a.len() == 0 {
        if b.len() > 0 {
            assert(b.to_set().contains(b[0]));
        }
        assert(a =~= b);
    } else if b.len() == 0 {
        assert(a.to_set().contains(a[0]));
    } else {
        assert(a.to_set().contains(a[0]));
        assert(b.to_set().contains(b[0]));
        let ia = choose|k: int| 0 <= k < a.len() && a[k] == b[0];
        let ib = choose|k: int| 0 <= k < b.len() && b[k] == a[0];
        assert(a[0] == b[0]) by {
            if a[0] < b[0] {
                assert(b[ib] == a[0]);
                if ib > 0 {
                    assert(b[0] < b[ib]);
                }
            } else if b[0] < a[0] {
                assert(a[ia] == b[0]);
                if ia > 0 {
                    assert(a[0] < a[ia]);
                }
            }
        }
        let a1 = a.drop_first();
        let b1 = b.drop_first();
        assert(a1.to_set() =~= b1.to_set()) by {
            assert forall|x: u32| a1.to_set().contains(x) implies b1.to_set().contains(x) by {
                let k = choose|k: int| 0 <= k < a1.len() && a1[k] == x;
                assert(a[k + 1] == x);
                assert(a.to_set().contains(x));
                let m = choose|m: int| 0 <= m < b.len() && b[m] == x;
                assert(x > a[0]);
                assert(m > 0);
                assert(b1[m - 1] == x);
            }
            assert forall|x: u32| b1.to_set().contains(x) implies a1.to_set().contains(x) by {
                let k = choose|k: int| 0 <= k < b1.len() && b1[k] == x;
                assert(b[k + 1] == x);
                assert(b.to_set().contains(x));
                let m = choose|m: int| 0 <= m < a.len() && a[m] == x;
                assert(x > b[0]);
                assert(m > 0);
                assert(a1[m - 1] == x);
            }
        }
        lemma_sorted_unique(a1, b1);
        assert(a =~= b) by {
            assert forall|k: int| 0 <= k < a.len() implies a[k] == b[k] by {
                if k > 0 {
                    assert(a[k] == a1[k - 1]);
                    assert(b[k] == b1[k - 1]);
                }
            }
        }
    }
}

/// A strictly increasing sequence with the elements of `cores` is the one
/// that `sorted_cores` picks.
proof fn lemma_sorted_cores_is(s: Seq<u32>, cores: Seq<u32>)
    requires
        strictly_increasing(s),
        s.to_set() == cores.to_set(),
    ensures
        sorted_cores(cores) == s,
{
    let t = sorted_cores(cores);
    assert(strictly_increasing(t) && t.to_set() == cores.to_set());
    lemma_sorted_unique(s, t);
}

/// The cores of `cores`, sorted, without repeats.
fn sort_dedup(cores: &[u32]) -> (res: Vec<u32>)
    ensures
        strictly_increasing(res@),
        res@.to_set() == cores@.to_set(),
{
    let mut v: Vec<u32> = Vec::new();
    let mut i: usize = 0;
    while i < cores.len()
        invariant
            i <= cores.len(),
            strictly_increasing(v@),
            v@.to_set() == cores@.subrange(0, i as int).to_set(),
        decreases cores.len() - i,
    {
        let c = cores[i];
        let mut j: usize = 0;
        while j < v.len() && v[j] < c
            invariant
                j <= v.len(),
                forall|k: int| 0 <= k < j ==> v@[k] < c,
            decreases v.len() - j,
        {
            j = j + 1;
        }
        let ghost old_v = v@;
        if j < v.len() && v[j] == c {
            assert(v@.to_set().contains(c));
        } else {
            v.insert(j, c);
            assert forall|a: int, b: int| 0 <= a < b < v@.len() implies v@[a] < v@[b] by {
                if b < j {
                } else if a < j && b == j {
                } else if a < j {
                    assert(v@[b] == old_v[b - 1]);
                } else if a == j {
                    assert(v@[b] == old_v[b - 1]);
                    assert(old_v[j as int] >= c);
                    if b - 1 > j {
                        assert(old_v[j as int] < old_v[b - 1]);
                    }
                } else {
                    assert(v@[a] == old_v[a - 1]);
                    assert(v@[b] == old_v[b - 1]);
                }
            }
            assert(v@.to_set() =~= old_v.to_set().insert(c)) by {
                assert forall|x: u32| v@.to_set().contains(x) implies old_v.to_set().insert(
                    c,
                ).contains(x) by {
                    let k = choose|k: int| 0 <= k < v@.len() && v@[k] == x;
                    if k < j {
                        assert(old_v[k] == x);
                    } else if k > j {
                        assert(old_v[k - 1] == x);
                    }
                }
                assert forall|x: u32| old_v.to_set().insert(c).contains(x) implies v@.to_set().contains(
                    x,
                ) by {
                    if x == c {
                        assert(v@[j as int] == c);
                    } else {
                        let k = choose|k: int| 0 <= k < old_v.len() && old_v[k] == x;
                        if k < j {
                            assert(v@[k] == x);
                        } else {
                            assert(v@[k + 1] == x);
                        }
                    }
                }
            }
        }
        proof {
            let pre = cores@.subrange(0, i as int);
            let nxt = cores@.subrange(0, i + 1);
            assert(nxt =~= pre.push(c));
            assert(nxt.to_set() =~= pre.to_set().insert(c)) by {
                pre.lemma_push_to_set_commute(c);
            }
            assert(v@.to_set() =~= nxt.to_set());
        }
        i = i + 1;
    }
    assert(cores@.subrange(0, cores@.len() as int) =~= cores@);
    v
}

/// Appends the characters of `src` to `dst`.
fn append_chars(dst: &mut Vec<char>, src: &Vec<char>)
    ensures
        final(dst)@ == old(dst)@ + src@,
{
    let mut i: usize = 0;
    while i < src.len()
        invariant
            i <= src.len(),
            dst@ == old(dst)@ + src@.subrange(0, i as int),
        decreases src.len() - i,
    {
        dst.push(src[i]);
        i = i + 1;
        assert(dst@ =~= old(dst)@ + src@.subrange(0, i as int));
    }
    assert(src@.subrange(0, src@.len() as int) =~= src@);
}

/// The text `a` or `a-b`.
fn range_chars(a: u32, b: u32) -> (res: Vec<char>)
    ensures
        res@ == range_text(a, b),
{
    let mut out = decimal_chars(a);
    if a != b {
        out.push('-');
        let tail = decimal_chars(b);
        append_chars(&mut out, &tail);
    }
    out
}

/// The text of a prefix that ends with a complete run.
proof fn lemma_cpuset_text_run(ss: Seq<u32>, start: int, k: int)
    requires
        0 <= start <= k < ss.len(),
        forall|j: int| start <= j < k ==> #[trigger] ss[j] + 1 == ss[j + 1],
        start == 0 || ss[start - 1] + 1 != ss[start],
    ensures
        cpuset_text(ss.subrange(0, k + 1)) == (if start > 0 {
            cpuset_text(ss.subrange(0, start)) + seq![',']
        } else {
            Seq::<char>::empty()
        }) + range_text(ss[start], ss[k]),
{
    let pre = ss.subrange(0, k + 1);
    lemma_run_start_at(ss, start, k);
    lemma_run_start_prefix(ss, k + 1, k);
    assert(pre.subrange(0, start) =~= ss.subrange(0, start));
    assert(pre.last() == ss[k]);
    assert(pre[start] == ss[start]);
    if start == 0 {
        assert(Seq::<char>::empty() + range_text(ss[start], ss[k]) =~= range_text(
            ss[start],
            ss[k],
        ));
    }
}

/// The cpuset string of a core list, read as it stands.
fn cpuset_chars(s: &Vec<u32>) -> (res: Vec<char>)
    ensures
        res@ == cpuset_text(s@),
{
    let mut out: Vec<char> = Vec::new();
    if s.len() == 0 {
        return out;
    }
    let ghost ss = s@;
    let mut start: usize = 0;
    let mut k: usize = 0;
    while k < s.len() - 1
        invariant
            ss == s@,
            ss.len() > 0,
            start <= k < ss.len(),
            forall|j: int| start <= j < k ==> #[trigger] ss[j] + 1 == ss[j + 1],
            start == 0 || ss[start - 1] + 1 != ss[start as int],
            out@ == cpuset_text(ss.subrange(0, start as int)),
        decreases ss.len() - k,
    {
        let c = s[k + 1];
        if s[k] < u32::MAX && c == s[k] + 1 {
            k = k + 1;
        } else {
            proof {
                lemma_cpuset_text_run(ss, start as int, k as int);
            }
            let r = range_chars(s[start], s[k]);
            if start > 0 {
                out.push(',');
            }
            append_chars(&mut out, &r);
            proof {
                if start == 0 {
                    assert(out@ =~= Seq::<char>::empty() + r@);
                }
            }
            start = k + 1;
            k = k + 1;
        }
    }
    proof {
        lemma_cpuset_text_run(ss, start as int, k as int);
        assert(ss.subrange(0, ss.len() as int) =~= ss);
    }
    let r = range_chars(s[start], s[k]);
    if start > 0 {
        out.push(',');
    }
    append_chars(&mut out, &r);
    proof {
        if start == 0 {
            assert(out@ =~= Seq::<char>::empty() + r@);
        }
    }
    out
}


// ---------------------------------------------------------------------------
// Grouping cores by maximum frequency
// ---------------------------------------------------------------------------

/// The cores (positions of `freqs`) whose maximum frequency is `f`, in
/// increasing order.
pub open spec fn cores_at(freqs: Seq<u32>, f: u32) -> Seq<u32>
    decreases freqs.len(),
{
    if freqs.len() == 0 {
        Seq::empty()
    } else {
        let rest = cores_at(freqs.drop_last(), f);
        if freqs.last() == f {
            rest.push((freqs.len() - 1) as u32)
        } else {
            rest
        }
    }
}

/// The cores whose maximum frequency is known (not 0), in increasing order.
pub open spec fn cores_online(freqs: Seq<u32>) -> Seq<u32>
    decreases freqs.len(),
{
    if freqs.len() == 0 {
        Seq::empty()
    } else {
        let rest = cores_online(freqs.drop_last());
        if freqs.last() > 0 {
            rest.push((freqs.len() - 1) as u32)
        } else {
            rest
        }
    }
}

/// The highest frequency in `freqs` that is above 0 and below `bound`, or 0
/// when there is none.
pub open spec fn max_below(freqs: Seq<u32>, bound: int) -> u32
    decreases freqs.len(),
{
    if freqs.len() == 0 {
        0
    } else {
        let m = max_below(freqs.drop_last(), bound);
        let f = freqs.last();
        if 0 < f && f < bound && f > m {
            f
        } else {
            m
        }
    }
}

pub proof fn lemma_max_below(freqs: Seq<u32>, bound: int)
    ensures
        max_below(freqs, bound) == 0 || (max_below(freqs, bound) < bound && exists|i: int|
            0 <= i < freqs.len() && freqs[i] == max_below(freqs, bound)),
        forall|i: int|
            0 <= i < freqs.len() && 0 < #[trigger] freqs[i] < bound ==> freqs[i] <= max_below(
                freqs,
                bound,
            ),
    decreases freqs.len(),
{
    if freqs.len() > 0 {
        let d = freqs.drop_last();
        lemma_max_below(d, bound);
        let m = max_below(d, bound);
        if m != 0 {
            let i = choose|i: int| 0 <= i < d.len() && d[i] == m;
            assert(freqs[i] == m);
        }
        assert forall|i: int|
            0 <= i < freqs.len() && 0 < #[trigger] freqs[i] < bound implies freqs[i] <= max_below(
                freqs,
                bound,
            ) by {
            if i < freqs.len() - 1 {
                assert(d[i] == freqs[i]);
            }
        }
        if max_below(freqs, bound) != m {
            assert(freqs[freqs.len() - 1] == max_below(freqs, bound));
        }
    }
}

/// The distinct frequencies of `freqs` that are above 0 and below `bound`,
/// highest first.
pub open spec fn levels_below(freqs: Seq<u32>, bound: int) -> Seq<u32>
    decreases bound,
{
    let m = max_below(freqs, bound);
    if m == 0 || bound <= 0 {
        Seq::empty()
    } else {
        proof {
            lemma_max_below(freqs, bound);
        }
        seq![m] + levels_below(freqs, m as int)
    }
}

/// The distinct non-zero maximum frequencies of the cores, highest first.
pub open spec fn freq_levels(freqs: Seq<u32>) -> Seq<u32> {
    levels_below(freqs, 0x1_0000_0000)
}

/// The cores of each frequency in `levels`, one level after the other.
pub open spec fn cores_at_levels(freqs: Seq<u32>, levels: Seq<u32>) -> Seq<u32>
    decreases levels.len(),
{
    if levels.len() == 0 {
        Seq::empty()
    } else {
        cores_at(freqs, levels[0]) + cores_at_levels(freqs, levels.drop_first())
    }
}

/// The prime cores for the maximum frequencies `freqs`: the fastest group
/// when there are three levels or more, none otherwise.
pub open spec fn prime_spec(freqs: Seq<u32>) -> Seq<u32> {
    let ls = freq_levels(freqs);
    if ls.len() >= 3 {
        cores_at(freqs, ls[0])
    } else {
        Seq::empty()
    }
}

/// The big cores: the second fastest group when there are three levels or
/// more, the fastest group otherwise.
pub open spec fn big_spec(freqs: Seq<u32>) -> Seq<u32> {
    let ls = freq_levels(freqs);
    if ls.len() >= 3 {
        cores_at(freqs, ls[1])
    } else if ls.len() >= 1 {
        cores_at(freqs, ls[0])
    } else {
        Seq::empty()
    }
}

/// The little cores: every slower group when there are three levels or
/// more (fastest first), the slower group of two, none otherwise.
pub open spec fn little_spec(freqs: Seq<u32>) -> Seq<u32> {
    let ls = freq_levels(freqs);
    if ls.len() >= 3 {
        cores_at_levels(freqs, ls.skip(2))
    } else if ls.len() == 2 {
        cores_at(freqs, ls[1])
    } else {
        Seq::empty()
    }
}

/// The maximum frequency that a `cpuinfo_max_freq` file gives: its
/// trimmed contents as a decimal number, or 0 when they are not one.
pub open spec fn max_freq_spec(content: Seq<char>) -> u32 {
    match parse_u32_spec(trimmed(content)) {
        Some(f) => f,
        None => 0,
    }
}

/// Reads a maximum frequency from the contents of a `cpuinfo_max_freq`
/// file; 0 when they do not hold a decimal number.
pub fn parse_max_freq(content: &str) -> (res: u32)
    ensures
        res == max_freq_spec(content@),
{
    let t = trim(content);
    let cs = chars_of(t.as_str());
    match parse_u32(&cs) {
        Some(f) => f,
        None => 0,
    }
}

/// The cores found, split into prime, big and little.
#[derive(Debug, Clone)]
pub struct CpuTopology {
    /// The fastest cores (one or a few), when the SoC has three speed levels.
    pub prime: Vec<u32>,
    /// The next fastest cores.
    pub big: Vec<u32>,
    /// The efficiency cores.
    pub little: Vec<u32>,
    /// Every core found, in increasing order.
    pub all: Vec<u32>,
    /// How many cores were found.
    pub count: u32,
}

/// The cores at frequency `f`.
fn cores_at_exec(freqs: &[u32], f: u32) -> (res: Vec<u32>)
    requires
        freqs@.len() <= 0x1_0000_0000,
    ensures
        res@ == cores_at(freqs@, f),
{
    let mut v: Vec<u32> = Vec::new();
    let mut i: usize = 0;
    while i < freqs.len()
        invariant
            i <= freqs@.len() <= 0x1_0000_0000,
            v@ == cores_at(freqs@.subrange(0, i as int), f),
        decreases freqs.len() - i,
    {
        assert(freqs@.subrange(0, i + 1).drop_last() =~= freqs@.subrange(0, i as int));
        if freqs[i] == f {
            v.push(i as u32);
        }
        i = i + 1;
    }
    assert(freqs@.subrange(0, freqs@.len() as int) =~= freqs@);
    v
}

/// The cores with a known frequency.
fn cores_online_exec(freqs: &[u32]) -> (res: Vec<u32>)
    requires
        freqs@.len() <= 0x1_0000_0000,
    ensures
        res@ == cores_online(freqs@),
{
    let mut v: Vec<u32> = Vec::new();
    let mut i: usize = 0;
    while i < freqs.len()
        invariant
            i <= freqs@.len() <= 0x1_0000_0000,
            v@ == cores_online(freqs@.subrange(0, i as int)),
        decreases freqs.len() - i,
    {
        assert(freqs@.subrange(0, i + 1).drop_last() =~= freqs@.subrange(0, i as int));
        if freqs[i] > 0 {
            v.push(i as u32);
        }
        i = i + 1;
    }
    assert(freqs@.subrange(0, freqs@.len() as int) =~= freqs@);
    v
}

/// The highest frequency below `bound`, or 0.
fn max_below_exec(freqs: &[u32], bound: u64) -> (res: u32)
    ensures
        res == max_below(freqs@, bound as int),
{
    let mut m: u32 = 0;
    let mut i: usize = 0;
    while i < freqs.len()
        invariant
            i <= freqs@.len(),
            m == max_below(freqs@.subrange(0, i as int), bound as int),
        decreases freqs.len() - i,
    {
        assert(freqs@.subrange(0, i + 1).drop_last() =~= freqs@.subrange(0, i as int));
        let f = freqs[i];
        if 0 < f && (f as u64) < bound && f > m {
            m = f;
        }
        i = i + 1;
    }
    assert(freqs@.subrange(0, freqs@.len() as int) =~= freqs@);
    m
}

/// The distinct non-zero frequencies, highest first.
fn levels_exec(freqs: &[u32]) -> (res: Vec<u32>)
    ensures
        res@ == freq_levels(freqs@),
{
    let mut levels: Vec<u32> = Vec::new();
    let mut bound: u64 = 0x1_0000_0000;
    loop
        invariant
            bound <= 0x1_0000_0000,
            freq_levels(freqs@) == levels@ + levels_below(freqs@, bound as int),
        ensures
            freq_levels(freqs@) == levels@,
        decreases bound,
    {
        let m = max_below_exec(freqs, bound);
        if m == 0 {
            assert(levels_below(freqs@, bound as int) =~= Seq::<u32>::empty());
            assert(levels@ + Seq::<u32>::empty() =~= levels@);
            break;
        }
        proof {
            lemma_max_below(freqs@, bound as int);
        }
        let ghost old_levels = levels@;
        levels.push(m);
        assert(old_levels + levels_below(freqs@, bound as int) =~= levels@ + levels_below(
            freqs@,
            m as int,
        ));
        bound = m as u64;
    }
    levels
}

/// Appends `src` to `dst`.
pub fn append_cores(dst: &mut Vec<u32>, src: &Vec<u32>)
    ensures
        final(dst)@ == old(dst)@ + src@,
{
    let mut i: usize = 0;
    while i < src.len()
        invariant
            i <= src.len(),
            dst@ == old(dst)@ + src@.subrange(0, i as int),
        decreases src.len() - i,
    {
        dst.push(src[i]);
        i = i + 1;
        assert(dst@ =~= old(dst)@ + src@.subrange(0, i as int));
    }
    assert(src@.subrange(0, src@.len() as int) =~= src@);
}

impl CpuTopology {
    /// Groups the cores by maximum frequency. `freqs[i]` is the maximum
    /// frequency of core `i`, 0 where it could not be read. The fastest
    /// level is prime and the next is big when there are three levels or
    /// more; with two levels they are big and little; with one, every core
    /// is big.
    pub fn from_max_freqs(freqs: &[u32]) -> (res: CpuTopology)
        requires
            freqs@.len() <= u32::MAX,
        ensures
            res.all@ == cores_online(freqs@),
            res.count == res.all@.len(),
            res.prime@ == prime_spec(freqs@),
            res.big@ == big_spec(freqs@),
            res.little@ == little_spec(freqs@),
    {
        let all = cores_online_exec(freqs);
        proof {
            lemma_cores_online_len(freqs@);
        }
        let count = all.len() as u32;
        let levels = levels_exec(freqs);
        let ghost ls = levels@;
        if levels.len() == 0 {
            return CpuTopology { prime: Vec::new(), big: Vec::new(), little: Vec::new(), all, count };
        }
        if levels.len() == 1 {
            let big = cores_at_exec(freqs, levels[0]);
            return CpuTopology { prime: Vec::new(), big, little: Vec::new(), all, count };
        }
        if levels.len() == 2 {
            let big = cores_at_exec(freqs, levels[0]);
            let little = cores_at_exec(freqs, levels[1]);
            return CpuTopology { prime: Vec::new(), big, little, all, count };
        }
        let prime = cores_at_exec(freqs, levels[0]);
        let big = cores_at_exec(freqs, levels[1]);
        let mut little: Vec<u32> = Vec::new();
        let mut k: usize = 2;
        while k < levels.len()
            invariant
                ls == levels@,
                ls == freq_levels(freqs@),
                freqs@.len() <= 0x1_0000_0000,
                2 <= k <= ls.len(),
                little@ + cores_at_levels(freqs@, ls.skip(k as int)) == cores_at_levels(
                    freqs@,
                    ls.skip(2),
                ),
            decreases ls.len() - k,
        {
            let group = cores_at_exec(freqs, levels[k]);
            let ghost before = little@;
            append_cores(&mut little, &group);
            assert(ls.skip(k as int).drop_first() =~= ls.skip(k + 1));
            assert(ls.skip(k as int)[0] == ls[k as int]);
            assert(before + cores_at_levels(freqs@, ls.skip(k as int)) =~= little@
                + cores_at_levels(freqs@, ls.skip(k + 1)));
            k = k + 1;
        }
        assert(ls.skip(ls.len() as int) =~= Seq::<u32>::empty());
        assert(little@ + Seq::<u32>::empty() =~= little@);
        CpuTopology { prime, big, little, all, count }
    }

    /// The cpuset string of a core list, such as `[0,1,4,5,7]` -> `0-1,4-5,7`:
    /// the cores sorted without repeats, each maximal run of consecutive
    /// cores written as `a-b` (or `a` alone), joined by `,`.
    pub fn cores_to_cpuset(cores: &[u32]) -> (res: String)
        ensures
            res@ == cpuset_spec(cores@),
    {
        let sorted = sort_dedup(cores);
        proof {
            lemma_sorted_cores_is(sorted@, cores@);
        }
        let cs = cpuset_chars(&sorted);
        string_from_chars(&cs)
    }

    /// The cpuset of the prime cores; without prime cores, the last big
    /// core; without big cores either, every core.
    pub fn prime_cpuset(&self) -> (res: String)
        ensures
            res@ == (if self.prime@.len() > 0 {
                cpuset_spec(self.prime@)
            } else if self.big@.len() > 0 {
                cpuset_spec(seq![self.big@.last()])
            } else {
                cpuset_spec(self.all@)
            }),
    {
        if self.prime.len() > 0 {
            Self::cores_to_cpuset(self.prime.as_slice())
        } else if self.big.len() > 0 {
            let one = vec![self.big[self.big.len() - 1]];
            assert(one@ =~= seq![self.big@.last()]);
            Self::cores_to_cpuset(one.as_slice())
        } else {
            Self::cores_to_cpuset(self.all.as_slice())
        }
    }

    /// The cpuset of the big cores, or of every core when there are none.
    pub fn big_cpuset(&self) -> (res: String)
        ensures
            res@ == (if self.big@.len() > 0 {
                cpuset_spec(self.big@)
            } else {
                cpuset_spec(self.all@)
            }),
    {
        if self.big.len() > 0 {
            Self::cores_to_cpuset(self.big.as_slice())
        } else {
            Self::cores_to_cpuset(self.all.as_slice())
        }
    }

    /// The cpuset of the big and prime cores together.
    pub fn big_and_prime_cpuset(&self) -> (res: String)
        ensures
            res@ == cpuset_spec(self.big@ + self.prime@),
    {
        let mut cores = self.big.clone();
        append_cores(&mut cores, &self.prime);
        Self::cores_to_cpuset(cores.as_slice())
    }

    /// The cpuset of the little cores, or of every core when there are none.
    pub fn little_cpuset(&self) -> (res: String)
        ensures
            res@ == (if self.little@.len() > 0 {
                cpuset_spec(self.little@)
            } else {
                cpuset_spec(self.all@)
            }),
    {
        if self.little.len() > 0 {
            Self::cores_to_cpuset(self.little.as_slice())
        } else {
            Self::cores_to_cpuset(self.all.as_slice())
        }
    }

    /// The cpuset of every core.
    pub fn all_cpuset(&self) -> (res: String)
        ensures
            res@ == cpuset_spec(self.all@),
    {
        Self::cores_to_cpuset(self.all.as_slice())
    }
}

proof fn lemma_cores_online_len(freqs: Seq<u32>)
    ensures
        cores_online(freqs).len() <= freqs.len(),
    decreases freqs.len(),
{
    if freqs.len() > 0 {
        lemma_cores_online_len(freqs.drop_last());
    }
}


// ---------------------------------------------------------------------------
// Facts about the grouping
// ---------------------------------------------------------------------------

proof fn lemma_cores_at_contains(freqs: Seq<u32>, f: u32, x: u32)
    requires
        freqs.len() <= 0x1_0000_0000,
    ensures
        cores_at(freqs, f).contains(x) <==> (x < freqs.len() && freqs[x as int] == f),
    decreases freqs.len(),
{
    if freqs.len() > 0 {
        let d = freqs.drop_last();
        lemma_cores_at_contains(d, f, x);
        let rest = cores_at(d, f);
        let n = (freqs.len() - 1) as u32;
        if x < d.len() {
            assert(d[x as int] == freqs[x as int]);
        }
        if freqs.last() == f {
            if rest.push(n).contains(x) && !rest.contains(x) {
                let k = choose|k: int| 0 <= k < rest.push(n).len() && rest.push(n)[k] == x;
                assert(k == rest.len());
            }
            if rest.contains(x) {
                let k = choose|k: int| 0 <= k < rest.len() && rest[k] == x;
                assert(rest.push(n)[k] == x);
            }
            if x == n {
                assert(rest.push(n)[rest.len() as int] == x);
            }
        }
    }
}

proof fn lemma_cores_online_contains(freqs: Seq<u32>, x: u32)
    requires
        freqs.len() <= 0x1_0000_0000,
    ensures
        cores_online(freqs).contains(x) <==> (x < freqs.len() && freqs[x as int] > 0),
    decreases freqs.len(),
{
    if freqs.len() > 0 {
        let d = freqs.drop_last();
        lemma_cores_online_contains(d, x);
        let rest = cores_online(d);
        let n = (freqs.len() - 1) as u32;
        if x < d.len() {
            assert(d[x as int] == freqs[x as int]);
        }
        if freqs.last() > 0 {
            if rest.push(n).contains(x) && !rest.contains(x) {
                let k = choose|k: int| 0 <= k < rest.push(n).len() && rest.push(n)[k] == x;
                assert(k == rest.len());
            }
            if rest.contains(x) {
                let k = choose|k: int| 0 <= k < rest.len() && rest[k] == x;
                assert(rest.push(n)[k] == x);
            }
            if x == n {
                assert(rest.push(n)[rest.len() as int] == x);
            }
        }
    }
}

/// The levels below `bound` are strictly decreasing, lie in `(0, bound)`,
/// and hold every frequency of `freqs` in that interval.
proof fn lemma_levels_below(freqs: Seq<u32>, bound: int)
    ensures
        forall|k: int|
            0 <= k < levels_below(freqs, bound).len() ==> 0 < #[trigger] levels_below(
                freqs,
                bound,
            )[k] < bound,
        forall|k: int, l: int|
            0 <= k < l < levels_below(freqs, bound).len() ==> levels_below(freqs, bound)[l]
                < levels_below(freqs, bound)[k],
        forall|i: int|
            0 <= i < freqs.len() && 0 < #[trigger] freqs[i] < bound ==> levels_below(
                freqs,
                bound,
            ).contains(freqs[i]),
    decreases bound,
{
    let m = max_below(freqs, bound);
    lemma_max_below(freqs, bound);
    if m == 0 || bound <= 0 {
        assert forall|i: int| 0 <= i < freqs.len() && 0 < #[trigger] freqs[i] < bound implies false by {
            assert(freqs[i] <= m);
        }
    } else {
        lemma_levels_below(freqs, m as int);
        let rest = levels_below(freqs, m as int);
        let ls = levels_below(freqs, bound);
        assert(ls == seq![m] + rest);
        assert forall|k: int| 0 <= k < ls.len() implies 0 < #[trigger] ls[k] < bound by {
            if k > 0 {
                assert(ls[k] == rest[k - 1]);
            }
        }
        assert forall|k: int, l: int| 0 <= k < l < ls.len() implies ls[l] < ls[k] by {
            assert(ls[l] == rest[l - 1]);
            if k > 0 {
                assert(ls[k] == rest[k - 1]);
            } else {
                assert(0 < rest[l - 1] < m);
            }
        }
        assert forall|i: int| 0 <= i < freqs.len() && 0 < #[trigger] freqs[i] < bound implies ls.contains(
            freqs[i],
        ) by {
            assert(freqs[i] <= m);
            if freqs[i] == m {
                assert(ls[0] == m);
            } else {
                assert(rest.contains(freqs[i]));
                let k = choose|k: int| 0 <= k < rest.len() && rest[k] == freqs[i];
                assert(ls[k + 1] == rest[k]);
            }
        }
    }
}

proof fn lemma_cores_at_levels_contains(freqs: Seq<u32>, ls: Seq<u32>, x: u32)
    requires
        freqs.len() <= 0x1_0000_0000,
    ensures
        cores_at_levels(freqs, ls).contains(x) <==> (x < freqs.len() && ls.contains(
            freqs[x as int],
        )),
    decreases ls.len(),
{
    if ls.len() > 0 {
        let head = cores_at(freqs, ls[0]);
        let tail = cores_at_levels(freqs, ls.drop_first());
        lemma_cores_at_levels_contains(freqs, ls.drop_first(), x);
        lemma_cores_at_contains(freqs, ls[0], x);
        let all = head + tail;
        if all.contains(x) {
            let k = choose|k: int| 0 <= k < all.len() && all[k] == x;
            if k < head.len() {
                assert(head[k] == x);
            } else {
                assert(tail[k - head.len()] == x);
            }
        }
        if head.contains(x) {
            let k = choose|k: int| 0 <= k < head.len() && head[k] == x;
            assert(all[k] == x);
        }
        if tail.contains(x) {
            let k = choose|k: int| 0 <= k < tail.len() && tail[k] == x;
            assert(all[k + head.len()] == x);
        }
        if x < freqs.len() && ls.contains(freqs[x as int]) {
            let k = choose|k: int| 0 <= k < ls.len() && ls[k] == freqs[x as int];
            if k > 0 {
                assert(ls.drop_first()[k - 1] == freqs[x as int]);
            }
        }
        if x < freqs.len() && ls.drop_first().contains(freqs[x as int]) {
            let k = choose|k: int| 0 <= k < ls.drop_first().len() && ls.drop_first()[k] == freqs[x as int];
            assert(ls[k + 1] == freqs[x as int]);
        }
    }
}

/// Which group a core of frequency level `k` (out of `n` levels) falls in:
/// 0 prime, 1 big, 2 little.
pub open spec fn group_of_level(k: int, n: int) -> int {
    if n >= 3 {
        if k == 0 {
            0
        } else if k == 1 {
            1
        } else {
            2
        }
    } else if k == 0 {
        1
    } else {
        2
    }
}

/// Where core `x` stands: in which group it is found.
proof fn lemma_group_membership(freqs: Seq<u32>, x: u32)
    requires
        freqs.len() <= 0x1_0000_0000,
        x < freqs.len(),
        freqs[x as int] > 0,
    ensures
        ({
            let ls = freq_levels(freqs);
            let k = choose|k: int| 0 <= k < ls.len() && ls[k] == freqs[x as int];
            &&& 0 <= k < ls.len()
            &&& ls[k] == freqs[x as int]
            &&& prime_spec(freqs).contains(x) == (group_of_level(k, ls.len() as int) == 0)
            &&& big_spec(freqs).contains(x) == (group_of_level(k, ls.len() as int) == 1)
            &&& little_spec(freqs).contains(x) == (group_of_level(k, ls.len() as int) == 2)
        }),
{
    let ls = freq_levels(freqs);
    lemma_levels_below(freqs, 0x1_0000_0000);
    assert(ls.contains(freqs[x as int]));
    let k = choose|k: int| 0 <= k < ls.len() && ls[k] == freqs[x as int];
    lemma_cores_at_contains(freqs, ls[0], x);
    if ls.len() >= 2 {
        lemma_cores_at_contains(freqs, ls[1], x);
    }
    if ls.len() >= 3 {
        lemma_cores_at_levels_contains(freqs, ls.skip(2), x);
        if ls.skip(2).contains(freqs[x as int]) {
            let j = choose|j: int| 0 <= j < ls.skip(2).len() && ls.skip(2)[j] == freqs[x as int];
            assert(ls[j + 2] == freqs[x as int]);
            if k != j + 2 {
                if k < j + 2 {
                    assert(ls[j + 2] < ls[k]);
                } else {
                    assert(ls[k] < ls[j + 2]);
                }
            }
        }
        if k >= 2 {
            assert(ls.skip(2)[k - 2] == freqs[x as int]);
        }
    }
    if k > 0 {
        assert(ls[k] < ls[0]);
    }
    if k != 1 && ls.len() >= 2 {
        if k < 1 {
            assert(ls[1] < ls[k]);
        } else {
            assert(ls[k] < ls[1]);
        }
    }
}

/// Every core that was found is in exactly one of prime, big and little,
/// and these groups hold no other core.
pub proof fn law_groups_partition_cores(freqs: Seq<u32>, x: u32)
    requires
        freqs.len() <= u32::MAX,
    ensures
        cores_online(freqs).contains(x) <==> (prime_spec(freqs).contains(x) || big_spec(
            freqs,
        ).contains(x) || little_spec(freqs).contains(x)),
        !(prime_spec(freqs).contains(x) && big_spec(freqs).contains(x)),
        !(prime_spec(freqs).contains(x) && little_spec(freqs).contains(x)),
        !(big_spec(freqs).contains(x) && little_spec(freqs).contains(x)),
{
    lemma_cores_online_contains(freqs, x);
    if x < freqs.len() && freqs[x as int] > 0 {
        lemma_group_membership(freqs, x);
    } else {
        let ls = freq_levels(freqs);
        lemma_levels_below(freqs, 0x1_0000_0000);
        if ls.len() > 0 {
            lemma_cores_at_contains(freqs, ls[0], x);
        }
        if ls.len() > 1 {
            lemma_cores_at_contains(freqs, ls[1], x);
        }
        if ls.len() >= 3 {
            lemma_cores_at_levels_contains(freqs, ls.skip(2), x);
            if x < freqs.len() && ls.skip(2).contains(freqs[x as int]) {
                let j = choose|j: int| 0 <= j < ls.skip(2).len() && ls.skip(2)[j] == freqs[x as int];
                assert(ls[j + 2] == freqs[x as int]);
            }
        }
    }
}

/// Prime cores are strictly faster than big cores, and big cores strictly
/// faster than little cores.
pub proof fn law_groups_ordered_by_frequency(freqs: Seq<u32>, a: u32, b: u32)
    requires
        freqs.len() <= u32::MAX,
    ensures
        prime_spec(freqs).contains(a) && big_spec(freqs).contains(b) ==> freqs[a as int]
            > freqs[b as int],
        big_spec(freqs).contains(a) && little_spec(freqs).contains(b) ==> freqs[a as int]
            > freqs[b as int],
        prime_spec(freqs).contains(a) && little_spec(freqs).contains(b) ==> freqs[a as int]
            > freqs[b as int],
{
    let ls = freq_levels(freqs);
    lemma_levels_below(freqs, 0x1_0000_0000);
    law_groups_partition_cores(freqs, a);
    law_groups_partition_cores(freqs, b);
    lemma_cores_online_contains(freqs, a);
    lemma_cores_online_contains(freqs, b);
    if a < freqs.len() && freqs[a as int] > 0 && b < freqs.len() && freqs[b as int] > 0 {
        lemma_group_membership(freqs, a);
        lemma_group_membership(freqs, b);
        let ka = choose|k: int| 0 <= k < ls.len() && ls[k] == freqs[a as int];
        let kb = choose|k: int| 0 <= k < ls.len() && ls[k] == freqs[b as int];
        if group_of_level(ka, ls.len() as int) < group_of_level(kb, ls.len() as int) {
            assert(ka < kb);
            assert(ls[kb] < ls[ka]);
        }
    }
}

/// On a device whose cores run at two maximum frequencies, `hi` and `lo`
/// (cores at 0 being unknown), no core is prime: the faster cores are the
/// big ones and the slower cores the little ones.
pub proof fn law_two_speed_device(freqs: Seq<u32>, hi: u32, lo: u32, a: int, b: int)
    requires
        0 < lo < hi,
        0 <= a < freqs.len(),
        freqs[a] == hi,
        0 <= b < freqs.len(),
        freqs[b] == lo,
        forall|i: int|
            0 <= i < freqs.len() ==> #[trigger] freqs[i] == 0 || freqs[i] == hi || freqs[i] == lo,
    ensures
        prime_spec(freqs).len() == 0,
        big_spec(freqs) == cores_at(freqs, hi),
        little_spec(freqs) == cores_at(freqs, lo),
{
    let top: int = 0x1_0000_0000;
    lemma_max_below(freqs, top);
    assert(freqs[a] <= max_below(freqs, top));
    assert(max_below(freqs, top) == hi);
    lemma_max_below(freqs, hi as int);
    assert(freqs[b] <= max_below(freqs, hi as int));
    assert(max_below(freqs, hi as int) == lo);
    lemma_max_below(freqs, lo as int);
    assert(max_below(freqs, lo as int) == 0);
    assert(levels_below(freqs, lo as int) =~= Seq::<u32>::empty());
    assert(levels_below(freqs, hi as int) =~= seq![lo]);
    assert(freq_levels(freqs) =~= seq![hi, lo]);
}

/// On a device whose cores run at three maximum frequencies or more, the
/// cores at the highest one, `f1`, alone are prime, and the cores at the
/// next one, `f2`, are big.
pub proof fn law_three_speed_device(
    freqs: Seq<u32>,
    f1: u32,
    f2: u32,
    f3: u32,
    a: int,
    b: int,
    c: int,
)
    requires
        0 < f3 < f2 < f1,
        0 <= a < freqs.len() && freqs[a] == f1,
        0 <= b < freqs.len() && freqs[b] == f2,
        0 <= c < freqs.len() && freqs[c] == f3,
        forall|i: int| 0 <= i < freqs.len() ==> #[trigger] freqs[i] <= f1,
        forall|i: int| 0 <= i < freqs.len() && #[trigger] freqs[i] < f1 ==> freqs[i] <= f2,
    ensures
        prime_spec(freqs) == cores_at(freqs, f1),
        big_spec(freqs) == cores_at(freqs, f2),
{
    let top: int = 0x1_0000_0000;
    lemma_max_below(freqs, top);
    assert(freqs[a] <= max_below(freqs, top));
    assert(max_below(freqs, top) == f1);
    lemma_max_below(freqs, f1 as int);
    assert(freqs[b] <= max_below(freqs, f1 as int));
    assert(max_below(freqs, f1 as int) == f2);
    lemma_max_below(freqs, f2 as int);
    assert(freqs[c] <= max_below(freqs, f2 as int));
    let rest = levels_below(freqs, f2 as int);
    assert(rest.len() >= 1);
    assert(levels_below(freqs, f1 as int) =~= seq![f2] + rest);
    assert(freq_levels(freqs) =~= seq![f1] + (seq![f2] + rest));
    assert(freq_levels(freqs)[0] == f1);
    assert(freq_levels(freqs)[1] == f2);
}

/// Cores that form one run `a, a+1, ..., b` are written `a-b` (or `a`
/// when the run has one core).
pub proof fn law_cpuset_of_one_run(s: Seq<u32>)
    requires
        s.len() > 0,
        forall|j: int| 0 <= j < s.len() - 1 ==> #[trigger] s[j] + 1 == s[j + 1],
    ensures
        cpuset_text(s) == range_text(s[0], s.last()),
{
    lemma_cpuset_text_run(s, 0, s.len() - 1);
    assert(s.subrange(0, s.len() as int) =~= s);
    assert(Seq::<char>::empty() + range_text(s[0], s.last()) =~= range_text(s[0], s.last()));
}

/// In the cpuset string of increasing cores, a run of two or more
/// consecutive cores is written `first-last`, and a core that does not
/// follow on from the one before it starts a new entry after a `,`: cores
/// 0, 1, 2, 3 give `0-3`, and 0, 1, 2, 3, 5 give `0-3,5`.
pub proof fn law_cpuset_separators(s: Seq<u32>)
    requires
        strictly_increasing(s),
        s.len() >= 2,
    ensures
        (forall|j: int| 0 <= j < s.len() - 1 ==> #[trigger] s[j] + 1 == s[j + 1]) ==> cpuset_spec(s)
            == decimal(s[0] as nat) + seq!['-'] + decimal(s.last() as nat),
        s[s.len() - 2] + 1 < s.last() ==> cpuset_spec(s) == cpuset_spec(s.drop_last()) + seq![',']
            + decimal(s.last() as nat),
{
    let n = s.len() as int;
    lemma_sorted_cores_is(s, s);
    let d = s.drop_last();
    assert(strictly_increasing(d));
    lemma_sorted_cores_is(d, d);
    assert(s[0] < s[n - 1]);
    if forall|j: int| 0 <= j < s.len() - 1 ==> #[trigger] s[j] + 1 == s[j + 1] {
        law_cpuset_of_one_run(s);
    }
    if s[n - 2] + 1 < s.last() {
        assert(run_start(s, n - 1) == n - 1);
        assert(s.subrange(0, n - 1) =~= d);
    }
}

/// The cpuset string depends only on which cores are listed, not on their
/// order or repeats.
pub proof fn law_cpuset_ignores_order_and_repeats(a: Seq<u32>, b: Seq<u32>)
    requires
        a.to_set() == b.to_set(),
    ensures
        cpuset_spec(a) == cpuset_spec(b),
{
}

} // verus!

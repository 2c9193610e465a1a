//! The module registry: the ordered set of theme modules, sorted by
//! ascending priority with ties kept in declaration order, the selection of
//! enabled modules for a switch, and the per-module results of a run.
//!
//! The registry plans a run; executing the modules' side effects
//! concurrently is the embedding program's concern, which hands each
//! outcome back as a [`ModuleResult`].

use vstd::prelude::*;
use crate::config::{Config, spec_module_enabled};
use crate::error::Error;
use crate::host::binary_on_path;

verus! {

/// Identity of one theme module: its stable name, the binary whose presence
/// means the target application is installed, and its priority (lower runs
/// earlier; platform modules use values below 50, application modules 100).
pub struct ModuleEntry {
    pub name: String,
    pub binary: String,
    pub priority: u8,
}

/// Entries in ascending priority order.
pub open spec fn sorted_by_priority(ms: Seq<ModuleEntry>) -> bool {
    forall|i: int, j: int| 0 <= i < j < ms.len() ==> ms[i].priority <= ms[j].priority
}

/// Insert `e` behind every entry whose priority is at most `e`'s: insertion
/// into a sorted sequence that keeps earlier entries of equal priority
/// earlier.
pub open spec fn spec_insert_sorted(sorted: Seq<ModuleEntry>, e: ModuleEntry) -> Seq<ModuleEntry>
    decreases sorted.len(),
{
    if sorted.len() == 0 {
        seq![e]
    } else if sorted.last().priority <= e.priority {
        sorted.push(e)
    } else {
        spec_insert_sorted(sorted.drop_last(), e).push(sorted.last())
    }
}

/// The stable sort by priority: entries of equal priority keep their order.
pub open spec fn spec_sort_modules(ms: Seq<ModuleEntry>) -> Seq<ModuleEntry>
    decreases ms.len(),
{
    if ms.len() == 0 {
        Seq::empty()
    } else {
        spec_insert_sorted(spec_sort_modules(ms.drop_last()), ms.last())
    }
}

/// Insertion into a sorted sequence stays sorted and adds one entry.
pub proof fn lemma_insert_sorted(sorted: Seq<ModuleEntry>, e: ModuleEntry)
    requires
        sorted_by_priority(sorted),
    ensures
        sorted_by_priority(spec_insert_sorted(sorted, e)),
        spec_insert_sorted(sorted, e).len() == sorted.len() + 1,
    decreases sorted.len(),
{
    if sorted.len() == 0 {
    } else if sorted.last().priority <= e.priority {
    } else {
        assert(sorted_by_priority(sorted.drop_last()));
        lemma_insert_sorted(sorted.drop_last(), e);
        let inner = spec_insert_sorted(sorted.drop_last(), e);
        let out = inner.push(sorted.last());
        assert forall|i: int, j: int| 0 <= i < j < out.len() implies out[i].priority
            <= out[j].priority by {
            if j < out.len() - 1 {
            } else {
                lemma_insert_priorities(sorted.drop_last(), e, i);
            }
        }
    }
}

/// Every entry of an insertion result is either the inserted entry or one of
/// the original entries.
proof fn lemma_insert_priorities(sorted: Seq<ModuleEntry>, e: ModuleEntry, i: int)
    requires
        0 <= i < spec_insert_sorted(sorted, e).len(),
    ensures
        spec_insert_sorted(sorted, e)[i] == e || exists|j: int|
            0 <= j < sorted.len() && spec_insert_sorted(sorted, e)[i] == sorted[j],
    decreases sorted.len(),
{
    if sorted.len() == 0 {
    } else if sorted.last().priority <= e.priority {
        if i < sorted.len() {
            assert(spec_insert_sorted(sorted, e)[i] == sorted[i]);
        }
    } else {
        let inner = spec_insert_sorted(sorted.drop_last(), e);
        if i < inner.len() {
            lemma_insert_priorities(sorted.drop_last(), e, i);
            if inner[i] != e {
                let j = choose|j: int|
                    0 <= j < sorted.drop_last().len() && inner[i] == sorted.drop_last()[j];
                assert(sorted.drop_last()[j] == sorted[j]);
            }
        } else {
            assert(spec_insert_sorted(sorted, e)[i] == sorted[sorted.len() - 1]);
        }
    }
}

/// A sequence already in priority order is its own stable sort.
pub proof fn lemma_sort_modules_of_sorted(ms: Seq<ModuleEntry>)
    requires
        sorted_by_priority(ms),
    ensures
        spec_sort_modules(ms) == ms,
    decreases ms.len(),
{
    if ms.len() == 0 {
        assert(spec_sort_modules(ms) =~= ms);
    } else {
        assert(sorted_by_priority(ms.drop_last()));
        lemma_sort_modules_of_sorted(ms.drop_last());
        if ms.len() == 1 {
            assert(spec_insert_sorted(ms.drop_last(), ms.last()) =~= ms);
        } else {
            assert(ms.drop_last().last() == ms[ms.len() - 2]);
            assert(ms.drop_last().last().priority <= ms.last().priority);
            assert(ms.drop_last().push(ms.last()) =~= ms);
        }
    }
}

/// The stable sort leaves a sorted sequence of the same length.
pub proof fn lemma_sort_modules_sorted(ms: Seq<ModuleEntry>)
    ensures
        sorted_by_priority(spec_sort_modules(ms)),
        spec_sort_modules(ms).len() == ms.len(),
    decreases ms.len(),
{
    if ms.len() > 0 {
        lemma_sort_modules_sorted(ms.drop_last());
        lemma_insert_sorted(spec_sort_modules(ms.drop_last()), ms.last());
    }
}

/// In a priority-sorted sequence, every platform module (priority below 50)
/// stands before every application module (priority at least 100).
pub proof fn lemma_platform_before_application(ms: Seq<ModuleEntry>, i: int, j: int)
    requires
        sorted_by_priority(ms),
        0 <= i < ms.len(),
        0 <= j < ms.len(),
        ms[i].priority < 50,
        ms[j].priority >= 100,
    ensures
        i < j,
{
    if j < i {
        assert(ms[j].priority <= ms[i].priority);
    }
    if j == i {
        assert(ms[i].priority < 50 && ms[i].priority >= 100);
    }
}

/// A stable sort over the full module set places every module of priority
/// below 50 ahead of every module of priority at least 100.
pub proof fn lemma_sorted_platform_first(ms: Seq<ModuleEntry>, i: int, j: int)
    requires
        0 <= i < spec_sort_modules(ms).len(),
        0 <= j < spec_sort_modules(ms).len(),
        spec_sort_modules(ms)[i].priority < 50,
        spec_sort_modules(ms)[j].priority >= 100,
    ensures
        i < j,
{
    lemma_sort_modules_sorted(ms);
    lemma_platform_before_application(spec_sort_modules(ms), i, j);
}

/// Sort entries by ascending priority; ties keep their input order.
pub fn sort_modules(ms: Vec<ModuleEntry>) -> (r: Vec<ModuleEntry>)
    ensures
        r@ == spec_sort_modules(ms@),
        sorted_by_priority(r@),
        r@.len() == ms@.len(),
{
    let mut out: Vec<ModuleEntry> = Vec::new();
    let mut rest = ms;
    proof {
        assert(rest@.take(0) =~= Seq::<ModuleEntry>::empty());
    }
    let n: usize = rest.len();
    let mut i: usize = 0;
    while i < n
        invariant
            n == rest@.len(),
            i <= n,
            out@ == spec_sort_modules(rest@.take(i as int)),
            sorted_by_priority(out@),
            out@.len() == i,
            rest@ == ms@,
        decreases n - i,
    {
        let e = clone_entry(&rest[i]);
        proof {
            assert(rest@.take(i + 1).drop_last() =~= rest@.take(i as int));
            assert(rest@.take(i + 1).last() == rest@[i as int]);
            lemma_insert_sorted(out@, rest@[i as int]);
        }
        insert_sorted(&mut out, e);
        i = i + 1;
    }
    proof {
        assert(rest@.take(n as int) =~= rest@);
    }
    out
}

/// Clone one entry.
fn clone_entry(e: &ModuleEntry) -> (r: ModuleEntry)
    ensures
        r == *e,
{
    let r = ModuleEntry {
        name: e.name.clone(),
        binary: e.binary.clone(),
        priority: e.priority,
    };
    proof {
        assert(r.name@ == e.name@ && r.binary@ == e.binary@);
        assert(r == *e) by {
            assert(r.name == e.name && r.binary == e.binary);
        }
    }
    r
}

/// Insert one entry behind every entry of at most its priority.
fn insert_sorted(out: &mut Vec<ModuleEntry>, e: ModuleEntry)
    requires
        sorted_by_priority(old(out)@),
    ensures
        final(out)@ == spec_insert_sorted(old(out)@, e),
{
    let ghost orig = out@;
    let mut k: usize = out.len();
    proof {
        assert(orig.take(k as int) =~= orig);
        assert(orig.skip(k as int) =~= Seq::<ModuleEntry>::empty());
        assert(spec_insert_sorted(orig, e) + orig.skip(k as int) =~= spec_insert_sorted(orig, e));
    }
    while k > 0 && out[k - 1].priority > e.priority
        invariant
            out@ == orig,
            k <= out@.len(),
            spec_insert_sorted(orig, e) == spec_insert_sorted(orig.take(k as int), e)
                + orig.skip(k as int),
            sorted_by_priority(orig),
        decreases k,
    {
        proof {
            let pre = orig.take(k as int);
            assert(pre.last() == orig[k - 1]);
            assert(pre.drop_last() =~= orig.take(k - 1));
            assert(spec_insert_sorted(orig.take(k - 1), e).push(orig[k - 1]) + orig.skip(k as int)
                =~= spec_insert_sorted(orig.take(k - 1), e) + orig.skip(k - 1));
        }
        k = k - 1;
    }
    proof {
        let pre = orig.take(k as int);
        if k > 0 {
            assert(pre.last() == orig[k - 1]);
            assert(pre.drop_last() =~= orig.take(k - 1));
            assert(spec_insert_sorted(pre, e) == pre.push(e));
        } else {
            assert(pre =~= Seq::<ModuleEntry>::empty());
            assert(spec_insert_sorted(pre, e) == seq![e]);
        }
        assert(spec_insert_sorted(orig, e) =~= orig.take(k as int).push(e) + orig.skip(k as int));
    }
    out.insert(k, e);
    proof {
        assert(out@ =~= orig.take(k as int).push(e) + orig.skip(k as int));
    }
}

/// The outcome of one module's apply: the module's name, how long the
/// attempt took, and success or its typed failure. Used only for reporting.
pub struct ModuleResult {
    pub name: String,
    pub duration_ms: u64,
    pub result: Result<(), Error>,
}

impl ModuleResult {
    /// Whether the module applied cleanly.
    pub fn is_success(&self) -> (r: bool)
        ensures
            r == (self.result is Ok),
    {
        self.result.is_ok()
    }

    /// Whether the module took longer than the configured threshold.
    pub fn is_slow(&self, threshold_ms: u64) -> (r: bool)
        ensures
            r == (self.duration_ms > threshold_ms),
    {
        self.duration_ms > threshold_ms
    }
}

/// How many of the results are successes.
pub open spec fn spec_success_count(rs: Seq<ModuleResult>) -> int
    decreases rs.len(),
{
    if rs.len() == 0 {
        0
    } else {
        spec_success_count(rs.drop_last()) + if rs.last().result is Ok {
            1int
        } else {
            0int
        }
    }
}

/// Successes never outnumber results.
pub proof fn lemma_success_count_bound(rs: Seq<ModuleResult>)
    ensures
        0 <= spec_success_count(rs) <= rs.len(),
    decreases rs.len(),
{
    if rs.len() > 0 {
        lemma_success_count_bound(rs.drop_last());
    }
}

/// Tally a run: how many modules succeeded and how many failed. Every
/// result is counted exactly once, so partial application is reported, not
/// hidden.
pub fn summarize_results(results: &Vec<ModuleResult>) -> (r: (usize, usize))
    ensures
        r.0 == spec_success_count(results@),
        r.0 + r.1 == results@.len(),
{
    let n: usize = results.len();
    let mut successes: usize = 0;
    let mut i: usize = 0;
    proof {
        assert(results@.take(0) =~= Seq::<ModuleResult>::empty());
        lemma_success_count_bound(results@);
    }
    while i < n
        invariant
            n == results@.len(),
            i <= n,
            successes == spec_success_count(results@.take(i as int)),
            successes <= i,
        decreases n - i,
    {
        proof {
            assert(results@.take(i + 1).drop_last() =~= results@.take(i as int));
            assert(results@.take(i + 1).last() == results@[i as int]);
        }
        if results[i].is_success() {
            successes = successes + 1;
        }
        i = i + 1;
    }
    proof {
        assert(results@.take(n as int) =~= results@);
        lemma_success_count_bound(results@);
    }
    (successes, n - successes)
}

/// The nine built-in entries, by name, binary and priority, in declaration
/// order: the platform modules (GTK, XDG portal, Qt) ahead of the
/// application modules.
pub open spec fn is_builtin_list(b: Seq<ModuleEntry>) -> bool {
    &&& b.len() == 9
    &&& b[0].name@ == "gtk"@ && b[0].binary@ == "gsettings"@ && b[0].priority == 10
    &&& b[1].name@ == "xdg"@ && b[1].binary@ == "gdbus"@ && b[1].priority == 15
    &&& b[2].name@ == "qt"@ && b[2].binary@ == "qt6ct"@ && b[2].priority == 20
    &&& b[3].name@ == "waybar"@ && b[3].binary@ == "waybar"@ && b[3].priority == 100
    &&& b[4].name@ == "wofi"@ && b[4].binary@ == "wofi"@ && b[4].priority == 100
    &&& b[5].name@ == "swaync"@ && b[5].binary@ == "swaync"@ && b[5].priority == 100
    &&& b[6].name@ == "vscode"@ && b[6].binary@ == "code"@ && b[6].priority == 100
    &&& b[7].name@ == "nvim"@ && b[7].binary@ == "nvim"@ && b[7].priority == 100
    &&& b[8].name@ == "hyprpanel"@ && b[8].binary@ == "hyprpanel"@ && b[8].priority == 100
}

/// `f` picks, left to right, the positions in `ms` that the names come from.
pub open spec fn picks_names(f: Seq<int>, names: Seq<Seq<char>>, ms: Seq<ModuleEntry>) -> bool {
    &&& f.len() == names.len()
    &&& (forall|k: int|
        0 <= k < f.len() ==> 0 <= #[trigger] f[k] < ms.len() && names[k] == ms[f[k]].name@)
    &&& (forall|a: int, b: int| 0 <= a < b < f.len() ==> f[a] < f[b])
}

/// The names are names of `ms` entries, drawn in `ms` order without
/// repetition of a position.
pub open spec fn names_in_order(names: Seq<Seq<char>>, ms: Seq<ModuleEntry>) -> bool {
    exists|f: Seq<int>| picks_names(f, names, ms)
}

/// The ordered set of known modules.
pub struct ModuleRegistry {
    pub modules: Vec<ModuleEntry>,
}

impl ModuleRegistry {
    /// A registry over the given entries, sorted by ascending priority with
    /// ties kept in the given order.
    pub fn with_modules(entries: Vec<ModuleEntry>) -> (r: ModuleRegistry)
        ensures
            r.modules@ == spec_sort_modules(entries@),
            sorted_by_priority(r.modules@),
            r.modules@.len() == entries@.len(),
    {
        ModuleRegistry { modules: sort_modules(entries) }
    }

    /// The fixed set of built-in modules: exactly the nine known entries,
    /// already in priority order, which the stable sort leaves unchanged.
    pub fn new() -> (r: ModuleRegistry)
        ensures
            sorted_by_priority(r.modules@),
            is_builtin_list(r.modules@),
    {
        let builtins = builtin_modules();
        proof {
            assert(sorted_by_priority(builtins@));
            lemma_sort_modules_of_sorted(builtins@);
        }
        ModuleRegistry::with_modules(builtins)
    }

    /// The built-in modules plus user-declared ones, sorted together by
    /// priority; a user module of equal priority runs after the built-ins,
    /// in declaration order.
    pub fn with_custom(customs: Vec<ModuleEntry>) -> (r: ModuleRegistry)
        ensures
            sorted_by_priority(r.modules@),
            r.modules@.len() == 9 + customs@.len(),
            exists|b: Seq<ModuleEntry>| #[trigger] is_builtin_list(b) && r.modules@
                == spec_sort_modules(b + customs@),
    {
        let mut entries = builtin_modules();
        let ghost b = entries@;
        let n: usize = customs.len();
        let rest = customs;
        let mut i: usize = 0;
        proof {
            assert(entries@ =~= b + rest@.take(0));
        }
        while i < n
            invariant
                n == rest@.len(),
                i <= n,
                b.len() == 9,
                is_builtin_list(b),
                entries@ == b + rest@.take(i as int),
            decreases n - i,
        {
            let e = clone_entry(&rest[i]);
            entries.push(e);
            proof {
                assert(rest@.take(i + 1) =~= rest@.take(i as int).push(rest@[i as int]));
                assert(entries@ =~= b + rest@.take(i + 1));
            }
            i = i + 1;
        }
        proof {
            assert(rest@.take(n as int) =~= rest@);
        }
        let r = ModuleRegistry::with_modules(entries);
        proof {
            assert(is_builtin_list(b) && r.modules@ == spec_sort_modules(b + rest@));
        }
        r
    }

    /// Whether a module's target application is installed, by its binary.
    pub fn is_installed_at(&self, i: usize) -> bool
        requires
            i < self.modules@.len(),
    {
        binary_on_path(self.modules[i].binary.as_str())
    }

    /// Names of the modules that are enabled in the configuration and whose
    /// target application is installed, in priority order. Every returned
    /// name is a module's own name, drawn in registry order, and belongs to
    /// a module the configuration leaves enabled; which of those modules are
    /// installed depends on the host and is recomputed on every call.
    pub fn enabled_modules<'a>(&'a self, config: &Config) -> (r: Vec<&'a str>)
        ensures
            names_in_order(r.deep_view(), self.modules@),
            forall|i: int|
                0 <= i < r@.len() ==> spec_module_enabled(*config, r@[i]@),
    {
        let n: usize = self.modules.len();
        let mut out: Vec<&str> = Vec::new();
        let ghost mut f: Seq<int> = Seq::empty();
        let mut i: usize = 0;
        while i < n
            invariant
                n == self.modules@.len(),
                i <= n,
                f.len() == out@.len(),
                forall|k: int|
                    0 <= k < f.len() ==> 0 <= #[trigger] f[k] < i && out.deep_view()[k]
                        == self.modules@[f[k]].name@,
                forall|a: int, b: int| 0 <= a < b < f.len() ==> f[a] < f[b],
                forall|j: int|
                    0 <= j < out@.len() ==> spec_module_enabled(*config, out@[j]@),
            decreases n - i,
        {
            let name: &str = self.modules[i].name.as_str();
            if config.is_module_enabled(name) && binary_on_path(self.modules[i].binary.as_str()) {
                out.push(name);
                proof {
                    f = f.push(i as int);
                }
            }
            i = i + 1;
        }
        proof {
            assert(picks_names(f, out.deep_view(), self.modules@));
        }
        out
    }

    /// Names of the modules whose target application is installed: the
    /// modules' own names, drawn in registry order; which of them appear
    /// depends on the host and is recomputed on every call.
    pub fn installed_modules<'a>(&'a self) -> (r: Vec<&'a str>)
        ensures
            names_in_order(r.deep_view(), self.modules@),
            r@.len() <= self.modules@.len(),
    {
        let n: usize = self.modules.len();
        let mut out: Vec<&str> = Vec::new();
        let ghost mut f: Seq<int> = Seq::empty();
        let mut i: usize = 0;
        while i < n
            invariant
                n == self.modules@.len(),
                i <= n,
                f.len() == out@.len(),
                forall|k: int|
                    0 <= k < f.len() ==> 0 <= #[trigger] f[k] < i && out.deep_view()[k]
                        == self.modules@[f[k]].name@,
                forall|a: int, b: int| 0 <= a < b < f.len() ==> f[a] < f[b],
                out@.len() <= i,
            decreases n - i,
        {
            if binary_on_path(self.modules[i].binary.as_str()) {
                out.push(self.modules[i].name.as_str());
                proof {
                    f = f.push(i as int);
                }
            }
            i = i + 1;
        }
        proof {
            assert(picks_names(f, out.deep_view(), self.modules@));
        }
        out
    }
}

/// The built-in module entries, in declaration order: the platform modules
/// (GTK, XDG portal, Qt) ahead of the application modules.
pub fn builtin_modules() -> (r: Vec<ModuleEntry>)
    ensures
        is_builtin_list(r@),
{
    let mut v: Vec<ModuleEntry> = Vec::new();
    v.push(entry("gtk", "gsettings", 10));
    v.push(entry("xdg", "gdbus", 15));
    v.push(entry("qt", "qt6ct", 20));
    v.push(entry("waybar", "waybar", 100));
    v.push(entry("wofi", "wofi", 100));
    v.push(entry("swaync", "swaync", 100));
    v.push(entry("vscode", "code", 100));
    v.push(entry("nvim", "nvim", 100));
    v.push(entry("hyprpanel", "hyprpanel", 100));
    v
}

fn entry(name: &str, binary: &str, priority: u8) -> (r: ModuleEntry)
    ensures
        r.name@ == name@,
        r.binary@ == binary@,
        r.priority == priority,
{
    ModuleEntry {
        name: String::from_str(name),
        binary: String::from_str(binary),
        priority,
    }
}

} // verus!

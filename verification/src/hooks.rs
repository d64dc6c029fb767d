//! The decisions the redirect layer's API hooks make around the calls they
//! forward: the process manager's cleanup sweeps, process and thread exits,
//! sleeps and file locks in the scan service, and the process tree queries
//! that keep the bootstrap Hub alive.
use rustc_hash::FxHashMap;
use vstd::prelude::*;
use crate::exstar::{exe_is, has_arg, ExstarSettings, ProcessInfo};
use crate::text::{eq_ci, ends_with, str_eq_ci, str_to_chars, chars_ends_with};

verus! {


// ---------------------------------------------------------------------------
// Scan service watchdog
// ---------------------------------------------------------------------------

/// The order in which the watchdog dumps threads, after the first `n` ids:
/// the main thread first (when it is known, is not the watchdog and is
/// running), then every other thread once, skipping id 0 and the watchdog.
pub open spec fn watchdog_order_prefix(main: u32, current: u32, ids: Seq<u32>, n: int) -> Seq<u32>
    decreases n,
{
    if n <= 0 {
        if main != 0 && main != current && ids.contains(main) {
            seq![main]
        } else {
            Seq::empty()
        }
    } else {
        let acc = watchdog_order_prefix(main, current, ids, n - 1);
        let t = ids[n - 1];
        if t == 0 || t == current || acc.contains(t) {
            acc
        } else {
            acc.push(t)
        }
    }
}

fn vec_contains(v: &Vec<u32>, x: u32) -> (r: bool)
    ensures
        r == v@.contains(x),
{
    let mut i: usize = 0;
    while i < v.len()
        invariant
            i <= v@.len(),
            forall|k: int| 0 <= k < i ==> v@[k] != x,
        decreases v.len() - i,
    {
        if v[i] == x {
            assert(v@[i as int] == x);
            return true;
        }
        i = i + 1;
    }
    false
}

/// The threads the scan-service watchdog dumps, in order.
pub fn watchdog_thread_order(main_thread_id: u32, current_thread_id: u32, thread_ids: &[u32]) -> (r: Vec<u32>)
    ensures
        r@ == watchdog_order_prefix(main_thread_id, current_thread_id, thread_ids@, thread_ids@.len() as int),
{
    let mut ordered: Vec<u32> = Vec::new();
    let mut has_main = false;
    let mut j: usize = 0;
    while j < thread_ids.len()
        invariant
            j <= thread_ids@.len(),
            has_main == thread_ids@.subrange(0, j as int).contains(main_thread_id),
        decreases thread_ids.len() - j,
    {
        if thread_ids[j] == main_thread_id {
            has_main = true;
        }
        j = j + 1;
        proof {
            let pre = thread_ids@.subrange(0, j - 1);
            let cur = thread_ids@.subrange(0, j as int);
            assert(cur =~= pre.push(thread_ids@[j - 1]));
            if has_main && !pre.contains(main_thread_id) {
                assert(cur[j - 1] == main_thread_id);
            }
            if pre.contains(main_thread_id) {
                let k = choose|k: int| 0 <= k < pre.len() && pre[k] == main_thread_id;
                assert(cur[k] == main_thread_id);
            }
        }
    }
    assert(thread_ids@.subrange(0, thread_ids@.len() as int) =~= thread_ids@);
    if main_thread_id != 0 && main_thread_id != current_thread_id && has_main {
        ordered.push(main_thread_id);
    }
    assert(ordered@ =~= watchdog_order_prefix(main_thread_id, current_thread_id, thread_ids@, 0));
    let mut i: usize = 0;
    while i < thread_ids.len()
        invariant
            i <= thread_ids@.len(),
            ordered@ == watchdog_order_prefix(main_thread_id, current_thread_id, thread_ids@, i as int),
        decreases thread_ids.len() - i,
    {
        let t = thread_ids[i];
        if !(t == 0 || t == current_thread_id || vec_contains(&ordered, t)) {
            ordered.push(t);
        }
        i = i + 1;
    }
    ordered
}

/// The main thread qualifies to be dumped first: it is known, is not the
/// watchdog, and is running.
pub open spec fn main_thread_first(main: u32, current: u32, ids: Seq<u32>) -> bool {
    main != 0 && main != current && ids.contains(main)
}

/// Among the first `n` ids, `a` occurs before any occurrence of `b`.
pub open spec fn occurs_before(ids: Seq<u32>, n: int, a: u32, b: u32) -> bool {
    exists|k: int| 0 <= k < n && ids[k] == a && forall|m: int| 0 <= m <= k ==> #[trigger] ids[m] != b
}

/// The watchdog dumps each thread at most once, never thread id 0 nor
/// itself, dumps every other thread of the list and nothing else, dumps the
/// main thread first when it qualifies and never dumps it when it does not,
/// and dumps the other threads in the order in which they first occur in
/// the list.
pub proof fn law_watchdog_order(main: u32, current: u32, ids: Seq<u32>)
    ensures
        ({
            let r = watchdog_order_prefix(main, current, ids, ids.len() as int);
            &&& forall|i: int, j: int| 0 <= i < j < r.len() ==> r[i] != r[j]
            &&& forall|i: int| 0 <= i < r.len() ==> r[i] != 0 && r[i] != current
            &&& forall|t: u32| ids.contains(t) && t != 0 && t != current ==> r.contains(t)
            &&& forall|t: u32| r.contains(t) ==> ids.contains(t)
            &&& main_thread_first(main, current, ids) ==> r[0] == main
            &&& r.contains(main) ==> main_thread_first(main, current, ids)
            &&& forall|i: int, j: int|
                0 <= i < j < r.len() && !(i == 0 && main_thread_first(main, current, ids)) ==> occurs_before(
                    ids,
                    ids.len() as int,
                    #[trigger] r[i],
                    #[trigger] r[j],
                )
        }),
{
    lemma_watchdog_prefix(main, current, ids, ids.len() as int);
    let r = watchdog_order_prefix(main, current, ids, ids.len() as int);
    assert forall|t: u32| ids.contains(t) && t != 0 && t != current implies r.contains(t) by {
        let k = choose|k: int| 0 <= k < ids.len() && ids[k] == t;
        assert(r.contains(ids[k]));
    }
    if r.contains(main) {
        let w = choose|w: int| 0 <= w < r.len() && r[w] == main;
        assert(r[w] != 0 && r[w] != current);
    }
}

proof fn lemma_watchdog_prefix(main: u32, current: u32, ids: Seq<u32>, n: int)
    requires
        0 <= n <= ids.len(),
    ensures
        ({
            let r = watchdog_order_prefix(main, current, ids, n);
            let q = main_thread_first(main, current, ids);
            &&& forall|i: int, j: int| 0 <= i < j < r.len() ==> r[i] != r[j]
            &&& forall|i: int| 0 <= i < r.len() ==> r[i] != 0 && r[i] != current
            &&& forall|k: int| 0 <= k < n && ids[k] != 0 && ids[k] != current ==> r.contains(ids[k])
            &&& forall|t: u32| r.contains(t) ==> ids.contains(t)
            &&& q ==> r.len() > 0 && r[0] == main
            &&& forall|i: int| 0 <= i < r.len() && !(i == 0 && q) ==> exists|k: int| 0 <= k < n && ids[k] == #[trigger] r[i]
            &&& forall|i: int, j: int|
                0 <= i < j < r.len() && !(i == 0 && q) ==> occurs_before(ids, n, #[trigger] r[i], #[trigger] r[j])
        }),
    decreases n,
{
    let q = main_thread_first(main, current, ids);
    if n > 0 {
        lemma_watchdog_prefix(main, current, ids, n - 1);
        let acc = watchdog_order_prefix(main, current, ids, n - 1);
        let t = ids[n - 1];
        let r = watchdog_order_prefix(main, current, ids, n);
        assert forall|i: int, j: int|
            0 <= i < j < acc.len() && !(i == 0 && q) implies occurs_before(ids, n, #[trigger] acc[i], #[trigger] acc[j]) by {
            assert(occurs_before(ids, n - 1, acc[i], acc[j]));
            let k = choose|k: int| 0 <= k < n - 1 && ids[k] == acc[i] && forall|m: int| 0 <= m <= k ==> #[trigger] ids[m] != acc[j];
            assert(0 <= k < n && ids[k] == acc[i] && forall|m: int| 0 <= m <= k ==> #[trigger] ids[m] != acc[j]);
        }
        if !(t == 0 || t == current || acc.contains(t)) {
            assert(r == acc.push(t));
            assert forall|k: int| 0 <= k < n && ids[k] != 0 && ids[k] != current implies r.contains(ids[k]) by {
                if k < n - 1 {
                    let w = choose|w: int| 0 <= w < acc.len() && acc[w] == ids[k];
                    assert(r[w] == ids[k]);
                } else {
                    assert(r[acc.len() as int] == t);
                }
            }
            assert forall|x: u32| r.contains(x) implies ids.contains(x) by {
                let w = choose|w: int| 0 <= w < r.len() && r[w] == x;
                if w < acc.len() {
                    assert(acc[w] == x);
                    assert(acc.contains(x));
                } else {
                    assert(ids[n - 1] == x);
                }
            }
            assert forall|i: int| 0 <= i < r.len() && !(i == 0 && q) implies exists|k: int| 0 <= k < n && ids[k] == #[trigger] r[i] by {
                if i < acc.len() {
                    assert(acc[i] == r[i]);
                    let k = choose|k: int| 0 <= k < n - 1 && ids[k] == #[trigger] acc[i];
                    assert(0 <= k < n && ids[k] == r[i]);
                } else {
                    assert(ids[n - 1] == r[i]);
                }
            }
            assert forall|m: int| 0 <= m < n - 1 implies #[trigger] ids[m] != t by {
                if ids[m] == t {
                    assert(acc.contains(ids[m]));
                }
            }
            assert forall|i: int, j: int|
                0 <= i < j < r.len() && !(i == 0 && q) implies occurs_before(ids, n, #[trigger] r[i], #[trigger] r[j]) by {
                assert(r[i] == acc[i]);
                if j < acc.len() {
                    assert(r[j] == acc[j]);
                    assert(occurs_before(ids, n, acc[i], acc[j]));
                } else {
                    assert(r[j] == t);
                    let k = choose|k: int| 0 <= k < n - 1 && ids[k] == #[trigger] acc[i];
                    assert(forall|m: int| 0 <= m <= k ==> #[trigger] ids[m] != t);
                    assert(0 <= k < n && ids[k] == r[i]);
                }
            }
        } else {
            assert(r == acc);
            assert forall|k: int| 0 <= k < n && ids[k] != 0 && ids[k] != current implies r.contains(ids[k]) by {
                if k < n - 1 {
                } else {
                    assert(acc.contains(t));
                }
            }
            assert forall|i: int| 0 <= i < r.len() && !(i == 0 && q) implies exists|k: int| 0 <= k < n && ids[k] == #[trigger] r[i] by {
                let k = choose|k: int| 0 <= k < n - 1 && ids[k] == #[trigger] acc[i];
                assert(0 <= k < n && ids[k] == r[i]);
            }
        }
    } else {
        let r = watchdog_order_prefix(main, current, ids, 0);
        if q {
            assert(r == seq![main]);
            assert forall|x: u32| r.contains(x) implies ids.contains(x) by {
                assert(r[0] == main);
            }
        } else {
            assert(r.len() == 0);
        }
    }
}

// ---------------------------------------------------------------------------
// Process manager cleanup
// ---------------------------------------------------------------------------

/// The process manager's cleanup bookkeeping: counters of the hooked calls,
/// the second sweep (the cleanup that follows a scanhub launch, numbered by
/// the configuration load that started it), and the sn3DCommunity kill in
/// progress, if any, on a given thread.
pub struct ManagerState {
    pub scanhub_launches: u32,
    pub load_config_count: u32,
    pub kill_all_count: u32,
    pub kill_one_count: u32,
    pub wait_count: u32,
    pub second_sweep_pending: bool,
    pub second_sweep_id: u32,
    pub kill_context_thread: u32,
    pub kill_context_count: u32,
    pub kill_context_sweep: u32,
}

/// What a kill request of the manager comes to.
#[derive(Clone, Copy, PartialEq, Eq, Structural, Debug)]
pub struct KillDecision {
    /// Answer 1 without killing.
    pub skip: bool,
    /// The kill is the second sweep's kill of sn3DCommunity; its context is
    /// tracked while it runs.
    pub suspicious: bool,
    /// The call's number, when it is traced (0 otherwise).
    pub count: u32,
    /// The second sweep it belongs to (0 for none).
    pub second_sweep_id: u32,
}

/// The state after a traced scanhub launch: one more launch, and a second
/// sweep pending.
pub open spec fn after_scanhub_launch(s: ManagerState) -> ManagerState {
    ManagerState { scanhub_launches: (s.scanhub_launches + 1) as u32, second_sweep_pending: true, ..s }
}

/// The state after a configuration load: one more load; a pending second
/// sweep starts, numbered by the load.
pub open spec fn after_config_load(s: ManagerState) -> ManagerState {
    let n = (s.load_config_count + 1) as u32;
    ManagerState {
        load_config_count: n,
        second_sweep_pending: false,
        second_sweep_id: if s.second_sweep_pending { n } else { s.second_sweep_id },
        ..s
    }
}

/// The state after the manager connected and registered: no second sweep.
pub open spec fn after_sweep_cleared(s: ManagerState) -> ManagerState {
    ManagerState { second_sweep_pending: false, second_sweep_id: 0, ..s }
}

/// Whether `killAll` is skipped in state `s`.
pub open spec fn kill_all_skipped(cfg: ExstarSettings, s: ManagerState) -> bool {
    cfg.skip_second_sweep && s.second_sweep_id != 0
}

/// A scanhub launch makes the next configuration load start a second sweep,
/// numbered by that load and so never 0; while it lasts `killAll` is skipped
/// exactly when second sweeps are skipped; connecting and registering ends
/// it, after which nothing is skipped as a sweep's; and a load with no
/// launch before it leaves the sweep as it was.
pub proof fn law_second_sweep_cycle(s: ManagerState, cfg: ExstarSettings)
    requires
        s.scanhub_launches < u32::MAX,
        s.load_config_count < u32::MAX,
    ensures
        after_config_load(after_scanhub_launch(s)).second_sweep_id == s.load_config_count + 1,
        after_config_load(after_scanhub_launch(s)).second_sweep_id != 0,
        kill_all_skipped(cfg, after_config_load(after_scanhub_launch(s))) == cfg.skip_second_sweep,
        after_sweep_cleared(after_config_load(after_scanhub_launch(s))).second_sweep_id == 0,
        !kill_all_skipped(cfg, after_sweep_cleared(after_config_load(after_scanhub_launch(s)))),
        !s.second_sweep_pending ==> after_config_load(s).second_sweep_id == s.second_sweep_id,
{
}

impl ManagerState {
    /// Nothing seen yet.
    pub fn new() -> (s: ManagerState)
        ensures
            s.scanhub_launches == 0 && s.load_config_count == 0 && s.kill_all_count == 0 && s.kill_one_count == 0
                && s.wait_count == 0,
            !s.second_sweep_pending,
            s.second_sweep_id == 0,
            s.kill_context_thread == 0 && s.kill_context_count == 0 && s.kill_context_sweep == 0,
    {
        ManagerState {
            scanhub_launches: 0,
            load_config_count: 0,
            kill_all_count: 0,
            kill_one_count: 0,
            wait_count: 0,
            second_sweep_pending: false,
            second_sweep_id: 0,
            kill_context_thread: 0,
            kill_context_count: 0,
            kill_context_sweep: 0,
        }
    }

    /// A launch of scanhub by the traced manager: counted, and the next
    /// configuration load starts a second sweep. Returns the launch's number.
    pub fn note_scanhub_launch(&mut self) -> (n: u32)
        requires
            old(self).scanhub_launches < u32::MAX,
        ensures
            n == old(self).scanhub_launches + 1,
            final(self).scanhub_launches == n,
            final(self).second_sweep_pending,
            final(self).load_config_count == old(self).load_config_count,
            final(self).second_sweep_id == old(self).second_sweep_id,
            *final(self) == after_scanhub_launch(*old(self)),
    {
        self.scanhub_launches = self.scanhub_launches + 1;
        self.second_sweep_pending = true;
        self.scanhub_launches
    }

    /// A configuration load: counted; when a second sweep is pending it starts
    /// now and takes the load's number. Returns the load's number and the
    /// current second sweep.
    pub fn load_config(&mut self) -> (r: (u32, u32))
        requires
            old(self).load_config_count < u32::MAX,
        ensures
            r.0 == old(self).load_config_count + 1,
            final(self).load_config_count == r.0,
            !final(self).second_sweep_pending,
            final(self).second_sweep_id == (if old(self).second_sweep_pending { r.0 } else { old(self).second_sweep_id }),
            r.1 == final(self).second_sweep_id,
            final(self).scanhub_launches == old(self).scanhub_launches,
            *final(self) == after_config_load(*old(self)),
    {
        self.load_config_count = self.load_config_count + 1;
        if self.second_sweep_pending {
            self.second_sweep_pending = false;
            self.second_sweep_id = self.load_config_count;
        }
        (self.load_config_count, self.second_sweep_id)
    }

    /// The manager connected and registered: any second sweep is over.
    /// Returns the sweep that was cleared (0 for none).
    pub fn clear_second_sweep(&mut self) -> (cleared: u32)
        ensures
            cleared == old(self).second_sweep_id,
            final(self).second_sweep_id == 0,
            !final(self).second_sweep_pending,
            final(self).load_config_count == old(self).load_config_count,
            *final(self) == after_sweep_cleared(*old(self)),
    {
        let cleared = self.second_sweep_id;
        self.second_sweep_id = 0;
        self.second_sweep_pending = false;
        cleared
    }

    /// `killAll`: skipped during a second sweep when second sweeps are
    /// skipped; counted only when traced.
    pub fn kill_all(&mut self, s: &ExstarSettings, traced: bool) -> (d: KillDecision)
        requires
            traced ==> old(self).kill_all_count < u32::MAX,
        ensures
            d.skip == kill_all_skipped(*s, *old(self)),
            !d.suspicious,
            d.second_sweep_id == old(self).second_sweep_id,
            traced ==> d.count == old(self).kill_all_count + 1 && final(self).kill_all_count == d.count,
            !traced ==> d.count == 0 && final(self).kill_all_count == old(self).kill_all_count,
            final(self).second_sweep_id == old(self).second_sweep_id,
            final(self).kill_one_count == old(self).kill_one_count,
    {
        let count = if traced {
            self.kill_all_count = self.kill_all_count + 1;
            self.kill_all_count
        } else {
            0
        };
        KillDecision {
            skip: s.skip_second_sweep && self.second_sweep_id != 0,
            suspicious: false,
            count,
            second_sweep_id: self.second_sweep_id,
        }
    }

    /// `killOneProcess`: skipped when the manager must not kill the process;
    /// a traced kill of sn3DCommunity with timeout 1 during a second sweep is
    /// marked suspicious.
    pub fn kill_one(
        &mut self,
        s: &ExstarSettings,
        p: &ProcessInfo,
        process_name: &str,
        timeout: i32,
        traced: bool,
    ) -> (d: KillDecision)
        requires
            traced ==> old(self).kill_one_count < u32::MAX,
        ensures
            d.skip == crate::exstar::skip_kill_spec(*s, *p, process_name@, old(self).second_sweep_id),
            d.suspicious == (traced && old(self).second_sweep_id != 0 && timeout == 1 && eq_ci(
                process_name@,
                "sn3DCommunity.exe"@,
            )),
            d.second_sweep_id == old(self).second_sweep_id,
            traced ==> d.count == old(self).kill_one_count + 1 && final(self).kill_one_count == d.count,
            !traced ==> d.count == 0 && final(self).kill_one_count == old(self).kill_one_count,
            final(self).second_sweep_id == old(self).second_sweep_id,
            final(self).kill_all_count == old(self).kill_all_count,
    {
        let sweep = self.second_sweep_id;
        let skip = crate::exstar::exstar_manager_should_skip_kill(s, p, process_name, sweep);
        let count = if traced {
            self.kill_one_count = self.kill_one_count + 1;
            self.kill_one_count
        } else {
            0
        };
        let suspicious = traced && sweep != 0 && timeout == 1 && str_eq_ci(process_name, "sn3DCommunity.exe");
        KillDecision { skip, suspicious, count, second_sweep_id: sweep }
    }

    /// A suspicious kill starts on `thread`.
    pub fn begin_kill_context(&mut self, thread: u32, kill_count: u32, second_sweep_id: u32)
        ensures
            final(self).kill_context_thread == thread,
            final(self).kill_context_count == kill_count,
            final(self).kill_context_sweep == second_sweep_id,
            final(self).second_sweep_id == old(self).second_sweep_id,
    {
        self.kill_context_count = kill_count;
        self.kill_context_sweep = second_sweep_id;
        self.kill_context_thread = thread;
    }

    /// The suspicious kill is over.
    pub fn end_kill_context(&mut self)
        ensures
            final(self).kill_context_thread == 0,
            final(self).kill_context_count == 0,
            final(self).kill_context_sweep == 0,
            final(self).second_sweep_id == old(self).second_sweep_id,
    {
        self.kill_context_thread = 0;
        self.kill_context_count = 0;
        self.kill_context_sweep = 0;
    }

    /// The suspicious kill running on `thread`, if any: its number and sweep.
    pub fn kill_context(&self, thread: u32) -> (r: Option<(u32, u32)>)
        ensures
            r == (if self.kill_context_thread == 0 || self.kill_context_thread != thread {
                None
            } else {
                Some((self.kill_context_count, self.kill_context_sweep))
            }),
    {
        if self.kill_context_thread == 0 || self.kill_context_thread != thread {
            None
        } else {
            Some((self.kill_context_count, self.kill_context_sweep))
        }
    }
}

// ---------------------------------------------------------------------------
// Waits of the process manager
// ---------------------------------------------------------------------------

/// What the manager's traced wait tells about the waited object.
pub struct WaitObservation {
    pub tracked_mutex: bool,
    pub suspicious: bool,
    pub result: u32,
    pub object_type: String,
    pub object_name: String,
    pub process_path: Option<String>,
    pub exit_code: Option<u32>,
}

/// Which trace lines a traced wait produces, and what the hook answers:
/// the real wait's result, unchanged.
#[derive(Clone, Copy, PartialEq, Eq, Structural, Debug)]
pub struct WaitTrace {
    pub answer: u32,
    pub count: u32,
    pub detailed: bool,
    pub helper_exit: bool,
    pub kill_backtrace: bool,
    pub mutant_backtrace: bool,
    pub failed_process_backtrace: bool,
}

/// The once-per-process marks of the manager's wait tracing.
pub struct WaitMarks {
    pub post_helper_active: bool,
    pub post_helper_exit_emitted: bool,
    pub kill_wait_backtrace_emitted: bool,
    pub mutant_backtrace_emitted: bool,
    pub failed_process_backtrace_emitted: bool,
}

/// The OpenGL check helper exited reporting failure.
pub open spec fn is_helper_failure(obs: WaitObservation) -> bool {
    &&& obs.process_path matches Some(path)
    &&& ends_with(path@, "TestOpenglHelper.exe"@)
    &&& obs.exit_code == Some(1u32)
}

/// The `WAIT_TIMEOUT` result.
pub const WAIT_TIMEOUT: u32 = 0x102;

impl WaitMarks {
    /// Nothing emitted yet.
    pub fn new() -> (m: WaitMarks)
        ensures
            !m.post_helper_active && !m.post_helper_exit_emitted && !m.kill_wait_backtrace_emitted
                && !m.mutant_backtrace_emitted && !m.failed_process_backtrace_emitted,
    {
        WaitMarks {
            post_helper_active: false,
            post_helper_exit_emitted: false,
            kill_wait_backtrace_emitted: false,
            mutant_backtrace_emitted: false,
            failed_process_backtrace_emitted: false,
        }
    }
}

fn text_is(s: &String, lit: &str) -> (r: bool)
    ensures
        r == (s@ == lit@),
{
    *s == lit.to_owned()
}

fn path_is_helper(path: &Option<String>) -> (r: bool)
    ensures
        r == (match path { Some(p) => ends_with(p@, "TestOpenglHelper.exe"@), None => false }),
{
    match path {
        Some(p) => {
            let c = str_to_chars(p.as_str());
            let suffix = str_to_chars("TestOpenglHelper.exe");
            chars_ends_with(c.as_slice(), suffix.as_slice())
        },
        None => false,
    }
}

/// `WaitForSingleObject` in the traced manager: the wait is counted; the
/// first 32 waits, waits on tracked mutexes and waits inside a suspicious
/// kill are traced in detail, and a detailed wait on the OpenGL helper's
/// failed exit starts the post-helper phase. Backtraces are taken once each
/// (and on every failed or timed-out wait inside a suspicious kill).
pub fn observe_manager_wait(state: &mut ManagerState, marks: &mut WaitMarks, obs: &WaitObservation) -> (t: WaitTrace)
    requires
        old(state).wait_count < u32::MAX,
    ensures
        t.answer == obs.result,
        t.count == old(state).wait_count + 1,
        final(state).wait_count == t.count,
        final(state).second_sweep_id == old(state).second_sweep_id,
        t.detailed == (obs.tracked_mutex || t.count <= 32 || obs.suspicious),
        t.helper_exit == (t.detailed && is_helper_failure(*obs) && !old(marks).post_helper_exit_emitted),
        final(marks).post_helper_active == (old(marks).post_helper_active || (t.detailed && is_helper_failure(*obs))),
        t.kill_backtrace == (t.detailed && obs.suspicious && (!old(marks).kill_wait_backtrace_emitted
            || obs.result == u32::MAX || obs.result == WAIT_TIMEOUT)),
        t.mutant_backtrace == (t.detailed && obs.object_type@ == "Mutant"@ && obs.object_name@ == "<unnamed>"@
            && !old(marks).mutant_backtrace_emitted),
        t.failed_process_backtrace == (t.detailed && obs.object_type@ == "Process"@ && obs.result == u32::MAX
            && !old(marks).failed_process_backtrace_emitted),
{
    state.wait_count = state.wait_count + 1;
    let count = state.wait_count;
    let detailed = obs.tracked_mutex || count <= 32 || obs.suspicious;
    if !detailed {
        return WaitTrace {
            answer: obs.result,
            count,
            detailed,
            helper_exit: false,
            kill_backtrace: false,
            mutant_backtrace: false,
            failed_process_backtrace: false,
        };
    }
    let helper_failure = path_is_helper(&obs.process_path) && obs.exit_code == Some(1u32);
    let mut helper_exit = false;
    if helper_failure {
        marks.post_helper_active = true;
        if !marks.post_helper_exit_emitted {
            marks.post_helper_exit_emitted = true;
            helper_exit = true;
        }
    }
    let mut kill_backtrace = false;
    if obs.suspicious {
        let first = !marks.kill_wait_backtrace_emitted;
        marks.kill_wait_backtrace_emitted = true;
        kill_backtrace = first || obs.result == u32::MAX || obs.result == WAIT_TIMEOUT;
    }
    let mut mutant_backtrace = false;
    if text_is(&obs.object_type, "Mutant") && text_is(&obs.object_name, "<unnamed>") {
        if !marks.mutant_backtrace_emitted {
            marks.mutant_backtrace_emitted = true;
            mutant_backtrace = true;
        }
    }
    let mut failed_process_backtrace = false;
    if text_is(&obs.object_type, "Process") && obs.result == u32::MAX {
        if !marks.failed_process_backtrace_emitted {
            marks.failed_process_backtrace_emitted = true;
            failed_process_backtrace = true;
        }
    }
    WaitTrace { answer: obs.result, count, detailed, helper_exit, kill_backtrace, mutant_backtrace, failed_process_backtrace }
}

// ---------------------------------------------------------------------------
// Process and thread exits
// ---------------------------------------------------------------------------

/// `TerminateProcess`: the OpenGL check helper terminating itself with code
/// 1 is made to exit with 0, so that the manager goes on with startup.
pub fn terminate_exit_code(is_self: bool, exit_code: u32, p: &ProcessInfo) -> (r: u32)
    ensures
        r == (if is_self && exit_code == 1 && exe_is(*p, "TestOpenglHelper.exe"@) { 0 } else { exit_code }),
{
    if is_self && exit_code == 1 {
        if let Some(name) = &p.exe_name {
            if str_eq_ci(name.as_str(), "TestOpenglHelper.exe") {
                return 0;
            }
        }
    }
    exit_code
}

/// How the Hub's `ExitProcess` is held back.
#[derive(Clone, Copy, PartialEq, Eq, Structural, Debug)]
pub enum ExitPreserve {
    /// Exit at once.
    ExitNow,
    /// The child Hub stays alive after the duplicate-instance dialog.
    ChildHubAfterDialog,
    /// The child Hub exits; the reasons are traced.
    ChildHubSkipped,
    /// The bootstrap Hub stays alive while its process manager runs.
    UntilManagerExit,
}

/// What the Hub does before a successful exit: how long to wait first, and
/// how the exit is held back.
#[derive(Clone, Copy, PartialEq, Eq, Structural, Debug)]
pub struct ExitPlan {
    pub delay_ms: u64,
    pub preserve: ExitPreserve,
}

/// `ExitProcess`: only a successful exit of the Hub is touched. It is
/// delayed by the configured time; a child Hub (command line with `@#$`) is
/// kept while startup compatibility is on and no real window was shown; the
/// bootstrap Hub is kept while its manager runs.
pub fn exit_process_plan(
    s: &ExstarSettings,
    p: &ProcessInfo,
    exit_code: u32,
    startup_compat_active: bool,
    real_app_window_shown: bool,
) -> (r: ExitPlan)
    ensures
        r.delay_ms == (if exit_code == 0 && exe_is(*p, "EXStar Hub.exe"@) { s.hub_exit_delay_ms } else { 0 }),
        r.preserve == (if exit_code != 0 || !exe_is(*p, "EXStar Hub.exe"@) {
            ExitPreserve::ExitNow
        } else if has_arg(*p, "@#$"@) {
            if startup_compat_active && !real_app_window_shown {
                ExitPreserve::ChildHubAfterDialog
            } else {
                ExitPreserve::ChildHubSkipped
            }
        } else {
            ExitPreserve::UntilManagerExit
        }),
{
    let hub = crate::exstar::exstar_window_trace_enabled(p);
    if exit_code != 0 || !hub {
        return ExitPlan { delay_ms: 0, preserve: ExitPreserve::ExitNow };
    }
    let delay_ms = s.hub_exit_delay_ms;
    let preserve = if crate::exstar::exstar_is_child_hub_process(p) {
        if crate::exstar::exstar_should_preserve_child_hub_exit(startup_compat_active, real_app_window_shown) {
            ExitPreserve::ChildHubAfterDialog
        } else {
            ExitPreserve::ChildHubSkipped
        }
    } else {
        ExitPreserve::UntilManagerExit
    };
    ExitPlan { delay_ms, preserve }
}

/// While the child Hub is kept alive after its dialog, whether a heartbeat
/// line is due `elapsed_ms` after that began: in the first tenth of a
/// second of every minute.
pub fn preserve_heartbeat_due(elapsed_ms: u128) -> (r: bool)
    ensures
        r == ((elapsed_ms / 1000) % 60 == 0 && elapsed_ms % 60000 < 100),
{
    (elapsed_ms / 1000) % 60 == 0 && elapsed_ms % 60000 < 100
}

/// The thread that started the child Hub's startup is the one exiting.
pub fn is_child_hub_start_thread(tracked_thread: u32, current_thread: u32, p: &ProcessInfo) -> (r: bool)
    ensures
        r == (tracked_thread != 0 && current_thread == tracked_thread && exe_is(*p, "EXStar Hub.exe"@)),
{
    tracked_thread != 0 && current_thread == tracked_thread && crate::exstar::exstar_window_trace_enabled(p)
}

/// `ExitThread` of the child Hub's start thread with code 0 runs the Qt
/// event loop instead, once per process.
pub fn exit_thread_runs_event_loop(start_thread: bool, exit_code: u32, attempted: &mut bool) -> (r: bool)
    ensures
        r == (start_thread && exit_code == 0 && !*old(attempted)),
        *final(attempted) == (*old(attempted) || (start_thread && exit_code == 0)),
{
    if start_thread && exit_code == 0 {
        let first = !*attempted;
        *attempted = true;
        first
    } else {
        false
    }
}

// ---------------------------------------------------------------------------
// Scan service timing and locking
// ---------------------------------------------------------------------------

/// `SleepEx` in the scan service: during its first 30 seconds, sleeps of 50
/// to 200 ms (its lock-file retries) are cut to 1 ms.
pub fn sleep_ex_duration(scanservice: bool, milliseconds: u32, elapsed_secs: Option<u64>) -> (r: u32)
    ensures
        r == (if scanservice && 50 <= milliseconds <= 200 && (match elapsed_secs { Some(e) => e < 30, None => false }) {
            1
        } else {
            milliseconds
        }),
{
    let early = match elapsed_secs {
        Some(e) => e < 30,
        None => false,
    };
    if scanservice && milliseconds >= 50 && milliseconds <= 200 && early {
        1
    } else {
        milliseconds
    }
}

/// The `LOCKFILE_FAIL_IMMEDIATELY` flag.
pub const LOCKFILE_FAIL_IMMEDIATELY: u32 = 1;

/// `LockFileEx` never blocks: the flags it is forwarded with.
pub fn lock_file_flags(flags: u32) -> (r: u32)
    ensures
        r == flags | LOCKFILE_FAIL_IMMEDIATELY,
{
    flags | LOCKFILE_FAIL_IMMEDIATELY
}

/// `LockFileEx`'s answer: a lock that failed only because it was made
/// non-blocking is reported as taken.
pub fn lock_file_result(result: i32, flags: u32) -> (r: i32)
    ensures
        r == (if result == 0 && flags & LOCKFILE_FAIL_IMMEDIATELY == 0 { 1 } else { result }),
{
    if result == 0 && (flags & LOCKFILE_FAIL_IMMEDIATELY) == 0 {
        1
    } else {
        result
    }
}

/// The processes whose locale lookup hangs and is answered with "en-US".
pub fn locale_spoofed_process(p: &ProcessInfo) -> (r: bool)
    ensures
        r == (exe_is(*p, "scanservice.exe"@) || exe_is(*p, "scanhub.exe"@) || exe_is(*p, "TestOpenglHelper.exe"@)),
{
    match &p.exe_name {
        Some(n) => str_eq_ci(n.as_str(), "scanservice.exe") || str_eq_ci(n.as_str(), "scanhub.exe") || str_eq_ci(
            n.as_str(),
            "TestOpenglHelper.exe",
        ),
        None => false,
    }
}

/// `GetUserDefaultLocaleName` in those processes: "en-US" with its
/// terminator, when the buffer holds six units.
pub fn spoofed_locale(spoofed_process: bool, capacity: i32) -> (r: Option<Vec<u16>>)
    ensures
        match r {
            Some(v) => spoofed_process && capacity >= 6 && v@ == seq![0x65u16, 0x6e, 0x2d, 0x55, 0x53, 0],
            None => !(spoofed_process && capacity >= 6),
        },
{
    if spoofed_process && capacity >= 6 {
        let v: Vec<u16> = vec![0x65u16, 0x6e, 0x2d, 0x55, 0x53, 0];
        Some(v)
    } else {
        None
    }
}

// ---------------------------------------------------------------------------
// Named mutexes
// ---------------------------------------------------------------------------

/// The duplicate-instance mutex's "already exists" error is cleared for the
/// child Hub, so that it does not think another Hub runs.
pub fn clear_duplicate_mutex_error(p: &ProcessInfo, mutex_name: Option<&str>, last_error: u32) -> (r: bool)
    ensures
        r == (has_arg(*p, "@#$"@) && exe_is(*p, "EXStar Hub.exe"@) && (match mutex_name {
            Some(n) => n@ == "EinScan-Pro.exe"@,
            None => false,
        }) && last_error == crate::einscan::ERROR_ALREADY_EXISTS),
{
    let named = match mutex_name {
        Some(n) => n.to_owned() == "EinScan-Pro.exe".to_owned(),
        None => false,
    };
    crate::exstar::exstar_is_child_hub_process(p) && named && last_error == crate::einscan::ERROR_ALREADY_EXISTS
}

/// `rustc_hash`'s hasher builder, which the mutex table hashes with.
#[verifier::external_type_specification]
#[verifier::external_body]
pub struct ExFxBuildHasher(rustc_hash::FxBuildHasher);

/// A table keyed by handle, hashed with `FxBuildHasher`.
pub type HandleTable = FxHashMap<u64, String>;

/// `HashMap::insert` on a map hashed with `FxBuildHasher`: every hasher it
/// builds starts from the same state, so a key always hashes alike and the
/// map behaves as a map: the key now maps to the value.
#[verifier::external_body]
fn fx_table_insert(m: &mut HandleTable, key: u64, value: String)
    ensures
        final(m)@ == old(m)@.insert(key, value),
{
    m.insert(key, value);
}

/// `HashMap::get` on a map hashed with `FxBuildHasher`, the found value
/// cloned: the value the key maps to, if any.
#[verifier::external_body]
fn fx_table_get(m: &HandleTable, key: u64) -> (r: Option<String>)
    ensures
        r == (if m@.contains_key(key) { Some(m@[key]) } else { None::<String> }),
{
    m.get(&key).cloned()
}

/// The names of the mutexes the traced manager created, by handle.
pub struct MutexNames {
    names: HandleTable,
}

impl View for MutexNames {
    type V = Map<u64, String>;

    /// The name of each known mutex, by handle.
    closed spec fn view(&self) -> Map<u64, String> {
        self.names@
    }
}

impl MutexNames {
    /// No mutex known.
    pub fn new() -> (m: MutexNames)
        ensures
            m@ == Map::<u64, String>::empty(),
    {
        MutexNames { names: HandleTable::default() }
    }

    /// Records a mutex created by the traced manager, when it was created and
    /// has a name.
    pub fn record(&mut self, traced: bool, handle: u64, name: Option<String>)
        ensures
            traced && handle != 0 && name is Some ==> final(self)@ == old(self)@.insert(handle, name->0),
            !(traced && handle != 0 && name is Some) ==> final(self)@ == old(self)@,
    {
        if traced && handle != 0 {
            if let Some(n) = name {
                fx_table_insert(&mut self.names, handle, n);
            }
        }
    }

    /// The name of the mutex behind `handle`, if it is known.
    pub fn lookup(&self, handle: u64) -> (r: Option<String>)
        ensures
            r == (if self@.contains_key(handle) { Some(self@[handle]) } else { None }),
    {
        fx_table_get(&self.names, handle)
    }
}

// ---------------------------------------------------------------------------
// The process tree
// ---------------------------------------------------------------------------

/// One process of a snapshot: its id, its parent's id and its executable name.
pub struct ProcessEntry {
    pub pid: u32,
    pub parent_pid: u32,
    pub exe_name: String,
}

/// The first entry at or after `i` with the given process id, or the length.
pub open spec fn find_pid_from(procs: Seq<ProcessEntry>, pid: u32, i: int) -> int
    decreases procs.len() - i,
{
    if i < 0 || i >= procs.len() {
        procs.len() as int
    } else if procs[i].pid == pid {
        i
    } else {
        find_pid_from(procs, pid, i + 1)
    }
}

/// The first manager among the children of `pid`, at or after `i`, or the length.
pub open spec fn find_child_manager_from(procs: Seq<ProcessEntry>, pid: u32, i: int) -> int
    decreases procs.len() - i,
{
    if i < 0 || i >= procs.len() {
        procs.len() as int
    } else if procs[i].parent_pid == pid && eq_ci(procs[i].exe_name@, "Sn3DprocessManager.exe"@) {
        i
    } else {
        find_child_manager_from(procs, pid, i + 1)
    }
}

/// Which manager keeps the bootstrap Hub alive: its parent, when that is the
/// process manager, or else a process manager it started.
pub open spec fn related_manager(procs: Seq<ProcessEntry>, current_pid: u32) -> Option<(Seq<char>, u32)> {
    let me = find_pid_from(procs, current_pid, 0);
    let parent_found = me < procs.len();
    let parent = procs[me].parent_pid;
    let pm = find_pid_from(procs, parent, 0);
    if parent_found && pm < procs.len() && eq_ci(procs[pm].exe_name@, "Sn3DprocessManager.exe"@) {
        Some(("parent_manager_alive"@, parent))
    } else {
        let c = find_child_manager_from(procs, current_pid, 0);
        if c < procs.len() {
            Some(("child_manager_alive"@, procs[c].pid))
        } else {
            None
        }
    }
}

fn find_pid(procs: &[ProcessEntry], pid: u32) -> (r: usize)
    ensures
        r as int == find_pid_from(procs@, pid, 0),
        r <= procs@.len(),
{
    let mut i: usize = 0;
    while i < procs.len() && procs[i].pid != pid
        invariant
            i <= procs@.len(),
            find_pid_from(procs@, pid, 0) == find_pid_from(procs@, pid, i as int),
        decreases procs.len() - i,
    {
        i = i + 1;
    }
    i
}

/// The manager the bootstrap Hub waits for, and why.
pub fn exstar_hub_related_manager(procs: &[ProcessEntry], current_pid: u32) -> (r: Option<(&'static str, u32)>)
    ensures
        match r { Some((reason, pid)) => Some((reason@, pid)), None => None } == related_manager(procs@, current_pid),
        r matches Some((_, pid)) ==> exists|k: int|
            0 <= k < procs@.len() && #[trigger] procs@[k].pid == pid && eq_ci(
                procs@[k].exe_name@,
                "Sn3DprocessManager.exe"@,
            ),
{
    proof {
        law_related_manager_is_a_manager(procs@, current_pid);
    }
    let me = find_pid(procs, current_pid);
    if me < procs.len() {
        let parent = procs[me].parent_pid;
        let pm = find_pid(procs, parent);
        if pm < procs.len() && str_eq_ci(procs[pm].exe_name.as_str(), "Sn3DprocessManager.exe") {
            return Some(("parent_manager_alive", parent));
        }
    }
    let mut i: usize = 0;
    while i < procs.len() && !(procs[i].parent_pid == current_pid && str_eq_ci(
        procs[i].exe_name.as_str(),
        "Sn3DprocessManager.exe",
    ))
        invariant
            i <= procs@.len(),
            find_child_manager_from(procs@, current_pid, 0) == find_child_manager_from(procs@, current_pid, i as int),
        decreases procs.len() - i,
    {
        i = i + 1;
    }
    if i < procs.len() {
        Some(("child_manager_alive", procs[i].pid))
    } else {
        None
    }
}

/// Whether the manager has started a Hub.
pub fn exstar_manager_has_child_hub(procs: &[ProcessEntry], manager_pid: u32) -> (r: bool)
    ensures
        r == exists|i: int|
            0 <= i < procs@.len() && #[trigger] procs@[i].parent_pid == manager_pid && eq_ci(
                procs@[i].exe_name@,
                "EXStar Hub.exe"@,
            ),
{
    let mut i: usize = 0;
    while i < procs.len()
        invariant
            i <= procs@.len(),
            forall|k: int|
                0 <= k < i ==> !(#[trigger] procs@[k].parent_pid == manager_pid && eq_ci(
                    procs@[k].exe_name@,
                    "EXStar Hub.exe"@,
                )),
        decreases procs.len() - i,
    {
        if procs[i].parent_pid == manager_pid && str_eq_ci(procs[i].exe_name.as_str(), "EXStar Hub.exe") {
            return true;
        }
        i = i + 1;
    }
    false
}

/// Whether a process id appears in the snapshot.
pub fn exstar_process_id_exists(procs: &[ProcessEntry], target_pid: u32) -> (r: bool)
    ensures
        r == exists|i: int| 0 <= i < procs@.len() && #[trigger] procs@[i].pid == target_pid,
{
    let i = find_pid(procs, target_pid);
    proof {
        lemma_find_pid(procs@, target_pid, 0);
    }
    i < procs.len()
}

/// How many times the bootstrap Hub looks for its manager.
pub const MANAGER_SEARCH_ATTEMPTS: u32 = 20;
/// The pause between two searches, in milliseconds.
pub const MANAGER_SEARCH_DELAY_MS: u64 = 250;

/// Where the bootstrap Hub stands while it waits for its manager to exit.
#[derive(Clone, Copy, PartialEq, Eq, Structural, Debug)]
pub enum PreservePhase {
    /// Looking for the manager; `failed` searches found none so far.
    Searching { failed: u32 },
    /// Staying alive while this manager runs.
    Holding { manager_pid: u32 },
    /// Done.
    Finished,
}

/// What the bootstrap Hub does next.
#[derive(Clone, Copy, PartialEq, Eq, Structural, Debug)]
pub enum PreserveAction {
    /// Sleep `delay_ms`, then search again; `announce` on the first miss.
    WaitForManager { announce: bool, delay_ms: u64 },
    /// Sleep `delay_ms`, then report that no manager was found, and stop.
    GiveUp { delay_ms: u64 },
    /// The manager was found: release what would block its children, and
    /// start holding.
    Begin { manager_pid: u32 },
    /// Pump messages for a while, then look again.
    Pump,
    /// The manager is gone, or the compatibility window closed: stop.
    End { manager_pid: u32 },
    /// Nothing more to do.
    Stop,
}

/// The next phase and action, given the phase, whether the startup
/// compatibility is still on, and the pid of the related manager found by
/// the latest search, if any.
pub open spec fn preserve_step(phase: PreservePhase, compat_active: bool, related: Option<u32>) -> (PreservePhase, PreserveAction) {
    match phase {
        PreservePhase::Searching { failed } => match related {
            Some(pid) => (PreservePhase::Holding { manager_pid: pid }, PreserveAction::Begin { manager_pid: pid }),
            None => if failed + 1 >= MANAGER_SEARCH_ATTEMPTS {
                (PreservePhase::Finished, PreserveAction::GiveUp { delay_ms: MANAGER_SEARCH_DELAY_MS })
            } else {
                (
                    PreservePhase::Searching { failed: (failed + 1) as u32 },
                    PreserveAction::WaitForManager { announce: failed == 0, delay_ms: MANAGER_SEARCH_DELAY_MS },
                )
            },
        },
        PreservePhase::Holding { manager_pid } => if compat_active && related == Some(manager_pid) {
            (phase, PreserveAction::Pump)
        } else {
            (PreservePhase::Finished, PreserveAction::End { manager_pid })
        },
        PreservePhase::Finished => (PreservePhase::Finished, PreserveAction::Stop),
    }
}

/// The bootstrap Hub kept alive while the manager it started, or that
/// started it, runs: it looks for the manager a bounded number of times,
/// then stays up as long as the startup compatibility is on and that same
/// manager is still the related one.
pub struct PreserveHub {
    pub phase: PreservePhase,
}

impl PreserveHub {
    /// Only while the startup compatibility is on is the Hub held back.
    pub fn start(compat_active: bool) -> (r: Option<PreserveHub>)
        ensures
            compat_active ==> r == Some(PreserveHub { phase: PreservePhase::Searching { failed: 0 } }),
            !compat_active ==> r is None,
    {
        if compat_active {
            Some(PreserveHub { phase: PreservePhase::Searching { failed: 0 } })
        } else {
            None
        }
    }

    /// One step, after a search of the process tree found `related`.
    pub fn step(&mut self, compat_active: bool, related: Option<u32>) -> (a: PreserveAction)
        requires
            old(self).phase matches PreservePhase::Searching { failed } ==> failed < MANAGER_SEARCH_ATTEMPTS,
        ensures
            (final(self).phase, a) == preserve_step(old(self).phase, compat_active, related),
            final(self).phase matches PreservePhase::Searching { failed } ==> failed < MANAGER_SEARCH_ATTEMPTS,
    {
        match self.phase {
            PreservePhase::Searching { failed } => match related {
                Some(pid) => {
                    self.phase = PreservePhase::Holding { manager_pid: pid };
                    PreserveAction::Begin { manager_pid: pid }
                },
                None => {
                    if failed + 1 >= MANAGER_SEARCH_ATTEMPTS {
                        self.phase = PreservePhase::Finished;
                        PreserveAction::GiveUp { delay_ms: MANAGER_SEARCH_DELAY_MS }
                    } else {
                        self.phase = PreservePhase::Searching { failed: failed + 1 };
                        PreserveAction::WaitForManager { announce: failed == 0, delay_ms: MANAGER_SEARCH_DELAY_MS }
                    }
                },
            },
            PreservePhase::Holding { manager_pid } => {
                if compat_active && related == Some(manager_pid) {
                    PreserveAction::Pump
                } else {
                    self.phase = PreservePhase::Finished;
                    PreserveAction::End { manager_pid }
                }
            },
            PreservePhase::Finished => PreserveAction::Stop,
        }
    }
}

/// The search for the manager over the successive search results `found`,
/// after `failed` misses: how many searches it makes and the manager it
/// settles on.
pub open spec fn manager_search(failed: nat, found: Seq<Option<u32>>) -> (nat, Option<u32>)
    decreases found.len(),
{
    if found.len() == 0 || failed >= MANAGER_SEARCH_ATTEMPTS {
        (0, None)
    } else {
        match preserve_step(PreservePhase::Searching { failed: failed as u32 }, true, found[0]) {
            (PreservePhase::Searching { .. }, _) => {
                let rest = manager_search(failed + 1, found.drop_first());
                (rest.0 + 1, rest.1)
            },
            (PreservePhase::Holding { manager_pid }, _) => (1, Some(manager_pid)),
            _ => (1, None),
        }
    }
}

proof fn lemma_manager_search(failed: nat, found: Seq<Option<u32>>)
    requires
        failed < MANAGER_SEARCH_ATTEMPTS,
        found.len() >= MANAGER_SEARCH_ATTEMPTS - failed,
    ensures
        1 <= manager_search(failed, found).0 <= MANAGER_SEARCH_ATTEMPTS - failed,
        manager_search(failed, found).1 is Some ==>
            manager_search(failed, found).1 == found[manager_search(failed, found).0 - 1],
        forall|i: int| 0 <= i < manager_search(failed, found).0 - 1 ==> #[trigger] found[i] is None,
        manager_search(failed, found).1 is None ==> {
            &&& manager_search(failed, found).0 == MANAGER_SEARCH_ATTEMPTS - failed
            &&& forall|i: int| 0 <= i < manager_search(failed, found).0 ==> #[trigger] found[i] is None
        },
    decreases found.len(),
{
    let r = manager_search(failed, found);
    match found[0] {
        Some(pid) => {},
        None => {
            if failed + 1 < MANAGER_SEARCH_ATTEMPTS {
                let tail = found.drop_first();
                lemma_manager_search(failed + 1, tail);
                let t = manager_search(failed + 1, tail);
                assert forall|i: int| 0 <= i < r.0 - 1 implies #[trigger] found[i] is None by {
                    if i > 0 {
                        assert(found[i] == tail[i - 1]);
                    }
                }
                if t.1 is None {
                    assert forall|i: int| 0 <= i < r.0 implies #[trigger] found[i] is None by {
                        if i > 0 {
                            assert(found[i] == tail[i - 1]);
                        }
                    }
                } else {
                    assert(found[r.0 - 1] == tail[t.0 - 1]);
                }
            }
        },
    }
}

/// The bootstrap Hub searches for its manager at most the fixed number of
/// times; it settles on the first manager a search finds, and gives up only
/// after every search found none.
pub proof fn law_manager_search_is_bounded(found: Seq<Option<u32>>)
    requires
        found.len() >= MANAGER_SEARCH_ATTEMPTS,
    ensures
        1 <= manager_search(0, found).0 <= MANAGER_SEARCH_ATTEMPTS,
        manager_search(0, found).1 is Some ==> manager_search(0, found).1 == found[manager_search(0, found).0 - 1],
        forall|i: int| 0 <= i < manager_search(0, found).0 - 1 ==> #[trigger] found[i] is None,
        manager_search(0, found).1 is None ==> manager_search(0, found).0 == MANAGER_SEARCH_ATTEMPTS
            && forall|i: int| 0 <= i < MANAGER_SEARCH_ATTEMPTS ==> #[trigger] found[i] is None,
{
    lemma_manager_search(0, found);
}

/// Once holding, the Hub stays exactly as long as the startup compatibility
/// is on and the same manager is still the related one, and then ends for
/// good.
pub proof fn law_hold_ends_with_manager(manager_pid: u32, compat_active: bool, related: Option<u32>)
    ensures
        preserve_step(PreservePhase::Holding { manager_pid }, compat_active, related).1 == PreserveAction::Pump
            <==> (compat_active && related == Some(manager_pid)),
        !(compat_active && related == Some(manager_pid)) ==> {
            let next = preserve_step(PreservePhase::Holding { manager_pid }, compat_active, related).0;
            &&& next == PreservePhase::Finished
            &&& forall|c: bool, r: Option<u32>| #[trigger] preserve_step(next, c, r) == (PreservePhase::Finished, PreserveAction::Stop)
        },
{
}

proof fn lemma_find_pid(procs: Seq<ProcessEntry>, pid: u32, i: int)
    requires
        0 <= i <= procs.len(),
    ensures
        i <= find_pid_from(procs, pid, i) <= procs.len(),
        find_pid_from(procs, pid, i) < procs.len() <==> exists|k: int| i <= k < procs.len() && #[trigger] procs[k].pid == pid,
        find_pid_from(procs, pid, i) < procs.len() ==> procs[find_pid_from(procs, pid, i)].pid == pid,
    decreases procs.len() - i,
{
    if i < procs.len() {
        lemma_find_pid(procs, pid, i + 1);
        if procs[i].pid != pid {
            if exists|k: int| i <= k < procs.len() && #[trigger] procs[k].pid == pid {
                let k = choose|k: int| i <= k < procs.len() && #[trigger] procs[k].pid == pid;
                assert(k != i);
                assert(i + 1 <= k);
            }
        }
    }
}

proof fn lemma_find_child_manager(procs: Seq<ProcessEntry>, pid: u32, i: int)
    requires
        0 <= i <= procs.len(),
    ensures
        i <= find_child_manager_from(procs, pid, i) <= procs.len(),
        find_child_manager_from(procs, pid, i) < procs.len() ==> procs[find_child_manager_from(procs, pid, i)].parent_pid
            == pid && eq_ci(procs[find_child_manager_from(procs, pid, i)].exe_name@, "Sn3DprocessManager.exe"@),
        find_child_manager_from(procs, pid, i) == procs.len() ==> forall|k: int|
            i <= k < procs.len() ==> !(#[trigger] procs[k].parent_pid == pid && eq_ci(
                procs[k].exe_name@,
                "Sn3DprocessManager.exe"@,
            )),
    decreases procs.len() - i,
{
    if i < procs.len() {
        lemma_find_child_manager(procs, pid, i + 1);
    }
}

/// The manager that keeps the bootstrap Hub alive is a process manager of
/// the snapshot, related to the Hub: an answer names a process whose
/// executable is Sn3DprocessManager.exe (in any ASCII case), and it is the
/// Hub's parent (`parent_manager_alive`) or a child of the Hub
/// (`child_manager_alive`); and there is no answer only when no process
/// manager is a child of the Hub.
pub proof fn law_related_manager_is_a_manager(procs: Seq<ProcessEntry>, current_pid: u32)
    ensures
        related_manager(procs, current_pid) matches Some((reason, pid)) ==> exists|k: int|
            0 <= k < procs.len() && #[trigger] procs[k].pid == pid && eq_ci(
                procs[k].exe_name@,
                "Sn3DprocessManager.exe"@,
            ) && ((reason == "parent_manager_alive"@ && exists|m: int|
                0 <= m < procs.len() && #[trigger] procs[m].pid == current_pid && procs[m].parent_pid == pid) || (
            reason == "child_manager_alive"@ && procs[k].parent_pid == current_pid)),
        related_manager(procs, current_pid) is None ==> forall|k: int|
            0 <= k < procs.len() ==> !(#[trigger] procs[k].parent_pid == current_pid && eq_ci(
                procs[k].exe_name@,
                "Sn3DprocessManager.exe"@,
            )),
{
    lemma_find_pid(procs, current_pid, 0);
    lemma_find_child_manager(procs, current_pid, 0);
    let me = find_pid_from(procs, current_pid, 0);
    if me < procs.len() {
        let parent = procs[me].parent_pid;
        lemma_find_pid(procs, parent, 0);
        let pm = find_pid_from(procs, parent, 0);
        if pm < procs.len() && eq_ci(procs[pm].exe_name@, "Sn3DprocessManager.exe"@) {
            assert(related_manager(procs, current_pid) == Some(("parent_manager_alive"@, parent)));
            assert(procs[pm].pid == parent);
            assert(procs[me].pid == current_pid);
            assert(exists|m: int|
                0 <= m < procs.len() && #[trigger] procs[m].pid == current_pid && procs[m].parent_pid == parent);
            return;
        }
    }
    let c = find_child_manager_from(procs, current_pid, 0);
    if c < procs.len() {
        assert(related_manager(procs, current_pid) == Some(("child_manager_alive"@, procs[c].pid)));
        assert(procs[c].pid == procs[c].pid);
    }
}

// ---------------------------------------------------------------------------
// Exceptions
// ---------------------------------------------------------------------------

/// `STATUS_ACCESS_VIOLATION` and `STATUS_STACK_BUFFER_OVERRUN`, as signed codes.
pub const STATUS_ACCESS_VIOLATION: i32 = -1073741819;
pub const STATUS_STACK_BUFFER_OVERRUN: i32 = -1073740791;

/// `EXCEPTION_CONTINUE_SEARCH`: the exception goes on to the next handler.
pub const EXCEPTION_CONTINUE_SEARCH: i32 = 0;

/// What the vectored exception handler does: it traces the exception, and a
/// backtrace for the first access violation or stack overrun in the traced
/// manager or Hub, and hands every exception on (its `disposition`).
#[derive(Clone, Copy, PartialEq, Eq, Structural, Debug)]
pub struct ExceptionTrace {
    pub log: bool,
    pub backtrace: bool,
    pub disposition: i32,
}

/// The vectored exception handler's decision. `in_tail_window` says whether
/// the exception address or the instruction pointer lies in the process
/// plugin's tail window.
pub fn exception_trace(code: i32, in_tail_window: bool, traced: bool, failure_emitted: &mut bool) -> (t: ExceptionTrace)
    ensures
        t.backtrace == ((code == STATUS_ACCESS_VIOLATION || code == STATUS_STACK_BUFFER_OVERRUN) && traced
            && !*old(failure_emitted)),
        t.log == (in_tail_window || t.backtrace),
        t.disposition == EXCEPTION_CONTINUE_SEARCH,
        *final(failure_emitted) == (*old(failure_emitted) || ((code == STATUS_ACCESS_VIOLATION || code
            == STATUS_STACK_BUFFER_OVERRUN) && traced)),
{
    let failure = (code == STATUS_ACCESS_VIOLATION || code == STATUS_STACK_BUFFER_OVERRUN) && traced;
    let backtrace = if failure {
        let first = !*failure_emitted;
        *failure_emitted = true;
        first
    } else {
        false
    };
    ExceptionTrace { log: in_tail_window || backtrace, backtrace, disposition: EXCEPTION_CONTINUE_SEARCH }
}

// ---------------------------------------------------------------------------
// Adapter spoofing
// ---------------------------------------------------------------------------

/// The PCI vendor id reported for every adapter (NVIDIA).
pub const NVIDIA_VENDOR_ID: u32 = 0x10DE;
/// The PCI device id reported for every adapter (an RTX 3060).
pub const NVIDIA_DEVICE_ID: u32 = 0x2503;

/// Whether the answer of the adapter's `GetDesc` or `GetDesc1` is rewritten
/// as NVIDIA's: only when the call succeeded (a non-negative `HRESULT`) and
/// the caller gave a description to fill.
pub fn adapter_spoof_due(hresult: i32, desc_is_null: bool) -> (r: bool)
    ensures
        r == (hresult >= 0 && !desc_is_null),
{
    hresult >= 0 && !desc_is_null
}

/// The adapter description written over the real one: the name in UTF-16
/// with its terminator.
pub open spec fn nvidia_description_units() -> Seq<u16> {
    "NVIDIA GeForce RTX 3060"@.map_values(|c: char| (c as u32) as u16).push(0)
}

/// The units of the spoofed adapter description (at most 128, the size of
/// the description field).
pub fn nvidia_adapter_description() -> (r: Vec<u16>)
    ensures
        r@ == nvidia_description_units(),
        r@.len() <= 128,
{
    let name = str_to_chars("NVIDIA GeForce RTX 3060");
    proof {
        reveal_strlit("NVIDIA GeForce RTX 3060");
    }
    let mut r: Vec<u16> = Vec::new();
    let mut i: usize = 0;
    while i < name.len()
        invariant
            name@ == "NVIDIA GeForce RTX 3060"@,
            i <= name@.len(),
            r@ == name@.subrange(0, i as int).map_values(|c: char| (c as u32) as u16),
        decreases name.len() - i,
    {
        let c = name[i];
        r.push((c as u32) as u16);
        i = i + 1;
        assert(r@ =~= name@.subrange(0, i as int).map_values(|c: char| (c as u32) as u16));
    }
    r.push(0);
    assert(name@.subrange(0, name@.len() as int) =~= name@);
    r
}

// ---------------------------------------------------------------------------
// PrestartCheck
// ---------------------------------------------------------------------------

/// Where in PrestartCheck.dll the GPU check's branch sits.
pub const PRESTART_PATCH_OFFSET: usize = 0x59f1;

/// The module's own bytes there.
pub open spec fn prestart_unpatched() -> Seq<u8> {
    seq![0x84u8, 0xDB, 0x0F, 0x84, 0xA7, 0x07, 0x00, 0x00]
}

/// What an earlier, wrong patch left there.
pub open spec fn prestart_bad_patch() -> Seq<u8> {
    seq![0x90u8, 0x90, 0xE9, 0x35, 0x0C, 0x00, 0x00, 0x90]
}

/// The patch: the conditional jump made unconditional.
pub open spec fn prestart_fixed() -> Seq<u8> {
    seq![0x84u8, 0xDB, 0xE9, 0xA8, 0x07, 0x00, 0x00, 0x90]
}

/// The little-endian 32-bit value at `at` in `b`.
pub open spec fn le32_at(b: Seq<u8>, at: int) -> int {
    b[at] + 256 * b[at + 1] + 65536 * b[at + 2] + 16777216 * b[at + 3]
}

/// The patch keeps the check's `test bl, bl` and turns the `jz rel32` that
/// follows it into a `jmp rel32` to the same target, padded with a `nop`:
/// the module's bytes are 84 DB 0F 84 A7 07 00 00, the patch is
/// 84 DB E9 A8 07 00 00 90, and since the jump is one byte shorter its
/// displacement is one larger, so both branch to 2 + 6 + 0x7A7 bytes past
/// the patch location.
pub proof fn law_prestart_patch_keeps_the_branch_target()
    ensures
        prestart_unpatched() == seq![0x84u8, 0xDB, 0x0F, 0x84, 0xA7, 0x07, 0x00, 0x00],
        prestart_fixed() == seq![0x84u8, 0xDB, 0xE9, 0xA8, 0x07, 0x00, 0x00, 0x90],
        prestart_fixed().len() == 8 && prestart_unpatched().len() == 8,
        prestart_fixed()[0] == prestart_unpatched()[0] && prestart_fixed()[1] == prestart_unpatched()[1],
        prestart_unpatched()[2] == 0x0F && prestart_unpatched()[3] == 0x84,
        prestart_fixed()[2] == 0xE9 && prestart_fixed()[7] == 0x90,
        2 + 5 + le32_at(prestart_fixed(), 3) == 2 + 6 + le32_at(prestart_unpatched(), 4),
        2 + 6 + le32_at(prestart_unpatched(), 4) == 8 + 0x7A7,
{
    assert(prestart_unpatched() =~= seq![0x84u8, 0xDB, 0x0F, 0x84, 0xA7, 0x07, 0x00, 0x00]);
    assert(prestart_fixed() =~= seq![0x84u8, 0xDB, 0xE9, 0xA8, 0x07, 0x00, 0x00, 0x90]);
}

/// What to do with the bytes found at the patch location.
#[derive(Clone, Copy, PartialEq, Eq, Structural, Debug)]
pub enum PrestartAction {
    /// The patch is in place.
    AlreadyPatched,
    /// The bytes are not the known ones; leave the module alone.
    Unexpected,
    /// Write the patch.
    Apply,
}

fn bytes_are(found: &[u8], expected: &Vec<u8>) -> (r: bool)
    requires
        found@.len() == expected@.len(),
    ensures
        r == (found@ == expected@),
{
    let mut i: usize = 0;
    while i < found.len()
        invariant
            found@.len() == expected@.len(),
            i <= found@.len(),
            forall|k: int| 0 <= k < i ==> found@[k] == expected@[k],
        decreases found.len() - i,
    {
        if found[i] != expected[i] {
            return false;
        }
        i = i + 1;
    }
    assert(found@ =~= expected@);
    true
}

/// The patch bytes.
pub fn prestart_patch_bytes() -> (r: Vec<u8>)
    ensures
        r@ == prestart_fixed(),
        r@ == seq![0x84u8, 0xDB, 0xE9, 0xA8, 0x07, 0x00, 0x00, 0x90],
{
    let r: Vec<u8> = vec![0x84u8, 0xDB, 0xE9, 0xA8, 0x07, 0x00, 0x00, 0x90];
    assert(r@ =~= prestart_fixed());
    r
}

/// The patch decision on the 8 bytes at the patch location of a loaded
/// PrestartCheck.dll.
pub fn exstar_prestartcheck_patch_action(current: &[u8]) -> (r: PrestartAction)
    requires
        current@.len() == 8,
    ensures
        r == (if current@ == prestart_fixed() {
            PrestartAction::AlreadyPatched
        } else if current@ != prestart_unpatched() && current@ != prestart_bad_patch() {
            PrestartAction::Unexpected
        } else {
            PrestartAction::Apply
        }),
{
    let fixed = prestart_patch_bytes();
    let unpatched: Vec<u8> = vec![0x84u8, 0xDB, 0x0F, 0x84, 0xA7, 0x07, 0x00, 0x00];
    let bad: Vec<u8> = vec![0x90u8, 0x90, 0xE9, 0x35, 0x0C, 0x00, 0x00, 0x90];
    assert(unpatched@ =~= prestart_unpatched());
    assert(bad@ =~= prestart_bad_patch());
    if bytes_are(current, &fixed) {
        return PrestartAction::AlreadyPatched;
    }
    if !bytes_are(current, &unpatched) && !bytes_are(current, &bad) {
        return PrestartAction::Unexpected;
    }
    PrestartAction::Apply
}

/// Where the patch goes in a module loaded at `handle`; nothing is patched
/// for a null handle.
pub fn prestartcheck_patch_address(handle: usize) -> (r: Option<usize>)
    requires
        handle <= usize::MAX - PRESTART_PATCH_OFFSET,
    ensures
        r == (if handle == 0 { None } else { Some((handle + PRESTART_PATCH_OFFSET) as usize) }),
{
    if handle == 0 {
        None
    } else {
        Some(handle + PRESTART_PATCH_OFFSET)
    }
}

// ---------------------------------------------------------------------------
// Child processes
// ---------------------------------------------------------------------------

/// `CREATE_SUSPENDED`.
pub const CREATE_SUSPENDED: u32 = 0x4;
/// `CREATE_BREAKAWAY_FROM_JOB`.
pub const CREATE_BREAKAWAY_FROM_JOB: u32 = 0x01000000;

/// Children are created suspended, so that the runtime can be injected
/// before they run, and outside the launcher's job.
pub fn child_creation_flags(flags: u32) -> (r: u32)
    ensures
        r == flags | CREATE_SUSPENDED | CREATE_BREAKAWAY_FROM_JOB,
{
    flags | CREATE_SUSPENDED | CREATE_BREAKAWAY_FROM_JOB
}

/// A child is resumed after the injection unless its creator asked for it
/// suspended.
pub fn resume_after_injection(flags: u32) -> (r: bool)
    ensures
        r == (flags & CREATE_SUSPENDED == 0),
{
    flags & CREATE_SUSPENDED == 0
}

/// The injection into the process manager and the Hub is traced.
pub fn trace_child_injection(application_name: Option<&str>, command_line: Option<&str>) -> (r: bool)
    ensures
        r == (crate::payload::launch_mentions(
            match application_name { Some(a) => Some(a@), None => None },
            match command_line { Some(c) => Some(c@), None => None },
            "sn3dprocessmanager.exe"@,
        ) || crate::payload::launch_mentions(
            match application_name { Some(a) => Some(a@), None => None },
            match command_line { Some(c) => Some(c@), None => None },
            "exstar hub.exe"@,
        )),
{
    crate::payload::launch_targets_process_name(application_name, command_line, "sn3dprocessmanager.exe")
        || crate::payload::launch_targets_process_name(application_name, command_line, "exstar hub.exe")
}

/// What a successful launch changes: the EinScan service counts as started
/// when it was the one launched, and the manager's launch of scanhub
/// starts a second sweep.
#[derive(Clone, Copy, PartialEq, Eq, Structural, Debug)]
pub struct LaunchBookkeeping {
    pub einscan_started: bool,
    pub scanhub_launched: bool,
}

/// The bookkeeping of a finished launch. It is kept by the launch's trace
/// record, which is written only under host tracing.
pub fn child_launch_bookkeeping(
    host_trace_enabled: bool,
    succeeded: bool,
    targets_einscan: bool,
    manager_traced: bool,
    targets_scanhub: bool,
) -> (r: LaunchBookkeeping)
    ensures
        r.einscan_started == (host_trace_enabled && succeeded && targets_einscan),
        r.scanhub_launched == (host_trace_enabled && succeeded && manager_traced && targets_scanhub),
{
    LaunchBookkeeping {
        einscan_started: host_trace_enabled && succeeded && targets_einscan,
        scanhub_launched: host_trace_enabled && succeeded && manager_traced && targets_scanhub,
    }
}

/// A launch of the EinScan service by the process manager itself is checked
/// against the launch latch, to notice a second, native launch.
pub fn native_launch_duplicate_check(p: &ProcessInfo, application_name: Option<&str>, command_line: Option<&str>) -> (r: bool)
    ensures
        r == (crate::payload::launch_mentions(
            match application_name { Some(a) => Some(a@), None => None },
            match command_line { Some(c) => Some(c@), None => None },
            "einscan_net_svr.exe"@,
        ) && exe_is(*p, "Sn3DprocessManager.exe"@)),
{
    crate::payload::launch_targets_einscan_net_svr(application_name, command_line)
        && crate::exstar::exstar_current_process_is_manager(p)
}

/// The creation flags actually passed: the injection flags when the
/// runtime's paths are known and the child will be injected, the caller's
/// own flags otherwise.
pub fn launch_creation_flags(flags: u32, inject: bool) -> (r: u32)
    ensures
        r == (if inject { flags | CREATE_SUSPENDED | CREATE_BREAKAWAY_FROM_JOB } else { flags }),
{
    if inject {
        child_creation_flags(flags)
    } else {
        flags
    }
}

/// The probes after a traced injected launch of a child that runs: a short
/// wait for an early exit, a longer one when the child is still running
/// after the first, and a watcher for the process manager.
#[derive(Clone, Copy, PartialEq, Eq, Structural, Debug)]
pub struct LaunchProbes {
    pub probe: bool,
    pub watch_manager: bool,
}

/// Which probes follow an injected launch.
pub fn launch_probes(traced: bool, flags: u32, targets_manager: bool) -> (r: LaunchProbes)
    ensures
        r.probe == (traced && flags & CREATE_SUSPENDED == 0),
        r.watch_manager == (traced && flags & CREATE_SUSPENDED == 0 && targets_manager),
{
    let probe = traced && resume_after_injection(flags);
    LaunchProbes { probe, watch_manager: probe && targets_manager }
}

/// The longer probe follows when the short wait timed out.
pub fn late_probe_due(wait_result: u32) -> (r: bool)
    ensures
        r == (wait_result == WAIT_TIMEOUT),
{
    wait_result == WAIT_TIMEOUT
}

// ---------------------------------------------------------------------------
// Libraries loaded by the application
// ---------------------------------------------------------------------------

/// The hooks installed once a library has loaded.
#[derive(Clone, Copy, PartialEq, Eq, Structural, Debug)]
pub struct LoadHooks {
    /// The EinStar device library: its `stop` is hooked.
    pub device_einstar: bool,
    /// DXGI: its factory is hooked, so that the adapter reads as NVIDIA's.
    pub dxgi: bool,
}

/// The hooks that a loaded library, named by `file_name` as the loader was
/// asked for it, calls for; the name is matched without regard to ASCII case.
pub fn library_load_hooks(file_name: &str) -> (r: LoadHooks)
    ensures
        r.device_einstar == crate::text::contains_seq(crate::text::lower_seq(file_name@), "sn3ddeviceeinstar"@),
        r.dxgi == crate::text::contains_seq(crate::text::lower_seq(file_name@), "dxgi"@),
{
    let name = str_to_chars(file_name);
    LoadHooks {
        device_einstar: crate::text::contains_lowercased(name.as_slice(), "sn3ddeviceeinstar"),
        dxgi: crate::text::contains_lowercased(name.as_slice(), "dxgi"),
    }
}

/// How often the scan service looks for the EinStar device library.
pub const DEVICE_POLL_CHECKS: u32 = 60;
/// How long it sleeps after each look that did not find it, in milliseconds.
pub const DEVICE_POLL_PERIOD_MS: u32 = 500;

/// What the scan service's device poller does after a look for the EinStar
/// device library.
#[derive(Clone, Copy, PartialEq, Eq, Structural, Debug)]
pub enum DevicePollAction {
    /// The library is loaded: hook its `stop` and end.
    Hook,
    /// Sleep this long, then look again.
    WaitThenCheck(u32),
    /// Sleep this long, then give up: the poller timed out.
    WaitThenGiveUp(u32),
}

/// The poller's decision after its `checks_done`-th look (counting this
/// one), given whether the library was found: it looks at most sixty times,
/// half a second apart, and gives up half a second after the last look.
pub fn device_poll_next(checks_done: u32, found: bool) -> (r: DevicePollAction)
    ensures
        r == (if found {
            DevicePollAction::Hook
        } else if checks_done < DEVICE_POLL_CHECKS {
            DevicePollAction::WaitThenCheck(DEVICE_POLL_PERIOD_MS)
        } else {
            DevicePollAction::WaitThenGiveUp(DEVICE_POLL_PERIOD_MS)
        }),
{
    if found {
        DevicePollAction::Hook
    } else if checks_done < DEVICE_POLL_CHECKS {
        DevicePollAction::WaitThenCheck(DEVICE_POLL_PERIOD_MS)
    } else {
        DevicePollAction::WaitThenGiveUp(DEVICE_POLL_PERIOD_MS)
    }
}

/// Whether an entry point of the Hub's executable takes its one backtrace:
/// entry points that ask for it only on the main window's thread, and each
/// only once. Taking it sets `emitted`; a call that does not qualify leaves
/// it as it was.
pub fn exe_entry_backtrace_due(require_main_window_thread: bool, on_main_window_thread: bool, emitted: &mut bool) -> (r: bool)
    ensures
        r == ((!require_main_window_thread || on_main_window_thread) && !*old(emitted)),
        *final(emitted) == (*old(emitted) || !require_main_window_thread || on_main_window_thread),
{
    if require_main_window_thread && !on_main_window_thread {
        return false;
    }
    let due = !*emitted;
    *emitted = true;
    due
}

/// The backtraces a traced `TerminateProcess` takes.
#[derive(Clone, Copy, PartialEq, Eq, Structural, Debug)]
pub struct TerminateBacktraces {
    /// The one of a call made during the process manager's suspicious kill
    /// of sn3DCommunity, taken once.
    pub community_kill: bool,
    /// The one of the first traced call, taken once.
    pub first_terminate: bool,
}

/// Which backtraces a traced `TerminateProcess` takes, given whether it runs
/// inside a suspicious kill; taking one sets its mark, and the suspicious
/// kill's mark is left alone outside such a kill.
pub fn terminate_backtraces(
    in_kill_context: bool,
    community_emitted: &mut bool,
    terminate_emitted: &mut bool,
) -> (r: TerminateBacktraces)
    ensures
        r.community_kill == (in_kill_context && !*old(community_emitted)),
        *final(community_emitted) == (*old(community_emitted) || in_kill_context),
        r.first_terminate == !*old(terminate_emitted),
        *final(terminate_emitted),
{
    let community_kill = in_kill_context && !*community_emitted;
    if in_kill_context {
        *community_emitted = true;
    }
    let first_terminate = !*terminate_emitted;
    *terminate_emitted = true;
    TerminateBacktraces { community_kill, first_terminate }
}

} // verus!

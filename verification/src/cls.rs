//! Context-local storage: the per-context table behind the driver's private
//! CONTEXT_LOCAL_STORAGE interface (put, get, delete), with the debug switches
//! that make puts and gets fail on purpose and the compatibility windows that
//! refuse the first puts of a key for EXStar's colour-correction module.
use std::collections::{HashMap, HashSet};
use vstd::prelude::*;
use crate::cuda::{cu_error, CuError, CUDA_ERROR_INVALID_HANDLE};
use crate::settings::DebugSettings;
use crate::text::{contains_lowercased, contains_seq, lower_seq, str_to_chars};

verus! {

broadcast use vstd::std_specs::hash::group_hash_axioms;

/// One stored value: the value, the destructor callback that came with it (by
/// address), and the context it was stored for.
#[derive(Clone, Copy, PartialEq, Eq, Structural, Debug)]
pub struct StorageData {
    pub value: u64,
    pub reset_cb: Option<u64>,
    pub handle: u64,
}

/// The debug switches that storage operations obey.
#[derive(Clone, Copy, PartialEq, Eq, Structural, Debug)]
pub struct ClsConfig {
    /// Every operation is refused.
    pub disabled: bool,
    /// Puts store a null value without destructor.
    pub null_value: bool,
    /// Every put is refused.
    pub put_fails: bool,
    /// Every get is refused.
    pub get_fails: bool,
    /// The first put of each key is refused.
    pub first_put_fails: bool,
    /// The first `n` puts of each key are refused.
    pub put_fail_count: Option<u32>,
    /// Gets of a key fail once it has been read more than `n` times.
    pub get_fail_after_count: Option<u32>,
    /// The hit number of a key whose get is reported.
    pub trace_get_hit_count: Option<u32>,
    /// Refuse twice a put with destructor of a key not yet stored.
    pub compat_put_window: bool,
    /// Refuse twice a put with destructor, for the current context, of a key
    /// not yet stored that has been missed at least twice.
    pub compat_pattern_window: bool,
    /// As the pattern window, for destructors inside sn3dcolorcorrect.dll.
    pub compat_module_window: bool,
    /// Report the first successful put and get of each key.
    pub trace_success: bool,
}

/// The storage switches of the debug settings.
pub fn cls_config(s: &DebugSettings) -> (c: ClsConfig)
    ensures
        c.disabled == s.disable_cls,
        c.null_value == s.null_cls_value,
        c.put_fails == s.fail_cls_put,
        c.get_fails == s.fail_cls_get,
        c.first_put_fails == s.fail_first_cls_put,
        c.put_fail_count == s.fail_cls_put_count,
        c.get_fail_after_count == s.fail_cls_get_after_count,
        c.trace_get_hit_count == s.trace_cls_get_hit_count,
        c.compat_put_window == s.compat_cls_put_window,
        c.compat_pattern_window == s.compat_cls_pattern_window,
        c.compat_module_window == (s.compat_cls_module_window || s.color_correct_cls_compat),
        c.trace_success == s.trace_cls_success,
{
    ClsConfig {
        disabled: s.disable_cls,
        null_value: s.null_cls_value,
        put_fails: s.fail_cls_put,
        get_fails: s.fail_cls_get,
        first_put_fails: s.fail_first_cls_put,
        put_fail_count: s.fail_cls_put_count,
        get_fail_after_count: s.fail_cls_get_after_count,
        trace_get_hit_count: s.trace_cls_get_hit_count,
        compat_put_window: s.compat_cls_put_window,
        compat_pattern_window: s.compat_cls_pattern_window,
        compat_module_window: s.compat_cls_module_window || s.color_correct_cls_compat,
        trace_success: s.trace_cls_success,
    }
}

/// A put request: whether the caller passed the null context, the context it
/// resolved to, the key, the value and the destructor's address.
#[derive(Clone, Copy, PartialEq, Eq, Structural, Debug)]
pub struct ClsPut {
    pub null_ctx: bool,
    pub ctx: u64,
    pub key: u64,
    pub value: u64,
    pub dtor: Option<u64>,
}

/// What a successful put reports: the entry it replaced, and whether this was
/// the first traced put of the key.
#[derive(Clone, Copy, PartialEq, Eq, Structural, Debug)]
pub struct PutDone {
    pub replaced: Option<StorageData>,
    pub trace_first: bool,
}

/// What a successful get reports: the value, how often the key has now been
/// read, and whether the read is to be traced as the first one or as the
/// configured hit.
#[derive(Clone, Copy, PartialEq, Eq, Structural, Debug)]
pub struct GetHit {
    pub value: u64,
    pub hit_count: u32,
    pub trace_first: bool,
    pub trace_hit: bool,
}

/// The outcome of a get: what is written to the caller's value slot, if
/// anything, and the result.
#[derive(Clone, Copy, PartialEq, Eq, Debug)]
pub struct GetOutcome {
    pub written: Option<u64>,
    pub result: Result<GetHit, CuError>,
}

/// The abstract state of one context's storage.
pub struct ClsModel {
    pub storage: Map<u64, StorageData>,
    pub misses: Map<u64, u32>,
    pub hits: Map<u64, u32>,
    pub failed_puts: Map<u64, u32>,
    pub traced_puts: Set<u64>,
    pub traced_gets: Set<u64>,
}

/// One context's storage: the stored entries, and per key the gets that
/// missed since the last put, the gets that hit since the last put, the puts
/// refused so far, and which keys had a traced put or get.
pub struct ClsState {
    pub storage: HashMap<u64, StorageData>,
    pub storage_get_misses: HashMap<u64, u32>,
    pub successful_storage_gets: HashMap<u64, u32>,
    pub failed_storage_puts: HashMap<u64, u32>,
    pub traced_storage_puts: HashSet<u64>,
    pub traced_storage_gets: HashSet<u64>,
}

impl View for ClsState {
    type V = ClsModel;

    open spec fn view(&self) -> ClsModel {
        ClsModel {
            storage: self.storage@,
            misses: self.storage_get_misses@,
            hits: self.successful_storage_gets@,
            failed_puts: self.failed_storage_puts@,
            traced_puts: self.traced_storage_puts@,
            traced_gets: self.traced_storage_gets@,
        }
    }
}

/// A per-key counter, zero where the key has none.
pub open spec fn counter(m: Map<u64, u32>, k: u64) -> u32 {
    if m.contains_key(k) {
        m[k]
    } else {
        0
    }
}

/// The destructor lives in EXStar's colour-correction library.
pub open spec fn in_color_correct_module(dtor: Option<u64>, path: Option<Seq<char>>) -> bool {
    dtor is Some && match path {
        Some(p) => contains_seq(lower_seq(p), "sn3dcolorcorrect.dll"@),
        None => false,
    }
}

/// How many puts of the key are refused before one is stored, given whether
/// the key is stored and how often reading it has missed.
pub open spec fn put_fail_target(
    cfg: ClsConfig,
    null_ctx: bool,
    has_dtor: bool,
    module_matches: bool,
    present: bool,
    misses: u32,
) -> u32 {
    if cfg.compat_module_window {
        if null_ctx && module_matches && !present && misses >= 2 { 2 } else { 0 }
    } else if cfg.compat_pattern_window {
        if null_ctx && has_dtor && !present && misses >= 2 { 2 } else { 0 }
    } else if cfg.compat_put_window {
        if has_dtor && !present { 2 } else { 0 }
    } else {
        match cfg.put_fail_count {
            Some(n) => n,
            None => if cfg.first_put_fails { 1 } else { 0 },
        }
    }
}

/// The refusal target of a put in state `m`.
pub open spec fn put_target(m: ClsModel, cfg: ClsConfig, req: ClsPut, module_matches: bool) -> u32 {
    put_fail_target(
        cfg,
        req.null_ctx,
        req.dtor is Some,
        module_matches,
        m.storage.contains_key(req.key),
        counter(m.misses, req.key),
    )
}

/// The put is refused before the table is looked at.
pub open spec fn put_refused_early(cfg: ClsConfig) -> bool {
    cfg.disabled || cfg.put_fails
}

/// The put falls inside its key's refusal window.
pub open spec fn put_window_refuses(m: ClsModel, cfg: ClsConfig, req: ClsPut, module_matches: bool) -> bool {
    let t = put_target(m, cfg, req, module_matches);
    t > 0 && counter(m.failed_puts, req.key) < t
}

/// The entry a put stores.
pub open spec fn stored_entry(cfg: ClsConfig, req: ClsPut) -> StorageData {
    if cfg.null_value {
        StorageData { value: 0, reset_cb: None, handle: req.ctx }
    } else {
        StorageData { value: req.value, reset_cb: req.dtor, handle: req.ctx }
    }
}

/// The state after a put.
pub open spec fn put_next(m: ClsModel, cfg: ClsConfig, req: ClsPut, module_matches: bool) -> ClsModel {
    let observed = counter(m.failed_puts, req.key);
    if put_refused_early(cfg) {
        m
    } else if put_window_refuses(m, cfg, req, module_matches) {
        ClsModel {
            storage: m.storage,
            misses: m.misses,
            hits: m.hits,
            failed_puts: m.failed_puts.insert(req.key, (observed + 1) as u32),
            traced_puts: m.traced_puts,
            traced_gets: m.traced_gets,
        }
    } else {
        ClsModel {
            storage: m.storage.insert(req.key, stored_entry(cfg, req)),
            misses: m.misses.remove(req.key),
            hits: m.hits.remove(req.key),
            failed_puts: m.failed_puts.insert(req.key, observed),
            traced_puts: if cfg.trace_success { m.traced_puts.insert(req.key) } else { m.traced_puts },
            traced_gets: m.traced_gets,
        }
    }
}

/// The result of a put.
pub open spec fn put_result(m: ClsModel, cfg: ClsConfig, req: ClsPut, module_matches: bool) -> Result<PutDone, CuError> {
    if put_refused_early(cfg) || put_window_refuses(m, cfg, req, module_matches) {
        Err(CuError { code: CUDA_ERROR_INVALID_HANDLE })
    } else {
        Ok(PutDone {
            replaced: if m.storage.contains_key(req.key) { Some(m.storage[req.key]) } else { None },
            trace_first: cfg.trace_success && !m.traced_puts.contains(req.key),
        })
    }
}

/// The get is refused before the table is looked at.
pub open spec fn get_refused_early(cfg: ClsConfig) -> bool {
    cfg.disabled || cfg.get_fails
}

/// The `n`-th read of a key is past the configured number of good reads.
pub open spec fn get_past_limit(cfg: ClsConfig, n: int) -> bool {
    match cfg.get_fail_after_count {
        Some(k) => n > k,
        None => false,
    }
}

/// The counters a get moves stay within `u32`.
pub open spec fn get_counters_fit(m: ClsModel, cfg: ClsConfig, key: u64) -> bool {
    get_refused_early(cfg) || if m.storage.contains_key(key) {
        counter(m.hits, key) < u32::MAX
    } else {
        counter(m.misses, key) < u32::MAX
    }
}

/// The state after a get.
pub open spec fn get_next(m: ClsModel, cfg: ClsConfig, key: u64) -> ClsModel {
    if get_refused_early(cfg) {
        m
    } else if m.storage.contains_key(key) {
        let n = counter(m.hits, key) + 1;
        ClsModel {
            storage: m.storage,
            misses: m.misses.remove(key),
            hits: m.hits.insert(key, n as u32),
            failed_puts: m.failed_puts,
            traced_puts: m.traced_puts,
            traced_gets: if !get_past_limit(cfg, n) && cfg.trace_success {
                m.traced_gets.insert(key)
            } else {
                m.traced_gets
            },
        }
    } else {
        ClsModel {
            storage: m.storage,
            misses: m.misses.insert(key, (counter(m.misses, key) + 1) as u32),
            hits: m.hits,
            failed_puts: m.failed_puts,
            traced_puts: m.traced_puts,
            traced_gets: m.traced_gets,
        }
    }
}

/// The outcome of a get.
pub open spec fn get_outcome(m: ClsModel, cfg: ClsConfig, key: u64) -> GetOutcome {
    let refused = Err(CuError { code: CUDA_ERROR_INVALID_HANDLE });
    if get_refused_early(cfg) {
        GetOutcome { written: Some(0), result: refused }
    } else if m.storage.contains_key(key) {
        let n = counter(m.hits, key) + 1;
        if get_past_limit(cfg, n) {
            GetOutcome { written: Some(0), result: refused }
        } else {
            GetOutcome {
                written: Some(m.storage[key].value),
                result: Ok(GetHit {
                    value: m.storage[key].value,
                    hit_count: n as u32,
                    trace_first: cfg.trace_success && !m.traced_gets.contains(key),
                    trace_hit: cfg.trace_get_hit_count == Some(n as u32),
                }),
            }
        }
    } else {
        GetOutcome { written: None, result: refused }
    }
}

/// The state after a delete.
pub open spec fn delete_next(m: ClsModel, cfg: ClsConfig, key: u64) -> ClsModel {
    if cfg.disabled {
        m
    } else {
        ClsModel {
            storage: m.storage.remove(key),
            misses: m.misses.remove(key),
            hits: m.hits.remove(key),
            failed_puts: m.failed_puts,
            traced_puts: m.traced_puts.remove(key),
            traced_gets: m.traced_gets.remove(key),
        }
    }
}

/// The result of a delete: the removed entry.
pub open spec fn delete_result(m: ClsModel, cfg: ClsConfig, key: u64) -> Result<Option<StorageData>, CuError> {
    if cfg.disabled {
        Err(CuError { code: CUDA_ERROR_INVALID_HANDLE })
    } else if m.storage.contains_key(key) {
        Ok(Some(m.storage[key]))
    } else {
        Ok(None)
    }
}

/// The state after `n` identical puts.
pub open spec fn repeat_put(m: ClsModel, cfg: ClsConfig, req: ClsPut, module_matches: bool, n: nat) -> ClsModel
    decreases n,
{
    if n == 0 {
        m
    } else {
        put_next(repeat_put(m, cfg, req, module_matches, (n - 1) as nat), cfg, req, module_matches)
    }
}

proof fn lemma_repeat_put_refused(m: ClsModel, cfg: ClsConfig, req: ClsPut, module_matches: bool, k: nat)
    requires
        !put_refused_early(cfg),
        counter(m.failed_puts, req.key) + k <= put_target(m, cfg, req, module_matches),
    ensures
        repeat_put(m, cfg, req, module_matches, k).storage == m.storage,
        repeat_put(m, cfg, req, module_matches, k).misses == m.misses,
        counter(repeat_put(m, cfg, req, module_matches, k).failed_puts, req.key)
            == counter(m.failed_puts, req.key) + k,
    decreases k,
{
    if k > 0 {
        let k1 = (k - 1) as nat;
        lemma_repeat_put_refused(m, cfg, req, module_matches, k1);
        let p = repeat_put(m, cfg, req, module_matches, k1);
        assert(put_target(p, cfg, req, module_matches) == put_target(m, cfg, req, module_matches));
        assert(put_window_refuses(p, cfg, req, module_matches));
    }
}

/// A put followed by a get of the same key reads back what the put stored
/// (the value, or null under the null-value switch) as the key's first read.
pub proof fn law_get_returns_put_value(m: ClsModel, cfg: ClsConfig, req: ClsPut, module_matches: bool)
    requires
        !put_refused_early(cfg),
        !put_window_refuses(m, cfg, req, module_matches),
        !get_refused_early(cfg),
        !get_past_limit(cfg, 1),
    ensures
        put_result(m, cfg, req, module_matches) is Ok,
        get_counters_fit(put_next(m, cfg, req, module_matches), cfg, req.key),
        get_outcome(put_next(m, cfg, req, module_matches), cfg, req.key) == (GetOutcome {
            written: Some(stored_entry(cfg, req).value),
            result: Ok(GetHit {
                value: stored_entry(cfg, req).value,
                hit_count: 1,
                trace_first: cfg.trace_success && !m.traced_gets.contains(req.key),
                trace_hit: cfg.trace_get_hit_count == Some(1u32),
            }),
        }),
{
    let p = put_next(m, cfg, req, module_matches);
    assert(p.storage.contains_key(req.key));
    assert(!p.hits.contains_key(req.key));
}

/// After a delete, reading the key misses: nothing is written, the read is
/// refused, and it counts as the key's first miss.
pub proof fn law_get_after_delete_misses(m: ClsModel, cfg: ClsConfig, key: u64)
    requires
        !cfg.disabled,
        !get_refused_early(cfg),
    ensures
        delete_result(m, cfg, key) is Ok,
        get_counters_fit(delete_next(m, cfg, key), cfg, key),
        get_outcome(delete_next(m, cfg, key), cfg, key) == (GetOutcome {
            written: None,
            result: Err(CuError { code: CUDA_ERROR_INVALID_HANDLE }),
        }),
        counter(get_next(delete_next(m, cfg, key), cfg, key).misses, key) == 1,
{
}

/// Repeating the same put: while fewer than the key's refusal target have
/// been refused, each put is refused and counted; the put that comes after
/// exactly that many refusals is stored.
pub proof fn law_put_refusal_window(m: ClsModel, cfg: ClsConfig, req: ClsPut, module_matches: bool, k: nat)
    requires
        !put_refused_early(cfg),
        counter(m.failed_puts, req.key) <= put_target(m, cfg, req, module_matches),
    ensures
        counter(m.failed_puts, req.key) + k < put_target(m, cfg, req, module_matches) ==> put_result(
            repeat_put(m, cfg, req, module_matches, k),
            cfg,
            req,
            module_matches,
        ) is Err,
        counter(m.failed_puts, req.key) + k == put_target(m, cfg, req, module_matches) ==> put_result(
            repeat_put(m, cfg, req, module_matches, k),
            cfg,
            req,
            module_matches,
        ) is Ok,
{
    if counter(m.failed_puts, req.key) + k <= put_target(m, cfg, req, module_matches) {
        lemma_repeat_put_refused(m, cfg, req, module_matches, k);
        let p = repeat_put(m, cfg, req, module_matches, k);
        assert(put_target(p, cfg, req, module_matches) == put_target(m, cfg, req, module_matches));
    }
}

/// The refusal target when no compatibility window is on: the configured
/// count of refused puts, or one under the first-put switch, or none.
pub open spec fn plain_put_fail_count(cfg: ClsConfig) -> u32 {
    match cfg.put_fail_count {
        Some(n) => n,
        None => if cfg.first_put_fails { 1 } else { 0 },
    }
}

/// No compatibility window is on.
pub open spec fn no_compat_window(cfg: ClsConfig) -> bool {
    !cfg.compat_module_window && !cfg.compat_pattern_window && !cfg.compat_put_window
}

/// The state after the successive puts `puts`, each given with whether its
/// destructor lies in the colour-correction library.
pub open spec fn puts_after(m: ClsModel, cfg: ClsConfig, puts: Seq<(ClsPut, bool)>) -> ClsModel
    decreases puts.len(),
{
    if puts.len() == 0 {
        m
    } else {
        put_next(puts_after(m, cfg, puts.drop_last()), cfg, puts.last().0, puts.last().1)
    }
}

proof fn lemma_puts_prefix(m: ClsModel, cfg: ClsConfig, puts: Seq<(ClsPut, bool)>, key: u64, j: int)
    requires
        !put_refused_early(cfg),
        no_compat_window(cfg),
        counter(m.failed_puts, key) == 0,
        forall|i: int| 0 <= i < puts.len() ==> (#[trigger] puts[i]).0.key == key,
        0 <= j <= puts.len(),
    ensures
        counter(puts_after(m, cfg, puts.take(j)).failed_puts, key) == (if j < plain_put_fail_count(cfg) {
            j
        } else {
            plain_put_fail_count(cfg) as int
        }),
        j <= plain_put_fail_count(cfg) ==> puts_after(m, cfg, puts.take(j)).storage == m.storage,
    decreases j,
{
    if j > 0 {
        lemma_puts_prefix(m, cfg, puts, key, j - 1);
        let prev = puts.take(j - 1);
        let cur = puts.take(j);
        assert(cur.drop_last() =~= prev);
        assert(cur.last() == puts[j - 1]);
        let p = puts_after(m, cfg, prev);
        let req = puts[j - 1].0;
        assert(req.key == key);
        assert(put_target(p, cfg, req, puts[j - 1].1) == plain_put_fail_count(cfg));
    } else {
        assert(puts.take(0) =~= Seq::<(ClsPut, bool)>::empty());
    }
}

/// Successive puts of one key that was never refused, with any values and
/// destructors, when no compatibility window is on: the first puts, as many
/// as the configured count of refused puts, are refused and store nothing;
/// every later put is stored, with its own value and destructor (or null
/// under the null-value switch).
pub proof fn law_put_refusals_then_stores(m: ClsModel, cfg: ClsConfig, puts: Seq<(ClsPut, bool)>, key: u64, j: int)
    requires
        !put_refused_early(cfg),
        no_compat_window(cfg),
        counter(m.failed_puts, key) == 0,
        forall|i: int| 0 <= i < puts.len() ==> (#[trigger] puts[i]).0.key == key,
        0 <= j < puts.len(),
    ensures
        j < plain_put_fail_count(cfg) ==> {
            &&& put_result(puts_after(m, cfg, puts.take(j)), cfg, puts[j].0, puts[j].1)
                == Err::<PutDone, CuError>(CuError { code: CUDA_ERROR_INVALID_HANDLE })
            &&& puts_after(m, cfg, puts.take(j + 1)).storage == m.storage
        },
        j >= plain_put_fail_count(cfg) ==> {
            &&& put_result(puts_after(m, cfg, puts.take(j)), cfg, puts[j].0, puts[j].1) is Ok
            &&& puts_after(m, cfg, puts.take(j + 1)).storage == puts_after(m, cfg, puts.take(j)).storage.insert(
                key,
                stored_entry(cfg, puts[j].0),
            )
        },
{
    lemma_puts_prefix(m, cfg, puts, key, j);
    lemma_puts_prefix(m, cfg, puts, key, j + 1);
    let cur = puts.take(j + 1);
    assert(cur.drop_last() =~= puts.take(j));
    assert(cur.last() == puts[j]);
    let p = puts_after(m, cfg, puts.take(j));
    assert(puts[j].0.key == key);
    assert(put_target(p, cfg, puts[j].0, puts[j].1) == plain_put_fail_count(cfg));
}

/// With storage disabled every operation is refused and leaves the table as
/// it was; a refused get writes null.
pub proof fn law_disabled_storage_is_inert(m: ClsModel, cfg: ClsConfig, req: ClsPut, module_matches: bool, key: u64)
    requires
        cfg.disabled,
    ensures
        put_next(m, cfg, req, module_matches) == m,
        put_result(m, cfg, req, module_matches) == Err::<PutDone, CuError>(CuError { code: CUDA_ERROR_INVALID_HANDLE }),
        get_next(m, cfg, key) == m,
        get_outcome(m, cfg, key) == (GetOutcome { written: Some(0), result: Err(CuError { code: CUDA_ERROR_INVALID_HANDLE }) }),
        delete_next(m, cfg, key) == m,
        delete_result(m, cfg, key) == Err::<Option<StorageData>, CuError>(CuError { code: CUDA_ERROR_INVALID_HANDLE }),
{
}

/// A put of one key leaves every other key's entry, counters and marks alone.
pub proof fn law_put_leaves_other_keys(m: ClsModel, cfg: ClsConfig, req: ClsPut, module_matches: bool, other: u64)
    requires
        other != req.key,
    ensures
        put_next(m, cfg, req, module_matches).storage.contains_key(other) == m.storage.contains_key(other),
        m.storage.contains_key(other) ==> put_next(m, cfg, req, module_matches).storage[other] == m.storage[other],
        counter(put_next(m, cfg, req, module_matches).misses, other) == counter(m.misses, other),
        counter(put_next(m, cfg, req, module_matches).hits, other) == counter(m.hits, other),
        counter(put_next(m, cfg, req, module_matches).failed_puts, other) == counter(m.failed_puts, other),
{
}

/// One storage operation on a context: a put (with whether its destructor
/// lies in the colour-correction library), a get, or a delete of a key.
#[derive(Clone, Copy, PartialEq, Eq, Structural, Debug)]
pub enum ClsOp {
    Put(ClsPut, bool),
    Get(u64),
    Delete(u64),
}

/// The state after one operation.
pub open spec fn op_next(m: ClsModel, cfg: ClsConfig, op: ClsOp) -> ClsModel {
    match op {
        ClsOp::Put(req, module_matches) => put_next(m, cfg, req, module_matches),
        ClsOp::Get(key) => get_next(m, cfg, key),
        ClsOp::Delete(key) => delete_next(m, cfg, key),
    }
}

/// The state after the successive operations `ops`.
pub open spec fn ops_after(m: ClsModel, cfg: ClsConfig, ops: Seq<ClsOp>) -> ClsModel
    decreases ops.len(),
{
    if ops.len() == 0 {
        m
    } else {
        op_next(ops_after(m, cfg, ops.drop_last()), cfg, ops.last())
    }
}

/// The operation writes the key: a put or a delete of it.
pub open spec fn op_writes_key(op: ClsOp, key: u64) -> bool {
    match op {
        ClsOp::Put(req, _) => req.key == key,
        ClsOp::Get(_) => false,
        ClsOp::Delete(k) => k == key,
    }
}

proof fn lemma_ops_keep_entry(m: ClsModel, cfg: ClsConfig, ops: Seq<ClsOp>, key: u64)
    requires
        forall|i: int| 0 <= i < ops.len() ==> !op_writes_key(#[trigger] ops[i], key),
    ensures
        ops_after(m, cfg, ops).storage.contains_key(key) == m.storage.contains_key(key),
        m.storage.contains_key(key) ==> ops_after(m, cfg, ops).storage[key] == m.storage[key],
    decreases ops.len(),
{
    if ops.len() > 0 {
        let prev = ops.drop_last();
        assert forall|i: int| 0 <= i < prev.len() implies !op_writes_key(#[trigger] prev[i], key) by {
            assert(prev[i] == ops[i]);
        }
        lemma_ops_keep_entry(m, cfg, prev, key);
        assert(!op_writes_key(ops[ops.len() - 1], key));
    }
}

/// A read returns the last stored write of its key: after a put of a key is
/// stored, any number of gets of any key and of puts and deletes of other keys
/// may follow, and a get of the key still succeeds and writes back the stored
/// value (the put's value, or null under the null-value switch).
pub proof fn law_get_returns_last_put(
    m: ClsModel,
    cfg: ClsConfig,
    req: ClsPut,
    module_matches: bool,
    ops: Seq<ClsOp>,
)
    requires
        !put_refused_early(cfg),
        !put_window_refuses(m, cfg, req, module_matches),
        !get_refused_early(cfg),
        cfg.get_fail_after_count is None,
        forall|i: int| 0 <= i < ops.len() ==> !op_writes_key(#[trigger] ops[i], req.key),
    ensures
        put_result(m, cfg, req, module_matches) is Ok,
        get_outcome(ops_after(put_next(m, cfg, req, module_matches), cfg, ops), cfg, req.key).written
            == Some(stored_entry(cfg, req).value),
        get_outcome(ops_after(put_next(m, cfg, req, module_matches), cfg, ops), cfg, req.key).result matches Ok(
            hit,
        ) && hit.value == stored_entry(cfg, req).value,
        counter(ops_after(put_next(m, cfg, req, module_matches), cfg, ops).hits, req.key) < u32::MAX
            ==> get_counters_fit(ops_after(put_next(m, cfg, req, module_matches), cfg, ops), cfg, req.key),
{
    let p = put_next(m, cfg, req, module_matches);
    assert(p.storage.contains_key(req.key));
    lemma_ops_keep_entry(p, cfg, ops, req.key);
}

fn counter_of(m: &HashMap<u64, u32>, key: u64) -> (r: u32)
    ensures
        r == counter(m@, key),
{
    match m.get(&key) {
        Some(v) => *v,
        None => 0,
    }
}

/// Whether the destructor lies in the colour-correction library, judged from
/// the path of the module that holds it.
fn dtor_in_color_correct_module(dtor: Option<u64>, path: Option<&str>) -> (r: bool)
    ensures
        r == in_color_correct_module(dtor, match path { Some(p) => Some(p@), None => None }),
{
    if dtor.is_none() {
        return false;
    }
    match path {
        Some(p) => {
            let chars = str_to_chars(p);
            contains_lowercased(chars.as_slice(), "sn3dcolorcorrect.dll")
        },
        None => false,
    }
}

fn put_fail_target_of(
    cfg: &ClsConfig,
    null_ctx: bool,
    has_dtor: bool,
    module_matches: bool,
    present: bool,
    misses: u32,
) -> (r: u32)
    ensures
        r == put_fail_target(*cfg, null_ctx, has_dtor, module_matches, present, misses),
{
    if cfg.compat_module_window {
        if null_ctx && module_matches && !present && misses >= 2 { 2 } else { 0 }
    } else if cfg.compat_pattern_window {
        if null_ctx && has_dtor && !present && misses >= 2 { 2 } else { 0 }
    } else if cfg.compat_put_window {
        if has_dtor && !present { 2 } else { 0 }
    } else {
        match cfg.put_fail_count {
            Some(n) => n,
            None => if cfg.first_put_fails { 1 } else { 0 },
        }
    }
}

impl ClsState {
    /// An empty table.
    pub fn new() -> (s: ClsState)
        ensures
            s@.storage == Map::<u64, StorageData>::empty(),
            s@.misses == Map::<u64, u32>::empty(),
            s@.hits == Map::<u64, u32>::empty(),
            s@.failed_puts == Map::<u64, u32>::empty(),
            s@.traced_puts == Set::<u64>::empty(),
            s@.traced_gets == Set::<u64>::empty(),
    {
        ClsState {
            storage: HashMap::new(),
            storage_get_misses: HashMap::new(),
            successful_storage_gets: HashMap::new(),
            failed_storage_puts: HashMap::new(),
            traced_storage_puts: HashSet::new(),
            traced_storage_gets: HashSet::new(),
        }
    }

    /// `context_local_storage_put` once the context is resolved: refuses when
    /// storage is disabled or puts fail, or while the key is inside its
    /// refusal window (each refusal counted); otherwise stores the entry and
    /// clears the key's get counters. `dtor_module_path` is the path of the
    /// module that holds the destructor, where it is known.
    pub fn put(&mut self, cfg: &ClsConfig, req: &ClsPut, dtor_module_path: Option<&str>) -> (r: Result<PutDone, CuError>)
        ensures
            final(self)@ == put_next(
                old(self)@,
                *cfg,
                *req,
                in_color_correct_module(req.dtor, match dtor_module_path { Some(p) => Some(p@), None => None }),
            ),
            r == put_result(
                old(self)@,
                *cfg,
                *req,
                in_color_correct_module(req.dtor, match dtor_module_path { Some(p) => Some(p@), None => None }),
            ),
    {
        if cfg.disabled || cfg.put_fails {
            return Err(cu_error(CUDA_ERROR_INVALID_HANDLE));
        }
        let key = req.key;
        let present = self.storage.contains_key(&key);
        let misses = counter_of(&self.storage_get_misses, key);
        let module_matches = dtor_in_color_correct_module(req.dtor, dtor_module_path);
        let target = put_fail_target_of(cfg, req.null_ctx, req.dtor.is_some(), module_matches, present, misses);
        let observed = counter_of(&self.failed_storage_puts, key);
        if target > 0 && observed < target {
            self.failed_storage_puts.insert(key, observed + 1);
            return Err(cu_error(CUDA_ERROR_INVALID_HANDLE));
        }
        self.failed_storage_puts.insert(key, observed);
        let stored = if cfg.null_value {
            StorageData { value: 0, reset_cb: None, handle: req.ctx }
        } else {
            StorageData { value: req.value, reset_cb: req.dtor, handle: req.ctx }
        };
        let replaced = self.storage.insert(key, stored);
        self.storage_get_misses.remove(&key);
        self.successful_storage_gets.remove(&key);
        let trace_first = if cfg.trace_success {
            self.traced_storage_puts.insert(key)
        } else {
            false
        };
        Ok(PutDone { replaced, trace_first })
    }

    /// `context_local_storage_get` once the context is resolved: refuses
    /// (writing null) when storage is disabled or gets fail; on a hit writes
    /// the value and counts the read, refusing (writing null) past the
    /// configured number of good reads; on a miss counts it, writes nothing
    /// and refuses.
    pub fn get(&mut self, cfg: &ClsConfig, key: u64) -> (r: GetOutcome)
        requires
            get_counters_fit(old(self)@, *cfg, key),
        ensures
            final(self)@ == get_next(old(self)@, *cfg, key),
            r == get_outcome(old(self)@, *cfg, key),
    {
        if cfg.disabled || cfg.get_fails {
            return GetOutcome { written: Some(0), result: Err(cu_error(CUDA_ERROR_INVALID_HANDLE)) };
        }
        match self.storage.get(&key) {
            Some(data) => {
                let value = data.value;
                self.storage_get_misses.remove(&key);
                let n = counter_of(&self.successful_storage_gets, key) + 1;
                self.successful_storage_gets.insert(key, n);
                let past_limit = match cfg.get_fail_after_count {
                    Some(k) => n > k,
                    None => false,
                };
                if past_limit {
                    return GetOutcome { written: Some(0), result: Err(cu_error(CUDA_ERROR_INVALID_HANDLE)) };
                }
                let trace_first = if cfg.trace_success {
                    self.traced_storage_gets.insert(key)
                } else {
                    false
                };
                let trace_hit = match cfg.trace_get_hit_count {
                    Some(t) => n == t,
                    None => false,
                };
                GetOutcome {
                    written: Some(value),
                    result: Ok(GetHit { value, hit_count: n, trace_first, trace_hit }),
                }
            },
            None => {
                let n = counter_of(&self.storage_get_misses, key) + 1;
                self.storage_get_misses.insert(key, n);
                GetOutcome { written: None, result: Err(cu_error(CUDA_ERROR_INVALID_HANDLE)) }
            },
        }
    }

    /// `context_local_storage_delete`: refuses when storage is disabled;
    /// otherwise forgets the key's entry, counters and trace marks (its
    /// refused-put count stays) and returns the removed entry.
    pub fn delete(&mut self, cfg: &ClsConfig, key: u64) -> (r: Result<Option<StorageData>, CuError>)
        ensures
            final(self)@ == delete_next(old(self)@, *cfg, key),
            r == delete_result(old(self)@, *cfg, key),
    {
        if cfg.disabled {
            return Err(cu_error(CUDA_ERROR_INVALID_HANDLE));
        }
        let removed = self.storage.remove(&key);
        self.storage_get_misses.remove(&key);
        self.successful_storage_gets.remove(&key);
        self.traced_storage_puts.remove(&key);
        self.traced_storage_gets.remove(&key);
        Ok(removed)
    }
}

} // verus!

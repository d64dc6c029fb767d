//! Process-wide runtime state: whether the driver is still initialized, the
//! launch sequence numbers, the debug log lines, and the legacy launch entry
//! points that the runtime answers with "not supported".
use vstd::prelude::*;
use crate::cuda::{cu_error, CuError, CUDA_ERROR_DEINITIALIZED, CUDA_ERROR_NOT_SUPPORTED};
use crate::settings::{opt_view, DebugSettings};
use crate::text::concat_str;

verus! {

/// Whether the driver may still be used; it is until the library unloads.
/// Only `deinitialize` changes it, and only to torn down, so that once torn
/// down the driver stays so.
pub struct RuntimeState {
    initialized: bool,
}

impl View for RuntimeState {
    type V = bool;

    /// Whether the driver is still initialized.
    closed spec fn view(&self) -> bool {
        self.initialized
    }
}

impl RuntimeState {
    /// The state at load: initialized.
    pub fn new() -> (s: RuntimeState)
        ensures
            s@,
    {
        RuntimeState { initialized: true }
    }
}

/// Whether the driver is still initialized.
pub fn initialized(state: &RuntimeState) -> (r: bool)
    ensures
        r == state@,
{
    state.initialized
}

/// Marks the driver as torn down; every entry point answers
/// `CUDA_ERROR_DEINITIALIZED` from then on. Tearing down twice changes
/// nothing more.
pub fn deinitialize(state: &mut RuntimeState)
    ensures
        !final(state)@,
{
    state.initialized = false;
}

/// What every implemented driver entry point answers before it looks at its
/// arguments: `CUDA_ERROR_DEINITIALIZED` once the driver is torn down.
pub open spec fn entry_gate_result(initialized: bool) -> Result<(), CuError> {
    if initialized {
        Ok(())
    } else {
        Err(CuError { code: CUDA_ERROR_DEINITIALIZED })
    }
}

/// The check every implemented driver entry point makes first.
pub fn entry_gate(state: &RuntimeState) -> (r: Result<(), CuError>)
    ensures
        r == entry_gate_result(state@),
{
    if state.initialized {
        Ok(())
    } else {
        Err(cu_error(CUDA_ERROR_DEINITIALIZED))
    }
}

/// The source of launch sequence numbers, which start at 1.
pub struct LaunchCounter {
    pub next: u64,
}

impl LaunchCounter {
    /// A fresh counter.
    pub fn new() -> (c: LaunchCounter)
        ensures
            c.next == 1,
    {
        LaunchCounter { next: 1 }
    }
}

/// The number that follows `n`, wrapping at the top of `u64`.
pub open spec fn wrapping_next(n: u64) -> u64 {
    if n == u64::MAX {
        0
    } else {
        (n + 1) as u64
    }
}

/// Hands out the next launch sequence number.
pub fn next_launch_sequence(counter: &mut LaunchCounter) -> (seq: u64)
    ensures
        seq == old(counter).next,
        final(counter).next == wrapping_next(old(counter).next),
{
    let seq = counter.next;
    counter.next = if seq == u64::MAX { 0 } else { seq + 1 };
    seq
}

/// The counter's next number after `k` launches, starting from `start`.
pub open spec fn counter_after(start: u64, k: nat) -> u64
    decreases k,
{
    if k == 0 {
        start
    } else {
        wrapping_next(counter_after(start, (k - 1) as nat))
    }
}

/// Launches are numbered consecutively: until the numbers run out, the
/// `k`-th launch after the counter stood at `start` gets `start + k`, so no
/// two of them share a number; a fresh counter numbers them 1, 2, 3, ...
pub proof fn law_launch_numbers_count_up(start: u64, k: nat, j: nat)
    requires
        start + k <= u64::MAX,
        j < k,
    ensures
        counter_after(start, k) == start + k,
        counter_after(start, j) != counter_after(start, k),
{
    lemma_counter_after(start, k);
    lemma_counter_after(start, j);
}

proof fn lemma_counter_after(start: u64, k: nat)
    requires
        start + k <= u64::MAX,
    ensures
        counter_after(start, k) == start + k,
    decreases k,
{
    if k > 0 {
        lemma_counter_after(start, (k - 1) as nat);
    }
}

/// The line a log channel emits for `message`, when the channel is on.
pub open spec fn channel_line(enabled: bool, prefix: Seq<char>, message: Seq<char>) -> Option<Seq<char>> {
    if enabled {
        Some(prefix + message)
    } else {
        None
    }
}

/// The launch-trace line for `message`, if launch tracing is on.
pub fn log_launch(settings: &DebugSettings, message: &str) -> (line: Option<String>)
    ensures
        opt_view(line) == channel_line(settings.launch, "[ZLUDA_LAUNCH] "@, message@),
{
    if settings.launch {
        Some(concat_str("[ZLUDA_LAUNCH] ", message))
    } else {
        None
    }
}

/// The synchronisation-trace line for `message`, if that tracing is on.
pub fn log_sync(settings: &DebugSettings, message: &str) -> (line: Option<String>)
    ensures
        opt_view(line) == channel_line(settings.sync, "[ZLUDA_SYNC] "@, message@),
{
    if settings.sync {
        Some(concat_str("[ZLUDA_SYNC] ", message))
    } else {
        None
    }
}

/// The stream and memory trace line for `message`, if that tracing is on.
pub fn log_stream_memory(settings: &DebugSettings, message: &str) -> (line: Option<String>)
    ensures
        opt_view(line) == channel_line(settings.stream_memory, "[ZLUDA_STREAM_MEMORY] "@, message@),
{
    if settings.stream_memory {
        Some(concat_str("[ZLUDA_STREAM_MEMORY] ", message))
    } else {
        None
    }
}

/// Whether the synchronise-after-launch mode has been announced.
pub struct AnnounceLatch {
    pub announced: bool,
}

impl AnnounceLatch {
    /// Nothing announced yet.
    pub fn new() -> (l: AnnounceLatch)
        ensures
            !l.announced,
    {
        AnnounceLatch { announced: false }
    }
}

/// The announcement of the synchronise-after-launch mode: emitted once per
/// process, the first time it is asked for while the mode is on.
pub fn announce_sync_after_launch(settings: &DebugSettings, latch: &mut AnnounceLatch) -> (line: Option<String>)
    ensures
        opt_view(line) == (if settings.sync_after_launch && !old(latch).announced {
            Some("[ZLUDA_LAUNCH] mode=sync_after_launch enabled=1"@)
        } else {
            None::<Seq<char>>
        }),
        final(latch).announced == (old(latch).announced || settings.sync_after_launch),
{
    if !settings.sync_after_launch || latch.announced {
        return None;
    }
    latch.announced = true;
    Some("[ZLUDA_LAUNCH] mode=sync_after_launch enabled=1".to_owned())
}

/// A kernel as the runtime knows it: its HIP handle, its name, and the SM
/// version it was compiled for.
pub struct KernelFunction {
    pub base: u64,
    pub name: String,
    pub sm_version: u32,
}

/// What a legacy launch entry point answers: `CUDA_ERROR_DEINITIALIZED` once
/// the driver is torn down, the handle conversion's error if a handle is
/// invalid, and `CUDA_ERROR_NOT_SUPPORTED` otherwise.
pub open spec fn legacy_result(initialized: bool, conversion: Result<(), CuError>) -> Result<(), CuError> {
    if !initialized {
        Err(CuError { code: CUDA_ERROR_DEINITIALIZED })
    } else {
        match conversion {
            Err(e) => Err(e),
            Ok(_) => Err(CuError { code: CUDA_ERROR_NOT_SUPPORTED }),
        }
    }
}

/// A legacy call consumes a sequence number exactly when it gets as far as
/// answering "not supported".
pub open spec fn legacy_counter_after(initialized: bool, conversion: Result<(), CuError>, next: u64) -> u64 {
    if initialized && conversion is Ok {
        wrapping_next(next)
    } else {
        next
    }
}

/// Tearing down is final. Nothing but `deinitialize` changes the state, and
/// it only tears down, so every state after it is torn down; from such a
/// state every implemented entry point answers `CUDA_ERROR_DEINITIALIZED`
/// before looking at its arguments, and every legacy entry point answers
/// the same whatever its handles are, without taking a sequence number.
pub proof fn law_deinitialized_is_final(torn_down: RuntimeState, conversion: Result<(), CuError>, next: u64)
    requires
        !torn_down@,
    ensures
        entry_gate_result(torn_down@) == Err::<(), CuError>(CuError { code: CUDA_ERROR_DEINITIALIZED }),
        legacy_result(torn_down@, conversion) == Err::<(), CuError>(CuError { code: CUDA_ERROR_DEINITIALIZED }),
        legacy_counter_after(torn_down@, conversion, next) == next,
{
}

/// A call that reads or changes whether the driver is initialized.
#[derive(Clone, Copy, PartialEq, Eq, Structural, Debug)]
pub enum RuntimeCall {
    /// `initialized`.
    Query,
    /// `deinitialize`.
    Deinitialize,
}

/// Whether the driver is initialized after the calls `calls`, from `start`.
pub open spec fn initialized_after(start: bool, calls: Seq<RuntimeCall>) -> bool
    decreases calls.len(),
{
    if calls.len() == 0 {
        start
    } else {
        match calls.last() {
            RuntimeCall::Query => initialized_after(start, calls.drop_last()),
            RuntimeCall::Deinitialize => false,
        }
    }
}

proof fn lemma_initialized_until_torn_down(calls: Seq<RuntimeCall>, k: int)
    requires
        0 <= k <= calls.len(),
    ensures
        initialized_after(true, calls.take(k)) == (forall|j: int| 0 <= j < k ==> calls[j] is Query),
    decreases k,
{
    if k > 0 {
        lemma_initialized_until_torn_down(calls, k - 1);
        assert(calls.take(k).drop_last() =~= calls.take(k - 1));
        assert(calls.take(k).last() == calls[k - 1]);
    }
}

/// Over any interleaving of `initialized` and `deinitialize` from the state
/// at load, each `initialized` answers true exactly when no `deinitialize`
/// came before it: once torn down, the driver never reads as initialized
/// again.
pub proof fn law_initialized_until_deinitialize(calls: Seq<RuntimeCall>, k: int)
    requires
        0 <= k < calls.len(),
        calls[k] is Query,
    ensures
        initialized_after(true, calls.take(k)) == !(exists|j: int| 0 <= j < k && calls[j] is Deinitialize),
        (exists|j: int| 0 <= j < k && calls[j] is Deinitialize) ==> forall|i: int|
            k <= i <= calls.len() ==> !initialized_after(true, #[trigger] calls.take(i)),
{
    lemma_initialized_until_torn_down(calls, k);
    if exists|j: int| 0 <= j < k && calls[j] is Deinitialize {
        let j = choose|j: int| 0 <= j < k && calls[j] is Deinitialize;
        assert forall|i: int| k <= i <= calls.len() implies !initialized_after(true, #[trigger] calls.take(i)) by {
            lemma_initialized_until_torn_down(calls, i);
            assert(!(calls[j] is Query));
        }
    }
}

/// Whether the announcement latch is set after `k` announcement requests in
/// one process, the mode being on or off throughout.
pub open spec fn announced_after(enabled: bool, k: nat) -> bool
    decreases k,
{
    if k == 0 {
        false
    } else {
        announced_after(enabled, (k - 1) as nat) || enabled
    }
}

proof fn lemma_announced_after(enabled: bool, k: nat)
    ensures
        announced_after(enabled, k) == (enabled && k > 0),
    decreases k,
{
    if k > 0 {
        lemma_announced_after(enabled, (k - 1) as nat);
    }
}

/// The line of the `k`-th announcement request (counting from 0).
pub open spec fn announcement_line(enabled: bool, k: nat) -> Option<Seq<char>> {
    if enabled && !announced_after(enabled, k) {
        Some("[ZLUDA_LAUNCH] mode=sync_after_launch enabled=1"@)
    } else {
        None
    }
}

/// Over any sequence of announcement requests in one process: with the
/// synchronise-after-launch mode on, the first request writes the line and
/// every later one writes nothing; with it off, none writes anything.
pub proof fn law_sync_announced_once(enabled: bool, k: nat)
    ensures
        announcement_line(enabled, k) == (if enabled && k == 0 {
            Some("[ZLUDA_LAUNCH] mode=sync_after_launch enabled=1"@)
        } else {
            None::<Seq<char>>
        }),
{
    lemma_announced_after(enabled, k);
}

/// The part of a handle conversion that the legacy entry points look at.
pub open spec fn conversion_of<T>(r: Result<T, CuError>) -> Result<(), CuError> {
    match r {
        Ok(_) => Ok(()),
        Err(e) => Err(e),
    }
}

fn legacy_call(runtime: &RuntimeState, counter: &mut LaunchCounter, conversion: Result<(), CuError>) -> (r: Result<(), CuError>)
    ensures
        r == legacy_result(runtime@, conversion),
        final(counter).next == legacy_counter_after(runtime@, conversion, old(counter).next),
{
    if !runtime.initialized {
        return Err(cu_error(CUDA_ERROR_DEINITIALIZED));
    }
    match conversion {
        Err(e) => Err(e),
        Ok(()) => {
            let _seq = next_launch_sequence(counter);
            Err(cu_error(CUDA_ERROR_NOT_SUPPORTED))
        },
    }
}

fn conversion_status(f: &Result<&KernelFunction, CuError>) -> (r: Result<(), CuError>)
    ensures
        r == conversion_of(*f),
{
    match f {
        Ok(_) => Ok(()),
        Err(e) => Err(*e),
    }
}

/// `cuFuncSetBlockShape`: not supported.
#[allow(non_snake_case)]
pub fn cuFuncSetBlockShape(
    runtime: &RuntimeState,
    counter: &mut LaunchCounter,
    hfunc: Result<&KernelFunction, CuError>,
    x: i32,
    y: i32,
    z: i32,
) -> (r: Result<(), CuError>)
    ensures
        r == legacy_result(runtime@, conversion_of(hfunc)),
        final(counter).next == legacy_counter_after(runtime@, conversion_of(hfunc), old(counter).next),
{
    let conversion = conversion_status(&hfunc);
    legacy_call(runtime, counter, conversion)
}

/// `cuFuncSetSharedSize`: not supported.
#[allow(non_snake_case)]
pub fn cuFuncSetSharedSize(
    runtime: &RuntimeState,
    counter: &mut LaunchCounter,
    hfunc: Result<&KernelFunction, CuError>,
    bytes: u32,
) -> (r: Result<(), CuError>)
    ensures
        r == legacy_result(runtime@, conversion_of(hfunc)),
        final(counter).next == legacy_counter_after(runtime@, conversion_of(hfunc), old(counter).next),
{
    let conversion = conversion_status(&hfunc);
    legacy_call(runtime, counter, conversion)
}

/// `cuParamSetSize`: not supported.
#[allow(non_snake_case)]
pub fn cuParamSetSize(
    runtime: &RuntimeState,
    counter: &mut LaunchCounter,
    hfunc: Result<&KernelFunction, CuError>,
    numbytes: u32,
) -> (r: Result<(), CuError>)
    ensures
        r == legacy_result(runtime@, conversion_of(hfunc)),
        final(counter).next == legacy_counter_after(runtime@, conversion_of(hfunc), old(counter).next),
{
    let conversion = conversion_status(&hfunc);
    legacy_call(runtime, counter, conversion)
}

/// `cuParamSeti`: not supported.
#[allow(non_snake_case)]
pub fn cuParamSeti(
    runtime: &RuntimeState,
    counter: &mut LaunchCounter,
    hfunc: Result<&KernelFunction, CuError>,
    offset: i32,
    value: u32,
) -> (r: Result<(), CuError>)
    ensures
        r == legacy_result(runtime@, conversion_of(hfunc)),
        final(counter).next == legacy_counter_after(runtime@, conversion_of(hfunc), old(counter).next),
{
    let conversion = conversion_status(&hfunc);
    legacy_call(runtime, counter, conversion)
}

/// `cuParamSetf`: not supported. The value is taken by its bit pattern.
#[allow(non_snake_case)]
pub fn cuParamSetf(
    runtime: &RuntimeState,
    counter: &mut LaunchCounter,
    hfunc: Result<&KernelFunction, CuError>,
    offset: i32,
    value_bits: u32,
) -> (r: Result<(), CuError>)
    ensures
        r == legacy_result(runtime@, conversion_of(hfunc)),
        final(counter).next == legacy_counter_after(runtime@, conversion_of(hfunc), old(counter).next),
{
    let conversion = conversion_status(&hfunc);
    legacy_call(runtime, counter, conversion)
}

/// `cuParamSetv`: not supported. The buffer is taken by its address.
#[allow(non_snake_case)]
pub fn cuParamSetv(
    runtime: &RuntimeState,
    counter: &mut LaunchCounter,
    hfunc: Result<&KernelFunction, CuError>,
    offset: i32,
    ptr: u64,
    numbytes: u32,
) -> (r: Result<(), CuError>)
    ensures
        r == legacy_result(runtime@, conversion_of(hfunc)),
        final(counter).next == legacy_counter_after(runtime@, conversion_of(hfunc), old(counter).next),
{
    let conversion = conversion_status(&hfunc);
    legacy_call(runtime, counter, conversion)
}

/// `cuLaunch`: not supported.
#[allow(non_snake_case)]
pub fn cuLaunch(
    runtime: &RuntimeState,
    counter: &mut LaunchCounter,
    f: Result<&KernelFunction, CuError>,
) -> (r: Result<(), CuError>)
    ensures
        r == legacy_result(runtime@, conversion_of(f)),
        final(counter).next == legacy_counter_after(runtime@, conversion_of(f), old(counter).next),
{
    let conversion = conversion_status(&f);
    legacy_call(runtime, counter, conversion)
}

/// `cuLaunchGrid`: not supported.
#[allow(non_snake_case)]
pub fn cuLaunchGrid(
    runtime: &RuntimeState,
    counter: &mut LaunchCounter,
    f: Result<&KernelFunction, CuError>,
    grid_width: i32,
    grid_height: i32,
) -> (r: Result<(), CuError>)
    ensures
        r == legacy_result(runtime@, conversion_of(f)),
        final(counter).next == legacy_counter_after(runtime@, conversion_of(f), old(counter).next),
{
    let conversion = conversion_status(&f);
    legacy_call(runtime, counter, conversion)
}

/// The stream handle is converted after the function handle, so a bad
/// function handle is reported first.
pub open spec fn both_conversions(f: Result<(), CuError>, stream: Result<(), CuError>) -> Result<(), CuError> {
    match f {
        Err(e) => Err(e),
        Ok(_) => stream,
    }
}

/// `cuLaunchGridAsync`: not supported.
#[allow(non_snake_case)]
pub fn cuLaunchGridAsync(
    runtime: &RuntimeState,
    counter: &mut LaunchCounter,
    f: Result<&KernelFunction, CuError>,
    grid_width: i32,
    grid_height: i32,
    h_stream: Result<u64, CuError>,
) -> (r: Result<(), CuError>)
    ensures
        r == legacy_result(runtime@, both_conversions(conversion_of(f), conversion_of(h_stream))),
        final(counter).next == legacy_counter_after(
            runtime@,
            both_conversions(conversion_of(f), conversion_of(h_stream)),
            old(counter).next,
        ),
{
    let conversion = match conversion_status(&f) {
        Err(e) => Err(e),
        Ok(()) => match h_stream {
            Ok(_) => Ok(()),
            Err(e) => Err(e),
        },
    };
    legacy_call(runtime, counter, conversion)
}

} // verus!

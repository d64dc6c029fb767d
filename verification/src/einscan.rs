//! Starting EXStar's EinScan network service on the runtime's behalf: when a
//! published or delivered message asks for it, at most once per process, and
//! with the command line the process manager would use.
use vstd::prelude::*;
use crate::exstar::{exe_is, strings_view, ExstarSettings, ProcessInfo};
use crate::text::{
    chars_contains, chars_eq_ci, chars_split, chars_trim, contains_seq, decimal, decimal_string, eq_ci, split_seq,
    str_eq_ci, str_to_chars, trim,
};

verus! {

/// The `ERROR_ALREADY_EXISTS` code of `CreateMutexW`.
pub const ERROR_ALREADY_EXISTS: u32 = 183;

/// What to do about a published message.
#[derive(Clone, Copy, PartialEq, Eq, Debug)]
pub enum PublishDecision {
    /// The message does not concern the service, or this process does not act on it.
    Ignore,
    /// The message concerns the service but is not the launch request; the reason is traced.
    Skip(&'static str),
    /// Start the service, after the delay, tracing whether the publish
    /// fallback was what allowed it.
    Launch { using_publish_fallback: bool, delay_ms: u64 },
}

/// The non-empty trimmed `|`-separated parts of a payload.
pub open spec fn payload_segments(payload: Seq<char>) -> Seq<Seq<char>>
    decreases split_seq(payload, '|').len(),
{
    segments_of(split_seq(payload, '|'))
}

/// The non-empty trimmed pieces, in order.
pub open spec fn segments_of(p: Seq<Seq<char>>) -> Seq<Seq<char>>
    decreases p.len(),
{
    if p.len() == 0 {
        Seq::empty()
    } else if trim(p.last()).len() > 0 {
        segments_of(p.drop_last()).push(trim(p.last()))
    } else {
        segments_of(p.drop_last())
    }
}

/// Some segment is `word`, ignoring ASCII case.
pub open spec fn has_segment(segs: Seq<Seq<char>>, word: Seq<char>) -> bool {
    exists|i: int| 0 <= i < segs.len() && eq_ci(#[trigger] segs[i], word)
}

/// The exact launch request: `informationCollect.exe|einscan_net_svr|xml`.
pub open spec fn is_launch_request(segs: Seq<Seq<char>>) -> bool {
    segs.len() == 3 && eq_ci(segs[0], "informationCollect.exe"@) && eq_ci(segs[1], "einscan_net_svr"@) && eq_ci(
        segs[2],
        "xml"@,
    )
}

/// Why a message that mentions the service does not start it.
pub open spec fn skip_reason(segs: Seq<Seq<char>>, fallback: bool) -> Option<Seq<char>> {
    if is_launch_request(segs) || fallback {
        None
    } else if segs.len() == 1 && eq_ci(segs[0], "einscan_net_svr"@) {
        Some("bare-publish-observational"@)
    } else if has_segment(segs, "channel"@) {
        Some("channel-observational"@)
    } else if has_segment(segs, "app8"@) {
        Some("app8-observational"@)
    } else {
        Some("payload-mismatch"@)
    }
}

/// The published message is none of this process's business.
pub open spec fn publish_ignored(s: ExstarSettings, p: ProcessInfo, payload: Seq<char>) -> bool {
    !s.einscan_net_svr_compat || !contains_seq(payload, "einscan_net_svr"@) || p.exe_name is None || exe_is(
        p,
        "einscan_net_svr.exe"@,
    ) || !exe_is(p, "informationCollect.exe"@)
}

/// The decision on a published message that concerns this process.
pub open spec fn publish_decision_ok(s: ExstarSettings, payload: Seq<char>, d: PublishDecision) -> bool {
    let segs = payload_segments(payload);
    match d {
        PublishDecision::Ignore => false,
        PublishDecision::Skip(reason) => skip_reason(segs, s.publish_fallback) == Some(reason@),
        PublishDecision::Launch { using_publish_fallback, delay_ms } => {
            &&& skip_reason(segs, s.publish_fallback) is None
            &&& using_publish_fallback == (s.publish_fallback && !is_launch_request(segs))
            &&& delay_ms == (if using_publish_fallback { s.publish_fallback_delay_ms } else { 0 })
        },
    }
}

fn segments(payload: &str) -> (r: Vec<Vec<char>>)
    ensures
        r@.len() == payload_segments(payload@).len(),
        forall|i: int| 0 <= i < r@.len() ==> #[trigger] r@[i]@ == payload_segments(payload@)[i],
{
    let chars = str_to_chars(payload);
    let parts = chars_split(chars.as_slice(), '|');
    let ghost sp = split_seq(payload@, '|');
    let mut r: Vec<Vec<char>> = Vec::new();
    let mut i: usize = 0;
    proof {
        assert(sp.subrange(0, 0) =~= Seq::<Seq<char>>::empty());
    }
    while i < parts.len()
        invariant
            parts@.len() == sp.len(),
            forall|k: int| 0 <= k < parts@.len() ==> #[trigger] parts@[k]@ == sp[k],
            i <= parts@.len(),
            r@.len() == segments_of(sp.subrange(0, i as int)).len(),
            forall|k: int| 0 <= k < r@.len() ==> #[trigger] r@[k]@ == segments_of(sp.subrange(0, i as int))[k],
        decreases parts.len() - i,
    {
        let t = chars_trim(parts[i].as_slice());
        proof {
            assert(sp.subrange(0, i + 1).drop_last() =~= sp.subrange(0, i as int));
            assert(sp.subrange(0, i + 1).last() == parts@[i as int]@);
        }
        if t.len() > 0 {
            r.push(t);
        }
        i = i + 1;
    }
    proof {
        assert(sp.subrange(0, sp.len() as int) =~= sp);
    }
    r
}

proof fn lemma_has_segment_pointwise(segs: Seq<Vec<char>>, gs: Seq<Seq<char>>, word: Seq<char>)
    requires
        segs.len() == gs.len(),
        forall|i: int| 0 <= i < segs.len() ==> #[trigger] segs[i]@ == gs[i],
    ensures
        has_segment(gs, word) == exists|i: int| 0 <= i < segs.len() && eq_ci(#[trigger] segs[i]@, word),
{
    if has_segment(gs, word) {
        let i = choose|i: int| 0 <= i < gs.len() && eq_ci(#[trigger] gs[i], word);
        assert(segs[i]@ == gs[i]);
    }
    if exists|i: int| 0 <= i < segs.len() && eq_ci(#[trigger] segs[i]@, word) {
        let i = choose|i: int| 0 <= i < segs.len() && eq_ci(#[trigger] segs[i]@, word);
        assert(segs[i]@ == gs[i]);
    }
}

fn seg_is(seg: &Vec<char>, word: &str) -> (r: bool)
    ensures
        r == eq_ci(seg@, word@),
{
    let w = str_to_chars(word);
    chars_eq_ci(seg.as_slice(), w.as_slice())
}

fn any_segment(segs: &Vec<Vec<char>>, word: &str) -> (r: bool)
    ensures
        r == exists|i: int| 0 <= i < segs@.len() && eq_ci(#[trigger] segs@[i]@, word@),
{
    let mut i: usize = 0;
    while i < segs.len()
        invariant
            i <= segs@.len(),
            forall|k: int| 0 <= k < i ==> !eq_ci(#[trigger] segs@[k]@, word@),
        decreases segs.len() - i,
    {
        if seg_is(&segs[i], word) {
            return true;
        }
        i = i + 1;
    }
    false
}

/// Whether a published message makes this process start the EinScan
/// network service: only informationCollect.exe acts, only on messages that
/// mention the service, and only on the exact launch request unless the
/// publish fallback is on.
pub fn maybe_launch_einscan_net_svr_publish(s: &ExstarSettings, p: &ProcessInfo, payload_strings: &str) -> (r: PublishDecision)
    ensures
        publish_ignored(*s, *p, payload_strings@) ==> r == PublishDecision::Ignore,
        !publish_ignored(*s, *p, payload_strings@) ==> publish_decision_ok(*s, payload_strings@, r),
{
    let chars = str_to_chars(payload_strings);
    let needle = str_to_chars("einscan_net_svr");
    if !s.einscan_net_svr_compat || !chars_contains(chars.as_slice(), needle.as_slice()) {
        return PublishDecision::Ignore;
    }
    let name = match &p.exe_name {
        Some(n) => n.as_str(),
        None => return PublishDecision::Ignore,
    };
    if str_eq_ci(name, "einscan_net_svr.exe") || !str_eq_ci(name, "informationCollect.exe") {
        return PublishDecision::Ignore;
    }
    let segs = segments(payload_strings);
    let ghost gs = payload_segments(payload_strings@);
    let exact = segs.len() == 3 && seg_is(&segs[0], "informationCollect.exe") && seg_is(&segs[1], "einscan_net_svr")
        && seg_is(&segs[2], "xml");
    assert(exact == is_launch_request(gs));
    let reason: Option<&'static str> = if exact || s.publish_fallback {
        None
    } else if segs.len() == 1 && seg_is(&segs[0], "einscan_net_svr") {
        Some("bare-publish-observational")
    } else if any_segment(&segs, "channel") {
        Some("channel-observational")
    } else if any_segment(&segs, "app8") {
        Some("app8-observational")
    } else {
        Some("payload-mismatch")
    };
    proof {
        lemma_has_segment_pointwise(segs@, gs, "channel"@);
        lemma_has_segment_pointwise(segs@, gs, "app8"@);
        assert(match reason { Some(r) => Some(r@), None => None } == skip_reason(gs, s.publish_fallback));
    }
    match reason {
        Some(r) => PublishDecision::Skip(r),
        None => {
            let using = s.publish_fallback && !exact;
            PublishDecision::Launch { using_publish_fallback: using, delay_ms: if using { s.publish_fallback_delay_ms } else { 0 } }
        },
    }
}

/// Whether a message delivered to the process manager makes it start the
/// EinScan network service: the message must be `app5` on
/// `Sn3dProcessMgTopic`.
pub fn maybe_launch_einscan_net_svr_delivery(s: &ExstarSettings, p: &ProcessInfo, arg1_text: &str, arg2_text: &str) -> (r: bool)
    ensures
        r == (s.einscan_net_svr_compat && p.exe_name is Some && !exe_is(*p, "einscan_net_svr.exe"@) && exe_is(
            *p,
            "Sn3DprocessManager.exe"@,
        ) && eq_ci(arg1_text@, "app5"@) && eq_ci(arg2_text@, "Sn3dProcessMgTopic"@)),
{
    if !s.einscan_net_svr_compat {
        return false;
    }
    let name = match &p.exe_name {
        Some(n) => n.as_str(),
        None => return false,
    };
    if str_eq_ci(name, "einscan_net_svr.exe") || !str_eq_ci(name, "Sn3DprocessManager.exe") {
        return false;
    }
    str_eq_ci(arg1_text, "app5") && str_eq_ci(arg2_text, "Sn3dProcessMgTopic")
}

/// The launch latch: a named mutex that makes the service start once per
/// session. Creating it fails with the system error, or with
/// `ERROR_ALREADY_EXISTS` when another process holds it.
pub fn acquire_einscan_launch_latch(already_held: bool, mutex_created: bool, last_error: u32) -> (r: Result<(), u32>)
    ensures
        already_held ==> r is Ok,
        !already_held && !mutex_created ==> r == Err::<(), u32>(last_error),
        !already_held && mutex_created ==> r == (if last_error == ERROR_ALREADY_EXISTS {
            Err::<(), u32>(ERROR_ALREADY_EXISTS)
        } else {
            Ok::<(), u32>(())
        }),
{
    if already_held {
        return Ok(());
    }
    if !mutex_created {
        return Err(last_error);
    }
    if last_error == ERROR_ALREADY_EXISTS {
        return Err(ERROR_ALREADY_EXISTS);
    }
    Ok(())
}

/// Whether this process has started, or is starting, the service.
pub struct EinscanLaunchState {
    pub launched: bool,
}

/// How an attempt to start the service ended.
#[derive(Clone, Copy, PartialEq, Eq, Structural, Debug)]
pub enum SpawnOutcome {
    /// Another process holds the launch latch.
    LatchExists,
    /// The launch latch could not be created.
    LatchFailed,
    /// The executable's directory is unknown.
    NoParentDir,
    /// The service executable is not next to this one.
    TargetMissing,
    /// The service was started.
    Spawned,
    /// Starting the service failed.
    SpawnFailed,
}

impl EinscanLaunchState {
    /// Nothing started yet.
    pub fn new() -> (s: EinscanLaunchState)
        ensures
            !s.launched,
    {
        EinscanLaunchState { launched: false }
    }

    /// Claims the launch: only the first claim succeeds.
    pub fn begin_spawn(&mut self) -> (claimed: bool)
        ensures
            claimed == !old(self).launched,
            final(self).launched,
    {
        if self.launched {
            return false;
        }
        self.launched = true;
        true
    }

    /// Records how a claimed launch ended: a later attempt may retry unless
    /// the service started or another process holds the latch.
    pub fn finish_spawn(&mut self, outcome: SpawnOutcome)
        ensures
            final(self).launched == (outcome == SpawnOutcome::Spawned || outcome == SpawnOutcome::LatchExists),
    {
        self.launched = match outcome {
            SpawnOutcome::Spawned | SpawnOutcome::LatchExists => true,
            _ => false,
        };
    }
}

/// The command-line arguments of the service, as the process manager passes
/// them: the owner's process id, then the fixed launch parameters.
pub open spec fn spawn_arguments_spec(owner_pid: u32) -> Seq<Seq<char>> {
    seq![
        decimal(owner_pid as nat),
        "@#$"@,
        "einscan_net_svr.exe"@,
        ""@,
        "./"@,
        "-1"@,
        ""@,
        "0"@,
        "0"@,
        "0"@,
        "1"@,
        "0"@,
        "@#$"@,
    ]
}

/// The service's command-line arguments for the given owner.
pub fn einscan_spawn_arguments(owner_pid: u32) -> (r: Vec<String>)
    ensures
        strings_view(r@) == spawn_arguments_spec(owner_pid),
{
    let mut r: Vec<String> = Vec::new();
    r.push(decimal_string(owner_pid as u64));
    r.push("@#$".to_owned());
    r.push("einscan_net_svr.exe".to_owned());
    r.push("".to_owned());
    r.push("./".to_owned());
    r.push("-1".to_owned());
    r.push("".to_owned());
    r.push("0".to_owned());
    r.push("0".to_owned());
    r.push("0".to_owned());
    r.push("1".to_owned());
    r.push("0".to_owned());
    r.push("@#$".to_owned());
    assert(strings_view(r@) =~= spawn_arguments_spec(owner_pid));
    r
}

} // verus!

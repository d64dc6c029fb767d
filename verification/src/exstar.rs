//! The EXStar compatibility switches of the redirect layer and the decisions
//! that depend only on them and on which process the layer is loaded into:
//! its executable name and its command line.
use vstd::prelude::*;
use crate::settings::{env_lookup, env_value, flag_value, opt_view, env_flag};
use crate::text::{
    chars_split, chars_trim, eq_ci, parse_u64, parse_unsigned, split_seq, str_eq_ci,
    str_to_chars, trim, chars_eq_ci,
};

verus! {

/// How long the startup compatibility of the Hub lasts by default.
pub const HUB_STARTUP_COMPAT_DEFAULT_MS: u64 = 45000;

/// The name of the host trace file of process `pid` when no path is
/// configured: `zluda-exstar-host-<pid>.log`, kept in the temporary
/// directory's `zluda` folder.
pub fn host_trace_file_name(pid: u32) -> (r: String)
    ensures
        r@ == "zluda-exstar-host-"@ + crate::text::decimal(pid as nat) + ".log"@,
{
    let digits = crate::text::decimal_string(pid as u64);
    let head = crate::text::concat_str("zluda-exstar-host-", digits.as_str());
    crate::text::concat_str(head.as_str(), ".log")
}

/// The views of a list of strings.
pub open spec fn strings_view(v: Seq<String>) -> Seq<Seq<char>> {
    v.map_values(|s: String| s@)
}

/// A duration in milliseconds: the trimmed value read as a `u64`, or the
/// default when it is unset or unreadable.
pub open spec fn millis_value(v: Option<Seq<char>>, default: u64) -> u64 {
    match v {
        None => default,
        Some(s) => match parse_unsigned(trim(s), u64::MAX as nat) {
            Some(n) => n as u64,
            None => default,
        },
    }
}

/// The separators of the skip-kill target list.
pub open spec fn is_target_separator(c: char) -> bool {
    c == ',' || c == ';' || c == '|'
}

/// The pieces of a text between target separators.
pub open spec fn target_pieces(s: Seq<char>) -> Seq<Seq<char>>
    decreases s.len(),
{
    if s.len() == 0 {
        seq![Seq::<char>::empty()]
    } else {
        let init = target_pieces(s.drop_last());
        if is_target_separator(s.last()) {
            init.push(Seq::<char>::empty())
        } else {
            init.update(init.len() - 1, init.last().push(s.last()))
        }
    }
}

/// The trimmed pieces that are not empty, in order.
pub open spec fn kept_pieces(p: Seq<Seq<char>>) -> Seq<Seq<char>>
    decreases p.len(),
{
    if p.len() == 0 {
        Seq::empty()
    } else if trim(p.last()).len() > 0 {
        kept_pieces(p.drop_last()).push(trim(p.last()))
    } else {
        kept_pieces(p.drop_last())
    }
}

/// The skip-kill target list of a variable value.
pub open spec fn targets_value(v: Option<Seq<char>>) -> Seq<Seq<char>> {
    match v {
        None => Seq::empty(),
        Some(s) => kept_pieces(target_pieces(s)),
    }
}

/// The decoded EXStar switches.
pub struct ExstarSettings {
    pub host_trace: bool,
    pub light_trace: bool,
    pub appui_trace: bool,
    pub exe_trace: bool,
    pub einscan_net_svr_compat: bool,
    pub publish_fallback: bool,
    pub publish_fallback_delay_ms: u64,
    pub hub_exit_delay_ms: u64,
    pub hub_startup_compat_timeout_ms: u64,
    pub skip_second_sweep: bool,
    pub preserve_hub_and_scanhub: bool,
    pub force_main_window_visible: bool,
    pub skip_qttunnel_connect_hook: bool,
    pub skip_kill_targets: Vec<String>,
}

proof fn lemma_target_pieces_len(s: Seq<char>)
    ensures
        target_pieces(s).len() >= 1,
    decreases s.len(),
{
    if s.len() > 0 {
        lemma_target_pieces_len(s.drop_last());
    }
}

/// Decodes a duration in milliseconds.
pub fn env_millis(value: Option<&str>, default: u64) -> (r: u64)
    ensures
        r == millis_value(match value { Some(s) => Some(s@), None => None }, default),
{
    match value {
        None => default,
        Some(s) => {
            let chars = str_to_chars(s);
            let trimmed = chars_trim(chars.as_slice());
            match parse_u64(trimmed.as_slice()) {
                Some(n) => n,
                None => default,
            }
        },
    }
}

/// Decodes the skip-kill target list: the value split at `,`, `;` and `|`,
/// each piece trimmed, empty pieces dropped.
pub fn env_targets(value: Option<&str>) -> (r: Vec<String>)
    ensures
        strings_view(r@) == targets_value(match value { Some(s) => Some(s@), None => None }),
{
    let s = match value {
        None => {
            let r: Vec<String> = Vec::new();
            assert(strings_view(r@) =~= Seq::<Seq<char>>::empty());
            return r;
        },
        Some(s) => s,
    };
    let chars = str_to_chars(s);
    let mut r: Vec<String> = Vec::new();
    let mut cur: Vec<char> = Vec::new();
    let mut i: usize = 0;
    proof {
        assert(chars@.subrange(0, 0) =~= Seq::<char>::empty());
        assert(strings_view(r@) =~= Seq::<Seq<char>>::empty());
    }
    while i < chars.len()
        invariant
            i <= chars@.len(),
            strings_view(r@) == kept_pieces(target_pieces(chars@.subrange(0, i as int)).drop_last()),
            cur@ == target_pieces(chars@.subrange(0, i as int)).last(),
        decreases chars.len() - i,
    {
        let ghost prev = chars@.subrange(0, i as int);
        let ghost next = chars@.subrange(0, i + 1);
        proof {
            assert(next.drop_last() =~= prev);
            assert(next.last() == chars@[i as int]);
            lemma_target_pieces_len(prev);
        }
        let c = chars[i];
        if c == ',' || c == ';' || c == '|' {
            let piece = chars_trim(cur.as_slice());
            proof {
                let p = target_pieces(prev);
                assert(target_pieces(next).drop_last() =~= p);
                assert(p =~= p.drop_last().push(p.last()));
            }
            if piece.len() > 0 {
                let text = crate::text::chars_to_string(piece.as_slice());
                r.push(text);
            }
            proof {
                let p = target_pieces(prev);
                assert(strings_view(r@) =~= kept_pieces(p));
            }
            cur = Vec::new();
            assert(cur@ =~= Seq::<char>::empty());
        } else {
            cur.push(c);
            proof {
                let p = target_pieces(prev);
                assert(target_pieces(next).drop_last() =~= p.drop_last());
            }
        }
        i = i + 1;
    }
    proof {
        assert(chars@.subrange(0, chars@.len() as int) =~= chars@);
        lemma_target_pieces_len(chars@);
        let p = target_pieces(chars@);
        assert(p =~= p.drop_last().push(p.last()));
    }
    let piece = chars_trim(cur.as_slice());
    if piece.len() > 0 {
        let text = crate::text::chars_to_string(piece.as_slice());
        r.push(text);
    }
    proof {
        let p = target_pieces(chars@);
        assert(strings_view(r@) =~= kept_pieces(p));
    }
    r
}

fn opt_as_str(o: &Option<String>) -> (r: Option<&str>)
    ensures
        match r { Some(s) => Some(s@), None => None } == opt_view(*o),
{
    match o {
        Some(s) => Some(s.as_str()),
        None => None,
    }
}

fn flag_env(vars: &[(String, String)], name: &str) -> (r: bool)
    ensures
        r == flag_value(env_lookup(vars@, name@)),
{
    let v = env_value(vars, name);
    env_flag(opt_as_str(&v))
}

fn millis_env(vars: &[(String, String)], name: &str, default: u64) -> (r: u64)
    ensures
        r == millis_value(env_lookup(vars@, name@), default),
{
    let v = env_value(vars, name);
    env_millis(opt_as_str(&v), default)
}

impl ExstarSettings {
    /// Reads every EXStar switch from an environment snapshot.
    pub fn from_env(vars: &[(String, String)]) -> (s: ExstarSettings)
        ensures
            s.host_trace == flag_value(env_lookup(vars@, "ZLUDA_EXSTAR_HOST_TRACE"@)),
            s.light_trace == flag_value(env_lookup(vars@, "ZLUDA_EXSTAR_LIGHT_TRACE"@)),
            s.appui_trace == flag_value(env_lookup(vars@, "ZLUDA_EXSTAR_APPUI_TRACE"@)),
            s.exe_trace == flag_value(env_lookup(vars@, "ZLUDA_EXSTAR_EXE_TRACE"@)),
            s.einscan_net_svr_compat == flag_value(env_lookup(vars@, "ZLUDA_EXSTAR_EINSCAN_NET_SVR_COMPAT"@)),
            s.publish_fallback == flag_value(
                env_lookup(vars@, "ZLUDA_EXSTAR_EINSCAN_NET_SVR_PUBLISH_FALLBACK"@),
            ),
            s.publish_fallback_delay_ms == millis_value(
                env_lookup(vars@, "ZLUDA_EXSTAR_EINSCAN_NET_SVR_PUBLISH_FALLBACK_DELAY_MS"@),
                0,
            ),
            s.hub_exit_delay_ms == millis_value(env_lookup(vars@, "ZLUDA_EXSTAR_HUB_EXIT_DELAY_MS"@), 0),
            s.hub_startup_compat_timeout_ms == millis_value(
                env_lookup(vars@, "ZLUDA_EXSTAR_HUB_STARTUP_COMPAT_TIMEOUT_MS"@),
                HUB_STARTUP_COMPAT_DEFAULT_MS,
            ),
            s.skip_second_sweep == flag_value(env_lookup(vars@, "ZLUDA_EXSTAR_MANAGER_SKIP_SECOND_SWEEP"@)),
            s.preserve_hub_and_scanhub == flag_value(
                env_lookup(vars@, "ZLUDA_EXSTAR_MANAGER_PRESERVE_HUB_AND_SCANHUB"@),
            ),
            s.force_main_window_visible == flag_value(
                env_lookup(vars@, "ZLUDA_EXSTAR_FORCE_MAIN_WINDOW_VISIBLE"@),
            ),
            s.skip_qttunnel_connect_hook == flag_value(
                env_lookup(vars@, "ZLUDA_EXSTAR_SKIP_QTTUNNEL_CONNECT_HOOK"@),
            ),
            strings_view(s.skip_kill_targets@) == targets_value(
                env_lookup(vars@, "ZLUDA_EXSTAR_MANAGER_SKIP_KILL"@),
            ),
    {
        let targets = env_value(vars, "ZLUDA_EXSTAR_MANAGER_SKIP_KILL");
        ExstarSettings {
            host_trace: flag_env(vars, "ZLUDA_EXSTAR_HOST_TRACE"),
            light_trace: flag_env(vars, "ZLUDA_EXSTAR_LIGHT_TRACE"),
            appui_trace: flag_env(vars, "ZLUDA_EXSTAR_APPUI_TRACE"),
            exe_trace: flag_env(vars, "ZLUDA_EXSTAR_EXE_TRACE"),
            einscan_net_svr_compat: flag_env(vars, "ZLUDA_EXSTAR_EINSCAN_NET_SVR_COMPAT"),
            publish_fallback: flag_env(vars, "ZLUDA_EXSTAR_EINSCAN_NET_SVR_PUBLISH_FALLBACK"),
            publish_fallback_delay_ms: millis_env(vars, "ZLUDA_EXSTAR_EINSCAN_NET_SVR_PUBLISH_FALLBACK_DELAY_MS", 0),
            hub_exit_delay_ms: millis_env(vars, "ZLUDA_EXSTAR_HUB_EXIT_DELAY_MS", 0),
            hub_startup_compat_timeout_ms: millis_env(
                vars,
                "ZLUDA_EXSTAR_HUB_STARTUP_COMPAT_TIMEOUT_MS",
                HUB_STARTUP_COMPAT_DEFAULT_MS,
            ),
            skip_second_sweep: flag_env(vars, "ZLUDA_EXSTAR_MANAGER_SKIP_SECOND_SWEEP"),
            preserve_hub_and_scanhub: flag_env(vars, "ZLUDA_EXSTAR_MANAGER_PRESERVE_HUB_AND_SCANHUB"),
            force_main_window_visible: flag_env(vars, "ZLUDA_EXSTAR_FORCE_MAIN_WINDOW_VISIBLE"),
            skip_qttunnel_connect_hook: flag_env(vars, "ZLUDA_EXSTAR_SKIP_QTTUNNEL_CONNECT_HOOK"),
            skip_kill_targets: env_targets(opt_as_str(&targets)),
        }
    }
}

// ---------------------------------------------------------------------------
// Trace switches
// ---------------------------------------------------------------------------

/// Host tracing (`ZLUDA_EXSTAR_HOST_TRACE`).
pub fn exstar_host_trace_enabled(s: &ExstarSettings) -> (r: bool)
    ensures
        r == s.host_trace,
{
    s.host_trace
}

/// Light tracing (`ZLUDA_EXSTAR_LIGHT_TRACE`).
pub fn exstar_light_trace_enabled(s: &ExstarSettings) -> (r: bool)
    ensures
        r == s.light_trace,
{
    s.light_trace
}

/// Trace lines are written when host or light tracing is on.
pub fn exstar_trace_logging_enabled(s: &ExstarSettings) -> (r: bool)
    ensures
        r == (s.host_trace || s.light_trace),
{
    s.host_trace || s.light_trace
}

/// Tracing of the AppUI hooks (`ZLUDA_EXSTAR_APPUI_TRACE`).
pub fn exstar_appui_trace_enabled(s: &ExstarSettings) -> (r: bool)
    ensures
        r == s.appui_trace,
{
    s.appui_trace
}

/// Tracing of the executable hooks (`ZLUDA_EXSTAR_EXE_TRACE`).
pub fn exstar_exe_trace_enabled(s: &ExstarSettings) -> (r: bool)
    ensures
        r == s.exe_trace,
{
    s.exe_trace
}

/// Light tracing of the Hub itself.
pub fn exstar_hub_light_trace_enabled(s: &ExstarSettings, p: &ProcessInfo) -> (r: bool)
    ensures
        r == (s.light_trace && exe_is(*p, "EXStar Hub.exe"@)),
{
    s.light_trace && exstar_window_trace_enabled(p)
}

// ---------------------------------------------------------------------------
// The current process
// ---------------------------------------------------------------------------

/// The process the layer runs in: the file name of its executable (absent
/// when it cannot be determined) and its command line, program name first.
pub struct ProcessInfo {
    pub exe_name: Option<String>,
    pub args: Vec<String>,
}

/// The executable's name is `name`, ignoring ASCII case.
pub open spec fn exe_is(p: ProcessInfo, name: Seq<char>) -> bool {
    match p.exe_name {
        Some(n) => eq_ci(n@, name),
        None => false,
    }
}

/// Some argument is exactly `a`.
pub open spec fn has_arg(p: ProcessInfo, a: Seq<char>) -> bool {
    exists|i: int| 0 <= i < p.args@.len() && #[trigger] p.args@[i]@ == a
}

fn exe_named(p: &ProcessInfo, name: &str) -> (r: bool)
    ensures
        r == exe_is(*p, name@),
{
    match &p.exe_name {
        Some(n) => str_eq_ci(n.as_str(), name),
        None => false,
    }
}

fn has_argument(p: &ProcessInfo, a: &str) -> (r: bool)
    ensures
        r == has_arg(*p, a@),
{
    let target = a.to_owned();
    let mut i: usize = 0;
    while i < p.args.len()
        invariant
            target@ == a@,
            i <= p.args@.len(),
            forall|k: int| 0 <= k < i ==> #[trigger] p.args@[k]@ != a@,
        decreases p.args.len() - i,
    {
        if p.args[i] == target {
            return true;
        }
        i = i + 1;
    }
    false
}

/// Window tracing applies in the Hub.
pub fn exstar_window_trace_enabled(p: &ProcessInfo) -> (r: bool)
    ensures
        r == exe_is(*p, "EXStar Hub.exe"@),
{
    exe_named(p, "EXStar Hub.exe")
}

/// The process is the process manager.
pub fn exstar_current_process_is_manager(p: &ProcessInfo) -> (r: bool)
    ensures
        r == exe_is(*p, "Sn3DprocessManager.exe"@),
{
    exe_named(p, "Sn3DprocessManager.exe")
}

/// Host tracing of the Hub.
pub fn exstar_hub_process_trace_enabled(s: &ExstarSettings, p: &ProcessInfo) -> (r: bool)
    ensures
        r == (s.host_trace && exe_is(*p, "EXStar Hub.exe"@)),
{
    s.host_trace && exe_named(p, "EXStar Hub.exe")
}

/// Tracing of the process manager.
pub fn exstar_manager_process_trace_enabled(s: &ExstarSettings, p: &ProcessInfo) -> (r: bool)
    ensures
        r == ((s.host_trace || s.light_trace) && exe_is(*p, "Sn3DprocessManager.exe"@)),
{
    (s.host_trace || s.light_trace) && exe_named(p, "Sn3DprocessManager.exe")
}

/// Tracing of the process manager or the Hub.
pub fn exstar_manager_or_hub_process_trace_enabled(s: &ExstarSettings, p: &ProcessInfo) -> (r: bool)
    ensures
        r == ((s.host_trace || s.light_trace) && (exe_is(*p, "Sn3DprocessManager.exe"@) || exe_is(
            *p,
            "EXStar Hub.exe"@,
        ))),
{
    (s.host_trace || s.light_trace) && (exe_named(p, "Sn3DprocessManager.exe") || exe_named(p, "EXStar Hub.exe"))
}

/// The Hub started by the process manager: its command line carries `@#$`.
pub fn exstar_is_child_hub_process(p: &ProcessInfo) -> (r: bool)
    ensures
        r == (has_arg(*p, "@#$"@) && exe_is(*p, "EXStar Hub.exe"@)),
{
    has_argument(p, "@#$") && exe_named(p, "EXStar Hub.exe")
}

/// The manager's process id, which a child Hub gets as its second argument.
pub fn exstar_child_hub_manager_pid_from_args(p: &ProcessInfo) -> (r: Option<u32>)
    ensures
        !(has_arg(*p, "@#$"@) && exe_is(*p, "EXStar Hub.exe"@)) ==> r is None,
        (has_arg(*p, "@#$"@) && exe_is(*p, "EXStar Hub.exe"@)) ==> r == (if p.args@.len() > 2 {
            match parse_unsigned(p.args@[2]@, u32::MAX as nat) {
                Some(n) => Some(n as u32),
                None => None,
            }
        } else {
            None
        }),
{
    if !exstar_is_child_hub_process(p) {
        return None;
    }
    if p.args.len() <= 2 {
        return None;
    }
    let chars = str_to_chars(p.args[2].as_str());
    crate::settings::parse_u32(chars.as_slice())
}

/// The startup compatibility of the Hub: on for the bootstrap Hub (not the
/// child Hub) until the timeout has passed since it was first asked for.
pub fn exstar_hub_startup_compat_active(s: &ExstarSettings, p: &ProcessInfo, elapsed_nanos: u128) -> (r: bool)
    ensures
        r == (!(has_arg(*p, "@#$"@) && exe_is(*p, "EXStar Hub.exe"@)) && elapsed_nanos
            <= s.hub_startup_compat_timeout_ms as int * 1_000_000),
{
    if !exstar_hub_quit_compat_enabled() || exstar_is_child_hub_process(p) {
        return false;
    }
    elapsed_nanos <= (s.hub_startup_compat_timeout_ms as u128) * 1_000_000
}

/// The child Hub's exit is held back while startup compatibility is on and
/// the real application window has not been shown.
pub fn exstar_should_preserve_child_hub_exit(startup_compat_active: bool, real_app_window_shown: bool) -> (r: bool)
    ensures
        r == (startup_compat_active && !real_app_window_shown),
{
    startup_compat_active && !real_app_window_shown
}

/// Main-window compatibility: startup compatibility, on the main window's thread.
pub fn exstar_hub_main_window_compat_active(startup_compat_active: bool, on_main_window_thread: bool) -> (r: bool)
    ensures
        r == (startup_compat_active && on_main_window_thread),
{
    startup_compat_active && on_main_window_thread
}

/// The startup shell window is kept while it is the main window and no real
/// application window has been shown or exists.
pub fn exstar_should_preserve_main_window(
    is_main_window: bool,
    app_window_shown: bool,
    real_app_window_exists: bool,
) -> (r: bool)
    ensures
        r == (is_main_window && !app_window_shown && !real_app_window_exists),
{
    is_main_window && !(app_window_shown || real_app_window_exists)
}

/// A `|`-separated payload part equals `word`, ignoring ASCII case.
pub open spec fn payload_has_part(payload: Seq<char>, word: Seq<char>) -> bool {
    exists|i: int| 0 <= i < split_seq(payload, '|').len() && eq_ci(#[trigger] split_seq(payload, '|')[i], word)
}

/// Whether some `|`-separated part of the payload is `word`, ignoring ASCII case.
pub fn payload_part_is(payload: &str, word: &str) -> (r: bool)
    ensures
        r == payload_has_part(payload@, word@),
{
    let chars = str_to_chars(payload);
    let w = str_to_chars(word);
    let parts = chars_split(chars.as_slice(), '|');
    let mut i: usize = 0;
    while i < parts.len()
        invariant
            chars@ == payload@,
            w@ == word@,
            parts@.len() == split_seq(payload@, '|').len(),
            forall|k: int| 0 <= k < parts@.len() ==> #[trigger] parts@[k]@ == split_seq(payload@, '|')[k],
            i <= parts@.len(),
            forall|k: int| 0 <= k < i ==> !eq_ci(#[trigger] split_seq(payload@, '|')[k], word@),
        decreases parts.len() - i,
    {
        if chars_eq_ci(parts[i].as_slice(), w.as_slice()) {
            assert(eq_ci(split_seq(payload@, '|')[i as int], word@));
            return true;
        }
        assert(parts@[i as int]@ == split_seq(payload@, '|')[i as int]);
        i = i + 1;
    }
    false
}

/// The child Hub quits for real once its application window has been shown
/// and a published payload asks it to (`quitApp`).
pub fn exstar_should_force_child_hub_quit(p: &ProcessInfo, payload_strings: &str, real_app_window_shown: bool) -> (r: bool)
    ensures
        r == (has_arg(*p, "@#$"@) && exe_is(*p, "EXStar Hub.exe"@) && real_app_window_shown
            && payload_has_part(payload_strings@, "quitApp"@)),
{
    exstar_is_child_hub_process(p) && real_app_window_shown && payload_part_is(payload_strings, "quitApp")
}

// ---------------------------------------------------------------------------
// Process manager cleanup
// ---------------------------------------------------------------------------

/// The peers whose processes the manager must not kill by default.
pub open spec fn is_core_peer(name: Seq<char>) -> bool {
    eq_ci(name, "scanhub.exe"@) || eq_ci(name, "EXStar Hub.exe"@) || eq_ci(name, "scanservice.exe"@)
        || eq_ci(name, "softwareUpgrade.exe"@) || eq_ci(name, "informationCollect.exe"@)
}

/// Whether a process is one of the manager's core peers.
pub fn exstar_manager_is_core_peer(process_name: &str) -> (r: bool)
    ensures
        r == is_core_peer(process_name@),
{
    str_eq_ci(process_name, "scanhub.exe") || str_eq_ci(process_name, "EXStar Hub.exe") || str_eq_ci(
        process_name,
        "scanservice.exe",
    ) || str_eq_ci(process_name, "softwareUpgrade.exe") || str_eq_ci(process_name, "informationCollect.exe")
}

/// The helpers whose hub connection is retried.
pub fn exstar_is_helper_connect_retry_target(process_name: &str) -> (r: bool)
    ensures
        r == (eq_ci(process_name@, "softwareUpgrade.exe"@) || eq_ci(process_name@, "informationCollect.exe"@)),
{
    str_eq_ci(process_name, "softwareUpgrade.exe") || str_eq_ci(process_name, "informationCollect.exe")
}

/// The Hub's quit compatibility (which keeps the bootstrap Hub's exit and
/// main window in check during startup) is always on.
pub fn exstar_hub_quit_compat_enabled() -> (r: bool)
    ensures
        r,
{
    true
}

/// Core peers are always preserved; the variable that once switched this is
/// still read but no longer consulted.
pub fn exstar_manager_preserve_core_peers_enabled(s: &ExstarSettings) -> (r: bool)
    ensures
        r,
{
    true
}

/// The manager's compatibility hooks are installed: core-peer preservation
/// is always on.
pub fn exstar_manager_compat_hooks_enabled(s: &ExstarSettings) -> (r: bool)
    ensures
        r,
{
    exstar_manager_preserve_core_peers_enabled(s) || s.preserve_hub_and_scanhub || s.skip_second_sweep
        || s.skip_kill_targets.len() > 0
}

/// The processes the manager is never allowed to kill.
pub open spec fn is_protected_process(name: Seq<char>) -> bool {
    eq_ci(name, "scanhub.exe"@) || eq_ci(name, "EXStar Hub.exe"@) || eq_ci(name, "scanservice.exe"@)
        || eq_ci(name, "softwareUpgrade.exe"@) || eq_ci(name, "informationCollect.exe"@) || eq_ci(
        name,
        "SnSyncService.exe"@,
    )
}

/// `name` is one of the configured skip targets.
pub open spec fn is_skip_target(s: ExstarSettings, name: Seq<char>) -> bool {
    exists|i: int| 0 <= i < s.skip_kill_targets@.len() && eq_ci(#[trigger] s.skip_kill_targets@[i]@, name)
}

/// The manager's kill of `name` is skipped: only inside the manager, for the
/// protected processes, for any kill of a second sweep when second sweeps
/// are skipped, and for the configured targets.
pub open spec fn skip_kill_spec(s: ExstarSettings, p: ProcessInfo, name: Seq<char>, second_sweep_id: u32) -> bool {
    exe_is(p, "Sn3DprocessManager.exe"@) && (is_protected_process(name) || (s.skip_second_sweep && second_sweep_id
        != 0) || is_skip_target(s, name))
}

/// Whether the manager's kill of `process_name` is skipped: only inside the
/// manager, for the protected processes, for any kill of a second sweep when
/// second sweeps are skipped, and for the configured targets.
pub fn exstar_manager_should_skip_kill(
    s: &ExstarSettings,
    p: &ProcessInfo,
    process_name: &str,
    second_sweep_id: u32,
) -> (r: bool)
    ensures
        r == skip_kill_spec(*s, *p, process_name@, second_sweep_id),
        exe_is(*p, "Sn3DprocessManager.exe"@) && (eq_ci(process_name@, "scanhub.exe"@) || eq_ci(
            process_name@,
            "EXStar Hub.exe"@,
        ) || eq_ci(process_name@, "scanservice.exe"@) || eq_ci(process_name@, "softwareUpgrade.exe"@) || eq_ci(
            process_name@,
            "informationCollect.exe"@,
        ) || eq_ci(process_name@, "SnSyncService.exe"@)) ==> r,
        !exe_is(*p, "Sn3DprocessManager.exe"@) ==> !r,
{
    if !exstar_current_process_is_manager(p) {
        return false;
    }
    if str_eq_ci(process_name, "scanhub.exe") || str_eq_ci(process_name, "EXStar Hub.exe") || str_eq_ci(
        process_name,
        "scanservice.exe",
    ) || str_eq_ci(process_name, "softwareUpgrade.exe") || str_eq_ci(process_name, "informationCollect.exe")
        || str_eq_ci(process_name, "SnSyncService.exe") {
        return true;
    }
    assert(!is_protected_process(process_name@));
    if s.skip_second_sweep && second_sweep_id != 0 {
        return true;
    }
    assert(!is_core_peer(process_name@));
    if exstar_manager_preserve_core_peers_enabled(s) && exstar_manager_is_core_peer(process_name) {
        return true;
    }
    let mut i: usize = 0;
    while i < s.skip_kill_targets.len()
        invariant
            exe_is(*p, "Sn3DprocessManager.exe"@),
            i <= s.skip_kill_targets@.len(),
            forall|k: int| 0 <= k < i ==> !eq_ci(#[trigger] s.skip_kill_targets@[k]@, process_name@),
        decreases s.skip_kill_targets.len() - i,
    {
        if str_eq_ci(s.skip_kill_targets[i].as_str(), process_name) {
            return true;
        }
        i = i + 1;
    }
    false
}

/// The process manager never kills one of its core processes: inside the
/// manager, under every setting and in every sweep, a kill of scanhub.exe,
/// EXStar Hub.exe, scanservice.exe, softwareUpgrade.exe,
/// informationCollect.exe or SnSyncService.exe (named in any ASCII case) is
/// skipped; and outside the manager no kill is ever skipped.
pub proof fn law_manager_never_kills_core_processes(
    s: ExstarSettings,
    p: ProcessInfo,
    name: Seq<char>,
    second_sweep_id: u32,
)
    ensures
        exe_is(p, "Sn3DprocessManager.exe"@) && (eq_ci(name, "scanhub.exe"@) || eq_ci(name, "EXStar Hub.exe"@)
            || eq_ci(name, "scanservice.exe"@) || eq_ci(name, "softwareUpgrade.exe"@) || eq_ci(
            name,
            "informationCollect.exe"@,
        ) || eq_ci(name, "SnSyncService.exe"@)) ==> skip_kill_spec(s, p, name, second_sweep_id),
        !exe_is(p, "Sn3DprocessManager.exe"@) ==> !skip_kill_spec(s, p, name, second_sweep_id),
{
}

} // verus!

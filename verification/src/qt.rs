//! The decisions of the hooks on EXStar's Qt calls: which visibility changes
//! and application exits are held back while the Hub's main window must stay
//! up, which dialogs are answered without being shown, which callers are
//! traced, and which messages of the process manager's protocol get a
//! one-time backtrace.
use vstd::prelude::*;
use crate::payload::{app_parts_cuttable, branch_label, has_app_branch, is_app_part, is_ui_topic};
use crate::payload::exstar_is_ui_state_topic;
use crate::exstar::payload_has_part;
use crate::text::{contains_seq, eq_ci, lower_seq, split_seq, str_eq_ci, str_to_chars, chars_contains};

verus! {

/// `QMessageBox::Ok`.
pub const QMESSAGEBOX_OK: u32 = 0x400;

/// A visibility change of a Qt widget or window.
#[derive(Clone, Copy, PartialEq, Eq, Structural, Debug)]
pub enum VisibilityCall {
    WidgetHide,
    WidgetShow,
    WidgetClose,
    WidgetSetVisible(bool),
    WindowHide,
    WindowShow,
    WindowClose,
    WindowSetVisible(bool),
}

/// The calls that would take the Hub's main window down; the window's own
/// close is left alone, as closing the splash screen is normal.
pub open spec fn hides(call: VisibilityCall) -> bool {
    match call {
        VisibilityCall::WidgetHide => true,
        VisibilityCall::WidgetClose => true,
        VisibilityCall::WidgetSetVisible(v) => !v,
        VisibilityCall::WindowHide => true,
        VisibilityCall::WindowSetVisible(v) => !v,
        _ => false,
    }
}

/// Whether a visibility change is swallowed: while main-window compatibility
/// is on, everything that would hide the main window.
pub fn suppress_visibility_change(call: VisibilityCall, main_window_compat_active: bool) -> (r: bool)
    ensures
        r == (main_window_compat_active && hides(call)),
{
    let hiding = match call {
        VisibilityCall::WidgetHide => true,
        VisibilityCall::WidgetClose => true,
        VisibilityCall::WidgetSetVisible(v) => !v,
        VisibilityCall::WindowHide => true,
        VisibilityCall::WindowSetVisible(v) => !v,
        _ => false,
    };
    main_window_compat_active && hiding
}

/// `QCoreApplication::quit` is swallowed while main-window compatibility is on.
pub fn suppress_application_quit(main_window_compat_active: bool) -> (r: bool)
    ensures
        r == main_window_compat_active,
{
    main_window_compat_active
}

/// `QCoreApplication::exit` with code 0 is swallowed while main-window
/// compatibility is on.
pub fn suppress_application_exit(main_window_compat_active: bool, exit_code: i32) -> (r: bool)
    ensures
        r == (main_window_compat_active && exit_code == 0),
{
    main_window_compat_active && exit_code == 0
}

/// The PrestartCheck timer of the child Hub is no longer suppressed: the
/// module is patched instead.
pub fn exstar_should_suppress_prestartcheck_timer(callback: usize) -> (r: bool)
    ensures
        !r,
{
    false
}

/// The event types after which a hide backtrace is taken (hide and
/// window-state change), and whether it is the window's close event.
pub fn event_backtraces(event_type: i32, is_window: bool) -> (r: (bool, bool))
    ensures
        r.0 == (crate::payload::is_interesting_qt_event_type_spec(event_type) && (event_type == 18 || event_type == 105)),
        r.1 == (is_window && event_type == 19),
{
    let interesting = crate::payload::is_interesting_qt_event_type(event_type);
    (interesting && (event_type == 18 || event_type == 105), interesting && is_window && event_type == 19)
}

/// EXStar's warning and error dialogs, recognised by title or text.
pub open spec fn is_exstar_warning(title: Seq<char>, text: Seq<char>) -> bool {
    contains_seq(title, "Warning"@) || contains_seq(title, "warning"@) || contains_seq(text, "error code"@)
        || contains_seq(text, "repeat opening"@) || contains_seq(text, "something went wrong"@)
}

fn has(hay: &str, needle: &str) -> (r: bool)
    ensures
        r == contains_seq(hay@, needle@),
{
    let h = str_to_chars(hay);
    let n = str_to_chars(needle);
    chars_contains(h.as_slice(), n.as_slice())
}

/// `QMessageBox::warning`, `critical` and `information`: EXStar's warning and
/// error dialogs are answered with Ok without being shown.
pub fn suppress_message_box(title: &str, text: &str) -> (r: Option<u32>)
    ensures
        r == (if is_exstar_warning(title@, text@) { Some(QMESSAGEBOX_OK) } else { None }),
{
    if has(title, "Warning") || has(title, "warning") || has(text, "error code") || has(text, "repeat opening")
        || has(text, "something went wrong") {
        Some(QMESSAGEBOX_OK)
    } else {
        None
    }
}

/// One frame of a captured stack: the module that holds it, with the
/// module's base address, where known, and the frame's address.
pub struct StackFrame {
    pub module: Option<(String, usize)>,
    pub address: usize,
}

/// The frame's offset into `module`, when it lies in `module` between `lo`
/// and `hi` (both included).
pub open spec fn frame_offset_in(f: StackFrame, module: Seq<char>, lo: usize, hi: usize) -> Option<usize> {
    match f.module {
        Some((name, base)) => {
            let offset = if f.address >= base { (f.address - base) as usize } else { 0usize };
            if eq_ci(name@, module) && lo <= offset <= hi { Some(offset) } else { None }
        },
        None => None,
    }
}

/// The first frame, at or after `i`, that lies in the range.
pub open spec fn first_frame_from(frames: Seq<StackFrame>, module: Seq<char>, lo: usize, hi: usize, i: int) -> Option<usize>
    decreases frames.len() - i,
{
    if i < 0 || i >= frames.len() {
        None
    } else {
        match frame_offset_in(frames[i], module, lo, hi) {
            Some(o) => Some(o),
            None => first_frame_from(frames, module, lo, hi, i + 1),
        }
    }
}

fn frame_offset(f: &StackFrame, module: &str, lo: usize, hi: usize) -> (r: Option<usize>)
    ensures
        r == frame_offset_in(*f, module@, lo, hi),
{
    match &f.module {
        Some((name, base)) => {
            let offset = f.address.saturating_sub(*base);
            if str_eq_ci(name.as_str(), module) && lo <= offset && offset <= hi {
                Some(offset)
            } else {
                None
            }
        },
        None => None,
    }
}

/// The caller that the Qt hooks trace: the offset of the first stack frame
/// that lies in `module` between `lo` and `hi`.
pub fn caller_offset(frames: &[StackFrame], module: &str, lo: usize, hi: usize) -> (r: Option<usize>)
    ensures
        r == first_frame_from(frames@, module@, lo, hi, 0),
{
    let mut i: usize = 0;
    while i < frames.len()
        invariant
            i <= frames@.len(),
            first_frame_from(frames@, module@, lo, hi, 0) == first_frame_from(frames@, module@, lo, hi, i as int),
        decreases frames.len() - i,
    {
        let o = frame_offset(&frames[i], module, lo, hi);
        if o.is_some() {
            return o;
        }
        i = i + 1;
    }
    None
}

// ---------------------------------------------------------------------------
// The process manager's protocol
// ---------------------------------------------------------------------------

/// The once-per-process backtraces of the protocol hooks.
pub struct ProtocolMarks {
    pub app10_demo: bool,
    pub app5_ord: bool,
    pub app_branch: bool,
    pub app8: bool,
    pub hub_signal: bool,
    pub ui_signal: bool,
    pub ui_publish: bool,
}

impl ProtocolMarks {
    /// Nothing emitted yet.
    pub fn new() -> (m: ProtocolMarks)
        ensures
            !m.app10_demo && !m.app5_ord && !m.app_branch && !m.app8 && !m.hub_signal && !m.ui_signal && !m.ui_publish,
    {
        ProtocolMarks {
            app10_demo: false,
            app5_ord: false,
            app_branch: false,
            app8: false,
            hub_signal: false,
            ui_signal: false,
            ui_publish: false,
        }
    }
}

/// What `subPubConnectToHub` traces.
#[derive(Clone, Copy, PartialEq, Eq, Debug)]
pub struct SubPubTrace {
    pub branch: Option<&'static str>,
    pub branch_backtrace: bool,
    pub app_branch_backtrace: bool,
    pub app8_backtrace: bool,
}

/// Some `|`-separated part of the payload names an application branch.
pub open spec fn names_app_branch(strings: Seq<char>) -> bool {
    exists|i: int| 0 <= i < split_seq(strings, '|').len() && is_app_part(crate::text::trim(#[trigger] split_seq(strings, '|')[i]))
}

/// `subPubConnectToHub`: the payload's branch is traced; the first
/// `app10_demo` and `app5_ord` branch, the first payload naming an
/// application branch and the first naming `app8` each get a backtrace.
pub fn subpub_connect_trace(marks: &mut ProtocolMarks, arg_strings: &str) -> (t: SubPubTrace)
    requires
        app_parts_cuttable(arg_strings@),
    ensures
        match t.branch { Some(b) => Some(b@), None => None } == branch_label(lower_seq(arg_strings@)),
        t.branch_backtrace == ((branch_label(lower_seq(arg_strings@)) == Some("app10_demo"@) && !old(marks).app10_demo)
            || (branch_label(lower_seq(arg_strings@)) == Some("app5_ord"@) && !old(marks).app5_ord)),
        t.app_branch_backtrace == (names_app_branch(arg_strings@) && !old(marks).app_branch),
        t.app8_backtrace == (payload_has_part(arg_strings@, "app8"@) && !old(marks).app8),
        final(marks).app10_demo == (old(marks).app10_demo || branch_label(lower_seq(arg_strings@)) == Some("app10_demo"@)),
        final(marks).app5_ord == (old(marks).app5_ord || branch_label(lower_seq(arg_strings@)) == Some("app5_ord"@)),
        final(marks).app_branch == (old(marks).app_branch || names_app_branch(arg_strings@)),
        final(marks).app8 == (old(marks).app8 || payload_has_part(arg_strings@, "app8"@)),
        final(marks).hub_signal == old(marks).hub_signal,
        final(marks).ui_signal == old(marks).ui_signal,
        final(marks).ui_publish == old(marks).ui_publish,
{
    proof {
        reveal_strlit("app10_demo");
        reveal_strlit("app5_ord");
    }
    assert("app10_demo"@ != "app5_ord"@) by {
        assert("app10_demo"@.len() != "app5_ord"@.len());
    }
    let branch = crate::payload::exstar_processmg_branch_label(arg_strings);
    let mut branch_backtrace = false;
    match branch {
        Some(b) => {
            if b.to_owned() == "app10_demo".to_owned() {
                branch_backtrace = !marks.app10_demo;
                marks.app10_demo = true;
            } else if b.to_owned() == "app5_ord".to_owned() {
                branch_backtrace = !marks.app5_ord;
                marks.app5_ord = true;
            }
        },
        None => {},
    }
    let app = has_app_branch(arg_strings);
    let app_branch_backtrace = app && !marks.app_branch;
    if app {
        marks.app_branch = true;
    }
    let app8 = crate::exstar::payload_part_is(arg_strings, "app8");
    let app8_backtrace = app8 && !marks.app8;
    if app8 {
        marks.app8 = true;
    }
    SubPubTrace { branch, branch_backtrace, app_branch_backtrace, app8_backtrace }
}

/// What `signal_published` traces.
#[derive(Clone, Copy, PartialEq, Eq, Structural, Debug)]
pub struct SignalTrace {
    pub hub_ingress: bool,
    pub hub_backtrace: bool,
    pub ui_state: bool,
    pub ui_backtrace: bool,
}

/// `signal_published`: traced as Hub ingress when the Hub is traced, and as
/// UI state when either topic carries UI state; the first of each gets a
/// backtrace.
pub fn signal_published_trace(marks: &mut ProtocolMarks, hub_traced: bool, arg1_text: &str, arg2_text: &str) -> (t: SignalTrace)
    ensures
        t.hub_ingress == hub_traced,
        t.hub_backtrace == (hub_traced && !old(marks).hub_signal),
        t.ui_state == (is_ui_topic(arg2_text@) || is_ui_topic(arg1_text@)),
        t.ui_backtrace == (t.ui_state && !old(marks).ui_signal),
        final(marks).hub_signal == (old(marks).hub_signal || hub_traced),
        final(marks).ui_signal == (old(marks).ui_signal || t.ui_state),
        final(marks).ui_publish == old(marks).ui_publish,
{
    let hub_backtrace = hub_traced && !marks.hub_signal;
    if hub_traced {
        marks.hub_signal = true;
    }
    let ui_state = exstar_is_ui_state_topic(arg2_text) || exstar_is_ui_state_topic(arg1_text);
    let ui_backtrace = ui_state && !marks.ui_signal;
    if ui_state {
        marks.ui_signal = true;
    }
    SignalTrace { hub_ingress: hub_traced, hub_backtrace, ui_state, ui_backtrace }
}

/// `processmg.publish`: a publish on the process manager's topic is checked
/// for the EinScan launch request; a publish on a UI topic is traced, the
/// first with a backtrace. Returns whether to check, and whether to trace
/// and take the backtrace.
pub fn publish_trace(marks: &mut ProtocolMarks, topic_text: &str) -> (r: (bool, bool, bool))
    ensures
        r.0 == (topic_text@ == "Sn3dProcessMgTopic"@),
        r.1 == is_ui_topic(topic_text@),
        r.2 == (r.1 && !old(marks).ui_publish),
        final(marks).ui_publish == (old(marks).ui_publish || r.1),
        final(marks).ui_signal == old(marks).ui_signal,
        final(marks).hub_signal == old(marks).hub_signal,
{
    let launch_check = topic_text.to_owned() == "Sn3dProcessMgTopic".to_owned();
    let ui = exstar_is_ui_state_topic(topic_text);
    let backtrace = ui && !marks.ui_publish;
    if ui {
        marks.ui_publish = true;
    }
    (launch_check, ui, backtrace)
}

// ---------------------------------------------------------------------------
// Reconnecting a helper to the tunnel
// ---------------------------------------------------------------------------

/// The pause before each new `isConnected` check of a helper, in milliseconds.
pub const HELPER_CONNECT_RETRY_DELAY_MS: u64 = 150;

/// How many times a helper's `isConnected` is checked again.
pub const HELPER_CONNECT_RETRY_ATTEMPTS: u32 = 4;

/// What follows an `isConnected` check.
#[derive(Clone, Copy, PartialEq, Eq, Structural, Debug)]
pub enum ConnectStep {
    /// Wait `delay_ms`, then check again; this is retry number `attempt`.
    Retry { attempt: u32, delay_ms: u64 },
    /// The hook returns `connected`.
    Done { connected: bool },
}

/// The step after a check whose answer was `connected`, once `made` retries
/// were made.
pub open spec fn connect_step(made: nat, retry_enabled: bool, connected: bool) -> ConnectStep {
    if connected {
        ConnectStep::Done { connected: true }
    } else if !retry_enabled || made >= HELPER_CONNECT_RETRY_ATTEMPTS {
        ConnectStep::Done { connected: false }
    } else {
        ConnectStep::Retry { attempt: (made + 1) as u32, delay_ms: HELPER_CONNECT_RETRY_DELAY_MS }
    }
}

/// The retries of one `isConnected` call: retrying is enabled for a traced
/// helper process; `made` counts the retries made so far.
pub struct ConnectRetry {
    pub retry_enabled: bool,
    pub made: u32,
}

impl ConnectRetry {
    /// The first check of a call answered `connected`. Retrying is enabled
    /// when trace logging is on and the process is a helper that may retry.
    pub fn start(trace_logging_enabled: bool, retry_target: bool, connected: bool) -> (r: (ConnectRetry, ConnectStep))
        ensures
            r.0.retry_enabled == (trace_logging_enabled && retry_target),
            r.0.made == 0,
            r.1 == connect_step(0, trace_logging_enabled && retry_target, connected),
    {
        let m = ConnectRetry { retry_enabled: trace_logging_enabled && retry_target, made: 0 };
        let step = m.step(connected);
        (m, step)
    }

    fn step(&self, connected: bool) -> (s: ConnectStep)
        requires
            self.made <= HELPER_CONNECT_RETRY_ATTEMPTS,
        ensures
            s == connect_step(self.made as nat, self.retry_enabled, connected),
    {
        if connected {
            ConnectStep::Done { connected: true }
        } else if !self.retry_enabled || self.made >= HELPER_CONNECT_RETRY_ATTEMPTS {
            ConnectStep::Done { connected: false }
        } else {
            ConnectStep::Retry { attempt: self.made + 1, delay_ms: HELPER_CONNECT_RETRY_DELAY_MS }
        }
    }

    /// A retry, asked for by the last step, answered `connected`.
    pub fn after_retry(&mut self, connected: bool) -> (s: ConnectStep)
        requires
            old(self).retry_enabled,
            old(self).made < HELPER_CONNECT_RETRY_ATTEMPTS,
        ensures
            final(self).retry_enabled == old(self).retry_enabled,
            final(self).made == old(self).made + 1,
            s == connect_step(final(self).made as nat, final(self).retry_enabled, connected),
    {
        self.made = self.made + 1;
        self.step(connected)
    }
}

/// The checks that one `isConnected` call makes when the successive checks
/// would answer `answers`, starting after `made` retries: how many checks it
/// makes and what it returns.
pub open spec fn connect_run(made: nat, retry_enabled: bool, answers: Seq<bool>) -> (nat, bool)
    decreases answers.len(),
{
    if answers.len() == 0 {
        (0, false)
    } else {
        match connect_step(made, retry_enabled, answers[0]) {
            ConnectStep::Done { connected } => (1, connected),
            ConnectStep::Retry { .. } => {
                let rest = connect_run(made + 1, retry_enabled, answers.drop_first());
                (rest.0 + 1, rest.1)
            },
        }
    }
}

proof fn lemma_connect_run(made: nat, retry_enabled: bool, answers: Seq<bool>)
    requires
        made <= HELPER_CONNECT_RETRY_ATTEMPTS,
        answers.len() >= HELPER_CONNECT_RETRY_ATTEMPTS + 1 - made,
    ensures
        1 <= connect_run(made, retry_enabled, answers).0,
        connect_run(made, retry_enabled, answers).0 <= (if retry_enabled { HELPER_CONNECT_RETRY_ATTEMPTS + 1 - made } else { 1 }),
        connect_run(made, retry_enabled, answers).1 == exists|i: int|
            0 <= i < connect_run(made, retry_enabled, answers).0 && #[trigger] answers[i],
        connect_run(made, retry_enabled, answers).0 < (if retry_enabled { HELPER_CONNECT_RETRY_ATTEMPTS + 1 - made } else { 1 })
            ==> connect_run(made, retry_enabled, answers).1,
    decreases answers.len(),
{
    let r = connect_run(made, retry_enabled, answers);
    match connect_step(made, retry_enabled, answers[0]) {
        ConnectStep::Done { connected } => {
            if connected {
                assert(answers[0]);
            } else {
                assert forall|i: int| 0 <= i < r.0 implies !#[trigger] answers[i] by {
                    assert(i == 0);
                }
            }
        },
        ConnectStep::Retry { .. } => {
            let tail = answers.drop_first();
            lemma_connect_run(made + 1, retry_enabled, tail);
            let t = connect_run(made + 1, retry_enabled, tail);
            assert(!answers[0]);
            if t.1 {
                let j = choose|j: int| 0 <= j < t.0 && #[trigger] tail[j];
                assert(answers[j + 1]);
            } else {
                assert forall|i: int| 0 <= i < r.0 implies !#[trigger] answers[i] by {
                    if i > 0 {
                        assert(answers[i] == tail[i - 1]);
                    }
                }
            }
        },
    }
}

/// An `isConnected` call checks at most once more than the number of
/// retries, and only once when retrying is not enabled; it returns whether
/// one of its checks found the helper connected, and it stops early only
/// because one did.
pub proof fn law_connect_retry_bounded(retry_enabled: bool, answers: Seq<bool>)
    requires
        answers.len() >= HELPER_CONNECT_RETRY_ATTEMPTS + 1,
    ensures
        1 <= connect_run(0, retry_enabled, answers).0,
        connect_run(0, retry_enabled, answers).0 <= (if retry_enabled { HELPER_CONNECT_RETRY_ATTEMPTS + 1 } else { 1 }),
        connect_run(0, retry_enabled, answers).1 == exists|i: int|
            0 <= i < connect_run(0, retry_enabled, answers).0 && #[trigger] answers[i],
        connect_run(0, retry_enabled, answers).0 < (if retry_enabled { HELPER_CONNECT_RETRY_ATTEMPTS + 1 } else { 1 })
            ==> connect_run(0, retry_enabled, answers).1,
{
    lemma_connect_run(0, retry_enabled, answers);
}

} // verus!

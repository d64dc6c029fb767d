//! The Hub's top-level windows: which one is the real application window, and
//! what a traced window transition records about the main window and the
//! application window.
use vstd::prelude::*;
use crate::exstar::{exe_is, ProcessInfo};
use crate::text::{contains_seq, chars_contains, lower_seq, str_eq_ci, str_to_chars};

verus! {

/// The title of the Hub's main window.
pub open spec fn main_window_title() -> Seq<char> {
    "EXStar Hub"@
}

/// A title that marks the real application window.
pub open spec fn is_app_window_title(title: Seq<char>) -> bool {
    contains_seq(title, "App_EA.xml"@)
}

/// A top-level window as the enumeration reports it.
pub struct TopLevelWindow {
    pub handle: u64,
    pub owner_pid: u32,
    pub title: String,
}

/// The first window, at or after `i`, that belongs to `pid` and carries the
/// application window's title.
pub open spec fn first_app_window(windows: Seq<TopLevelWindow>, pid: u32, i: int) -> Option<u64>
    decreases windows.len() - i,
{
    if i < 0 || i >= windows.len() {
        None
    } else if windows[i].owner_pid == pid && is_app_window_title(windows[i].title@) {
        Some(windows[i].handle)
    } else {
        first_app_window(windows, pid, i + 1)
    }
}

fn is_app_title(title: &str) -> (r: bool)
    ensures
        r == is_app_window_title(title@),
{
    let t = str_to_chars(title);
    let needle = str_to_chars("App_EA.xml");
    proof {
        reveal_strlit("App_EA.xml");
    }
    chars_contains(t.as_slice(), needle.as_slice())
}

/// The real application window of process `pid`: the first window in
/// enumeration order that the process owns and whose title names the
/// application's layout file.
pub fn find_app_window(windows: &[TopLevelWindow], pid: u32) -> (r: Option<u64>)
    ensures
        r == first_app_window(windows@, pid, 0),
{
    let mut i: usize = 0;
    while i < windows.len()
        invariant
            i <= windows@.len(),
            first_app_window(windows@, pid, 0) == first_app_window(windows@, pid, i as int),
        decreases windows.len() - i,
    {
        if windows[i].owner_pid == pid && is_app_title(windows[i].title.as_str()) {
            return Some(windows[i].handle);
        }
        i = i + 1;
    }
    None
}

/// Whether a window is the Hub's main window: window tracing is on and the
/// window, which exists, carries the main window's title.
pub fn is_exstar_main_window(has_window: bool, window_trace_enabled: bool, title: &str) -> (r: bool)
    ensures
        r == (has_window && window_trace_enabled && title@ == main_window_title()),
{
    if !has_window || !window_trace_enabled {
        return false;
    }
    let t = str_to_chars(title);
    let m = str_to_chars("EXStar Hub");
    proof {
        reveal_strlit("EXStar Hub");
    }
    crate::text::chars_eq(t.as_slice(), m.as_slice())
}

/// Whether a transition shows the application window visible.
pub open spec fn shows_app_window(title: Seq<char>, visible: bool) -> bool {
    is_app_window_title(title) && visible
}

/// Whether a transition, after the latch stood at `latched`, is the
/// first to show the application window: it is then announced, or
/// promoted to the foreground.
pub open spec fn first_app_window_showing(latched: bool, title: Seq<char>, visible: bool) -> bool {
    shows_app_window(title, visible) && !latched
}

/// How many of the counted transitions `ts`, given as (title, visible), are
/// first showings, starting with the latch at `latched`.
pub open spec fn first_showings(latched: bool, ts: Seq<(Seq<char>, bool)>) -> nat
    decreases ts.len(),
{
    if ts.len() == 0 {
        0
    } else {
        (if first_app_window_showing(latched, ts[0].0, ts[0].1) { 1nat } else { 0nat })
            + first_showings(latched || shows_app_window(ts[0].0, ts[0].1), ts.drop_first())
    }
}

/// The application window is handed the foreground at most once per
/// process, and never again once it has been: however the Hub's window
/// transitions go, at most one of them is a first showing.
pub proof fn law_app_window_handoff_once(latched: bool, ts: Seq<(Seq<char>, bool)>)
    ensures
        first_showings(latched, ts) <= 1,
        latched ==> first_showings(latched, ts) == 0,
    decreases ts.len(),
{
    if ts.len() > 0 {
        let next = latched || shows_app_window(ts[0].0, ts[0].1);
        law_app_window_handoff_once(next, ts.drop_first());
        if first_app_window_showing(latched, ts[0].0, ts[0].1) {
            assert(next);
        }
    }
}

/// What the process has learned from window transitions: the thread that
/// first touched the main window (0 while unknown), and whether the
/// application window was seen visible and brought to the foreground.
#[derive(Clone, Copy, PartialEq, Eq, Structural, Debug)]
pub struct WindowFacts {
    pub main_window_thread: u32,
    pub app_window_shown: bool,
    pub app_window_foregrounded: bool,
}

/// The latches of the Hub's window transitions. They only change through
/// `observe_transition`, so a latch once set stays set.
pub struct WindowLatches {
    facts: WindowFacts,
}

impl View for WindowLatches {
    type V = WindowFacts;

    closed spec fn view(&self) -> WindowFacts {
        self.facts
    }
}

/// What a window transition asks of the caller.
#[derive(Clone, Copy, PartialEq, Eq, Structural, Debug)]
pub struct WindowTransition {
    /// The transition is logged.
    pub traced: bool,
    /// The application window was seen visible for the first time.
    pub announce_app_window: bool,
    /// The application window is to be shown, raised and brought to the
    /// foreground.
    pub promote_app_window: bool,
}

/// Whether a transition counts at all: it happens in the Hub (window
/// tracing), to a window that exists.
pub open spec fn transition_counts(window_trace_enabled: bool, has_window: bool) -> bool {
    window_trace_enabled && has_window
}

/// The facts after a transition of a window with `title`, visible or not,
/// seen from `thread`. The application window's latches are set by any
/// transition in the Hub that shows it; the main window's thread is learned
/// only from a traced transition.
pub open spec fn facts_after(
    f: WindowFacts,
    host_trace_enabled: bool,
    window_trace_enabled: bool,
    has_window: bool,
    title: Seq<char>,
    visible: bool,
    thread: u32,
) -> WindowFacts {
    if !transition_counts(window_trace_enabled, has_window) {
        f
    } else {
        WindowFacts {
            main_window_thread: if host_trace_enabled && title == main_window_title() && f.main_window_thread == 0 {
                thread
            } else {
                f.main_window_thread
            },
            app_window_shown: f.app_window_shown || shows_app_window(title, visible),
            app_window_foregrounded: f.app_window_foregrounded || shows_app_window(title, visible),
        }
    }
}

/// What a transition asks for: the trace line under host tracing; the
/// announcement and the foreground handoff on the application window's
/// first visible transition, traced or not.
pub open spec fn transition_of(
    f: WindowFacts,
    host_trace_enabled: bool,
    window_trace_enabled: bool,
    has_window: bool,
    title: Seq<char>,
    visible: bool,
) -> WindowTransition {
    if !transition_counts(window_trace_enabled, has_window) {
        WindowTransition { traced: false, announce_app_window: false, promote_app_window: false }
    } else {
        WindowTransition {
            traced: host_trace_enabled,
            announce_app_window: first_app_window_showing(f.app_window_shown, title, visible),
            promote_app_window: first_app_window_showing(f.app_window_foregrounded, title, visible),
        }
    }
}

impl WindowLatches {
    /// Nothing learned yet.
    pub fn new() -> (l: WindowLatches)
        ensures
            l@ == (WindowFacts { main_window_thread: 0, app_window_shown: false, app_window_foregrounded: false }),
    {
        WindowLatches {
            facts: WindowFacts { main_window_thread: 0, app_window_shown: false, app_window_foregrounded: false },
        }
    }

    /// The thread recorded for the main window (0 while unknown).
    pub fn main_window_thread(&self) -> (r: u32)
        ensures
            r == self@.main_window_thread,
    {
        self.facts.main_window_thread
    }

    /// Whether the application window was seen visible.
    pub fn app_window_shown(&self) -> (r: bool)
        ensures
            r == self@.app_window_shown,
    {
        self.facts.app_window_shown
    }

    /// Whether the application window was handed the foreground.
    pub fn app_window_foregrounded(&self) -> (r: bool)
        ensures
            r == self@.app_window_foregrounded,
    {
        self.facts.app_window_foregrounded
    }

    /// Whether `thread` is the thread recorded for the main window.
    pub fn on_main_window_thread(&self, thread: u32) -> (r: bool)
        ensures
            r == (self@.main_window_thread != 0 && self@.main_window_thread == thread),
    {
        self.facts.main_window_thread != 0 && self.facts.main_window_thread == thread
    }

    /// A transition of a window, seen from `thread`. Only a transition in the
    /// Hub of an existing window counts. The application window's first
    /// visible transition is announced and, once, handed the foreground,
    /// whether host tracing is on or not; under host tracing the transition
    /// is logged and the first thread that touches the main window is
    /// recorded.
    pub fn observe_transition(
        &mut self,
        host_trace_enabled: bool,
        window_trace_enabled: bool,
        has_window: bool,
        title: &str,
        visible: bool,
        thread: u32,
    ) -> (t: WindowTransition)
        ensures
            final(self)@ == facts_after(old(self)@, host_trace_enabled, window_trace_enabled, has_window, title@, visible, thread),
            t == transition_of(old(self)@, host_trace_enabled, window_trace_enabled, has_window, title@, visible),
    {
        if !window_trace_enabled || !has_window {
            return WindowTransition { traced: false, announce_app_window: false, promote_app_window: false };
        }
        if host_trace_enabled && is_exstar_main_window(true, true, title) && self.facts.main_window_thread == 0 {
            self.facts.main_window_thread = thread;
        }
        let app = is_app_title(title) && visible;
        let announce = app && !self.facts.app_window_shown;
        let promote = app && !self.facts.app_window_foregrounded;
        if app {
            self.facts.app_window_shown = true;
            self.facts.app_window_foregrounded = true;
        }
        WindowTransition { traced: host_trace_enabled, announce_app_window: announce, promote_app_window: promote }
    }
}

/// Once the application window has been handed the foreground, every later
/// transition leaves that latch set and asks for no second handoff.
pub proof fn law_handoff_latch_stays(
    f: WindowFacts,
    host_trace_enabled: bool,
    window_trace_enabled: bool,
    has_window: bool,
    title: Seq<char>,
    visible: bool,
    thread: u32,
)
    requires
        f.app_window_foregrounded,
    ensures
        facts_after(f, host_trace_enabled, window_trace_enabled, has_window, title, visible, thread).app_window_foregrounded,
        !transition_of(f, host_trace_enabled, window_trace_enabled, has_window, title, visible).promote_app_window,
{
}

/// The handoff does not depend on host tracing: in the Hub, the first
/// visible transition of the application window is handed the foreground
/// with tracing on or off, and both leave the same latches for it.
pub proof fn law_handoff_ignores_host_tracing(
    f: WindowFacts,
    window_trace_enabled: bool,
    has_window: bool,
    title: Seq<char>,
    visible: bool,
    thread: u32,
)
    ensures
        transition_of(f, true, window_trace_enabled, has_window, title, visible).promote_app_window
            == transition_of(f, false, window_trace_enabled, has_window, title, visible).promote_app_window,
        transition_of(f, false, window_trace_enabled, has_window, title, visible).promote_app_window
            == (transition_counts(window_trace_enabled, has_window) && first_app_window_showing(
            f.app_window_foregrounded,
            title,
            visible,
        )),
        facts_after(f, true, window_trace_enabled, has_window, title, visible, thread).app_window_foregrounded
            == facts_after(f, false, window_trace_enabled, has_window, title, visible, thread).app_window_foregrounded,
{
}

/// Whether hiding a window (`SW_HIDE`, command 0) takes the one backtrace
/// of the main window being hidden: host and window tracing are on, the
/// window exists and carries the main window's title, compared without
/// regard to ASCII case, and no such backtrace was taken before. Taking it
/// sets `emitted`.
pub fn window_hide_backtrace_due(
    show_command: i32,
    host_trace_enabled: bool,
    window_trace_enabled: bool,
    has_window: bool,
    title: &str,
    emitted: &mut bool,
) -> (r: bool)
    ensures
        r == (show_command == 0 && host_trace_enabled && window_trace_enabled && has_window
            && crate::text::eq_ci(title@, main_window_title()) && !*old(emitted)),
        *final(emitted) == (*old(emitted) || (show_command == 0 && host_trace_enabled
            && window_trace_enabled && has_window && crate::text::eq_ci(title@, main_window_title()))),
{
    if show_command != 0 || !host_trace_enabled || !window_trace_enabled || !has_window {
        return false;
    }
    proof {
        reveal_strlit("EXStar Hub");
    }
    if !crate::text::str_eq_ci(title, "EXStar Hub") {
        return false;
    }
    let due = !*emitted;
    *emitted = true;
    due
}

// ---------------------------------------------------------------------------
// Error dialogs
// ---------------------------------------------------------------------------

/// How long the dialog closer keeps looking, in milliseconds.
pub const DIALOG_CLOSER_DEADLINE_MS: u64 = 120_000;
/// How long the dialog closer sleeps before each look, in milliseconds.
pub const DIALOG_CLOSER_PERIOD_MS: u64 = 500;

/// The dialog closer's next round, `elapsed_ms` after it started: while
/// the deadline has not passed, it sleeps for the period and then looks at
/// the windows once more (`Some` with the sleep); after it, it stops.
pub fn dialog_closer_next(elapsed_ms: u64) -> (r: Option<u64>)
    ensures
        r == (if elapsed_ms < DIALOG_CLOSER_DEADLINE_MS { Some(DIALOG_CLOSER_PERIOD_MS) } else { None::<u64> }),
{
    if elapsed_ms < DIALOG_CLOSER_DEADLINE_MS {
        Some(DIALOG_CLOSER_PERIOD_MS)
    } else {
        None
    }
}

/// The processes that close EXStar's error dialogs: the process manager
/// and the Hub.
pub fn dialog_closer_process(p: &ProcessInfo) -> (r: bool)
    ensures
        r == (exe_is(*p, "Sn3DprocessManager.exe"@) || exe_is(*p, "EXStar Hub.exe"@)),
{
    match &p.exe_name {
        Some(n) => str_eq_ci(n.as_str(), "Sn3DprocessManager.exe") || str_eq_ci(n.as_str(), "EXStar Hub.exe"),
        None => false,
    }
}

/// A dialog title that marks an error dialog, ignoring ASCII case.
pub open spec fn is_error_dialog_title(title: Seq<char>) -> bool {
    contains_seq(lower_seq(title), "warning"@) || contains_seq(lower_seq(title), "confirm"@) || contains_seq(
        lower_seq(title),
        "error"@,
    )
}

/// The text of a dialog's child control that marks an error dialog.
pub open spec fn is_error_dialog_text(text: Seq<char>) -> bool {
    contains_seq(text, "Warning"@) || contains_seq(text, "error code"@) || contains_seq(text, "something went wrong"@)
        || contains_seq(text, "repeat opening"@) || contains_seq(text, "graphics card"@) || contains_seq(text, "NVIDIA"@)
        || contains_seq(text, "dedicated GPU"@) || contains_seq(text, "Confirm"@)
}

/// A top-level window examined by the dialog closer, with the texts of its
/// child controls.
pub struct DialogCandidate {
    pub owner_pid: u32,
    pub visible: bool,
    pub class_name: String,
    pub title: String,
    pub child_texts: Vec<String>,
}

/// The closer's verdict on a window.
#[derive(Clone, Copy, PartialEq, Eq, Structural, Debug)]
pub struct DialogVerdict {
    pub close: bool,
    pub title_matches: bool,
    pub child_matches: bool,
}

/// A visible Qt window of this process is examined.
pub open spec fn is_examined_dialog(w: DialogCandidate, pid: u32) -> bool {
    w.owner_pid == pid && w.visible && contains_seq(w.class_name@, "Qt"@)
}

/// Some child control's text marks an error dialog.
pub open spec fn has_error_child(w: DialogCandidate) -> bool {
    exists|i: int| 0 <= i < w.child_texts@.len() && is_error_dialog_text(#[trigger] w.child_texts@[i]@)
}

fn contains_text(hay: &str, needle: &str) -> (r: bool)
    ensures
        r == contains_seq(hay@, needle@),
{
    let h = str_to_chars(hay);
    let n = str_to_chars(needle);
    chars_contains(h.as_slice(), n.as_slice())
}

fn error_dialog_text(text: &str) -> (r: bool)
    ensures
        r == is_error_dialog_text(text@),
{
    contains_text(text, "Warning") || contains_text(text, "error code") || contains_text(text, "something went wrong")
        || contains_text(text, "repeat opening") || contains_text(text, "graphics card") || contains_text(text, "NVIDIA")
        || contains_text(text, "dedicated GPU") || contains_text(text, "Confirm")
}

/// Whether a window of process `pid` is an error dialog to close: a
/// visible Qt window of this process whose title, or one of whose child
/// controls, reads like an error. Other windows get an all-false verdict.
pub fn error_dialog_verdict(w: &DialogCandidate, pid: u32) -> (r: DialogVerdict)
    ensures
        !is_examined_dialog(*w, pid) ==> r == (DialogVerdict { close: false, title_matches: false, child_matches: false }),
        is_examined_dialog(*w, pid) ==> {
            &&& r.title_matches == is_error_dialog_title(w.title@)
            &&& r.child_matches == has_error_child(*w)
            &&& r.close == (r.title_matches || r.child_matches)
        },
{
    let none = DialogVerdict { close: false, title_matches: false, child_matches: false };
    if w.owner_pid != pid || !w.visible || !contains_text(w.class_name.as_str(), "Qt") {
        return none;
    }
    let title = str_to_chars(w.title.as_str());
    let title_matches = crate::text::contains_lowercased(title.as_slice(), "warning")
        || crate::text::contains_lowercased(title.as_slice(), "confirm")
        || crate::text::contains_lowercased(title.as_slice(), "error");
    let mut child_matches = false;
    let mut i: usize = 0;
    while i < w.child_texts.len()
        invariant_except_break
            i <= w.child_texts@.len(),
            !child_matches,
            forall|k: int| 0 <= k < i ==> !is_error_dialog_text(#[trigger] w.child_texts@[k]@),
        ensures
            child_matches == has_error_child(*w),
        decreases w.child_texts.len() - i,
    {
        if error_dialog_text(w.child_texts[i].as_str()) {
            child_matches = true;
            assert(is_error_dialog_text(w.child_texts@[i as int]@));
            break;
        }
        i = i + 1;
    }
    DialogVerdict { close: title_matches || child_matches, title_matches, child_matches }
}

// ---------------------------------------------------------------------------
// Shutting the child Hub down after its manager
// ---------------------------------------------------------------------------

/// How long the child Hub watches for its manager's exit, in milliseconds.
pub const BRIDGE_DEADLINE_MS: u64 = 600_000;
/// The pause between two looks, in milliseconds.
pub const BRIDGE_POLL_MS: u64 = 250;

/// Where the watch stands.
#[derive(Clone, Copy, PartialEq, Eq, Structural, Debug)]
pub enum BridgePhase {
    /// At the top of the watch loop.
    Idle,
    /// Waiting for a look at the windows and the process tree.
    Observing,
    /// Waiting to learn whether the manager is still alive.
    CheckingManager { manager_pid: u32 },
    /// Waiting for the application window to be looked up.
    FindingWindow { manager_pid: u32 },
    /// The watch is over.
    Done,
}

/// What the watch learns from outside.
#[derive(Clone, Copy, PartialEq, Eq, Structural, Debug)]
pub enum BridgeEvent {
    /// Back at the top of the loop, `elapsed_ms` after the watch began.
    LoopHead { elapsed_ms: u64 },
    /// A look: whether the application window was shown, and the related
    /// manager that the process tree shows, if any.
    Observed { app_window_shown: bool, related_manager: Option<u32> },
    /// Whether the manager's process still exists.
    ManagerChecked { alive: bool },
    /// The application window, if it was found.
    WindowFound { window: Option<u64> },
}

/// What the watch asks for next.
#[derive(Clone, Copy, PartialEq, Eq, Structural, Debug)]
pub enum BridgeAction {
    /// The watch is over.
    Stop,
    /// Sleep `delay_ms`, then look.
    SleepThenObserve { delay_ms: u64 },
    /// Go back to the top of the loop.
    Continue,
    /// Check whether this manager's process still exists.
    CheckManager { manager_pid: u32 },
    /// Look for the application window.
    FindAppWindow,
    /// Close the window, ask Qt to exit, and end the process.
    Shutdown { manager_pid: u32, window: u64 },
}

/// Whether `event` is the one the watch waits for in `phase`.
pub open spec fn bridge_expects(phase: BridgePhase, event: BridgeEvent) -> bool {
    match phase {
        BridgePhase::Idle | BridgePhase::Done => event is LoopHead,
        BridgePhase::Observing => event is Observed,
        BridgePhase::CheckingManager { .. } => event is ManagerChecked,
        BridgePhase::FindingWindow { .. } => event is WindowFound,
    }
}

/// One step of the watch: the next phase, the manager last seen, and the
/// action.
pub open spec fn bridge_next(phase: BridgePhase, observed: Option<u32>, event: BridgeEvent) -> (
    BridgePhase,
    Option<u32>,
    BridgeAction,
) {
    match event {
        BridgeEvent::LoopHead { elapsed_ms } => if phase is Done || elapsed_ms >= BRIDGE_DEADLINE_MS {
            (BridgePhase::Done, observed, BridgeAction::Stop)
        } else {
            (BridgePhase::Observing, observed, BridgeAction::SleepThenObserve { delay_ms: BRIDGE_POLL_MS })
        },
        BridgeEvent::Observed { app_window_shown, related_manager } => if !app_window_shown {
            (BridgePhase::Idle, observed, BridgeAction::Continue)
        } else {
            match related_manager {
                Some(pid) => (BridgePhase::Idle, Some(pid), BridgeAction::Continue),
                None => match observed {
                    Some(m) => (BridgePhase::CheckingManager { manager_pid: m }, observed, BridgeAction::CheckManager { manager_pid: m }),
                    None => (BridgePhase::Idle, observed, BridgeAction::Continue),
                },
            }
        },
        BridgeEvent::ManagerChecked { alive } => match phase {
            BridgePhase::CheckingManager { manager_pid } => if alive {
                (BridgePhase::Idle, observed, BridgeAction::Continue)
            } else {
                (BridgePhase::FindingWindow { manager_pid }, observed, BridgeAction::FindAppWindow)
            },
            _ => (BridgePhase::Done, observed, BridgeAction::Stop),
        },
        BridgeEvent::WindowFound { window } => match phase {
            BridgePhase::FindingWindow { manager_pid } => match window {
                Some(w) => (BridgePhase::Done, observed, BridgeAction::Shutdown { manager_pid, window: w }),
                None => (BridgePhase::Idle, observed, BridgeAction::Continue),
            },
            _ => (BridgePhase::Done, observed, BridgeAction::Stop),
        },
    }
}

/// The child Hub's watch for its manager's exit: once the application
/// window has been shown and the manager it last saw (at first, the one
/// named on its command line) is gone, it closes the application window and
/// ends the process instead of hanging on exit.
pub struct ShutdownBridge {
    pub phase: BridgePhase,
    pub observed_manager: Option<u32>,
}

impl ShutdownBridge {
    /// The watch, which runs only in the child Hub.
    pub fn start(p: &ProcessInfo) -> (r: Option<ShutdownBridge>)
        ensures
            !(crate::exstar::has_arg(*p, "@#$"@) && exe_is(*p, "EXStar Hub.exe"@)) ==> r is None,
            (crate::exstar::has_arg(*p, "@#$"@) && exe_is(*p, "EXStar Hub.exe"@)) ==> (r matches Some(b)
                && b.phase == BridgePhase::Idle
                && b.observed_manager == (if p.args@.len() > 2 {
                    match crate::text::parse_unsigned(p.args@[2]@, u32::MAX as nat) {
                        Some(n) => Some(n as u32),
                        None => None,
                    }
                } else {
                    None
                })),
    {
        if !crate::exstar::exstar_is_child_hub_process(p) {
            return None;
        }
        Some(ShutdownBridge {
            phase: BridgePhase::Idle,
            observed_manager: crate::exstar::exstar_child_hub_manager_pid_from_args(p),
        })
    }

    /// One step of the watch, on the event it waits for.
    pub fn step(&mut self, event: BridgeEvent) -> (a: BridgeAction)
        requires
            bridge_expects(old(self).phase, event),
        ensures
            (final(self).phase, final(self).observed_manager, a) == bridge_next(
                old(self).phase,
                old(self).observed_manager,
                event,
            ),
    {
        match event {
            BridgeEvent::LoopHead { elapsed_ms } => {
                if self.phase == BridgePhase::Done || elapsed_ms >= BRIDGE_DEADLINE_MS {
                    self.phase = BridgePhase::Done;
                    BridgeAction::Stop
                } else {
                    self.phase = BridgePhase::Observing;
                    BridgeAction::SleepThenObserve { delay_ms: BRIDGE_POLL_MS }
                }
            },
            BridgeEvent::Observed { app_window_shown, related_manager } => {
                if !app_window_shown {
                    self.phase = BridgePhase::Idle;
                    return BridgeAction::Continue;
                }
                match related_manager {
                    Some(pid) => {
                        self.observed_manager = Some(pid);
                        self.phase = BridgePhase::Idle;
                        BridgeAction::Continue
                    },
                    None => match self.observed_manager {
                        Some(m) => {
                            self.phase = BridgePhase::CheckingManager { manager_pid: m };
                            BridgeAction::CheckManager { manager_pid: m }
                        },
                        None => {
                            self.phase = BridgePhase::Idle;
                            BridgeAction::Continue
                        },
                    },
                }
            },
            BridgeEvent::ManagerChecked { alive } => match self.phase {
                BridgePhase::CheckingManager { manager_pid } => {
                    if alive {
                        self.phase = BridgePhase::Idle;
                        BridgeAction::Continue
                    } else {
                        self.phase = BridgePhase::FindingWindow { manager_pid };
                        BridgeAction::FindAppWindow
                    }
                },
                _ => {
                    self.phase = BridgePhase::Done;
                    BridgeAction::Stop
                },
            },
            BridgeEvent::WindowFound { window } => match self.phase {
                BridgePhase::FindingWindow { manager_pid } => match window {
                    Some(w) => {
                        self.phase = BridgePhase::Done;
                        BridgeAction::Shutdown { manager_pid, window: w }
                    },
                    None => {
                        self.phase = BridgePhase::Idle;
                        BridgeAction::Continue
                    },
                },
                _ => {
                    self.phase = BridgePhase::Done;
                    BridgeAction::Stop
                },
            },
        }
    }
}

/// The watch shuts the child Hub down only on finding the application
/// window after learning that the manager it last saw is gone, and it is
/// over once it has: nothing but a stop follows.
pub proof fn law_bridge_shuts_down_once(phase: BridgePhase, observed: Option<u32>, event: BridgeEvent, next_event: BridgeEvent)
    requires
        bridge_expects(phase, event),
        bridge_next(phase, observed, event).2 is Shutdown,
    ensures
        phase matches BridgePhase::FindingWindow { manager_pid } ==> (event matches BridgeEvent::WindowFound { window }
            ==> (window is Some && bridge_next(phase, observed, event).2 == (BridgeAction::Shutdown {
                manager_pid,
                window: window->0,
            }))),
        phase is FindingWindow && event is WindowFound,
        bridge_next(phase, observed, event).0 == BridgePhase::Done,
        bridge_expects(BridgePhase::Done, next_event) ==> bridge_next(
            BridgePhase::Done,
            bridge_next(phase, observed, event).1,
            next_event,
        ).2 == BridgeAction::Stop,
{
}

/// The watch looks only after the manager that it last saw go away: it asks
/// about a manager's process only when a look shows the application window
/// and no related manager, and then about the manager it last saw.
pub proof fn law_bridge_checks_last_seen_manager(phase: BridgePhase, observed: Option<u32>, event: BridgeEvent)
    requires
        bridge_expects(phase, event),
    ensures
        bridge_next(phase, observed, event).2 matches BridgeAction::CheckManager { manager_pid } ==> (observed == Some(manager_pid)),
        bridge_next(phase, observed, event).2 is CheckManager ==> (event matches BridgeEvent::Observed { app_window_shown, related_manager }
            ==> (app_window_shown && related_manager is None)),
        bridge_next(phase, observed, event).2 is CheckManager ==> event is Observed,
{
}

} // verus!

//! Which of the application's libraries the redirect layer hooks: the ones
//! already present when it starts, and each one as it loads.
use vstd::prelude::*;
use crate::exstar::{
    exe_is, exstar_host_trace_enabled, exstar_hub_light_trace_enabled, exstar_hub_quit_compat_enabled,
    exstar_manager_compat_hooks_enabled, ExstarSettings, ProcessInfo,
};
use crate::text::{eq_ci, str_eq_ci};
use rustc_hash::FxHashMap;

verus! {

/// A library of the application that the layer hooks or patches.
#[derive(Clone, Copy, PartialEq, Eq, Structural, Debug)]
pub enum HookTarget {
    AppUi,
    UserPassport,
    Navigation,
    PrestartCheck,
    ProcessPlugin,
    Sn3DBox,
    QtCore,
    QtNetwork,
    QtWidgets,
    QtGui,
    QtTunnel,
    DeviceEinStar,
}

/// The library's file name.
pub open spec fn target_file(t: HookTarget) -> Seq<char> {
    match t {
        HookTarget::AppUi => "AppUi.dll"@,
        HookTarget::UserPassport => "Sn3DUserPassport.dll"@,
        HookTarget::Navigation => "libSn3DNavigation.dll"@,
        HookTarget::PrestartCheck => "PrestartCheck.dll"@,
        HookTarget::ProcessPlugin => "Sn3DProcessPlugin.dll"@,
        HookTarget::Sn3DBox => "Sn3DBox.dll"@,
        HookTarget::QtCore => "Qt5Core.dll"@,
        HookTarget::QtNetwork => "Qt5Network.dll"@,
        HookTarget::QtWidgets => "Qt5Widgets.dll"@,
        HookTarget::QtGui => "Qt5Gui.dll"@,
        HookTarget::QtTunnel => "qttunnel.3.2.7.dll"@,
        HookTarget::DeviceEinStar => "Sn3DDeviceEinStar.dll"@,
    }
}

/// The library's file name.
pub fn target_file_name(t: HookTarget) -> (r: &'static str)
    ensures
        r@ == target_file(t),
{
    match t {
        HookTarget::AppUi => "AppUi.dll",
        HookTarget::UserPassport => "Sn3DUserPassport.dll",
        HookTarget::Navigation => "libSn3DNavigation.dll",
        HookTarget::PrestartCheck => "PrestartCheck.dll",
        HookTarget::ProcessPlugin => "Sn3DProcessPlugin.dll",
        HookTarget::Sn3DBox => "Sn3DBox.dll",
        HookTarget::QtCore => "Qt5Core.dll",
        HookTarget::QtNetwork => "Qt5Network.dll",
        HookTarget::QtWidgets => "Qt5Widgets.dll",
        HookTarget::QtGui => "Qt5Gui.dll",
        HookTarget::QtTunnel => "qttunnel.3.2.7.dll",
        HookTarget::DeviceEinStar => "Sn3DDeviceEinStar.dll",
    }
}

/// The libraries whose loading the layer reacts to, in the order their
/// names are tested.
pub open spec fn load_targets() -> Seq<HookTarget> {
    seq![
        HookTarget::AppUi,
        HookTarget::UserPassport,
        HookTarget::Navigation,
        HookTarget::PrestartCheck,
        HookTarget::ProcessPlugin,
        HookTarget::Sn3DBox,
        HookTarget::QtCore,
        HookTarget::QtNetwork,
        HookTarget::QtWidgets,
        HookTarget::QtGui,
        HookTarget::QtTunnel,
    ]
}

/// The first of `targets`, at or after `i`, whose file name is `name`,
/// compared without regard to ASCII case.
pub open spec fn target_named_from(targets: Seq<HookTarget>, name: Seq<char>, i: int) -> Option<HookTarget>
    decreases targets.len() - i,
{
    if i < 0 || i >= targets.len() {
        None
    } else if eq_ci(name, target_file(targets[i])) {
        Some(targets[i])
    } else {
        target_named_from(targets, name, i + 1)
    }
}

/// The library that a loaded file named `name` is, among those the layer
/// reacts to.
pub open spec fn loaded_target(name: Seq<char>) -> Option<HookTarget> {
    target_named_from(load_targets(), name, 0)
}

fn load_target_list() -> (r: Vec<HookTarget>)
    ensures
        r@ == load_targets(),
{
    let r = vec![
        HookTarget::AppUi,
        HookTarget::UserPassport,
        HookTarget::Navigation,
        HookTarget::PrestartCheck,
        HookTarget::ProcessPlugin,
        HookTarget::Sn3DBox,
        HookTarget::QtCore,
        HookTarget::QtNetwork,
        HookTarget::QtWidgets,
        HookTarget::QtGui,
        HookTarget::QtTunnel,
    ];
    assert(r@ =~= load_targets());
    r
}

/// The library a loaded file is, among those the layer reacts to.
pub fn loaded_target_of(name: &str) -> (r: Option<HookTarget>)
    ensures
        r == loaded_target(name@),
{
    let targets = load_target_list();
    let mut i: usize = 0;
    while i < targets.len()
        invariant
            targets@ == load_targets(),
            i <= targets@.len(),
            loaded_target(name@) == target_named_from(targets@, name@, i as int),
        decreases targets.len() - i,
    {
        if str_eq_ci(name, target_file_name(targets[i])) {
            return Some(targets[i]);
        }
        i = i + 1;
    }
    None
}

/// What the layer does once a library has loaded.
#[derive(Clone, Copy, PartialEq, Eq, Structural, Debug)]
pub struct LoadPlan {
    /// The load is logged.
    pub log: bool,
    /// The prestart check is patched in memory.
    pub patch_prestart: bool,
    /// The library whose hooks are attached.
    pub hook: Option<HookTarget>,
}

/// A library named `dll_name` (the file name, without its directory) has
/// loaded, successfully when `load_ok`. The layer reacts under host tracing,
/// the Hub's light tracing or the Hub's quit compatibility; as the last is
/// always on, it reacts to every successful load of a library it knows: the
/// load is logged under host tracing, the prestart check is patched, and
/// every other such library has its hooks attached.
pub fn on_load_plan(s: &ExstarSettings, p: &ProcessInfo, load_ok: bool, dll_name: &str) -> (r: LoadPlan)
    ensures
        !(load_ok && loaded_target(dll_name@) is Some)
            ==> r == (LoadPlan { log: false, patch_prestart: false, hook: None }),
        (load_ok && loaded_target(dll_name@) is Some) ==> {
            &&& r.log == s.host_trace
            &&& r.patch_prestart == (loaded_target(dll_name@) == Some(HookTarget::PrestartCheck))
            &&& r.hook == (if loaded_target(dll_name@) == Some(HookTarget::PrestartCheck) {
                None
            } else {
                loaded_target(dll_name@)
            })
        },
{
    let none = LoadPlan { log: false, patch_prestart: false, hook: None };
    let host = exstar_host_trace_enabled(s);
    if !load_ok || (!host && !exstar_hub_quit_compat_enabled() && !exstar_hub_light_trace_enabled(s, p)) {
        return none;
    }
    match loaded_target_of(dll_name) {
        None => none,
        Some(HookTarget::PrestartCheck) => LoadPlan { log: host, patch_prestart: true, hook: None },
        Some(t) => LoadPlan { log: host, patch_prestart: false, hook: Some(t) },
    }
}

/// The libraries hooked when the layer starts, if they are already loaded,
/// in order: everything under host tracing; otherwise the Qt libraries that
/// the Hub's quit compatibility needs (the light tracing's own list applies
/// only without that compatibility); and the EinStar device library in the
/// scan service.
pub open spec fn existing_targets(s: ExstarSettings, p: ProcessInfo) -> Seq<HookTarget> {
    let base = if s.host_trace {
        seq![
            HookTarget::AppUi,
            HookTarget::UserPassport,
            HookTarget::ProcessPlugin,
            HookTarget::QtCore,
            HookTarget::QtNetwork,
            HookTarget::Sn3DBox,
            HookTarget::QtWidgets,
            HookTarget::QtGui,
            HookTarget::QtTunnel,
        ]
    } else {
        seq![HookTarget::QtCore, HookTarget::QtWidgets, HookTarget::QtGui]
    };
    if exe_is(p, "scanservice.exe"@) {
        base.push(HookTarget::DeviceEinStar)
    } else {
        base
    }
}

/// The hooks installed when the layer starts.
pub struct StartupPlan {
    /// The libraries to hook, if loaded, in order.
    pub modules: Vec<HookTarget>,
    /// The executable's entry points of the Hub, the manager and the scan
    /// service are hooked.
    pub exe_detours: bool,
    /// Only the process manager's entry points are hooked.
    pub manager_exe_detour_only: bool,
}

/// The layer's start: which already loaded libraries and which of the
/// executable's entry points it hooks. Host tracing hooks every executable;
/// otherwise the manager's compatibility hooks (always on) hook the manager.
pub fn startup_plan(s: &ExstarSettings, p: &ProcessInfo) -> (r: StartupPlan)
    ensures
        r.modules@ == existing_targets(*s, *p),
        r.exe_detours == s.host_trace,
        r.manager_exe_detour_only == !s.host_trace,
{
    let host = exstar_host_trace_enabled(s);
    let quit = exstar_hub_quit_compat_enabled();
    let light = exstar_hub_light_trace_enabled(s, p);
    let manager = exstar_manager_compat_hooks_enabled(s);
    let mut modules: Vec<HookTarget> = Vec::new();
    if host {
        modules.push(HookTarget::AppUi);
        modules.push(HookTarget::UserPassport);
        modules.push(HookTarget::ProcessPlugin);
        modules.push(HookTarget::QtCore);
        modules.push(HookTarget::QtNetwork);
        modules.push(HookTarget::Sn3DBox);
        modules.push(HookTarget::QtWidgets);
        modules.push(HookTarget::QtGui);
        modules.push(HookTarget::QtTunnel);
    } else {
        if quit {
            modules.push(HookTarget::QtCore);
            modules.push(HookTarget::QtWidgets);
            modules.push(HookTarget::QtGui);
        }
        if light && !quit {
            modules.push(HookTarget::Sn3DBox);
            modules.push(HookTarget::QtWidgets);
            modules.push(HookTarget::QtGui);
        }
    }
    let scanservice = match &p.exe_name {
        Some(n) => str_eq_ci(n.as_str(), "scanservice.exe"),
        None => false,
    };
    if scanservice {
        modules.push(HookTarget::DeviceEinStar);
    }
    assert(modules@ =~= existing_targets(*s, *p));
    StartupPlan { modules, exe_detours: host, manager_exe_detour_only: !host && manager }
}

// ---------------------------------------------------------------------------
// The executables' own entry points
// ---------------------------------------------------------------------------

/// A set of marks keyed by a module handle, hashed with `FxBuildHasher`.
pub type ModuleMarks = FxHashMap<u64, ()>;

/// `HashMap::contains_key` on a map hashed with `FxBuildHasher`: every
/// hasher it builds starts from the same state, so a key always hashes alike
/// and the answer is whether the map holds the key.
#[verifier::external_body]
fn fx_marks_contains(m: &ModuleMarks, key: u64) -> (r: bool)
    ensures
        r == m@.contains_key(key),
{
    m.contains_key(&key)
}

/// `HashMap::insert` on a map hashed with `FxBuildHasher`: the key is now
/// held.
#[verifier::external_body]
fn fx_marks_insert(m: &mut ModuleMarks, key: u64)
    ensures
        final(m)@ == old(m)@.insert(key, ()),
{
    m.insert(key, ());
}

/// The executables whose own entry points are hooked.
#[derive(Clone, Copy, PartialEq, Eq, Structural, Debug)]
pub enum ExeHookKind {
    /// EXStar Hub.
    Hub,
    /// The process manager.
    Manager,
    /// The scan service.
    ScanService,
}

/// The mark under which an executable's hooks are recorded for a module.
pub open spec fn exe_hook_key(kind: ExeHookKind, handle: u64) -> u64 {
    match kind {
        ExeHookKind::Hub => handle,
        ExeHookKind::Manager => handle ^ 0x53504D47u64,
        ExeHookKind::ScanService => handle ^ 0x6A40u64,
    }
}

/// Whether this process's executable takes that kind of hooks: the Hub
/// under executable tracing; the manager under executable tracing or its
/// compatibility hooks (always on); the scan service always.
pub open spec fn exe_hooks_apply(s: ExstarSettings, p: ProcessInfo, kind: ExeHookKind) -> bool {
    match kind {
        ExeHookKind::Hub => s.exe_trace && exe_is(p, "EXStar Hub.exe"@),
        ExeHookKind::Manager => exe_is(p, "Sn3DprocessManager.exe"@),
        ExeHookKind::ScanService => exe_is(p, "scanservice.exe"@),
    }
}

/// The modules whose executable hooks were attached, by mark.
pub struct ExeHookMarks {
    marks: ModuleMarks,
}

impl View for ExeHookMarks {
    type V = Set<u64>;

    /// The marks recorded so far.
    closed spec fn view(&self) -> Set<u64> {
        self.marks@.dom()
    }
}

impl ExeHookMarks {
    /// No executable hooked yet.
    pub fn new() -> (r: ExeHookMarks)
        ensures
            r@ == Set::<u64>::empty(),
    {
        let r = ExeHookMarks { marks: ModuleMarks::default() };
        assert(r@ =~= Set::<u64>::empty());
        r
    }

    /// Whether the hooks of `kind` are to be attached to the executable
    /// loaded at `handle`: only where they apply, and once per module. A
    /// claim that is granted records the module.
    pub fn claim(&mut self, s: &ExstarSettings, p: &ProcessInfo, kind: ExeHookKind, handle: u64) -> (r: bool)
        ensures
            r == (exe_hooks_apply(*s, *p, kind) && !old(self)@.contains(exe_hook_key(kind, handle))),
            final(self)@ == (if r { old(self)@.insert(exe_hook_key(kind, handle)) } else { old(self)@ }),
    {
        let applies = match kind {
            ExeHookKind::Hub => crate::exstar::exstar_exe_trace_enabled(s) && crate::exstar::exstar_window_trace_enabled(p),
            ExeHookKind::Manager => {
                crate::exstar::exstar_current_process_is_manager(p) && (crate::exstar::exstar_exe_trace_enabled(s)
                    || exstar_manager_compat_hooks_enabled(s))
            },
            ExeHookKind::ScanService => match &p.exe_name {
                Some(n) => str_eq_ci(n.as_str(), "scanservice.exe"),
                None => false,
            },
        };
        if !applies {
            return false;
        }
        let key = match kind {
            ExeHookKind::Hub => handle,
            ExeHookKind::Manager => handle ^ 0x53504D47u64,
            ExeHookKind::ScanService => handle ^ 0x6A40u64,
        };
        if fx_marks_contains(&self.marks, key) {
            return false;
        }
        fx_marks_insert(&mut self.marks, key);
        proof {
            assert(self@ =~= old(self)@.insert(key));
        }
        true
    }
}

/// The entry points of the process manager's executable that can be hooked,
/// by what they do and where they sit.
#[derive(Clone, Copy, PartialEq, Eq, Structural, Debug)]
pub enum ManagerProbe {
    /// `killAll`, at +0xE1A0.
    KillAllE1a0,
    /// `loadConfig`, at +0xEF30.
    LoadConfigEf30,
    /// `killOneProcess`, at +0xE560.
    KillOneE560,
    /// The environment detection (OpenGL helper and media player checks),
    /// at +0x5E30, which the hook bypasses.
    EnvDetect5e30,
    /// The launch of a managed process, at +0xF5F0.
    LaunchF5f0,
}

/// The manager's hooks, in the order they are attached: the kill-all and
/// load-config hooks under host tracing, second-sweep skipping or light
/// tracing; the kill-one hook and the environment-detection bypass always;
/// the launch hook under host or light tracing.
pub open spec fn manager_probe_plan(host: bool, skip_second_sweep: bool, light: bool) -> Seq<ManagerProbe> {
    (if host || skip_second_sweep || light {
        seq![ManagerProbe::KillAllE1a0, ManagerProbe::LoadConfigEf30]
    } else {
        Seq::empty()
    }) + seq![ManagerProbe::KillOneE560, ManagerProbe::EnvDetect5e30] + (if host || light {
        seq![ManagerProbe::LaunchF5f0]
    } else {
        Seq::empty()
    })
}

/// The hooks to attach to the process manager's executable under these
/// settings.
pub fn manager_exe_probes(s: &ExstarSettings) -> (r: Vec<ManagerProbe>)
    ensures
        r@ == manager_probe_plan(s.host_trace, s.skip_second_sweep, s.light_trace),
{
    let mut r: Vec<ManagerProbe> = Vec::new();
    if s.host_trace || s.skip_second_sweep || s.light_trace {
        r.push(ManagerProbe::KillAllE1a0);
        r.push(ManagerProbe::LoadConfigEf30);
    }
    r.push(ManagerProbe::KillOneE560);
    r.push(ManagerProbe::EnvDetect5e30);
    if s.host_trace || s.light_trace {
        r.push(ManagerProbe::LaunchF5f0);
    }
    assert(r@ =~= manager_probe_plan(s.host_trace, s.skip_second_sweep, s.light_trace));
    r
}

/// The environment-detection bypass and the kill-one hook are attached under
/// every setting; the kill-all and load-config hooks, which feed the
/// second-sweep bookkeeping, exactly when host tracing, second-sweep
/// skipping or light tracing is on; the launch hook exactly under host or
/// light tracing; and no hook is attached twice.
pub proof fn law_manager_probes(host: bool, skip_second_sweep: bool, light: bool)
    ensures
        manager_probe_plan(host, skip_second_sweep, light).contains(ManagerProbe::EnvDetect5e30),
        manager_probe_plan(host, skip_second_sweep, light).contains(ManagerProbe::KillOneE560),
        manager_probe_plan(host, skip_second_sweep, light).contains(ManagerProbe::KillAllE1a0) == (host
            || skip_second_sweep || light),
        manager_probe_plan(host, skip_second_sweep, light).contains(ManagerProbe::LoadConfigEf30) == (host
            || skip_second_sweep || light),
        manager_probe_plan(host, skip_second_sweep, light).contains(ManagerProbe::LaunchF5f0) == (host || light),
        manager_probe_plan(host, skip_second_sweep, light).no_duplicates(),
{
    let p = manager_probe_plan(host, skip_second_sweep, light);
    let k: int = if host || skip_second_sweep || light { 2 } else { 0 };
    assert(p[k] == ManagerProbe::KillOneE560);
    assert(p[k + 1] == ManagerProbe::EnvDetect5e30);
    if host || skip_second_sweep || light {
        assert(p[0] == ManagerProbe::KillAllE1a0);
        assert(p[1] == ManagerProbe::LoadConfigEf30);
    } else {
        assert(!p.contains(ManagerProbe::KillAllE1a0));
        assert(!p.contains(ManagerProbe::LoadConfigEf30));
    }
    if host || light {
        assert(p[k + 2] == ManagerProbe::LaunchF5f0);
    } else {
        assert(!p.contains(ManagerProbe::LaunchF5f0));
    }
}

} // verus!

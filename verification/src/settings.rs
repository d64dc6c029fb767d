//! The runtime's debug switches. Each one is read once from the process
//! environment; the library decodes a snapshot of the environment, given as
//! (name, value) pairs, into a `DebugSettings` value.
use vstd::prelude::*;
use crate::text::{
    chars_eq, chars_to_lower, chars_to_string, chars_trim, lower_seq, parse_u64, parse_unsigned, str_to_chars,
    trim,
};

verus! {

/// The value of the first variable called `name`, as `std::env::var` finds it.
pub open spec fn env_lookup(vars: Seq<(String, String)>, name: Seq<char>) -> Option<Seq<char>>
    decreases vars.len(),
{
    if vars.len() == 0 {
        None
    } else if vars[0].0@ == name {
        Some(vars[0].1@)
    } else {
        env_lookup(vars.drop_first(), name)
    }
}

/// The words that switch a flag off once trimmed and lowercased.
pub open spec fn is_off_word(s: Seq<char>) -> bool {
    s == ""@ || s == "0"@ || s == "false"@ || s == "no"@ || s == "off"@
}

/// A flag is on when the variable is set to anything but an off word.
pub open spec fn flag_value(v: Option<Seq<char>>) -> bool {
    match v {
        None => false,
        Some(s) => !is_off_word(lower_seq(trim(s))),
    }
}

/// A count is the trimmed value read as a `u32`, kept only when positive.
pub open spec fn count_value(v: Option<Seq<char>>) -> Option<u32> {
    match v {
        None => None,
        Some(s) => match parse_unsigned(trim(s), u32::MAX as nat) {
            Some(n) => if n > 0 { Some(n as u32) } else { None },
            None => None,
        },
    }
}

/// A substring setting is the trimmed value, kept only when non-empty.
pub open spec fn substring_value(v: Option<Seq<char>>) -> Option<Seq<char>> {
    match v {
        None => None,
        Some(s) => if trim(s).len() > 0 { Some(trim(s)) } else { None },
    }
}

/// Device qualification stays on unless the variable is exactly "0".
pub open spec fn qualification_value(v: Option<Seq<char>>) -> bool {
    v != Some("0"@)
}

/// The characters of an optional string.
pub open spec fn opt_view(o: Option<String>) -> Option<Seq<char>> {
    match o {
        Some(s) => Some(s@),
        None => None,
    }
}

/// The decoded debug switches.
pub struct DebugSettings {
    pub launch: bool,
    pub sync: bool,
    pub sync_after_launch: bool,
    pub stream_memory: bool,
    pub block_kernel_substring: Option<String>,
    pub block_module_substring: Option<String>,
    pub disable_cls: bool,
    pub null_cls_value: bool,
    pub fail_cls_put: bool,
    pub fail_cls_get: bool,
    pub fail_first_cls_put: bool,
    pub fail_cls_put_count: Option<u32>,
    pub fail_cls_get_after_count: Option<u32>,
    pub trace_cls_get_hit_count: Option<u32>,
    pub compat_cls_put_window: bool,
    pub compat_cls_pattern_window: bool,
    pub compat_cls_module_window: bool,
    pub color_correct_cls_compat: bool,
    pub trace_cls_success: bool,
    pub device_qualification_compat: bool,
}

/// `std::env::var(name)` on the snapshot.
pub fn env_value(vars: &[(String, String)], name: &str) -> (r: Option<String>)
    ensures
        opt_view(r) == env_lookup(vars@, name@),
{
    let key = name.to_owned();
    let mut i: usize = 0;
    assert(vars@.subrange(0, vars@.len() as int) =~= vars@);
    while i < vars.len()
        invariant
            key@ == name@,
            0 <= i <= vars@.len(),
            env_lookup(vars@, name@) == env_lookup(vars@.subrange(i as int, vars@.len() as int), name@),
        decreases vars.len() - i,
    {
        let ghost rest = vars@.subrange(i as int, vars@.len() as int);
        assert(rest[0] == vars@[i as int]);
        if vars[i].0 == key {
            return Some(vars[i].1.clone());
        }
        assert(rest.drop_first() =~= vars@.subrange(i + 1, vars@.len() as int));
        i = i + 1;
    }
    assert(vars@.subrange(i as int, vars@.len() as int).len() == 0);
    None
}

/// Whether a trimmed, lowercased value is one of the off words.
fn is_off_text(s: &[char]) -> (r: bool)
    ensures
        r == is_off_word(s@),
{
    let empty = str_to_chars("");
    let zero = str_to_chars("0");
    let no_false = str_to_chars("false");
    let no = str_to_chars("no");
    let off = str_to_chars("off");
    chars_eq(s, empty.as_slice()) || chars_eq(s, zero.as_slice()) || chars_eq(s, no_false.as_slice())
        || chars_eq(s, no.as_slice()) || chars_eq(s, off.as_slice())
}

/// Decodes an on/off switch: unset, or set to "", "0", "false", "no" or "off"
/// in any ASCII case and with surrounding whitespace, is off; anything else is on.
pub fn env_flag(value: Option<&str>) -> (r: bool)
    ensures
        r == flag_value(match value { Some(s) => Some(s@), None => None }),
{
    match value {
        None => false,
        Some(s) => {
            let chars = str_to_chars(s);
            let trimmed = chars_trim(chars.as_slice());
            let lowered = chars_to_lower(trimmed.as_slice());
            !is_off_text(lowered.as_slice())
        },
    }
}

/// `str::parse::<u32>`.
pub fn parse_u32(s: &[char]) -> (r: Option<u32>)
    ensures
        match r {
            Some(v) => parse_unsigned(s@, u32::MAX as nat) == Some(v as nat),
            None => parse_unsigned(s@, u32::MAX as nat) is None,
        },
{
    match parse_u64(s) {
        Some(v) => {
            if v <= u32::MAX as u64 {
                Some(v as u32)
            } else {
                None
            }
        },
        None => None,
    }
}

/// Decodes a positive count: the trimmed value read as a `u32`; unset,
/// unreadable and zero all mean no count.
pub fn env_count(value: Option<&str>) -> (r: Option<u32>)
    ensures
        r == count_value(match value { Some(s) => Some(s@), None => None }),
{
    match value {
        None => None,
        Some(s) => {
            let chars = str_to_chars(s);
            let trimmed = chars_trim(chars.as_slice());
            match parse_u32(trimmed.as_slice()) {
                Some(n) => if n > 0 { Some(n) } else { None },
                None => None,
            }
        },
    }
}

/// Decodes a substring filter: the trimmed value, unless that is empty.
pub fn env_substring(value: Option<&str>) -> (r: Option<String>)
    ensures
        opt_view(r) == substring_value(match value { Some(s) => Some(s@), None => None }),
{
    match value {
        None => None,
        Some(s) => {
            let chars = str_to_chars(s);
            let trimmed = chars_trim(chars.as_slice());
            if trimmed.len() > 0 {
                Some(chars_to_string(trimmed.as_slice()))
            } else {
                None
            }
        },
    }
}

/// The optional value as a string slice.
fn opt_str(o: &Option<String>) -> (r: Option<&str>)
    ensures
        match r { Some(s) => Some(s@), None => None } == opt_view(*o),
{
    match o {
        Some(s) => Some(s.as_str()),
        None => None,
    }
}

fn flag_of(vars: &[(String, String)], name: &str) -> (r: bool)
    ensures
        r == flag_value(env_lookup(vars@, name@)),
{
    let v = env_value(vars, name);
    env_flag(opt_str(&v))
}

fn count_of(vars: &[(String, String)], name: &str) -> (r: Option<u32>)
    ensures
        r == count_value(env_lookup(vars@, name@)),
{
    let v = env_value(vars, name);
    env_count(opt_str(&v))
}

fn substring_of(vars: &[(String, String)], name: &str) -> (r: Option<String>)
    ensures
        opt_view(r) == substring_value(env_lookup(vars@, name@)),
{
    let v = env_value(vars, name);
    env_substring(opt_str(&v))
}

impl DebugSettings {
    /// Reads every switch from an environment snapshot.
    pub fn from_env(vars: &[(String, String)]) -> (s: DebugSettings)
        ensures
            s.launch == flag_value(env_lookup(vars@, "ZLUDA_DEBUG_LAUNCH"@)),
            s.sync == flag_value(env_lookup(vars@, "ZLUDA_DEBUG_SYNC"@)),
            s.sync_after_launch == flag_value(env_lookup(vars@, "ZLUDA_DEBUG_SYNC_AFTER_LAUNCH"@)),
            s.stream_memory == flag_value(env_lookup(vars@, "ZLUDA_DEBUG_STREAM_MEMORY"@)),
            opt_view(s.block_kernel_substring) == substring_value(
                env_lookup(vars@, "ZLUDA_DEBUG_BLOCK_KERNEL_SUBSTRING"@),
            ),
            opt_view(s.block_module_substring) == substring_value(
                env_lookup(vars@, "ZLUDA_DEBUG_BLOCK_MODULE_SUBSTRING"@),
            ),
            s.disable_cls == flag_value(env_lookup(vars@, "ZLUDA_DEBUG_DISABLE_CLS"@)),
            s.null_cls_value == flag_value(env_lookup(vars@, "ZLUDA_DEBUG_NULL_CLS_VALUE"@)),
            s.fail_cls_put == flag_value(env_lookup(vars@, "ZLUDA_DEBUG_FAIL_CLS_PUT"@)),
            s.fail_cls_get == flag_value(env_lookup(vars@, "ZLUDA_DEBUG_FAIL_CLS_GET"@)),
            s.fail_first_cls_put == flag_value(env_lookup(vars@, "ZLUDA_DEBUG_FAIL_FIRST_CLS_PUT"@)),
            s.fail_cls_put_count == count_value(env_lookup(vars@, "ZLUDA_DEBUG_FAIL_CLS_PUT_COUNT"@)),
            s.fail_cls_get_after_count == count_value(
                env_lookup(vars@, "ZLUDA_DEBUG_FAIL_CLS_GET_AFTER_COUNT"@),
            ),
            s.trace_cls_get_hit_count == count_value(
                env_lookup(vars@, "ZLUDA_DEBUG_TRACE_CLS_GET_HIT_COUNT"@),
            ),
            s.compat_cls_put_window == flag_value(
                env_lookup(vars@, "ZLUDA_DEBUG_COMPAT_CLS_PUT_WINDOW"@),
            ),
            s.compat_cls_pattern_window == flag_value(
                env_lookup(vars@, "ZLUDA_DEBUG_COMPAT_CLS_PATTERN_WINDOW"@),
            ),
            s.compat_cls_module_window == flag_value(
                env_lookup(vars@, "ZLUDA_DEBUG_COMPAT_CLS_MODULE_WINDOW"@),
            ),
            s.color_correct_cls_compat == flag_value(
                env_lookup(vars@, "ZLUDA_EXSTAR_COLOR_CORRECT_CLS_COMPAT"@),
            ),
            s.trace_cls_success == flag_value(env_lookup(vars@, "ZLUDA_DEBUG_TRACE_CLS_SUCCESS"@)),
            s.device_qualification_compat == qualification_value(
                env_lookup(vars@, "ZLUDA_EXSTAR_DEVICE_QUALIFICATION_COMPAT"@),
            ),
    {
        let qualification = env_value(vars, "ZLUDA_EXSTAR_DEVICE_QUALIFICATION_COMPAT");
        let zero = "0".to_owned();
        let device_qualification_compat = match &qualification {
            Some(v) => !(*v == zero),
            None => true,
        };
        DebugSettings {
            launch: flag_of(vars, "ZLUDA_DEBUG_LAUNCH"),
            sync: flag_of(vars, "ZLUDA_DEBUG_SYNC"),
            sync_after_launch: flag_of(vars, "ZLUDA_DEBUG_SYNC_AFTER_LAUNCH"),
            stream_memory: flag_of(vars, "ZLUDA_DEBUG_STREAM_MEMORY"),
            block_kernel_substring: substring_of(vars, "ZLUDA_DEBUG_BLOCK_KERNEL_SUBSTRING"),
            block_module_substring: substring_of(vars, "ZLUDA_DEBUG_BLOCK_MODULE_SUBSTRING"),
            disable_cls: flag_of(vars, "ZLUDA_DEBUG_DISABLE_CLS"),
            null_cls_value: flag_of(vars, "ZLUDA_DEBUG_NULL_CLS_VALUE"),
            fail_cls_put: flag_of(vars, "ZLUDA_DEBUG_FAIL_CLS_PUT"),
            fail_cls_get: flag_of(vars, "ZLUDA_DEBUG_FAIL_CLS_GET"),
            fail_first_cls_put: flag_of(vars, "ZLUDA_DEBUG_FAIL_FIRST_CLS_PUT"),
            fail_cls_put_count: count_of(vars, "ZLUDA_DEBUG_FAIL_CLS_PUT_COUNT"),
            fail_cls_get_after_count: count_of(vars, "ZLUDA_DEBUG_FAIL_CLS_GET_AFTER_COUNT"),
            trace_cls_get_hit_count: count_of(vars, "ZLUDA_DEBUG_TRACE_CLS_GET_HIT_COUNT"),
            compat_cls_put_window: flag_of(vars, "ZLUDA_DEBUG_COMPAT_CLS_PUT_WINDOW"),
            compat_cls_pattern_window: flag_of(vars, "ZLUDA_DEBUG_COMPAT_CLS_PATTERN_WINDOW"),
            compat_cls_module_window: flag_of(vars, "ZLUDA_DEBUG_COMPAT_CLS_MODULE_WINDOW"),
            color_correct_cls_compat: flag_of(vars, "ZLUDA_EXSTAR_COLOR_CORRECT_CLS_COMPAT"),
            trace_cls_success: flag_of(vars, "ZLUDA_DEBUG_TRACE_CLS_SUCCESS"),
            device_qualification_compat,
        }
    }
}

/// Launch tracing (`ZLUDA_DEBUG_LAUNCH`).
pub fn launch_logging_enabled(s: &DebugSettings) -> (r: bool)
    ensures
        r == s.launch,
{
    s.launch
}

/// Synchronisation tracing (`ZLUDA_DEBUG_SYNC`).
pub fn sync_logging_enabled(s: &DebugSettings) -> (r: bool)
    ensures
        r == s.sync,
{
    s.sync
}

/// Synchronising every stream after a successful launch
/// (`ZLUDA_DEBUG_SYNC_AFTER_LAUNCH`).
pub fn sync_after_launch_enabled(s: &DebugSettings) -> (r: bool)
    ensures
        r == s.sync_after_launch,
{
    s.sync_after_launch
}

/// Stream and memory tracing (`ZLUDA_DEBUG_STREAM_MEMORY`).
pub fn stream_memory_logging_enabled(s: &DebugSettings) -> (r: bool)
    ensures
        r == s.stream_memory,
{
    s.stream_memory
}

/// The kernel-name filter of blocked launches.
pub fn blocked_kernel_substring(s: &DebugSettings) -> (r: Option<String>)
    ensures
        opt_view(r) == opt_view(s.block_kernel_substring),
{
    match &s.block_kernel_substring {
        Some(v) => Some(v.clone()),
        None => None,
    }
}

/// The module-name filter of blocked launches.
pub fn blocked_module_substring(s: &DebugSettings) -> (r: Option<String>)
    ensures
        opt_view(r) == opt_view(s.block_module_substring),
{
    match &s.block_module_substring {
        Some(v) => Some(v.clone()),
        None => None,
    }
}

/// Context-local storage refuses everything.
pub fn cls_disabled(s: &DebugSettings) -> (r: bool)
    ensures
        r == s.disable_cls,
{
    s.disable_cls
}

/// Context-local storage stores null values.
pub fn cls_null_value(s: &DebugSettings) -> (r: bool)
    ensures
        r == s.null_cls_value,
{
    s.null_cls_value
}

/// Context-local storage refuses every put.
pub fn cls_put_fails(s: &DebugSettings) -> (r: bool)
    ensures
        r == s.fail_cls_put,
{
    s.fail_cls_put
}

/// Context-local storage refuses every get.
pub fn cls_get_fails(s: &DebugSettings) -> (r: bool)
    ensures
        r == s.fail_cls_get,
{
    s.fail_cls_get
}

/// Context-local storage refuses the first put of each key.
pub fn cls_first_put_fails(s: &DebugSettings) -> (r: bool)
    ensures
        r == s.fail_first_cls_put,
{
    s.fail_first_cls_put
}

/// How many puts of each key context-local storage refuses first.
pub fn cls_put_fail_count(s: &DebugSettings) -> (r: Option<u32>)
    ensures
        r == s.fail_cls_put_count,
{
    s.fail_cls_put_count
}

/// After how many good reads of a key its gets fail.
pub fn cls_get_fail_after_count(s: &DebugSettings) -> (r: Option<u32>)
    ensures
        r == s.fail_cls_get_after_count,
{
    s.fail_cls_get_after_count
}

/// The read number of a key that is traced.
pub fn trace_cls_get_hit_count(s: &DebugSettings) -> (r: Option<u32>)
    ensures
        r == s.trace_cls_get_hit_count,
{
    s.trace_cls_get_hit_count
}

/// The compatibility window for puts with destructor.
pub fn compat_cls_put_window(s: &DebugSettings) -> (r: bool)
    ensures
        r == s.compat_cls_put_window,
{
    s.compat_cls_put_window
}

/// The compatibility window for puts after repeated misses.
pub fn compat_cls_pattern_window(s: &DebugSettings) -> (r: bool)
    ensures
        r == s.compat_cls_pattern_window,
{
    s.compat_cls_pattern_window
}

/// The compatibility window for the colour-correction module, switched on by
/// either of its two variables.
pub fn compat_cls_module_window(s: &DebugSettings) -> (r: bool)
    ensures
        r == (s.compat_cls_module_window || s.color_correct_cls_compat),
{
    s.compat_cls_module_window || s.color_correct_cls_compat
}

/// Tracing of the first successful put and get of each key.
pub fn trace_cls_success(s: &DebugSettings) -> (r: bool)
    ensures
        r == s.trace_cls_success,
{
    s.trace_cls_success
}

/// Reporting NVIDIA device attributes to EXStar.
pub fn exstar_device_qualification_compat(s: &DebugSettings) -> (r: bool)
    ensures
        r == s.device_qualification_compat,
{
    s.device_qualification_compat
}

} // verus!

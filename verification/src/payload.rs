//! Reading EXStar's message payloads: which memory may be read, which UTF-16
//! runs count as readable text, how the strings found are collected, and the
//! classifications the hooks make of the joined payload text.
use vstd::prelude::*;
use crate::exstar::strings_view;
use crate::text::{
    chars_contains, chars_eq_ci, chars_split, chars_to_lower, chars_to_string, chars_trim, contains_lowercased,
    contains_seq, eq_ci, lower_seq, split_seq, str_eq_ci, str_to_chars, trim,
};

verus! {

pub const MEM_COMMIT: u32 = 0x1000;
pub const PAGE_NOACCESS: u32 = 0x01;
pub const PAGE_READONLY: u32 = 0x02;
pub const PAGE_READWRITE: u32 = 0x04;
pub const PAGE_WRITECOPY: u32 = 0x08;
pub const PAGE_EXECUTE: u32 = 0x10;
pub const PAGE_EXECUTE_READ: u32 = 0x20;
pub const PAGE_EXECUTE_READWRITE: u32 = 0x40;
pub const PAGE_EXECUTE_WRITECOPY: u32 = 0x80;
pub const PAGE_GUARD: u32 = 0x100;

/// What `VirtualQuery` reported for the region holding an address.
#[derive(Clone, Copy, PartialEq, Eq, Structural, Debug)]
pub struct MemoryRegion {
    pub base: usize,
    pub size: usize,
    pub state: u32,
    pub protect: u32,
}

/// `usize::saturating_add`.
pub open spec fn sat_add(a: usize, b: usize) -> int {
    if a + b > usize::MAX {
        usize::MAX as int
    } else {
        a + b
    }
}

/// The protections under which a page may be read.
pub open spec fn is_readable_protection(protect: u32) -> bool {
    protect == PAGE_READONLY || protect == PAGE_READWRITE || protect == PAGE_WRITECOPY || protect
        == PAGE_EXECUTE || protect == PAGE_EXECUTE_READ || protect == PAGE_EXECUTE_READWRITE || protect
        == PAGE_EXECUTE_WRITECOPY
}

/// `min_len` bytes at `ptr` may be read, given the region that holds `ptr`
/// (absent when the query failed).
pub open spec fn readable(ptr: usize, min_len: usize, region: Option<MemoryRegion>) -> bool {
    &&& ptr != 0
    &&& min_len != 0
    &&& region matches Some(r)
    &&& r.state == MEM_COMMIT
    &&& r.protect != PAGE_NOACCESS
    &&& r.protect & PAGE_GUARD == 0
    &&& is_readable_protection(r.protect)
    &&& ptr >= r.base
    &&& sat_add(ptr, min_len) <= sat_add(r.base, r.size)
}

/// Whether `min_len` bytes at `ptr` may be read: the region must be committed,
/// readable and not a guard page, and hold the whole range.
pub fn memory_readable(ptr: usize, min_len: usize, region: Option<MemoryRegion>) -> (r: bool)
    ensures
        r == readable(ptr, min_len, region),
{
    if ptr == 0 || min_len == 0 {
        return false;
    }
    let m = match region {
        Some(m) => m,
        None => return false,
    };
    if m.state != MEM_COMMIT {
        return false;
    }
    if m.protect == PAGE_NOACCESS || (m.protect & PAGE_GUARD) != 0 {
        return false;
    }
    let p = m.protect;
    let ok = p == PAGE_READONLY || p == PAGE_READWRITE || p == PAGE_WRITECOPY || p == PAGE_EXECUTE || p
        == PAGE_EXECUTE_READ || p == PAGE_EXECUTE_READWRITE || p == PAGE_EXECUTE_WRITECOPY;
    if !ok {
        return false;
    }
    let end = m.base.saturating_add(m.size);
    ptr >= m.base && ptr.saturating_add(min_len) <= end
}

// ---------------------------------------------------------------------------
// UTF-16 text candidates
// ---------------------------------------------------------------------------

/// A unit that may appear in a text candidate: an ASCII letter or digit, or
/// one of `_ - : . /` and space.
pub open spec fn is_candidate_unit(u: u16) -> bool {
    (0x30 <= u && u <= 0x39) || (0x41 <= u && u <= 0x5a) || (0x61 <= u && u <= 0x7a) || u == 0x5f || u
        == 0x2d || u == 0x3a || u == 0x2e || u == 0x2f || u == 0x20
}

/// An ASCII letter.
pub open spec fn is_alpha_unit(u: u16) -> bool {
    (0x41 <= u && u <= 0x5a) || (0x61 <= u && u <= 0x7a)
}

/// The position of the first zero unit at or after `i`, or the length.
pub open spec fn first_zero_from(u: Seq<u16>, i: int) -> int
    decreases u.len() - i,
{
    if i < 0 || i >= u.len() {
        u.len() as int
    } else if u[i] == 0 {
        i
    } else {
        first_zero_from(u, i + 1)
    }
}

/// The units as characters.
pub open spec fn units_text(u: Seq<u16>) -> Seq<char> {
    u.map_values(|x: u16| x as char)
}

/// The text a zero-terminated run of units stands for, when it is plausible
/// text: 3 to 96 units before the terminator, all of them candidate units,
/// at least one a letter.
pub open spec fn candidate_text(u: Seq<u16>) -> Option<Seq<char>> {
    let end = first_zero_from(u, 0);
    if end < u.len() && 3 <= end <= 96 && (forall|i: int| 0 <= i < end ==> is_candidate_unit(#[trigger] u[i]))
        && (exists|i: int| 0 <= i < end && is_alpha_unit(#[trigger] u[i])) {
        Some(units_text(u.subrange(0, end)))
    } else {
        None
    }
}

/// Reads a text candidate from the units at a readable, aligned address.
pub fn decode_utf16_candidate(units: &[u16]) -> (r: Option<String>)
    ensures
        match r { Some(s) => Some(s@), None => None } == candidate_text(units@),
{
    let n = units.len();
    let mut end: usize = 0;
    while end < n && units[end] != 0
        invariant
            end <= n == units@.len(),
            first_zero_from(units@, 0) == first_zero_from(units@, end as int),
        decreases n - end,
    {
        end = end + 1;
    }
    if end == n || end < 3 || end > 96 {
        return None;
    }
    let mut chars: Vec<char> = Vec::new();
    let mut has_alpha = false;
    let mut i: usize = 0;
    while i < end
        invariant
            end < n == units@.len(),
            end == first_zero_from(units@, 0),
            i <= end,
            forall|k: int| 0 <= k < i ==> is_candidate_unit(#[trigger] units@[k]),
            has_alpha == exists|k: int| 0 <= k < i && is_alpha_unit(#[trigger] units@[k]),
            chars@ == units_text(units@.subrange(0, i as int)),
        decreases end - i,
    {
        let u = units[i];
        let ok = (0x30 <= u && u <= 0x39) || (0x41 <= u && u <= 0x5a) || (0x61 <= u && u <= 0x7a) || u == 0x5f
            || u == 0x2d || u == 0x3a || u == 0x2e || u == 0x2f || u == 0x20;
        if !ok {
            return None;
        }
        if (0x41 <= u && u <= 0x5a) || (0x61 <= u && u <= 0x7a) {
            has_alpha = true;
        }
        let c = (u as u8) as char;
        chars.push(c);
        i = i + 1;
        proof {
            assert(units_text(units@.subrange(0, i as int)) =~= units_text(units@.subrange(0, i - 1)).push(
                u as char,
            ));
            assert(c == u as char);
        }
    }
    if !has_alpha {
        return None;
    }
    Some(chars_to_string(chars.as_slice()))
}

/// Adds `text` to the collected strings unless it is already there.
pub fn push_unique_string(strings: &mut Vec<String>, text: String)
    ensures
        strings_view(final(strings)@) == (if strings_view(old(strings)@).contains(text@) {
            strings_view(old(strings)@)
        } else {
            strings_view(old(strings)@).push(text@)
        }),
{
    let mut i: usize = 0;
    while i < strings.len()
        invariant
            i <= strings@.len(),
            forall|k: int| 0 <= k < i ==> #[trigger] strings@[k]@ != text@,
        decreases strings.len() - i,
    {
        if strings[i] == text {
            assert(strings_view(strings@)[i as int] == text@);
            return;
        }
        i = i + 1;
    }
    proof {
        assert(!strings_view(strings@).contains(text@)) by {
            if strings_view(strings@).contains(text@) {
                let k = choose|k: int| 0 <= k < strings_view(strings@).len() && strings_view(strings@)[k] == text@;
                assert(strings@[k]@ == text@);
            }
        }
    }
    let ghost before = strings_view(strings@);
    strings.push(text);
    assert(strings_view(strings@) =~= before.push(text@));
}

// ---------------------------------------------------------------------------
// Payload classifications
// ---------------------------------------------------------------------------

/// The topics that carry UI state.
pub open spec fn is_ui_topic(topic: Seq<char>) -> bool {
    topic == "AppUiTopic"@ || topic == "ModeChoosePageTopic"@ || topic == "Sn3DUserPassportTopic"@
}

/// Whether a topic carries UI state.
pub fn exstar_is_ui_state_topic(topic_text: &str) -> (r: bool)
    ensures
        r == is_ui_topic(topic_text@),
{
    let t = topic_text.to_owned();
    t == "AppUiTopic".to_owned() || t == "ModeChoosePageTopic".to_owned() || t == "Sn3DUserPassportTopic".to_owned()
}

/// The branch of the process manager's protocol a payload belongs to, judged
/// from its lowercased text.
pub open spec fn branch_label(lower: Seq<char>) -> Option<Seq<char>> {
    if contains_seq(lower, "app10"@) && contains_seq(lower, "demo"@) {
        Some("app10_demo"@)
    } else if contains_seq(lower, "app1"@) && contains_seq(lower, "app6"@) {
        Some("app1_app6"@)
    } else if contains_seq(lower, "app5"@) && contains_seq(lower, "ord"@) {
        Some("app5_ord"@)
    } else if contains_seq(lower, "scanchannel"@) {
        Some("scanchannel"@)
    } else if contains_seq(lower, "sn3dprocessmanager.exe"@) && contains_seq(lower, "app5"@) {
        Some("manager_app5"@)
    } else if contains_seq(lower, "sn3dprocessmgtopic"@) && contains_seq(lower, "name"@) {
        Some("topic_name"@)
    } else {
        None
    }
}

fn lower_has(lower: &[char], needle: &str) -> (r: bool)
    ensures
        r == contains_seq(lower@, needle@),
{
    let n = str_to_chars(needle);
    chars_contains(lower, n.as_slice())
}

/// Which branch of the process manager's protocol a payload belongs to.
pub fn exstar_processmg_branch_label(strings: &str) -> (r: Option<&'static str>)
    ensures
        match r { Some(s) => Some(s@), None => None } == branch_label(lower_seq(strings@)),
{
    let chars = str_to_chars(strings);
    let lower = chars_to_lower(chars.as_slice());
    let l = lower.as_slice();
    if lower_has(l, "app10") && lower_has(l, "demo") {
        Some("app10_demo")
    } else if lower_has(l, "app1") && lower_has(l, "app6") {
        Some("app1_app6")
    } else if lower_has(l, "app5") && lower_has(l, "ord") {
        Some("app5_ord")
    } else if lower_has(l, "scanchannel") {
        Some("scanchannel")
    } else if lower_has(l, "sn3dprocessmanager.exe") && lower_has(l, "app5") {
        Some("manager_app5")
    } else if lower_has(l, "sn3dprocessmgtopic") && lower_has(l, "name") {
        Some("topic_name")
    } else {
        None
    }
}

/// The number of bytes of a character in UTF-8.
pub open spec fn utf8_width(c: char) -> int {
    let u = c as u32;
    if u < 0x80 {
        1
    } else if u < 0x800 {
        2
    } else if u < 0x10000 {
        3
    } else {
        4
    }
}

/// The number of bytes of a text in UTF-8.
pub open spec fn utf8_len(s: Seq<char>) -> int
    decreases s.len(),
{
    if s.len() == 0 {
        0
    } else {
        utf8_width(s[0]) + utf8_len(s.drop_first())
    }
}

/// Byte offset `n` falls between two characters of `s`.
pub open spec fn is_char_boundary(s: Seq<char>, n: int) -> bool
    decreases s.len(),
{
    n == 0 || (s.len() > 0 && n >= utf8_width(s[0]) && is_char_boundary(s.drop_first(), n - utf8_width(s[0])))
}

/// A part names an application branch: `app` in any ASCII case followed by
/// one or more ASCII digits.
pub open spec fn is_app_part(part: Seq<char>) -> bool {
    &&& part.len() > 3
    &&& eq_ci(part.subrange(0, 3), "app"@)
    &&& forall|i: int| 3 <= i < part.len() ==> ('0' <= #[trigger] part[i] && part[i] <= '9')
}

/// Cutting a part after its third byte fails: the part is longer than three
/// bytes, and its third byte ends inside a character.
pub open spec fn cut_fails(part: Seq<char>) -> bool {
    utf8_len(part) > 3 && !is_char_boundary(part, 3)
}

/// The parts are tested in order until one names an application branch;
/// cutting each tested part after its third byte is well defined.
pub open spec fn app_parts_cuttable(strings: Seq<char>) -> bool {
    forall|i: int|
        0 <= i < split_seq(strings, '|').len() && cut_fails(trim(#[trigger] split_seq(strings, '|')[i])) ==> exists|j: int|
            0 <= j < i && is_app_part(trim(#[trigger] split_seq(strings, '|')[j]))
}

proof fn lemma_utf8_len_nonneg(s: Seq<char>)
    ensures
        utf8_len(s) >= 0,
    decreases s.len(),
{
    if s.len() > 0 {
        lemma_utf8_len_nonneg(s.drop_first());
    }
}

fn char_utf8_width(c: char) -> (r: usize)
    ensures
        r == utf8_width(c),
{
    let u = c as u32;
    if u < 0x80 {
        1
    } else if u < 0x800 {
        2
    } else if u < 0x10000 {
        3
    } else {
        4
    }
}

/// Whether cutting `part` after its third byte fails.
fn cut_fails_exec(part: &[char]) -> (r: bool)
    ensures
        r == cut_fails(part@),
{
    let ghost s = part@;
    if part.len() == 0 {
        return false;
    }
    let w0 = char_utf8_width(part[0]);
    proof {
        lemma_utf8_len_nonneg(s.drop_first());
        assert(utf8_len(s) == w0 + utf8_len(s.drop_first()));
        assert(is_char_boundary(s, 3) == (3 >= w0 && is_char_boundary(s.drop_first(), 3 - w0)));
    }
    if w0 == 3 {
        assert(is_char_boundary(s.drop_first(), 0));
        return false;
    }
    if w0 == 4 {
        return true;
    }
    let ghost s1 = s.drop_first();
    if part.len() == 1 {
        assert(s1.len() == 0);
        return false;
    }
    let w1 = char_utf8_width(part[1]);
    proof {
        assert(s1[0] == part@[1]);
        lemma_utf8_len_nonneg(s1.drop_first());
        assert(utf8_len(s1) == w1 + utf8_len(s1.drop_first()));
    }
    let n1: usize = 3 - w0;
    proof {
        assert(is_char_boundary(s1, n1 as int) == (n1 == 0 || (n1 >= w1 && is_char_boundary(s1.drop_first(), n1 - w1))));
    }
    if w1 == n1 {
        assert(is_char_boundary(s1.drop_first(), 0));
        return false;
    }
    if w1 > n1 {
        return true;
    }
    let ghost s2 = s1.drop_first();
    if part.len() == 2 {
        assert(s2.len() == 0);
        return false;
    }
    let w2 = char_utf8_width(part[2]);
    proof {
        assert(s2[0] == part@[2]);
        lemma_utf8_len_nonneg(s2.drop_first());
        assert(utf8_len(s2) == w2 + utf8_len(s2.drop_first()));
    }
    let n2: usize = n1 - w1;
    proof {
        assert(n2 == 1);
        assert(is_char_boundary(s2, n2 as int) == (n2 >= w2 && is_char_boundary(s2.drop_first(), n2 - w2)));
    }
    if w2 == 1 {
        assert(is_char_boundary(s2.drop_first(), 0));
        return false;
    }
    true
}

/// Whether every part that the application-branch test reaches can be cut
/// after its third byte, which that test does to each part it reaches.
pub fn app_parts_cuttable_check(strings: &str) -> (r: bool)
    ensures
        r == app_parts_cuttable(strings@),
{
    let chars = str_to_chars(strings);
    let parts = chars_split(chars.as_slice(), '|');
    let ghost sp = split_seq(strings@, '|');
    let mut found = false;
    let mut i: usize = 0;
    while i < parts.len()
        invariant
            chars@ == strings@,
            sp == split_seq(strings@, '|'),
            parts@.len() == sp.len(),
            forall|k: int| 0 <= k < parts@.len() ==> #[trigger] parts@[k]@ == sp[k],
            i <= parts@.len(),
            found == exists|j: int| 0 <= j < i && is_app_part(trim(#[trigger] sp[j])),
            forall|k: int| 0 <= k < i && cut_fails(trim(#[trigger] sp[k])) ==> exists|j: int|
                0 <= j < k && is_app_part(trim(#[trigger] sp[j])),
        decreases parts.len() - i,
    {
        let t = chars_trim(parts[i].as_slice());
        assert(parts@[i as int]@ == sp[i as int]);
        if !found && cut_fails_exec(t.as_slice()) {
            return false;
        }
        if is_app_part_exec(t.as_slice()) {
            found = true;
        }
        proof {
            assert forall|k: int| 0 <= k < i + 1 && cut_fails(trim(#[trigger] sp[k])) implies exists|j: int|
                0 <= j < k && is_app_part(trim(#[trigger] sp[j])) by {
                if k == i {
                    let j = choose|j: int| 0 <= j < i && is_app_part(trim(#[trigger] sp[j]));
                    assert(0 <= j < k && is_app_part(trim(sp[j])));
                }
            }
            if found {
                if is_app_part(trim(sp[i as int])) {
                    assert(0 <= i < i + 1 && is_app_part(trim(sp[i as int])));
                }
            }
        }
        i = i + 1;
    }
    true
}

fn is_app_part_exec(part: &[char]) -> (r: bool)
    ensures
        r == is_app_part(part@),
{
    if part.len() <= 3 {
        return false;
    }
    let head = str_to_chars("app");
    let mut first: Vec<char> = Vec::new();
    first.push(part[0]);
    first.push(part[1]);
    first.push(part[2]);
    assert(first@ =~= part@.subrange(0, 3));
    if !chars_eq_ci(first.as_slice(), head.as_slice()) {
        return false;
    }
    let mut i: usize = 3;
    while i < part.len()
        invariant
            3 <= i <= part@.len(),
            forall|k: int| 3 <= k < i ==> ('0' <= #[trigger] part@[k] && part@[k] <= '9'),
        decreases part.len() - i,
    {
        if !('0' <= part[i] && part[i] <= '9') {
            return false;
        }
        i = i + 1;
    }
    true
}

/// Whether the payload names an application branch (`app<digits>`) in one of
/// its `|`-separated parts, once trimmed.
pub fn has_app_branch(strings: &str) -> (r: bool)
    requires
        app_parts_cuttable(strings@),
    ensures
        r == exists|i: int|
            0 <= i < split_seq(strings@, '|').len() && is_app_part(trim(#[trigger] split_seq(strings@, '|')[i])),
{
    let chars = str_to_chars(strings);
    let parts = chars_split(chars.as_slice(), '|');
    let mut i: usize = 0;
    while i < parts.len()
        invariant
            chars@ == strings@,
            parts@.len() == split_seq(strings@, '|').len(),
            forall|k: int| 0 <= k < parts@.len() ==> #[trigger] parts@[k]@ == split_seq(strings@, '|')[k],
            i <= parts@.len(),
            forall|k: int| 0 <= k < i ==> !is_app_part(trim(#[trigger] split_seq(strings@, '|')[k])),
        decreases parts.len() - i,
    {
        let t = chars_trim(parts[i].as_slice());
        assert(parts@[i as int]@ == split_seq(strings@, '|')[i as int]);
        if is_app_part_exec(t.as_slice()) {
            return true;
        }
        i = i + 1;
    }
    false
}

/// The Qt event types whose delivery is traced: show, hide, close, window
/// activation and deactivation, and window-state changes.
pub open spec fn is_interesting_qt_event_type_spec(event_type: i32) -> bool {
    event_type == 17 || event_type == 18 || event_type == 19 || event_type == 24 || event_type == 25
        || event_type == 99 || event_type == 105
}

/// Whether the delivery of a Qt event type is traced.
pub fn is_interesting_qt_event_type(event_type: i32) -> (r: bool)
    ensures
        r == is_interesting_qt_event_type_spec(event_type),
{
    event_type == 17 || event_type == 18 || event_type == 19 || event_type == 24 || event_type == 25 || event_type
        == 99 || event_type == 105
}

/// The offset of an address inside the process plugin's tail window
/// (0x7996 to 0x79BE), given the module that holds it and that module's base.
pub fn exstar_plugin_tail_window_offset(module: Option<(&str, usize)>, ptr: usize) -> (r: Option<usize>)
    ensures
        r == (match module {
            Some((name, base)) => {
                let offset = if ptr >= base { (ptr - base) as usize } else { 0usize };
                if eq_ci(name@, "Sn3DProcessPlugin.dll"@) && 0x7996 <= offset <= 0x79BE {
                    Some(offset)
                } else {
                    None
                }
            },
            None => None,
        }),
{
    match module {
        Some((name, base)) => {
            let offset = ptr.saturating_sub(base);
            if str_eq_ci(name, "Sn3DProcessPlugin.dll") && 0x7996 <= offset && offset <= 0x79BE {
                Some(offset)
            } else {
                None
            }
        },
        None => None,
    }
}

/// The application name or the command line of a launch, lowercased,
/// contains `needle`.
pub open spec fn launch_mentions(application_name: Option<Seq<char>>, command_line: Option<Seq<char>>, needle: Seq<char>) -> bool {
    (match application_name {
        Some(a) => contains_seq(lower_seq(a), needle),
        None => false,
    }) || (match command_line {
        Some(c) => contains_seq(lower_seq(c), needle),
        None => false,
    })
}

fn text_mentions(text: Option<&str>, needle: &str) -> (r: bool)
    ensures
        r == (match text {
            Some(t) => contains_seq(lower_seq(t@), needle@),
            None => false,
        }),
{
    match text {
        Some(t) => {
            let chars = str_to_chars(t);
            contains_lowercased(chars.as_slice(), needle)
        },
        None => false,
    }
}

/// Whether a process launch starts `process_name` (matched against the
/// lowercased application name and command line).
pub fn launch_targets_process_name(application_name: Option<&str>, command_line: Option<&str>, process_name: &str) -> (r: bool)
    ensures
        r == launch_mentions(
            match application_name { Some(a) => Some(a@), None => None },
            match command_line { Some(c) => Some(c@), None => None },
            process_name@,
        ),
{
    text_mentions(application_name, process_name) || text_mentions(command_line, process_name)
}

/// Whether a process launch starts the EinScan network service.
pub fn launch_targets_einscan_net_svr(application_name: Option<&str>, command_line: Option<&str>) -> (r: bool)
    ensures
        r == launch_mentions(
            match application_name { Some(a) => Some(a@), None => None },
            match command_line { Some(c) => Some(c@), None => None },
            "einscan_net_svr.exe"@,
        ),
{
    launch_targets_process_name(application_name, command_line, "einscan_net_svr.exe")
}

// ---------------------------------------------------------------------------
// Pruning the collected strings
// ---------------------------------------------------------------------------

/// `str`'s order: lexicographic by character (which is the order of the
/// UTF-8 bytes), a prefix first.
pub open spec fn lex_le(a: Seq<char>, b: Seq<char>) -> bool
    decreases a.len(),
{
    if a.len() == 0 {
        true
    } else if b.len() == 0 {
        false
    } else if a[0] < b[0] {
        true
    } else if a[0] > b[0] {
        false
    } else {
        lex_le(a.drop_first(), b.drop_first())
    }
}

/// The order the collected strings are pruned in: longer (in UTF-8 bytes)
/// first, equal lengths in `str` order.
pub open spec fn prune_leq(a: Seq<char>, b: Seq<char>) -> bool {
    utf8_len(a) > utf8_len(b) || (utf8_len(a) == utf8_len(b) && lex_le(a, b))
}

/// A hexadecimal address rendered as text: `0x` and more than two hex digits.
pub open spec fn is_hex_text(t: Seq<char>) -> bool {
    &&& t.len() > 4
    &&& t[0] == '0'
    &&& t[1] == 'x'
    &&& forall|i: int| 2 <= i < t.len() ==> is_hex_char(#[trigger] t[i])
}

/// An ASCII hexadecimal digit.
pub open spec fn is_hex_char(c: char) -> bool {
    ('0' <= c && c <= '9') || ('a' <= c && c <= 'f') || ('A' <= c && c <= 'F')
}

/// Some kept string contains `x`.
pub open spec fn covered(acc: Seq<Seq<char>>, x: Seq<char>) -> bool {
    exists|k: int| 0 <= k < acc.len() && contains_seq(#[trigger] acc[k], x)
}

/// The strings kept from the first `n` of the ordered strings: at most 8,
/// no address text, none contained in one kept before it.
pub open spec fn prune_prefix(t: Seq<Seq<char>>, n: int) -> Seq<Seq<char>>
    decreases n,
{
    if n <= 0 {
        Seq::empty()
    } else {
        let acc = prune_prefix(t, n - 1);
        let x = t[n - 1];
        if acc.len() >= 8 || is_hex_text(x) || covered(acc, x) {
            acc
        } else {
            acc.push(x)
        }
    }
}

/// The result of pruning a list of strings.
pub open spec fn pruned(strings: Seq<Seq<char>>) -> Seq<Seq<char>> {
    let t = strings.sort_by(|a: Seq<char>, b: Seq<char>| prune_leq(a, b));
    prune_prefix(t, t.len() as int)
}

proof fn lemma_lex_reflexive(a: Seq<char>)
    ensures
        lex_le(a, a),
    decreases a.len(),
{
    if a.len() > 0 {
        lemma_lex_reflexive(a.drop_first());
    }
}

proof fn lemma_lex_antisymmetric(a: Seq<char>, b: Seq<char>)
    requires
        lex_le(a, b),
        lex_le(b, a),
    ensures
        a == b,
    decreases a.len(),
{
    if a.len() > 0 && b.len() > 0 {
        lemma_lex_antisymmetric(a.drop_first(), b.drop_first());
        assert(a =~= seq![a[0]] + a.drop_first());
        assert(b =~= seq![b[0]] + b.drop_first());
        assert(a[0] == b[0]);
    }
}

proof fn lemma_lex_transitive(a: Seq<char>, b: Seq<char>, c: Seq<char>)
    requires
        lex_le(a, b),
        lex_le(b, c),
    ensures
        lex_le(a, c),
    decreases a.len(),
{
    if a.len() > 0 && b.len() > 0 && c.len() > 0 {
        if a[0] == b[0] && b[0] == c[0] {
            lemma_lex_transitive(a.drop_first(), b.drop_first(), c.drop_first());
        }
    }
}

proof fn lemma_lex_total(a: Seq<char>, b: Seq<char>)
    ensures
        lex_le(a, b) || lex_le(b, a),
    decreases a.len(),
{
    if a.len() > 0 && b.len() > 0 {
        lemma_lex_total(a.drop_first(), b.drop_first());
    }
}

proof fn lemma_prune_leq_total_ordering()
    ensures
        vstd::relations::total_ordering(|a: Seq<char>, b: Seq<char>| prune_leq(a, b)),
{
    let leq = |a: Seq<char>, b: Seq<char>| prune_leq(a, b);
    assert forall|a: Seq<char>| #[trigger] leq(a, a) by {
        lemma_lex_reflexive(a);
    }
    assert forall|a: Seq<char>, b: Seq<char>| #[trigger] leq(a, b) && #[trigger] leq(b, a) implies a == b by {
        lemma_lex_antisymmetric(a, b);
    }
    assert forall|a: Seq<char>, b: Seq<char>, c: Seq<char>|
        #[trigger] leq(a, b) && #[trigger] leq(b, c) implies #[trigger] leq(a, c) by {
        if utf8_len(a) == utf8_len(b) && utf8_len(b) == utf8_len(c) {
            lemma_lex_transitive(a, b, c);
        }
    }
    assert forall|a: Seq<char>, b: Seq<char>| #[trigger] leq(a, b) || leq(b, a) by {
        lemma_lex_total(a, b);
    }
}

/// The character views of a list of character vectors.
pub open spec fn char_views(v: Seq<Vec<char>>) -> Seq<Seq<char>> {
    v.map_values(|x: Vec<char>| x@)
}

fn utf8_len_of(s: &[char]) -> (r: u128)
    ensures
        r as int == utf8_len(s@),
{
    let n = s.len();
    let mut i: usize = n;
    let mut total: u128 = 0;
    assert(s@.subrange(n as int, n as int).len() == 0);
    while i > 0
        invariant
            i <= n == s@.len(),
            total as int == utf8_len(s@.subrange(i as int, n as int)),
            total <= 4 * (n - i),
        decreases i,
    {
        i = i - 1;
        let c = s[i] as u32;
        let w: u128 = if c < 0x80 { 1 } else if c < 0x800 { 2 } else if c < 0x10000 { 3 } else { 4 };
        proof {
            let t = s@.subrange(i as int, n as int);
            assert(t[0] == s@[i as int]);
            assert(t.drop_first() =~= s@.subrange(i + 1, n as int));
            assert(w as int == utf8_width(s@[i as int]));
        }
        total = total + w;
    }
    assert(s@.subrange(0, n as int) =~= s@);
    total
}

fn lex_le_of(a: &[char], b: &[char]) -> (r: bool)
    ensures
        r == lex_le(a@, b@),
{
    let mut i: usize = 0;
    assert(a@.subrange(0, a@.len() as int) =~= a@);
    assert(b@.subrange(0, b@.len() as int) =~= b@);
    while i < a.len() && i < b.len() && a[i] == b[i]
        invariant
            i <= a@.len(),
            i <= b@.len(),
            lex_le(a@, b@) == lex_le(a@.subrange(i as int, a@.len() as int), b@.subrange(i as int, b@.len() as int)),
        decreases a.len() - i,
    {
        proof {
            let x = a@.subrange(i as int, a@.len() as int);
            let y = b@.subrange(i as int, b@.len() as int);
            assert(x[0] == a@[i as int]);
            assert(y[0] == b@[i as int]);
            assert(x.drop_first() =~= a@.subrange(i + 1, a@.len() as int));
            assert(y.drop_first() =~= b@.subrange(i + 1, b@.len() as int));
        }
        i = i + 1;
    }
    proof {
        let x = a@.subrange(i as int, a@.len() as int);
        let y = b@.subrange(i as int, b@.len() as int);
        if i < a@.len() {
            assert(x[0] == a@[i as int]);
        }
        if i < b@.len() {
            assert(y[0] == b@[i as int]);
        }
    }
    if i == a.len() {
        true
    } else if i == b.len() {
        false
    } else {
        a[i] < b[i]
    }
}

fn prune_leq_of(a: &[char], b: &[char]) -> (r: bool)
    ensures
        r == prune_leq(a@, b@),
{
    let la = utf8_len_of(a);
    let lb = utf8_len_of(b);
    la > lb || (la == lb && lex_le_of(a, b))
}

fn sort_for_pruning(v: Vec<Vec<char>>) -> (r: Vec<Vec<char>>)
    ensures
        char_views(r@) == char_views(v@).sort_by(|a: Seq<char>, b: Seq<char>| prune_leq(a, b)),
{
    broadcast use vstd::seq_lib::group_to_multiset_ensures;

    let ghost leq = |a: Seq<char>, b: Seq<char>| prune_leq(a, b);
    proof {
        lemma_prune_leq_total_ordering();
    }
    let ghost orig = char_views(v@);
    let mut rest = v;
    let mut sorted: Vec<Vec<char>> = Vec::new();
    assert(char_views(sorted@) =~= Seq::<Seq<char>>::empty());
    while rest.len() > 0
        invariant
            leq == (|a: Seq<char>, b: Seq<char>| prune_leq(a, b)),
            vstd::relations::total_ordering(leq),
            vstd::relations::sorted_by(char_views(sorted@), leq),
            char_views(sorted@).to_multiset().add(char_views(rest@).to_multiset()) == orig.to_multiset(),
        decreases rest.len(),
    {
        let ghost before_rest = char_views(rest@);
        let x = rest.pop().unwrap();
        proof {
            assert(before_rest =~= char_views(rest@).push(x@));
        }
        let mut j: usize = 0;
        while j < sorted.len() && prune_leq_of(sorted[j].as_slice(), x.as_slice())
            invariant
                leq == (|a: Seq<char>, b: Seq<char>| prune_leq(a, b)),
                vstd::relations::total_ordering(leq),
                j <= sorted@.len(),
                forall|k: int| 0 <= k < j ==> leq(#[trigger] sorted@[k]@, x@),
            decreases sorted.len() - j,
        {
            assert(leq(sorted@[j as int]@, x@));
            j = j + 1;
        }
        let ghost old_sorted = char_views(sorted@);
        proof {
            if j < sorted@.len() {
                assert(old_sorted[j as int] == sorted@[j as int]@);
                assert(!leq(old_sorted[j as int], x@));
                assert(leq(x@, old_sorted[j as int]));
                assert forall|k: int| j <= k < old_sorted.len() implies leq(x@, #[trigger] old_sorted[k]) by {
                    if k > j {
                        assert(leq(old_sorted[j as int], old_sorted[k]));
                    }
                }
            }
        }
        sorted.insert(j, x);
        proof {
            let ns = char_views(sorted@);
            assert(ns =~= old_sorted.insert(j as int, x@));
            assert forall|a: int, b: int| 0 <= a < b < ns.len() implies #[trigger] leq(ns[a], ns[b]) by {
                if a < j && b < j {
                    assert(ns[a] == old_sorted[a] && ns[b] == old_sorted[b]);
                } else if a < j && b == j {
                    assert(ns[a] == old_sorted[a]);
                } else if a < j && b > j {
                    assert(ns[a] == old_sorted[a] && ns[b] == old_sorted[b - 1]);
                    assert(leq(old_sorted[a], x@));
                    assert(leq(x@, old_sorted[b - 1]));
                } else if a == j {
                    assert(ns[b] == old_sorted[b - 1]);
                } else {
                    assert(ns[a] == old_sorted[a - 1] && ns[b] == old_sorted[b - 1]);
                }
            }
            vstd::seq_lib::to_multiset_insert(old_sorted, j as int, x@);
            vstd::seq_lib::to_multiset_build(char_views(rest@), x@);
            assert(ns.to_multiset().add(char_views(rest@).to_multiset()) =~= old_sorted.to_multiset().add(
                before_rest.to_multiset(),
            ));
        }
    }
    proof {
        assert(char_views(rest@) =~= Seq::<Seq<char>>::empty());
        assert(char_views(sorted@).to_multiset() =~= orig.to_multiset());
        orig.lemma_sort_by_ensures(leq);
        vstd::seq_lib::lemma_sorted_unique(char_views(sorted@), orig.sort_by(leq), leq);
    }
    sorted
}

fn is_hex_text_of(t: &[char]) -> (r: bool)
    ensures
        r == is_hex_text(t@),
{
    if t.len() <= 4 || t[0] != '0' || t[1] != 'x' {
        return false;
    }
    let mut i: usize = 2;
    while i < t.len()
        invariant
            2 <= i <= t@.len(),
            forall|k: int| 2 <= k < i ==> is_hex_char(#[trigger] t@[k]),
        decreases t.len() - i,
    {
        let c = t[i];
        if !(('0' <= c && c <= '9') || ('a' <= c && c <= 'f') || ('A' <= c && c <= 'F')) {
            return false;
        }
        i = i + 1;
    }
    true
}

fn covered_by(acc: &Vec<Vec<char>>, x: &[char]) -> (r: bool)
    ensures
        r == covered(char_views(acc@), x@),
{
    let mut k: usize = 0;
    while k < acc.len()
        invariant
            k <= acc@.len(),
            forall|m: int| 0 <= m < k ==> !contains_seq(#[trigger] char_views(acc@)[m], x@),
        decreases acc.len() - k,
    {
        if chars_contains(acc[k].as_slice(), x) {
            assert(char_views(acc@)[k as int] == acc@[k as int]@);
            return true;
        }
        assert(char_views(acc@)[k as int] == acc@[k as int]@);
        k = k + 1;
    }
    false
}

/// Keeps the most telling of the collected strings: longest first (ties in
/// `str` order), no address texts, none contained in one already kept, at
/// most 8.
pub fn prune_redundant_strings(strings: &mut Vec<String>)
    ensures
        strings_view(final(strings)@) == pruned(strings_view(old(strings)@)),
{
    let mut chars: Vec<Vec<char>> = Vec::new();
    let mut i: usize = 0;
    while i < strings.len()
        invariant
            i <= strings@.len(),
            char_views(chars@) == strings_view(strings@).subrange(0, i as int),
        decreases strings.len() - i,
    {
        let c = str_to_chars(strings[i].as_str());
        assert(strings_view(strings@)[i as int] == strings@[i as int]@);
        let ghost prev = chars@;
        chars.push(c);
        proof {
            assert(char_views(chars@) =~= char_views(prev).push(c@));
            assert(strings_view(strings@).subrange(0, i + 1) =~= strings_view(strings@).subrange(0, i as int).push(
                strings@[i as int]@,
            ));
        }
        i = i + 1;
    }
    assert(strings_view(strings@).subrange(0, strings@.len() as int) =~= strings_view(strings@));
    let ghost input = strings_view(strings@);
    let sorted = sort_for_pruning(chars);
    let ghost t = char_views(sorted@);
    let mut kept: Vec<Vec<char>> = Vec::new();
    let mut j: usize = 0;
    assert(char_views(kept@) =~= prune_prefix(t, 0));
    while j < sorted.len()
        invariant
            t == char_views(sorted@),
            j <= sorted@.len(),
            char_views(kept@) == prune_prefix(t, j as int),
        ensures
            t == char_views(sorted@),
            j <= sorted@.len(),
            char_views(kept@) == prune_prefix(t, j as int),
            j < sorted@.len() ==> kept@.len() >= 8,
        decreases sorted.len() - j,
    {
        assert(t[j as int] == sorted@[j as int]@);
        if kept.len() >= 8 {
            break;
        }
        let x = sorted[j].as_slice();
        if !is_hex_text_of(x) && !covered_by(&kept, x) {
            let mut copy: Vec<char> = Vec::new();
            let mut m: usize = 0;
            while m < x.len()
                invariant
                    m <= x@.len(),
                    copy@ == x@.subrange(0, m as int),
                decreases x.len() - m,
            {
                copy.push(x[m]);
                m = m + 1;
                assert(copy@ =~= x@.subrange(0, m as int));
            }
            assert(copy@ =~= x@);
            kept.push(copy);
            assert(char_views(kept@) =~= prune_prefix(t, j as int).push(x@));
        }
        j = j + 1;
    }
    proof {
        if j < t.len() {
            lemma_prune_prefix_full(t, j as int);
        }
    }
    let mut out: Vec<String> = Vec::new();
    let mut k: usize = 0;
    while k < kept.len()
        invariant
            k <= kept@.len(),
            strings_view(out@) == char_views(kept@).subrange(0, k as int),
        decreases kept.len() - k,
    {
        assert(char_views(kept@)[k as int] == kept@[k as int]@);
        let text = chars_to_string(kept[k].as_slice());
        let ghost prev = out@;
        out.push(text);
        proof {
            assert(strings_view(out@) =~= strings_view(prev).push(kept@[k as int]@));
            assert(char_views(kept@).subrange(0, k + 1) =~= char_views(kept@).subrange(0, k as int).push(
                kept@[k as int]@,
            ));
        }
        k = k + 1;
    }
    assert(char_views(kept@).subrange(0, kept@.len() as int) =~= char_views(kept@));
    *strings = out;
}

proof fn lemma_prune_prefix_full(t: Seq<Seq<char>>, j: int)
    requires
        0 <= j <= t.len(),
        prune_prefix(t, j).len() >= 8,
    ensures
        prune_prefix(t, t.len() as int) == prune_prefix(t, j),
    decreases t.len() - j,
{
    if j < t.len() {
        assert(prune_prefix(t, j + 1) == prune_prefix(t, j));
        lemma_prune_prefix_full(t, j + 1);
    }
}

proof fn lemma_prune_prefix_shape(t: Seq<Seq<char>>, n: int)
    requires
        0 <= n <= t.len(),
    ensures
        prune_prefix(t, n).len() <= 8,
        forall|i: int| 0 <= i < prune_prefix(t, n).len() ==> !is_hex_text(#[trigger] prune_prefix(t, n)[i]),
        forall|i: int, j: int|
            0 <= i < j < prune_prefix(t, n).len() ==> !contains_seq(
                #[trigger] prune_prefix(t, n)[i],
                #[trigger] prune_prefix(t, n)[j],
            ),
    decreases n,
{
    if n > 0 {
        lemma_prune_prefix_shape(t, n - 1);
        let acc = prune_prefix(t, n - 1);
        let x = t[n - 1];
        if !(acc.len() >= 8 || is_hex_text(x) || covered(acc, x)) {
            let r = acc.push(x);
            assert forall|i: int, j: int| 0 <= i < j < r.len() implies !contains_seq(#[trigger] r[i], #[trigger] r[j]) by {
                if j == r.len() - 1 {
                    assert(r[i] == acc[i]);
                    assert(!contains_seq(acc[i], x));
                } else {
                    assert(r[i] == acc[i] && r[j] == acc[j]);
                }
            }
        }
    }
}

/// Pruning keeps at most 8 strings, none of them an address text, and none
/// contained in a string kept before it.
pub proof fn law_pruned_strings_are_distinct_and_few(strings: Seq<Seq<char>>)
    ensures
        pruned(strings).len() <= 8,
        forall|i: int| 0 <= i < pruned(strings).len() ==> !is_hex_text(#[trigger] pruned(strings)[i]),
        forall|i: int, j: int|
            0 <= i < j < pruned(strings).len() ==> !contains_seq(#[trigger] pruned(strings)[i], #[trigger] pruned(strings)[j]),
{
    let t = strings.sort_by(|a: Seq<char>, b: Seq<char>| prune_leq(a, b));
    lemma_prune_prefix_shape(t, t.len() as int);
}

/// Pruning does not depend on the order in which the strings were collected.
pub proof fn law_pruning_ignores_collection_order(a: Seq<Seq<char>>, b: Seq<Seq<char>>)
    requires
        a.to_multiset() == b.to_multiset(),
    ensures
        pruned(a) == pruned(b),
{
    let leq = |x: Seq<char>, y: Seq<char>| prune_leq(x, y);
    lemma_prune_leq_total_ordering();
    a.lemma_sort_by_ensures(leq);
    b.lemma_sort_by_ensures(leq);
    vstd::seq_lib::lemma_sorted_unique(a.sort_by(leq), b.sort_by(leq), leq);
}

/// The strings joined with `|`.
pub open spec fn join_bar(v: Seq<Seq<char>>) -> Seq<char>
    decreases v.len(),
{
    if v.len() == 0 {
        Seq::empty()
    } else if v.len() == 1 {
        v[0]
    } else {
        join_bar(v.drop_last()) + seq!['|'] + v.last()
    }
}

/// The text of a payload's strings: joined with `|`, or `<none>` when there
/// are none.
pub fn join_payload_strings(strings: &Vec<String>) -> (r: String)
    ensures
        r@ == (if strings@.len() == 0 { "<none>"@ } else { join_bar(strings_view(strings@)) }),
{
    if strings.len() == 0 {
        return "<none>".to_owned();
    }
    let mut out: Vec<char> = str_to_chars(strings[0].as_str());
    let mut i: usize = 1;
    assert(strings_view(strings@).subrange(0, 1).len() == 1);
    assert(out@ =~= join_bar(strings_view(strings@).subrange(0, 1)));
    while i < strings.len()
        invariant
            1 <= i <= strings@.len(),
            out@ == join_bar(strings_view(strings@).subrange(0, i as int)),
        decreases strings.len() - i,
    {
        let part = str_to_chars(strings[i].as_str());
        let ghost prev = out@;
        out.push('|');
        let mut k: usize = 0;
        while k < part.len()
            invariant
                k <= part@.len(),
                out@ == prev + seq!['|'] + part@.subrange(0, k as int),
            decreases part.len() - k,
        {
            out.push(part[k]);
            k = k + 1;
            assert(out@ =~= prev + seq!['|'] + part@.subrange(0, k as int));
        }
        proof {
            let w = strings_view(strings@).subrange(0, i + 1);
            assert(w.drop_last() =~= strings_view(strings@).subrange(0, i as int));
            assert(w.last() == strings@[i as int]@);
            assert(part@.subrange(0, part@.len() as int) =~= part@);
        }
        i = i + 1;
    }
    assert(strings_view(strings@).subrange(0, strings@.len() as int) =~= strings_view(strings@));
    chars_to_string(out.as_slice())
}

/// Adds the text candidates found while scanning a buffer, in order, skipping
/// ones already collected, until 24 strings are collected.
pub fn collect_candidate_strings(strings: &mut Vec<String>, found: Vec<String>)
    ensures
        strings_view(final(strings)@) == collect_spec(strings_view(old(strings)@), strings_view(found@), found@.len() as int),
{
    let mut i: usize = 0;
    let ghost start = strings_view(strings@);
    while i < found.len()
        invariant_except_break
            i > 0 ==> strings@.len() < 24,
        invariant
            i <= found@.len(),
            strings_view(strings@) == collect_spec(start, strings_view(found@), i as int),
        ensures
            strings_view(strings@) == collect_spec(start, strings_view(found@), found@.len() as int),
        decreases found.len() - i,
    {
        let text = found[i].clone();
        assert(strings_view(found@)[i as int] == found@[i as int]@);
        push_unique_string(strings, text);
        i = i + 1;
        if strings.len() >= 24 {
            proof {
                lemma_collect_saturated(start, strings_view(found@), i as int);
            }
            break;
        }
    }
}

/// Adding a string unless it is already there.
pub open spec fn with_unique(acc: Seq<Seq<char>>, x: Seq<char>) -> Seq<Seq<char>> {
    if acc.contains(x) {
        acc
    } else {
        acc.push(x)
    }
}

/// Collecting the first `n` candidates: each is added in turn; after one
/// that leaves 24 or more strings, the rest are ignored.
pub open spec fn collect_spec(start: Seq<Seq<char>>, found: Seq<Seq<char>>, n: int) -> Seq<Seq<char>>
    decreases n,
{
    if n <= 0 {
        start
    } else {
        let acc = collect_spec(start, found, n - 1);
        if n - 1 > 0 && acc.len() >= 24 {
            acc
        } else {
            with_unique(acc, found[n - 1])
        }
    }
}

proof fn lemma_collect_saturated(start: Seq<Seq<char>>, found: Seq<Seq<char>>, n: int)
    requires
        1 <= n <= found.len(),
        collect_spec(start, found, n).len() >= 24,
    ensures
        collect_spec(start, found, found.len() as int) == collect_spec(start, found, n),
    decreases found.len() - n,
{
    if n < found.len() {
        assert(collect_spec(start, found, n + 1) == collect_spec(start, found, n));
        lemma_collect_saturated(start, found, n + 1);
    }
}

/// Collecting keeps strings distinct: a list without repeats stays without
/// repeats, whatever is added.
pub proof fn law_push_unique_keeps_strings_distinct(strings: Seq<Seq<char>>, text: Seq<char>)
    requires
        forall|i: int, j: int| 0 <= i < j < strings.len() ==> strings[i] != strings[j],
    ensures
        ({
            let r = if strings.contains(text) { strings } else { strings.push(text) };
            forall|i: int, j: int| 0 <= i < j < r.len() ==> r[i] != r[j]
        }),
{
    if !strings.contains(text) {
        let r = strings.push(text);
        assert forall|i: int, j: int| 0 <= i < j < r.len() implies r[i] != r[j] by {
            if j == strings.len() {
                assert(r[i] == strings[i]);
                if strings[i] == text {
                    assert(strings.contains(text));
                }
            }
        }
    }
}

} // verus!

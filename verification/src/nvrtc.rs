//! NVRTC support in the redirect layer: recognising an NVRTC library by its
//! file name, and rewriting the options of `nvrtcCompileProgram` so that every
//! compilation targets the one architecture the runtime provides.
use vstd::prelude::*;

verus! {

/// The architecture option put in front of every compilation.
pub const FORCED_ARCH_OPTION: &'static str = "-arch=compute_86";

// ---------------------------------------------------------------------------
// Library file names
// ---------------------------------------------------------------------------

/// ASCII lowercase on a UTF-16 unit.
pub open spec fn lower16(u: u16) -> u16 {
    if 0x41 <= u && u <= 0x5a {
        (u + 32) as u16
    } else {
        u
    }
}

/// A path separator.
pub open spec fn is_separator16(u: u16) -> bool {
    u == 0x5c || u == 0x2f
}

/// An ASCII digit.
pub open spec fn is_digit16(u: u16) -> bool {
    0x30 <= u && u <= 0x39
}

/// Where the file name starts when the path is scanned backwards from `i`.
pub open spec fn file_name_start(s: Seq<u16>, i: int) -> int
    decreases i,
{
    if i <= 0 {
        0
    } else if is_separator16(s[i - 1]) {
        i
    } else {
        file_name_start(s, i - 1)
    }
}

/// The part of a path after its last separator.
pub open spec fn file_name16(s: Seq<u16>) -> Seq<u16> {
    s.subrange(file_name_start(s, s.len() as int), s.len() as int)
}

/// The code of a character after ASCII lowercasing.
pub open spec fn lower_code(c: char) -> int {
    let u = c as u32;
    if 0x41 <= u && u <= 0x5a {
        u + 32
    } else {
        u as int
    }
}

/// `p` occurs at `start` in `s`, ignoring ASCII case.
pub open spec fn ci_at16(s: Seq<u16>, start: int, p: Seq<char>) -> bool {
    0 <= start && start + p.len() <= s.len() && forall|i: int|
        0 <= i < p.len() ==> lower16(#[trigger] s[start + i]) as int == lower_code(p[i])
}

/// Every unit is an ASCII digit.
pub open spec fn all_digits16(s: Seq<u16>) -> bool {
    forall|i: int| 0 <= i < s.len() ==> is_digit16(#[trigger] s[i])
}

/// A version: digits, or digits, an underscore and digits.
pub open spec fn is_version16(m: Seq<u16>) -> bool {
    ||| (m.len() > 0 && all_digits16(m))
    ||| exists|k: int|
        0 < k < m.len() - 1 && #[trigger] m[k] == 0x5f && all_digits16(m.subrange(0, k)) && all_digits16(
            m.subrange(k + 1, m.len() as int),
        )
}

/// `nvrtc64_<version>.dll`, in any ASCII case.
pub open spec fn is_nvrtc_name(s: Seq<u16>) -> bool {
    &&& s.len() >= 13
    &&& ci_at16(s, 0, "nvrtc64_"@)
    &&& ci_at16(s, s.len() - 4, ".dll"@)
    &&& is_version16(s.subrange(8, s.len() - 4))
}

/// The file name of a library path: what follows the last `\` or `/`.
pub fn dll_file_name(path: &[u16]) -> (r: Vec<u16>)
    ensures
        r@ == file_name16(path@),
{
    let n = path.len();
    let mut i: usize = n;
    while i > 0 && !(path[i - 1] == 0x5c || path[i - 1] == 0x2f)
        invariant
            i <= n == path@.len(),
            file_name_start(path@, n as int) == file_name_start(path@, i as int),
        decreases i,
    {
        i = i - 1;
    }
    let mut r: Vec<u16> = Vec::new();
    let mut j: usize = i;
    while j < n
        invariant
            i <= j <= n == path@.len(),
            r@ == path@.subrange(i as int, j as int),
        decreases n - j,
    {
        r.push(path[j]);
        j = j + 1;
        assert(r@ =~= path@.subrange(i as int, j as int));
    }
    r
}

fn lower_unit(u: u16) -> (r: u16)
    ensures
        r == lower16(u),
{
    if 0x41 <= u && u <= 0x5a {
        u + 32
    } else {
        u
    }
}

fn ci_at(s: &[u16], start: usize, p: &str) -> (r: bool)
    ensures
        r == ci_at16(s@, start as int, p@),
{
    let pc = crate::text::str_to_chars(p);
    if pc.len() > s.len() || start > s.len() - pc.len() {
        return false;
    }
    let mut i: usize = 0;
    while i < pc.len()
        invariant
            pc@ == p@,
            start as int + pc.len() as int <= s.len() as int,
            s.len() == s@.len(),
            i <= pc@.len(),
            forall|k: int| 0 <= k < i ==> lower16(#[trigger] s@[start + k]) as int == lower_code(p@[k]),
        decreases pc.len() - i,
    {
        let c = pc[i];
        let code = c as u32;
        if code > 0xffff {
            assert(lower16(s@[start + i as int]) as int != lower_code(p@[i as int]));
            return false;
        }
        let lc: u32 = if 0x41 <= code && code <= 0x5a { code + 32 } else { code };
        assert(lc as int == lower_code(p@[i as int]));
        let unit = s[start + i];
        if lower_unit(unit) as u32 != lc {
            return false;
        }
        assert(lower16(s@[start + i as int]) as int == lower_code(p@[i as int]));
        i = i + 1;
    }
    true
}

/// Whether a library file name is `nvrtc64_<digits>[_<digits>].dll`, ignoring
/// ASCII case.
pub fn is_nvrtc_file_name(s: &[u16]) -> (r: bool)
    ensures
        r == is_nvrtc_name(s@),
{
    let n = s.len();
    if n < 13 {
        return false;
    }
    if !ci_at(s, 0, "nvrtc64_") || !ci_at(s, n - 4, ".dll") {
        return false;
    }
    let e = n - 4;
    let ghost m = s@.subrange(8, e as int);
    let mut p: usize = 8;
    while p < e && 0x30 <= s[p] && s[p] <= 0x39
        invariant
            8 <= p <= e == n - 4,
            n == s@.len(),
            m == s@.subrange(8, e as int),
            forall|k: int| 8 <= k < p ==> is_digit16(#[trigger] s@[k]),
        decreases e - p,
    {
        p = p + 1;
    }
    assert(forall|k: int| 0 <= k < p - 8 ==> #[trigger] m[k] == s@[k + 8]);
    if p == e {
        proof {
            if m.len() > 0 {
                assert(all_digits16(m));
            } else {
                assert(!is_version16(m));
            }
        }
        return p > 8;
    }
    if s[p] != 0x5f || p == 8 || p + 1 >= e {
        proof {
            assert(!(m.len() > 0 && all_digits16(m))) by {
                assert(!is_digit16(m[p - 8]));
            }
            assert forall|k: int|
                0 < k < m.len() - 1 && #[trigger] m[k] == 0x5f implies !(all_digits16(m.subrange(0, k))
                && all_digits16(m.subrange(k + 1, m.len() as int))) by {
                if k < p - 8 {
                    assert(is_digit16(m[k]));
                } else if k == p - 8 {
                    if s@[p as int] == 0x5f {
                        if p == 8 {
                        } else {
                            assert(m.subrange(k + 1, m.len() as int).len() == 0 || k + 1 >= m.len());
                        }
                    }
                } else {
                    assert(m.subrange(0, k)[p - 8] == m[p - 8]);
                }
            }
        }
        return false;
    }
    let mut q: usize = p + 1;
    while q < e
        invariant
            8 < p,
            p + 1 <= q <= e == n - 4,
            n == s@.len(),
            m == s@.subrange(8, e as int),
            s@[p as int] == 0x5f,
            forall|k: int| 8 <= k < p ==> is_digit16(#[trigger] s@[k]),
            forall|k: int| p + 1 <= k < q ==> is_digit16(#[trigger] s@[k]),
        decreases e - q,
    {
        if !(0x30 <= s[q] && s[q] <= 0x39) {
            proof {
                assert(!(m.len() > 0 && all_digits16(m))) by {
                    assert(!is_digit16(m[p - 8]));
                }
                assert forall|k: int|
                    0 < k < m.len() - 1 && #[trigger] m[k] == 0x5f implies !(all_digits16(m.subrange(0, k))
                    && all_digits16(m.subrange(k + 1, m.len() as int))) by {
                    if k < p - 8 {
                        assert(is_digit16(m[k]));
                    } else if k == p - 8 {
                        assert(m.subrange(k + 1, m.len() as int)[q - p - 1] == s@[q as int]);
                    } else {
                        assert(m.subrange(0, k)[p - 8] == m[p - 8]);
                    }
                }
            }
            return false;
        }
        q = q + 1;
    }
    proof {
        let k = p - 8;
        assert(m[k] == 0x5f);
        assert(all_digits16(m.subrange(0, k)));
        assert forall|i: int| 0 <= i < m.subrange(k + 1, m.len() as int).len() implies is_digit16(
            #[trigger] m.subrange(k + 1, m.len() as int)[i],
        ) by {
            assert(m.subrange(k + 1, m.len() as int)[i] == s@[p + 1 + i]);
        }
    }
    true
}

/// Whether a library path names an NVRTC library.
pub fn is_nvrtc(path: &[u16]) -> (r: bool)
    ensures
        r == is_nvrtc_name(file_name16(path@)),
{
    let name = dll_file_name(path);
    is_nvrtc_file_name(name.as_slice())
}

// ---------------------------------------------------------------------------
// Compile options
// ---------------------------------------------------------------------------

/// Whitespace as the option grammar skips it: space, tab, carriage return, line feed.
pub open spec fn is_space_byte(b: u8) -> bool {
    b == 0x20 || b == 0x09 || b == 0x0d || b == 0x0a
}

/// An ASCII letter or digit.
pub open spec fn is_alnum_byte(b: u8) -> bool {
    (0x30 <= b && b <= 0x39) || (0x41 <= b && b <= 0x5a) || (0x61 <= b && b <= 0x7a)
}

/// The first position at or after `i` that is not whitespace.
pub open spec fn skip_spaces(s: Seq<u8>, i: int) -> int
    decreases s.len() - i,
{
    if 0 <= i < s.len() && is_space_byte(s[i]) {
        skip_spaces(s, i + 1)
    } else {
        i
    }
}

/// The first position at or after `i` that is not a letter or digit.
pub open spec fn skip_alnum(s: Seq<u8>, i: int) -> int
    decreases s.len() - i,
{
    if 0 <= i < s.len() && is_alnum_byte(s[i]) {
        skip_alnum(s, i + 1)
    } else {
        i
    }
}

/// The bytes of `p` (ASCII) start `s`.
pub open spec fn starts_with_ascii(s: Seq<u8>, p: Seq<char>) -> bool {
    p.len() <= s.len() && forall|i: int| 0 <= i < p.len() ==> #[trigger] s[i] as u32 == p[i] as u32
}

/// From `i` on: optional whitespace, `=`, optional whitespace, letters and
/// digits, `_`, letters and digits (anything may follow).
pub open spec fn arch_value_at(s: Seq<u8>, i: int) -> bool {
    let a = skip_spaces(s, i);
    let b = skip_spaces(s, a + 1);
    let c = skip_alnum(s, b);
    &&& a < s.len()
    &&& s[a] == 0x3d
    &&& c > b
    &&& c < s.len()
    &&& s[c] == 0x5f
    &&& skip_alnum(s, c + 1) > c + 1
}

/// An option that selects the target architecture: valid UTF-8 that starts
/// with `--gpu-architecture` or `-arch` followed by `= <name>_<name>`.
pub open spec fn is_arch_option_bytes(s: Seq<u8>) -> bool {
    &&& vstd::utf8::valid_utf8(s)
    &&& {
        ||| (starts_with_ascii(s, "--gpu-architecture"@) && arch_value_at(s, 18))
        ||| (starts_with_ascii(s, "-arch"@) && arch_value_at(s, 5))
    }
}

/// `std::str::from_utf8`, reduced to whether it succeeds: it does exactly on
/// well-formed UTF-8.
#[verifier::external_body]
fn utf8_valid(bytes: &[u8]) -> (r: bool)
    ensures
        r == vstd::utf8::valid_utf8(bytes@),
{
    std::str::from_utf8(bytes).is_ok()
}

fn skip_spaces_from(s: &[u8], i: usize) -> (r: usize)
    requires
        i <= s@.len(),
    ensures
        r as int == skip_spaces(s@, i as int),
        i <= r <= s@.len(),
{
    let mut j = i;
    while j < s.len() && (s[j] == 0x20 || s[j] == 0x09 || s[j] == 0x0d || s[j] == 0x0a)
        invariant
            i <= j <= s@.len(),
            skip_spaces(s@, i as int) == skip_spaces(s@, j as int),
        decreases s.len() - j,
    {
        j = j + 1;
    }
    j
}

fn skip_alnum_from(s: &[u8], i: usize) -> (r: usize)
    requires
        i <= s@.len(),
    ensures
        r as int == skip_alnum(s@, i as int),
        i <= r <= s@.len(),
{
    let mut j = i;
    while j < s.len() && ((0x30 <= s[j] && s[j] <= 0x39) || (0x41 <= s[j] && s[j] <= 0x5a) || (0x61 <= s[j]
        && s[j] <= 0x7a))
        invariant
            i <= j <= s@.len(),
            skip_alnum(s@, i as int) == skip_alnum(s@, j as int),
        decreases s.len() - j,
    {
        j = j + 1;
    }
    j
}

fn starts_with_text(s: &[u8], p: &str) -> (r: bool)
    ensures
        r == starts_with_ascii(s@, p@),
{
    let pc = crate::text::str_to_chars(p);
    if pc.len() > s.len() {
        return false;
    }
    let mut i: usize = 0;
    while i < pc.len()
        invariant
            pc@ == p@,
            pc.len() <= s.len(),
            i <= pc@.len(),
            forall|k: int| 0 <= k < i ==> #[trigger] s@[k] as u32 == p@[k] as u32,
        decreases pc.len() - i,
    {
        if s[i] as u32 != pc[i] as u32 {
            return false;
        }
        i = i + 1;
    }
    true
}

fn arch_value_from(s: &[u8], i: usize) -> (r: bool)
    requires
        i <= s@.len(),
    ensures
        r == arch_value_at(s@, i as int),
{
    let a = skip_spaces_from(s, i);
    if a >= s.len() || s[a] != 0x3d {
        return false;
    }
    let b = skip_spaces_from(s, a + 1);
    let c = skip_alnum_from(s, b);
    if c == b || c >= s.len() || s[c] != 0x5f {
        return false;
    }
    let d = skip_alnum_from(s, c + 1);
    d > c + 1
}

/// Whether an NVRTC option selects the target architecture.
pub fn is_arch_option(option: &[u8]) -> (r: bool)
    ensures
        r == is_arch_option_bytes(option@),
{
    if !utf8_valid(option) {
        return false;
    }
    proof {
        reveal_strlit("--gpu-architecture");
        reveal_strlit("-arch");
    }
    if starts_with_text(option, "--gpu-architecture") {
        assert(!starts_with_ascii(option@, "-arch"@)) by {
            assert(option@[1] as u32 == '-' as u32);
        }
        return arch_value_from(option, 18);
    }
    if starts_with_text(option, "-arch") {
        return arch_value_from(option, 5);
    }
    false
}

/// The positions of the options that are kept: all but the architecture
/// options, in their order.
pub open spec fn kept_option_indices(options: Seq<Vec<u8>>, n: int) -> Seq<usize>
    decreases n,
{
    if n <= 0 {
        Seq::empty()
    } else if is_arch_option_bytes(options[n - 1]@) {
        kept_option_indices(options, n - 1)
    } else {
        kept_option_indices(options, n - 1).push((n - 1) as usize)
    }
}

/// `nvrtcCompileProgram`'s rewrite: the caller's options without their
/// architecture options, given by position; the compilation is then run with
/// `FORCED_ARCH_OPTION` followed by these.
pub fn nvrtc_kept_options(options: &[Vec<u8>]) -> (r: Vec<usize>)
    ensures
        r@ == kept_option_indices(options@, options@.len() as int),
        forall|i: int| 0 <= i < options@.len() ==> (r@.contains(i as usize) <==> !is_arch_option_bytes(#[trigger] options@[i]@)),
        forall|j: int, k: int| 0 <= j < k < r@.len() ==> r@[j] < r@[k],
{
    let count = options.len();
    proof {
        law_kept_options_are_the_non_arch_ones(options@, count as int);
    }
    let mut r: Vec<usize> = Vec::new();
    let mut i: usize = 0;
    while i < options.len()
        invariant
            i <= options@.len(),
            r@ == kept_option_indices(options@, i as int),
        decreases options.len() - i,
    {
        if !is_arch_option(options[i].as_slice()) {
            r.push(i);
        }
        i = i + 1;
    }
    r
}

/// The rewrite keeps exactly the options that are not architecture options,
/// whatever else they look like, each once and in their order: among the
/// first `n` options, position `i` is kept exactly when option `i` is not an
/// architecture option, and the kept positions are increasing and below `n`.
pub proof fn law_kept_options_are_the_non_arch_ones(options: Seq<Vec<u8>>, n: int)
    requires
        0 <= n <= options.len(),
        n <= usize::MAX,
    ensures
        forall|i: int| 0 <= i < n ==> (kept_option_indices(options, n).contains(i as usize) <==> !is_arch_option_bytes(
            #[trigger] options[i]@,
        )),
        forall|j: int, k: int|
            0 <= j < k < kept_option_indices(options, n).len() ==> kept_option_indices(options, n)[j]
                < kept_option_indices(options, n)[k],
        forall|j: int| 0 <= j < kept_option_indices(options, n).len() ==> kept_option_indices(options, n)[j] < n,
    decreases n,
{
    if n > 0 {
        law_kept_options_are_the_non_arch_ones(options, n - 1);
        let prev = kept_option_indices(options, n - 1);
        let cur = kept_option_indices(options, n);
        assert forall|i: int| 0 <= i < n implies (cur.contains(i as usize) <==> !is_arch_option_bytes(
            #[trigger] options[i]@,
        )) by {
            if i < n - 1 {
                if !is_arch_option_bytes(options[n - 1]@) {
                    assert(cur == prev.push((n - 1) as usize));
                    if cur.contains(i as usize) {
                        let w = choose|w: int| 0 <= w < cur.len() && cur[w] == i as usize;
                        if w == prev.len() {
                            assert((n - 1) as usize != i as usize);
                        } else {
                            assert(prev[w] == cur[w]);
                        }
                    }
                    if prev.contains(i as usize) {
                        let w = choose|w: int| 0 <= w < prev.len() && prev[w] == i as usize;
                        assert(cur[w] == prev[w]);
                    }
                }
            } else {
                if !is_arch_option_bytes(options[n - 1]@) {
                    assert(cur[prev.len() as int] == (n - 1) as usize);
                } else {
                    if prev.contains((n - 1) as usize) {
                        let w = choose|w: int| 0 <= w < prev.len() && prev[w] == (n - 1) as usize;
                        assert(prev[w] < n - 1);
                    }
                }
            }
        }
    }
}

} // verus!

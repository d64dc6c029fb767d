//! CUDA driver result codes, the error type the library returns, and the
//! text that `cuGetErrorString` hands out for each code.
use vstd::prelude::*;

verus! {

pub const CUDA_SUCCESS: u32 = 0;
pub const CUDA_ERROR_INVALID_VALUE: u32 = 1;
pub const CUDA_ERROR_OUT_OF_MEMORY: u32 = 2;
pub const CUDA_ERROR_NOT_INITIALIZED: u32 = 3;
pub const CUDA_ERROR_DEINITIALIZED: u32 = 4;
pub const CUDA_ERROR_NO_DEVICE: u32 = 100;
pub const CUDA_ERROR_INVALID_DEVICE: u32 = 101;
pub const CUDA_ERROR_INVALID_IMAGE: u32 = 200;
pub const CUDA_ERROR_INVALID_CONTEXT: u32 = 201;
pub const CUDA_ERROR_CONTEXT_ALREADY_CURRENT: u32 = 202;
pub const CUDA_ERROR_MAP_FAILED: u32 = 205;
pub const CUDA_ERROR_UNMAP_FAILED: u32 = 206;
pub const CUDA_ERROR_ARRAY_IS_MAPPED: u32 = 207;
pub const CUDA_ERROR_ALREADY_MAPPED: u32 = 208;
pub const CUDA_ERROR_NO_BINARY_FOR_GPU: u32 = 209;
pub const CUDA_ERROR_ALREADY_ACQUIRED: u32 = 210;
pub const CUDA_ERROR_NOT_MAPPED: u32 = 211;
pub const CUDA_ERROR_INVALID_SOURCE: u32 = 300;
pub const CUDA_ERROR_FILE_NOT_FOUND: u32 = 301;
pub const CUDA_ERROR_INVALID_HANDLE: u32 = 400;
pub const CUDA_ERROR_NOT_FOUND: u32 = 500;
pub const CUDA_ERROR_NOT_READY: u32 = 600;
pub const CUDA_ERROR_ILLEGAL_ADDRESS: u32 = 700;
pub const CUDA_ERROR_LAUNCH_OUT_OF_RESOURCES: u32 = 701;
pub const CUDA_ERROR_LAUNCH_TIMEOUT: u32 = 702;
pub const CUDA_ERROR_LAUNCH_INCOMPATIBLE_TEXTURING: u32 = 703;
pub const CUDA_ERROR_PEER_ACCESS_ALREADY_ENABLED: u32 = 704;
pub const CUDA_ERROR_PEER_ACCESS_NOT_ENABLED: u32 = 705;
pub const CUDA_ERROR_PRIMARY_CONTEXT_ACTIVE: u32 = 708;
pub const CUDA_ERROR_CONTEXT_IS_DESTROYED: u32 = 709;
pub const CUDA_ERROR_ASSERT: u32 = 710;
pub const CUDA_ERROR_TOO_MANY_PEERS: u32 = 711;
pub const CUDA_ERROR_HOST_MEMORY_ALREADY_REGISTERED: u32 = 712;
pub const CUDA_ERROR_HOST_MEMORY_NOT_REGISTERED: u32 = 713;
pub const CUDA_ERROR_OPERATING_SYSTEM: u32 = 304;
pub const CUDA_ERROR_NOT_SUPPORTED: u32 = 801;
pub const CUDA_ERROR_UNKNOWN: u32 = 999;

/// A failed CUDA driver call, carrying its nonzero result code.
#[derive(Clone, Copy, PartialEq, Eq, Structural, Debug)]
pub struct CuError {
    pub code: u32,
}

/// The error with the given code.
pub fn cu_error(code: u32) -> (e: CuError)
    ensures
        e.code == code,
{
    CuError { code }
}

/// The text `cuGetErrorString` reports for a result code; codes without a text
/// of their own read "error".
pub open spec fn error_text(code: u32) -> Seq<char> {
    if code == CUDA_SUCCESS { "no error"@ }
    else if code == CUDA_ERROR_INVALID_VALUE { "invalid value"@ }
    else if code == CUDA_ERROR_OUT_OF_MEMORY { "out of memory"@ }
    else if code == CUDA_ERROR_NOT_INITIALIZED { "driver not initialized"@ }
    else if code == CUDA_ERROR_DEINITIALIZED { "driver deinitialized"@ }
    else if code == CUDA_ERROR_NO_DEVICE { "no CUDA-capable device is detected"@ }
    else if code == CUDA_ERROR_INVALID_DEVICE { "invalid device"@ }
    else if code == CUDA_ERROR_INVALID_IMAGE { "invalid kernel image"@ }
    else if code == CUDA_ERROR_INVALID_CONTEXT { "invalid context"@ }
    else if code == CUDA_ERROR_CONTEXT_ALREADY_CURRENT { "context already current"@ }
    else if code == CUDA_ERROR_MAP_FAILED { "map failed"@ }
    else if code == CUDA_ERROR_UNMAP_FAILED { "unmap failed"@ }
    else if code == CUDA_ERROR_ARRAY_IS_MAPPED { "array is mapped"@ }
    else if code == CUDA_ERROR_ALREADY_MAPPED { "already mapped"@ }
    else if code == CUDA_ERROR_NO_BINARY_FOR_GPU { "no binary for GPU"@ }
    else if code == CUDA_ERROR_ALREADY_ACQUIRED { "already acquired"@ }
    else if code == CUDA_ERROR_NOT_MAPPED { "not mapped"@ }
    else if code == CUDA_ERROR_NOT_SUPPORTED { "operation not supported"@ }
    else if code == CUDA_ERROR_INVALID_SOURCE { "invalid source"@ }
    else if code == CUDA_ERROR_FILE_NOT_FOUND { "file not found"@ }
    else if code == CUDA_ERROR_INVALID_HANDLE { "invalid handle"@ }
    else if code == CUDA_ERROR_NOT_READY { "not ready"@ }
    else if code == CUDA_ERROR_ILLEGAL_ADDRESS { "illegal address"@ }
    else if code == CUDA_ERROR_LAUNCH_OUT_OF_RESOURCES { "launch out of resources"@ }
    else if code == CUDA_ERROR_LAUNCH_TIMEOUT { "launch timeout"@ }
    else if code == CUDA_ERROR_LAUNCH_INCOMPATIBLE_TEXTURING { "launch incompatible texturing"@ }
    else if code == CUDA_ERROR_PEER_ACCESS_ALREADY_ENABLED { "peer access already enabled"@ }
    else if code == CUDA_ERROR_PEER_ACCESS_NOT_ENABLED { "peer access not enabled"@ }
    else if code == CUDA_ERROR_PRIMARY_CONTEXT_ACTIVE { "primary context active"@ }
    else if code == CUDA_ERROR_CONTEXT_IS_DESTROYED { "context is destroyed"@ }
    else if code == CUDA_ERROR_ASSERT { "device-side assert triggered"@ }
    else if code == CUDA_ERROR_TOO_MANY_PEERS { "too many peers"@ }
    else if code == CUDA_ERROR_HOST_MEMORY_ALREADY_REGISTERED { "host memory already registered"@ }
    else if code == CUDA_ERROR_HOST_MEMORY_NOT_REGISTERED { "host memory not registered"@ }
    else if code == CUDA_ERROR_UNKNOWN { "unknown error"@ }
    else { "error"@ }
}

/// `cuGetErrorString`: the description of a result code (0 for success).
pub fn get_error_string(code: u32) -> (s: &'static str)
    ensures
        s@ == error_text(code),
        code == CUDA_SUCCESS ==> s@ == "no error"@,
        code == CUDA_ERROR_INVALID_VALUE ==> s@ == "invalid value"@,
        code == CUDA_ERROR_OUT_OF_MEMORY ==> s@ == "out of memory"@,
        code == CUDA_ERROR_NOT_INITIALIZED ==> s@ == "driver not initialized"@,
        code == CUDA_ERROR_DEINITIALIZED ==> s@ == "driver deinitialized"@,
        code == CUDA_ERROR_NO_DEVICE ==> s@ == "no CUDA-capable device is detected"@,
        code == CUDA_ERROR_INVALID_DEVICE ==> s@ == "invalid device"@,
        code == CUDA_ERROR_INVALID_IMAGE ==> s@ == "invalid kernel image"@,
        code == CUDA_ERROR_INVALID_CONTEXT ==> s@ == "invalid context"@,
        code == CUDA_ERROR_CONTEXT_ALREADY_CURRENT ==> s@ == "context already current"@,
        code == CUDA_ERROR_MAP_FAILED ==> s@ == "map failed"@,
        code == CUDA_ERROR_UNMAP_FAILED ==> s@ == "unmap failed"@,
        code == CUDA_ERROR_ARRAY_IS_MAPPED ==> s@ == "array is mapped"@,
        code == CUDA_ERROR_ALREADY_MAPPED ==> s@ == "already mapped"@,
        code == CUDA_ERROR_NO_BINARY_FOR_GPU ==> s@ == "no binary for GPU"@,
        code == CUDA_ERROR_ALREADY_ACQUIRED ==> s@ == "already acquired"@,
        code == CUDA_ERROR_NOT_MAPPED ==> s@ == "not mapped"@,
        code == CUDA_ERROR_NOT_SUPPORTED ==> s@ == "operation not supported"@,
        code == CUDA_ERROR_INVALID_SOURCE ==> s@ == "invalid source"@,
        code == CUDA_ERROR_FILE_NOT_FOUND ==> s@ == "file not found"@,
        code == CUDA_ERROR_INVALID_HANDLE ==> s@ == "invalid handle"@,
        code == CUDA_ERROR_NOT_READY ==> s@ == "not ready"@,
        code == CUDA_ERROR_ILLEGAL_ADDRESS ==> s@ == "illegal address"@,
        code == CUDA_ERROR_LAUNCH_OUT_OF_RESOURCES ==> s@ == "launch out of resources"@,
        code == CUDA_ERROR_LAUNCH_TIMEOUT ==> s@ == "launch timeout"@,
        code == CUDA_ERROR_LAUNCH_INCOMPATIBLE_TEXTURING ==> s@ == "launch incompatible texturing"@,
        code == CUDA_ERROR_PEER_ACCESS_ALREADY_ENABLED ==> s@ == "peer access already enabled"@,
        code == CUDA_ERROR_PEER_ACCESS_NOT_ENABLED ==> s@ == "peer access not enabled"@,
        code == CUDA_ERROR_PRIMARY_CONTEXT_ACTIVE ==> s@ == "primary context active"@,
        code == CUDA_ERROR_CONTEXT_IS_DESTROYED ==> s@ == "context is destroyed"@,
        code == CUDA_ERROR_ASSERT ==> s@ == "device-side assert triggered"@,
        code == CUDA_ERROR_TOO_MANY_PEERS ==> s@ == "too many peers"@,
        code == CUDA_ERROR_HOST_MEMORY_ALREADY_REGISTERED ==> s@ == "host memory already registered"@,
        code == CUDA_ERROR_HOST_MEMORY_NOT_REGISTERED ==> s@ == "host memory not registered"@,
        code == CUDA_ERROR_UNKNOWN ==> s@ == "unknown error"@,
        !is_known_code(code) ==> s@ == "error"@,
{
    if code == CUDA_SUCCESS { "no error" }
    else if code == CUDA_ERROR_INVALID_VALUE { "invalid value" }
    else if code == CUDA_ERROR_OUT_OF_MEMORY { "out of memory" }
    else if code == CUDA_ERROR_NOT_INITIALIZED { "driver not initialized" }
    else if code == CUDA_ERROR_DEINITIALIZED { "driver deinitialized" }
    else if code == CUDA_ERROR_NO_DEVICE { "no CUDA-capable device is detected" }
    else if code == CUDA_ERROR_INVALID_DEVICE { "invalid device" }
    else if code == CUDA_ERROR_INVALID_IMAGE { "invalid kernel image" }
    else if code == CUDA_ERROR_INVALID_CONTEXT { "invalid context" }
    else if code == CUDA_ERROR_CONTEXT_ALREADY_CURRENT { "context already current" }
    else if code == CUDA_ERROR_MAP_FAILED { "map failed" }
    else if code == CUDA_ERROR_UNMAP_FAILED { "unmap failed" }
    else if code == CUDA_ERROR_ARRAY_IS_MAPPED { "array is mapped" }
    else if code == CUDA_ERROR_ALREADY_MAPPED { "already mapped" }
    else if code == CUDA_ERROR_NO_BINARY_FOR_GPU { "no binary for GPU" }
    else if code == CUDA_ERROR_ALREADY_ACQUIRED { "already acquired" }
    else if code == CUDA_ERROR_NOT_MAPPED { "not mapped" }
    else if code == CUDA_ERROR_NOT_SUPPORTED { "operation not supported" }
    else if code == CUDA_ERROR_INVALID_SOURCE { "invalid source" }
    else if code == CUDA_ERROR_FILE_NOT_FOUND { "file not found" }
    else if code == CUDA_ERROR_INVALID_HANDLE { "invalid handle" }
    else if code == CUDA_ERROR_NOT_READY { "not ready" }
    else if code == CUDA_ERROR_ILLEGAL_ADDRESS { "illegal address" }
    else if code == CUDA_ERROR_LAUNCH_OUT_OF_RESOURCES { "launch out of resources" }
    else if code == CUDA_ERROR_LAUNCH_TIMEOUT { "launch timeout" }
    else if code == CUDA_ERROR_LAUNCH_INCOMPATIBLE_TEXTURING { "launch incompatible texturing" }
    else if code == CUDA_ERROR_PEER_ACCESS_ALREADY_ENABLED { "peer access already enabled" }
    else if code == CUDA_ERROR_PEER_ACCESS_NOT_ENABLED { "peer access not enabled" }
    else if code == CUDA_ERROR_PRIMARY_CONTEXT_ACTIVE { "primary context active" }
    else if code == CUDA_ERROR_CONTEXT_IS_DESTROYED { "context is destroyed" }
    else if code == CUDA_ERROR_ASSERT { "device-side assert triggered" }
    else if code == CUDA_ERROR_TOO_MANY_PEERS { "too many peers" }
    else if code == CUDA_ERROR_HOST_MEMORY_ALREADY_REGISTERED { "host memory already registered" }
    else if code == CUDA_ERROR_HOST_MEMORY_NOT_REGISTERED { "host memory not registered" }
    else if code == CUDA_ERROR_UNKNOWN { "unknown error" }
    else { "error" }
}

/// The codes that have a text of their own.
pub open spec fn is_known_code(code: u32) -> bool {
    code == CUDA_SUCCESS || code == CUDA_ERROR_INVALID_VALUE || code == CUDA_ERROR_OUT_OF_MEMORY || code == CUDA_ERROR_NOT_INITIALIZED || code == CUDA_ERROR_DEINITIALIZED || code == CUDA_ERROR_NO_DEVICE || code == CUDA_ERROR_INVALID_DEVICE || code == CUDA_ERROR_INVALID_IMAGE || code == CUDA_ERROR_INVALID_CONTEXT || code == CUDA_ERROR_CONTEXT_ALREADY_CURRENT || code == CUDA_ERROR_MAP_FAILED || code == CUDA_ERROR_UNMAP_FAILED || code == CUDA_ERROR_ARRAY_IS_MAPPED || code == CUDA_ERROR_ALREADY_MAPPED || code == CUDA_ERROR_NO_BINARY_FOR_GPU || code == CUDA_ERROR_ALREADY_ACQUIRED || code == CUDA_ERROR_NOT_MAPPED || code == CUDA_ERROR_NOT_SUPPORTED || code == CUDA_ERROR_INVALID_SOURCE || code == CUDA_ERROR_FILE_NOT_FOUND || code == CUDA_ERROR_INVALID_HANDLE || code == CUDA_ERROR_NOT_READY || code == CUDA_ERROR_ILLEGAL_ADDRESS || code == CUDA_ERROR_LAUNCH_OUT_OF_RESOURCES || code == CUDA_ERROR_LAUNCH_TIMEOUT || code == CUDA_ERROR_LAUNCH_INCOMPATIBLE_TEXTURING || code == CUDA_ERROR_PEER_ACCESS_ALREADY_ENABLED || code == CUDA_ERROR_PEER_ACCESS_NOT_ENABLED || code == CUDA_ERROR_PRIMARY_CONTEXT_ACTIVE || code == CUDA_ERROR_CONTEXT_IS_DESTROYED || code == CUDA_ERROR_ASSERT || code == CUDA_ERROR_TOO_MANY_PEERS || code == CUDA_ERROR_HOST_MEMORY_ALREADY_REGISTERED || code == CUDA_ERROR_HOST_MEMORY_NOT_REGISTERED || code == CUDA_ERROR_UNKNOWN
}

/// The length and the characters at 0 and 8 (a space past the end): enough
/// to tell the texts apart.
spec fn text_key(t: Seq<char>) -> (nat, char, char) {
    (t.len(), if 0 < t.len() { t[0] } else { ' ' }, if 8 < t.len() { t[8] } else { ' ' })
}

/// `cuGetErrorString` tells the codes apart: each code with a text of its own
/// reads as that text (out of memory as "out of memory", and so on), no two
/// such codes share a text, none of them reads as the generic "error", and
/// every other code reads as "error".
pub proof fn law_error_strings_tell_codes_apart(a: u32, b: u32)
    ensures
        error_text(CUDA_SUCCESS) == "no error"@,
        error_text(CUDA_ERROR_INVALID_VALUE) == "invalid value"@,
        error_text(CUDA_ERROR_OUT_OF_MEMORY) == "out of memory"@,
        error_text(CUDA_ERROR_NOT_INITIALIZED) == "driver not initialized"@,
        error_text(CUDA_ERROR_DEINITIALIZED) == "driver deinitialized"@,
        error_text(CUDA_ERROR_NO_DEVICE) == "no CUDA-capable device is detected"@,
        error_text(CUDA_ERROR_INVALID_DEVICE) == "invalid device"@,
        error_text(CUDA_ERROR_INVALID_IMAGE) == "invalid kernel image"@,
        error_text(CUDA_ERROR_INVALID_CONTEXT) == "invalid context"@,
        error_text(CUDA_ERROR_CONTEXT_ALREADY_CURRENT) == "context already current"@,
        error_text(CUDA_ERROR_MAP_FAILED) == "map failed"@,
        error_text(CUDA_ERROR_UNMAP_FAILED) == "unmap failed"@,
        error_text(CUDA_ERROR_ARRAY_IS_MAPPED) == "array is mapped"@,
        error_text(CUDA_ERROR_ALREADY_MAPPED) == "already mapped"@,
        error_text(CUDA_ERROR_NO_BINARY_FOR_GPU) == "no binary for GPU"@,
        error_text(CUDA_ERROR_ALREADY_ACQUIRED) == "already acquired"@,
        error_text(CUDA_ERROR_NOT_MAPPED) == "not mapped"@,
        error_text(CUDA_ERROR_NOT_SUPPORTED) == "operation not supported"@,
        error_text(CUDA_ERROR_INVALID_SOURCE) == "invalid source"@,
        error_text(CUDA_ERROR_FILE_NOT_FOUND) == "file not found"@,
        error_text(CUDA_ERROR_INVALID_HANDLE) == "invalid handle"@,
        error_text(CUDA_ERROR_NOT_READY) == "not ready"@,
        error_text(CUDA_ERROR_ILLEGAL_ADDRESS) == "illegal address"@,
        error_text(CUDA_ERROR_LAUNCH_OUT_OF_RESOURCES) == "launch out of resources"@,
        error_text(CUDA_ERROR_LAUNCH_TIMEOUT) == "launch timeout"@,
        error_text(CUDA_ERROR_LAUNCH_INCOMPATIBLE_TEXTURING) == "launch incompatible texturing"@,
        error_text(CUDA_ERROR_PEER_ACCESS_ALREADY_ENABLED) == "peer access already enabled"@,
        error_text(CUDA_ERROR_PEER_ACCESS_NOT_ENABLED) == "peer access not enabled"@,
        error_text(CUDA_ERROR_PRIMARY_CONTEXT_ACTIVE) == "primary context active"@,
        error_text(CUDA_ERROR_CONTEXT_IS_DESTROYED) == "context is destroyed"@,
        error_text(CUDA_ERROR_ASSERT) == "device-side assert triggered"@,
        error_text(CUDA_ERROR_TOO_MANY_PEERS) == "too many peers"@,
        error_text(CUDA_ERROR_HOST_MEMORY_ALREADY_REGISTERED) == "host memory already registered"@,
        error_text(CUDA_ERROR_HOST_MEMORY_NOT_REGISTERED) == "host memory not registered"@,
        error_text(CUDA_ERROR_UNKNOWN) == "unknown error"@,
        is_known_code(a) && is_known_code(b) && a != b ==> error_text(a) != error_text(b),
        is_known_code(a) ==> error_text(a) != "error"@,
        !is_known_code(a) ==> error_text(a) == "error"@,
{
    reveal_strlit("no error");
    reveal_strlit("invalid value");
    reveal_strlit("out of memory");
    reveal_strlit("driver not initialized");
    reveal_strlit("driver deinitialized");
    reveal_strlit("no CUDA-capable device is detected");
    reveal_strlit("invalid device");
    reveal_strlit("invalid kernel image");
    reveal_strlit("invalid context");
    reveal_strlit("context already current");
    reveal_strlit("map failed");
    reveal_strlit("unmap failed");
    reveal_strlit("array is mapped");
    reveal_strlit("already mapped");
    reveal_strlit("no binary for GPU");
    reveal_strlit("already acquired");
    reveal_strlit("not mapped");
    reveal_strlit("operation not supported");
    reveal_strlit("invalid source");
    reveal_strlit("file not found");
    reveal_strlit("invalid handle");
    reveal_strlit("not ready");
    reveal_strlit("illegal address");
    reveal_strlit("launch out of resources");
    reveal_strlit("launch timeout");
    reveal_strlit("launch incompatible texturing");
    reveal_strlit("peer access already enabled");
    reveal_strlit("peer access not enabled");
    reveal_strlit("primary context active");
    reveal_strlit("context is destroyed");
    reveal_strlit("device-side assert triggered");
    reveal_strlit("too many peers");
    reveal_strlit("host memory already registered");
    reveal_strlit("host memory not registered");
    reveal_strlit("unknown error");
    reveal_strlit("error");
    assert(text_key(error_text(CUDA_SUCCESS)) == (8nat, 'n', ' '));
    assert(text_key(error_text(CUDA_ERROR_INVALID_VALUE)) == (13nat, 'i', 'v'));
    assert(text_key(error_text(CUDA_ERROR_OUT_OF_MEMORY)) == (13nat, 'o', 'e'));
    assert(text_key(error_text(CUDA_ERROR_NOT_INITIALIZED)) == (22nat, 'd', 'o'));
    assert(text_key(error_text(CUDA_ERROR_DEINITIALIZED)) == (20nat, 'd', 'e'));
    assert(text_key(error_text(CUDA_ERROR_NO_DEVICE)) == (34nat, 'n', 'c'));
    assert(text_key(error_text(CUDA_ERROR_INVALID_DEVICE)) == (14nat, 'i', 'd'));
    assert(text_key(error_text(CUDA_ERROR_INVALID_IMAGE)) == (20nat, 'i', 'k'));
    assert(text_key(error_text(CUDA_ERROR_INVALID_CONTEXT)) == (15nat, 'i', 'c'));
    assert(text_key(error_text(CUDA_ERROR_CONTEXT_ALREADY_CURRENT)) == (23nat, 'c', 'a'));
    assert(text_key(error_text(CUDA_ERROR_MAP_FAILED)) == (10nat, 'm', 'e'));
    assert(text_key(error_text(CUDA_ERROR_UNMAP_FAILED)) == (12nat, 'u', 'i'));
    assert(text_key(error_text(CUDA_ERROR_ARRAY_IS_MAPPED)) == (15nat, 'a', ' '));
    assert(text_key(error_text(CUDA_ERROR_ALREADY_MAPPED)) == (14nat, 'a', 'm'));
    assert(text_key(error_text(CUDA_ERROR_NO_BINARY_FOR_GPU)) == (17nat, 'n', 'y'));
    assert(text_key(error_text(CUDA_ERROR_ALREADY_ACQUIRED)) == (16nat, 'a', 'a'));
    assert(text_key(error_text(CUDA_ERROR_NOT_MAPPED)) == (10nat, 'n', 'e'));
    assert(text_key(error_text(CUDA_ERROR_NOT_SUPPORTED)) == (23nat, 'o', 'n'));
    assert(text_key(error_text(CUDA_ERROR_INVALID_SOURCE)) == (14nat, 'i', 's'));
    assert(text_key(error_text(CUDA_ERROR_FILE_NOT_FOUND)) == (14nat, 'f', ' '));
    assert(text_key(error_text(CUDA_ERROR_INVALID_HANDLE)) == (14nat, 'i', 'h'));
    assert(text_key(error_text(CUDA_ERROR_NOT_READY)) == (9nat, 'n', 'y'));
    assert(text_key(error_text(CUDA_ERROR_ILLEGAL_ADDRESS)) == (15nat, 'i', 'a'));
    assert(text_key(error_text(CUDA_ERROR_LAUNCH_OUT_OF_RESOURCES)) == (23nat, 'l', 'u'));
    assert(text_key(error_text(CUDA_ERROR_LAUNCH_TIMEOUT)) == (14nat, 'l', 'i'));
    assert(text_key(error_text(CUDA_ERROR_LAUNCH_INCOMPATIBLE_TEXTURING)) == (29nat, 'l', 'n'));
    assert(text_key(error_text(CUDA_ERROR_PEER_ACCESS_ALREADY_ENABLED)) == (27nat, 'p', 'e'));
    assert(text_key(error_text(CUDA_ERROR_PEER_ACCESS_NOT_ENABLED)) == (23nat, 'p', 'e'));
    assert(text_key(error_text(CUDA_ERROR_PRIMARY_CONTEXT_ACTIVE)) == (22nat, 'p', 'c'));
    assert(text_key(error_text(CUDA_ERROR_CONTEXT_IS_DESTROYED)) == (20nat, 'c', 'i'));
    assert(text_key(error_text(CUDA_ERROR_ASSERT)) == (28nat, 'd', 'i'));
    assert(text_key(error_text(CUDA_ERROR_TOO_MANY_PEERS)) == (14nat, 't', ' '));
    assert(text_key(error_text(CUDA_ERROR_HOST_MEMORY_ALREADY_REGISTERED)) == (30nat, 'h', 'o'));
    assert(text_key(error_text(CUDA_ERROR_HOST_MEMORY_NOT_REGISTERED)) == (26nat, 'h', 'o'));
    assert(text_key(error_text(CUDA_ERROR_UNKNOWN)) == (13nat, 'u', 'e'));
    assert(text_key("error"@) == (5nat, 'e', ' '));
}

} // verus!

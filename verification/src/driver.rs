//! Decisions of the driver entry points that sit around the HIP calls:
//! function attributes, launch checks, symbol lookup results, the hybrid
//! runtime handshake, pitched allocation sizes and occupancy answers.
use vstd::prelude::*;
use crate::cuda::{
    cu_error, CuError, CUDA_ERROR_INVALID_DEVICE, CUDA_ERROR_INVALID_HANDLE, CUDA_ERROR_INVALID_VALUE,
    CUDA_ERROR_NOT_FOUND, CUDA_ERROR_NOT_SUPPORTED,
};
use crate::runtime::{announce_sync_after_launch, next_launch_sequence, wrapping_next, AnnounceLatch, KernelFunction, LaunchCounter};
use crate::settings::{opt_view, DebugSettings};

verus! {

pub const CU_FUNC_ATTRIBUTE_NUM_REGS: u32 = 4;
pub const CU_FUNC_ATTRIBUTE_PTX_VERSION: u32 = 5;
pub const CU_FUNC_ATTRIBUTE_BINARY_VERSION: u32 = 6;
pub const CU_FUNC_ATTRIBUTE_CLUSTER_SIZE_MUST_BE_SET: u32 = 10;
pub const CU_FUNC_ATTRIBUTE_REQUIRED_CLUSTER_WIDTH: u32 = 11;
pub const CU_FUNC_ATTRIBUTE_REQUIRED_CLUSTER_HEIGHT: u32 = 12;
pub const CU_FUNC_ATTRIBUTE_REQUIRED_CLUSTER_DEPTH: u32 = 13;
pub const CU_FUNC_ATTRIBUTE_NON_PORTABLE_CLUSTER_SIZE_ALLOWED: u32 = 14;
pub const CU_FUNC_ATTRIBUTE_CLUSTER_SCHEDULING_POLICY_PREFERENCE: u32 = 15;

/// The binary version reported for every function.
pub const REPORTED_BINARY_VERSION: i32 = 120;

pub const CU_LAUNCH_ATTRIBUTE_PROGRAMMATIC_STREAM_SERIALIZATION: u32 = 6;

pub const CU_GET_PROC_ADDRESS_SUCCESS: u32 = 0;
pub const CU_GET_PROC_ADDRESS_SYMBOL_NOT_FOUND: u32 = 1;
pub const CU_GET_PROC_ADDRESS_VERSION_NOT_SUFFICIENT: u32 = 2;

/// The token handed out with the hybrid runtime's entry point.
pub const HYBRID_RUNTIME_TOKEN: u64 = 302100128;

/// The alignment of pitched allocations.
pub const PITCH_ALIGNMENT: usize = 512;

/// Where the value of a function attribute comes from.
#[derive(Clone, Copy, PartialEq, Eq, Structural, Debug)]
pub enum AttributeSource {
    /// The runtime answers with this value itself.
    Known(i32),
    /// The value is asked of HIP.
    Runtime,
}

/// The cluster attributes, all answered with 0.
pub open spec fn is_cluster_attribute(attrib: u32) -> bool {
    attrib == CU_FUNC_ATTRIBUTE_CLUSTER_SIZE_MUST_BE_SET
        || attrib == CU_FUNC_ATTRIBUTE_REQUIRED_CLUSTER_WIDTH
        || attrib == CU_FUNC_ATTRIBUTE_REQUIRED_CLUSTER_HEIGHT
        || attrib == CU_FUNC_ATTRIBUTE_REQUIRED_CLUSTER_DEPTH
        || attrib == CU_FUNC_ATTRIBUTE_NON_PORTABLE_CLUSTER_SIZE_ALLOWED
        || attrib == CU_FUNC_ATTRIBUTE_CLUSTER_SCHEDULING_POLICY_PREFERENCE
}

/// `cuFuncGetAttribute`, first part: the PTX version is the function's SM
/// version, the binary version is 120, cluster attributes are 0, and the rest
/// is asked of HIP.
pub fn function_attribute_source(attrib: u32, func: &KernelFunction) -> (r: AttributeSource)
    ensures
        attrib == CU_FUNC_ATTRIBUTE_PTX_VERSION ==> r == AttributeSource::Known(func.sm_version as i32),
        attrib == CU_FUNC_ATTRIBUTE_BINARY_VERSION ==> r == AttributeSource::Known(REPORTED_BINARY_VERSION),
        is_cluster_attribute(attrib) ==> r == AttributeSource::Known(0),
        attrib != CU_FUNC_ATTRIBUTE_PTX_VERSION && attrib != CU_FUNC_ATTRIBUTE_BINARY_VERSION
            && !is_cluster_attribute(attrib) ==> r == AttributeSource::Runtime,
{
    if attrib == CU_FUNC_ATTRIBUTE_PTX_VERSION {
        AttributeSource::Known(func.sm_version as i32)
    } else if attrib == CU_FUNC_ATTRIBUTE_BINARY_VERSION {
        AttributeSource::Known(REPORTED_BINARY_VERSION)
    } else if attrib == CU_FUNC_ATTRIBUTE_CLUSTER_SIZE_MUST_BE_SET
        || attrib == CU_FUNC_ATTRIBUTE_REQUIRED_CLUSTER_WIDTH
        || attrib == CU_FUNC_ATTRIBUTE_REQUIRED_CLUSTER_HEIGHT
        || attrib == CU_FUNC_ATTRIBUTE_REQUIRED_CLUSTER_DEPTH
        || attrib == CU_FUNC_ATTRIBUTE_NON_PORTABLE_CLUSTER_SIZE_ALLOWED
        || attrib == CU_FUNC_ATTRIBUTE_CLUSTER_SCHEDULING_POLICY_PREFERENCE {
        AttributeSource::Known(0)
    } else {
        AttributeSource::Runtime
    }
}

/// `cuFuncGetAttribute`, second part: what HIP reported, with the register
/// count raised to at least 1.
pub fn finish_function_attribute(attrib: u32, reported: i32) -> (r: i32)
    ensures
        attrib == CU_FUNC_ATTRIBUTE_NUM_REGS ==> r == (if reported < 1 { 1 } else { reported }),
        attrib != CU_FUNC_ATTRIBUTE_NUM_REGS ==> r == reported,
{
    if attrib == CU_FUNC_ATTRIBUTE_NUM_REGS && reported < 1 {
        1
    } else {
        reported
    }
}

/// `cuFuncSetAttribute`: the PTX and binary versions cannot be set; other
/// attributes are handed to HIP.
pub fn set_attribute_allowed(attrib: u32) -> (r: Result<(), CuError>)
    ensures
        (attrib == CU_FUNC_ATTRIBUTE_PTX_VERSION || attrib == CU_FUNC_ATTRIBUTE_BINARY_VERSION)
            ==> r == Err::<(), CuError>(CuError { code: CUDA_ERROR_NOT_SUPPORTED }),
        !(attrib == CU_FUNC_ATTRIBUTE_PTX_VERSION || attrib == CU_FUNC_ATTRIBUTE_BINARY_VERSION) ==> r is Ok,
{
    if attrib == CU_FUNC_ATTRIBUTE_PTX_VERSION || attrib == CU_FUNC_ATTRIBUTE_BINARY_VERSION {
        Err(cu_error(CUDA_ERROR_NOT_SUPPORTED))
    } else {
        Ok(())
    }
}

/// `cuLaunchKernel`, before the launch: launches with `extra` arguments are not
/// supported; any other launch takes the next sequence number.
pub fn launch_kernel_begin(counter: &mut LaunchCounter, extra_is_null: bool) -> (r: Result<u64, CuError>)
    ensures
        !extra_is_null ==> r == Err::<u64, CuError>(CuError { code: CUDA_ERROR_NOT_SUPPORTED })
            && final(counter).next == old(counter).next,
        extra_is_null ==> r == Ok::<u64, CuError>(old(counter).next)
            && final(counter).next == wrapping_next(old(counter).next),
{
    if !extra_is_null {
        return Err(cu_error(CUDA_ERROR_NOT_SUPPORTED));
    }
    Ok(next_launch_sequence(counter))
}

/// What follows a launch: whether to synchronise its stream, and the
/// announcement line of the synchronise-after-launch mode if it is due.
pub struct LaunchFollowUp {
    pub synchronize: bool,
    pub announcement: Option<String>,
}

/// `cuLaunchKernel`, after the launch: a successful launch is followed by a
/// stream synchronisation when synchronise-after-launch is on (announced
/// once), and the launch then reports the synchronisation's result.
pub fn launch_kernel_follow_up(
    settings: &DebugSettings,
    latch: &mut AnnounceLatch,
    launch: Result<(), CuError>,
) -> (r: LaunchFollowUp)
    ensures
        r.synchronize == (launch is Ok && settings.sync_after_launch),
        r.synchronize ==> opt_view(r.announcement) == (if !old(latch).announced {
            Some("[ZLUDA_LAUNCH] mode=sync_after_launch enabled=1"@)
        } else {
            None::<Seq<char>>
        }) && final(latch).announced,
        !r.synchronize ==> r.announcement is None && final(latch).announced == old(latch).announced,
{
    if launch.is_ok() && settings.sync_after_launch {
        let announcement = announce_sync_after_launch(settings, latch);
        LaunchFollowUp { synchronize: true, announcement }
    } else {
        LaunchFollowUp { synchronize: false, announcement: None }
    }
}

/// A launch attribute is accepted only when it is programmatic stream
/// serialization, switched off.
pub open spec fn launch_attribute_supported(attr: (u32, u32)) -> bool {
    attr.0 == CU_LAUNCH_ATTRIBUTE_PROGRAMMATIC_STREAM_SERIALIZATION && attr.1 == 0
}

/// `cuLaunchKernelEx`: the launch goes ahead only when every attribute, given
/// as (id, value), is supported; otherwise it is not supported.
pub fn launch_attributes_check(attrs: &[(u32, u32)]) -> (r: Result<(), CuError>)
    ensures
        (forall|i: int| 0 <= i < attrs@.len() ==> launch_attribute_supported(#[trigger] attrs@[i])) ==> r is Ok,
        !(forall|i: int| 0 <= i < attrs@.len() ==> launch_attribute_supported(#[trigger] attrs@[i]))
            ==> r == Err::<(), CuError>(CuError { code: CUDA_ERROR_NOT_SUPPORTED }),
{
    let mut i: usize = 0;
    while i < attrs.len()
        invariant
            i <= attrs@.len(),
            forall|j: int| 0 <= j < i ==> launch_attribute_supported(#[trigger] attrs@[j]),
        decreases attrs.len() - i,
    {
        let (id, value) = attrs[i];
        if !(id == CU_LAUNCH_ATTRIBUTE_PROGRAMMATIC_STREAM_SERIALIZATION && value == 0) {
            assert(!launch_attribute_supported(attrs@[i as int]));
            return Err(cu_error(CUDA_ERROR_NOT_SUPPORTED));
        }
        i = i + 1;
    }
    Ok(())
}

/// The result of a symbol lookup in the driver's entry point table.
#[derive(Clone, Copy, PartialEq, Eq, Debug)]
pub struct ProcLookup {
    pub result: Result<(), CuError>,
    pub status: u32,
    pub pfn: usize,
}

/// `cuGetProcAddress_v2`: the table answers 0 for an unknown symbol and the
/// largest address for a symbol that needs a newer version; both are reported
/// as not found, with a null entry point.
pub fn classify_proc_address(found: usize) -> (r: ProcLookup)
    ensures
        found == 0 ==> r == (ProcLookup {
            result: Err(CuError { code: CUDA_ERROR_NOT_FOUND }),
            status: CU_GET_PROC_ADDRESS_SYMBOL_NOT_FOUND,
            pfn: 0,
        }),
        found == usize::MAX ==> r == (ProcLookup {
            result: Err(CuError { code: CUDA_ERROR_NOT_FOUND }),
            status: CU_GET_PROC_ADDRESS_VERSION_NOT_SUFFICIENT,
            pfn: 0,
        }),
        found != 0 && found != usize::MAX ==> r == (ProcLookup {
            result: Ok(()),
            status: CU_GET_PROC_ADDRESS_SUCCESS,
            pfn: found,
        }),
{
    if found == 0 {
        ProcLookup { result: Err(cu_error(CUDA_ERROR_NOT_FOUND)), status: CU_GET_PROC_ADDRESS_SYMBOL_NOT_FOUND, pfn: 0 }
    } else if found == usize::MAX {
        ProcLookup {
            result: Err(cu_error(CUDA_ERROR_NOT_FOUND)),
            status: CU_GET_PROC_ADDRESS_VERSION_NOT_SUFFICIENT,
            pfn: 0,
        }
    } else {
        ProcLookup { result: Ok(()), status: CU_GET_PROC_ADDRESS_SUCCESS, pfn: found }
    }
}

/// The launch-related symbols whose lookups are traced.
pub open spec fn is_launch_symbol(symbol: Seq<char>) -> bool {
    symbol == "cuLaunchKernel"@ || symbol == "cuLaunchKernelEx"@ || symbol == "cuGraphLaunch"@
        || symbol == "cudaLaunch"@ || symbol == "cudaLaunchKernel"@ || symbol == "cudaGraphLaunch"@
        || symbol == "cudaConfigureCall"@ || symbol == "cudaSetupArgument"@ || symbol == "cudaLaunchDevice"@
        || symbol == "__cudaPushCallConfiguration"@ || symbol == "__cudaPopCallConfiguration"@
}

fn str_eq(a: &str, b: &str) -> (r: bool)
    ensures
        r == (a@ == b@),
{
    let x = a.to_owned();
    let y = b.to_owned();
    x == y
}

/// Whether a symbol lookup is traced.
pub fn should_log_proc_request(symbol: &str) -> (r: bool)
    ensures
        r == is_launch_symbol(symbol@),
{
    str_eq(symbol, "cuLaunchKernel") || str_eq(symbol, "cuLaunchKernelEx") || str_eq(symbol, "cuGraphLaunch")
        || str_eq(symbol, "cudaLaunch") || str_eq(symbol, "cudaLaunchKernel") || str_eq(symbol, "cudaGraphLaunch")
        || str_eq(symbol, "cudaConfigureCall") || str_eq(symbol, "cudaSetupArgument")
        || str_eq(symbol, "cudaLaunchDevice") || str_eq(symbol, "__cudaPushCallConfiguration")
        || str_eq(symbol, "__cudaPopCallConfiguration")
}

/// The hybrid runtime libraries that may be loaded.
pub open spec fn is_hybrid_runtime_name(name: Seq<char>) -> bool {
    name == "nvcudart_hybrid64.dll"@ || name == "nvcudart_hybrid64a.dll"@
}

/// The hybrid runtime handshake, before loading: the name must be one of the
/// two hybrid runtime libraries.
pub fn hybrid_runtime_name_check(name: &str) -> (r: Result<(), CuError>)
    ensures
        is_hybrid_runtime_name(name@) ==> r is Ok,
        !is_hybrid_runtime_name(name@) ==> r == Err::<(), CuError>(CuError { code: CUDA_ERROR_INVALID_VALUE }),
{
    if str_eq(name, "nvcudart_hybrid64.dll") || str_eq(name, "nvcudart_hybrid64a.dll") {
        Ok(())
    } else {
        Err(cu_error(CUDA_ERROR_INVALID_VALUE))
    }
}

/// Releasing the hybrid runtime: only the token it was handed out with is
/// accepted.
pub fn hybrid_runtime_free(token: u64) -> (r: Result<(), CuError>)
    ensures
        token == HYBRID_RUNTIME_TOKEN ==> r is Ok,
        token != HYBRID_RUNTIME_TOKEN ==> r == Err::<(), CuError>(CuError { code: CUDA_ERROR_INVALID_HANDLE }),
{
    if token != HYBRID_RUNTIME_TOKEN {
        Err(cu_error(CUDA_ERROR_INVALID_HANDLE))
    } else {
        Ok(())
    }
}

/// `width` rounded up to the pitch alignment, where that fits in `usize`.
pub open spec fn padded_pitch(width: int) -> Option<int> {
    if width + 511 <= usize::MAX {
        Some(((width + 511) / 512) * 512)
    } else {
        None
    }
}

/// `cuMemAllocPitch_v2`: the pitch is the row width rounded up to 512 bytes,
/// the allocation is pitch times height; a zero element size, or a size that
/// does not fit, is an invalid value.
pub fn alloc_pitch_plan(width_in_bytes: usize, height: usize, element_size_bytes: u32) -> (r: Result<(usize, usize), CuError>)
    ensures
        element_size_bytes == 0 ==> r == Err::<(usize, usize), CuError>(CuError { code: CUDA_ERROR_INVALID_VALUE }),
        element_size_bytes != 0 ==> match padded_pitch(width_in_bytes as int) {
            None => r == Err::<(usize, usize), CuError>(CuError { code: CUDA_ERROR_INVALID_VALUE }),
            Some(p) => if p * height <= usize::MAX {
                r == Ok::<(usize, usize), CuError>((p as usize, (p * height) as usize))
            } else {
                r == Err::<(usize, usize), CuError>(CuError { code: CUDA_ERROR_INVALID_VALUE })
            },
        },
{
    if element_size_bytes == 0 {
        return Err(cu_error(CUDA_ERROR_INVALID_VALUE));
    }
    let padded = match width_in_bytes.checked_add(PITCH_ALIGNMENT - 1) {
        Some(v) => v,
        None => return Err(cu_error(CUDA_ERROR_INVALID_VALUE)),
    };
    let pitch = padded / PITCH_ALIGNMENT * PITCH_ALIGNMENT;
    assert(pitch <= padded) by (nonlinear_arith)
        requires pitch == padded / 512 * 512;
    match pitch.checked_mul(height) {
        Some(bytes) => Ok((pitch, bytes)),
        None => Err(cu_error(CUDA_ERROR_INVALID_VALUE)),
    }
}

/// `cuOccupancyMaxActiveBlocksPerMultiprocessorWithFlags`: HIP's answer,
/// raised to at least one block.
pub fn occupancy_blocks(reported: i32) -> (r: i32)
    ensures
        r == (if reported < 1 { 1 } else { reported }),
{
    if reported < 1 { 1 } else { reported }
}

/// The module-loading entry points with extra arguments accept them only
/// when all three are null or zero.
pub fn cubin_extra_arguments_check(arg3_is_null: bool, arg4_is_null: bool, arg5: u32) -> (r: Result<(), CuError>)
    ensures
        (arg3_is_null && arg4_is_null && arg5 == 0) ==> r is Ok,
        !(arg3_is_null && arg4_is_null && arg5 == 0) ==> r == Err::<(), CuError>(CuError { code: CUDA_ERROR_NOT_SUPPORTED }),
{
    if !arg3_is_null || !arg4_is_null || arg5 != 0 {
        Err(cu_error(CUDA_ERROR_NOT_SUPPORTED))
    } else {
        Ok(())
    }
}

/// `cuMemFree_v2` and `cuMemFreeHost`: HIP frees the memory, then the
/// allocation is forgotten; a failure to reach the allocation table is
/// reported first, then HIP's result.
pub fn free_result(hip: Result<(), CuError>, forget: Result<(), CuError>) -> (r: Result<(), CuError>)
    ensures
        r == (match forget {
            Err(e) => Err(e),
            Ok(_) => hip,
        }),
{
    match forget {
        Err(e) => Err(e),
        Ok(()) => hip,
    }
}

/// A freshly allocated block is zeroed on the allocation stream before it
/// is registered, unless the default stream is being captured.
pub fn zero_fill_before_register(capturing: bool) -> (r: bool)
    ensures
        r == !capturing,
{
    !capturing
}

/// The device a driver call names: an index into the runtime's devices; a
/// negative or too large index is an invalid device.
pub fn device_index(dev: i32, device_count: usize) -> (r: Result<usize, CuError>)
    ensures
        (0 <= dev && (dev as int) < device_count) ==> r == Ok::<usize, CuError>(dev as usize),
        !(0 <= dev && (dev as int) < device_count) ==> r == Err::<usize, CuError>(CuError { code: CUDA_ERROR_INVALID_DEVICE }),
{
    if dev >= 0 && (dev as usize) < device_count {
        Ok(dev as usize)
    } else {
        Err(cu_error(CUDA_ERROR_INVALID_DEVICE))
    }
}

/// `cuStreamGetCaptureInfo_v3`: edge data cannot be reported.
pub fn capture_info_v3_check(edge_data_out_is_null: bool) -> (r: Result<(), CuError>)
    ensures
        edge_data_out_is_null ==> r is Ok,
        !edge_data_out_is_null ==> r == Err::<(), CuError>(CuError { code: CUDA_ERROR_NOT_SUPPORTED }),
{
    if edge_data_out_is_null {
        Ok(())
    } else {
        Err(cu_error(CUDA_ERROR_NOT_SUPPORTED))
    }
}

/// Entry points that take a required pointer reject a null one as an
/// invalid value (`cuMemHostGetDevicePointer_v2`, `cuMemAllocPitch_v2`, the
/// module loaders).
pub fn require_pointer(is_null: bool) -> (r: Result<(), CuError>)
    ensures
        is_null ==> r == Err::<(), CuError>(CuError { code: CUDA_ERROR_INVALID_VALUE }),
        !is_null ==> r is Ok,
{
    if is_null {
        Err(cu_error(CUDA_ERROR_INVALID_VALUE))
    } else {
        Ok(())
    }
}

} // verus!

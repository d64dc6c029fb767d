//! The scan-service watchdog's dump of one thread, as a state machine: the
//! thread is opened and suspended, its context read, and its stack walked,
//! by unwinding up to twenty frames where the system's unwinder is found and
//! by scanning up to thirty-two stack words otherwise; a suspended thread is
//! always resumed, and an opened one always closed. The caller performs each
//! action and hands back what it gave.
use vstd::prelude::*;

verus! {

/// Most frames unwound.
pub const MAX_UNWOUND_FRAMES: u32 = 20;
/// Most stack words scanned when no unwinder is found.
pub const MAX_SCANNED_WORDS: u32 = 32;
/// The page protections under which a stack word is read
/// (`PAGE_READONLY | PAGE_READWRITE | PAGE_EXECUTE_READ | PAGE_EXECUTE_READWRITE`).
pub const READABLE_PROTECTIONS: u32 = 0x02 | 0x04 | 0x20 | 0x40;

/// Where the dump stands: what it waits to hear about.
#[derive(Clone, Copy, PartialEq, Eq, Structural, Debug)]
pub enum DumpPhase {
    /// The thread is being opened.
    Opening,
    /// The opened thread is being suspended.
    Suspending,
    /// The suspended thread's context is being read.
    ReadingContext,
    /// The unwinder's two functions are being looked up.
    FindingUnwinder,
    /// The program counter of frame `i` is being read.
    ReadingPc(u32),
    /// The function entry of frame `i` is being looked up.
    LookingUp(u32),
    /// Frame `i` is being unwound.
    Unwinding(u32),
    /// The memory region of stack word `i` is being queried.
    Querying(u32),
    /// Stack word `i` is being read and its module named.
    ReadingWord(u32),
    /// The suspended thread is being resumed.
    Resuming,
    /// The thread's handle is being closed.
    Closing,
    /// The dump is over.
    Done,
}

/// What the last action gave back: whether it worked, a value it read (a
/// program counter, a page protection, a stack word), and the system's last
/// error code where it failed.
#[derive(Clone, Copy, PartialEq, Eq, Structural, Debug)]
pub struct DumpReply {
    pub ok: bool,
    pub value: u64,
    pub last_error: u32,
}

/// What the caller does next.
#[derive(Clone, Copy, PartialEq, Eq, Structural, Debug)]
pub enum DumpAction {
    /// Open the thread.
    OpenThread,
    /// Suspend it; `ok` when the previous suspend count is not `u32::MAX`.
    SuspendThread,
    /// Read its full context.
    GetContext,
    /// Look up `RtlLookupFunctionEntry` and `RtlVirtualUnwind`; `ok` when
    /// both are found.
    FindUnwinder,
    /// Read the program counter of the unwound context into `value`.
    ReadPc,
    /// Look up the function entry of this program counter; `ok` when found.
    LookupEntry(u64),
    /// Unwind the context by one frame with the entry found.
    Unwind,
    /// Query the region of the stack word at this index from the stack
    /// pointer; `ok` when the query worked, `value` the region's protection.
    QueryStackWord(u32),
    /// Read the stack word at this index into `value`; `ok` when an address
    /// in it lies in a named module.
    ReadStackWord(u32),
    /// Resume the thread.
    ResumeThread,
    /// Close the thread's handle.
    CloseThread,
    /// Nothing more to do.
    Finish,
}

/// Why a thread could not be dumped.
#[derive(Clone, Copy, PartialEq, Eq, Structural, Debug)]
pub enum ThreadErrorReason {
    OpenThreadFailed,
    SuspendFailed,
    GetContextFailed,
}

/// A line of the dump.
#[derive(Clone, Copy, PartialEq, Eq, Structural, Debug)]
pub enum DumpRecord {
    /// The thread could not be dumped, with the system's error code.
    ThreadError(ThreadErrorReason, u32),
    /// The context was read: its registers and the module of its program
    /// counter are written.
    Context,
    /// Frame `idx` runs at `pc`.
    Frame(u32, u64),
    /// Unwinding stopped at frame `idx`: no function entry.
    UnwindEnd(u32),
    /// No unwinder: the stack is scanned instead.
    Fallback,
    /// Stack word `idx`, at `offset` bytes from the stack pointer, holds an
    /// address `addr` inside a named module.
    Stack(u32, u64, u64),
}

/// The step after the stack word `i` has been dealt with.
pub open spec fn next_word(i: u32) -> (DumpPhase, DumpAction) {
    if i + 1 < MAX_SCANNED_WORDS {
        (DumpPhase::Querying((i + 1) as u32), DumpAction::QueryStackWord((i + 1) as u32))
    } else {
        (DumpPhase::Resuming, DumpAction::ResumeThread)
    }
}

/// The dump's next phase, action and line, given what the last action gave.
pub open spec fn dump_next(phase: DumpPhase, reply: DumpReply) -> (DumpPhase, DumpAction, Option<DumpRecord>) {
    match phase {
        DumpPhase::Opening => if reply.ok {
            (DumpPhase::Suspending, DumpAction::SuspendThread, None)
        } else {
            (
                DumpPhase::Done,
                DumpAction::Finish,
                Some(DumpRecord::ThreadError(ThreadErrorReason::OpenThreadFailed, reply.last_error)),
            )
        },
        DumpPhase::Suspending => if reply.ok {
            (DumpPhase::ReadingContext, DumpAction::GetContext, None)
        } else {
            (
                DumpPhase::Closing,
                DumpAction::CloseThread,
                Some(DumpRecord::ThreadError(ThreadErrorReason::SuspendFailed, reply.last_error)),
            )
        },
        DumpPhase::ReadingContext => if reply.ok {
            (DumpPhase::FindingUnwinder, DumpAction::FindUnwinder, Some(DumpRecord::Context))
        } else {
            (
                DumpPhase::Resuming,
                DumpAction::ResumeThread,
                Some(DumpRecord::ThreadError(ThreadErrorReason::GetContextFailed, reply.last_error)),
            )
        },
        DumpPhase::FindingUnwinder => if reply.ok {
            (DumpPhase::ReadingPc(0), DumpAction::ReadPc, None)
        } else {
            (DumpPhase::Querying(0), DumpAction::QueryStackWord(0), Some(DumpRecord::Fallback))
        },
        DumpPhase::ReadingPc(i) => if reply.value == 0 {
            (DumpPhase::Resuming, DumpAction::ResumeThread, None)
        } else {
            (DumpPhase::LookingUp(i), DumpAction::LookupEntry(reply.value), Some(DumpRecord::Frame(i, reply.value)))
        },
        DumpPhase::LookingUp(i) => if reply.ok {
            (DumpPhase::Unwinding(i), DumpAction::Unwind, None)
        } else {
            (DumpPhase::Resuming, DumpAction::ResumeThread, Some(DumpRecord::UnwindEnd(i)))
        },
        DumpPhase::Unwinding(i) => if i + 1 < MAX_UNWOUND_FRAMES {
            (DumpPhase::ReadingPc((i + 1) as u32), DumpAction::ReadPc, None)
        } else {
            (DumpPhase::Resuming, DumpAction::ResumeThread, None)
        },
        DumpPhase::Querying(i) => if !reply.ok {
            (DumpPhase::Resuming, DumpAction::ResumeThread, None)
        } else if reply.value & (READABLE_PROTECTIONS as u64) == 0 {
            (next_word(i).0, next_word(i).1, None)
        } else {
            (DumpPhase::ReadingWord(i), DumpAction::ReadStackWord(i), None)
        },
        DumpPhase::ReadingWord(i) => (
            next_word(i).0,
            next_word(i).1,
            if reply.ok { Some(DumpRecord::Stack(i, (i * 8) as u64, reply.value)) } else { None },
        ),
        DumpPhase::Resuming => (DumpPhase::Closing, DumpAction::CloseThread, None),
        DumpPhase::Closing => (DumpPhase::Done, DumpAction::Finish, None),
        DumpPhase::Done => (DumpPhase::Done, DumpAction::Finish, None),
    }
}

fn next_word_of(i: u32) -> (r: (DumpPhase, DumpAction))
    ensures
        r == next_word(i),
{
    if i < MAX_SCANNED_WORDS - 1 {
        (DumpPhase::Querying(i + 1), DumpAction::QueryStackWord(i + 1))
    } else {
        (DumpPhase::Resuming, DumpAction::ResumeThread)
    }
}

/// Where a dump starts: the thread is opened.
pub fn watchdog_dump_start() -> (r: (DumpPhase, DumpAction))
    ensures
        r == (DumpPhase::Opening, DumpAction::OpenThread),
{
    (DumpPhase::Opening, DumpAction::OpenThread)
}

/// One step of a thread dump: the next phase, the next action, and the line
/// to write, given what the last action gave back.
pub fn watchdog_dump_step(phase: DumpPhase, reply: DumpReply) -> (r: (DumpPhase, DumpAction, Option<DumpRecord>))
    ensures
        r == dump_next(phase, reply),
{
    match phase {
        DumpPhase::Opening => if reply.ok {
            (DumpPhase::Suspending, DumpAction::SuspendThread, None)
        } else {
            (
                DumpPhase::Done,
                DumpAction::Finish,
                Some(DumpRecord::ThreadError(ThreadErrorReason::OpenThreadFailed, reply.last_error)),
            )
        },
        DumpPhase::Suspending => if reply.ok {
            (DumpPhase::ReadingContext, DumpAction::GetContext, None)
        } else {
            (
                DumpPhase::Closing,
                DumpAction::CloseThread,
                Some(DumpRecord::ThreadError(ThreadErrorReason::SuspendFailed, reply.last_error)),
            )
        },
        DumpPhase::ReadingContext => if reply.ok {
            (DumpPhase::FindingUnwinder, DumpAction::FindUnwinder, Some(DumpRecord::Context))
        } else {
            (
                DumpPhase::Resuming,
                DumpAction::ResumeThread,
                Some(DumpRecord::ThreadError(ThreadErrorReason::GetContextFailed, reply.last_error)),
            )
        },
        DumpPhase::FindingUnwinder => if reply.ok {
            (DumpPhase::ReadingPc(0), DumpAction::ReadPc, None)
        } else {
            (DumpPhase::Querying(0), DumpAction::QueryStackWord(0), Some(DumpRecord::Fallback))
        },
        DumpPhase::ReadingPc(i) => if reply.value == 0 {
            (DumpPhase::Resuming, DumpAction::ResumeThread, None)
        } else {
            (DumpPhase::LookingUp(i), DumpAction::LookupEntry(reply.value), Some(DumpRecord::Frame(i, reply.value)))
        },
        DumpPhase::LookingUp(i) => if reply.ok {
            (DumpPhase::Unwinding(i), DumpAction::Unwind, None)
        } else {
            (DumpPhase::Resuming, DumpAction::ResumeThread, Some(DumpRecord::UnwindEnd(i)))
        },
        DumpPhase::Unwinding(i) => if i < MAX_UNWOUND_FRAMES - 1 {
            (DumpPhase::ReadingPc(i + 1), DumpAction::ReadPc, None)
        } else {
            (DumpPhase::Resuming, DumpAction::ResumeThread, None)
        },
        DumpPhase::Querying(i) => if !reply.ok {
            (DumpPhase::Resuming, DumpAction::ResumeThread, None)
        } else if reply.value & (READABLE_PROTECTIONS as u64) == 0 {
            let (p, a) = next_word_of(i);
            (p, a, None)
        } else {
            (DumpPhase::ReadingWord(i), DumpAction::ReadStackWord(i), None)
        },
        DumpPhase::ReadingWord(i) => {
            let (p, a) = next_word_of(i);
            let record = if reply.ok {
                Some(DumpRecord::Stack(i, (i as u64) * 8, reply.value))
            } else {
                None
            };
            (p, a, record)
        },
        DumpPhase::Resuming => (DumpPhase::Closing, DumpAction::CloseThread, None),
        DumpPhase::Closing => (DumpPhase::Done, DumpAction::Finish, None),
        DumpPhase::Done => (DumpPhase::Done, DumpAction::Finish, None),
    }
}

/// The thread is suspended in this phase, and must be resumed before its
/// handle is closed.
pub open spec fn thread_suspended(phase: DumpPhase) -> bool {
    match phase {
        DumpPhase::ReadingContext | DumpPhase::FindingUnwinder | DumpPhase::ReadingPc(_)
        | DumpPhase::LookingUp(_) | DumpPhase::Unwinding(_) | DumpPhase::Querying(_)
        | DumpPhase::ReadingWord(_) => true,
        _ => false,
    }
}

/// The phase's frame or word index is within the walk's bounds.
pub open spec fn dump_phase_in_bounds(phase: DumpPhase) -> bool {
    match phase {
        DumpPhase::ReadingPc(i) | DumpPhase::LookingUp(i) | DumpPhase::Unwinding(i) => i < MAX_UNWOUND_FRAMES,
        DumpPhase::Querying(i) | DumpPhase::ReadingWord(i) => i < MAX_SCANNED_WORDS,
        _ => true,
    }
}

/// A suspended thread stays suspended until the dump resumes it: no step
/// from a suspended phase closes the handle or ends the dump, whatever the
/// last action gave back; and only a successful suspend leads into the
/// suspended phases.
pub proof fn law_suspended_thread_is_resumed(phase: DumpPhase, reply: DumpReply)
    ensures
        thread_suspended(phase) ==> thread_suspended(dump_next(phase, reply).0) || (dump_next(phase, reply).0
            == DumpPhase::Resuming && dump_next(phase, reply).1 == DumpAction::ResumeThread),
        !thread_suspended(phase) && thread_suspended(dump_next(phase, reply).0) ==> phase
            == DumpPhase::Suspending && reply.ok,
        dump_next(phase, reply).1 == DumpAction::ResumeThread ==> thread_suspended(phase),
{
}

/// The walk stays within its bounds: from a phase within bounds, the next
/// phase is within bounds, and no line names a frame past the twentieth or
/// a stack word past the thirty-second.
pub proof fn law_dump_walk_is_bounded(phase: DumpPhase, reply: DumpReply)
    requires
        dump_phase_in_bounds(phase),
    ensures
        dump_phase_in_bounds(dump_next(phase, reply).0),
        dump_next(phase, reply).2 matches Some(DumpRecord::Frame(i, _)) ==> i < MAX_UNWOUND_FRAMES,
        dump_next(phase, reply).2 matches Some(DumpRecord::Stack(i, off, _)) ==> i < MAX_SCANNED_WORDS && off
            == i * 8,
{
}

/// How many steps at most remain before the dump is over.
pub open spec fn dump_steps_left(phase: DumpPhase) -> int {
    match phase {
        DumpPhase::Opening => 70,
        DumpPhase::Suspending => 69,
        DumpPhase::ReadingContext => 68,
        DumpPhase::FindingUnwinder => 67,
        DumpPhase::ReadingPc(i) => 2 + 3 * (MAX_UNWOUND_FRAMES - i),
        DumpPhase::LookingUp(i) => 1 + 3 * (MAX_UNWOUND_FRAMES - i),
        DumpPhase::Unwinding(i) => 3 * (MAX_UNWOUND_FRAMES - i),
        DumpPhase::Querying(i) => 2 + 2 * (MAX_SCANNED_WORDS - i),
        DumpPhase::ReadingWord(i) => 1 + 2 * (MAX_SCANNED_WORDS - i),
        DumpPhase::Resuming => 2,
        DumpPhase::Closing => 1,
        DumpPhase::Done => 0,
    }
}

/// Every dump ends, in at most seventy steps: from a phase within bounds
/// that is not the end, each step brings the end closer, whatever the last
/// action gave back.
pub proof fn law_dump_ends(phase: DumpPhase, reply: DumpReply)
    requires
        dump_phase_in_bounds(phase),
    ensures
        0 <= dump_steps_left(phase) <= 70,
        phase != DumpPhase::Done ==> dump_steps_left(dump_next(phase, reply).0) < dump_steps_left(phase),
        dump_steps_left(phase) == 0 <==> phase == DumpPhase::Done,
{
}

/// The lines a record takes in the dump: the context takes three (the
/// registers, the other registers, and the program counter's module), every
/// other record one.
pub open spec fn record_lines(record: Option<DumpRecord>) -> int {
    match record {
        None => 0,
        Some(DumpRecord::Context) => 3,
        Some(_) => 1,
    }
}

/// The most lines the rest of the dump can still write.
pub open spec fn dump_lines_left(phase: DumpPhase) -> int {
    match phase {
        DumpPhase::Opening | DumpPhase::Suspending | DumpPhase::ReadingContext => 36,
        DumpPhase::FindingUnwinder => 33,
        DumpPhase::ReadingPc(i) => 1 + MAX_UNWOUND_FRAMES - i,
        DumpPhase::LookingUp(i) | DumpPhase::Unwinding(i) => MAX_UNWOUND_FRAMES - i,
        DumpPhase::Querying(i) | DumpPhase::ReadingWord(i) => MAX_SCANNED_WORDS - i,
        DumpPhase::Resuming | DumpPhase::Closing | DumpPhase::Done => 0,
    }
}

/// A thread's dump writes at most thirty-six lines: the budget starts at
/// thirty-six, and each step's line is paid out of it, whatever the last
/// action gave back.
pub proof fn law_dump_lines_bounded(phase: DumpPhase, reply: DumpReply)
    requires
        dump_phase_in_bounds(phase),
    ensures
        dump_lines_left(DumpPhase::Opening) == 36,
        0 <= dump_lines_left(phase) <= 36,
        dump_lines_left(dump_next(phase, reply).0) + record_lines(dump_next(phase, reply).2) <= dump_lines_left(phase),
{
}

/// The thread's handle is open from a successful open until it is closed.
pub open spec fn handle_open(phase: DumpPhase) -> bool {
    !(phase is Opening) && !(phase is Done)
}

/// An opened thread's handle is always closed: the dump ends only right
/// after the close, or right after an open that failed; and the close is the
/// only step out of the phases where the handle is open.
pub proof fn law_opened_thread_is_closed(phase: DumpPhase, reply: DumpReply)
    ensures
        dump_next(phase, reply).0 is Done && !(phase is Done) ==> phase is Closing || (phase is Opening && !reply.ok),
        handle_open(phase) && !handle_open(dump_next(phase, reply).0) ==> phase is Closing && dump_next(
            phase,
            reply,
        ).1 == DumpAction::Finish,
        phase is Closing ==> dump_next(phase, reply).0 is Done,
{
}

} // verus!

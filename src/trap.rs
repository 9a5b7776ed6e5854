//! The trap dispatcher's decisions: what a user-mode or kernel-mode trap
//! does, from its cause and the saved context.
use riscv::register::scause::Exception as E;
use riscv::register::scause::Interrupt as I;
use vstd::prelude::*;

verus! {

/// Exit code of a task killed by a memory fault.
pub const EXIT_MEMORY_FAULT: i32 = -2;

/// Exit code of a task killed by an illegal instruction.
pub const EXIT_ILLEGAL_INSTRUCTION: i32 = -3;

/// Synchronous trap causes, by `scause` exception code.
#[derive(Clone, Copy, Debug, PartialEq, Eq, Structural)]
pub enum ExceptionCause {
    InstructionMisaligned,
    InstructionFault,
    IllegalInstruction,
    Breakpoint,
    LoadFault,
    StoreMisaligned,
    StoreFault,
    UserEnvCall,
    InstructionPageFault,
    LoadPageFault,
    StorePageFault,
    Unknown,
}

/// Interrupt causes, by `scause` interrupt code.
#[derive(Clone, Copy, Debug, PartialEq, Eq, Structural)]
pub enum InterruptCause {
    UserSoft,
    SupervisorSoft,
    UserTimer,
    SupervisorTimer,
    UserExternal,
    SupervisorExternal,
    Unknown,
}

/// A decoded `scause`.
#[derive(Clone, Copy, Debug, PartialEq, Eq, Structural)]
pub enum TrapCause {
    Interrupt(InterruptCause),
    Exception(ExceptionCause),
}

/// The exception that an `scause` exception code names.
pub open spec fn exception_of(code: usize) -> ExceptionCause {
    if code == 0 {
        ExceptionCause::InstructionMisaligned
    } else if code == 1 {
        ExceptionCause::InstructionFault
    } else if code == 2 {
        ExceptionCause::IllegalInstruction
    } else if code == 3 {
        ExceptionCause::Breakpoint
    } else if code == 5 {
        ExceptionCause::LoadFault
    } else if code == 6 {
        ExceptionCause::StoreMisaligned
    } else if code == 7 {
        ExceptionCause::StoreFault
    } else if code == 8 {
        ExceptionCause::UserEnvCall
    } else if code == 12 {
        ExceptionCause::InstructionPageFault
    } else if code == 13 {
        ExceptionCause::LoadPageFault
    } else if code == 15 {
        ExceptionCause::StorePageFault
    } else {
        ExceptionCause::Unknown
    }
}

/// The interrupt that an `scause` interrupt code names.
pub open spec fn interrupt_of(code: usize) -> InterruptCause {
    if code == 0 {
        InterruptCause::UserSoft
    } else if code == 1 {
        InterruptCause::SupervisorSoft
    } else if code == 4 {
        InterruptCause::UserTimer
    } else if code == 5 {
        InterruptCause::SupervisorTimer
    } else if code == 8 {
        InterruptCause::UserExternal
    } else if code == 9 {
        InterruptCause::SupervisorExternal
    } else {
        InterruptCause::Unknown
    }
}

/// Relies on riscv's `scause::Exception::from`, which maps an exception code
/// to its variant by the RISC-V privileged architecture's cause table.
#[verifier::external_body]
fn exception_from_code(code: usize) -> (r: ExceptionCause)
    ensures
        r == exception_of(code),
{
    match E::from(code) {
        E::InstructionMisaligned => ExceptionCause::InstructionMisaligned,
        E::InstructionFault => ExceptionCause::InstructionFault,
        E::IllegalInstruction => ExceptionCause::IllegalInstruction,
        E::Breakpoint => ExceptionCause::Breakpoint,
        E::LoadFault => ExceptionCause::LoadFault,
        E::StoreMisaligned => ExceptionCause::StoreMisaligned,
        E::StoreFault => ExceptionCause::StoreFault,
        E::UserEnvCall => ExceptionCause::UserEnvCall,
        E::InstructionPageFault => ExceptionCause::InstructionPageFault,
        E::LoadPageFault => ExceptionCause::LoadPageFault,
        E::StorePageFault => ExceptionCause::StorePageFault,
        E::Unknown => ExceptionCause::Unknown,
    }
}

/// Relies on riscv's `scause::Interrupt::from`, which maps an interrupt code
/// to its variant by the RISC-V privileged architecture's cause table.
#[verifier::external_body]
fn interrupt_from_code(code: usize) -> (r: InterruptCause)
    ensures
        r == interrupt_of(code),
{
    match I::from(code) {
        I::UserSoft => InterruptCause::UserSoft,
        I::SupervisorSoft => InterruptCause::SupervisorSoft,
        I::UserTimer => InterruptCause::UserTimer,
        I::SupervisorTimer => InterruptCause::SupervisorTimer,
        I::UserExternal => InterruptCause::UserExternal,
        I::SupervisorExternal => InterruptCause::SupervisorExternal,
        I::Unknown => InterruptCause::Unknown,
    }
}

/// Decodes `scause` from its interrupt flag and its code.
pub fn decode_cause(is_interrupt: bool, code: usize) -> (r: TrapCause)
    ensures
        r == (if is_interrupt {
            TrapCause::Interrupt(interrupt_of(code))
        } else {
            TrapCause::Exception(exception_of(code))
        }),
{
    if is_interrupt {
        TrapCause::Interrupt(interrupt_from_code(code))
    } else {
        TrapCause::Exception(exception_from_code(code))
    }
}

/// The causes that count as memory faults of a user task.
pub open spec fn memory_fault(c: TrapCause) -> bool {
    c == TrapCause::Exception(ExceptionCause::StoreFault) || c == TrapCause::Exception(
        ExceptionCause::StorePageFault,
    ) || c == TrapCause::Exception(ExceptionCause::InstructionFault) || c == TrapCause::Exception(
        ExceptionCause::InstructionPageFault,
    ) || c == TrapCause::Exception(ExceptionCause::LoadFault) || c == TrapCause::Exception(
        ExceptionCause::LoadPageFault,
    )
}

/// Whether `c` is a memory fault: a load, store or instruction access fault
/// or page fault.
pub fn is_memory_fault(c: TrapCause) -> (r: bool)
    ensures
        r == memory_fault(c),
{
    match c {
        TrapCause::Exception(ExceptionCause::StoreFault)
        | TrapCause::Exception(ExceptionCause::StorePageFault)
        | TrapCause::Exception(ExceptionCause::InstructionFault)
        | TrapCause::Exception(ExceptionCause::InstructionPageFault)
        | TrapCause::Exception(ExceptionCause::LoadFault)
        | TrapCause::Exception(ExceptionCause::LoadPageFault) => true,
        _ => false,
    }
}

/// The register file and CSR snapshot saved on a trap from user mode.
#[derive(Clone, Copy, Debug)]
pub struct TrapContext {
    pub x: [usize; 32],
    pub sstatus: usize,
    pub sepc: usize,
    pub kernel_satp: usize,
    pub kernel_sp: usize,
    pub trap_handler: usize,
}

/// What the dispatcher does about a trap from user mode.
#[derive(Clone, Copy, Debug, PartialEq, Eq, Structural)]
pub enum UserTrapAction {
    /// Run system call `id` on the arguments from a0, a1, a2, then hand the result to
    /// `finish_syscall` on the current task's context, fetched anew.
    Syscall { id: usize, a0: usize, a1: usize, a2: usize },
    /// Log the fault and end the current task with this code.
    Exit(i32),
    /// Arm the next timer, run due timer callbacks, then move the current
    /// task to the back of the ready queue and run the next one.
    Preempt,
    /// Claim the pending external interrupt and hand it to its device.
    External,
    /// An unexpected cause: halt the kernel.
    Fatal,
}

/// What the dispatcher does about a trap taken in kernel mode.
#[derive(Clone, Copy, Debug, PartialEq, Eq, Structural)]
pub enum KernelTrapAction {
    /// Arm the next timer and return; no task switch.
    Timer,
    /// Claim the pending external interrupt and hand it to its device.
    External,
    /// An unexpected cause: halt the kernel.
    Fatal,
}

/// The action for a user-mode trap of cause `c`. An environment call moves
/// `sepc` past the `ecall` and reads the call from a7 and a0..a2; no other
/// cause touches the context.
pub fn user_trap_action(c: TrapCause, cx: &mut TrapContext) -> (a: UserTrapAction)
    ensures
        c == TrapCause::Exception(ExceptionCause::UserEnvCall) ==> a == (UserTrapAction::Syscall {
            id: old(cx).x[17],
            a0: old(cx).x[10],
            a1: old(cx).x[11],
            a2: old(cx).x[12],
        }) && final(cx).sepc == old(cx).sepc.wrapping_add(4) && final(cx).x == old(cx).x
            && final(cx).sstatus == old(cx).sstatus
            && final(cx).kernel_satp == old(cx).kernel_satp
            && final(cx).kernel_sp == old(cx).kernel_sp
            && final(cx).trap_handler == old(cx).trap_handler,
        c != TrapCause::Exception(ExceptionCause::UserEnvCall) ==> *final(cx) == *old(cx),
        memory_fault(c) ==> a == UserTrapAction::Exit(EXIT_MEMORY_FAULT),
        c == TrapCause::Exception(ExceptionCause::IllegalInstruction) ==> a
            == UserTrapAction::Exit(EXIT_ILLEGAL_INSTRUCTION),
        c == TrapCause::Interrupt(InterruptCause::SupervisorTimer) ==> a == UserTrapAction::Preempt,
        c == TrapCause::Interrupt(InterruptCause::SupervisorExternal) ==> a
            == UserTrapAction::External,
        !memory_fault(c) && c != TrapCause::Exception(ExceptionCause::UserEnvCall) && c
            != TrapCause::Exception(ExceptionCause::IllegalInstruction) && c
            != TrapCause::Interrupt(InterruptCause::SupervisorTimer) && c != TrapCause::Interrupt(
            InterruptCause::SupervisorExternal,
        ) ==> a == UserTrapAction::Fatal,
{
    if is_memory_fault(c) {
        return UserTrapAction::Exit(EXIT_MEMORY_FAULT);
    }
    match c {
        TrapCause::Exception(ExceptionCause::UserEnvCall) => {
            cx.sepc = cx.sepc.wrapping_add(4);
            UserTrapAction::Syscall { id: cx.x[17], a0: cx.x[10], a1: cx.x[11], a2: cx.x[12] }
        },
        TrapCause::Exception(ExceptionCause::IllegalInstruction) => UserTrapAction::Exit(
            EXIT_ILLEGAL_INSTRUCTION,
        ),
        TrapCause::Interrupt(InterruptCause::SupervisorTimer) => UserTrapAction::Preempt,
        TrapCause::Interrupt(InterruptCause::SupervisorExternal) => UserTrapAction::External,
        _ => UserTrapAction::Fatal,
    }
}

/// Writes a system call's result to a0 of `cx`, the context of the current
/// task as it stands after the call (an exec may have replaced it).
pub fn finish_syscall(cx: &mut TrapContext, result: isize)
    ensures
        final(cx).x@ == old(cx).x@.update(10, result as usize),
        final(cx).sepc == old(cx).sepc,
        final(cx).sstatus == old(cx).sstatus,
        final(cx).kernel_satp == old(cx).kernel_satp,
        final(cx).kernel_sp == old(cx).kernel_sp,
        final(cx).trap_handler == old(cx).trap_handler,
{
    cx.x[10] = result as usize;
}

/// The action for a trap of cause `c` taken in kernel mode.
pub fn kernel_trap_action(c: TrapCause) -> (a: KernelTrapAction)
    ensures
        a == (if c == TrapCause::Interrupt(InterruptCause::SupervisorTimer) {
            KernelTrapAction::Timer
        } else if c == TrapCause::Interrupt(InterruptCause::SupervisorExternal) {
            KernelTrapAction::External
        } else {
            KernelTrapAction::Fatal
        }),
{
    match c {
        TrapCause::Interrupt(InterruptCause::SupervisorTimer) => KernelTrapAction::Timer,
        TrapCause::Interrupt(InterruptCause::SupervisorExternal) => KernelTrapAction::External,
        _ => KernelTrapAction::Fatal,
    }
}

/// Virtual address of the restore routine in the trampoline page: its offset
/// from the trap entry `alltraps`, taken from the page's base `trampoline`.
pub fn restore_entry_va(alltraps: usize, restore: usize, trampoline: usize) -> (r: usize)
    requires
        alltraps <= restore,
        restore - alltraps + trampoline <= usize::MAX,
    ensures
        r == restore - alltraps + trampoline,
{
    restore - alltraps + trampoline
}


} // verus!

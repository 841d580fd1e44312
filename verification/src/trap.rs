//! Trap contexts and the decisions of trap handling.
use vstd::prelude::*;
use riscv::interrupt::supervisor::{Exception, Interrupt};
use riscv::interrupt::Trap;
use riscv::register::scause::Scause;

pub mod regs_index;

verus! {

use crate::config::TRAMPOLINE;
use crate::trap::regs_index::{A0, A1, A2, A7, SP};

/// The virtual address, in the trampoline page, of the trap code at
/// `symbol`: the trampoline page maps the code that starts at `alltraps`.
pub fn trampoline_va(alltraps: usize, symbol: usize) -> (r: usize)
    requires
        alltraps <= symbol,
        TRAMPOLINE + (symbol - alltraps) <= usize::MAX,
    ensures
        r == TRAMPOLINE + (symbol - alltraps),
{
    TRAMPOLINE + (symbol - alltraps)
}

/// The `SPP` field of `sstatus`: the privilege mode that `sret` returns to.
pub const SSTATUS_SPP: usize = 0x100;

/// `sstatus` with its previous privilege set to user mode: what
/// `Sstatus::set_spp(SPP::User)` of the `riscv` crate does to the bits of
/// the value, which is to write 0 into bit 8.
fn sstatus_with_user_spp(sstatus: usize) -> (r: usize)
    ensures
        r == sstatus & !SSTATUS_SPP,
{
    sstatus & !SSTATUS_SPP
}

/// Trap context. Used in `__alltraps` and `__restore`.
pub struct TrapContext {
    pub gpr: [usize; 32],
    /// The raw bits of the saved `sstatus`.
    pub sstatus: usize,
    pub sepc: usize,
    // Read only fields follow
    pub kernel_satp: usize,
    pub kernel_sp: usize,
    pub trap_handler: usize,
}

/// Thirty-two zero registers.
pub open spec fn zero_gprs() -> Seq<usize> {
    Seq::new(32, |i: int| 0usize)
}

/// What the trap hardware reports as the cause of a trap.
#[derive(Clone, Copy, PartialEq, Eq, Structural)]
pub enum TrapCause {
    UserEnvCall,
    StoreFault,
    StorePageFault,
    IllegalInstruction,
    SupervisorTimer,
    /// Any other exception or interrupt.
    Other,
}

/// The cause that the `scause` value `bits` reports: the top bit tells an
/// interrupt from an exception, the other bits give the code.
pub open spec fn cause_of_scause(bits: usize) -> TrapCause {
    let top: int = if usize::BITS == 64 { 0x8000_0000_0000_0000int } else { 0x8000_0000int };
    let code = (bits as int) % top;
    if bits >= top {
        if code == 5 { TrapCause::SupervisorTimer } else { TrapCause::Other }
    } else if code == 8 {
        TrapCause::UserEnvCall
    } else if code == 7 {
        TrapCause::StoreFault
    } else if code == 15 {
        TrapCause::StorePageFault
    } else if code == 2 {
        TrapCause::IllegalInstruction
    } else {
        TrapCause::Other
    }
}

/// The cause of a trap, from the bits of `scause`.
///
/// Calls `Scause::cause` of the `riscv` crate and converts the result with
/// `Trap::try_into` to the supervisor-mode `Interrupt` and `Exception`
/// enums, then names the variant. As the crate's source shows, `cause`
/// splits off the top bit (63 on 64-bit targets, 31 on riscv32) as the
/// interrupt flag and keeps the rest as the code, and the conversion maps
/// interrupt code 5 to `SupervisorTimer` and exception codes 2, 7, 8 and 15
/// to `IllegalInstruction`, `StoreFault`, `UserEnvCall` and
/// `StorePageFault`; the contract claims this.
#[verifier::external_body]
fn scause_trap_cause(bits: usize) -> (r: TrapCause)
    ensures
        r == cause_of_scause(bits),
{
    match Scause::from_bits(bits).cause().try_into::<Interrupt, Exception>() {
        Ok(Trap::Exception(Exception::UserEnvCall)) => TrapCause::UserEnvCall,
        Ok(Trap::Exception(Exception::StoreFault)) => TrapCause::StoreFault,
        Ok(Trap::Exception(Exception::StorePageFault)) => TrapCause::StorePageFault,
        Ok(Trap::Exception(Exception::IllegalInstruction)) => TrapCause::IllegalInstruction,
        Ok(Trap::Interrupt(Interrupt::SupervisorTimer)) => TrapCause::SupervisorTimer,
        _ => TrapCause::Other,
    }
}

/// The cause of the trap whose `scause` is `scause`.
pub fn trap_cause(scause: usize) -> (r: TrapCause)
    ensures
        r == cause_of_scause(scause),
{
    scause_trap_cause(scause)
}

/// What the trap handler does next.
#[derive(Clone, Copy)]
pub enum TrapEvent {
    /// Serve system call `id` with arguments `args`.
    Syscall { id: usize, args: [usize; 3] },
    /// A trap that the kernel is meant to handle but does not yet.
    Unimplemented,
    /// A trap that the kernel does not handle.
    Unsupported,
}

impl TrapContext {
    /// Create the initial trap context for a user program.
    /// Control flow enters user program via `__restore`.
    ///
    /// * `sstatus`: the current bits of `sstatus`, all of them.
    /// * `entry`: entry address.
    /// * `sp`: points to the end of user stack.
    /// * `kernel_satp` .. `trap_handler`: read-only fields.
    pub fn create_user(
        sstatus: usize,
        entry: usize,
        stack_top: usize,
        kernel_satp: usize,
        kernel_sp: usize,
        trap_handler: usize,
    ) -> (r: Self)
        ensures
            r.gpr@ == zero_gprs().update(SP as int, stack_top),
            r.sstatus == sstatus & !SSTATUS_SPP,
            r.sepc == entry,
            r.kernel_satp == kernel_satp,
            r.kernel_sp == kernel_sp,
            r.trap_handler == trap_handler,
    {
        let sstatus = sstatus_with_user_spp(sstatus);
        let mut cx = Self {
            gpr: [0; 32],
            sstatus,
            sepc: entry,
            kernel_satp,
            kernel_sp,
            trap_handler,
        };
        cx.gpr[SP] = stack_top;
        assert(cx.gpr@ =~= zero_gprs().update(SP as int, stack_top));
        cx
    }

    /// The first half of trap handling, for a trap whose `scause` is
    /// `scause`. On a system call from user mode, moves `sepc` past the
    /// `ecall` instruction and gives the call's number (`a7`) and arguments
    /// (`a0`..`a2`); any other cause changes nothing.
    pub fn begin_trap(&mut self, scause: usize) -> (r: TrapEvent)
        requires
            cause_of_scause(scause) == TrapCause::UserEnvCall ==> old(self).sepc + 4 <= usize::MAX,
        ensures
            r == (match cause_of_scause(scause) {
                TrapCause::UserEnvCall => TrapEvent::Syscall {
                    id: old(self).gpr@[A7 as int],
                    args: [old(self).gpr@[A0 as int], old(self).gpr@[A1 as int], old(self).gpr@[A2 as int]],
                },
                TrapCause::StoreFault | TrapCause::StorePageFault
                | TrapCause::IllegalInstruction | TrapCause::SupervisorTimer => TrapEvent::Unimplemented,
                TrapCause::Other => TrapEvent::Unsupported,
            }),
            cause_of_scause(scause) == TrapCause::UserEnvCall ==> final(self).sepc == old(self).sepc + 4,
            cause_of_scause(scause) != TrapCause::UserEnvCall ==> final(self).sepc == old(self).sepc,
            final(self).gpr == old(self).gpr,
            final(self).sstatus == old(self).sstatus,
            final(self).kernel_satp == old(self).kernel_satp,
            final(self).kernel_sp == old(self).kernel_sp,
            final(self).trap_handler == old(self).trap_handler,
    {
        match scause_trap_cause(scause) {
            TrapCause::UserEnvCall => {
                self.sepc += 4;
                TrapEvent::Syscall {
                    id: self.gpr[A7],
                    args: [self.gpr[A0], self.gpr[A1], self.gpr[A2]],
                }
            },
            TrapCause::StoreFault | TrapCause::StorePageFault
            | TrapCause::IllegalInstruction | TrapCause::SupervisorTimer => TrapEvent::Unimplemented,
            TrapCause::Other => TrapEvent::Unsupported,
        }
    }

    /// The second half of a system call: its result goes to `a0`.
    pub fn finish_syscall(&mut self, ret: isize)
        ensures
            final(self).gpr@ == old(self).gpr@.update(A0 as int, ret as usize),
            final(self).sstatus == old(self).sstatus,
            final(self).sepc == old(self).sepc,
            final(self).kernel_satp == old(self).kernel_satp,
            final(self).kernel_sp == old(self).kernel_sp,
            final(self).trap_handler == old(self).trap_handler,
    {
        self.gpr[A0] = ret as usize;
    }
}

} // verus!

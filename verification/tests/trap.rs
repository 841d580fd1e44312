use dcore::syscall::{decode_syscall, prepare_write, Syscall, WriteError, FD_STDOUT};
use dcore::trap::regs_index::{A0, A1, A2, A7, SP};
use dcore::config::TRAMPOLINE;
use dcore::trap::{trampoline_va, trap_cause, TrapCause, TrapContext, TrapEvent};

#[test]
fn user_context_starts_in_user_mode() {
    let c = TrapContext::create_user(0x122, 0x1_0000, 0x2_0000, 0x8000_0000_0008_0001, 0xffff_f000, 0x8020_0abc);
    assert_eq!(c.sstatus, 0x22);
    assert_eq!(c.sepc, 0x1_0000);
    assert_eq!(c.kernel_satp, 0x8000_0000_0008_0001);
    assert_eq!(c.kernel_sp, 0xffff_f000);
    assert_eq!(c.trap_handler, 0x8020_0abc);
    for i in 0..32 {
        assert_eq!(c.gpr[i], if i == SP { 0x2_0000 } else { 0 });
    }
}

#[test]
fn user_context_keeps_every_other_sstatus_bit() {
    let c = TrapContext::create_user(0x127, 0, 0, 0, 0, 0);
    assert_eq!(c.sstatus, 0x27);
    let c = TrapContext::create_user(usize::MAX, 0, 0, 0, 0, 0);
    assert_eq!(c.sstatus, !0x100);
    let c = TrapContext::create_user(0x20, 0, 0, 0, 0, 0);
    assert_eq!(c.sstatus, 0x20);
}

fn user_context() -> TrapContext {
    let mut c = TrapContext::create_user(0, 0x1000, 0x2000, 0, 0, 0);
    c.gpr[A7] = 64;
    c.gpr[A0] = 1;
    c.gpr[A1] = 0x3000;
    c.gpr[A2] = 12;
    c
}

#[test]
fn ecall_steps_past_the_instruction() {
    let mut c = user_context();
    match c.begin_trap(8) {
        TrapEvent::Syscall { id, args } => {
            assert_eq!(id, 64);
            assert_eq!(args, [1, 0x3000, 12]);
        }
        _ => panic!("expected a system call"),
    }
    assert_eq!(c.sepc, 0x1004);
    c.finish_syscall(12);
    assert_eq!(c.gpr[A0], 12);
    assert_eq!(c.gpr[A1], 0x3000);
    assert_eq!(c.sepc, 0x1004);
}

#[test]
fn negative_result_goes_to_a0_as_bits() {
    let mut c = user_context();
    c.finish_syscall(-1);
    assert_eq!(c.gpr[A0], usize::MAX);
}

const INTERRUPT: usize = 1 << (usize::BITS - 1);

#[test]
fn other_traps_change_nothing() {
    // store fault, store page fault, illegal instruction, supervisor timer
    for scause in [7, 15, 2, INTERRUPT | 5] {
        let mut c = user_context();
        assert!(matches!(c.begin_trap(scause), TrapEvent::Unimplemented));
        assert_eq!(c.sepc, 0x1000);
        assert_eq!(c.gpr[A0], 1);
    }
    // load fault, supervisor ecall, an unknown code, software and external interrupts,
    // and an interrupt whose code is that of an ecall
    for scause in [5, 9, 10, 0x3f, INTERRUPT | 1, INTERRUPT | 9, INTERRUPT | 8, INTERRUPT | 7] {
        let mut c = user_context();
        assert!(matches!(c.begin_trap(scause), TrapEvent::Unsupported));
        assert_eq!(c.sepc, 0x1000);
    }
}

#[test]
fn syscalls_are_decoded_by_number() {
    assert!(decode_syscall(64, [1, 0x3000, 12]) == Syscall::Write { fd: 1, buf: 0x3000, len: 12 });
    assert!(decode_syscall(93, [3, 9, 9]) == Syscall::Exit { exit_code: 3 });
    assert!(decode_syscall(93, [usize::MAX, 0, 0]) == Syscall::Exit { exit_code: -1 });
    assert!(decode_syscall(93, [0x1_0000_0005, 0, 0]) == Syscall::Exit { exit_code: 5 });
    assert!(decode_syscall(124, [0, 0, 0]) == Syscall::Yield);
    assert!(decode_syscall(169, [0, 0, 0]) == Syscall::GetTime);
    assert!(decode_syscall(65, [0, 0, 0]) == Syscall::Unsupported { id: 65 });
}

#[test]
fn write_prints_utf8_text_on_stdout_only() {
    let hello = "Hello world from user main.\n".as_bytes();
    match prepare_write(FD_STDOUT, hello) {
        Ok((text, n)) => {
            assert_eq!(text, "Hello world from user main.\n");
            assert_eq!(n, 28);
        }
        Err(_) => panic!("stdout write refused"),
    }
    assert!(prepare_write(2, hello) == Err(WriteError::UnsupportedFd(2)));
    assert!(prepare_write(0, b"") == Err(WriteError::UnsupportedFd(0)));
    assert!(prepare_write(FD_STDOUT, &[0xff, 0x41]) == Err(WriteError::InvalidUtf8));
    assert!(prepare_write(FD_STDOUT, &[0xed, 0xa0, 0x80]) == Err(WriteError::InvalidUtf8));
    assert!(prepare_write(FD_STDOUT, "é€".as_bytes()) == Ok(("é€", 5)));
    assert!(prepare_write(FD_STDOUT, b"") == Ok(("", 0)));
}

#[test]
fn restore_is_found_in_the_trampoline_page() {
    assert_eq!(trampoline_va(0x8020_1000, 0x8020_1000), TRAMPOLINE);
    assert_eq!(trampoline_va(0x8020_1000, 0x8020_1090), TRAMPOLINE + 0x90);
}

#[test]
fn scause_values_name_their_causes() {
    assert!(trap_cause(8) == TrapCause::UserEnvCall);
    assert!(trap_cause(7) == TrapCause::StoreFault);
    assert!(trap_cause(15) == TrapCause::StorePageFault);
    assert!(trap_cause(2) == TrapCause::IllegalInstruction);
    assert!(trap_cause(INTERRUPT | 5) == TrapCause::SupervisorTimer);
    assert!(trap_cause(5) == TrapCause::Other);
    assert!(trap_cause(INTERRUPT | 8) == TrapCause::Other);
    assert!(trap_cause(9) == TrapCause::Other);
}

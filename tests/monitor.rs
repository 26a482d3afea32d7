use nezha_sbi::context::SupervisorContext;
use nezha_sbi::csr::{mpp, set_mpp, HartState, MIE_MEIE, MIE_MSIE, MIE_MTIE, MIP_MTIP, MIP_SSIP, MIP_STIP, MSTATUS_MPRV, MSTATUS_SIE, MSTATUS_SPIE, MSTATUS_SPP};
use nezha_sbi::emulate::{emulate_float, emulate_rdtime, emulate_sfence_vma, emulate_wfi, float_instruction_len};
use nezha_sbi::execute::{
    emulate_illegal_instruction, emulate_sbi_call, fail_illegal_instruction, fault_redirect,
    finish_sbi_call, handle_illegal_instruction, handle_sbi_call, handle_trap,
    instruction_from_halves, Emulation, IllegalOutcome, TrapAction,
};
use nezha_sbi::feature::{
    call_supervisor_interrupt, emulate_sbi_rustsbi_nezha_sext, finish_supervisor_interrupt,
    forward_supervisor_soft, forward_supervisor_timer, preprocess_supervisor_external,
    supervisor_fetch_status,
};
use nezha_sbi::transfer::{do_transfer_trap, scause_of, should_transfer_trap, SupervisorException};
use nezha_sbi::trap::{classify_trap, MachineTrap};

const MPP_S: usize = 1 << 11;
const MPP_M: usize = 3 << 11;

fn ctx_at(mepc: usize) -> SupervisorContext {
    SupervisorContext::new(mepc, MPP_S)
}

fn hart() -> HartState {
    HartState::new(MPP_S, 0, 0, 0x8020_0000)
}

#[test]
fn base_extension_call_is_dispatched_and_answered() {
    let mut ctx = ctx_at(0x8020_0100);
    ctx.a7 = 0x10;
    ctx.a6 = 0;
    ctx.a0 = 7;
    ctx.a5 = 9;
    ctx.s1 = 33;
    let mut h = hart();
    let action = handle_trap(&mut ctx, &mut h, MachineTrap::SbiCall, false);
    let req = match action {
        TrapAction::StandardCall(req) => req,
        other => panic!("unexpected action {:?}", other),
    };
    assert_eq!(req.extension, 0x10);
    assert_eq!(req.function, 0);
    assert_eq!(req.params, [7, 0, 0, 0, 0, 9]);
    assert_eq!(ctx.mepc, 0x8020_0100);
    finish_sbi_call(&mut ctx, 0, 2);
    assert_eq!(ctx.a0, 0);
    assert_eq!(ctx.a1, 2);
    assert_eq!(ctx.mepc, 0x8020_0104);
    assert_eq!(ctx.s1, 33);
    assert_eq!(ctx.a5, 9);
    assert_eq!(ctx.a7, 0x10);
}

#[test]
fn sbi_call_pc_wraps() {
    let mut ctx = ctx_at(usize::MAX - 1);
    finish_sbi_call(&mut ctx, 1, 1);
    assert_eq!(ctx.mepc, 2);
}

#[test]
fn rdtime_writes_destination_register() {
    // rdtime x5
    let ins = 0xC0102073usize | (5 << 7);
    let mut ctx = ctx_at(0x8020_0000);
    let mut h = hart();
    let before = h;
    let action = handle_trap(&mut ctx, &mut h, MachineTrap::IllegalInstruction, false);
    assert!(matches!(action, TrapAction::FetchInstruction));
    let out = handle_illegal_instruction(&mut ctx, &mut h, ins, 123_456_789);
    assert_eq!(out, IllegalOutcome::Emulated(Emulation::Rdtime));
    assert_eq!(ctx.t0, 123_456_789);
    assert_eq!(ctx.mepc, 0x8020_0004);
    assert_eq!(h, before);
}

#[test]
fn rdtimeh_writes_upper_half() {
    let ins = 0xC8102073usize | (10 << 7);
    let mut ctx = ctx_at(0x100);
    assert!(emulate_rdtime(&mut ctx, ins, 0x0000_0005_0000_0001));
    assert_eq!(ctx.a0, 5);
    assert_eq!(ctx.mepc, 0x104);
}

#[test]
fn rdtime_to_x0_is_discarded() {
    let ins = 0xC0102073usize;
    let mut ctx = ctx_at(0x100);
    let before = ctx;
    assert!(emulate_rdtime(&mut ctx, ins, 77));
    assert_eq!(ctx.get_reg(0), 0);
    assert_eq!(SupervisorContext { mepc: 0x100, ..ctx }, before);
}

#[test]
fn wfi_is_a_no_op() {
    let mut ctx = ctx_at(0x8020_1000);
    let mut h = hart();
    let before = h;
    let out = handle_illegal_instruction(&mut ctx, &mut h, 0x10500073, 0);
    assert_eq!(out, IllegalOutcome::Emulated(Emulation::Wfi));
    assert_eq!(ctx.mepc, 0x8020_1004);
    assert_eq!(h, before);
    let mut other = ctx_at(4);
    assert!(!emulate_wfi(&mut other, 0x10500074));
    assert_eq!(other.mepc, 4);
}

#[test]
fn sfence_vma_is_emulated() {
    let mut ctx = ctx_at(0x40);
    // sfence.vma a0, a1
    assert!(emulate_sfence_vma(&mut ctx, 0x12b50073));
    assert_eq!(ctx.mepc, 0x44);
    let mut h = hart();
    let mut ctx2 = ctx_at(0x40);
    assert_eq!(emulate_illegal_instruction(&mut ctx2, &mut h, 0x12000073, 0), Some(Emulation::SfenceVma));
}

#[test]
fn compressed_float_store_advances_two() {
    let mut ctx = ctx_at(0x1000);
    let mut h = hart();
    assert_eq!(float_instruction_len(0xb920), 2);
    assert_eq!(float_instruction_len(0x1234_bd24), 2);
    assert!(emulate_float(&mut ctx, 0xb920, &mut h));
    assert_eq!(ctx.mepc, 0x1002);
    assert_eq!(h.mstatus & (3 << 13), 3 << 13);
}

#[test]
fn float_table_words_advance_four() {
    for ins in [0x09253027usize, 0x04113027, 0x0003b027, 0xf0018053, 0xa2002353] {
        let mut ctx = ctx_at(0x2000);
        let mut h = hart();
        let out = handle_illegal_instruction(&mut ctx, &mut h, ins, 0);
        assert_eq!(out, IllegalOutcome::Emulated(Emulation::Float));
        assert_eq!(ctx.mepc, 0x2004);
        assert_eq!(h.sepc, 0);
        assert_eq!(h.scause, 0);
    }
    assert_eq!(float_instruction_len(0x0003b017), 0);
    assert_eq!(float_instruction_len(0xf0018153), 0);
    assert_eq!(float_instruction_len(0x00000013), 0);
}

#[test]
fn unknown_instruction_from_supervisor_is_transferred() {
    let mut ctx = ctx_at(0x8020_2000);
    ctx.mstatus = MPP_S | MSTATUS_SIE;
    let mut h = hart();
    let out = handle_illegal_instruction(&mut ctx, &mut h, 0xffff_ffff, 0);
    assert_eq!(out, IllegalOutcome::Transferred);
    assert_eq!(h.scause, 2);
    assert_eq!(h.stval, 0xffff_ffff);
    assert_eq!(h.sepc, 0x8020_2000);
    assert_eq!(ctx.mepc, 0x8020_0000);
    assert_eq!(ctx.mstatus & MSTATUS_SIE, 0);
    assert_eq!(ctx.mstatus & MSTATUS_SPIE, MSTATUS_SPIE);
    assert_eq!(ctx.mstatus & MSTATUS_SPP, MSTATUS_SPP);
}

#[test]
fn unknown_instruction_from_machine_is_fatal() {
    let mut ctx = ctx_at(0x4000_0100);
    ctx.mstatus = MPP_M;
    let mut h = hart();
    let before_ctx = ctx;
    let before_h = h;
    let out = handle_illegal_instruction(&mut ctx, &mut h, 0x0000_0000, 0);
    let expected = fail_illegal_instruction(&before_ctx, 0);
    assert_eq!(out, IllegalOutcome::Fatal(expected));
    assert_eq!(expected.mepc, 0x4000_0100);
    assert_eq!(expected.instruction, 0);
    assert_eq!(ctx, before_ctx);
    assert_eq!(h, before_h);
    assert!(!should_transfer_trap(&ctx));
}

#[test]
fn load_page_fault_is_injected() {
    let mut ctx = ctx_at(0x8020_3000);
    let mut h = HartState::new(MPP_S, 0, 0, 0x8020_0000);
    let action = handle_trap(&mut ctx, &mut h, MachineTrap::LoadPageFault(0xDEAD_0000), true);
    assert!(matches!(action, TrapAction::Resume));
    assert_eq!(h.scause, 0xd);
    assert_eq!(h.stval, 0xDEAD_0000);
    assert_eq!(h.sepc, 0x8020_3000);
    assert_eq!(mpp(ctx.mstatus), 1);
    assert_eq!(ctx.mepc, 0x8020_0000);
}

#[test]
fn transfer_uses_vector_base_and_clears_sie() {
    let mut ctx = ctx_at(0x10);
    ctx.mstatus = 0; // MPP = U, SIE clear
    let mut h = HartState::new(0, 0, 0, 0x8020_0001);
    do_transfer_trap(&mut ctx, &mut h, SupervisorException::StoreFault, 0x99);
    assert_eq!(ctx.mepc, 0x8020_0000);
    assert_eq!(ctx.mstatus & MSTATUS_SPP, 0);
    assert_eq!(ctx.mstatus & MSTATUS_SPIE, 0);
    assert_eq!(mpp(ctx.mstatus), 1);
    assert_eq!(h.scause, 7);
    assert_eq!(h.stval, 0x99);
    assert_eq!(h.sepc, 0x10);
}

#[test]
fn fault_redirection_table() {
    assert_eq!(fault_redirect(MachineTrap::InstructionFault(1), true), Some((SupervisorException::InstructionPageFault, 1)));
    assert_eq!(fault_redirect(MachineTrap::InstructionFault(1), false), Some((SupervisorException::InstructionFault, 1)));
    assert_eq!(fault_redirect(MachineTrap::LoadFault(2), true), Some((SupervisorException::LoadFault, 2)));
    assert_eq!(fault_redirect(MachineTrap::LoadPageFault(3), false), Some((SupervisorException::LoadPageFault, 3)));
    assert_eq!(fault_redirect(MachineTrap::StorePageFault(4), true), Some((SupervisorException::LoadPageFault, 4)));
    assert_eq!(fault_redirect(MachineTrap::StorePageFault(4), false), Some((SupervisorException::LoadFault, 4)));
    assert_eq!(fault_redirect(MachineTrap::StoreFault(5), true), Some((SupervisorException::StorePageFault, 5)));
    assert_eq!(fault_redirect(MachineTrap::StoreFault(5), false), Some((SupervisorException::StoreFault, 5)));
    assert_eq!(fault_redirect(MachineTrap::MachineTimer, true), None);
    assert_eq!(scause_of(SupervisorException::InstructionPageFault), 12);
    assert_eq!(scause_of(SupervisorException::StorePageFault), 15);
}

#[test]
fn instruction_page_fault_halts() {
    let mut ctx = ctx_at(0x10);
    let mut h = hart();
    let action = handle_trap(&mut ctx, &mut h, MachineTrap::InstructionPageFault(0x1234), false);
    assert!(matches!(action, TrapAction::Halt(0x1234)));
}

#[test]
fn external_interrupt_gating_sequence() {
    let mut ctx = ctx_at(0x8020_0000);
    let mut h = hart();
    assert_eq!(h.mie & MIE_MEIE, 0);
    // a timer interrupt before registration leaves MEIE clear
    handle_trap(&mut ctx, &mut h, MachineTrap::MachineTimer, false);
    assert_eq!(h.mie & MIE_MEIE, 0);
    // registration
    ctx.a7 = 0x0A000004;
    ctx.a6 = 0x210;
    ctx.a0 = 0x8020_1234;
    ctx.a1 = 55;
    let action = handle_trap(&mut ctx, &mut h, MachineTrap::SbiCall, false);
    assert!(matches!(action, TrapAction::Resume));
    assert_eq!(h.devintr_entry, 0x8020_1234);
    assert_eq!(h.mie & MIE_MEIE, MIE_MEIE);
    assert_eq!((ctx.a0, ctx.a1), (0, 0));
    assert_eq!(ctx.mepc, 0x8020_0004);
    // M-timer interrupt forwarded
    h.mie |= MIE_MTIE;
    handle_trap(&mut ctx, &mut h, MachineTrap::MachineTimer, false);
    assert_eq!(h.mip & MIP_STIP, MIP_STIP);
    assert_eq!(h.mie & MIE_MEIE, 0);
    assert_eq!(h.mie & MIE_MTIE, 0);
    // set_timer (extension 0) while the M-timer is pending
    h.mip |= MIP_MTIP;
    ctx.a7 = 0;
    ctx.a6 = 0;
    let action = handle_trap(&mut ctx, &mut h, MachineTrap::SbiCall, false);
    assert!(matches!(action, TrapAction::StandardCall(_)));
    assert_eq!(h.mie & MIE_MEIE, MIE_MEIE);
}

#[test]
fn set_timer_without_pending_timer_keeps_meie_clear() {
    let mut ctx = ctx_at(0);
    let mut h = hart();
    h.devintr_entry = 0x100;
    preprocess_supervisor_external(&mut ctx, &mut h);
    assert_eq!(h.mie & MIE_MEIE, 0);
    h.mip = MIP_MTIP;
    h.devintr_entry = 0;
    preprocess_supervisor_external(&mut ctx, &mut h);
    assert_eq!(h.mie & MIE_MEIE, 0);
}

#[test]
fn sext_call_is_recognised_only_with_its_ids() {
    let mut ctx = ctx_at(0);
    let mut h = hart();
    ctx.a7 = 0x0A000004;
    ctx.a6 = 0x211;
    assert!(!emulate_sbi_call(&mut ctx, &mut h));
    assert_eq!(h.devintr_entry, 0);
    ctx.a6 = 0x210;
    ctx.a0 = 0x42;
    assert!(emulate_sbi_rustsbi_nezha_sext(&mut ctx, &mut h));
    assert_eq!(h.devintr_entry, 0x42);
}

#[test]
fn software_interrupt_is_forwarded() {
    let mut h = HartState::new(0, MIE_MSIE | MIE_MEIE, 0, 0);
    forward_supervisor_soft(&mut h);
    assert_eq!(h.mip & MIP_SSIP, MIP_SSIP);
    assert_eq!(h.mie, MIE_MEIE);
    let mut t = HartState::new(0, MIE_MTIE | MIE_MEIE | MIE_MSIE, 0, 0);
    forward_supervisor_timer(&mut t);
    assert_eq!(t.mie, MIE_MSIE);
    assert_eq!(t.mip, MIP_STIP);
}

#[test]
fn external_interrupt_upcall_brackets_mprv() {
    let mut ctx = ctx_at(0);
    let mut h = HartState::new(MPP_M | 0x80, 0, 0, 0);
    // no handler: nothing to call
    let action = handle_trap(&mut ctx, &mut h, MachineTrap::ExternalInterrupt, false);
    assert!(matches!(action, TrapAction::Resume));
    assert_eq!(call_supervisor_interrupt(&mut h), None);
    h.devintr_entry = 0x8020_1234;
    let call = match handle_trap(&mut ctx, &mut h, MachineTrap::ExternalInterrupt, false) {
        TrapAction::UpCall(call) => call,
        other => panic!("unexpected action {:?}", other),
    };
    assert_eq!(call.entry, 0x8020_1234);
    assert_eq!(call.saved_mpp, 3);
    assert_eq!(h.mstatus & MSTATUS_MPRV, MSTATUS_MPRV);
    assert_eq!(mpp(h.mstatus), 1);
    finish_supervisor_interrupt(&mut ctx, &mut h, call);
    assert_eq!(h.mstatus, MPP_M | 0x80);
    assert_eq!(ctx.mstatus, MPP_M | 0x80);
}

#[test]
fn fetch_status_sets_mprv_only() {
    assert_eq!(supervisor_fetch_status(MPP_S), MPP_S | MSTATUS_MPRV);
    assert_eq!(set_mpp(0xffff_ffff, 1), (0xffff_ffff & !(3 << 11)) | (1 << 11));
}

#[test]
fn halves_join_little_endian() {
    assert_eq!(instruction_from_halves(0x0073, 0x1050), 0x10500073);
    assert_eq!(instruction_from_halves(0xb920, 0), 0xb920);
    assert_eq!(instruction_from_halves(0xffff, 0xffff), 0xffff_ffff);
}

#[test]
fn trap_causes_are_classified() {
    let irq = 1usize << (usize::BITS - 1);
    assert_eq!(classify_trap(9, 0), Some(MachineTrap::SbiCall));
    assert_eq!(classify_trap(2, 0x13), Some(MachineTrap::IllegalInstruction));
    assert_eq!(classify_trap(13, 0xDEAD_0000), Some(MachineTrap::LoadPageFault(0xDEAD_0000)));
    assert_eq!(classify_trap(15, 8), Some(MachineTrap::StorePageFault(8)));
    assert_eq!(classify_trap(12, 4), Some(MachineTrap::InstructionPageFault(4)));
    assert_eq!(classify_trap(1, 4), Some(MachineTrap::InstructionFault(4)));
    assert_eq!(classify_trap(5, 4), Some(MachineTrap::LoadFault(4)));
    assert_eq!(classify_trap(7, 4), Some(MachineTrap::StoreFault(4)));
    assert_eq!(classify_trap(8, 0), None);
    assert_eq!(classify_trap(irq | 11, 0), Some(MachineTrap::ExternalInterrupt));
    assert_eq!(classify_trap(irq | 7, 0), Some(MachineTrap::MachineTimer));
    assert_eq!(classify_trap(irq | 3, 0), Some(MachineTrap::MachineSoft));
    assert_eq!(classify_trap(irq | 5, 0), None);
}

#[test]
fn registers_round_trip() {
    let mut ctx = ctx_at(0);
    for i in 1..32usize {
        ctx.set_reg(i, i * 10);
    }
    for i in 1..32usize {
        assert_eq!(ctx.get_reg(i), i * 10);
    }
    assert_eq!(ctx.a7, 170);
    assert_eq!(ctx.t6, 310);
    ctx.set_reg(0, 5);
    assert_eq!(ctx.get_reg(0), 0);
}

#[test]
fn zero_handler_registration_keeps_meie_clear() {
    let mut ctx = ctx_at(0x100);
    ctx.a7 = 0x0A000004;
    ctx.a6 = 0x210;
    ctx.a0 = 0;
    let mut h = hart();
    assert!(handle_sbi_call(&mut ctx, &mut h).is_none());
    assert_eq!(h.devintr_entry, 0);
    assert_eq!(h.mie & MIE_MEIE, 0);
    assert_eq!((ctx.a0, ctx.a1), (0, 0));
    assert_eq!(ctx.mepc, 0x104);
    // a zero registration after a real one withdraws the handler
    ctx.a0 = 0x8020_0000;
    handle_sbi_call(&mut ctx, &mut h);
    assert_eq!(h.mie & MIE_MEIE, MIE_MEIE);
    ctx.a0 = 0;
    handle_sbi_call(&mut ctx, &mut h);
    assert_eq!(h.devintr_entry, 0);
    assert_eq!(h.mie & MIE_MEIE, 0);
}

#[test]
fn stray_external_interrupt_before_registration_is_ignored() {
    let mut ctx = ctx_at(0x100);
    let mut h = hart();
    let before_ctx = ctx;
    let before_h = h;
    let action = handle_trap(&mut ctx, &mut h, MachineTrap::ExternalInterrupt, false);
    assert!(matches!(action, TrapAction::Resume));
    assert_eq!(ctx, before_ctx);
    assert_eq!(h, before_h);
}

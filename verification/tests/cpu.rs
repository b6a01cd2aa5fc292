use dust_core::cpu::arm9::bus::fallback::{read_32, write_16, write_32};
use dust_core::cpu::interpreter::alu_utils::bit_ops::{and_s, bic_s, eor_s, orr_s, set_nz, set_nz_64, teq, tst};
use dust_core::cpu::interpreter::arm9::alu::{adc, check_condition, pack_nzcv, rotate_right, run_alu, shift};
use dust_core::cpu::interpreter::arm9::run::{execute_instruction, Stop};
use dust_core::cpu::interpreter::arm9::{
    cpsr, reg, set_cpsr_update_control, set_reg, EngineData, HleRequest,
};
use dust_core::cpu::interpreter::regs::Regs;
use dust_core::cpu::irqs::IrqFlags;
use dust_core::cpu::psr::{Mode, Psr, RegBank};
use dust_core::cpu::schedule::Schedule;
use dust_core::cpu::timers::Timestamp;
use dust_core::ds_slot::spi::empty::Empty;
use dust_core::ds_slot::{Rom, Spi};
use dust_core::emu::Emu;

const MOV_R0_1: u32 = 0xE3A0_0001;
const SWI_0: u32 = 0xEF00_0000;
const LDR_R0_R1: u32 = 0xE591_0000;
const STR_R0_R1: u32 = 0xE581_0000;
const MOV_R1_R0: u32 = 0xE1A0_1000;
const MOV_R1_R2: u32 = 0xE1A0_1002;
const MOV_R3_R2: u32 = 0xE1A0_3002;
const SUBS_PC_LR_4: u32 = 0xE25E_F004;

fn machine() -> Emu {
    let mut bios9 = vec![0u8; 0x1000];
    bios9[0x18..0x1C].copy_from_slice(&SUBS_PC_LR_4.to_le_bytes());
    Emu::new(vec![0u8; 0x4000], bios9, Rom::Empty, Spi::Empty(Empty::new()))
}

fn load(emu: &mut Emu, at: u32, program: &[u32]) {
    for (i, word) in program.iter().enumerate() {
        write_32(emu, at + 4 * i as u32, *word);
    }
    EngineData::jump(emu, at);
}

fn now(emu: &Emu) -> u64 {
    emu.arm9.schedule.cur_time().0
}

#[test]
fn software_interrupt_enters_supervisor_mode_at_the_high_vector() {
    let mut emu = machine();
    load(&mut emu, 0x0200_0000, &[MOV_R0_1, SWI_0]);
    assert_eq!(reg(&emu, 15), 0x0200_0008);
    set_cpsr_update_control(&mut emu, Psr::from_raw(0x1F));
    assert_eq!(execute_instruction(&mut emu), HleRequest::Nothing);
    assert_eq!(reg(&emu, 0), 1);
    assert_eq!(execute_instruction(&mut emu), HleRequest::Nothing);
    assert_eq!(cpsr(&emu).mode().raw(), 0x13);
    assert!(cpsr(&emu).irqs_disabled());
    assert!(!cpsr(&emu).thumb_state());
    assert_eq!(reg(&emu, 14), 0x0200_0008);
    // The program counter is two instructions ahead of the vector at 0xFFFF0008.
    assert_eq!(reg(&emu, 15), 0xFFFF_0008 + 8);
    assert_eq!(emu.arm9.engine_data.regs.spsr().raw(), 0x1F);
    assert!(!emu.arm9.irqs.enabled_in_cpsr());
}

#[test]
fn interrupt_in_thumb_state_returns_to_where_it_struck() {
    let mut emu = machine();
    set_cpsr_update_control(&mut emu, Psr::from_raw(0x1F));
    write_16(&mut emu, 0x0200_0100, 0x2005);
    write_16(&mut emu, 0x0200_0102, 0x3003);
    write_16(&mut emu, 0x0200_0104, 0x3003);
    EngineData::jump(&mut emu, 0x0200_0101);
    assert!(cpsr(&emu).thumb_state());
    assert_eq!(execute_instruction(&mut emu), HleRequest::Nothing);
    assert_eq!(reg(&emu, 0), 5);
    let next: u32 = 0x0200_0102;
    assert_eq!(reg(&emu, 15), next + 4);
    emu.arm9.irqs.write_master_enable(true, &mut emu.arm9.schedule);
    emu.arm9.irqs.write_enabled(IrqFlags(1), &mut emu.arm9.schedule);
    emu.arm9.irqs.request(IrqFlags(1), &mut emu.arm9.schedule);
    assert!(emu.arm9.irqs.triggered());
    assert_eq!(EngineData::run_until(&mut emu, Timestamp(1_000_000), 1), Stop::OutOfSteps);
    assert_eq!(cpsr(&emu).mode().raw(), 0x12);
    assert!(!cpsr(&emu).thumb_state());
    assert!(cpsr(&emu).irqs_disabled());
    assert_eq!(reg(&emu, 14), next + 4);
    assert_eq!(reg(&emu, 15), 0xFFFF_0018 + 8);
    assert_eq!(reg(&emu, 0), 5);
    // The handler returns with `SUBS pc, lr, #4`.
    assert_eq!(execute_instruction(&mut emu), HleRequest::Nothing);
    assert_eq!(cpsr(&emu).raw(), 0x3F);
    assert!(cpsr(&emu).thumb_state());
    assert_eq!(reg(&emu, 15), next + 4);
    assert!(emu.arm9.irqs.enabled_in_cpsr());
    emu.arm9.irqs.acknowledge(IrqFlags(1), false, &mut emu.arm9.schedule);
    assert_eq!(execute_instruction(&mut emu), HleRequest::Nothing);
    assert_eq!(reg(&emu, 0), 8);
}

fn clock_after_load_and(second: u32, third: Option<u32>) -> u64 {
    let mut emu = machine();
    write_32(&mut emu, 0x0200_0100, 0x1234_5678);
    set_reg(&mut emu, 1, 0x0200_0100);
    set_reg(&mut emu, 2, 7);
    match third {
        Some(third) => load(&mut emu, 0x0200_0000, &[LDR_R0_R1, second, third]),
        None => load(&mut emu, 0x0200_0000, &[LDR_R0_R1, second]),
    }
    execute_instruction(&mut emu);
    assert_eq!(reg(&emu, 0), 0x1234_5678);
    execute_instruction(&mut emu);
    if third.is_some() {
        execute_instruction(&mut emu);
    }
    now(&emu)
}

#[test]
fn move_right_behind_a_load_waits_one_cycle_for_the_loaded_register() {
    assert_eq!(clock_after_load_and(MOV_R1_R0, None), clock_after_load_and(MOV_R1_R2, None) + 1);
    // One instruction later the register is at hand.
    assert_eq!(
        clock_after_load_and(MOV_R3_R2, Some(MOV_R1_R0)),
        clock_after_load_and(MOV_R3_R2, Some(MOV_R1_R2))
    );
}

#[test]
fn instructions_take_one_cycle_where_memory_has_no_wait_states() {
    let mut emu = machine();
    load(&mut emu, 0x0200_0000, &[MOV_R0_1, MOV_R1_R0, STR_R0_R1]);
    let start = now(&emu);
    execute_instruction(&mut emu);
    assert_eq!(now(&emu), start + 1);
    execute_instruction(&mut emu);
    assert_eq!(now(&emu), start + 2);
    assert_eq!(reg(&emu, 1), 1);
}

#[test]
fn loads_and_stores_reach_memory() {
    let mut emu = machine();
    // STR r0, [r1, #4]! ; LDRB r2, [r1, #1] ; LDR r3, [r1], #-4 ; LDR r4, [r1, #1]
    load(&mut emu, 0x0200_0000, &[0xE5A1_0004, 0xE5D1_2001, 0xE411_3004, 0xE591_4001]);
    set_reg(&mut emu, 0, 0xAABB_CCDD);
    set_reg(&mut emu, 1, 0x0200_0200);
    execute_instruction(&mut emu);
    assert_eq!(reg(&emu, 1), 0x0200_0204);
    assert_eq!(read_32(&mut emu, 0x0200_0204, true), 0xAABB_CCDD);
    execute_instruction(&mut emu);
    assert_eq!(reg(&emu, 2), 0xCC);
    execute_instruction(&mut emu);
    assert_eq!(reg(&emu, 3), 0xAABB_CCDD);
    assert_eq!(reg(&emu, 1), 0x0200_0200);
    write_32(&mut emu, 0x0200_0200, 0x1122_3344);
    execute_instruction(&mut emu);
    // A word that is not aligned is rotated so that the addressed byte comes first.
    assert_eq!(reg(&emu, 4), 0x4411_2233);
}

#[test]
fn data_processing_sets_flags_and_conditions_read_them() {
    let mut emu = machine();
    // MOVS r0, #0 ; MOVEQ r1, #5 ; MOVNE r2, #6 ; ADDS r3, r4, r4 ; MOVVS r5, #1 ;
    // CMP r1, #5 ; SUBCS r6, r1, #2 ; MOV r7, r4, LSR #31 ; MVN r8, #0 ; RSB r9, r1, #7
    load(
        &mut emu,
        0x0200_0000,
        &[
            0xE3B0_0000, 0x03A0_1005, 0x13A0_2006, 0xE094_3004, 0x63A0_5001, 0xE351_0005,
            0x2241_6002, 0xE1A0_7FA4, 0xE3E0_8000, 0xE261_9007,
        ],
    );
    set_reg(&mut emu, 4, 0x4000_0000);
    set_reg(&mut emu, 2, 9);
    execute_instruction(&mut emu);
    assert_eq!(cpsr(&emu).raw() & 0xF000_0000, 0x4000_0000);
    execute_instruction(&mut emu);
    execute_instruction(&mut emu);
    assert_eq!(reg(&emu, 1), 5);
    assert_eq!(reg(&emu, 2), 9);
    execute_instruction(&mut emu);
    assert_eq!(reg(&emu, 3), 0x8000_0000);
    assert_eq!(cpsr(&emu).raw() & 0xF000_0000, 0x9000_0000);
    execute_instruction(&mut emu);
    assert_eq!(reg(&emu, 5), 1);
    execute_instruction(&mut emu);
    assert_eq!(cpsr(&emu).raw() & 0xF000_0000, 0x6000_0000);
    execute_instruction(&mut emu);
    assert_eq!(reg(&emu, 6), 3);
    execute_instruction(&mut emu);
    assert_eq!(reg(&emu, 7), 0);
    execute_instruction(&mut emu);
    assert_eq!(reg(&emu, 8), 0xFFFF_FFFF);
    execute_instruction(&mut emu);
    assert_eq!(reg(&emu, 9), 2);
}

#[test]
fn branches_move_the_program_counter() {
    let mut emu = machine();
    // B +8 (skips two instructions) ... BL -16 ; BX r0
    load(&mut emu, 0x0200_0000, &[0xEA00_0001, 0, 0, 0xEBFF_FFFC, 0, 0]);
    execute_instruction(&mut emu);
    assert_eq!(reg(&emu, 15), 0x0200_000C + 8);
    execute_instruction(&mut emu);
    assert_eq!(reg(&emu, 14), 0x0200_0010);
    assert_eq!(reg(&emu, 15), 0x0200_0004 + 8);
    load(&mut emu, 0x0200_0040, &[0xE12F_FF10]);
    set_reg(&mut emu, 0, 0x0200_0081);
    execute_instruction(&mut emu);
    assert!(cpsr(&emu).thumb_state());
    assert_eq!(reg(&emu, 15), 0x0200_0080 + 4);
}

#[test]
fn thumb_instructions_run() {
    let mut emu = machine();
    // MOV r0, #5 ; CMP r0, #5 ; SUB r0, #6 ; B +4 ; (skipped) ; (skipped) ; BX r1
    let program: [u16; 7] = [0x2005, 0x2805, 0x3806, 0xE001, 0, 0, 0x4708];
    for (i, halfword) in program.iter().enumerate() {
        write_16(&mut emu, 0x0200_0000 + 2 * i as u32, *halfword);
    }
    EngineData::jump(&mut emu, 0x0200_0001);
    set_reg(&mut emu, 1, 0x0200_0100);
    execute_instruction(&mut emu);
    assert_eq!(reg(&emu, 0), 5);
    execute_instruction(&mut emu);
    assert_eq!(cpsr(&emu).raw() & 0xF000_0000, 0x6000_0000);
    execute_instruction(&mut emu);
    assert_eq!(reg(&emu, 0), 0xFFFF_FFFF);
    assert_eq!(cpsr(&emu).raw() & 0xF000_0000, 0x8000_0000);
    execute_instruction(&mut emu);
    assert_eq!(reg(&emu, 15), 0x0200_000C + 4);
    execute_instruction(&mut emu);
    assert!(!cpsr(&emu).thumb_state());
    assert_eq!(reg(&emu, 15), 0x0200_0100 + 8);
}

#[test]
fn undefined_instruction_and_aborts_take_their_vectors() {
    let mut emu = machine();
    load(&mut emu, 0x0200_0000, &[0xE7F0_00F0]);
    execute_instruction(&mut emu);
    assert_eq!(cpsr(&emu).mode().raw(), 0x1B);
    assert_eq!(reg(&emu, 14), 0x0200_0004);
    assert_eq!(reg(&emu, 15), 0xFFFF_0004 + 8);

    let mut emu = machine();
    emu.arm9.cp15.set_perms(0x0300_0000 >> 12, 0);
    load(&mut emu, 0x0200_0000, &[LDR_R0_R1]);
    set_reg(&mut emu, 0, 77);
    set_reg(&mut emu, 1, 0x0300_0000);
    execute_instruction(&mut emu);
    assert_eq!(cpsr(&emu).mode().raw(), 0x17);
    assert_eq!(reg(&emu, 14), 0x0200_0008);
    assert_eq!(reg(&emu, 15), 0xFFFF_0010 + 8);
    assert_eq!(reg(&emu, 0), 77);

    // An instruction that may not be fetched aborts when it would run.
    let mut emu = machine();
    emu.arm9.cp15.set_perms(0x0200_1000 >> 12, 0);
    EngineData::jump(&mut emu, 0x0200_1000);
    execute_instruction(&mut emu);
    assert_eq!(cpsr(&emu).mode().raw(), 0x17);
    assert_eq!(reg(&emu, 14), 0x0200_1004);
    assert_eq!(reg(&emu, 15), 0xFFFF_000C + 8);
}

#[test]
fn emulated_bios_gets_the_software_interrupt() {
    let mut emu = machine();
    emu.arm9.hle_bios_enabled = true;
    load(&mut emu, 0x0200_0000, &[MOV_R0_1, 0xEF05_0000, MOV_R1_R0]);
    EngineData::setup_direct_boot(&mut emu, 0x0200_0000);
    set_cpsr_update_control(&mut emu, Psr::from_raw(0x1F));
    set_reg(&mut emu, 3, 9);
    let stop = EngineData::run_until(&mut emu, Timestamp(1_000), 10);
    assert_eq!(stop, Stop::Hle(HleRequest::Swi { number: 5, r0_3: [1, 0, 0, 9] }));
    EngineData::return_from_hle_swi(&mut emu, [42, 1, 2, 3]);
    assert_eq!(cpsr(&emu).raw(), 0x1F);
    assert_eq!(reg(&emu, 0), 42);
    assert_eq!(reg(&emu, 3), 3);
    assert_eq!(reg(&emu, 13), 0x0300_2F7C);
    assert_eq!(reg(&emu, 15), 0x0200_0008 + 8);
    execute_instruction(&mut emu);
    assert_eq!(reg(&emu, 1), 42);
}

#[test]
fn run_stops_at_the_end_time_or_when_the_steps_run_out() {
    let mut emu = machine();
    load(&mut emu, 0x0200_0000, &[MOV_R0_1, MOV_R1_R0, MOV_R3_R2, MOV_R1_R2]);
    let start = now(&emu);
    assert_eq!(EngineData::run_until(&mut emu, Timestamp(start), 5), Stop::TimeReached);
    assert_eq!(reg(&emu, 0), 0);
    assert_eq!(EngineData::run_until(&mut emu, Timestamp(start + 2), 5), Stop::TimeReached);
    assert_eq!(now(&emu), start + 2);
    assert_eq!(reg(&emu, 1), 1);
    assert_eq!(EngineData::run_until(&mut emu, Timestamp(start + 100), 1), Stop::OutOfSteps);
    assert_eq!(now(&emu), start + 3);
    assert_eq!(EngineData::run_until(&mut emu, Timestamp(start + 100), 0), Stop::OutOfSteps);
    assert_eq!(now(&emu), start + 3);
}

#[test]
fn halted_cpu_sleeps_until_the_next_event() {
    let mut emu = machine();
    load(&mut emu, 0x0200_0000, &[MOV_R0_1]);
    let start = now(&emu);
    // Timer 0 overflows after two cycles and requests its interrupt.
    write_32(&mut emu, 0x0400_0100, 0x00C0_FFFE);
    emu.arm9.irqs.halt();
    assert_eq!(EngineData::run_until(&mut emu, Timestamp(start + 50), 2), Stop::OutOfSteps);
    assert_eq!(now(&emu), start + 2);
    assert_eq!(emu.arm9.irqs.requested(), IrqFlags(8));
    assert_eq!(reg(&emu, 0), 0);
    // The interrupt is not enabled, so the CPU sleeps on.
    assert_eq!(EngineData::run_until(&mut emu, Timestamp(start + 3), 9), Stop::TimeReached);
    assert_eq!(now(&emu), start + 3);
}

#[test]
fn stalled_cpu_lets_the_events_fire() {
    let mut emu = machine();
    let start = now(&emu);
    write_32(&mut emu, 0x0400_0100, 0x00C0_FFFE);
    EngineData::run_stalled_until(&mut emu, Timestamp(start + 1), 4);
    assert_eq!(now(&emu), start + 1);
    assert_eq!(emu.arm9.irqs.requested(), IrqFlags(0));
    EngineData::run_stalled_until(&mut emu, Timestamp(start + 2), 4);
    assert_eq!(now(&emu), start + 2);
    assert_eq!(emu.arm9.irqs.requested(), IrqFlags(8));
    EngineData::run_stalled_until(&mut emu, Timestamp(start), 4);
    assert_eq!(now(&emu), start + 2);
}

#[test]
fn direct_boot_sets_the_registers_up() {
    let mut emu = machine();
    set_reg(&mut emu, 3, 5);
    EngineData::setup_direct_boot(&mut emu, 0x0200_0800);
    assert_eq!(cpsr(&emu).mode().raw(), 0x1F);
    for i in 0..12 {
        assert_eq!(reg(&emu, i), 0);
    }
    assert_eq!(reg(&emu, 12), 0x0200_0800);
    assert_eq!(reg(&emu, 13), 0x0300_2F7C);
    assert_eq!(reg(&emu, 14), 0x0200_0800);
    assert_eq!(reg(&emu, 15), 0x0200_0808);
    let regs = emu.arm9.engine_data.regs();
    assert_eq!(regs.banked_r13_14(RegBank::Irq.index())[0], 0x0300_3F80);
    assert_eq!(regs.banked_r13_14(RegBank::Supervisor.index())[0], 0x0300_3FC0);
}

#[test]
fn reset_starts_at_the_reset_vector() {
    let mut emu = machine();
    EngineData::setup(&mut emu);
    assert_eq!(reg(&emu, 15), 0xFFFF_0000 + 8);
    assert_eq!(cpsr(&emu).raw(), 0xD3);
}

#[test]
fn modes_keep_their_banked_registers() {
    let mut regs = Regs::startup();
    regs.set_reg(13, 0x100);
    regs.set_reg(14, 0x200);
    regs.set_reg(8, 0x300);
    regs.set_spsr(Psr::from_raw(0x1F));
    regs.update_mode(Mode::supervisor(), Mode::fiq());
    regs.set_reg(13, 1);
    regs.set_reg(8, 2);
    regs.update_mode(Mode::fiq(), Mode::supervisor());
    assert_eq!(regs.reg(13), 0x100);
    assert_eq!(regs.reg(14), 0x200);
    assert_eq!(regs.reg(8), 0x300);
    assert_eq!(regs.spsr().raw(), 0x1F);
    assert_eq!(regs.banked_r13_14(Mode::fiq().bank())[0], 1);
    assert_eq!(Mode::fiq().reg_bank(), RegBank::Fiq);
    assert_eq!(Mode::system().reg_bank(), RegBank::User);
    assert_eq!(Mode::undefined().reg_bank().index(), 5);
    assert!(!Mode::user().is_privileged());
    assert!(!Mode::system().has_spsr());
    assert!(Mode::abort().has_spsr());
    regs.set_r0_3([1, 2, 3, 4]);
    assert_eq!(regs.r0_3(), [1, 2, 3, 4]);
}

#[test]
fn status_register_keeps_bit_four() {
    assert_eq!(Psr::from_raw(0).raw(), 0x10);
    assert_eq!(Psr::from_raw(0xF000_00FF).with_mode(Mode::irq()).raw(), 0xF000_00F2);
    let psr = Psr::from_raw(0x13).with_thumb_state(true).with_irqs_disabled(true);
    assert_eq!(psr.raw(), 0xB3);
    assert_eq!(psr.with_nzcv(0xA000_0000).raw(), 0xA000_00B3);
    assert!(psr.with_nzcv(0x2000_0000).carry());
    assert_eq!(psr.with_nzcv(0xF000_0000).with_nz(0x4000_0000).raw(), 0x7000_00B3);
}

#[test]
fn adder_and_shifter_give_results_and_flags() {
    assert_eq!(adc(0xFFFF_FFFF, 1, false), (0, true, false));
    assert_eq!(adc(0x7FFF_FFFF, 0, true), (0x8000_0000, false, true));
    assert_eq!(adc(5, !3, true), (2, true, false));
    assert_eq!(adc(3, !5, true), (0xFFFF_FFFE, false, false));
    assert_eq!(pack_nzcv(0, true, false), 0x6000_0000);
    assert_eq!(pack_nzcv(0x8000_0000, false, true), 0x9000_0000);
    assert_eq!(rotate_right(0x0000_00F1, 4), 0x1000_000F);
    assert_eq!(rotate_right(0x1234_5678, 0), 0x1234_5678);
    assert_eq!(shift(0x8000_0001, 0, 1, false), (2, true));
    assert_eq!(shift(0x8000_0001, 0, 0, true), (0x8000_0001, true));
    assert_eq!(shift(0x8000_0001, 1, 1, false), (0x4000_0000, true));
    assert_eq!(shift(0x8000_0001, 1, 0, false), (0, true));
    assert_eq!(shift(0x8000_0001, 2, 1, false), (0xC000_0000, true));
    assert_eq!(shift(0x8000_0001, 2, 0, false), (0xFFFF_FFFF, true));
    assert_eq!(shift(0x0000_0002, 3, 1, true), (1, false));
    assert_eq!(shift(0x0000_0002, 3, 0, true), (0x8000_0001, false));
    assert_eq!(run_alu(4, 1, 2, false, false, false), (3, 0));
    assert_eq!(run_alu(2, 1, 2, false, false, false), (0xFFFF_FFFF, 0x8000_0000));
    assert_eq!(run_alu(0, 6, 3, false, true, true), (2, 0x3000_0000));
    assert_eq!(run_alu(5, 1, 2, true, false, false), (4, 0));
    assert_eq!(run_alu(6, 5, 2, false, false, false), (2, 0x2000_0000));
    assert_eq!(run_alu(15, 0, 0xF, false, false, false), (0xFFFF_FFF0, 0x8000_0000));
}

#[test]
fn conditions_follow_the_flags() {
    let z: u32 = 0x4000_0000;
    let n: u32 = 0x8000_0000;
    let c: u32 = 0x2000_0000;
    let v: u32 = 0x1000_0000;
    assert!(check_condition(z, 0));
    assert!(!check_condition(z, 1));
    assert!(check_condition(c, 2));
    assert!(check_condition(0, 3));
    assert!(check_condition(n, 4));
    assert!(check_condition(0, 5));
    assert!(check_condition(v, 6));
    assert!(check_condition(0, 7));
    assert!(check_condition(c, 8));
    assert!(!check_condition(c | z, 8));
    assert!(check_condition(z, 9));
    assert!(check_condition(n | v, 10));
    assert!(check_condition(n, 11));
    assert!(check_condition(0, 12));
    assert!(!check_condition(z, 12));
    assert!(check_condition(z, 13));
    assert!(check_condition(0, 14));
    assert!(check_condition(0, 15));
}

#[test]
fn logical_operations_set_n_and_z() {
    let mut regs = Regs::startup();
    assert_eq!(and_s(&mut regs, 0xF0, 0x0F), 0);
    assert_eq!(regs.cpsr().raw(), 0x4000_00D3);
    assert_eq!(orr_s(&mut regs, 0x8000_0000, 1), 0x8000_0001);
    assert_eq!(regs.cpsr().raw(), 0x8000_00D3);
    assert_eq!(eor_s(&mut regs, 5, 5), 0);
    assert_eq!(regs.cpsr().raw(), 0x4000_00D3);
    assert_eq!(bic_s(&mut regs, 0xFF, 0x0F), 0xF0);
    assert_eq!(regs.cpsr().raw(), 0x0000_00D3);
    tst(&mut regs, 0x8000_0000, 0x8000_0000);
    assert_eq!(regs.cpsr().raw(), 0x8000_00D3);
    teq(&mut regs, 7, 7);
    assert_eq!(regs.cpsr().raw(), 0x4000_00D3);
    set_nz(&mut regs, 1);
    assert_eq!(regs.cpsr().raw(), 0x0000_00D3);
    set_nz_64(&mut regs, 0x8000_0000_0000_0000);
    assert_eq!(regs.cpsr().raw(), 0x8000_00D3);
    set_nz_64(&mut regs, 0x0000_0001_0000_0000);
    assert_eq!(regs.cpsr().raw(), 0x0000_00D3);
    // The carry and overflow flags are left alone.
    regs.set_cpsr(Psr::from_raw(0x3000_00D3));
    set_nz(&mut regs, 0);
    assert_eq!(regs.cpsr().raw(), 0x7000_00D3);
}

#[test]
fn multiplications_and_shifts_by_a_register() {
    let mut emu = machine();
    // MUL r0, r1, r2 ; MLA r3, r1, r2, r4 ; MULS r5, r1, r6 ; MOV r7, r1, LSL r2 ;
    // MOVS r8, r1, LSR r9 ; ADD r10, r15, r15, LSL r6
    load(
        &mut emu,
        0x0200_0000,
        &[0xE000_0291, 0xE023_4291, 0xE015_0691, 0xE1A0_7211, 0xE1B0_8931, 0xE08F_A61F],
    );
    set_reg(&mut emu, 1, 0x8000_0003);
    set_reg(&mut emu, 2, 5);
    set_reg(&mut emu, 4, 100);
    set_reg(&mut emu, 6, 0);
    set_reg(&mut emu, 9, 32);
    let start = now(&emu);
    execute_instruction(&mut emu);
    assert_eq!(reg(&emu, 0), 0x8000_000F);
    assert_eq!(now(&emu), start + 2);
    execute_instruction(&mut emu);
    assert_eq!(reg(&emu, 3), 0x8000_000F + 100);
    execute_instruction(&mut emu);
    assert_eq!(reg(&emu, 5), 0);
    assert_eq!(cpsr(&emu).raw() & 0xC000_0000, 0x4000_0000);
    assert_eq!(now(&emu), start + 8);
    execute_instruction(&mut emu);
    assert_eq!(reg(&emu, 7), 0x60);
    // A shift to the right by 32 leaves nothing but the carry.
    execute_instruction(&mut emu);
    assert_eq!(reg(&emu, 8), 0);
    assert_eq!(cpsr(&emu).raw() & 0xF000_0000, 0x6000_0000);
    // The program counter reads three instructions ahead here.
    execute_instruction(&mut emu);
    assert_eq!(reg(&emu, 10), 2 * (0x0200_0014 + 12));
}

fn clock_after_multiply_and(second: u32) -> u64 {
    let mut emu = machine();
    load(&mut emu, 0x0200_0000, &[0xE000_0291, second]);
    execute_instruction(&mut emu);
    execute_instruction(&mut emu);
    now(&emu)
}

#[test]
fn product_is_at_hand_one_cycle_late() {
    assert_eq!(clock_after_multiply_and(MOV_R1_R0), clock_after_multiply_and(MOV_R1_R2) + 1);
}

#[test]
fn status_registers_are_read_and_written() {
    let mut emu = machine();
    // MRS r0, CPSR ; MSR CPSR_f, #0xF0000000 ; MSR CPSR_c, r1 ; MRS r2, CPSR ;
    // MSR CPSR_c, r3 ; MSR SPSR_fc, r4 ; MRS r5, SPSR
    load(
        &mut emu,
        0x0200_0000,
        &[
            0xE10F_0000, 0xE328_F20F, 0xE121_F001, 0xE10F_2000, 0xE121_F003, 0xE169_F004,
            0xE14F_5000,
        ],
    );
    set_reg(&mut emu, 1, 0x10);
    set_reg(&mut emu, 3, 0x1F);
    set_reg(&mut emu, 4, 0xFFFF_FFFF);
    set_reg(&mut emu, 13, 0x111);
    execute_instruction(&mut emu);
    assert_eq!(reg(&emu, 0), 0xD3);
    execute_instruction(&mut emu);
    assert_eq!(cpsr(&emu).raw(), 0xF000_00D3);
    // To user mode, with interrupts let through.
    execute_instruction(&mut emu);
    assert_eq!(cpsr(&emu).raw(), 0xF000_0010);
    assert!(emu.arm9.irqs.enabled_in_cpsr());
    assert_eq!(reg(&emu, 13), 0);
    execute_instruction(&mut emu);
    assert_eq!(reg(&emu, 2), 0xF000_0010);
    // The user mode cannot change its mode.
    execute_instruction(&mut emu);
    assert_eq!(cpsr(&emu).raw(), 0xF000_0010);
    // Nor has it a saved status register to write.
    let saved = emu.arm9.engine_data.regs.spsr().raw();
    execute_instruction(&mut emu);
    assert_eq!(emu.arm9.engine_data.regs.spsr().raw(), saved);
    execute_instruction(&mut emu);
    assert_eq!(reg(&emu, 5), saved);

    let mut emu = machine();
    // MSR SPSR_fc, r4 ; MSR CPSR_c, #0x20 | 0x13
    load(&mut emu, 0x0200_0000, &[0xE169_F004, 0xE321_F033]);
    set_reg(&mut emu, 4, 0xFFFF_FFFF);
    execute_instruction(&mut emu);
    assert_eq!(emu.arm9.engine_data.regs.spsr().raw(), 0xF800_00FF);
    // The Thumb bit does not follow a write.
    execute_instruction(&mut emu);
    assert_eq!(cpsr(&emu).raw(), 0x13);
}

#[test]
fn thumb_works_on_its_low_registers() {
    let mut emu = machine();
    // LSL r0, r1, #4 ; ADD r2, r1, r0 ; SUB r3, r2, #3 ; AND r3, r1 ; MUL r2, r1 ;
    // NEG r4, r1 ; LSR r0, r1 ; CMP r1, r1 ; BEQ +2 ; (skipped) ; BL +4 ; ... ; MVN r5, r1
    let program: [u16; 14] = [
        0x0108, 0x1842, 0x1ED3, 0x400B, 0x434A, 0x424C, 0x40C8, 0x4289, 0xD000, 0x0000, 0xF000,
        0xF801, 0x0000, 0x43CD,
    ];
    for (i, halfword) in program.iter().enumerate() {
        write_16(&mut emu, 0x0200_0000 + 2 * i as u32, *halfword);
    }
    EngineData::jump(&mut emu, 0x0200_0001);
    set_reg(&mut emu, 1, 3);
    execute_instruction(&mut emu);
    assert_eq!(reg(&emu, 0), 0x30);
    execute_instruction(&mut emu);
    assert_eq!(reg(&emu, 2), 0x33);
    execute_instruction(&mut emu);
    assert_eq!(reg(&emu, 3), 0x30);
    assert_eq!(cpsr(&emu).raw() & 0xF000_0000, 0x2000_0000);
    execute_instruction(&mut emu);
    assert_eq!(reg(&emu, 3), 0);
    assert_eq!(cpsr(&emu).raw() & 0xC000_0000, 0x4000_0000);
    execute_instruction(&mut emu);
    assert_eq!(reg(&emu, 2), 0x99);
    execute_instruction(&mut emu);
    assert_eq!(reg(&emu, 4), 0xFFFF_FFFD);
    execute_instruction(&mut emu);
    assert_eq!(reg(&emu, 0), 6);
    execute_instruction(&mut emu);
    assert_eq!(cpsr(&emu).raw() & 0xF000_0000, 0x6000_0000);
    execute_instruction(&mut emu);
    assert_eq!(reg(&emu, 15), 0x0200_0014 + 4);
    execute_instruction(&mut emu);
    assert_eq!(reg(&emu, 14), 0x0200_0018);
    execute_instruction(&mut emu);
    assert_eq!(reg(&emu, 14), 0x0200_0019);
    assert_eq!(reg(&emu, 15), 0x0200_001A + 4);
    execute_instruction(&mut emu);
    assert_eq!(reg(&emu, 5), 0xFFFF_FFFC);
}

#[test]
fn thumb_branch_falls_through_when_its_condition_fails() {
    let mut emu = machine();
    // CMP r0, #1 ; BEQ +100 ; MOV r1, #9
    write_16(&mut emu, 0x0200_0000, 0x2801);
    write_16(&mut emu, 0x0200_0002, 0xD032);
    write_16(&mut emu, 0x0200_0004, 0x2109);
    EngineData::jump(&mut emu, 0x0200_0001);
    execute_instruction(&mut emu);
    execute_instruction(&mut emu);
    execute_instruction(&mut emu);
    assert_eq!(reg(&emu, 1), 9);
    // A branch backwards.
    write_16(&mut emu, 0x0200_0100, 0xD1FE);
    EngineData::jump(&mut emu, 0x0200_0101);
    execute_instruction(&mut emu);
    assert_eq!(reg(&emu, 15), 0x0200_0100 + 4);
}

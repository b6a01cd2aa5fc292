use dust_core::cpu::arm7::bus::{read_16, read_32, read_8, write_16, write_32, write_8};
use dust_core::cpu::arm9::bus::fallback as bus9;
use dust_core::cpu::interpreter::arm7::run::execute_instruction;
use dust_core::cpu::interpreter::arm7::{cpsr, reg, set_cpsr_update_control, set_reg, EngineData};
use dust_core::cpu::interpreter::arm9;
use dust_core::cpu::interpreter::arm9::run::Stop;
use dust_core::cpu::irqs::IrqFlags;
use dust_core::cpu::psr::Psr;
use dust_core::cpu::schedule::Schedule;
use dust_core::cpu::timers::Timestamp;
use dust_core::ds_slot::spi::empty::Empty;
use dust_core::ds_slot::{Rom, Spi};
use dust_core::emu::Emu;

fn machine() -> Emu {
    let mut bios7 = vec![0u8; 0x4000];
    bios7[0x20] = 0xA5;
    // The interrupt vector returns at once: SUBS pc, lr, #4.
    bios7[0x18..0x1C].copy_from_slice(&0xE25E_F004u32.to_le_bytes());
    Emu::new(bios7, vec![0u8; 0x1000], Rom::Empty, Spi::Empty(Empty::new()))
}

fn now7(emu: &Emu) -> u64 {
    emu.arm7.schedule.cur_time().0
}

#[test]
fn arm7_finds_its_memory() {
    let mut emu = machine();
    assert_eq!(read_8(&mut emu, 0x20), 0xA5);
    write_8(&mut emu, 0x20, 1);
    assert_eq!(read_8(&mut emu, 0x20), 0xA5);
    assert_eq!(read_32(&mut emu, 0x4000), 0);
    write_32(&mut emu, 0x0200_0010, 0x1122_3344);
    assert_eq!(bus9::read_32(&mut emu, 0x0200_0010, false), 0x1122_3344);
    assert_eq!(read_16(&mut emu, 0x0240_0013), 0x1122);
    assert_eq!(read_8(&mut emu, 0x0200_0011), 0x33);
    // Its own working RAM repeats every 64 KiB.
    write_16(&mut emu, 0x0380_0002, 0xBEEF);
    assert_eq!(read_16(&mut emu, 0x0381_0002), 0xBEEF);
    // While the ARM9 has all of the shared RAM, the ARM7 finds its own RAM in its place.
    assert_eq!(read_16(&mut emu, 0x0300_0002), 0xBEEF);
    bus9::write_8(&mut emu, 0x0400_0247, 3);
    assert_eq!(read_16(&mut emu, 0x0300_0002), 0);
    write_8(&mut emu, 0x0300_0003, 0x77);
    assert_eq!(read_32(&mut emu, 0x0300_8000), 0x7700_0000);
    assert_eq!(read_16(&mut emu, 0x0380_0002), 0xBEEF);
    assert_eq!(read_8(&mut emu, 0x0400_0241), 3);
    assert_eq!(read_32(&mut emu, 0x0800_0000), 0);
}

#[test]
fn arm7_reaches_the_video_memory_that_is_mapped_to_it() {
    let mut emu = machine();
    assert_eq!(read_8(&mut emu, 0x0400_0240), 0);
    write_32(&mut emu, 0x0600_0000, 0x0102_0304);
    assert_eq!(read_32(&mut emu, 0x0600_0000), 0);
    // Bank C goes to the ARM7.
    bus9::write_8(&mut emu, 0x0400_0242, 0x82);
    assert_eq!(read_8(&mut emu, 0x0400_0240), 1);
    write_32(&mut emu, 0x0600_0000, 0x0102_0304);
    write_8(&mut emu, 0x0600_0001, 0xFF);
    assert_eq!(read_32(&mut emu, 0x0600_0000), 0x0102_FF04);
    assert_eq!(read_16(&mut emu, 0x0604_0002), 0x0102);
    // Back in the LCDC window, the bank shows what was written.
    bus9::write_8(&mut emu, 0x0400_0242, 0x80);
    assert_eq!(bus9::read_32(&mut emu, 0x0684_0000, false), 0x0102_FF04);
    assert_eq!(read_32(&mut emu, 0x0600_0000), 0);
}

#[test]
fn word_sent_by_the_arm9_arrives_at_the_arm7() {
    let mut emu = machine();
    bus9::write_16(&mut emu, 0x0400_0184, 0x8000);
    write_16(&mut emu, 0x0400_0184, 0x8400);
    write_32(&mut emu, 0x0400_0210, 1 << 18);
    assert_eq!(read_16(&mut emu, 0x0400_0184) & 0x0100, 0x0100);
    bus9::write_32(&mut emu, 0x0400_0188, 0x1122_3344);
    assert_eq!(emu.arm7.irqs.requested(), IrqFlags(1 << 18));
    assert_eq!(read_32(&mut emu, 0x0400_0214), 1 << 18);
    assert_eq!(read_16(&mut emu, 0x0400_0184) & 0x0100, 0);
    assert_eq!(read_32(&mut emu, 0x0410_0000), 0x1122_3344);
    assert_eq!(read_16(&mut emu, 0x0400_0184) & 0x4100, 0x0100);
    // A read of the empty queue returns the last word again and sets the error flag.
    assert_eq!(read_32(&mut emu, 0x0410_0000), 0x1122_3344);
    assert_eq!(read_16(&mut emu, 0x0400_0184) & 0x4000, 0x4000);
    // The other way.
    write_32(&mut emu, 0x0400_0188, 0x5566_7788);
    assert_eq!(bus9::read_32(&mut emu, 0x0410_0000, false), 0x5566_7788);
    // The sync register's four bits show on the other side.
    write_16(&mut emu, 0x0400_0180, 0x0500);
    assert_eq!(bus9::read_16(&mut emu, 0x0400_0180, false) & 0xF, 5);
}

#[test]
fn arm7_interrupt_registers_take_halves() {
    let mut emu = machine();
    write_16(&mut emu, 0x0400_0208, 1);
    assert_eq!(read_16(&mut emu, 0x0400_0208), 1);
    write_16(&mut emu, 0x0400_0212, 0x0004);
    write_16(&mut emu, 0x0400_0210, 0x0009);
    assert_eq!(read_32(&mut emu, 0x0400_0210), 0x0004_0009);
    assert_eq!(emu.arm7.irqs.enabled(), IrqFlags(0x0004_0009));
    emu.arm7.irqs.request(IrqFlags(0x0004_0001), &mut emu.arm7.schedule);
    write_16(&mut emu, 0x0400_0216, 0x0004);
    assert_eq!(read_32(&mut emu, 0x0400_0214), 1);
    write_32(&mut emu, 0x0400_0214, 1);
    assert_eq!(read_32(&mut emu, 0x0400_0214), 0);
    // The halt register halts the CPU until an interrupt is requested.
    write_8(&mut emu, 0x0400_0301, 0x40);
    assert!(!emu.arm7.irqs.halted());
    write_8(&mut emu, 0x0400_0301, 0x80);
    assert!(emu.arm7.irqs.halted());
    emu.arm7.irqs.request(IrqFlags(8), &mut emu.arm7.schedule);
    assert!(!emu.arm7.irqs.halted());
    assert_eq!(read_16(&mut emu, 0x0400_0130), 0x03FF);
    assert_eq!(read_16(&mut emu, 0x0400_0136), 0x007F);
}

#[test]
fn arm7_timers_count_by_its_own_clock() {
    let mut emu = machine();
    write_32(&mut emu, 0x0400_0100, 0x00C0_FFFE);
    emu.arm7.schedule.set_cur_time(Timestamp(1));
    assert_eq!(read_16(&mut emu, 0x0400_0100), 0xFFFF);
    assert_eq!(read_16(&mut emu, 0x0400_0102), 0x00C0);
    emu.arm7.schedule.set_cur_time(Timestamp(4));
    assert_eq!(read_32(&mut emu, 0x0400_0100), 0x00C0_FFFE);
    assert_eq!(emu.arm7.irqs.requested(), IrqFlags(8));
    assert_eq!(emu.arm9.irqs.requested(), IrqFlags(0));
    write_16(&mut emu, 0x0400_0102, 0);
    write_16(&mut emu, 0x0400_0100, 0x1234);
    write_16(&mut emu, 0x0400_0102, 0x80);
    assert_eq!(read_16(&mut emu, 0x0400_0100), 0x1234);
}

#[test]
fn arm7_runs_arm_and_thumb_code() {
    let mut emu = machine();
    // MOV r0, #1 ; ADD r1, r0, #0x200 ; STR r1, [r2, #4]! ; LDRB r3, [r2, #1] ; BX r4
    let program: [u32; 5] = [0xE3A0_0001, 0xE280_1C02, 0xE5A2_1004, 0xE5D2_3001, 0xE12F_FF14];
    for (i, word) in program.iter().enumerate() {
        write_32(&mut emu, 0x0200_0000 + 4 * i as u32, *word);
    }
    // MOV r5, #7 ; SUB r5, #8 ; B -4 (to itself, two halfwords back from the program counter)
    write_16(&mut emu, 0x0200_0100, 0x2507);
    write_16(&mut emu, 0x0200_0102, 0x3D08);
    write_16(&mut emu, 0x0200_0104, 0xE7FE);
    EngineData::jump(&mut emu, 0x0200_0000);
    assert_eq!(reg(&emu, 15), 0x0200_0008);
    set_reg(&mut emu, 2, 0x0380_0000);
    set_reg(&mut emu, 4, 0x0200_0101);
    let start = now7(&emu);
    execute_instruction(&mut emu);
    assert_eq!(reg(&emu, 0), 1);
    assert_eq!(now7(&emu), start + 1);
    execute_instruction(&mut emu);
    assert_eq!(reg(&emu, 1), 0x201);
    execute_instruction(&mut emu);
    assert_eq!(reg(&emu, 2), 0x0380_0004);
    assert_eq!(read_32(&mut emu, 0x0380_0004), 0x201);
    // A load or store takes one cycle for the fetch and one for the access.
    assert_eq!(now7(&emu), start + 4);
    execute_instruction(&mut emu);
    assert_eq!(reg(&emu, 3), 2);
    execute_instruction(&mut emu);
    assert!(cpsr(&emu).thumb_state());
    assert_eq!(reg(&emu, 15), 0x0200_0104);
    execute_instruction(&mut emu);
    assert_eq!(reg(&emu, 5), 7);
    execute_instruction(&mut emu);
    assert_eq!(reg(&emu, 5), 0xFFFF_FFFF);
    assert_eq!(cpsr(&emu).raw() & 0xF000_0000, 0x8000_0000);
    execute_instruction(&mut emu);
    assert_eq!(reg(&emu, 15), 0x0200_0104 + 4);
}

#[test]
fn arm7_exceptions_go_to_the_low_vectors() {
    let mut emu = machine();
    write_32(&mut emu, 0x0200_0000, 0xEF00_0000);
    EngineData::jump(&mut emu, 0x0200_0000);
    set_cpsr_update_control(&mut emu, Psr::from_raw(0x1F));
    execute_instruction(&mut emu);
    assert_eq!(cpsr(&emu).raw(), 0x93);
    assert_eq!(reg(&emu, 14), 0x0200_0004);
    assert_eq!(reg(&emu, 15), 8 + 8);
    assert_eq!(emu.arm7.engine_data.regs().spsr().raw(), 0x1F);

    let mut emu = machine();
    write_16(&mut emu, 0x0200_0000, 0xDF00);
    EngineData::jump(&mut emu, 0x0200_0001);
    execute_instruction(&mut emu);
    assert_eq!(cpsr(&emu).mode().raw(), 0x13);
    assert!(!cpsr(&emu).thumb_state());
    assert_eq!(reg(&emu, 14), 0x0200_0002);

    let mut emu = machine();
    write_32(&mut emu, 0x0200_0000, 0xE7F0_00F0);
    EngineData::jump(&mut emu, 0x0200_0000);
    execute_instruction(&mut emu);
    assert_eq!(cpsr(&emu).mode().raw(), 0x1B);
    assert_eq!(reg(&emu, 14), 0x0200_0004);
    assert_eq!(reg(&emu, 15), 4 + 8);

    let mut emu = machine();
    EngineData::setup(&mut emu);
    assert_eq!(reg(&emu, 15), 8);
}

#[test]
fn arm7_takes_an_interrupt_and_returns() {
    let mut emu = machine();
    write_16(&mut emu, 0x0200_0000, 0x2005);
    write_16(&mut emu, 0x0200_0002, 0x3003);
    EngineData::jump(&mut emu, 0x0200_0001);
    set_cpsr_update_control(&mut emu, Psr::from_raw(0x3F));
    write_16(&mut emu, 0x0400_0208, 1);
    write_32(&mut emu, 0x0400_0210, 8);
    // Timer 0 overflows after two cycles.
    write_32(&mut emu, 0x0400_0100, 0x00C0_FFFE);
    let start = now7(&emu);
    // One instruction, the timer's event with the next, and the interrupt.
    assert_eq!(EngineData::run_until(&mut emu, Timestamp(start + 100), 4), Stop::OutOfSteps);
    assert_eq!(cpsr(&emu).mode().raw(), 0x12);
    assert_eq!(reg(&emu, 0), 8);
    assert_eq!(reg(&emu, 14), 0x0200_0004 + 4);
    assert_eq!(reg(&emu, 15), 0x18 + 8);
    write_32(&mut emu, 0x0400_0214, 8);
    execute_instruction(&mut emu);
    assert_eq!(cpsr(&emu).raw(), 0x3F);
    assert_eq!(reg(&emu, 15), 0x0200_0004 + 4);
}

#[test]
fn halted_arm7_sleeps_to_the_end() {
    let mut emu = machine();
    write_8(&mut emu, 0x0400_0301, 0x80);
    let start = now7(&emu);
    assert_eq!(EngineData::run_until(&mut emu, Timestamp(start + 40), 3), Stop::TimeReached);
    assert_eq!(now7(&emu), start + 40);
    assert_eq!(EngineData::run_until(&mut emu, Timestamp(start + 40), 0), Stop::TimeReached);
}

#[test]
fn both_cpus_run_in_turns() {
    let mut emu = machine();
    // Each CPU runs a branch to itself.
    bus9::write_32(&mut emu, 0x0200_0000, 0xEAFF_FFFE);
    write_32(&mut emu, 0x0200_0100, 0xEAFF_FFFE);
    arm9::EngineData::jump(&mut emu, 0x0200_0000);
    EngineData::jump(&mut emu, 0x0200_0100);
    emu.arm9.irqs.halt();
    write_8(&mut emu, 0x0400_0301, 0x80);
    // The ARM7's timer 0 overflows at its tick 16 and wakes the ARM7.
    write_32(&mut emu, 0x0400_0210, 8);
    write_32(&mut emu, 0x0400_0100, 0x00C0_FFF0);
    let start7 = now7(&emu);
    assert_eq!(emu.run(Timestamp(start7 + 16), 100, 10), Stop::TimeReached);
    assert_eq!(now7(&emu), start7 + 16);
    assert_eq!(emu.arm9.schedule.cur_time().0, 2 * (start7 + 16));
    assert!(emu.arm7.irqs.halted());
    assert_eq!(emu.run(Timestamp(start7 + 17), 100, 10), Stop::TimeReached);
    assert!(!emu.arm7.irqs.halted());
    assert!(emu.arm9.irqs.halted());
    assert!(now7(&emu) >= start7 + 17);
    assert_eq!(emu.run(Timestamp(start7 + 1000), 100, 0), Stop::OutOfSteps);
    assert_eq!(emu.run(Timestamp(start7 + 1000), 1, 5), Stop::OutOfSteps);
}

#[test]
fn arm7_multiplies_shifts_and_reaches_its_status_register() {
    let mut emu = machine();
    // MLA r3, r1, r2, r4 ; MOV r7, r1, ROR r2 ; MRS r0, CPSR ; MSR CPSR_c, r5 ; MRS r6, SPSR
    let program: [u32; 5] = [0xE023_4291, 0xE1A0_7271, 0xE10F_0000, 0xE121_F005, 0xE14F_6000];
    for (i, word) in program.iter().enumerate() {
        write_32(&mut emu, 0x0200_0000 + 4 * i as u32, *word);
    }
    EngineData::jump(&mut emu, 0x0200_0000);
    set_reg(&mut emu, 1, 0x0000_00F1);
    set_reg(&mut emu, 2, 36);
    set_reg(&mut emu, 4, 1);
    set_reg(&mut emu, 5, 0x92);
    let start = now7(&emu);
    execute_instruction(&mut emu);
    assert_eq!(reg(&emu, 3), 0xF1 * 36 + 1);
    assert_eq!(now7(&emu), start + 2);
    execute_instruction(&mut emu);
    assert_eq!(reg(&emu, 7), 0x1000_000F);
    execute_instruction(&mut emu);
    assert_eq!(reg(&emu, 0), 0xD3);
    execute_instruction(&mut emu);
    assert_eq!(cpsr(&emu).raw(), 0x92);
    execute_instruction(&mut emu);
    assert_eq!(reg(&emu, 6), 0x10);
}

#[test]
fn arm7_thumb_calls_and_returns() {
    let mut emu = machine();
    // BL +8 ; (return here) MOV r2, #1 ; B to itself ; ... ; ADD r0, r0, r1 ; BX r14
    let program: [u16; 8] = [0xF000, 0xF804, 0x2201, 0xE7FE, 0, 0, 0x1840, 0x4770];
    for (i, halfword) in program.iter().enumerate() {
        write_16(&mut emu, 0x0200_0000 + 2 * i as u32, *halfword);
    }
    EngineData::jump(&mut emu, 0x0200_0001);
    set_reg(&mut emu, 0, 40);
    set_reg(&mut emu, 1, 2);
    execute_instruction(&mut emu);
    execute_instruction(&mut emu);
    assert_eq!(reg(&emu, 14), 0x0200_0005);
    assert_eq!(reg(&emu, 15), 0x0200_000C + 4);
    execute_instruction(&mut emu);
    assert_eq!(reg(&emu, 0), 42);
    execute_instruction(&mut emu);
    assert!(cpsr(&emu).thumb_state());
    assert_eq!(reg(&emu, 15), 0x0200_0004 + 4);
    execute_instruction(&mut emu);
    assert_eq!(reg(&emu, 2), 1);
    // LSL r3, r1, #31 ; ASR r3, r3, #31 ; ORR r3, r2 ; BNE -2
    let program: [u16; 4] = [0x07CB, 0x17DB, 0x4313, 0xD1FD];
    for (i, halfword) in program.iter().enumerate() {
        write_16(&mut emu, 0x0200_0100 + 2 * i as u32, *halfword);
    }
    EngineData::jump(&mut emu, 0x0200_0101);
    execute_instruction(&mut emu);
    assert_eq!(reg(&emu, 3), 0);
    assert_eq!(cpsr(&emu).raw() & 0xF000_0000, 0x6000_0000);
    execute_instruction(&mut emu);
    execute_instruction(&mut emu);
    assert_eq!(reg(&emu, 3), 1);
    execute_instruction(&mut emu);
    assert_eq!(reg(&emu, 15), 0x0200_0104 + 4);
}

use dust_core::cpu::arm9::bus::fallback::{read_32, write_32};
use dust_core::cpu::arm9::dma_transfer::run_dma_transfer;
use dust_core::cpu::dma::Index;
use dust_core::cpu::interpreter::arm9::run::Stop;
use dust_core::cpu::interpreter::arm9::EngineData;
use dust_core::cpu::irqs::IrqFlags;
use dust_core::cpu::schedule::Schedule;
use dust_core::cpu::timers::Timestamp;
use dust_core::ds_slot::spi::empty::Empty;
use dust_core::ds_slot::{Rom, Spi};
use dust_core::emu::Emu;

fn filled() -> Emu {
    let mut emu = Emu::new(vec![0u8; 0x4000], vec![0u8; 0x1000], Rom::Empty, Spi::Empty(Empty::new()));
    for i in 0..4u32 {
        write_32(&mut emu, 0x0200_0000 + 4 * i, 0x1111_1111 * (i + 1));
    }
    write_32(&mut emu, 0x0400_00B0, 0x0200_0000);
    write_32(&mut emu, 0x0400_00B4, 0x0200_1000);
    emu
}

#[test]
fn transfer_copies_its_words_and_takes_their_cycles() {
    let mut emu = filled();
    let start = emu.arm9.schedule.cur_time().0;
    // Enabled, with an interrupt at the end, at once, words, four of them.
    write_32(&mut emu, 0x0400_00B8, 0xC400_0004);
    assert_eq!(emu.arm9.dma.cur_channel().map(|i| i.get()), Some(0));
    assert_eq!(EngineData::run_until(&mut emu, Timestamp(start + 1000), 1), Stop::OutOfSteps);
    for i in 0..4u32 {
        assert_eq!(read_32(&mut emu, 0x0200_1000 + 4 * i, true), 0x1111_1111 * (i + 1));
    }
    assert_eq!(read_32(&mut emu, 0x0200_1010, true), 0);
    // Each word takes one cycle to read and one to write.
    assert_eq!(emu.arm9.schedule.cur_time().0, start + 8);
    assert_eq!(emu.arm9.irqs.requested(), IrqFlags(0x100));
    assert_eq!(read_32(&mut emu, 0x0400_00B8, true), 0x4400_0004);
    assert!(emu.arm9.dma.cur_channel().is_none());
}

#[test]
fn transfer_without_the_interrupt_bit_requests_none() {
    let mut emu = filled();
    write_32(&mut emu, 0x0400_00B8, 0x8400_0002);
    run_dma_transfer(&mut emu, Index::new(0));
    assert_eq!(read_32(&mut emu, 0x0200_1000, true), 0x1111_1111);
    assert_eq!(read_32(&mut emu, 0x0200_1004, true), 0x2222_2222);
    assert_eq!(read_32(&mut emu, 0x0200_1008, true), 0);
    assert_eq!(emu.arm9.irqs.requested(), IrqFlags(0));
}

#[test]
fn transfer_steps_its_addresses_as_the_control_says() {
    let mut emu = filled();
    // Halfwords, the source going down from its last halfword, the destination fixed.
    write_32(&mut emu, 0x0400_00B0, 0x0200_0006);
    write_32(&mut emu, 0x0400_00B8, 0x80C0_0003);
    let start = emu.arm9.schedule.cur_time().0;
    run_dma_transfer(&mut emu, Index::new(0));
    // The last halfword written stays: the upper half of the first word.
    assert_eq!(read_32(&mut emu, 0x0200_1000, true), 0x0000_1111);
    assert_eq!(emu.arm9.schedule.cur_time().0, start + 6);
}

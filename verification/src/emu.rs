//! The machine as a whole: the two CPUs and what they share.

pub mod boot;
pub mod run;
pub mod swram;

use crate::cpu::arm7::{arm7_wf, Arm7, Arm7View};
use crate::cpu::arm9::{arm9_wf, Arm9, Arm9View};
use crate::ds_slot::{ds_slot_wf, DsSlot, DsSlotView, Rom, Spi};
use crate::ds_slot::rom::normal::normal_wf;
use crate::gpu::{gpu_wf, Gpu, GpuView};
use crate::ipc::{ipc_wf, Ipc, IpcView};
use swram::{swram_wf, Swram, SwramView};
use vstd::prelude::*;

verus! {

/// The size of the main memory in bytes.
pub const MAIN_MEM_LEN: usize = 0x40_0000;

/// The state of the machine, as contracts see it.
pub struct EmuView {
    pub arm7: Arm7View,
    pub arm9: Arm9View,
    /// The 4 MiB of main memory.
    pub main_mem: Seq<u8>,
    pub swram: SwramView,
    pub gpu: GpuView,
    pub ipc: IpcView,
    pub ds_slot: DsSlotView,
    /// The keys that are pressed, as the key status register shows them.
    pub input_status: u32,
    /// The key interrupt control register of the ARM9.
    pub arm9_key_irq_control: u16,
    /// The part of the external memory control register that both CPUs see.
    pub global_ex_mem_control: u16,
}

/// The machine is well-formed: every part of it is.
pub open spec fn emu_wf(v: EmuView) -> bool {
    &&& arm7_wf(v.arm7)
    &&& arm9_wf(v.arm9)
    &&& v.main_mem.len() == 0x40_0000
    &&& swram_wf(v.swram)
    &&& gpu_wf(v.gpu)
    &&& ipc_wf(v.ipc)
    &&& ds_slot_wf(v.ds_slot)
}

/// The machine.
pub struct Emu {
    pub arm7: Arm7,
    pub arm9: Arm9,
    pub main_mem: Vec<u8>,
    pub swram: Swram,
    pub gpu: Gpu,
    pub ipc: Ipc,
    pub ds_slot: DsSlot,
    pub input_status: u32,
    pub arm9_key_irq_control: u16,
    pub global_ex_mem_control: u16,
}

impl View for Emu {
    type V = EmuView;

    open spec fn view(&self) -> EmuView {
        EmuView {
            arm7: self.arm7@,
            arm9: self.arm9@,
            main_mem: self.main_mem@,
            swram: self.swram@,
            gpu: self.gpu@,
            ipc: self.ipc@,
            ds_slot: self.ds_slot@,
            input_status: self.input_status,
            arm9_key_irq_control: self.arm9_key_irq_control,
            global_ex_mem_control: self.global_ex_mem_control,
        }
    }
}

/// The machine after a write of `value` to the shared part of the external memory control
/// register: bits 7 to 15 are kept, and bit 11 gives the cartridge slot to the ARM7.
pub open spec fn global_ex_mem_control_written(v: EmuView, value: u16) -> EmuView {
    EmuView {
        global_ex_mem_control: value & 0xFF80,
        ds_slot: DsSlotView { arm9_access: value & 0x800 == 0, ..v.ds_slot },
        ..v
    }
}

/// The machine at power-on, with the BIOS of both CPUs and the cartridge in the slot:
/// every part as it is at power-on, memory zero, and no key pressed.
pub open spec fn initial_emu(
    arm7_bios: Seq<u8>,
    arm9_bios: Seq<u8>,
    rom: Option<crate::ds_slot::rom::normal::NormalView>,
) -> EmuView {
    EmuView {
        arm7: crate::cpu::arm7::initial_arm7(arm7_bios),
        arm9: crate::cpu::arm9::initial_arm9(arm9_bios),
        main_mem: Seq::new(0x40_0000, |i: int| 0u8),
        swram: SwramView { contents: Seq::new(0x8000, |i: int| 0u8), control: 0 },
        gpu: crate::gpu::initial_gpu(),
        ipc: crate::ipc::initial_ipc(),
        ds_slot: crate::ds_slot::initial_ds_slot(rom),
        input_status: 0x007F_03FF,
        arm9_key_irq_control: 0,
        global_ex_mem_control: 0,
    }
}

impl Emu {
    /// The machine at power-on, with the BIOS of both CPUs and what is in the cartridge
    /// slot.
    pub fn new(arm7_bios: Vec<u8>, arm9_bios: Vec<u8>, rom: Rom, spi: Spi) -> (emu: Self)
        requires
            arm7_bios.len() == 0x4000,
            arm9_bios.len() == 0x1000,
            rom matches Rom::Normal(normal) ==> normal_wf(normal@),
        ensures
            emu@ == initial_emu(arm7_bios@, arm9_bios@, crate::ds_slot::rom_view(rom)),
            emu_wf(emu@),
    {
        let ipc = Ipc::new();
        let emu = Emu {
            arm7: Arm7::new(arm7_bios),
            arm9: Arm9::new(arm9_bios),
            main_mem: vec![0u8; 0x40_0000],
            swram: Swram::new(),
            gpu: Gpu::new(),
            ipc,
            ds_slot: DsSlot::new(rom, spi),
            input_status: 0x007F_03FF,
            arm9_key_irq_control: 0,
            global_ex_mem_control: 0,
        };
        assert(emu@.main_mem =~= Seq::new(0x40_0000, |i: int| 0u8));
        emu
    }

    /// Whether the GBA slot belongs to the ARM7: bit 7 of the external memory control
    /// register.
    pub fn arm7_gba_slot_access(&self) -> (r: bool)
        ensures
            r == (self@.global_ex_mem_control & 0x80 != 0),
    {
        self.global_ex_mem_control & 0x80 != 0
    }

    /// Writes the shared part of the external memory control register.
    pub fn write_global_ex_mem_control(&mut self, value: u16)
        ensures
            final(self)@ == global_ex_mem_control_written(old(self)@, value),
    {
        self.global_ex_mem_control = value & 0xFF80;
        self.ds_slot.set_arm9_access(value & 0x800 == 0);
    }

    /// Writes the key interrupt control register of the ARM9.
    pub fn write_arm9_key_irq_control(&mut self, value: u16)
        ensures
            final(self)@ == (EmuView { arm9_key_irq_control: value, ..old(self)@ }),
    {
        self.arm9_key_irq_control = value;
    }
}

} // verus!

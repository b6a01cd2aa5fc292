//! The graphics side of the machine: video memory, the registers of the 2D engines, and
//! the registers of the display.

pub mod engine_2d;
pub mod vram;

use engine_2d::{Engine2d, Engine2dView, EngineA, EngineB};
use vram::{vram_wf, Vram, VramView};
use vstd::prelude::*;

verus! {

/// The state of the graphics side, as contracts see it.
pub struct GpuView {
    pub vram: VramView,
    pub engine_2d_a: Engine2dView,
    pub engine_2d_b: Engine2dView,
    /// The display status register of the ARM9.
    pub disp_status_9: u16,
    /// The line that the display draws.
    pub vcount: u16,
    /// The power control register.
    pub power_control: u16,
    /// The 3D engine's rendering control register.
    pub rendering_control: u16,
    /// Whether the geometry command queue meets the condition for its interrupt.
    pub gx_fifo_irq_requested: bool,
}

/// The graphics side of the machine.
pub struct Gpu {
    pub vram: Vram,
    pub engine_2d_a: Engine2d<EngineA>,
    pub engine_2d_b: Engine2d<EngineB>,
    pub disp_status_9: u16,
    pub vcount: u16,
    pub power_control: u16,
    pub rendering_control: u16,
    pub gx_fifo_irq_requested: bool,
}

impl View for Gpu {
    type V = GpuView;

    open spec fn view(&self) -> GpuView {
        GpuView {
            vram: self.vram@,
            engine_2d_a: self.engine_2d_a@,
            engine_2d_b: self.engine_2d_b@,
            disp_status_9: self.disp_status_9,
            vcount: self.vcount,
            power_control: self.power_control,
            rendering_control: self.rendering_control,
            gx_fifo_irq_requested: self.gx_fifo_irq_requested,
        }
    }
}

/// The graphics side is well-formed: video memory is.
pub open spec fn gpu_wf(v: GpuView) -> bool {
    vram_wf(v.vram)
}

/// The display status register after a write of `value`: the three status bits and bit 6
/// stay, the rest is taken over.
pub open spec fn disp_status_written(prev: u16, value: u16) -> u16 {
    (value & 0xFFB8) | (prev & 7)
}

/// The graphics side after a write of `value` to the power control register: the
/// register keeps the bits that it has, engine A is switched by bit 1 and uses the 3D
/// engine by bit 2, engine B is switched by bit 9, and bit 15 puts engine A on the upper
/// screen and engine B on the lower one.
pub open spec fn power_control_written(v: GpuView, value: u16) -> GpuView {
    GpuView {
        power_control: value & 0x820F,
        engine_2d_a: Engine2dView {
            is_enabled: value & 2 != 0,
            engine_3d_enabled: value & 4 != 0,
            is_on_lower_screen: value & 0x8000 == 0,
            ..v.engine_2d_a
        },
        engine_2d_b: Engine2dView {
            is_enabled: value & 0x200 != 0,
            engine_3d_enabled: false,
            is_on_lower_screen: value & 0x8000 != 0,
            ..v.engine_2d_b
        },
        ..v
    }
}

/// The graphics side at power-on: video memory with no bank mapped, both engines
/// switched off, and every register zero.
pub open spec fn initial_gpu() -> GpuView {
    GpuView {
        vram: vram::initial_vram(),
        engine_2d_a: engine_2d::switched_off_engine(true),
        engine_2d_b: engine_2d::switched_off_engine(false),
        disp_status_9: 0,
        vcount: 0,
        power_control: 0,
        rendering_control: 0,
        gx_fifo_irq_requested: false,
    }
}

impl Gpu {
    /// The graphics side at power-on.
    pub fn new() -> (gpu: Self)
        ensures
            gpu@ == initial_gpu(),
            gpu_wf(gpu@),
    {
        Gpu {
            vram: Vram::new(),
            engine_2d_a: Engine2d::new(),
            engine_2d_b: Engine2d::new(),
            disp_status_9: 0,
            vcount: 0,
            power_control: 0,
            rendering_control: 0,
            gx_fifo_irq_requested: false,
        }
    }

    /// Writes the display status register of the ARM9.
    pub fn write_disp_status_9(&mut self, value: u16)
        ensures
            final(self)@ == (GpuView {
                disp_status_9: disp_status_written(old(self)@.disp_status_9, value),
                ..old(self)@
            }),
    {
        self.disp_status_9 = (value & 0xFFB8) | (self.disp_status_9 & 7);
    }

    /// Sets the line that the display draws; its nine low bits are kept.
    pub fn write_vcount(&mut self, value: u16)
        ensures
            final(self)@ == (GpuView { vcount: value & 0x1FF, ..old(self)@ }),
    {
        self.vcount = value & 0x1FF;
    }

    /// Writes the 3D engine's rendering control register; the bits that it has are kept.
    pub fn write_rendering_control(&mut self, value: u16)
        ensures
            final(self)@ == (GpuView { rendering_control: value & 0x4FFF, ..old(self)@ }),
    {
        self.rendering_control = value & 0x4FFF;
    }

    /// Writes the power control register.
    pub fn write_power_control(&mut self, value: u16)
        ensures
            final(self)@ == power_control_written(old(self)@, value),
    {
        self.power_control = value & 0x820F;
        self.engine_2d_a.set_enabled(value & 2 != 0, value & 4 != 0);
        self.engine_2d_a.set_on_lower_screen(value & 0x8000 == 0);
        self.engine_2d_b.set_enabled(value & 0x200 != 0, false);
        self.engine_2d_b.set_on_lower_screen(value & 0x8000 != 0);
    }
}

} // verus!

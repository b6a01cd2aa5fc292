//! The interrupt controller of one CPU.

use super::schedule::{Schedule, Scheduler};
use super::schedule::SchedulerView;
use super::timers::{Index, Timestamp};
use vstd::prelude::*;

verus! {

/// A set of interrupt sources, one bit each.
#[derive(Clone, Copy, Debug, PartialEq, Eq)]
pub struct IrqFlags(pub u32);

/// The request bit of timer `i`.
pub open spec fn timer_irq_flag(i: u8) -> u32 {
    8u32 << i
}

/// What the timers need of an interrupt controller.
pub trait Irqs: Sized {
    type Schedule: Schedule;

    /// The sources whose request is pending.
    spec fn requested_flags(&self) -> u32;

    /// What holds of the controller between any two operations on it.
    spec fn wf(&self) -> bool;

    /// The controller once its pending requests are `requested`, with nothing else written
    /// to it.
    spec fn raised(&self, requested: u32) -> Self;

    /// A controller with its pending requests replaced has those requests and is
    /// well-formed; one that is well-formed and gets the requests that it has stays as it
    /// is.
    proof fn lemma_raised(&self, requested: u32)
        ensures
            self.raised(requested).requested_flags() == requested,
            self.raised(requested).wf(),
            self.wf() ==> self.raised(self.requested_flags()) == *self,
    ;

    /// Where requests are raised in two steps, only the requests after the second step
    /// count.
    proof fn lemma_raised_twice(&self, first: u32, second: u32)
        requires
            first | second == second,
        ensures
            self.raised(first).raised(second) == self.raised(second),
    ;

    /// Raises the request of timer `i`. The schedule keeps its clock and its queue; the
    /// target time may be lowered so that the CPU notices the request.
    fn request_timer(&mut self, i: Index, schedule: &mut Self::Schedule)
        ensures
            *final(self) == old(self).raised(old(self).requested_flags() | timer_irq_flag(i@)),
            final(schedule).now() == old(schedule).now(),
            final(schedule).queue() == old(schedule).queue(),
            final(schedule).target().0 <= old(schedule).target().0,
    ;
}

/// The request bit of the vertical blanking interrupt.
pub const IRQ_VBLANK: u32 = 1;

/// The request bit of the horizontal blanking interrupt.
pub const IRQ_HBLANK: u32 = 2;

/// The request bit of DMA channel 0; the other channels follow it.
pub const IRQ_DMA0: u32 = 0x100;

/// The request bit of the IPC sync interrupt.
pub const IRQ_IPC_SYNC: u32 = 0x1_0000;

/// The request bit of the interrupt for an emptied IPC send queue.
pub const IRQ_IPC_SEND_FIFO_EMPTY: u32 = 0x2_0000;

/// The request bit of the interrupt for an IPC receive queue that is no longer empty.
pub const IRQ_IPC_RECV_FIFO_NOT_EMPTY: u32 = 0x4_0000;

/// The request bit of the interrupt for a finished cartridge transfer.
pub const IRQ_DS_SLOT_TRANSFER_COMPLETE: u32 = 0x8_0000;

/// The request bit of the geometry command queue.
pub const IRQ_GX_FIFO: u32 = 0x20_0000;

/// The state of an interrupt controller, as contracts see it.
pub struct IrqsView {
    pub master_enable: bool,
    pub enabled: u32,
    pub requested: u32,
    pub enabled_in_cpsr: bool,
    pub halted: bool,
}

/// The CPU takes an interrupt: the master enable is set, a source is both enabled and
/// requested, and the CPU's status register does not mask interrupts.
pub open spec fn irq_triggered(v: IrqsView) -> bool {
    v.master_enable && v.enabled_in_cpsr && v.enabled & v.requested != 0
}

/// The controller after a change of its registers: a halted CPU wakes up as soon as a
/// source is both enabled and requested.
pub open spec fn woken(v: IrqsView) -> IrqsView {
    IrqsView { halted: v.halted && v.enabled & v.requested == 0, ..v }
}

/// The target time after a change of the controller's registers: it is brought down to
/// the current time when the CPU has to take an interrupt.
pub open spec fn target_after(v: IrqsView, now: Timestamp, target: Timestamp) -> Timestamp {
    if irq_triggered(v) && now.0 < target.0 {
        now
    } else {
        target
    }
}

/// The requests left after the CPU acknowledges those in `mask`. The request of the
/// geometry command queue stays while the queue still meets its trigger condition.
pub open spec fn acknowledged(requested: u32, mask: u32, gx_fifo_pending: bool) -> u32 {
    if gx_fifo_pending {
        requested & !(mask & !IRQ_GX_FIFO)
    } else {
        requested & !mask
    }
}

/// The interrupt controller of one CPU.
pub struct IrqController {
    master_enable: bool,
    enabled: IrqFlags,
    requested: IrqFlags,
    enabled_in_cpsr: bool,
    halted: bool,
}

impl View for IrqController {
    type V = IrqsView;

    closed spec fn view(&self) -> IrqsView {
        IrqsView {
            master_enable: self.master_enable,
            enabled: self.enabled.0,
            requested: self.requested.0,
            enabled_in_cpsr: self.enabled_in_cpsr,
            halted: self.halted,
        }
    }
}

impl IrqController {
    /// A controller with nothing enabled and nothing requested, for a CPU that masks
    /// interrupts and is not halted.
    pub fn new() -> (irqs: Self)
        ensures
            irqs@ == (IrqsView {
                master_enable: false,
                enabled: 0,
                requested: 0,
                enabled_in_cpsr: false,
                halted: false,
            }),
    {
        IrqController {
            master_enable: false,
            enabled: IrqFlags(0),
            requested: IrqFlags(0),
            enabled_in_cpsr: false,
            halted: false,
        }
    }

    pub fn master_enable(&self) -> (value: bool)
        ensures
            value == self@.master_enable,
    {
        self.master_enable
    }

    pub fn enabled(&self) -> (value: IrqFlags)
        ensures
            value.0 == self@.enabled,
    {
        self.enabled
    }

    pub fn requested(&self) -> (value: IrqFlags)
        ensures
            value.0 == self@.requested,
    {
        self.requested
    }

    pub fn enabled_in_cpsr(&self) -> (value: bool)
        ensures
            value == self@.enabled_in_cpsr,
    {
        self.enabled_in_cpsr
    }

    pub fn halted(&self) -> (value: bool)
        ensures
            value == self@.halted,
    {
        self.halted
    }

    /// Whether the CPU has to take an interrupt.
    pub fn triggered(&self) -> (value: bool)
        ensures
            value == irq_triggered(self@),
    {
        self.master_enable && self.enabled_in_cpsr && self.enabled.0 & self.requested.0 != 0
    }

    /// Wakes the CPU and shortens its run where the registers now call for it.
    fn update(&mut self, schedule: &mut Scheduler)
        ensures
            final(self)@ == woken(old(self)@),
            final(schedule)@ == (SchedulerView {
                target_time: target_after(
                    old(self)@,
                    old(schedule)@.cur_time,
                    old(schedule)@.target_time,
                ),
                ..old(schedule)@
            }),
    {
        if self.enabled.0 & self.requested.0 != 0 {
            self.halted = false;
        }
        if self.triggered() {
            let now = schedule.cur_time();
            schedule.set_target_time_before(now);
        }
    }

    pub fn write_master_enable(&mut self, value: bool, schedule: &mut Scheduler)
        ensures
            final(self)@ == woken(IrqsView { master_enable: value, ..old(self)@ }),
            final(schedule)@ == (SchedulerView {
                target_time: target_after(
                    final(self)@,
                    old(schedule)@.cur_time,
                    old(schedule)@.target_time,
                ),
                ..old(schedule)@
            }),
    {
        self.master_enable = value;
        self.update(schedule);
    }

    pub fn write_enabled(&mut self, value: IrqFlags, schedule: &mut Scheduler)
        ensures
            final(self)@ == woken(IrqsView { enabled: value.0, ..old(self)@ }),
            final(schedule)@ == (SchedulerView {
                target_time: target_after(
                    final(self)@,
                    old(schedule)@.cur_time,
                    old(schedule)@.target_time,
                ),
                ..old(schedule)@
            }),
    {
        self.enabled = value;
        self.update(schedule);
    }

    pub fn write_requested(&mut self, value: IrqFlags, schedule: &mut Scheduler)
        ensures
            final(self)@ == woken(IrqsView { requested: value.0, ..old(self)@ }),
            final(schedule)@ == (SchedulerView {
                target_time: target_after(
                    final(self)@,
                    old(schedule)@.cur_time,
                    old(schedule)@.target_time,
                ),
                ..old(schedule)@
            }),
    {
        self.requested = value;
        self.update(schedule);
    }

    /// Raises the requests in `flags`.
    pub fn request(&mut self, flags: IrqFlags, schedule: &mut Scheduler)
        ensures
            final(self)@ == woken(
                IrqsView { requested: old(self)@.requested | flags.0, ..old(self)@ },
            ),
            final(schedule)@ == (SchedulerView {
                target_time: target_after(
                    final(self)@,
                    old(schedule)@.cur_time,
                    old(schedule)@.target_time,
                ),
                ..old(schedule)@
            }),
    {
        self.requested = IrqFlags(self.requested.0 | flags.0);
        self.update(schedule);
    }

    /// Clears the requests in `mask`, as a write to the request register does. The
    /// request of the geometry command queue cannot be cleared while `gx_fifo_pending`.
    pub fn acknowledge(&mut self, mask: IrqFlags, gx_fifo_pending: bool, schedule: &mut Scheduler)
        ensures
            final(self)@ == woken(
                IrqsView {
                    requested: acknowledged(old(self)@.requested, mask.0, gx_fifo_pending),
                    ..old(self)@
                },
            ),
            final(schedule)@ == (SchedulerView {
                target_time: target_after(
                    final(self)@,
                    old(schedule)@.cur_time,
                    old(schedule)@.target_time,
                ),
                ..old(schedule)@
            }),
    {
        let mask = if gx_fifo_pending {
            mask.0 & !IRQ_GX_FIFO
        } else {
            mask.0
        };
        self.requested = IrqFlags(self.requested.0 & !mask);
        self.update(schedule);
    }

    /// Follows the interrupt mask bit of the CPU's status register.
    pub fn set_enabled_in_cpsr(&mut self, value: bool, schedule: &mut Scheduler)
        ensures
            final(self)@ == woken(IrqsView { enabled_in_cpsr: value, ..old(self)@ }),
            final(schedule)@ == (SchedulerView {
                target_time: target_after(
                    final(self)@,
                    old(schedule)@.cur_time,
                    old(schedule)@.target_time,
                ),
                ..old(schedule)@
            }),
    {
        self.enabled_in_cpsr = value;
        self.update(schedule);
    }

    /// Halts the CPU until a source is both enabled and requested; it stays awake if one
    /// already is.
    pub fn halt(&mut self)
        ensures
            final(self)@ == woken(IrqsView { halted: true, ..old(self)@ }),
    {
        self.halted = self.enabled.0 & self.requested.0 == 0;
    }
}

/// The controller is well-formed: the CPU is not halted while a source is both enabled and
/// requested.
pub open spec fn irqs_wf(v: IrqsView) -> bool {
    v.halted ==> v.enabled & v.requested == 0
}

impl IrqController {
    /// Two controllers with the same state are the same.
    pub proof fn lemma_view_injective(a: Self, b: Self)
        requires
            a@ == b@,
        ensures
            a == b,
    {
    }

    /// What `raised` means for the state of this controller.
    pub proof fn lemma_raised_view(&self, requested: u32)
        ensures
            self.raised(requested)@ == woken(IrqsView { requested, ..self@ }),
    {
    }
}

impl Irqs for IrqController {
    type Schedule = Scheduler;

    open spec fn requested_flags(&self) -> u32 {
        self@.requested
    }

    open spec fn wf(&self) -> bool {
        irqs_wf(self@)
    }

    closed spec fn raised(&self, requested: u32) -> Self {
        IrqController {
            requested: IrqFlags(requested),
            halted: self.halted && self.enabled.0 & requested == 0,
            ..*self
        }
    }

    proof fn lemma_raised(&self, requested: u32) {
    }

    proof fn lemma_raised_twice(&self, first: u32, second: u32) {
        crate::bits::lemma_bit_sets_grow(first, second, 0, self.enabled.0);
    }

    fn request_timer(&mut self, i: Index, schedule: &mut Scheduler) {
        self.request(IrqFlags(8u32 << i.get()), schedule);
    }
}

} // verus!

//! The DMA channels of a CPU: their registers, and which of them are ready to run.

use vstd::prelude::*;

verus! {

/// The number of a DMA channel: 0 to 3.
#[derive(Clone, Copy, Debug, PartialEq, Eq)]
pub struct Index {
    value: u8,
}

impl Index {
    #[verifier::type_invariant]
    spec fn in_range(self) -> bool {
        self.value <= 3
    }

    pub closed spec fn view(self) -> u8 {
        self.value
    }

    pub fn new(value: u8) -> (index: Self)
        requires
            value <= 3,
        ensures
            index@ == value,
    {
        Index { value }
    }

    pub fn get(self) -> (value: u8)
        ensures
            value == self@,
            value <= 3,
    {
        proof {
            use_type_invariant(self);
        }
        self.value
    }
}

/// The control register of a channel: the number of units in bits 0 to 20, the step of
/// the destination address in bits 21 and 22 and that of the source address in bits 23
/// and 24, the repeat bit 25, the unit size in bit 26, the start condition in bits 27 to
/// 29, the interrupt bit 30 and the enable bit 31.
#[derive(Clone, Copy, Debug, PartialEq, Eq)]
pub struct Control(pub u32);

/// The start condition that starts a transfer at once.
pub const TIMING_IMMEDIATE: u8 = 0;

/// The start condition of the vertical blanking period.
pub const TIMING_VBLANK: u8 = 1;

/// The start condition of the horizontal blanking period.
pub const TIMING_HBLANK: u8 = 2;

/// The start condition of data from the cartridge slot.
pub const TIMING_DS_SLOT: u8 = 5;

/// The start condition of a half empty geometry command queue.
pub const TIMING_GX_FIFO: u8 = 7;

impl Control {
    pub open spec fn spec_unit_count(self) -> u32 {
        if self.0 & 0x1F_FFFF == 0 {
            0x20_0000
        } else {
            self.0 & 0x1F_FFFF
        }
    }

    /// The number of units to transfer: 1 to 0x200000, which a count of zero stands for.
    #[verifier::when_used_as_spec(spec_unit_count)]
    pub fn unit_count(self) -> (count: u32)
        ensures
            count == self.spec_unit_count(),
            1 <= count <= 0x20_0000,
    {
        proof {
            crate::bits::lemma_and_le_u32(self.0, 0x1F_FFFF);
        }
        if self.0 & 0x1F_FFFF == 0 {
            0x20_0000
        } else {
            self.0 & 0x1F_FFFF
        }
    }

    pub open spec fn spec_dst_step(self) -> u8 {
        ((self.0 >> 21) & 3) as u8
    }

    /// How the destination address moves: 0 up, 1 down, 2 not at all, 3 up and back to
    /// the start when the transfer repeats.
    #[verifier::when_used_as_spec(spec_dst_step)]
    pub fn dst_step(self) -> (step: u8)
        ensures
            step == self.spec_dst_step(),
            step <= 3,
    {
        proof {
            crate::bits::lemma_and_le_u32(self.0 >> 21, 3);
        }
        ((self.0 >> 21) & 3) as u8
    }

    pub open spec fn spec_src_step(self) -> u8 {
        ((self.0 >> 23) & 3) as u8
    }

    /// How the source address moves: 0 up, 1 down, 2 and 3 not at all.
    #[verifier::when_used_as_spec(spec_src_step)]
    pub fn src_step(self) -> (step: u8)
        ensures
            step == self.spec_src_step(),
            step <= 3,
    {
        proof {
            crate::bits::lemma_and_le_u32(self.0 >> 23, 3);
        }
        ((self.0 >> 23) & 3) as u8
    }

    pub open spec fn spec_repeat(self) -> bool {
        self.0 & 0x200_0000 != 0
    }

    /// Whether the channel stays armed when a transfer is done.
    #[verifier::when_used_as_spec(spec_repeat)]
    pub fn repeat(self) -> (repeat: bool)
        ensures
            repeat == self.spec_repeat(),
    {
        self.0 & 0x200_0000 != 0
    }

    pub open spec fn spec_is_32_bit(self) -> bool {
        self.0 & 0x400_0000 != 0
    }

    /// Whether a unit is a word; else it is a halfword.
    #[verifier::when_used_as_spec(spec_is_32_bit)]
    pub fn is_32_bit(self) -> (wide: bool)
        ensures
            wide == self.spec_is_32_bit(),
    {
        self.0 & 0x400_0000 != 0
    }

    pub open spec fn spec_timing(self) -> u8 {
        ((self.0 >> 27) & 7) as u8
    }

    /// The start condition.
    #[verifier::when_used_as_spec(spec_timing)]
    pub fn timing(self) -> (timing: u8)
        ensures
            timing == self.spec_timing(),
            timing <= 7,
    {
        proof {
            crate::bits::lemma_and_le_u32(self.0 >> 27, 7);
        }
        ((self.0 >> 27) & 7) as u8
    }

    pub open spec fn spec_irq(self) -> bool {
        self.0 & 0x4000_0000 != 0
    }

    /// Whether the end of a transfer requests the channel's interrupt.
    #[verifier::when_used_as_spec(spec_irq)]
    pub fn irq(self) -> (irq: bool)
        ensures
            irq == self.spec_irq(),
    {
        self.0 & 0x4000_0000 != 0
    }

    pub open spec fn spec_enabled(self) -> bool {
        self.0 & 0x8000_0000 != 0
    }

    /// Whether the channel is armed.
    #[verifier::when_used_as_spec(spec_enabled)]
    pub fn enabled(self) -> (enabled: bool)
        ensures
            enabled == self.spec_enabled(),
    {
        self.0 & 0x8000_0000 != 0
    }
}

/// A DMA channel: its three registers, and where a transfer that is under way stands.
#[derive(Clone, Copy, Debug, PartialEq, Eq)]
pub struct Channel {
    pub src_addr: u32,
    pub dst_addr: u32,
    pub control: Control,
    /// The address that the next unit is read from.
    pub cur_src: u32,
    /// The address that the next unit is written to.
    pub cur_dst: u32,
    /// The number of units that are left to transfer.
    pub remaining: u32,
}

/// A channel after the CPU writes `value` to its control register. A channel that gets
/// armed takes its addresses and its unit count from its registers.
pub open spec fn control_written(channel: Channel, value: Control) -> Channel {
    if !channel.control.enabled() && value.enabled() {
        Channel {
            control: value,
            cur_src: channel.src_addr,
            cur_dst: channel.dst_addr,
            remaining: value.unit_count(),
            ..channel
        }
    } else {
        Channel { control: value, ..channel }
    }
}

/// The channels that are ready to run after a write of `value` to the control register of
/// channel `i`: the channel is ready if it gets armed with the immediate start condition,
/// and no longer ready if it is disarmed.
pub open spec fn running_after_write(running: u8, channel: Channel, i: u8, value: Control) -> u8 {
    if !value.enabled() {
        running & !(1u8 << i)
    } else if !channel.control.enabled() && value.timing() == TIMING_IMMEDIATE {
        running | (1u8 << i)
    } else {
        running
    }
}

/// The lowest channel in a set of channels.
pub open spec fn first_channel(running: u8) -> Option<u8> {
    if running & 1 != 0 {
        Some(0u8)
    } else if running & 2 != 0 {
        Some(1u8)
    } else if running & 4 != 0 {
        Some(2u8)
    } else if running & 8 != 0 {
        Some(3u8)
    } else {
        None
    }
}

/// The channels that are ready after the start condition `timing` occurs: those that are
/// armed with it join the ones that were ready.
pub open spec fn triggered(channels: Seq<Channel>, running: u8, timing: u8, n: int) -> u8
    decreases n,
{
    if n <= 0 {
        running
    } else {
        let before = triggered(channels, running, timing, n - 1);
        if channels[n - 1].control.enabled() && channels[n - 1].control.timing() == timing {
            before | (1u8 << ((n - 1) as u8))
        } else {
            before
        }
    }
}

/// The four DMA channels of a CPU.
#[derive(Clone, Copy, Debug, PartialEq, Eq)]
pub struct Dma {
    pub channels: [Channel; 4],
    /// The channels that are ready to run, one bit each.
    pub running: u8,
}

/// The state of the DMA channels, as contracts see it.
pub struct DmaView {
    pub channels: Seq<Channel>,
    /// The channels that are ready to run, one bit each.
    pub running: u8,
}

impl View for Dma {
    type V = DmaView;

    open spec fn view(&self) -> DmaView {
        DmaView { channels: self.channels@, running: self.running }
    }
}

/// The channels at power-on: every register zero, no channel ready.
pub open spec fn initial_dma() -> DmaView {
    DmaView {
        channels: Seq::new(
            4,
            |i: int|
                Channel {
                    src_addr: 0,
                    dst_addr: 0,
                    control: Control(0),
                    cur_src: 0,
                    cur_dst: 0,
                    remaining: 0,
                },
        ),
        running: 0,
    }
}

/// The channels with channel `i` replaced.
pub open spec fn with_channel(v: DmaView, i: int, channel: Channel) -> DmaView {
    DmaView { channels: v.channels.update(i, channel), ..v }
}

/// The channels after a write of `value` to the source address of channel `i`.
pub open spec fn src_addr_written(v: DmaView, i: int, value: u32) -> DmaView {
    with_channel(v, i, Channel { src_addr: value & 0x0FFF_FFFF, ..v.channels[i] })
}

/// The channels after a write of `value` to the destination address of channel `i`.
pub open spec fn dst_addr_written(v: DmaView, i: int, value: u32) -> DmaView {
    with_channel(v, i, Channel { dst_addr: value & 0x0FFF_FFFF, ..v.channels[i] })
}

/// The channels after a write of `value` to the lower half of the control register of
/// channel `i`.
pub open spec fn control_low_written(v: DmaView, i: int, value: u16) -> DmaView {
    with_channel(
        v,
        i,
        Channel {
            control: Control((v.channels[i].control.0 & 0xFFFF_0000) | (value as u32)),
            ..v.channels[i]
        },
    )
}

/// The channels after a write of `value` to the control register of channel `i`.
pub open spec fn channel_control_written(v: DmaView, i: int, value: Control) -> DmaView {
    DmaView {
        channels: v.channels.update(i, control_written(v.channels[i], value)),
        running: running_after_write(v.running, v.channels[i], i as u8, value),
    }
}

impl Dma {
    /// Four channels with every register zero.
    pub fn new() -> (dma: Self)
        ensures
            dma@ == initial_dma(),
    {
        let dma = Dma {
            channels: [
                Channel {
                    src_addr: 0,
                    dst_addr: 0,
                    control: Control(0),
                    cur_src: 0,
                    cur_dst: 0,
                    remaining: 0,
                }; 4
            ],
            running: 0,
        };
        assert(dma@.channels =~= initial_dma().channels);
        dma
    }

    /// Writes the source address of a channel; its 28 low bits are kept.
    pub fn write_src_addr(&mut self, i: Index, value: u32)
        ensures
            final(self)@ == src_addr_written(old(self)@, i@ as int, value),
    {
        self.channels[i.get() as usize].src_addr = value & 0x0FFF_FFFF;
    }

    /// Writes the destination address of a channel; its 28 low bits are kept.
    pub fn write_dst_addr(&mut self, i: Index, value: u32)
        ensures
            final(self)@ == dst_addr_written(old(self)@, i@ as int, value),
    {
        self.channels[i.get() as usize].dst_addr = value & 0x0FFF_FFFF;
    }

    /// Writes the lower half of the control register of a channel: its unit count.
    pub fn write_control_low(&mut self, i: Index, value: u16)
        ensures
            final(self)@ == control_low_written(old(self)@, i@ as int, value),
    {
        let idx = i.get() as usize;
        self.channels[idx].control = Control(
            (self.channels[idx].control.0 & 0xFFFF_0000) | (value as u32),
        );
    }

    /// Writes the control register of a channel.
    pub fn write_control(&mut self, i: Index, value: Control)
        ensures
            final(self)@ == channel_control_written(old(self)@, i@ as int, value),
    {
        let idx = i.get() as usize;
        let prev = self.channels[idx].control;
        self.channels[idx].control = value;
        if !value.enabled() {
            self.running = self.running & !(1u8 << i.get());
        } else if !prev.enabled() {
            self.channels[idx].cur_src = self.channels[idx].src_addr;
            self.channels[idx].cur_dst = self.channels[idx].dst_addr;
            self.channels[idx].remaining = value.unit_count();
            if value.timing() == TIMING_IMMEDIATE {
                self.running = self.running | (1u8 << i.get());
            }
        }
        proof {
            assert(self@.channels =~= channel_control_written(
                old(self)@,
                i@ as int,
                value,
            ).channels);
        }
    }

    /// The channel that runs next: the lowest of those that are ready.
    pub fn cur_channel(&self) -> (channel: Option<Index>)
        ensures
            match channel {
                Some(i) => first_channel(self.running) == Some(i@),
                None => first_channel(self.running) is None,
            },
    {
        if self.running & 1 != 0 {
            Some(Index::new(0))
        } else if self.running & 2 != 0 {
            Some(Index::new(1))
        } else if self.running & 4 != 0 {
            Some(Index::new(2))
        } else if self.running & 8 != 0 {
            Some(Index::new(3))
        } else {
            None
        }
    }

    /// A start condition occurs: the channels that are armed with it get ready.
    pub fn trigger(&mut self, timing: u8)
        ensures
            final(self).channels == old(self).channels,
            final(self).running == triggered(old(self).channels@, old(self).running, timing, 4),
    {
        let mut n: u8 = 0;
        while n < 4
            invariant
                n <= 4,
                self.channels == old(self).channels,
                self.running == triggered(old(self).channels@, old(self).running, timing, n as int),
            decreases 4 - n,
        {
            let control = self.channels[n as usize].control;
            if control.enabled() && control.timing() == timing {
                self.running = self.running | (1u8 << n);
            }
            n += 1;
        }
    }
}

} // verus!

//! Communication between the two CPUs: a sync register and a queue of sixteen words in
//! each direction.

use crate::cpu::irqs::{
    woken, IrqController, IrqFlags, IrqsView, IRQ_IPC_RECV_FIFO_NOT_EMPTY,
    IRQ_IPC_SEND_FIFO_EMPTY, IRQ_IPC_SYNC,
};
use crate::cpu::schedule::Scheduler;
use vstd::prelude::*;

verus! {

/// The number of words that a queue holds.
pub const FIFO_LEN: usize = 16;

/// A sync register: the nibble received from the other CPU in bits 0 to 3, the nibble sent
/// to it in bits 8 to 11, the request for its sync interrupt in bit 13, and the enable bit
/// of the own sync interrupt in bit 14.
#[derive(Clone, Copy, Debug, PartialEq, Eq)]
pub struct Sync(pub u16);

/// A queue control register: bit 0 the own send queue is empty, bit 1 it is full, bit 2
/// the interrupt for an emptied send queue is enabled, bit 3 clears the send queue, bit 8
/// the receive queue is empty, bit 9 it is full, bit 10 the interrupt for a receive queue
/// that is no longer empty is enabled, bit 14 an error occurred, bit 15 the queues are
/// enabled.
#[derive(Clone, Copy, Debug, PartialEq, Eq)]
pub struct FifoControl(pub u16);

/// The state of the IPC unit, as contracts see it. Index 0 stands for the ARM7, index 1
/// for the ARM9.
pub struct IpcView {
    /// What each CPU wrote to its sync register: the sent nibble and the interrupt enable.
    pub sync: Seq<u16>,
    /// The bits of each CPU's queue control register that it can set: the two interrupt
    /// enable bits, the error bit and the enable bit.
    pub control: Seq<u16>,
    /// The words that each CPU sent and the other one did not receive yet, oldest first.
    pub queues: Seq<Seq<u32>>,
    /// The word that each CPU received last.
    pub last_received: Seq<u32>,
}

/// Every part of the IPC unit has its size, and no queue holds more than sixteen words.
pub open spec fn ipc_wf(v: IpcView) -> bool {
    &&& v.sync.len() == 2
    &&& v.control.len() == 2
    &&& v.queues.len() == 2
    &&& v.last_received.len() == 2
    &&& v.queues[0].len() <= 16
    &&& v.queues[1].len() <= 16
}

/// The sync register as CPU `cpu` reads it: what it wrote, and the nibble that the other
/// CPU sends.
pub open spec fn sync_read(v: IpcView, cpu: int) -> u16 {
    (v.sync[cpu] & 0x4F00) | ((v.sync[1 - cpu] >> 8) & 0xF)
}

/// The queue control register as CPU `cpu` reads it.
pub open spec fn fifo_control_read(v: IpcView, cpu: int) -> u16 {
    let send = v.queues[cpu];
    let recv = v.queues[1 - cpu];
    (v.control[cpu] & 0xC404) | (if send.len() == 0 {
        1u16
    } else {
        0u16
    }) | (if send.len() == 16 {
        2u16
    } else {
        0u16
    }) | (if recv.len() == 0 {
        0x100u16
    } else {
        0u16
    }) | (if recv.len() == 16 {
        0x200u16
    } else {
        0u16
    })
}

/// The IPC unit after CPU `cpu` sends `value`: nothing while its queues are disabled; an
/// error if its send queue is full; else the word is queued.
pub open spec fn sent(v: IpcView, cpu: int, value: u32) -> IpcView {
    if v.control[cpu] & 0x8000 == 0 {
        v
    } else if v.queues[cpu].len() == 16 {
        IpcView { control: v.control.update(cpu, v.control[cpu] | 0x4000), ..v }
    } else {
        IpcView { queues: v.queues.update(cpu, v.queues[cpu].push(value)), ..v }
    }
}

/// Whether a send by CPU `cpu` requests the other CPU's interrupt for a receive queue that
/// is no longer empty: the word went into an empty queue, and the other CPU enabled the
/// interrupt.
pub open spec fn send_requests_irq(v: IpcView, cpu: int) -> bool {
    v.control[cpu] & 0x8000 != 0 && v.queues[cpu].len() == 0 && v.control[1 - cpu] & 0x400 != 0
}

/// The word that CPU `cpu` receives: the oldest one in the other CPU's queue, or the word
/// that it received last if the queue is empty or its queues are disabled.
pub open spec fn received_value(v: IpcView, cpu: int) -> u32 {
    if v.control[cpu] & 0x8000 != 0 && v.queues[1 - cpu].len() > 0 {
        v.queues[1 - cpu][0]
    } else {
        v.last_received[cpu]
    }
}

/// The IPC unit after CPU `cpu` receives a word: nothing while its queues are disabled; an
/// error if the other CPU's queue is empty; else the oldest word leaves the queue.
pub open spec fn received(v: IpcView, cpu: int) -> IpcView {
    if v.control[cpu] & 0x8000 == 0 {
        v
    } else if v.queues[1 - cpu].len() == 0 {
        IpcView { control: v.control.update(cpu, v.control[cpu] | 0x4000), ..v }
    } else {
        IpcView {
            queues: v.queues.update(1 - cpu, v.queues[1 - cpu].drop_first()),
            last_received: v.last_received.update(cpu, v.queues[1 - cpu][0]),
            ..v
        }
    }
}

/// Whether a receive by CPU `cpu` requests the other CPU's send interrupt: the word left
/// a full queue, and the other CPU enabled the interrupt.
pub open spec fn receive_requests_irq(v: IpcView, cpu: int) -> bool {
    v.control[cpu] & 0x8000 != 0 && v.queues[1 - cpu].len() == 16 && v.control[1 - cpu] & 4 != 0
}

/// The IPC unit after CPU `cpu` writes `value` to its queue control register: the
/// interrupt enable bits and the enable bit are taken over, the error bit is cleared by a
/// one, and bit 3 empties the send queue.
pub open spec fn fifo_control_written(v: IpcView, cpu: int, value: u16) -> IpcView {
    let error = v.control[cpu] & 0x4000 & !value;
    IpcView {
        control: v.control.update(cpu, (value & 0x8404) | error),
        queues: if value & 8 != 0 {
            v.queues.update(cpu, Seq::empty())
        } else {
            v.queues
        },
        ..v
    }
}

/// The interrupts that a write of `value` to the queue control register of CPU `cpu`
/// requests of it: the one for an empty send queue when it is newly enabled and the queue
/// is empty, the one for a receive queue that is not empty when it is newly enabled and
/// the queue is not empty.
pub open spec fn fifo_control_write_requests(v: IpcView, cpu: int, value: u16) -> u32 {
    let after = fifo_control_written(v, cpu, value);
    (if value & 4 != 0 && v.control[cpu] & 4 == 0 && after.queues[cpu].len() == 0 {
        IRQ_IPC_SEND_FIFO_EMPTY
    } else {
        0u32
    }) | (if value & 0x400 != 0 && v.control[cpu] & 0x400 == 0 && after.queues[1 - cpu].len() > 0 {
        IRQ_IPC_RECV_FIFO_NOT_EMPTY
    } else {
        0u32
    })
}

/// Whether a write of `value` to the sync register of CPU `cpu` requests the other CPU's
/// sync interrupt: the write asks for it, and the other CPU enabled it.
pub open spec fn sync_write_requests_irq(v: IpcView, cpu: int, value: u16) -> bool {
    value & 0x2000 != 0 && v.sync[1 - cpu] & 0x4000 != 0
}

/// A queue of up to sixteen words, kept in a ring.
pub struct Fifo {
    buffer: [u32; 16],
    read_pos: usize,
    len: usize,
}

impl Fifo {
    #[verifier::type_invariant]
    spec fn in_range(&self) -> bool {
        self.read_pos < 16 && self.len <= 16
    }

    /// The words in the queue, oldest first.
    pub closed spec fn view(&self) -> Seq<u32> {
        Seq::new(self.len as nat, |i: int| self.buffer[(self.read_pos + i) % 16])
    }

    /// An empty queue.
    pub fn new() -> (fifo: Self)
        ensures
            fifo@ == Seq::<u32>::empty(),
    {
        let fifo = Fifo { buffer: [0; 16], read_pos: 0, len: 0 };
        assert(fifo@ =~= Seq::<u32>::empty());
        fifo
    }

    /// The number of words in the queue.
    pub fn len(&self) -> (len: usize)
        ensures
            len == self@.len(),
            len <= 16,
    {
        proof {
            use_type_invariant(self);
        }
        self.len
    }

    /// The oldest word.
    pub fn front(&self) -> (value: u32)
        requires
            self@.len() > 0,
        ensures
            value == self@[0],
    {
        proof {
            use_type_invariant(self);
        }
        self.buffer[self.read_pos]
    }

    /// Adds a word at the end.
    pub fn push(&mut self, value: u32)
        requires
            old(self)@.len() < 16,
        ensures
            final(self)@ == old(self)@.push(value),
    {
        proof {
            use_type_invariant(&*self);
        }
        let pos = (self.read_pos + self.len) % 16;
        self.buffer[pos] = value;
        self.len = self.len + 1;
        proof {
            assert forall|i: int| 0 <= i < self.len implies self@[i] == old(self)@.push(value)[i] by {
                if i < self.len - 1 {
                    assert((self.read_pos + i) % 16 != pos as int);
                }
            }
            assert(self@ =~= old(self)@.push(value));
        }
    }

    /// Takes the oldest word out.
    pub fn pop(&mut self) -> (value: u32)
        requires
            old(self)@.len() > 0,
        ensures
            value == old(self)@[0],
            final(self)@ == old(self)@.drop_first(),
    {
        proof {
            use_type_invariant(&*self);
        }
        let value = self.buffer[self.read_pos];
        let next = (self.read_pos + 1) % 16;
        *self = Fifo { buffer: self.buffer, read_pos: next, len: self.len - 1 };
        proof {
            assert forall|i: int| 0 <= i < self.len implies self@[i] == old(self)@.drop_first()[i] by {
                assert((next + i) % 16 == (old(self).read_pos + (i + 1)) % 16);
            }
            assert(self@ =~= old(self)@.drop_first());
        }
        value
    }

    /// Empties the queue.
    pub fn clear(&mut self)
        ensures
            final(self)@ == Seq::<u32>::empty(),
    {
        proof {
            use_type_invariant(&*self);
        }
        self.len = 0;
        assert(self@ =~= Seq::<u32>::empty());
    }
}

/// The IPC unit.
pub struct Ipc {
    sync: [Sync; 2],
    control: [FifoControl; 2],
    queues: [Fifo; 2],
    last_received: [u32; 2],
}

impl View for Ipc {
    type V = IpcView;

    closed spec fn view(&self) -> IpcView {
        IpcView {
            sync: Seq::new(2, |i: int| self.sync[i].0),
            control: Seq::new(2, |i: int| self.control[i].0),
            queues: Seq::new(2, |i: int| self.queues[i]@),
            last_received: self.last_received@,
        }
    }
}

/// The unit at power-on: both queues empty and switched off, every register zero.
pub open spec fn initial_ipc() -> IpcView {
    IpcView {
        sync: seq![0u16, 0u16],
        control: seq![0u16, 0u16],
        queues: seq![Seq::<u32>::empty(), Seq::<u32>::empty()],
        last_received: seq![0u32, 0u32],
    }
}

impl Ipc {
    /// The unit at power-on: every register zero, both queues empty and disabled.
    pub fn new() -> (ipc: Self)
        ensures
            ipc@ == initial_ipc(),
            ipc_wf(ipc@),
    {
        let ipc = Ipc {
            sync: [Sync(0); 2],
            control: [FifoControl(0); 2],
            queues: [Fifo::new(), Fifo::new()],
            last_received: [0; 2],
        };
        assert(ipc@.sync =~= seq![0u16, 0u16]);
        assert(ipc@.control =~= seq![0u16, 0u16]);
        assert(ipc@.queues =~= seq![Seq::<u32>::empty(), Seq::<u32>::empty()]);
        assert(ipc@.last_received =~= seq![0u32, 0u32]);
        ipc
    }

    /// The unit is well-formed whatever was done to it.
    pub(crate) fn check_wf(&self)
        ensures
            ipc_wf(self@),
    {
        let a = self.queues[0].len();
        let b = self.queues[1].len();
    }

    /// The sync register of CPU `cpu` as it reads it.
    pub fn sync(&self, cpu: usize) -> (value: Sync)
        requires
            cpu < 2,
        ensures
            value.0 == sync_read(self@, cpu as int),
    {
        Sync((self.sync[cpu].0 & 0x4F00) | ((self.sync[1 - cpu].0 >> 8) & 0xF))
    }

    /// Writes the sync register of CPU `cpu`. `irqs` and `schedule` are those of the
    /// other CPU, which gets a sync interrupt if the write asks for it and it enabled it.
    pub fn write_sync(
        &mut self,
        cpu: usize,
        value: Sync,
        irqs: &mut IrqController,
        schedule: &mut Scheduler,
    )
        requires
            cpu < 2,
        ensures
            final(self)@ == (IpcView {
                sync: old(self)@.sync.update(cpu as int, value.0 & 0x4F00),
                ..old(self)@
            }),
            final(irqs)@ == (if sync_write_requests_irq(old(self)@, cpu as int, value.0) {
                woken(
                    IrqsView { requested: old(irqs)@.requested | IRQ_IPC_SYNC, ..old(irqs)@ },
                )
            } else {
                old(irqs)@
            }),
            final(schedule)@.cur_time == old(schedule)@.cur_time,
            final(schedule)@.times == old(schedule)@.times,
            final(schedule)@.target_time.0 <= old(schedule)@.target_time.0,
    {
        self.sync[cpu] = Sync(value.0 & 0x4F00);
        if value.0 & 0x2000 != 0 && self.sync[1 - cpu].0 & 0x4000 != 0 {
            irqs.request(IrqFlags(IRQ_IPC_SYNC), schedule);
        }
        proof {
            assert(self@.sync =~= old(self)@.sync.update(cpu as int, value.0 & 0x4F00));
            assert(self@.control =~= old(self)@.control);
            assert(self@.queues =~= old(self)@.queues);
        }
    }

    /// The queue control register of CPU `cpu` as it reads it.
    pub fn fifo_control(&self, cpu: usize) -> (value: FifoControl)
        requires
            cpu < 2,
        ensures
            value.0 == fifo_control_read(self@, cpu as int),
    {
        let send_len = self.queues[cpu].len();
        let recv_len = self.queues[1 - cpu].len();
        FifoControl(
            (self.control[cpu].0 & 0xC404) | (if send_len == 0 {
                1u16
            } else {
                0u16
            }) | (if send_len == 16 {
                2u16
            } else {
                0u16
            }) | (if recv_len == 0 {
                0x100u16
            } else {
                0u16
            }) | (if recv_len == 16 {
                0x200u16
            } else {
                0u16
            }),
        )
    }

    /// Writes the queue control register of CPU `cpu`. `irqs` and `schedule` are its own.
    pub fn write_fifo_control(
        &mut self,
        cpu: usize,
        value: FifoControl,
        irqs: &mut IrqController,
        schedule: &mut Scheduler,
    )
        requires
            cpu < 2,
        ensures
            final(self)@ == fifo_control_written(old(self)@, cpu as int, value.0),
            final(irqs)@ == (if fifo_control_write_requests(old(self)@, cpu as int, value.0) != 0 {
                woken(
                    IrqsView {
                        requested: old(irqs)@.requested | fifo_control_write_requests(
                            old(self)@,
                            cpu as int,
                            value.0,
                        ),
                        ..old(irqs)@
                    },
                )
            } else {
                old(irqs)@
            }),
            final(schedule)@.cur_time == old(schedule)@.cur_time,
            final(schedule)@.times == old(schedule)@.times,
            final(schedule)@.target_time.0 <= old(schedule)@.target_time.0,
    {
        let prev = self.control[cpu].0;
        let error = prev & 0x4000 & !value.0;
        self.control[cpu] = FifoControl((value.0 & 0x8404) | error);
        if value.0 & 8 != 0 {
            self.queues[cpu].clear();
        }
        proof {
            assert(self@.sync =~= old(self)@.sync);
            assert(self@.control =~= fifo_control_written(old(self)@, cpu as int, value.0).control);
            assert(self@.queues =~= fifo_control_written(old(self)@, cpu as int, value.0).queues);
        }
        let send_irq: u32 = if value.0 & 4 != 0 && prev & 4 == 0 && self.queues[cpu].len() == 0 {
            IRQ_IPC_SEND_FIFO_EMPTY
        } else {
            0
        };
        let recv_irq: u32 = if value.0 & 0x400 != 0 && prev & 0x400 == 0 && self.queues[1
            - cpu].len() > 0 {
            IRQ_IPC_RECV_FIFO_NOT_EMPTY
        } else {
            0
        };
        if send_irq | recv_irq != 0 {
            irqs.request(IrqFlags(send_irq | recv_irq), schedule);
        }
    }

    /// Sends a word from CPU `cpu` to the other one, whose `irqs` and `schedule` these
    /// are: it gets an interrupt if the word went into an empty queue and it enabled the
    /// interrupt.
    pub fn send(&mut self, cpu: usize, value: u32, irqs: &mut IrqController, schedule: &mut Scheduler)
        requires
            cpu < 2,
        ensures
            final(self)@ == sent(old(self)@, cpu as int, value),
            final(irqs)@ == (if send_requests_irq(old(self)@, cpu as int) {
                woken(
                    IrqsView {
                        requested: old(irqs)@.requested | IRQ_IPC_RECV_FIFO_NOT_EMPTY,
                        ..old(irqs)@
                    },
                )
            } else {
                old(irqs)@
            }),
            final(schedule)@.cur_time == old(schedule)@.cur_time,
            final(schedule)@.times == old(schedule)@.times,
            final(schedule)@.target_time.0 <= old(schedule)@.target_time.0,
    {
        if self.control[cpu].0 & 0x8000 == 0 {
            return ;
        }
        let len = self.queues[cpu].len();
        if len == 16 {
            self.control[cpu] = FifoControl(self.control[cpu].0 | 0x4000);
            proof {
                assert(self@.control =~= sent(old(self)@, cpu as int, value).control);
                assert(self@.queues =~= old(self)@.queues);
                assert(self@.sync =~= old(self)@.sync);
            }
            return ;
        }
        self.queues[cpu].push(value);
        proof {
            assert(self@.queues =~= sent(old(self)@, cpu as int, value).queues);
            assert(self@.control =~= old(self)@.control);
            assert(self@.sync =~= old(self)@.sync);
        }
        if len == 0 && self.control[1 - cpu].0 & 0x400 != 0 {
            irqs.request(IrqFlags(IRQ_IPC_RECV_FIFO_NOT_EMPTY), schedule);
        }
    }

    /// The word that CPU `cpu` would receive, without receiving it.
    pub fn peek(&self, cpu: usize) -> (value: u32)
        requires
            cpu < 2,
        ensures
            value == received_value(self@, cpu as int),
    {
        if self.control[cpu].0 & 0x8000 != 0 && self.queues[1 - cpu].len() > 0 {
            self.queues[1 - cpu].front()
        } else {
            self.last_received[cpu]
        }
    }

    /// Receives a word for CPU `cpu` from the other one, whose `irqs` and `schedule`
    /// these are: it gets an interrupt if the word left a full queue and it enabled the
    /// interrupt.
    pub fn recv(&mut self, cpu: usize, irqs: &mut IrqController, schedule: &mut Scheduler) -> (value:
        u32)
        requires
            cpu < 2,
        ensures
            value == received_value(old(self)@, cpu as int),
            final(self)@ == received(old(self)@, cpu as int),
            final(irqs)@ == (if receive_requests_irq(old(self)@, cpu as int) {
                woken(
                    IrqsView {
                        requested: old(irqs)@.requested | IRQ_IPC_SEND_FIFO_EMPTY,
                        ..old(irqs)@
                    },
                )
            } else {
                old(irqs)@
            }),
            final(schedule)@.cur_time == old(schedule)@.cur_time,
            final(schedule)@.times == old(schedule)@.times,
            final(schedule)@.target_time.0 <= old(schedule)@.target_time.0,
    {
        if self.control[cpu].0 & 0x8000 == 0 {
            return self.last_received[cpu];
        }
        let len = self.queues[1 - cpu].len();
        if len == 0 {
            self.control[cpu] = FifoControl(self.control[cpu].0 | 0x4000);
            proof {
                assert(self@.control =~= received(old(self)@, cpu as int).control);
                assert(self@.queues =~= old(self)@.queues);
                assert(self@.sync =~= old(self)@.sync);
            }
            return self.last_received[cpu];
        }
        let value = self.queues[1 - cpu].pop();
        self.last_received[cpu] = value;
        proof {
            assert(self@.queues =~= received(old(self)@, cpu as int).queues);
            assert(self@.control =~= old(self)@.control);
            assert(self@.sync =~= old(self)@.sync);
        }
        if len == 16 && self.control[1 - cpu].0 & 4 != 0 {
            irqs.request(IrqFlags(IRQ_IPC_SEND_FIFO_EMPTY), schedule);
        }
        value
    }
}

/// A word that is sent through an empty queue and received at once comes out as it went
/// in, and the queue is empty again; the send requests the receiver's interrupt exactly if
/// the receiver enabled it, and a send into a queue that is not empty requests none.
pub proof fn lemma_round_trip(v: IpcView, cpu: int, value: u32)
    requires
        ipc_wf(v),
        0 <= cpu < 2,
        v.control[0] & 0x8000 != 0,
        v.control[1] & 0x8000 != 0,
    ensures
        v.queues[cpu].len() == 0 ==> received_value(sent(v, cpu, value), 1 - cpu) == value,
        v.queues[cpu].len() == 0 ==> received(sent(v, cpu, value), 1 - cpu).queues[cpu].len() == 0,
        v.queues[cpu].len() == 0 ==> (send_requests_irq(v, cpu) <==> v.control[1 - cpu] & 0x400
            != 0),
        v.queues[cpu].len() > 0 ==> !send_requests_irq(v, cpu),
        0 < v.queues[cpu].len() < 16 ==> received_value(sent(v, cpu, value), 1 - cpu)
            == v.queues[cpu][0],
{
}

} // verus!

use dust_core::cpu::irqs::{IrqController, IrqFlags, IRQ_IPC_RECV_FIFO_NOT_EMPTY, IRQ_IPC_SYNC};
use dust_core::cpu::schedule::Scheduler;
use dust_core::ipc::{FifoControl, Ipc, Sync};

#[test]
fn word_goes_round_and_empty_read_repeats_it() {
    let mut ipc = Ipc::new();
    let mut irqs7 = IrqController::new();
    let mut irqs9 = IrqController::new();
    let mut sched7 = Scheduler::new();
    let mut sched9 = Scheduler::new();
    ipc.write_fifo_control(1, FifoControl(0x8000), &mut irqs9, &mut sched9);
    ipc.write_fifo_control(0, FifoControl(0x8400), &mut irqs7, &mut sched7);
    assert_eq!(irqs7.requested(), IrqFlags(0));
    ipc.send(1, 0x1122_3344, &mut irqs7, &mut sched7);
    assert_eq!(irqs7.requested(), IrqFlags(IRQ_IPC_RECV_FIFO_NOT_EMPTY));
    irqs7.acknowledge(IrqFlags(IRQ_IPC_RECV_FIFO_NOT_EMPTY), false, &mut sched7);
    ipc.send(1, 0x5566_7788, &mut irqs7, &mut sched7);
    // The queue was not empty: no interrupt.
    assert_eq!(irqs7.requested(), IrqFlags(0));
    assert_eq!(ipc.fifo_control(0).0 & 0x0300, 0);
    assert_eq!(ipc.peek(0), 0x1122_3344);
    assert_eq!(ipc.recv(0, &mut irqs9, &mut sched9), 0x1122_3344);
    assert_eq!(ipc.recv(0, &mut irqs9, &mut sched9), 0x5566_7788);
    assert_eq!(ipc.fifo_control(0).0 & 0x4000, 0);
    assert_eq!(ipc.recv(0, &mut irqs9, &mut sched9), 0x5566_7788);
    assert_eq!(ipc.fifo_control(0).0 & 0x4100, 0x4100);
}

#[test]
fn full_queue_sets_error_and_sync_nibble_crosses() {
    let mut ipc = Ipc::new();
    let mut irqs7 = IrqController::new();
    let mut sched7 = Scheduler::new();
    let mut irqs9 = IrqController::new();
    let mut sched9 = Scheduler::new();
    ipc.write_fifo_control(1, FifoControl(0x8000), &mut irqs9, &mut sched9);
    for i in 0..16 {
        ipc.send(1, i, &mut irqs7, &mut sched7);
    }
    assert_eq!(ipc.fifo_control(1).0 & 0x4003, 0x0002);
    ipc.send(1, 99, &mut irqs7, &mut sched7);
    assert_eq!(ipc.fifo_control(1).0 & 0x4003, 0x4002);
    ipc.write_fifo_control(1, FifoControl(0xC008), &mut irqs9, &mut sched9);
    assert_eq!(ipc.fifo_control(1).0 & 0x4003, 0x0001);
    ipc.write_sync(0, Sync(0x4000), &mut irqs9, &mut sched9);
    ipc.write_sync(1, Sync(0x2A00), &mut irqs7, &mut sched7);
    assert_eq!(ipc.sync(0).0, 0x400A);
    assert_eq!(ipc.sync(1).0, 0x0A00);
    assert_eq!(irqs7.requested(), IrqFlags(IRQ_IPC_SYNC));
}

use dust_core::cpu::irqs::{IrqController, IrqFlags};
use dust_core::cpu::schedule::{Event, EventSlotIndex, Schedule, Scheduler};
use dust_core::cpu::timers::{Control, Index, Timer, Timers, Timestamp};

fn setup() -> (Scheduler, IrqController, Timers) {
    let mut schedule = Scheduler::new();
    let irqs = IrqController::new();
    let timers = Timers::new(&mut schedule);
    (schedule, irqs, timers)
}

#[test]
fn timer_counts_prescaled_cycles() {
    let (mut schedule, mut irqs, mut timers) = setup();
    timers.write_control_reload(Index::new(0), 0x10, Control(0x81), &mut schedule, &mut irqs);
    schedule.set_cur_time(Timestamp(64 * 5 + 3));
    assert_eq!(timers.read_counter(Index::new(0), &mut schedule, &mut irqs), 0x15);
    assert_eq!(timers.read_counter(Index::new(0), &mut schedule, &mut irqs), 0x15);
    assert_eq!(irqs.requested(), IrqFlags(0));
    assert_eq!(timers.0[0].cycle_shift(), 6);
    assert_eq!(timers.0[0].cycle_counter(), 3);
    assert_eq!(timers.0[0].reload(), 0x10);
    assert!(!timers.0[0].count_up());
    assert_eq!(timers.0[0].control(), Control(0x81));
}

#[test]
fn timer_overflow_requests_irq_and_reloads() {
    // Reload 0xFFFE, no prescaling, interrupt enabled, running; four cycles later the
    // timer has overflowed once and counts from its reload value again.
    let (mut schedule, mut irqs, mut timers) = setup();
    timers.write_reload(Index::new(0), 0xFFFE, &mut schedule, &mut irqs);
    timers.write_control(Index::new(0), Control(0xC0), &mut schedule, &mut irqs);
    assert_eq!(schedule.event_time(EventSlotIndex::new(0)), Some(Timestamp(2)));
    schedule.set_cur_time(Timestamp(4));
    assert_eq!(timers.read_counter(Index::new(0), &mut schedule, &mut irqs), 0xFFFE);
    assert_eq!(irqs.requested(), IrqFlags(8));
}

#[test]
fn timer_counter_is_reload_plus_two_after_overflow() {
    let (mut schedule, mut irqs, mut timers) = setup();
    timers.write_reload(Index::new(0), 0xFFFE, &mut schedule, &mut irqs);
    timers.write_control(Index::new(0), Control(0xC0), &mut schedule, &mut irqs);
    schedule.set_cur_time(Timestamp(2));
    assert_eq!(schedule.pop_pending_event(), Some((Event::Timer(Index::new(0)), Timestamp(2))));
    timers.handle_scheduled_overflow(Index::new(0), Timestamp(2), &mut schedule, &mut irqs);
    assert_eq!(irqs.requested(), IrqFlags(8));
    assert_eq!(schedule.event_time(EventSlotIndex::new(0)), Some(Timestamp(4)));
    schedule.set_cur_time(Timestamp(3));
    assert_eq!(timers.read_counter(Index::new(0), &mut schedule, &mut irqs), 0xFFFF);
}

#[test]
fn count_up_timer_counts_overflows() {
    let (mut schedule, mut irqs, mut timers) = setup();
    timers.write_control_reload(Index::new(0), 0xFFF0, Control(0x80), &mut schedule, &mut irqs);
    timers.write_control_reload(Index::new(1), 5, Control(0xC4), &mut schedule, &mut irqs);
    assert!(timers.0[1].count_up());
    // Timer 0 is queued because its overflows flow into timer 1's interrupt.
    assert!(timers.0[0].schedule_overflows());
    assert!(!timers.0[1].schedule_overflows());
    schedule.set_cur_time(Timestamp(0x10 * 3 + 1));
    assert_eq!(timers.read_counter(Index::new(1), &mut schedule, &mut irqs), 8);
    assert_eq!(timers.0[0].counter(), 0xFFF1);
    assert_eq!(irqs.requested(), IrqFlags(0));
}

#[test]
fn stopped_timer_is_not_queued() {
    let (mut schedule, mut irqs, mut timers) = setup();
    timers.write_control(Index::new(2), Control(0xC0), &mut schedule, &mut irqs);
    assert!(schedule.event_time(EventSlotIndex::new(2)).is_some());
    timers.write_control(Index::new(2), Control(0x40), &mut schedule, &mut irqs);
    assert_eq!(schedule.event_time(EventSlotIndex::new(2)), None);
    assert!(!timers.0[2].schedule_overflows());
    let fresh = Timer::new();
    assert_eq!(fresh.counter(), 0);
    assert_eq!(fresh.last_update_time(), Timestamp(0));
    assert_eq!(fresh.cycles_until_overflow(), 0x1_0000);
}

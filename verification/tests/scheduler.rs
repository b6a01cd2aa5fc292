use dust_core::cpu::schedule::{
    Event, EventSlotIndex, Schedule, ScheduleConst, Scheduler, SLOT_DMA, SLOT_HBLANK, SLOT_IPC,
    SLOT_VBLANK,
};
use dust_core::cpu::timers::{Index, Timestamp};

#[test]
fn nothing_fires_before_its_time() {
    let mut schedule = Scheduler::new();
    schedule.schedule_event(EventSlotIndex::new(SLOT_DMA), Timestamp(10));
    schedule.set_cur_time(Timestamp(9));
    assert!(schedule.pop_pending_event().is_none());
    assert_eq!(schedule.next_event_time(), Timestamp(10));
    schedule.set_cur_time(Timestamp(10));
    assert_eq!(schedule.pop_pending_event(), Some((Event::DmaEnd, Timestamp(10))));
    assert!(schedule.pop_pending_event().is_none());
    assert_eq!(schedule.next_event_time(), Timestamp(u64::MAX));
}

#[test]
fn events_fire_by_time_then_by_slot() {
    let mut schedule = Scheduler::new();
    schedule.schedule_event(EventSlotIndex::new(SLOT_VBLANK), Timestamp(5));
    schedule.schedule_event(EventSlotIndex::new(SLOT_HBLANK), Timestamp(7));
    schedule.schedule_event(EventSlotIndex::new(SLOT_IPC), Timestamp(7));
    schedule.schedule_event(EventSlotIndex::new(SLOT_DMA), Timestamp(30));
    schedule.set_cur_time(Timestamp(20));
    assert_eq!(schedule.pop_pending_event(), Some((Event::VBlank, Timestamp(5))));
    assert_eq!(schedule.pop_pending_event(), Some((Event::Ipc, Timestamp(7))));
    assert_eq!(schedule.pop_pending_event(), Some((Event::HBlank, Timestamp(7))));
    assert_eq!(schedule.pop_pending_event(), None);
}

#[test]
fn cancel_removes_and_reschedule_replaces() {
    let mut schedule = Scheduler::new();
    let slot = EventSlotIndex::new(SLOT_DMA);
    schedule.schedule_event(slot, Timestamp(3));
    schedule.schedule_event(slot, Timestamp(8));
    assert_eq!(schedule.event_time(slot), Some(Timestamp(8)));
    schedule.cancel_event(slot);
    assert_eq!(schedule.event_time(slot), None);
    schedule.set_cur_time(Timestamp(100));
    assert_eq!(schedule.pop_pending_event(), None);
}

#[test]
fn clock_and_target_helpers() {
    let mut schedule = Scheduler::new();
    schedule.set_cur_time(Timestamp(10));
    schedule.set_cur_time_after(Timestamp(4));
    assert_eq!(schedule.cur_time(), Timestamp(10));
    schedule.set_cur_time_after(Timestamp(14));
    assert_eq!(schedule.cur_time(), Timestamp(14));
    schedule.set_target_time(Timestamp(50));
    schedule.set_target_time_before(Timestamp(60));
    assert_eq!(schedule.target_time(), Timestamp(50));
    schedule.set_target_time_before(Timestamp(40));
    assert_eq!(schedule.target_time(), Timestamp(40));
    schedule.schedule_event(EventSlotIndex::new(SLOT_DMA), Timestamp(20));
    assert_eq!(schedule.target_time(), Timestamp(20));
    assert_eq!(Scheduler::timer_event_slot(Index::new(2)).get(), 2);
    assert_eq!(Timestamp(u64::MAX - 1).add(Timestamp(5)), Timestamp(u64::MAX));
    assert_eq!(Timestamp(3).add(Timestamp(5)), Timestamp(8));
}

use midi_ma_bridge::periodic_update_sender::{PeriodicUpdateSender, TickOutcome};

#[test]
fn new_fails_on_closed_channel() {
    assert!(PeriodicUpdateSender::<u8>::new(true).is_err());
    assert!(PeriodicUpdateSender::<u8>::new(false).is_ok());
}

#[test]
fn latest_write_wins() {
    let mut sender = PeriodicUpdateSender::new(false).unwrap();
    assert!(!sender.is_sending());
    sender.set_value(1u8).unwrap();
    sender.set_value(2u8).unwrap();
    sender.set_value(3u8).unwrap();
    assert!(sender.is_sending());
    assert_eq!(sender.on_tick(), TickOutcome::Emit(3));
}

#[test]
fn one_emission_per_tick() {
    let mut sender = PeriodicUpdateSender::new(false).unwrap();
    sender.set_value(7u8).unwrap();
    assert_eq!(sender.on_tick(), TickOutcome::Emit(7));
    // nothing new was written: the next tick finds the slot empty
    assert_eq!(sender.on_tick(), TickOutcome::Exit);
}

#[test]
fn idle_for_two_periods_exits() {
    let mut sender = PeriodicUpdateSender::new(false).unwrap();
    sender.set_value(9u8).unwrap();
    assert!(sender.is_sending());
    let first = sender.on_tick();
    assert_eq!(first, TickOutcome::Emit(9));
    let second = sender.on_tick();
    assert_eq!(second, TickOutcome::Exit);
    assert!(!sender.is_sending());
}

#[test]
fn write_restarts_the_drainer() {
    let mut sender = PeriodicUpdateSender::new(false).unwrap();
    sender.set_value(1u8).unwrap();
    assert_eq!(sender.on_tick(), TickOutcome::Emit(1));
    sender.set_value(2u8).unwrap();
    assert_eq!(sender.on_tick(), TickOutcome::Emit(2));
    assert_eq!(sender.on_tick(), TickOutcome::Exit);
}

#[test]
fn closed_sink_error_surfaces_once() {
    let mut sender = PeriodicUpdateSender::new(false).unwrap();
    sender.set_value(5u8).unwrap();
    assert_eq!(sender.on_tick(), TickOutcome::Emit(5));
    sender.emit_failed();
    assert!(!sender.is_sending());
    // the failure is surfaced by the next write ...
    assert!(sender.set_value(6u8).is_err());
    // ... exactly once; a later write starts a fresh drainer
    assert!(sender.set_value(7u8).is_ok());
    assert!(sender.is_sending());
    assert_eq!(sender.on_tick(), TickOutcome::Emit(7));
}

use opsbot::config::resolve_config;
use opsbot::machine::{
    edit_step, initial_state, scan_step, send_step, startup_step, tick_work, Effect, MachineState,
    TickWork,
};
use opsbot::pins::{find_status_candidate, PinnedMessage};
use opsbot::store::{message_id_text, parse_message_id};

#[test]
fn first_tick_with_no_record_and_no_pin_sends_once() {
    // A five-second tick interval.
    let cfg = resolve_config(Some("1000"), Some("5")).unwrap();
    assert_eq!(cfg.interval_secs, 5);
    // Startup with nothing persisted.
    let s0 = initial_state();
    assert_eq!(s0, MachineState::Uninitialized);
    let (s1, e1) = startup_step(s0, None, false);
    assert_eq!(s1, MachineState::Recovering);
    assert_eq!(e1, Effect::Idle);
    // No adoptable pin.
    let pins: Vec<PinnedMessage> = Vec::new();
    let candidate = find_status_candidate(&pins);
    assert_eq!(candidate, None);
    let (s2, e2) = scan_step(s1, candidate);
    assert_eq!(s2, MachineState::NeedsResend);
    assert_eq!(e2, Effect::Idle);
    // The tick sends exactly one message; the new identifier is persisted
    // and pinned.
    let mut sends = 0;
    let work = tick_work(s2);
    assert_eq!(work, TickWork::UnpinStaleThenSend);
    sends += 1;
    let (s3, e3) = send_step(s2, Some(99));
    assert_eq!(sends, 1);
    assert_eq!(s3, MachineState::Active(99));
    assert_eq!(e3, Effect::PersistAndPin(99));
    assert_eq!(message_id_text(99), "99");
}

#[test]
fn stale_record_recovers_through_pin_scan_without_sending() {
    // A stored identifier that no longer fetches.
    let (s1, e1) = startup_step(MachineState::Uninitialized, Some(42), false);
    assert_eq!(s1, MachineState::Recovering);
    assert_eq!(e1, Effect::ClearAndSweep);
    // The pin scan finds a matching message with identifier 77.
    let pins = vec![
        PinnedMessage {
            id: 12,
            from_bot: false,
            content: String::from("System Status"),
        },
        PinnedMessage {
            id: 77,
            from_bot: true,
            content: String::from("```\nSystem Status\n..."),
        },
    ];
    let candidate = find_status_candidate(&pins);
    assert_eq!(candidate, Some(77));
    let (s2, e2) = scan_step(s1, candidate);
    assert_eq!(s2, MachineState::Active(77));
    assert_eq!(e2, Effect::Persist(77));
    // The persisted file now holds "77", and nothing was sent.
    let persisted = message_id_text(77);
    assert_eq!(persisted, "77");
    assert_eq!(parse_message_id(&persisted), Some(77));
}

#[test]
fn valid_record_is_adopted_without_recovery() {
    let (s1, e1) = startup_step(MachineState::Uninitialized, Some(5), true);
    assert_eq!(s1, MachineState::Active(5));
    assert_eq!(e1, Effect::Idle);
    assert_eq!(tick_work(s1), TickWork::Edit(5));
}

#[test]
fn empty_pin_scan_falls_back_to_resend() {
    let (s1, _) = startup_step(MachineState::Uninitialized, Some(42), false);
    let (s2, e2) = scan_step(s1, None);
    assert_eq!(s2, MachineState::NeedsResend);
    assert_eq!(e2, Effect::Idle);
}

#[test]
fn successful_edit_keeps_state() {
    let active = MachineState::Active(7);
    let (s, e) = edit_step(active, true);
    assert_eq!(s, MachineState::Active(7));
    assert_eq!(e, Effect::Idle);
}

#[test]
fn failed_edit_then_successful_send_recovers() {
    // Tick N: the edit fails while Active(7).
    let (s1, e1) = edit_step(MachineState::Active(7), false);
    assert_eq!(s1, MachineState::NeedsResend);
    assert_eq!(e1, Effect::ClearStored);
    // Tick N+1 starts in NeedsResend and the send succeeds.
    assert_eq!(tick_work(s1), TickWork::UnpinStaleThenSend);
    let (s2, e2) = send_step(s1, Some(8));
    assert_eq!(s2, MachineState::Active(8));
    assert_eq!(e2, Effect::PersistAndPin(8));
}

#[test]
fn failed_send_stays_in_resend() {
    let (s, e) = send_step(MachineState::NeedsResend, None);
    assert_eq!(s, MachineState::NeedsResend);
    assert_eq!(e, Effect::Idle);
}

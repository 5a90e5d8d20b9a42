use joycon_bridge::session::{decode_notification, session_step, OfferOutcome, SessionQueue};
use joycon_bridge::state::decode_left_report;
use joycon_bridge::{Controller, ControllerState};

fn left_report(b2: u8) -> Vec<u8> {
    vec![0x00, 0x00, b2, 0x00, 0x00, 0x00, 0x00, 0x00]
}

fn left_state(b2: u8) -> ControllerState {
    ControllerState::Left(decode_left_report(&left_report(b2)))
}

#[test]
fn queue_buffers_at_most_two_and_drops_the_newest() {
    let mut q = SessionQueue::new();
    assert_eq!(q.offer(left_state(0x01)), OfferOutcome::Accepted);
    assert_eq!(q.offer(left_state(0x02)), OfferOutcome::Accepted);
    // Third state with no drain: dropped silently, not an error.
    assert_eq!(q.offer(left_state(0x04)), OfferOutcome::DroppedNewest);
    // The consumer sees the two oldest states, in arrival order, then nothing.
    assert_eq!(q.take(), Some(left_state(0x01)));
    assert_eq!(q.take(), Some(left_state(0x02)));
    assert_eq!(q.take(), None);
}

#[test]
fn queue_delivers_in_arrival_order_across_drains() {
    let mut q = SessionQueue::new();
    q.offer(left_state(0x01));
    assert_eq!(q.take(), Some(left_state(0x01)));
    q.offer(left_state(0x02));
    q.offer(left_state(0x04));
    assert_eq!(q.take(), Some(left_state(0x02)));
    assert_eq!(q.take(), Some(left_state(0x04)));
    assert_eq!(q.take(), None);
}

#[test]
fn closed_queue_refuses_offers_and_keeps_pending_states() {
    let mut q = SessionQueue::new();
    q.offer(left_state(0x01));
    q.close();
    assert_eq!(q.offer(left_state(0x02)), OfferOutcome::Closed);
    assert_eq!(q.take(), Some(left_state(0x01)));
    assert_eq!(q.take(), None);
}

#[test]
fn session_step_decodes_and_queues_by_half() {
    let mut q = SessionQueue::new();
    let report = vec![0x00, 0x00, 0x08, 0x00, 0x00, 0xE4, 0x07, 0x00];
    assert!(session_step(&mut q, Controller::JoyconLeft, &report));
    match q.take() {
        Some(ControllerState::Left(s)) => {
            assert!(s.up);
            assert_eq!(s.stick_x, 0);
        }
        other => panic!("expected a left state, got {:?}", other),
    }

    assert!(session_step(&mut q, Controller::JoyconRight, &report));
    match q.take() {
        Some(ControllerState::Right(s)) => assert!(s.x),
        other => panic!("expected a right state, got {:?}", other),
    }
}

#[test]
fn session_step_stops_exactly_on_closure() {
    let mut q = SessionQueue::new();
    let report = vec![0x00; 8];
    assert!(session_step(&mut q, Controller::JoyconLeft, &report));
    assert!(session_step(&mut q, Controller::JoyconLeft, &report));
    // A full queue does not stop the task; the state is just dropped.
    assert!(session_step(&mut q, Controller::JoyconLeft, &report));
    q.close();
    assert!(!session_step(&mut q, Controller::JoyconLeft, &report));
}

#[test]
fn decode_notification_matches_half() {
    let report = vec![0x00, 0x00, 0x01, 0x00, 0x00, 0x00, 0x00, 0x00];
    match decode_notification(Controller::JoyconLeft, &report) {
        ControllerState::Left(s) => assert!(s.down),
        other => panic!("expected a left state, got {:?}", other),
    }
    match decode_notification(Controller::JoyconRight, &report) {
        ControllerState::Right(s) => assert!(s.b),
        other => panic!("expected a right state, got {:?}", other),
    }
}

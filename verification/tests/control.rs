use srvany_rs::control::{ControlEvent, ControlHandler, ControlReply, Handled, WaitOutcome};

#[test]
fn interrogate_is_acknowledged_and_changes_nothing() {
    let mut handler = ControlHandler::new();
    assert_eq!(
        handler.handle(ControlEvent::Interrogate),
        Handled { reply: ControlReply::NoError, post_stop: false }
    );
    assert!(!handler.has_posted_stop());
}

#[test]
fn first_stop_posts_the_signal() {
    let mut handler = ControlHandler::new();
    assert!(!handler.has_posted_stop());
    assert_eq!(
        handler.handle(ControlEvent::Stop),
        Handled { reply: ControlReply::NoError, post_stop: true }
    );
    assert!(handler.has_posted_stop());
}

#[test]
fn second_stop_is_acknowledged_and_posts_nothing() {
    let mut handler = ControlHandler::new();
    handler.handle(ControlEvent::Stop);
    for _ in 0..3 {
        assert_eq!(
            handler.handle(ControlEvent::Stop),
            Handled { reply: ControlReply::NoError, post_stop: false }
        );
        assert!(handler.has_posted_stop());
    }
}

#[test]
fn other_events_are_declined() {
    let mut handler = ControlHandler::new();
    assert_eq!(
        handler.handle(ControlEvent::Other),
        Handled { reply: ControlReply::NotImplemented, post_stop: false }
    );
    assert!(!handler.has_posted_stop());
    handler.handle(ControlEvent::Stop);
    assert_eq!(
        handler.handle(ControlEvent::Other),
        Handled { reply: ControlReply::NotImplemented, post_stop: false }
    );
    assert!(handler.has_posted_stop());
}

#[test]
fn one_signal_for_any_mix_of_events() {
    let events = [
        ControlEvent::Interrogate,
        ControlEvent::Other,
        ControlEvent::Stop,
        ControlEvent::Interrogate,
        ControlEvent::Stop,
        ControlEvent::Other,
        ControlEvent::Stop,
    ];
    let mut handler = ControlHandler::new();
    let mut posted = 0;
    for event in events {
        if handler.handle(event).post_stop {
            posted += 1;
        }
    }
    assert_eq!(posted, 1);
}

#[test]
fn closed_channel_counts_as_stop() {
    assert!(WaitOutcome::StopSignal.requests_stop());
    assert!(WaitOutcome::Closed.requests_stop());
    assert!(!WaitOutcome::TimedOut.requests_stop());
}

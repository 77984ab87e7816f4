use viz_js::bootstrap::{Action, Bootstrap, Event, Phase};
use viz_js::BindingFault;

fn after(events: &[Event]) -> Bootstrap {
    let mut handshake = Bootstrap::begin();
    for event in events {
        handshake.advance(*event);
    }
    handshake
}

#[test]
fn a_handshake_begins_with_the_lookup() {
    let handshake = Bootstrap::begin();
    assert_eq!(handshake.phase(), Phase::Locating);
    assert_eq!(handshake.pending(), Action::Locate);
    assert!(!handshake.is_over());
}

#[test]
fn the_steps_come_in_order() {
    let mut handshake = Bootstrap::begin();
    assert_eq!(handshake.advance(Event::Located { found: true }), Action::WarmUp);
    assert_eq!(handshake.phase(), Phase::WarmingUp);
    assert_eq!(handshake.advance(Event::WarmedUp { fulfilled: true }), Action::Produce);
    assert_eq!(handshake.phase(), Phase::Producing);
    assert_eq!(handshake.advance(Event::Produced { shaped: true }), Action::Deliver);
    assert_eq!(handshake.phase(), Phase::Ready);
    assert!(handshake.is_over());
}

#[test]
fn a_warm_up_that_failed_is_not_reported() {
    let mut handshake = Bootstrap::begin();
    handshake.advance(Event::Located { found: true });
    assert_eq!(handshake.advance(Event::WarmedUp { fulfilled: false }), Action::Produce);
    assert_eq!(handshake.advance(Event::Produced { shaped: true }), Action::Deliver);
    assert_eq!(handshake.phase(), Phase::Ready);
}

#[test]
fn a_global_scope_of_the_wrong_shape_is_a_fault() {
    let mut handshake = Bootstrap::begin();
    let action = handshake.advance(Event::Located { found: false });
    assert_eq!(action, Action::Abort(BindingFault::NotInitialized));
    assert_eq!(handshake.phase(), Phase::Failed(BindingFault::NotInitialized));
    assert!(handshake.is_over());
    assert_eq!(BindingFault::NotInitialized.message(), "could not initialize layout engine");
}

#[test]
fn an_instance_of_the_wrong_shape_is_a_fault() {
    let mut handshake = after(&[Event::Located { found: true }, Event::WarmedUp { fulfilled: true }]);
    let action = handshake.advance(Event::Produced { shaped: false });
    assert_eq!(action, Action::Abort(BindingFault::NotInitialized));
    assert_eq!(handshake.phase(), Phase::Failed(BindingFault::NotInitialized));
}

#[test]
fn producing_before_the_warm_up_never_gives_an_instance() {
    let mut handshake = after(&[Event::Located { found: true }]);
    let action = handshake.advance(Event::Produced { shaped: true });
    assert_eq!(action, Action::Abort(BindingFault::OutOfTurn));
    assert_eq!(handshake.advance(Event::WarmedUp { fulfilled: true }), Action::Abort(BindingFault::OutOfTurn));
    assert_eq!(handshake.advance(Event::Produced { shaped: true }), Action::Abort(BindingFault::OutOfTurn));
    assert_eq!(handshake.phase(), Phase::Failed(BindingFault::OutOfTurn));
}

#[test]
fn an_event_out_of_turn_fails_the_handshake() {
    let starts: [&[Event]; 3] = [
        &[],
        &[Event::Located { found: true }],
        &[Event::Located { found: true }, Event::WarmedUp { fulfilled: true }],
    ];
    let events = [
        Event::Located { found: true },
        Event::WarmedUp { fulfilled: true },
        Event::Produced { shaped: true },
    ];
    for (at, start) in starts.iter().enumerate() {
        for (turn, event) in events.iter().enumerate() {
            let mut handshake = after(start);
            let action = handshake.advance(*event);
            if turn == at {
                assert!(!matches!(action, Action::Abort(_)));
            } else {
                assert_eq!(action, Action::Abort(BindingFault::OutOfTurn));
            }
        }
    }
}

#[test]
fn a_second_warm_up_is_out_of_turn() {
    let mut handshake = after(&[Event::Located { found: true }, Event::WarmedUp { fulfilled: true }]);
    assert_eq!(
        handshake.advance(Event::WarmedUp { fulfilled: true }),
        Action::Abort(BindingFault::OutOfTurn)
    );
}

#[test]
fn a_handshake_that_is_ready_stays_ready() {
    let mut handshake = after(&[
        Event::Located { found: true },
        Event::WarmedUp { fulfilled: false },
        Event::Produced { shaped: true },
    ]);
    for event in [
        Event::Located { found: false },
        Event::WarmedUp { fulfilled: true },
        Event::Produced { shaped: false },
    ] {
        assert_eq!(handshake.advance(event), Action::Deliver);
        assert_eq!(handshake.phase(), Phase::Ready);
    }
}

#[test]
fn a_handshake_that_has_failed_stays_failed() {
    let mut handshake = after(&[Event::Located { found: false }]);
    for event in [
        Event::Located { found: true },
        Event::WarmedUp { fulfilled: true },
        Event::Produced { shaped: true },
    ] {
        assert_eq!(handshake.advance(event), Action::Abort(BindingFault::NotInitialized));
        assert_eq!(handshake.phase(), Phase::Failed(BindingFault::NotInitialized));
    }
}

#[test]
fn two_handshakes_share_nothing() {
    let mut one = Bootstrap::begin();
    let mut other = Bootstrap::begin();
    one.advance(Event::Located { found: false });
    other.advance(Event::Located { found: true });
    other.advance(Event::WarmedUp { fulfilled: true });
    other.advance(Event::Produced { shaped: true });
    assert_eq!(one.pending(), Action::Abort(BindingFault::NotInitialized));
    assert_eq!(other.pending(), Action::Deliver);
}

#[test]
fn what_is_pending_follows_from_the_phase() {
    let handshake = after(&[Event::Located { found: true }]);
    assert_eq!(handshake.pending(), Action::WarmUp);
    assert_eq!(handshake.pending(), Action::WarmUp);
    assert_eq!(handshake.phase(), Phase::WarmingUp);
}

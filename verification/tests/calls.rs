use counter_pallet::{Config, Error, Event, Origin, Pallet};

fn new_test_ext() -> Pallet {
    Pallet::new(Config { counter_max_value: 10 })
}

fn assert_ok(result: Result<Event, Error>) -> Event {
    match result {
        Ok(event) => event,
        Err(error) => panic!("expected Ok, got Err({:?})", error),
    }
}

fn assert_noop(
    pallet: &mut Pallet,
    call: impl FnOnce(&mut Pallet) -> Result<Event, Error>,
    error: Error,
) {
    let before = pallet.clone();
    assert_eq!(call(pallet), Err(error));
    assert_eq!(*pallet, before);
}

#[test]
fn set_value_works() {
    let mut pallet = new_test_ext();
    assert_ok(pallet.set_counter_value(Origin::Root, 8));
}

#[test]
fn increments_works() {
    let mut pallet = new_test_ext();
    assert_ok(pallet.set_counter_value(Origin::Root, 0));
    let last_event = assert_ok(pallet.increment(Origin::Signed(1), 5));
    assert_eq!(
        last_event,
        Event::CounterIncremented { counter_value: 5, who: 1, incremented_amount: 5 }
    );
}

#[test]
fn increment_fails_for_max_value_exceeded() {
    let mut pallet = new_test_ext();
    assert_ok(pallet.set_counter_value(Origin::Root, 7));
    assert_noop(
        &mut pallet,
        |pallet| pallet.increment(Origin::Signed(1), 4),
        Error::CounterValueExceedsMax,
    );
}

#[test]
fn increment_fail_for_overflow() {
    let mut pallet = new_test_ext();
    assert_ok(pallet.set_counter_value(Origin::Root, 1));
    assert_noop(
        &mut pallet,
        |pallet| pallet.increment(Origin::Signed(1), u32::MAX),
        Error::CounterOverflow,
    );
}

#[test]
fn decrements_works() {
    let mut pallet = new_test_ext();
    assert_ok(pallet.set_counter_value(Origin::Root, 5));
    let last_event = assert_ok(pallet.decrement(Origin::Signed(1), 3));
    assert_eq!(
        last_event,
        Event::CounterDecremented { counter_value: 2, who: 1, decremented_amount: 3 }
    );
}

#[test]
fn decrement_fails_for_below_zero() {
    let mut pallet = new_test_ext();
    assert_ok(pallet.set_counter_value(Origin::Root, 2));
    assert_noop(
        &mut pallet,
        |pallet| pallet.decrement(Origin::Signed(1), u32::MAX),
        Error::CounterValueBelowZero,
    );
}

#[test]
fn set_counter_fails_for_non_root() {
    let mut pallet = new_test_ext();
    assert_noop(
        &mut pallet,
        |pallet| pallet.set_counter_value(Origin::Signed(1), 1),
        Error::BadOrigin,
    );
}

#[test]
fn set_counter_fails_for_max_value_exceeded() {
    let mut pallet = new_test_ext();
    assert_noop(
        &mut pallet,
        |pallet| pallet.set_counter_value(Origin::Root, u32::MAX),
        Error::CounterValueExceedsMax,
    );
}

#[test]
fn user_interaction_increment() {
    let mut pallet = new_test_ext();
    assert_ok(pallet.set_counter_value(Origin::Root, 0));
    assert_ok(pallet.increment(Origin::Signed(1), 5));
    assert_ok(pallet.decrement(Origin::Signed(1), 2));
    assert_eq!(pallet.user_interactions(1).unwrap_or(0), 2);
}

#[test]
fn user_interaction_overflow() {
    let mut pallet = new_test_ext();
    assert_ok(pallet.set_counter_value(Origin::Root, 5));
    let config = pallet.config();
    let (counter_value, mut user_interactions) = pallet.into_storage();
    user_interactions.set(1, Some(u32::MAX));
    let mut pallet = Pallet::from_storage(config, counter_value, user_interactions);
    assert_noop(
        &mut pallet,
        |pallet| pallet.increment(Origin::Signed(1), 1),
        Error::UserInteractionOverflow,
    );
}

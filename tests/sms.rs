use werewolf::notifier::NotifyQueue;
use werewolf::sms::{MessageStateMachine, StateMachineMap};
use werewolf::statemachines::{Next, TransitionResult};

#[test]
fn second_reservation_fails() {
    let mut map: StateMachineMap<Next<fn((), &()) -> TransitionResult<(), ()>, (), ()>> = StateMachineMap::new();
    assert_eq!(Ok(()), map.reserve_running_game(7));
    assert_eq!(Err(()), map.reserve_running_game(7));
    assert_eq!(Ok(()), map.reserve_running_game(8));
}

#[test]
fn mark_needs_reservation() {
    let mut map: StateMachineMap<Next<fn((), &()) -> TransitionResult<(), ()>, (), ()>> = StateMachineMap::new();
    assert_eq!(Err(()), map.mark_running_game(7, 100));
    assert_eq!(Ok(()), map.reserve_running_game(7));
    assert_eq!(Ok(()), map.mark_running_game(7, 100));
    // Another message does not release the group.
    map.unmark_running_game(7, 101);
    assert_eq!(Err(()), map.reserve_running_game(7));
    map.unmark_running_game(7, 100);
    assert_eq!(Ok(()), map.reserve_running_game(7));
}

fn finish_on_stop(_: (), _: &()) -> TransitionResult<(), ()> {
    TransitionResult::Done(())
}

#[test]
fn finished_machine_releases_group() {
    let mut map = StateMachineMap::new();
    assert_eq!(Ok(()), map.reserve_running_game(3));
    assert_eq!(Ok(()), map.mark_running_game(3, 55));
    let sm = Next::new(finish_on_stop as fn((), &()) -> TransitionResult<(), ()>);
    map.add(55, MessageStateMachine::new(3, 55, sm));

    assert_eq!(Err(()), map.reserve_running_game(3));
    match map.update(55, ()) {
        Some(TransitionResult::Done(_)) => {}
        res => panic!("Expected Done but got {:?}", res),
    }
    // The machine is gone, and the group can start a new round.
    assert!(map.update(55, ()).is_none());
    assert_eq!(Ok(()), map.reserve_running_game(3));
}

fn never(_: (), _: &()) -> TransitionResult<(), ()> {
    TransitionResult::NoTransition
}

#[test]
fn waiting_machine_stays_registered() {
    let mut map = StateMachineMap::new();
    assert_eq!(Ok(()), map.reserve_running_game(1));
    assert_eq!(Ok(()), map.mark_running_game(1, 9));
    map.add(9, MessageStateMachine::new(1, 9, Next::new(never as fn((), &()) -> TransitionResult<(), ()>)));
    assert!(matches!(map.update(9, ()), Some(TransitionResult::NoTransition)));
    assert!(matches!(map.update(9, ()), Some(TransitionResult::NoTransition)));
    assert_eq!(Err(()), map.reserve_running_game(1));
    assert!(map.update(10, ()).is_none());
}

#[test]
fn machine_ids() {
    let sm = MessageStateMachine::new(4, 44, ());
    assert_eq!(4, sm.guild_id());
    assert_eq!(44, sm.message_id());
}

#[test]
fn notices_come_out_in_order_and_busy_ones_return() {
    let mut q = NotifyQueue::new();
    assert_eq!(None, q.next());
    q.notify(1, 10);
    q.notify(2, 20);
    let first = q.next().unwrap();
    assert_eq!((1, 10), first);
    q.settle(first, false);
    let second = q.next().unwrap();
    assert_eq!((2, 20), second);
    q.settle(second, true);
    assert_eq!(Some((1, 10)), q.next());
    assert_eq!(None, q.next());
}

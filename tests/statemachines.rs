use std::sync::atomic;
use std::sync::Arc;

use werewolf::statemachines::{AsyncTransition, Chained, Next, TransitionResult, WithLazyState, WithState};

#[test]
fn simple() {
    let mut chained = Chained::new(
        Next::new(|_: (), number: &usize| TransitionResult::<usize, ()>::Done(number * 2)),
        Next::new(|_: (), number: &usize| TransitionResult::<usize, ()>::Done(number + 4)),
    );

    let first_result = chained.transition((), &13);
    match first_result {
        TransitionResult::NoTransition => assert!(true),
        res => panic!("Expected no transition but got {:?}", res),
    };

    let second_result = chained.transition((), &13);
    match second_result {
        TransitionResult::Done(value) => assert_eq!(30, *value),
        res => panic!("Expected Done-Transition but got {:?}", res),
    };
}

#[test]
fn next_simple_transition() {
    let mut next_sm = Next::new(|_: (), _: &()| TransitionResult::<usize, ()>::Done(13));

    let result = next_sm.transition((), &());
    match result {
        TransitionResult::Done(value) => assert_eq!(13, *value),
        res => panic!("Expected Transition to complete but got {:?}", res),
    };
}

#[test]
fn withlazystate_counter() {
    let mut state_sm = WithLazyState::new(
        |first_val: &usize| *first_val,
        |context: usize, mut inner_state: usize, _: &usize| {
            inner_state += context;

            if inner_state < 2 {
                return (TransitionResult::NoTransition, inner_state);
            }

            (TransitionResult::<usize, ()>::Done(inner_state), inner_state)
        },
    );

    let result = state_sm.transition(1, &0);
    match result {
        TransitionResult::NoTransition => assert!(true),
        res => panic!("Expected no Transition but got {:?}", res),
    };

    let result = state_sm.transition(1, &0);
    match result {
        TransitionResult::Done(value) => assert_eq!(2, *value),
        res => panic!("Expected Done but got {:?}", res),
    };
}

#[test]
fn withstate_counter() {
    let mut state_sm = WithState::new(0, |_: (), mut inner_state: usize, argument: &usize| {
        inner_state += argument;

        if inner_state < 2 {
            return (TransitionResult::NoTransition, inner_state);
        }

        (TransitionResult::<usize, ()>::Done(inner_state), inner_state)
    });

    let result = state_sm.transition((), &1);
    match result {
        TransitionResult::NoTransition => assert!(true),
        res => panic!("Expected no Transition but got {:?}", res),
    };

    let result = state_sm.transition((), &1);
    match result {
        TransitionResult::Done(value) => assert_eq!(2, *value),
        res => panic!("Expected Done but got {:?}", res),
    };
}

#[test]
fn next_latches_done_value() {
    let mut next_sm = Next::new(|_: (), n: &usize| {
        if *n > 5 {
            TransitionResult::<usize, ()>::Done(*n)
        } else {
            TransitionResult::NoTransition
        }
    });
    assert!(matches!(next_sm.transition((), &1), TransitionResult::NoTransition));
    match next_sm.transition((), &7) {
        TransitionResult::Done(v) => assert_eq!(7, *v),
        res => panic!("Expected Done but got {:?}", res),
    }
    // Later inputs do not run the function again: the first value stays.
    match next_sm.transition((), &100) {
        TransitionResult::Done(v) => assert_eq!(7, *v),
        res => panic!("Expected the latched Done but got {:?}", res),
    }
}

#[test]
fn next_latches_error() {
    let mut next_sm = Next::new(|_: (), n: &i32| {
        if *n < 0 {
            TransitionResult::<u8, String>::Error(format!("negative {}", n))
        } else {
            TransitionResult::Done(1)
        }
    });
    match next_sm.transition((), &-3) {
        TransitionResult::Error(e) => assert_eq!("negative -3", e.as_str()),
        res => panic!("Expected Error but got {:?}", res),
    }
    match next_sm.transition((), &4) {
        TransitionResult::Error(e) => assert_eq!("negative -3", e.as_str()),
        res => panic!("Expected the latched Error but got {:?}", res),
    }
}

#[test]
fn chained_error_never_reaches_second() {
    let mut chained = Chained::new(
        Next::new(|_: (), _: &u8| TransitionResult::<u8, String>::Error("first failed".to_string())),
        Next::new(|_: (), _: &u8| -> TransitionResult<u8, String> { panic!("the second must not run") }),
    );
    for _ in 0..3 {
        match chained.transition((), &0) {
            TransitionResult::Error(e) => assert_eq!("first failed", e.as_str()),
            res => panic!("Expected the first Error but got {:?}", res),
        }
    }
}

#[test]
fn chained_waits_for_first() {
    let mut chained = Chained::new(
        Next::new(|_: (), n: &u32| {
            if *n == 0 {
                TransitionResult::<u32, ()>::NoTransition
            } else {
                TransitionResult::Done(*n)
            }
        }),
        WithState::new(0u32, |_: (), acc: u32, m: &u32| {
            let acc = acc + m;
            if acc >= 10 {
                (TransitionResult::<u32, ()>::Done(acc), acc)
            } else {
                (TransitionResult::NoTransition, acc)
            }
        }),
    );
    assert!(matches!(chained.transition((), &0), TransitionResult::NoTransition));
    // The first finishes with 4; the chain reports no transition yet.
    assert!(matches!(chained.transition((), &4), TransitionResult::NoTransition));
    // The second now receives 4 on each call, whatever the arguments.
    assert!(matches!(chained.transition((), &99), TransitionResult::NoTransition));
    assert!(matches!(chained.transition((), &99), TransitionResult::NoTransition));
    match chained.transition((), &99) {
        TransitionResult::Done(v) => assert_eq!(12, *v),
        res => panic!("Expected Done but got {:?}", res),
    }
}

#[test]
fn transitions() {
    let mut chained = Chained::new(
        Next::new(|_: (), _: &()| {
            println!("Executing First");
            TransitionResult::<i32, ()>::Done(13)
        }),
        Next::new(|_: (), number: &i32| {
            println!("Executing Second");
            TransitionResult::<i32, ()>::Done(number * 2)
        }),
    );
    let expected = 13 * 2;

    match chained.transition((), &()) {
        TransitionResult::NoTransition => {}
        res => panic!("Unexpected Error or transition: {:?}", res),
    };

    match chained.transition((), &()) {
        TransitionResult::Done(result) => assert_eq!(expected, *result),
        res => panic!("Unexected Error or no Transition: {:?}", res),
    };
}

#[test]
fn delayed_transitions() {
    let shared = Arc::new(atomic::AtomicU8::new(5));

    let mut chained = Chained::new(
        Next::new(|_: (), _: &()| {
            shared.fetch_sub(1, atomic::Ordering::SeqCst);

            let current = shared.load(atomic::Ordering::SeqCst);
            if current > 0 {
                println!("Current: {:?}", current);

                return TransitionResult::<i32, ()>::NoTransition;
            }

            TransitionResult::Done(13)
        }),
        Next::new(|_: (), number: &i32| {
            println!("Executing Second");
            TransitionResult::<i32, ()>::Done(number * 2)
        }),
    );
    let expected = 13 * 2;

    for _ in 0..5 {
        match chained.transition((), &()) {
            TransitionResult::NoTransition => {}
            res => panic!("Unexpected Error or transition: {:?}", res),
        };
    }

    match chained.transition((), &()) {
        TransitionResult::Done(result) => assert_eq!(expected, *result),
        res => panic!("Unexected Error or no Transition: {:?}", res),
    };
}

#[test]
fn single_transition_simple_transition() {
    let mut transition = Next::new(|_: (), _: &()| TransitionResult::<i32, ()>::Done(13));
    let expected = 13;

    let result = transition.transition((), &());

    match result {
        TransitionResult::NoTransition => panic!("Received Transition"),
        TransitionResult::Done(result) => assert_eq!(expected, *result),
        TransitionResult::Error(e) => panic!("Received Error: {:?}", e),
    };
}

#[test]
fn simple_transition_multiple_attempts() {
    let mut transition = Next::new(|_: (), _: &()| TransitionResult::<i32, ()>::Done(13));
    let expected = 13;

    let result = transition.transition((), &());
    match result {
        TransitionResult::NoTransition => panic!("Received Transition"),
        TransitionResult::Done(result) => assert_eq!(expected, *result),
        TransitionResult::Error(e) => panic!("Received Error: {:?}", e),
    };

    let result = transition.transition((), &());
    match result {
        TransitionResult::NoTransition => panic!("Received Transition"),
        TransitionResult::Done(result) => assert_eq!(expected, *result),
        TransitionResult::Error(e) => panic!("Received Error: {:?}", e),
    };
}

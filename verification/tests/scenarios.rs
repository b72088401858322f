use near_promise::{Promise, PromiseAction, PromiseOrValue, RecordedCall, Recorder};

fn create(account_id: &str) -> Promise {
    Promise::new(account_id.to_string()).create_account()
}

fn batch_create(account_id: &str, index: u64) -> RecordedCall {
    RecordedCall::BatchCreate { account_id: account_id.to_string(), index }
}

fn batch_then(after: u64, account_id: &str, index: u64) -> RecordedCall {
    RecordedCall::BatchThen { after, account_id: account_id.to_string(), index }
}

fn create_account(index: u64) -> RecordedCall {
    RecordedCall::Action { index, action: PromiseAction::CreateAccount }
}

fn opened_before(calls: &[RecordedCall], at: usize, named: u64) -> bool {
    calls[..at].iter().any(|c| match c {
        RecordedCall::BatchCreate { index, .. } => *index == named,
        RecordedCall::BatchThen { index, .. } => *index == named,
        RecordedCall::And { index, .. } => *index == named,
        _ => false,
    })
}

fn names_only_what_was_opened(calls: &[RecordedCall]) -> bool {
    calls.iter().enumerate().all(|(at, call)| match call {
        RecordedCall::BatchCreate { .. } => true,
        RecordedCall::BatchThen { after, .. } => opened_before(calls, at, *after),
        RecordedCall::Action { index, .. } => opened_before(calls, at, *index),
        RecordedCall::And { promise_a, promise_b, .. } => {
            opened_before(calls, at, *promise_a) && opened_before(calls, at, *promise_b)
        }
        RecordedCall::Return { index } => opened_before(calls, at, *index),
    })
}

#[test]
fn batch_with_two_actions_is_registered_in_order() {
    let mut engine = Recorder::new();
    let mut h = Promise::new("x".to_string()).create_account().transfer(5);
    assert!(engine.calls().is_empty());
    let i = h.construct_recursively(&mut engine);
    assert_eq!(i, 0);
    assert_eq!(
        engine.calls(),
        &vec![
            batch_create("x", 0),
            create_account(0),
            RecordedCall::Action { index: 0, action: PromiseAction::Transfer { amount: 5 } },
        ]
    );
}

#[test]
fn sequenced_batches_are_registered_predecessor_first() {
    let mut engine = Recorder::new();
    let h1 = create("a");
    let h2 = create("b");
    let mut h3 = h1.then(h2, &mut engine);
    assert_eq!(engine.calls(), &vec![batch_create("a", 0), create_account(0)]);
    assert!(h3.has_predecessor());
    assert!(!h3.is_registered());
    let i2 = h3.construct_recursively(&mut engine);
    assert_eq!(i2, 1);
    assert_eq!(
        engine.calls(),
        &vec![
            batch_create("a", 0),
            create_account(0),
            batch_then(0, "b", 1),
            create_account(1),
        ]
    );
}

#[test]
fn joined_batches_are_registered_before_the_join() {
    let mut engine = Recorder::new();
    let h1 = create("a");
    let h2 = create("b");
    let mut h3 = h1.and(h2, &mut engine);
    let operands = vec![
        batch_create("a", 0),
        create_account(0),
        batch_create("b", 1),
        create_account(1),
    ];
    assert_eq!(engine.calls(), &operands);
    let i3 = h3.construct_recursively(&mut engine);
    assert_eq!(i3, 2);
    assert_eq!(engine.calls().len(), 5);
    assert_eq!(&engine.calls()[..4], &operands[..]);
    assert_eq!(engine.calls()[4], RecordedCall::And { promise_a: 0, promise_b: 1, index: 2 });
    let joins = engine.calls().iter().filter(|c| matches!(c, RecordedCall::And { .. })).count();
    assert_eq!(joins, 1);
}

#[test]
fn joined_promise_takes_no_action() {
    let mut engine = Recorder::new();
    let h3 = create("a").and(create("b"), &mut engine);
    let seen = engine.calls().len();
    assert!(h3.is_joint());
    assert!(!h3.has_predecessor());
    assert!(!h3.is_registered());
    assert_eq!(engine.calls().len(), seen);
    assert!(!engine.calls().iter().any(|c| matches!(c, RecordedCall::And { .. })));
}

#[test]
fn fresh_promise_takes_actions_and_a_predecessor() {
    let h = Promise::new("x".to_string());
    assert!(!h.is_joint());
    assert!(!h.has_predecessor());
    assert!(!h.is_registered());
}

#[test]
fn finalizing_twice_registers_once() {
    let mut engine = Recorder::new();
    let mut h = create("x").transfer(7);
    let first = h.construct_recursively(&mut engine);
    assert!(h.is_registered());
    let seen = engine.calls().len();
    assert_eq!(seen, 3);
    let second = h.construct_recursively(&mut engine);
    let third = h.construct_recursively(&mut engine);
    assert_eq!(first, second);
    assert_eq!(first, third);
    assert_eq!(engine.calls().len(), seen);
}

#[test]
fn finalizing_a_join_twice_joins_once() {
    let mut engine = Recorder::new();
    let mut h = create("a").and(create("b"), &mut engine);
    let first = h.construct_recursively(&mut engine);
    let seen = engine.calls().len();
    let second = h.construct_recursively(&mut engine);
    assert_eq!(first, 2);
    assert_eq!(second, 2);
    assert_eq!(engine.calls().len(), seen);
}

#[test]
fn finalizing_a_marked_promise_twice_registers_once() {
    let mut engine = Recorder::new();
    let mut h = create("x").as_return();
    let first = h.construct_recursively(&mut engine);
    let second = h.construct_recursively(&mut engine);
    assert_eq!(first, second);
    assert_eq!(
        engine.calls(),
        &vec![batch_create("x", 0), create_account(0), RecordedCall::Return { index: 0 }]
    );
}

#[test]
fn marked_promise_reports_its_own_index_once() {
    let mut engine = Recorder::new();
    let mut h = create("a").and(create("b"), &mut engine).as_return();
    assert!(!engine.calls().iter().any(|c| matches!(c, RecordedCall::Return { .. })));
    let index = h.construct_recursively(&mut engine);
    assert_eq!(index, 2);
    let marks: Vec<&RecordedCall> =
        engine.calls().iter().filter(|c| matches!(c, RecordedCall::Return { .. })).collect();
    assert_eq!(marks, vec![&RecordedCall::Return { index: 2 }]);
    assert_eq!(engine.calls().last(), Some(&RecordedCall::Return { index: 2 }));
}

#[test]
fn unmarked_promise_reports_nothing() {
    let mut engine = Recorder::new();
    let mut h = create("a");
    h.construct_recursively(&mut engine);
    assert!(!engine.calls().iter().any(|c| matches!(c, RecordedCall::Return { .. })));
}

#[test]
fn as_return_alone_requests_nothing() {
    let engine = Recorder::new();
    let h = create("a").as_return();
    assert!(!h.is_registered());
    assert!(engine.calls().is_empty());
}

#[test]
fn marked_predecessor_reports_when_it_is_sequenced() {
    let mut engine = Recorder::new();
    let h1 = create("a").as_return();
    let mut h2 = h1.then(create("b"), &mut engine);
    assert_eq!(
        engine.calls(),
        &vec![batch_create("a", 0), create_account(0), RecordedCall::Return { index: 0 }]
    );
    h2.construct_recursively(&mut engine);
    assert_eq!(
        engine.calls()[3..],
        [batch_then(0, "b", 1), create_account(1)]
    );
}

#[test]
fn predecessor_is_registered_before_it_is_named() {
    let mut engine = Recorder::new();
    let mut h = create("a").then(create("b"), &mut engine).then(create("c"), &mut engine);
    h.construct_recursively(&mut engine);
    let calls = engine.calls();
    for (at, call) in calls.iter().enumerate() {
        if let RecordedCall::BatchThen { after, .. } = call {
            assert!(opened_before(calls, at, *after));
        }
    }
    assert_eq!(
        calls,
        &vec![
            batch_create("a", 0),
            create_account(0),
            batch_then(0, "b", 1),
            create_account(1),
            batch_then(1, "c", 2),
            create_account(2),
        ]
    );
}

#[test]
fn join_can_be_sequenced_before_a_batch() {
    let mut engine = Recorder::new();
    let p1 = create("bob_near");
    let p2 = create("carol_near");
    let p3 = create("dave_near");
    let p4 = create("eva_near");
    let mut last = p1.then(p2, &mut engine).and(p3, &mut engine).then(p4, &mut engine);
    assert!(!last.is_joint());
    assert!(last.has_predecessor());
    let index = last.construct_recursively(&mut engine);
    assert_eq!(index, 4);
    assert!(names_only_what_was_opened(engine.calls()));
    assert_eq!(
        engine.calls(),
        &vec![
            batch_create("bob_near", 0),
            create_account(0),
            batch_then(0, "carol_near", 1),
            create_account(1),
            batch_create("dave_near", 2),
            create_account(2),
            RecordedCall::And { promise_a: 1, promise_b: 2, index: 3 },
            batch_then(3, "eva_near", 4),
            create_account(4),
        ]
    );
}

#[test]
fn join_of_joins_holds_the_indices_of_the_joins() {
    let mut engine = Recorder::new();
    let left = create("a").and(create("b"), &mut engine);
    let right = create("c").and(create("d"), &mut engine);
    let mut all = left.and(right, &mut engine);
    let index = all.construct_recursively(&mut engine);
    assert_eq!(index, 6);
    assert!(names_only_what_was_opened(engine.calls()));
    let joins: Vec<&RecordedCall> =
        engine.calls().iter().filter(|c| matches!(c, RecordedCall::And { .. })).collect();
    assert_eq!(
        joins,
        vec![
            &RecordedCall::And { promise_a: 0, promise_b: 1, index: 4 },
            &RecordedCall::And { promise_a: 2, promise_b: 3, index: 5 },
            &RecordedCall::And { promise_a: 4, promise_b: 5, index: 6 },
        ]
    );
}

#[test]
fn empty_batch_is_opened_without_actions() {
    let mut engine = Recorder::new();
    let mut h = Promise::new("x".to_string());
    assert_eq!(h.construct_recursively(&mut engine), 0);
    assert_eq!(engine.calls(), &vec![batch_create("x", 0)]);
}

#[test]
fn new_with_return_makes_an_empty_batch() {
    let mut engine = Recorder::new();
    let mut h: Promise<u32> = Promise::new_with_return("x".to_string());
    assert!(!h.is_joint());
    assert!(!h.has_predecessor());
    assert!(!h.is_registered());
    assert_eq!(h.construct_recursively(&mut engine), 0);
    assert_eq!(engine.calls(), &vec![batch_create("x", 0)]);
}

#[test]
fn sequencing_after_a_registered_promise_registers_nothing_more() {
    let mut engine = Recorder::new();
    let mut h1 = create("a");
    let i1 = h1.construct_recursively(&mut engine);
    let seen = engine.calls().len();
    let mut h2 = h1.then(create("b"), &mut engine);
    assert_eq!(engine.calls().len(), seen);
    h2.construct_recursively(&mut engine);
    assert_eq!(engine.calls()[seen], batch_then(i1, "b", 1));
}

#[test]
fn wrapped_promise_is_marked_for_output() {
    let mut engine = Recorder::new();
    let wrapped: PromiseOrValue<()> = PromiseOrValue::from(create("a"));
    match wrapped.as_return() {
        PromiseOrValue::Promise(mut promise) => {
            assert_eq!(promise.construct_recursively(&mut engine), 0);
        }
        PromiseOrValue::Value(_) => panic!("a promise was wrapped"),
    }
    assert_eq!(
        engine.calls(),
        &vec![batch_create("a", 0), create_account(0), RecordedCall::Return { index: 0 }]
    );
}

#[test]
fn wrapped_promise_is_not_marked_by_wrapping() {
    let mut engine = Recorder::new();
    let wrapped: PromiseOrValue<()> = create("a").into();
    match wrapped {
        PromiseOrValue::Promise(mut promise) => {
            promise.construct_recursively(&mut engine);
        }
        PromiseOrValue::Value(_) => panic!("a promise was wrapped"),
    }
    assert_eq!(engine.calls(), &vec![batch_create("a", 0), create_account(0)]);
}

#[test]
fn wrapped_value_is_handed_on_unchanged() {
    let wrapped: PromiseOrValue<u64> = PromiseOrValue::Value(41);
    match wrapped.as_return() {
        PromiseOrValue::Value(value) => assert_eq!(value, 41),
        PromiseOrValue::Promise(_) => panic!("a value was wrapped"),
    }
}

#[test]
fn marked_operands_and_joins_name_only_what_was_opened() {
    let mut engine = Recorder::new();
    let left = create("a").transfer(1).as_return();
    let right = create("b").then(create("c").as_return(), &mut engine);
    let mut joined = left.and(right, &mut engine).as_return();
    let mut last = Promise::new("d".to_string()).delete_account("a".to_string());
    joined.construct_recursively(&mut engine);
    last = joined.then(last, &mut engine);
    last.construct_recursively(&mut engine);
    assert!(names_only_what_was_opened(engine.calls()));
    assert_eq!(
        engine.calls(),
        &vec![
            batch_create("b", 0),
            create_account(0),
            batch_create("a", 1),
            create_account(1),
            RecordedCall::Action { index: 1, action: PromiseAction::Transfer { amount: 1 } },
            RecordedCall::Return { index: 1 },
            batch_then(0, "c", 2),
            create_account(2),
            RecordedCall::Return { index: 2 },
            RecordedCall::And { promise_a: 1, promise_b: 2, index: 3 },
            RecordedCall::Return { index: 3 },
            batch_then(3, "d", 4),
            RecordedCall::Action {
                index: 4,
                action: PromiseAction::DeleteAccount { beneficiary_id: "a".to_string() },
            },
        ]
    );
}

fn reported_indices(calls: &[RecordedCall]) -> Vec<u64> {
    calls
        .iter()
        .filter_map(|c| match c {
            RecordedCall::Return { index } => Some(*index),
            _ => None,
        })
        .collect()
}

#[test]
fn marked_promise_reports_once_when_finalized_and_then_sequenced() {
    let mut engine = Recorder::new();
    let mut h = create("a").as_return();
    assert_eq!(h.construct_recursively(&mut engine), 0);
    let mut next = h.then(create("b"), &mut engine);
    next.construct_recursively(&mut engine);
    assert_eq!(reported_indices(engine.calls()), vec![0]);
    assert_eq!(
        engine.calls(),
        &vec![
            batch_create("a", 0),
            create_account(0),
            RecordedCall::Return { index: 0 },
            batch_then(0, "b", 1),
            create_account(1),
        ]
    );
}

#[test]
fn marked_promise_reports_once_when_finalized_and_then_joined() {
    let mut engine = Recorder::new();
    let mut h = create("a").as_return();
    assert_eq!(h.construct_recursively(&mut engine), 0);
    let mut joined = h.and(create("b"), &mut engine);
    assert_eq!(joined.construct_recursively(&mut engine), 2);
    assert_eq!(reported_indices(engine.calls()), vec![0]);
    assert_eq!(
        engine.calls(),
        &vec![
            batch_create("a", 0),
            create_account(0),
            RecordedCall::Return { index: 0 },
            batch_create("b", 1),
            create_account(1),
            RecordedCall::And { promise_a: 0, promise_b: 1, index: 2 },
        ]
    );
}

#[test]
fn marked_promise_reports_once_over_many_finalizations() {
    let mut engine = Recorder::new();
    let mut h = create("a").and(create("b"), &mut engine).as_return();
    for _ in 0..5 {
        assert_eq!(h.construct_recursively(&mut engine), 2);
    }
    assert_eq!(reported_indices(engine.calls()), vec![2]);
    assert_eq!(engine.calls().len(), 6);
}

#[test]
fn promise_marked_after_finalization_reports_at_the_next_one() {
    let mut engine = Recorder::new();
    let mut h = create("a");
    assert_eq!(h.construct_recursively(&mut engine), 0);
    assert_eq!(reported_indices(engine.calls()), Vec::<u64>::new());
    let mut h = h.as_return();
    assert_eq!(reported_indices(engine.calls()), Vec::<u64>::new());
    assert_eq!(h.construct_recursively(&mut engine), 0);
    assert_eq!(h.construct_recursively(&mut engine), 0);
    assert_eq!(
        engine.calls(),
        &vec![batch_create("a", 0), create_account(0), RecordedCall::Return { index: 0 }]
    );
}

#[test]
fn marking_again_after_the_report_reports_nothing_more() {
    let mut engine = Recorder::new();
    let mut h = create("a").as_return().as_return();
    h.construct_recursively(&mut engine);
    let mut h = h.as_return();
    h.construct_recursively(&mut engine);
    assert_eq!(reported_indices(engine.calls()), vec![0]);
}

#[test]
fn wait_for_is_sequencing_seen_from_the_waiting_promise() {
    let mut by_then = Recorder::new();
    let mut last = create("a").transfer(3).then(create("b"), &mut by_then);
    last.construct_recursively(&mut by_then);

    let mut by_wait = Recorder::new();
    let mut next = create("b").wait_for(create("a").transfer(3), &mut by_wait);
    assert!(next.has_predecessor());
    assert!(!next.is_registered());
    next.construct_recursively(&mut by_wait);

    assert_eq!(by_then.calls(), by_wait.calls());
    assert_eq!(
        by_wait.calls(),
        &vec![
            batch_create("a", 0),
            create_account(0),
            RecordedCall::Action { index: 0, action: PromiseAction::Transfer { amount: 3 } },
            batch_then(0, "b", 1),
            create_account(1),
        ]
    );
}

#[test]
fn sequencing_registers_the_first_promise_with_all_its_actions() {
    let mut engine = Recorder::new();
    let first = create("a").transfer(1).delete_key(vec![4]);
    let next = first.then(Promise::new("b".to_string()), &mut engine);
    assert!(next.has_predecessor());
    assert_eq!(
        engine.calls(),
        &vec![
            batch_create("a", 0),
            create_account(0),
            RecordedCall::Action { index: 0, action: PromiseAction::Transfer { amount: 1 } },
            RecordedCall::Action {
                index: 0,
                action: PromiseAction::DeleteKey { public_key: vec![4] },
            },
        ]
    );
}

#[test]
fn join_holds_no_actions_and_requests_none() {
    let mut engine = Recorder::new();
    let mut joined = create("a").and(create("b"), &mut engine);
    assert!(joined.is_joint());
    joined.construct_recursively(&mut engine);
    let on_join = engine
        .calls()
        .iter()
        .filter(|c| matches!(c, RecordedCall::Action { index: 2, .. }))
        .count();
    assert_eq!(on_join, 0);
}

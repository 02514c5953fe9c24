use proxy_balancer::semaphore::{
    LimitWatch, MessageChangeLimitCR, MessageSemaphore, PermitAction, PermitChange, PortPermits,
    Waiters,
};

#[test]
fn first_request_creates_the_semaphore() {
    let mut w = Waiters::new(4);
    let a = w.handle(MessageSemaphore::GetPermit { port: 9000, ticket: 1 }, None);
    assert_eq!(a, PermitAction::CreateAndGrant { port: 9000, ticket: 1, permits: 4 });
    assert_eq!(w.waiting(9000), 0);
}

#[test]
fn free_permit_is_granted_at_once() {
    let mut w = Waiters::new(4);
    let a = w.handle(MessageSemaphore::GetPermit { port: 9000, ticket: 7 }, Some(3));
    assert_eq!(a, PermitAction::Grant { port: 9000, ticket: 7 });
    assert_eq!(w.waiting(9000), 0);
}

#[test]
fn waiters_are_served_first_in_first_out() {
    let mut w = Waiters::new(1);
    for ticket in [10u64, 11, 12] {
        let a = w.handle(MessageSemaphore::GetPermit { port: 9000, ticket }, Some(0));
        assert_eq!(a, PermitAction::Queued);
    }
    assert_eq!(w.waiting(9000), 3);
    for ticket in [10u64, 11, 12] {
        let a = w.handle(MessageSemaphore::ReleasedPermit { port: 9000 }, Some(1));
        assert_eq!(a, PermitAction::Grant { port: 9000, ticket });
    }
    assert_eq!(w.waiting(9000), 0);
    let a = w.handle(MessageSemaphore::ReleasedPermit { port: 9000 }, Some(1));
    assert_eq!(a, PermitAction::Idle);
}

#[test]
fn queues_of_different_ports_do_not_mix() {
    let mut w = Waiters::new(1);
    w.handle(MessageSemaphore::GetPermit { port: 9000, ticket: 1 }, Some(0));
    w.handle(MessageSemaphore::GetPermit { port: 9001, ticket: 2 }, Some(0));
    w.handle(MessageSemaphore::GetPermit { port: 9000, ticket: 3 }, Some(0));
    assert_eq!(w.waiting(9000), 2);
    assert_eq!(w.waiting(9001), 1);
    assert_eq!(w.waiting(9002), 0);
    assert_eq!(
        w.handle(MessageSemaphore::ReleasedPermit { port: 9001 }, Some(1)),
        PermitAction::Grant { port: 9001, ticket: 2 }
    );
    assert_eq!(
        w.handle(MessageSemaphore::ReleasedPermit { port: 9002 }, Some(1)),
        PermitAction::Idle
    );
    assert_eq!(
        w.handle(MessageSemaphore::ReleasedPermit { port: 9000 }, Some(1)),
        PermitAction::Grant { port: 9000, ticket: 1 }
    );
    assert_eq!(w.waiting(9000), 1);
}

#[test]
fn waiter_keeps_its_place_while_no_permit_is_free() {
    let mut w = Waiters::new(1);
    for ticket in [5u64, 6, 7] {
        w.handle(MessageSemaphore::GetPermit { port: 9000, ticket }, Some(0));
    }
    // releases that find nothing free serve nobody and drop nobody
    assert_eq!(w.handle(MessageSemaphore::ReleasedPermit { port: 9000 }, Some(0)), PermitAction::Idle);
    assert_eq!(w.handle(MessageSemaphore::ReleasedPermit { port: 9000 }, None), PermitAction::Idle);
    assert_eq!(w.waiting(9000), 3);
    // the order is kept through them
    assert_eq!(
        w.handle(MessageSemaphore::ReleasedPermit { port: 9000 }, Some(1)),
        PermitAction::Grant { port: 9000, ticket: 5 }
    );
    assert_eq!(w.handle(MessageSemaphore::ReleasedPermit { port: 9000 }, Some(0)), PermitAction::Idle);
    assert_eq!(
        w.handle(MessageSemaphore::ReleasedPermit { port: 9000 }, Some(2)),
        PermitAction::Grant { port: 9000, ticket: 6 }
    );
    assert_eq!(
        w.handle(MessageSemaphore::ReleasedPermit { port: 9000 }, Some(1)),
        PermitAction::Grant { port: 9000, ticket: 7 }
    );
    assert_eq!(w.waiting(9000), 0);
}

#[test]
fn changes_of_the_limit_go_to_the_watch() {
    let mut w = Waiters::new(1);
    assert_eq!(
        w.handle(MessageSemaphore::AddPermits { n: 3 }, None),
        PermitAction::Forward { change: MessageChangeLimitCR::Increase { n: 3 } }
    );
    assert_eq!(
        w.handle(MessageSemaphore::ForgetPermits { n: 2 }, None),
        PermitAction::Forward { change: MessageChangeLimitCR::Decrease { n: 2 } }
    );
}

#[test]
fn idle_ports_are_reported() {
    let watch = LimitWatch::new(4);
    let seen = vec![
        PortPermits { port: 9000, available: 4 },
        PortPermits { port: 9001, available: 3 },
        PortPermits { port: 9002, available: 0 },
        PortPermits { port: 9003, available: 4 },
        PortPermits { port: 9004, available: 5 },
    ];
    let plan = watch.plan(None, &seen);
    assert_eq!(plan.released, vec![9000, 9003]);
    assert_eq!(plan.change, PermitChange::Keep);
}

#[test]
fn adding_permits_raises_the_limit_by_exactly_n() {
    let mut watch = LimitWatch::new(4);
    let plan = watch.plan(Some(MessageChangeLimitCR::Increase { n: 3 }), &vec![]);
    assert_eq!(plan.change, PermitChange::Add { n: 3 });
    assert!(watch.can_commit(plan.change));
    watch.commit(plan.change, 0, 2);
    assert_eq!(watch.number_concurrent_requests, 7);
}

#[test]
fn forgetting_permits_lowers_the_limit_by_at_most_n() {
    let mut watch = LimitWatch::new(4);
    let change = watch.plan(Some(MessageChangeLimitCR::Decrease { n: 3 }), &vec![]).change;
    assert_eq!(change, PermitChange::Forget { n: 3 });
    watch.commit(change, 2, 1);
    assert_eq!(watch.number_concurrent_requests, 2);
    watch.commit(PermitChange::Forget { n: 1 }, 5, 1);
    assert_eq!(watch.number_concurrent_requests, 1);
    watch.commit(PermitChange::Forget { n: 9 }, 9, 1);
    assert_eq!(watch.number_concurrent_requests, 0);
}

#[test]
fn limit_stays_while_no_semaphore_exists() {
    let mut watch = LimitWatch::new(4);
    watch.commit(PermitChange::Add { n: 3 }, 0, 0);
    assert_eq!(watch.number_concurrent_requests, 4);
    watch.commit(PermitChange::Forget { n: 3 }, 3, 0);
    assert_eq!(watch.number_concurrent_requests, 4);
    watch.commit(PermitChange::Keep, 0, 3);
    assert_eq!(watch.number_concurrent_requests, 4);
}

#[test]
fn change_by_zero_is_no_change() {
    let watch = LimitWatch::new(4);
    assert_eq!(watch.plan(Some(MessageChangeLimitCR::Increase { n: 0 }), &vec![]).change, PermitChange::Keep);
    assert_eq!(watch.plan(Some(MessageChangeLimitCR::Decrease { n: 0 }), &vec![]).change, PermitChange::Keep);
}

#[test]
fn addition_past_the_largest_number_is_not_committed() {
    let watch = LimitWatch::new(usize::MAX - 1);
    assert!(watch.can_commit(PermitChange::Add { n: 1 }));
    assert!(!watch.can_commit(PermitChange::Add { n: 2 }));
    assert!(watch.can_commit(PermitChange::Forget { n: usize::MAX }));
}

#[test]
fn decrease_by_one_while_three_permits_are_in_use() {
    let max = 5usize;
    let mut waiters = Waiters::new(max);
    let mut watch = LimitWatch::new(max);
    let port = 9000u16;
    // three requests take a permit each
    let mut available = max;
    assert_eq!(
        waiters.handle(MessageSemaphore::GetPermit { port, ticket: 1 }, None),
        PermitAction::CreateAndGrant { port, ticket: 1, permits: max }
    );
    available -= 1;
    for ticket in [2u64, 3] {
        assert_eq!(
            waiters.handle(MessageSemaphore::GetPermit { port, ticket }, Some(available)),
            PermitAction::Grant { port, ticket }
        );
        available -= 1;
    }
    assert_eq!(available, max - 3);
    // the limit is lowered by one
    let forward = waiters.handle(MessageSemaphore::ForgetPermits { n: 1 }, None);
    let change = match forward {
        PermitAction::Forward { change } => change,
        other => panic!("{:?}", other),
    };
    let plan = watch.plan(Some(change), &vec![PortPermits { port, available }]);
    assert!(plan.released.is_empty());
    assert_eq!(plan.change, PermitChange::Forget { n: 1 });
    available -= 1;
    watch.commit(plan.change, 1, 1);
    assert_eq!(watch.number_concurrent_requests, max - 1);
    // two permits come back: nobody waits, nobody is queued
    for _ in 0..2 {
        available += 1;
        let plan = watch.plan(None, &vec![PortPermits { port, available }]);
        assert!(plan.released.is_empty());
        assert_eq!(waiters.waiting(port), 0);
    }
    // with the third the port is idle at the new limit
    available += 1;
    let plan = watch.plan(None, &vec![PortPermits { port, available }]);
    assert_eq!(plan.released, vec![port]);
    assert_eq!(
        waiters.handle(MessageSemaphore::ReleasedPermit { port }, Some(available)),
        PermitAction::Idle
    );
    assert_eq!(waiters.waiting(port), 0);
}

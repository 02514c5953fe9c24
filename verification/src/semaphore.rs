//! Admission control: who waits for a permit of which worker port, and how
//! the limit of concurrent requests moves.
//!
//! The counting semaphores themselves are handled by the caller. The two
//! services of this module decide from what the caller observes of them: the
//! waiter service keeps one first-in first-out queue of waiters per port, the
//! release watch tells which ports are idle and tracks the limit.
use std::collections::HashMap;
use std::collections::VecDeque;
use vstd::prelude::*;

verus! {

broadcast use vstd::std_specs::hash::group_hash_axioms;

/// A change of the limit of concurrent requests, on its way from the waiter
/// service to the release watch.
#[derive(Debug, Clone, Copy, PartialEq, Eq, Structural)]
pub enum MessageChangeLimitCR {
    Increase { n: usize },
    Decrease { n: usize },
}

/// A request to the waiter service. A waiter is named by its ticket: the
/// caller keeps the reply slot that belongs to it.
#[derive(Debug, Clone, Copy, PartialEq, Eq, Structural)]
pub enum MessageSemaphore {
    GetPermit { port: u16, ticket: u64 },
    ReleasedPermit { port: u16 },
    AddPermits { n: usize },
    ForgetPermits { n: usize },
}

/// What the caller does after a step of the waiter service.
#[derive(Debug, Clone, Copy, PartialEq, Eq, Structural)]
pub enum PermitAction {
    /// Acquire a permit of the port's semaphore and hand it to the waiter.
    Grant { port: u16, ticket: u64 },
    /// Create the port's semaphore with `permits` permits, acquire one and
    /// hand it to the waiter.
    CreateAndGrant { port: u16, ticket: u64, permits: usize },
    /// The waiter was put in the queue of its port.
    Queued,
    /// Pass the change on to the release watch.
    Forward { change: MessageChangeLimitCR },
    /// Nothing to do.
    Idle,
}

/// A request for a permit of `port`: granted at once while the port's
/// semaphore has a free permit, queued behind the others while it has none;
/// a port without a semaphore (`available` is `None`) gets one and the
/// waiter its first permit.
pub open spec fn get_permit_step(
    queue: Seq<u64>,
    port: u16,
    ticket: u64,
    available: Option<usize>,
    permits: usize,
) -> (Seq<u64>, PermitAction) {
    match available {
        Some(a) => if a > 0 {
            (queue, PermitAction::Grant { port, ticket })
        } else {
            (queue.push(ticket), PermitAction::Queued)
        },
        None => (queue, PermitAction::CreateAndGrant { port, ticket, permits }),
    }
}

/// A release on `port`: the waiter at the head of the queue is served if a
/// permit is free, and only then leaves the queue. While none is free, or
/// the port has no semaphore, every waiter keeps its place.
pub open spec fn released_step(queue: Seq<u64>, port: u16, available: Option<usize>) -> (
    Seq<u64>,
    PermitAction,
) {
    if queue.len() > 0 && permit_free(available) {
        (queue.drop_first(), PermitAction::Grant { port, ticket: queue[0] })
    } else {
        (queue, PermitAction::Idle)
    }
}

/// Whether a look at a semaphore showed a free permit.
pub open spec fn permit_free(available: Option<usize>) -> bool {
    match available {
        Some(a) => a > 0,
        None => false,
    }
}

/// The waiter service: per worker port, the waiters in the order they came.
pub struct Waiters {
    /// Permits of a semaphore that is created on first use.
    pub max_concurrent_tile_requests: usize,
    pub queues: HashMap<u16, VecDeque<u64>>,
}

impl Waiters {
    /// The waiters of `port`, the one that came first in front.
    pub open spec fn queue(&self, port: u16) -> Seq<u64> {
        if self.queues@.contains_key(port) {
            self.queues@[port]@
        } else {
            Seq::<u64>::empty()
        }
    }

    /// A waiter service without waiters.
    pub fn new(max_concurrent_tile_requests: usize) -> (w: Waiters)
        ensures
            w.max_concurrent_tile_requests == max_concurrent_tile_requests,
            forall|p: u16| w.queue(p).len() == 0,
    {
        Waiters { max_concurrent_tile_requests, queues: HashMap::new() }
    }

    /// How many waiters stand in the queue of `port`.
    pub fn waiting(&self, port: u16) -> (n: usize)
        ensures
            n == self.queue(port).len(),
    {
        match self.queues.get(&port) {
            Some(q) => q.len(),
            None => 0,
        }
    }

    /// Handles one request. `available` is what the semaphore of the
    /// request's port shows as free permits, `None` where the port has no
    /// semaphore; it is not read for a change of the limit.
    pub fn handle(&mut self, message: MessageSemaphore, available: Option<usize>) -> (action:
        PermitAction)
        ensures
            final(self).max_concurrent_tile_requests == old(self).max_concurrent_tile_requests,
            match message {
                MessageSemaphore::GetPermit { port, ticket } => {
                    &&& (final(self).queue(port), action) == get_permit_step(
                        old(self).queue(port),
                        port,
                        ticket,
                        available,
                        old(self).max_concurrent_tile_requests,
                    )
                    &&& forall|p: u16| p != port ==> final(self).queue(p) == old(self).queue(p)
                },
                MessageSemaphore::ReleasedPermit { port } => {
                    &&& (final(self).queue(port), action) == released_step(
                        old(self).queue(port),
                        port,
                        available,
                    )
                    &&& forall|p: u16| p != port ==> final(self).queue(p) == old(self).queue(p)
                },
                MessageSemaphore::AddPermits { n } => {
                    &&& action == PermitAction::Forward {
                        change: MessageChangeLimitCR::Increase { n },
                    }
                    &&& forall|p: u16| final(self).queue(p) == old(self).queue(p)
                },
                MessageSemaphore::ForgetPermits { n } => {
                    &&& action == PermitAction::Forward {
                        change: MessageChangeLimitCR::Decrease { n },
                    }
                    &&& forall|p: u16| final(self).queue(p) == old(self).queue(p)
                },
            },
    {
        match message {
            MessageSemaphore::GetPermit { port, ticket } => match available {
                Some(a) => {
                    if a > 0 {
                        PermitAction::Grant { port, ticket }
                    } else {
                        let mut q = match self.queues.remove(&port) {
                            Some(q) => q,
                            None => VecDeque::new(),
                        };
                        q.push_back(ticket);
                        self.queues.insert(port, q);
                        assert(final(self).queue(port) =~= old(self).queue(port).push(ticket));
                        PermitAction::Queued
                    }
                },
                None => PermitAction::CreateAndGrant {
                    port,
                    ticket,
                    permits: self.max_concurrent_tile_requests,
                },
            },
            MessageSemaphore::ReleasedPermit { port } => {
                let free = match available {
                    Some(a) => a > 0,
                    None => false,
                };
                if !free {
                    return PermitAction::Idle;
                }
                let mut q = match self.queues.remove(&port) {
                    Some(q) => q,
                    None => {
                        return PermitAction::Idle;
                    },
                };
                let head = q.pop_front();
                self.queues.insert(port, q);
                match head {
                    None => {
                        assert(final(self).queue(port) =~= old(self).queue(port));
                        PermitAction::Idle
                    },
                    Some(ticket) => {
                        assert(final(self).queue(port) =~= old(self).queue(port).drop_first());
                        PermitAction::Grant { port, ticket }
                    },
                }
            },
            MessageSemaphore::AddPermits { n } => PermitAction::Forward {
                change: MessageChangeLimitCR::Increase { n },
            },
            MessageSemaphore::ForgetPermits { n } => PermitAction::Forward {
                change: MessageChangeLimitCR::Decrease { n },
            },
        }
    }
}

/// What a semaphore shows at one look.
#[derive(Debug, Clone, Copy, PartialEq, Eq, Structural)]
pub struct PortPermits {
    pub port: u16,
    pub available: usize,
}

/// What the release watch applies to every semaphore.
#[derive(Debug, Clone, Copy, PartialEq, Eq, Structural)]
pub enum PermitChange {
    Keep,
    /// Add `n` permits.
    Add { n: usize },
    /// Forget up to `n` permits.
    Forget { n: usize },
}

/// The change that a pending message asks for; nothing for `n == 0`.
pub open spec fn change_of(message: Option<MessageChangeLimitCR>) -> PermitChange {
    match message {
        Some(MessageChangeLimitCR::Increase { n }) => if n > 0 {
            PermitChange::Add { n }
        } else {
            PermitChange::Keep
        },
        Some(MessageChangeLimitCR::Decrease { n }) => if n > 0 {
            PermitChange::Forget { n }
        } else {
            PermitChange::Keep
        },
        None => PermitChange::Keep,
    }
}

/// A port is idle when all permits up to the limit are free.
pub open spec fn idle_port(p: PortPermits, limit: usize) -> Option<u16> {
    if p.available == limit {
        Some(p.port)
    } else {
        None
    }
}

/// The idle ports among those observed, in the order observed.
pub open spec fn idle_ports(observed: Seq<PortPermits>, limit: usize) -> Seq<u16> {
    observed.filter_map(|p: PortPermits| idle_port(p, limit))
}

/// The limit after a change was applied to `ports` semaphores, the last of
/// which reported `forgotten` permits as actually forgotten: without a
/// semaphore the limit stays; an addition raises it by exactly `n`; a
/// reduction lowers it by what was forgotten, never by more than `n` and
/// never below zero.
pub open spec fn limit_after(limit: usize, change: PermitChange, forgotten: usize, ports: usize) -> int {
    if ports == 0 {
        limit as int
    } else {
        match change {
            PermitChange::Keep => limit as int,
            PermitChange::Add { n } => limit + n,
            PermitChange::Forget { n } => {
                let by = if forgotten <= n {
                    forgotten
                } else {
                    n
                };
                if by <= limit {
                    limit - by
                } else {
                    0
                }
            },
        }
    }
}

/// What one tick of the release watch asks of the caller.
#[derive(Debug, Clone)]
pub struct WatchPlan {
    /// The ports to report as released, in order.
    pub released: Vec<u16>,
    /// The change to apply to every semaphore.
    pub change: PermitChange,
}

/// The release watch: the limit of concurrent requests as it stands.
#[derive(Debug, Clone, Copy, PartialEq, Eq, Structural)]
pub struct LimitWatch {
    pub number_concurrent_requests: usize,
}

impl LimitWatch {
    /// A release watch that starts at the configured limit.
    pub fn new(max_concurrent_tile_requests: usize) -> (w: LimitWatch)
        ensures
            w.number_concurrent_requests == max_concurrent_tile_requests,
    {
        LimitWatch { number_concurrent_requests: max_concurrent_tile_requests }
    }

    /// One tick: from the pending change, if any, and a look at every
    /// semaphore, which ports are idle and what is to be applied to all.
    pub fn plan(&self, pending: Option<MessageChangeLimitCR>, observed: &Vec<PortPermits>) -> (plan:
        WatchPlan)
        ensures
            plan.released@ == idle_ports(observed@, self.number_concurrent_requests),
            plan.change == change_of(pending),
    {
        let change = match pending {
            Some(MessageChangeLimitCR::Increase { n }) => if n > 0 {
                PermitChange::Add { n }
            } else {
                PermitChange::Keep
            },
            Some(MessageChangeLimitCR::Decrease { n }) => if n > 0 {
                PermitChange::Forget { n }
            } else {
                PermitChange::Keep
            },
            None => PermitChange::Keep,
        };
        let mut released: Vec<u16> = Vec::new();
        let mut i: usize = 0;
        assert(observed@.take(0) =~= Seq::<PortPermits>::empty());
        while i < observed.len()
            invariant
                i <= observed.len(),
                released@ == idle_ports(observed@.take(i as int), self.number_concurrent_requests),
            decreases observed.len() - i,
        {
            let p = observed[i];
            proof {
                assert(observed@.take(i + 1).drop_last() =~= observed@.take(i as int));
            }
            if p.available == self.number_concurrent_requests {
                released.push(p.port);
            }
            i += 1;
        }
        assert(observed@.take(observed.len() as int) =~= observed@);
        WatchPlan { released, change }
    }

    /// Whether `change` can be committed: an addition must not carry the
    /// limit past what `usize` holds.
    pub open spec fn admits(&self, change: PermitChange) -> bool {
        change matches PermitChange::Add { n } ==> self.number_concurrent_requests + n
            <= usize::MAX
    }

    /// Whether `change` can be committed.
    pub fn can_commit(&self, change: PermitChange) -> (r: bool)
        ensures
            r == self.admits(change),
    {
        match change {
            PermitChange::Add { n } => n <= usize::MAX - self.number_concurrent_requests,
            _ => true,
        }
    }

    /// Closes a tick after the caller applied `change` to `ports`
    /// semaphores; `forgotten` is what the last of them reported as actually
    /// forgotten.
    pub fn commit(&mut self, change: PermitChange, forgotten: usize, ports: usize)
        requires
            old(self).admits(change),
        ensures
            final(self).number_concurrent_requests == limit_after(
                old(self).number_concurrent_requests,
                change,
                forgotten,
                ports,
            ),
    {
        if ports > 0 {
            match change {
                PermitChange::Keep => {},
                PermitChange::Add { n } => {
                    self.number_concurrent_requests = self.number_concurrent_requests + n;
                },
                PermitChange::Forget { n } => {
                    let by = if forgotten <= n {
                        forgotten
                    } else {
                        n
                    };
                    if by <= self.number_concurrent_requests {
                        self.number_concurrent_requests = self.number_concurrent_requests - by;
                    } else {
                        self.number_concurrent_requests = 0;
                    }
                },
            }
        }
    }
}

/// The queue after the waiters of `tickets` asked in turn for a permit of a
/// port that had none free.
pub open spec fn after_booked_requests(queue: Seq<u64>, port: u16, tickets: Seq<u64>) -> Seq<u64>
    decreases tickets.len(),
{
    if tickets.len() == 0 {
        queue
    } else {
        get_permit_step(
            after_booked_requests(queue, port, tickets.drop_last()),
            port,
            tickets.last(),
            Some(0usize),
            0,
        ).0
    }
}

/// The waiters left in the queue after one release for each look of
/// `looks`, in turn; a look is what the semaphore showed as free permits.
pub open spec fn left_after(queue: Seq<u64>, port: u16, looks: Seq<Option<usize>>) -> Seq<u64>
    decreases looks.len(),
{
    if looks.len() == 0 {
        queue
    } else {
        released_step(left_after(queue, port, looks.drop_last()), port, looks.last()).0
    }
}

/// The waiters that were handed a permit by those releases, in the order in
/// which they got it.
pub open spec fn served_by(queue: Seq<u64>, port: u16, looks: Seq<Option<usize>>) -> Seq<u64>
    decreases looks.len(),
{
    if looks.len() == 0 {
        Seq::<u64>::empty()
    } else {
        let before = served_by(queue, port, looks.drop_last());
        match released_step(left_after(queue, port, looks.drop_last()), port, looks.last()).1 {
            PermitAction::Grant { port, ticket } => before.push(ticket),
            _ => before,
        }
    }
}

/// How many of the looks showed a free permit.
pub open spec fn free_looks(looks: Seq<Option<usize>>) -> nat
    decreases looks.len(),
{
    if looks.len() == 0 {
        0
    } else if permit_free(looks.last()) {
        free_looks(looks.drop_last()) + 1
    } else {
        free_looks(looks.drop_last())
    }
}

/// Waiters that find their port booked line up behind those already there.
pub proof fn lemma_booked_requests_line_up(queue: Seq<u64>, port: u16, tickets: Seq<u64>)
    ensures
        after_booked_requests(queue, port, tickets) == queue + tickets,
    decreases tickets.len(),
{
    if tickets.len() > 0 {
        lemma_booked_requests_line_up(queue, port, tickets.drop_last());
        assert(queue + tickets =~= (queue + tickets.drop_last()).push(tickets.last()));
    } else {
        assert(queue + tickets =~= queue);
    }
}

/// No waiter is skipped and none is dropped: whatever the semaphore shows at
/// each release, the waiters served so far and the waiters still queued
/// are, in this order, the queue as it was; and exactly one waiter is served
/// for each release that finds a permit free, as long as one waits.
pub proof fn lemma_no_waiter_lost(queue: Seq<u64>, port: u16, looks: Seq<Option<usize>>)
    ensures
        served_by(queue, port, looks) + left_after(queue, port, looks) == queue,
        served_by(queue, port, looks).len() == (if free_looks(looks) <= queue.len() {
            free_looks(looks)
        } else {
            queue.len()
        }),
    decreases looks.len(),
{
    if looks.len() > 0 {
        let head = looks.drop_last();
        lemma_no_waiter_lost(queue, port, head);
        let served = served_by(queue, port, head);
        let left = left_after(queue, port, head);
        if left.len() > 0 && permit_free(looks.last()) {
            assert(served.push(left[0]) + left.drop_first() =~= served + left);
        }
    } else {
        assert(Seq::<u64>::empty() + queue =~= queue);
    }
}

/// First in, first out: where `a`, `b`, `c` ask in this order for a permit
/// of a port that is fully booked and has nobody waiting, none of them is
/// served while no permit is free, and the permits that come back are
/// handed to `a`, then `b`, then `c`, one each.
pub proof fn lemma_fifo_waiter_order(port: u16, a: u64, b: u64, c: u64, booked: Seq<Option<usize>>)
    requires
        free_looks(booked) == 0,
    ensures
        ({
            let queue = after_booked_requests(Seq::<u64>::empty(), port, seq![a, b, c]);
            let free = Some(1usize);
            &&& queue == seq![a, b, c]
            &&& served_by(queue, port, booked).len() == 0
            &&& left_after(queue, port, booked) == queue
            &&& served_by(queue, port, booked + seq![free]) == seq![a]
            &&& served_by(queue, port, booked + seq![free, free]) == seq![a, b]
            &&& served_by(queue, port, booked + seq![free, free, free]) == seq![a, b, c]
            &&& left_after(queue, port, booked + seq![free, free, free]).len() == 0
        }),
{
    let tickets = seq![a, b, c];
    let free = Some(1usize);
    lemma_booked_requests_line_up(Seq::<u64>::empty(), port, tickets);
    assert(Seq::<u64>::empty() + tickets =~= tickets);
    lemma_no_waiter_lost(tickets, port, booked);
    assert(served_by(tickets, port, booked) =~= Seq::<u64>::empty());
    assert(left_after(tickets, port, booked) =~= tickets);
    let one = booked + seq![free];
    let two = booked + seq![free, free];
    let three = booked + seq![free, free, free];
    assert(one.drop_last() =~= booked);
    assert(two.drop_last() =~= one);
    assert(three.drop_last() =~= two);
    assert(one.last() == free && two.last() == free && three.last() == free);
    assert(served_by(tickets, port, one) =~= seq![a]);
    assert(left_after(tickets, port, one) =~= seq![b, c]);
    assert(served_by(tickets, port, two) =~= seq![a, b]);
    assert(left_after(tickets, port, two) =~= seq![c]);
    assert(served_by(tickets, port, three) =~= seq![a, b, c]);
    assert(left_after(tickets, port, three) =~= Seq::<u64>::empty());
}

/// A permit is granted only on a look that showed one free, and a waiter is
/// queued only on a look that showed none.
pub proof fn lemma_grant_needs_free_permit(
    queue: Seq<u64>,
    port: u16,
    ticket: u64,
    available: usize,
    permits: usize,
)
    ensures
        get_permit_step(queue, port, ticket, Some(available), permits).1 is Grant <==> available
            > 0,
        get_permit_step(queue, port, ticket, Some(available), permits).1 is Queued <==> available
            == 0,
        released_step(queue, port, Some(available)).1 is Grant <==> available > 0 && queue.len()
            > 0,
        released_step(queue, port, None).1 == PermitAction::Idle,
{
}

/// While any semaphore exists, adding permits raises the limit by exactly
/// `n`, and forgetting permits lowers it by at most `n`.
pub proof fn lemma_limit_changes(limit: usize, n: usize, forgotten: usize, ports: usize)
    requires
        ports > 0,
    ensures
        limit_after(limit, PermitChange::Add { n }, forgotten, ports) == limit + n,
        limit - n <= limit_after(limit, PermitChange::Forget { n }, forgotten, ports) <= limit,
        forgotten <= n && forgotten <= limit ==> limit_after(
            limit,
            PermitChange::Forget { n },
            forgotten,
            ports,
        ) == limit - forgotten,
{
}

} // verus!

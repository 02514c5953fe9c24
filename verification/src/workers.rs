//! The worker pool as the pool manager sees it: the ordered list of worker
//! ports with its round-robin cursor, the choice of free ports, and the
//! interlock that keeps scheduled reloads a minute apart.
use std::collections::HashMap;
use vstd::prelude::*;
use crate::config::{Config, ConfigView};
use crate::text::{decimal, push_decimal, str_eq};
use crate::time::{Instant, elapsed_nanos};
use crate::utils::string_views;
use vstd::arithmetic::div_mod::{
    lemma_fundamental_div_mod, lemma_fundamental_div_mod_converse, lemma_mod_bound,
};

verus! {

broadcast use vstd::std_specs::hash::group_hash_axioms;

/// What the pool manager answers when asked whether a reload may start.
#[derive(Debug, Clone, Copy, PartialEq, Eq, Structural)]
pub enum WorkerState {
    Running,
    Reloading,
}

/// A reload is refused while less than sixty whole seconds have passed since
/// the last one that was let through.
pub open spec fn within_interlock(last: Instant, now: Instant) -> bool {
    elapsed_nanos(last, now) < 60_000_000_000
}

/// The answer to a state query at `now`, and the moment remembered after it.
pub open spec fn state_at(last: Option<Instant>, now: Instant) -> (WorkerState, Option<Instant>) {
    match last {
        Some(l) => if within_interlock(l, now) {
            (WorkerState::Reloading, last)
        } else {
            (WorkerState::Running, Some(now))
        },
        None => (WorkerState::Running, Some(now)),
    }
}

/// The worker that a request is handed to.
#[derive(Debug, Clone)]
pub struct WorkerSlot {
    /// The worker's port.
    pub port: u16,
    /// Its place in `ports`.
    pub index: usize,
    /// All worker ports, in pool order.
    pub ports: Vec<u16>,
}

/// The pool: worker ports in the order they were added, the cursor of the
/// round robin, and the moment of the last reload that was let through.
#[derive(Debug, Clone)]
pub struct WorkerPool {
    pub ports: Vec<u16>,
    pub next: usize,
    pub last_reload: Option<Instant>,
}

/// The place that a cursor `next` selects in a pool of `n` workers: itself,
/// or the first place once it has run past the end.
pub open spec fn selected(next: int, n: int) -> int {
    if next >= n {
        0
    } else {
        next
    }
}

/// The place handed out by the call number `k`, counted from zero, when the
/// first call handed out `first`: the places follow each other in a circle.
pub open spec fn place_of_call(first: int, n: int, k: nat) -> int {
    (first + k) % n
}

/// How often the place `j` is handed out by the first `k` calls.
pub open spec fn visits(first: int, n: int, k: nat, j: int) -> nat
    decreases k,
{
    if k == 0 {
        0
    } else {
        let before = visits(first, n, (k - 1) as nat, j);
        if place_of_call(first, n, (k - 1) as nat) == j {
            before + 1
        } else {
            before
        }
    }
}

impl WorkerPool {
    /// No two workers share a port.
    pub open spec fn wf(&self) -> bool {
        self.ports@.no_duplicates()
    }

    /// A pool over the given ports.
    pub fn new(ports: Vec<u16>) -> (pool: WorkerPool)
        requires
            ports@.no_duplicates(),
        ensures
            pool.wf(),
            pool.ports@ == ports@,
            pool.next == 0,
            pool.last_reload is None,
    {
        WorkerPool { ports, next: 0, last_reload: None }
    }

    /// Hands out the next worker in turn; `None` for an empty pool, which
    /// leaves the cursor where it is.
    pub fn get_worker_data(&mut self) -> (r: Option<WorkerSlot>)
        ensures
            final(self).ports@ == old(self).ports@,
            final(self).last_reload == old(self).last_reload,
            old(self).ports.len() == 0 ==> r is None && final(self).next == old(self).next,
            old(self).ports.len() > 0 ==> r is Some && ({
                let slot = r->Some_0;
                let n = old(self).ports.len() as int;
                &&& slot.index == selected(old(self).next as int, n)
                &&& slot.port == old(self).ports@[slot.index as int]
                &&& slot.ports@ == old(self).ports@
                &&& final(self).next == slot.index + 1
            }),
    {
        let n = self.ports.len();
        if n == 0 {
            return None;
        }
        let index = if self.next >= n {
            0
        } else {
            self.next
        };
        self.next = index + 1;
        Some(WorkerSlot { port: self.ports[index], index, ports: self.ports.clone() })
    }

    /// Whether `port` belongs to a worker of the pool.
    pub fn contains(&self, port: u16) -> (r: bool)
        ensures
            r == self.ports@.contains(port),
    {
        let mut i: usize = 0;
        while i < self.ports.len()
            invariant
                i <= self.ports.len(),
                forall|j: int| 0 <= j < i ==> self.ports@[j] != port,
            decreases self.ports.len() - i,
        {
            if self.ports[i] == port {
                return true;
            }
            i += 1;
        }
        false
    }

    /// Appends a worker on `port`; a port that is already in the pool is not
    /// added twice.
    pub fn add_worker(&mut self, port: u16) -> (added: bool)
        requires
            old(self).wf(),
        ensures
            final(self).wf(),
            added == !old(self).ports@.contains(port),
            added ==> final(self).ports@ == old(self).ports@.push(port),
            !added ==> final(self).ports@ == old(self).ports@,
            final(self).next == old(self).next,
            final(self).last_reload == old(self).last_reload,
    {
        if self.contains(port) {
            return false;
        }
        self.ports.push(port);
        true
    }

    /// Forgets every worker, as a reload and a termination do. The cursor
    /// stays: it falls back to the first place once it points past the end.
    pub fn clear(&mut self)
        ensures
            final(self).wf(),
            final(self).ports@.len() == 0,
            final(self).next == old(self).next,
            final(self).last_reload == old(self).last_reload,
    {
        self.ports.clear();
    }

    /// Answers a scheduled reload that asks at `now` whether it may start:
    /// `Reloading` while the last one let through is less than sixty seconds
    /// old, else `Running`, and then `now` is remembered.
    pub fn get_worker_state(&mut self, now: Instant) -> (r: WorkerState)
        ensures
            (r, final(self).last_reload) == state_at(old(self).last_reload, now),
            final(self).ports@ == old(self).ports@,
            final(self).next == old(self).next,
    {
        match self.last_reload {
            Some(last) => {
                let diff: i128 = (now.secs as i128 - last.secs as i128) * 1_000_000_000 + (
                now.nanos as i128 - last.nanos as i128);
                if diff < 60_000_000_000 {
                    WorkerState::Reloading
                } else {
                    self.last_reload = Some(now);
                    WorkerState::Running
                }
            },
            None => {
                self.last_reload = Some(now);
                WorkerState::Running
            },
        }
    }
}

/// The place handed out by the call number `k`, counted from zero, of a pool
/// of `n` workers whose cursor stands at `next` before the first call.
pub open spec fn index_of_call(next: int, n: int, k: nat) -> int
    decreases k,
{
    if k == 0 {
        selected(next, n)
    } else {
        selected(index_of_call(next, n, (k - 1) as nat) + 1, n)
    }
}

/// How far the place `j` lies after the place `first` on the circle.
pub open spec fn offset(first: int, j: int, n: int) -> int {
    if j >= first {
        j - first
    } else {
        j - first + n
    }
}

proof fn lemma_succ_mod(a: int, n: int)
    requires
        a >= 0,
        n > 0,
    ensures
        0 <= a % n < n,
        (a + 1) % n == (if a % n == n - 1 {
            0
        } else {
            a % n + 1
        }),
        (a + 1) / n == (if a % n == n - 1 {
            a / n + 1
        } else {
            a / n
        }),
{
    lemma_fundamental_div_mod(a, n);
    lemma_mod_bound(a, n);
    let q = a / n;
    let r = a % n;
    if r == n - 1 {
        assert(a + 1 == (q + 1) * n + 0) by (nonlinear_arith)
            requires
                a == n * q + r,
                r == n - 1,
        ;
        lemma_fundamental_div_mod_converse(a + 1, n, q + 1, 0);
    } else {
        assert(a + 1 == q * n + (r + 1)) by (nonlinear_arith)
            requires
                a == n * q + r,
        ;
        lemma_fundamental_div_mod_converse(a + 1, n, q, r + 1);
    }
}

proof fn lemma_place(first: int, n: int, t: nat, j: int)
    requires
        0 <= first < n,
        0 <= j < n,
    ensures
        place_of_call(first, n, t) == j <==> t % (n as nat) == offset(first, j, n),
{
    let ti = t as int;
    lemma_fundamental_div_mod(ti, n);
    lemma_mod_bound(ti, n);
    let q = ti / n;
    let r = ti % n;
    if first + r < n {
        assert(first + ti == q * n + (first + r)) by (nonlinear_arith)
            requires
                ti == n * q + r,
        ;
        lemma_fundamental_div_mod_converse(first + ti, n, q, first + r);
    } else {
        assert(first + ti == (q + 1) * n + (first + r - n)) by (nonlinear_arith)
            requires
                ti == n * q + r,
        ;
        lemma_fundamental_div_mod_converse(first + ti, n, q + 1, first + r - n);
    }
}

proof fn lemma_visits(first: int, n: int, k: nat, j: int)
    requires
        0 <= first < n,
        0 <= j < n,
    ensures
        visits(first, n, k, j) == (k as int) / n + (if offset(first, j, n) < (k as int) % n {
            1int
        } else {
            0int
        }),
    decreases k,
{
    if k == 0 {
        lemma_fundamental_div_mod_converse(0, n, 0, 0);
    } else {
        let p = (k - 1) as nat;
        lemma_visits(first, n, p, j);
        lemma_place(first, n, p, j);
        lemma_succ_mod(p as int, n);
    }
}

/// Round-robin order: successive calls hand out the places of the pool one
/// after the other in a circle, starting at the place the cursor selects.
pub proof fn lemma_round_robin_order(next: int, n: int, k: nat)
    requires
        n > 0,
        next >= 0,
    ensures
        0 <= index_of_call(next, n, k) < n,
        index_of_call(next, n, k) == place_of_call(selected(next, n), n, k),
    decreases k,
{
    let first = selected(next, n);
    if k == 0 {
        lemma_fundamental_div_mod_converse(first, n, 0, first);
    } else {
        let p = (k - 1) as nat;
        lemma_round_robin_order(next, n, p);
        lemma_succ_mod(first + p, n);
    }
}

/// Round-robin fairness: over any number of successive calls against a pool
/// of `n` workers, every place is handed out either `calls / n` times,
/// rounded down, or that rounded up.
pub proof fn lemma_round_robin_fair(next: int, n: int, calls: nat, j: int)
    requires
        n > 0,
        next >= 0,
        0 <= j < n,
    ensures
        visits(selected(next, n), n, calls, j) == (calls as int) / n || visits(
            selected(next, n),
            n,
            calls,
            j,
        ) == (calls as int + n - 1) / n,
        forall|k: nat| #[trigger]
            index_of_call(next, n, k) == place_of_call(selected(next, n), n, k),
{
    let first = selected(next, n);
    let c = calls as int;
    lemma_visits(first, n, calls, j);
    lemma_fundamental_div_mod(c, n);
    lemma_mod_bound(c, n);
    let q = c / n;
    let r = c % n;
    if r > 0 {
        assert(c + n - 1 == (q + 1) * n + (r - 1)) by (nonlinear_arith)
            requires
                c == n * q + r,
        ;
        lemma_fundamental_div_mod_converse(c + n - 1, n, q + 1, r - 1);
    }
    assert forall|k: nat| #[trigger]
        index_of_call(next, n, k) == place_of_call(selected(next, n), n, k) by {
        lemma_round_robin_order(next, n, k);
    }
}

/// How often the places below `m` are handed out, all together, by the
/// first `k` calls.
pub open spec fn visits_below(first: int, n: int, k: nat, m: nat) -> nat
    decreases m,
{
    if m == 0 {
        0
    } else {
        visits_below(first, n, k, (m - 1) as nat) + visits(first, n, k, m - 1)
    }
}

proof fn lemma_one_more_visit(first: int, n: int, k: nat, m: nat)
    requires
        n > 0,
        0 <= first < n,
        k > 0,
        m <= n,
    ensures
        visits_below(first, n, k, m) == visits_below(first, n, (k - 1) as nat, m) + (
        if place_of_call(first, n, (k - 1) as nat) < m {
            1nat
        } else {
            0nat
        }),
    decreases m,
{
    lemma_mod_bound(first + (k - 1), n);
    if m > 0 {
        lemma_one_more_visit(first, n, k, (m - 1) as nat);
    }
}

/// Round-robin fairness, the sum: the counts of all places add up to the
/// number of calls, so every call hands out exactly one worker.
pub proof fn lemma_round_robin_total(next: int, n: int, calls: nat)
    requires
        n > 0,
        next >= 0,
    ensures
        visits_below(selected(next, n), n, calls, n as nat) == calls,
    decreases calls,
{
    let first = selected(next, n);
    if calls == 0 {
        lemma_no_visits(first, n, n as nat);
    } else {
        lemma_round_robin_total(next, n, (calls - 1) as nat);
        lemma_one_more_visit(first, n, calls, n as nat);
        lemma_mod_bound(first + (calls - 1), n);
    }
}

proof fn lemma_no_visits(first: int, n: int, m: nat)
    ensures
        visits_below(first, n, 0, m) == 0,
    decreases m,
{
    if m > 0 {
        lemma_no_visits(first, n, (m - 1) as nat);
    }
}

/// Reload interlock: once a scheduled reload was let through at `first`, one
/// that asks less than sixty seconds later is answered `Reloading`, and the
/// remembered moment stays `first`.
pub proof fn lemma_reload_interlock(last: Option<Instant>, first: Instant, second: Instant)
    requires
        state_at(last, first).0 == WorkerState::Running,
        within_interlock(first, second),
    ensures
        state_at(state_at(last, first).1, second) == (WorkerState::Reloading, Some(first)),
{
}

/// A port can be taken if it lies in the range and is neither in use by the
/// pool nor known to be taken by someone else.
pub open spec fn port_free(p: int, from: u16, to: u16, exclude: Seq<u16>, busy: Seq<u16>) -> bool {
    from <= p <= to && !exclude.contains(p as u16) && !busy.contains(p as u16)
}

fn holds(ports: &[u16], port: u16) -> (r: bool)
    ensures
        r == ports@.contains(port),
{
    let mut i: usize = 0;
    while i < ports.len()
        invariant
            i <= ports.len(),
            forall|j: int| 0 <= j < i ==> ports@[j] != port,
        decreases ports.len() - i,
    {
        if ports[i] == port {
            return true;
        }
        i += 1;
    }
    false
}

/// The lowest port of `port_from ..= port_to` that is neither in
/// `exclude_ports` nor in `busy`, the ports that a listener could not be
/// bound to; `None` where the range holds no such port.
pub fn get_available_port(port_from: u16, port_to: u16, exclude_ports: &[u16], busy: &[u16]) -> (r:
    Option<u16>)
    ensures
        r matches Some(p) ==> port_free(p as int, port_from, port_to, exclude_ports@, busy@)
            && forall|q: int|
            port_from <= q < p ==> !port_free(q, port_from, port_to, exclude_ports@, busy@),
        r is None ==> forall|q: int| !port_free(q, port_from, port_to, exclude_ports@, busy@),
{
    if port_from > port_to {
        return None;
    }
    let mut p: u16 = port_from;
    loop
        invariant
            port_from <= p <= port_to,
            forall|q: int|
                port_from <= q < p ==> !port_free(q, port_from, port_to, exclude_ports@, busy@),
        decreases port_to - p,
    {
        if !holds(exclude_ports, p) && !holds(busy, p) {
            return Some(p);
        }
        if p == port_to {
            return None;
        }
        p += 1;
    }
}

/// One child process of a worker as the system reports it.
#[derive(Debug, Clone, Copy, PartialEq, Eq, Structural)]
pub struct ChildProbe {
    pub child: u32,
    pub parent: u32,
    /// The child's memory in bytes, if the child is alive.
    pub child_memory: Option<u64>,
    /// Whether the parent is alive.
    pub parent_alive: bool,
}

/// The process tree below each worker, by the worker's process id.
#[derive(Debug, Clone)]
pub struct SystemInfoWorkers {
    /// Per worker: its live children, each with its parent.
    pub worker_childs: HashMap<u32, Vec<(u32, u32)>>,
    /// Per worker: the memory of each live child, in bytes.
    pub worker_memory: HashMap<u32, Vec<u64>>,
}

/// A child counts as live if it is alive itself and its parent is too.
pub open spec fn live_pair(p: ChildProbe) -> Option<(u32, u32)> {
    if p.child_memory is Some && p.parent_alive {
        Some((p.child, p.parent))
    } else {
        None
    }
}

/// The live children among `probes`, each with its parent, in order.
pub open spec fn live_children(probes: Seq<ChildProbe>) -> Seq<(u32, u32)> {
    probes.filter_map(|p: ChildProbe| live_pair(p))
}

/// The memory of every child that is alive, whatever its parent, in order.
pub open spec fn children_memory(probes: Seq<ChildProbe>) -> Seq<u64> {
    probes.filter_map(|p: ChildProbe| p.child_memory)
}

impl SystemInfoWorkers {
    /// Nothing is known of any worker yet.
    pub fn new() -> (r: SystemInfoWorkers)
        ensures
            r.worker_childs@ == Map::<u32, Vec<(u32, u32)>>::empty(),
            r.worker_memory@ == Map::<u32, Vec<u64>>::empty(),
    {
        SystemInfoWorkers { worker_childs: HashMap::new(), worker_memory: HashMap::new() }
    }

    /// Records what was found below the worker `pid`, in place of what was
    /// recorded for it before.
    pub fn record(&mut self, pid: u32, probes: &Vec<ChildProbe>)
        ensures
            final(self).worker_childs@.dom() == old(self).worker_childs@.dom().insert(pid),
            final(self).worker_memory@.dom() == old(self).worker_memory@.dom().insert(pid),
            final(self).worker_childs@[pid]@ == live_children(probes@),
            final(self).worker_memory@[pid]@ == children_memory(probes@),
            forall|other: u32|
                other != pid && old(self).worker_childs@.contains_key(other)
                    ==> final(self).worker_childs@[other] == old(self).worker_childs@[other],
            forall|other: u32|
                other != pid && old(self).worker_memory@.contains_key(other)
                    ==> final(self).worker_memory@[other] == old(self).worker_memory@[other],
    {
        let mut active: Vec<(u32, u32)> = Vec::new();
        let mut memory: Vec<u64> = Vec::new();
        let mut i: usize = 0;
        assert(probes@.take(0) =~= Seq::<ChildProbe>::empty());
        while i < probes.len()
            invariant
                i <= probes.len(),
                active@ == live_children(probes@.take(i as int)),
                memory@ == children_memory(probes@.take(i as int)),
            decreases probes.len() - i,
        {
            let p = probes[i];
            proof {
                let head = probes@.take(i as int);
                assert(probes@.take(i + 1) =~= head.push(p));
                assert(head.push(p).drop_last() =~= head);
            }
            match p.child_memory {
                Some(m) => {
                    memory.push(m);
                    if p.parent_alive {
                        active.push((p.child, p.parent));
                    }
                },
                None => {},
            }
            i += 1;
        }
        assert(probes@.take(probes.len() as int) =~= probes@);
        self.worker_childs.insert(pid, active);
        self.worker_memory.insert(pid, memory);
    }
}

/// The command that starts a worker. The worker is killed when its handle
/// is dropped.
#[derive(Debug, Clone)]
pub struct WorkerCommand {
    pub program: String,
    pub args: Vec<String>,
}

impl View for WorkerCommand {
    type V = (Seq<char>, Seq<Seq<char>>);

    open spec fn view(&self) -> (Seq<char>, Seq<Seq<char>>) {
        (self.program@, string_views(self.args@))
    }
}

/// An argument `--name=value` with a number as its value.
pub open spec fn number_arg(name: Seq<char>, value: u64) -> Seq<char> {
    name + decimal(value as nat)
}

/// The command line of a worker on `port`: a robyn server is a Python
/// script, any other type is run by granian.
pub open spec fn worker_command_of(config: ConfigView, port: u16) -> (Seq<char>, Seq<Seq<char>>) {
    if config.type_server == "robyn"@ {
        (
            "python"@,
            seq![
                "app_robyn.py"@,
                "--log-level="@ + config.log_level_worker,
                number_arg("--workers="@, config.thread_workers),
                "--processes=1"@,
                number_arg("--port="@, port as u64),
            ],
        )
    } else {
        (
            "granian"@,
            seq![
                "app_granian:app"@,
                "--interface="@ + config.interface,
                "--workers=1"@,
                number_arg("--runtime-threads="@, config.thread_workers),
                number_arg("--blocking-threads="@, config.blocking_threads),
                number_arg("--port="@, port as u64),
                number_arg("--backlog="@, config.backlog),
                number_arg("--backpressure="@, config.backpressure),
                "--log-config=log_config.json"@,
            ],
        )
    }
}

fn text_arg(name: &str, value: &str) -> (r: String)
    ensures
        r@ == name@ + value@,
{
    let mut out = name.to_owned();
    out.append(value);
    out
}

fn count_arg(name: &str, value: u64) -> (r: String)
    ensures
        r@ == number_arg(name@, value),
{
    let mut out = name.to_owned();
    push_decimal(&mut out, value);
    out
}

/// The command that starts a worker on `port`.
pub fn cmd_run_worker(config: &Config, port: u16) -> (r: WorkerCommand)
    ensures
        r@ == worker_command_of(config@, port),
{
    let mut args: Vec<String> = Vec::new();
    if str_eq(config.type_server.as_str(), "robyn") {
        args.push(String::from_str("app_robyn.py"));
        args.push(text_arg("--log-level=", config.log_level_worker.as_str()));
        args.push(count_arg("--workers=", config.thread_workers));
        args.push(String::from_str("--processes=1"));
        args.push(count_arg("--port=", port as u64));
        let r = WorkerCommand { program: String::from_str("python"), args };
        assert(r@.1 =~= worker_command_of(config@, port).1);
        r
    } else {
        args.push(String::from_str("app_granian:app"));
        args.push(text_arg("--interface=", config.interface.as_str()));
        args.push(String::from_str("--workers=1"));
        args.push(count_arg("--runtime-threads=", config.thread_workers));
        args.push(count_arg("--blocking-threads=", config.blocking_threads));
        args.push(count_arg("--port=", port as u64));
        args.push(count_arg("--backlog=", config.backlog));
        args.push(count_arg("--backpressure=", config.backpressure));
        args.push(String::from_str("--log-config=log_config.json"));
        let r = WorkerCommand { program: String::from_str("granian"), args };
        assert(r@.1 =~= worker_command_of(config@, port).1);
        r
    }
}

/// The range in which worker ports are looked for, as 16-bit ports.
pub fn port_range(config: &Config) -> (r: (u16, u16))
    ensures
        r.0 == config.worker_port_from as u16,
        r.1 == config.worker_port_to as u16,
{
    (
        #[verifier::truncate]
        (config.worker_port_from as u16),
        #[verifier::truncate]
        (config.worker_port_to as u16),
    )
}

/// After the workers were killed, a reload waits for the renderer to leave
/// the process table: it looks once a second, up to sixty times, and goes
/// on as soon as a look does not find it. `looks` counts the looks made,
/// this one included; `running` is what this look found, `None` where the
/// process table could not be read.
pub fn keeps_waiting(looks: u32, running: Option<bool>) -> (r: bool)
    ensures
        r == (looks < 60 && running != Some(false)),
{
    let gone = match running {
        Some(b) => !b,
        None => false,
    };
    looks < 60 && !gone
}

/// The pool can serve only with at least one worker: a start without one is
/// fatal.
pub fn pool_started(workers: usize) -> (r: bool)
    ensures
        r == (workers > 0),
{
    workers > 0
}

} // verus!

//! Requests that go to every worker: the deletion of a datasource, the
//! refresh after a write, and the health check. All workers are asked, and
//! the answer reflects the worst that happened.
use vstd::prelude::*;
use crate::http::{HttpResponse, response_with_type, text_response};
use crate::json::{
    document_error, get_text, get_u64, json_document, json_lists_number_object, member_text,
    member_u64, parse, print_lists_number_object, status_message_body, status_message_text,
};
use crate::text::{decimal, push_decimal};

verus! {

/// What became of a request that was relayed to one worker.
#[derive(Debug, Clone)]
pub enum Relay {
    /// The worker answered with this status.
    Replied { status: u16 },
    /// The worker could not be reached; the transport's description.
    Failed { error: String },
}

/// Why a relayed request counts as failed, if it does: the worker could not
/// be reached, or it answered with a status of 400 or above.
pub open spec fn relay_error(relay: Relay) -> Option<Seq<char>> {
    match relay {
        Relay::Failed { error } => Some(error@),
        Relay::Replied { status } => if status >= 400 {
            Some("status "@ + decimal(status as nat))
        } else {
            None
        },
    }
}

/// The place of the last failure among the first `n` outcomes; -1 where all
/// of them succeeded.
pub open spec fn last_failure(outcomes: Seq<Relay>, n: int) -> int
    decreases n,
{
    if n <= 0 {
        -1
    } else if relay_error(outcomes[n - 1]) is Some {
        n - 1
    } else {
        last_failure(outcomes, n - 1)
    }
}

/// `last_failure` finds a failure where there is one.
pub proof fn lemma_last_failure(outcomes: Seq<Relay>, n: int)
    requires
        0 <= n <= outcomes.len(),
    ensures
        -1 <= last_failure(outcomes, n) < n,
        last_failure(outcomes, n) >= 0 ==> relay_error(outcomes[last_failure(outcomes, n)])
            is Some,
        last_failure(outcomes, n) < 0 <==> forall|j: int|
            0 <= j < n ==> relay_error(outcomes[j]) is None,
    decreases n,
{
    if n > 0 && relay_error(outcomes[n - 1]) is None {
        lemma_last_failure(outcomes, n - 1);
    }
}

/// The sentence that reports a deletion: the last failure if any worker
/// failed, else the success.
pub open spec fn delete_text(datasource_id: Seq<char>, outcomes: Seq<Relay>) -> Seq<char> {
    let at = last_failure(outcomes, outcomes.len() as int);
    if at >= 0 {
        "Error remove DataSource '"@ + datasource_id + "': "@ + relay_error(outcomes[at])->Some_0
    } else {
        "DataSource '"@ + datasource_id + "' successfully remove"@
    }
}

/// The status that reports a deletion: 500 if any worker failed, else 200.
pub open spec fn delete_status(outcomes: Seq<Relay>) -> u16 {
    if last_failure(outcomes, outcomes.len() as int) >= 0 {
        500
    } else {
        200
    }
}

fn failure_of(relay: &Relay) -> (r: Option<String>)
    ensures
        r is Some <==> relay_error(*relay) is Some,
        r matches Some(e) ==> relay_error(*relay) == Some(e@),
{
    match relay {
        Relay::Failed { error } => Some(error.clone()),
        Relay::Replied { status } => if *status >= 400 {
            let mut e = String::from_str("status ");
            push_decimal(&mut e, *status as u64);
            Some(e)
        } else {
            None
        },
    }
}

/// The answer to the deletion of a datasource, from what became of the
/// request on each worker.
pub fn delete_response(datasource_id: &str, outcomes: &Vec<Relay>, ct: &str) -> (r: HttpResponse)
    ensures
        r@ == text_response(
            delete_status(outcomes@),
            ct@,
            status_message_text(delete_status(outcomes@), delete_text(datasource_id@, outcomes@)),
        ),
{
    let mut n: usize = outcomes.len();
    while n > 0
        invariant
            n <= outcomes.len(),
            last_failure(outcomes@, outcomes@.len() as int) == last_failure(outcomes@, n as int),
        decreases n,
    {
        match failure_of(&outcomes[n - 1]) {
            Some(error) => {
                let mut m = String::from_str("Error remove DataSource '");
                m.append(datasource_id);
                m.append("': ");
                m.append(error.as_str());
                assert(m@ =~= delete_text(datasource_id@, outcomes@));
                return response_with_type(status_message_body(500, m.as_str()), 500, ct);
            },
            None => {},
        }
        n -= 1;
    }
    let mut m = String::from_str("DataSource '");
    m.append(datasource_id);
    m.append("' successfully remove");
    response_with_type(status_message_body(200, m.as_str()), 200, ct)
}

/// The datasource that the body of a deletion names: `Err` with the
/// sentence that reports what is wrong with the body.
pub open spec fn deleted_id_of(body: Seq<u8>) -> Result<Seq<char>, Seq<char>> {
    match json_document(body) {
        Err(_) => Err(document_error(body)->Some_0),
        Ok(v) => match member_text(v, "datasource_id"@) {
            Some(id) => Ok(id),
            None => Err("datasource_id is undefined"@),
        },
    }
}

/// Reads the datasource that a deletion names.
pub fn deleted_id(body: &[u8]) -> (r: Result<String, String>)
    ensures
        r matches Ok(id) ==> deleted_id_of(body@) == Ok::<Seq<char>, Seq<char>>(id@),
        r matches Err(m) ==> deleted_id_of(body@) == Err::<Seq<char>, Seq<char>>(m@),
{
    match parse(body) {
        Err(message) => Err(message),
        Ok(v) => match get_text(&v, "datasource_id") {
            Some(id) => Ok(id),
            None => Err(String::from_str("datasource_id is undefined")),
        },
    }
}

/// The workers that reload their datasources after a write: every worker
/// but the one that took the write, in pool order.
pub open spec fn others(ports: Seq<u16>, writer: u16) -> Seq<u16> {
    ports.filter_map(
        |p: u16|
            if p != writer {
                Some(p)
            } else {
                None
            },
    )
}

/// The workers that reload their datasources after `writer` took a write.
pub fn refresh_targets(ports: &Vec<u16>, writer: u16) -> (r: Vec<u16>)
    ensures
        r@ == others(ports@, writer),
{
    let mut r: Vec<u16> = Vec::new();
    let mut i: usize = 0;
    assert(ports@.take(0) =~= Seq::<u16>::empty());
    while i < ports.len()
        invariant
            i <= ports.len(),
            r@ == others(ports@.take(i as int), writer),
        decreases ports.len() - i,
    {
        proof {
            assert(ports@.take(i + 1).drop_last() =~= ports@.take(i as int));
        }
        if ports[i] != writer {
            r.push(ports[i]);
        }
        i += 1;
    }
    assert(ports@.take(ports.len() as int) =~= ports@);
    r
}

/// What a worker answered to a health check.
#[derive(Debug, Clone, Copy, PartialEq, Eq, Structural)]
pub struct HealthReply {
    pub status: u16,
    /// The worker's process, where the answer names it.
    pub worker_pid: Option<u64>,
}

/// What became of a health check on one port: `None` for a worker that
/// could not be reached.
#[derive(Debug, Clone, Copy, PartialEq, Eq, Structural)]
pub struct HealthProbe {
    pub port: u16,
    pub reply: Option<HealthReply>,
}

/// The process that the body of a health answer names: the member
/// `worker_pid` of a JSON document, where it is such a number.
pub open spec fn worker_pid_of(body: Seq<u8>) -> Option<u64> {
    match json_document(body) {
        Ok(v) => member_u64(v, "worker_pid"@),
        Err(_) => None,
    }
}

/// Reads a worker's answer to a health check.
pub fn health_reply(status: u16, body: &[u8]) -> (r: HealthReply)
    ensures
        r == (HealthReply { status, worker_pid: worker_pid_of(body@) }),
{
    let worker_pid = match parse(body) {
        Ok(v) => get_u64(&v, "worker_pid"),
        Err(_) => None,
    };
    HealthReply { status, worker_pid }
}

/// A worker is healthy if it answered 200 and named its process.
pub open spec fn healthy(probe: HealthProbe) -> bool {
    match probe.reply {
        Some(r) => r.status == 200 && r.worker_pid is Some,
        None => false,
    }
}

/// The ports of the healthy workers, in order.
pub open spec fn success_ports(probes: Seq<HealthProbe>) -> Seq<u16> {
    probes.filter_map(
        |p: HealthProbe|
            if healthy(p) {
                Some(p.port)
            } else {
                None
            },
    )
}

/// The ports of the other workers, in order.
pub open spec fn error_ports(probes: Seq<HealthProbe>) -> Seq<u16> {
    probes.filter_map(
        |p: HealthProbe|
            if healthy(p) {
                None
            } else {
                Some(p.port)
            },
    )
}

/// The body of a health report: the object with the ports that failed
/// under `error_ports`, the ports that are healthy under `success_ports`,
/// and the status 200, as `serde_json` prints it.
pub open spec fn health_text(probes: Seq<HealthProbe>) -> Seq<char> {
    json_lists_number_object(
        "error_ports"@,
        error_ports(probes),
        "success_ports"@,
        success_ports(probes),
        "status"@,
        200,
    )
}

/// The health report: always 200, with the ports sorted into those that
/// are healthy and those that are not.
pub fn health_response(probes: &Vec<HealthProbe>, ct: &str) -> (r: HttpResponse)
    ensures
        r@ == text_response(200, ct@, health_text(probes@)),
{
    let mut good: Vec<u16> = Vec::new();
    let mut bad: Vec<u16> = Vec::new();
    let mut i: usize = 0;
    assert(probes@.take(0) =~= Seq::<HealthProbe>::empty());
    while i < probes.len()
        invariant
            i <= probes.len(),
            good@ == success_ports(probes@.take(i as int)),
            bad@ == error_ports(probes@.take(i as int)),
        decreases probes.len() - i,
    {
        proof {
            assert(probes@.take(i + 1).drop_last() =~= probes@.take(i as int));
        }
        let p = probes[i];
        let ok = match p.reply {
            Some(r) => r.status == 200 && r.worker_pid.is_some(),
            None => false,
        };
        if ok {
            good.push(p.port);
        } else {
            bad.push(p.port);
        }
        i += 1;
    }
    assert(probes@.take(probes.len() as int) =~= probes@);
    let body = print_lists_number_object(
        "error_ports",
        &bad,
        "success_ports",
        &good,
        "status",
        200,
    );
    response_with_type(body, 200, ct)
}

/// The deletion of a datasource reports 500 if and only if the request
/// failed on some worker.
pub proof fn lemma_delete_reports_worst(outcomes: Seq<Relay>)
    ensures
        delete_status(outcomes) == 500 <==> exists|i: int|
            0 <= i < outcomes.len() && relay_error(outcomes[i]) is Some,
        delete_status(outcomes) == 200 <==> forall|i: int|
            0 <= i < outcomes.len() ==> relay_error(outcomes[i]) is None,
{
    lemma_last_failure(outcomes, outcomes.len() as int);
    let at = last_failure(outcomes, outcomes.len() as int);
    if at >= 0 {
        assert(0 <= at < outcomes.len() && relay_error(outcomes[at]) is Some);
    }
}

} // verus!

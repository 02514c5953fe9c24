use proxy_balancer::http::Body;
use proxy_balancer::job::{JobRecord, JobStatus, JobType};
use proxy_balancer::pyramid::{
    not_queued_response, pyramid_plan, pyramid_worker, rebuild_answer, rebuild_step,
    scheduled_response, Builder, PyramidError, PyramidPlan, RebuildAction, RebuildEvent,
    RebuildReply, RebuildState,
};
use proxy_balancer::time::{parse_rfc3339, Instant};

fn run(builder: Builder, events: &[RebuildEvent]) -> Vec<RebuildAction> {
    let mut state = RebuildState::Start;
    let mut actions = Vec::new();
    for e in events {
        let (next, action) = rebuild_step(builder, state, *e);
        state = next;
        actions.push(action);
    }
    actions
}

#[test]
fn moments_in_rfc_3339() {
    assert_eq!(parse_rfc3339("2099-01-01T00:00:00Z").unwrap(), Instant { secs: 4070908800, nanos: 0 });
    assert_eq!(parse_rfc3339("2020-04-12T22:10:57+02:00").unwrap(), Instant { secs: 1586722257, nanos: 0 });
    assert_eq!(parse_rfc3339("1970-01-01T00:00:00.5Z").unwrap(), Instant { secs: 0, nanos: 500_000_000 });
    assert_eq!(parse_rfc3339("1969-12-31T23:59:59Z").unwrap(), Instant { secs: -1, nanos: 0 });
    for bad in ["", "tomorrow", "2099-01-01", "2099-01-01T00:00:00", "2099-13-01T00:00:00Z"] {
        let ours = parse_rfc3339(bad).unwrap_err();
        let theirs = chrono::DateTime::parse_from_rfc3339(bad).unwrap_err().to_string();
        assert_eq!(ours, theirs);
    }
}

#[test]
fn scheduled_pyramid_on_a_master_is_queued() {
    let body = b"{\"datasource_id\":\"ds1\",\"scheduled_for\":\"2099-01-01T00:00:00Z\"}";
    let job = match pyramid_plan(body, true).unwrap() {
        PyramidPlan::Schedule { job } => job,
        PyramidPlan::Rebuild { .. } => panic!("must be scheduled"),
    };
    assert!(matches!(&job.jt, JobType::Pyramid { datasource_id } if datasource_id == "ds1"));
    assert_eq!(job.jt.as_ref(), "pyramid");
    assert_eq!(job.name, "Pyramid");
    assert_eq!(job.scheduled_for, Some(Instant { secs: 4070908800, nanos: 0 }));
    assert_eq!(job.data, serde_json::from_slice::<serde_json::Value>(body).unwrap());

    let r = scheduled_response("ds1");
    assert_eq!(r.status, 202);
    assert!(matches!(&r.body, Body::Text(s)
        if s == "{\"message\":\"Pyramid for DataSource 'ds1' successfully scheduled\",\"status\":202}"));

    // the one row that is inserted
    let now = Instant { secs: 1_700_000_000, nanos: 0 };
    let row = JobRecord::new(1, job.scheduled_for, now);
    assert_eq!(row.status, JobStatus::Queued);
    assert_eq!(row.scheduled_for, Instant { secs: 4070908800, nanos: 0 });
    assert_eq!(row.failed_attempts, 0);
    assert_eq!(row.created_at, now);
    assert_eq!(row.updated_at, now);
    assert!(!row.is_dispatchable(now));
}

#[test]
fn pyramid_is_rebuilt_at_once() {
    // no moment is named
    assert!(matches!(
        pyramid_plan(b"{\"datasource_id\":\"ds1\"}", true).unwrap(),
        PyramidPlan::Rebuild { datasource_id } if datasource_id == "ds1"
    ));
    // the node has no job queue
    assert!(matches!(
        pyramid_plan(b"{\"datasource_id\":\"ds1\",\"scheduled_for\":\"2099-01-01T00:00:00Z\"}", false).unwrap(),
        PyramidPlan::Rebuild { datasource_id } if datasource_id == "ds1"
    ));
    // the moment is no string
    assert!(matches!(
        pyramid_plan(b"{\"datasource_id\":\"ds1\",\"scheduled_for\":4070908800}", true).unwrap(),
        PyramidPlan::Rebuild { datasource_id } if datasource_id == "ds1"
    ));
    // even a bad date does not matter without a queue
    assert!(matches!(
        pyramid_plan(b"{\"datasource_id\":\"ds1\",\"scheduled_for\":\"soon\"}", false).unwrap(),
        PyramidPlan::Rebuild { .. }
    ));
}

#[test]
fn pyramid_requests_that_cannot_be_used() {
    match pyramid_plan(b"{\"scheduled_for\":\"2099-01-01T00:00:00Z\"}", true) {
        Err(e @ PyramidError::MissingId) => {
            let r = e.response();
            assert_eq!(r.status, 500);
            assert!(matches!(&r.body, Body::Text(s)
                if s == "{\"message\":\"datasource_id is undefined\",\"status\":500}"));
        }
        _ => panic!("must lack the datasource"),
    }
    assert!(matches!(pyramid_plan(b"{\"datasource_id\":7}", false), Err(PyramidError::MissingId)));
    match pyramid_plan(b"{\"datasource_id\":\"ds1\",\"scheduled_for\":\"soon\"}", true) {
        Err(PyramidError::BadDate { message }) => {
            assert_eq!(message, chrono::DateTime::parse_from_rfc3339("soon").unwrap_err().to_string());
        }
        _ => panic!("must be a bad date"),
    }
    match pyramid_plan(b"{", true) {
        Err(PyramidError::Malformed { message }) => {
            assert_eq!(message, serde_json::from_slice::<serde_json::Value>(b"{").unwrap_err().to_string());
        }
        _ => panic!("must be malformed"),
    }
}

#[test]
fn job_that_the_queue_did_not_take() {
    let r = not_queued_response("ds1", "SendError");
    assert_eq!(r.status, 500);
    assert!(matches!(&r.body, Body::Text(s)
        if s == "{\"message\":\"Error send job detail for DataSource ds1: SendError\",\"status\":500}"));
}

#[test]
fn rebuild_by_the_handler() {
    let actions = run(
        Builder::Endpoint,
        &[
            RebuildEvent::Begin,
            RebuildEvent::Closed,
            RebuildEvent::Files { database: true, wal: true, shm: true },
            RebuildEvent::Removed,
            RebuildEvent::InitDone,
            RebuildEvent::WorkerReplied,
        ],
    );
    assert_eq!(
        actions,
        vec![
            RebuildAction::CloseHandle,
            RebuildAction::ProbeFiles,
            RebuildAction::RemoveFiles,
            RebuildAction::InitCache,
            RebuildAction::CallFirstWorker,
            RebuildAction::Finish { reply: RebuildReply::Worker },
        ]
    );
}

#[test]
fn files_are_deleted_only_if_all_three_exist() {
    for (database, wal, shm) in [
        (false, false, false),
        (true, false, false),
        (true, true, false),
        (true, false, true),
        (false, true, true),
    ] {
        let (state, action) =
            rebuild_step(Builder::Endpoint, RebuildState::Probing, RebuildEvent::Files { database, wal, shm });
        assert_eq!((state, action), (RebuildState::Init, RebuildAction::InitCache));
    }
    assert_eq!(
        rebuild_step(
            Builder::Endpoint,
            RebuildState::Probing,
            RebuildEvent::Files { database: true, wal: true, shm: true }
        ),
        (RebuildState::Removing, RebuildAction::RemoveFiles)
    );
}

#[test]
fn rebuild_by_the_runner() {
    let actions = run(
        Builder::Runner,
        &[RebuildEvent::Begin, RebuildEvent::Closed, RebuildEvent::InitUnknown, RebuildEvent::WorkerFailed],
    );
    assert_eq!(
        actions,
        vec![
            RebuildAction::CloseHandle,
            RebuildAction::InitCache,
            RebuildAction::CallFirstWorker,
            RebuildAction::Finish { reply: RebuildReply::WorkerUnreachable },
        ]
    );
}

#[test]
fn handler_gives_up_on_an_unknown_datasource() {
    assert_eq!(
        rebuild_step(Builder::Endpoint, RebuildState::Init, RebuildEvent::InitUnknown),
        (RebuildState::Done, RebuildAction::Finish { reply: RebuildReply::UnknownDatasource })
    );
}

#[test]
fn pyramids_are_built_by_the_first_worker() {
    assert_eq!(pyramid_worker(&vec![9003, 9001, 9002]), Some(9003));
    assert_eq!(pyramid_worker(&vec![]), None);
}

#[test]
fn answers_at_the_end_of_a_rebuild() {
    assert!(rebuild_answer(RebuildReply::Worker, "ds1").is_none());
    let r = rebuild_answer(RebuildReply::UnknownDatasource, "ds1").unwrap();
    assert_eq!(r.status, 404);
    assert!(matches!(&r.body, Body::Text(s)
        if s == "{\"message\":\"DataSource with id 'ds1' does not exists\",\"status\":404}"));
    assert_eq!(rebuild_answer(RebuildReply::WorkerUnreachable, "ds1").unwrap().status, 500);
    assert_eq!(rebuild_answer(RebuildReply::OutOfTurn, "ds1").unwrap().status, 500);
}

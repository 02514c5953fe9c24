use proxy_balancer::cache::{
    cache_route, static_file_response, static_mime, static_missing_response, static_parts,
    static_target, CacheRoute,
};
use proxy_balancer::http::{Body, Method};
use proxy_balancer::reload_workers::{
    from_hours, from_minutes, reload_step, ReloadAction, ReloadEvent, ReloadState,
};
use proxy_balancer::workers::WorkerState;

#[test]
fn cache_front_end_serves_tiles_and_files_to_get() {
    assert_eq!(cache_route("/api/tile/ds1/5/10/15.png", Method::Get), CacheRoute::Tile);
    assert_eq!(cache_route("/api/tile/ds1/5/10/15.png", Method::Post), CacheRoute::Echo);
    assert_eq!(cache_route("/static/app.js", Method::Get), CacheRoute::Static);
    assert_eq!(cache_route("/static/app.js", Method::Delete), CacheRoute::Echo);
    assert_eq!(cache_route("/api/health", Method::Get), CacheRoute::Echo);
    assert_eq!(cache_route("/", Method::Get), CacheRoute::Echo);
}

#[test]
fn static_path_components() {
    assert_eq!(static_parts("/static/css/app.css"), vec!["static", "css", "app.css"]);
    assert_eq!(static_parts("/static/"), vec!["static", ""]);
    assert_eq!(static_parts("/static"), vec!["static"]);
    assert_eq!(static_parts(""), Vec::<&str>::new());
}

#[test]
fn type_of_a_static_file() {
    for path in [
        "/static/css/app.css",
        "/static/index.html",
        "/static/logo.PNG",
        "/static/data.json",
        "/static/unknown.zzz",
        "/static/noext",
        "/static/dir.d/",
        "/static/dir.d/.",
        "/static/..",
        "/static/.hidden",
        "/static/archive.tar.gz",
        "/static",
    ] {
        let mut file = std::path::PathBuf::from("/srv");
        for part in path.split('/').skip(1) {
            file.push(part);
        }
        let expected = mime_guess::from_path(&file).first_or_octet_stream().to_string();
        assert_eq!(static_mime(path), expected, "{:?}", path);
    }
    assert_eq!(static_mime("/static/app.css"), "text/css");
    assert_eq!(static_mime("/static/logo.png"), "image/png");
    assert_eq!(static_mime("/static/noext"), "application/octet-stream");
}

#[test]
fn percent_escapes() {
    assert_eq!(static_target("/srv/static/a%20b.txt").unwrap(), "/srv/static/a b.txt");
    assert_eq!(static_target("/srv/static/plain.txt").unwrap(), "/srv/static/plain.txt");
    assert_eq!(static_target("a+b%2Fc").unwrap(), "a+b/c");
    assert_eq!(static_target("%C3%A9").unwrap(), "é");
    let answer = static_target("%ff").unwrap_err();
    assert_eq!(answer.status, 500);
    let theirs = urlencoding::decode("%ff").unwrap_err().to_string();
    let mut map = serde_json::Map::new();
    map.insert("status".to_string(), serde_json::Value::from(500));
    map.insert("message".to_string(), serde_json::Value::from(theirs));
    assert!(matches!(&answer.body, Body::Text(s) if *s == serde_json::Value::Object(map).to_string()));
}

#[test]
fn static_answers() {
    let r = static_file_response(vec![1, 2, 3], "text/css");
    assert_eq!(r.status, 200);
    let h: Vec<(&str, &str)> = r.headers.iter().map(|h| (h.name.as_str(), h.value.as_str())).collect();
    assert_eq!(
        h,
        vec![
            ("Content-Type", "text/css"),
            ("Access-Control-Allow-Origin", "*"),
            ("Access-Control-Allow-Headers", "*"),
            ("Access-Control-Allow-Methods", "POST, GET, OPTIONS"),
        ]
    );
    assert!(matches!(&r.body, Body::Bytes(b) if *b == vec![1, 2, 3]));
    let r = static_missing_response("No such file or directory (os error 2)");
    assert_eq!(r.status, 404);
    assert!(r.headers.is_empty());
    assert!(matches!(&r.body, Body::Text(s) if s == "{\"message\":\"No such file or directory (os error 2)\"}"));
}

#[test]
fn hours_and_minutes() {
    assert_eq!(from_hours(0), 0);
    assert_eq!(from_hours(24), 86400);
    assert_eq!(from_minutes(10), 600);
    assert_eq!(from_minutes(u64::MAX / 60), (u64::MAX / 60) * 60);
}

fn run(attempts: u64, events: &[ReloadEvent]) -> (ReloadState, Vec<ReloadAction>) {
    let mut state = ReloadState::Idle;
    let mut actions = Vec::new();
    for e in events {
        let (next, action) = reload_step(state, *e, attempts);
        state = next;
        actions.push(action);
    }
    (state, actions)
}

#[test]
fn workers_are_reloaded_when_no_pyramid_is_built() {
    let (state, actions) = run(
        3,
        &[
            ReloadEvent::Trigger,
            ReloadEvent::State { state: WorkerState::Running },
            ReloadEvent::Pyramids { running: false },
        ],
    );
    assert_eq!(state, ReloadState::Idle);
    assert_eq!(
        actions,
        vec![ReloadAction::AskState, ReloadAction::CheckPyramids { wait: false }, ReloadAction::Reload]
    );
}

#[test]
fn reload_waits_for_a_pyramid_to_finish() {
    let (state, actions) = run(
        3,
        &[
            ReloadEvent::Trigger,
            ReloadEvent::State { state: WorkerState::Running },
            ReloadEvent::Pyramids { running: true },
            ReloadEvent::CheckFailed,
            ReloadEvent::Pyramids { running: false },
        ],
    );
    assert_eq!(state, ReloadState::Idle);
    assert_eq!(
        actions,
        vec![
            ReloadAction::AskState,
            ReloadAction::CheckPyramids { wait: false },
            ReloadAction::CheckPyramids { wait: true },
            ReloadAction::CheckPyramids { wait: true },
            ReloadAction::Reload,
        ]
    );
}

#[test]
fn no_reload_when_every_look_finds_a_pyramid() {
    let (state, actions) = run(
        2,
        &[
            ReloadEvent::Trigger,
            ReloadEvent::StateUnknown,
            ReloadEvent::Pyramids { running: true },
            ReloadEvent::Pyramids { running: true },
        ],
    );
    assert_eq!(state, ReloadState::Idle);
    assert_eq!(
        actions,
        vec![
            ReloadAction::AskState,
            ReloadAction::CheckPyramids { wait: false },
            ReloadAction::CheckPyramids { wait: true },
            ReloadAction::Rest,
        ]
    );
}

#[test]
fn pool_that_is_reloading_is_left_alone() {
    let (state, actions) = run(3, &[ReloadEvent::Trigger, ReloadEvent::State { state: WorkerState::Reloading }]);
    assert_eq!(state, ReloadState::Idle);
    assert_eq!(actions, vec![ReloadAction::AskState, ReloadAction::Rest]);
}

#[test]
fn no_look_is_allowed() {
    let (state, actions) = run(0, &[ReloadEvent::Trigger, ReloadEvent::State { state: WorkerState::Running }]);
    assert_eq!(state, ReloadState::Idle);
    assert_eq!(actions, vec![ReloadAction::AskState, ReloadAction::Rest]);
}

#[test]
fn events_that_are_not_awaited_change_nothing() {
    assert_eq!(
        reload_step(ReloadState::Idle, ReloadEvent::Pyramids { running: false }, 3),
        (ReloadState::Idle, ReloadAction::Rest)
    );
    assert_eq!(
        reload_step(ReloadState::Checking { attempt: 1 }, ReloadEvent::Trigger, 3),
        (ReloadState::Checking { attempt: 1 }, ReloadAction::Rest)
    );
    assert_eq!(
        reload_step(ReloadState::Checking { attempt: u64::MAX }, ReloadEvent::CheckFailed, u64::MAX),
        (ReloadState::Idle, ReloadAction::Rest)
    );
}

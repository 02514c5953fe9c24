use proxy_balancer::fanout::{
    delete_response, deleted_id, health_reply, health_response, refresh_targets, HealthProbe,
    HealthReply, Relay,
};
use proxy_balancer::http::{Body, HttpResponse};
use proxy_balancer::sqlite_clients::{database_files, merges_journal, removal, Registry, Removal};
use proxy_balancer::utils::mbtiles_path_from_ds_id;

fn text(r: &HttpResponse) -> &str {
    match &r.body {
        Body::Text(s) => s.as_str(),
        other => panic!("{:?}", other),
    }
}

#[test]
fn datasource_is_deleted_on_two_workers() {
    let id = deleted_id(b"{\"datasource_id\":\"ds1\"}").unwrap();
    assert_eq!(id, "ds1");
    let both = vec![Relay::Replied { status: 200 }, Relay::Replied { status: 200 }];
    let r = delete_response(&id, &both, "application/json");
    assert_eq!(r.status, 200);
    assert_eq!(text(&r), "{\"message\":\"DataSource 'ds1' successfully remove\",\"status\":200}");
    let h: Vec<(&str, &str)> = r.headers.iter().map(|h| (h.name.as_str(), h.value.as_str())).collect();
    assert_eq!(h, vec![("content-type", "application/json"), ("Access-Control-Allow-Origin", "*")]);

    // the handle of ds1.mbtiles is closed and the tile directory goes
    let db = mbtiles_path_from_ds_id("/srv", &id).unwrap().to_string();
    assert_eq!(db, "/srv/tiles/ds1/ds1.mbtiles");
    let mut registry: Registry<u32> = Registry::new();
    registry.add(db.clone(), 41);
    registry.add("/srv/tiles/ds2/ds2.mbtiles".to_string(), 42);
    let handle = registry.remove(&db);
    assert_eq!(handle, Some(41));
    assert!(registry.get(&db).is_none());
    assert_eq!(registry.get("/srv/tiles/ds2/ds2.mbtiles"), Some(&42));
    assert_eq!(removal(Some(true), None), Removal::Folder);
}

#[test]
fn tile_directory_goes_even_if_the_cache_was_never_opened() {
    let mut registry: Registry<u32> = Registry::new();
    assert_eq!(registry.remove("/srv/tiles/ds1/ds1.mbtiles"), None);
    assert_eq!(removal(Some(true), None), Removal::Folder);
}

#[test]
fn deletion_reports_the_worst() {
    let failed = |e: &str| Relay::Failed { error: e.to_string() };
    let ok = || Relay::Replied { status: 200 };
    let r = delete_response("ds1", &vec![ok(), failed("refused")], "application/json");
    assert_eq!(r.status, 500);
    assert_eq!(text(&r), "{\"message\":\"Error remove DataSource 'ds1': refused\",\"status\":500}");
    // the last failure is the one reported
    let r = delete_response("ds1", &vec![failed("first"), ok(), failed("last"), ok()], "application/json");
    assert_eq!(r.status, 500);
    assert_eq!(text(&r), "{\"message\":\"Error remove DataSource 'ds1': last\",\"status\":500}");
    let r = delete_response("ds1", &vec![], "application/json");
    assert_eq!(r.status, 200);
}

#[test]
fn worker_that_answers_with_an_error_fails_the_deletion() {
    let r = delete_response(
        "ds1",
        &vec![Relay::Replied { status: 200 }, Relay::Replied { status: 500 }],
        "application/json",
    );
    assert_eq!(r.status, 500);
    assert_eq!(text(&r), "{\"message\":\"Error remove DataSource 'ds1': status 500\",\"status\":500}");
    for status in [200u16, 204, 302, 399] {
        assert_eq!(delete_response("ds1", &vec![Relay::Replied { status }], "application/json").status, 200);
    }
    for status in [400u16, 404, 500, 503] {
        assert_eq!(delete_response("ds1", &vec![Relay::Replied { status }], "application/json").status, 500);
    }
}

#[test]
fn deletions_that_name_no_datasource() {
    assert_eq!(deleted_id(b"{}").unwrap_err(), "datasource_id is undefined");
    assert_eq!(deleted_id(b"{\"datasource_id\":1}").unwrap_err(), "datasource_id is undefined");
    assert_eq!(
        deleted_id(b"nothing").unwrap_err(),
        serde_json::from_slice::<serde_json::Value>(b"nothing").unwrap_err().to_string()
    );
}

#[test]
fn what_goes_from_disk_with_a_handle() {
    assert_eq!(removal(Some(true), Some(true)), Removal::Folder);
    assert_eq!(removal(Some(true), None), Removal::Folder);
    assert_eq!(removal(Some(true), Some(false)), Removal::Folder);
    assert_eq!(removal(Some(false), Some(true)), Removal::Database);
    assert_eq!(removal(None, Some(true)), Removal::Database);
    assert_eq!(removal(None, Some(false)), Removal::Nothing);
    assert_eq!(removal(None, None), Removal::Nothing);
    assert_eq!(removal(Some(false), None), Removal::Nothing);
}

#[test]
fn database_goes_with_its_two_companions() {
    assert_eq!(
        database_files("/srv/tiles/ds1/ds1.mbtiles"),
        vec![
            "/srv/tiles/ds1/ds1.mbtiles",
            "/srv/tiles/ds1/ds1.mbtiles-wal",
            "/srv/tiles/ds1/ds1.mbtiles-shm",
        ]
    );
}

#[test]
fn journal_left_behind_is_merged() {
    assert!(merges_journal(true, false));
    assert!(merges_journal(false, true));
    assert!(merges_journal(true, true));
    assert!(!merges_journal(false, false));
}

#[test]
fn one_handle_per_path() {
    let mut registry: Registry<&str> = Registry::new();
    assert_eq!(registry.len(), 0);
    assert_eq!(registry.add("a.mbtiles".to_string(), "first"), None);
    assert_eq!(registry.add("b.mbtiles".to_string(), "other"), None);
    assert_eq!(registry.add("a.mbtiles".to_string(), "second"), Some("first"));
    assert_eq!(registry.len(), 2);
    assert_eq!(registry.get("a.mbtiles"), Some(&"second"));
    assert_eq!(registry.get("b.mbtiles"), Some(&"other"));
    assert_eq!(registry.get("c.mbtiles"), None);
    assert_eq!(registry.remove("c.mbtiles"), None);
    assert_eq!(registry.remove("a.mbtiles"), Some("second"));
    assert_eq!(registry.remove("a.mbtiles"), None);
    assert_eq!(registry.len(), 1);
    assert_eq!(registry.get("b.mbtiles"), Some(&"other"));
}

#[test]
fn every_other_worker_reloads_after_a_write() {
    assert_eq!(refresh_targets(&vec![9000, 9001, 9002], 9001), vec![9000, 9002]);
    assert_eq!(refresh_targets(&vec![9000], 9000), Vec::<u16>::new());
    assert_eq!(refresh_targets(&vec![9000, 9001], 9005), vec![9000, 9001]);
    assert_eq!(refresh_targets(&vec![], 9000), Vec::<u16>::new());
}

#[test]
fn health_answers() {
    assert_eq!(
        health_reply(200, b"{\"worker_pid\": 4711}"),
        HealthReply { status: 200, worker_pid: Some(4711) }
    );
    assert_eq!(health_reply(200, b"{}"), HealthReply { status: 200, worker_pid: None });
    assert_eq!(health_reply(200, b"{\"worker_pid\": \"4711\"}"), HealthReply { status: 200, worker_pid: None });
    assert_eq!(health_reply(500, b"oops"), HealthReply { status: 500, worker_pid: None });
}

#[test]
fn health_report_sorts_the_ports() {
    let probes = vec![
        HealthProbe { port: 9000, reply: Some(HealthReply { status: 200, worker_pid: Some(1) }) },
        HealthProbe { port: 9001, reply: None },
        HealthProbe { port: 9002, reply: Some(HealthReply { status: 500, worker_pid: Some(2) }) },
        HealthProbe { port: 9003, reply: Some(HealthReply { status: 200, worker_pid: None }) },
        HealthProbe { port: 9004, reply: Some(HealthReply { status: 200, worker_pid: Some(3) }) },
    ];
    let r = health_response(&probes, "application/json");
    assert_eq!(r.status, 200);
    assert_eq!(text(&r), "{\"error_ports\":[9001,9002,9003],\"status\":200,\"success_ports\":[9000,9004]}");
    let mut map = serde_json::Map::new();
    map.insert("status".to_string(), serde_json::Value::from(200));
    map.insert("error_ports".to_string(), serde_json::Value::from(vec![9001, 9002, 9003]));
    map.insert("success_ports".to_string(), serde_json::Value::from(vec![9000, 9004]));
    assert_eq!(text(&r), serde_json::Value::Object(map).to_string());
    let v: serde_json::Value = serde_json::from_str(text(&r)).unwrap();
    assert_eq!(v["status"], 200);
    assert_eq!(v["success_ports"].as_array().unwrap().len(), 2);
    assert_eq!(v["error_ports"][0], 9001);
}

#[test]
fn health_report_of_an_empty_pool() {
    let r = health_response(&vec![], "application/json");
    assert_eq!(text(&r), "{\"error_ports\":[],\"status\":200,\"success_ports\":[]}");
    let one = vec![HealthProbe { port: 1, reply: None }];
    assert_eq!(
        text(&health_response(&one, "application/json")),
        "{\"error_ports\":[1],\"status\":200,\"success_ports\":[]}"
    );
}

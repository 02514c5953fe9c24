use proxy_balancer::config::{load_config, Config};
use proxy_balancer::time::Instant;
use proxy_balancer::workers::{
    cmd_run_worker, get_available_port, keeps_waiting, pool_started, port_range, ChildProbe,
    SystemInfoWorkers, WorkerPool, WorkerState,
};

fn config(kind: &str) -> Config {
    let interface = if kind == "granian" { "asgi" } else { "rsgi" };
    let text = format!(
        "{{\"server\":{{\"type\":\"{}\",\"host\":\"0.0.0.0\",\"port\":8000,\"log_level\":\"info\",\
         \"thread_workers\":4,\"processes_workers\":2,\"interface\":\"{}\",\
         \"worker\":{{\"log_level\":\"warning\",\"ports\":{{\"from\":9000,\"to\":9010}},\
         \"reload_time\":\"03:30:00\",\"reload_periodicity_days\":1,\"reload_repeat_minutes\":10,\
         \"reload_repeat_attempts\":6,\"max_concurrent_tile_requests\":8}}}}}}",
        kind, interface
    );
    load_config(text.as_bytes()).unwrap()
}

#[test]
fn empty_pool_hands_out_nothing() {
    let mut pool = WorkerPool::new(vec![]);
    assert!(pool.get_worker_data().is_none());
    assert!(pool.get_worker_data().is_none());
    assert_eq!(pool.next, 0);
}

#[test]
fn workers_are_handed_out_in_a_circle() {
    let mut pool = WorkerPool::new(vec![9000, 9001, 9002]);
    let mut seen = Vec::new();
    for _ in 0..7 {
        let slot = pool.get_worker_data().unwrap();
        assert_eq!(slot.ports, vec![9000, 9001, 9002]);
        assert_eq!(slot.port, slot.ports[slot.index]);
        seen.push(slot.port);
    }
    assert_eq!(seen, vec![9000, 9001, 9002, 9000, 9001, 9002, 9000]);
}

#[test]
fn round_robin_is_fair() {
    for n in 1..6usize {
        for k in 0..23usize {
            let ports: Vec<u16> = (0..n).map(|i| 9000 + i as u16).collect();
            let mut pool = WorkerPool::new(ports.clone());
            let mut count = vec![0usize; n];
            let mut last: Option<usize> = None;
            for _ in 0..k {
                let slot = pool.get_worker_data().unwrap();
                if let Some(l) = last {
                    assert_eq!(slot.index, (l + 1) % n);
                }
                last = Some(slot.index);
                count[slot.index] += 1;
            }
            assert_eq!(count.iter().sum::<usize>(), k);
            for c in count {
                assert!(c == k / n || c == (k + n - 1) / n);
            }
        }
    }
}

#[test]
fn cursor_survives_a_reload() {
    let mut pool = WorkerPool::new(vec![9000, 9001, 9002]);
    pool.get_worker_data();
    pool.get_worker_data();
    pool.clear();
    assert!(pool.get_worker_data().is_none());
    for p in [9100u16, 9101, 9102, 9103, 9104] {
        assert!(pool.add_worker(p));
    }
    // the cursor stood at the third place and still does
    assert_eq!(pool.get_worker_data().unwrap().port, 9102);
    pool.clear();
    assert!(pool.add_worker(9200));
    // a cursor past the end falls back to the first place
    assert_eq!(pool.get_worker_data().unwrap().port, 9200);
    assert_eq!(pool.get_worker_data().unwrap().port, 9200);
}

#[test]
fn a_port_is_not_added_twice() {
    let mut pool = WorkerPool::new(vec![9000]);
    assert!(!pool.add_worker(9000));
    assert!(pool.add_worker(9001));
    assert_eq!(pool.ports, vec![9000, 9001]);
    assert!(pool.contains(9001));
    assert!(!pool.contains(9002));
}

#[test]
fn reloads_are_a_minute_apart() {
    let mut pool = WorkerPool::new(vec![9000]);
    let t0 = Instant { secs: 1_700_000_000, nanos: 500 };
    assert_eq!(pool.get_worker_state(t0), WorkerState::Running);
    assert_eq!(pool.last_reload, Some(t0));
    // 59.999999999 seconds later
    let t1 = Instant { secs: 1_700_000_060, nanos: 499 };
    assert_eq!(pool.get_worker_state(t1), WorkerState::Reloading);
    assert_eq!(pool.last_reload, Some(t0));
    // exactly sixty seconds later
    let t2 = Instant { secs: 1_700_000_060, nanos: 500 };
    assert_eq!(pool.get_worker_state(t2), WorkerState::Running);
    assert_eq!(pool.last_reload, Some(t2));
    // a clock that went back
    let t3 = Instant { secs: 1_600_000_000, nanos: 0 };
    assert_eq!(pool.get_worker_state(t3), WorkerState::Reloading);
    assert_eq!(pool.last_reload, Some(t2));
}

#[test]
fn lowest_free_port_is_chosen() {
    assert_eq!(get_available_port(9000, 9010, &[], &[]), Some(9000));
    assert_eq!(get_available_port(9000, 9010, &[9000, 9001], &[]), Some(9002));
    assert_eq!(get_available_port(9000, 9010, &[9000], &[9001, 9002]), Some(9003));
    assert_eq!(get_available_port(9000, 9002, &[9000, 9002], &[9001]), None);
    assert_eq!(get_available_port(9000, 9000, &[], &[]), Some(9000));
    assert_eq!(get_available_port(9001, 9000, &[], &[]), None);
    assert_eq!(get_available_port(65535, 65535, &[], &[]), Some(65535));
    assert_eq!(get_available_port(65535, 65535, &[65535], &[]), None);
    assert_eq!(get_available_port(0, 65535, &[0], &[1]), Some(2));
}

#[test]
fn granian_command_line() {
    let c = cmd_run_worker(&config("granian"), 9003);
    assert_eq!(c.program, "granian");
    assert_eq!(
        c.args,
        vec![
            "app_granian:app",
            "--interface=asgi",
            "--workers=1",
            "--runtime-threads=4",
            "--blocking-threads=1",
            "--port=9003",
            "--backlog=8196",
            "--backpressure=200000",
            "--log-config=log_config.json",
        ]
    );
}

#[test]
fn robyn_command_line() {
    let c = cmd_run_worker(&config("robyn"), 9004);
    assert_eq!(c.program, "python");
    assert_eq!(
        c.args,
        vec!["app_robyn.py", "--log-level=warning", "--workers=4", "--processes=1", "--port=9004"]
    );
}

#[test]
fn port_range_of_the_configuration() {
    assert_eq!(port_range(&config("granian")), (9000, 9010));
}

#[test]
fn live_children_and_their_memory() {
    let mut info = SystemInfoWorkers::new();
    let probes = vec![
        ChildProbe { child: 11, parent: 10, child_memory: Some(1000), parent_alive: true },
        ChildProbe { child: 12, parent: 10, child_memory: None, parent_alive: true },
        ChildProbe { child: 13, parent: 11, child_memory: Some(3000), parent_alive: false },
        ChildProbe { child: 14, parent: 11, child_memory: Some(4000), parent_alive: true },
    ];
    info.record(10, &probes);
    info.record(20, &vec![]);
    assert_eq!(info.worker_childs.len(), 2);
    assert_eq!(info.worker_childs[&10], vec![(11, 10), (14, 11)]);
    assert_eq!(info.worker_childs[&20], vec![]);
    assert_eq!(info.worker_memory[&10], vec![1000, 3000, 4000]);
    assert_eq!(info.worker_memory[&20], Vec::<u64>::new());
    // a worker that is looked at again is recorded anew
    info.record(10, &vec![ChildProbe { child: 15, parent: 10, child_memory: Some(5), parent_alive: true }]);
    assert_eq!(info.worker_childs.len(), 2);
    assert_eq!(info.worker_childs[&10], vec![(15, 10)]);
    assert_eq!(info.worker_memory[&10], vec![5]);
}

#[test]
fn reload_waits_for_the_renderer_to_leave() {
    assert!(keeps_waiting(1, Some(true)));
    assert!(keeps_waiting(1, None));
    assert!(!keeps_waiting(1, Some(false)));
    assert!(keeps_waiting(59, Some(true)));
    assert!(!keeps_waiting(60, Some(true)));
    assert!(!keeps_waiting(60, None));
}

#[test]
fn start_without_a_worker_is_fatal() {
    assert!(!pool_started(0));
    assert!(pool_started(1));
}

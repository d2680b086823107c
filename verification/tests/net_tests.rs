use sysdiag::net::{
    extract_external_ip, next_action, probe_client_failed, probe_init, probe_step,
    throughput_kbps, ProbeAction, ProbeEvent, ProbePhase, ProbeState,
};

fn failed_step(state: ProbeState) -> ProbeState {
    probe_step(state, ProbeEvent::Failed)
}

#[test]
fn all_endpoints_unreachable_leaves_every_field_absent() {
    let mut state = probe_init();
    let mut exchanges: usize = 0;
    loop {
        match next_action(&state) {
            ProbeAction::Finish => break,
            _ => {
                state = failed_step(state);
                exchanges += 1;
                assert!(exchanges <= 16, "probe does not terminate");
            }
        }
    }
    // Three IP endpoints, one latency probe, two mirrors, one upload.
    assert_eq!(exchanges, 7);
    assert_eq!(state.result.external_ip, None);
    assert_eq!(state.result.http_latency_ms, None);
    assert_eq!(state.result.download_kbps, None);
    assert_eq!(state.result.upload_kbps, None);
    assert_eq!(state.result.error, None);
}

#[test]
fn first_ip_success_stops_the_lookup() {
    let state = probe_init();
    let state = probe_step(
        state,
        ProbeEvent::Body {
            text: "{\"ip\": \"203.0.113.5\"}".to_string(),
            elapsed_ms: 12,
        },
    );
    assert_eq!(state.result.external_ip, Some("203.0.113.5".to_string()));
    // The next exchange is the latency probe, not another IP endpoint.
    assert_eq!(state.phase, ProbePhase::Latency);
    match next_action(&state) {
        ProbeAction::Get { url } => {
            assert_eq!(url, "https://www.baidu.com/img/flexible/logo/pc/peak-result.png");
        }
        _ => panic!("expected a plain GET for the latency probe"),
    }
}

#[test]
fn unparseable_ip_body_advances_to_the_next_endpoint() {
    let state = probe_init();
    let state = probe_step(
        state,
        ProbeEvent::Body { text: "no json".to_string(), elapsed_ms: 1 },
    );
    assert_eq!(state.result.external_ip, None);
    assert_eq!(state.phase, ProbePhase::IpLookup { idx: 1 });
    let state = probe_step(
        state,
        ProbeEvent::Body { text: "{\"address\": \"203.0.113.5\"}".to_string(), elapsed_ms: 1 },
    );
    assert_eq!(state.phase, ProbePhase::IpLookup { idx: 2 });
    let state = probe_step(
        state,
        ProbeEvent::Body { text: "{\"ip\": \"198.51.100.7\"}".to_string(), elapsed_ms: 1 },
    );
    assert_eq!(state.result.external_ip, Some("198.51.100.7".to_string()));
}

#[test]
fn extract_ip_reads_the_conventional_field() {
    assert_eq!(
        extract_external_ip("{\"ip\": \"203.0.113.5\", \"country\": \"ZZ\"}"),
        Some("203.0.113.5".to_string())
    );
    assert_eq!(extract_external_ip("{\"ip\": 42}"), None);
    assert_eq!(extract_external_ip("[1, 2]"), None);
    assert_eq!(extract_external_ip(""), None);
}

#[test]
fn latency_success_records_elapsed_time() {
    let mut state = probe_init();
    for _ in 0..3 {
        state = failed_step(state);
    }
    assert_eq!(state.phase, ProbePhase::Latency);
    let state = probe_step(
        state,
        ProbeEvent::Body { text: String::new(), elapsed_ms: 87 },
    );
    assert_eq!(state.result.http_latency_ms, Some(87));
    assert_eq!(state.phase, ProbePhase::Download { idx: 0 });
}

#[test]
fn download_estimate_from_a_qualifying_response() {
    let mut state = probe_init();
    for _ in 0..4 {
        state = failed_step(state);
    }
    assert_eq!(state.phase, ProbePhase::Download { idx: 0 });
    // 150,000 bytes in 100 ms: (150000 * 8) / 1_000_000 / 0.1 = 12 Mbps.
    let state = probe_step(state, ProbeEvent::Chunk { len: 150_000, elapsed_ms: 100 });
    assert_eq!(state.result.download_kbps, Some(12_000));
    let mbps = state.result.download_kbps.unwrap() as f64 / 1000.0;
    assert!((mbps - 12.0).abs() < 1e-9);
    assert_eq!(state.phase, ProbePhase::Upload);
}

#[test]
fn download_below_threshold_is_a_miss() {
    let mut state = probe_init();
    for _ in 0..4 {
        state = failed_step(state);
    }
    let state = probe_step(state, ProbeEvent::Chunk { len: 50_000, elapsed_ms: 10 });
    assert_eq!(state.result.download_kbps, None);
    assert_eq!(state.phase, ProbePhase::Download { idx: 1 });
    match next_action(&state) {
        ProbeAction::GetRange { url, range_last } => {
            assert_eq!(url, "https://npm.taobao.org/mirrors/node/v18.0.0/node-v18.0.0.tar.gz");
            assert_eq!(range_last, 3_000_000);
        }
        _ => panic!("expected a ranged GET at the second mirror"),
    }
}

#[test]
fn upload_estimate_from_elapsed_time() {
    let mut state = probe_init();
    for _ in 0..6 {
        state = failed_step(state);
    }
    assert_eq!(state.phase, ProbePhase::Upload);
    match next_action(&state) {
        ProbeAction::PostZeros { url, payload_len } => {
            assert_eq!(url, "https://httpbin.org/post");
            assert_eq!(payload_len, 500_000);
        }
        _ => panic!("expected a POST of the zero payload"),
    }
    // 500,000 bytes in 200 ms: (500000 * 8) / 1_000_000 / 0.2 = 20 Mbps.
    let state = probe_step(state, ProbeEvent::Delivered { elapsed_ms: 200 });
    assert_eq!(state.result.upload_kbps, Some(20_000));
    let mbps = state.result.upload_kbps.unwrap() as f64 / 1000.0;
    assert!((mbps - 20.0).abs() < 1e-9);
    assert_eq!(state.phase, ProbePhase::Finished);
}

#[test]
fn throughput_floors_elapsed_time_to_one_millisecond() {
    assert_eq!(throughput_kbps(150_000, 100), 12_000);
    assert_eq!(throughput_kbps(500_000, 200), 20_000);
    assert_eq!(throughput_kbps(1_000, 0), 8_000);
    assert_eq!(throughput_kbps(0, 50), 0);
}

#[test]
fn client_construction_failure_is_the_only_error_path() {
    let r = probe_client_failed("client error: no resolver".to_string());
    assert_eq!(r.error, Some("client error: no resolver".to_string()));
    assert_eq!(r.external_ip, None);
    assert_eq!(r.http_latency_ms, None);
    assert_eq!(r.download_kbps, None);
    assert_eq!(r.upload_kbps, None);
}

#[test]
fn one_failure_never_nulls_out_other_measurements() {
    let mut state = probe_init();
    // IP lookup succeeds at the first endpoint.
    state = probe_step(
        state,
        ProbeEvent::Body { text: "{\"ip\": \"203.0.113.5\"}".to_string(), elapsed_ms: 3 },
    );
    // Latency fails.
    state = failed_step(state);
    // Both mirrors fail.
    state = failed_step(state);
    state = failed_step(state);
    // Upload succeeds.
    state = probe_step(state, ProbeEvent::Delivered { elapsed_ms: 1000 });
    assert_eq!(state.phase, ProbePhase::Finished);
    assert_eq!(state.result.external_ip, Some("203.0.113.5".to_string()));
    assert_eq!(state.result.http_latency_ms, None);
    assert_eq!(state.result.download_kbps, None);
    assert_eq!(state.result.upload_kbps, Some(4_000));
    assert_eq!(state.result.error, None);
}

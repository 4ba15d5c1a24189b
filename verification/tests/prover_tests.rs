use snarkify_prover::adapter::{status_error_message, task_method, vk_method, SnarkifyProver};
use snarkify_prover::codec::{create_task_body, map_state};
use snarkify_prover::text::{json_escape, str_eq, u64_to_dec};
use snarkify_prover::transport::{backoff_delay_sec, is_success_status, resolve_attempts,
    retry_decide, AttemptResult, RetryStep, TransportOutcome};
use snarkify_prover::types::{circuit_type_code, circuit_type_of_code, CircuitType, GetVkRequest,
    ProveRequest, ProverConfig, QueryTaskRequest, TaskStatus};

fn prover() -> SnarkifyProver {
    SnarkifyProver::new(
        ProverConfig {
            base_url: String::from("https://api.example.com"),
            api_key: String::from("key-123"),
            connection_timeout_sec: 30,
            retry_wait_time_sec: 10,
            retry_count: 3,
        },
        String::from("svc-1"),
    )
}

#[test]
fn new_keeps_configuration() {
    let p = prover();
    assert_eq!(p.base_url, "https://api.example.com");
    assert_eq!(p.api_key, "key-123");
    assert_eq!(p.service_id, "svc-1");
    assert_eq!(p.send_timeout_sec, 30);
    assert_eq!(p.retry_wait_time_sec, 10);
    assert_eq!(p.retry_count, 3);
    assert!(!p.is_local());
}

#[test]
fn str_eq_decides_equality() {
    assert!(str_eq("queued", "queued"));
    assert!(!str_eq("queued", "queue"));
    assert!(!str_eq("queued", "Queued"));
    assert!(str_eq("", ""));
}

#[test]
fn decimal_rendering() {
    assert_eq!(u64_to_dec(0), "0");
    assert_eq!(u64_to_dec(7), "7");
    assert_eq!(u64_to_dec(202), "202");
    assert_eq!(u64_to_dec(12345), "12345");
    assert_eq!(u64_to_dec(u64::MAX), "18446744073709551615");
}

#[test]
fn escape_plain_text_unchanged() {
    assert_eq!(json_escape("0xdead"), "0xdead");
    assert_eq!(json_escape(""), "");
}

#[test]
fn escape_quotes_backslashes_and_controls() {
    assert_eq!(json_escape("a\"b"), "a\\\"b");
    assert_eq!(json_escape("a\\b"), "a\\\\b");
    assert_eq!(json_escape("a\nb\tc"), "a\\u000ab\\u0009c");
}

#[test]
fn escape_round_trips_through_a_json_parser() {
    let cases = ["plain", "has \"quotes\"", "back\\slash", "ctl\n\r\t\u{1}", "unicode \u{00e9}\u{4e16}"];
    for plain in cases {
        let quoted = format!("\"{}\"", json_escape(plain));
        let decoded: String = serde_json::from_str(&quoted).unwrap();
        assert_eq!(decoded, plain);
    }
}

#[test]
fn circuit_codes_round_trip() {
    assert_eq!(circuit_type_code(CircuitType::Undefined), 0);
    assert_eq!(circuit_type_code(CircuitType::Halo2), 1);
    assert_eq!(circuit_type_of_code(0), CircuitType::Undefined);
    assert_eq!(circuit_type_of_code(1), CircuitType::Halo2);
    assert_eq!(circuit_type_of_code(42), CircuitType::Undefined);
}

#[test]
fn state_words_map_one_for_one() {
    assert_eq!(map_state("queued"), Some(TaskStatus::Queued));
    assert_eq!(map_state("proving"), Some(TaskStatus::Proving));
    assert_eq!(map_state("success"), Some(TaskStatus::Success));
    assert_eq!(map_state("failed"), Some(TaskStatus::Failed));
    assert_eq!(map_state("Queued"), None);
    assert_eq!(map_state("done"), None);
    assert_eq!(map_state(""), None);
}

#[test]
fn success_status_range_is_200_to_202() {
    assert!(!is_success_status(199));
    assert!(is_success_status(200));
    assert!(is_success_status(201));
    assert!(is_success_status(202));
    assert!(!is_success_status(203));
    assert!(!is_success_status(404));
    assert!(!is_success_status(500));
}

#[test]
fn backoff_doubles_from_half_wait_and_caps_at_wait() {
    assert_eq!(backoff_delay_sec(10, 0), 5);
    assert_eq!(backoff_delay_sec(10, 1), 10);
    assert_eq!(backoff_delay_sec(10, 2), 10);
    assert_eq!(backoff_delay_sec(5, 0), 2);
    assert_eq!(backoff_delay_sec(5, 1), 4);
    assert_eq!(backoff_delay_sec(5, 2), 5);
    assert_eq!(backoff_delay_sec(0, 4), 0);
}

#[test]
fn retry_decide_finishes_on_any_response() {
    let step = retry_decide(
        10,
        3,
        0,
        AttemptResult::Response { status: 500, body: String::from("oops") },
    );
    match step {
        RetryStep::Finish(TransportOutcome::Delivered { status, body }) => {
            assert_eq!(status, 500);
            assert_eq!(body, "oops");
        }
        other => panic!("unexpected step: {:?}", other),
    }
}

#[test]
fn retry_decide_retries_transient_within_budget() {
    let step = retry_decide(10, 3, 1, AttemptResult::Transient { cause: String::from("reset") });
    match step {
        RetryStep::RetryAfterSec(d) => assert_eq!(d, 10),
        other => panic!("unexpected step: {:?}", other),
    }
    let last = retry_decide(10, 3, 3, AttemptResult::Transient { cause: String::from("reset") });
    match last {
        RetryStep::Finish(TransportOutcome::Failed { cause }) => assert_eq!(cause, "reset"),
        other => panic!("unexpected step: {:?}", other),
    }
}

#[test]
fn transient_then_response_resolves_to_that_response() {
    let attempts = vec![
        AttemptResult::Transient { cause: String::from("connection reset") },
        AttemptResult::Response { status: 200, body: String::from("{\"vk\":\"0xabc\"}") },
        AttemptResult::Transient { cause: String::from("unused") },
        AttemptResult::Transient { cause: String::from("unused") },
    ];
    match resolve_attempts(10, 3, &attempts) {
        TransportOutcome::Delivered { status, body } => {
            assert_eq!(status, 200);
            assert_eq!(body, "{\"vk\":\"0xabc\"}");
        }
        other => panic!("unexpected outcome: {:?}", other),
    }
}

#[test]
fn exhausted_budget_surfaces_last_cause() {
    let attempts = vec![
        AttemptResult::Transient { cause: String::from("reset one") },
        AttemptResult::Transient { cause: String::from("reset two") },
        AttemptResult::Transient { cause: String::from("reset three") },
    ];
    match resolve_attempts(10, 2, &attempts) {
        TransportOutcome::Failed { cause } => assert_eq!(cause, "reset three"),
        other => panic!("unexpected outcome: {:?}", other),
    }
}

#[test]
fn paths_encode_their_arguments() {
    let vk_req = GetVkRequest {
        circuit_type: CircuitType::Halo2,
        circuit_version: String::from("v1.2"),
    };
    assert_eq!(vk_method(&vk_req), "/v1/scroll/sdk/vks/versions/v1.2/types/1");
    let q = QueryTaskRequest { task_id: String::from("abc123") };
    assert_eq!(task_method(&q), "/v1/tasks/abc123");
    assert_eq!(prover().prove_method(), "/v1/services/svc-1");
}

#[test]
fn status_error_names_path_and_code() {
    assert_eq!(
        status_error_message("/v1/tasks/abc123", 500),
        "[Snarkify Client], /v1/tasks/abc123, status not ok: 500"
    );
}

#[test]
fn build_url_joins_base_and_path() {
    let p = prover();
    assert_eq!(
        p.build_url("/v1/tasks/abc123").unwrap(),
        "https://api.example.com/v1/tasks/abc123"
    );
}

#[test]
fn build_url_rejects_a_bad_base() {
    let bad = SnarkifyProver::new(
        ProverConfig {
            base_url: String::from("not a url"),
            api_key: String::new(),
            connection_timeout_sec: 1,
            retry_wait_time_sec: 1,
            retry_count: 0,
        },
        String::from("svc-1"),
    );
    let err = bad.build_url("/v1/tasks/abc123").unwrap_err();
    assert!(err.starts_with("Failed to parse URL 'not a url/v1/tasks/abc123': "));
    assert!(err.len() > "Failed to parse URL 'not a url/v1/tasks/abc123': ".len());
}

#[test]
fn create_body_encodes_all_fields() {
    let req = ProveRequest {
        circuit_type: CircuitType::Halo2,
        circuit_version: String::from("v1.2"),
        hard_fork_name: String::from("euclid"),
        input: String::from("0xdead"),
    };
    assert_eq!(
        create_task_body(&req),
        "{\"circuit_type\":1,\"circuit_version\":\"v1.2\",\"hard_fork_name\":\"euclid\",\"task_data\":\"0xdead\"}"
    );
}

#[test]
fn create_body_round_trips_through_query_task() {
    let req = ProveRequest {
        circuit_type: CircuitType::Halo2,
        circuit_version: String::from("v\"1\".2"),
        hard_fork_name: String::from("eu\\clid"),
        input: String::from("line\nbreak"),
    };
    let mut outer = serde_json::Map::new();
    outer.insert(String::from("task_id"), serde_json::Value::from("abc123"));
    outer.insert(String::from("state"), serde_json::Value::from("success"));
    outer.insert(String::from("input"), serde_json::Value::from(create_task_body(&req)));
    let body = serde_json::Value::Object(outer).to_string();
    let p = prover();
    let q = QueryTaskRequest { task_id: String::from("abc123") };
    let resp = p.query_task_outcome(
        &q,
        TransportOutcome::Delivered { status: 200, body },
    );
    assert_eq!(resp.error, None);
    assert_eq!(resp.circuit_type, CircuitType::Halo2);
    assert_eq!(resp.circuit_version, "v\"1\".2");
    assert_eq!(resp.hard_fork_name, "eu\\clid");
    assert_eq!(resp.input, Some(String::from("line\nbreak")));
}

#[test]
fn vk_bodies_that_lack_a_key_fold_into_errors() {
    let p = prover();
    let req = GetVkRequest {
        circuit_type: CircuitType::Halo2,
        circuit_version: String::from("v1.2"),
    };
    for body in ["{\"vk\":7}", "{}", "not json"] {
        let resp = p.get_vk_outcome(
            &req,
            TransportOutcome::Delivered { status: 200, body: String::from(body) },
        );
        assert_eq!(resp.vk, "");
        let msg = resp.error.expect("error must be set");
        assert!(msg.starts_with("Failed to get vk: "));
        assert!(msg.len() > "Failed to get vk: ".len());
    }
}

#[test]
fn task_bodies_feed_prove_responses() {
    let p = prover();
    let req = ProveRequest {
        circuit_type: CircuitType::Halo2,
        circuit_version: String::from("v1.2"),
        hard_fork_name: String::from("euclid"),
        input: String::from("0xdead"),
    };
    let body = "{\"task_id\":\"t1\",\"state\":\"proving\",\"created\":100,\"started\":110}";
    let resp = p.prove_outcome(
        &req,
        TransportOutcome::Delivered { status: 200, body: String::from(body) },
    );
    assert_eq!(resp.task_id, "t1");
    assert_eq!(resp.status, TaskStatus::Proving);
    assert_eq!(resp.created_at, 100);
    assert_eq!(resp.started_at, Some(110));
    assert_eq!(resp.error, None);
    for bad in ["{\"state\":\"queued\"}", "[]"] {
        let failed = p.prove_outcome(
            &req,
            TransportOutcome::Delivered { status: 200, body: String::from(bad) },
        );
        assert_eq!(failed.status, TaskStatus::Failed);
        let msg = failed.error.expect("error must be set");
        assert!(msg.starts_with("Failed to request proof: "));
    }
}

#[test]
fn get_vk_success_returns_key_verbatim() {
    let p = prover();
    let req = GetVkRequest {
        circuit_type: CircuitType::Halo2,
        circuit_version: String::from("v1.2"),
    };
    let resp = p.get_vk_outcome(
        &req,
        TransportOutcome::Delivered { status: 200, body: String::from("{\"vk\":\"0xabc\"}") },
    );
    assert_eq!(resp.vk, "0xabc");
    assert_eq!(resp.error, None);
}

#[test]
fn get_vk_http_500_yields_empty_key_and_error() {
    let p = prover();
    let req = GetVkRequest {
        circuit_type: CircuitType::Halo2,
        circuit_version: String::from("v1.2"),
    };
    let resp = p.get_vk_outcome(
        &req,
        TransportOutcome::Delivered { status: 500, body: String::from("ignored") },
    );
    assert_eq!(resp.vk, "");
    let msg = resp.error.expect("error must be set");
    assert_eq!(
        msg,
        "Failed to get vk: [Snarkify Client], /v1/scroll/sdk/vks/versions/v1.2/types/1, status not ok: 500"
    );
}

#[test]
fn get_vk_after_retry_exhaustion_mentions_cause() {
    let p = prover();
    let req = GetVkRequest {
        circuit_type: CircuitType::Halo2,
        circuit_version: String::from("v1.2"),
    };
    let attempts = vec![
        AttemptResult::Transient { cause: String::from("connection reset") },
        AttemptResult::Transient { cause: String::from("connection reset") },
        AttemptResult::Transient { cause: String::from("connection reset") },
        AttemptResult::Transient { cause: String::from("connection reset") },
    ];
    let outcome = resolve_attempts(p.retry_wait_time_sec, p.retry_count, &attempts);
    let resp = p.get_vk_outcome(&req, outcome);
    assert_eq!(resp.vk, "");
    assert_eq!(resp.error, Some(String::from("Failed to get vk: connection reset")));
}

#[test]
fn get_vk_retried_success_is_indistinguishable() {
    let p = prover();
    let req = GetVkRequest {
        circuit_type: CircuitType::Halo2,
        circuit_version: String::from("v1.2"),
    };
    let attempts = vec![
        AttemptResult::Transient { cause: String::from("connection reset") },
        AttemptResult::Response { status: 200, body: String::from("{\"vk\":\"0xabc\"}") },
        AttemptResult::Transient { cause: String::from("unused") },
        AttemptResult::Transient { cause: String::from("unused") },
    ];
    let retried = p.get_vk_outcome(&req, resolve_attempts(p.retry_wait_time_sec, p.retry_count, &attempts));
    let direct = p.get_vk_outcome(
        &req,
        TransportOutcome::Delivered { status: 200, body: String::from("{\"vk\":\"0xabc\"}") },
    );
    assert_eq!(retried, direct);
}

#[test]
fn prove_queued_task_echoes_request() {
    let p = prover();
    let req = ProveRequest {
        circuit_type: CircuitType::Halo2,
        circuit_version: String::from("v1.2"),
        hard_fork_name: String::from("euclid"),
        input: String::from("0xdead"),
    };
    let body = "{\"task_id\":\"abc123\",\"state\":\"queued\",\"created\":1700000000}";
    let resp = p.prove_outcome(
        &req,
        TransportOutcome::Delivered { status: 200, body: String::from(body) },
    );
    assert_eq!(resp.task_id, "abc123");
    assert_eq!(resp.circuit_type, CircuitType::Halo2);
    assert_eq!(resp.circuit_version, "v1.2");
    assert_eq!(resp.hard_fork_name, "euclid");
    assert_eq!(resp.status, TaskStatus::Queued);
    assert_eq!(resp.created_at, 1700000000);
    assert_eq!(resp.started_at, None);
    assert_eq!(resp.finished_at, None);
    assert_eq!(resp.compute_time_sec, None);
    assert_eq!(resp.input, Some(String::from("0xdead")));
    assert_eq!(resp.proof_data, None);
    assert_eq!(resp.vk, None);
    assert_eq!(resp.error, None);
}

#[test]
fn prove_failure_echoes_input_and_sets_failed() {
    let p = prover();
    let req = ProveRequest {
        circuit_type: CircuitType::Halo2,
        circuit_version: String::from("v1.2"),
        hard_fork_name: String::from("euclid"),
        input: String::from("0xdead"),
    };
    let resp = p.prove_outcome(
        &req,
        TransportOutcome::Failed { cause: String::from("connection reset") },
    );
    assert_eq!(resp.task_id, "");
    assert_eq!(resp.status, TaskStatus::Failed);
    assert_eq!(resp.created_at, 0);
    assert_eq!(resp.input, Some(String::from("0xdead")));
    assert_eq!(resp.error, Some(String::from("Failed to request proof: connection reset")));
}

#[test]
fn prove_rejects_unknown_state_word() {
    let p = prover();
    let req = ProveRequest {
        circuit_type: CircuitType::Halo2,
        circuit_version: String::from("v1.2"),
        hard_fork_name: String::from("euclid"),
        input: String::from("0xdead"),
    };
    let body = "{\"task_id\":\"abc123\",\"state\":\"paused\"}";
    let resp = p.prove_outcome(
        &req,
        TransportOutcome::Delivered { status: 200, body: String::from(body) },
    );
    assert_eq!(resp.status, TaskStatus::Failed);
    assert_eq!(
        resp.error,
        Some(String::from("Failed to request proof: unrecognized task state: paused"))
    );
    assert_eq!(resp.input, Some(String::from("0xdead")));
}

#[test]
fn prove_missing_created_defaults_to_zero() {
    let p = prover();
    let req = ProveRequest {
        circuit_type: CircuitType::Halo2,
        circuit_version: String::from("v1.2"),
        hard_fork_name: String::from("euclid"),
        input: String::from("0xdead"),
    };
    let body = "{\"task_id\":\"abc123\",\"state\":\"queued\"}";
    let resp = p.prove_outcome(
        &req,
        TransportOutcome::Delivered { status: 200, body: String::from(body) },
    );
    assert_eq!(resp.created_at, 0);
    assert_eq!(resp.error, None);
}

#[test]
fn query_task_success_reconstructs_the_task() {
    let p = prover();
    let req = QueryTaskRequest { task_id: String::from("abc123") };
    let body = "{\"task_id\":\"abc123\",\"state\":\"success\",\
        \"input\":\"{\\\"circuit_type\\\":1,\\\"circuit_version\\\":\\\"v1.2\\\",\\\"hard_fork_name\\\":\\\"euclid\\\",\\\"task_data\\\":\\\"0xdead\\\"}\",\
        \"created\":100,\"started\":110,\"finished\":170,\"proof\":\"0xproof\"}";
    let resp = p.query_task_outcome(
        &req,
        TransportOutcome::Delivered { status: 200, body: String::from(body) },
    );
    assert_eq!(resp.task_id, "abc123");
    assert_eq!(resp.circuit_type, CircuitType::Halo2);
    assert_eq!(resp.circuit_version, "v1.2");
    assert_eq!(resp.hard_fork_name, "euclid");
    assert_eq!(resp.status, TaskStatus::Success);
    assert_eq!(resp.created_at, 100);
    assert_eq!(resp.started_at, Some(110));
    assert_eq!(resp.finished_at, Some(170));
    assert_eq!(resp.compute_time_sec, Some(60));
    assert_eq!(resp.input, Some(String::from("0xdead")));
    assert_eq!(resp.proof_data, Some(String::from("0xproof")));
    assert_eq!(resp.vk, None);
    assert_eq!(resp.error, None);
}

#[test]
fn query_task_without_finish_has_no_compute_time() {
    let p = prover();
    let req = QueryTaskRequest { task_id: String::from("abc123") };
    let body = "{\"task_id\":\"abc123\",\"state\":\"proving\",\
        \"input\":\"{\\\"circuit_type\\\":1,\\\"circuit_version\\\":\\\"v1.2\\\",\\\"hard_fork_name\\\":\\\"euclid\\\",\\\"task_data\\\":\\\"0xdead\\\"}\",\
        \"started\":110}";
    let resp = p.query_task_outcome(
        &req,
        TransportOutcome::Delivered { status: 200, body: String::from(body) },
    );
    assert_eq!(resp.status, TaskStatus::Proving);
    assert_eq!(resp.started_at, Some(110));
    assert_eq!(resp.finished_at, None);
    assert_eq!(resp.compute_time_sec, None);
    assert_eq!(resp.error, None);
}

#[test]
fn query_task_malformed_input_yields_canonical_failure() {
    let p = prover();
    let req = QueryTaskRequest { task_id: String::from("abc123") };
    let body = "{\"task_id\":\"abc123\",\"state\":\"success\",\"input\":\"not json\"}";
    let resp = p.query_task_outcome(
        &req,
        TransportOutcome::Delivered { status: 200, body: String::from(body) },
    );
    assert_eq!(resp.task_id, "abc123");
    assert_eq!(resp.circuit_type, CircuitType::Undefined);
    assert_eq!(resp.circuit_version, "");
    assert_eq!(resp.hard_fork_name, "");
    assert_eq!(resp.status, TaskStatus::Queued);
    assert_eq!(resp.created_at, 0);
    assert_eq!(resp.started_at, None);
    assert_eq!(resp.finished_at, None);
    assert_eq!(resp.compute_time_sec, None);
    assert_eq!(resp.input, None);
    assert_eq!(resp.proof_data, None);
    let msg = resp.error.expect("error must be set");
    assert!(msg.starts_with("Failed to parse task input: "));
}

#[test]
fn query_task_transport_failure_echoes_requested_id() {
    let p = prover();
    let req = QueryTaskRequest { task_id: String::from("abc123") };
    let resp = p.query_task_outcome(
        &req,
        TransportOutcome::Failed { cause: String::from("timed out") },
    );
    assert_eq!(resp.task_id, "abc123");
    assert_eq!(resp.circuit_type, CircuitType::Undefined);
    assert_eq!(resp.status, TaskStatus::Queued);
    assert_eq!(resp.error, Some(String::from("Failed to query proof: timed out")));
}

#[test]
fn query_task_remote_error_passes_through() {
    let p = prover();
    let req = QueryTaskRequest { task_id: String::from("abc123") };
    let body = "{\"task_id\":\"abc123\",\"state\":\"failed\",\
        \"input\":\"{\\\"circuit_type\\\":1,\\\"circuit_version\\\":\\\"v1.2\\\",\\\"hard_fork_name\\\":\\\"euclid\\\",\\\"task_data\\\":\\\"0xdead\\\"}\",\
        \"error\":\"prover blew up\"}";
    let resp = p.query_task_outcome(
        &req,
        TransportOutcome::Delivered { status: 200, body: String::from(body) },
    );
    assert_eq!(resp.status, TaskStatus::Failed);
    assert_eq!(resp.error, Some(String::from("prover blew up")));
}

#[test]
fn targets_point_at_the_configured_service() {
    let p = prover();
    let vk_req = GetVkRequest {
        circuit_type: CircuitType::Halo2,
        circuit_version: String::from("v1.2"),
    };
    assert_eq!(
        p.get_vk_target(&vk_req).unwrap(),
        "https://api.example.com/v1/scroll/sdk/vks/versions/v1.2/types/1"
    );
    let prove_req = ProveRequest {
        circuit_type: CircuitType::Halo2,
        circuit_version: String::from("v1.2"),
        hard_fork_name: String::from("euclid"),
        input: String::from("0xdead"),
    };
    let (url, body) = p.prove_target(&prove_req).unwrap();
    assert_eq!(url, "https://api.example.com/v1/services/svc-1");
    assert_eq!(body, create_task_body(&prove_req));
    let q = QueryTaskRequest { task_id: String::from("abc123") };
    assert_eq!(
        p.query_task_target(&q).unwrap(),
        "https://api.example.com/v1/tasks/abc123"
    );
}

#[test]
fn targets_fold_a_bad_url_into_the_response() {
    let bad = SnarkifyProver::new(
        ProverConfig {
            base_url: String::from("not a url"),
            api_key: String::new(),
            connection_timeout_sec: 1,
            retry_wait_time_sec: 1,
            retry_count: 0,
        },
        String::from("svc-1"),
    );
    let vk_req = GetVkRequest {
        circuit_type: CircuitType::Halo2,
        circuit_version: String::from("v1.2"),
    };
    let resp = bad.get_vk_target(&vk_req).unwrap_err();
    assert_eq!(resp.vk, "");
    assert!(resp.error.expect("error must be set").starts_with("Failed to get vk: Failed to parse URL '"));
    let prove_req = ProveRequest {
        circuit_type: CircuitType::Halo2,
        circuit_version: String::from("v1.2"),
        hard_fork_name: String::from("euclid"),
        input: String::from("0xdead"),
    };
    let presp = bad.prove_target(&prove_req).unwrap_err();
    assert_eq!(presp.status, TaskStatus::Failed);
    assert_eq!(presp.input, Some(String::from("0xdead")));
    assert!(presp.error.expect("error must be set").starts_with("Failed to request proof: Failed to parse URL '"));
    let q = QueryTaskRequest { task_id: String::from("abc123") };
    let qresp = bad.query_task_target(&q).unwrap_err();
    assert_eq!(qresp.task_id, "abc123");
    assert_eq!(qresp.status, TaskStatus::Queued);
    assert!(qresp.error.expect("error must be set").starts_with("Failed to query proof: Failed to parse URL '"));
}

#[test]
fn error_builders_produce_the_canonical_shapes() {
    let p = prover();
    let prove_req = ProveRequest {
        circuit_type: CircuitType::Halo2,
        circuit_version: String::from("v1.2"),
        hard_fork_name: String::from("euclid"),
        input: String::from("0xdead"),
    };
    let resp = p.build_prove_error_response(&prove_req, "boom");
    assert_eq!(resp.task_id, "");
    assert_eq!(resp.circuit_type, CircuitType::Halo2);
    assert_eq!(resp.circuit_version, "v1.2");
    assert_eq!(resp.hard_fork_name, "euclid");
    assert_eq!(resp.status, TaskStatus::Failed);
    assert_eq!(resp.created_at, 0);
    assert_eq!(resp.input, Some(String::from("0xdead")));
    assert_eq!(resp.error, Some(String::from("boom")));
    let q = QueryTaskRequest { task_id: String::from("abc123") };
    let qresp = p.build_query_task_error_response(&q, "boom");
    assert_eq!(qresp.task_id, "abc123");
    assert_eq!(qresp.circuit_type, CircuitType::Undefined);
    assert_eq!(qresp.circuit_version, "");
    assert_eq!(qresp.hard_fork_name, "");
    assert_eq!(qresp.status, TaskStatus::Queued);
    assert_eq!(qresp.input, None);
    assert_eq!(qresp.error, Some(String::from("boom")));
}

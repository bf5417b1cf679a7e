use hyperion::entropy::{chance_one_in, fresh_node_id, fresh_task_id};
use hyperion::hal::detect_hardware;
use hyperion::orchestrator::{OfferOutcome, Orchestrator, Task};
use hyperion::p2p::start_p2p_node;
use hyperion::report::{render_status_json, status_label, StatusCode, StatusSnapshot};
use hyperion::text::{decimal_chars, json_escape_chars, string_from_chars, tagged_id};

fn escape(s: &str) -> String {
    let chars: Vec<char> = s.chars().collect();
    string_from_chars(&json_escape_chars(&chars))
}

#[test]
fn decimal_rendering_is_exact() {
    assert_eq!(string_from_chars(&decimal_chars(0)), "0");
    assert_eq!(string_from_chars(&decimal_chars(7)), "7");
    assert_eq!(string_from_chars(&decimal_chars(10)), "10");
    assert_eq!(string_from_chars(&decimal_chars(409)), "409");
    assert_eq!(string_from_chars(&decimal_chars(999999)), "999999");
    assert_eq!(
        string_from_chars(&decimal_chars(u64::MAX)),
        "18446744073709551615"
    );
}

#[test]
fn tagged_ids_are_zero_padded_to_six_digits() {
    assert_eq!(tagged_id("task_", 5), "task_000005");
    assert_eq!(tagged_id("task_", 1000), "task_001000");
    assert_eq!(tagged_id("node_", 123456), "node_123456");
    assert_eq!(tagged_id("node_", 9999999), "node_9999999");
}

#[test]
fn fresh_identifiers_carry_tag_and_six_digits() {
    for _ in 0..16 {
        let node = fresh_node_id();
        assert_eq!(node.len(), 11);
        assert!(node.starts_with("node_"));
        let serial: u64 = node[5..].parse().unwrap();
        assert!((1000..999999).contains(&serial));
        let task = fresh_task_id();
        assert!(task.starts_with("task_"));
        assert_eq!(task.len(), 11);
    }
}

#[test]
fn certain_chance_always_hits() {
    for _ in 0..8 {
        assert!(chance_one_in(1));
    }
}

#[test]
fn json_escaping_handles_quotes_backslashes_and_controls() {
    assert_eq!(escape("plain"), "plain");
    assert_eq!(escape("a\"b"), "a\\\"b");
    assert_eq!(escape("a\\b"), "a\\\\b");
    assert_eq!(escape("a\nb"), "a\\u000ab");
    assert_eq!(escape("\u{1f}"), "\\u001f");
    assert_eq!(escape(""), "");
}

#[test]
fn status_labels_match_the_wire_vocabulary() {
    assert_eq!(status_label(StatusCode::Offline), "offline");
    assert_eq!(status_label(StatusCode::Syncing), "syncing");
    assert_eq!(status_label(StatusCode::Online), "online");
    assert_eq!(status_label(StatusCode::Computing), "computing");
}

#[test]
fn rendered_report_is_the_exact_upsert_body() {
    let snap = StatusSnapshot {
        node_id: "node_000001".to_string(),
        status: StatusCode::Online,
        gpu_model: "NVIDIA GeForce RTX 4090 (Driver: 535.104.05)".to_string(),
        vram_gb: 24,
        last_seen: "2024-01-01T00:00:00+00:00".to_string(),
    };
    let body = render_status_json(&snap);
    assert_eq!(
        body,
        "{\"id\":\"node_000001\",\"gpu_model\":\"NVIDIA GeForce RTX 4090 (Driver: 535.104.05)\",\"status\":\"online\",\"vram_gb\":24,\"last_seen\":\"2024-01-01T00:00:00+00:00\",\"ip_location\":{\"city\":\"Global\",\"lat\":0,\"lng\":0}}"
    );
}

#[test]
fn rendered_report_parses_back_as_json() {
    let snap = StatusSnapshot {
        node_id: "node_\"quoted\"".to_string(),
        status: StatusCode::Computing,
        gpu_model: "odd\\model\nname".to_string(),
        vram_gb: 24,
        last_seen: "2024-01-01T00:00:00+00:00".to_string(),
    };
    let body = render_status_json(&snap);
    let value: serde_json::Value = serde_json::from_str(&body).unwrap();
    assert_eq!(value.get("id").unwrap().as_str().unwrap(), "node_\"quoted\"");
    assert_eq!(
        value.get("gpu_model").unwrap().as_str().unwrap(),
        "odd\\model\nname"
    );
    assert_eq!(value.get("status").unwrap().as_str().unwrap(), "computing");
    assert_eq!(value.get("vram_gb").unwrap().as_u64().unwrap(), 24);
    let location = value.get("ip_location").unwrap();
    assert_eq!(location.get("city").unwrap().as_str().unwrap(), "Global");
    assert_eq!(location.get("lat").unwrap().as_i64().unwrap(), 0);
    assert_eq!(location.get("lng").unwrap().as_i64().unwrap(), 0);
}

#[test]
fn heartbeat_lines_reflect_the_state() {
    let hw = detect_hardware();
    let mut orch = Orchestrator::with_node_id("node_000001".to_string(), hw, true);
    assert_eq!(orch.heartbeat(), None);
    orch.begin_sync();
    assert_eq!(orch.heartbeat(), None);
    orch.complete_sync();
    assert_eq!(
        orch.heartbeat(),
        Some("heartbeat: online, vram_gb=24".to_string())
    );
    let decision = orch.offer(Task {
        id: "task_000123".to_string(),
        image: "registry.example/worker:latest".to_string(),
        command: "run".to_string(),
        required_gb: 8,
    });
    assert_eq!(decision, OfferOutcome::Accepted);
    assert_eq!(
        orch.heartbeat(),
        Some("heartbeat: computing task task_000123".to_string())
    );
}

#[test]
fn snapshot_carries_node_identity_capability_and_timestamp() {
    let hw = detect_hardware();
    let orch = Orchestrator::with_node_id("node_000001".to_string(), hw, true);
    let snap = orch.snapshot("2024-06-01T12:00:00+00:00".to_string());
    assert_eq!(snap.node_id, "node_000001");
    assert_eq!(snap.status, StatusCode::Offline);
    assert_eq!(snap.gpu_model, "NVIDIA GeForce RTX 4090 (Driver: 535.104.05)");
    assert_eq!(snap.vram_gb, 24);
    assert_eq!(snap.last_seen, "2024-06-01T12:00:00+00:00");
}

#[test]
fn snapshot_now_stamps_a_nonempty_timestamp() {
    let hw = detect_hardware();
    let orch = Orchestrator::with_node_id("node_000001".to_string(), hw, true);
    let snap = orch.snapshot_now();
    assert!(!snap.last_seen.is_empty());
    assert!(snap.last_seen.contains('T'));
}

#[test]
fn network_stub_yields_the_placeholder_identity() {
    let handle = start_p2p_node();
    assert_eq!(handle.local_peer_id, "12D3KooW...");
}

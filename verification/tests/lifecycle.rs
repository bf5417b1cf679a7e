use hyperion::popw::ProofType;
use hyperion::engine::{ComputeRuntime, DockerRuntime, RuntimeError};
use hyperion::hal::{detect_hardware, HardwareStatus};
use hyperion::model::FailureReason;
use hyperion::orchestrator::{
    report_due,
    NodeState, OfferOutcome, Orchestrator, RejectReason, Settlement, Task, TaskOutcome, Verdict,
};
use hyperion::popw::{MockProver, ProofOfPhysicalWork};
use hyperion::report::StatusCode;

fn idle_node(node_id: &str) -> Orchestrator {
    let hw = detect_hardware();
    let env_ok = MockProver.verify_environment_integrity();
    let mut orch = Orchestrator::with_node_id(node_id.to_string(), hw, env_ok);
    orch.begin_sync();
    orch.complete_sync();
    orch
}

fn offer_of(id: &str, required_gb: u32) -> Task {
    Task {
        id: id.to_string(),
        image: "registry.example/worker:latest".to_string(),
        command: "run".to_string(),
        required_gb,
    }
}

#[test]
fn startup_with_healthy_environment_reaches_idle() {
    let hw = detect_hardware();
    assert_eq!(hw.vram_gb, 24);
    let env_ok = MockProver.verify_environment_integrity();
    assert!(env_ok);
    let mut orch = Orchestrator::with_node_id("node_000001".to_string(), hw, env_ok);
    assert_eq!(orch.state(), &NodeState::Init);
    orch.begin_sync();
    assert_eq!(orch.state(), &NodeState::Syncing);
    orch.complete_sync();
    assert_eq!(orch.state(), &NodeState::Idle);
    let snap = orch.snapshot("2024-01-01T00:00:00+00:00".to_string());
    assert_eq!(snap.status, StatusCode::Online);
}

#[test]
fn offer_within_capability_is_accepted() {
    let mut orch = idle_node("node_000001");
    let decision = orch.offer(offer_of("task_000123", 8));
    assert_eq!(decision, OfferOutcome::Accepted);
    assert_eq!(orch.state(), &NodeState::Computing("task_000123".to_string()));
}

#[test]
fn offer_beyond_capability_is_rejected_and_state_unchanged() {
    let mut orch = idle_node("node_000001");
    let decision = orch.offer(offer_of("task_000124", 32));
    assert_eq!(
        decision,
        OfferOutcome::Rejected(RejectReason::CapabilityExceeded)
    );
    assert_eq!(orch.state(), &NodeState::Idle);
}

#[test]
fn offer_while_computing_is_rejected_busy() {
    let mut orch = idle_node("node_000001");
    assert_eq!(orch.offer(offer_of("task_000123", 8)), OfferOutcome::Accepted);
    let decision = orch.offer(offer_of("task_000125", 4));
    assert_eq!(decision, OfferOutcome::Rejected(RejectReason::Busy));
    assert_eq!(orch.state(), &NodeState::Computing("task_000123".to_string()));
}

#[test]
fn offer_before_sync_is_rejected_not_ready() {
    let hw = detect_hardware();
    let mut orch = Orchestrator::with_node_id("node_000001".to_string(), hw, true);
    let decision = orch.offer(offer_of("task_000123", 8));
    assert_eq!(decision, OfferOutcome::Rejected(RejectReason::NotReady));
    assert_eq!(orch.state(), &NodeState::Init);
}

#[test]
fn untrusted_environment_refuses_every_offer() {
    let hw = detect_hardware();
    let mut orch = Orchestrator::with_node_id("node_000001".to_string(), hw, false);
    orch.begin_sync();
    orch.complete_sync();
    for k in 0..3 {
        let decision = orch.offer(offer_of(&format!("task_00012{}", k), 1));
        assert_eq!(
            decision,
            OfferOutcome::Rejected(RejectReason::EnvironmentUntrusted)
        );
        assert_eq!(orch.state(), &NodeState::Idle);
    }
}

#[test]
fn execution_error_returns_to_idle_with_failure_report_and_no_proof() {
    let mut orch = idle_node("node_000001");
    assert_eq!(orch.offer(offer_of("task_000123", 8)), OfferOutcome::Accepted);
    let settlement = orch.settle(TaskOutcome::Failed {
        error: RuntimeError::ExecutionError,
    });
    assert_eq!(orch.state(), &NodeState::Idle);
    assert_eq!(
        settlement,
        Settlement {
            task_id: "task_000123".to_string(),
            verdict: Verdict::Failure {
                reason: FailureReason::ExecutionError
            },
        }
    );
}

#[test]
fn runtime_unavailable_and_image_fetch_failures_settle_as_failed() {
    let mut orch = idle_node("node_000001");
    assert_eq!(orch.offer(offer_of("task_000200", 8)), OfferOutcome::Accepted);
    let settlement = orch.settle(TaskOutcome::Failed {
        error: RuntimeError::RuntimeUnavailable,
    });
    assert_eq!(
        settlement.verdict,
        Verdict::Failure {
            reason: FailureReason::RuntimeUnavailable
        }
    );
    assert_eq!(orch.offer(offer_of("task_000201", 8)), OfferOutcome::Accepted);
    let settlement = orch.settle(TaskOutcome::Failed {
        error: RuntimeError::ImageFetchError,
    });
    assert_eq!(
        settlement.verdict,
        Verdict::Failure {
            reason: FailureReason::ImageFetchError
        }
    );
    assert_eq!(orch.state(), &NodeState::Idle);
}

#[test]
fn proof_generation_failure_reports_task_failed_despite_result() {
    let mut orch = idle_node("node_000001");
    assert_eq!(orch.offer(offer_of("task_000123", 8)), OfferOutcome::Accepted);
    let settlement = orch.settle(TaskOutcome::Unproved {
        result: "container_result_hash_for_task_000123".to_string(),
    });
    assert_eq!(orch.state(), &NodeState::Idle);
    assert_eq!(settlement.task_id, "task_000123");
    assert_eq!(
        settlement.verdict,
        Verdict::Failure {
            reason: FailureReason::ProofGenerationError
        }
    );
}

#[test]
fn termination_while_computing_cleans_up_and_reports_abandonment() {
    let mut orch = idle_node("node_000001");
    assert_eq!(orch.offer(offer_of("task_000555", 8)), OfferOutcome::Accepted);
    let mut runtime = DockerRuntime::new();
    runtime
        .run_container("task_000555", "registry.example/worker:latest", "run")
        .unwrap();
    assert_eq!(runtime.active_sandbox, Some("task_000555".to_string()));
    let settlement = orch.abandon(&mut runtime);
    assert_eq!(runtime.active_sandbox, None);
    assert_eq!(orch.state(), &NodeState::Idle);
    assert_eq!(
        settlement,
        Some(Settlement {
            task_id: "task_000555".to_string(),
            verdict: Verdict::Failure {
                reason: FailureReason::Abandoned
            },
        })
    );
    let farewell = orch.snapshot("2024-01-01T00:00:00+00:00".to_string());
    assert_eq!(farewell.status, StatusCode::Online);
}

#[test]
fn abandon_while_idle_changes_nothing() {
    let mut orch = idle_node("node_000001");
    let mut runtime = DockerRuntime::new();
    let settlement = orch.abandon(&mut runtime);
    assert_eq!(settlement, None);
    assert_eq!(orch.state(), &NodeState::Idle);
}

#[test]
fn successful_run_settles_with_result_and_proof() {
    let mut orch = idle_node("node_000001");
    assert_eq!(orch.offer(offer_of("task_000123", 8)), OfferOutcome::Accepted);
    let mut runtime = DockerRuntime::new();
    let prover = MockProver;
    let settlement = orch.run_task(&mut runtime, &prover);
    assert_eq!(orch.state(), &NodeState::Idle);
    assert_eq!(runtime.active_sandbox, None);
    assert_eq!(settlement.task_id, "task_000123");
    assert_eq!(
        settlement.verdict,
        Verdict::Success {
            result: "container_result_hash_for_task_000123".to_string(),
            proof_of_work: ProofType::SimpleHash {
                digest: "simple_hash_for_task_task_000123".to_string(),
            },
        }
    );
}

#[test]
fn reports_fall_due_on_the_fixed_cadence() {
    assert!(report_due(10, 10));
    assert!(report_due(20, 10));
    assert!(!report_due(7, 10));
    assert!(report_due(0, 10));
    assert!(report_due(3, 1));
}

#[test]
fn getters_reflect_construction() {
    let hw = HardwareStatus {
        gpu_model: "test accelerator".to_string(),
        vram_gb: 16,
    };
    let orch = Orchestrator::with_node_id("node_424242".to_string(), hw, true);
    assert_eq!(orch.node_id().as_str(), "node_424242");
    assert_eq!(orch.capability().gpu_model, "test accelerator");
    assert_eq!(orch.capability().vram_gb, 16);
    assert!(orch.environment_trusted());
}

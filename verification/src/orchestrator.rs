//! The task lifecycle orchestrator: sole owner of node state, it drives every
//! task from offer through execution and certification to settlement. Each
//! method refines one transition of the abstract model in `model`.

use vstd::prelude::*;
use vstd::pervasive::unreached;
use vstd::string::*;
use crate::engine::{ComputeRuntime, RuntimeError};
use crate::entropy::fresh_node_id;
use crate::hal::HardwareStatus;
use crate::model::{
    accepts, step, wf, EventView, FailureReason, Model, OutcomeView, SettlementView, StateView,
    TaskView, VerdictView,
};
use crate::popw::{ProofOfPhysicalWork, ProofType};
use crate::report::{spec_snapshot, StatusCode, StatusSnapshot};

verus! {

/// Lifecycle state of the node; `Computing` carries the id of the one task
/// being run.
#[derive(Debug, PartialEq)]
pub enum NodeState {
    Init,
    Syncing,
    Idle,
    Computing(String),
}

impl View for NodeState {
    type V = StateView;

    open spec fn view(&self) -> StateView {
        match self {
            NodeState::Init => StateView::Init,
            NodeState::Syncing => StateView::Syncing,
            NodeState::Idle => StateView::Idle,
            NodeState::Computing(id) => StateView::Computing(id@),
        }
    }
}

/// A task offer: network-unique identifier, payload locator and command, and
/// the declared resource requirement in gigabytes of accelerator memory.
#[derive(Debug)]
pub struct Task {
    pub id: String,
    pub image: String,
    pub command: String,
    pub required_gb: u32,
}

impl View for Task {
    type V = TaskView;

    open spec fn view(&self) -> TaskView {
        TaskView {
            id: self.id@,
            image: self.image@,
            command: self.command@,
            required_gb: self.required_gb,
        }
    }
}

/// Why an offer was turned away.
#[derive(Debug, PartialEq, Eq, Clone, Copy, Structural)]
pub enum RejectReason {
    /// The node is still initializing or syncing.
    NotReady,
    /// The node is already computing a task.
    Busy,
    /// The environment integrity check failed; no offer is ever accepted.
    EnvironmentUntrusted,
    /// The declared requirement exceeds the hardware capability.
    CapabilityExceeded,
}

/// The admission decision for one offer.
#[derive(Debug, PartialEq, Eq, Clone, Copy, Structural)]
pub enum OfferOutcome {
    Accepted,
    Rejected(RejectReason),
}

/// The reason an offer is rejected in state `m`; meaningful when `accepts`
/// does not hold.
pub open spec fn spec_reject_reason(m: Model, t: TaskView) -> RejectReason {
    if m.phase is Computing {
        RejectReason::Busy
    } else if m.phase is Init || m.phase is Syncing {
        RejectReason::NotReady
    } else if !m.env_ok {
        RejectReason::EnvironmentUntrusted
    } else {
        RejectReason::CapabilityExceeded
    }
}

/// How a task run ended, as the runtime and prover handed it back.
#[derive(Debug)]
pub enum TaskOutcome {
    /// Execution and certification both succeeded.
    Completed { result: String, proof_of_work: ProofType },
    /// Execution succeeded but the result could not be certified.
    Unproved { result: String },
    /// Execution itself failed.
    Failed { error: RuntimeError },
}

impl View for TaskOutcome {
    type V = OutcomeView;

    open spec fn view(&self) -> OutcomeView {
        match self {
            TaskOutcome::Completed { result, proof_of_work } => OutcomeView::Completed {
                result: result@,
                proof: proof_of_work@,
            },
            TaskOutcome::Unproved { result } => OutcomeView::Unproved { result: result@ },
            TaskOutcome::Failed { error } => OutcomeView::Failed { reason: error.spec_reason() },
        }
    }
}

/// The final word reported on one task.
#[derive(Debug, PartialEq)]
pub enum Verdict {
    Success { result: String, proof_of_work: ProofType },
    Failure { reason: FailureReason },
}

impl View for Verdict {
    type V = VerdictView;

    open spec fn view(&self) -> VerdictView {
        match self {
            Verdict::Success { result, proof_of_work } => VerdictView::Success {
                result: result@,
                proof: proof_of_work@,
            },
            Verdict::Failure { reason } => VerdictView::Failure { reason: *reason },
        }
    }
}

/// A settlement report: the task it concerns and the verdict on it.
#[derive(Debug, PartialEq)]
pub struct Settlement {
    pub task_id: String,
    pub verdict: Verdict,
}

impl View for Settlement {
    type V = SettlementView;

    open spec fn view(&self) -> SettlementView {
        SettlementView { task_id: self.task_id@, verdict: self.verdict@ }
    }
}

/// The orchestrator: exclusive owner of node state and of the one task in
/// flight, if any.
pub struct Orchestrator {
    node_id: String,
    state: NodeState,
    capability: HardwareStatus,
    env_ok: bool,
    task: Option<Task>,
}

impl Orchestrator {
    /// The abstract state this orchestrator refines.
    pub closed spec fn model(&self) -> Model {
        Model {
            node_id: self.node_id@,
            phase: self.state@,
            env_ok: self.env_ok,
            capability: self.capability@,
            task: match self.task {
                Some(t) => Some(t@),
                None => None,
            },
        }
    }

    /// The orchestrator's invariant: its abstract state is well-formed.
    pub open spec fn inv(&self) -> bool {
        wf(self.model())
    }

    /// A node under the given identity, before sync, owning no task. The
    /// environment flag is the one-time integrity verdict of the prover.
    pub fn with_node_id(node_id: String, capability: HardwareStatus, env_ok: bool) -> (r: Self)
        ensures
            r.inv(),
            r.model() == (Model {
                node_id: node_id@,
                phase: StateView::Init,
                env_ok,
                capability: capability@,
                task: None,
            }),
    {
        let r = Orchestrator { node_id, state: NodeState::Init, capability, env_ok, task: None };
        proof {
            assert(r.model() =~= (Model {
                node_id: r.node_id@,
                phase: StateView::Init,
                env_ok,
                capability: r.capability@,
                task: None,
            }));
        }
        r
    }

    /// A node with a freshly drawn identity: `node_` and six decimal digits.
    pub fn new(capability: HardwareStatus, env_ok: bool) -> (r: Self)
        ensures
            r.inv(),
            r.model().phase is Init,
            r.model().task is None,
            r.model().env_ok == env_ok,
            r.model().capability == capability@,
            exists|n: nat|
                1000 <= n < 999999 && r.model().node_id == #[trigger] crate::text::spec_tagged_id(
                    "node_"@,
                    n,
                ),
    {
        let node_id = fresh_node_id();
        Self::with_node_id(node_id, capability, env_ok)
    }

    /// The node's stable identity.
    pub fn node_id(&self) -> (id: &String)
        ensures
            id@ == self.model().node_id,
    {
        &self.node_id
    }

    /// The current lifecycle state, read-only.
    pub fn state(&self) -> (s: &NodeState)
        ensures
            s@ == self.model().phase,
    {
        &self.state
    }

    /// The hardware capability captured at startup.
    pub fn capability(&self) -> (hw: &HardwareStatus)
        ensures
            hw@ == self.model().capability,
    {
        &self.capability
    }

    /// Whether the one-time environment integrity check passed.
    pub fn environment_trusted(&self) -> (ok: bool)
        ensures
            ok == self.model().env_ok,
    {
        self.env_ok
    }

    /// `Init` to `Syncing`: the one-time state sync begins.
    pub fn begin_sync(&mut self)
        requires
            old(self).inv(),
            old(self).model().phase is Init,
        ensures
            final (self).inv(),
            final (self).model() == step(old(self).model(), EventView::SyncStart).0,
            final (self).model().phase is Syncing,
    {
        self.state = NodeState::Syncing;
        proof {
            assert(self.model() =~= step(old(self).model(), EventView::SyncStart).0);
        }
    }

    /// `Syncing` to `Idle`: the sync completed; the node can take offers.
    pub fn complete_sync(&mut self)
        requires
            old(self).inv(),
            old(self).model().phase is Syncing,
        ensures
            final (self).inv(),
            final (self).model() == step(old(self).model(), EventView::SyncDone).0,
            final (self).model().phase is Idle,
    {
        self.state = NodeState::Idle;
        proof {
            assert(self.model() =~= step(old(self).model(), EventView::SyncDone).0);
        }
    }

    /// Admission of one offer: accepted if and only if the node is idle, the
    /// environment is trusted, and the declared requirement fits the
    /// capability; on accept the node turns to `Computing` and owns the task,
    /// on reject nothing changes and the decision names the reason.
    pub fn offer(&mut self, task: Task) -> (decision: OfferOutcome)
        requires
            old(self).inv(),
        ensures
            final (self).inv(),
            final (self).model() == step(old(self).model(), EventView::Offer(task@)).0,
            decision == OfferOutcome::Accepted <==> accepts(old(self).model(), task@),
            accepts(old(self).model(), task@) ==> final (self).model().phase == StateView::Computing(
                task@.id,
            ) && final (self).model().task == Some(task@),
            !accepts(old(self).model(), task@) ==> *final (self) == *old(self) && decision
                == OfferOutcome::Rejected(spec_reject_reason(old(self).model(), task@)),
    {
        let ghost tv = task@;
        match &self.state {
            NodeState::Idle => {
                if !self.env_ok {
                    OfferOutcome::Rejected(RejectReason::EnvironmentUntrusted)
                } else if task.required_gb > self.capability.vram_gb {
                    OfferOutcome::Rejected(RejectReason::CapabilityExceeded)
                } else {
                    let id = task.id.clone();
                    self.state = NodeState::Computing(id);
                    self.task = Some(task);
                    proof {
                        assert(self.model() =~= step(old(self).model(), EventView::Offer(tv)).0);
                    }
                    OfferOutcome::Accepted
                }
            },
            NodeState::Computing(_) => OfferOutcome::Rejected(RejectReason::Busy),
            NodeState::Init => OfferOutcome::Rejected(RejectReason::NotReady),
            NodeState::Syncing => OfferOutcome::Rejected(RejectReason::NotReady),
        }
    }

    /// Leave `Computing`: drop the task and issue its settlement — exactly the
    /// report `settlement_of` prescribes for the outcome, never a silent drop.
    pub fn settle(&mut self, outcome: TaskOutcome) -> (s: Settlement)
        requires
            old(self).inv(),
            old(self).model().phase is Computing,
        ensures
            final (self).inv(),
            final (self).model() == step(old(self).model(), EventView::Finish(outcome@)).0,
            step(old(self).model(), EventView::Finish(outcome@)).1 == Some(s@),
            final (self).model().phase is Idle,
            final (self).model().task is None,
            s@.task_id == old(self).model().phase->Computing_0,
    {
        let ghost ov = outcome@;
        let mut slot: Option<Task> = None;
        core::mem::swap(&mut self.task, &mut slot);
        let t = match slot {
            Some(t) => t,
            None => unreached(),
        };
        self.state = NodeState::Idle;
        let verdict = match outcome {
            TaskOutcome::Completed { result, proof_of_work } => Verdict::Success {
                result,
                proof_of_work,
            },
            TaskOutcome::Unproved { result: _ } => Verdict::Failure {
                reason: FailureReason::ProofGenerationError,
            },
            TaskOutcome::Failed { error } => Verdict::Failure { reason: error.reason() },
        };
        let s = Settlement { task_id: t.id, verdict };
        proof {
            assert(self.model() =~= step(old(self).model(), EventView::Finish(ov)).0);
            assert(s@ =~= step(old(self).model(), EventView::Finish(ov)).1->Some_0);
        }
        s
    }

    /// Drive the owned task through the runtime and the prover: materialize
    /// the artifact, execute, certify, release the sandbox on every exit path,
    /// and settle. Certification failure still settles the task as failed —
    /// an unproved result has no value to the network.
    pub fn run_task<R: ComputeRuntime, P: ProofOfPhysicalWork>(
        &mut self,
        runtime: &mut R,
        prover: &P,
    ) -> (s: Settlement)
        requires
            old(self).inv(),
            old(self).model().phase is Computing,
        ensures
            final (self).inv(),
            final (self).model() == (Model {
                phase: StateView::Idle,
                task: None,
                ..old(self).model()
            }),
            s@.task_id == old(self).model().phase->Computing_0,
            !final (runtime).sandbox_active(old(self).model().phase->Computing_0),
    {
        let (id, image, command) = match &self.task {
            Some(t) => (t.id.clone(), t.image.clone(), t.command.clone()),
            None => unreached(),
        };
        let outcome = match runtime.pull_image(image.as_str()) {
            Err(error) => TaskOutcome::Failed { error },
            Ok(()) => match runtime.run_container(id.as_str(), image.as_str(), command.as_str()) {
                Err(error) => TaskOutcome::Failed { error },
                Ok(result) => match prover.generate_proof(id.as_str(), result.as_str().as_bytes()) {
                    Err(_) => TaskOutcome::Unproved { result },
                    Ok(proof_of_work) => TaskOutcome::Completed { result, proof_of_work },
                },
            },
        };
        let _ = runtime.cleanup(id.as_str());
        let s = self.settle(outcome);
        proof {
            assert(self.model() =~= (Model {
                phase: StateView::Idle,
                task: None,
                ..old(self).model()
            }));
        }
        s
    }

    /// Termination path: abandon the in-flight task, releasing its sandbox and
    /// issuing an abandonment settlement; with no task in flight, nothing
    /// changes.
    pub fn abandon<R: ComputeRuntime>(&mut self, runtime: &mut R) -> (s: Option<Settlement>)
        requires
            old(self).inv(),
        ensures
            final (self).inv(),
            !(final (self).model().phase is Computing),
            old(self).model().phase is Computing ==> final (self).model() == step(
                old(self).model(),
                EventView::Abandon,
            ).0 && Some(s->Some_0@) == step(old(self).model(), EventView::Abandon).1 && s is Some
                && !final (runtime).sandbox_active(old(self).model().phase->Computing_0),
            !(old(self).model().phase is Computing) ==> *final (self) == *old(self) && s is None
                && *final (runtime) == *old(runtime),
    {
        let computing = match &self.state {
            NodeState::Computing(_) => true,
            _ => false,
        };
        if !computing {
            return None;
        }
        let mut slot: Option<Task> = None;
        core::mem::swap(&mut self.task, &mut slot);
        let t = match slot {
            Some(t) => t,
            None => unreached(),
        };
        let _ = runtime.cleanup(t.id.as_str());
        self.state = NodeState::Idle;
        let s = Settlement {
            task_id: t.id,
            verdict: Verdict::Failure { reason: FailureReason::Abandoned },
        };
        proof {
            assert(self.model() =~= step(old(self).model(), EventView::Abandon).0);
            assert(s@ =~= step(old(self).model(), EventView::Abandon).1->Some_0);
        }
        Some(s)
    }

    /// The diagnostic heartbeat line for the current state: a pure read with
    /// no effect on the node; nothing is emitted before the first sync ends.
    pub fn heartbeat(&self) -> (line: Option<String>)
        ensures
            line.deep_view() == spec_heartbeat(self.model()),
    {
        match &self.state {
            NodeState::Idle => {
                let mut l = "heartbeat: online, vram_gb=".to_owned();
                let digits = crate::text::string_from_chars(
                    &crate::text::decimal_chars(self.capability.vram_gb as u64),
                );
                l.append(digits.as_str());
                Some(l)
            },
            NodeState::Computing(id) => {
                let mut l = "heartbeat: computing task ".to_owned();
                l.append(id.as_str());
                Some(l)
            },
            NodeState::Init => None,
            NodeState::Syncing => None,
        }
    }

    /// The status snapshot this node reports at the given timestamp.
    pub fn snapshot(&self, last_seen: String) -> (snap: StatusSnapshot)
        ensures
            snap@ == spec_snapshot(self.model(), last_seen@),
    {
        let status = match &self.state {
            NodeState::Init => StatusCode::Offline,
            NodeState::Syncing => StatusCode::Syncing,
            NodeState::Idle => StatusCode::Online,
            NodeState::Computing(_) => StatusCode::Computing,
        };
        let snap = StatusSnapshot {
            node_id: self.node_id.clone(),
            status,
            gpu_model: self.capability.gpu_model.clone(),
            vram_gb: self.capability.vram_gb,
            last_seen,
        };
        proof {
            assert(snap@ =~= spec_snapshot(self.model(), snap.last_seen@));
        }
        snap
    }

    /// The status snapshot stamped with the current time.
    pub fn snapshot_now(&self) -> (snap: StatusSnapshot)
        ensures
            snap@ == spec_snapshot(self.model(), snap@.last_seen),
            snap@.last_seen.len() > 0,
    {
        let ts = crate::clock::now_rfc3339();
        self.snapshot(ts)
    }
}

/// Whether the periodic status report falls due at this tick: once every
/// `period` ticks, independent of task events.
pub fn report_due(tick: u64, period: u64) -> (due: bool)
    requires
        period > 0,
    ensures
        due == (tick % period == 0),
{
    tick % period == 0
}

/// The heartbeat line for an abstract state: the vram capacity while idle, the
/// task id while computing, nothing before the first sync ends.
pub open spec fn spec_heartbeat(m: Model) -> Option<Seq<char>> {
    match m.phase {
        StateView::Idle => Some(
            "heartbeat: online, vram_gb="@ + crate::text::spec_decimal(m.capability.vram_gb as nat),
        ),
        StateView::Computing(id) => Some("heartbeat: computing task "@ + id),
        _ => None,
    }
}

} // verus!

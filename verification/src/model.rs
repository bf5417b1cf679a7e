//! The mathematical model of the node lifecycle: abstract state, events, the
//! transition function, and the laws the orchestrator obeys.

use vstd::prelude::*;

verus! {

/// Abstract node state: the lifecycle phase, with the owned task id while computing.
#[verifier::ext_equal]
pub enum StateView {
    Init,
    Syncing,
    Idle,
    Computing(Seq<char>),
}

/// Abstract view of a task offer.
#[verifier::ext_equal]
pub struct TaskView {
    pub id: Seq<char>,
    pub image: Seq<char>,
    pub command: Seq<char>,
    pub required_gb: u32,
}

/// Abstract view of the hardware capability descriptor.
#[verifier::ext_equal]
pub struct HardwareView {
    pub gpu_model: Seq<char>,
    pub vram_gb: u32,
}

/// Abstract view of a proof-of-physical-work certificate.
#[verifier::ext_equal]
pub enum ProofView {
    SimpleHash { digest: Seq<char> },
    TEEAttestation { enclave_signature: Seq<char> },
    ZKSnark { proof_data: Seq<u8> },
}

/// Why a task failed; the task-scoped error taxonomy. Plain data, shared by
/// the abstract model and the reports the orchestrator hands out.
#[derive(Debug, PartialEq, Eq, Clone, Copy, Structural)]
pub enum FailureReason {
    RuntimeUnavailable,
    ImageFetchError,
    ExecutionError,
    ProofGenerationError,
    Abandoned,
}

/// Abstract view of how a task run ended.
#[verifier::ext_equal]
pub enum OutcomeView {
    /// Execution and certification both succeeded.
    Completed { result: Seq<char>, proof: ProofView },
    /// Execution succeeded but no proof could be generated.
    Unproved { result: Seq<char> },
    /// Execution itself failed.
    Failed { reason: FailureReason },
}

/// Abstract view of a settlement report: the final word on one task.
#[verifier::ext_equal]
pub enum VerdictView {
    Success { result: Seq<char>, proof: ProofView },
    Failure { reason: FailureReason },
}

#[verifier::ext_equal]
pub struct SettlementView {
    pub task_id: Seq<char>,
    pub verdict: VerdictView,
}

/// The whole abstract orchestrator state.
#[verifier::ext_equal]
pub struct Model {
    pub node_id: Seq<char>,
    pub phase: StateView,
    pub env_ok: bool,
    pub capability: HardwareView,
    pub task: Option<TaskView>,
}

/// Everything the orchestrator reacts to.
pub enum EventView {
    SyncStart,
    SyncDone,
    Offer(TaskView),
    Finish(OutcomeView),
    Abandon,
}

/// Well-formedness: the node is `Computing(id)` if and only if it owns exactly
/// the one task with that id; in every other phase it owns none.
pub open spec fn wf(m: Model) -> bool {
    match m.phase {
        StateView::Computing(id) => m.task matches Some(t) && t.id == id,
        _ => m.task is None,
    }
}

/// Admission: an offer is accepted if and only if the node is idle, the
/// environment is trusted, and the declared requirement fits the capability.
pub open spec fn accepts(m: Model, t: TaskView) -> bool {
    &&& m.phase is Idle
    &&& m.env_ok
    &&& t.required_gb <= m.capability.vram_gb
}

/// The settlement issued when the task with id `id` ends with outcome `o`.
pub open spec fn settlement_of(id: Seq<char>, o: OutcomeView) -> SettlementView {
    match o {
        OutcomeView::Completed { result, proof } => SettlementView {
            task_id: id,
            verdict: VerdictView::Success { result, proof },
        },
        OutcomeView::Unproved { result } => SettlementView {
            task_id: id,
            verdict: VerdictView::Failure { reason: FailureReason::ProofGenerationError },
        },
        OutcomeView::Failed { reason } => SettlementView {
            task_id: id,
            verdict: VerdictView::Failure { reason },
        },
    }
}

/// The transition function: from a state and an event to the next state and
/// the settlement report the step emits, if any.
pub open spec fn step(m: Model, e: EventView) -> (Model, Option<SettlementView>) {
    match e {
        EventView::SyncStart => if m.phase is Init {
            (Model { phase: StateView::Syncing, ..m }, None)
        } else {
            (m, None)
        },
        EventView::SyncDone => if m.phase is Syncing {
            (Model { phase: StateView::Idle, ..m }, None)
        } else {
            (m, None)
        },
        EventView::Offer(t) => if accepts(m, t) {
            (Model { phase: StateView::Computing(t.id), task: Some(t), ..m }, None)
        } else {
            (m, None)
        },
        EventView::Finish(o) => match m.phase {
            StateView::Computing(id) => (
                Model { phase: StateView::Idle, task: None, ..m },
                Some(settlement_of(id, o)),
            ),
            _ => (m, None),
        },
        EventView::Abandon => match m.phase {
            StateView::Computing(id) => (
                Model { phase: StateView::Idle, task: None, ..m },
                Some(
                    SettlementView {
                        task_id: id,
                        verdict: VerdictView::Failure { reason: FailureReason::Abandoned },
                    },
                ),
            ),
            _ => (m, None),
        },
    }
}

/// The state after a whole sequence of events.
pub open spec fn run_model(m: Model, evs: Seq<EventView>) -> Model
    decreases evs.len(),
{
    if evs.len() == 0 {
        m
    } else {
        run_model(step(m, evs[0]).0, evs.drop_first())
    }
}

/// One step neither forges a task nor loses the owned one: well-formedness is preserved.
pub proof fn lemma_step_preserves_wf(m: Model, e: EventView)
    requires
        wf(m),
    ensures
        wf(step(m, e).0),
{
}

/// Law: under every sequence of events, the node is `Computing` for at most
/// one task at any instant — whenever the phase is `Computing(id)`, exactly
/// the one task with that id is owned, and in every other phase none is.
pub proof fn lemma_single_task_admission(m: Model, evs: Seq<EventView>)
    requires
        wf(m),
    ensures
        wf(run_model(m, evs)),
        run_model(m, evs).phase matches StateView::Computing(id) ==> run_model(
            m,
            evs,
        ).task matches Some(t) && t.id == id,
    decreases evs.len(),
{
    if evs.len() > 0 {
        lemma_step_preserves_wf(m, evs[0]);
        lemma_single_task_admission(step(m, evs[0]).0, evs.drop_first());
    }
}

/// Law: an offer whose resource requirement exceeds the hardware capability is
/// never accepted, and the state is left exactly as it was.
pub proof fn lemma_capability_exceeded_rejected(m: Model, t: TaskView)
    requires
        t.required_gb > m.capability.vram_gb,
    ensures
        !accepts(m, t),
        step(m, EventView::Offer(t)).0 == m,
        step(m, EventView::Offer(t)).1 is None,
{
}

/// Law: an offer arriving while the node is already computing is rejected and
/// changes nothing — single-task admission.
pub proof fn lemma_busy_offer_rejected(m: Model, t: TaskView)
    requires
        m.phase is Computing,
    ensures
        !accepts(m, t),
        step(m, EventView::Offer(t)).0 == m,
{
}

/// Law: every transition out of `Computing` into `Idle` emits a settlement for
/// exactly the computing task — a successful result-and-proof pair or a
/// failure report, never a silent drop.
pub proof fn lemma_no_silent_drop(m: Model, e: EventView)
    requires
        wf(m),
        m.phase is Computing,
        step(m, e).0.phase is Idle,
    ensures
        step(m, e).1 matches Some(s) && s.task_id == m.phase->Computing_0,
        step(m, e).1 matches Some(s) && (s.verdict is Success <==> e matches EventView::Finish(
            OutcomeView::Completed { .. },
        )),
{
}

/// No event raises a distrusted environment back to trusted or changes the
/// stored capability.
pub proof fn lemma_step_keeps_configuration(m: Model, e: EventView)
    ensures
        step(m, e).0.env_ok == m.env_ok,
        step(m, e).0.capability == m.capability,
        step(m, e).0.node_id == m.node_id,
{
}

/// Law: while the environment integrity check has failed, no offer is ever
/// accepted — over any sequence of events the node never computes.
pub proof fn lemma_untrusted_env_refuses_offers(m: Model, evs: Seq<EventView>)
    requires
        !m.env_ok,
        !(m.phase is Computing),
    ensures
        !run_model(m, evs).env_ok,
        !(run_model(m, evs).phase is Computing),
    decreases evs.len(),
{
    if evs.len() > 0 {
        lemma_step_keeps_configuration(m, evs[0]);
        lemma_untrusted_env_refuses_offers(step(m, evs[0]).0, evs.drop_first());
    }
}

} // verus!

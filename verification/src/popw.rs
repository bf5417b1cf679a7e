//! Proof-of-physical-work interface: certification of computed results, with a
//! reference prover.

use vstd::prelude::*;
use vstd::string::*;
use crate::model::ProofView;

verus! {

/// Supported proof-of-physical-work certificate forms.
#[derive(Debug, PartialEq)]
pub enum ProofType {
    /// Hash-based certification of the result payload.
    SimpleHash { digest: String },
    /// Trusted-execution-environment attestation.
    TEEAttestation { enclave_signature: String },
    /// Succinct zero-knowledge argument over the computation.
    ZKSnark { proof_data: Vec<u8> },
}

impl View for ProofType {
    type V = ProofView;

    open spec fn view(&self) -> ProofView {
        match self {
            ProofType::SimpleHash { digest } => ProofView::SimpleHash { digest: digest@ },
            ProofType::TEEAttestation { enclave_signature } => ProofView::TEEAttestation {
                enclave_signature: enclave_signature@,
            },
            ProofType::ZKSnark { proof_data } => ProofView::ZKSnark { proof_data: proof_data@ },
        }
    }
}

/// Certification failure: the attestation or proving subsystem is unavailable.
#[derive(Debug, PartialEq, Eq, Clone, Copy, Structural)]
pub enum ProofError {
    ProofGenerationError,
}

/// The proof-of-physical-work capability set every prover backend offers.
pub trait ProofOfPhysicalWork: Sized {
    /// Whether the execution environment is trustworthy; a fixed property of
    /// the prover value, so one pre-admission check speaks for its lifetime.
    spec fn environment_ok(&self) -> bool;

    /// Check the integrity of the execution environment (secure boot, TEE
    /// status); a node whose check fails must refuse every offer.
    fn verify_environment_integrity(&self) -> (ok: bool)
        ensures
            ok == self.environment_ok(),
    ;

    /// Certify a computed result as genuine physical work.
    fn generate_proof(&self, task_id: &str, result_hash: &[u8]) -> (r: Result<
        ProofType,
        ProofError,
    >);
}

/// Reference prover: reports a healthy environment and certifies with a
/// fixed-format simple-hash proof whose digest is derived from the task id;
/// attestation and succinct proofs are the province of production backends.
pub struct MockProver;

/// The fixed-format digest the reference prover attaches to a task's result.
pub open spec fn spec_mock_digest(task_id: Seq<char>) -> Seq<char> {
    "simple_hash_for_task_"@ + task_id
}

impl ProofOfPhysicalWork for MockProver {
    open spec fn environment_ok(&self) -> bool {
        true
    }

    fn verify_environment_integrity(&self) -> (ok: bool) {
        true
    }

    fn generate_proof(&self, task_id: &str, result_hash: &[u8]) -> (r: Result<
        ProofType,
        ProofError,
    >)
        ensures
            r matches Ok(p) && p@ == (ProofView::SimpleHash { digest: spec_mock_digest(task_id@) }),
    {
        let mut digest = "simple_hash_for_task_".to_owned();
        digest.append(task_id);
        Ok(ProofType::SimpleHash { digest })
    }
}

} // verus!

//! Compute-provider node agent for a decentralized physical-infrastructure
//! network: a task lifecycle orchestrator with a pluggable compute runtime and
//! a proof-of-physical-work interface.

pub mod clock;
pub mod engine;
pub mod entropy;
pub mod hal;
pub mod model;
pub mod orchestrator;
pub mod p2p;
pub mod popw;
pub mod report;
pub mod text;

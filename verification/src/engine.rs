//! Compute runtime interface: isolated execution of a task, abstracted over
//! the sandbox technology, with a reference backend.

use vstd::prelude::*;
use vstd::string::*;
use crate::model::FailureReason;

verus! {

/// Task-scoped failures of the compute runtime.
#[derive(Debug, PartialEq, Eq, Clone, Copy, Structural)]
pub enum RuntimeError {
    /// The execution substrate cannot be reached.
    RuntimeUnavailable,
    /// The task's executable artifact could not be materialized.
    ImageFetchError,
    /// The sandboxed run exited abnormally or exhausted its resources.
    ExecutionError,
}

impl RuntimeError {
    /// The failure reason a settlement reports for this error.
    pub open spec fn spec_reason(&self) -> FailureReason {
        match self {
            RuntimeError::RuntimeUnavailable => FailureReason::RuntimeUnavailable,
            RuntimeError::ImageFetchError => FailureReason::ImageFetchError,
            RuntimeError::ExecutionError => FailureReason::ExecutionError,
        }
    }

    /// The failure reason a settlement reports for this error.
    pub fn reason(&self) -> (r: FailureReason)
        ensures
            r == self.spec_reason(),
    {
        match self {
            RuntimeError::RuntimeUnavailable => FailureReason::RuntimeUnavailable,
            RuntimeError::ImageFetchError => FailureReason::ImageFetchError,
            RuntimeError::ExecutionError => FailureReason::ExecutionError,
        }
    }
}

/// The capability set every sandbox backend offers. The orchestrator is
/// written once against these four operations and stays agnostic to the
/// isolation technology behind them.
pub trait ComputeRuntime: Sized {
    /// Whether a sandbox for the given task id currently holds resources.
    spec fn sandbox_active(&self, task_id: Seq<char>) -> bool;

    /// Verify the execution substrate is reachable.
    fn init(&self) -> (r: Result<(), RuntimeError>);

    /// Materialize the task's executable artifact.
    fn pull_image(&mut self, image_url: &str) -> (r: Result<(), RuntimeError>);

    /// Run the task to completion inside an isolated sandbox and return an
    /// opaque result handle; on success the sandbox holds resources for the
    /// task until `cleanup` releases them.
    fn run_container(&mut self, task_id: &str, image: &str, cmd: &str) -> (r: Result<
        String,
        RuntimeError,
    >)
        ensures
            r is Ok ==> final (self).sandbox_active(task_id@),
    ;

    /// Release all sandbox resources held for the task. Idempotent: once the
    /// sandbox is inactive, a further call changes nothing and reports
    /// success, so a repeated cleanup has no additional side effect.
    fn cleanup(&mut self, task_id: &str) -> (r: Result<(), RuntimeError>)
        ensures
            !final (self).sandbox_active(task_id@),
            !old(self).sandbox_active(task_id@) ==> *final (self) == *old(self) && r is Ok,
    ;
}

/// Reference backend standing in for a container engine: tracks the one
/// sandbox it provisions and answers with a result handle derived from the
/// task id.
pub struct DockerRuntime {
    /// The task id whose sandbox currently holds resources, if any.
    pub active_sandbox: Option<String>,
}

/// The opaque result handle the reference backend returns for a task.
pub open spec fn spec_container_result(task_id: Seq<char>) -> Seq<char> {
    "container_result_hash_for_"@ + task_id
}

impl DockerRuntime {
    /// A fresh runtime with no sandbox provisioned.
    pub fn new() -> (r: Self)
        ensures
            r.active_sandbox is None,
    {
        DockerRuntime { active_sandbox: None }
    }
}

impl ComputeRuntime for DockerRuntime {
    open spec fn sandbox_active(&self, task_id: Seq<char>) -> bool {
        self.active_sandbox matches Some(t) && t@ == task_id
    }

    fn init(&self) -> (r: Result<(), RuntimeError>)
        ensures
            r is Ok,
    {
        Ok(())
    }

    fn pull_image(&mut self, image_url: &str) -> (r: Result<(), RuntimeError>)
        ensures
            r is Ok,
            *final (self) == *old(self),
    {
        Ok(())
    }

    fn run_container(&mut self, task_id: &str, image: &str, cmd: &str) -> (r: Result<
        String,
        RuntimeError,
    >)
        ensures
            r matches Ok(h) && h@ == spec_container_result(task_id@),
            final (self).sandbox_active(task_id@),
    {
        self.active_sandbox = Some(task_id.to_owned());
        let mut handle = "container_result_hash_for_".to_owned();
        handle.append(task_id);
        Ok(handle)
    }

    fn cleanup(&mut self, task_id: &str) -> (r: Result<(), RuntimeError>)
        ensures
            !final (self).sandbox_active(task_id@),
            r is Ok,
            old(self).sandbox_active(task_id@) ==> final (self).active_sandbox is None,
            !old(self).sandbox_active(task_id@) ==> *final (self) == *old(self),
    {
        let held = match &self.active_sandbox {
            Some(active) => active.eq(&task_id.to_owned()),
            None => false,
        };
        if held {
            self.active_sandbox = None;
        }
        Ok(())
    }
}

} // verus!

//! What a worker decides around the work items it receives: which function
//! an item is for, and what it answers.
use vstd::prelude::*;
use vstd::utf8::{decode_utf8, valid_utf8};

use crate::history::{FailureDetails, HistoryEvent, OrchestratorAction};
use crate::registry::Registry;
use crate::text::string_from_utf8;

verus! {

/// The orchestration instance a work item belongs to.
pub struct OrchestrationInstance {
    pub instance_id: String,
    pub execution_id: Option<String>,
}

/// A request to run an orchestration over its history.
pub struct OrchestratorRequest {
    pub instance_id: String,
    pub execution_id: Option<String>,
    pub past_events: Vec<HistoryEvent>,
    pub new_events: Vec<HistoryEvent>,
}

/// The answer to an orchestrator request.
pub struct OrchestratorResponse {
    pub instance_id: String,
    pub actions: Vec<OrchestratorAction>,
    pub custom_status: Option<String>,
}

/// A request to run an activity.
pub struct ActivityRequest {
    pub name: String,
    pub version: Option<String>,
    pub input: Option<String>,
    pub orchestration_instance: Option<OrchestrationInstance>,
    pub task_id: i32,
}

/// The answer to an activity request.
pub struct ActivityResponse {
    pub instance_id: String,
    pub task_id: i32,
    pub result: Option<String>,
    pub failure_details: Option<FailureDetails>,
}

/// An activity to run: the activity `name` as task `task_id` of the
/// orchestration `instance_id`.
pub struct ActivityCall {
    pub instance_id: String,
    pub name: String,
    pub task_id: i32,
    pub input: Option<String>,
}

/// Why an activity gave no output.
pub enum ActivityError {
    /// The activity itself failed.
    Failed(String),
    /// Its output is not text.
    InvalidUtf8,
}

impl ActivityResponse {
    /// The answer to an activity request that names no orchestration.
    pub fn empty() -> (res: Self)
        ensures
            res.instance_id@ == Seq::<char>::empty(),
            res.task_id == 0,
            res.result is None,
            res.failure_details is None,
    {
        ActivityResponse { instance_id: String::new(), task_id: 0, result: None, failure_details: None }
    }
}

/// A worker: where the task hub is, and what it can run.
pub struct Worker {
    host: String,
    registry: Registry,
}

impl Worker {
    pub closed spec fn spec_host(&self) -> Seq<char> {
        self.host@
    }

    pub closed spec fn spec_registry(&self) -> Registry {
        self.registry
    }

    /// A worker for the task hub at `host` that knows no function yet.
    pub fn new(host: &str) -> (res: Self)
        ensures
            res.spec_host() == host@,
            res.spec_registry().orchestrators() == Map::<Seq<char>, usize>::empty(),
            res.spec_registry().activities() == Map::<Seq<char>, usize>::empty(),
    {
        Worker { registry: Registry::new(), host: host.to_string() }
    }

    pub fn host(&self) -> (res: &str)
        ensures
            res@ == self.spec_host(),
    {
        self.host.as_str()
    }

    pub fn registry(&self) -> (res: &Registry)
        ensures
            *res == self.spec_registry(),
    {
        &self.registry
    }

    /// Registers the orchestrator `name` at `slot`.
    pub fn add_orchestrator(&mut self, name: String, slot: usize)
        ensures
            final(self).spec_host() == old(self).spec_host(),
            final(self).spec_registry().orchestrators() == old(self).spec_registry().orchestrators().insert(name@, slot),
            final(self).spec_registry().activities() == old(self).spec_registry().activities(),
    {
        self.registry.add_orchestrator(name, slot);
    }

    /// Registers the activity `name` at `slot`.
    pub fn add_activity(&mut self, name: String, slot: usize)
        ensures
            final(self).spec_host() == old(self).spec_host(),
            final(self).spec_registry().activities() == old(self).spec_registry().activities().insert(name@, slot),
            final(self).spec_registry().orchestrators() == old(self).spec_registry().orchestrators(),
    {
        self.registry.add_activity(name, slot);
    }

    /// The answer to the orchestrator request of `instance_id`: the actions
    /// its replay left, and no custom status.
    pub fn orchestrator_response(instance_id: String, actions: Vec<OrchestratorAction>) -> (res: OrchestratorResponse)
        ensures
            res.instance_id == instance_id,
            res.actions == actions,
            res.custom_status is None,
    {
        OrchestratorResponse { instance_id, actions, custom_status: None }
    }

    /// The activity an activity request asks for; none when it names no
    /// orchestration.
    pub fn activity_call(request: ActivityRequest) -> (res: Option<ActivityCall>)
        ensures
            request.orchestration_instance is None ==> res is None,
            request.orchestration_instance matches Some(instance) ==> res == Some(ActivityCall {
                instance_id: instance.instance_id,
                name: request.name,
                task_id: request.task_id,
                input: request.input,
            }),
    {
        match request.orchestration_instance {
            Some(instance) => Some(
                ActivityCall {
                    instance_id: instance.instance_id,
                    name: request.name,
                    task_id: request.task_id,
                    input: request.input,
                },
            ),
            None => None,
        }
    }

    /// The answer for an activity that ran: its output, and no failure.
    pub fn activity_response(call: ActivityCall, output: Option<String>) -> (res: ActivityResponse)
        ensures
            res.instance_id == call.instance_id,
            res.task_id == call.task_id,
            res.result == output,
            res.failure_details is None,
    {
        ActivityResponse { instance_id: call.instance_id, task_id: call.task_id, result: output, failure_details: None }
    }

    /// What running an activity gives: nothing when no activity of the name
    /// was found, the failure of one that failed, and otherwise its output as
    /// text, which it must be.
    pub fn activity_output(run: Option<Result<Vec<u8>, String>>) -> (res: Result<Option<String>, ActivityError>)
        ensures
            gives_activity_output(run, res),
    {
        match run {
            None => Ok(None),
            Some(Err(e)) => Err(ActivityError::Failed(e)),
            Some(Ok(bytes)) => match string_from_utf8(bytes) {
                Ok(s) => Ok(Some(s)),
                Err(_) => Err(ActivityError::InvalidUtf8),
            },
        }
    }
}

/// What running an activity gives, for each way the run went.
pub open spec fn gives_activity_output(run: Option<Result<Vec<u8>, String>>, res: Result<Option<String>, ActivityError>) -> bool {
    match run {
        None => res matches Ok(None),
        Some(Err(e)) => res matches Err(ActivityError::Failed(f)) && f == e,
        Some(Ok(bytes)) => if valid_utf8(bytes@) {
            res matches Ok(Some(s)) && s@ == decode_utf8(bytes@)
        } else {
            res matches Err(ActivityError::InvalidUtf8)
        },
    }
}

} // verus!

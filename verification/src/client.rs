//! The requests a client sends to the task hub.
use vstd::prelude::*;

verus! {

/// Start a new orchestration.
pub struct CreateInstanceRequest {
    pub instance_id: String,
    pub name: String,
    pub version: Option<String>,
    pub input: Option<String>,
    pub execution_id: Option<String>,
    pub tags: Vec<(String, String)>,
}

/// Read an orchestration's state.
pub struct GetInstanceRequest {
    pub instance_id: String,
    pub get_inputs_and_outputs: bool,
}

/// Terminate an orchestration.
pub struct TerminateRequest {
    pub instance_id: String,
    pub output: Option<String>,
    pub recursive: bool,
}

/// Raise an event for an orchestration.
pub struct RaiseEventRequest {
    pub instance_id: String,
    pub name: String,
    pub input: Option<String>,
}

/// Suspend an orchestration.
pub struct SuspendRequest {
    pub instance_id: String,
    pub reason: Option<String>,
}

/// Resume an orchestration.
pub struct ResumeRequest {
    pub instance_id: String,
    pub reason: Option<String>,
}

/// Purge an orchestration's state.
pub struct PurgeInstancesRequest {
    pub instance_id: String,
    pub recursive: bool,
}

/// The request that starts the orchestrator `name` as `instance_id` with the
/// serialized `input`: no version, execution id or tags.
pub fn schedule_new_orchestration_request(name: String, input: Option<String>, instance_id: String) -> (res:
    CreateInstanceRequest)
    ensures
        res.instance_id == instance_id,
        res.name == name,
        res.input == input,
        res.version is None,
        res.execution_id is None,
        res.tags@.len() == 0,
{
    CreateInstanceRequest { instance_id, name, version: None, input, execution_id: None, tags: Vec::new() }
}

/// The request that reads the state of `instance_id`, with its payloads
/// when `fetch_payloads` is set.
pub fn get_orchestration_state_request(instance_id: String, fetch_payloads: bool) -> (res: GetInstanceRequest)
    ensures
        res.instance_id == instance_id,
        res.get_inputs_and_outputs == fetch_payloads,
{
    GetInstanceRequest { instance_id, get_inputs_and_outputs: fetch_payloads }
}

/// The request that terminates `instance_id` (and its sub-orchestrations
/// when `recursive`), with no output.
pub fn terminate_orchestration_request(instance_id: String, recursive: bool) -> (res: TerminateRequest)
    ensures
        res.instance_id == instance_id,
        res.recursive == recursive,
        res.output is None,
{
    TerminateRequest { instance_id, output: None, recursive }
}

/// The request that raises the event `name` for `instance_id` with the
/// serialized `input`.
pub fn raise_orchestration_event_request(name: String, input: Option<String>, instance_id: String) -> (res:
    RaiseEventRequest)
    ensures
        res.instance_id == instance_id,
        res.name == name,
        res.input == input,
{
    RaiseEventRequest { instance_id, name, input }
}

/// The request that suspends `instance_id`, giving no reason.
pub fn suspend_orchestration_request(instance_id: String) -> (res: SuspendRequest)
    ensures
        res.instance_id == instance_id,
        res.reason is None,
{
    SuspendRequest { instance_id, reason: None }
}

/// The request that resumes `instance_id`, giving no reason.
pub fn resume_orchestration_request(instance_id: String) -> (res: ResumeRequest)
    ensures
        res.instance_id == instance_id,
        res.reason is None,
{
    ResumeRequest { instance_id, reason: None }
}

/// The request that purges `instance_id` alone.
pub fn purge_orchestration_request(instance_id: String) -> (res: PurgeInstancesRequest)
    ensures
        res.instance_id == instance_id,
        !res.recursive,
{
    PurgeInstancesRequest { instance_id, recursive: false }
}

} // verus!

use vstd::prelude::*;

verus! {

/// Identifies which proof-generation circuit a task or verification key
/// belongs to. `Undefined` is a sentinel for "no valid circuit": responses
/// built after a failure carry it, and so does any unrecognized remote code.
#[derive(Clone, Copy, Debug, PartialEq, Eq, Structural)]
pub enum CircuitType {
    Undefined,
    Halo2,
}

/// The adapter's task lifecycle states, mapped one-for-one from the remote
/// service's state vocabulary.
#[derive(Clone, Copy, Debug, PartialEq, Eq, Structural)]
pub enum TaskStatus {
    Queued,
    Proving,
    Success,
    Failed,
}

/// The numeric code a circuit type travels as on the wire.
pub open spec fn circuit_code(c: CircuitType) -> u64 {
    match c {
        CircuitType::Undefined => 0,
        CircuitType::Halo2 => 1,
    }
}

/// The circuit type a numeric wire code denotes; unknown codes fall back to
/// the `Undefined` sentinel.
pub open spec fn circuit_of_code(code: u64) -> CircuitType {
    if code == 1 {
        CircuitType::Halo2
    } else {
        CircuitType::Undefined
    }
}

/// The wire code round-trips: decoding the code of any circuit type gives
/// that circuit type back.
pub proof fn lemma_circuit_code_round_trip(c: CircuitType)
    ensures
        circuit_of_code(circuit_code(c)) == c,
{
}

/// Executable counterpart of `circuit_code`.
pub fn circuit_type_code(c: CircuitType) -> (r: u64)
    ensures
        r == circuit_code(c),
{
    match c {
        CircuitType::Undefined => 0,
        CircuitType::Halo2 => 1,
    }
}

/// Executable counterpart of `circuit_of_code`.
pub fn circuit_type_of_code(code: u64) -> (r: CircuitType)
    ensures
        r == circuit_of_code(code),
{
    if code == 1 {
        CircuitType::Halo2
    } else {
        CircuitType::Undefined
    }
}

/// The view of an optional string: the optional character sequence it holds.
pub open spec fn opt_text(o: Option<String>) -> Option<Seq<char>> {
    match o {
        Some(s) => Some(s@),
        None => None,
    }
}

/// Immutable connection configuration, fixed at construction.
#[derive(Clone, Debug)]
pub struct ProverConfig {
    pub base_url: String,
    pub api_key: String,
    pub connection_timeout_sec: u64,
    pub retry_wait_time_sec: u64,
    pub retry_count: u32,
}

/// Request for a verification key, addressed by circuit version and type.
#[derive(Clone, Debug)]
pub struct GetVkRequest {
    pub circuit_type: CircuitType,
    pub circuit_version: String,
}

#[verifier::ext_equal]
pub ghost struct GetVkRequestModel {
    pub circuit_type: CircuitType,
    pub circuit_version: Seq<char>,
}

impl View for GetVkRequest {
    type V = GetVkRequestModel;

    open spec fn view(&self) -> GetVkRequestModel {
        GetVkRequestModel {
            circuit_type: self.circuit_type,
            circuit_version: self.circuit_version@,
        }
    }
}

/// Response of `get_vk`: the key on success, a message on failure, never both.
#[derive(Clone, Debug, PartialEq)]
pub struct GetVkResponse {
    pub vk: String,
    pub error: Option<String>,
}

#[verifier::ext_equal]
pub ghost struct GetVkResponseModel {
    pub vk: Seq<char>,
    pub error: Option<Seq<char>>,
}

impl View for GetVkResponse {
    type V = GetVkResponseModel;

    open spec fn view(&self) -> GetVkResponseModel {
        GetVkResponseModel { vk: self.vk@, error: opt_text(self.error) }
    }
}

/// Request to submit a proof task.
#[derive(Clone, Debug)]
pub struct ProveRequest {
    pub circuit_type: CircuitType,
    pub circuit_version: String,
    pub hard_fork_name: String,
    pub input: String,
}

#[verifier::ext_equal]
pub ghost struct ProveRequestModel {
    pub circuit_type: CircuitType,
    pub circuit_version: Seq<char>,
    pub hard_fork_name: Seq<char>,
    pub input: Seq<char>,
}

impl View for ProveRequest {
    type V = ProveRequestModel;

    open spec fn view(&self) -> ProveRequestModel {
        ProveRequestModel {
            circuit_type: self.circuit_type,
            circuit_version: self.circuit_version@,
            hard_fork_name: self.hard_fork_name@,
            input: self.input@,
        }
    }
}

/// Response of `prove`.
///
/// Timestamps are whole seconds since the epoch; `created_at` is `0` when the
/// remote service reported no creation time — a sentinel, not a valid time.
/// `compute_time_sec` is present exactly when both `started_at` and
/// `finished_at` are, and then equals their difference.
#[derive(Clone, Debug, PartialEq)]
pub struct ProveResponse {
    pub task_id: String,
    pub circuit_type: CircuitType,
    pub circuit_version: String,
    pub hard_fork_name: String,
    pub status: TaskStatus,
    pub created_at: u64,
    pub started_at: Option<u64>,
    pub finished_at: Option<u64>,
    pub compute_time_sec: Option<i128>,
    pub input: Option<String>,
    pub proof_data: Option<String>,
    pub vk: Option<String>,
    pub error: Option<String>,
}

#[verifier::ext_equal]
pub ghost struct ProveResponseModel {
    pub task_id: Seq<char>,
    pub circuit_type: CircuitType,
    pub circuit_version: Seq<char>,
    pub hard_fork_name: Seq<char>,
    pub status: TaskStatus,
    pub created_at: u64,
    pub started_at: Option<u64>,
    pub finished_at: Option<u64>,
    pub compute_time_sec: Option<i128>,
    pub input: Option<Seq<char>>,
    pub proof_data: Option<Seq<char>>,
    pub vk: Option<Seq<char>>,
    pub error: Option<Seq<char>>,
}

impl View for ProveResponse {
    type V = ProveResponseModel;

    open spec fn view(&self) -> ProveResponseModel {
        ProveResponseModel {
            task_id: self.task_id@,
            circuit_type: self.circuit_type,
            circuit_version: self.circuit_version@,
            hard_fork_name: self.hard_fork_name@,
            status: self.status,
            created_at: self.created_at,
            started_at: self.started_at,
            finished_at: self.finished_at,
            compute_time_sec: self.compute_time_sec,
            input: opt_text(self.input),
            proof_data: opt_text(self.proof_data),
            vk: opt_text(self.vk),
            error: opt_text(self.error),
        }
    }
}

/// Request to poll a task by its remote-assigned identifier.
#[derive(Clone, Debug)]
pub struct QueryTaskRequest {
    pub task_id: String,
}

#[verifier::ext_equal]
pub ghost struct QueryTaskRequestModel {
    pub task_id: Seq<char>,
}

impl View for QueryTaskRequest {
    type V = QueryTaskRequestModel;

    open spec fn view(&self) -> QueryTaskRequestModel {
        QueryTaskRequestModel { task_id: self.task_id@ }
    }
}

/// Response of `query_task`; field conventions as on `ProveResponse`.
#[derive(Clone, Debug, PartialEq)]
pub struct QueryTaskResponse {
    pub task_id: String,
    pub circuit_type: CircuitType,
    pub circuit_version: String,
    pub hard_fork_name: String,
    pub status: TaskStatus,
    pub created_at: u64,
    pub started_at: Option<u64>,
    pub finished_at: Option<u64>,
    pub compute_time_sec: Option<i128>,
    pub input: Option<String>,
    pub proof_data: Option<String>,
    pub vk: Option<String>,
    pub error: Option<String>,
}

#[verifier::ext_equal]
pub ghost struct QueryTaskResponseModel {
    pub task_id: Seq<char>,
    pub circuit_type: CircuitType,
    pub circuit_version: Seq<char>,
    pub hard_fork_name: Seq<char>,
    pub status: TaskStatus,
    pub created_at: u64,
    pub started_at: Option<u64>,
    pub finished_at: Option<u64>,
    pub compute_time_sec: Option<i128>,
    pub input: Option<Seq<char>>,
    pub proof_data: Option<Seq<char>>,
    pub vk: Option<Seq<char>>,
    pub error: Option<Seq<char>>,
}

impl View for QueryTaskResponse {
    type V = QueryTaskResponseModel;

    open spec fn view(&self) -> QueryTaskResponseModel {
        QueryTaskResponseModel {
            task_id: self.task_id@,
            circuit_type: self.circuit_type,
            circuit_version: self.circuit_version@,
            hard_fork_name: self.hard_fork_name@,
            status: self.status,
            created_at: self.created_at,
            started_at: self.started_at,
            finished_at: self.finished_at,
            compute_time_sec: self.compute_time_sec,
            input: opt_text(self.input),
            proof_data: opt_text(self.proof_data),
            vk: opt_text(self.vk),
            error: opt_text(self.error),
        }
    }
}

} // verus!

use crate::codec::{check_url, create_body_model, create_task_body, input_payload, map_state,
    parse_task_body, parse_task_input, parse_vk_body, state_status, task_payload, url_verdict,
    vk_payload};
use crate::text::{dec_seq, u64_to_dec};
use crate::transport::{is_success_status, lemma_retry_budget_exhausted,
    lemma_retry_success_within_budget, resolve_model, status_success, AttemptModel,
    TransportOutcome, TransportOutcomeModel};
use crate::types::{circuit_code, circuit_of_code, circuit_type_code, circuit_type_of_code,
    CircuitType, GetVkRequest, GetVkRequestModel, GetVkResponse, GetVkResponseModel, ProveRequest,
    ProveRequestModel, ProveResponse, ProveResponseModel, ProverConfig, QueryTaskRequest,
    QueryTaskRequestModel, QueryTaskResponse, QueryTaskResponseModel, TaskStatus};
use vstd::prelude::*;
use vstd::string::*;

verus! {

/// The adapter: immutable connection configuration for a remote proving
/// service, fixed at construction and shared by all calls. The unverified
/// shell performs the HTTP exchanges; every request it sends and every
/// response it hands back goes through this type's verified functions.
#[derive(Clone, Debug)]
pub struct SnarkifyProver {
    pub base_url: String,
    pub api_key: String,
    pub service_id: String,
    pub send_timeout_sec: u64,
    pub retry_wait_time_sec: u64,
    pub retry_count: u32,
}

#[verifier::ext_equal]
pub ghost struct ProverModel {
    pub base_url: Seq<char>,
    pub api_key: Seq<char>,
    pub service_id: Seq<char>,
    pub send_timeout_sec: u64,
    pub retry_wait_time_sec: u64,
    pub retry_count: u32,
}

impl View for SnarkifyProver {
    type V = ProverModel;

    open spec fn view(&self) -> ProverModel {
        ProverModel {
            base_url: self.base_url@,
            api_key: self.api_key@,
            service_id: self.service_id@,
            send_timeout_sec: self.send_timeout_sec,
            retry_wait_time_sec: self.retry_wait_time_sec,
            retry_count: self.retry_count,
        }
    }
}

/// The relative path a verification key is fetched from, encoding the circuit
/// version and the circuit type's wire code positionally.
pub open spec fn vk_method_model(req: GetVkRequestModel) -> Seq<char> {
    "/v1/scroll/sdk/vks/versions/"@ + req.circuit_version + "/types/"@ + dec_seq(
        circuit_code(req.circuit_type) as nat,
    )
}

/// The relative path a proof task is submitted to.
pub open spec fn prove_method_model(p: ProverModel) -> Seq<char> {
    "/v1/services/"@ + p.service_id
}

/// The relative path a task is polled at.
pub open spec fn task_method_model(req: QueryTaskRequestModel) -> Seq<char> {
    "/v1/tasks/"@ + req.task_id
}

/// The message reported when a response arrives with a status outside the
/// accepted range.
pub open spec fn status_error_model(method: Seq<char>, status: u16) -> Seq<char> {
    "[Snarkify Client], "@ + method + ", status not ok: "@ + dec_seq(status as nat)
}

/// The message reported when the composed URL is not accepted.
pub open spec fn url_error_model(full: Seq<char>, e: Seq<char>) -> Seq<char> {
    "Failed to parse URL '"@ + full + "': "@ + e
}

/// The message reported when a task body carries a state word outside the
/// remote vocabulary.
pub open spec fn unknown_state_model(s: Seq<char>) -> Seq<char> {
    "unrecognized task state: "@ + s
}

/// A missing creation timestamp defaults to `0` — a sentinel, not a valid
/// time.
pub open spec fn created_or_zero(c: Option<u64>) -> u64 {
    match c {
        Some(t) => t,
        None => 0,
    }
}

/// The derived task duration: present exactly when both endpoints are, and
/// then exactly their difference in seconds.
pub open spec fn compute_time_model(started: Option<u64>, finished: Option<u64>) -> Option<i128> {
    match (started, finished) {
        (Some(s), Some(f)) => Some((f - s) as i128),
        _ => None,
    }
}

/// The response `get_vk` folds any failure into: an empty key and a message.
pub open spec fn vk_failure_model(cause: Seq<char>) -> GetVkResponseModel {
    GetVkResponseModel { vk: Seq::empty(), error: Some("Failed to get vk: "@ + cause) }
}

/// What `get_vk` returns for a given transport outcome: the decoded key on a
/// success status and a well-formed body, a folded failure otherwise.
pub open spec fn get_vk_model(req: GetVkRequestModel, outcome: TransportOutcomeModel)
    -> GetVkResponseModel {
    match outcome {
        TransportOutcomeModel::Failed { cause } => vk_failure_model(cause),
        TransportOutcomeModel::Delivered { status, body } => if !status_success(status) {
            vk_failure_model(status_error_model(vk_method_model(req), status))
        } else {
            match vk_payload(body) {
                Ok(vk) => GetVkResponseModel { vk, error: None },
                Err(e) => vk_failure_model(e),
            }
        },
    }
}

/// The canonical `prove` failure response: no task, status `Failed`, the
/// caller's input echoed, and the message set.
pub open spec fn prove_error_model(req: ProveRequestModel, msg: Seq<char>) -> ProveResponseModel {
    ProveResponseModel {
        task_id: Seq::empty(),
        circuit_type: req.circuit_type,
        circuit_version: req.circuit_version,
        hard_fork_name: req.hard_fork_name,
        status: TaskStatus::Failed,
        created_at: 0,
        started_at: None,
        finished_at: None,
        compute_time_sec: None,
        input: Some(req.input),
        proof_data: None,
        vk: None,
        error: Some(msg),
    }
}

/// What `prove` returns for a given transport outcome. A freshly created
/// task cannot have finished, so `finished_at`, `compute_time_sec`, `proof`
/// and `vk` stay unset; the caller's input is echoed back in every case.
pub open spec fn prove_model(
    p: ProverModel,
    req: ProveRequestModel,
    outcome: TransportOutcomeModel,
) -> ProveResponseModel {
    match outcome {
        TransportOutcomeModel::Failed { cause } => prove_error_model(
            req,
            "Failed to request proof: "@ + cause,
        ),
        TransportOutcomeModel::Delivered { status, body } => if !status_success(status) {
            prove_error_model(
                req,
                "Failed to request proof: "@ + status_error_model(prove_method_model(p), status),
            )
        } else {
            match task_payload(body) {
                Err(e) => prove_error_model(req, "Failed to request proof: "@ + e),
                Ok(t) => match state_status(t.state) {
                    None => prove_error_model(
                        req,
                        "Failed to request proof: "@ + unknown_state_model(t.state),
                    ),
                    Some(st) => ProveResponseModel {
                        task_id: t.task_id,
                        circuit_type: req.circuit_type,
                        circuit_version: req.circuit_version,
                        hard_fork_name: req.hard_fork_name,
                        status: st,
                        created_at: created_or_zero(t.created),
                        started_at: t.started,
                        finished_at: None,
                        compute_time_sec: None,
                        input: Some(req.input),
                        proof_data: None,
                        vk: None,
                        error: None,
                    },
                },
            }
        },
    }
}

/// The canonical `query_task` failure response: the requested id echoed, the
/// `Undefined` circuit sentinel, status `Queued` as a neutral default (an
/// uncertainty marker, not a claim that the task is queued), and the message
/// set.
pub open spec fn query_error_model(req: QueryTaskRequestModel, msg: Seq<char>)
    -> QueryTaskResponseModel {
    QueryTaskResponseModel {
        task_id: req.task_id,
        circuit_type: CircuitType::Undefined,
        circuit_version: Seq::empty(),
        hard_fork_name: Seq::empty(),
        status: TaskStatus::Queued,
        created_at: 0,
        started_at: None,
        finished_at: None,
        compute_time_sec: None,
        input: None,
        proof_data: None,
        vk: None,
        error: Some(msg),
    }
}

/// What `query_task` returns for a given transport outcome: on a success
/// status, a well-formed body and a well-formed embedded input, the full
/// task view with the derived duration; any failure folds into the canonical
/// failure response.
pub open spec fn query_task_model(req: QueryTaskRequestModel, outcome: TransportOutcomeModel)
    -> QueryTaskResponseModel {
    match outcome {
        TransportOutcomeModel::Failed { cause } => query_error_model(
            req,
            "Failed to query proof: "@ + cause,
        ),
        TransportOutcomeModel::Delivered { status, body } => if !status_success(status) {
            query_error_model(
                req,
                "Failed to query proof: "@ + status_error_model(task_method_model(req), status),
            )
        } else {
            match task_payload(body) {
                Err(e) => query_error_model(req, "Failed to query proof: "@ + e),
                Ok(t) => match state_status(t.state) {
                    None => query_error_model(
                        req,
                        "Failed to query proof: "@ + unknown_state_model(t.state),
                    ),
                    Some(st) => match t.input {
                        None => query_error_model(req, "Failed to query proof: missing task input"@),
                        Some(raw) => match input_payload(raw) {
                            Err(e) => query_error_model(req, "Failed to parse task input: "@ + e),
                            Ok(ti) => QueryTaskResponseModel {
                                task_id: t.task_id,
                                circuit_type: circuit_of_code(ti.circuit_type_code),
                                circuit_version: ti.circuit_version,
                                hard_fork_name: ti.hard_fork_name,
                                status: st,
                                created_at: created_or_zero(t.created),
                                started_at: t.started,
                                finished_at: t.finished,
                                compute_time_sec: compute_time_model(t.started, t.finished),
                                input: Some(ti.task_data),
                                proof_data: t.proof_data,
                                vk: None,
                                error: t.error,
                            },
                        },
                    },
                },
            }
        },
    }
}

/// Two texts joined.
fn concat_text(a: &str, b: &str) -> (r: String)
    ensures
        r@ == a@ + b@,
{
    let mut out = String::new();
    out.append(a);
    out.append(b);
    out
}

/// The relative path for a verification-key request, per `vk_method_model`.
pub fn vk_method(req: &GetVkRequest) -> (r: String)
    ensures
        r@ == vk_method_model(req@),
{
    let mut m = String::new();
    m.append("/v1/scroll/sdk/vks/versions/");
    m.append(req.circuit_version.as_str());
    m.append("/types/");
    let code = u64_to_dec(circuit_type_code(req.circuit_type));
    m.append(code.as_str());
    m
}

/// The relative path for a task poll, per `task_method_model`.
pub fn task_method(req: &QueryTaskRequest) -> (r: String)
    ensures
        r@ == task_method_model(req@),
{
    let mut m = String::new();
    m.append("/v1/tasks/");
    m.append(req.task_id.as_str());
    m
}

/// The status-validation failure message, per `status_error_model`.
pub fn status_error_message(method: &str, status: u16) -> (r: String)
    ensures
        r@ == status_error_model(method@, status),
{
    let mut m = String::new();
    m.append("[Snarkify Client], ");
    m.append(method);
    m.append(", status not ok: ");
    let d = u64_to_dec(status as u64);
    m.append(d.as_str());
    m
}

/// The `get_vk` failure response for a cause, per `vk_failure_model`.
fn vk_error_response(cause: &str) -> (r: GetVkResponse)
    ensures
        r@ == vk_failure_model(cause@),
{
    let r = GetVkResponse { vk: String::new(), error: Some(concat_text("Failed to get vk: ", cause)) };
    proof {
        assert(r@ =~= vk_failure_model(cause@));
    }
    r
}

impl SnarkifyProver {
    /// A prover over the given connection configuration and remote service
    /// identifier; all fields are fixed from the arguments.
    pub fn new(cfg: ProverConfig, service_id: String) -> (r: Self)
        ensures
            r@ == (ProverModel {
                base_url: cfg.base_url@,
                api_key: cfg.api_key@,
                service_id: service_id@,
                send_timeout_sec: cfg.connection_timeout_sec,
                retry_wait_time_sec: cfg.retry_wait_time_sec,
                retry_count: cfg.retry_count,
            }),
    {
        let r = SnarkifyProver {
            base_url: cfg.base_url,
            api_key: cfg.api_key,
            service_id,
            send_timeout_sec: cfg.connection_timeout_sec,
            retry_wait_time_sec: cfg.retry_wait_time_sec,
            retry_count: cfg.retry_count,
        };
        proof {
            assert(r@ =~= (ProverModel {
                base_url: r.base_url@,
                api_key: r.api_key@,
                service_id: r.service_id@,
                send_timeout_sec: r.send_timeout_sec,
                retry_wait_time_sec: r.retry_wait_time_sec,
                retry_count: r.retry_count,
            }));
        }
        r
    }

    /// This adapter always fronts a remote service.
    pub fn is_local(&self) -> (r: bool)
        ensures
            !r,
    {
        false
    }

    /// The relative path for a task submission, per `prove_method_model`.
    pub fn prove_method(&self) -> (r: String)
        ensures
            r@ == prove_method_model(self@),
    {
        let mut m = String::new();
        m.append("/v1/services/");
        m.append(self.service_id.as_str());
        m
    }

    /// The absolute URL for a relative path: the configured base and the path
    /// joined, accepted or rejected as `url_verdict` has it, the rejection
    /// message naming the composed URL.
    pub fn build_url(&self, method: &str) -> (r: Result<String, String>)
        ensures
            ({
                let full = self@.base_url + method@;
                match url_verdict(full) {
                    None => r matches Ok(u) && u@ == full,
                    Some(e) => r matches Err(m) && m@ == url_error_model(full, e),
                }
            }),
    {
        let mut full = String::new();
        full.append(self.base_url.as_str());
        full.append(method);
        match check_url(full.as_str()) {
            None => Ok(full),
            Some(e) => {
                let mut m = String::new();
                m.append("Failed to parse URL '");
                m.append(full.as_str());
                m.append("': ");
                m.append(e.as_str());
                Err(m)
            },
        }
    }

    /// The URL a `get_vk` call must send its request to, or the folded
    /// failure response when the composed URL is rejected.
    pub fn get_vk_target(&self, req: &GetVkRequest) -> (r: Result<String, GetVkResponse>)
        ensures
            ({
                let full = self@.base_url + vk_method_model(req@);
                match url_verdict(full) {
                    None => r matches Ok(u) && u@ == full,
                    Some(e) => r matches Err(resp) && resp@ == vk_failure_model(
                        url_error_model(full, e),
                    ),
                }
            }),
    {
        let method = vk_method(req);
        match self.build_url(method.as_str()) {
            Ok(u) => Ok(u),
            Err(m) => Err(vk_error_response(m.as_str())),
        }
    }

    /// The `get_vk` response for a transport outcome, per `get_vk_model`.
    pub fn get_vk_outcome(&self, req: &GetVkRequest, outcome: TransportOutcome) -> (r:
        GetVkResponse)
        ensures
            r@ == get_vk_model(req@, outcome@),
    {
        match outcome {
            TransportOutcome::Failed { cause } => vk_error_response(cause.as_str()),
            TransportOutcome::Delivered { status, body } => {
                if !is_success_status(status) {
                    let method = vk_method(req);
                    let cause = status_error_message(method.as_str(), status);
                    vk_error_response(cause.as_str())
                } else {
                    match parse_vk_body(body.as_str()) {
                        Ok(vk) => {
                            let r = GetVkResponse { vk, error: None };
                            proof {
                                assert(r@ =~= get_vk_model(req@, outcome@));
                            }
                            r
                        },
                        Err(e) => vk_error_response(e.as_str()),
                    }
                }
            },
        }
    }

    /// The canonical `prove` failure response, per `prove_error_model`: the
    /// caller's input echoed, status `Failed`, the message set.
    pub fn build_prove_error_response(&self, req: &ProveRequest, error_msg: &str) -> (r:
        ProveResponse)
        ensures
            r@ == prove_error_model(req@, error_msg@),
    {
        let r = ProveResponse {
            task_id: String::new(),
            circuit_type: req.circuit_type,
            circuit_version: req.circuit_version.clone(),
            hard_fork_name: req.hard_fork_name.clone(),
            status: TaskStatus::Failed,
            created_at: 0,
            started_at: None,
            finished_at: None,
            compute_time_sec: None,
            input: Some(req.input.clone()),
            proof_data: None,
            vk: None,
            error: Some(error_msg.to_owned()),
        };
        proof {
            assert(r@ =~= prove_error_model(req@, error_msg@));
        }
        r
    }

    /// The URL and request body a `prove` call must send, or the folded
    /// failure response when the composed URL is rejected.
    pub fn prove_target(&self, req: &ProveRequest) -> (r: Result<(String, String), ProveResponse>)
        ensures
            ({
                let full = self@.base_url + prove_method_model(self@);
                match url_verdict(full) {
                    None => r matches Ok(t) && t.0@ == full && t.1@ == create_body_model(req@),
                    Some(e) => r matches Err(resp) && resp@ == prove_error_model(
                        req@,
                        "Failed to request proof: "@ + url_error_model(full, e),
                    ),
                }
            }),
    {
        let method = self.prove_method();
        match self.build_url(method.as_str()) {
            Ok(u) => Ok((u, create_task_body(req))),
            Err(m) => {
                let msg = concat_text("Failed to request proof: ", m.as_str());
                Err(self.build_prove_error_response(req, msg.as_str()))
            },
        }
    }

    /// The `prove` response for a transport outcome, per `prove_model`.
    pub fn prove_outcome(&self, req: &ProveRequest, outcome: TransportOutcome) -> (r: ProveResponse)
        ensures
            r@ == prove_model(self@, req@, outcome@),
    {
        match outcome {
            TransportOutcome::Failed { cause } => {
                let msg = concat_text("Failed to request proof: ", cause.as_str());
                self.build_prove_error_response(req, msg.as_str())
            },
            TransportOutcome::Delivered { status, body } => {
                if !is_success_status(status) {
                    let method = self.prove_method();
                    let cause = status_error_message(method.as_str(), status);
                    let msg = concat_text("Failed to request proof: ", cause.as_str());
                    self.build_prove_error_response(req, msg.as_str())
                } else {
                    match parse_task_body(body.as_str()) {
                        Err(e) => {
                            let msg = concat_text("Failed to request proof: ", e.as_str());
                            self.build_prove_error_response(req, msg.as_str())
                        },
                        Ok(t) => match map_state(t.state.as_str()) {
                            None => {
                                let cause = concat_text(
                                    "unrecognized task state: ",
                                    t.state.as_str(),
                                );
                                let msg = concat_text("Failed to request proof: ", cause.as_str());
                                self.build_prove_error_response(req, msg.as_str())
                            },
                            Some(st) => {
                                let created_at: u64 = match t.created {
                                    Some(c) => c,
                                    None => 0,
                                };
                                let r = ProveResponse {
                                    task_id: t.task_id,
                                    circuit_type: req.circuit_type,
                                    circuit_version: req.circuit_version.clone(),
                                    hard_fork_name: req.hard_fork_name.clone(),
                                    status: st,
                                    created_at,
                                    started_at: t.started,
                                    finished_at: None,
                                    compute_time_sec: None,
                                    input: Some(req.input.clone()),
                                    proof_data: None,
                                    vk: None,
                                    error: None,
                                };
                                proof {
                                    assert(r@ =~= prove_model(self@, req@, outcome@));
                                }
                                r
                            },
                        },
                    }
                }
            },
        }
    }

    /// The canonical `query_task` failure response, per `query_error_model`:
    /// the requested id echoed, the `Undefined` sentinel, status `Queued` as
    /// a neutral default, the message set.
    pub fn build_query_task_error_response(&self, req: &QueryTaskRequest, error_msg: &str) -> (r:
        QueryTaskResponse)
        ensures
            r@ == query_error_model(req@, error_msg@),
    {
        let r = QueryTaskResponse {
            task_id: req.task_id.clone(),
            circuit_type: CircuitType::Undefined,
            circuit_version: String::new(),
            hard_fork_name: String::new(),
            status: TaskStatus::Queued,
            created_at: 0,
            started_at: None,
            finished_at: None,
            compute_time_sec: None,
            input: None,
            proof_data: None,
            vk: None,
            error: Some(error_msg.to_owned()),
        };
        proof {
            assert(r@ =~= query_error_model(req@, error_msg@));
        }
        r
    }

    /// The URL a `query_task` call must poll, or the folded failure response
    /// when the composed URL is rejected.
    pub fn query_task_target(&self, req: &QueryTaskRequest) -> (r: Result<String,
        QueryTaskResponse>)
        ensures
            ({
                let full = self@.base_url + task_method_model(req@);
                match url_verdict(full) {
                    None => r matches Ok(u) && u@ == full,
                    Some(e) => r matches Err(resp) && resp@ == query_error_model(
                        req@,
                        "Failed to query proof: "@ + url_error_model(full, e),
                    ),
                }
            }),
    {
        let method = task_method(req);
        match self.build_url(method.as_str()) {
            Ok(u) => Ok(u),
            Err(m) => {
                let msg = concat_text("Failed to query proof: ", m.as_str());
                Err(self.build_query_task_error_response(req, msg.as_str()))
            },
        }
    }

    /// The `query_task` response for a transport outcome, per
    /// `query_task_model`.
    pub fn query_task_outcome(&self, req: &QueryTaskRequest, outcome: TransportOutcome) -> (r:
        QueryTaskResponse)
        ensures
            r@ == query_task_model(req@, outcome@),
    {
        match outcome {
            TransportOutcome::Failed { cause } => {
                let msg = concat_text("Failed to query proof: ", cause.as_str());
                self.build_query_task_error_response(req, msg.as_str())
            },
            TransportOutcome::Delivered { status, body } => {
                if !is_success_status(status) {
                    let method = task_method(req);
                    let cause = status_error_message(method.as_str(), status);
                    let msg = concat_text("Failed to query proof: ", cause.as_str());
                    self.build_query_task_error_response(req, msg.as_str())
                } else {
                    match parse_task_body(body.as_str()) {
                        Err(e) => {
                            let msg = concat_text("Failed to query proof: ", e.as_str());
                            self.build_query_task_error_response(req, msg.as_str())
                        },
                        Ok(t) => match map_state(t.state.as_str()) {
                            None => {
                                let cause = concat_text(
                                    "unrecognized task state: ",
                                    t.state.as_str(),
                                );
                                let msg = concat_text("Failed to query proof: ", cause.as_str());
                                self.build_query_task_error_response(req, msg.as_str())
                            },
                            Some(st) => match t.input {
                                None => self.build_query_task_error_response(
                                    req,
                                    "Failed to query proof: missing task input",
                                ),
                                Some(raw) => match parse_task_input(raw.as_str()) {
                                    Err(e) => {
                                        let msg = concat_text(
                                            "Failed to parse task input: ",
                                            e.as_str(),
                                        );
                                        self.build_query_task_error_response(req, msg.as_str())
                                    },
                                    Ok(ti) => {
                                        let created_at: u64 = match t.created {
                                            Some(c) => c,
                                            None => 0,
                                        };
                                        let compute_time_sec: Option<i128> = match (
                                            t.started,
                                            t.finished,
                                        ) {
                                            (Some(s), Some(f)) => Some((f as i128) - (s as i128)),
                                            _ => None,
                                        };
                                        let r = QueryTaskResponse {
                                            task_id: t.task_id,
                                            circuit_type: circuit_type_of_code(
                                                ti.circuit_type_code,
                                            ),
                                            circuit_version: ti.circuit_version,
                                            hard_fork_name: ti.hard_fork_name,
                                            status: st,
                                            created_at,
                                            started_at: t.started,
                                            finished_at: t.finished,
                                            compute_time_sec,
                                            input: Some(ti.task_data),
                                            proof_data: t.proof_data,
                                            vk: None,
                                            error: t.error,
                                        };
                                        proof {
                                            assert(r@ =~= query_task_model(req@, outcome@));
                                        }
                                        r
                                    },
                                },
                            },
                        },
                    }
                }
            },
        }
    }
}

/// A successful `get_vk` exchange — an accepted status and a well-formed
/// body — yields the decoded key verbatim and no error.
pub proof fn lemma_get_vk_success(
    req: GetVkRequestModel,
    status: u16,
    body: Seq<char>,
    vk: Seq<char>,
)
    requires
        status_success(status),
        vk_payload(body) == Ok::<Seq<char>, Seq<char>>(vk),
    ensures
        get_vk_model(req, TransportOutcomeModel::Delivered { status, body }) == (GetVkResponseModel {
            vk,
            error: None,
        }),
{
}

/// A `get_vk` exchange whose status lies outside the accepted range yields
/// an empty key and a non-empty error message.
pub proof fn lemma_get_vk_bad_status(req: GetVkRequestModel, status: u16, body: Seq<char>)
    requires
        !status_success(status),
    ensures
        get_vk_model(req, TransportOutcomeModel::Delivered { status, body }).vk.len() == 0,
        get_vk_model(req, TransportOutcomeModel::Delivered { status, body }).error matches Some(m)
            && m.len() > 0,
{
    reveal_strlit("Failed to get vk: ");
}

/// `get_vk` sets exactly one of key and error: the error is absent exactly
/// when the exchange delivered a success status and a well-formed body, and
/// any failure carries a non-empty message beside an empty key.
pub proof fn lemma_get_vk_error_discipline(req: GetVkRequestModel, outcome: TransportOutcomeModel)
    ensures
        ({
            let r = get_vk_model(req, outcome);
            r.error is None <==> (outcome matches TransportOutcomeModel::Delivered { status, body }
                && status_success(status) && vk_payload(body) is Ok)
        }),
        get_vk_model(req, outcome).error matches Some(m) ==> m.len() > 0 && get_vk_model(
            req,
            outcome,
        ).vk.len() == 0,
{
    reveal_strlit("Failed to get vk: ");
    match outcome {
        TransportOutcomeModel::Failed { cause } => {},
        TransportOutcomeModel::Delivered { status, body } => {
            if status_success(status) {
                match vk_payload(body) {
                    Ok(_) => {},
                    Err(_) => {},
                }
            }
        },
    }
}

/// A `prove` response carries an error exactly when the exchange failed, and
/// then a non-empty message beside status `Failed`, no task id and no result
/// payloads.
pub proof fn lemma_prove_error_discipline(
    p: ProverModel,
    req: ProveRequestModel,
    outcome: TransportOutcomeModel,
)
    ensures
        ({
            let r = prove_model(p, req, outcome);
            r.error is None <==> (outcome matches TransportOutcomeModel::Delivered { status, body }
                && status_success(status) && task_payload(body) is Ok && state_status(
                task_payload(body)->Ok_0.state,
            ) is Some)
        }),
        prove_model(p, req, outcome).error matches Some(m) ==> m.len() > 0 && prove_model(
            p,
            req,
            outcome,
        ).status == TaskStatus::Failed && prove_model(p, req, outcome).task_id.len() == 0
            && prove_model(p, req, outcome).proof_data is None && prove_model(
            p,
            req,
            outcome,
        ).vk is None,
{
    reveal_strlit("Failed to request proof: ");
    match outcome {
        TransportOutcomeModel::Failed { cause } => {},
        TransportOutcomeModel::Delivered { status, body } => {
            if status_success(status) {
                match task_payload(body) {
                    Err(_) => {},
                    Ok(t) => {
                        match state_status(t.state) {
                            None => {},
                            Some(_) => {},
                        }
                    },
                }
            }
        },
    }
}

/// The derived duration `d` agrees with its endpoints: absent unless both
/// endpoints are present, and then exactly their difference.
pub open spec fn duration_consistent(
    started: Option<u64>,
    finished: Option<u64>,
    d: Option<i128>,
) -> bool {
    match (started, finished) {
        (Some(s), Some(f)) => d == Some((f - s) as i128),
        _ => d is None,
    }
}

/// In every `query_task` response, the derived duration is present exactly
/// when both endpoints are, and then equals their difference exactly.
pub proof fn lemma_query_compute_time(req: QueryTaskRequestModel, outcome: TransportOutcomeModel)
    ensures
        ({
            let r = query_task_model(req, outcome);
            duration_consistent(r.started_at, r.finished_at, r.compute_time_sec)
        }),
{
    match outcome {
        TransportOutcomeModel::Failed { cause } => {},
        TransportOutcomeModel::Delivered { status, body } => {
            if status_success(status) {
                match task_payload(body) {
                    Err(_) => {},
                    Ok(t) => match state_status(t.state) {
                        None => {},
                        Some(_) => match t.input {
                            None => {},
                            Some(raw) => match input_payload(raw) {
                                Err(_) => {},
                                Ok(_) => {
                                    match (t.started, t.finished) {
                                        (Some(_), Some(_)) => {},
                                        (Some(_), None) => {},
                                        (None, Some(_)) => {},
                                        (None, None) => {},
                                    }
                                },
                            },
                        },
                    },
                }
            }
        },
    }
}

/// Every failed `query_task` exchange yields the canonical failure response:
/// the requested id echoed, the `Undefined` sentinel, the neutral `Queued`
/// default, nothing else populated, and a non-empty message. A response
/// without an input payload is exactly such a failure.
pub proof fn lemma_query_failure_is_canonical(
    req: QueryTaskRequestModel,
    outcome: TransportOutcomeModel,
)
    ensures
        ({
            let r = query_task_model(req, outcome);
            r.input is None ==> r.task_id == req.task_id && r.circuit_type
                == CircuitType::Undefined && r.circuit_version.len() == 0 && r.hard_fork_name.len()
                == 0 && r.status == TaskStatus::Queued && r.created_at == 0 && r.started_at is None
                && r.finished_at is None && r.compute_time_sec is None && r.proof_data is None
                && r.vk is None
        }),
        ({
            let r = query_task_model(req, outcome);
            r.input is None ==> (r.error matches Some(m) && m.len() > 0)
        }),
{
    reveal_strlit("Failed to query proof: ");
    reveal_strlit("Failed to query proof: missing task input");
    reveal_strlit("Failed to parse task input: ");
    match outcome {
        TransportOutcomeModel::Failed { cause } => {},
        TransportOutcomeModel::Delivered { status, body } => {
            if status_success(status) {
                match task_payload(body) {
                    Err(_) => {},
                    Ok(t) => match state_status(t.state) {
                        None => {},
                        Some(_) => match t.input {
                            None => {},
                            Some(raw) => match input_payload(raw) {
                                Err(_) => {},
                                Ok(_) => {},
                            },
                        },
                    },
                }
            }
        },
    }
}

/// Every `prove` response echoes the caller's input payload, on success and
/// on failure alike.
pub proof fn lemma_prove_echoes_input(
    p: ProverModel,
    req: ProveRequestModel,
    outcome: TransportOutcomeModel,
)
    ensures
        prove_model(p, req, outcome).input == Some(req.input),
{
}

/// A transient fault that gives way to a response within the retry budget
/// leaves the `get_vk` response indistinguishable from a run with no faults.
pub proof fn lemma_get_vk_retry_transparent(
    req: GetVkRequestModel,
    attempts: Seq<AttemptModel>,
    retries: nat,
    k: int,
    status: u16,
    body: Seq<char>,
)
    requires
        attempts.len() >= retries + 1,
        0 <= k <= retries,
        forall|j: int| 0 <= j < k ==> attempts[j] is Transient,
        attempts[k] == (AttemptModel::Response { status, body }),
    ensures
        get_vk_model(req, resolve_model(attempts, retries)) == get_vk_model(
            req,
            TransportOutcomeModel::Delivered { status, body },
        ),
{
    lemma_retry_success_within_budget(attempts, retries, k, status, body);
}

/// A transient fault that gives way to a response within the retry budget
/// leaves the `prove` response indistinguishable from a run with no faults.
pub proof fn lemma_prove_retry_transparent(
    p: ProverModel,
    req: ProveRequestModel,
    attempts: Seq<AttemptModel>,
    retries: nat,
    k: int,
    status: u16,
    body: Seq<char>,
)
    requires
        attempts.len() >= retries + 1,
        0 <= k <= retries,
        forall|j: int| 0 <= j < k ==> attempts[j] is Transient,
        attempts[k] == (AttemptModel::Response { status, body }),
    ensures
        prove_model(p, req, resolve_model(attempts, retries)) == prove_model(
            p,
            req,
            TransportOutcomeModel::Delivered { status, body },
        ),
{
    lemma_retry_success_within_budget(attempts, retries, k, status, body);
}

/// Exhausting the retry budget on transient faults folds the last fault's
/// cause into the `prove` failure response, input echoed and status `Failed`.
pub proof fn lemma_prove_retries_exhausted(
    p: ProverModel,
    req: ProveRequestModel,
    attempts: Seq<AttemptModel>,
    retries: nat,
    cause: Seq<char>,
)
    requires
        attempts.len() >= retries + 1,
        forall|j: int| 0 <= j < retries ==> attempts[j] is Transient,
        attempts[retries as int] == (AttemptModel::Transient { cause }),
    ensures
        prove_model(p, req, resolve_model(attempts, retries)) == prove_error_model(
            req,
            "Failed to request proof: "@ + cause,
        ),
{
    lemma_retry_budget_exhausted(attempts, retries, cause);
}

/// A transient fault that gives way to a response within the retry budget
/// leaves the `query_task` response indistinguishable from a run with no
/// faults.
pub proof fn lemma_query_retry_transparent(
    req: QueryTaskRequestModel,
    attempts: Seq<AttemptModel>,
    retries: nat,
    k: int,
    status: u16,
    body: Seq<char>,
)
    requires
        attempts.len() >= retries + 1,
        0 <= k <= retries,
        forall|j: int| 0 <= j < k ==> attempts[j] is Transient,
        attempts[k] == (AttemptModel::Response { status, body }),
    ensures
        query_task_model(req, resolve_model(attempts, retries)) == query_task_model(
            req,
            TransportOutcomeModel::Delivered { status, body },
        ),
{
    lemma_retry_success_within_budget(attempts, retries, k, status, body);
}

/// Exhausting the retry budget on transient faults folds the last fault's
/// cause into the canonical `query_task` failure response.
pub proof fn lemma_query_retries_exhausted(
    req: QueryTaskRequestModel,
    attempts: Seq<AttemptModel>,
    retries: nat,
    cause: Seq<char>,
)
    requires
        attempts.len() >= retries + 1,
        forall|j: int| 0 <= j < retries ==> attempts[j] is Transient,
        attempts[retries as int] == (AttemptModel::Transient { cause }),
    ensures
        query_task_model(req, resolve_model(attempts, retries)) == query_error_model(
            req,
            "Failed to query proof: "@ + cause,
        ),
{
    lemma_retry_budget_exhausted(attempts, retries, cause);
}

/// Exhausting the retry budget on transient faults folds the last fault's
/// cause into the `get_vk` failure message.
pub proof fn lemma_get_vk_retries_exhausted(
    req: GetVkRequestModel,
    attempts: Seq<AttemptModel>,
    retries: nat,
    cause: Seq<char>,
)
    requires
        attempts.len() >= retries + 1,
        forall|j: int| 0 <= j < retries ==> attempts[j] is Transient,
        attempts[retries as int] == (AttemptModel::Transient { cause }),
    ensures
        get_vk_model(req, resolve_model(attempts, retries)) == vk_failure_model(cause),
        get_vk_model(req, resolve_model(attempts, retries)).error == Some(
            "Failed to get vk: "@ + cause,
        ),
{
    lemma_retry_budget_exhausted(attempts, retries, cause);
}

} // verus!

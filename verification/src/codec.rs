use crate::text::{dec_seq, escape_text, json_escape, str_eq, u64_to_dec};
use crate::types::{circuit_code, circuit_type_code, opt_text, CircuitType, ProveRequest,
    ProveRequestModel, TaskStatus};
use serde_json::Value;
use vstd::prelude::*;
use vstd::string::*;

verus! {

/// The fields of a task response body, as the remote service sends them:
/// identifiers and state as text, timestamps as whole seconds since the
/// epoch, everything but `task_id` and `state` optional.
#[derive(Clone, Debug, PartialEq)]
pub struct TaskBody {
    pub task_id: String,
    pub state: String,
    pub input: Option<String>,
    pub created: Option<u64>,
    pub started: Option<u64>,
    pub finished: Option<u64>,
    pub proof_data: Option<String>,
    pub error: Option<String>,
}

#[verifier::ext_equal]
pub ghost struct TaskBodyModel {
    pub task_id: Seq<char>,
    pub state: Seq<char>,
    pub input: Option<Seq<char>>,
    pub created: Option<u64>,
    pub started: Option<u64>,
    pub finished: Option<u64>,
    pub proof_data: Option<Seq<char>>,
    pub error: Option<Seq<char>>,
}

impl View for TaskBody {
    type V = TaskBodyModel;

    open spec fn view(&self) -> TaskBodyModel {
        TaskBodyModel {
            task_id: self.task_id@,
            state: self.state@,
            input: opt_text(self.input),
            created: self.created,
            started: self.started,
            finished: self.finished,
            proof_data: opt_text(self.proof_data),
            error: opt_text(self.error),
        }
    }
}

/// The structured record a task's embedded `input` field decodes to.
#[derive(Clone, Debug, PartialEq)]
pub struct TaskInput {
    pub circuit_type_code: u64,
    pub circuit_version: String,
    pub hard_fork_name: String,
    pub task_data: String,
}

#[verifier::ext_equal]
pub ghost struct TaskInputModel {
    pub circuit_type_code: u64,
    pub circuit_version: Seq<char>,
    pub hard_fork_name: Seq<char>,
    pub task_data: Seq<char>,
}

impl View for TaskInput {
    type V = TaskInputModel;

    open spec fn view(&self) -> TaskInputModel {
        TaskInputModel {
            circuit_type_code: self.circuit_type_code,
            circuit_version: self.circuit_version@,
            hard_fork_name: self.hard_fork_name@,
            task_data: self.task_data@,
        }
    }
}

/// What checking a text as a URL reports: no message when it is accepted,
/// an error message when it is not.
pub uninterp spec fn url_verdict(s: Seq<char>) -> Option<Seq<char>>;

/// What the body of a verification-key response decodes to: the key, or a
/// decode error message.
pub uninterp spec fn vk_payload(s: Seq<char>) -> Result<Seq<char>, Seq<char>>;

/// What a task response body decodes to: its fields, or a decode error
/// message.
pub uninterp spec fn task_payload(s: Seq<char>) -> Result<TaskBodyModel, Seq<char>>;

/// What a task's embedded input payload decodes to: its fields, or a decode
/// error message.
pub uninterp spec fn input_payload(s: Seq<char>) -> Result<TaskInputModel, Seq<char>>;

/// The view of a decoded string result.
pub open spec fn res_text(r: Result<String, String>) -> Result<Seq<char>, Seq<char>> {
    match r {
        Ok(s) => Ok(s@),
        Err(e) => Err(e@),
    }
}

/// The view of a decoded task body result.
pub open spec fn res_task(r: Result<TaskBody, String>) -> Result<TaskBodyModel, Seq<char>> {
    match r {
        Ok(t) => Ok(t@),
        Err(e) => Err(e@),
    }
}

/// The view of a decoded task input result.
pub open spec fn res_input(r: Result<TaskInput, String>) -> Result<TaskInputModel, Seq<char>> {
    match r {
        Ok(t) => Ok(t@),
        Err(e) => Err(e@),
    }
}

/// Relies on url::Url::parse: whether a text is accepted as an absolute URL,
/// and the error reported when it is not, depend on the text alone.
#[verifier::external_body]
pub(crate) fn check_url(s: &str) -> (r: Option<String>)
    ensures
        opt_text(r) == url_verdict(s@),
{
    match url::Url::parse(s) {
        Ok(_) => None,
        Err(e) => Some(e.to_string()),
    }
}

/// Relies on serde_json::from_str: the decode of a verification-key response
/// body, and the error reported for a malformed one, depend on the text
/// alone.
#[verifier::external_body]
pub(crate) fn parse_vk_body(body: &str) -> (r: Result<String, String>)
    ensures
        res_text(r) == vk_payload(body@),
{
    let v: Value = serde_json::from_str(body).map_err(|e| e.to_string())?;
    match v.get("vk").and_then(Value::as_str) {
        Some(s) => Ok(s.to_string()),
        None => Err("missing field vk".to_string()),
    }
}

/// Relies on serde_json::from_str: the decode of a task response body, and
/// the error reported for a malformed one, depend on the text alone.
#[verifier::external_body]
pub(crate) fn parse_task_body(body: &str) -> (r: Result<TaskBody, String>)
    ensures
        res_task(r) == task_payload(body@),
{
    let v: Value = serde_json::from_str(body).map_err(|e| e.to_string())?;
    let s = |k: &str| v.get(k).and_then(Value::as_str).map(str::to_string);
    let n = |k: &str| v.get(k).and_then(Value::as_u64);
    let (task_id, state) = match (s("task_id"), s("state")) {
        (Some(t), Some(st)) => (t, st),
        _ => return Err("missing field task_id or state".to_string()),
    };
    let (input, proof_data, error) = (s("input"), s("proof"), s("error"));
    let (created, started, finished) = (n("created"), n("started"), n("finished"));
    Ok(TaskBody { task_id, state, input, created, started, finished, proof_data, error })
}

/// Relies on serde_json::from_str: the decode of a task's embedded input
/// payload, and the error reported for a malformed one, depend on the text
/// alone.
#[verifier::external_body]
pub(crate) fn parse_task_input(body: &str) -> (r: Result<TaskInput, String>)
    ensures
        res_input(r) == input_payload(body@),
{
    let v: Value = serde_json::from_str(body).map_err(|e| e.to_string())?;
    let s = |k: &str| v.get(k).and_then(Value::as_str).map(str::to_string);
    let ct = v.get("circuit_type").and_then(Value::as_u64);
    match (ct, s("circuit_version"), s("hard_fork_name"), s("task_data")) {
        (Some(c), Some(cv), Some(hf), Some(td)) => Ok(
            TaskInput { circuit_type_code: c, circuit_version: cv, hard_fork_name: hf, task_data: td },
        ),
        _ => Err("missing task input field".to_string()),
    }
}

/// The adapter's status for a remote task state word; the remote vocabulary
/// maps one-for-one, and anything else is unrecognized.
pub open spec fn state_status(s: Seq<char>) -> Option<TaskStatus> {
    if s == "queued"@ {
        Some(TaskStatus::Queued)
    } else if s == "proving"@ {
        Some(TaskStatus::Proving)
    } else if s == "success"@ {
        Some(TaskStatus::Success)
    } else if s == "failed"@ {
        Some(TaskStatus::Failed)
    } else {
        None
    }
}

/// Executable counterpart of `state_status`.
pub fn map_state(s: &str) -> (r: Option<TaskStatus>)
    ensures
        r == state_status(s@),
{
    if str_eq(s, "queued") {
        Some(TaskStatus::Queued)
    } else if str_eq(s, "proving") {
        Some(TaskStatus::Proving)
    } else if str_eq(s, "success") {
        Some(TaskStatus::Success)
    } else if str_eq(s, "failed") {
        Some(TaskStatus::Failed)
    } else {
        None
    }
}

/// A text as a JSON string literal: quoted and escaped.
pub open spec fn quoted(s: Seq<char>) -> Seq<char> {
    seq!['"'] + escape_text(s) + seq!['"']
}

/// The task-creation request body for a proof request: a JSON object carrying
/// the circuit type's wire code, the circuit version, the hard fork name and
/// the opaque task payload.
pub open spec fn create_body_model(req: ProveRequestModel) -> Seq<char> {
    "{\"circuit_type\":"@ + dec_seq(circuit_code(req.circuit_type) as nat)
        + ",\"circuit_version\":"@ + quoted(req.circuit_version) + ",\"hard_fork_name\":"@
        + quoted(req.hard_fork_name) + ",\"task_data\":"@ + quoted(req.input) + "}"@
}

/// Appends a text as a JSON string literal.
fn append_quoted(out: &mut String, s: &str)
    ensures
        final(out)@ == old(out)@ + quoted(s@),
{
    out.append("\"");
    let escaped = json_escape(s);
    out.append(escaped.as_str());
    out.append("\"");
    proof {
        reveal_strlit("\"");
        assert("\""@ =~= seq!['"']);
        assert(out@ =~= old(out)@ + quoted(s@));
    }
}

/// Builds the task-creation request body, per `create_body_model`.
pub fn create_task_body(req: &ProveRequest) -> (r: String)
    ensures
        r@ == create_body_model(req@),
{
    let mut out = String::new();
    out.append("{\"circuit_type\":");
    let code = u64_to_dec(circuit_type_code(req.circuit_type));
    out.append(code.as_str());
    out.append(",\"circuit_version\":");
    append_quoted(&mut out, req.circuit_version.as_str());
    out.append(",\"hard_fork_name\":");
    append_quoted(&mut out, req.hard_fork_name.as_str());
    out.append(",\"task_data\":");
    append_quoted(&mut out, req.input.as_str());
    out.append("}");
    proof {
        assert(out@ =~= create_body_model(req@));
    }
    out
}

} // verus!

//! The boundary to the local agent: which request each call is, and what the
//! caller is told about the answer. Sending is the shell's business.

use vstd::prelude::*;
use vstd::string::*;

verus! {

/// The content type under which a request's body is sent.
pub const BODY_CONTENT_TYPE: &'static str = "application/json";

/// The calls that the agent offers.
#[derive(Clone, Debug, PartialEq, Eq)]
pub enum AgentCall {
    /// Scan the workspace.
    ScanWorkspace,
    /// Read the file at the given path.
    ReadFile(String),
    /// Run the given command in a shell.
    ExecuteCommand(String),
    /// Report the agent's state.
    GetState,
}

/// A call as a plain value.
pub enum AgentCallModel {
    ScanWorkspace,
    ReadFile(Seq<char>),
    ExecuteCommand(Seq<char>),
    GetState,
}

impl View for AgentCall {
    type V = AgentCallModel;

    open spec fn view(&self) -> AgentCallModel {
        match self {
            AgentCall::ScanWorkspace => AgentCallModel::ScanWorkspace,
            AgentCall::ReadFile(path) => AgentCallModel::ReadFile(path@),
            AgentCall::ExecuteCommand(command) => AgentCallModel::ExecuteCommand(command@),
            AgentCall::GetState => AgentCallModel::GetState,
        }
    }
}

/// The two request methods in use.
#[derive(Clone, Copy, Debug, PartialEq, Eq, Structural)]
pub enum HttpMethod {
    Get,
    Post,
}

/// A request, ready to be sent. A body, where there is one, is JSON text and
/// goes out under `BODY_CONTENT_TYPE`.
#[derive(Clone, Debug, PartialEq, Eq)]
pub struct AgentRequest {
    pub method: HttpMethod,
    pub url: String,
    pub body: Option<String>,
}

/// A request as a plain value.
pub struct RequestModel {
    pub method: HttpMethod,
    pub url: Seq<char>,
    pub body: Option<Seq<char>>,
}

impl View for AgentRequest {
    type V = RequestModel;

    open spec fn view(&self) -> RequestModel {
        RequestModel {
            method: self.method,
            url: self.url@,
            body: match self.body {
                Some(text) => Some(text@),
                None => None,
            },
        }
    }
}

/// How an attempt to reach the agent ended.
#[derive(Clone, Debug, PartialEq, Eq)]
pub enum Transport {
    /// The agent answered, and this is the body of its answer.
    Answered(String),
    /// The agent answered, but the body could not be read; the cause.
    Unreadable(String),
    /// The request did not get through; the cause.
    Offline(String),
}

/// The JSON text of an object with the single member `key`, whose value is
/// the string `value`.
pub uninterp spec fn json_object_text(key: Seq<char>, value: Seq<char>) -> Seq<char>;

/// Serialises a JSON object of one string member with `serde_json`: the
/// `Display` of a `serde_json::Value::Object`, in its compact form. Trusted:
/// the text that comes back depends on the key and the value alone.
#[verifier::external_body]
fn json_object(key: &str, value: &str) -> (text: String)
    ensures
        text@ == json_object_text(key@, value@),
{
    let mut members = serde_json::Map::new();
    members.insert(key.to_owned(), serde_json::Value::String(value.to_owned()));
    serde_json::Value::Object(members).to_string()
}

/// The request that a call is.
pub open spec fn request_of(call: AgentCallModel) -> RequestModel {
    match call {
        AgentCallModel::ScanWorkspace => RequestModel {
            method: HttpMethod::Get,
            url: "http://127.0.0.1:8766/workspace/scan"@,
            body: None,
        },
        AgentCallModel::ReadFile(path) => RequestModel {
            method: HttpMethod::Post,
            url: "http://127.0.0.1:8766/file/read"@,
            body: Some(json_object_text("path"@, path)),
        },
        AgentCallModel::ExecuteCommand(command) => RequestModel {
            method: HttpMethod::Post,
            url: "http://127.0.0.1:8766/execute/shell"@,
            body: Some(json_object_text("command"@, command)),
        },
        AgentCallModel::GetState => RequestModel {
            method: HttpMethod::Get,
            url: "http://127.0.0.1:8766/state"@,
            body: None,
        },
    }
}

/// What the caller is told: the body of the answer, or why there is none.
pub open spec fn reply_of(transport: Transport) -> Result<Seq<char>, Seq<char>> {
    match transport {
        Transport::Answered(body) => Ok(body@),
        Transport::Unreadable(cause) => Err("Failed to read response: "@ + cause@),
        Transport::Offline(cause) => Err("Luna agent offline: "@ + cause@),
    }
}

/// A request without a body.
pub fn get_request(url: &str) -> (request: AgentRequest)
    ensures
        request@ == (RequestModel { method: HttpMethod::Get, url: url@, body: None }),
{
    AgentRequest { method: HttpMethod::Get, url: url.to_owned(), body: None }
}

/// A request that carries `body`.
pub fn post_request(url: &str, body: String) -> (request: AgentRequest)
    ensures
        request@ == (RequestModel { method: HttpMethod::Post, url: url@, body: Some(body@) }),
{
    AgentRequest { method: HttpMethod::Post, url: url.to_owned(), body: Some(body) }
}

/// Builds the request of a call: method, address, and the JSON body of the
/// calls that take an argument.
pub fn agent_request(call: &AgentCall) -> (request: AgentRequest)
    ensures
        request@ == request_of(call@),
{
    match call {
        AgentCall::ScanWorkspace => get_request("http://127.0.0.1:8766/workspace/scan"),
        AgentCall::ReadFile(path) => post_request(
            "http://127.0.0.1:8766/file/read",
            json_object("path", path.as_str()),
        ),
        AgentCall::ExecuteCommand(command) => post_request(
            "http://127.0.0.1:8766/execute/shell",
            json_object("command", command.as_str()),
        ),
        AgentCall::GetState => get_request("http://127.0.0.1:8766/state"),
    }
}

/// Turns the end of an attempt into what the caller is told. An answer is
/// handed on as it is. Every failure to get through reads as the agent being
/// offline, with the cause appended; a body that could not be read says so.
pub fn agent_reply(transport: Transport) -> (reply: Result<String, String>)
    ensures
        match reply_of(transport) {
            Ok(body) => reply matches Ok(text) && text@ == body,
            Err(message) => reply matches Err(text) && text@ == message,
        },
{
    match transport {
        Transport::Answered(body) => Ok(body),
        Transport::Unreadable(cause) => Err(
            "Failed to read response: ".to_owned().concat(cause.as_str()),
        ),
        Transport::Offline(cause) => Err("Luna agent offline: ".to_owned().concat(cause.as_str())),
    }
}

} // verus!

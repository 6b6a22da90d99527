//! The closed set of errors of the control plane and their single textual
//! rendering at the HTTP boundary.
use vstd::prelude::*;

verus! {

/// Errors of the invocation router.
#[derive(Debug, Clone, Copy, PartialEq, Eq, Structural)]
pub enum FunctionError {
    /// No registry entry for the function name.
    FunctionNotDeployed,
    /// The entry exists but lists no container.
    NoRunningContainers,
}

pub open spec fn function_error_text(e: FunctionError) -> Seq<char> {
    match e {
        FunctionError::FunctionNotDeployed => "Function not deployed"@,
        FunctionError::NoRunningContainers => "No running containers"@,
    }
}

impl FunctionError {
    /// Human-readable text of the error.
    pub fn message(&self) -> (r: String)
        ensures
            r@ == function_error_text(*self),
    {
        match self {
            FunctionError::FunctionNotDeployed => String::from_str("Function not deployed"),
            FunctionError::NoRunningContainers => String::from_str("No running containers"),
        }
    }
}

/// Errors on the deploy path: loading the descriptor, building the image,
/// talking to the container engine or to the status store. Each carries the
/// underlying description.
#[derive(Debug, PartialEq, Eq)]
pub enum DeployError {
    Config(String),
    Build(String),
    Runtime(String),
    StatusStore(String),
}

pub open spec fn deploy_error_prefix(e: DeployError) -> Seq<char> {
    match e {
        DeployError::Config(_) => "Invalid function descriptor: "@,
        DeployError::Build(_) => "Build failed: "@,
        DeployError::Runtime(_) => "Container runtime error: "@,
        DeployError::StatusStore(_) => "Status store error: "@,
    }
}

pub open spec fn deploy_error_detail(e: DeployError) -> Seq<char> {
    match e {
        DeployError::Config(d) => d@,
        DeployError::Build(d) => d@,
        DeployError::Runtime(d) => d@,
        DeployError::StatusStore(d) => d@,
    }
}

pub open spec fn deploy_error_text(e: DeployError) -> Seq<char> {
    deploy_error_prefix(e) + deploy_error_detail(e)
}

impl DeployError {
    /// Human-readable text of the error: a prefix naming its kind, then the
    /// underlying description. Never empty.
    pub fn message(&self) -> (r: String)
        ensures
            r@ == deploy_error_text(*self),
            r@.len() > 0,
    {
        proof {
            reveal_strlit("Invalid function descriptor: ");
            reveal_strlit("Build failed: ");
            reveal_strlit("Container runtime error: ");
            reveal_strlit("Status store error: ");
        }
        let (mut r, d) = match self {
            DeployError::Config(d) => (String::from_str("Invalid function descriptor: "), d),
            DeployError::Build(d) => (String::from_str("Build failed: "), d),
            DeployError::Runtime(d) => (String::from_str("Container runtime error: "), d),
            DeployError::StatusStore(d) => (String::from_str("Status store error: "), d),
        };
        r.append(d.as_str());
        r
    }
}

/// An error as it leaves the service: its message only.
#[derive(Debug)]
pub struct SerializableError {
    pub message: String,
}

impl From<FunctionError> for SerializableError {
    fn from(value: FunctionError) -> (r: SerializableError)
        ensures
            r.message@ == function_error_text(value),
    {
        SerializableError { message: value.message() }
    }
}

impl vstd::std_specs::convert::FromSpecImpl<FunctionError> for SerializableError {
    open spec fn obeys_from_spec() -> bool {
        false
    }

    open spec fn from_spec(v: FunctionError) -> SerializableError {
        arbitrary()
    }
}

impl From<DeployError> for SerializableError {
    fn from(value: DeployError) -> (r: SerializableError)
        ensures
            r.message@ == deploy_error_text(value),
    {
        SerializableError { message: value.message() }
    }
}

impl vstd::std_specs::convert::FromSpecImpl<DeployError> for SerializableError {
    open spec fn obeys_from_spec() -> bool {
        false
    }

    open spec fn from_spec(v: DeployError) -> SerializableError {
        arbitrary()
    }
}

/// What `serde_json` writes for a string value: the quoted, escaped literal.
pub uninterp spec fn json_quoted(s: Seq<char>) -> Seq<char>;

/// Relies on serde_json::to_string on a `str`: the JSON string literal of
/// the text. Serializing a `str` into a `Vec` cannot fail (it is neither a
/// map nor a type with a failing `Serialize`), so the error arm is never taken.
#[verifier::external_body]
fn quote_json(s: &str) -> (r: String)
    ensures
        r@ == json_quoted(s@),
{
    match serde_json::to_string(s) {
        Ok(t) => t,
        Err(_) => String::new(),
    }
}

/// The JSON error body around an already quoted message.
pub open spec fn error_body_of(quoted: Seq<char>) -> Seq<char> {
    "{\"error\":"@ + quoted + "}"@
}

/// Wraps a quoted JSON string as the single `error` field of an object.
pub fn error_body_from_quoted(quoted: &str) -> (r: String)
    ensures
        r@ == error_body_of(quoted@),
{
    let mut b = String::from_str("{\"error\":");
    b.append(quoted);
    b.append("}");
    b
}

/// The JSON body `{"error":<message>}` sent for a failed request.
pub fn serialize_err(e: &SerializableError) -> (r: String)
    ensures
        r@ == error_body_of(json_quoted(e.message@)),
{
    let q = quote_json(e.message.as_str());
    error_body_from_quoted(q.as_str())
}

} // verus!

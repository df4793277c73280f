use vstd::prelude::*;
use crate::json::JsonValue;
use crate::text::str_eq;

verus! {

/// The JSON-RPC protocol version that every request snapshot carries.
pub const JSONRPC_VERSION: &'static str = "2.0";

/// The JSON-RPC request snapshot handed to guards and event consumers.
#[derive(Debug, PartialEq)]
pub struct EventRequest {
    method: String,
    params: Option<JsonValue>,
    id: Option<JsonValue>,
}

impl EventRequest {
    /// The method name of the request.
    pub closed spec fn spec_method(&self) -> Seq<char> {
        self.method@
    }

    /// The parameters of the request, if it had any.
    pub closed spec fn spec_params(&self) -> Option<JsonValue> {
        self.params
    }

    /// The id of the request; a notification has none.
    pub closed spec fn spec_id(&self) -> Option<JsonValue> {
        self.id
    }

    pub fn new(method: String, params: Option<JsonValue>, id: Option<JsonValue>) -> (request: Self)
        ensures
            request.spec_method() == method@,
            request.spec_params() == params,
            request.spec_id() == id,
    {
        EventRequest { method, params, id }
    }

    pub fn jsonrpc(&self) -> (version: &'static str)
        ensures
            version@ == JSONRPC_VERSION@,
    {
        JSONRPC_VERSION
    }

    pub fn method(&self) -> (method: &str)
        ensures
            method@ == self.spec_method(),
    {
        self.method.as_str()
    }

    pub fn params(&self) -> (params: Option<&JsonValue>)
        ensures
            match params {
                Some(p) => self.spec_params() == Some(*p),
                None => self.spec_params() is None,
            },
    {
        match &self.params {
            Some(params) => Some(params),
            None => None,
        }
    }

    pub fn id(&self) -> (id: Option<&JsonValue>)
        ensures
            match id {
                Some(i) => self.spec_id() == Some(*i),
                None => self.spec_id() is None,
            },
    {
        match &self.id {
            Some(id) => Some(id),
            None => None,
        }
    }
}

/// A named event published around a use case's execution: `Will<UseCase>`
/// before it runs, with no output, and `Did<UseCase>` after it succeeded, with
/// its output.
#[derive(Debug, PartialEq)]
pub struct UseCaseEvent {
    name: &'static str,
    request: EventRequest,
    input: JsonValue,
    output: Option<JsonValue>,
}

impl UseCaseEvent {
    /// The event name.
    pub closed spec fn spec_name(&self) -> Seq<char> {
        self.name@
    }

    /// The request snapshot.
    pub closed spec fn spec_request(&self) -> EventRequest {
        self.request
    }

    /// The normalized input payload.
    pub closed spec fn spec_input(&self) -> JsonValue {
        self.input
    }

    /// The output payload: none before execution, the output after it.
    pub closed spec fn spec_output(&self) -> Option<JsonValue> {
        self.output
    }

    /// The event published before a use case executes; it carries no output.
    pub fn will(name: &'static str, request: EventRequest, input: JsonValue) -> (event: Self)
        ensures
            event.spec_name() == name@,
            event.spec_request() == request,
            event.spec_input() == input,
            event.spec_output() is None,
    {
        UseCaseEvent { name, request, input, output: None }
    }

    /// The event published after a use case returned `output`.
    pub fn did(name: &'static str, request: EventRequest, input: JsonValue, output: JsonValue) -> (event: Self)
        ensures
            event.spec_name() == name@,
            event.spec_request() == request,
            event.spec_input() == input,
            event.spec_output() == Some(output),
    {
        UseCaseEvent { name, request, input, output: Some(output) }
    }

    pub fn name(&self) -> (name: &'static str)
        ensures
            name@ == self.spec_name(),
    {
        self.name
    }

    pub fn request(&self) -> (request: &EventRequest)
        ensures
            *request == self.spec_request(),
    {
        &self.request
    }

    pub fn input(&self) -> (input: &JsonValue)
        ensures
            *input == self.spec_input(),
    {
        &self.input
    }

    pub fn output(&self) -> (output: Option<&JsonValue>)
        ensures
            match output {
                Some(o) => self.spec_output() == Some(*o),
                None => self.spec_output() is None,
            },
    {
        match &self.output {
            Some(output) => Some(output),
            None => None,
        }
    }
}

/// The positions, in ascending order, of the registered consumers whose event
/// is `name`: each of them is called, in registration order, with the event.
pub fn consumer_positions(registered: &Vec<&str>, name: &str) -> (positions: Vec<usize>)
    ensures
        forall|k: int| 0 <= k < positions.len() ==> #[trigger] positions[k] < registered.len()
            && registered[positions[k] as int]@ == name@,
        forall|k: int, l: int| 0 <= k < l < positions.len() ==> positions[k] < positions[l],
        forall|i: int|
            0 <= i < registered.len() && registered[i]@ == name@ ==> positions@.contains(i as usize),
{
    let mut positions: Vec<usize> = Vec::new();
    let mut i: usize = 0;
    while i < registered.len()
        invariant
            i <= registered.len(),
            forall|k: int| 0 <= k < positions.len() ==> #[trigger] positions[k] < i
                && registered[positions[k] as int]@ == name@,
            forall|k: int, l: int| 0 <= k < l < positions.len() ==> positions[k] < positions[l],
            forall|j: int| 0 <= j < i && registered[j]@ == name@ ==> positions@.contains(j as usize),
        decreases registered.len() - i,
    {
        if str_eq(registered[i], name) {
            let ghost before = positions@;
            positions.push(i);
            assert forall|j: int| 0 <= j < i + 1 && registered[j]@ == name@ implies positions@.contains(
                j as usize,
            ) by {
                if j < i {
                    let k = choose|k: int| 0 <= k < before.len() && before[k] == j as usize;
                    assert(positions@[k] == j as usize);
                } else {
                    assert(positions@[positions.len() - 1] == j as usize);
                }
            }
        }
        i += 1;
    }
    positions
}

} // verus!

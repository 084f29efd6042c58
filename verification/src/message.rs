//! The structured messages carried in frame payloads: the request object, the
//! opaque response, and the message pairs handed between the session and a
//! node-side consumer. The JSON text itself is produced and parsed by the
//! boundary outside the core; this module holds the decoded values.

use vstd::prelude::*;
use vstd::utf8::encode_utf8;

use crate::api::{MethodKind, ParamMap};

verus! {

/// One remote call: target node and operation names, the operation
/// identifier, the verb, and the named parameter values.
#[derive(Debug, Clone)]
pub struct UnicomRequest {
    pub id: u64,
    pub name: String,
    pub node_name: String,
    pub method: MethodKind,
    pub parameters: ParamMap,
}

impl UnicomRequest {
    /// An empty request: identifier 0, empty names, GET, no parameters.
    pub fn new() -> (r: UnicomRequest)
        ensures
            r.id == 0,
            r.name@ == Seq::<char>::empty(),
            r.node_name@ == Seq::<char>::empty(),
            r.method == MethodKind::GET,
            r.parameters.entries@.len() == 0,
    {
        UnicomRequest {
            id: 0,
            name: String::new(),
            node_name: String::new(),
            method: MethodKind::GET,
            parameters: ParamMap::new(),
        }
    }
}

/// The raw bytes a handler answers with; usually, but not necessarily, JSON.
#[derive(Debug, Clone)]
pub struct UnicomResponse {
    pub data: Vec<u8>,
}

impl UnicomResponse {
    /// The canonical empty response: an empty JSON object.
    pub fn empty() -> (r: UnicomResponse)
        ensures
            r.data@ == encode_utf8("{}"@),
    {
        UnicomResponse { data: "{}".as_bytes_vec() }
    }

    /// A response carrying the bytes of the given text.
    pub fn from_string(data: String) -> (r: UnicomResponse)
        ensures
            r.data@ == encode_utf8(data@),
    {
        UnicomResponse { data: data.as_str().as_bytes_vec() }
    }
}

/// What the session hands a node-side consumer that drains inbound traffic:
/// a request to serve, or the order to shut down.
#[derive(Debug)]
pub enum UnicomMessage {
    Request { id: u64, data: UnicomRequest },
    Quit,
}

} // verus!

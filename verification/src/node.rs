//! The hub's view of one connected node — its name, operations and tags, as
//! the handshake announced them — and the node configuration itself. The
//! transport object that carries a node's traffic lives outside the core and
//! wraps these values.

use vstd::prelude::*;

use crate::api::{Api, ApiMethod, MethodKind, ParamMap, spec_get_method, spec_param_ok};
use crate::endpoint::{EndPoint, EndPointKind, Template};
use crate::error::{UnicomError, UnicomErrorKind};
use crate::message::UnicomRequest;
use crate::text::{spec_assoc, str_eq};

verus! {

/// The first operation of the list carrying the given name.
pub open spec fn spec_find_api(s: Seq<Api>, name: Seq<char>) -> Option<Api>
    decreases s.len(),
{
    if s.len() == 0 {
        None
    } else if s[0].name@ == name {
        Some(s[0])
    } else {
        spec_find_api(s.skip(1), name)
    }
}

/// Everything a node declares at connection setup: its name, its operation
/// descriptors, a free-form tag mapping, and the endpoint and template
/// declarations for the gateway. Immutable once the handshake is sent.
#[derive(Debug, Clone)]
pub struct NodeConfig {
    pub name: String,
    pub api: Vec<Api>,
    pub tags: Vec<(String, String)>,
    pub endpoints: Vec<EndPoint>,
    pub templates: Vec<Template>,
}

impl NodeConfig {
    /// An empty configuration for a node of the given name.
    pub fn new(name: &str) -> (c: NodeConfig)
        ensures
            c.name@ == name@,
            c.api@.len() == 0,
            c.tags@.len() == 0,
            c.endpoints@.len() == 0,
            c.templates@.len() == 0,
    {
        NodeConfig {
            name: name.to_owned(),
            api: Vec::new(),
            tags: Vec::new(),
            endpoints: Vec::new(),
            templates: Vec::new(),
        }
    }

    /// Announce one operation.
    pub fn add_api(&mut self, id: u64, name: &str, methods: Vec<ApiMethod>)
        ensures
            final(self).api@.len() == old(self).api@.len() + 1,
            final(self).api@.last().id == id,
            final(self).api@.last().name@ == name@,
            final(self).api@.last().methods == methods,
            final(self).api@.drop_last() == old(self).api@,
            final(self).name == old(self).name,
            final(self).tags == old(self).tags,
            final(self).endpoints == old(self).endpoints,
            final(self).templates == old(self).templates,
    {
        self.api.push(Api::new(id, name, methods));
    }

    /// Register one template file.
    pub fn add_template(&mut self, file: &str, path: &str)
        ensures
            final(self).templates@.len() == old(self).templates@.len() + 1,
            final(self).templates@.last().file@ == file@,
            final(self).templates@.last().path@ == path@,
            final(self).templates@.drop_last() == old(self).templates@,
            final(self).name == old(self).name,
            final(self).api == old(self).api,
            final(self).tags == old(self).tags,
            final(self).endpoints == old(self).endpoints,
    {
        self.templates.push(Template::new(file, path));
    }

    /// Declare one endpoint.
    pub fn add_endpoint(&mut self, regex: &str, kind: EndPointKind)
        ensures
            final(self).endpoints@.len() == old(self).endpoints@.len() + 1,
            final(self).endpoints@.last().regex@ == regex@,
            final(self).endpoints@.last().kind == kind,
            final(self).endpoints@.drop_last() == old(self).endpoints@,
            final(self).name == old(self).name,
            final(self).api == old(self).api,
            final(self).tags == old(self).tags,
            final(self).templates == old(self).templates,
    {
        self.endpoints.push(EndPoint::new(regex, kind));
    }
}

/// One connected node as the hub routes to it. The physical connector that
/// moves its frames is owned by the transport layer; this value holds what
/// routing needs.
#[derive(Debug, Clone)]
pub struct Node {
    pub name: String,
    pub api: Vec<Api>,
    pub tags: Vec<(String, String)>,
}

impl Node {
    /// The node a configuration describes.
    pub fn new(config: NodeConfig) -> (n: Node)
        ensures
            n.name == config.name,
            n.api == config.api,
            n.tags == config.tags,
    {
        Node { name: config.name, api: config.api, tags: config.tags }
    }

    /// The first operation carrying the given name; fails as not-found
    /// exactly when the node exposes no operation of that name.
    pub fn api(&self, name: &str) -> (r: Result<&Api, UnicomError>)
        ensures
            match r {
                Ok(a) => spec_find_api(self.api@, name@) == Some(*a),
                Err(e) => {
                    &&& spec_find_api(self.api@, name@) is None
                    &&& e.kind == UnicomErrorKind::NotFound
                },
            },
    {
        let n = self.api.len();
        let mut i: usize = 0;
        proof {
            assert(self.api@.skip(0) =~= self.api@);
        }
        while i < n
            invariant
                n == self.api@.len(),
                i <= n,
                spec_find_api(self.api@, name@) == spec_find_api(self.api@.skip(i as int), name@),
            decreases n - i,
        {
            proof {
                assert(self.api@.skip(i as int)[0] == self.api@[i as int]);
                assert(self.api@.skip(i as int).skip(1) =~= self.api@.skip(i as int + 1));
            }
            if str_eq(self.api[i].name.as_str(), name) {
                return Ok(&self.api[i]);
            }
            i += 1;
        }
        Err(UnicomError::new(UnicomErrorKind::NotFound, "api not found"))
    }

    /// The value of a tag, if the node declared it.
    pub fn get_tag(&self, tag: &str) -> (r: Option<&String>)
        ensures
            match r {
                Some(v) => spec_assoc(self.tags@, tag@) == Some(*v),
                None => spec_assoc(self.tags@, tag@) is None,
            },
    {
        let n = self.tags.len();
        let mut i: usize = 0;
        proof {
            assert(self.tags@.skip(0) =~= self.tags@);
        }
        while i < n
            invariant
                n == self.tags@.len(),
                i <= n,
                spec_assoc(self.tags@, tag@) == spec_assoc(self.tags@.skip(i as int), tag@),
            decreases n - i,
        {
            proof {
                assert(self.tags@.skip(i as int)[0] == self.tags@[i as int]);
                assert(self.tags@.skip(i as int).skip(1) =~= self.tags@.skip(i as int + 1));
            }
            if str_eq(self.tags[i].0.as_str(), tag) {
                return Some(&self.tags[i].1);
            }
            i += 1;
        }
        None
    }

    /// Validate and assemble the outbound request for one call to an
    /// operation of this node: the verb must have a registered method and the
    /// parameters must satisfy its declarations. The transport writes the
    /// result and hands back the remote outcome.
    pub fn prepare_request(&self, api: &Api, method: MethodKind, parameters: ParamMap) -> (r:
        Result<UnicomRequest, UnicomError>)
        ensures
            match spec_get_method(api.methods@, method) {
                None => r matches Err(e) && e.kind == UnicomErrorKind::MethodNotAllowed,
                Some(m) => {
                    if forall|i: int|
                        0 <= i < m.parameters@.len() ==> spec_param_ok(
                            #[trigger] m.parameters@[i],
                            parameters.entries@,
                        ) {
                        match r {
                            Ok(req) => {
                                &&& req.id == api.id
                                &&& req.method == method
                                &&& req.parameters == parameters
                                &&& req.name@ == Seq::<char>::empty()
                                &&& req.node_name@ == Seq::<char>::empty()
                            },
                            Err(_) => false,
                        }
                    } else {
                        r matches Err(e) && e.kind == UnicomErrorKind::ParameterInvalid
                    }
                },
            },
    {
        let m = match api.get_method(&method) {
            Ok(m) => m,
            Err(e) => return Err(e),
        };
        match m.generate_parameters(&parameters) {
            Ok(()) => Ok(
                UnicomRequest {
                    id: api.id,
                    parameters,
                    method,
                    name: String::new(),
                    node_name: String::new(),
                },
            ),
            Err(e) => Err(e),
        }
    }
}

} // verus!

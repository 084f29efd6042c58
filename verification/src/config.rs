//! Process configuration and the declarative manifest a node is started
//! with. The loader outside the core reads and decodes the files and walks
//! the template directory; turning the decoded manifest into the node
//! configuration announced at the handshake is verified logic here.

use vstd::prelude::*;

use crate::endpoint::{ApiConfig, EndPoint, EndPointKind, Template};
use crate::node::NodeConfig;
use crate::text::str_eq;

verus! {

/// Process-wide configuration: where the channel and the served trees live.
#[derive(Debug, Clone)]
pub struct Config {
    pub unix_stream_path: String,
    pub server_addr: String,
    pub template_dir: String,
    pub app_dir: String,
    pub session_path: String,
}

/// One tag value as the manifest declares it.
#[derive(Debug, Clone)]
pub struct ManifestTag {
    pub value: String,
}

/// One endpoint declaration as the manifest spells it: a pattern, a kind
/// keyword, and the field that kind needs.
#[derive(Debug, Clone)]
pub struct ManifestEndpoint {
    pub regex: String,
    pub kind: String,
    pub path: Option<String>,
    pub api: Option<String>,
    pub template: Option<String>,
    pub apis: Option<Vec<(String, ApiConfig)>>,
}

/// Whether an endpoint declaration is complete: a known kind keyword with
/// the field that kind requires.
pub open spec fn spec_endpoint_ok(e: ManifestEndpoint) -> bool {
    if e.kind@ == "static"@ {
        e.path is Some
    } else if e.kind@ == "rest"@ {
        e.api is Some
    } else if e.kind@ == "dynamic"@ {
        e.api is Some
    } else if e.kind@ == "view"@ {
        e.template is Some
    } else {
        false
    }
}

/// How a complete declaration maps to an endpoint kind: the keyword picks
/// the variant, the declared field fills it, and a view takes its fixed
/// calls (empty when none are declared).
pub open spec fn spec_endpoint_kind_rel(e: ManifestEndpoint, k: EndPointKind) -> bool {
    if e.kind@ == "static"@ {
        k matches EndPointKind::Static { path } && e.path == Some(path)
    } else if e.kind@ == "rest"@ {
        k matches EndPointKind::Rest { api } && e.api == Some(api)
    } else if e.kind@ == "dynamic"@ {
        k matches EndPointKind::Dynamic { api } && e.api == Some(api)
    } else if e.kind@ == "view"@ {
        k matches EndPointKind::View { apis, template } && e.template == Some(template) && (match e
            .apis {
            Some(a) => apis == a,
            None => apis@.len() == 0,
        })
    } else {
        false
    }
}

/// Turn one endpoint declaration into an endpoint; an unknown kind keyword
/// or a missing required field is rejected.
fn convert_endpoint(e: ManifestEndpoint) -> (r: Result<EndPoint, String>)
    ensures
        match r {
            Ok(ep) => {
                &&& spec_endpoint_ok(e)
                &&& ep.regex == e.regex
                &&& spec_endpoint_kind_rel(e, ep.kind)
            },
            Err(_) => !spec_endpoint_ok(e),
        },
{
    let ManifestEndpoint { regex, kind, path, api, template, apis } = e;
    let k: EndPointKind = if str_eq(kind.as_str(), "static") {
        match path {
            Some(p) => EndPointKind::Static { path: p },
            None => {
                return Err("endpoint path is missing".to_owned());
            },
        }
    } else if str_eq(kind.as_str(), "rest") {
        match api {
            Some(a) => EndPointKind::Rest { api: a },
            None => {
                return Err("endpoint api is missing".to_owned());
            },
        }
    } else if str_eq(kind.as_str(), "dynamic") {
        match api {
            Some(a) => EndPointKind::Dynamic { api: a },
            None => {
                return Err("endpoint api is missing".to_owned());
            },
        }
    } else if str_eq(kind.as_str(), "view") {
        match template {
            Some(t) => EndPointKind::View {
                apis: match apis {
                    Some(a) => a,
                    None => Vec::new(),
                },
                template: t,
            },
            None => {
                return Err("endpoint template is missing".to_owned());
            },
        }
    } else {
        return Err("endpoint kind unknown".to_owned());
    };
    Ok(EndPoint { regex, kind: k })
}

/// The declarative manifest a node is started with: its name, an optional
/// template directory, optional tags and optional endpoint declarations.
#[derive(Debug, Clone)]
pub struct Manifest {
    pub name: String,
    pub templates: Option<String>,
    pub tags: Option<Vec<(String, String)>>,
    pub endpoints: Option<Vec<ManifestEndpoint>>,
}

impl Manifest {
    /// The node configuration this manifest describes. The template files —
    /// found by walking the declared template directory, which only the
    /// loader outside the core can do — are handed in ready-made. Succeeds
    /// exactly when every endpoint declaration is complete; the
    /// configuration then carries the manifest's name and tags, the given
    /// templates, and one endpoint per declaration, in order.
    #[verifier::loop_isolation(false)]
    pub fn into_node_config(self, templates: Vec<Template>) -> (r: Result<NodeConfig, String>)
        ensures
            match r {
                Ok(c) => {
                    &&& (match self.endpoints {
                        Some(eps) => {
                            &&& (forall|i: int|
                                0 <= i < eps@.len() ==> spec_endpoint_ok(#[trigger] eps@[i]))
                            &&& c.endpoints@.len() == eps@.len()
                            &&& (forall|i: int|
                                0 <= i < eps@.len() ==> (#[trigger] c.endpoints@[i]).regex
                                    == eps@[i].regex && spec_endpoint_kind_rel(
                                    eps@[i],
                                    c.endpoints@[i].kind,
                                ))
                        },
                        None => c.endpoints@.len() == 0,
                    })
                    &&& c.name == self.name
                    &&& (match self.tags {
                        Some(t) => c.tags == t,
                        None => c.tags@.len() == 0,
                    })
                    &&& c.templates == templates
                    &&& c.api@.len() == 0
                },
                Err(_) => match self.endpoints {
                    Some(eps) => exists|i: int|
                        0 <= i < eps@.len() && !spec_endpoint_ok(#[trigger] eps@[i]),
                    None => false,
                },
            },
    {
        let ghost declared = self.endpoints;
        let Manifest { name, templates: _, tags, endpoints } = self;
        proof {
            assert(endpoints == declared);
        }
        let mut config = NodeConfig::new(name.as_str());
        config.name = name;
        config.templates = templates;
        config.tags = match tags {
            Some(t) => t,
            None => Vec::new(),
        };
        let mut eps: Vec<ManifestEndpoint> = match endpoints {
            Some(e) => e,
            None => Vec::new(),
        };
        let ghost orig = eps@;
        let mut out: Vec<EndPoint> = Vec::new();
        proof {
            assert(orig.skip(0) =~= orig);
        }
        while eps.len() > 0
            invariant
                out@.len() + eps@.len() == orig.len(),
                eps@ == orig.skip(out@.len() as int),
                match declared {
                    Some(e) => orig == e@,
                    None => orig.len() == 0,
                },
                forall|i: int| 0 <= i < out@.len() ==> spec_endpoint_ok(#[trigger] orig[i]),
                forall|i: int|
                    0 <= i < out@.len() ==> (#[trigger] out@[i]).regex == orig[i].regex
                        && spec_endpoint_kind_rel(orig[i], out@[i].kind),
            decreases eps@.len(),
        {
            proof {
                assert(eps@[0] == orig[out@.len() as int]);
                assert(eps@.remove(0) =~= orig.skip(out@.len() as int + 1));
            }
            let e = eps.remove(0);
            match convert_endpoint(e) {
                Ok(ep) => {
                    out.push(ep);
                },
                Err(msg) => {
                    proof {
                        let k = out@.len() as int;
                        assert(!spec_endpoint_ok(orig[k]));
                        match declared {
                            Some(eps2) => {
                                assert(orig == eps2@);
                                assert(0 <= k < eps2@.len() && !spec_endpoint_ok(eps2@[k]));
                            },
                            None => {
                                assert(orig.len() == 0);
                            },
                        }
                    }
                    return Err(msg);
                },
            }
        }
        proof {
            assert(out@.len() == orig.len());
        }
        config.endpoints = out;
        Ok(config)
    }
}

} // verus!

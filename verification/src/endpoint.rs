//! Endpoint and template declarations a node announces in its configuration.
//! The core carries them through the handshake without interpreting them; the
//! outward-facing gateway gives them meaning.

use vstd::prelude::*;

use crate::api::{MethodKind, ParamMap};

verus! {

/// A fixed call a templated view makes: target node, operation, verb and
/// parameters.
#[derive(Debug, Clone)]
pub struct ApiConfig {
    pub node: String,
    pub api: String,
    pub method: Option<MethodKind>,
    pub parameters: Option<ParamMap>,
}

/// What an endpoint serves: a static file tree, a dynamic or REST
/// passthrough to an operation, or a templated view with its fixed calls.
#[derive(Debug, Clone)]
pub enum EndPointKind {
    Static { path: String },
    Dynamic { api: String },
    View { apis: Vec<(String, ApiConfig)>, template: String },
    Rest { api: String },
}

impl EndPointKind {
    /// A static-file endpoint rooted at the given path.
    pub fn static_path(path: &str) -> (k: EndPointKind)
        ensures
            k matches EndPointKind::Static { path: p } && p@ == path@,
    {
        EndPointKind::Static { path: path.to_owned() }
    }

    /// A REST passthrough to the named operation.
    pub fn rest(api: &str) -> (k: EndPointKind)
        ensures
            k matches EndPointKind::Rest { api: a } && a@ == api@,
    {
        EndPointKind::Rest { api: api.to_owned() }
    }

    /// A templated view with its fixed calls.
    pub fn view(template: &str, apis: Vec<(String, ApiConfig)>) -> (k: EndPointKind)
        ensures
            k matches EndPointKind::View { apis: a, template: t } && t@ == template@ && a == apis,
    {
        EndPointKind::View { apis, template: template.to_owned() }
    }
}

/// One endpoint declaration: the pattern it matches and what it serves.
#[derive(Debug, Clone)]
pub struct EndPoint {
    pub regex: String,
    pub kind: EndPointKind,
}

impl EndPoint {
    /// Declare an endpoint.
    pub fn new(regex: &str, kind: EndPointKind) -> (e: EndPoint)
        ensures
            e.regex@ == regex@,
            e.kind == kind,
    {
        EndPoint { regex: regex.to_owned(), kind }
    }
}

/// One template file a node registers: where it lies on disk and the name it
/// is addressed by.
#[derive(Debug, Clone)]
pub struct Template {
    pub file: String,
    pub path: String,
}

impl Template {
    /// Declare a template.
    pub fn new(file: &str, path: &str) -> (t: Template)
        ensures
            t.file@ == file@,
            t.path@ == path@,
    {
        Template { file: file.to_owned(), path: path.to_owned() }
    }
}

} // verus!

use unicom::api::{JsonKind, MethodKind};
use unicom::config::{Manifest, ManifestEndpoint};
use unicom::endpoint::{EndPointKind, Template};
use unicom::error::{IoErrorClass, UnicomError, UnicomErrorKind};
use unicom::node::NodeConfig;
use unicom::error::{http_status, kind_of_io_class};
fn endpoint(kind: &str) -> ManifestEndpoint {
    ManifestEndpoint {
        regex: "^/x$".to_owned(),
        kind: kind.to_owned(),
        path: None,
        api: None,
        template: None,
        apis: None,
    }
}

#[test]
fn manifest_converts_every_endpoint_kind() {
    let mut st = endpoint("static");
    st.path = Some("/srv/www".to_owned());
    let mut re = endpoint("rest");
    re.api = Some("files".to_owned());
    let mut dy = endpoint("dynamic");
    dy.api = Some("pages".to_owned());
    let mut vw = endpoint("view");
    vw.template = Some("index.html".to_owned());
    let manifest = Manifest {
        name: "n1".to_owned(),
        templates: None,
        tags: Some(vec![("color".to_owned(), "blue".to_owned())]),
        endpoints: Some(vec![st, re, dy, vw]),
    };
    let templates = vec![Template::new("/abs/index.html", "n1/index.html")];
    let config = manifest.into_node_config(templates).expect("complete manifest");
    assert_eq!(config.name, "n1");
    assert_eq!(config.tags, vec![("color".to_owned(), "blue".to_owned())]);
    assert_eq!(config.templates.len(), 1);
    assert_eq!(config.templates[0].file, "/abs/index.html");
    assert_eq!(config.endpoints.len(), 4);
    assert!(matches!(&config.endpoints[0].kind, EndPointKind::Static { path } if path == "/srv/www"));
    assert!(matches!(&config.endpoints[1].kind, EndPointKind::Rest { api } if api == "files"));
    assert!(matches!(&config.endpoints[2].kind, EndPointKind::Dynamic { api } if api == "pages"));
    assert!(
        matches!(&config.endpoints[3].kind, EndPointKind::View { apis, template }
            if template == "index.html" && apis.is_empty())
    );
    assert_eq!(config.endpoints[0].regex, "^/x$");
}

#[test]
fn manifest_rejects_incomplete_endpoints() {
    for kind in ["static", "rest", "dynamic", "view"] {
        let manifest = Manifest {
            name: "n1".to_owned(),
            templates: None,
            tags: None,
            endpoints: Some(vec![endpoint(kind)]),
        };
        manifest.into_node_config(Vec::new()).expect_err("required field missing");
    }
    let manifest = Manifest {
        name: "n1".to_owned(),
        templates: None,
        tags: None,
        endpoints: Some(vec![endpoint("mystery")]),
    };
    manifest.into_node_config(Vec::new()).expect_err("unknown endpoint kind");
}

#[test]
fn manifest_without_optionals_gives_empty_config() {
    let manifest =
        Manifest { name: "bare".to_owned(), templates: None, tags: None, endpoints: None };
    let config = manifest.into_node_config(Vec::new()).expect("nothing to reject");
    assert_eq!(config.name, "bare");
    assert!(config.tags.is_empty());
    assert!(config.endpoints.is_empty());
    assert!(config.templates.is_empty());
    assert!(config.api.is_empty());
}

#[test]
fn node_config_accumulates_declarations() {
    let mut c = NodeConfig::new("n2");
    c.add_api(3, "files", vec![unicom::api::ApiMethod::new(MethodKind::GET, Vec::new())]);
    c.add_template("/abs/t.html", "n2/t.html");
    c.add_endpoint("^/f$", EndPointKind::static_path("/srv"));
    assert_eq!(c.api.len(), 1);
    assert_eq!(c.api[0].id, 3);
    assert_eq!(c.api[0].name, "files");
    assert_eq!(c.templates.len(), 1);
    assert_eq!(c.endpoints.len(), 1);
}

#[test]
fn error_kind_http_status() {
    assert_eq!(http_status(UnicomErrorKind::NotFound), 404);
    assert_eq!(http_status(UnicomErrorKind::ParameterInvalid), 400);
    assert_eq!(http_status(UnicomErrorKind::MethodNotAllowed), 405);
    assert_eq!(http_status(UnicomErrorKind::NotAllowed), 403);
    assert_eq!(http_status(UnicomErrorKind::Internal), 500);
    assert_eq!(http_status(UnicomErrorKind::LostConnection), 424);
    assert_eq!(http_status(UnicomErrorKind::DataInvalid), 417);
    assert_eq!(http_status(UnicomErrorKind::Empty), 204);
}

#[test]
fn io_error_classification() {
    assert!(matches!(kind_of_io_class(IoErrorClass::BrokenPipe), UnicomErrorKind::LostConnection));
    assert!(matches!(kind_of_io_class(IoErrorClass::ConnectionReset), UnicomErrorKind::LostConnection));
    assert!(matches!(kind_of_io_class(IoErrorClass::InvalidData), UnicomErrorKind::DataInvalid));
    assert!(matches!(kind_of_io_class(IoErrorClass::TimedOut), UnicomErrorKind::Timeout));
    assert!(matches!(kind_of_io_class(IoErrorClass::PermissionDenied), UnicomErrorKind::NotAllowed));
    assert!(matches!(kind_of_io_class(IoErrorClass::OutOfMemory), UnicomErrorKind::OutOfMemory));
    assert!(matches!(kind_of_io_class(IoErrorClass::Other), UnicomErrorKind::ErrorUnknown));
}

#[test]
fn error_construction() {
    let e = UnicomError::new(UnicomErrorKind::ParseError, "bad json");
    assert!(matches!(e.kind, UnicomErrorKind::ParseError));
    assert_eq!(e.description, "bad json");
}

#[test]
fn param_map_lookup_is_first_binding() {
    let mut m = unicom::api::ParamMap::new();
    m.push("a".to_owned(), JsonKind::Int);
    m.push("a".to_owned(), JsonKind::Text);
    assert!(matches!(m.get("a"), Some(JsonKind::Int)));
    assert!(m.get("b").is_none());
}

#[test]
fn node_tags_lookup() {
    let mut config = NodeConfig::new("n1");
    config.tags = vec![
        ("zone".to_owned(), "eu".to_owned()),
        ("tier".to_owned(), "gold".to_owned()),
    ];
    let node = unicom::node::Node::new(config);
    assert_eq!(node.get_tag("tier").expect("declared"), "gold");
    assert!(node.get_tag("absent").is_none());
}

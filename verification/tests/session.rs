use unicom::api::{Api, ApiMethod, MethodKind, ParamMap};
use unicom::codec::FrameKind;
use unicom::error::{UnicomError, UnicomErrorKind};
use unicom::message::{UnicomRequest, UnicomResponse};
use unicom::node::{Node, NodeConfig};
use unicom::pending::PendingController;
use unicom::session::{
    dispose_request, error_frame, quit_frame, reader_step, request_frame, response_frame,
    ApiRegistry, ReaderAction, RequestDisposition, TerminationLatch, UnixMessage,
};

#[test]
fn reader_dispatch_of_each_message() {
    let a = reader_step(UnixMessage::Response { id: 9, data: vec![1, 2] });
    match a {
        ReaderAction::Resolve { id, outcome } => {
            assert_eq!(id, 9);
            assert_eq!(outcome.expect("response resolves Ok"), vec![1, 2]);
        },
        other => panic!("expected resolve, got {:?}", other),
    }
    let err = UnicomError::new(UnicomErrorKind::Internal, "boom");
    let a = reader_step(UnixMessage::Error { id: 5, error: err });
    match a {
        ReaderAction::Resolve { id, outcome } => {
            assert_eq!(id, 5);
            let e = outcome.expect_err("error resolves Err");
            assert!(matches!(e.kind, UnicomErrorKind::Internal));
        },
        other => panic!("expected resolve, got {:?}", other),
    }
    // An error on identifier 0 is a fatal handshake-phase failure.
    let err = UnicomError::new(UnicomErrorKind::ParseError, "bad config");
    assert!(matches!(
        reader_step(UnixMessage::Error { id: 0, error: err }),
        ReaderAction::Terminate
    ));
    assert!(matches!(reader_step(UnixMessage::Quit), ReaderAction::Terminate));
    let mut req = UnicomRequest::new();
    req.id = 3;
    let a = reader_step(UnixMessage::Request { id: 77, data: req });
    match a {
        ReaderAction::Handle { id, request } => {
            assert_eq!(id, 77);
            assert_eq!(request.id, 3);
        },
        other => panic!("expected handle, got {:?}", other),
    }
}

#[test]
fn registry_assigns_sequential_ids() {
    let mut reg = ApiRegistry::new();
    assert_eq!(reg.add(), 0);
    assert_eq!(reg.add(), 1);
    assert_eq!(reg.add(), 2);
    assert!(reg.contains(0));
    assert!(reg.contains(2));
    assert!(!reg.contains(3));
}

#[test]
fn unknown_operation_is_rejected_not_found() {
    let mut reg = ApiRegistry::new();
    reg.add();
    match dispose_request(&reg, 0) {
        RequestDisposition::Invoke { op } => assert_eq!(op, 0),
        other => panic!("expected invoke, got {:?}", other),
    }
    // The request's identifier is reused on the error frame written back.
    let inbound_id = 42u64;
    match dispose_request(&reg, 7) {
        RequestDisposition::Reject { error } => {
            assert!(matches!(error.kind, UnicomErrorKind::NotFound));
            let payload = b"{\"kind\":\"NotFound\"}".to_vec();
            let f = error_frame(inbound_id, payload);
            assert!(matches!(f.kind, FrameKind::Error));
            assert_eq!(f.id, inbound_id);
        },
        other => panic!("expected reject, got {:?}", other),
    }
}

#[test]
fn outbound_frames_carry_kind_and_id() {
    let f = request_frame(11, vec![1]);
    assert!(matches!(f.kind, FrameKind::Request));
    assert_eq!(f.id, 11);
    assert_eq!(f.payload, vec![1]);
    let f = response_frame(12, vec![2, 3]);
    assert!(matches!(f.kind, FrameKind::Response));
    assert_eq!(f.id, 12);
    let f = quit_frame();
    assert!(matches!(f.kind, FrameKind::Quit));
    assert_eq!(f.id, 0);
    assert!(f.payload.is_empty());
}

#[test]
fn termination_signal_fires_exactly_once() {
    // The reader loop dies and several tasks observe the failure in turn:
    // only the first is told to fire the session's termination signal.
    let mut latch = TerminationLatch::new();
    assert!(latch.fire());
    assert!(!latch.fire());
    assert!(!latch.fire());
}

#[test]
fn empty_handshake_config_routes_nothing() {
    // A node announces `{name:"n1", api:[], tags:{}, endpoints:[], templates:[]}`:
    // the routing table built from it is empty and every request fails NotFound.
    let config = NodeConfig::new("n1");
    assert_eq!(config.api.len(), 0);
    let node = Node::new(config);
    assert_eq!(node.name, "n1");
    let e = node.api("op").expect_err("no operation registered");
    assert!(matches!(e.kind, UnicomErrorKind::NotFound));
    let e = node.api("").expect_err("no operation registered");
    assert!(matches!(e.kind, UnicomErrorKind::NotFound));
}

#[test]
fn response_resolves_suspended_caller() {
    // A local caller issues a request; the reader loop later sees the
    // matching response frame; the caller's consumed outcome is Ok(b"42").
    let mut pending = PendingController::new();
    let id = pending.create();
    let frame_payload = b"42".to_vec();
    match reader_step(UnixMessage::Response { id, data: frame_payload }) {
        ReaderAction::Resolve { id: rid, outcome } => {
            pending.update(rid, outcome).expect("caller is waiting");
        },
        other => panic!("expected resolve, got {:?}", other),
    }
    let got = pending.get(id).expect("settled with the response body");
    assert_eq!(got, b"42".to_vec());
}

#[test]
fn node_prepare_request_validates_and_builds() {
    let api = Api::new(
        6,
        "sum",
        vec![ApiMethod::new(
            MethodKind::PUT,
            vec![unicom::api::Parameter::new("n", unicom::api::ValueKind::Integer, true)],
        )],
    );
    let config = NodeConfig::new("n1");
    let node = Node::new(config);
    let mut params = ParamMap::new();
    params.push("n".to_owned(), unicom::api::JsonKind::Int);
    let req = node.prepare_request(&api, MethodKind::PUT, params).expect("valid call");
    assert_eq!(req.id, 6);
    assert!(matches!(req.method, MethodKind::PUT));
    assert_eq!(req.name, "");
    assert_eq!(req.node_name, "");

    let e = node
        .prepare_request(&api, MethodKind::DELETE, ParamMap::new())
        .expect_err("verb not registered");
    assert!(matches!(e.kind, UnicomErrorKind::MethodNotAllowed));

    let e = node
        .prepare_request(&api, MethodKind::PUT, ParamMap::new())
        .expect_err("mandatory parameter missing");
    assert!(matches!(e.kind, UnicomErrorKind::ParameterInvalid));
}

#[test]
fn response_constructors() {
    let r = UnicomResponse::empty();
    assert_eq!(r.data, b"{}".to_vec());
    let r = UnicomResponse::from_string("hello".to_owned());
    assert_eq!(r.data, b"hello".to_vec());
    let r = UnicomRequest::new();
    assert_eq!(r.id, 0);
    assert!(matches!(r.method, MethodKind::GET));
    assert_eq!(r.parameters.entries.len(), 0);
}

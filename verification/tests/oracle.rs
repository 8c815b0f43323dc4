use cairo_oracle_server::builder::Oracle;
use cairo_oracle_server::codec::{Decodable, Encodable};
use cairo_oracle_server::handler::{Handler, InvokeFault, Typed};
use cairo_oracle_server::protocol::{
    Message, MessageFactory, Outcome, Params, InvokeParams, Request, Response, Notification,
    ResponseError, unknown_selector_message, method_not_found_message, INVALID_PARAMS_CODE,
    INTERNAL_ERROR_CODE, METHOD_NOT_FOUND_CODE,
};
use cairo_oracle_server::registry::{DispatchError, Registry};
use cairo_oracle_server::samples::{
    zip_mul, Doubler, FunnyHash, NumberAnalysis, SampleHandler, StateAction, ZipMul,
};
use cairo_oracle_server::scalar::Scalar;
use cairo_oracle_server::session::{ExitStatus, SessionState, TransportEvent};

fn s64(x: i64) -> Scalar {
    Scalar::from_i64(x)
}

#[test]
fn scalar_u64_round_trip() {
    let s = Scalar::from_u64(21);
    assert_eq!(s.to_u64(), Some(21));
    assert_eq!(s.to_i64(), Some(21));
}

#[test]
fn scalar_negative_round_trip() {
    let s = Scalar::from_i64(-2);
    assert_eq!(s.to_i64(), Some(-2));
    assert_eq!(s.w0, (-2i64) as u64);
}

#[test]
fn scalar_large_rejected_as_u64() {
    let s = Scalar { w0: 5, w1: 1, w2: 0, w3: 0 };
    assert_eq!(s.to_u64(), None);
    assert_eq!(s.to_i64(), None);
}

#[test]
fn codec_u64_decodes_and_reencodes() {
    let v = vec![Scalar::from_u64(7)];
    let (x, next) = <u64 as Decodable>::decode_prefix(&v, 0).unwrap();
    assert_eq!(x, 7u64);
    assert_eq!(next, 1);
    let mut out = Vec::new();
    x.encode(&mut out);
    assert_eq!(out, v);
}

#[test]
fn codec_i64_negative_decodes_and_reencodes() {
    let v = vec![s64(-5)];
    let (x, next) = <i64 as Decodable>::decode_prefix(&v, 0).unwrap();
    assert_eq!(x, -5i64);
    assert_eq!(next, 1);
    let mut out = Vec::new();
    x.encode(&mut out);
    assert_eq!(out, v);
}

#[test]
fn codec_bool_rejects_values_above_one() {
    let v = vec![Scalar::from_u64(2)];
    assert!(<bool as Decodable>::decode_prefix(&v, 0).is_none());
    let v = vec![Scalar::from_u64(1)];
    let (b, next) = <bool as Decodable>::decode_prefix(&v, 0).unwrap();
    assert!(b);
    assert_eq!(next, 1);
}

#[test]
fn codec_pair_consumes_in_order() {
    let v = vec![Scalar::from_u64(3), Scalar::from_u64(9)];
    let ((a, b), next) = <(u64, u64) as Decodable>::decode_prefix(&v, 0).unwrap();
    assert_eq!((a, b), (3, 9));
    assert_eq!(next, 2);
    let mut out = Vec::new();
    (a, b).encode(&mut out);
    assert_eq!(out, v);
}

#[test]
fn codec_five_tuple_round_trips() {
    let v: Vec<Scalar> = (1u64..=5).map(Scalar::from_u64).collect();
    let (t, next) = <(u64, u64, u64, u64, u64) as Decodable>::decode_prefix(&v, 0).unwrap();
    assert_eq!(t, (1, 2, 3, 4, 5));
    assert_eq!(next, 5);
    let mut out = Vec::new();
    t.encode(&mut out);
    assert_eq!(out, v);
}

#[test]
fn codec_wide_scalar_fails_decoding() {
    let v = vec![Scalar { w0: 0, w1: 0, w2: 0, w3: 1 }];
    assert!(<u64 as Decodable>::decode_prefix(&v, 0).is_none());
}

#[test]
fn number_analysis_encodes_flattened() {
    let n = NumberAnalysis { both_are_odd: true, mul: 15 };
    let mut out = Vec::new();
    n.encode(&mut out);
    assert_eq!(out, vec![Scalar::from_u64(1), Scalar::from_u64(15)]);
}

#[test]
fn typed_handler_rejects_extra_scalar_without_side_effects() {
    let mut h = Typed(StateAction { total: 0 });
    let r = h.invoke_untyped(&vec![s64(5), s64(1)]);
    assert!(matches!(r, Err(InvokeFault::BadParams(_))));
    assert_eq!(h.0.total, 0);
}

#[test]
fn typed_handler_runs_body_on_exact_arity() {
    let mut h = Typed(FunnyHash);
    let r = h.invoke_untyped(&vec![Scalar::from_u64(4)]).unwrap();
    assert_eq!(r, vec![Scalar::from_u64(16)]);
}

#[test]
fn funny_hash_rejects_odd_input() {
    let mut h = Typed(FunnyHash);
    let r = h.invoke_untyped(&vec![Scalar::from_u64(3)]);
    assert!(matches!(r, Err(InvokeFault::Failed(_))));
}

#[test]
fn dispatch_double_answers_forty_two() {
    let mut reg: Registry<Typed<Doubler>> = Registry::new();
    reg.register("double".to_string(), Typed(Doubler));
    let r = reg.dispatch(&"double".to_string(), &vec![s64(21)]).unwrap();
    assert_eq!(r, vec![s64(42)]);
}

#[test]
fn dispatch_extra_scalar_is_a_parameter_error() {
    let mut reg: Registry<Typed<Doubler>> = Registry::new();
    reg.register("double".to_string(), Typed(Doubler));
    let r = reg.dispatch(&"double".to_string(), &vec![s64(21), s64(1)]);
    assert!(matches!(r, Err(DispatchError::BadParams(_))));
}

#[test]
fn dispatch_unknown_selector_lists_known_set() {
    let mut reg: Registry<Typed<Doubler>> = Registry::new();
    reg.register("double".to_string(), Typed(Doubler));
    match reg.dispatch(&"triple".to_string(), &vec![s64(1)]) {
        Err(DispatchError::UnknownSelector { selector, known }) => {
            assert_eq!(selector, "triple");
            assert_eq!(known, vec!["double".to_string()]);
        }
        other => panic!("expected an unknown selector error, got {:?}", other),
    }
}

#[test]
fn dispatch_overwrites_same_selector() {
    let mut reg: Registry<SampleHandler> = Registry::new();
    reg.register("f".to_string(), SampleHandler::Doubler(Typed(Doubler)));
    reg.register("f".to_string(), SampleHandler::FunnyHash(Typed(FunnyHash)));
    let r = reg.dispatch(&"f".to_string(), &vec![s64(4)]).unwrap();
    assert_eq!(r, vec![Scalar::from_u64(16)]);
    match reg.dispatch(&"missing".to_string(), &vec![]) {
        Err(DispatchError::UnknownSelector { known, .. }) => {
            assert_eq!(known, vec!["f".to_string()]);
        }
        other => panic!("expected an unknown selector error, got {:?}", other),
    }
}

#[test]
fn accumulator_sees_each_mutation() {
    let mut reg: Registry<Typed<StateAction>> = Registry::new();
    reg.register("state_action".to_string(), Typed(StateAction { total: 0 }));
    let sel = "state_action".to_string();
    assert_eq!(reg.dispatch(&sel, &vec![s64(5)]).unwrap(), vec![s64(5)]);
    assert_eq!(reg.dispatch(&sel, &vec![s64(7)]).unwrap(), vec![s64(12)]);
    assert_eq!(reg.dispatch(&sel, &vec![s64(-2)]).unwrap(), vec![s64(10)]);
}

#[test]
fn zip_mul_multiplies_pointwise() {
    let r = zip_mul(&vec![1, 2, 3], &vec![4, 5, 6]).unwrap();
    assert_eq!(r, vec![4, 10, 18]);
}

#[test]
fn zip_mul_rejects_length_mismatch() {
    assert!(zip_mul(&vec![1, 2], &vec![1]).is_err());
}

#[test]
fn zip_mul_rejects_overflow() {
    assert!(zip_mul(&vec![u64::MAX], &vec![2]).is_err());
}

#[test]
fn zip_mul_handler_answers_length_prefixed_products() {
    let mut reg: Registry<SampleHandler> = Registry::new();
    reg.register("zip_mul".to_string(), SampleHandler::ZipMul(ZipMul));
    let cd: Vec<Scalar> = [2, 1, 2, 2, 4, 5].iter().map(|&x| Scalar::from_u64(x)).collect();
    let r = reg.dispatch(&"zip_mul".to_string(), &cd).unwrap();
    let expected: Vec<Scalar> = [2, 4, 10].iter().map(|&x| Scalar::from_u64(x)).collect();
    assert_eq!(r, expected);
}

#[test]
fn zip_mul_handler_rejects_unequal_lengths() {
    let mut h = ZipMul;
    let cd: Vec<Scalar> = [1, 5, 2, 1, 2].iter().map(|&x| Scalar::from_u64(x)).collect();
    let r = h.invoke_untyped(&cd);
    assert!(matches!(r, Err(InvokeFault::Failed(_))));
}

#[test]
fn zip_mul_handler_rejects_misshapen_calldata() {
    let mut h = ZipMul;
    let cd: Vec<Scalar> = [3, 1].iter().map(|&x| Scalar::from_u64(x)).collect();
    let r = h.invoke_untyped(&cd);
    assert!(matches!(r, Err(InvokeFault::BadParams(_))));
}

#[test]
fn message_factory_ids_are_monotonic() {
    let mut mf = MessageFactory::new();
    let a = mf.request("ready".to_string(), Params::Null);
    let b = mf.request("other".to_string(), Params::Null);
    match (a, b) {
        (Message::Request(ra), Message::Request(rb)) => {
            assert_eq!(ra.id, 0);
            assert_eq!(rb.id, 1);
        }
        _ => panic!("factory did not build requests"),
    }
}

#[test]
fn unknown_selector_message_text() {
    let m = unknown_selector_message(
        &"triple".to_string(),
        &vec!["double".to_string(), "half".to_string()],
    );
    assert_eq!(m, "unknown selector: triple, this oracle provides: double, half");
}

#[test]
fn method_not_found_message_text() {
    let m = method_not_found_message(&"ping".to_string());
    assert_eq!(m, "unknown request method: ping");
}

fn served_oracle() -> (cairo_oracle_server::session::Session<SampleHandler>, u64) {
    let mut oracle: Oracle<SampleHandler> = Oracle::new();
    oracle.provide("double".to_string(), SampleHandler::Doubler(Typed(Doubler)));
    oracle.provide(
        "state_action".to_string(),
        SampleHandler::StateAction(Typed(StateAction { total: 0 })),
    );
    let (mut session, ready) = oracle.start();
    let ready_id = match ready {
        Message::Request(req) => {
            assert_eq!(req.method, "ready");
            assert!(matches!(req.params, Params::Null));
            req.id
        }
        other => panic!("handshake did not open with a request: {:?}", other),
    };
    let r = session.step(TransportEvent::Received(Message::Response(Response {
        id: ready_id,
        outcome: Outcome::Opaque("ignored".to_string()),
    })));
    assert!(r.exit.is_none());
    assert!(r.reply.is_none());
    assert!(matches!(session.state(), SessionState::Serving));
    (session, ready_id)
}

#[test]
fn handshake_accepts_matching_id_and_ignores_payload() {
    let (_session, _id) = served_oracle();
}

#[test]
fn default_oracle_starts_empty() {
    let mut oracle: Oracle<SampleHandler> = Default::default();
    oracle.provide("double".to_string(), SampleHandler::Doubler(Typed(Doubler)));
    let (mut session, ready) = oracle.start();
    let ready_id = match ready {
        Message::Request(req) => req.id,
        _ => unreachable!(),
    };
    let r = session.step(TransportEvent::Received(Message::Response(Response {
        id: ready_id,
        outcome: Outcome::Opaque("null".to_string()),
    })));
    assert!(r.exit.is_none());
}

#[test]
fn handshake_mismatched_id_is_fatal() {
    let mut oracle: Oracle<SampleHandler> = Oracle::new();
    oracle.provide("double".to_string(), SampleHandler::Doubler(Typed(Doubler)));
    let (mut session, ready) = oracle.start();
    let ready_id = match ready {
        Message::Request(req) => req.id,
        _ => unreachable!(),
    };
    let r = session.step(TransportEvent::Received(Message::Response(Response {
        id: ready_id.wrapping_add(1),
        outcome: Outcome::Opaque("{}".to_string()),
    })));
    let exit = r.exit.expect("a mismatched ready id must end the session");
    assert_eq!(exit.status, ExitStatus::Failure);
    assert!(exit.diagnostic.is_some());
}

#[test]
fn handshake_non_response_is_fatal() {
    let mut oracle: Oracle<SampleHandler> = Oracle::new();
    let (mut session, _ready) = oracle.start();
    let r = session.step(TransportEvent::Received(Message::Notification(Notification {
        method: "hello".to_string(),
        params: Params::Null,
    })));
    let exit = r.exit.expect("a non-response during the handshake must end the session");
    assert_eq!(exit.status, ExitStatus::Failure);
}

#[test]
fn peer_disconnect_during_handshake_is_clean() {
    let mut oracle: Oracle<SampleHandler> = Oracle::new();
    let (mut session, _ready) = oracle.start();
    let r = session.step(TransportEvent::Closed);
    let exit = r.exit.expect("peer closure must end the session");
    assert_eq!(exit.status, ExitStatus::Success);
}

#[test]
fn peer_disconnect_during_serving_is_clean_with_warning() {
    let (mut session, _id) = served_oracle();
    let r = session.step(TransportEvent::Closed);
    let exit = r.exit.expect("peer closure must end the session");
    assert_eq!(exit.status, ExitStatus::Success);
    assert!(r.warning.is_some());
}

#[test]
fn shutdown_notification_terminates_cleanly() {
    let (mut session, _id) = served_oracle();
    let r = session.step(TransportEvent::Received(Message::Notification(Notification {
        method: "shutdown".to_string(),
        params: Params::Null,
    })));
    let exit = r.exit.expect("shutdown must end the session");
    assert_eq!(exit.status, ExitStatus::Success);
    assert!(r.reply.is_none());
}

#[test]
fn unknown_notification_is_ignored() {
    let (mut session, _id) = served_oracle();
    let r = session.step(TransportEvent::Received(Message::Notification(Notification {
        method: "heartbeat".to_string(),
        params: Params::Null,
    })));
    assert!(r.exit.is_none());
    assert!(r.reply.is_none());
    assert!(r.warning.is_none());
}

#[test]
fn bad_line_is_skipped_with_a_warning() {
    let (mut session, _id) = served_oracle();
    let r = session.step(TransportEvent::BadLine("expected value at line 1".to_string()));
    assert!(r.exit.is_none());
    assert!(r.reply.is_none());
    assert_eq!(r.warning.as_deref(), Some("expected value at line 1"));
    assert!(matches!(session.state(), SessionState::Serving));
}

#[test]
fn read_fault_during_serving_is_fatal() {
    let (mut session, _id) = served_oracle();
    let r = session.step(TransportEvent::ReadFault("broken pipe".to_string()));
    let exit = r.exit.expect("a read fault must end the session");
    assert_eq!(exit.status, ExitStatus::Failure);
    assert_eq!(exit.diagnostic.as_deref(), Some("broken pipe"));
}

fn expect_error_reply(reply: Option<Message>, id: u64) -> ResponseError {
    match reply {
        Some(Message::Response(Response { id: got, outcome: Outcome::Failure(e) })) => {
            assert_eq!(got, id);
            e
        }
        other => panic!("expected an error response, got {:?}", other),
    }
}

#[test]
fn invoke_answers_with_encoded_result() {
    let (mut session, _id) = served_oracle();
    let r = session.step(TransportEvent::Received(Message::Request(Request {
        id: 7,
        method: "invoke".to_string(),
        params: Params::Invoke(InvokeParams {
            selector: "double".to_string(),
            calldata: vec![s64(21)],
        }),
    })));
    assert!(r.exit.is_none());
    match r.reply {
        Some(Message::Response(Response { id, outcome: Outcome::Output(v) })) => {
            assert_eq!(id, 7);
            assert_eq!(v, vec![s64(42)]);
        }
        other => panic!("expected a result response, got {:?}", other),
    }
}

#[test]
fn invoke_unknown_selector_reports_the_known_set() {
    let (mut session, _id) = served_oracle();
    let r = session.step(TransportEvent::Received(Message::Request(Request {
        id: 9,
        method: "invoke".to_string(),
        params: Params::Invoke(InvokeParams {
            selector: "triple".to_string(),
            calldata: vec![s64(1)],
        }),
    })));
    let e = expect_error_reply(r.reply, 9);
    assert_eq!(e.code, INVALID_PARAMS_CODE);
    assert_eq!(
        e.message,
        "unknown selector: triple, this oracle provides: double, state_action"
    );
}

#[test]
fn invoke_extra_scalar_reports_internal_error() {
    let (mut session, _id) = served_oracle();
    let r = session.step(TransportEvent::Received(Message::Request(Request {
        id: 4,
        method: "invoke".to_string(),
        params: Params::Invoke(InvokeParams {
            selector: "double".to_string(),
            calldata: vec![s64(21), s64(1)],
        }),
    })));
    let e = expect_error_reply(r.reply, 4);
    assert_eq!(e.code, INTERNAL_ERROR_CODE);
}

#[test]
fn invoke_unparseable_params_report_invalid_params() {
    let (mut session, _id) = served_oracle();
    let r = session.step(TransportEvent::Received(Message::Request(Request {
        id: 5,
        method: "invoke".to_string(),
        params: Params::Opaque("missing field `selector`".to_string()),
    })));
    let e = expect_error_reply(r.reply, 5);
    assert_eq!(e.code, INVALID_PARAMS_CODE);
    assert_eq!(e.message, "invalid invoke params: missing field `selector`");
}

#[test]
fn unknown_request_method_reports_method_not_found() {
    let (mut session, _id) = served_oracle();
    let r = session.step(TransportEvent::Received(Message::Request(Request {
        id: 6,
        method: "ping".to_string(),
        params: Params::Null,
    })));
    let e = expect_error_reply(r.reply, 6);
    assert_eq!(e.code, METHOD_NOT_FOUND_CODE);
    assert_eq!(e.message, "unknown request method: ping");
}

#[test]
fn unsolicited_response_is_ignored_during_serving() {
    let (mut session, _id) = served_oracle();
    let r = session.step(TransportEvent::Received(Message::Response(Response {
        id: 99,
        outcome: Outcome::Opaque("{}".to_string()),
    })));
    assert!(r.exit.is_none());
    assert!(r.reply.is_none());
}

#[test]
fn session_scenario_accumulates_across_invokes() {
    let (mut session, _id) = served_oracle();
    let mut results = Vec::new();
    for (n, x) in [(1u64, 5i64), (2, 7), (3, -2)] {
        let r = session.step(TransportEvent::Received(Message::Request(Request {
            id: n,
            method: "invoke".to_string(),
            params: Params::Invoke(InvokeParams {
                selector: "state_action".to_string(),
                calldata: vec![s64(x)],
            }),
        })));
        match r.reply {
            Some(Message::Response(Response { id, outcome: Outcome::Output(v) })) => {
                assert_eq!(id, n);
                results.push(v);
            }
            other => panic!("expected a result response, got {:?}", other),
        }
    }
    assert_eq!(results, vec![vec![s64(5)], vec![s64(12)], vec![s64(10)]]);
}

use dapr_gen::mock::{Behavior, Expectation, Matcher, Mock, MockError};
use dapr_gen::model::{Interface, Operation, Parameter, TypeDesc};
use dapr_gen::records::{bind_args, default_args, ArgsRecord, ResultRecord, Value};
use dapr_gen::runtime::{ProxyError, RemoteCall, Reply, Request, Runtime, StateRequest, Stub};

fn s(x: &str) -> Value {
    Value::Str(x.to_string())
}

fn greet_expectation(arg: &str, ret: &str, budget: Option<u64>) -> Expectation {
    Expectation {
        op: "greet".to_string(),
        matcher: Matcher::Exactly(vec![s(arg)]),
        behavior: Behavior::Return(s(ret)),
        remaining: budget,
    }
}

fn remote_call(r: Option<Request>) -> RemoteCall {
    match r {
        Some(Request::InvokeService(c)) => c,
        _ => panic!("expected a service invocation"),
    }
}

fn greeter() -> Interface {
    let ops = vec![
        Operation {
            name: "greet".to_string(),
            params: vec![Parameter { name: "name".to_string(), ty: TypeDesc::Str }],
            ret: Some(TypeDesc::Str),
        },
        Operation {
            name: "add".to_string(),
            params: vec![
                Parameter { name: "a".to_string(), ty: TypeDesc::Int },
                Parameter { name: "b".to_string(), ty: TypeDesc::Int },
            ],
            ret: Some(TypeDesc::Int),
        },
        Operation { name: "ping".to_string(), params: vec![], ret: None },
    ];
    Interface::new("Greeter".to_string(), ops, vec![]).ok().unwrap()
}

#[test]
fn mock_greet_scenario() {
    let mut mock = Mock::new(greeter());
    assert!(mock.expect(greet_expectation("world", "Hi", None)).is_ok());
    assert!(matches!(mock.call("greet", &vec![s("world")]), Ok(Value::Str(r)) if r == "Hi"));
    match mock.call("greet", &vec![s("other")]) {
        Err(MockError::UnexpectedCall { operation, arguments }) => {
            assert_eq!(operation, "greet");
            assert!(matches!(&arguments[..], [Value::Str(a)] if a == "other"));
        }
        _ => panic!("expected UnexpectedCall"),
    }
}

#[test]
fn mock_budget_exhausts() {
    let mut mock = Mock::new(greeter());
    assert!(mock.expect(greet_expectation("world", "Hi", Some(1))).is_ok());
    assert!(mock.call("greet", &vec![s("world")]).is_ok());
    match mock.call("greet", &vec![s("world")]) {
        Err(MockError::ExpectationExhausted { operation }) => assert_eq!(operation, "greet"),
        _ => panic!("expected ExpectationExhausted"),
    }
}

#[test]
fn mock_first_registered_match_wins_then_falls_through() {
    let mut mock = Mock::new(greeter());
    assert!(mock.expect(greet_expectation("world", "first", Some(1))).is_ok());
    assert!(mock.expect(Expectation {
        op: "greet".to_string(),
        matcher: Matcher::Any,
        behavior: Behavior::Return(s("second")),
        remaining: None,
    }).is_ok());
    assert!(matches!(mock.call("greet", &vec![s("world")]), Ok(Value::Str(r)) if r == "first"));
    assert!(matches!(mock.call("greet", &vec![s("world")]), Ok(Value::Str(r)) if r == "second"));
    assert!(matches!(mock.call("greet", &vec![s("x")]), Ok(Value::Str(r)) if r == "second"));
}

#[test]
fn mock_other_operation_is_unexpected() {
    let mut mock = Mock::new(greeter());
    assert!(mock.expect(greet_expectation("world", "Hi", None)).is_ok());
    assert!(matches!(mock.call("ping", &vec![]), Err(MockError::UnexpectedCall { .. })));
}

#[test]
fn mock_scripted_failure() {
    let mut mock = Mock::new(greeter());
    assert!(mock.expect(Expectation {
        op: "ping".to_string(),
        matcher: Matcher::Any,
        behavior: Behavior::Fail("down".to_string()),
        remaining: None,
    }).is_ok());
    match mock.call("ping", &vec![]) {
        Err(MockError::Scripted { operation, message }) => {
            assert_eq!(operation, "ping");
            assert_eq!(message, "down");
        }
        _ => panic!("expected Scripted"),
    }
}

#[test]
fn proxy_issues_one_remote_call_per_operation() {
    let stub = Stub::new(greeter(), "greeter-app".to_string());
    let mut rt = Runtime::new();
    stub.call(&mut rt, 1, &vec![Value::Int(2), Value::Int(3)]);
    assert_eq!(rt.pending(), 1);
    let c = remote_call(rt.take_next());
    assert_eq!(c.target, "greeter-app");
    assert_eq!(c.method, "add");
    assert_eq!(c.args.fields.len(), 2);
    assert_eq!(c.args.fields[0].name, "a");
    assert!(matches!(c.args.fields[0].value, Value::Int(2)));
    assert_eq!(c.args.fields[1].name, "b");
    assert!(matches!(c.args.fields[1].value, Value::Int(3)));
    assert!(rt.take_next().is_none());
}

#[test]
fn proxy_calls_keep_their_order() {
    let stub = Stub::new(greeter(), "app".to_string());
    let mut rt = Runtime::new();
    stub.call(&mut rt, 2, &vec![]);
    stub.call(&mut rt, 0, &vec![s("world")]);
    assert_eq!(rt.pending(), 2);
    assert_eq!(remote_call(rt.take_next()).method, "ping");
    assert_eq!(remote_call(rt.take_next()).method, "greet");
}

#[test]
fn proxy_finish_maps_each_reply() {
    let stub = Stub::new(greeter(), "app".to_string());
    let ok = stub.finish(0, Reply::Decoded(ResultRecord { value: s("Hi") }));
    assert!(matches!(ok, Ok(Value::Str(r)) if r == "Hi"));
    assert!(matches!(stub.finish(1, Reply::Absent), Ok(Value::Int(0))));
    assert!(matches!(stub.finish(2, Reply::Absent), Ok(Value::Unit)));
    assert!(matches!(
        stub.finish(0, Reply::Transport("refused".to_string())),
        Err(ProxyError::TransportFailure { message }) if message == "refused"
    ));
    assert!(matches!(
        stub.finish(0, Reply::Status("not found".to_string())),
        Err(ProxyError::RemoteStatusFailure { message }) if message == "not found"
    ));
    assert!(matches!(
        stub.finish(0, Reply::Undecodable("eof".to_string())),
        Err(ProxyError::ResultDecodeFailure { .. })
    ));
    assert!(matches!(
        stub.finish(0, Reply::Decoded(ResultRecord { value: Value::Int(1) })),
        Err(ProxyError::ResultDecodeFailure { .. })
    ));
}

#[test]
fn args_record_round_trip() {
    let iface = greeter();
    let add = &iface.operations[1];
    let rec = ArgsRecord::build(add, &vec![Value::Int(-5), Value::Int(9)]);
    let back = bind_args(add, &rec).unwrap();
    assert!(matches!(&back[..], [Value::Int(-5), Value::Int(9)]));
    let ping = &iface.operations[2];
    let rec = ArgsRecord::build(ping, &vec![]);
    assert!(rec.fields.is_empty());
    assert!(bind_args(ping, &rec).unwrap().is_empty());
    assert!(default_args(ping).is_empty());
}

#[test]
fn result_record_round_trip() {
    assert!(matches!(ResultRecord::wrap(Some(s("v"))).unwrap(), Value::Str(r) if r == "v"));
    assert!(matches!(ResultRecord::wrap(None).unwrap(), Value::Unit));
    assert!(matches!(ResultRecord::wrap(Some(Value::Bool(true))).unwrap(), Value::Bool(true)));
}

#[test]
fn runtime_queues_pass_through_requests_in_order() {
    let mut rt = Runtime::new();
    rt.publish_event("orders", "created");
    rt.invoke_binding("queue", true);
    rt.get_state("k1");
    rt.save_state(vec![StateRequest::new("k1", String::from("v1")), StateRequest::new("k2", None::<bool>)]);
    rt.delete_state("k1");
    assert_eq!(rt.pending(), 5);
    match rt.take_next() {
        Some(Request::PublishEvent { topic, data }) => {
            assert_eq!(topic, "orders");
            let d = data.unwrap();
            assert_eq!(d.type_url, "rust-lang.org/str");
            assert_eq!(d.value, b"created".to_vec());
        }
        _ => panic!("expected PublishEvent"),
    }
    match rt.take_next() {
        Some(Request::InvokeBinding { name, data }) => {
            assert_eq!(name, "queue");
            assert_eq!(data.unwrap().value, vec![1]);
        }
        _ => panic!("expected InvokeBinding"),
    }
    assert!(matches!(rt.take_next(), Some(Request::GetState { key }) if key == "k1"));
    match rt.take_next() {
        Some(Request::SaveState { requests }) => {
            assert_eq!(requests.len(), 2);
            assert_eq!(requests[0].key, "k1");
            assert_eq!(requests[0].value.as_ref().unwrap().value, b"v1".to_vec());
            assert!(requests[1].value.is_none());
        }
        _ => panic!("expected SaveState"),
    }
    assert!(matches!(rt.take_next(), Some(Request::DeleteState { key }) if key == "k1"));
    assert!(rt.take_next().is_none());
    assert_eq!(rt.pending(), 0);
}

#[test]
fn mock_rejects_expectations_that_do_not_fit() {
    let mut mock = Mock::new(greeter());
    let r = mock.expect(greet_expectation("world", "Hi", None));
    assert!(r.is_ok());
    let unknown = Expectation {
        op: "nope".to_string(),
        matcher: Matcher::Any,
        behavior: Behavior::Return(Value::Unit),
        remaining: None,
    };
    match mock.expect(unknown) {
        Err(MockError::InvalidExpectation { operation }) => assert_eq!(operation, "nope"),
        _ => panic!("expected InvalidExpectation"),
    }
    let wrong_arity = Expectation {
        op: "add".to_string(),
        matcher: Matcher::Exactly(vec![Value::Int(1)]),
        behavior: Behavior::Return(Value::Int(1)),
        remaining: None,
    };
    assert!(matches!(mock.expect(wrong_arity), Err(MockError::InvalidExpectation { .. })));
    let wrong_arg_type = Expectation {
        op: "add".to_string(),
        matcher: Matcher::Exactly(vec![Value::Int(1), s("2")]),
        behavior: Behavior::Return(Value::Int(3)),
        remaining: None,
    };
    assert!(matches!(mock.expect(wrong_arg_type), Err(MockError::InvalidExpectation { .. })));
    let wrong_return = Expectation {
        op: "ping".to_string(),
        matcher: Matcher::Any,
        behavior: Behavior::Return(Value::Int(3)),
        remaining: None,
    };
    assert!(matches!(mock.expect(wrong_return), Err(MockError::InvalidExpectation { .. })));
    let ok_ping = Expectation {
        op: "ping".to_string(),
        matcher: Matcher::Exactly(vec![]),
        behavior: Behavior::Return(Value::Unit),
        remaining: Some(2),
    };
    assert!(mock.expect(ok_ping).is_ok());
    assert!(matches!(mock.call("ping", &vec![]), Ok(Value::Unit)));
}

#[test]
fn stub_finds_operations_by_name() {
    let stub = Stub::new(greeter(), "app".to_string());
    assert_eq!(stub.operation_index("add"), Some(1));
    assert_eq!(stub.operation_index("nope"), None);
    assert_eq!(stub.operation_count(), 3);
}

#[test]
fn proxy_decode_failure_carries_reason() {
    let stub = Stub::new(greeter(), "app".to_string());
    match stub.finish(0, Reply::Undecodable("eof".to_string())) {
        Err(ProxyError::ResultDecodeFailure { operation, reason }) => {
            assert_eq!(operation, "greet");
            assert_eq!(reason, "eof");
        }
        _ => panic!("expected ResultDecodeFailure"),
    }
}

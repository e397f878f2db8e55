use dapr_gen::client::{dispatch_status, list_bindings, list_topics, on_binding_event, on_topic_event};
use dapr_gen::client::{BindingEvent, BindingResponse, Bindings, CloudEvent, Events};
use dapr_gen::dispatch::{payload_is_absent, Capabilities, DispatchError, Dispatcher, Service, StatusCode};
use dapr_gen::model::{Interface, Operation, Parameter, TypeDesc};
use dapr_gen::records::{ArgsRecord, Field, ResultRecord, Value};
use std::cell::RefCell;

fn op(name: &str, params: &[(&str, TypeDesc)], ret: Option<TypeDesc>) -> Operation {
    Operation {
        name: name.to_string(),
        params: params
            .iter()
            .map(|(n, t)| Parameter { name: n.to_string(), ty: *t })
            .collect(),
        ret,
    }
}

fn greeter_dispatcher() -> Dispatcher {
    let ops = vec![
        op("greet", &[("name", TypeDesc::Str)], Some(TypeDesc::Str)),
        op("add", &[("a", TypeDesc::Int), ("b", TypeDesc::Int)], Some(TypeDesc::Int)),
        op("ping", &[], None),
        op("fail", &[], Some(TypeDesc::Bool)),
    ];
    let iface = Interface::new("Greeter".to_string(), ops, vec![]).ok().unwrap();
    Dispatcher::new(iface, Capabilities { events: true, bindings: true }).ok().unwrap()
}

struct Greeter {
    calls: RefCell<Vec<(usize, Vec<String>)>>,
}

fn show(v: &Value) -> String {
    match v {
        Value::Unit => "()".to_string(),
        Value::Bool(b) => b.to_string(),
        Value::Int(i) => i.to_string(),
        Value::Str(s) => s.clone(),
    }
}

impl Service for Greeter {
    fn call(&self, op: usize, args: Vec<Value>) -> Result<Option<Value>, String> {
        self.calls.borrow_mut().push((op, args.iter().map(show).collect()));
        match (op, args.as_slice()) {
            (0, [Value::Str(name)]) => Ok(Some(Value::Str(format!("Hi there, {}", name)))),
            (1, [Value::Int(a), Value::Int(b)]) => Ok(Some(Value::Int(a + b))),
            (2, []) => Ok(None),
            (3, []) => Err("boom".to_string()),
            _ => Ok(Some(Value::Unit)),
        }
    }
}

impl Events for Greeter {
    fn topic_subscriptions(&self) -> Result<Vec<String>, String> {
        Ok(vec!["orders".to_string()])
    }

    fn on_topic_event(&self, event: CloudEvent) -> Result<(), String> {
        if event.topic == "orders" { Ok(()) } else { Err("unknown topic".to_string()) }
    }
}

impl Bindings for Greeter {
    fn bindings_subscriptions(&self) -> Result<Vec<String>, String> {
        Err("no bindings".to_string())
    }

    fn on_binding_event(&self, event: BindingEvent) -> Result<BindingResponse, String> {
        Ok(BindingResponse { data: event.data, to: vec![event.name] })
    }
}

fn greeter() -> Greeter {
    Greeter { calls: RefCell::new(Vec::new()) }
}

fn to_json(v: &Value) -> serde_json::Value {
    match v {
        Value::Unit => serde_json::Value::Null,
        Value::Bool(b) => serde_json::Value::Bool(*b),
        Value::Int(i) => serde_json::Value::from(*i),
        Value::Str(s) => serde_json::Value::String(s.clone()),
    }
}

fn from_json(v: &serde_json::Value) -> Value {
    match v {
        serde_json::Value::Null => Value::Unit,
        serde_json::Value::Bool(b) => Value::Bool(*b),
        serde_json::Value::Number(n) => Value::Int(n.as_i64().unwrap()),
        serde_json::Value::String(s) => Value::Str(s.clone()),
        _ => panic!("unsupported value"),
    }
}

fn encode_args(rec: &ArgsRecord) -> Vec<u8> {
    let mut m = serde_json::Map::new();
    for f in &rec.fields {
        m.insert(f.name.clone(), to_json(&f.value));
    }
    serde_json::to_vec(&serde_json::Value::Object(m)).unwrap()
}

fn decode_args(bytes: &[u8]) -> Result<ArgsRecord, String> {
    let v: serde_json::Value = serde_json::from_slice(bytes).map_err(|e| e.to_string())?;
    let obj = v.as_object().ok_or_else(|| "not an object".to_string())?;
    Ok(ArgsRecord {
        fields: obj
            .iter()
            .map(|(k, v)| Field { name: k.clone(), value: from_json(v) })
            .collect(),
    })
}

fn encode_result(rec: &ResultRecord) -> Vec<u8> {
    serde_json::to_vec(&to_json(&rec.value)).unwrap()
}

fn decode_result(bytes: &[u8]) -> ResultRecord {
    let v: serde_json::Value = serde_json::from_slice(bytes).unwrap();
    ResultRecord { value: from_json(&v) }
}

fn args_record(fields: &[(&str, Value)]) -> ArgsRecord {
    ArgsRecord {
        fields: fields
            .iter()
            .map(|(n, v)| Field { name: n.to_string(), value: v.duplicate() })
            .collect(),
    }
}

#[test]
fn greet_scenario_round_trips_through_json() {
    let d = greeter_dispatcher();
    let svc = greeter();
    let payload = encode_args(&args_record(&[("name", Value::Str("world".to_string()))]));
    let decoded = decode_args(&payload);
    let rec = d.invoke(&svc, "greet", Some(decoded)).ok().unwrap();
    let back = decode_result(&encode_result(&rec));
    assert!(matches!(back.unwrap(), Value::Str(s) if s == "Hi there, world"));
}

#[test]
fn unknown_operation_fails_for_any_payload() {
    let d = greeter_dispatcher();
    let svc = greeter();
    let payloads = vec![
        None,
        Some(Err("garbage".to_string())),
        Some(Ok(args_record(&[("name", Value::Str("x".to_string()))]))),
    ];
    for p in payloads {
        match d.invoke(&svc, "UnknownOp", p) {
            Err(DispatchError::UnknownOperation { method }) => assert_eq!(method, "UnknownOp"),
            _ => panic!("expected UnknownOperation"),
        }
    }
    assert!(svc.calls.borrow().is_empty());
}

#[test]
fn known_operation_called_once_with_args() {
    let d = greeter_dispatcher();
    let svc = greeter();
    let rec = args_record(&[("b", Value::Int(40)), ("a", Value::Int(2))]);
    let payload = decode_args(&encode_args(&rec));
    let out = d.invoke(&svc, "add", Some(payload)).ok().unwrap();
    assert!(matches!(out.value, Value::Int(42)));
    let calls = svc.calls.borrow();
    assert_eq!(calls.len(), 1);
    assert_eq!(calls[0], (1, vec!["2".to_string(), "40".to_string()]));
}

#[test]
fn prepare_reads_args_in_parameter_order() {
    let d = greeter_dispatcher();
    let rec = args_record(&[("b", Value::Int(7)), ("a", Value::Int(3)), ("extra", Value::Bool(true))]);
    let call = d.prepare("add", Some(Ok(rec))).ok().unwrap();
    assert_eq!(call.op, 1);
    assert_eq!(call.args.iter().map(show).collect::<Vec<_>>(), vec!["3", "7"]);
}

#[test]
fn zero_param_operation_with_absent_payload_succeeds() {
    let d = greeter_dispatcher();
    let svc = greeter();
    let out = d.invoke(&svc, "ping", None).ok().unwrap();
    assert!(matches!(out.value, Value::Unit));
    assert_eq!(svc.calls.borrow()[0], (2, vec![]));
}

#[test]
fn absent_payload_gives_default_arguments() {
    let d = greeter_dispatcher();
    let call = d.prepare("add", None).ok().unwrap();
    assert_eq!(call.args.iter().map(show).collect::<Vec<_>>(), vec!["0", "0"]);
    let call = d.prepare("greet", None).ok().unwrap();
    assert!(matches!(&call.args[0], Value::Str(s) if s.is_empty()));
}

#[test]
fn empty_payload_counts_as_absent() {
    assert!(payload_is_absent(&None));
    assert!(payload_is_absent(&Some(vec![])));
    assert!(!payload_is_absent(&Some(b"{}".to_vec())));
}

#[test]
fn undecodable_payload_is_argument_decode_failure() {
    let d = greeter_dispatcher();
    let svc = greeter();
    let r = d.invoke(&svc, "greet", Some(decode_args(b"not json")));
    match r {
        Err(e @ DispatchError::ArgumentDecodeFailure { .. }) => {
            assert_eq!(e.status(), StatusCode::Internal);
            let expected = serde_json::from_slice::<serde_json::Value>(b"not json").err().unwrap().to_string();
            let st = dispatch_status(&e);
            assert_eq!(st.code, StatusCode::Internal);
            assert_eq!(st.message, expected);
        }
        _ => panic!("expected ArgumentDecodeFailure"),
    }
    assert!(svc.calls.borrow().is_empty());
}

#[test]
fn missing_or_mistyped_field_is_argument_decode_failure() {
    let d = greeter_dispatcher();
    let r = d.prepare("greet", Some(Ok(args_record(&[]))));
    assert!(matches!(r, Err(DispatchError::ArgumentDecodeFailure { .. })));
    let r = d.prepare("greet", Some(Ok(args_record(&[("name", Value::Int(1))]))));
    assert!(matches!(r, Err(DispatchError::ArgumentDecodeFailure { .. })));
}

#[test]
fn implementation_failure_is_reported() {
    let d = greeter_dispatcher();
    let svc = greeter();
    match d.invoke(&svc, "fail", None) {
        Err(DispatchError::ImplementationFailure { operation, message }) => {
            assert_eq!(operation, "fail");
            assert_eq!(message, "boom");
        }
        _ => panic!("expected ImplementationFailure"),
    }
}

#[test]
fn mistyped_return_is_result_encode_failure() {
    let d = greeter_dispatcher();
    let r = d.complete(0, Ok(Some(Value::Int(3))));
    assert!(matches!(r, Err(DispatchError::ResultEncodeFailure { .. })));
    let r = d.complete(2, Ok(None));
    assert!(matches!(r.ok().unwrap().value, Value::Unit));
}

#[test]
fn unknown_operation_status_is_unimplemented() {
    let e = DispatchError::UnknownOperation { method: "x".to_string() };
    assert_eq!(e.status(), StatusCode::Unimplemented);
    let s = dispatch_status(&e);
    assert_eq!(s.code, StatusCode::Unimplemented);
    assert_eq!(s.message, "Not yet implemented");
}

#[test]
fn dispatcher_requires_both_capabilities() {
    let iface = Interface::new("G".to_string(), vec![], vec![]).ok().unwrap();
    assert!(Dispatcher::new(iface, Capabilities { events: false, bindings: true }).is_err());
}

#[test]
fn event_and_binding_calls_pass_through() {
    let svc = greeter();
    assert_eq!(list_topics(&svc).ok().unwrap(), vec!["orders".to_string()]);
    let err = list_bindings(&svc).err().unwrap();
    assert_eq!(err.code, StatusCode::Internal);
    assert_eq!(err.message, "no bindings");
    let event = CloudEvent {
        id: "1".to_string(),
        source: "s".to_string(),
        event_type: "t".to_string(),
        spec_version: "1.0".to_string(),
        data_content_type: "application/json".to_string(),
        topic: "other".to_string(),
        data: vec![],
    };
    let err = on_topic_event(&svc, event).err().unwrap();
    assert_eq!(err.code, StatusCode::Internal);
    let resp = on_binding_event(
        &svc,
        BindingEvent { name: "queue".to_string(), data: vec![1, 2], metadata: vec![] },
    )
    .ok()
    .unwrap();
    assert_eq!(resp.data, vec![1, 2]);
    assert_eq!(resp.to, vec!["queue".to_string()]);
}

#[test]
fn dispatch_status_carries_failure_message() {
    let e = DispatchError::ImplementationFailure { operation: "f".to_string(), message: "boom".to_string() };
    let s = dispatch_status(&e);
    assert_eq!(s.code, StatusCode::Internal);
    assert_eq!(s.message, "boom");
    let e = DispatchError::ResultEncodeFailure { operation: "f".to_string(), reason: "bad".to_string() };
    assert_eq!(dispatch_status(&e).message, "bad");
}

#[test]
fn dispatcher_build_validates() {
    let d = Dispatcher::build(
        "G".to_string(),
        vec![op("ping", &[], None)],
        vec![],
        Capabilities { events: true, bindings: true },
    )
    .ok()
    .unwrap();
    let svc = greeter();
    assert!(matches!(d.invoke(&svc, "ping", None).ok().unwrap().value, Value::Unit));
    let r = Dispatcher::build("G".to_string(), vec![op("a", &[], None), op("a", &[], None)], vec![], Capabilities { events: true, bindings: true });
    assert!(r.is_err());
}

//! The session handle a proxy issues remote calls through, and the proxy
//! itself.
use crate::any::{Any, IntoAny};
use crate::model::{Interface, InterfaceModel, TypeDesc};
use crate::records::{
    default_of, has_type, record_of, slot_of, values_view, ArgsRecord, ResultRecord, Value,
    ValueModel,
};
use vstd::prelude::*;

verus! {

/// One remote invocation: the target application, the operation name, and
/// the argument record to be encoded as its payload.
pub struct RemoteCall {
    pub target: String,
    pub method: String,
    pub args: ArgsRecord,
}

pub ghost struct RemoteCallModel {
    pub target: Seq<char>,
    pub method: Seq<char>,
    pub args: Seq<(Seq<char>, ValueModel)>,
}

impl View for RemoteCall {
    type V = RemoteCallModel;

    open spec fn view(&self) -> RemoteCallModel {
        RemoteCallModel { target: self.target@, method: self.method@, args: self.args@ }
    }
}

/// A value to be saved under a key.
pub struct StateRequest {
    pub key: String,
    pub value: Option<Any>,
}

pub open spec fn any_opt_view(a: Option<Any>) -> Option<(Seq<char>, Seq<u8>)> {
    match a {
        Some(x) => Some(x@),
        None => None,
    }
}

impl View for StateRequest {
    type V = (Seq<char>, Option<(Seq<char>, Seq<u8>)>);

    open spec fn view(&self) -> (Seq<char>, Option<(Seq<char>, Seq<u8>)>) {
        (self.key@, any_opt_view(self.value))
    }
}

impl StateRequest {
    /// The request to save `value` under `key`.
    pub fn new<V: IntoAny>(key: &str, value: V) -> (r: StateRequest)
        ensures
            r@ == (key@, value.any_view()),
    {
        StateRequest { key: String::from_str(key), value: value.into_any() }
    }
}

/// A request to the remote runtime.
pub enum Request {
    InvokeService(RemoteCall),
    InvokeBinding { name: String, data: Option<Any> },
    PublishEvent { topic: String, data: Option<Any> },
    GetState { key: String },
    SaveState { requests: Vec<StateRequest> },
    DeleteState { key: String },
}

pub ghost enum RequestModel {
    InvokeService(RemoteCallModel),
    InvokeBinding(Seq<char>, Option<(Seq<char>, Seq<u8>)>),
    PublishEvent(Seq<char>, Option<(Seq<char>, Seq<u8>)>),
    GetState(Seq<char>),
    SaveState(Seq<(Seq<char>, Option<(Seq<char>, Seq<u8>)>)>),
    DeleteState(Seq<char>),
}

impl View for Request {
    type V = RequestModel;

    open spec fn view(&self) -> RequestModel {
        match self {
            Request::InvokeService(c) => RequestModel::InvokeService(c@),
            Request::InvokeBinding { name, data } => RequestModel::InvokeBinding(name@, any_opt_view(*data)),
            Request::PublishEvent { topic, data } => RequestModel::PublishEvent(topic@, any_opt_view(*data)),
            Request::GetState { key } => RequestModel::GetState(key@),
            Request::SaveState { requests } => RequestModel::SaveState(
                requests@.map_values(|q: StateRequest| q@),
            ),
            Request::DeleteState { key } => RequestModel::DeleteState(key@),
        }
    }
}

/// A session with the remote runtime: the requests issued through it, in
/// order, until the transport takes them.
pub struct Runtime {
    issued: Vec<Request>,
}

impl View for Runtime {
    type V = Seq<RequestModel>;

    closed spec fn view(&self) -> Seq<RequestModel> {
        self.issued@.map_values(|c: Request| c@)
    }
}

impl Runtime {
    /// A session with no request issued.
    pub fn new() -> (r: Runtime)
        ensures
            r@.len() == 0,
    {
        let r = Runtime { issued: Vec::new() };
        assert(r@ =~= Seq::<RequestModel>::empty());
        r
    }

    /// The number of requests issued and not yet taken.
    pub fn pending(&self) -> (r: usize)
        ensures
            r == self@.len(),
    {
        self.issued.len()
    }

    fn issue(&mut self, req: Request)
        ensures
            final(self)@ == old(self)@.push(req@),
    {
        let ghost c = req@;
        self.issued.push(req);
        assert(self@ =~= old(self)@.push(c));
    }

    /// Issues a call of `method_name` on application `app_id` with `data`.
    pub fn invoke_service(&mut self, app_id: &str, method_name: &str, data: ArgsRecord)
        ensures
            final(self)@ == old(self)@.push(
                RequestModel::InvokeService(RemoteCallModel { target: app_id@, method: method_name@, args: data@ }),
            ),
    {
        let call = RemoteCall {
            target: String::from_str(app_id),
            method: String::from_str(method_name),
            args: data,
        };
        self.issue(Request::InvokeService(call));
    }

    /// Invokes the output binding `name` with `data`.
    pub fn invoke_binding<D: IntoAny>(&mut self, name: &str, data: D)
        ensures
            final(self)@ == old(self)@.push(RequestModel::InvokeBinding(name@, data.any_view())),
    {
        let data = data.into_any();
        self.issue(Request::InvokeBinding { name: String::from_str(name), data });
    }

    /// Publishes `data` to the consumers of `topic`.
    pub fn publish_event<D: IntoAny>(&mut self, topic: &str, data: D)
        ensures
            final(self)@ == old(self)@.push(RequestModel::PublishEvent(topic@, data.any_view())),
    {
        let data = data.into_any();
        self.issue(Request::PublishEvent { topic: String::from_str(topic), data });
    }

    /// Asks for the state saved under `key`.
    pub fn get_state(&mut self, key: &str)
        ensures
            final(self)@ == old(self)@.push(RequestModel::GetState(key@)),
    {
        self.issue(Request::GetState { key: String::from_str(key) });
    }

    /// Saves each of `requests`.
    pub fn save_state(&mut self, requests: Vec<StateRequest>)
        ensures
            final(self)@ == old(self)@.push(RequestModel::SaveState(requests@.map_values(|q: StateRequest| q@))),
    {
        self.issue(Request::SaveState { requests });
    }

    /// Deletes the state saved under `key`.
    pub fn delete_state(&mut self, key: &str)
        ensures
            final(self)@ == old(self)@.push(RequestModel::DeleteState(key@)),
    {
        self.issue(Request::DeleteState { key: String::from_str(key) });
    }

    /// Takes the oldest issued request, for the transport to perform.
    pub fn take_next(&mut self) -> (r: Option<Request>)
        ensures
            old(self)@.len() == 0 ==> r is None && final(self)@ == old(self)@,
            old(self)@.len() > 0 ==> (r matches Some(c) && c@ == old(self)@[0] && final(self)@
                == old(self)@.subrange(1, old(self)@.len() as int)),
    {
        if self.issued.len() == 0 {
            return None;
        }
        let ghost before = self@;
        let c = self.issued.remove(0);
        assert(self@ =~= before.subrange(1, before.len() as int));
        Some(c)
    }
}

/// How a remote call came back.
pub enum Reply {
    /// The transport failed before an answer came.
    Transport(String),
    /// The remote side answered with a failure status.
    Status(String),
    /// The answer carried no payload.
    Absent,
    /// The payload could not be read as the result record.
    Undecodable(String),
    /// The decoded result record.
    Decoded(ResultRecord),
}

/// Why a proxied operation failed.
pub enum ProxyError {
    TransportFailure { message: String },
    ResultDecodeFailure { operation: String, reason: String },
    RemoteStatusFailure { message: String },
}

/// The client-side proxy of an interface: each operation becomes one
/// remote call to application `app_id`.
pub struct Stub {
    iface: Interface,
    app_id: String,
}

impl View for Stub {
    type V = (InterfaceModel, Seq<char>);

    closed spec fn view(&self) -> (InterfaceModel, Seq<char>) {
        (self.iface@, self.app_id@)
    }
}

impl Stub {
    pub fn new(iface: Interface, app_id: String) -> (r: Stub)
        ensures
            r@ == (iface@, app_id@),
    {
        Stub { iface, app_id }
    }

    /// The number of operations of the proxied interface.
    pub fn operation_count(&self) -> (r: usize)
        ensures
            r == self@.0.ops.len(),
    {
        self.iface.operations.len()
    }

    /// The index of the first operation named `name`, if any.
    pub fn operation_index(&self, name: &str) -> (r: Option<usize>)
        ensures
            r matches Some(k) ==> k < self@.0.ops.len() && self@.0.ops[k as int].name == name@ && forall|j: int|
                0 <= j < k ==> (#[trigger] self@.0.ops[j]).name != name@,
            r is None ==> forall|j: int| 0 <= j < self@.0.ops.len() ==> (#[trigger] self@.0.ops[j]).name != name@,
    {
        let target = String::from_str(name);
        let ghost ops = self@.0.ops;
        for k in 0..self.iface.operations.len()
            invariant
                ops == self@.0.ops,
                ops == self.iface@.ops,
                target@ == name@,
                forall|j: int| 0 <= j < k ==> (#[trigger] ops[j]).name != name@,
        {
            if self.iface.operations[k].name == target {
                assert(ops[k as int] == self.iface.operations[k as int]@);
                return Some(k);
            }
        }
        None
    }

    /// Issues operation `op` with `args` through `runtime`: exactly one
    /// call, named after the operation, carrying the argument record.
    pub fn call(&self, runtime: &mut Runtime, op: usize, args: &Vec<Value>)
        requires
            op < self@.0.ops.len(),
            args.len() == self@.0.ops[op as int].params.len(),
        ensures
            final(runtime)@ == old(runtime)@.push(
                RequestModel::InvokeService(
                    RemoteCallModel {
                        target: self@.1,
                        method: self@.0.ops[op as int].name,
                        args: record_of(self@.0.ops[op as int].params, values_view(args@)),
                    },
                ),
            ),
    {
        let o = &self.iface.operations[op];
        assert(self@.0.ops[op as int] == o@);
        let rec = ArgsRecord::build(o, args);
        runtime.invoke_service(self.app_id.as_str(), o.name.as_str(), rec);
    }

    /// The return value of operation `op` from its reply: the default of
    /// the return type where the reply carries no payload.
    pub fn finish(&self, op: usize, reply: Reply) -> (r: Result<Value, ProxyError>)
        requires
            op < self@.0.ops.len(),
        ensures
            ({
                let slot = slot_of(self@.0.ops[op as int].ret);
                match reply {
                    Reply::Transport(m) => r matches Err(ProxyError::TransportFailure { message }) && message@ == m@,
                    Reply::Status(m) => r matches Err(ProxyError::RemoteStatusFailure { message }) && message@ == m@,
                    Reply::Absent => r matches Ok(v) && v@ == default_of(slot),
                    Reply::Undecodable(m) => r matches Err(ProxyError::ResultDecodeFailure { operation, reason })
                        && operation@ == self@.0.ops[op as int].name && reason@ == m@,
                    Reply::Decoded(rec) => if has_type(rec.value@, slot) {
                        r matches Ok(v) && v@ == rec.value@
                    } else {
                        r matches Err(ProxyError::ResultDecodeFailure { operation, reason: _ })
                            && operation@ == self@.0.ops[op as int].name
                    },
                }
            }),
    {
        let o = &self.iface.operations[op];
        assert(self@.0.ops[op as int] == o@);
        let slot = match o.ret {
            Some(t) => t,
            None => TypeDesc::Unit,
        };
        match reply {
            Reply::Transport(message) => Err(ProxyError::TransportFailure { message }),
            Reply::Status(message) => Err(ProxyError::RemoteStatusFailure { message }),
            Reply::Absent => Ok(Value::default_of(slot)),
            Reply::Undecodable(reason) => Err(ProxyError::ResultDecodeFailure { operation: o.name.clone(), reason }),
            Reply::Decoded(rec) => {
                if rec.value.has_type(slot) {
                    Ok(rec.unwrap())
                } else {
                    Err(
                        ProxyError::ResultDecodeFailure {
                            operation: o.name.clone(),
                            reason: String::from_str("result of another type"),
                        },
                    )
                }
            },
        }
    }
}

} // verus!

//! The server-side dispatcher: routes an invocation by operation name to
//! an implementation, with its argument and result records.
use crate::model::{
    model_of, op_names, pairwise_distinct, GenerationError, Interface, InterfaceModel, Operation,
    OperationModel,
};
use crate::records::{
    bind_args, bind_spec, default_args, defaults_of, has_type, lemma_args_round_trip, opt_view,
    record_of, slot_of, values_view, well_typed, wrapped, ArgsRecord, ResultRecord, Value,
    ValueModel,
};
use vstd::prelude::*;

verus! {

/// The status an invocation failure is reported under.
#[derive(Clone, Copy, Debug, PartialEq, Eq, Structural)]
pub enum StatusCode {
    Unimplemented,
    Internal,
}

/// A failure of one invocation; none of them stops the dispatcher.
pub enum DispatchError {
    /// No operation has the invoked name.
    UnknownOperation { method: String },
    /// The payload could not be read as the operation's argument record.
    ArgumentDecodeFailure { operation: String, reason: String },
    /// The outcome could not be put in the operation's result record.
    ResultEncodeFailure { operation: String, reason: String },
    /// The implementation itself failed.
    ImplementationFailure { operation: String, message: String },
}

impl DispatchError {
    pub open spec fn status_spec(&self) -> StatusCode {
        if self is UnknownOperation {
            StatusCode::Unimplemented
        } else {
            StatusCode::Internal
        }
    }

    /// The status this failure is reported under.
    pub fn status(&self) -> (r: StatusCode)
        ensures
            r == self.status_spec(),
    {
        match self {
            DispatchError::UnknownOperation { .. } => StatusCode::Unimplemented,
            _ => StatusCode::Internal,
        }
    }
}

/// The auxiliary capabilities that the wrapped implementation offers.
pub struct Capabilities {
    pub events: bool,
    pub bindings: bool,
}

/// A call of the implementation: operation index and positional arguments.
pub struct Call {
    pub op: usize,
    pub args: Vec<Value>,
}

/// An implementation that a dispatcher forwards calls to: operation `op`
/// of the interface, with its positional arguments, giving its return
/// value (if any) or its own failure.
pub trait Service {
    fn call(&self, op: usize, args: Vec<Value>) -> Result<Option<Value>, String>;
}

/// The index of the operation named `method`, if any.
pub open spec fn op_index(ops: Seq<OperationModel>, method: Seq<char>) -> Option<int> {
    if exists|k: int| 0 <= k < ops.len() && (#[trigger] ops[k]).name == method {
        Some(choose|k: int| 0 <= k < ops.len() && (#[trigger] ops[k]).name == method)
    } else {
        None
    }
}

/// A payload as it reaches the dispatcher: absent, undecodable, or the
/// decoded argument record.
pub open spec fn payload_view(p: Option<Result<ArgsRecord, String>>) -> Option<Option<Seq<(Seq<char>, ValueModel)>>> {
    match p {
        None => None,
        Some(Err(_)) => Some(None),
        Some(Ok(rec)) => Some(Some(rec@)),
    }
}

/// What a dispatcher makes of an invocation before calling the
/// implementation.
pub ghost enum Prepared {
    Unknown,
    DecodeFailure,
    Ready(int, Seq<ValueModel>),
}

/// The arguments that the payload gives operation `op`: the defaults of
/// its parameters where the payload is absent.
pub open spec fn arguments_of(op: OperationModel, payload: Option<Option<Seq<(Seq<char>, ValueModel)>>>) -> Option<Seq<ValueModel>> {
    match payload {
        None => Some(defaults_of(op.params)),
        Some(None) => None,
        Some(Some(fields)) => bind_spec(op.params, fields),
    }
}

pub open spec fn prepare_spec(ops: Seq<OperationModel>, method: Seq<char>, payload: Option<Option<Seq<(Seq<char>, ValueModel)>>>) -> Prepared {
    match op_index(ops, method) {
        None => Prepared::Unknown,
        Some(k) => match arguments_of(ops[k], payload) {
            None => Prepared::DecodeFailure,
            Some(args) => Prepared::Ready(k, args),
        },
    }
}

/// Routes invocations of one interface's operations.
pub struct Dispatcher {
    iface: Interface,
}

impl View for Dispatcher {
    type V = InterfaceModel;

    closed spec fn view(&self) -> InterfaceModel {
        self.iface@
    }
}

impl Dispatcher {
    /// The dispatcher of `iface`, for an implementation with `caps`: both
    /// auxiliary capabilities are required.
    pub fn new(iface: Interface, caps: Capabilities) -> (r: Result<Dispatcher, GenerationError>)
        requires
            iface@.wf(),
        ensures
            r is Ok <==> caps.events && caps.bindings,
            r matches Ok(d) ==> d@ == iface@ && d.wf(),
            r is Err ==> (r matches Err(GenerationError::MissingCapability { interface, capability: _ })
                && interface@ == iface@.name),
    {
        if !caps.events {
            return Err(
                GenerationError::MissingCapability {
                    interface: iface.name.clone(),
                    capability: String::from_str("Events"),
                },
            );
        }
        if !caps.bindings {
            return Err(
                GenerationError::MissingCapability {
                    interface: iface.name.clone(),
                    capability: String::from_str("Bindings"),
                },
            );
        }
        Ok(Dispatcher { iface })
    }

    /// Validates the interface declared by `name`, its callable
    /// `operations` and the names of its other members, then builds its
    /// dispatcher as `new` does.
    pub fn build(name: String, operations: Vec<Operation>, other_members: Vec<String>, caps: Capabilities) -> (r: Result<
        Dispatcher,
        GenerationError,
    >)
        ensures
            other_members.len() > 0 ==> (r matches Err(
                GenerationError::UnsupportedOperationShape { interface, member },
            ) && interface@ == name@ && member@ == other_members[0]@),
            other_members.len() == 0 && !model_of(name@, operations@).wf() ==> (r matches Err(
                GenerationError::NameCollision { interface, name: _ },
            ) && interface@ == name@),
            other_members.len() == 0 && model_of(name@, operations@).wf() ==> {
                &&& (r is Ok <==> caps.events && caps.bindings)
                &&& r is Err ==> (r matches Err(GenerationError::MissingCapability { interface, capability: _ })
                    && interface@ == name@)
                &&& r matches Ok(d) ==> d@ == model_of(name@, operations@) && d.wf()
            },
    {
        let iface = match Interface::new(name, operations, other_members) {
            Ok(i) => i,
            Err(e) => return Err(e),
        };
        Dispatcher::new(iface, caps)
    }

    pub closed spec fn wf(&self) -> bool {
        self.iface@.wf()
    }

    /// The index of the operation named `method`.
    pub fn route(&self, method: &str) -> (r: Result<usize, DispatchError>)
        requires
            self.wf(),
        ensures
            op_index(self@.ops, method@) is Some <==> r is Ok,
            r matches Ok(k) ==> k < self@.ops.len() && self@.ops[k as int].name == method@
                && op_index(self@.ops, method@) == Some(k as int),
            r is Err ==> (r matches Err(DispatchError::UnknownOperation { method: m }) && m@ == method@),
    {
        let n = self.iface.operations.len();
        let ghost ops = self@.ops;
        let target = String::from_str(method);
        for k in 0..n
            invariant
                n == self.iface.operations.len(),
                ops == self@.ops,
                ops == self.iface@.ops,
                self.iface@.wf(),
                target@ == method@,
                forall|m: int| 0 <= m < k ==> (#[trigger] ops[m]).name != method@,
        {
            if self.iface.operations[k].name == target {
                assert(ops[k as int].name == method@);
                proof {
                    let c = choose|c: int| 0 <= c < ops.len() && (#[trigger] ops[c]).name == method@;
                    let names = crate::model::op_names(ops);
                    assert(names[c] == ops[c].name);
                    assert(names[k as int] == ops[k as int].name);
                    assert(crate::model::pairwise_distinct(names));
                    assert(c == k);
                }
                return Ok(k);
            }
        }
        Err(DispatchError::UnknownOperation { method: target })
    }

    /// Routes an invocation and reads its arguments: from the decoded
    /// payload, or the defaults of the operation's parameters where the
    /// payload is absent.
    pub fn prepare(&self, method: &str, payload: Option<Result<ArgsRecord, String>>) -> (r: Result<Call, DispatchError>)
        requires
            self.wf(),
        ensures
            match prepare_spec(self@.ops, method@, payload_view(payload)) {
                Prepared::Unknown => r matches Err(DispatchError::UnknownOperation { method: m }) && m@ == method@,
                Prepared::DecodeFailure => r matches Err(DispatchError::ArgumentDecodeFailure { operation, reason: _ })
                    && operation@ == method@,
                Prepared::Ready(k, args) => r matches Ok(c) && c.op == k && values_view(c.args@) == args,
            },
            op_index(self@.ops, method@) is Some ==> (payload matches Some(Err(m)) ==> (r matches Err(
                DispatchError::ArgumentDecodeFailure { operation: _, reason },
            ) && reason@ == m@)),
    {
        let k = match self.route(method) {
            Ok(k) => k,
            Err(e) => return Err(e),
        };
        let op = &self.iface.operations[k];
        let ghost pv = payload_view(payload);
        assert(self@.ops[k as int] == op@);
        assert(op_index(self@.ops, method@) == Some(k as int));
        assert(op@.name == method@);
        match payload {
            None => {
                let args = default_args(op);
                assert(arguments_of(op@, pv) == Some(defaults_of(op@.params)));
                Ok(Call { op: k, args })
            },
            Some(Err(reason)) => {
                assert(arguments_of(op@, pv) is None);
                Err(DispatchError::ArgumentDecodeFailure { operation: op.name.clone(), reason })
            },
            Some(Ok(rec)) => {
                assert(pv == Some(Some(rec@)));
                match bind_args(op, &rec) {
                    Some(args) => Ok(Call { op: k, args }),
                    None => Err(
                        DispatchError::ArgumentDecodeFailure {
                            operation: op.name.clone(),
                            reason: String::from_str("missing or mistyped field"),
                        },
                    ),
                }
            },
        }
    }

    /// Puts the implementation's outcome for operation `op` in its result
    /// record.
    pub fn complete(&self, op: usize, outcome: Result<Option<Value>, String>) -> (r: Result<ResultRecord, DispatchError>)
        requires
            self.wf(),
            op < self@.ops.len(),
        ensures
            match outcome {
                Err(msg) => r matches Err(DispatchError::ImplementationFailure { operation, message })
                    && operation@ == self@.ops[op as int].name && message@ == msg@,
                Ok(v) => if has_type(wrapped(opt_view(v)), slot_of(self@.ops[op as int].ret)) {
                    r matches Ok(rec) && rec.value@ == wrapped(opt_view(v))
                } else {
                    r matches Err(DispatchError::ResultEncodeFailure { operation, reason: _ })
                        && operation@ == self@.ops[op as int].name
                },
            },
    {
        let o = &self.iface.operations[op];
        assert(self@.ops[op as int] == o@);
        match outcome {
            Err(message) => Err(DispatchError::ImplementationFailure { operation: o.name.clone(), message }),
            Ok(v) => {
                let rec = ResultRecord::wrap(v);
                let slot = match o.ret {
                    Some(t) => t,
                    None => crate::model::TypeDesc::Unit,
                };
                if rec.value.has_type(slot) {
                    Ok(rec)
                } else {
                    Err(
                        DispatchError::ResultEncodeFailure {
                            operation: o.name.clone(),
                            reason: String::from_str("return value does not match the declared type"),
                        },
                    )
                }
            },
        }
    }

    /// Invokes the operation named `method` of `service` with the payload's
    /// arguments, and gives back its result record. The implementation is
    /// called only where the invocation was prepared.
    pub fn invoke<S: Service>(&self, service: &S, method: &str, payload: Option<Result<ArgsRecord, String>>) -> (r: Result<ResultRecord, DispatchError>)
        requires
            self.wf(),
        ensures
            op_index(self@.ops, method@) is None ==> (r matches Err(DispatchError::UnknownOperation { method: m })
                && m@ == method@),
            prepare_spec(self@.ops, method@, payload_view(payload)) is DecodeFailure ==> (r matches Err(
                DispatchError::ArgumentDecodeFailure { .. },
            )),
            prepare_spec(self@.ops, method@, payload_view(payload)) is Ready ==> (r is Ok || r matches Err(
                DispatchError::ImplementationFailure { .. },
            ) || r matches Err(DispatchError::ResultEncodeFailure { .. })),
    {
        let call = match self.prepare(method, payload) {
            Ok(c) => c,
            Err(e) => return Err(e),
        };
        let op = call.op;
        let outcome = service.call(op, call.args);
        self.complete(op, outcome)
    }
}

/// Whether a payload counts as absent: none at all, or present and empty.
pub fn payload_is_absent(payload: &Option<Vec<u8>>) -> (r: bool)
    ensures
        r == (payload is None || payload.unwrap()@.len() == 0),
{
    match payload {
        None => true,
        Some(b) => b.len() == 0,
    }
}

proof fn lemma_op_index(iface: InterfaceModel, k: int)
    requires
        iface.wf(),
        0 <= k < iface.ops.len(),
    ensures
        op_index(iface.ops, iface.ops[k].name) == Some(k),
{
    let ops = iface.ops;
    let c = choose|c: int| 0 <= c < ops.len() && (#[trigger] ops[c]).name == ops[k].name;
    assert(op_names(ops)[c] == ops[c].name);
    assert(op_names(ops)[k] == ops[k].name);
    assert(pairwise_distinct(op_names(ops)));
}

/// Invoking a known operation with the argument record built from
/// well-typed arguments calls that operation once, with exactly those
/// arguments.
pub proof fn lemma_invoke_known(iface: InterfaceModel, k: int, args: Seq<ValueModel>)
    requires
        iface.wf(),
        0 <= k < iface.ops.len(),
        well_typed(iface.ops[k].params, args),
    ensures
        prepare_spec(iface.ops, iface.ops[k].name, Some(Some(record_of(iface.ops[k].params, args))))
            == Prepared::Ready(k, args),
{
    lemma_op_index(iface, k);
    assert(pairwise_distinct(crate::model::param_names(iface.ops[k].params)));
    lemma_args_round_trip(iface.ops[k].params, args);
}

/// Invoking a known operation without a payload calls it with the default
/// argument record; for an operation without parameters, with no
/// arguments at all.
pub proof fn lemma_invoke_absent_payload(iface: InterfaceModel, k: int)
    requires
        iface.wf(),
        0 <= k < iface.ops.len(),
    ensures
        prepare_spec(iface.ops, iface.ops[k].name, None) == Prepared::Ready(k, defaults_of(iface.ops[k].params)),
        iface.ops[k].params.len() == 0 ==> prepare_spec(iface.ops, iface.ops[k].name, None)
            == Prepared::Ready(k, Seq::<ValueModel>::empty()),
{
    lemma_op_index(iface, k);
    assert(iface.ops[k].params.len() == 0 ==> defaults_of(iface.ops[k].params) =~= Seq::<ValueModel>::empty());
}

/// An invocation of a name that no operation has fails as unknown, whatever
/// the payload.
pub proof fn lemma_invoke_unknown(iface: InterfaceModel, method: Seq<char>, payload: Option<Option<Seq<(Seq<char>, ValueModel)>>>)
    requires
        forall|k: int| 0 <= k < iface.ops.len() ==> (#[trigger] iface.ops[k]).name != method,
    ensures
        prepare_spec(iface.ops, method, payload) == Prepared::Unknown,
{
}

} // verus!

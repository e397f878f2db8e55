//! The generated unit of an interface: every artifact definition, built
//! from the interface and its synthesized names.
use crate::dispatch::Capabilities;
use crate::model::{
    model_of, type_names, GenerationError, Interface, InterfaceModel, Operation, Parameter, TypeDesc,
};
use crate::naming::{
    dispatcher_suffix, mock_suffix, proxy_suffix, registrar_name, registrar_prefix,
    synthesize_name, Role,
};
use crate::records::{
    args_record_def, copy_parameters, result_record_def, slot_of, ArgsRecordDef, ResultRecordDef,
};
use vstd::prelude::*;

verus! {

/// A proxy method: the operation's name and parameters, its result widened
/// to carry a failure besides a value of `ok_type`.
pub struct ProxyMethodDef {
    pub name: String,
    pub params: Vec<Parameter>,
    pub ok_type: TypeDesc,
}

/// The proxy type and its methods, one per operation.
pub struct ProxyDef {
    pub name: String,
    pub methods: Vec<ProxyMethodDef>,
}

/// The dispatcher type and the operation names it routes, in order.
pub struct DispatcherDef {
    pub name: String,
    pub routes: Vec<String>,
}

/// One mock method: the expectation registrar of an operation, the
/// operation's name and parameters, and its result widened to carry a
/// failure besides a value of `ok_type`.
pub struct MockMethodDef {
    pub registrar: String,
    pub operation: String,
    pub params: Vec<Parameter>,
    pub ok_type: TypeDesc,
}

/// The mock type and its methods, one per operation.
pub struct MockDef {
    pub name: String,
    pub methods: Vec<MockMethodDef>,
}

/// Everything generated for one interface.
pub struct GeneratedUnit {
    pub args: Vec<ArgsRecordDef>,
    pub results: Vec<ResultRecordDef>,
    pub dispatcher: DispatcherDef,
    pub proxy: ProxyDef,
    pub mock: Option<MockDef>,
}

/// `u` holds every artifact of `iface`, the mock only where `with_mock`
/// asks for it.
pub open spec fn generated(u: GeneratedUnit, iface: InterfaceModel, with_mock: bool) -> bool {
    let ops = iface.ops;
    &&& u.args.len() == ops.len()
    &&& u.results.len() == ops.len()
    &&& forall|k: int| 0 <= k < ops.len() ==> {
        &&& (#[trigger] u.args[k]).name@ == crate::naming::spec_ident(iface.name, ops[k].name, Role::ArgsRecord).0
        &&& u.args[k].fields@.map_values(|p: Parameter| p@) == ops[k].params
    }
    &&& forall|k: int| 0 <= k < ops.len() ==> {
        &&& (#[trigger] u.results[k]).name@ == crate::naming::spec_ident(iface.name, ops[k].name, Role::ResultRecord).0
        &&& u.results[k].slot == slot_of(ops[k].ret)
    }
    &&& u.dispatcher.name@ == iface.name + dispatcher_suffix()
    &&& u.dispatcher.routes.len() == ops.len()
    &&& forall|k: int| 0 <= k < ops.len() ==> (#[trigger] u.dispatcher.routes[k])@ == ops[k].name
    &&& u.proxy.name@ == iface.name + proxy_suffix()
    &&& u.proxy.methods.len() == ops.len()
    &&& forall|k: int| 0 <= k < ops.len() ==> {
        &&& (#[trigger] u.proxy.methods[k]).name@ == ops[k].name
        &&& u.proxy.methods[k].params@.map_values(|p: Parameter| p@) == ops[k].params
        &&& u.proxy.methods[k].ok_type == slot_of(ops[k].ret)
    }
    &&& with_mock <==> u.mock is Some
    &&& u.mock matches Some(m) ==> {
        &&& m.name@ == iface.name + mock_suffix()
        &&& m.methods.len() == ops.len()
        &&& forall|k: int| 0 <= k < ops.len() ==> {
            &&& (#[trigger] m.methods[k]).registrar@ == registrar_prefix() + ops[k].name
            &&& m.methods[k].operation@ == ops[k].name
            &&& m.methods[k].params@.map_values(|p: Parameter| p@) == ops[k].params
            &&& m.methods[k].ok_type == slot_of(ops[k].ret)
        }
        &&& forall|k: int| 0 <= k < ops.len() ==> (#[trigger] m.methods[k]).registrar@ != m.name@
        &&& forall|k: int, j: int| 0 <= k < ops.len() && 0 <= j < ops.len() ==> {
            &&& (#[trigger] m.methods[k]).registrar@ != (#[trigger] u.args[j]).name@
            &&& m.methods[k].registrar@ != u.results[j].name@
        }
    }
}

/// Generates the artifacts of `iface` for an implementation with `caps`;
/// the mock only where `with_mock` asks for it. A missing capability
/// aborts generation.
#[verifier::rlimit(30)]
pub fn generate(iface: &Interface, caps: Capabilities, with_mock: bool) -> (r: Result<GeneratedUnit, GenerationError>)
    requires
        iface@.wf(),
    ensures
        r is Ok <==> caps.events && caps.bindings,
        r is Err ==> (r matches Err(GenerationError::MissingCapability { interface, capability: _ })
            && interface@ == iface@.name),
        r matches Ok(u) ==> generated(u, iface@, with_mock),
{
    if !caps.events {
        return Err(
            GenerationError::MissingCapability {
                interface: iface.name.clone(),
                capability: String::from_str("Events"),
            },
        );
    }
    if !caps.bindings {
        return Err(
            GenerationError::MissingCapability {
                interface: iface.name.clone(),
                capability: String::from_str("Bindings"),
            },
        );
    }
    let ghost ops = iface@.ops;
    let n = iface.operations.len();
    let mut args: Vec<ArgsRecordDef> = Vec::new();
    let mut results: Vec<ResultRecordDef> = Vec::new();
    let mut routes: Vec<String> = Vec::new();
    let mut methods: Vec<ProxyMethodDef> = Vec::new();
    let mut mocks: Vec<MockMethodDef> = Vec::new();
    for k in 0..n
        invariant
            n == iface.operations.len(),
            ops == iface@.ops,
            args.len() == k,
            results.len() == k,
            routes.len() == k,
            methods.len() == k,
            mocks.len() == k,
            forall|q: int| 0 <= q < k ==> {
                &&& (#[trigger] args[q]).name@ == crate::naming::spec_ident(iface@.name, ops[q].name, Role::ArgsRecord).0
                &&& args[q].fields@.map_values(|p: Parameter| p@) == ops[q].params
            },
            forall|q: int| 0 <= q < k ==> {
                &&& (#[trigger] results[q]).name@ == crate::naming::spec_ident(iface@.name, ops[q].name, Role::ResultRecord).0
                &&& results[q].slot == slot_of(ops[q].ret)
            },
            forall|q: int| 0 <= q < k ==> (#[trigger] routes[q])@ == ops[q].name,
            forall|q: int| 0 <= q < k ==> {
                &&& (#[trigger] methods[q]).name@ == ops[q].name
                &&& methods[q].params@.map_values(|p: Parameter| p@) == ops[q].params
                &&& methods[q].ok_type == slot_of(ops[q].ret)
            },
            forall|q: int| 0 <= q < k ==> {
                &&& (#[trigger] mocks[q]).registrar@ == registrar_prefix() + ops[q].name
                &&& mocks[q].operation@ == ops[q].name
                &&& mocks[q].params@.map_values(|p: Parameter| p@) == ops[q].params
                &&& mocks[q].ok_type == slot_of(ops[q].ret)
            },
    {
        let op = &iface.operations[k];
        assert(ops[k as int] == op@);
        args.push(args_record_def(iface, k));
        let res = result_record_def(iface, k);
        let ok_type = res.slot;
        results.push(res);
        routes.push(op.name.clone());
        methods.push(ProxyMethodDef { name: op.name.clone(), params: copy_parameters(&op.params), ok_type });
        mocks.push(
            MockMethodDef {
                registrar: registrar_name(op.name.as_str()),
                operation: op.name.clone(),
                params: copy_parameters(&op.params),
                ok_type,
            },
        );
    }
    let dispatcher = DispatcherDef { name: synthesize_name(iface.name.as_str(), "", Role::Dispatcher).owner, routes };
    let proxy = ProxyDef { name: synthesize_name(iface.name.as_str(), "", Role::Proxy).owner, methods };
    let mock_name = synthesize_name(iface.name.as_str(), "", Role::Mock).owner;
    proof {
        let tn = type_names(iface@.name, ops);
        assert forall|k: int| 0 <= k < n implies (#[trigger] mocks[k]).registrar@ != mock_name@ by {
            assert(tn[2 * n as int] == mock_name@);
        }
        assert forall|k: int, j: int| 0 <= k < n && 0 <= j < n implies {
            &&& (#[trigger] mocks[k]).registrar@ != (#[trigger] args[j]).name@
            &&& mocks[k].registrar@ != results[j].name@
        } by {
            assert(tn[2 * j] == args[j].name@);
            assert(tn[2 * j + 1] == results[j].name@);
        }
    }
    let mock = if with_mock {
        Some(MockDef { name: mock_name, methods: mocks })
    } else {
        None
    };
    let u = GeneratedUnit { args, results, dispatcher, proxy, mock };
    assert(generated(u, iface@, with_mock));
    Ok(u)
}

/// Validates the interface declared by `name`, its callable `operations`
/// and the names of its other members, then generates its artifacts as
/// `generate` does.
pub fn generate_interface(
    name: String,
    operations: Vec<Operation>,
    other_members: Vec<String>,
    caps: Capabilities,
    with_mock: bool,
) -> (r: Result<GeneratedUnit, GenerationError>)
    ensures
        other_members.len() > 0 ==> (r matches Err(
            GenerationError::UnsupportedOperationShape { interface, member },
        ) && interface@ == name@ && member@ == other_members[0]@),
        other_members.len() == 0 && !model_of(name@, operations@).wf() ==> (r matches Err(
            GenerationError::NameCollision { interface, name: _ },
        ) && interface@ == name@),
        other_members.len() == 0 && model_of(name@, operations@).wf() ==> {
            &&& (r is Ok <==> caps.events && caps.bindings)
            &&& r is Err ==> (r matches Err(GenerationError::MissingCapability { interface, capability: _ })
                && interface@ == name@)
            &&& r matches Ok(u) ==> generated(u, model_of(name@, operations@), with_mock)
        },
{
    let iface = match Interface::new(name, operations, other_members) {
        Ok(i) => i,
        Err(e) => return Err(e),
    };
    generate(&iface, caps, with_mock)
}

} // verus!

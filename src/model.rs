//! The in-memory model of one service interface, and its validation.
use crate::naming::{
    args_suffix, camel_of, mock_suffix, registrar_name, registrar_prefix, result_suffix,
    synthesize_name, to_camel, Role,
};
use vstd::prelude::*;

verus! {

/// The value types an operation may take or return.
#[derive(Clone, Copy, Debug, PartialEq, Eq, Structural)]
pub enum TypeDesc {
    Unit,
    Bool,
    Int,
    Str,
}

/// One named, typed parameter of an operation.
pub struct Parameter {
    pub name: String,
    pub ty: TypeDesc,
}

impl View for Parameter {
    type V = (Seq<char>, TypeDesc);

    open spec fn view(&self) -> (Seq<char>, TypeDesc) {
        (self.name@, self.ty)
    }
}

/// One callable member of an interface.
pub struct Operation {
    pub name: String,
    pub params: Vec<Parameter>,
    pub ret: Option<TypeDesc>,
}

pub ghost struct OperationModel {
    pub name: Seq<char>,
    pub params: Seq<(Seq<char>, TypeDesc)>,
    pub ret: Option<TypeDesc>,
}

impl View for Operation {
    type V = OperationModel;

    open spec fn view(&self) -> OperationModel {
        OperationModel {
            name: self.name@,
            params: self.params@.map_values(|p: Parameter| p@),
            ret: self.ret,
        }
    }
}

/// A named, ordered set of operations.
pub struct Interface {
    pub name: String,
    pub operations: Vec<Operation>,
}

pub ghost struct InterfaceModel {
    pub name: Seq<char>,
    pub ops: Seq<OperationModel>,
}

impl View for Interface {
    type V = InterfaceModel;

    open spec fn view(&self) -> InterfaceModel {
        InterfaceModel { name: self.name@, ops: self.operations@.map_values(|o: Operation| o@) }
    }
}

/// No two entries of `s` are equal.
pub open spec fn pairwise_distinct(s: Seq<Seq<char>>) -> bool {
    forall|i: int, j: int|
        0 <= i < s.len() && 0 <= j < s.len() && i != j ==> #[trigger] s[i] != #[trigger] s[j]
}

pub open spec fn param_names(ps: Seq<(Seq<char>, TypeDesc)>) -> Seq<Seq<char>> {
    ps.map_values(|p: (Seq<char>, TypeDesc)| p.0)
}

pub open spec fn op_names(ops: Seq<OperationModel>) -> Seq<Seq<char>> {
    ops.map_values(|o: OperationModel| o.name)
}

pub open spec fn camel_names(ops: Seq<OperationModel>) -> Seq<Seq<char>> {
    ops.map_values(|o: OperationModel| camel_of(o.name))
}

/// No operation is named like the expectation registrar of another.
pub open spec fn no_registrar_clash(ops: Seq<OperationModel>) -> bool {
    forall|i: int, j: int|
        0 <= i < ops.len() && 0 <= j < ops.len() ==> #[trigger] ops[i].name != registrar_prefix()
            + #[trigger] ops[j].name
}

/// The type names an expectation registrar could be confused with: the
/// mock type and every argument and result record type.
pub open spec fn type_names(name: Seq<char>, ops: Seq<OperationModel>) -> Seq<Seq<char>> {
    Seq::new(2 * ops.len() + 1, |k: int|
        if k == 2 * ops.len() {
            name + mock_suffix()
        } else if k % 2 == 0 {
            name + camel_of(ops[k / 2].name) + args_suffix()
        } else {
            name + camel_of(ops[k / 2].name) + result_suffix()
        }
    )
}

/// No registrar name is also the name of the mock type or of a record type.
pub open spec fn registrars_apart(name: Seq<char>, ops: Seq<OperationModel>) -> bool {
    forall|i: int, k: int|
        0 <= i < ops.len() && 0 <= k < type_names(name, ops).len() ==> registrar_prefix()
            + #[trigger] ops[i].name != #[trigger] type_names(name, ops)[k]
}

impl InterfaceModel {
    /// The interface's operations, and the names synthesized from them, do
    /// not collide.
    pub open spec fn wf(self) -> bool {
        &&& pairwise_distinct(op_names(self.ops))
        &&& pairwise_distinct(camel_names(self.ops))
        &&& no_registrar_clash(self.ops)
        &&& registrars_apart(self.name, self.ops)
        &&& forall|i: int| 0 <= i < self.ops.len() ==> pairwise_distinct(param_names(#[trigger] self.ops[i].params))
    }
}

/// Why an interface cannot be generated.
pub enum GenerationError {
    /// A declared member is not a plain callable signature.
    UnsupportedOperationShape { interface: String, member: String },
    /// The wrapped type lacks a required auxiliary capability.
    MissingCapability { interface: String, capability: String },
    /// Two synthesized names, or two names of one scope, coincide.
    NameCollision { interface: String, name: String },
}

pub open spec fn string_views(names: Seq<String>) -> Seq<Seq<char>> {
    names.map_values(|s: String| s@)
}

/// Whether some entry of `names` equals `x`.
pub fn contains_name(names: &Vec<String>, x: &String) -> (r: bool)
    ensures
        r == exists|j: int| 0 <= j < names.len() && #[trigger] names[j]@ == x@,
{
    for j in 0..names.len()
        invariant
            forall|m: int| 0 <= m < j ==> #[trigger] names[m]@ != x@,
    {
        if names[j] == *x {
            return true;
        }
    }
    false
}

/// The first index of `names` whose entry occurs again elsewhere in `names`.
pub fn find_duplicate(names: &Vec<String>) -> (r: Option<usize>)
    ensures
        r is None <==> pairwise_distinct(string_views(names@)),
        r matches Some(k) ==> k < names.len() && exists|j: int|
            0 <= j < names.len() && j != k && names[j]@ == #[trigger] names[k as int]@,
{
    let ghost v = string_views(names@);
    let n = names.len();
    for i in 0..n
        invariant
            n == names.len(),
            v == string_views(names@),
            forall|a: int, b: int| 0 <= a < i && 0 <= b < n && a != b ==> #[trigger] v[a] != #[trigger] v[b],
    {
        for j in 0..n
            invariant
                n == names.len(),
                v == string_views(names@),
                0 <= i < n,
                forall|a: int, b: int| 0 <= a < i && 0 <= b < n && a != b ==> #[trigger] v[a] != #[trigger] v[b],
                forall|b: int| 0 <= b < j && b != i ==> v[i as int] != #[trigger] v[b],
        {
            if i != j && names[i] == names[j] {
                assert(names[j as int]@ == names[i as int]@);
                assert(v[i as int] == v[j as int]);
                return Some(i);
            }
        }
    }
    assert forall|a: int, b: int| 0 <= a < n && 0 <= b < n && a != b implies #[trigger] v[a] != #[trigger] v[b] by {
        if a < b {
            assert(v[b] != v[a]);
        }
    }
    None
}

pub open spec fn model_of(name: Seq<char>, ops: Seq<Operation>) -> InterfaceModel {
    InterfaceModel { name, ops: ops.map_values(|o: Operation| o@) }
}

/// The names of the parameters of `op`, in order.
fn parameter_names(op: &Operation) -> (r: Vec<String>)
    ensures
        string_views(r@) == param_names(op@.params),
{
    let mut r: Vec<String> = Vec::new();
    for k in 0..op.params.len()
        invariant
            r@.len() == k,
            forall|m: int| 0 <= m < k ==> #[trigger] r[m]@ == op.params[m].name@,
    {
        r.push(op.params[k].name.clone());
    }
    assert(string_views(r@) =~= param_names(op@.params));
    r
}

impl Interface {
    /// Validates a declared interface: `operations` are its callable members
    /// and `other_members` the names of any members that are not callable.
    pub fn new(name: String, operations: Vec<Operation>, other_members: Vec<String>) -> (r: Result<
        Interface,
        GenerationError,
    >)
        ensures
            other_members.len() > 0 ==> (r matches Err(
                GenerationError::UnsupportedOperationShape { interface, member },
            ) && interface@ == name@ && member@ == other_members[0]@),
            other_members.len() == 0 ==> (r is Ok <==> model_of(name@, operations@).wf()),
            other_members.len() == 0 && r is Err ==> (r matches Err(
                GenerationError::NameCollision { interface, name: _ },
            ) && interface@ == name@),
            r matches Ok(i) ==> i@ == model_of(name@, operations@),
    {
        if other_members.len() > 0 {
            return Err(
                GenerationError::UnsupportedOperationShape {
                    interface: name.clone(),
                    member: other_members[0].clone(),
                },
            );
        }
        let ghost m = model_of(name@, operations@);
        let n = operations.len();
        let mut names: Vec<String> = Vec::new();
        let mut camels: Vec<String> = Vec::new();
        let mut regs: Vec<String> = Vec::new();
        for k in 0..n
            invariant
                n == operations.len(),
                m == model_of(name@, operations@),
                other_members.len() == 0,
                names@.len() == k,
                camels@.len() == k,
                regs@.len() == k,
                forall|q: int| 0 <= q < k ==> #[trigger] names[q]@ == m.ops[q].name,
                forall|q: int| 0 <= q < k ==> #[trigger] camels[q]@ == camel_of(m.ops[q].name),
                forall|q: int| 0 <= q < k ==> #[trigger] regs[q]@ == registrar_prefix() + m.ops[q].name,
        {
            let op = &operations[k];
            names.push(op.name.clone());
            camels.push(to_camel(op.name.as_str()));
            regs.push(registrar_name(op.name.as_str()));
        }
        assert(string_views(names@) =~= op_names(m.ops));
        assert(string_views(camels@) =~= camel_names(m.ops));
        if let Some(k) = find_duplicate(&names) {
            return Err(GenerationError::NameCollision { interface: name.clone(), name: names[k].clone() });
        }
        if let Some(k) = find_duplicate(&camels) {
            return Err(GenerationError::NameCollision { interface: name.clone(), name: names[k].clone() });
        }
        for i in 0..n
            invariant
                n == operations.len(),
                m == model_of(name@, operations@),
                other_members.len() == 0,
                names@.len() == n,
                regs@.len() == n,
                forall|q: int| 0 <= q < n ==> #[trigger] names[q]@ == m.ops[q].name,
                forall|q: int| 0 <= q < n ==> #[trigger] regs[q]@ == registrar_prefix() + m.ops[q].name,
                forall|a: int, b: int| 0 <= a < i && 0 <= b < n ==> #[trigger] m.ops[a].name != registrar_prefix() + #[trigger] m.ops[b].name,
        {
            for j in 0..n
                invariant
                    n == operations.len(),
                    m == model_of(name@, operations@),
                    other_members.len() == 0,
                    names@.len() == n,
                    regs@.len() == n,
                    0 <= i < n,
                    forall|q: int| 0 <= q < n ==> #[trigger] names[q]@ == m.ops[q].name,
                    forall|q: int| 0 <= q < n ==> #[trigger] regs[q]@ == registrar_prefix() + m.ops[q].name,
                    forall|a: int, b: int| 0 <= a < i && 0 <= b < n ==> #[trigger] m.ops[a].name != registrar_prefix() + #[trigger] m.ops[b].name,
                    forall|b: int| 0 <= b < j ==> m.ops[i as int].name != registrar_prefix() + #[trigger] m.ops[b].name,
            {
                if names[i] == regs[j] {
                    assert(names[i as int]@ == regs[j as int]@);
                    return Err(GenerationError::NameCollision { interface: name.clone(), name: names[i].clone() });
                }
            }
        }
        let mut types: Vec<String> = Vec::new();
        for k in 0..n
            invariant
                n == operations.len(),
                m == model_of(name@, operations@),
                types@.len() == 2 * k,
                forall|q: int| 0 <= q < 2 * k ==> #[trigger] types[q]@ == type_names(m.name, m.ops)[q],
        {
            let op = &operations[k];
            assert(m.ops[k as int] == op@);
            types.push(synthesize_name(name.as_str(), op.name.as_str(), Role::ArgsRecord).owner);
            types.push(synthesize_name(name.as_str(), op.name.as_str(), Role::ResultRecord).owner);
        }
        types.push(synthesize_name(name.as_str(), "", Role::Mock).owner);
        assert forall|q: int| 0 <= q < types.len() implies #[trigger] types[q]@ == type_names(m.name, m.ops)[q] by {}
        for i in 0..n
            invariant
                n == operations.len(),
                m == model_of(name@, operations@),
                other_members.len() == 0,
                regs@.len() == n,
                types@.len() == 2 * n + 1,
                forall|q: int| 0 <= q < n ==> #[trigger] regs[q]@ == registrar_prefix() + m.ops[q].name,
                forall|q: int| 0 <= q < types.len() ==> #[trigger] types[q]@ == type_names(m.name, m.ops)[q],
                forall|a: int, k: int| 0 <= a < i && 0 <= k < type_names(m.name, m.ops).len() ==> registrar_prefix()
                    + #[trigger] m.ops[a].name != #[trigger] type_names(m.name, m.ops)[k],
        {
            if contains_name(&types, &regs[i]) {
                assert(!registrars_apart(m.name, m.ops)) by {
                    let j = choose|j: int| 0 <= j < types.len() && #[trigger] types[j]@ == regs[i as int]@;
                    assert(registrar_prefix() + m.ops[i as int].name == type_names(m.name, m.ops)[j]);
                }
                return Err(GenerationError::NameCollision { interface: name.clone(), name: regs[i].clone() });
            }
            assert forall|k: int| 0 <= k < type_names(m.name, m.ops).len() implies registrar_prefix()
                + #[trigger] m.ops[i as int].name != #[trigger] type_names(m.name, m.ops)[k] by {
                assert(types[k]@ == type_names(m.name, m.ops)[k]);
            }
        }
        for i in 0..n
            invariant
                n == operations.len(),
                m == model_of(name@, operations@),
                other_members.len() == 0,
                forall|a: int| 0 <= a < i ==> pairwise_distinct(param_names(#[trigger] m.ops[a].params)),
        {
            let pn = parameter_names(&operations[i]);
            assert(m.ops[i as int] == operations[i as int]@);
            if let Some(k) = find_duplicate(&pn) {
                return Err(GenerationError::NameCollision { interface: name.clone(), name: pn[k].clone() });
            }
        }
        Ok(Interface { name, operations })
    }
}

} // verus!

//! Argument and result records: their definitions, generated per
//! operation, and the values that travel in them.
use crate::model::{param_names, pairwise_distinct, Interface, Operation, OperationModel, Parameter, TypeDesc};
use crate::naming::{spec_ident, synthesize_name, Role};
use vstd::prelude::*;

verus! {

/// A value passed to or returned from an operation.
pub enum Value {
    Unit,
    Bool(bool),
    Int(i64),
    Str(String),
}

pub ghost enum ValueModel {
    Unit,
    Bool(bool),
    Int(int),
    Str(Seq<char>),
}

impl View for Value {
    type V = ValueModel;

    open spec fn view(&self) -> ValueModel {
        match self {
            Value::Unit => ValueModel::Unit,
            Value::Bool(b) => ValueModel::Bool(*b),
            Value::Int(i) => ValueModel::Int(*i as int),
            Value::Str(s) => ValueModel::Str(s@),
        }
    }
}

pub open spec fn values_view(s: Seq<Value>) -> Seq<ValueModel> {
    s.map_values(|v: Value| v@)
}

/// `v` is a value of type `t`.
pub open spec fn has_type(v: ValueModel, t: TypeDesc) -> bool {
    match (v, t) {
        (ValueModel::Unit, TypeDesc::Unit) => true,
        (ValueModel::Bool(_), TypeDesc::Bool) => true,
        (ValueModel::Int(_), TypeDesc::Int) => true,
        (ValueModel::Str(_), TypeDesc::Str) => true,
        _ => false,
    }
}

/// The default value of type `t`.
pub open spec fn default_of(t: TypeDesc) -> ValueModel {
    match t {
        TypeDesc::Unit => ValueModel::Unit,
        TypeDesc::Bool => ValueModel::Bool(false),
        TypeDesc::Int => ValueModel::Int(0),
        TypeDesc::Str => ValueModel::Str(Seq::empty()),
    }
}

impl Value {
    /// The default value of type `t`.
    pub fn default_of(t: TypeDesc) -> (r: Value)
        ensures
            r@ == default_of(t),
    {
        match t {
            TypeDesc::Unit => Value::Unit,
            TypeDesc::Bool => Value::Bool(false),
            TypeDesc::Int => Value::Int(0),
            TypeDesc::Str => Value::Str(String::new()),
        }
    }

    pub fn duplicate(&self) -> (r: Value)
        ensures
            r@ == self@,
    {
        match self {
            Value::Unit => Value::Unit,
            Value::Bool(b) => Value::Bool(*b),
            Value::Int(i) => Value::Int(*i),
            Value::Str(s) => Value::Str(s.clone()),
        }
    }

    /// Whether this value is of type `t`.
    pub fn has_type(&self, t: TypeDesc) -> (r: bool)
        ensures
            r == has_type(self@, t),
    {
        match (self, t) {
            (Value::Unit, TypeDesc::Unit) => true,
            (Value::Bool(_), TypeDesc::Bool) => true,
            (Value::Int(_), TypeDesc::Int) => true,
            (Value::Str(_), TypeDesc::Str) => true,
            _ => false,
        }
    }
}

/// The definition of an operation's argument record: one field per
/// parameter, in declared order.
pub struct ArgsRecordDef {
    pub name: String,
    pub fields: Vec<Parameter>,
}

/// The definition of an operation's result record: a single slot holding
/// the return type, or the unit type when the operation returns nothing.
pub struct ResultRecordDef {
    pub name: String,
    pub slot: TypeDesc,
}

/// The type held by the result record of an operation returning `ret`.
pub open spec fn slot_of(ret: Option<TypeDesc>) -> TypeDesc {
    match ret {
        Some(t) => t,
        None => TypeDesc::Unit,
    }
}

pub fn copy_parameters(ps: &Vec<Parameter>) -> (r: Vec<Parameter>)
    ensures
        r@.map_values(|p: Parameter| p@) == ps@.map_values(|p: Parameter| p@),
{
    let mut r: Vec<Parameter> = Vec::new();
    for k in 0..ps.len()
        invariant
            r@.len() == k,
            forall|m: int| 0 <= m < k ==> #[trigger] r[m]@ == ps[m]@,
    {
        r.push(Parameter { name: ps[k].name.clone(), ty: ps[k].ty });
    }
    assert(r@.map_values(|p: Parameter| p@) =~= ps@.map_values(|p: Parameter| p@));
    r
}

/// The argument record definition of operation `k` of `iface`.
pub fn args_record_def(iface: &Interface, k: usize) -> (r: ArgsRecordDef)
    requires
        k < iface.operations.len(),
    ensures
        r.name@ == spec_ident(iface@.name, iface@.ops[k as int].name, Role::ArgsRecord).0,
        r.fields@.map_values(|p: Parameter| p@) == iface@.ops[k as int].params,
{
    let op = &iface.operations[k];
    let id = synthesize_name(iface.name.as_str(), op.name.as_str(), Role::ArgsRecord);
    ArgsRecordDef { name: id.owner, fields: copy_parameters(&op.params) }
}

/// The result record definition of operation `k` of `iface`.
pub fn result_record_def(iface: &Interface, k: usize) -> (r: ResultRecordDef)
    requires
        k < iface.operations.len(),
    ensures
        r.name@ == spec_ident(iface@.name, iface@.ops[k as int].name, Role::ResultRecord).0,
        r.slot == slot_of(iface@.ops[k as int].ret),
{
    let op = &iface.operations[k];
    let id = synthesize_name(iface.name.as_str(), op.name.as_str(), Role::ResultRecord);
    let slot = match op.ret {
        Some(t) => t,
        None => TypeDesc::Unit,
    };
    ResultRecordDef { name: id.owner, slot }
}

/// One named field of a record value.
pub struct Field {
    pub name: String,
    pub value: Value,
}

impl View for Field {
    type V = (Seq<char>, ValueModel);

    open spec fn view(&self) -> (Seq<char>, ValueModel) {
        (self.name@, self.value@)
    }
}

/// An argument record value: named fields, as a decoder hands them over.
pub struct ArgsRecord {
    pub fields: Vec<Field>,
}

impl View for ArgsRecord {
    type V = Seq<(Seq<char>, ValueModel)>;

    open spec fn view(&self) -> Seq<(Seq<char>, ValueModel)> {
        self.fields@.map_values(|f: Field| f@)
    }
}

/// The value of the first field of `fields` named `name`.
pub open spec fn lookup(fields: Seq<(Seq<char>, ValueModel)>, name: Seq<char>) -> Option<ValueModel>
    decreases fields.len(),
{
    if fields.len() == 0 {
        None
    } else if fields[0].0 == name {
        Some(fields[0].1)
    } else {
        lookup(fields.subrange(1, fields.len() as int), name)
    }
}

/// The arguments that a record gives the parameters `params`, in their
/// order: each is the field of the parameter's name, which must hold a
/// value of the parameter's type.
pub open spec fn bind_spec(params: Seq<(Seq<char>, TypeDesc)>, fields: Seq<(Seq<char>, ValueModel)>) -> Option<Seq<ValueModel>>
    decreases params.len(),
{
    if params.len() == 0 {
        Some(Seq::empty())
    } else {
        match bind_spec(params.drop_last(), fields) {
            None => None,
            Some(vs) => match lookup(fields, params.last().0) {
                Some(v) => if has_type(v, params.last().1) {
                    Some(vs.push(v))
                } else {
                    None
                },
                None => None,
            },
        }
    }
}

/// The record holding `vals` for the parameters `params`, field by field.
pub open spec fn record_of(params: Seq<(Seq<char>, TypeDesc)>, vals: Seq<ValueModel>) -> Seq<(Seq<char>, ValueModel)> {
    Seq::new(params.len(), |k: int| (params[k].0, vals[k]))
}

/// The default values of the parameters `params`.
pub open spec fn defaults_of(params: Seq<(Seq<char>, TypeDesc)>) -> Seq<ValueModel> {
    params.map_values(|p: (Seq<char>, TypeDesc)| default_of(p.1))
}

/// `vals` are arguments of the right number and types for `params`.
pub open spec fn well_typed(params: Seq<(Seq<char>, TypeDesc)>, vals: Seq<ValueModel>) -> bool {
    &&& vals.len() == params.len()
    &&& forall|k: int| 0 <= k < vals.len() ==> has_type(#[trigger] vals[k], params[k].1)
}

/// Whether `vals` are arguments of the right number and types for `op`.
pub fn args_well_typed(op: &Operation, vals: &Vec<Value>) -> (r: bool)
    ensures
        r == well_typed(op@.params, values_view(vals@)),
{
    if vals.len() != op.params.len() {
        return false;
    }
    for k in 0..vals.len()
        invariant
            vals.len() == op.params.len(),
            forall|m: int| 0 <= m < k ==> has_type(#[trigger] vals[m]@, op.params[m].ty),
    {
        if !vals[k].has_type(op.params[k].ty) {
            assert(!has_type(values_view(vals@)[k as int], op@.params[k as int].1));
            return false;
        }
    }
    assert forall|m: int| 0 <= m < vals.len() implies has_type(#[trigger] values_view(vals@)[m], op@.params[m].1) by {
        assert(has_type(vals[m]@, op.params[m].ty));
    }
    true
}

/// The value of the first field of `rec` named `name`.
pub fn find_field<'a>(rec: &'a ArgsRecord, name: &String) -> (r: Option<&'a Value>)
    ensures
        match lookup(rec@, name@) {
            Some(v) => r is Some && r.unwrap()@ == v,
            None => r is None,
        },
{
    let ghost s = rec@;
    let n = rec.fields.len();
    assert(s.subrange(0, n as int) =~= s);
    for i in 0..n
        invariant
            n == rec.fields.len(),
            s == rec@,
            lookup(s, name@) == lookup(s.subrange(i as int, n as int), name@),
    {
        let ghost t = s.subrange(i as int, n as int);
        assert(t[0] == s[i as int]);
        assert(t.subrange(1, t.len() as int) =~= s.subrange(i + 1, n as int));
        if rec.fields[i].name == *name {
            return Some(&rec.fields[i].value);
        }
    }
    assert(s.subrange(n as int, n as int).len() == 0);
    None
}

impl ArgsRecord {
    /// The record holding `args` for the parameters of `op`.
    pub fn build(op: &Operation, args: &Vec<Value>) -> (r: ArgsRecord)
        requires
            args.len() == op.params.len(),
        ensures
            r@ == record_of(op@.params, values_view(args@)),
    {
        let mut fields: Vec<Field> = Vec::new();
        for k in 0..args.len()
            invariant
                args.len() == op.params.len(),
                fields@.len() == k,
                forall|m: int| 0 <= m < k ==> (#[trigger] fields[m])@ == (op.params[m].name@, args[m]@),
        {
            fields.push(Field { name: op.params[k].name.clone(), value: args[k].duplicate() });
        }
        let r = ArgsRecord { fields };
        assert(r@ =~= record_of(op@.params, values_view(args@)));
        r
    }
}

/// The default argument values of `op`: one per parameter, each the
/// default of the parameter's type.
pub fn default_args(op: &Operation) -> (r: Vec<Value>)
    ensures
        values_view(r@) == defaults_of(op@.params),
{
    let mut r: Vec<Value> = Vec::new();
    for k in 0..op.params.len()
        invariant
            r@.len() == k,
            forall|m: int| 0 <= m < k ==> (#[trigger] r[m])@ == default_of(op.params[m].ty),
    {
        r.push(Value::default_of(op.params[k].ty));
    }
    assert(values_view(r@) =~= defaults_of(op@.params));
    r
}

/// The positional arguments that `rec` gives the parameters of `op`, or
/// `None` where a parameter's field is missing or holds a value of another
/// type.
pub fn bind_args(op: &Operation, rec: &ArgsRecord) -> (r: Option<Vec<Value>>)
    ensures
        match bind_spec(op@.params, rec@) {
            Some(vs) => r is Some && values_view(r.unwrap()@) == vs,
            None => r is None,
        },
{
    let ghost ps = op@.params;
    let mut out: Vec<Value> = Vec::new();
    let n = op.params.len();
    for k in 0..n
        invariant
            n == op.params.len(),
            ps == op@.params,
            bind_spec(ps.take(k as int), rec@) == Some(values_view(out@)),
    {
        let p = &op.params[k];
        assert(ps.take(k + 1).drop_last() =~= ps.take(k as int));
        assert(ps.take(k + 1).last() == ps[k as int]);
        match find_field(rec, &p.name) {
            Some(v) => {
                if v.has_type(p.ty) {
                    out.push(v.duplicate());
                    assert(values_view(out@) =~= values_view(out@).drop_last().push(v@));
                } else {
                    proof { lemma_bind_none_extends(ps, rec@, k as int + 1); }
                    return None;
                }
            },
            None => {
                proof { lemma_bind_none_extends(ps, rec@, k as int + 1); }
                return None;
            },
        }
    }
    assert(ps.take(n as int) =~= ps);
    Some(out)
}

proof fn lemma_bind_none_extends(ps: Seq<(Seq<char>, TypeDesc)>, fields: Seq<(Seq<char>, ValueModel)>, k: int)
    requires
        0 <= k <= ps.len(),
        bind_spec(ps.take(k), fields) is None,
    ensures
        bind_spec(ps, fields) is None,
    decreases ps.len() - k,
{
    if k < ps.len() {
        assert(ps.take(k + 1).drop_last() =~= ps.take(k));
        lemma_bind_none_extends(ps, fields, k + 1);
    } else {
        assert(ps.take(k) =~= ps);
    }
}

proof fn lemma_lookup_at(fields: Seq<(Seq<char>, ValueModel)>, name: Seq<char>, k: int)
    requires
        0 <= k < fields.len(),
        fields[k].0 == name,
        forall|m: int| 0 <= m < k ==> (#[trigger] fields[m]).0 != name,
    ensures
        lookup(fields, name) == Some(fields[k].1),
    decreases k,
{
    if k > 0 {
        let rest = fields.subrange(1, fields.len() as int);
        assert forall|m: int| 0 <= m < k - 1 implies (#[trigger] rest[m]).0 != name by {
            assert(rest[m] == fields[m + 1]);
        }
        assert(fields[0].0 != name);
        lemma_lookup_at(rest, name, k - 1);
    }
}

proof fn lemma_bind_record_prefix(params: Seq<(Seq<char>, TypeDesc)>, vals: Seq<ValueModel>, n: int)
    requires
        pairwise_distinct(param_names(params)),
        well_typed(params, vals),
        0 <= n <= params.len(),
    ensures
        bind_spec(params.take(n), record_of(params, vals)) == Some(vals.take(n)),
    decreases n,
{
    let fields = record_of(params, vals);
    if n == 0 {
        assert(vals.take(0) =~= Seq::<ValueModel>::empty());
    } else {
        lemma_bind_record_prefix(params, vals, n - 1);
        assert(params.take(n).drop_last() =~= params.take(n - 1));
        assert(params.take(n).last() == params[n - 1]);
        assert forall|m: int| 0 <= m < n - 1 implies (#[trigger] fields[m]).0 != params[n - 1].0 by {
            assert(param_names(params)[m] == params[m].0);
            assert(param_names(params)[n - 1] == params[n - 1].0);
        }
        lemma_lookup_at(fields, params[n - 1].0, n - 1);
        assert(has_type(vals[n - 1], params[n - 1].1));
        assert(vals.take(n - 1).push(vals[n - 1]) =~= vals.take(n));
    }
}

/// Reading back the argument record built from well-typed arguments gives
/// those arguments, in parameter order; with no parameters, the empty
/// record gives no arguments.
pub proof fn lemma_args_round_trip(params: Seq<(Seq<char>, TypeDesc)>, vals: Seq<ValueModel>)
    requires
        pairwise_distinct(param_names(params)),
        well_typed(params, vals),
    ensures
        bind_spec(params, record_of(params, vals)) == Some(vals),
{
    lemma_bind_record_prefix(params, vals, params.len() as int);
    assert(params.take(params.len() as int) =~= params);
    assert(vals.take(vals.len() as int) =~= vals);
}

/// What a result record holds for an operation that returned `ret`: the
/// value, or the unit marker when there is none.
pub open spec fn wrapped(ret: Option<ValueModel>) -> ValueModel {
    match ret {
        Some(v) => v,
        None => ValueModel::Unit,
    }
}

pub open spec fn opt_view(o: Option<Value>) -> Option<ValueModel> {
    match o {
        Some(v) => Some(v@),
        None => None,
    }
}

/// A result record value: the single slot of an operation's outcome.
pub struct ResultRecord {
    pub value: Value,
}

impl ResultRecord {
    /// The record of an operation's return value, the unit marker standing
    /// for no value.
    pub fn wrap(ret: Option<Value>) -> (r: ResultRecord)
        ensures
            r.value@ == wrapped(opt_view(ret)),
    {
        match ret {
            Some(v) => ResultRecord { value: v },
            None => ResultRecord { value: Value::Unit },
        }
    }

    /// The value in the record's slot.
    pub fn unwrap(self) -> (r: Value)
        ensures
            r@ == self.value@,
    {
        self.value
    }
}

/// Unwrapping the record of a return value gives that value back; the
/// record of no value gives the unit marker.
pub proof fn lemma_result_round_trip(ret: Option<ValueModel>)
    ensures
        ret matches Some(v) ==> wrapped(ret) == v,
        ret is None ==> wrapped(ret) == ValueModel::Unit,
{
}

} // verus!

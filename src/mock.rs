//! A scripted test double: expectations registered per operation, matched
//! in registration order, each with an optional call budget.
use crate::model::{Interface, InterfaceModel, OperationModel, TypeDesc};
use crate::records::{args_well_typed, has_type, slot_of, values_view, well_typed, Value, ValueModel};
use vstd::prelude::*;

verus! {

/// Which arguments an expectation accepts.
pub enum Matcher {
    Any,
    Exactly(Vec<Value>),
}

/// What a selected expectation does.
pub enum Behavior {
    Return(Value),
    Fail(String),
}

/// A registered expectation of calls of one operation.
pub struct Expectation {
    pub op: String,
    pub matcher: Matcher,
    pub behavior: Behavior,
    /// Calls left; `None` is unbounded.
    pub remaining: Option<u64>,
}

pub ghost enum BehaviorModel {
    Return(ValueModel),
    Fail(Seq<char>),
}

pub ghost struct ExpectationModel {
    pub op: Seq<char>,
    /// `None` accepts any arguments.
    pub matcher: Option<Seq<ValueModel>>,
    pub behavior: BehaviorModel,
    pub remaining: Option<nat>,
}

impl View for Expectation {
    type V = ExpectationModel;

    open spec fn view(&self) -> ExpectationModel {
        ExpectationModel {
            op: self.op@,
            matcher: match self.matcher {
                Matcher::Any => None,
                Matcher::Exactly(v) => Some(values_view(v@)),
            },
            behavior: match self.behavior {
                Behavior::Return(v) => BehaviorModel::Return(v@),
                Behavior::Fail(m) => BehaviorModel::Fail(m@),
            },
            remaining: match self.remaining {
                Some(n) => Some(n as nat),
                None => None,
            },
        }
    }
}

/// `e` accepts a call of `op` with `args`.
pub open spec fn accepts(e: ExpectationModel, op: Seq<char>, args: Seq<ValueModel>) -> bool {
    &&& e.op == op
    &&& match e.matcher {
        None => true,
        Some(m) => m == args,
    }
}

/// `e` may still be selected.
pub open spec fn available(e: ExpectationModel) -> bool {
    match e.remaining {
        None => true,
        Some(n) => n > 0,
    }
}

/// `e` after one more call.
pub open spec fn spent(e: ExpectationModel) -> ExpectationModel {
    ExpectationModel {
        remaining: match e.remaining {
            None => None,
            Some(n) => Some((n - 1) as nat),
        },
        ..e
    }
}

/// Index `i` is the first expectation that accepts the call and may be
/// selected.
pub open spec fn selected(es: Seq<ExpectationModel>, op: Seq<char>, args: Seq<ValueModel>, i: int) -> bool {
    &&& 0 <= i < es.len()
    &&& accepts(es[i], op, args) && available(es[i])
    &&& forall|j: int| 0 <= j < i ==> !(accepts(#[trigger] es[j], op, args) && available(es[j]))
}

/// `e` suits operation `op`: it names it, its matcher is well-typed for
/// the parameters, and its return value is of the return type.
pub open spec fn suits(op: OperationModel, e: ExpectationModel) -> bool {
    &&& op.name == e.op
    &&& match e.matcher {
        None => true,
        Some(m) => well_typed(op.params, m),
    }
    &&& match e.behavior {
        BehaviorModel::Return(v) => has_type(v, slot_of(op.ret)),
        BehaviorModel::Fail(_) => true,
    }
}

/// `e` names an operation of `iface` and suits every operation of that
/// name.
pub open spec fn fits(iface: InterfaceModel, e: ExpectationModel) -> bool {
    &&& exists|k: int| 0 <= k < iface.ops.len() && (#[trigger] iface.ops[k]).name == e.op
    &&& forall|k: int| 0 <= k < iface.ops.len() && (#[trigger] iface.ops[k]).name == e.op ==> suits(iface.ops[k], e)
}

/// Why a mocked call failed.
pub enum MockError {
    /// No expectation of the operation accepts the arguments.
    UnexpectedCall { operation: String, arguments: Vec<Value> },
    /// The expectations that accept the arguments have used up their budget.
    ExpectationExhausted { operation: String },
    /// The selected expectation is scripted to fail.
    Scripted { operation: String, message: String },
    /// An expectation names no operation of the interface, or is not
    /// well-typed for it.
    InvalidExpectation { operation: String },
}

/// Whether two values are the same.
pub fn same_value(a: &Value, b: &Value) -> (r: bool)
    ensures
        r == (a@ == b@),
{
    match (a, b) {
        (Value::Unit, Value::Unit) => true,
        (Value::Bool(x), Value::Bool(y)) => *x == *y,
        (Value::Int(x), Value::Int(y)) => *x == *y,
        (Value::Str(x), Value::Str(y)) => *x == *y,
        _ => false,
    }
}

/// Whether two argument lists are the same.
pub fn same_values(a: &Vec<Value>, b: &Vec<Value>) -> (r: bool)
    ensures
        r == (values_view(a@) == values_view(b@)),
{
    if a.len() != b.len() {
        assert(values_view(a@).len() != values_view(b@).len());
        return false;
    }
    for k in 0..a.len()
        invariant
            a.len() == b.len(),
            forall|m: int| 0 <= m < k ==> (#[trigger] a[m])@ == b[m]@,
    {
        if !same_value(&a[k], &b[k]) {
            assert(values_view(a@)[k as int] != values_view(b@)[k as int]);
            return false;
        }
    }
    assert(values_view(a@) =~= values_view(b@));
    true
}

pub fn copy_values(a: &Vec<Value>) -> (r: Vec<Value>)
    ensures
        values_view(r@) == values_view(a@),
{
    let mut r: Vec<Value> = Vec::new();
    for k in 0..a.len()
        invariant
            r@.len() == k,
            forall|m: int| 0 <= m < k ==> (#[trigger] r[m])@ == a[m]@,
    {
        r.push(a[k].duplicate());
    }
    assert(values_view(r@) =~= values_view(a@));
    r
}

/// A test double of an interface, holding its expectations in
/// registration order.
pub struct Mock {
    iface: Interface,
    expectations: Vec<Expectation>,
}

impl View for Mock {
    type V = Seq<ExpectationModel>;

    closed spec fn view(&self) -> Seq<ExpectationModel> {
        self.expectations@.map_values(|e: Expectation| e@)
    }
}

impl Mock {
    /// The interface this mock stands in for.
    pub closed spec fn interface(&self) -> InterfaceModel {
        self.iface@
    }

    /// A mock of `iface` with no expectation.
    pub fn new(iface: Interface) -> (r: Mock)
        ensures
            r@.len() == 0,
            r.interface() == iface@,
    {
        let r = Mock { iface, expectations: Vec::new() };
        assert(r@ =~= Seq::<ExpectationModel>::empty());
        r
    }

    /// Registers `e` after the expectations already there, where it fits
    /// an operation of the interface.
    pub fn expect(&mut self, e: Expectation) -> (r: Result<(), MockError>)
        ensures
            final(self).interface() == old(self).interface(),
            r is Ok <==> fits(old(self).interface(), e@),
            r is Ok ==> final(self)@ == old(self)@.push(e@),
            r is Err ==> final(self)@ == old(self)@ && (r matches Err(MockError::InvalidExpectation { operation })
                && operation@ == e@.op),
    {
        let ghost m = e@;
        let ghost ops = self.iface@.ops;
        let mut found = false;
        let n = self.iface.operations.len();
        for k in 0..n
            invariant
                n == self.iface.operations.len(),
                ops == self.iface@.ops,
                m == e@,
                found <==> exists|j: int| 0 <= j < k && (#[trigger] ops[j]).name == m.op,
                forall|j: int| 0 <= j < k && (#[trigger] ops[j]).name == m.op ==> suits(ops[j], m),
        {
            let op = &self.iface.operations[k];
            assert(ops[k as int] == op@);
            if op.name == e.op {
                found = true;
                let args_ok = match &e.matcher {
                    Matcher::Any => true,
                    Matcher::Exactly(vals) => args_well_typed(op, vals),
                };
                let slot = match op.ret {
                    Some(t) => t,
                    None => TypeDesc::Unit,
                };
                let ret_ok = match &e.behavior {
                    Behavior::Return(v) => v.has_type(slot),
                    Behavior::Fail(_) => true,
                };
                if !(args_ok && ret_ok) {
                    assert(!suits(ops[k as int], m));
                    return Err(MockError::InvalidExpectation { operation: e.op });
                }
            }
        }
        if !found {
            return Err(MockError::InvalidExpectation { operation: e.op });
        }
        self.expectations.push(e);
        assert(self@ =~= old(self)@.push(m));
        Ok(())
    }

    /// A call of `op` with `args`: the first expectation that accepts it
    /// and has calls left is selected, spends one call, and acts.
    pub fn call(&mut self, op: &str, args: &Vec<Value>) -> (r: Result<Value, MockError>)
        ensures
            final(self).interface() == old(self).interface(),
            ({
                let es = old(self)@;
                let a = values_view(args@);
                &&& forall|i: int| #[trigger] selected(es, op@, a, i) ==> final(self)@ == es.update(i, spent(es[i]))
                    && match es[i].behavior {
                    BehaviorModel::Return(v) => r matches Ok(x) && x@ == v,
                    BehaviorModel::Fail(m) => r matches Err(MockError::Scripted { operation, message })
                        && operation@ == op@ && message@ == m,
                }
                &&& (forall|i: int| !#[trigger] selected(es, op@, a, i)) ==> final(self)@ == es && if exists|i: int|
                    0 <= i < es.len() && accepts(#[trigger] es[i], op@, a) {
                    r matches Err(MockError::ExpectationExhausted { operation }) && operation@ == op@
                } else {
                    r matches Err(MockError::UnexpectedCall { operation, arguments })
                        && operation@ == op@ && values_view(arguments@) == a
                }
            }),
    {
        let ghost es = self@;
        let ghost a = values_view(args@);
        let name = String::from_str(op);
        let n = self.expectations.len();
        let mut accepted = false;
        let mut found: Option<usize> = None;
        let mut i: usize = 0;
        while i < n && found.is_none()
            invariant
                n == self.expectations.len(),
                es == self@,
                a == values_view(args@),
                name@ == op@,
                i <= n,
                found matches Some(k) ==> selected(es, op@, a, k as int),
                found is None ==> forall|j: int| 0 <= j < i ==> !(accepts(#[trigger] es[j], op@, a) && available(es[j])),
                found is None ==> (accepted <==> exists|j: int| 0 <= j < i && accepts(#[trigger] es[j], op@, a)),
            decreases n - i,
        {
            let e = &self.expectations[i];
            assert(es[i as int] == e@);
            let matches_args = match &e.matcher {
                Matcher::Any => true,
                Matcher::Exactly(m) => same_values(m, args),
            };
            if e.op == name && matches_args {
                accepted = true;
                if e.remaining != Some(0u64) {
                    found = Some(i);
                }
            }
            i = i + 1;
        }
        match found {
            Some(k) => {
                let e = &self.expectations[k];
                assert(es[k as int] == e@);
                let result = match &e.behavior {
                    Behavior::Return(v) => Ok(v.duplicate()),
                    Behavior::Fail(m) => Err(MockError::Scripted { operation: name, message: m.clone() }),
                };
                let new_left = match e.remaining {
                    Some(c) => Some(c - 1),
                    None => None,
                };
                let mut chosen = self.expectations.remove(k);
                chosen.remaining = new_left;
                self.expectations.insert(k, chosen);
                proof {
                    assert forall|c: int| #[trigger] selected(es, op@, a, c) implies c == k by {
                        if c < k {
                            assert(!(accepts(es[c], op@, a) && available(es[c])));
                        }
                        if c > k {
                            assert(!(accepts(es[k as int], op@, a) && available(es[k as int])));
                        }
                    }
                    assert(self@ =~= es.update(k as int, spent(es[k as int])));
                }
                result
            },
            None => {
                if accepted {
                    Err(MockError::ExpectationExhausted { operation: name })
                } else {
                    Err(MockError::UnexpectedCall { operation: name, arguments: copy_values(args) })
                }
            },
        }
    }
}

} // verus!

//! Deterministic names for the artifacts generated from an interface.
use crate::model::{camel_names, op_names, InterfaceModel};
use case::CaseExt;
use vstd::prelude::*;

verus! {

/// The part an artifact plays for one operation of an interface.
#[derive(Clone, Copy, Debug, PartialEq, Eq, Structural)]
pub enum Role {
    ArgsRecord,
    ResultRecord,
    Proxy,
    Dispatcher,
    Mock,
    ExpectationRegistrar,
}

/// The camel-case form that the `case` crate gives a snake-case name.
pub uninterp spec fn camel_of(s: Seq<char>) -> Seq<char>;

/// Relies on `case::CaseExt::to_camel` for `str`: the capitalized camel-case
/// form of a snake-case name, which depends on the characters alone.
#[verifier::external_body]
pub(crate) fn to_camel(s: &str) -> (r: String)
    ensures
        r@ == camel_of(s@),
{
    s.to_camel()
}

/// A generated identifier: a type name, and the member of that type it
/// designates (empty when the identifier is the type itself).
pub struct Ident {
    pub owner: String,
    pub member: String,
}

impl View for Ident {
    type V = (Seq<char>, Seq<char>);

    open spec fn view(&self) -> (Seq<char>, Seq<char>) {
        (self.owner@, self.member@)
    }
}

pub open spec fn args_suffix() -> Seq<char> {
    seq!['A', 'r', 'g', 's']
}

pub open spec fn result_suffix() -> Seq<char> {
    seq!['R', 'e', 's']
}

pub open spec fn proxy_suffix() -> Seq<char> {
    seq!['S', 't', 'u', 'b']
}

pub open spec fn dispatcher_suffix() -> Seq<char> {
    seq!['C', 'l', 'i', 'e', 'n', 't']
}

pub open spec fn mock_suffix() -> Seq<char> {
    seq!['M', 'o', 'c', 'k']
}

pub open spec fn registrar_prefix() -> Seq<char> {
    seq!['e', 'x', 'p', 'e', 'c', 't', '_']
}

/// The identifier of the artifact playing `role` for operation `op` of
/// interface `iface`.
pub open spec fn spec_ident(iface: Seq<char>, op: Seq<char>, role: Role) -> (Seq<char>, Seq<char>) {
    match role {
        Role::ArgsRecord => (iface + camel_of(op) + args_suffix(), Seq::empty()),
        Role::ResultRecord => (iface + camel_of(op) + result_suffix(), Seq::empty()),
        Role::Proxy => (iface + proxy_suffix(), op),
        Role::Dispatcher => (iface + dispatcher_suffix(), op),
        Role::Mock => (iface + mock_suffix(), op),
        Role::ExpectationRegistrar => (iface + mock_suffix(), registrar_prefix() + op),
    }
}

/// The name of the expectation registrar of operation `op`.
pub fn registrar_name(op: &str) -> (r: String)
    ensures
        r@ == registrar_prefix() + op@,
{
    let mut r = String::from_str("expect_");
    proof {
        reveal_strlit("expect_");
    }
    r.append(op);
    r
}

/// The identifier of the artifact playing `role` for operation `op` of
/// interface `iface`.
pub fn synthesize_name(iface: &str, op: &str, role: Role) -> (r: Ident)
    ensures
        r@ == spec_ident(iface@, op@, role),
{
    let mut owner = String::from_str(iface);
    let member;
    match role {
        Role::ArgsRecord => {
            let camel = to_camel(op);
            owner.append(camel.as_str());
            owner.append("Args");
            proof {
                reveal_strlit("Args");
            }
            member = String::new();
        },
        Role::ResultRecord => {
            let camel = to_camel(op);
            owner.append(camel.as_str());
            owner.append("Res");
            proof {
                reveal_strlit("Res");
            }
            member = String::new();
        },
        Role::Proxy => {
            owner.append("Stub");
            proof {
                reveal_strlit("Stub");
            }
            member = String::from_str(op);
        },
        Role::Dispatcher => {
            owner.append("Client");
            proof {
                reveal_strlit("Client");
            }
            member = String::from_str(op);
        },
        Role::Mock => {
            owner.append("Mock");
            proof {
                reveal_strlit("Mock");
            }
            member = String::from_str(op);
        },
        Role::ExpectationRegistrar => {
            owner.append("Mock");
            proof {
                reveal_strlit("Mock");
            }
            member = registrar_name(op);
        },
    }
    Ident { owner, member }
}

/// The last two characters of the owner of an identifier of `role`.
pub open spec fn owner_tag(role: Role) -> (char, char) {
    match role {
        Role::ArgsRecord => ('g', 's'),
        Role::ResultRecord => ('e', 's'),
        Role::Proxy => ('u', 'b'),
        Role::Dispatcher => ('n', 't'),
        Role::Mock => ('c', 'k'),
        Role::ExpectationRegistrar => ('c', 'k'),
    }
}

proof fn lemma_owner_tag(iface: Seq<char>, op: Seq<char>, role: Role)
    ensures
        ({
            let o = spec_ident(iface, op, role).0;
            o.len() >= 2 && (o[o.len() - 2], o[o.len() - 1]) == owner_tag(role)
        }),
{
}

proof fn lemma_cancel_suffix(a: Seq<char>, b: Seq<char>, s: Seq<char>)
    requires
        a + s == b + s,
    ensures
        a == b,
{
    assert(a =~= (a + s).subrange(0, a.len() as int));
    assert(b =~= (b + s).subrange(0, b.len() as int));
}

proof fn lemma_cancel_prefix(p: Seq<char>, a: Seq<char>, b: Seq<char>)
    requires
        p + a == p + b,
    ensures
        a == b,
{
    assert(a =~= (p + a).subrange(p.len() as int, (p + a).len() as int));
    assert(b =~= (p + b).subrange(p.len() as int, (p + b).len() as int));
}

/// In a valid interface, two different (operation, role) pairs never get
/// the same identifier: names are unique across every role.
pub proof fn lemma_identifiers_distinct(iface: InterfaceModel, i: int, j: int, r1: Role, r2: Role)
    requires
        iface.wf(),
        0 <= i < iface.ops.len(),
        0 <= j < iface.ops.len(),
        i != j || r1 != r2,
    ensures
        spec_ident(iface.name, iface.ops[i].name, r1) != spec_ident(iface.name, iface.ops[j].name, r2),
{
    let a = iface.ops[i].name;
    let b = iface.ops[j].name;
    let x = spec_ident(iface.name, a, r1);
    let y = spec_ident(iface.name, b, r2);
    if x == y {
        lemma_owner_tag(iface.name, a, r1);
        lemma_owner_tag(iface.name, b, r2);
        assert(owner_tag(r1) == owner_tag(r2));
        assert(op_names(iface.ops)[i] == a);
        assert(op_names(iface.ops)[j] == b);
        assert(camel_names(iface.ops)[i] == camel_of(a));
        assert(camel_names(iface.ops)[j] == camel_of(b));
        match r1 {
            Role::ArgsRecord => {
                lemma_cancel_suffix(iface.name + camel_of(a), iface.name + camel_of(b), args_suffix());
                lemma_cancel_prefix(iface.name, camel_of(a), camel_of(b));
            },
            Role::ResultRecord => {
                lemma_cancel_suffix(iface.name + camel_of(a), iface.name + camel_of(b), result_suffix());
                lemma_cancel_prefix(iface.name, camel_of(a), camel_of(b));
            },
            Role::ExpectationRegistrar => {
                if r2 == Role::ExpectationRegistrar {
                    lemma_cancel_prefix(registrar_prefix(), a, b);
                }
            },
            _ => {},
        }
    }
}

} // verus!

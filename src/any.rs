//! The opaque payload envelope: bytes tagged with a type URL.
use vstd::prelude::*;
use vstd::slice::slice_to_vec;
use vstd::utf8::{decode_utf8, encode_utf8, valid_utf8};

verus! {

/// A payload: its bytes and the URL naming their type.
pub struct Any {
    pub type_url: String,
    pub value: Vec<u8>,
}

impl View for Any {
    type V = (Seq<char>, Seq<u8>);

    open spec fn view(&self) -> (Seq<char>, Seq<u8>) {
        (self.type_url@, self.value@)
    }
}

/// The type URL of a type named `name`.
pub open spec fn type_url_of(name: Seq<char>) -> Seq<char> {
    seq!['r', 'u', 's', 't', '-', 'l', 'a', 'n', 'g', '.', 'o', 'r', 'g', '/'] + name
}

fn type_url(name: &str) -> (r: String)
    ensures
        r@ == type_url_of(name@),
{
    let mut r = String::from_str("rust-lang.org/");
    proof {
        reveal_strlit("rust-lang.org/");
    }
    r.append(name);
    r
}

/// Packs `value` as the payload of the type named `kind`.
pub fn pack(value: &[u8], kind: &str) -> (r: Option<Any>)
    ensures
        r matches Some(a) && a@ == (type_url_of(kind@), value@),
{
    Some(Any { type_url: type_url(kind), value: slice_to_vec(value) })
}

/// A value that converts itself into a payload.
pub trait IntoAny: Sized {
    /// The payload this value converts into, if any.
    spec fn any_view(&self) -> Option<(Seq<char>, Seq<u8>)>;

    fn into_any(self) -> (r: Option<Any>)
        ensures
            match self.any_view() {
                Some(p) => r matches Some(a) && a@ == p,
                None => r is None,
            };
}

impl<T: IntoAny> IntoAny for Option<T> {
    open spec fn any_view(&self) -> Option<(Seq<char>, Seq<u8>)> {
        match self {
            Some(v) => v.any_view(),
            None => None,
        }
    }

    fn into_any(self) -> (r: Option<Any>) {
        match self {
            Some(v) => v.into_any(),
            None => None,
        }
    }
}

impl IntoAny for bool {
    open spec fn any_view(&self) -> Option<(Seq<char>, Seq<u8>)> {
        Some((type_url_of(seq!['b', 'o', 'o', 'l']), seq![if *self { 1u8 } else { 0u8 }]))
    }

    fn into_any(self) -> (r: Option<Any>) {
        let url = type_url("bool");
        proof {
            reveal_strlit("bool");
        }
        let b: u8 = if self { 1 } else { 0 };
        let value = vec![b];
        assert(value@ =~= seq![b]);
        Some(Any { type_url: url, value })
    }
}

impl IntoAny for u8 {
    open spec fn any_view(&self) -> Option<(Seq<char>, Seq<u8>)> {
        Some((type_url_of(seq!['u', '8']), seq![*self]))
    }

    fn into_any(self) -> (r: Option<Any>) {
        let url = type_url("u8");
        proof {
            reveal_strlit("u8");
        }
        let value = vec![self];
        assert(value@ =~= seq![self]);
        Some(Any { type_url: url, value })
    }
}

impl IntoAny for i8 {
    open spec fn any_view(&self) -> Option<(Seq<char>, Seq<u8>)> {
        Some((type_url_of(seq!['i', '8']), seq![*self as u8]))
    }

    fn into_any(self) -> (r: Option<Any>) {
        let url = type_url("i8");
        proof {
            reveal_strlit("i8");
        }
        let value = vec![self as u8];
        assert(value@ =~= seq![self as u8]);
        Some(Any { type_url: url, value })
    }
}

impl IntoAny for () {
    open spec fn any_view(&self) -> Option<(Seq<char>, Seq<u8>)> {
        Some((type_url_of(seq!['(', ')']), Seq::empty()))
    }

    fn into_any(self) -> (r: Option<Any>) {
        let url = type_url("()");
        proof {
            reveal_strlit("()");
        }
        let value: Vec<u8> = Vec::new();
        assert(value@ =~= Seq::<u8>::empty());
        Some(Any { type_url: url, value })
    }
}

impl<'a> IntoAny for &'a str {
    open spec fn any_view(&self) -> Option<(Seq<char>, Seq<u8>)> {
        Some((type_url_of(seq!['s', 't', 'r']), encode_utf8((*self)@)))
    }

    fn into_any(self) -> (r: Option<Any>) {
        let url = type_url("str");
        proof {
            reveal_strlit("str");
        }
        Some(Any { type_url: url, value: slice_to_vec(self.as_bytes()) })
    }
}

impl IntoAny for String {
    open spec fn any_view(&self) -> Option<(Seq<char>, Seq<u8>)> {
        Some((type_url_of(seq!['S', 't', 'r', 'i', 'n', 'g']), encode_utf8(self@)))
    }

    fn into_any(self) -> (r: Option<Any>) {
        let url = type_url("String");
        proof {
            reveal_strlit("String");
        }
        Some(Any { type_url: url, value: slice_to_vec(self.as_str().as_bytes()) })
    }
}

/// Relies on `String::from_utf8`: the bytes as a string where they are
/// valid UTF-8, and a failure otherwise.
#[verifier::external_body]
fn string_from_utf8(bytes: Vec<u8>) -> (r: Option<String>)
    ensures
        r is Some <==> valid_utf8(bytes@),
        r matches Some(s) ==> s@ == decode_utf8(bytes@),
{
    String::from_utf8(bytes).ok()
}

/// The payload's bytes are not valid UTF-8.
#[derive(Clone, Copy, Debug)]
pub struct Utf8Error {}

impl Any {
    /// The payload read as a `u8`: it must hold exactly one byte.
    pub fn unpack_u8(&self) -> (r: Option<u8>)
        ensures
            r is Some <==> self@.1.len() == 1,
            r matches Some(b) ==> b == self@.1[0],
    {
        if self.value.len() == 1 {
            Some(self.value[0])
        } else {
            None
        }
    }

    /// The payload read as an `i8`: it must hold exactly one byte.
    pub fn unpack_i8(&self) -> (r: Option<i8>)
        ensures
            r is Some <==> self@.1.len() == 1,
            r matches Some(b) ==> b == self@.1[0] as i8,
    {
        if self.value.len() == 1 {
            Some(self.value[0] as i8)
        } else {
            None
        }
    }

    /// The payload read as a string.
    pub fn unpack_string(self) -> (r: Result<String, Utf8Error>)
        ensures
            r is Ok <==> valid_utf8(self@.1),
            r matches Ok(s) ==> s@ == decode_utf8(self@.1),
    {
        match string_from_utf8(self.value) {
            Some(s) => Ok(s),
            None => Err(Utf8Error {}),
        }
    }
}

} // verus!

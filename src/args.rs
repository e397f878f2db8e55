//! The arguments of the service attribute.
use vstd::prelude::*;

verus! {

/// The arguments of the service attribute: it takes none.
#[derive(Clone, Copy, Debug)]
pub struct Args {}

pub open spec fn args_error() -> Seq<char> {
    seq!['e', 'x', 'p', 'e', 'c', 't', 'e', 'd', ' ', '#', '[', 'd', 'a', 'p', 'r', ':', ':', 's', 'e', 'r', 'v', 'i', 'c', 'e', ']']
}

impl Args {
    /// Reads the attribute's argument tokens, of which there must be none.
    pub fn parse(tokens: &Vec<String>) -> (r: Result<Args, String>)
        ensures
            r is Ok <==> tokens.len() == 0,
            r matches Err(m) ==> m@ == args_error(),
    {
        if tokens.len() == 0 {
            Ok(Args {})
        } else {
            let m = String::from_str("expected #[dapr::service]");
            proof {
                reveal_strlit("expected #[dapr::service]");
            }
            Err(m)
        }
    }
}

} // verus!

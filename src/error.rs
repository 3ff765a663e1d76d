use vstd::prelude::*;

verus! {

/// The one typed failure of the library: the concrete type of an object could
/// not be determined.
#[derive(Debug, Clone, Copy, PartialEq, Eq, Structural)]
pub enum Error {
    UnknownType,
}

impl Error {
    /// The text that describes the error.
    pub fn message(&self) -> (r: String)
        ensures
            r@ == "unknown type"@,
    {
        proof {
            reveal_strlit("unknown type");
        }
        "unknown type".to_owned()
    }
}

} // verus!

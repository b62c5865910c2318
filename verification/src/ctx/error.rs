use vstd::prelude::*;

verus! {

#[derive(Debug, Clone, Copy, PartialEq, Eq, Structural)]
pub enum Error {
    CtxCannotNewRootCtx,
}

impl Error {
    /// The message shown for this error.
    pub fn message(&self) -> (msg: String)
        ensures
            msg@ == "Context cannot new root context"@,
    {
        "Context cannot new root context".to_string()
    }
}

} // verus!

//! The identity on whose behalf a request runs.

use vstd::prelude::*;

pub mod error;

pub use self::error::Error;

verus! {

/// The user id reserved for the system itself.
pub const ROOT_USER_ID: i64 = 0;

/// The identity of a request: the user who made it.
#[derive(Debug, Clone)]
pub struct Ctx {
    pub user_id: i64,
}

impl Ctx {
    /// The context of the system itself.
    pub fn root_ctx() -> (ctx: Ctx)
        ensures
            ctx.user_id == ROOT_USER_ID,
    {
        Ctx { user_id: ROOT_USER_ID }
    }

    /// A context for an ordinary user. The root id is refused: only
    /// `root_ctx` hands out the root context.
    pub fn new(user_id: i64) -> (res: Result<Ctx, Error>)
        ensures
            user_id == ROOT_USER_ID ==> res == Err::<Ctx, Error>(Error::CtxCannotNewRootCtx),
            user_id != ROOT_USER_ID ==> res == Ok::<Ctx, Error>(Ctx { user_id }),
    {
        if user_id == ROOT_USER_ID {
            Err(Error::CtxCannotNewRootCtx)
        } else {
            Ok(Ctx { user_id })
        }
    }

    /// The user on whose behalf the request runs.
    pub fn user_id(&self) -> (id: i64)
        ensures
            id == self.user_id,
    {
        self.user_id
    }
}

} // verus!

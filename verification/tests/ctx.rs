use lib_auth::ctx::{Ctx, Error, ROOT_USER_ID};

#[test]
fn root_ctx_is_user_zero() {
    assert_eq!(ROOT_USER_ID, 0);
    assert_eq!(Ctx::root_ctx().user_id(), 0);
    assert_eq!(Ctx::root_ctx().user_id, 0);
}

#[test]
fn new_ctx_keeps_the_user() {
    for id in [1, 2, 1025, -1, i64::MAX, i64::MIN] {
        assert_eq!(Ctx::new(id).unwrap().user_id(), id);
    }
}

#[test]
fn new_ctx_refuses_the_root() {
    assert_eq!(Ctx::new(0).unwrap_err(), Error::CtxCannotNewRootCtx);
    assert_eq!(
        Error::CtxCannotNewRootCtx.message(),
        "Context cannot new root context"
    );
}

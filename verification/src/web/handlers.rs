//! What the clients send.

use vstd::prelude::*;

verus! {

#[derive(Debug)]
pub struct AdminForCreatePayload {
    pub first_name: String,
    pub last_name: String,
    pub birth_date: String,
    pub uname: String,
    pub email: String,
    pub pwd: String,
}

#[derive(Debug)]
pub struct AccAdminForCreatePayload {
    pub admin_id: i64,
    pub uname: String,
    pub email: String,
}

} // verus!

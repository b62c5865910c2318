use vstd::prelude::*;

verus! {

/// What a client is told of an error: never more than this.
#[derive(Debug)]
#[allow(non_camel_case_types)]
pub enum ClientError {
    LOGIN_FAIL,
    NO_AUTH,
    ENTITY_NOT_FOUND { entity: &'static str, id: i64 },
    SERVICE_ERROR,
}

/// The name under which an error is told.
pub open spec fn client_error_name(e: ClientError) -> Seq<char> {
    match e {
        ClientError::LOGIN_FAIL => "LOGIN_FAIL"@,
        ClientError::NO_AUTH => "NO_AUTH"@,
        ClientError::ENTITY_NOT_FOUND { .. } => "ENTITY_NOT_FOUND"@,
        ClientError::SERVICE_ERROR => "SERVICE_ERROR"@,
    }
}

impl ClientError {
    /// The name under which this error is told.
    pub fn as_ref(&self) -> (name: &'static str)
        ensures
            name@ == client_error_name(*self),
    {
        match self {
            ClientError::LOGIN_FAIL => "LOGIN_FAIL",
            ClientError::NO_AUTH => "NO_AUTH",
            ClientError::ENTITY_NOT_FOUND { .. } => "ENTITY_NOT_FOUND",
            ClientError::SERVICE_ERROR => "SERVICE_ERROR",
        }
    }
}

} // verus!

use vstd::prelude::*;

use super::scheme;

verus! {

/// What can go wrong when a password is hashed or validated.
#[derive(Debug)]
pub enum Error {
    /// The stored text is not of the form `#<scheme>#<hashed>`.
    PassWithSchemeFailedToParse,
    /// The validation could not be handed to a worker.
    FailSpawnBlockForValidate,
    /// The hashing could not be handed to a worker.
    FailSpawnBlockForHash,
    /// The scheme itself failed, or found the password wrong.
    Scheme(scheme::Error),
}

/// An `Error` as a mathematical value: the scheme name is held as a sequence
/// of characters.
pub enum ErrorView {
    PassWithSchemeFailedToParse,
    FailSpawnBlockForValidate,
    FailSpawnBlockForHash,
    Scheme(scheme::ErrorView),
}

impl View for Error {
    type V = ErrorView;

    open spec fn view(&self) -> ErrorView {
        match self {
            Error::PassWithSchemeFailedToParse => ErrorView::PassWithSchemeFailedToParse,
            Error::FailSpawnBlockForValidate => ErrorView::FailSpawnBlockForValidate,
            Error::FailSpawnBlockForHash => ErrorView::FailSpawnBlockForHash,
            Error::Scheme(e) => ErrorView::Scheme(e@),
        }
    }
}

impl Error {
    /// The message shown for this error.
    pub fn message(&self) -> (msg: String)
        ensures
            self is PassWithSchemeFailedToParse ==> msg@ == "Password with scheme failed to parse"@,
            self is FailSpawnBlockForValidate ==> msg@ == "Failed to spawn block for validation"@,
            self is FailSpawnBlockForHash ==> msg@ == "Failed to spawn block for hasing"@,
            self is Scheme ==> msg@ == "Password scheme error"@,
    {
        match self {
            Error::PassWithSchemeFailedToParse => "Password with scheme failed to parse".to_string(),
            Error::FailSpawnBlockForValidate => "Failed to spawn block for validation".to_string(),
            Error::FailSpawnBlockForHash => "Failed to spawn block for hasing".to_string(),
            Error::Scheme(_) => "Password scheme error".to_string(),
        }
    }
}

impl From<scheme::Error> for Error {
    fn from(e: scheme::Error) -> (res: Error) {
        Error::Scheme(e)
    }
}

impl vstd::std_specs::convert::FromSpecImpl<scheme::Error> for Error {
    open spec fn obeys_from_spec() -> bool {
        true
    }

    open spec fn from_spec(e: scheme::Error) -> Error {
        Error::Scheme(e)
    }
}

} // verus!

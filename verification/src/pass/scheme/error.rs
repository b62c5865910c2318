use vstd::prelude::*;
use vstd::string::StringExecFns;

verus! {

/// What can go wrong inside a scheme, or when one is looked up.
#[derive(Debug)]
pub enum Error {
    /// The key cannot be used.
    Key,
    /// The salt cannot be used.
    Salt,
    /// The hash could not be computed.
    Hash,
    /// The password is not the one that was hashed.
    PassValidate,
    /// No scheme has this name.
    SchemeNotFound(String),
}

/// An `Error` as a mathematical value.
pub enum ErrorView {
    Key,
    Salt,
    Hash,
    PassValidate,
    SchemeNotFound(Seq<char>),
}

impl View for Error {
    type V = ErrorView;

    open spec fn view(&self) -> ErrorView {
        match self {
            Error::Key => ErrorView::Key,
            Error::Salt => ErrorView::Salt,
            Error::Hash => ErrorView::Hash,
            Error::PassValidate => ErrorView::PassValidate,
            Error::SchemeNotFound(name) => ErrorView::SchemeNotFound(name@),
        }
    }
}

impl Error {
    /// The message shown for this error.
    pub fn message(&self) -> (msg: String)
        ensures
            self is Key ==> msg@ == "Error with key"@,
            self is Salt ==> msg@ == "Error with salt"@,
            self is Hash ==> msg@ == "Error with hash"@,
            self is PassValidate ==> msg@ == "Error with password validation"@,
            self matches Error::SchemeNotFound(name) ==> msg@
                == "Error with scheme not found - cause: "@ + name@,
    {
        match self {
            Error::Key => "Error with key".to_string(),
            Error::Salt => "Error with salt".to_string(),
            Error::Hash => "Error with hash".to_string(),
            Error::PassValidate => "Error with password validation".to_string(),
            Error::SchemeNotFound(name) => {
                let mut msg = String::from_str("Error with scheme not found - cause: ");
                msg.append(name.as_str());
                msg
            },
        }
    }
}

} // verus!

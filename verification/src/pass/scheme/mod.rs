//! The hashing schemes. Each has a name, under which its hashed passwords are
//! stored, and hashes and validates on its own. New passwords are hashed with
//! `DEFAULT_SCHEME`; the older schemes stay, to validate what they once hashed.

use vstd::prelude::*;

pub mod error;
pub mod scheme_01;
pub mod scheme_02;

pub use self::error::{Error, ErrorView};

use crate::pass::ContentToHash;
use crate::pass::parts::{is_hashed, is_scheme_name};
use crate::utils::text::same_text;

verus! {

/// The scheme that hashes new passwords.
pub const DEFAULT_SCHEME: &'static str = "02";

#[derive(Debug, Clone, Copy, PartialEq, Eq, Structural)]
pub enum SchemeStatus {
    Current,  // The pwd uses the latest scheme. All good.
    Outdated,  // The pwd uses an old scheme.
}

/// What `validate` returns where hashing gave `hashed` and `pwd_ref` was
/// presented: a failure to hash stays that failure, and a hashed password
/// matches itself and nothing else.
pub open spec fn validated(hashed: Result<Seq<char>, ErrorView>, pwd_ref: Seq<char>) -> Result<
    (),
    ErrorView,
> {
    match hashed {
        Err(e) => Err(e),
        Ok(h) => if h == pwd_ref {
            Ok(())
        } else {
            Err(ErrorView::PassValidate)
        },
    }
}

/// What hashing gave, as a mathematical value.
pub open spec fn hashed_view(hashed: Result<String, Error>) -> Result<Seq<char>, ErrorView> {
    match hashed {
        Ok(h) => Ok(h@),
        Err(e) => Err(e@),
    }
}

/// What validating gave, as a mathematical value.
pub open spec fn validated_view(res: Result<(), Error>) -> Result<(), ErrorView> {
    match res {
        Ok(_) => Ok(()),
        Err(e) => Err(e@),
    }
}

pub trait Scheme {
    /// The hashed password that this scheme gives for `to_hash` under `key`,
    /// or why it gives none. It depends on nothing else.
    spec fn hashed(&self, to_hash: &ContentToHash, key: Seq<u8>) -> Result<Seq<char>, ErrorView>;

    /// A hashed password can be stored: it is not empty and holds no line
    /// feed.
    proof fn lemma_hashed_can_be_stored(&self, to_hash: &ContentToHash, key: Seq<u8>)
        ensures
            self.hashed(to_hash, key) matches Ok(h) ==> h.len() > 0 && is_hashed(h),
    ;

    /// Hashes the content with its salt, under `key`.
    fn hash(&self, to_hash: &ContentToHash, key: &[u8]) -> (res: Result<String, Error>)
        ensures
            hashed_view(res) == self.hashed(to_hash, key@),
    ;

    /// Tells whether `pwd_ref` is the hashed password of `to_hash` under
    /// `key`. The two are compared in time that does not depend on where
    /// they differ.
    fn validate(&self, to_hash: &ContentToHash, pwd_ref: &str, key: &[u8]) -> (res: Result<
        (),
        Error,
    >)
        ensures
            validated_view(res) == validated(self.hashed(to_hash, key@), pwd_ref@),
    ;
}

pub enum SchemeDispatcher {
    Scheme01(scheme_01::Scheme01),
    Scheme02(scheme_02::Scheme02),
}

impl Scheme for SchemeDispatcher {
    open spec fn hashed(&self, to_hash: &ContentToHash, key: Seq<u8>) -> Result<
        Seq<char>,
        ErrorView,
    > {
        match self {
            SchemeDispatcher::Scheme01(s) => s.hashed(to_hash, key),
            SchemeDispatcher::Scheme02(s) => s.hashed(to_hash, key),
        }
    }

    proof fn lemma_hashed_can_be_stored(&self, to_hash: &ContentToHash, key: Seq<u8>) {
        match self {
            SchemeDispatcher::Scheme01(s) => s.lemma_hashed_can_be_stored(to_hash, key),
            SchemeDispatcher::Scheme02(s) => s.lemma_hashed_can_be_stored(to_hash, key),
        }
    }

    fn hash(&self, to_hash: &ContentToHash, key: &[u8]) -> (res: Result<String, Error>) {
        match self {
            SchemeDispatcher::Scheme01(s) => s.hash(to_hash, key),
            SchemeDispatcher::Scheme02(s) => s.hash(to_hash, key),
        }
    }

    fn validate(&self, to_hash: &ContentToHash, pwd_ref: &str, key: &[u8]) -> (res: Result<
        (),
        Error,
    >) {
        match self {
            SchemeDispatcher::Scheme01(s) => s.validate(to_hash, pwd_ref, key),
            SchemeDispatcher::Scheme02(s) => s.validate(to_hash, pwd_ref, key),
        }
    }
}

/// The scheme of that name, if there is one.
pub open spec fn scheme_of(scheme_name: Seq<char>) -> Option<SchemeDispatcher> {
    if scheme_name == "01"@ {
        Some(SchemeDispatcher::Scheme01(scheme_01::Scheme01))
    } else if scheme_name == "02"@ {
        Some(SchemeDispatcher::Scheme02(scheme_02::Scheme02))
    } else {
        None
    }
}

/// Every scheme that ever was is still there under its name, every name can
/// be stored, and the default scheme is the latest of them.
pub proof fn lemma_scheme_names()
    ensures
        is_scheme_name("01"@),
        is_scheme_name("02"@),
        "01"@ != "02"@,
        scheme_of("01"@) == Some(SchemeDispatcher::Scheme01(scheme_01::Scheme01)),
        scheme_of("02"@) == Some(SchemeDispatcher::Scheme02(scheme_02::Scheme02)),
        DEFAULT_SCHEME@ == "02"@,
        status_of("01"@) == SchemeStatus::Outdated,
        status_of("02"@) == SchemeStatus::Current,
{
    reveal_strlit("01");
    reveal_strlit("02");
    assert("01"@[1] != "02"@[1]);
}

/// Calls `subtle`'s `ConstantTimeEq::ct_eq` on two byte slices, and turns
/// its `Choice` into a `bool`. The slices are equal where they have one
/// length and the same bytes throughout; the time taken depends on the
/// lengths only.
#[verifier::external_body]
fn ct_eq(a: &[u8], b: &[u8]) -> (r: bool)
    ensures
        r == (a@ == b@),
{
    subtle::ConstantTimeEq::ct_eq(a, b).into()
}

/// Whether `pwd_ref` is `hashed`, found in time that does not depend on
/// where the two differ.
pub fn same_hashed(hashed: &str, pwd_ref: &str) -> (r: bool)
    ensures
        r == (hashed@ == pwd_ref@),
{
    proof {
        vstd::utf8::encode_utf8_decode_utf8(hashed@);
        vstd::utf8::encode_utf8_decode_utf8(pwd_ref@);
    }
    ct_eq(hashed.as_bytes(), pwd_ref.as_bytes())
}

/// What `validate` answers where hashing gave `hashed` and `pwd_ref` was
/// presented.
pub fn validate_hashed(hashed: Result<String, Error>, pwd_ref: &str) -> (res: Result<(), Error>)
    ensures
        validated_view(res) == validated(hashed_view(hashed), pwd_ref@),
{
    match hashed {
        Err(e) => Err(e),
        Ok(h) => {
            if same_hashed(h.as_str(), pwd_ref) {
                Ok(())
            } else {
                Err(Error::PassValidate)
            }
        },
    }
}

/// The scheme of that name. A name that no scheme has is an error: no other
/// scheme stands in for it.
pub fn get_scheme(scheme_name: &str) -> (res: Result<SchemeDispatcher, Error>)
    ensures
        match res {
            Ok(scheme) => scheme_of(scheme_name@) == Some(scheme),
            Err(e) => scheme_of(scheme_name@) is None && e@ == ErrorView::SchemeNotFound(
                scheme_name@,
            ),
        },
{
    if same_text(scheme_name, "01") {
        Ok(SchemeDispatcher::Scheme01(scheme_01::Scheme01))
    } else if same_text(scheme_name, "02") {
        Ok(SchemeDispatcher::Scheme02(scheme_02::Scheme02))
    } else {
        Err(Error::SchemeNotFound(scheme_name.to_owned()))
    }
}

/// Whether a password stored under that scheme is up to date.
pub open spec fn status_of(scheme_name: Seq<char>) -> SchemeStatus {
    if scheme_name == DEFAULT_SCHEME@ {
        SchemeStatus::Current
    } else {
        SchemeStatus::Outdated
    }
}

/// Whether a password stored under that scheme is up to date: it is where
/// the scheme is the default one.
pub fn scheme_status(scheme_name: &str) -> (status: SchemeStatus)
    ensures
        status == status_of(scheme_name@),
{
    if same_text(scheme_name, DEFAULT_SCHEME) {
        SchemeStatus::Current
    } else {
        SchemeStatus::Outdated
    }
}

} // verus!

//! Hashing passwords, and validating them against what was stored.
//!
//! A password is hashed with its salt, under a key, by the default scheme,
//! and stored with the scheme's name in front. To validate, the stored text
//! is taken apart and the named scheme decides. Where that scheme is no
//! longer the default one, the answer says so, and the caller may hash the
//! password anew.

use vstd::prelude::*;

pub mod error;
pub mod hex;
pub mod parts;
pub mod scheme;

pub use self::error::{Error, ErrorView};
pub use self::scheme::SchemeStatus;

use self::hex::lemma_hex_of_injective;
use self::parts::{
    encode, is_hashed, is_scheme_name, lemma_round_trip, parse_stored, stored_form, PwdParts,
};
use self::scheme::{
    get_scheme, lemma_scheme_names, scheme_02, scheme_of, scheme_status, status_of, validated,
    Scheme, DEFAULT_SCHEME,
};

verus! {

/// The clean content to hash, with the salt: the sixteen bytes of the
/// identifier that was drawn for the one whose password this is.
///
/// Since content is sensitive information, this struct cannot be printed.
pub struct ContentToHash {
    pub content: String,  // Clear content.
    pub salt: [u8; 16],
}

impl ContentToHash {
    /// The content as the bytes of its UTF-8 text.
    pub open spec fn content_bytes(&self) -> Seq<u8> {
        vstd::utf8::encode_utf8(self.content@)
    }

    /// The bytes of the content, then those of the salt.
    pub fn salted_content(&self) -> (msg: Vec<u8>)
        ensures
            msg@ == self.content_bytes() + self.salt@,
    {
        let mut msg = vstd::slice::slice_to_vec(self.content.as_str().as_bytes());
        let mut i: usize = 0;
        while i < 16
            invariant
                i <= 16,
                msg@ == self.content_bytes() + self.salt@.take(i as int),
            decreases 16 - i,
        {
            msg.push(self.salt[i]);
            i += 1;
            proof {
                assert(self.salt@.take(i as int) =~= self.salt@.take(i - 1).push(
                    self.salt@[i - 1],
                ));
            }
        }
        proof {
            assert(self.salt@.take(16) =~= self.salt@);
        }
        msg
    }
}

/// What hashing gave, as a mathematical value.
pub open spec fn stored_view(res: Result<String, Error>) -> Result<Seq<char>, ErrorView> {
    match res {
        Ok(stored) => Ok(stored@),
        Err(e) => Err(e@),
    }
}

/// What validating gave, as a mathematical value.
pub open spec fn status_view(res: Result<SchemeStatus, Error>) -> Result<SchemeStatus, ErrorView> {
    match res {
        Ok(status) => Ok(status),
        Err(e) => Err(e@),
    }
}

/// What validating under a scheme gave, as a mathematical value.
pub open spec fn accepted_view(res: Result<(), Error>) -> Result<(), ErrorView> {
    match res {
        Ok(_) => Ok(()),
        Err(e) => Err(e@),
    }
}

/// What `hash_for_scheme` returns: the stored form of what the named scheme
/// gives, or why there is none.
pub open spec fn hashed_for_scheme(
    scheme_name: Seq<char>,
    to_hash: &ContentToHash,
    key: Seq<u8>,
) -> Result<Seq<char>, ErrorView> {
    match scheme_of(scheme_name) {
        None => Err(ErrorView::Scheme(scheme::ErrorView::SchemeNotFound(scheme_name))),
        Some(s) => match s.hashed(to_hash, key) {
            Err(e) => Err(ErrorView::Scheme(e)),
            Ok(h) => Ok(stored_form(scheme_name, h)),
        },
    }
}

/// What `validate_for_scheme` returns: whether `pwd_ref` is what the named
/// scheme gives, or why that cannot be told.
pub open spec fn validated_for_scheme(
    scheme_name: Seq<char>,
    to_hash: &ContentToHash,
    pwd_ref: Seq<char>,
    key: Seq<u8>,
) -> Result<(), ErrorView> {
    match scheme_of(scheme_name) {
        None => Err(ErrorView::Scheme(scheme::ErrorView::SchemeNotFound(scheme_name))),
        Some(s) => match validated(s.hashed(to_hash, key), pwd_ref) {
            Err(e) => Err(ErrorView::Scheme(e)),
            Ok(_) => Ok(()),
        },
    }
}

/// What `hash_pwd` returns: the stored form under the default scheme.
pub open spec fn hashed_pwd(to_hash: &ContentToHash, key: Seq<u8>) -> Result<
    Seq<char>,
    ErrorView,
> {
    hashed_for_scheme(DEFAULT_SCHEME@, to_hash, key)
}

/// What `validate_pwd` returns. Text that stores nothing fails to parse. A
/// name that no scheme has is not found. Otherwise the named scheme decides,
/// and where it accepts, the answer is whether that scheme is the default one.
pub open spec fn validated_pwd(to_hash: &ContentToHash, pwd_ref: Seq<char>, key: Seq<u8>) -> Result<
    SchemeStatus,
    ErrorView,
> {
    match parse_stored(pwd_ref) {
        None => Err(ErrorView::PassWithSchemeFailedToParse),
        Some((scheme_name, hashed)) => match validated_for_scheme(
            scheme_name,
            to_hash,
            hashed,
            key,
        ) {
            Err(e) => Err(e),
            Ok(_) => Ok(status_of(scheme_name)),
        },
    }
}

/// Hash the password with the default scheme. Nothing else makes a stored
/// password, so none is ever made with an older scheme.
///
/// The hashing takes time on purpose, and is done by the caller's own thread.
/// A caller that must stay responsive runs this on a worker, and hands what
/// the worker gave back to `hash_pwd_joined`.
pub fn hash_pwd(to_hash: ContentToHash, key: &[u8]) -> (res: Result<String, Error>)
    ensures
        stored_view(res) == hashed_pwd(&to_hash, key@),
{
    hash_for_scheme(DEFAULT_SCHEME, to_hash, key)
}

/// Validate if an ContentToHash matches.
///
/// The validation is done by the caller's own thread. A caller that must stay
/// responsive takes the stored password apart with `PwdParts::from_str`, finds
/// the `scheme_status`, runs `validate_for_scheme` on a worker, and hands
/// what the worker gave back to `validate_pwd_joined`.
pub fn validate_pwd(to_hash: ContentToHash, pwd_ref: String, key: &[u8]) -> (res: Result<
    SchemeStatus,
    Error,
>)
    ensures
        status_view(res) == validated_pwd(&to_hash, pwd_ref@, key@),
{
    let parts = match PwdParts::from_str(pwd_ref.as_str()) {
        Ok(parts) => parts,
        Err(e) => {
            return Err(e);
        },
    };
    let PwdParts { scheme_name, hashed } = parts;

    // Note: We do first, so that we do not have to clone the scheme_name.
    let status = scheme_status(scheme_name.as_str());

    validate_pwd_joined(
        status,
        Some(validate_for_scheme(scheme_name.as_str(), to_hash, hashed, key)),
    )
}

/// What the caller of `hash_pwd` gets where the hashing ran on a worker.
/// `joined` is what the worker gave back: nothing, if it could not be run.
/// A worker that could not be run is no failure of the scheme, and a failure
/// of the scheme is handed on as it is.
pub fn hash_pwd_joined(joined: Option<Result<String, Error>>) -> (res: Result<String, Error>)
    ensures
        match joined {
            None => res matches Err(e) && e@ == ErrorView::FailSpawnBlockForHash,
            Some(hashed) => res == hashed,
        },
{
    match joined {
        None => Err(Error::FailSpawnBlockForHash),
        Some(hashed) => hashed,
    }
}

/// What the caller of `validate_pwd` gets where the validation ran on a
/// worker, for a stored password whose scheme has status `status`. `joined`
/// is what the worker gave back: nothing, if it could not be run. The status
/// is handed out only where the scheme accepted the password.
pub fn validate_pwd_joined(status: SchemeStatus, joined: Option<Result<(), Error>>) -> (res:
    Result<SchemeStatus, Error>)
    ensures
        match joined {
            None => res matches Err(e) && e@ == ErrorView::FailSpawnBlockForValidate,
            Some(Err(e)) => res == Err::<SchemeStatus, Error>(e),
            Some(Ok(_)) => res == Ok::<SchemeStatus, Error>(status),
        },
{
    match joined {
        None => Err(Error::FailSpawnBlockForValidate),
        Some(Err(e)) => Err(e),
        Some(Ok(_)) => Ok(status),
    }
}

/// Hashes with the named scheme, and puts the name in front.
fn hash_for_scheme(scheme_name: &str, to_hash: ContentToHash, key: &[u8]) -> (res: Result<
    String,
    Error,
>)
    ensures
        stored_view(res) == hashed_for_scheme(scheme_name@, &to_hash, key@),
{
    let scheme = match get_scheme(scheme_name) {
        Ok(scheme) => scheme,
        Err(e) => {
            return Err(Error::Scheme(e));
        },
    };
    match scheme.hash(&to_hash, key) {
        Err(e) => Err(Error::Scheme(e)),
        Ok(pwd_hashed) => Ok(encode(scheme_name, pwd_hashed.as_str())),
    }
}

/// Asks the named scheme whether `pwd_ref` is the hashed password of
/// `to_hash`.
pub fn validate_for_scheme(
    scheme_name: &str,
    to_hash: ContentToHash,
    pwd_ref: String,
    key: &[u8],
) -> (res: Result<(), Error>)
    ensures
        accepted_view(res) == validated_for_scheme(scheme_name@, &to_hash, pwd_ref@, key@),
{
    let scheme = match get_scheme(scheme_name) {
        Ok(scheme) => scheme,
        Err(e) => {
            return Err(Error::Scheme(e));
        },
    };
    match scheme.validate(&to_hash, pwd_ref.as_str(), key) {
        Err(e) => Err(Error::Scheme(e)),
        Ok(_) => Ok(()),
    }
}

/// A password stored by a scheme validates under that scheme's name, and the
/// answer is whether the scheme is the default one: for every scheme that
/// there is, and everything that it can hash.
pub proof fn lemma_stored_validates(scheme_name: Seq<char>, to_hash: ContentToHash, key: Seq<u8>)
    ensures
        hashed_for_scheme(scheme_name, &to_hash, key) matches Ok(stored) ==> validated_pwd(
            &to_hash,
            stored,
            key,
        ) == Ok::<SchemeStatus, ErrorView>(status_of(scheme_name)),
{
    lemma_scheme_names();
    match scheme_of(scheme_name) {
        None => {},
        Some(s) => {
            match s.hashed(&to_hash, key) {
                Err(_) => {},
                Ok(h) => {
                    s.lemma_hashed_can_be_stored(&to_hash, key);
                    lemma_round_trip(scheme_name, h);
                },
            }
        },
    }
}

/// What `hash_pwd` gives is the stored form of the default scheme's name and
/// of a hashed password that is not empty: it reads `#02#` and then at least
/// one character, on one line.
pub proof fn lemma_hashed_pwd_is_stored(to_hash: ContentToHash, key: Seq<u8>)
    ensures
        hashed_pwd(&to_hash, key) matches Ok(stored) ==> {
            &&& parse_stored(stored) matches Some((scheme_name, hashed))
            &&& scheme_name == DEFAULT_SCHEME@
            &&& scheme_name == "02"@
            &&& hashed.len() > 0
            &&& is_hashed(hashed)
            &&& stored == stored_form(scheme_name, hashed)
        },
{
    lemma_scheme_names();
    let s = scheme_of(DEFAULT_SCHEME@)->Some_0;
    match s.hashed(&to_hash, key) {
        Err(_) => {},
        Ok(h) => {
            s.lemma_hashed_can_be_stored(&to_hash, key);
            lemma_round_trip(DEFAULT_SCHEME@, h);
        },
    }
}

/// What `hash_pwd` gives, `validate_pwd` accepts for the same content, salt
/// and key, and finds up to date.
pub proof fn lemma_hash_then_validate(to_hash: ContentToHash, key: Seq<u8>)
    ensures
        hashed_pwd(&to_hash, key) matches Ok(stored) ==> validated_pwd(&to_hash, stored, key)
            == Ok::<SchemeStatus, ErrorView>(SchemeStatus::Current),
{
    lemma_scheme_names();
    lemma_stored_validates(DEFAULT_SCHEME@, to_hash, key);
}

/// A password stored by the first scheme still validates, and is found
/// outdated.
pub proof fn lemma_first_scheme_is_outdated(to_hash: ContentToHash, key: Seq<u8>)
    ensures
        hashed_for_scheme("01"@, &to_hash, key) matches Ok(stored) ==> validated_pwd(
            &to_hash,
            stored,
            key,
        ) == Ok::<SchemeStatus, ErrorView>(SchemeStatus::Outdated),
{
    lemma_scheme_names();
    lemma_stored_validates("01"@, to_hash, key);
}

/// What was stored for one password refuses another: the validation fails,
/// and it fails as a wrong password, unless the scheme derives the same bytes
/// from both. Two contents under one salt are never the same bytes to the
/// scheme, so only a collision of what it derives could let one pass for the
/// other; none is known.
pub proof fn lemma_other_password_is_refused(
    stored_for: ContentToHash,
    presented: ContentToHash,
    key: Seq<u8>,
)
    requires
        stored_for.content@ != presented.content@,
        stored_for.salt == presented.salt,
    ensures
        stored_for.content_bytes() != presented.content_bytes(),
        (hashed_pwd(&stored_for, key) matches Ok(stored) && hashed_pwd(&presented, key) is Ok
            && scheme_02::derived(&stored_for, key) != scheme_02::derived(&presented, key))
            ==> validated_pwd(&presented, hashed_pwd(&stored_for, key)->Ok_0, key) == Err::<
            SchemeStatus,
            ErrorView,
        >(ErrorView::Scheme(scheme::ErrorView::PassValidate)),
{
    lemma_scheme_names();
    vstd::utf8::encode_utf8_decode_utf8(stored_for.content@);
    vstd::utf8::encode_utf8_decode_utf8(presented.content@);
    let s = scheme_of(DEFAULT_SCHEME@)->Some_0;
    match (s.hashed(&stored_for, key), s.hashed(&presented, key)) {
        (Ok(h1), Ok(h2)) => {
            s.lemma_hashed_can_be_stored(&stored_for, key);
            lemma_round_trip(DEFAULT_SCHEME@, h1);
            if h1 == h2 {
                lemma_hex_of_injective(
                    scheme_02::derived(&stored_for, key)->Some_0,
                    scheme_02::derived(&presented, key)->Some_0,
                );
            }
        },
        _ => {},
    }
}

/// A stored password whose scheme name no scheme has is refused for that
/// reason, whatever follows the name.
pub proof fn lemma_unknown_scheme(
    to_hash: ContentToHash,
    scheme_name: Seq<char>,
    hashed: Seq<char>,
    key: Seq<u8>,
)
    requires
        is_scheme_name(scheme_name),
        is_hashed(hashed),
        scheme_name != "01"@,
        scheme_name != "02"@,
    ensures
        validated_pwd(&to_hash, stored_form(scheme_name, hashed), key) == Err::<
            SchemeStatus,
            ErrorView,
        >(ErrorView::Scheme(scheme::ErrorView::SchemeNotFound(scheme_name))),
{
    lemma_round_trip(scheme_name, hashed);
}

} // verus!

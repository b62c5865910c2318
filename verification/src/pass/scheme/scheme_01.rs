//! The first scheme: HMAC-SHA-512 over the content and then the salt, written
//! in hexadecimal. It hashes no new password; it validates the old ones.

use vstd::prelude::*;

use super::{hashed_view, validate_hashed, Error, ErrorView, Scheme};
use crate::pass::hex::{hex_encode, hex_of, lemma_hex_of_is_hashed};
use crate::pass::ContentToHash;

verus! {

/// The HMAC-SHA-512 tag of `msg` under `key`: none where the key is refused.
pub uninterp spec fn hmac_sha512_tag(key: Seq<u8>, msg: Seq<u8>) -> Option<Seq<u8>>;

/// The error with which `hmac`'s `new_from_slice` refuses a key: nothing is
/// known of it but that it came.
#[verifier::external_type_specification]
#[verifier::external_body]
pub struct ExInvalidLength(hmac::digest::InvalidLength);

/// Makes an `hmac::Hmac<sha2::Sha512>` with `new_from_slice`, feeds it `msg`
/// with `update`, and takes the bytes of what `finalize` gives. The tag
/// depends on the key and the message alone; the contract names it, and says
/// no more of it.
#[verifier::external_body]
fn hmac_sha512(key: &[u8], msg: &[u8]) -> (res: Result<Vec<u8>, hmac::digest::InvalidLength>)
    ensures
        match res {
            Ok(tag) => hmac_sha512_tag(key@, msg@) == Some(tag@),
            Err(_) => hmac_sha512_tag(key@, msg@) is None,
        },
{
    let mut mac = <hmac::Hmac<sha2::Sha512> as hmac::Mac>::new_from_slice(key)?;
    hmac::Mac::update(&mut mac, msg);
    Ok(hmac::Mac::finalize(mac).into_bytes().to_vec())
}

/// The tag of the content followed by the salt, under `key`.
pub open spec fn tag_of(to_hash: &ContentToHash, key: Seq<u8>) -> Option<Seq<u8>> {
    hmac_sha512_tag(key, to_hash.content_bytes() + to_hash.salt@)
}

/// The hashed password for a tag: the tag in hexadecimal. Where the key was
/// refused there is none, and an empty tag is none.
pub open spec fn hashed_of_tag(tag: Option<Seq<u8>>) -> Result<Seq<char>, ErrorView> {
    match tag {
        None => Err(ErrorView::Key),
        Some(t) => if t.len() == 0 {
            Err(ErrorView::Hash)
        } else {
            Ok(hex_of(t))
        },
    }
}

/// What `tagged` holds, if it holds a tag.
pub open spec fn tag_view(tagged: Result<Vec<u8>, hmac::digest::InvalidLength>) -> Option<
    Seq<u8>,
> {
    match tagged {
        Ok(t) => Some(t@),
        Err(_) => None,
    }
}

/// The hashed password for what came of computing the tag.
pub fn hashed_from_tag(tagged: Result<Vec<u8>, hmac::digest::InvalidLength>) -> (res: Result<
    String,
    Error,
>)
    ensures
        hashed_view(res) == hashed_of_tag(tag_view(tagged)),
{
    match tagged {
        Err(_) => Err(Error::Key),
        Ok(tag) => {
            if tag.len() == 0 {
                Err(Error::Hash)
            } else {
                Ok(hex_encode(tag.as_slice()))
            }
        },
    }
}

pub struct Scheme01;

impl Scheme for Scheme01 {
    /// An empty key is no key. Otherwise the hashed password is the tag of
    /// the content followed by the salt, in hexadecimal.
    open spec fn hashed(&self, to_hash: &ContentToHash, key: Seq<u8>) -> Result<
        Seq<char>,
        ErrorView,
    > {
        if key.len() == 0 {
            Err(ErrorView::Key)
        } else {
            hashed_of_tag(tag_of(to_hash, key))
        }
    }

    proof fn lemma_hashed_can_be_stored(&self, to_hash: &ContentToHash, key: Seq<u8>) {
        match tag_of(to_hash, key) {
            None => {},
            Some(tag) => lemma_hex_of_is_hashed(tag),
        }
    }

    fn hash(&self, to_hash: &ContentToHash, key: &[u8]) -> (res: Result<String, Error>) {
        if key.len() == 0 {
            return Err(Error::Key);
        }
        let msg = to_hash.salted_content();
        hashed_from_tag(hmac_sha512(key, msg.as_slice()))
    }

    fn validate(&self, to_hash: &ContentToHash, pwd_ref: &str, key: &[u8]) -> (res: Result<
        (),
        Error,
    >) {
        validate_hashed(self.hash(to_hash, key), pwd_ref)
    }
}

} // verus!

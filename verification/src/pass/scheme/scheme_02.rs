//! The second scheme, and the default: Argon2id, version 0x13, keyed, written
//! in hexadecimal. It takes memory and time on purpose.

use vstd::prelude::*;

use super::{hashed_view, validate_hashed, Error, ErrorView, Scheme};
use crate::pass::hex::{hex_encode, hex_of, lemma_hex_of_is_hashed};
use crate::pass::ContentToHash;

verus! {

/// Memory, in KiB.
pub const M_COST: u32 = 19456;

/// Passes over the memory.
pub const T_COST: u32 = 2;

/// Lanes.
pub const P_COST: u32 = 1;

/// Bytes that are derived.
pub const OUTPUT_LEN: usize = 32;

/// The most memory, in KiB, that `argon2id` is asked for.
pub const MAX_M_COST: u32 = 0x10_0000;

/// The most lanes that `argon2id` is asked for.
pub const MAX_P_COST: u32 = 0xFF_FFFF;

/// The most bytes that `argon2id` is asked to derive.
pub const MAX_OUTPUT_LEN: usize = 1024;

/// The bytes that Argon2id, version 0x13, derives from a password and a salt
/// under a key, with these costs and of this length: none where it refuses.
pub uninterp spec fn argon2id_output(
    key: Seq<u8>,
    pwd: Seq<u8>,
    salt: Seq<u8>,
    m_cost: u32,
    t_cost: u32,
    p_cost: u32,
    output_len: usize,
) -> Option<Seq<u8>>;

/// Calls `argon2::Argon2::hash_password_into` on a buffer of `output_len`
/// zero bytes, with a context that `Argon2::new_with_secret` makes from `key`,
/// `Algorithm::Argon2id`, `Version::V0x13` and the `Params::new` of the costs
/// and the length. Where any of the three refuses, nothing is derived. What
/// is derived depends on the arguments alone; the contract names it, and says
/// no more of it. The bounds keep out the costs and lengths for which the
/// crate would multiply beyond `u32` or ask for more memory than can be
/// expected.
#[verifier::external_body]
fn argon2id(
    key: &[u8],
    pwd: &[u8],
    salt: &[u8],
    m_cost: u32,
    t_cost: u32,
    p_cost: u32,
    output_len: usize,
) -> (res: Option<Vec<u8>>)
    requires
        m_cost <= MAX_M_COST,
        p_cost <= MAX_P_COST,
        output_len <= MAX_OUTPUT_LEN,
    ensures
        match res {
            Some(out) => argon2id_output(key@, pwd@, salt@, m_cost, t_cost, p_cost, output_len)
                == Some(out@),
            None => argon2id_output(key@, pwd@, salt@, m_cost, t_cost, p_cost, output_len)
                is None,
        },
{
    let params = argon2::Params::new(m_cost, t_cost, p_cost, Some(output_len)).ok()?;
    let ctx = argon2::Argon2::new_with_secret(
        key,
        argon2::Algorithm::Argon2id,
        argon2::Version::V0x13,
        params,
    ).ok()?;
    let mut out = vec![0u8; output_len];
    ctx.hash_password_into(pwd, salt, &mut out).ok()?;
    Some(out)
}

/// What the scheme derives from the content and the salt under `key`.
pub open spec fn derived(to_hash: &ContentToHash, key: Seq<u8>) -> Option<Seq<u8>> {
    argon2id_output(key, to_hash.content_bytes(), to_hash.salt@, M_COST, T_COST, P_COST, OUTPUT_LEN)
}

/// The hashed password for what was derived: the bytes in hexadecimal. Where
/// nothing was derived there is none.
pub open spec fn hashed_of_derived(out: Option<Seq<u8>>) -> Result<Seq<char>, ErrorView> {
    match out {
        None => Err(ErrorView::Hash),
        Some(bytes) => if bytes.len() == 0 {
            Err(ErrorView::Hash)
        } else {
            Ok(hex_of(bytes))
        },
    }
}

/// What `out` holds, if it holds bytes.
pub open spec fn derived_view(out: Option<Vec<u8>>) -> Option<Seq<u8>> {
    match out {
        Some(bytes) => Some(bytes@),
        None => None,
    }
}

/// The hashed password for what came of deriving.
pub fn hashed_from_derived(out: Option<Vec<u8>>) -> (res: Result<String, Error>)
    ensures
        hashed_view(res) == hashed_of_derived(derived_view(out)),
{
    match out {
        None => Err(Error::Hash),
        Some(bytes) => {
            if bytes.len() == 0 {
                Err(Error::Hash)
            } else {
                Ok(hex_encode(bytes.as_slice()))
            }
        },
    }
}

pub struct Scheme02;

impl Scheme for Scheme02 {
    /// An empty key is no key. Otherwise the hashed password is what is
    /// derived from the content and the salt, in hexadecimal.
    open spec fn hashed(&self, to_hash: &ContentToHash, key: Seq<u8>) -> Result<
        Seq<char>,
        ErrorView,
    > {
        if key.len() == 0 {
            Err(ErrorView::Key)
        } else {
            hashed_of_derived(derived(to_hash, key))
        }
    }

    proof fn lemma_hashed_can_be_stored(&self, to_hash: &ContentToHash, key: Seq<u8>) {
        match derived(to_hash, key) {
            None => {},
            Some(out) => lemma_hex_of_is_hashed(out),
        }
    }

    fn hash(&self, to_hash: &ContentToHash, key: &[u8]) -> (res: Result<String, Error>) {
        if key.len() == 0 {
            return Err(Error::Key);
        }
        hashed_from_derived(
            argon2id(
                key,
                to_hash.content.as_str().as_bytes(),
                to_hash.salt.as_slice(),
                M_COST,
                T_COST,
                P_COST,
                OUTPUT_LEN,
            ),
        )
    }

    fn validate(&self, to_hash: &ContentToHash, pwd_ref: &str, key: &[u8]) -> (res: Result<
        (),
        Error,
    >) {
        validate_hashed(self.hash(to_hash, key), pwd_ref)
    }
}

} // verus!

//! A typed handle for a metadata account, for code that passes such an
//! account on without reading it.

use crate::keys::{token_metadata_program_id, token_metadata_program_key};
use vstd::prelude::*;

verus! {

/// The error type of `anchor_lang`. No function of this crate makes one.
#[verifier::external_type_specification]
#[verifier::external_body]
pub struct ExError(anchor_lang::error::Error);

/// Marks an account as one of the token metadata program. It holds nothing:
/// the layout of the account is the metadata program's own.
#[derive(Clone, Copy, Debug, PartialEq, Eq)]
pub struct TokenMetadata;

impl TokenMetadata {
    /// Makes the handle for an account with the given contents. The bytes are
    /// neither read nor consumed, and every input is accepted.
    pub fn try_deserialize(buf: &mut &[u8]) -> (handle: Result<Self, anchor_lang::error::Error>)
        ensures
            handle == Ok::<Self, anchor_lang::error::Error>(TokenMetadata),
            *final(buf) == *old(buf),
    {
        TokenMetadata::try_deserialize_unchecked(buf)
    }

    /// As `try_deserialize`.
    pub fn try_deserialize_unchecked(_buf: &mut &[u8]) -> (handle: Result<
        Self,
        anchor_lang::error::Error,
    >)
        ensures
            handle == Ok::<Self, anchor_lang::error::Error>(TokenMetadata),
            *final(_buf) == *old(_buf),
    {
        Ok(TokenMetadata)
    }

    /// Address of the program that owns every metadata account.
    pub fn owner() -> (key: [u8; 32])
        ensures
            key@ == token_metadata_program_key(),
    {
        token_metadata_program_id()
    }

    /// Address of the token metadata program.
    pub fn id() -> (key: [u8; 32])
        ensures
            key@ == token_metadata_program_key(),
    {
        token_metadata_program_id()
    }
}

} // verus!

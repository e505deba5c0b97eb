//! The fixed addresses that the calls refer to.

use anchor_lang::solana_program;
use vstd::prelude::*;

verus! {

/// Address of the system program: thirty-two zero bytes.
pub open spec fn system_program_key() -> Seq<u8> {
    Seq::new(32, |i: int| 0u8)
}

/// Address of the rent sysvar.
pub open spec fn rent_sysvar_key() -> Seq<u8> {
    seq![
        6u8, 167, 213, 23, 25, 44, 92, 81, 33, 140, 201, 76, 61, 74, 241, 127,
        88, 218, 238, 8, 155, 161, 253, 68, 227, 219, 217, 138, 0, 0, 0, 0,
    ]
}

/// Address of the token metadata program.
pub open spec fn token_metadata_program_key() -> Seq<u8> {
    seq![
        11u8, 112, 101, 177, 227, 209, 124, 69, 56, 157, 82, 127, 107, 4, 195, 205,
        88, 184, 108, 115, 26, 160, 253, 181, 73, 182, 209, 188, 3, 248, 41, 70,
    ]
}

/// Calls `solana_program::system_program::id`. Trusted: the address that the
/// crate declares, `11111111111111111111111111111111` in base 58, is thirty-two
/// zero bytes.
#[verifier::external_body]
pub(crate) fn system_program_id() -> (id: [u8; 32])
    ensures
        id@ == system_program_key(),
{
    solana_program::system_program::id().to_bytes()
}

/// Calls `solana_program::sysvar::rent::id`. Trusted: the address that the
/// crate declares, `SysvarRent111111111111111111111111111111111` in base 58,
/// is the byte string `rent_sysvar_key`.
#[verifier::external_body]
pub(crate) fn rent_sysvar_id() -> (id: [u8; 32])
    ensures
        id@ == rent_sysvar_key(),
{
    solana_program::sysvar::rent::id().to_bytes()
}

/// Calls `spl_token_metadata::id`. Trusted: the address that the crate
/// declares, `metaqbxxUerdq28cj1RbAWkYQm3ybzjb6a8bt518x1s` in base 58, is the
/// byte string `token_metadata_program_key`.
#[verifier::external_body]
pub(crate) fn token_metadata_program_id() -> (id: [u8; 32])
    ensures
        id@ == token_metadata_program_key(),
{
    spl_token_metadata::id().to_bytes()
}

/// Whether two addresses hold the same bytes.
pub fn same_key(a: &[u8; 32], b: &[u8; 32]) -> (same: bool)
    ensures
        same == (a@ == b@),
{
    let mut i: usize = 0;
    while i < 32
        invariant
            i <= 32,
            forall|j: int| 0 <= j < i ==> a@[j] == b@[j],
        decreases 32 - i,
    {
        if a[i] != b[i] {
            return false;
        }
        i += 1;
    }
    assert(a@ =~= b@);
    true
}

} // verus!

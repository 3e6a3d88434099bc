use crate::address::Address;
use crate::error::ProcessError;
use solana_program::program_error::ProgramError;
use solana_program::program_pack::Pack;
use spl_token::state::{Account, Mint};
use vstd::prelude::*;

verus! {

/// Size of a token program mint.
pub const MINT_LEN: usize = 82;

/// Size of a token program account.
pub const TOKEN_ACCOUNT_LEN: usize = 165;

/// Whether the four bytes at `at` are an option tag the token program
/// accepts: `[0, 0, 0, 0]` or `[1, 0, 0, 0]`.
pub open spec fn option_tag_ok(b: Seq<u8>, at: int) -> bool {
    (b[at] == 0 || b[at] == 1) && b[at + 1] == 0 && b[at + 2] == 0 && b[at + 3] == 0
}

/// Whether `b` is an initialized mint: 82 bytes, valid authority tags and an
/// initialized flag of 1.
pub open spec fn mint_valid(b: Seq<u8>) -> bool {
    &&& b.len() == MINT_LEN
    &&& option_tag_ok(b, 0)
    &&& b[45] == 1
    &&& option_tag_ok(b, 46)
}

/// Whether `b` has the shape of a token account: 165 bytes, valid option
/// tags and a state byte of 0, 1 or 2.
pub open spec fn token_account_layout_ok(b: Seq<u8>) -> bool {
    &&& b.len() == TOKEN_ACCOUNT_LEN
    &&& option_tag_ok(b, 72)
    &&& b[108] <= 2
    &&& option_tag_ok(b, 109)
    &&& option_tag_ok(b, 129)
}

/// Whether `b` is a token account that has been initialized.
pub open spec fn token_account_valid(b: Seq<u8>) -> bool {
    token_account_layout_ok(b) && b[108] != 0
}

/// What reading a token account from `b` gives: its mint and owner, or the
/// token program's error.
pub open spec fn token_account_spec(b: Seq<u8>) -> Result<(Seq<u8>, Seq<u8>), ProcessError> {
    if !token_account_layout_ok(b) {
        Err(ProcessError::InvalidAccountData)
    } else if b[108] == 0 {
        Err(ProcessError::UninitializedAccount)
    } else {
        Ok((b.subrange(0, 32), b.subrange(32, 64)))
    }
}

/// The fields of a token account that the swap logic reads.
#[derive(Debug, Clone, Copy)]
pub struct TokenAccountFields {
    pub mint: Address,
    pub owner: Address,
}

/// Relies on spl_token's Mint::unpack: it accepts exactly 82 bytes whose two
/// option tags are valid and whose initialized flag is 1.
#[verifier::external_body]
pub(crate) fn mint_unpacks(data: &[u8]) -> (r: bool)
    ensures
        r == mint_valid(data@),
{
    Mint::unpack(data).is_ok()
}

/// Relies on spl_token's Account::unpack: it accepts exactly 165 bytes with
/// valid option tags and a known state, fails with UninitializedAccount on
/// state 0 and with InvalidAccountData otherwise; mint and owner are the
/// first two 32-byte fields.
#[verifier::external_body]
pub(crate) fn unpack_token_account(data: &[u8]) -> (r: Result<TokenAccountFields, ProcessError>)
    ensures
        match (r, token_account_spec(data@)) {
            (Ok(f), Ok((mint, owner))) => f.mint.bytes@ == mint && f.owner.bytes@ == owner,
            (Err(e), Err(e2)) => e == e2,
            _ => false,
        },
{
    match Account::unpack(data) {
        Ok(a) => Ok(TokenAccountFields {
            mint: Address { bytes: a.mint.to_bytes() },
            owner: Address { bytes: a.owner.to_bytes() },
        }),
        Err(ProgramError::UninitializedAccount) => Err(ProcessError::UninitializedAccount),
        Err(_) => Err(ProcessError::InvalidAccountData),
    }
}

} // verus!

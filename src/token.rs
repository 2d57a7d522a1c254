use solana_program::instruction::Instruction;
use solana_program::program_error::ProgramError;
use solana_program::program_pack::Pack;
use solana_program::pubkey::Pubkey;
use vstd::bytes::spec_u64_from_le_bytes;
use vstd::prelude::*;

use crate::error::ProcessError;
use crate::state::Key;

verus! {

/// The host's instruction type, carried through opaque.
#[verifier::external_type_specification]
#[verifier::external_body]
pub struct ExInstruction(Instruction);

/// The host's generic error type, carried through opaque.
#[verifier::external_type_specification]
#[verifier::external_body]
pub struct ExProgramError(ProgramError);

/// Size in bytes of a token account's data.
pub const TOKEN_ACCOUNT_LEN: usize = 165;

/// The token program's identity.
pub open spec fn token_program_key() -> Seq<u8> {
    seq![
        6u8, 221, 246, 225, 215, 101, 161, 147, 217, 203, 225, 70, 206, 235, 121, 172,
        28, 180, 133, 237, 95, 91, 55, 145, 58, 140, 245, 133, 126, 255, 0, 169,
    ]
}

/// The address and bump that the host derives for a seed under a program.
pub uninterp spec fn program_address(seed: Seq<u8>, program_id: Seq<u8>) -> Option<(Seq<u8>, u8)>;

/// The token balance stored in a token account's data.
pub open spec fn token_amount_field(data: Seq<u8>) -> u64 {
    spec_u64_from_le_bytes(data.subrange(64, 72))
}

/// The state byte of a token account: 0 uninitialized, 1 initialized, 2 frozen.
pub open spec fn token_state_field(data: Seq<u8>) -> u8 {
    data[108]
}

/// Whether the four bytes at `at` are an option tag of the token account
/// format: `0 0 0 0` for none, `1 0 0 0` for some.
pub open spec fn option_tag_valid(data: Seq<u8>, at: int) -> bool {
    &&& data[at] == 0 || data[at] == 1
    &&& data[at + 1] == 0
    &&& data[at + 2] == 0
    &&& data[at + 3] == 0
}

/// What reading a token account's balance gives for `data`: the account must
/// be 165 bytes, its delegate (at 72), native-reserve (at 109) and close-authority
/// (at 129) option tags valid and its state byte at most 2; a state of 0 is an
/// uninitialized account.
pub open spec fn token_read(data: Seq<u8>) -> Result<u64, ProcessError> {
    if data.len() != TOKEN_ACCOUNT_LEN || !option_tag_valid(data, 72) || token_state_field(data)
        > 2 || !option_tag_valid(data, 109) || !option_tag_valid(data, 129) {
        Err(ProcessError::InvalidAccountData)
    } else if token_state_field(data) == 0 {
        Err(ProcessError::UninitializedAccount)
    } else {
        Ok(token_amount_field(data))
    }
}

/// Relies on spl_token::id: the token program's fixed identity.
#[verifier::external_body]
pub(crate) fn token_program_id() -> (r: Key)
    ensures
        r@ == token_program_key(),
{
    spl_token::id().to_bytes()
}

/// Relies on Pubkey::try_find_program_address: the derived address and bump
/// depend on the seed and the program alone.
#[verifier::external_body]
pub(crate) fn find_program_address(seed: &[u8], program_id: &Key) -> (r: Option<(Key, u8)>)
    ensures
        r is None <==> program_address(seed@, program_id@) is None,
        r is Some ==> program_address(seed@, program_id@) == Some((r.unwrap().0@, r.unwrap().1)),
{
    Pubkey::try_find_program_address(&[seed], &Pubkey::new_from_array(*program_id)).map(
        |(k, b)| (k.to_bytes(), b),
    )
}

/// Relies on spl_token's Account::unpack (Pack::unpack over
/// Account::unpack_from_slice): the length, option tags and state byte decide
/// success, and the balance sits little-endian at bytes 64..72.
#[verifier::external_body]
pub(crate) fn token_account_amount(data: &[u8]) -> (r: Result<u64, ProcessError>)
    ensures
        r == token_read(data@),
{
    match spl_token::state::Account::unpack(data) {
        Ok(account) => Ok(account.amount),
        Err(ProgramError::UninitializedAccount) => Err(ProcessError::UninitializedAccount),
        Err(_) => Err(ProcessError::InvalidAccountData),
    }
}

/// Relies on spl_token::instruction::set_authority: it refuses only a token
/// program other than its own.
#[verifier::external_body]
pub(crate) fn set_owner_instruction(program: &Key, account: &Key, new_owner: &Key, owner: &Key)
    -> (r: Result<Instruction, ProgramError>)
    ensures
        r is Ok <==> program@ == token_program_key(),
{
    let owner = Pubkey::new_from_array(*owner);
    spl_token::instruction::set_authority(
        &Pubkey::new_from_array(*program),
        &Pubkey::new_from_array(*account),
        Some(&Pubkey::new_from_array(*new_owner)),
        spl_token::instruction::AuthorityType::AccountOwner,
        &owner,
        &[&owner],
    )
}

/// Relies on spl_token::instruction::transfer: it refuses only a token
/// program other than its own.
#[verifier::external_body]
pub(crate) fn transfer_instruction(
    program: &Key,
    source: &Key,
    destination: &Key,
    authority: &Key,
    amount: u64,
) -> (r: Result<Instruction, ProgramError>)
    ensures
        r is Ok <==> program@ == token_program_key(),
{
    let authority = Pubkey::new_from_array(*authority);
    spl_token::instruction::transfer(
        &Pubkey::new_from_array(*program),
        &Pubkey::new_from_array(*source),
        &Pubkey::new_from_array(*destination),
        &authority,
        &[&authority],
        amount,
    )
}

/// Relies on spl_token::instruction::close_account: it refuses only a token
/// program other than its own.
#[verifier::external_body]
pub(crate) fn close_account_instruction(
    program: &Key,
    account: &Key,
    destination: &Key,
    owner: &Key,
) -> (r: Result<Instruction, ProgramError>)
    ensures
        r is Ok <==> program@ == token_program_key(),
{
    let owner = Pubkey::new_from_array(*owner);
    spl_token::instruction::close_account(
        &Pubkey::new_from_array(*program),
        &Pubkey::new_from_array(*account),
        &Pubkey::new_from_array(*destination),
        &owner,
        &[&owner],
    )
}

} // verus!

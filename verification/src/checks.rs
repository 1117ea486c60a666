//! What the program reads of token, mint and stake accounts, and the checks it makes on them.
use vstd::prelude::*;

use crate::error::{MarinadeError, ProgramError};
use crate::pubkey::Pubkey;

verus! {

/// The fields of a token account that the program reads.
#[derive(Clone, Copy, Debug)]
pub struct TokenAccount {
    pub mint: Pubkey,
    pub owner: Pubkey,
    pub amount: u64,
    pub delegate: Option<Pubkey>,
    pub delegated_amount: u64,
}

/// The fields of a mint that the program reads.
#[derive(Clone, Copy, Debug)]
pub struct Mint {
    pub mint_authority: Option<Pubkey>,
    pub supply: u64,
    pub freeze_authority: Option<Pubkey>,
}

/// The delegation of a stake account.
#[derive(Clone, Copy, Debug)]
pub struct Delegation {
    pub voter_pubkey: Pubkey,
    pub stake: u64,
    pub activation_epoch: u64,
    pub deactivation_epoch: u64,
}

/// The fields of a stake account that the program reads.
#[derive(Clone, Copy, Debug)]
pub struct StakeAccountInfo {
    pub lamports: u64,
    /// `None` when the account is not delegated.
    pub delegation: Option<Delegation>,
    /// Rent reserve of an initialized account.
    pub rent_exempt_reserve: u64,
    pub staker: Pubkey,
    pub withdrawer: Pubkey,
    /// Whether a lockup is in force at the current time.
    pub lockup_in_force: bool,
    /// Whether the lockup names a custodian.
    pub lockup_has_custodian: bool,
}

/// Whether an optional address is the given one.
pub open spec fn holds_key(k: Option<Pubkey>, key: Pubkey) -> bool {
    k matches Some(v) && v@ == key@
}

fn option_holds_key(k: &Option<Pubkey>, key: &Pubkey) -> (r: bool)
    ensures
        r == holds_key(*k, *key),
{
    match k {
        Some(v) => v.same_key(key),
        None => false,
    }
}

/// Checks the account is owned by the `owner` program.
pub fn check_owner_program(account_owner: &Pubkey, owner: &Pubkey, field_name: &str) -> (r: Result<(), ProgramError>)
    ensures
        r is Ok <==> account_owner@ == owner@,
        r is Err ==> r == Err::<(), ProgramError>(ProgramError::InvalidArgument),
{
    if account_owner.same_key(owner) {
        Ok(())
    } else {
        Err(ProgramError::InvalidArgument)
    }
}

/// Checks the mint authority of a mint.
pub fn check_mint_authority(mint: &Mint, mint_authority: &Pubkey, field_name: &str) -> (r: Result<(), ProgramError>)
    ensures
        r is Ok <==> holds_key(mint.mint_authority, *mint_authority),
        r is Err ==> r == Err::<(), ProgramError>(ProgramError::InvalidAccountData),
{
    if option_holds_key(&mint.mint_authority, mint_authority) {
        Ok(())
    } else {
        Err(ProgramError::InvalidAccountData)
    }
}

/// Checks a mint has no freeze authority.
pub fn check_freeze_authority(mint: &Mint, field_name: &str) -> (r: Result<(), ProgramError>)
    ensures
        r is Ok <==> mint.freeze_authority is None,
        r is Err ==> r == Err::<(), ProgramError>(ProgramError::InvalidAccountData),
{
    if mint.freeze_authority.is_none() {
        Ok(())
    } else {
        Err(ProgramError::InvalidAccountData)
    }
}

/// Checks a mint has no supply yet.
pub fn check_mint_empty(mint: &Mint, field_name: &str) -> (r: Result<(), ProgramError>)
    ensures
        r is Ok <==> mint.supply == 0,
        r is Err ==> r == Err::<(), ProgramError>(ProgramError::InvalidArgument),
{
    if mint.supply == 0 {
        Ok(())
    } else {
        Err(ProgramError::InvalidArgument)
    }
}

/// Checks a token account holds tokens of `mint`.
pub fn check_token_mint(token: &TokenAccount, mint: &Pubkey, field_name: &str) -> (r: Result<(), ProgramError>)
    ensures
        r is Ok <==> token.mint@ == mint@,
        r is Err ==> r == Err::<(), ProgramError>(ProgramError::InvalidAccountData),
{
    if token.mint.same_key(mint) {
        Ok(())
    } else {
        Err(ProgramError::InvalidAccountData)
    }
}

/// Checks a token account is owned by `owner`.
pub fn check_token_owner(token: &TokenAccount, owner: &Pubkey, field_name: &str) -> (r: Result<(), ProgramError>)
    ensures
        r is Ok <==> token.owner@ == owner@,
        r is Err ==> r == Err::<(), ProgramError>(ProgramError::InvalidAccountData),
{
    if token.owner.same_key(owner) {
        Ok(())
    } else {
        Err(ProgramError::InvalidAccountData)
    }
}

/// What `check_stake_amount_and_validator` answers.
pub open spec fn spec_check_stake_amount_and_validator(
    delegation: Option<Delegation>,
    expected_stake_amount: u64,
    validator_vote_pubkey: Pubkey,
) -> Result<(), MarinadeError> {
    match delegation {
        None => Err(MarinadeError::StakeNotDelegated),
        Some(d) => if d.voter_pubkey@ != validator_vote_pubkey@ {
            Err(MarinadeError::WrongValidatorAccountOrIndex)
        } else if d.stake != expected_stake_amount {
            Err(MarinadeError::StakeAccountNotUpdatedYet)
        } else {
            Ok(())
        },
    }
}

// check that the account is delegated and to the right validator
// also that the stake amount is updated
pub fn check_stake_amount_and_validator(
    delegation: &Option<Delegation>,
    expected_stake_amount: u64,
    validator_vote_pubkey: &Pubkey,
) -> (r: Result<(), MarinadeError>)
    ensures
        r == spec_check_stake_amount_and_validator(*delegation, expected_stake_amount, *validator_vote_pubkey),
{
    let currently_staked = match delegation {
        Some(d) => {
            if !d.voter_pubkey.same_key(validator_vote_pubkey) {
                return Err(MarinadeError::WrongValidatorAccountOrIndex);
            }
            d.stake
        },
        None => {
            return Err(MarinadeError::StakeNotDelegated);
        },
    };
    // do not allow to operate on an account where last_update_delegated_lamports != currently_staked
    if currently_staked != expected_stake_amount {
        return Err(MarinadeError::StakeAccountNotUpdatedYet);
    }
    Ok(())
}

/// What `check_token_source_account` answers.
pub open spec fn spec_check_token_source_account(source: TokenAccount, authority: Pubkey, token_amount: u64) -> Result<
    (),
    MarinadeError,
> {
    if holds_key(source.delegate, authority) {
        if token_amount > source.delegated_amount {
            Err(MarinadeError::NotEnoughUserFunds)
        } else {
            Ok(())
        }
    } else if authority@ == source.owner@ {
        if token_amount > source.amount {
            Err(MarinadeError::NotEnoughUserFunds)
        } else {
            Ok(())
        }
    } else {
        Err(MarinadeError::WrongTokenOwnerOrDelegate)
    }
}

/// Checks `authority` may move `token_amount` tokens from `source_account`: as its delegate
/// within the delegated amount, or as its owner within the balance.
pub fn check_token_source_account(source_account: &TokenAccount, authority: &Pubkey, token_amount: u64) -> (r: Result<
    (),
    MarinadeError,
>)
    ensures
        r == spec_check_token_source_account(*source_account, *authority, token_amount),
{
    if option_holds_key(&source_account.delegate, authority) {
        // if delegated, check delegated amount
        // delegated_amount & delegate must be set on the user's msol account before calling OrderUnstake
        if token_amount > source_account.delegated_amount {
            return Err(MarinadeError::NotEnoughUserFunds);
        }
    } else if authority.same_key(&source_account.owner) {
        if token_amount > source_account.amount {
            return Err(MarinadeError::NotEnoughUserFunds);
        }
    } else {
        return Err(MarinadeError::WrongTokenOwnerOrDelegate);
    }
    Ok(())
}

/// Size of a stake account's data.
pub const STAKE_STATE_SIZE: usize = 200;

/// What the data of a stake account holds: `None` when it is no stake state, `Some(true)` when
/// the state is `Uninitialized`, `Some(false)` for any other state.
pub uninterp spec fn spec_stake_state_uninitialized(data: Seq<u8>) -> Option<bool>;

/// `bincode::deserialize` of the runtime's `StakeState`, telling the uninitialized state from
/// the others. Claimed: the result is the named function of the bytes; and, as the sources show
/// (the variant index is written first as a little-endian `u32`, `Uninitialized` is the first
/// variant and carries nothing, trailing bytes are allowed), it is `Some(true)` exactly when
/// the data starts with four zero bytes.
#[verifier::external_body]
#[allow(deprecated)]
pub(crate) fn stake_state_uninitialized(data: &[u8]) -> (r: Option<bool>)
    ensures
        r == spec_stake_state_uninitialized(data@),
        (r == Some(true)) == (data@.len() >= 4 && data@[0] == 0 && data@[1] == 0 && data@[2] == 0 && data@[3] == 0),
{
    match bincode::deserialize::<anchor_lang::solana_program::stake::state::StakeState>(data) {
        Ok(anchor_lang::solana_program::stake::state::StakeState::Uninitialized) => Some(true),
        Ok(_) => Some(false),
        Err(_) => None,
    }
}

/// Size of a token account's data.
pub const TOKEN_ACCOUNT_SIZE: usize = 165;

/// The token account the data holds, or `None` when it holds none (wrong size, or a field that
/// does not decode, or not initialized).
pub uninterp spec fn spec_unpack_token_account(data: Seq<u8>) -> Option<TokenAccount>;

/// `Pack::unpack` of the token program's `Account`. Claimed: the result is the named function
/// of the bytes; and, as the source shows, a decoded account came from exactly 165 bytes, with
/// the mint in the first 32, the owner in the next 32 and the amount in the next 8 (little
/// endian). Which data decode at all is left to the name.
#[verifier::external_body]
pub(crate) fn unpack_token_account(data: &[u8]) -> (r: Option<TokenAccount>)
    ensures
        r == spec_unpack_token_account(data@),
        r is Some ==> data@.len() == TOKEN_ACCOUNT_SIZE,
        r matches Some(t) ==> t.mint@ == data@.subrange(0, 32) && t.owner@ == data@.subrange(32, 64) && t.amount
            == crate::codec::le_value_u64(data@.subrange(64, 72)),
{
    match <spl_token::state::Account as spl_token::solana_program::program_pack::Pack>::unpack(data) {
        Ok(a) => Some(TokenAccount {
            mint: Pubkey::new_from_array(a.mint.to_bytes()),
            owner: Pubkey::new_from_array(a.owner.to_bytes()),
            amount: a.amount,
            delegate: a.delegate.map(|k| Pubkey::new_from_array(k.to_bytes())).into(),
            delegated_amount: a.delegated_amount,
        }),
        Err(_) => None,
    }
}

/// Every instruction runs under this program's id and with no account beyond those it names.
pub fn check_context(program_id: &Pubkey, remaining_accounts: usize) -> (r: Result<(), MarinadeError>)
    ensures
        program_id@ != crate::pda::spec_program_id() ==> r == Err::<(), MarinadeError>(MarinadeError::InvalidProgramId),
        program_id@ == crate::pda::spec_program_id() && remaining_accounts != 0 ==> r == Err::<(), MarinadeError>(
            MarinadeError::UnexpectedAccount,
        ),
        r is Ok <==> program_id@ == crate::pda::spec_program_id() && remaining_accounts == 0,
{
    let id = crate::pda::program_id();
    if !program_id.same_key(&id) {
        return Err(MarinadeError::InvalidProgramId);
    }
    // make sure there are no extra accounts
    if remaining_accounts != 0 {
        return Err(MarinadeError::UnexpectedAccount);
    }
    Ok(())
}

} // verus!

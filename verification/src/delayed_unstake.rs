//! Delayed unstake: burn mSOL for a ticket, claim the ticket's SOL from the reserve once due.
use vstd::prelude::*;

use crate::checks::{check_token_source_account, spec_check_token_source_account, TokenAccount};
use crate::error::{Error, MarinadeError};
use crate::fee::{spec_apply_rate, MAX_BP_CENTS};
use crate::pubkey::Pubkey;
use crate::state::{spec_msol_to_sol, totals_fit, State};

verus! {

/// How many epochs to wait for a ticket: created on epoch 14, due on epoch 15.
pub const WAIT_EPOCHS: u64 = 1;

/// Extra seconds to wait from the epoch start, so the bot has time to withdraw SOL from inactive
/// stake accounts.
pub const EXTRA_WAIT_SECONDS: i64 = 30 * 60;

/// A delayed-unstake ticket.
#[derive(Clone, Copy, Debug, PartialEq, Eq)]
pub struct TicketAccountData {
    pub state_address: Pubkey,  // instance of marinade state this ticket belongs to
    pub beneficiary: Pubkey,  // main account where to send SOL when claimed
    pub lamports_amount: u64,  // amount this ticked is worth
    pub created_epoch: u64,  // epoch when this acc was created (epoch when delayed-unstake was requested)
}

/// What ordering a delayed unstake of `msol_amount` answers: the lamports of the ticket.
pub open spec fn spec_order_unstake_lamports(s: State, msol_amount: u64, source: TokenAccount, authority: Pubkey) -> Result<
    u64,
    Error,
> {
    if s.paused {
        Err(Error::Marinade(MarinadeError::ProgramIsPaused))
    } else if spec_check_token_source_account(source, authority, msol_amount) is Err {
        Err(Error::Marinade(spec_check_token_source_account(source, authority, msol_amount)->Err_0))
    } else {
        match spec_msol_to_sol(s, msol_amount) {
            Err(e) => Err(Error::Marinade(e)),
            Ok(sol_value) => {
                let fee = spec_apply_rate(sol_value, s.delayed_unstake_fee.bp_cents, MAX_BP_CENTS);
                let for_user = (sol_value - fee) as u64;
                if for_user < s.min_withdraw {
                    Err(Error::Marinade(MarinadeError::WithdrawAmountIsTooLow))
                } else if msol_amount > s.msol_supply {
                    Err(Error::Marinade(MarinadeError::CalculationFailure))
                } else {
                    Ok(for_user)
                }
            },
        }
    }
}

/// The epoch a ticket ordered in `epoch` counts from: one later when stake-delta already ran in
/// this epoch.
pub open spec fn spec_ticket_epoch(s: State, epoch: u64) -> u64 {
    if epoch == s.stake_system.last_stake_delta_epoch {
        (epoch + 1) as u64
    } else {
        epoch
    }
}

/// Order a delayed unstake: burn `msol_amount` of the user's mSOL (its value minus the
/// delayed-unstake fee must be at least the minimal withdrawal) and create a ticket for the
/// value, payable to the owner of the mSOL account. The ticket is counted in circulation and
/// the burnt mSOL leaves the supply.
pub fn order_unstake(
    state: &mut State,
    state_address: &Pubkey,
    msol_amount: u64,
    source: &TokenAccount,
    authority: &Pubkey,
    epoch: u64,
) -> (r: Result<TicketAccountData, Error>)
    requires
        totals_fit(*old(state)),
        old(state).delayed_unstake_fee.bp_cents <= MAX_BP_CENTS,
        spec_order_unstake_lamports(*old(state), msol_amount, *source, *authority) matches Ok(v) ==> old(
            state,
        ).circulating_ticket_balance + v <= u64::MAX && old(state).circulating_ticket_count < u64::MAX,
        epoch < u64::MAX,
    ensures
        spec_order_unstake_lamports(*old(state), msol_amount, *source, *authority) matches Err(e) ==> r == Err::<
            TicketAccountData,
            Error,
        >(e),
        spec_order_unstake_lamports(*old(state), msol_amount, *source, *authority) matches Ok(v) ==> r == Ok::<
            TicketAccountData,
            Error,
        >(
            TicketAccountData {
                state_address: *state_address,
                beneficiary: source.owner,
                lamports_amount: v,
                created_epoch: spec_ticket_epoch(*old(state), epoch),
            },
        ),
        r matches Ok(t) ==> *final(state) == (State {
            circulating_ticket_balance: (old(state).circulating_ticket_balance + t.lamports_amount) as u64,
            circulating_ticket_count: (old(state).circulating_ticket_count + 1) as u64,
            msol_supply: (old(state).msol_supply - msol_amount) as u64,
            ..*old(state)
        }),
        r is Err ==> *final(state) == *old(state),
{
    if state.paused {
        return Err(Error::Marinade(MarinadeError::ProgramIsPaused));
    }
    match check_token_source_account(source, authority, msol_amount) {
        Ok(()) => {},
        Err(e) => {
            return Err(Error::Marinade(e));
        },
    }
    let ticket_beneficiary = source.owner;
    let sol_value_of_msol_burned = match state.msol_to_sol(msol_amount) {
        Ok(v) => v,
        Err(e) => {
            return Err(Error::Marinade(e));
        },
    };
    // apply delay_unstake_fee to avoid economical attacks
    // delay_unstake_fee must be >= one epoch staking rewards
    let delay_unstake_fee_lamports = state.delayed_unstake_fee.apply(sol_value_of_msol_burned);
    // the fee value will be burned but not delivered, thus increasing mSOL value slightly for all mSOL holders
    let lamports_for_user = sol_value_of_msol_burned - delay_unstake_fee_lamports;
    if lamports_for_user < state.min_withdraw {
        return Err(Error::Marinade(MarinadeError::WithdrawAmountIsTooLow));
    }
    // the burnt mSOL leaves the supply
    if msol_amount > state.msol_supply {
        return Err(Error::Marinade(MarinadeError::CalculationFailure));
    }
    state.circulating_ticket_balance = state.circulating_ticket_balance + lamports_for_user;
    state.circulating_ticket_count = state.circulating_ticket_count + 1;
    let burn = state.on_msol_burn(msol_amount);
    proof {
        assert(burn is Ok);
    }
    // initialize new_ticket_account
    let created_epoch = if epoch == state.stake_system.last_stake_delta_epoch {
        epoch + 1
    } else {
        epoch
    };
    Ok(
        TicketAccountData {
            state_address: *state_address,
            beneficiary: ticket_beneficiary,
            lamports_amount: lamports_for_user,
            created_epoch,
        },
    )
}

/// What `check_ticket_account` answers.
pub open spec fn spec_check_ticket(
    ticket: TicketAccountData,
    state_address: Pubkey,
    epoch: u64,
    unix_timestamp: i64,
    epoch_start_timestamp: i64,
) -> Result<(), MarinadeError> {
    if ticket.state_address@ != state_address@ {
        Err(MarinadeError::InvalidDelayedUnstakeTicket)
    } else if ticket.lamports_amount == 0 {
        Err(MarinadeError::ReusingDelayedUnstakeTicket)
    } else if epoch < ticket.created_epoch + WAIT_EPOCHS {
        Err(MarinadeError::TicketNotDue)
    } else if ticket.created_epoch + WAIT_EPOCHS == epoch && unix_timestamp - epoch_start_timestamp < EXTRA_WAIT_SECONDS {
        Err(MarinadeError::TicketNotReady)
    } else {
        Ok(())
    }
}

/// Checks a ticket belongs to this state, is not claimed yet and is due: one epoch after it was
/// created, and at least 30 minutes into that epoch.
pub fn check_ticket_account(
    ticket: &TicketAccountData,
    state_address: &Pubkey,
    epoch: u64,
    unix_timestamp: i64,
    epoch_start_timestamp: i64,
) -> (r: Result<(), MarinadeError>)
    requires
        ticket.created_epoch < u64::MAX,
        i64::MIN <= unix_timestamp - epoch_start_timestamp <= i64::MAX,
    ensures
        r == spec_check_ticket(*ticket, *state_address, epoch, unix_timestamp, epoch_start_timestamp),
{
    if !ticket.state_address.same_key(state_address) {
        return Err(MarinadeError::InvalidDelayedUnstakeTicket);
    }
    // not used
    if ticket.lamports_amount == 0 {
        return Err(MarinadeError::ReusingDelayedUnstakeTicket);
    }
    //check if ticket is due
    if epoch < ticket.created_epoch + WAIT_EPOCHS {
        return Err(MarinadeError::TicketNotDue);
    }
    // Wait X MORE HOURS FROM THE beginning of the EPOCH to give the bot time to withdraw inactive-stake-accounts
    if ticket.created_epoch + WAIT_EPOCHS == epoch {
        if unix_timestamp - epoch_start_timestamp < EXTRA_WAIT_SECONDS {
            return Err(MarinadeError::TicketNotReady);
        }
    }
    Ok(())
}

/// What claiming a ticket answers: the lamports paid to its beneficiary.
pub open spec fn spec_claim(
    s: State,
    ticket: TicketAccountData,
    state_address: Pubkey,
    epoch: u64,
    unix_timestamp: i64,
    epoch_start_timestamp: i64,
    reserve_lamports: u64,
) -> Result<u64, Error> {
    if spec_check_ticket(ticket, state_address, epoch, unix_timestamp, epoch_start_timestamp) is Err {
        Err(Error::Marinade(spec_check_ticket(ticket, state_address, epoch, unix_timestamp, epoch_start_timestamp)->Err_0))
    } else if ticket.lamports_amount > reserve_lamports - s.rent_exempt_for_token_acc {
        Err(Error::Marinade(MarinadeError::TicketNotReady))
    } else if ticket.lamports_amount > s.available_reserve_balance {
        Err(Error::Marinade(MarinadeError::CalculationFailure))
    } else {
        Ok(ticket.lamports_amount)
    }
}

/// Claim a due ticket: its lamports are paid from the reserve to the beneficiary when the reserve
/// holds them (else "wait a few hours"); the ticket is emptied and leaves circulation.
pub fn claim(
    state: &mut State,
    ticket: &mut TicketAccountData,
    state_address: &Pubkey,
    epoch: u64,
    unix_timestamp: i64,
    epoch_start_timestamp: i64,
    reserve_lamports: u64,
) -> (r: Result<u64, Error>)
    requires
        old(ticket).created_epoch < u64::MAX,
        i64::MIN <= unix_timestamp - epoch_start_timestamp <= i64::MAX,
        reserve_lamports >= old(state).rent_exempt_for_token_acc,
        old(ticket).lamports_amount <= old(state).circulating_ticket_balance,
        old(state).circulating_ticket_count > 0,
    ensures
        r == spec_claim(*old(state), *old(ticket), *state_address, epoch, unix_timestamp, epoch_start_timestamp, reserve_lamports),
        r matches Ok(lamports) ==> *final(state) == (State {
            circulating_ticket_balance: (old(state).circulating_ticket_balance - lamports) as u64,
            circulating_ticket_count: (old(state).circulating_ticket_count - 1) as u64,
            available_reserve_balance: (old(state).available_reserve_balance - lamports) as u64,
            ..*old(state)
        }) && *final(ticket) == (TicketAccountData { lamports_amount: 0, ..*old(ticket) }),
        r is Err ==> *final(state) == *old(state) && *final(ticket) == *old(ticket),
{
    match check_ticket_account(ticket, state_address, epoch, unix_timestamp, epoch_start_timestamp) {
        Ok(()) => {},
        Err(e) => {
            return Err(Error::Marinade(e));
        },
    }
    let lamports = ticket.lamports_amount;
    // use real balance not virtual field
    let available_for_claim = reserve_lamports - state.rent_exempt_for_token_acc;
    if lamports > available_for_claim {
        // Error: "Wait a few hours and retry"
        return Err(Error::Marinade(MarinadeError::TicketNotReady));
    }
    if lamports > state.available_reserve_balance {
        return Err(Error::Marinade(MarinadeError::CalculationFailure));
    }
    // If circulating_ticket_balance = sum(ticket.balance) is violated we can have a problem
    state.circulating_ticket_balance = state.circulating_ticket_balance - lamports;
    state.circulating_ticket_count = state.circulating_ticket_count - 1;
    // disable ticket-account
    ticket.lamports_amount = 0;
    let moved = state.on_transfer_from_reserve(lamports);
    proof {
        assert(moved is Ok);
    }
    Ok(lamports)
}

/// A ticket pays exactly what it was ordered for: once due (an epoch after it counts from, and
/// half an hour into that epoch when it is the next one) and with the reserve holding its
/// lamports, claiming the ticket an order made pays its lamports, and the tickets in
/// circulation are back to what they were before the order.
pub proof fn lemma_claim_pays_what_was_ordered(
    s: State,
    state_address: Pubkey,
    msol_amount: u64,
    source: TokenAccount,
    authority: Pubkey,
    order_epoch: u64,
    claim_epoch: u64,
    unix_timestamp: i64,
    epoch_start_timestamp: i64,
    reserve_lamports: u64,
)
    requires
        spec_order_unstake_lamports(s, msol_amount, source, authority) is Ok,
        spec_order_unstake_lamports(s, msol_amount, source, authority)->Ok_0 > 0,
        ({
            let lamports = spec_order_unstake_lamports(s, msol_amount, source, authority)->Ok_0;
            let created = spec_ticket_epoch(s, order_epoch);
            &&& claim_epoch > created + WAIT_EPOCHS || (claim_epoch == created + WAIT_EPOCHS && unix_timestamp
                - epoch_start_timestamp >= EXTRA_WAIT_SECONDS)
            &&& lamports <= reserve_lamports - s.rent_exempt_for_token_acc
            &&& lamports <= s.available_reserve_balance
            &&& s.circulating_ticket_balance + lamports <= u64::MAX
            &&& s.circulating_ticket_count < u64::MAX
        }),
    ensures
        ({
            let lamports = spec_order_unstake_lamports(s, msol_amount, source, authority)->Ok_0;
            let ordered = State {
                circulating_ticket_balance: (s.circulating_ticket_balance + lamports) as u64,
                circulating_ticket_count: (s.circulating_ticket_count + 1) as u64,
                msol_supply: (s.msol_supply - msol_amount) as u64,
                ..s
            };
            let ticket = TicketAccountData {
                state_address,
                beneficiary: source.owner,
                lamports_amount: lamports,
                created_epoch: spec_ticket_epoch(s, order_epoch),
            };
            let claimed = State {
                circulating_ticket_balance: (ordered.circulating_ticket_balance - lamports) as u64,
                circulating_ticket_count: (ordered.circulating_ticket_count - 1) as u64,
                available_reserve_balance: (ordered.available_reserve_balance - lamports) as u64,
                ..ordered
            };
            &&& spec_claim(
                ordered,
                ticket,
                state_address,
                claim_epoch,
                unix_timestamp,
                epoch_start_timestamp,
                reserve_lamports,
            ) == Ok::<u64, Error>(lamports)
            &&& claimed.circulating_ticket_balance == s.circulating_ticket_balance
            &&& claimed.circulating_ticket_count == s.circulating_ticket_count
        }),
{
}

/// A ticket is paid once: a claimed ticket (its lamports zeroed) is refused.
pub proof fn lemma_claimed_ticket_is_refused(
    s: State,
    ticket: TicketAccountData,
    state_address: Pubkey,
    epoch: u64,
    unix_timestamp: i64,
    epoch_start_timestamp: i64,
    reserve_lamports: u64,
)
    requires
        ticket.state_address@ == state_address@,
    ensures
        spec_claim(
            s,
            TicketAccountData { lamports_amount: 0, ..ticket },
            state_address,
            epoch,
            unix_timestamp,
            epoch_start_timestamp,
            reserve_lamports,
        ) == Err::<u64, Error>(Error::Marinade(MarinadeError::ReusingDelayedUnstakeTicket)),
{
}


/// A delayed-unstake ticket is worth the SOL value of the burnt mSOL at the current price (its
/// share of the lamports standing for the mSOL supply, one for one before any mSOL exists),
/// less the delayed-unstake fee taken on that value; never more than the value.
pub proof fn lemma_ticket_is_value_less_fee(s: State, msol_amount: u64, source: TokenAccount, authority: Pubkey)
    requires
        totals_fit(s),
        s.delayed_unstake_fee.bp_cents <= MAX_BP_CENTS,
        spec_order_unstake_lamports(s, msol_amount, source, authority) is Ok,
    ensures
        ({
            let virtual_lamports = crate::state::spec_total_virtual_staked_lamports(s);
            let value: int = if s.msol_supply == 0 {
                msol_amount as int
            } else {
                (msol_amount as int * virtual_lamports) / s.msol_supply as int
            };
            let lamports = spec_order_unstake_lamports(s, msol_amount, source, authority)->Ok_0;
            &&& lamports == value - (value * s.delayed_unstake_fee.bp_cents as int) / MAX_BP_CENTS as int
            &&& lamports <= value
        }),
{
    let sol_value = spec_msol_to_sol(s, msol_amount)->Ok_0;
    crate::fee::lemma_rate_bounds(sol_value, s.delayed_unstake_fee.bp_cents, MAX_BP_CENTS);
}

} // verus!

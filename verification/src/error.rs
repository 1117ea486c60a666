use vstd::prelude::*;

verus! {

/// Errors specific to the staking program; the order gives the on-chain code (`6000 + position`).
#[derive(Debug, Clone, Copy, PartialEq, Eq, Structural)]
pub enum MarinadeError {
    /// Wrong reserve owner. Must be a system account
    WrongReserveOwner,
    /// Reserve must have no data, but has data
    NonEmptyReserveData,
    /// Invalid initial reserve lamports
    InvalidInitialReserveLamports,
    /// Zero validator chunk size
    ZeroValidatorChunkSize,
    /// Too big validator chunk size
    TooBigValidatorChunkSize,
    /// Zero credit chunk size
    ZeroCreditChunkSize,
    /// Too big credit chunk size
    TooBigCreditChunkSize,
    /// Too low credit fee
    TooLowCreditFee,
    /// Invalid mint authority
    InvalidMintAuthority,
    /// Non empty initial mint supply
    MintHasInitialSupply,
    /// Invalid owner fee state
    InvalidOwnerFeeState,
    /// Invalid program id. For using program from another account please update id in the code
    InvalidProgramId,
    /// Unexpected account
    UnexpectedAccount,
    /// Calculation failure
    CalculationFailure,
    /// You can't deposit a stake-account with lockup
    StakeAccountWithLockup,
    /// Min stake is too low
    MinStakeIsTooLow,
    /// Lp max fee is too high
    LpMaxFeeIsTooHigh,
    /// Basis points overflow
    BasisPointsOverflow,
    /// LP min fee > LP max fee
    LpFeesAreWrongWayRound,
    /// Liquidity target too low
    LiquidityTargetTooLow,
    /// Ticket not due. Wait more epochs
    TicketNotDue,
    /// Ticket not ready. Wait a few hours and try again
    TicketNotReady,
    /// Wrong Ticket Beneficiary
    WrongBeneficiary,
    /// Stake Account not updated yet
    StakeAccountNotUpdatedYet,
    /// Stake Account not delegated
    StakeNotDelegated,
    /// Stake Account is emergency unstaking
    StakeAccountIsEmergencyUnstaking,
    /// Insufficient Liquidity in the Liquidity Pool
    InsufficientLiquidity,
    /// Auto adding a validator is not enabled
    AutoAddValidatorIsNotEnabled,
    /// Invalid admin authority
    InvalidAdminAuthority,
    /// Invalid validator system manager
    InvalidValidatorManager,
    /// Invalid stake list account discriminator
    InvalidStakeListDiscriminator,
    /// Invalid validator list account discriminator
    InvalidValidatorListDiscriminator,
    /// Treasury cut is too high
    TreasuryCutIsTooHigh,
    /// Reward fee is too high
    RewardsFeeIsTooHigh,
    /// Staking is capped
    StakingIsCapped,
    /// Liquidity is capped
    LiquidityIsCapped,
    /// Update window is too low
    UpdateWindowIsTooLow,
    /// Min withdraw is too high
    MinWithdrawIsTooHigh,
    /// Withdraw amount is too low
    WithdrawAmountIsTooLow,
    /// Deposit amount is too low
    DepositAmountIsTooLow,
    /// Not enough user funds
    NotEnoughUserFunds,
    /// Wrong token owner or delegate
    WrongTokenOwnerOrDelegate,
    /// Too early for stake delta
    TooEarlyForStakeDelta,
    /// Required delegated stake
    RequiredDelegatedStake,
    /// Required active stake
    RequiredActiveStake,
    /// Required deactivating stake
    RequiredDeactivatingStake,
    /// Depositing not activated stake
    DepositingNotActivatedStake,
    /// Too low delegation in the depositing stake
    TooLowDelegationInDepositingStake,
    /// Wrong deposited stake balance
    WrongStakeBalance,
    /// Wrong validator account or index
    WrongValidatorAccountOrIndex,
    /// Wrong stake account or index
    WrongStakeAccountOrIndex,
    /// Delta stake is positive so we must stake instead of unstake
    UnstakingOnPositiveDelta,
    /// Delta stake is negative so we must unstake instead of stake
    StakingOnNegativeDelta,
    /// Invalid empty stake balance
    InvalidEmptyStakeBalance,
    /// Stake must be uninitialized
    StakeMustBeUninitialized,
    /// Destination stake must be delegated
    DestinationStakeMustBeDelegated,
    /// Destination stake must not be deactivating
    DestinationStakeMustNotBeDeactivating,
    /// Destination stake must be updated
    DestinationStakeMustBeUpdated,
    /// Invalid destination stake delegation
    InvalidDestinationStakeDelegation,
    /// Source stake must be delegated
    SourceStakeMustBeDelegated,
    /// Source stake must not be deactivating
    SourceStakeMustNotBeDeactivating,
    /// Source stake must be updated
    SourceStakeMustBeUpdated,
    /// Invalid source stake delegation
    InvalidSourceStakeDelegation,
    /// Invalid delayed unstake ticket
    InvalidDelayedUnstakeTicket,
    /// Reusing delayed unstake ticket
    ReusingDelayedUnstakeTicket,
    /// Emergency unstaking from non zero scored validator
    EmergencyUnstakingFromNonZeroScoredValidator,
    /// Wrong validator duplication flag
    WrongValidatorDuplicationFlag,
    /// Redepositing marinade stake
    RedepositingMarinadeStake,
    /// Removing validator with balance
    RemovingValidatorWithBalance,
    /// Redelegate will put validator over stake target
    RedelegateOverTarget,
    /// Source and Dest Validators are the same
    SourceAndDestValidatorsAreTheSame,
    /// Some mSOL tokens was minted outside of marinade contract
    UnregisteredMsolMinted,
    /// Some LP tokens was minted outside of marinade contract
    UnregisteredLPMinted,
    /// List index out of bounds
    ListIndexOutOfBounds,
    /// List overflow
    ListOverflow,
    /// Requested pause and already Paused
    AlreadyPaused,
    /// Requested resume, but not Paused
    NotPaused,
    /// Emergency Pause is Active
    ProgramIsPaused,
    /// Invalid pause authority
    InvalidPauseAuthority,
    /// Selected Stake account has not enough funds
    SelectedStakeAccountHasNotEnoughFunds,
    /// Basis point CENTS overflow
    BasisPointCentsOverflow,
    /// Withdraw stake account is not enabled
    WithdrawStakeAccountIsNotEnabled,
    /// Withdraw stake account fee is too high
    WithdrawStakeAccountFeeIsTooHigh,
    /// Delayed unstake fee is too high
    DelayedUnstakeFeeIsTooHigh,
    /// Withdraw stake account value is too low
    WithdrawStakeLamportsIsTooLow,
    /// Stake account remainder too low
    StakeAccountRemainderTooLow,
    /// Capacity of the list must be not less than it's current size
    ShrinkingListWithDeletingContents,
    /// Upgrading invariant violation
    UpgradingInvariantViolation,
    /// Canonical stake account is already created
    CanonicalStakeAccountAlreadyCreated,
    /// Invalid canonical stake account address
    InvalidCanonicalStakeAccountAddress,
    /// Incorrect destination validator account or index
    IncorrectDestValidatorAccountOrIndex,
}

/// Generic runtime errors, the subset of the host's program errors that the logic raises.
#[derive(Debug, Clone, Copy, PartialEq, Eq, Structural)]
pub enum ProgramError {
    InvalidArgument,
    InvalidAccountData,
    AccountDataTooSmall,
    AccountAlreadyInitialized,
    InsufficientFunds,
    /// An item did not fit into its slot while being encoded.
    BorshIoError,
    /// No valid program address for the seeds.
    InvalidSeeds,
    Custom(u32),
}

/// Violations of the framework's generic checks, raised when no specific code is given: the
/// `require_*` checks and the address constraint on an account.
#[derive(Debug, Clone, Copy, PartialEq, Eq, Structural)]
pub enum RequireError {
    RequireEqViolated,
    RequireKeysEqViolated,
    RequireKeysNeqViolated,
    ConstraintAddress,
}

/// Any error an instruction can return.
#[derive(Debug, Clone, Copy, PartialEq, Eq, Structural)]
pub enum Error {
    Marinade(MarinadeError),
    Program(ProgramError),
    Require(RequireError),
}

/// The numeric code of each error as seen by clients: the errors in their declared order,
/// numbered from 6000 on.
pub open spec fn spec_error_code(e: MarinadeError) -> u32 {
    match e {
        MarinadeError::WrongReserveOwner => 6000,
        MarinadeError::NonEmptyReserveData => 6001,
        MarinadeError::InvalidInitialReserveLamports => 6002,
        MarinadeError::ZeroValidatorChunkSize => 6003,
        MarinadeError::TooBigValidatorChunkSize => 6004,
        MarinadeError::ZeroCreditChunkSize => 6005,
        MarinadeError::TooBigCreditChunkSize => 6006,
        MarinadeError::TooLowCreditFee => 6007,
        MarinadeError::InvalidMintAuthority => 6008,
        MarinadeError::MintHasInitialSupply => 6009,
        MarinadeError::InvalidOwnerFeeState => 6010,
        MarinadeError::InvalidProgramId => 6011,
        MarinadeError::UnexpectedAccount => 6012,
        MarinadeError::CalculationFailure => 6013,
        MarinadeError::StakeAccountWithLockup => 6014,
        MarinadeError::MinStakeIsTooLow => 6015,
        MarinadeError::LpMaxFeeIsTooHigh => 6016,
        MarinadeError::BasisPointsOverflow => 6017,
        MarinadeError::LpFeesAreWrongWayRound => 6018,
        MarinadeError::LiquidityTargetTooLow => 6019,
        MarinadeError::TicketNotDue => 6020,
        MarinadeError::TicketNotReady => 6021,
        MarinadeError::WrongBeneficiary => 6022,
        MarinadeError::StakeAccountNotUpdatedYet => 6023,
        MarinadeError::StakeNotDelegated => 6024,
        MarinadeError::StakeAccountIsEmergencyUnstaking => 6025,
        MarinadeError::InsufficientLiquidity => 6026,
        MarinadeError::AutoAddValidatorIsNotEnabled => 6027,
        MarinadeError::InvalidAdminAuthority => 6028,
        MarinadeError::InvalidValidatorManager => 6029,
        MarinadeError::InvalidStakeListDiscriminator => 6030,
        MarinadeError::InvalidValidatorListDiscriminator => 6031,
        MarinadeError::TreasuryCutIsTooHigh => 6032,
        MarinadeError::RewardsFeeIsTooHigh => 6033,
        MarinadeError::StakingIsCapped => 6034,
        MarinadeError::LiquidityIsCapped => 6035,
        MarinadeError::UpdateWindowIsTooLow => 6036,
        MarinadeError::MinWithdrawIsTooHigh => 6037,
        MarinadeError::WithdrawAmountIsTooLow => 6038,
        MarinadeError::DepositAmountIsTooLow => 6039,
        MarinadeError::NotEnoughUserFunds => 6040,
        MarinadeError::WrongTokenOwnerOrDelegate => 6041,
        MarinadeError::TooEarlyForStakeDelta => 6042,
        MarinadeError::RequiredDelegatedStake => 6043,
        MarinadeError::RequiredActiveStake => 6044,
        MarinadeError::RequiredDeactivatingStake => 6045,
        MarinadeError::DepositingNotActivatedStake => 6046,
        MarinadeError::TooLowDelegationInDepositingStake => 6047,
        MarinadeError::WrongStakeBalance => 6048,
        MarinadeError::WrongValidatorAccountOrIndex => 6049,
        MarinadeError::WrongStakeAccountOrIndex => 6050,
        MarinadeError::UnstakingOnPositiveDelta => 6051,
        MarinadeError::StakingOnNegativeDelta => 6052,
        MarinadeError::InvalidEmptyStakeBalance => 6053,
        MarinadeError::StakeMustBeUninitialized => 6054,
        MarinadeError::DestinationStakeMustBeDelegated => 6055,
        MarinadeError::DestinationStakeMustNotBeDeactivating => 6056,
        MarinadeError::DestinationStakeMustBeUpdated => 6057,
        MarinadeError::InvalidDestinationStakeDelegation => 6058,
        MarinadeError::SourceStakeMustBeDelegated => 6059,
        MarinadeError::SourceStakeMustNotBeDeactivating => 6060,
        MarinadeError::SourceStakeMustBeUpdated => 6061,
        MarinadeError::InvalidSourceStakeDelegation => 6062,
        MarinadeError::InvalidDelayedUnstakeTicket => 6063,
        MarinadeError::ReusingDelayedUnstakeTicket => 6064,
        MarinadeError::EmergencyUnstakingFromNonZeroScoredValidator => 6065,
        MarinadeError::WrongValidatorDuplicationFlag => 6066,
        MarinadeError::RedepositingMarinadeStake => 6067,
        MarinadeError::RemovingValidatorWithBalance => 6068,
        MarinadeError::RedelegateOverTarget => 6069,
        MarinadeError::SourceAndDestValidatorsAreTheSame => 6070,
        MarinadeError::UnregisteredMsolMinted => 6071,
        MarinadeError::UnregisteredLPMinted => 6072,
        MarinadeError::ListIndexOutOfBounds => 6073,
        MarinadeError::ListOverflow => 6074,
        MarinadeError::AlreadyPaused => 6075,
        MarinadeError::NotPaused => 6076,
        MarinadeError::ProgramIsPaused => 6077,
        MarinadeError::InvalidPauseAuthority => 6078,
        MarinadeError::SelectedStakeAccountHasNotEnoughFunds => 6079,
        MarinadeError::BasisPointCentsOverflow => 6080,
        MarinadeError::WithdrawStakeAccountIsNotEnabled => 6081,
        MarinadeError::WithdrawStakeAccountFeeIsTooHigh => 6082,
        MarinadeError::DelayedUnstakeFeeIsTooHigh => 6083,
        MarinadeError::WithdrawStakeLamportsIsTooLow => 6084,
        MarinadeError::StakeAccountRemainderTooLow => 6085,
        MarinadeError::ShrinkingListWithDeletingContents => 6086,
        MarinadeError::UpgradingInvariantViolation => 6087,
        MarinadeError::CanonicalStakeAccountAlreadyCreated => 6088,
        MarinadeError::InvalidCanonicalStakeAccountAddress => 6089,
        MarinadeError::IncorrectDestValidatorAccountOrIndex => 6090,
    }
}

impl MarinadeError {
    /// The numeric code of the error as seen by clients.
    pub fn code(&self) -> (c: u32)
        ensures
            c == spec_error_code(*self),
    {
        match self {
            MarinadeError::WrongReserveOwner => 6000,
            MarinadeError::NonEmptyReserveData => 6001,
            MarinadeError::InvalidInitialReserveLamports => 6002,
            MarinadeError::ZeroValidatorChunkSize => 6003,
            MarinadeError::TooBigValidatorChunkSize => 6004,
            MarinadeError::ZeroCreditChunkSize => 6005,
            MarinadeError::TooBigCreditChunkSize => 6006,
            MarinadeError::TooLowCreditFee => 6007,
            MarinadeError::InvalidMintAuthority => 6008,
            MarinadeError::MintHasInitialSupply => 6009,
            MarinadeError::InvalidOwnerFeeState => 6010,
            MarinadeError::InvalidProgramId => 6011,
            MarinadeError::UnexpectedAccount => 6012,
            MarinadeError::CalculationFailure => 6013,
            MarinadeError::StakeAccountWithLockup => 6014,
            MarinadeError::MinStakeIsTooLow => 6015,
            MarinadeError::LpMaxFeeIsTooHigh => 6016,
            MarinadeError::BasisPointsOverflow => 6017,
            MarinadeError::LpFeesAreWrongWayRound => 6018,
            MarinadeError::LiquidityTargetTooLow => 6019,
            MarinadeError::TicketNotDue => 6020,
            MarinadeError::TicketNotReady => 6021,
            MarinadeError::WrongBeneficiary => 6022,
            MarinadeError::StakeAccountNotUpdatedYet => 6023,
            MarinadeError::StakeNotDelegated => 6024,
            MarinadeError::StakeAccountIsEmergencyUnstaking => 6025,
            MarinadeError::InsufficientLiquidity => 6026,
            MarinadeError::AutoAddValidatorIsNotEnabled => 6027,
            MarinadeError::InvalidAdminAuthority => 6028,
            MarinadeError::InvalidValidatorManager => 6029,
            MarinadeError::InvalidStakeListDiscriminator => 6030,
            MarinadeError::InvalidValidatorListDiscriminator => 6031,
            MarinadeError::TreasuryCutIsTooHigh => 6032,
            MarinadeError::RewardsFeeIsTooHigh => 6033,
            MarinadeError::StakingIsCapped => 6034,
            MarinadeError::LiquidityIsCapped => 6035,
            MarinadeError::UpdateWindowIsTooLow => 6036,
            MarinadeError::MinWithdrawIsTooHigh => 6037,
            MarinadeError::WithdrawAmountIsTooLow => 6038,
            MarinadeError::DepositAmountIsTooLow => 6039,
            MarinadeError::NotEnoughUserFunds => 6040,
            MarinadeError::WrongTokenOwnerOrDelegate => 6041,
            MarinadeError::TooEarlyForStakeDelta => 6042,
            MarinadeError::RequiredDelegatedStake => 6043,
            MarinadeError::RequiredActiveStake => 6044,
            MarinadeError::RequiredDeactivatingStake => 6045,
            MarinadeError::DepositingNotActivatedStake => 6046,
            MarinadeError::TooLowDelegationInDepositingStake => 6047,
            MarinadeError::WrongStakeBalance => 6048,
            MarinadeError::WrongValidatorAccountOrIndex => 6049,
            MarinadeError::WrongStakeAccountOrIndex => 6050,
            MarinadeError::UnstakingOnPositiveDelta => 6051,
            MarinadeError::StakingOnNegativeDelta => 6052,
            MarinadeError::InvalidEmptyStakeBalance => 6053,
            MarinadeError::StakeMustBeUninitialized => 6054,
            MarinadeError::DestinationStakeMustBeDelegated => 6055,
            MarinadeError::DestinationStakeMustNotBeDeactivating => 6056,
            MarinadeError::DestinationStakeMustBeUpdated => 6057,
            MarinadeError::InvalidDestinationStakeDelegation => 6058,
            MarinadeError::SourceStakeMustBeDelegated => 6059,
            MarinadeError::SourceStakeMustNotBeDeactivating => 6060,
            MarinadeError::SourceStakeMustBeUpdated => 6061,
            MarinadeError::InvalidSourceStakeDelegation => 6062,
            MarinadeError::InvalidDelayedUnstakeTicket => 6063,
            MarinadeError::ReusingDelayedUnstakeTicket => 6064,
            MarinadeError::EmergencyUnstakingFromNonZeroScoredValidator => 6065,
            MarinadeError::WrongValidatorDuplicationFlag => 6066,
            MarinadeError::RedepositingMarinadeStake => 6067,
            MarinadeError::RemovingValidatorWithBalance => 6068,
            MarinadeError::RedelegateOverTarget => 6069,
            MarinadeError::SourceAndDestValidatorsAreTheSame => 6070,
            MarinadeError::UnregisteredMsolMinted => 6071,
            MarinadeError::UnregisteredLPMinted => 6072,
            MarinadeError::ListIndexOutOfBounds => 6073,
            MarinadeError::ListOverflow => 6074,
            MarinadeError::AlreadyPaused => 6075,
            MarinadeError::NotPaused => 6076,
            MarinadeError::ProgramIsPaused => 6077,
            MarinadeError::InvalidPauseAuthority => 6078,
            MarinadeError::SelectedStakeAccountHasNotEnoughFunds => 6079,
            MarinadeError::BasisPointCentsOverflow => 6080,
            MarinadeError::WithdrawStakeAccountIsNotEnabled => 6081,
            MarinadeError::WithdrawStakeAccountFeeIsTooHigh => 6082,
            MarinadeError::DelayedUnstakeFeeIsTooHigh => 6083,
            MarinadeError::WithdrawStakeLamportsIsTooLow => 6084,
            MarinadeError::StakeAccountRemainderTooLow => 6085,
            MarinadeError::ShrinkingListWithDeletingContents => 6086,
            MarinadeError::UpgradingInvariantViolation => 6087,
            MarinadeError::CanonicalStakeAccountAlreadyCreated => 6088,
            MarinadeError::InvalidCanonicalStakeAccountAddress => 6089,
            MarinadeError::IncorrectDestValidatorAccountOrIndex => 6090,
        }
    }
}

} // verus!

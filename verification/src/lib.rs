//! Verified core of the Tycoon game contract: the contract's state machine
//! (initialisation, administration, player registration, catalogue storage,
//! treasury withdrawals) over plain values, with every entrypoint's effect
//! stated against an abstract model of the contract's storage.
//!
//! The host (the ledger runtime) keeps the storage, checks authorisations,
//! moves tokens and publishes events; the entrypoints here decide and tell it
//! what to do.

pub mod collectible_error;
pub mod contract;
pub mod laws;
pub mod state;
pub mod text;
pub mod treasury;
pub mod types;

pub use collectible_error::CollectibleError;
pub use contract::TycoonContract;
pub use state::{GameState, MAX_USERNAME_LEN, MIN_USERNAME_LEN, REGISTRATION_VOUCHER_AMOUNT};
pub use treasury::TreasurySnapshot;
pub use types::{
    AccountId, CollectibleInfo, Config, ContractStateDump, Effects, Event, GameError, Payout, User,
    VoucherMint, WithdrawalPlan,
};

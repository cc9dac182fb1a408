use vstd::prelude::*;

verus! {

/// An address on the ledger (an account or a contract), identified by a
/// stable numeric handle that the host assigns to it.
#[derive(Clone, Copy, Debug, PartialEq, Eq, Structural, Hash)]
pub struct AccountId(pub u64);

/// The addresses fixed when the contract is initialised. The owner may later
/// be rotated by `admin_transfer_ownership`.
#[derive(Clone, Copy, Debug, PartialEq, Eq, Structural)]
pub struct Config {
    pub owner: AccountId,
    pub tyc_token: AccountId,
    pub usdc_token: AccountId,
    pub reward_system: AccountId,
}

/// On-chain metadata of a collectible.
#[derive(Clone, Copy, Debug, PartialEq, Eq, Structural)]
pub struct CollectibleInfo {
    pub perk: u32,
    pub strength: u32,
    pub tyc_price: u128,
    pub usdc_price: u128,
    pub shop_stock: u64,
}

/// A registered player's profile. `username` holds the UTF-8 bytes of the
/// name the player chose.
#[derive(Clone, Debug, PartialEq, Eq)]
pub struct User {
    pub id: u64,
    pub username: Vec<u8>,
    pub address: AccountId,
    pub registered_at: u64,
    pub games_played: u32,
    pub games_won: u32,
}

/// The mathematical value of a [`User`].
pub struct UserView {
    pub id: u64,
    pub username: Seq<u8>,
    pub address: AccountId,
    pub registered_at: u64,
    pub games_played: u32,
    pub games_won: u32,
}

impl View for User {
    type V = UserView;

    open spec fn view(&self) -> UserView {
        UserView {
            id: self.id,
            username: self.username@,
            address: self.address,
            registered_at: self.registered_at,
            games_played: self.games_played,
            games_won: self.games_won,
        }
    }
}

impl User {
    /// A copy of this profile.
    pub fn duplicate(&self) -> (r: User)
        ensures
            r@ == self@,
    {
        let username = self.username.clone();
        assert(username@ =~= self.username@);
        User {
            id: self.id,
            username,
            address: self.address,
            registered_at: self.registered_at,
            games_played: self.games_played,
            games_won: self.games_won,
        }
    }
}

/// A read-only snapshot of the contract's configuration.
#[derive(Clone, Copy, Debug, PartialEq, Eq, Structural)]
pub struct ContractStateDump {
    pub owner: AccountId,
    pub tyc_token: AccountId,
    pub usdc_token: AccountId,
    pub reward_system: AccountId,
    pub state_version: u32,
    pub is_initialized: bool,
    pub backend_controller: Option<AccountId>,
}

/// The events the contract publishes.
#[derive(Clone, Copy, Debug, PartialEq, Eq, Structural)]
pub enum Event {
    FundsWithdrawn { token: AccountId, to: AccountId, amount: u128 },
    ControllerUpdated { new_controller: AccountId },
    OwnershipTransferred { old_owner: AccountId, new_owner: AccountId },
    PlayerRegistered { player: AccountId },
    PlayerRemovedFromGame { game_id: u128, player: AccountId, turn_count: u32 },
}

/// What the host must do to commit an accepted call: obtain the
/// authorisation of `auth` (the call is void without it), then publish
/// `event` if there is one.
#[derive(Clone, Copy, Debug, PartialEq, Eq, Structural)]
pub struct Effects {
    pub auth: AccountId,
    pub event: Option<Event>,
}

/// An accepted withdrawal request, authorised by `auth`, that still waits
/// for the contract's balance in `token` to be read.
#[derive(Clone, Copy, Debug, PartialEq, Eq, Structural)]
pub struct WithdrawalPlan {
    pub auth: AccountId,
    pub token: AccountId,
    pub to: AccountId,
    pub amount: u128,
}

/// A token transfer out of the contract, to be made by the host, followed by
/// the publication of `event`.
#[derive(Clone, Copy, Debug, PartialEq, Eq, Structural)]
pub struct Payout {
    pub token: AccountId,
    pub to: AccountId,
    pub amount: i128,
    pub event: Event,
}

/// A call of `mint_voucher(player, amount)` on the reward system contract,
/// authorised by `auth`.
#[derive(Clone, Copy, Debug, PartialEq, Eq, Structural)]
pub struct VoucherMint {
    pub auth: AccountId,
    pub reward_system: AccountId,
    pub player: AccountId,
    pub amount: u128,
}

/// Why the contract refuses a call.
#[derive(Clone, Copy, Debug, PartialEq, Eq, Structural)]
pub enum GameError {
    /// `initialize` was called on an initialised contract.
    AlreadyInitialized,
    /// One of the addresses given to `initialize` is the contract itself.
    InvalidAddress,
    /// The contract has no owner yet.
    NotInitialized,
    /// The token to withdraw is neither TYC nor USDC.
    InvalidToken,
    /// The amount to withdraw does not fit in an `i128`.
    AmountTooLarge,
    /// The contract holds less than the amount to withdraw.
    InsufficientBalance,
    /// The address already has a profile.
    AlreadyRegistered,
    /// The username does not have 3 to 20 characters.
    InvalidUsername,
    /// The caller is neither the owner nor the backend game controller.
    Unauthorized,
    /// No collectible has this token id.
    CollectibleNotFound,
    /// No cash tier has this number.
    CashTierNotFound,
}

} // verus!

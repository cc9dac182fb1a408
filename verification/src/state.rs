use vstd::prelude::*;

use crate::text::char_count;

use crate::types::{
    AccountId, CollectibleInfo, Config, ContractStateDump, Effects, Event, GameError, UserView,
    VoucherMint, WithdrawalPlan,
};

verus! {

/// Fewest characters a username may have.
pub const MIN_USERNAME_LEN: usize = 3;

/// Most characters a username may have.
pub const MAX_USERNAME_LEN: usize = 20;

/// Amount of the registration voucher: 2 TYC in the token's 7-decimal units.
pub const REGISTRATION_VOUCHER_AMOUNT: u128 = 20_000_000;

/// Abstract model of the contract's storage.
#[verifier::ext_equal]
pub struct GameState {
    /// Set exactly when the contract has been initialised.
    pub config: Option<Config>,
    pub state_version: u32,
    pub backend_controller: Option<AccountId>,
    /// Player profiles by the handle of the player's address.
    pub users: Map<u64, UserView>,
    pub collectibles: Map<u128, CollectibleInfo>,
    pub cash_tiers: Map<u32, u128>,
}

/// Effects that ask only for `auth`'s authorisation.
pub open spec fn auth_only(auth: AccountId) -> Effects {
    Effects { auth, event: None }
}

/// The tuple `(perk, strength, tyc_price, usdc_price, shop_stock)`.
pub open spec fn info_tuple(info: CollectibleInfo) -> (u32, u32, u128, u128, u64) {
    (info.perk, info.strength, info.tyc_price, info.usdc_price, info.shop_stock)
}

/// A username is accepted when it has 3 to 20 characters.
pub open spec fn valid_username(name: Seq<u8>) -> bool {
    MIN_USERNAME_LEN <= char_count(name) <= MAX_USERNAME_LEN
}

impl GameState {
    /// Storage of a freshly deployed contract.
    pub open spec fn empty() -> GameState {
        GameState {
            config: None,
            state_version: 0,
            backend_controller: None,
            users: Map::empty(),
            collectibles: Map::empty(),
            cash_tiers: Map::empty(),
        }
    }

    /// Every profile is stored under the handle of its own address.
    pub open spec fn well_formed(self) -> bool {
        forall|k: u64| #[trigger] self.users.contains_key(k) ==> self.users[k].address == AccountId(k)
    }

    pub open spec fn is_registered(self, a: AccountId) -> bool {
        self.users.contains_key(a.0)
    }

    /// The owner's address, which every admin entrypoint needs to authorise
    /// the call; refused while the contract is not initialised.
    pub open spec fn admin_auth(self) -> Result<AccountId, GameError> {
        match self.config {
            Some(c) => Ok(c.owner),
            None => Err(GameError::NotInitialized),
        }
    }

    /// Result of an admin entrypoint that publishes `event` on success.
    pub open spec fn admin_effects(self, event: Option<Event>) -> Result<Effects, GameError> {
        match self.config {
            Some(c) => Ok(Effects { auth: c.owner, event }),
            None => Err(GameError::NotInitialized),
        }
    }

    // ── initialisation and migration ────────────────────────────────────

    pub open spec fn initialize_result(
        self,
        this_contract: AccountId,
        tyc_token: AccountId,
        usdc_token: AccountId,
        initial_owner: AccountId,
        reward_system: AccountId,
    ) -> Result<Effects, GameError> {
        if self.config is Some {
            Err(GameError::AlreadyInitialized)
        } else if tyc_token == this_contract || usdc_token == this_contract
            || initial_owner == this_contract || reward_system == this_contract {
            Err(GameError::InvalidAddress)
        } else {
            Ok(auth_only(initial_owner))
        }
    }

    /// Storage after a successful initialisation with `cfg`.
    pub open spec fn initialized(self, cfg: Config) -> GameState {
        GameState { config: Some(cfg), state_version: 1, ..self }
    }

    /// Storage after a migration: version 0 moves to 1, any other version
    /// is current and stays.
    pub open spec fn migrated(self) -> GameState {
        if self.state_version == 0 {
            GameState { state_version: 1, ..self }
        } else {
            self
        }
    }

    // ── admin updates ───────────────────────────────────────────────────

    pub open spec fn with_collectible(self, token_id: u128, info: CollectibleInfo) -> GameState {
        GameState { collectibles: self.collectibles.insert(token_id, info), ..self }
    }

    pub open spec fn with_cash_tier(self, tier: u32, value: u128) -> GameState {
        GameState { cash_tiers: self.cash_tiers.insert(tier, value), ..self }
    }

    pub open spec fn with_controller(self, controller: AccountId) -> GameState {
        GameState { backend_controller: Some(controller), ..self }
    }

    /// Storage with the owner replaced; meant for an initialised contract.
    pub open spec fn with_owner(self, new_owner: AccountId) -> GameState {
        match self.config {
            Some(c) => GameState { config: Some(Config { owner: new_owner, ..c }), ..self },
            None => self,
        }
    }

    pub open spec fn transfer_ownership_result(self, new_owner: AccountId) -> Result<
        Effects,
        GameError,
    > {
        match self.config {
            Some(c) => Ok(
                Effects {
                    auth: c.owner,
                    event: Some(Event::OwnershipTransferred { old_owner: c.owner, new_owner }),
                },
            ),
            None => Err(GameError::NotInitialized),
        }
    }

    // ── treasury ────────────────────────────────────────────────────────

    pub open spec fn withdrawal_result(self, token: AccountId, to: AccountId, amount: u128) -> Result<
        WithdrawalPlan,
        GameError,
    > {
        match self.config {
            None => Err(GameError::NotInitialized),
            Some(c) => if token != c.tyc_token && token != c.usdc_token {
                Err(GameError::InvalidToken)
            } else if amount > i128::MAX {
                Err(GameError::AmountTooLarge)
            } else {
                Ok(WithdrawalPlan { auth: c.owner, token, to, amount })
            },
        }
    }

    pub open spec fn voucher_result(self, player: AccountId) -> Result<VoucherMint, GameError> {
        match self.config {
            None => Err(GameError::NotInitialized),
            Some(c) => Ok(
                VoucherMint {
                    auth: c.owner,
                    reward_system: c.reward_system,
                    player,
                    amount: REGISTRATION_VOUCHER_AMOUNT,
                },
            ),
        }
    }

    // ── players ─────────────────────────────────────────────────────────

    pub open spec fn registration_result(self, username: Seq<u8>, caller: AccountId) -> Result<
        Effects,
        GameError,
    > {
        if self.is_registered(caller) {
            Err(GameError::AlreadyRegistered)
        } else if !valid_username(username) {
            Err(GameError::InvalidUsername)
        } else {
            Ok(Effects { auth: caller, event: Some(Event::PlayerRegistered { player: caller }) })
        }
    }

    /// The profile that registration creates.
    pub open spec fn new_profile(
        username: Seq<u8>,
        caller: AccountId,
        ledger_sequence: u32,
        timestamp: u64,
    ) -> UserView {
        UserView {
            id: ledger_sequence as u64,
            username,
            address: caller,
            registered_at: timestamp,
            games_played: 0,
            games_won: 0,
        }
    }

    pub open spec fn with_user(self, user: UserView) -> GameState {
        GameState { users: self.users.insert(user.address.0, user), ..self }
    }

    /// Whether `caller` may remove players from games: the owner and the
    /// backend game controller may.
    pub open spec fn may_remove_players(self, caller: AccountId) -> bool {
        self.config matches Some(c) && (caller == c.owner || self.backend_controller == Some(
            caller,
        ))
    }

    pub open spec fn removal_result(
        self,
        caller: AccountId,
        game_id: u128,
        player: AccountId,
        turn_count: u32,
    ) -> Result<Effects, GameError> {
        if self.config is None {
            Err(GameError::NotInitialized)
        } else if !self.may_remove_players(caller) {
            Err(GameError::Unauthorized)
        } else {
            Ok(
                Effects {
                    auth: caller,
                    event: Some(Event::PlayerRemovedFromGame { game_id, player, turn_count }),
                },
            )
        }
    }

    // ── reads ───────────────────────────────────────────────────────────

    pub open spec fn user_of(self, a: AccountId) -> Option<UserView> {
        if self.users.contains_key(a.0) {
            Some(self.users[a.0])
        } else {
            None
        }
    }

    pub open spec fn collectible_result(self, token_id: u128) -> Result<
        (u32, u32, u128, u128, u64),
        GameError,
    > {
        if self.collectibles.contains_key(token_id) {
            Ok(info_tuple(self.collectibles[token_id]))
        } else {
            Err(GameError::CollectibleNotFound)
        }
    }

    pub open spec fn cash_tier_result(self, tier: u32) -> Result<u128, GameError> {
        if self.cash_tiers.contains_key(tier) {
            Ok(self.cash_tiers[tier])
        } else {
            Err(GameError::CashTierNotFound)
        }
    }

    pub open spec fn export_result(self) -> Result<ContractStateDump, GameError> {
        match self.config {
            None => Err(GameError::NotInitialized),
            Some(c) => Ok(
                ContractStateDump {
                    owner: c.owner,
                    tyc_token: c.tyc_token,
                    usdc_token: c.usdc_token,
                    reward_system: c.reward_system,
                    state_version: self.state_version,
                    is_initialized: true,
                    backend_controller: self.backend_controller,
                },
            ),
        }
    }
}

/// A call of an entrypoint that may change storage, with its arguments.
/// (The other entrypoints take `&self` and never change it.)
pub enum Call {
    Initialize {
        this_contract: AccountId,
        tyc_token: AccountId,
        usdc_token: AccountId,
        initial_owner: AccountId,
        reward_system: AccountId,
    },
    Migrate,
    SetCollectible { token_id: u128, info: CollectibleInfo },
    SetCashTier { tier: u32, value: u128 },
    SetController { new_controller: AccountId },
    TransferOwnership { new_owner: AccountId },
    Register { username: Seq<u8>, caller: AccountId, ledger_sequence: u32, timestamp: u64 },
}

impl Call {
    /// Whether the call is one of the owner-only entrypoints.
    pub open spec fn is_admin(self) -> bool {
        !(self is Initialize) && !(self is Register)
    }

    /// Whether the call writes the collectible `token_id`.
    pub open spec fn sets_collectible(self, token_id: u128) -> bool {
        self matches Call::SetCollectible { token_id: t, .. } && t == token_id
    }

    /// Whether the call writes the cash tier `tier`.
    pub open spec fn sets_cash_tier(self, tier: u32) -> bool {
        self matches Call::SetCashTier { tier: t, .. } && t == tier
    }
}

impl GameState {
    /// What the call returns on this storage.
    pub open spec fn outcome(self, call: Call) -> Result<Effects, GameError> {
        match call {
            Call::Initialize {
                this_contract,
                tyc_token,
                usdc_token,
                initial_owner,
                reward_system,
            } => self.initialize_result(
                this_contract,
                tyc_token,
                usdc_token,
                initial_owner,
                reward_system,
            ),
            Call::Migrate => self.admin_effects(None),
            Call::SetCollectible { .. } => self.admin_effects(None),
            Call::SetCashTier { .. } => self.admin_effects(None),
            Call::SetController { new_controller } => self.admin_effects(
                Some(Event::ControllerUpdated { new_controller }),
            ),
            Call::TransferOwnership { new_owner } => self.transfer_ownership_result(new_owner),
            Call::Register { username, caller, .. } => self.registration_result(username, caller),
        }
    }

    /// Storage after the call: changed as the call says when it is accepted,
    /// unchanged when it is refused.
    pub open spec fn after(self, call: Call) -> GameState {
        if self.outcome(call) is Err {
            self
        } else {
            match call {
                Call::Initialize { tyc_token, usdc_token, initial_owner, reward_system, .. } =>
                    self.initialized(
                    Config { owner: initial_owner, tyc_token, usdc_token, reward_system },
                ),
                Call::Migrate => self.migrated(),
                Call::SetCollectible { token_id, info } => self.with_collectible(token_id, info),
                Call::SetCashTier { tier, value } => self.with_cash_tier(tier, value),
                Call::SetController { new_controller } => self.with_controller(new_controller),
                Call::TransferOwnership { new_owner } => self.with_owner(new_owner),
                Call::Register { username, caller, ledger_sequence, timestamp } => self.with_user(
                    GameState::new_profile(username, caller, ledger_sequence, timestamp),
                ),
            }
        }
    }

    /// Storage after the calls, made in order.
    pub open spec fn after_all(self, calls: Seq<Call>) -> GameState
        decreases calls.len(),
    {
        if calls.len() == 0 {
            self
        } else {
            self.after_all(calls.drop_last()).after(calls.last())
        }
    }
}

} // verus!

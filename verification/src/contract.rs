use std::collections::HashMap;

use vstd::prelude::*;

use crate::state::{
    Call, GameState, MAX_USERNAME_LEN, MIN_USERNAME_LEN, REGISTRATION_VOUCHER_AMOUNT,
};
use crate::text::count_chars;
use crate::types::{
    AccountId, CollectibleInfo, Config, ContractStateDump, Effects, Event, GameError, Payout, User,
    VoucherMint, WithdrawalPlan,
};

verus! {

broadcast use vstd::std_specs::hash::group_hash_axioms;

/// The Tycoon game contract: its storage, and one method per entrypoint.
///
/// Methods that change storage take `&mut self` and leave it untouched when
/// they return an error. What they cannot do themselves (check a signature,
/// move tokens, call another contract, publish an event) they hand back to
/// the host as a value: the call counts only once the host has done it.
///
/// Between calls the host keeps the storage; it rebuilds the value with
/// [`TycoonContract::restore`] and the `restore_*` methods, which file every
/// profile under its own address.
pub struct TycoonContract {
    config: Option<Config>,
    state_version: u32,
    backend_controller: Option<AccountId>,
    users: HashMap<u64, User>,
    collectibles: HashMap<u128, CollectibleInfo>,
    cash_tiers: HashMap<u32, u128>,
}

impl View for TycoonContract {
    type V = GameState;

    closed spec fn view(&self) -> GameState {
        GameState {
            config: self.config,
            state_version: self.state_version,
            backend_controller: self.backend_controller,
            users: self.users@.map_values(|u: User| u@),
            collectibles: self.collectibles@,
            cash_tiers: self.cash_tiers@,
        }
    }
}

impl TycoonContract {
    /// A freshly deployed contract, with empty storage.
    pub fn new() -> (c: TycoonContract)
        ensures
            c@ == GameState::empty(),
            c@.well_formed(),
    {
        let c = TycoonContract {
            config: None,
            state_version: 0,
            backend_controller: None,
            users: HashMap::new(),
            collectibles: HashMap::new(),
            cash_tiers: HashMap::new(),
        };
        assert(c@.users =~= Map::empty());
        c
    }

    /// Storage holding the given configuration, state version and backend
    /// controller, and as yet no profiles, collectibles or cash tiers.
    pub fn restore(
        config: Option<Config>,
        state_version: u32,
        backend_controller: Option<AccountId>,
    ) -> (c: TycoonContract)
        ensures
            c@ == (GameState { config, state_version, backend_controller, ..GameState::empty() }),
            c@.well_formed(),
    {
        let c = TycoonContract {
            config,
            state_version,
            backend_controller,
            users: HashMap::new(),
            collectibles: HashMap::new(),
            cash_tiers: HashMap::new(),
        };
        assert(c@.users =~= Map::empty());
        c
    }

    /// Puts back a stored profile, under its own address.
    pub fn restore_user(&mut self, user: User)
        ensures
            final(self)@ == old(self)@.with_user(user@),
            old(self)@.well_formed() ==> final(self)@.well_formed(),
    {
        let ghost before = self.users@;
        let ghost profile = user@;
        self.users.insert(user.address.0, user);
        assert(self.users@.map_values(|u: User| u@) =~= before.map_values(|u: User| u@).insert(
            profile.address.0,
            profile,
        ));
    }

    /// Puts back the stored metadata of collectible `token_id`.
    pub fn restore_collectible(&mut self, token_id: u128, info: CollectibleInfo)
        ensures
            final(self)@ == old(self)@.with_collectible(token_id, info),
    {
        self.collectibles.insert(token_id, info);
    }

    /// Puts back the stored value of cash tier `tier`.
    pub fn restore_cash_tier(&mut self, tier: u32, value: u128)
        ensures
            final(self)@ == old(self)@.with_cash_tier(tier, value),
    {
        self.cash_tiers.insert(tier, value);
    }

    /// The stored configuration, present once the contract is initialised.
    pub fn config(&self) -> (r: Option<Config>)
        ensures
            r == self@.config,
    {
        self.config
    }

    /// The stored state version.
    pub fn state_version(&self) -> (r: u32)
        ensures
            r == self@.state_version,
    {
        self.state_version
    }

    /// The stored backend game controller, if one was set.
    pub fn backend_controller(&self) -> (r: Option<AccountId>)
        ensures
            r == self@.backend_controller,
    {
        self.backend_controller
    }

    /// The stored owner, whose authorisation admin entrypoints need; refused
    /// while the contract is not initialised.
    pub fn require_admin(&self) -> (r: Result<AccountId, GameError>)
        ensures
            r == self@.admin_auth(),
    {
        match &self.config {
            Some(c) => Ok(c.owner),
            None => Err(GameError::NotInitialized),
        }
    }

    /// Initialises the contract with its token addresses, owner and reward
    /// system. `this_contract` is the contract's own address, which none of
    /// the others may be. Works once; the initial owner authorises the call.
    pub fn initialize(
        &mut self,
        this_contract: AccountId,
        tyc_token: AccountId,
        usdc_token: AccountId,
        initial_owner: AccountId,
        reward_system: AccountId,
    ) -> (r: Result<Effects, GameError>)
        ensures
            r == old(self)@.initialize_result(
                this_contract,
                tyc_token,
                usdc_token,
                initial_owner,
                reward_system,
            ),
            r is Ok ==> final(self)@ == old(self)@.initialized(
                Config { owner: initial_owner, tyc_token, usdc_token, reward_system },
            ),
            r is Err ==> final(self)@ == old(self)@,
            final(self)@ == old(self)@.after(
                Call::Initialize {
                this_contract,
                tyc_token,
                usdc_token,
                initial_owner,
                reward_system,
            },
            ),
    {
        if self.config.is_some() {
            return Err(GameError::AlreadyInitialized);
        }
        if tyc_token == this_contract || usdc_token == this_contract || initial_owner
            == this_contract || reward_system == this_contract {
            return Err(GameError::InvalidAddress);
        }
        self.config = Some(Config { owner: initial_owner, tyc_token, usdc_token, reward_system });
        self.state_version = 1;
        Ok(Effects { auth: initial_owner, event: None })
    }

    /// Registers `caller` under `username`, stamped with the ledger's
    /// sequence number and timestamp. The caller authorises the call.
    pub fn register_player(
        &mut self,
        username: Vec<u8>,
        caller: AccountId,
        ledger_sequence: u32,
        timestamp: u64,
    ) -> (r: Result<Effects, GameError>)
        ensures
            r == old(self)@.registration_result(username@, caller),
            r is Ok ==> final(self)@ == old(self)@.with_user(
                GameState::new_profile(username@, caller, ledger_sequence, timestamp),
            ),
            r is Err ==> final(self)@ == old(self)@,
            final(self)@ == old(self)@.after(
                Call::Register { username: username@, caller, ledger_sequence, timestamp },
            ),
            old(self)@.well_formed() ==> final(self)@.well_formed(),
    {
        if self.users.contains_key(&caller.0) {
            return Err(GameError::AlreadyRegistered);
        }
        let len = count_chars(&username);
        if !(MIN_USERNAME_LEN <= len && len <= MAX_USERNAME_LEN) {
            return Err(GameError::InvalidUsername);
        }
        let user = User {
            id: ledger_sequence as u64,
            username,
            address: caller,
            registered_at: timestamp,
            games_played: 0,
            games_won: 0,
        };
        let ghost before = self.users@;
        let ghost profile = user@;
        self.users.insert(caller.0, user);
        assert(self.users@.map_values(|u: User| u@) =~= before.map_values(|u: User| u@).insert(
            caller.0,
            profile,
        ));
        Ok(Effects { auth: caller, event: Some(Event::PlayerRegistered { player: caller }) })
    }

    /// Moves storage to the current state version: version 0 becomes 1,
    /// later versions stay. Safe to call again. Owner only.
    pub fn admin_migrate(&mut self) -> (r: Result<Effects, GameError>)
        ensures
            r == old(self)@.admin_effects(None),
            r is Ok ==> final(self)@ == old(self)@.migrated(),
            r is Err ==> final(self)@ == old(self)@,
            final(self)@ == old(self)@.after(
                Call::Migrate,
            ),
    {
        let owner = match self.require_admin() {
            Ok(o) => o,
            Err(e) => return Err(e),
        };
        if self.state_version == 0 {
            self.state_version = 1;
        }
        Ok(Effects { auth: owner, event: None })
    }

    /// Accepts a request to send `amount` of the TYC or USDC token from the
    /// treasury to `to`. The host then reads the contract's balance in
    /// `token` and settles the plan with it. Owner only.
    pub fn admin_withdraw_funds(&self, token: AccountId, to: AccountId, amount: u128) -> (r:
        Result<WithdrawalPlan, GameError>)
        ensures
            r == self@.withdrawal_result(token, to, amount),
    {
        let owner = match self.require_admin() {
            Ok(o) => o,
            Err(e) => return Err(e),
        };
        let cfg = match &self.config {
            Some(c) => *c,
            None => return Err(GameError::NotInitialized),
        };
        if token != cfg.tyc_token && token != cfg.usdc_token {
            return Err(GameError::InvalidToken);
        }
        if amount > i128::MAX as u128 {
            return Err(GameError::AmountTooLarge);
        }
        Ok(WithdrawalPlan { auth: owner, token, to, amount })
    }

    /// Creates or overwrites the metadata of collectible `token_id`. Owner
    /// only.
    pub fn admin_set_collectible_info(
        &mut self,
        token_id: u128,
        perk: u32,
        strength: u32,
        tyc_price: u128,
        usdc_price: u128,
        shop_stock: u64,
    ) -> (r: Result<Effects, GameError>)
        ensures
            r == old(self)@.admin_effects(None),
            r is Ok ==> final(self)@ == old(self)@.with_collectible(
                token_id,
                CollectibleInfo { perk, strength, tyc_price, usdc_price, shop_stock },
            ),
            r is Err ==> final(self)@ == old(self)@,
            final(self)@ == old(self)@.after(
                Call::SetCollectible {
                token_id,
                info: CollectibleInfo { perk, strength, tyc_price, usdc_price, shop_stock },
            },
            ),
    {
        let owner = match self.require_admin() {
            Ok(o) => o,
            Err(e) => return Err(e),
        };
        let info = CollectibleInfo { perk, strength, tyc_price, usdc_price, shop_stock };
        self.collectibles.insert(token_id, info);
        Ok(Effects { auth: owner, event: None })
    }

    /// Sets the token value of cash tier `tier`. Owner only.
    pub fn admin_set_cash_tier_value(&mut self, tier: u32, value: u128) -> (r: Result<
        Effects,
        GameError,
    >)
        ensures
            r == old(self)@.admin_effects(None),
            r is Ok ==> final(self)@ == old(self)@.with_cash_tier(tier, value),
            r is Err ==> final(self)@ == old(self)@,
            final(self)@ == old(self)@.after(
                Call::SetCashTier { tier, value },
            ),
    {
        let owner = match self.require_admin() {
            Ok(o) => o,
            Err(e) => return Err(e),
        };
        self.cash_tiers.insert(tier, value);
        Ok(Effects { auth: owner, event: None })
    }

    /// Makes `new_controller` the backend game controller, which may remove
    /// players from games besides the owner. Owner only.
    pub fn admin_set_game_controller(&mut self, new_controller: AccountId) -> (r: Result<
        Effects,
        GameError,
    >)
        ensures
            r == old(self)@.admin_effects(Some(Event::ControllerUpdated { new_controller })),
            r is Ok ==> final(self)@ == old(self)@.with_controller(new_controller),
            r is Err ==> final(self)@ == old(self)@,
            final(self)@ == old(self)@.after(
                Call::SetController { new_controller },
            ),
    {
        let owner = match self.require_admin() {
            Ok(o) => o,
            Err(e) => return Err(e),
        };
        self.backend_controller = Some(new_controller);
        Ok(Effects { auth: owner, event: Some(Event::ControllerUpdated { new_controller }) })
    }

    /// Hands the owner's rights to `new_owner`. The current owner authorises
    /// the call.
    pub fn admin_transfer_ownership(&mut self, new_owner: AccountId) -> (r: Result<
        Effects,
        GameError,
    >)
        ensures
            r == old(self)@.transfer_ownership_result(new_owner),
            r is Ok ==> final(self)@ == old(self)@.with_owner(new_owner),
            r is Err ==> final(self)@ == old(self)@,
            final(self)@ == old(self)@.after(
                Call::TransferOwnership { new_owner },
            ),
    {
        let cfg = match &self.config {
            Some(c) => *c,
            None => return Err(GameError::NotInitialized),
        };
        self.config = Some(Config { owner: new_owner, ..cfg });
        Ok(
            Effects {
                auth: cfg.owner,
                event: Some(Event::OwnershipTransferred { old_owner: cfg.owner, new_owner }),
            },
        )
    }

    /// Asks the reward system to mint a 2-TYC registration voucher for
    /// `player`. Owner only.
    pub fn admin_mint_registration_voucher(&self, player: AccountId) -> (r: Result<
        VoucherMint,
        GameError,
    >)
        ensures
            r == self@.voucher_result(player),
    {
        match &self.config {
            Some(c) => Ok(
                VoucherMint {
                    auth: c.owner,
                    reward_system: c.reward_system,
                    player,
                    amount: REGISTRATION_VOUCHER_AMOUNT,
                },
            ),
            None => Err(GameError::NotInitialized),
        }
    }

    /// Removes `player` from game `game_id` at turn `turn_count`. The caller,
    /// who authorises the call, must be the owner or the backend game
    /// controller. Nothing is stored; the removal is published as an event.
    pub fn remove_player_from_game(
        &self,
        caller: AccountId,
        game_id: u128,
        player: AccountId,
        turn_count: u32,
    ) -> (r: Result<Effects, GameError>)
        ensures
            r == self@.removal_result(caller, game_id, player, turn_count),
    {
        let owner = match self.require_admin() {
            Ok(o) => o,
            Err(e) => return Err(e),
        };
        let is_owner = caller == owner;
        let is_backend_controller = match self.backend_controller {
            Some(c) => caller == c,
            None => false,
        };
        if !is_owner && !is_backend_controller {
            return Err(GameError::Unauthorized);
        }
        Ok(
            Effects {
                auth: caller,
                event: Some(Event::PlayerRemovedFromGame { game_id, player, turn_count }),
            },
        )
    }

    /// The profile of `address`, if it is registered.
    pub fn get_user(&self, address: AccountId) -> (r: Option<User>)
        ensures
            r matches Some(u) ==> self@.user_of(address) == Some(u@),
            r is None ==> self@.user_of(address) is None,
    {
        match self.users.get(&address.0) {
            Some(u) => Some(u.duplicate()),
            None => None,
        }
    }

    /// The metadata `(perk, strength, tyc_price, usdc_price, shop_stock)` of
    /// collectible `token_id`.
    pub fn get_collectible_info(&self, token_id: u128) -> (r: Result<
        (u32, u32, u128, u128, u64),
        GameError,
    >)
        ensures
            r == self@.collectible_result(token_id),
    {
        match self.collectibles.get(&token_id) {
            Some(info) => Ok(
                (info.perk, info.strength, info.tyc_price, info.usdc_price, info.shop_stock),
            ),
            None => Err(GameError::CollectibleNotFound),
        }
    }

    /// The token value of cash tier `tier`.
    pub fn get_cash_tier_value(&self, tier: u32) -> (r: Result<u128, GameError>)
        ensures
            r == self@.cash_tier_result(tier),
    {
        match self.cash_tiers.get(&tier) {
            Some(value) => Ok(*value),
            None => Err(GameError::CashTierNotFound),
        }
    }

    /// A snapshot of the contract's configuration, for support and
    /// debugging. Needs no authorisation.
    pub fn export_state(&self) -> (r: Result<ContractStateDump, GameError>)
        ensures
            r == self@.export_result(),
    {
        match &self.config {
            Some(c) => Ok(
                ContractStateDump {
                    owner: c.owner,
                    tyc_token: c.tyc_token,
                    usdc_token: c.usdc_token,
                    reward_system: c.reward_system,
                    state_version: self.state_version,
                    is_initialized: true,
                    backend_controller: self.backend_controller,
                },
            ),
            None => Err(GameError::NotInitialized),
        }
    }

    // ── Entrypoints kept under their former names ───────────────────────

    /// Former name of [`TycoonContract::admin_migrate`], which it calls.
    /// Deprecated since 0.2.0: use `admin_migrate`.
    pub fn migrate(&mut self) -> (r: Result<Effects, GameError>)
        ensures
            r == old(self)@.admin_effects(None),
            r is Ok ==> final(self)@ == old(self)@.migrated(),
            r is Err ==> final(self)@ == old(self)@,
            final(self)@ == old(self)@.after(
                Call::Migrate,
            ),
    {
        self.admin_migrate()
    }

    /// Former name of [`TycoonContract::admin_withdraw_funds`], which it calls.
    /// Deprecated since 0.2.0: use `admin_withdraw_funds`.
    pub fn withdraw_funds(&self, token: AccountId, to: AccountId, amount: u128) -> (r: Result<
        WithdrawalPlan,
        GameError,
    >)
        ensures
            r == self@.withdrawal_result(token, to, amount),
    {
        self.admin_withdraw_funds(token, to, amount)
    }

    /// Former name of [`TycoonContract::admin_set_collectible_info`], which it
    /// calls.
    /// Deprecated since 0.2.0: use `admin_set_collectible_info`.
    pub fn set_collectible_info(
        &mut self,
        token_id: u128,
        perk: u32,
        strength: u32,
        tyc_price: u128,
        usdc_price: u128,
        shop_stock: u64,
    ) -> (r: Result<Effects, GameError>)
        ensures
            r == old(self)@.admin_effects(None),
            r is Ok ==> final(self)@ == old(self)@.with_collectible(
                token_id,
                CollectibleInfo { perk, strength, tyc_price, usdc_price, shop_stock },
            ),
            r is Err ==> final(self)@ == old(self)@,
            final(self)@ == old(self)@.after(
                Call::SetCollectible {
                token_id,
                info: CollectibleInfo { perk, strength, tyc_price, usdc_price, shop_stock },
            },
            ),
    {
        self.admin_set_collectible_info(token_id, perk, strength, tyc_price, usdc_price, shop_stock)
    }

    /// Former name of [`TycoonContract::admin_set_cash_tier_value`], which it
    /// calls.
    /// Deprecated since 0.2.0: use `admin_set_cash_tier_value`.
    pub fn set_cash_tier_value(&mut self, tier: u32, value: u128) -> (r: Result<
        Effects,
        GameError,
    >)
        ensures
            r == old(self)@.admin_effects(None),
            r is Ok ==> final(self)@ == old(self)@.with_cash_tier(tier, value),
            r is Err ==> final(self)@ == old(self)@,
            final(self)@ == old(self)@.after(
                Call::SetCashTier { tier, value },
            ),
    {
        self.admin_set_cash_tier_value(tier, value)
    }

    /// Former name of [`TycoonContract::admin_set_game_controller`], which it
    /// calls.
    /// Deprecated since 0.2.0: use `admin_set_game_controller`.
    pub fn set_backend_game_controller(&mut self, new_controller: AccountId) -> (r: Result<
        Effects,
        GameError,
    >)
        ensures
            r == old(self)@.admin_effects(Some(Event::ControllerUpdated { new_controller })),
            r is Ok ==> final(self)@ == old(self)@.with_controller(new_controller),
            r is Err ==> final(self)@ == old(self)@,
            final(self)@ == old(self)@.after(
                Call::SetController { new_controller },
            ),
    {
        self.admin_set_game_controller(new_controller)
    }

    /// Former name of [`TycoonContract::admin_mint_registration_voucher`],
    /// which it calls.
    /// Deprecated since 0.2.0: use `admin_mint_registration_voucher`.
    pub fn mint_registration_voucher(&self, player: AccountId) -> (r: Result<
        VoucherMint,
        GameError,
    >)
        ensures
            r == self@.voucher_result(player),
    {
        self.admin_mint_registration_voucher(player)
    }
}

impl WithdrawalPlan {
    /// Settles an accepted withdrawal against the contract's balance in the
    /// token: the transfer goes ahead only when the balance covers the whole
    /// amount.
    pub fn settle(&self, contract_balance: i128) -> (r: Result<Payout, GameError>)
        ensures
            self.amount > i128::MAX ==> r == Err::<Payout, GameError>(GameError::AmountTooLarge),
            self.amount <= i128::MAX && contract_balance < self.amount ==> r == Err::<
                Payout,
                GameError,
            >(GameError::InsufficientBalance),
            self.amount <= contract_balance ==> r == Ok::<Payout, GameError>(
                Payout {
                    token: self.token,
                    to: self.to,
                    amount: self.amount as i128,
                    event: Event::FundsWithdrawn {
                        token: self.token,
                        to: self.to,
                        amount: self.amount,
                    },
                },
            ),
    {
        if self.amount > i128::MAX as u128 {
            return Err(GameError::AmountTooLarge);
        }
        let amount = self.amount as i128;
        if contract_balance < amount {
            return Err(GameError::InsufficientBalance);
        }
        Ok(
            Payout {
                token: self.token,
                to: self.to,
                amount,
                event: Event::FundsWithdrawn { token: self.token, to: self.to, amount: self.amount },
            },
        )
    }
}

} // verus!

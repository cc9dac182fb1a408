//! Properties of the contract that span several entrypoints, stated over the
//! storage model that the entrypoints' contracts use.
use vstd::prelude::*;

use crate::state::{info_tuple, Call, GameState};
use crate::text::char_count;
use crate::types::{
    AccountId, CollectibleInfo, Config, ContractStateDump, Effects, Event, GameError, UserView,
    VoucherMint, WithdrawalPlan,
};

verus! {

/// The contract can be initialised only once: after a successful
/// `initialize`, every later call of it is refused with `AlreadyInitialized`.
pub proof fn lemma_initialize_only_once(
    s: GameState,
    this_contract: AccountId,
    tyc_token: AccountId,
    usdc_token: AccountId,
    initial_owner: AccountId,
    reward_system: AccountId,
    this_contract2: AccountId,
    tyc_token2: AccountId,
    usdc_token2: AccountId,
    initial_owner2: AccountId,
    reward_system2: AccountId,
)
    requires
        s.initialize_result(this_contract, tyc_token, usdc_token, initial_owner, reward_system) is Ok,
    ensures
        s.initialized(
            Config { owner: initial_owner, tyc_token, usdc_token, reward_system },
        ).initialize_result(this_contract2, tyc_token2, usdc_token2, initial_owner2, reward_system2)
            == Err::<Effects, GameError>(GameError::AlreadyInitialized),
{
}

/// After a successful `initialize`, `export_state` reports the addresses it
/// was given, state version 1 and an initialised contract, and the initial
/// owner is the one who authorises admin calls. A fresh contract has no
/// backend controller yet.
pub proof fn lemma_initialize_then_export(
    s: GameState,
    this_contract: AccountId,
    tyc_token: AccountId,
    usdc_token: AccountId,
    initial_owner: AccountId,
    reward_system: AccountId,
)
    requires
        s.initialize_result(this_contract, tyc_token, usdc_token, initial_owner, reward_system) is Ok,
    ensures
        ({
            let t = s.initialized(
                Config { owner: initial_owner, tyc_token, usdc_token, reward_system },
            );
            &&& t.export_result() == Ok::<ContractStateDump, GameError>(
                ContractStateDump {
                    owner: initial_owner,
                    tyc_token,
                    usdc_token,
                    reward_system,
                    state_version: 1,
                    is_initialized: true,
                    backend_controller: s.backend_controller,
                },
            )
            &&& t.admin_auth() == Ok::<AccountId, GameError>(initial_owner)
        }),
        GameState::empty().initialized(
            Config { owner: initial_owner, tyc_token, usdc_token, reward_system },
        ).export_result() matches Ok(d) && d.backend_controller is None,
{
}

/// Reading a collectible gives back what was last written for its token id,
/// and writing one token id leaves every other one as it was.
pub proof fn lemma_collectible_read_after_write(
    s: GameState,
    token_id: u128,
    info: CollectibleInfo,
    other: u128,
)
    ensures
        s.with_collectible(token_id, info).collectible_result(token_id) == Ok::<
            (u32, u32, u128, u128, u64),
            GameError,
        >(info_tuple(info)),
        other != token_id ==> s.with_collectible(token_id, info).collectible_result(other)
            == s.collectible_result(other),
{
}

/// Reading a cash tier gives back what was last written for it, and writing
/// one tier leaves every other one as it was.
pub proof fn lemma_cash_tier_read_after_write(s: GameState, tier: u32, value: u128, other: u32)
    ensures
        s.with_cash_tier(tier, value).cash_tier_result(tier) == Ok::<u128, GameError>(value),
        other != tier ==> s.with_cash_tier(tier, value).cash_tier_result(other)
            == s.cash_tier_result(other),
{
}

/// After a successful registration, `get_user` returns the new profile (the
/// chosen name, the caller's address, no games played or won), a second
/// registration of the same address is refused, and other profiles stay
/// as they were.
pub proof fn lemma_register_then_get_user(
    s: GameState,
    username: Seq<u8>,
    caller: AccountId,
    ledger_sequence: u32,
    timestamp: u64,
    username2: Seq<u8>,
    other: AccountId,
)
    requires
        s.registration_result(username, caller) is Ok,
    ensures
        ({
            let profile = GameState::new_profile(username, caller, ledger_sequence, timestamp);
            let t = s.with_user(profile);
            &&& t.user_of(caller) == Some(profile)
            &&& profile.username == username && profile.address == caller
            &&& profile.games_played == 0 && profile.games_won == 0
            &&& t.registration_result(username2, caller) == Err::<Effects, GameError>(
                GameError::AlreadyRegistered,
            )
            &&& other != caller ==> t.user_of(other) == s.user_of(other)
        }),
{
}

/// Rotating the backend controller takes the right to remove players away
/// from the old controller (unless it is the owner) and gives it to the new
/// one.
pub proof fn lemma_controller_rotation(
    s: GameState,
    old_controller: AccountId,
    new_controller: AccountId,
    game_id: u128,
    player: AccountId,
    turn_count: u32,
)
    requires
        s.config is Some,
        old_controller != new_controller,
        old_controller != s.config->0.owner,
    ensures
        ({
            let t = s.with_controller(new_controller);
            &&& t.removal_result(old_controller, game_id, player, turn_count) == Err::<
                Effects,
                GameError,
            >(GameError::Unauthorized)
            &&& t.removal_result(new_controller, game_id, player, turn_count) == Ok::<
                Effects,
                GameError,
            >(
                Effects {
                    auth: new_controller,
                    event: Some(Event::PlayerRemovedFromGame { game_id, player, turn_count }),
                },
            )
        }),
{
}

/// After an ownership transfer, the new owner is the one who authorises
/// every admin entrypoint and may remove players from games; the token and
/// reward system addresses stay.
pub proof fn lemma_transfer_ownership_moves_admin_rights(
    s: GameState,
    new_owner: AccountId,
    event: Option<Event>,
)
    requires
        s.config is Some,
    ensures
        ({
            let t = s.with_owner(new_owner);
            &&& t.admin_auth() == Ok::<AccountId, GameError>(new_owner)
            &&& t.admin_effects(event) == Ok::<Effects, GameError>(
                Effects { auth: new_owner, event },
            )
            &&& t.may_remove_players(new_owner)
            &&& t.config->0.tyc_token == s.config->0.tyc_token
            &&& t.config->0.usdc_token == s.config->0.usdc_token
            &&& t.config->0.reward_system == s.config->0.reward_system
        }),
{
}

/// Migrating twice is migrating once, and a migrated contract is at a
/// nonzero state version.
pub proof fn lemma_migrate_idempotent(s: GameState)
    ensures
        s.migrated().migrated() == s.migrated(),
        s.migrated().state_version >= 1,
{
}

/// Every profile stays stored under its own address: a fresh contract has
/// no profiles, registration files the new profile under the caller, and
/// the other updates leave the profiles alone. So a profile that `get_user`
/// finds for an address is that address's.
pub proof fn lemma_profiles_keyed_by_address(
    s: GameState,
    a: AccountId,
    username: Seq<u8>,
    ledger_sequence: u32,
    timestamp: u64,
    cfg: Config,
    token_id: u128,
    info: CollectibleInfo,
    tier: u32,
    value: u128,
    controller: AccountId,
)
    ensures
        GameState::empty().well_formed(),
        s.well_formed() ==> s.with_user(
            GameState::new_profile(username, a, ledger_sequence, timestamp),
        ).well_formed(),
        s.well_formed() ==> s.initialized(cfg).well_formed() && s.migrated().well_formed()
            && s.with_collectible(token_id, info).well_formed() && s.with_cash_tier(
            tier,
            value,
        ).well_formed() && s.with_controller(controller).well_formed() && s.with_owner(
            controller,
        ).well_formed(),
        s.well_formed() && s.user_of(a) is Some ==> s.user_of(a)->0.address == a,
{
}

/// Once initialised, the contract stays initialised whatever calls follow:
/// the token and reward system addresses keep the values they were set to,
/// and every later `initialize` is refused with `AlreadyInitialized`.
pub proof fn lemma_initialized_for_good(
    s: GameState,
    calls: Seq<Call>,
    this_contract: AccountId,
    tyc_token: AccountId,
    usdc_token: AccountId,
    initial_owner: AccountId,
    reward_system: AccountId,
)
    requires
        s.config is Some,
    ensures
        s.after_all(calls).config is Some,
        s.after_all(calls).config->0.tyc_token == s.config->0.tyc_token,
        s.after_all(calls).config->0.usdc_token == s.config->0.usdc_token,
        s.after_all(calls).config->0.reward_system == s.config->0.reward_system,
        s.after_all(calls).initialize_result(
            this_contract,
            tyc_token,
            usdc_token,
            initial_owner,
            reward_system,
        ) == Err::<Effects, GameError>(GameError::AlreadyInitialized),
    decreases calls.len(),
{
    if calls.len() > 0 {
        lemma_initialized_for_good(
            s,
            calls.drop_last(),
            this_contract,
            tyc_token,
            usdc_token,
            initial_owner,
            reward_system,
        );
    }
}

/// Calls that do not write collectible `token_id` leave it as it was.
pub proof fn lemma_collectible_kept_by_other_calls(s: GameState, calls: Seq<Call>, token_id: u128)
    requires
        forall|i: int| 0 <= i < calls.len() ==> !(#[trigger] calls[i]).sets_collectible(token_id),
    ensures
        s.after_all(calls).collectible_result(token_id) == s.collectible_result(token_id),
    decreases calls.len(),
{
    if calls.len() > 0 {
        let prefix = calls.drop_last();
        assert forall|i: int| 0 <= i < prefix.len() implies !(#[trigger] prefix[i]).sets_collectible(
            token_id,
        ) by {
            assert(prefix[i] == calls[i]);
        }
        assert(!calls[calls.len() - 1].sets_collectible(token_id));
        lemma_collectible_kept_by_other_calls(s, prefix, token_id);
    }
}

/// After an accepted write of collectible `token_id`, reading it gives the
/// written metadata, whatever calls follow as long as none writes that same
/// token id again.
pub proof fn lemma_collectible_read_after_write_and_later_calls(
    s: GameState,
    token_id: u128,
    info: CollectibleInfo,
    calls: Seq<Call>,
)
    requires
        s.outcome(Call::SetCollectible { token_id, info }) is Ok,
        forall|i: int| 0 <= i < calls.len() ==> !(#[trigger] calls[i]).sets_collectible(token_id),
    ensures
        s.after(Call::SetCollectible { token_id, info }).after_all(calls).collectible_result(
            token_id,
        ) == Ok::<(u32, u32, u128, u128, u64), GameError>(info_tuple(info)),
{
    lemma_collectible_kept_by_other_calls(
        s.after(Call::SetCollectible { token_id, info }),
        calls,
        token_id,
    );
}

/// Calls that do not write cash tier `tier` leave it as it was.
pub proof fn lemma_cash_tier_kept_by_other_calls(s: GameState, calls: Seq<Call>, tier: u32)
    requires
        forall|i: int| 0 <= i < calls.len() ==> !(#[trigger] calls[i]).sets_cash_tier(tier),
    ensures
        s.after_all(calls).cash_tier_result(tier) == s.cash_tier_result(tier),
    decreases calls.len(),
{
    if calls.len() > 0 {
        let prefix = calls.drop_last();
        assert forall|i: int| 0 <= i < prefix.len() implies !(#[trigger] prefix[i]).sets_cash_tier(
            tier,
        ) by {
            assert(prefix[i] == calls[i]);
        }
        assert(!calls[calls.len() - 1].sets_cash_tier(tier));
        lemma_cash_tier_kept_by_other_calls(s, prefix, tier);
    }
}

/// After an accepted write of cash tier `tier`, reading it gives the written
/// value, whatever calls follow as long as none writes that same tier again.
pub proof fn lemma_cash_tier_read_after_write_and_later_calls(
    s: GameState,
    tier: u32,
    value: u128,
    calls: Seq<Call>,
)
    requires
        s.outcome(Call::SetCashTier { tier, value }) is Ok,
        forall|i: int| 0 <= i < calls.len() ==> !(#[trigger] calls[i]).sets_cash_tier(tier),
    ensures
        s.after(Call::SetCashTier { tier, value }).after_all(calls).cash_tier_result(tier) == Ok::<
            u128,
            GameError,
        >(value),
{
    lemma_cash_tier_kept_by_other_calls(s.after(Call::SetCashTier { tier, value }), calls, tier);
}

/// Every owner-only entrypoint (migration, catalogue and cash-tier writes,
/// controller and ownership changes, withdrawals, vouchers, and their former
/// names) is refused with `NotInitialized`, leaving storage unchanged, while
/// there is no owner; when it accepts, the authorisation it asks for is the
/// owner's.
pub proof fn lemma_admin_entrypoints_need_owner(
    s: GameState,
    call: Call,
    token: AccountId,
    to: AccountId,
    amount: u128,
    player: AccountId,
)
    requires
        call.is_admin(),
    ensures
        s.config is None ==> s.outcome(call) == Err::<Effects, GameError>(
            GameError::NotInitialized,
        ) && s.after(call) == s,
        s.outcome(call) matches Ok(e) ==> s.config is Some && e.auth == s.config->0.owner,
        s.config is None ==> s.withdrawal_result(token, to, amount) == Err::<
            WithdrawalPlan,
            GameError,
        >(GameError::NotInitialized),
        s.withdrawal_result(token, to, amount) matches Ok(p) ==> s.config is Some && p.auth
            == s.config->0.owner,
        s.config is None ==> s.voucher_result(player) == Err::<VoucherMint, GameError>(
            GameError::NotInitialized,
        ),
        s.voucher_result(player) matches Ok(v) ==> s.config is Some && v.auth
            == s.config->0.owner,
{
}

/// Removing a player from a game: refused before initialisation; after it,
/// the owner and the backend controller are always allowed, anybody else is refused, and an accepted removal asks the
/// caller's authorisation and publishes exactly the given game, player and
/// turn count.
pub proof fn lemma_removal_publishes_given_player(
    s: GameState,
    caller: AccountId,
    game_id: u128,
    player: AccountId,
    turn_count: u32,
)
    ensures
        s.config is None ==> s.removal_result(caller, game_id, player, turn_count) == Err::<
            Effects,
            GameError,
        >(GameError::NotInitialized),
        s.config is Some && (caller == s.config->0.owner || s.backend_controller == Some(caller))
            ==> s.removal_result(
            caller,
            game_id,
            player,
            turn_count,
        ) == Ok::<Effects, GameError>(
            Effects {
                auth: caller,
                event: Some(Event::PlayerRemovedFromGame { game_id, player, turn_count }),
            },
        ),
        s.config is Some && caller != s.config->0.owner && s.backend_controller != Some(caller)
            ==> s.removal_result(
            caller,
            game_id,
            player,
            turn_count,
        ) == Err::<Effects, GameError>(GameError::Unauthorized),
{
}

/// On an initialised contract a registration voucher is granted to every
/// player, registered or not: the owner authorises a call of the reward
/// system that mints 2 TYC (20_000_000 units) for that player. Registering
/// somebody changes nothing about vouchers.
pub proof fn lemma_voucher_for_every_player(
    s: GameState,
    player: AccountId,
    profile: UserView,
)
    requires
        s.config is Some,
    ensures
        s.voucher_result(player) == Ok::<VoucherMint, GameError>(
            VoucherMint {
                auth: s.config->0.owner,
                reward_system: s.config->0.reward_system,
                player,
                amount: 20_000_000,
            },
        ),
        s.with_user(profile).voucher_result(player) == s.voucher_result(player),
{
}

/// On an initialised contract a withdrawal of TYC or USDC of at most
/// `i128::MAX` is accepted for every recipient, the owner included, as a
/// plan for exactly that token, recipient and amount; any other token is
/// refused, and so is a larger amount.
pub proof fn lemma_withdrawal_to_any_recipient(
    s: GameState,
    token: AccountId,
    to: AccountId,
    amount: u128,
)
    requires
        s.config is Some,
    ensures
        (token == s.config->0.tyc_token || token == s.config->0.usdc_token) && amount
            <= i128::MAX ==> s.withdrawal_result(token, to, amount) == Ok::<
            WithdrawalPlan,
            GameError,
        >(WithdrawalPlan { auth: s.config->0.owner, token, to, amount }),
        token != s.config->0.tyc_token && token != s.config->0.usdc_token ==> s.withdrawal_result(
            token,
            to,
            amount,
        ) == Err::<WithdrawalPlan, GameError>(GameError::InvalidToken),
        (token == s.config->0.tyc_token || token == s.config->0.usdc_token) && amount
            > i128::MAX ==> s.withdrawal_result(token, to, amount) == Err::<
            WithdrawalPlan,
            GameError,
        >(GameError::AmountTooLarge),
{
}

/// Registering an unregistered address under a name of 3 to 20 characters
/// is accepted, asks the caller's authorisation and publishes the
/// registration; the stored profile carries the name, the caller's address,
/// the ledger sequence as its id and the ledger timestamp as its
/// registration time, with no games played or won. Nothing else is stored.
pub proof fn lemma_registration_profile(
    s: GameState,
    username: Seq<u8>,
    caller: AccountId,
    ledger_sequence: u32,
    timestamp: u64,
)
    requires
        !s.users.contains_key(caller.0),
        3 <= char_count(username) <= 20,
    ensures
        ({
            let call = Call::Register { username, caller, ledger_sequence, timestamp };
            let t = s.after(call);
            &&& s.outcome(call) == Ok::<Effects, GameError>(
                Effects { auth: caller, event: Some(Event::PlayerRegistered { player: caller }) },
            )
            &&& t.user_of(caller) is Some
            &&& t.user_of(caller)->0.id == ledger_sequence
            &&& t.user_of(caller)->0.registered_at == timestamp
            &&& t.user_of(caller)->0.username == username
            &&& t.user_of(caller)->0.address == caller
            &&& t.user_of(caller)->0.games_played == 0
            &&& t.user_of(caller)->0.games_won == 0
            &&& t.users == s.users.insert(caller.0, t.users[caller.0])
            &&& t.config == s.config && t.state_version == s.state_version
            &&& t.backend_controller == s.backend_controller
            &&& t.collectibles == s.collectibles && t.cash_tiers == s.cash_tiers
        }),
{
}

/// On an initialised contract the owner can always hand over ownership,
/// whatever the backend controller: the current owner authorises, the
/// transfer is published with both owners, and afterwards `new_owner` is
/// the owner while the token and reward system addresses stay.
pub proof fn lemma_transfer_ownership_always_accepted(s: GameState, new_owner: AccountId)
    requires
        s.config is Some,
    ensures
        ({
            let c = s.config->0;
            let call = Call::TransferOwnership { new_owner };
            &&& s.outcome(call) == Ok::<Effects, GameError>(
                Effects {
                    auth: c.owner,
                    event: Some(Event::OwnershipTransferred { old_owner: c.owner, new_owner }),
                },
            )
            &&& s.after(call).config == Some(
                Config {
                    owner: new_owner,
                    tyc_token: c.tyc_token,
                    usdc_token: c.usdc_token,
                    reward_system: c.reward_system,
                },
            )
            &&& s.after(call).backend_controller == s.backend_controller
        }),
{
}

/// `initialize` on a contract without configuration, given addresses none
/// of which is the contract itself, is authorised by the initial owner,
/// publishes nothing, stores exactly the given addresses with state version
/// 1 and touches nothing else; one of the addresses being the contract is
/// refused with `InvalidAddress`.
pub proof fn lemma_initialize_stores_given_addresses(
    s: GameState,
    this_contract: AccountId,
    tyc_token: AccountId,
    usdc_token: AccountId,
    initial_owner: AccountId,
    reward_system: AccountId,
)
    requires
        s.config is None,
    ensures
        ({
            let call = Call::Initialize {
                this_contract,
                tyc_token,
                usdc_token,
                initial_owner,
                reward_system,
            };
            let t = s.after(call);
            let distinct = tyc_token != this_contract && usdc_token != this_contract
                && initial_owner != this_contract && reward_system != this_contract;
            &&& distinct ==> s.outcome(call) == Ok::<Effects, GameError>(
                Effects { auth: initial_owner, event: None },
            )
            &&& distinct ==> t.config == Some(
                Config { owner: initial_owner, tyc_token, usdc_token, reward_system },
            )
            &&& distinct ==> t.state_version == 1
            &&& !distinct ==> s.outcome(call) == Err::<Effects, GameError>(
                GameError::InvalidAddress,
            ) && t == s
            &&& t.backend_controller == s.backend_controller && t.users == s.users
            &&& t.collectibles == s.collectibles && t.cash_tiers == s.cash_tiers
        }),
{
}

/// What each owner-only update does on an initialised contract: it is
/// authorised by the owner and changes exactly its own entry. Migration
/// moves version 0 to 1 and keeps any other version; the controller update
/// is published with the new controller.
pub proof fn lemma_admin_updates(
    s: GameState,
    token_id: u128,
    info: CollectibleInfo,
    tier: u32,
    value: u128,
    new_controller: AccountId,
)
    requires
        s.config is Some,
    ensures
        ({
            let owner = s.config->0.owner;
            let set_c = Call::SetCollectible { token_id, info };
            let set_t = Call::SetCashTier { tier, value };
            let set_b = Call::SetController { new_controller };
            &&& s.outcome(Call::Migrate) == Ok::<Effects, GameError>(
                Effects { auth: owner, event: None },
            )
            &&& s.after(Call::Migrate).state_version == (if s.state_version == 0 {
                1
            } else {
                s.state_version
            })
            &&& s.after(Call::Migrate).config == s.config
            &&& s.after(Call::Migrate).users == s.users
            &&& s.outcome(set_c) == Ok::<Effects, GameError>(Effects { auth: owner, event: None })
            &&& s.after(set_c).collectibles == s.collectibles.insert(token_id, info)
            &&& s.after(set_c).cash_tiers == s.cash_tiers && s.after(set_c).config == s.config
            &&& s.outcome(set_t) == Ok::<Effects, GameError>(Effects { auth: owner, event: None })
            &&& s.after(set_t).cash_tiers == s.cash_tiers.insert(tier, value)
            &&& s.after(set_t).collectibles == s.collectibles && s.after(set_t).config == s.config
            &&& s.outcome(set_b) == Ok::<Effects, GameError>(
                Effects {
                    auth: owner,
                    event: Some(Event::ControllerUpdated { new_controller }),
                },
            )
            &&& s.after(set_b).backend_controller == Some(new_controller)
            &&& s.after(set_b).config == s.config && s.after(set_b).users == s.users
        }),
{
}

/// The read entrypoints return what storage holds: a collectible's five
/// fields in order, a cash tier's value, a profile by its owner's address,
/// and the configuration with the state version and controller, refusing
/// what is not stored.
pub proof fn lemma_reads_return_stored_values(
    s: GameState,
    token_id: u128,
    tier: u32,
    a: AccountId,
)
    ensures
        s.collectibles.contains_key(token_id) ==> s.collectible_result(token_id) == Ok::<
            (u32, u32, u128, u128, u64),
            GameError,
        >(
            (
                s.collectibles[token_id].perk,
                s.collectibles[token_id].strength,
                s.collectibles[token_id].tyc_price,
                s.collectibles[token_id].usdc_price,
                s.collectibles[token_id].shop_stock,
            ),
        ),
        !s.collectibles.contains_key(token_id) ==> s.collectible_result(token_id) == Err::<
            (u32, u32, u128, u128, u64),
            GameError,
        >(GameError::CollectibleNotFound),
        s.cash_tiers.contains_key(tier) ==> s.cash_tier_result(tier) == Ok::<u128, GameError>(
            s.cash_tiers[tier],
        ),
        !s.cash_tiers.contains_key(tier) ==> s.cash_tier_result(tier) == Err::<u128, GameError>(
            GameError::CashTierNotFound,
        ),
        s.users.contains_key(a.0) ==> s.user_of(a) == Some(s.users[a.0]),
        !s.users.contains_key(a.0) ==> s.user_of(a) is None,
        s.config matches Some(c) ==> s.export_result() == Ok::<ContractStateDump, GameError>(
            ContractStateDump {
                owner: c.owner,
                tyc_token: c.tyc_token,
                usdc_token: c.usdc_token,
                reward_system: c.reward_system,
                state_version: s.state_version,
                is_initialized: true,
                backend_controller: s.backend_controller,
            },
        ),
        s.config is None ==> s.export_result() == Err::<ContractStateDump, GameError>(
            GameError::NotInitialized,
        ),
{
}

/// Registration refuses an address that already has a profile, and a name
/// with fewer than 3 or more than 20 characters, storing nothing.
pub proof fn lemma_registration_refusals(
    s: GameState,
    username: Seq<u8>,
    caller: AccountId,
    ledger_sequence: u32,
    timestamp: u64,
)
    ensures
        ({
            let call = Call::Register { username, caller, ledger_sequence, timestamp };
            &&& s.users.contains_key(caller.0) ==> s.outcome(call) == Err::<Effects, GameError>(
                GameError::AlreadyRegistered,
            ) && s.after(call) == s
            &&& !s.users.contains_key(caller.0) && !(3 <= char_count(username) <= 20)
                ==> s.outcome(call) == Err::<Effects, GameError>(GameError::InvalidUsername)
                && s.after(call) == s
        }),
{
}

} // verus!

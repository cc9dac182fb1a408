use tycoon_game::{
    AccountId, CollectibleInfo, ContractStateDump, User, Effects, Event, GameError, TycoonContract,
    VoucherMint, WithdrawalPlan, REGISTRATION_VOUCHER_AMOUNT,
};

const CONTRACT: AccountId = AccountId(1_000);
const OWNER: AccountId = AccountId(1);
const TYC: AccountId = AccountId(2);
const USDC: AccountId = AccountId(3);
const REWARD: AccountId = AccountId(4);
const STRANGER: AccountId = AccountId(77);

fn setup() -> TycoonContract {
    let mut c = TycoonContract::new();
    c.initialize(CONTRACT, TYC, USDC, OWNER, REWARD).unwrap();
    c
}

#[test]
fn initialize_asks_initial_owner_and_sets_version_one() {
    let mut c = TycoonContract::new();
    assert_eq!(c.state_version(), 0);
    let fx = c.initialize(CONTRACT, TYC, USDC, OWNER, REWARD);
    assert_eq!(fx, Ok(Effects { auth: OWNER, event: None }));
    assert_eq!(c.state_version(), 1);
    assert_eq!(
        c.export_state(),
        Ok(ContractStateDump {
            owner: OWNER,
            tyc_token: TYC,
            usdc_token: USDC,
            reward_system: REWARD,
            state_version: 1,
            is_initialized: true,
            backend_controller: None,
        })
    );
}

#[test]
fn initialize_twice_is_refused_and_keeps_state() {
    let mut c = setup();
    let before = c.export_state();
    let r = c.initialize(CONTRACT, AccountId(20), AccountId(21), AccountId(22), AccountId(23));
    assert_eq!(r, Err(GameError::AlreadyInitialized));
    assert_eq!(c.export_state(), before);
}

#[test]
fn initialize_rejects_the_contract_itself() {
    for which in 0..4 {
        let mut addrs = [TYC, USDC, OWNER, REWARD];
        addrs[which] = CONTRACT;
        let mut c = TycoonContract::new();
        let r = c.initialize(CONTRACT, addrs[0], addrs[1], addrs[2], addrs[3]);
        assert_eq!(r, Err(GameError::InvalidAddress));
        assert_eq!(c.config(), None);
        assert_eq!(c.state_version(), 0);
    }
}

#[test]
fn admin_calls_before_initialize_are_refused() {
    let mut c = TycoonContract::new();
    assert_eq!(c.admin_migrate(), Err(GameError::NotInitialized));
    assert_eq!(c.admin_set_cash_tier_value(1, 5), Err(GameError::NotInitialized));
    assert_eq!(c.admin_set_collectible_info(1, 1, 1, 1, 1, 1), Err(GameError::NotInitialized));
    assert_eq!(c.admin_set_game_controller(STRANGER), Err(GameError::NotInitialized));
    assert_eq!(c.admin_transfer_ownership(STRANGER), Err(GameError::NotInitialized));
    assert_eq!(c.admin_withdraw_funds(TYC, STRANGER, 1), Err(GameError::NotInitialized));
    assert_eq!(c.admin_mint_registration_voucher(STRANGER), Err(GameError::NotInitialized));
    assert_eq!(c.remove_player_from_game(OWNER, 1, STRANGER, 1), Err(GameError::NotInitialized));
    assert_eq!(c.export_state(), Err(GameError::NotInitialized));
    assert_eq!(c.get_cash_tier_value(1), Err(GameError::CashTierNotFound));
    assert_eq!(c.backend_controller(), None);
}

#[test]
fn admin_setters_ask_the_owner() {
    let mut c = setup();
    assert_eq!(c.admin_set_cash_tier_value(3, 30), Ok(Effects { auth: OWNER, event: None }));
    assert_eq!(
        c.admin_set_collectible_info(9, 1, 2, 3, 4, 5),
        Ok(Effects { auth: OWNER, event: None })
    );
    assert_eq!(
        c.admin_set_game_controller(STRANGER),
        Ok(Effects {
            auth: OWNER,
            event: Some(Event::ControllerUpdated { new_controller: STRANGER })
        })
    );
    assert_eq!(c.backend_controller(), Some(STRANGER));
}

#[test]
fn collectible_writes_do_not_bleed_across_ids() {
    let mut c = setup();
    c.admin_set_collectible_info(1, 1, 1, 1, 1, 1).unwrap();
    c.admin_set_collectible_info(2, 2, 2, 2, 2, 2).unwrap();
    assert_eq!(c.get_collectible_info(1), Ok((1, 1, 1, 1, 1)));
    assert_eq!(c.get_collectible_info(2), Ok((2, 2, 2, 2, 2)));
    assert_eq!(c.get_collectible_info(3), Err(GameError::CollectibleNotFound));
    let mut restored = TycoonContract::restore(c.config(), c.state_version(), None);
    restored.restore_collectible(
        2,
        CollectibleInfo { perk: 2, strength: 2, tyc_price: 2, usdc_price: 2, shop_stock: 2 },
    );
    assert_eq!(restored.get_collectible_info(2), c.get_collectible_info(2));
    assert_eq!(restored.get_collectible_info(1), Err(GameError::CollectibleNotFound));
}

#[test]
fn unknown_cash_tier_is_refused() {
    let c = setup();
    assert_eq!(c.get_cash_tier_value(7), Err(GameError::CashTierNotFound));
}

#[test]
fn migrate_moves_version_zero_to_one_and_is_idempotent() {
    let cfg = setup().config();
    let mut c = TycoonContract::restore(cfg, 0, None);
    assert_eq!(c.admin_migrate(), Ok(Effects { auth: OWNER, event: None }));
    assert_eq!(c.state_version(), 1);
    assert_eq!(c.migrate(), Ok(Effects { auth: OWNER, event: None }));
    assert_eq!(c.state_version(), 1);
    let mut c = TycoonContract::restore(cfg, 5, None);
    c.admin_migrate().unwrap();
    assert_eq!(c.state_version(), 5);
}

#[test]
fn transfer_ownership_moves_admin_rights() {
    let mut c = setup();
    let new_owner = AccountId(50);
    assert_eq!(
        c.admin_transfer_ownership(new_owner),
        Ok(Effects {
            auth: OWNER,
            event: Some(Event::OwnershipTransferred { old_owner: OWNER, new_owner })
        })
    );
    assert_eq!(c.admin_set_cash_tier_value(1, 1), Ok(Effects { auth: new_owner, event: None }));
    assert_eq!(c.remove_player_from_game(OWNER, 1, STRANGER, 1), Err(GameError::Unauthorized));
    assert!(c.remove_player_from_game(new_owner, 1, STRANGER, 1).is_ok());
    let dump = c.export_state().unwrap();
    assert_eq!((dump.owner, dump.tyc_token, dump.usdc_token, dump.reward_system), (new_owner, TYC, USDC, REWARD));
}

#[test]
fn withdraw_rejects_unknown_token() {
    let c = setup();
    assert_eq!(c.admin_withdraw_funds(REWARD, STRANGER, 1), Err(GameError::InvalidToken));
    assert_eq!(c.withdraw_funds(CONTRACT, STRANGER, 1), Err(GameError::InvalidToken));
}

#[test]
fn withdraw_accepts_exactly_i128_max() {
    let c = setup();
    let max = i128::MAX as u128;
    assert_eq!(
        c.admin_withdraw_funds(USDC, STRANGER, max),
        Ok(WithdrawalPlan { auth: OWNER, token: USDC, to: STRANGER, amount: max })
    );
    let payout = c.admin_withdraw_funds(USDC, STRANGER, max).unwrap().settle(i128::MAX).unwrap();
    assert_eq!(payout.amount, i128::MAX);
}

#[test]
fn settle_rejects_insufficient_balance() {
    let c = setup();
    let plan = c.admin_withdraw_funds(TYC, STRANGER, 501).unwrap();
    assert_eq!(plan.settle(500), Err(GameError::InsufficientBalance));
    assert_eq!(plan.settle(-1), Err(GameError::InsufficientBalance));
    assert_eq!(plan.settle(501).unwrap().amount, 501);
}

#[test]
fn settle_rejects_oversized_plan() {
    let plan = WithdrawalPlan { auth: OWNER, token: TYC, to: STRANGER, amount: u128::MAX };
    assert_eq!(plan.settle(i128::MAX), Err(GameError::AmountTooLarge));
}

#[test]
fn voucher_is_two_tyc_for_the_player_via_reward_system() {
    let c = setup();
    let expected = VoucherMint { auth: OWNER, reward_system: REWARD, player: STRANGER, amount: 20_000_000 };
    assert_eq!(c.admin_mint_registration_voucher(STRANGER), Ok(expected));
    assert_eq!(c.mint_registration_voucher(STRANGER), Ok(expected));
    assert_eq!(REGISTRATION_VOUCHER_AMOUNT, 20_000_000);
}

#[test]
fn register_stores_profile_and_publishes_event() {
    let mut c = TycoonContract::new();
    let player = AccountId(10);
    assert_eq!(
        c.register_player(b"alice".to_vec(), player, 123, 456),
        Ok(Effects { auth: player, event: Some(Event::PlayerRegistered { player }) })
    );
    let u = c.get_user(player).unwrap();
    assert_eq!(u.id, 123);
    assert_eq!(u.registered_at, 456);
    assert_eq!(u.username, b"alice".to_vec());
    assert_eq!(u.address, player);
}

#[test]
fn register_twice_is_refused() {
    let mut c = setup();
    let player = AccountId(10);
    c.register_player(b"alice".to_vec(), player, 1, 1).unwrap();
    assert_eq!(
        c.register_player(b"alice2".to_vec(), player, 2, 2),
        Err(GameError::AlreadyRegistered)
    );
    assert_eq!(c.get_user(player).unwrap().username, b"alice".to_vec());
}

#[test]
fn register_checks_username_length_bounds() {
    let mut c = setup();
    assert_eq!(c.register_player(b"ab".to_vec(), AccountId(10), 1, 1), Err(GameError::InvalidUsername));
    assert_eq!(c.register_player(vec![b'x'; 21], AccountId(11), 1, 1), Err(GameError::InvalidUsername));
    assert_eq!(c.register_player(Vec::new(), AccountId(12), 1, 1), Err(GameError::InvalidUsername));
    assert!(c.get_user(AccountId(10)).is_none());
    assert!(c.register_player(b"abc".to_vec(), AccountId(13), 1, 1).is_ok());
    assert!(c.register_player(vec![b'x'; 20], AccountId(14), 1, 1).is_ok());
}

#[test]
fn stranger_cannot_remove_players() {
    let mut c = setup();
    assert_eq!(c.remove_player_from_game(STRANGER, 1, AccountId(10), 1), Err(GameError::Unauthorized));
    c.admin_set_game_controller(AccountId(9)).unwrap();
    assert_eq!(c.remove_player_from_game(STRANGER, 1, AccountId(10), 1), Err(GameError::Unauthorized));
    assert!(c.remove_player_from_game(OWNER, 1, AccountId(10), 1).is_ok());
}

#[test]
fn username_length_counts_characters_not_bytes() {
    let mut c = setup();
    let six_emoji = "👾👾👾👾👾👾";
    assert_eq!(six_emoji.len(), 24);
    assert!(c.register_player(six_emoji.as_bytes().to_vec(), AccountId(30), 1, 1).is_ok());
    assert_eq!(c.get_user(AccountId(30)).unwrap().username, six_emoji.as_bytes().to_vec());

    let two_accented = "éé";
    assert_eq!(two_accented.len(), 4);
    assert_eq!(
        c.register_player(two_accented.as_bytes().to_vec(), AccountId(31), 1, 1),
        Err(GameError::InvalidUsername)
    );
    assert!(c.get_user(AccountId(31)).is_none());

    let twenty = "👾".repeat(20);
    assert!(c.register_player(twenty.as_bytes().to_vec(), AccountId(32), 1, 1).is_ok());
    let twenty_one = "é".repeat(21);
    assert_eq!(
        c.register_player(twenty_one.as_bytes().to_vec(), AccountId(33), 1, 1),
        Err(GameError::InvalidUsername)
    );
}

#[test]
fn count_chars_counts_utf8_characters() {
    assert_eq!(tycoon_game::text::count_chars(&Vec::new()), 0);
    assert_eq!(tycoon_game::text::count_chars(&b"abc".to_vec()), 3);
    assert_eq!(tycoon_game::text::count_chars(&"👾tycoon_👾".as_bytes().to_vec()), 9);
    assert_eq!(tycoon_game::text::count_chars(&"héllo".as_bytes().to_vec()), 5);
}

#[test]
fn ill_formed_bytes_count_one_character_each() {
    let mut name = b"abc".to_vec();
    name.extend(std::iter::repeat(0x80u8).take(30));
    assert_eq!(tycoon_game::text::count_chars(&name), 33);
    let mut c = setup();
    assert_eq!(c.register_player(name, AccountId(40), 1, 1), Err(GameError::InvalidUsername));
    // A truncated three-byte sequence and an overlong form count byte by byte.
    assert_eq!(tycoon_game::text::count_chars(&vec![0xE2, 0x82]), 2);
    assert_eq!(tycoon_game::text::count_chars(&vec![0xC0, 0xAF]), 2);
    assert_eq!(tycoon_game::text::count_chars(&vec![0xED, 0xA0, 0x80]), 3);
    assert_eq!(tycoon_game::text::count_chars(&vec![0xF4, 0x90, 0x80, 0x80]), 4);
    assert_eq!(tycoon_game::text::count_chars(&vec![0xF4, 0x8F, 0xBF, 0xBF]), 1);
}

#[test]
fn restore_files_profiles_under_their_address() {
    let mut c = TycoonContract::restore(None, 0, None);
    c.restore_user(User {
        id: 7,
        username: b"zed".to_vec(),
        address: AccountId(12),
        registered_at: 9,
        games_played: 4,
        games_won: 2,
    });
    c.restore_cash_tier(3, 300);
    let u = c.get_user(AccountId(12)).unwrap();
    assert_eq!((u.id, u.games_played, u.games_won), (7, 4, 2));
    assert_eq!(c.get_cash_tier_value(3), Ok(300));
    assert_eq!(c.register_player(b"zed".to_vec(), AccountId(12), 1, 1), Err(GameError::AlreadyRegistered));
}

#[test]
fn require_admin_names_the_owner() {
    assert_eq!(TycoonContract::new().require_admin(), Err(GameError::NotInitialized));
    assert_eq!(setup().require_admin(), Ok(OWNER));
}

use tycoon_game::CollectibleError;

#[test]
fn test_error_discriminants_are_stable() {
    assert_eq!(CollectibleError::AlreadyInitialized.code(), 1);
    assert_eq!(CollectibleError::InsufficientBalance.code(), 2);
    assert_eq!(CollectibleError::InvalidAmount.code(), 3);
    assert_eq!(CollectibleError::Unauthorized.code(), 4);
    assert_eq!(CollectibleError::TokenIdMismatch.code(), 5);
    assert_eq!(CollectibleError::ZeroPrice.code(), 6);
    assert_eq!(CollectibleError::InsufficientStock.code(), 7);
    assert_eq!(CollectibleError::ShopNotInitialized.code(), 8);
    assert_eq!(CollectibleError::ContractPaused.code(), 9);
    assert_eq!(CollectibleError::InvalidPerk.code(), 10);
    assert_eq!(CollectibleError::InvalidStrength.code(), 11);
    assert_eq!(CollectibleError::TokenNotFound.code(), 12);
    assert_eq!(CollectibleError::InvalidTokenId.code(), 13);
    assert_eq!(CollectibleError::InvalidPageSize.code(), 14);
    assert_eq!(CollectibleError::InvalidURIType.code(), 15);
    assert_eq!(CollectibleError::MetadataFrozen.code(), 16);
}

#[test]
fn collectible_error_codes_are_distinct() {
    let all = [
        CollectibleError::AlreadyInitialized,
        CollectibleError::InsufficientBalance,
        CollectibleError::InvalidAmount,
        CollectibleError::Unauthorized,
        CollectibleError::TokenIdMismatch,
        CollectibleError::ZeroPrice,
        CollectibleError::InsufficientStock,
        CollectibleError::ShopNotInitialized,
        CollectibleError::ContractPaused,
        CollectibleError::InvalidPerk,
        CollectibleError::InvalidStrength,
        CollectibleError::TokenNotFound,
        CollectibleError::InvalidTokenId,
        CollectibleError::InvalidPageSize,
        CollectibleError::InvalidURIType,
        CollectibleError::MetadataFrozen,
    ];
    for (i, a) in all.iter().enumerate() {
        for (j, b) in all.iter().enumerate() {
            assert_eq!(i == j, a.code() == b.code());
        }
    }
}

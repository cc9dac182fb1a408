use vstd::prelude::*;

verus! {

/// Errors of the Tycoon collectibles contract. Each has a stable numeric
/// code, under which it is serialised; reordering the variants must not
/// change the codes.
#[derive(Clone, Copy, Debug, PartialEq, Eq, Structural)]
pub enum CollectibleError {
    AlreadyInitialized,
    InsufficientBalance,
    InvalidAmount,
    Unauthorized,
    TokenIdMismatch,
    ZeroPrice,
    InsufficientStock,
    ShopNotInitialized,
    ContractPaused,
    InvalidPerk,
    InvalidStrength,
    TokenNotFound,
    InvalidTokenId,
    InvalidPageSize,
    InvalidURIType,
    MetadataFrozen,
}

impl CollectibleError {
    /// The stable code of each error.
    pub open spec fn spec_code(self) -> u32 {
        match self {
            CollectibleError::AlreadyInitialized => 1,
            CollectibleError::InsufficientBalance => 2,
            CollectibleError::InvalidAmount => 3,
            CollectibleError::Unauthorized => 4,
            CollectibleError::TokenIdMismatch => 5,
            CollectibleError::ZeroPrice => 6,
            CollectibleError::InsufficientStock => 7,
            CollectibleError::ShopNotInitialized => 8,
            CollectibleError::ContractPaused => 9,
            CollectibleError::InvalidPerk => 10,
            CollectibleError::InvalidStrength => 11,
            CollectibleError::TokenNotFound => 12,
            CollectibleError::InvalidTokenId => 13,
            CollectibleError::InvalidPageSize => 14,
            CollectibleError::InvalidURIType => 15,
            CollectibleError::MetadataFrozen => 16,
        }
    }

    /// The error's stable code.
    pub fn code(&self) -> (c: u32)
        ensures
            c == self.spec_code(),
    {
        match self {
            CollectibleError::AlreadyInitialized => 1,
            CollectibleError::InsufficientBalance => 2,
            CollectibleError::InvalidAmount => 3,
            CollectibleError::Unauthorized => 4,
            CollectibleError::TokenIdMismatch => 5,
            CollectibleError::ZeroPrice => 6,
            CollectibleError::InsufficientStock => 7,
            CollectibleError::ShopNotInitialized => 8,
            CollectibleError::ContractPaused => 9,
            CollectibleError::InvalidPerk => 10,
            CollectibleError::InvalidStrength => 11,
            CollectibleError::TokenNotFound => 12,
            CollectibleError::InvalidTokenId => 13,
            CollectibleError::InvalidPageSize => 14,
            CollectibleError::InvalidURIType => 15,
            CollectibleError::MetadataFrozen => 16,
        }
    }
}

/// Codes identify errors: they lie in 1..=16 and no two errors share one.
pub proof fn lemma_codes_distinct(a: CollectibleError, b: CollectibleError)
    ensures
        1 <= a.spec_code() <= 16,
        a.spec_code() == b.spec_code() ==> a == b,
{
}

} // verus!

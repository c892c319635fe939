//! The virtual card interface: the data that card contracts exchange and the
//! operations they offer. It holds no settlement, balance or fund-storage
//! logic; those belong to the contracts that implement it.

use soroban_sdk::Address;
use vstd::prelude::*;

verus! {

/// `soroban_sdk::String`: an opaque handle to a string held by the host.
#[verifier::external_type_specification]
#[verifier::external_body]
pub struct ExHostString(soroban_sdk::String);

/// `<soroban_sdk::String as Clone>::clone`. Nothing is claimed of the copy.
pub assume_specification[ <soroban_sdk::String as Clone>::clone ](
    string: &soroban_sdk::String,
) -> soroban_sdk::String
;

/// `soroban_sdk::Map`: an opaque handle to an ordered map held by the host.
#[verifier::external_type_specification]
#[verifier::external_body]
#[verifier::reject_recursive_types(K)]
#[verifier::reject_recursive_types(V)]
pub struct ExHostMap<K, V>(soroban_sdk::Map<K, V>);

/// `<soroban_sdk::Map<K, V> as Clone>::clone`. Nothing is claimed of the copy.
pub assume_specification<K, V>[ <soroban_sdk::Map<K, V> as Clone>::clone ](
    map: &soroban_sdk::Map<K, V>,
) -> soroban_sdk::Map<K, V> where K: Clone, V: Clone
;

/// `soroban_sdk::Vec`: an opaque handle to a vector held by the host.
#[verifier::external_type_specification]
#[verifier::external_body]
#[verifier::reject_recursive_types(T)]
pub struct ExHostVec<T>(soroban_sdk::Vec<T>);

/// Why a card operation fails.
#[derive(Clone, Copy, Debug, PartialEq, Eq, PartialOrd, Ord, Structural)]
pub enum VirtualCardError {
    /// Card not found or invalid card identifier.
    CardNotFound,
    /// Caller is not authorized to perform this action.
    Unauthorized,
    /// Card is currently inactive or disabled.
    CardInactive,
    /// Operation failed due to card state constraints.
    InvalidCardState,
    /// Card limits exceeded (spending limit, transaction count, ...).
    LimitExceeded,
    /// Invalid input parameters provided.
    InvalidInput,
    /// Card has expired or time window has passed.
    Expired,
    /// Duplicate card identifier.
    DuplicateCard,
    /// Operation not supported by card type or version.
    NotSupported,
    /// Internal contract error.
    InternalError,
}

impl VirtualCardError {
    /// The number under which the error is reported.
    pub open spec fn number(self) -> u32 {
        match self {
            VirtualCardError::CardNotFound => 1,
            VirtualCardError::Unauthorized => 2,
            VirtualCardError::CardInactive => 3,
            VirtualCardError::InvalidCardState => 4,
            VirtualCardError::LimitExceeded => 5,
            VirtualCardError::InvalidInput => 6,
            VirtualCardError::Expired => 7,
            VirtualCardError::DuplicateCard => 8,
            VirtualCardError::NotSupported => 9,
            VirtualCardError::InternalError => 10,
        }
    }

    /// The number under which the error is reported.
    pub fn code(&self) -> (code: u32)
        ensures
            code == self.number(),
    {
        match self {
            VirtualCardError::CardNotFound => 1,
            VirtualCardError::Unauthorized => 2,
            VirtualCardError::CardInactive => 3,
            VirtualCardError::InvalidCardState => 4,
            VirtualCardError::LimitExceeded => 5,
            VirtualCardError::InvalidInput => 6,
            VirtualCardError::Expired => 7,
            VirtualCardError::DuplicateCard => 8,
            VirtualCardError::NotSupported => 9,
            VirtualCardError::InternalError => 10,
        }
    }
}

/// Unique identifier of a virtual card.
#[derive(Clone, Copy, Debug, PartialEq, Eq, PartialOrd, Ord, Structural)]
pub struct CardId(pub u128);

/// The states a card passes through.
#[derive(Clone, Copy, Debug, PartialEq, Eq, Structural)]
pub enum CardStatus {
    /// Card has been created but not yet activated.
    Pending,
    /// Card is active and operational.
    Active,
    /// Card is temporarily suspended.
    Suspended,
    /// Card is permanently closed.
    Closed,
    /// Card is awaiting activation by its holder.
    AwaitingActivation,
}

impl CardStatus {
    /// The number that stands for the status.
    pub open spec fn number(self) -> u32 {
        match self {
            CardStatus::Pending => 0,
            CardStatus::Active => 1,
            CardStatus::Suspended => 2,
            CardStatus::Closed => 3,
            CardStatus::AwaitingActivation => 4,
        }
    }

    /// The number that stands for the status.
    pub fn code(&self) -> (code: u32)
        ensures
            code == self.number(),
    {
        match self {
            CardStatus::Pending => 0,
            CardStatus::Active => 1,
            CardStatus::Suspended => 2,
            CardStatus::Closed => 3,
            CardStatus::AwaitingActivation => 4,
        }
    }
}

/// The categories of cards.
#[derive(Clone, Copy, Debug, PartialEq, Eq, Structural)]
pub enum CardType {
    /// Standard debit virtual card.
    Standard,
    /// Premium card with enhanced limits.
    Premium,
    /// Restricted usage card (gift card style).
    Restricted,
    /// Corporate or team card.
    Corporate,
    /// Disposable single-use card.
    Disposable,
    /// Custom card type, kept for extensions.
    Custom,
}

impl CardType {
    /// The number that stands for the category.
    pub open spec fn number(self) -> u32 {
        match self {
            CardType::Standard => 0,
            CardType::Premium => 1,
            CardType::Restricted => 2,
            CardType::Corporate => 3,
            CardType::Disposable => 4,
            CardType::Custom => 5,
        }
    }

    /// The number that stands for the category.
    pub fn code(&self) -> (code: u32)
        ensures
            code == self.number(),
    {
        match self {
            CardType::Standard => 0,
            CardType::Premium => 1,
            CardType::Restricted => 2,
            CardType::Corporate => 3,
            CardType::Disposable => 4,
            CardType::Custom => 5,
        }
    }
}

/// What is fixed of a card when it is created.
#[derive(Clone, Debug)]
pub struct CardMetadata {
    pub card_id: CardId,
    /// Owner of the card.
    pub holder: Address,
    pub card_type: CardType,
    /// Creation time, in seconds since the Unix epoch.
    pub created_at: u64,
    /// Expiration time, in seconds since the Unix epoch.
    pub expires_at: u64,
    /// Human-readable card reference (such as the last four digits).
    pub reference: soroban_sdk::String,
    /// Free-form metadata.
    pub metadata: soroban_sdk::Map<soroban_sdk::String, soroban_sdk::String>,
}

/// What may change of a card during its life.
#[derive(Clone, Debug)]
pub struct CardConfig {
    pub status: CardStatus,
    /// Maximum number of transactions allowed (0 = unlimited).
    pub max_transactions: u32,
    /// Spending limit in base units (0 = unlimited).
    pub spending_limit: u128,
    /// Window of the spending limit in seconds (0 = per transaction).
    pub limit_window_seconds: u64,
    /// Whether the card is blocked for the time being.
    pub is_blocked: bool,
    /// Free-form configuration.
    pub custom_config: soroban_sdk::Map<soroban_sdk::String, soroban_sdk::String>,
}

/// A transaction submitted for validation.
#[derive(Clone, Debug)]
pub struct TransactionRequest {
    pub card_id: CardId,
    /// Amount in base units.
    pub amount: u128,
    /// Currency or asset identifier.
    pub currency: soroban_sdk::String,
    /// Merchant or destination identifier.
    pub merchant: soroban_sdk::String,
    pub description: soroban_sdk::String,
    pub metadata: soroban_sdk::Map<soroban_sdk::String, soroban_sdk::String>,
}

/// The answer to a transaction request.
#[derive(Clone, Debug)]
pub struct TransactionResponse {
    pub transaction_id: u128,
    pub card_id: CardId,
    pub amount: u128,
    /// 0 = pending, 1 = approved, 2 = declined, 3 = failed.
    pub status: u8,
    pub timestamp: u64,
    pub metadata: soroban_sdk::Map<soroban_sdk::String, soroban_sdk::String>,
}

/// Emitted when a card is created.
#[derive(Clone, Debug)]
pub struct CardCreatedEvent {
    pub card_id: CardId,
    pub holder: Address,
    pub card_type: CardType,
    pub timestamp: u64,
}

/// Emitted when the metadata or configuration of a card changes.
#[derive(Clone, Debug)]
pub struct CardUpdatedEvent {
    pub card_id: CardId,
    pub status: CardStatus,
    pub timestamp: u64,
}

/// Emitted when the status of a card changes.
#[derive(Clone, Debug)]
pub struct CardStatusChangedEvent {
    pub card_id: CardId,
    pub old_status: CardStatus,
    pub new_status: CardStatus,
    pub reason: soroban_sdk::String,
    pub timestamp: u64,
}

/// Emitted when a transaction is validated or processed.
#[derive(Clone, Debug)]
pub struct TransactionValidatedEvent {
    pub transaction_id: u128,
    pub card_id: CardId,
    pub amount: u128,
    pub approved: bool,
    pub reason: soroban_sdk::String,
    pub timestamp: u64,
}

/// Emitted when a card is activated.
#[derive(Clone, Debug)]
pub struct CardActivatedEvent {
    pub card_id: CardId,
    pub holder: Address,
    pub timestamp: u64,
}

/// Emitted when a card is deactivated or closed.
#[derive(Clone, Debug)]
pub struct CardDeactivatedEvent {
    pub card_id: CardId,
    pub reason: soroban_sdk::String,
    pub timestamp: u64,
}

/// Emitted for events that implementations define themselves.
#[derive(Clone, Debug)]
pub struct CustomEvent {
    pub card_id: CardId,
    pub event_type: soroban_sdk::String,
    pub data: soroban_sdk::Map<soroban_sdk::String, soroban_sdk::String>,
    pub timestamp: u64,
}

/// The operations of a virtual card contract.
///
/// The interface prescribes no behaviour beyond the signatures: validation
/// is stateless, settlement is left to other contracts, and the metadata
/// maps leave room for extensions.
pub trait VirtualCardContract {
    /// Creates a card. Emits `CardCreatedEvent`.
    fn create_card(
        holder: Address,
        card_type: CardType,
        expires_at: u64,
        reference: soroban_sdk::String,
        metadata: soroban_sdk::Map<soroban_sdk::String, soroban_sdk::String>,
    ) -> Result<CardId, VirtualCardError>;

    /// The metadata of a card.
    fn get_card_metadata(card_id: CardId) -> Result<CardMetadata, VirtualCardError>;

    /// The configuration of a card.
    fn get_card_config(card_id: CardId) -> Result<CardConfig, VirtualCardError>;

    /// Replaces the configuration of a card. Emits `CardUpdatedEvent`.
    fn update_card_config(card_id: CardId, config: CardConfig) -> Result<(), VirtualCardError>;

    /// Changes the status of a card. Emits `CardStatusChangedEvent`.
    fn change_card_status(
        card_id: CardId,
        new_status: CardStatus,
        reason: soroban_sdk::String,
    ) -> Result<(), VirtualCardError>;

    /// Activates a card. Emits `CardActivatedEvent`.
    fn activate_card(card_id: CardId) -> Result<(), VirtualCardError>;

    /// Deactivates or closes a card. Emits `CardDeactivatedEvent`.
    fn deactivate_card(card_id: CardId, reason: soroban_sdk::String) -> Result<
        (),
        VirtualCardError,
    >;

    /// Validates a transaction against the constraints of its card, without
    /// settling it. Emits `TransactionValidatedEvent`.
    fn validate_transaction(request: TransactionRequest) -> Result<
        TransactionResponse,
        VirtualCardError,
    >;

    /// Whether a card is eligible for a transaction of `amount`.
    fn can_transact(card_id: CardId, amount: u128) -> Result<bool, VirtualCardError>;

    /// Locks a card for the time being. Emits `CardStatusChangedEvent`.
    fn lock_card(card_id: CardId, reason: soroban_sdk::String) -> Result<(), VirtualCardError>;

    /// Unlocks a locked card. Emits `CardStatusChangedEvent`.
    fn unlock_card(card_id: CardId) -> Result<(), VirtualCardError>;

    /// Whether `claimant` holds the card.
    fn verify_ownership(card_id: CardId, claimant: Address) -> Result<bool, VirtualCardError>;

    /// The card that goes by a reference.
    fn lookup_card_by_reference(reference: soroban_sdk::String) -> Result<
        CardId,
        VirtualCardError,
    >;

    /// Emits an event that the implementation defines.
    fn emit_custom_event(event: CustomEvent) -> Result<(), VirtualCardError>;

    /// The version of the contract.
    fn get_version() -> soroban_sdk::String;

    /// The features that the contract offers.
    fn get_capabilities() -> soroban_sdk::Vec<soroban_sdk::String>;
}

} // verus!

use vstd::prelude::*;

verus! {

/// Every failure that the protocol engine reports to its caller.
#[derive(Debug, Clone, Copy, PartialEq, Eq, Structural)]
pub enum WalletError {
    /// Malformed or unsupported settings.
    ConfigurationError,
    /// An abbreviated address that is not six characters of the address alphabet.
    InvalidAddressFormat,
    /// No wallet claims the abbreviation, or the destination is offline.
    AddressNotFound,
    /// Several wallets claim the same abbreviation.
    AddressConflict,
    /// The relay service could not be reached within the connect window.
    RelayConnectTimeout,
    /// The relay service sent no answer within the query window.
    RelayQueryTimeout,
    /// A message could not be handed to the relay service.
    RelayPublishError,
    /// The direct peer could not be reached or answered badly.
    TransportError,
    /// The signatures of a slate's messages do not verify.
    MessageVerificationError,
    /// The contributions of a slate could not be combined.
    FinalizationError,
    /// The transaction could not be posted, retry included.
    BroadcastError,
    /// The transaction is already confirmed on chain.
    AlreadyConfirmedError,
    /// The transaction data is not stored locally.
    StorageNotFoundError,
    /// A slate identifier is not a UUID.
    InvalidSlateId,
    /// A slate already holds the contributions of both parties.
    ParticipantLimit,
    /// The wallet backend refused an operation.
    WalletBackendError,
}

impl WalletError {
    /// A short description of the error.
    pub fn message(&self) -> (r: &'static str) {
        match self {
            WalletError::ConfigurationError => "configuration error",
            WalletError::InvalidAddressFormat => "invalid 6-code address",
            WalletError::AddressNotFound => "wrong address, or destination is offline",
            WalletError::AddressConflict => "address conflict, multiple matched addresses found",
            WalletError::RelayConnectTimeout => "fail to connect with relay service, please try again later",
            WalletError::RelayQueryTimeout => "relay server no response, please try again later",
            WalletError::RelayPublishError => "fail to send request to relay service",
            WalletError::TransportError => "transport error",
            WalletError::MessageVerificationError => "message verification failed",
            WalletError::FinalizationError => "finalization failed",
            WalletError::BroadcastError => "transaction post failed",
            WalletError::AlreadyConfirmedError => "transaction already confirmed",
            WalletError::StorageNotFoundError => "transaction data not found",
            WalletError::InvalidSlateId => "invalid slate id",
            WalletError::ParticipantLimit => "slate already holds two participants",
            WalletError::WalletBackendError => "wallet backend error",
        }
    }
}

} // verus!

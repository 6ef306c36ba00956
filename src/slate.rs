//! The slate: the record that two wallets pass back and forth to build one
//! transaction, with the transitions each side applies to its own copy.
use vstd::prelude::*;

use crate::error::WalletError;

verus! {

/// The lifecycle of a slate.
#[derive(Debug, Clone, Copy, PartialEq, Eq, Structural)]
pub enum SlateState {
    /// Built by the sender, holding the sender's contribution.
    Proposed,
    /// Handed to a transport, on its way to the receiver.
    Sent,
    /// The receiver has added its contribution.
    CounterSigned,
    /// Both contributions are combined into a signed transaction.
    Finalized,
    /// The transaction has been posted to the network.
    Posted,
    /// The transaction was abandoned and its funds released.
    Cancelled,
}

/// The number of parties whose contributions complete a slate.
pub const FULL_PARTICIPANTS: usize = 2;

/// One copy of a slate. Contributions are opaque bytes produced by the
/// wallets' signing code.
#[derive(Debug, Clone)]
pub struct Slate {
    pub id: u128,
    pub version: u16,
    pub amount: u64,
    pub participants: Vec<Vec<u8>>,
    pub message: Option<String>,
    pub state: SlateState,
}

impl Slate {
    /// The contributions held, as sequences of bytes.
    pub open spec fn contributions(self) -> Seq<Seq<u8>> {
        self.participants@.map_values(|v: Vec<u8>| v@)
    }

    /// A sender's new proposal, holding the sender's contribution.
    pub fn propose(id: u128, version: u16, amount: u64, contribution: Vec<u8>, message: Option<String>) -> (s: Slate)
        ensures
            s.id == id && s.version == version && s.amount == amount && s.message == message,
            s.contributions() == seq![contribution@],
            s.state == SlateState::Proposed,
    {
        let mut participants: Vec<Vec<u8>> = Vec::new();
        let ghost c = contribution@;
        participants.push(contribution);
        assert(participants@.map_values(|v: Vec<u8>| v@)[0] == c);
        let s = Slate { id, version, amount, participants, message, state: SlateState::Proposed };
        assert(s.contributions() =~= seq![c]);
        s
    }

    /// Whether both contributions are in, so the slate can be finalized.
    pub fn is_finalizable(&self) -> (r: bool)
        ensures
            r == (self.participants@.len() == FULL_PARTICIPANTS),
    {
        self.participants.len() == FULL_PARTICIPANTS
    }

    /// Adds a party's contribution; a slate that already holds both is
    /// refused with `ParticipantLimit` and left as it was.
    pub fn add_contribution(&mut self, contribution: Vec<u8>) -> (r: Result<(), WalletError>)
        ensures
            old(self).participants@.len() >= FULL_PARTICIPANTS ==> r == Err::<(), WalletError>(
                WalletError::ParticipantLimit,
            ) && *final(self) == *old(self),
            old(self).participants@.len() < FULL_PARTICIPANTS ==> r is Ok && final(self).contributions()
                == old(self).contributions().push(contribution@) && final(self).state == old(self).state
                && final(self).id == old(self).id && final(self).amount == old(self).amount
                && final(self).version == old(self).version && final(self).message == old(self).message,
    {
        if self.participants.len() >= FULL_PARTICIPANTS {
            return Err(WalletError::ParticipantLimit);
        }
        let ghost c = contribution@;
        self.participants.push(contribution);
        assert forall|i: int| 0 <= i < self.participants@.len() implies #[trigger] self.contributions()[i]
            == old(self).contributions().push(c)[i] by {
            if i < old(self).participants@.len() {
                assert(self.participants@[i] == old(self).participants@[i]);
            }
        }
        assert(self.contributions() =~= old(self).contributions().push(c));
        Ok(())
    }

    /// The receiver's step: a slate whose messages verified, proposed and
    /// still short of a contribution, takes the receiver's contribution and
    /// becomes `CounterSigned`. A slate that failed verification is refused
    /// with `MessageVerificationError`; one not awaiting a contribution with
    /// `ParticipantLimit`. A refused slate is left as it was.
    pub fn receive(&mut self, verified: bool, contribution: Vec<u8>) -> (r: Result<(), WalletError>)
        ensures
            !verified ==> r == Err::<(), WalletError>(WalletError::MessageVerificationError)
                && *final(self) == *old(self),
            verified && (old(self).state != SlateState::Proposed || old(self).participants@.len()
                >= FULL_PARTICIPANTS) ==> r == Err::<(), WalletError>(WalletError::ParticipantLimit)
                && *final(self) == *old(self),
            verified && old(self).state == SlateState::Proposed && old(self).participants@.len()
                < FULL_PARTICIPANTS ==> r is Ok && final(self).state == SlateState::CounterSigned
                && final(self).contributions() == old(self).contributions().push(contribution@)
                && final(self).id == old(self).id && final(self).amount == old(self).amount,
            final(self).state == SlateState::CounterSigned && old(self).state == SlateState::Proposed
                ==> verified,
    {
        if !verified {
            return Err(WalletError::MessageVerificationError);
        }
        if self.state != SlateState::Proposed || self.participants.len() >= FULL_PARTICIPANTS {
            return Err(WalletError::ParticipantLimit);
        }
        let r = self.add_contribution(contribution);
        self.state = SlateState::CounterSigned;
        r
    }

    /// The sender's last step: a counter-signed slate with both contributions
    /// whose combination succeeded becomes `Finalized`; anything else is
    /// refused with `FinalizationError` and left as it was.
    pub fn finalize(&mut self, combined: bool) -> (r: Result<(), WalletError>)
        ensures
            combined && old(self).state == SlateState::CounterSigned && old(self).participants@.len()
                == FULL_PARTICIPANTS ==> r is Ok && *final(self) == (Slate {
                state: SlateState::Finalized,
                ..*old(self)
            }),
            !(combined && old(self).state == SlateState::CounterSigned && old(self).participants@.len()
                == FULL_PARTICIPANTS) ==> r == Err::<(), WalletError>(WalletError::FinalizationError)
                && *final(self) == *old(self),
    {
        if combined && self.state == SlateState::CounterSigned && self.participants.len()
            == FULL_PARTICIPANTS {
            self.state = SlateState::Finalized;
            Ok(())
        } else {
            Err(WalletError::FinalizationError)
        }
    }
}

/// What cancelling does to a transaction in state `s`.
pub open spec fn cancel_outcome(s: SlateState) -> Result<SlateState, WalletError> {
    if s == SlateState::Posted {
        Err(WalletError::AlreadyConfirmedError)
    } else {
        Ok(SlateState::Cancelled)
    }
}

/// Cancels a transaction: any state short of `Posted` becomes `Cancelled`,
/// and a cancelled one stays so without error; a posted one can no longer be
/// cancelled.
pub fn cancel(s: SlateState) -> (r: Result<SlateState, WalletError>)
    ensures
        r == cancel_outcome(s),
{
    if s == SlateState::Posted {
        Err(WalletError::AlreadyConfirmedError)
    } else {
        Ok(SlateState::Cancelled)
    }
}

/// Cancelling twice is cancelling once: on a transaction that the first
/// cancel accepted, the second succeeds and changes nothing.
pub proof fn lemma_cancel_idempotent(s: SlateState)
    ensures
        cancel_outcome(s) is Ok ==> cancel_outcome(cancel_outcome(s)->Ok_0) == cancel_outcome(s),
        cancel_outcome(SlateState::Cancelled) == Ok::<SlateState, WalletError>(SlateState::Cancelled),
{
}

/// A transaction can be posted again by hand when it is not confirmed, the
/// wallet's view of it is validated, and its data is stored locally.
pub open spec fn repost_outcome(confirmed: bool, validated: bool, stored: bool) -> Result<(), WalletError> {
    if confirmed {
        Err(WalletError::AlreadyConfirmedError)
    } else if !validated {
        Err(WalletError::WalletBackendError)
    } else if !stored {
        Err(WalletError::StorageNotFoundError)
    } else {
        Ok(())
    }
}

/// Decides whether a stored transaction may be posted again.
pub fn check_repost(confirmed: bool, validated: bool, stored: bool) -> (r: Result<(), WalletError>)
    ensures
        r == repost_outcome(confirmed, validated, stored),
{
    if confirmed {
        Err(WalletError::AlreadyConfirmedError)
    } else if !validated {
        Err(WalletError::WalletBackendError)
    } else if !stored {
        Err(WalletError::StorageNotFoundError)
    } else {
        Ok(())
    }
}

/// The slate identifier that the text of a UUID stands for, if it is one.
pub uninterp spec fn uuid_value(s: Seq<char>) -> Option<u128>;

/// Relies on `uuid::Uuid::parse_str` and `Uuid::as_u128`: the text parses
/// to an identifier or is refused, depending on the text alone.
#[verifier::external_body]
fn parse_uuid(s: &str) -> (r: Option<u128>)
    ensures
        r == uuid_value(s@),
{
    match uuid::Uuid::parse_str(s) {
        Ok(u) => Some(u.as_u128()),
        Err(_) => None,
    }
}

/// The slate identifier for the outcome of parsing its text: text that is
/// no UUID is refused with `InvalidSlateId`.
pub fn slate_id_from(parsed: Option<u128>) -> (r: Result<u128, WalletError>)
    ensures
        parsed matches Some(v) ==> r == Ok::<u128, WalletError>(v),
        parsed is None ==> r == Err::<u128, WalletError>(WalletError::InvalidSlateId),
{
    match parsed {
        Some(v) => Ok(v),
        None => Err(WalletError::InvalidSlateId),
    }
}

/// Reads a slate identifier, refusing text that is no UUID with `InvalidSlateId`.
pub fn parse_slate_id(s: &str) -> (r: Result<u128, WalletError>)
    ensures
        uuid_value(s@) matches Some(v) ==> r == Ok::<u128, WalletError>(v),
        uuid_value(s@) is None ==> r == Err::<u128, WalletError>(WalletError::InvalidSlateId),
{
    slate_id_from(parse_uuid(s))
}

} // verus!

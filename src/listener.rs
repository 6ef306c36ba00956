//! The relay listener: the state of its connection, and the decisions of the
//! loop that serves inbound proposals.
use vstd::prelude::*;

use crate::error::WalletError;
use crate::wait::POLL_INTERVAL_MS;

verus! {

/// The session with the relay service.
#[derive(Debug, Clone, Copy, PartialEq, Eq, Structural)]
pub enum ConnectionState {
    Disconnected,
    Connecting,
    Connected,
    Failed,
}

/// One live session with the relay service.
#[derive(Debug, Clone, Copy, PartialEq, Eq, Structural)]
pub struct ListenerConnection {
    pub state: ConnectionState,
}

impl ListenerConnection {
    /// A connection not yet opened.
    pub fn new() -> (c: ListenerConnection)
        ensures
            c.state == ConnectionState::Disconnected,
    {
        ListenerConnection { state: ConnectionState::Disconnected }
    }

    /// Starts connecting; only a disconnected session can start.
    pub fn begin_connect(&mut self) -> (started: bool)
        ensures
            started == (old(self).state == ConnectionState::Disconnected),
            started ==> final(self).state == ConnectionState::Connecting,
            !started ==> *final(self) == *old(self),
    {
        if self.state == ConnectionState::Disconnected {
            self.state = ConnectionState::Connecting;
            true
        } else {
            false
        }
    }

    /// Records how a connection attempt ended; `Connected` and `Failed` are
    /// final, and only a connecting session takes the outcome.
    pub fn on_connect_result(&mut self, ok: bool)
        ensures
            old(self).state == ConnectionState::Connecting ==> final(self).state == if ok {
                ConnectionState::Connected
            } else {
                ConnectionState::Failed
            },
            old(self).state != ConnectionState::Connecting ==> *final(self) == *old(self),
    {
        if self.state == ConnectionState::Connecting {
            self.state = if ok {
                ConnectionState::Connected
            } else {
                ConnectionState::Failed
            };
        }
    }

    /// Whether the session is live.
    pub fn is_connected(&self) -> (r: bool)
        ensures
            r == (self.state == ConnectionState::Connected),
    {
        self.state == ConnectionState::Connected
    }

    /// Publishing or subscribing succeeds only on a live session; otherwise
    /// it fails with `RelayPublishError`.
    pub fn check_publish(&self) -> (r: Result<(), WalletError>)
        ensures
            self.state == ConnectionState::Connected <==> r is Ok,
            r is Err ==> r == Err::<(), WalletError>(WalletError::RelayPublishError),
    {
        if self.state == ConnectionState::Connected {
            Ok(())
        } else {
            Err(WalletError::RelayPublishError)
        }
    }
}

/// What the dispatch loop learned in its last step.
#[derive(Debug, Clone, Copy, PartialEq, Eq, Structural)]
pub enum DispatchEvent {
    /// The proposal channel was empty.
    NothingWaiting,
    /// The producer side of the proposal channel is gone.
    ChannelClosed,
    /// A proposal arrived.
    ProposalArrived,
    /// Whether the proposal's messages verified.
    Verified(bool),
    /// Whether the wallet added its contribution.
    Received(bool),
    /// Whether the answer went back to the sender; nothing depends on it.
    Published(bool),
}

/// What the dispatch loop does next.
#[derive(Debug, Clone, Copy, PartialEq, Eq, Structural)]
pub enum DispatchAction {
    /// Sleep this many milliseconds, then poll the channel.
    Sleep(u64),
    /// Verify the messages of the proposal at hand.
    Verify,
    /// Let the wallet add its contribution to the proposal at hand.
    Receive,
    /// Publish the counter-signed slate back to its sender.
    PublishBack,
    /// End the loop.
    Stop,
}

/// The next step of the dispatch loop.
pub open spec fn dispatch_spec(e: DispatchEvent) -> DispatchAction {
    match e {
        DispatchEvent::NothingWaiting => DispatchAction::Sleep(POLL_INTERVAL_MS),
        DispatchEvent::ChannelClosed => DispatchAction::Stop,
        DispatchEvent::ProposalArrived => DispatchAction::Verify,
        DispatchEvent::Verified(ok) => if ok {
            DispatchAction::Receive
        } else {
            DispatchAction::Sleep(POLL_INTERVAL_MS)
        },
        DispatchEvent::Received(ok) => if ok {
            DispatchAction::PublishBack
        } else {
            DispatchAction::Sleep(POLL_INTERVAL_MS)
        },
        DispatchEvent::Published(_) => DispatchAction::Sleep(POLL_INTERVAL_MS),
    }
}

/// Decides the dispatch loop's next step. A proposal is verified, then
/// received, then published back; a failure at any of these drops that
/// proposal and the loop goes on polling. Only a closed channel ends it.
pub fn dispatch(e: DispatchEvent) -> (a: DispatchAction)
    ensures
        a == dispatch_spec(e),
        a == DispatchAction::Stop <==> e == DispatchEvent::ChannelClosed,
        a == DispatchAction::PublishBack ==> e == DispatchEvent::Received(true),
{
    match e {
        DispatchEvent::NothingWaiting => DispatchAction::Sleep(POLL_INTERVAL_MS),
        DispatchEvent::ChannelClosed => DispatchAction::Stop,
        DispatchEvent::ProposalArrived => DispatchAction::Verify,
        DispatchEvent::Verified(ok) => if ok {
            DispatchAction::Receive
        } else {
            DispatchAction::Sleep(POLL_INTERVAL_MS)
        },
        DispatchEvent::Received(ok) => if ok {
            DispatchAction::PublishBack
        } else {
            DispatchAction::Sleep(POLL_INTERVAL_MS)
        },
        DispatchEvent::Published(_) => DispatchAction::Sleep(POLL_INTERVAL_MS),
    }
}

} // verus!

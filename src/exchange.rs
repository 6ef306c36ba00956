//! The sender's side of a transaction: propose and lock funds, exchange the
//! slate with the receiver, verify, finalize, and post with one recovery
//! retry. The session decides; its driver performs each action and reports
//! the outcome as an event.
use vstd::prelude::*;

use crate::error::WalletError;
use crate::slate::SlateState;

verus! {

/// What the session waits for.
#[derive(Debug, Clone, Copy, PartialEq, Eq, Structural)]
pub enum SendPhase {
    /// The wallet builds the slate and locks the funds it spends.
    Proposing,
    /// The transport carries the slate to the receiver and brings the reply.
    Exchanging,
    /// The wallet checks the signatures of the reply's messages.
    Verifying,
    /// The wallet combines both contributions.
    Finalizing,
    /// The node takes the finalized transaction.
    Posting,
    /// The node takes the wallet's earlier unconfirmed transactions again.
    Reposting,
    /// The node takes the finalized transaction, for the second and last time.
    RetryPosting,
    /// The wallet releases the locked funds after a failure before finalization.
    Releasing(WalletError),
    /// The wallet cancels the finalized transaction that could not be posted.
    Cancelling(WalletError),
    /// The transaction is posted.
    Succeeded,
    /// The exchange failed with this error.
    Failed(WalletError),
}

/// The outcome of the action last asked for.
#[derive(Debug, Clone, Copy, PartialEq, Eq, Structural)]
pub enum SendEvent {
    Proposed(bool),
    /// The counter-signed reply came back.
    Replied,
    /// The transport failed with this error (`TransportError` for a direct
    /// peer; a relay error, or a failed resolution, for the relay).
    ExchangeFailed(WalletError),
    Verified(bool),
    Finalized(bool),
    Posted(bool),
    /// Whether any earlier transaction was taken by the node.
    Reposted(bool),
    Released(bool),
    Cancelled(bool),
}

/// What the driver does next.
#[derive(Debug, Clone, Copy, PartialEq, Eq, Structural)]
pub enum SendAction {
    /// Build the slate and lock its funds; report `Proposed`.
    Propose,
    /// Send the slate through the transport and await the reply; report
    /// `Replied` or `ExchangeFailed`.
    Exchange,
    /// Verify the reply's messages; report `Verified`.
    Verify,
    /// Finalize the reply; report `Finalized`.
    Finalize,
    /// Post the finalized transaction; report `Posted`.
    Post,
    /// Post the earlier unconfirmed transactions again; report `Reposted`.
    Repost,
    /// Release the locked funds; report `Released`.
    ReleaseFunds,
    /// Cancel the finalized transaction; report `Cancelled`.
    CancelTx,
    /// Done: the transaction is posted.
    Complete,
    /// Done: the exchange failed with this error.
    Abort(WalletError),
}

impl SendPhase {
    /// The action that a phase asks of the driver.
    pub open spec fn action_spec(self) -> SendAction {
        match self {
            SendPhase::Proposing => SendAction::Propose,
            SendPhase::Exchanging => SendAction::Exchange,
            SendPhase::Verifying => SendAction::Verify,
            SendPhase::Finalizing => SendAction::Finalize,
            SendPhase::Posting => SendAction::Post,
            SendPhase::Reposting => SendAction::Repost,
            SendPhase::RetryPosting => SendAction::Post,
            SendPhase::Releasing(_) => SendAction::ReleaseFunds,
            SendPhase::Cancelling(_) => SendAction::CancelTx,
            SendPhase::Succeeded => SendAction::Complete,
            SendPhase::Failed(e) => SendAction::Abort(e),
        }
    }

    /// The action that a phase asks of the driver.
    pub fn action(&self) -> (a: SendAction)
        ensures
            a == self.action_spec(),
    {
        match self {
            SendPhase::Proposing => SendAction::Propose,
            SendPhase::Exchanging => SendAction::Exchange,
            SendPhase::Verifying => SendAction::Verify,
            SendPhase::Finalizing => SendAction::Finalize,
            SendPhase::Posting => SendAction::Post,
            SendPhase::Reposting => SendAction::Repost,
            SendPhase::RetryPosting => SendAction::Post,
            SendPhase::Releasing(_) => SendAction::ReleaseFunds,
            SendPhase::Cancelling(_) => SendAction::CancelTx,
            SendPhase::Succeeded => SendAction::Complete,
            SendPhase::Failed(e) => SendAction::Abort(*e),
        }
    }
}

/// The sender's view of one exchange.
#[derive(Debug, Clone, Copy, PartialEq, Eq, Structural)]
pub struct SendSession {
    pub phase: SendPhase,
    /// The slate's state, once there is a slate.
    pub state: Option<SlateState>,
    /// The funds of this exchange are locked.
    pub lock_held: bool,
    /// The exchange has reached `Finalized`.
    pub finalized: bool,
    /// How many times the finalized transaction was handed to the node.
    pub post_attempts: u64,
}

impl SendSession {
    /// The session before anything was done.
    pub open spec fn initial() -> SendSession {
        SendSession {
            phase: SendPhase::Proposing,
            state: None,
            lock_held: false,
            finalized: false,
            post_attempts: 0,
        }
    }

    /// The session after the outcome `e`. An outcome that is not the one
    /// awaited changes nothing.
    pub open spec fn next(self, e: SendEvent) -> SendSession {
        match (self.phase, e) {
            (SendPhase::Proposing, SendEvent::Proposed(ok)) => if ok {
                SendSession {
                    phase: SendPhase::Exchanging,
                    state: Some(SlateState::Sent),
                    lock_held: true,
                    ..self
                }
            } else {
                SendSession { phase: SendPhase::Failed(WalletError::WalletBackendError), ..self }
            },
            (SendPhase::Exchanging, SendEvent::Replied) => SendSession {
                phase: SendPhase::Verifying,
                state: Some(SlateState::CounterSigned),
                ..self
            },
            (SendPhase::Exchanging, SendEvent::ExchangeFailed(err)) => SendSession {
                phase: SendPhase::Releasing(err),
                ..self
            },
            (SendPhase::Verifying, SendEvent::Verified(ok)) => if ok {
                SendSession { phase: SendPhase::Finalizing, ..self }
            } else {
                SendSession {
                    phase: SendPhase::Releasing(WalletError::MessageVerificationError),
                    ..self
                }
            },
            (SendPhase::Finalizing, SendEvent::Finalized(ok)) => if ok {
                SendSession {
                    phase: SendPhase::Posting,
                    state: Some(SlateState::Finalized),
                    finalized: true,
                    post_attempts: 1,
                    ..self
                }
            } else {
                SendSession { phase: SendPhase::Releasing(WalletError::FinalizationError), ..self }
            },
            (SendPhase::Posting, SendEvent::Posted(ok)) => if ok {
                SendSession { phase: SendPhase::Succeeded, state: Some(SlateState::Posted), ..self }
            } else {
                SendSession { phase: SendPhase::Reposting, ..self }
            },
            (SendPhase::Reposting, SendEvent::Reposted(any)) => if any {
                SendSession { phase: SendPhase::RetryPosting, post_attempts: 2, ..self }
            } else {
                SendSession { phase: SendPhase::Cancelling(WalletError::BroadcastError), ..self }
            },
            (SendPhase::RetryPosting, SendEvent::Posted(ok)) => if ok {
                SendSession { phase: SendPhase::Succeeded, state: Some(SlateState::Posted), ..self }
            } else {
                SendSession { phase: SendPhase::Cancelling(WalletError::BroadcastError), ..self }
            },
            (SendPhase::Releasing(err), SendEvent::Released(ok)) => if ok {
                SendSession {
                    phase: SendPhase::Failed(err),
                    state: Some(SlateState::Cancelled),
                    lock_held: false,
                    ..self
                }
            } else {
                SendSession { phase: SendPhase::Failed(WalletError::WalletBackendError), ..self }
            },
            (SendPhase::Cancelling(err), SendEvent::Cancelled(ok)) => if ok {
                SendSession {
                    phase: SendPhase::Failed(err),
                    state: Some(SlateState::Cancelled),
                    lock_held: false,
                    ..self
                }
            } else {
                SendSession { phase: SendPhase::Failed(err), ..self }
            },
            _ => self,
        }
    }

    /// The phases agree with the lock, the finalization and the posts.
    pub open spec fn wf(self) -> bool {
        &&& self.post_attempts <= 2
        &&& match self.phase {
            SendPhase::Proposing => !self.lock_held && !self.finalized && self.post_attempts == 0
                && self.state is None,
            SendPhase::Exchanging | SendPhase::Verifying | SendPhase::Finalizing
            | SendPhase::Releasing(_) => self.lock_held && !self.finalized && self.post_attempts
                == 0,
            SendPhase::Posting | SendPhase::Reposting => self.lock_held && self.finalized
                && self.post_attempts == 1,
            SendPhase::RetryPosting => self.lock_held && self.finalized && self.post_attempts == 2,
            SendPhase::Cancelling(e) => self.lock_held && self.finalized && e
                == WalletError::BroadcastError && 1 <= self.post_attempts,
            SendPhase::Succeeded => self.lock_held && self.finalized && 1 <= self.post_attempts
                && self.state == Some(SlateState::Posted),
            SendPhase::Failed(e) => !self.finalized ==> (self.lock_held ==> e
                == WalletError::WalletBackendError) && self.post_attempts == 0,
        }
    }

    /// Starts an exchange: the first action builds the slate and locks funds.
    pub fn new() -> (r: (SendSession, SendAction))
        ensures
            r.0 == SendSession::initial(),
            r.0.wf(),
            r.1 == SendAction::Propose,
    {
        (
            SendSession {
                phase: SendPhase::Proposing,
                state: None,
                lock_held: false,
                finalized: false,
                post_attempts: 0,
            },
            SendAction::Propose,
        )
    }

    /// Whether the exchange is over.
    pub fn is_done(&self) -> (r: bool)
        ensures
            r == (self.phase is Succeeded || self.phase is Failed),
    {
        match self.phase {
            SendPhase::Succeeded | SendPhase::Failed(_) => true,
            _ => false,
        }
    }

    /// Takes the outcome of the last action and returns the next one.
    pub fn step(&mut self, e: SendEvent) -> (a: SendAction)
        requires
            old(self).wf(),
        ensures
            *final(self) == old(self).next(e),
            final(self).wf(),
            a == final(self).phase.action_spec(),
    {
        let s = *self;
        let n = match (s.phase, e) {
            (SendPhase::Proposing, SendEvent::Proposed(ok)) => if ok {
                SendSession {
                    phase: SendPhase::Exchanging,
                    state: Some(SlateState::Sent),
                    lock_held: true,
                    ..s
                }
            } else {
                SendSession { phase: SendPhase::Failed(WalletError::WalletBackendError), ..s }
            },
            (SendPhase::Exchanging, SendEvent::Replied) => SendSession {
                phase: SendPhase::Verifying,
                state: Some(SlateState::CounterSigned),
                ..s
            },
            (SendPhase::Exchanging, SendEvent::ExchangeFailed(err)) => SendSession {
                phase: SendPhase::Releasing(err),
                ..s
            },
            (SendPhase::Verifying, SendEvent::Verified(ok)) => if ok {
                SendSession { phase: SendPhase::Finalizing, ..s }
            } else {
                SendSession {
                    phase: SendPhase::Releasing(WalletError::MessageVerificationError),
                    ..s
                }
            },
            (SendPhase::Finalizing, SendEvent::Finalized(ok)) => if ok {
                SendSession {
                    phase: SendPhase::Posting,
                    state: Some(SlateState::Finalized),
                    finalized: true,
                    post_attempts: 1,
                    ..s
                }
            } else {
                SendSession { phase: SendPhase::Releasing(WalletError::FinalizationError), ..s }
            },
            (SendPhase::Posting, SendEvent::Posted(ok)) => if ok {
                SendSession { phase: SendPhase::Succeeded, state: Some(SlateState::Posted), ..s }
            } else {
                SendSession { phase: SendPhase::Reposting, ..s }
            },
            (SendPhase::Reposting, SendEvent::Reposted(any)) => if any {
                SendSession { phase: SendPhase::RetryPosting, post_attempts: 2, ..s }
            } else {
                SendSession { phase: SendPhase::Cancelling(WalletError::BroadcastError), ..s }
            },
            (SendPhase::RetryPosting, SendEvent::Posted(ok)) => if ok {
                SendSession { phase: SendPhase::Succeeded, state: Some(SlateState::Posted), ..s }
            } else {
                SendSession { phase: SendPhase::Cancelling(WalletError::BroadcastError), ..s }
            },
            (SendPhase::Releasing(err), SendEvent::Released(ok)) => if ok {
                SendSession {
                    phase: SendPhase::Failed(err),
                    state: Some(SlateState::Cancelled),
                    lock_held: false,
                    ..s
                }
            } else {
                SendSession { phase: SendPhase::Failed(WalletError::WalletBackendError), ..s }
            },
            (SendPhase::Cancelling(err), SendEvent::Cancelled(ok)) => if ok {
                SendSession {
                    phase: SendPhase::Failed(err),
                    state: Some(SlateState::Cancelled),
                    lock_held: false,
                    ..s
                }
            } else {
                SendSession { phase: SendPhase::Failed(err), ..s }
            },
            _ => s,
        };
        *self = n;
        self.phase.action()
    }
}

/// The session after the outcomes `events`, in order.
pub open spec fn run(s: SendSession, events: Seq<SendEvent>) -> SendSession
    decreases events.len(),
{
    if events.len() == 0 {
        s
    } else {
        run(s.next(events[0]), events.drop_first())
    }
}

/// Every session reached from a well-formed one is well formed.
proof fn lemma_run_wf(s: SendSession, events: Seq<SendEvent>)
    requires
        s.wf(),
    ensures
        run(s, events).wf(),
    decreases events.len(),
{
    if events.len() > 0 {
        lemma_run_wf(s.next(events[0]), events.drop_first());
    }
}

/// Whatever the outcomes, an exchange that fails before its transaction is
/// finalized gives its locked funds back, as they were before the proposal,
/// unless the wallet refused that release itself; and an exchange that ends
/// posted has reached `Finalized` and keeps its funds with the transaction.
pub proof fn lemma_lock_released_unless_finalized(events: Seq<SendEvent>)
    ensures
        ({
            let s = run(SendSession::initial(), events);
            &&& s.phase is Failed && !s.finalized && s.phase != SendPhase::Failed(
                WalletError::WalletBackendError,
            ) ==> !s.lock_held && s.lock_held == SendSession::initial().lock_held
            &&& s.phase == SendPhase::Succeeded ==> s.finalized && s.lock_held
        }),
{
    lemma_run_wf(SendSession::initial(), events);
}

/// Once the transaction is being cancelled or the exchange has failed, no
/// outcome brings back a post, and the count of posts stays as it is.
proof fn lemma_no_post_after_giving_up(s: SendSession, events: Seq<SendEvent>)
    requires
        s.phase is Cancelling || s.phase is Failed,
    ensures
        run(s, events).phase is Cancelling || run(s, events).phase is Failed,
        run(s, events).post_attempts == s.post_attempts,
    decreases events.len(),
{
    if events.len() > 0 {
        lemma_no_post_after_giving_up(s.next(events[0]), events.drop_first());
    }
}

/// After a failed post, a successful re-post of earlier transactions earns
/// the transaction exactly one more post. When that one fails too, the
/// transaction is cancelled with `BroadcastError`, and whatever comes after,
/// it is never posted again: two posts in all. No exchange posts more than
/// twice.
pub proof fn lemma_single_retry(s: SendSession, later: Seq<SendEvent>, events: Seq<SendEvent>)
    requires
        s.wf(),
        s.phase == SendPhase::Posting,
    ensures
        s.next(SendEvent::Posted(false)).phase.action_spec() == SendAction::Repost,
        s.next(SendEvent::Posted(false)).next(SendEvent::Reposted(true)).phase.action_spec()
            == SendAction::Post,
        ({
            let t = s.next(SendEvent::Posted(false)).next(SendEvent::Reposted(true)).next(
                SendEvent::Posted(false),
            );
            &&& t.phase == SendPhase::Cancelling(WalletError::BroadcastError)
            &&& t.post_attempts == 2
            &&& run(t, later).phase.action_spec() != SendAction::Post
            &&& run(t, later).post_attempts == 2
        }),
        run(SendSession::initial(), events).post_attempts <= 2,
{
    let t = s.next(SendEvent::Posted(false)).next(SendEvent::Reposted(true)).next(
        SendEvent::Posted(false),
    );
    lemma_no_post_after_giving_up(t, later);
    lemma_run_wf(SendSession::initial(), events);
}

} // verus!

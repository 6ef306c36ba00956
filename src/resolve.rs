//! Resolution of an abbreviated address through the relay service, as a
//! session that tells its driver what to do next and learns the outcome of
//! each step.
use vstd::prelude::*;

use crate::address::{is_abbreviation, is_valid_abbreviation, resolution_of, resolve_claimants, string_result_view};
use crate::error::WalletError;
use crate::wait::{Deadline, WaitStep};

verus! {

/// Where a resolution stands.
#[derive(Debug, Clone, Copy, PartialEq, Eq, Structural)]
pub enum ResolvePhase {
    /// Waiting for the relay connection.
    Connecting,
    /// The query is being handed to the relay service.
    Querying,
    /// Waiting for the relay's answer.
    Awaiting,
    /// The outcome has been reported.
    Done,
}

/// The next thing the driver does.
#[derive(Debug, PartialEq, Eq)]
pub enum ResolveAction {
    /// Open the relay connection, poll it, and report with `on_connection`.
    Connect,
    /// Sleep this many milliseconds, poll the connection, report with `on_connection`.
    WaitConnection(u64),
    /// Publish the query, and report with `on_query_sent`.
    SendQuery,
    /// Poll the answer channel now, and report with `on_answer`.
    PollAnswer,
    /// Sleep this many milliseconds, poll the answer channel, report with `on_answer`.
    WaitAnswer(u64),
    /// The resolution is over.
    Finished(Result<String, WalletError>),
}

/// What a poll of the answer channel found.
#[derive(Debug, Clone, PartialEq, Eq)]
pub enum Answer {
    /// Nothing yet.
    Empty,
    /// The relay connection closed the channel.
    Closed,
    /// The full addresses that claim the abbreviation.
    Claimants(Vec<String>),
}

/// An in-flight resolution of one abbreviation.
#[derive(Debug, Clone, Copy, PartialEq, Eq, Structural)]
pub struct AddressResolver {
    pub phase: ResolvePhase,
    pub deadline: Deadline,
}

/// The action `Finished(Err(e))`.
pub open spec fn finished_with_error(a: ResolveAction, e: WalletError) -> bool {
    a == ResolveAction::Finished(Err(e))
}

impl AddressResolver {
    /// The deadline in use is well formed.
    pub open spec fn wf(self) -> bool {
        self.deadline.wf()
    }

    /// Starts resolving `suffix`. A suffix that is not an abbreviation fails
    /// at once with `InvalidAddressFormat`, before any network step; a valid
    /// one starts with the relay connection.
    pub fn start(suffix: &str) -> (r: (AddressResolver, ResolveAction))
        ensures
            r.0.wf(),
            is_abbreviation(suffix@) ==> r.0.phase == ResolvePhase::Connecting && r.1
                == ResolveAction::Connect && r.0.deadline == Deadline::connect_spec(),
            !is_abbreviation(suffix@) ==> r.0.phase == ResolvePhase::Done && finished_with_error(
                r.1,
                WalletError::InvalidAddressFormat,
            ),
    {
        if is_valid_abbreviation(suffix) {
            (
                AddressResolver { phase: ResolvePhase::Connecting, deadline: Deadline::connect() },
                ResolveAction::Connect,
            )
        } else {
            (
                AddressResolver { phase: ResolvePhase::Done, deadline: Deadline::connect() },
                ResolveAction::Finished(Err(WalletError::InvalidAddressFormat)),
            )
        }
    }

    /// Takes the outcome of a connection poll: once connected, the query is
    /// sent; otherwise the connect wait goes on until it expires with
    /// `RelayConnectTimeout`.
    pub fn on_connection(&mut self, connected: bool) -> (a: ResolveAction)
        requires
            old(self).wf(),
            old(self).phase == ResolvePhase::Connecting,
        ensures
            final(self).wf(),
            connected ==> a == ResolveAction::SendQuery && final(self).phase == ResolvePhase::Querying,
            !connected && old(self).deadline.elapsed_ms >= old(self).deadline.limit_ms ==> finished_with_error(
                a,
                WalletError::RelayConnectTimeout,
            ) && final(self).phase == ResolvePhase::Done,
            !connected && old(self).deadline.elapsed_ms < old(self).deadline.limit_ms ==> a
                == ResolveAction::WaitConnection(
                (final(self).deadline.elapsed_ms - old(self).deadline.elapsed_ms) as u64,
            ) && final(self).phase == ResolvePhase::Connecting && final(self).deadline
                == old(self).deadline.after_empty_poll(),
    {
        if connected {
            self.phase = ResolvePhase::Querying;
            ResolveAction::SendQuery
        } else {
            match self.deadline.on_empty_poll() {
                WaitStep::Sleep(ms) => ResolveAction::WaitConnection(ms),
                WaitStep::Expired => {
                    self.phase = ResolvePhase::Done;
                    ResolveAction::Finished(Err(WalletError::RelayConnectTimeout))
                },
            }
        }
    }

    /// Takes the outcome of publishing the query: the answer window opens,
    /// or the resolution fails with `RelayPublishError`.
    pub fn on_query_sent(&mut self, sent: bool) -> (a: ResolveAction)
        requires
            old(self).wf(),
            old(self).phase == ResolvePhase::Querying,
        ensures
            final(self).wf(),
            sent ==> a == ResolveAction::PollAnswer && final(self).phase == ResolvePhase::Awaiting
                && final(self).deadline == Deadline::query_spec(),
            !sent ==> finished_with_error(a, WalletError::RelayPublishError) && final(self).phase
                == ResolvePhase::Done,
    {
        if sent {
            self.phase = ResolvePhase::Awaiting;
            self.deadline = Deadline::query();
            ResolveAction::PollAnswer
        } else {
            self.phase = ResolvePhase::Done;
            ResolveAction::Finished(Err(WalletError::RelayPublishError))
        }
    }

    /// Takes what a poll of the answer channel found. The first answer ends
    /// the resolution: one claimant is the result, none is `AddressNotFound`,
    /// several are `AddressConflict`. A closed channel is `AddressNotFound`;
    /// an empty poll waits on until the window expires with `RelayQueryTimeout`.
    pub fn on_answer(&mut self, answer: Answer) -> (a: ResolveAction)
        requires
            old(self).wf(),
            old(self).phase == ResolvePhase::Awaiting,
        ensures
            final(self).wf(),
            answer matches Answer::Claimants(c) ==> final(self).phase == ResolvePhase::Done
                && (a matches ResolveAction::Finished(r) && string_result_view(r) == resolution_of(
                c.deep_view(),
            )),
            answer == Answer::Closed ==> final(self).phase == ResolvePhase::Done
                && finished_with_error(a, WalletError::AddressNotFound),
            answer == Answer::Empty && old(self).deadline.elapsed_ms >= old(self).deadline.limit_ms
                ==> final(self).phase == ResolvePhase::Done && finished_with_error(
                a,
                WalletError::RelayQueryTimeout,
            ),
            answer == Answer::Empty && old(self).deadline.elapsed_ms < old(self).deadline.limit_ms
                ==> final(self).phase == ResolvePhase::Awaiting && a == ResolveAction::WaitAnswer(
                (final(self).deadline.elapsed_ms - old(self).deadline.elapsed_ms) as u64,
            ) && final(self).deadline == old(self).deadline.after_empty_poll(),
    {
        match answer {
            Answer::Claimants(c) => {
                self.phase = ResolvePhase::Done;
                ResolveAction::Finished(resolve_claimants(&c))
            },
            Answer::Closed => {
                self.phase = ResolvePhase::Done;
                ResolveAction::Finished(Err(WalletError::AddressNotFound))
            },
            Answer::Empty => {
                match self.deadline.on_empty_poll() {
                    WaitStep::Sleep(ms) => ResolveAction::WaitAnswer(ms),
                    WaitStep::Expired => {
                        self.phase = ResolvePhase::Done;
                        ResolveAction::Finished(Err(WalletError::RelayQueryTimeout))
                    },
                }
            },
        }
    }
}

} // verus!

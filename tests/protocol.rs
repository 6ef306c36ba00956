use mobile_wallet::address::{is_http_url, is_valid_abbreviation, resolve_claimants, starts_with, Destination};
use mobile_wallet::config::{
    needs_node_selection, parse_chain_type, seed_length, target_slate_version, wallet_data_dir, ChainType,
    MobileWalletCfg, SendArgs, MAX_OUTPUTS, MINIMUM_CONFIRMATIONS, NUM_CHANGE_OUTPUTS,
    SENDING_MINIMUM_CONFIRMATIONS,
};
use mobile_wallet::error::WalletError;
use mobile_wallet::funds::{contains_output, FundLocks};
use mobile_wallet::exchange::{SendAction, SendEvent, SendPhase, SendSession};
use mobile_wallet::listener::{dispatch, ConnectionState, DispatchAction, DispatchEvent, ListenerConnection};
use mobile_wallet::resolve::{AddressResolver, Answer, ResolveAction, ResolvePhase};
use mobile_wallet::slate::{cancel, check_repost, parse_slate_id, slate_id_from, Slate, SlateState};
use mobile_wallet::wait::{Deadline, WaitStep, CONNECT_WAIT_MS, QUERY_WAIT_MS};

fn strings(v: &[&str]) -> Vec<String> {
    v.iter().map(|s| s.to_string()).collect()
}

fn resolver_awaiting(suffix: &str) -> AddressResolver {
    let (mut r, a) = AddressResolver::start(suffix);
    assert_eq!(a, ResolveAction::Connect);
    assert_eq!(r.on_connection(true), ResolveAction::SendQuery);
    assert_eq!(r.on_query_sent(true), ResolveAction::PollAnswer);
    r
}

#[test]
fn abbreviation_alphabet() {
    assert!(is_valid_abbreviation("a2c3d4"));
    assert!(is_valid_abbreviation("023456"));
    assert!(is_valid_abbreviation("zzzzzz"));
    assert!(!is_valid_abbreviation("a2c3b4"));
    assert!(!is_valid_abbreviation("a1c3d4"));
    assert!(!is_valid_abbreviation("a2c3i4"));
    assert!(!is_valid_abbreviation("o2c3d4"));
    assert!(!is_valid_abbreviation("A2C3D4"));
    assert!(!is_valid_abbreviation("a2c3d"));
    assert!(!is_valid_abbreviation("a2c3d45"));
    assert!(!is_valid_abbreviation(""));
    assert!(!is_valid_abbreviation("a2c3dé"));
}

#[test]
fn invalid_abbreviation_fails_before_network() {
    for s in ["a2c3b4", "1bcdef", "ab-cde", "abc", "a2c3d4e5"] {
        let (r, a) = AddressResolver::start(s);
        assert_eq!(r.phase, ResolvePhase::Done);
        assert_eq!(a, ResolveAction::Finished(Err(WalletError::InvalidAddressFormat)));
    }
}

#[test]
fn single_claimant_is_returned() {
    let mut r = resolver_awaiting("a2c3d4");
    let a = r.on_answer(Answer::Claimants(strings(&["gn1qfulladdressa2c3d4"])));
    assert_eq!(a, ResolveAction::Finished(Ok("gn1qfulladdressa2c3d4".to_string())));
    assert_eq!(r.phase, ResolvePhase::Done);
}

#[test]
fn no_claimant_is_not_found() {
    let mut r = resolver_awaiting("a2c3d4");
    assert_eq!(r.on_answer(Answer::Claimants(vec![])), ResolveAction::Finished(Err(WalletError::AddressNotFound)));
    let mut r = resolver_awaiting("a2c3d4");
    assert_eq!(r.on_answer(Answer::Closed), ResolveAction::Finished(Err(WalletError::AddressNotFound)));
}

#[test]
fn two_wallets_with_one_abbreviation_conflict() {
    let mut r = resolver_awaiting("a2c3d4");
    let a = r.on_answer(Answer::Claimants(strings(&["gn1qfirstwalleta2c3d4", "gn1qsecondwalleta2c3d4"])));
    assert_eq!(a, ResolveAction::Finished(Err(WalletError::AddressConflict)));
}

#[test]
fn claimant_count_decides() {
    assert_eq!(resolve_claimants(&vec![]), Err(WalletError::AddressNotFound));
    assert_eq!(resolve_claimants(&strings(&["x"])), Ok("x".to_string()));
    assert_eq!(resolve_claimants(&strings(&["x", "y", "z"])), Err(WalletError::AddressConflict));
}

#[test]
fn connect_wait_times_out_after_five_seconds() {
    let (mut r, _) = AddressResolver::start("a2c3d4");
    let mut slept: u64 = 0;
    let mut polls = 0;
    loop {
        polls += 1;
        match r.on_connection(false) {
            ResolveAction::WaitConnection(ms) => slept += ms,
            ResolveAction::Finished(res) => {
                assert_eq!(res, Err(WalletError::RelayConnectTimeout));
                break;
            }
            other => panic!("unexpected {:?}", other),
        }
        assert!(polls < 1000);
    }
    assert_eq!(slept, CONNECT_WAIT_MS);
    assert_eq!(polls, 51);
}

#[test]
fn query_window_times_out_after_ten_seconds() {
    let mut r = resolver_awaiting("a2c3d4");
    let mut slept: u64 = 0;
    loop {
        match r.on_answer(Answer::Empty) {
            ResolveAction::WaitAnswer(ms) => slept += ms,
            ResolveAction::Finished(res) => {
                assert_eq!(res, Err(WalletError::RelayQueryTimeout));
                break;
            }
            other => panic!("unexpected {:?}", other),
        }
    }
    assert_eq!(slept, QUERY_WAIT_MS);
}

#[test]
fn first_answer_ends_the_wait() {
    let mut r = resolver_awaiting("a2c3d4");
    assert_eq!(r.on_answer(Answer::Empty), ResolveAction::WaitAnswer(100));
    assert_eq!(r.on_answer(Answer::Empty), ResolveAction::WaitAnswer(100));
    let a = r.on_answer(Answer::Claimants(strings(&["full"])));
    assert_eq!(a, ResolveAction::Finished(Ok("full".to_string())));
}

#[test]
fn failed_query_publish() {
    let (mut r, _) = AddressResolver::start("a2c3d4");
    r.on_connection(true);
    assert_eq!(r.on_query_sent(false), ResolveAction::Finished(Err(WalletError::RelayPublishError)));
}

#[test]
fn deadline_rounds_last_sleep() {
    let mut d = Deadline::new(250, 100);
    assert_eq!(d.on_empty_poll(), WaitStep::Sleep(100));
    assert_eq!(d.on_empty_poll(), WaitStep::Sleep(100));
    assert_eq!(d.on_empty_poll(), WaitStep::Sleep(50));
    assert!(d.is_expired());
    assert_eq!(d.on_empty_poll(), WaitStep::Expired);
    assert_eq!(d.elapsed_ms, 250);
}

#[test]
fn destination_selects_transport() {
    assert_eq!(Destination::parse("https://peer.example/v2"), Destination::Http("https://peer.example/v2".to_string()));
    assert_eq!(Destination::parse("http://10.0.0.1:3415"), Destination::Http("http://10.0.0.1:3415".to_string()));
    assert_eq!(Destination::parse("a2c3d4"), Destination::Abbreviated("a2c3d4".to_string()));
    assert_eq!(Destination::parse("gn1qfulladdress"), Destination::Relay("gn1qfulladdress".to_string()));
    assert_eq!(Destination::parse("ftp://x"), Destination::Relay("ftp://x".to_string()));
    assert!(is_http_url("https://"));
    assert!(!is_http_url("http:/x"));
    assert!(starts_with("abc", ""));
    assert!(!starts_with("ab", "abc"));
}

fn drive(events: &[SendEvent]) -> (SendSession, Vec<SendAction>) {
    let (mut s, first) = SendSession::new();
    let mut actions = vec![first];
    for e in events {
        actions.push(s.step(*e));
    }
    (s, actions)
}

#[test]
fn http_send_of_a_million_is_finalized_then_posted() {
    let dest = Destination::parse("https://peer.example/v2");
    assert!(matches!(dest, Destination::Http(_)));
    let args = SendArgs::new(1_000_000, "all", None, "");
    assert_eq!(args.amount, 1_000_000);
    assert_eq!(args.selection_strategy, "all");

    let mut slate = Slate::propose(7, 2, args.amount, vec![1, 2, 3], args.message.clone());
    assert_eq!(slate.state, SlateState::Proposed);
    assert_eq!(slate.receive(true, vec![4, 5, 6]), Ok(()));
    assert_eq!(slate.state, SlateState::CounterSigned);
    assert_eq!(slate.finalize(true), Ok(()));
    assert_eq!(slate.state, SlateState::Finalized);
    assert_eq!(slate.participants.len(), 2);
    assert!(slate.is_finalizable());

    let (s, actions) = drive(&[
        SendEvent::Proposed(true),
        SendEvent::Replied,
        SendEvent::Verified(true),
        SendEvent::Finalized(true),
        SendEvent::Posted(true),
    ]);
    assert_eq!(
        actions,
        vec![
            SendAction::Propose,
            SendAction::Exchange,
            SendAction::Verify,
            SendAction::Finalize,
            SendAction::Post,
            SendAction::Complete
        ]
    );
    assert_eq!(s.phase, SendPhase::Succeeded);
    assert_eq!(s.state, Some(SlateState::Posted));
    assert_eq!(s.post_attempts, 1);
}

#[test]
fn failures_before_finalization_release_the_lock() {
    let cases = [
        (vec![SendEvent::Proposed(true), SendEvent::ExchangeFailed(WalletError::TransportError)], WalletError::TransportError),
        (
            vec![SendEvent::Proposed(true), SendEvent::Replied, SendEvent::Verified(false)],
            WalletError::MessageVerificationError,
        ),
        (
            vec![SendEvent::Proposed(true), SendEvent::Replied, SendEvent::Verified(true), SendEvent::Finalized(false)],
            WalletError::FinalizationError,
        ),
    ];
    for (mut events, err) in cases {
        let (s, actions) = drive(&events);
        assert!(s.lock_held);
        assert_eq!(*actions.last().unwrap(), SendAction::ReleaseFunds);
        events.push(SendEvent::Released(true));
        let (s, actions) = drive(&events);
        assert!(!s.lock_held);
        assert!(!s.finalized);
        assert_eq!(s.state, Some(SlateState::Cancelled));
        assert_eq!(*actions.last().unwrap(), SendAction::Abort(err));
    }
}

#[test]
fn relay_failure_is_surfaced_after_release() {
    let (s, actions) = drive(&[
        SendEvent::Proposed(true),
        SendEvent::ExchangeFailed(WalletError::RelayConnectTimeout),
        SendEvent::Released(true),
    ]);
    assert_eq!(actions[2], SendAction::ReleaseFunds);
    assert_eq!(actions[3], SendAction::Abort(WalletError::RelayConnectTimeout));
    assert!(!s.lock_held);
}

#[test]
fn failed_proposal_holds_no_lock() {
    let (s, actions) = drive(&[SendEvent::Proposed(false)]);
    assert!(!s.lock_held);
    assert_eq!(actions[1], SendAction::Abort(WalletError::WalletBackendError));
}

#[test]
fn refused_release_is_reported() {
    let (s, actions) = drive(&[SendEvent::Proposed(true), SendEvent::ExchangeFailed(WalletError::TransportError), SendEvent::Released(false)]);
    assert!(s.lock_held);
    assert_eq!(actions[3], SendAction::Abort(WalletError::WalletBackendError));
}

const FINALIZED: [SendEvent; 4] = [
    SendEvent::Proposed(true),
    SendEvent::Replied,
    SendEvent::Verified(true),
    SendEvent::Finalized(true),
];

#[test]
fn one_retry_after_successful_repost() {
    let mut events = FINALIZED.to_vec();
    events.extend([SendEvent::Posted(false), SendEvent::Reposted(true), SendEvent::Posted(false)]);
    let (s, actions) = drive(&events);
    assert_eq!(&actions[5..], &[SendAction::Repost, SendAction::Post, SendAction::CancelTx]);
    assert_eq!(s.post_attempts, 2);
    events.push(SendEvent::Cancelled(true));
    events.push(SendEvent::Posted(false));
    let (s, actions) = drive(&events);
    assert_eq!(s.phase, SendPhase::Failed(WalletError::BroadcastError));
    assert_eq!(s.state, Some(SlateState::Cancelled));
    assert_eq!(actions.iter().filter(|a| **a == SendAction::Post).count(), 2);
}

#[test]
fn retry_that_succeeds_posts() {
    let mut events = FINALIZED.to_vec();
    events.extend([SendEvent::Posted(false), SendEvent::Reposted(true), SendEvent::Posted(true)]);
    let (s, actions) = drive(&events);
    assert_eq!(*actions.last().unwrap(), SendAction::Complete);
    assert_eq!(s.state, Some(SlateState::Posted));
}

#[test]
fn no_retry_without_successful_repost() {
    let mut events = FINALIZED.to_vec();
    events.extend([SendEvent::Posted(false), SendEvent::Reposted(false), SendEvent::Cancelled(false)]);
    let (s, actions) = drive(&events);
    assert_eq!(actions[6], SendAction::CancelTx);
    assert_eq!(s.phase, SendPhase::Failed(WalletError::BroadcastError));
    assert_eq!(s.post_attempts, 1);
}

#[test]
fn unexpected_event_changes_nothing() {
    let (mut s, _) = SendSession::new();
    let before = s;
    assert_eq!(s.step(SendEvent::Posted(true)), SendAction::Propose);
    assert_eq!(s, before);
    assert!(!s.is_done());
}

#[test]
fn unverified_proposal_is_not_counter_signed() {
    let mut slate = Slate::propose(1, 2, 50, vec![9], None);
    assert_eq!(slate.receive(false, vec![8]), Err(WalletError::MessageVerificationError));
    assert_eq!(slate.state, SlateState::Proposed);
    assert_eq!(slate.participants.len(), 1);
}

#[test]
fn third_contribution_is_rejected() {
    let mut slate = Slate::propose(1, 2, 50, vec![9], None);
    assert_eq!(slate.add_contribution(vec![8]), Ok(()));
    assert_eq!(slate.add_contribution(vec![7]), Err(WalletError::ParticipantLimit));
    assert_eq!(slate.participants, vec![vec![9], vec![8]]);
    let mut counter_signed = Slate::propose(1, 2, 50, vec![9], None);
    counter_signed.receive(true, vec![8]).unwrap();
    assert_eq!(counter_signed.receive(true, vec![7]), Err(WalletError::ParticipantLimit));
}

#[test]
fn finalize_needs_both_contributions() {
    let mut slate = Slate::propose(1, 2, 50, vec![9], None);
    assert_eq!(slate.finalize(true), Err(WalletError::FinalizationError));
    slate.receive(true, vec![8]).unwrap();
    assert_eq!(slate.finalize(false), Err(WalletError::FinalizationError));
    assert_eq!(slate.state, SlateState::CounterSigned);
}

#[test]
fn cancel_twice_is_a_no_op() {
    let once = cancel(SlateState::Finalized);
    assert_eq!(once, Ok(SlateState::Cancelled));
    assert_eq!(cancel(once.unwrap()), Ok(SlateState::Cancelled));
    assert_eq!(cancel(SlateState::Cancelled), Ok(SlateState::Cancelled));
    assert_eq!(cancel(SlateState::Posted), Err(WalletError::AlreadyConfirmedError));
}

#[test]
fn repost_checks() {
    assert_eq!(check_repost(true, true, true), Err(WalletError::AlreadyConfirmedError));
    assert_eq!(check_repost(false, false, true), Err(WalletError::WalletBackendError));
    assert_eq!(check_repost(false, true, false), Err(WalletError::StorageNotFoundError));
    assert_eq!(check_repost(false, true, true), Ok(()));
}

#[test]
fn slate_ids_parse_as_uuids() {
    assert_eq!(
        parse_slate_id("a1a2a3a4-b1b2-c1c2-d1d2-d3d4d5d6d7d8"),
        Ok(0xa1a2a3a4b1b2c1c2d1d2d3d4d5d6d7d8)
    );
    assert_eq!(parse_slate_id("not-a-uuid"), Err(WalletError::InvalidSlateId));
    assert_eq!(parse_slate_id(""), Err(WalletError::InvalidSlateId));
}

#[test]
fn listener_connection_states() {
    let mut c = ListenerConnection::new();
    assert_eq!(c.check_publish(), Err(WalletError::RelayPublishError));
    assert!(c.begin_connect());
    assert!(!c.begin_connect());
    assert_eq!(c.state, ConnectionState::Connecting);
    assert!(!c.is_connected());
    c.on_connect_result(true);
    assert!(c.is_connected());
    assert_eq!(c.check_publish(), Ok(()));
    c.on_connect_result(false);
    assert_eq!(c.state, ConnectionState::Connected);
    let mut f = ListenerConnection::new();
    f.begin_connect();
    f.on_connect_result(false);
    assert_eq!(f.state, ConnectionState::Failed);
    assert_eq!(f.check_publish(), Err(WalletError::RelayPublishError));
}

#[test]
fn dispatch_survives_bad_proposals() {
    assert_eq!(dispatch(DispatchEvent::NothingWaiting), DispatchAction::Sleep(100));
    assert_eq!(dispatch(DispatchEvent::ProposalArrived), DispatchAction::Verify);
    assert_eq!(dispatch(DispatchEvent::Verified(false)), DispatchAction::Sleep(100));
    assert_eq!(dispatch(DispatchEvent::Verified(true)), DispatchAction::Receive);
    assert_eq!(dispatch(DispatchEvent::Received(false)), DispatchAction::Sleep(100));
    assert_eq!(dispatch(DispatchEvent::Received(true)), DispatchAction::PublishBack);
    assert_eq!(dispatch(DispatchEvent::Published(false)), DispatchAction::Sleep(100));
    assert_eq!(dispatch(DispatchEvent::ChannelClosed), DispatchAction::Stop);
}

#[test]
fn chain_types_and_settings() {
    assert_eq!(parse_chain_type("mainnet"), Ok(ChainType::Mainnet));
    assert_eq!(parse_chain_type("floonet"), Ok(ChainType::Floonet));
    assert_eq!(parse_chain_type("testnet"), Err(WalletError::ConfigurationError));
    assert_eq!(parse_chain_type("mainnet2"), Err(WalletError::ConfigurationError));
    assert_eq!(wallet_data_dir("/data"), "/data/wallet_data");
    let cfg = MobileWalletCfg {
        account: "default".to_string(),
        chain_type: "floonet".to_string(),
        data_dir: "/sdcard/grin".to_string(),
        node_api_addr: "http://127.0.0.1:13413".to_string(),
        node_api_secret: "secret".to_string(),
        password: "pw".to_string(),
        minimum_confirmations: MINIMUM_CONFIRMATIONS,
    };
    let w = cfg.settings().unwrap();
    assert_eq!(w.chain_type, ChainType::Floonet);
    assert_eq!(w.data_file_dir, "/sdcard/grin/wallet_data");
    assert_eq!(w.node_api_secret, Some("secret".to_string()));
    let bad = MobileWalletCfg { chain_type: "usernet".to_string(), ..cfg };
    assert!(matches!(bad.settings(), Err(WalletError::ConfigurationError)));
}

#[test]
fn send_arguments_and_small_settings() {
    let a = SendArgs::new(5, "smallest", Some(2), "hi");
    assert_eq!(a.minimum_confirmations, SENDING_MINIMUM_CONFIRMATIONS);
    assert_eq!(a.max_outputs, MAX_OUTPUTS);
    assert_eq!(a.num_change_outputs, NUM_CHANGE_OUTPUTS);
    assert_eq!(a.message, Some("hi".to_string()));
    assert_eq!(a.target_slate_version, Some(2));
    assert_eq!(target_slate_version(-1), None);
    assert_eq!(target_slate_version(3), Some(3));
    assert_eq!(seed_length(true), 16);
    assert_eq!(seed_length(false), 32);
    assert!(needs_node_selection("https://nodes.grin.icu:13413"));
    assert!(!needs_node_selection("https://nodes.grin.ic"));
    assert!(!needs_node_selection("http://127.0.0.1:3413"));
}

#[test]
fn error_messages() {
    assert_eq!(WalletError::AddressNotFound.message(), "wrong address, or destination is offline");
    assert_eq!(WalletError::RelayQueryTimeout.message(), "relay server no response, please try again later");
}

#[test]
fn abbreviation_resolves_to_relay_destination() {
    let d = Destination::parse("a2c3d4").resolved("gn1qfull".to_string());
    assert_eq!(d, Destination::Relay("gn1qfull".to_string()));
    assert!(d.yields_tx_proof());
    let h = Destination::parse("https://peer.example/v2").resolved("ignored".to_string());
    assert_eq!(h, Destination::Http("https://peer.example/v2".to_string()));
    assert!(!h.yields_tx_proof());
}

#[test]
fn locks_are_exclusive_and_released() {
    let mut l = FundLocks::new();
    assert_eq!(l.count(), 0);
    assert!(l.try_lock(&vec![1, 2, 3]));
    assert_eq!(l.count(), 3);
    assert!(l.is_locked(2));
    assert!(!l.try_lock(&vec![3, 4]));
    assert!(!l.is_locked(4));
    assert_eq!(l.count(), 3);
    assert!(l.try_lock(&vec![4, 4, 5]));
    assert_eq!(l.count(), 5);
    let before = l.count();
    assert!(l.try_lock(&vec![6, 7]));
    l.release(&vec![6, 7]);
    assert_eq!(l.count(), before);
    assert!(!l.is_locked(6));
    l.release(&vec![1, 2, 3, 9]);
    assert_eq!(l.count(), 2);
    assert!(l.is_locked(4) && l.is_locked(5));
    assert!(contains_output(&vec![8, 9], 9));
    assert!(!contains_output(&vec![], 9));
}

#[test]
fn parsed_ids_map_to_results() {
    assert_eq!(slate_id_from(Some(42)), Ok(42));
    assert_eq!(slate_id_from(None), Err(WalletError::InvalidSlateId));
}

use synapse_sdk::channel::{check_deadline, Channel, CloseStep, WatchAction};
use synapse_sdk::codec::channel_id;
use synapse_sdk::signer::{verify, Signer};
use synapse_sdk::state::{ChannelState, Proposal, SignedState};
use synapse_sdk::{Address, ChannelInfo, ChannelStatus, SynapseError, H256, U256};

fn secret(last: u8) -> [u8; 32] {
    let mut key = [0u8; 32];
    key[31] = last;
    key
}

/// Two signers, the one with the lower address first.
fn parties() -> (Signer, Signer) {
    let one = Signer::from_key(secret(1)).unwrap();
    let two = Signer::from_key(secret(2)).unwrap();
    if one.address().lt(&two.address()) {
        (one, two)
    } else {
        (two, one)
    }
}

fn n(v: u64) -> U256 {
    U256::from_u64(v)
}

/// The two views of one channel, with the deposits of A, the lower address, and of B.
fn opened(a: &Signer, b: &Signer, deposit_a: u64, deposit_b: u64) -> (Channel, Channel) {
    let at_a = Channel::open(a.address(), b.address(), n(deposit_a), n(deposit_b));
    let at_b = Channel::open(b.address(), a.address(), n(deposit_b), n(deposit_a));
    (at_a, at_b)
}

/// One full exchange: the proposer proposes, the other accepts, the proposer commits.
fn update(
    proposer: &mut Channel,
    proposer_key: &Signer,
    acceptor: &mut Channel,
    acceptor_key: &Signer,
    balance1: u64,
    balance2: u64,
) {
    let proposal = proposer.propose(proposer_key, n(balance1), n(balance2)).unwrap();
    let answer = acceptor.accept(acceptor_key, &proposal).unwrap();
    proposer.commit(&answer.signature).unwrap();
}

fn record_of(at: &Channel, a: &Signer, b: &Signer, status: ChannelStatus, end: u64) -> ChannelInfo {
    let state = at.current();
    ChannelInfo {
        participant1: a.address(),
        participant2: b.address(),
        balance1: state.balance1,
        balance2: state.balance2,
        nonce: state.nonce,
        status,
        challenge_end: n(end),
    }
}

fn addr_ending(last: u8) -> Address {
    let mut bytes = [0u8; 20];
    bytes[19] = last;
    Address(bytes)
}

#[test]
fn open_assigns_deposits_to_slots() {
    let a = addr_ending(1);
    let b = addr_ending(2);
    let at_a = Channel::open(a, b, n(100), n(50));
    assert_eq!(at_a.me(), a);
    assert_eq!(at_a.peer(), b);
    assert!(at_a.is_first());
    assert_eq!(at_a.status(), ChannelStatus::Open);
    assert_eq!(at_a.channel_id(), channel_id(&a, &b));
    let state = at_a.current();
    assert_eq!(state.channel_id, channel_id(&a, &b));
    assert_eq!(state.balance1, n(100));
    assert_eq!(state.balance2, n(50));
    assert_eq!(state.nonce, U256::zero());
    assert!(at_a.last_agreed().is_none());
    assert!(at_a.pending_local().is_none());
    assert_eq!(at_a.nonce_next(), Some(U256::one()));

    let at_b = Channel::open(b, a, n(50), n(100));
    assert!(!at_b.is_first());
    assert!(at_b.current().same(&state));
}

#[test]
fn cooperative_close_settles_the_latest_state() {
    let (a, b) = parties();
    let (mut at_a, mut at_b) = opened(&a, &b, 100, 50);
    update(&mut at_a, &a, &mut at_b, &b, 80, 70);
    assert_eq!(at_a.current().nonce, n(1));
    assert_eq!(at_a.current().balance1, n(80));
    assert_eq!(at_a.current().balance2, n(70));
    update(&mut at_a, &a, &mut at_b, &b, 60, 90);
    assert!(at_a.current().same(&at_b.current()));

    let request = at_b.close_cooperative().unwrap();
    assert_eq!(request.counterparty, a.address());
    assert_eq!(request.balance1, n(60));
    assert_eq!(request.balance2, n(90));
    assert_eq!(request.nonce, n(2));
    let digest = at_b.current().digest();
    assert!(verify(&digest, &request.sig1, &a.address()).is_ok());
    assert!(verify(&digest, &request.sig2, &b.address()).is_ok());

    let hash = H256([9u8; 32]);
    assert_eq!(at_b.confirm(CloseStep::Cooperative, Ok(hash)).unwrap(), hash);
    assert_eq!(at_b.status(), ChannelStatus::Closed);
    assert_eq!(at_b.current().balance1, n(60));
    assert_eq!(at_b.current().balance2, n(90));
    assert_eq!(at_b.current().channel_id, channel_id(&a.address(), &b.address()));
}

#[test]
fn stale_posted_state_is_challenged_and_finalized() {
    let (a, b) = parties();
    let (mut at_a, mut at_b) = opened(&a, &b, 100, 50);
    update(&mut at_a, &a, &mut at_b, &b, 95, 55);
    update(&mut at_b, &b, &mut at_a, &a, 92, 58);
    update(&mut at_a, &a, &mut at_b, &b, 90, 60);
    let stale = at_a.close_initiate().unwrap();
    assert_eq!(stale.nonce, n(3));
    assert_eq!(stale.balance1, n(90));
    assert_eq!(stale.balance2, n(60));
    update(&mut at_b, &b, &mut at_a, &a, 50, 100);
    update(&mut at_a, &a, &mut at_b, &b, 30, 120);
    assert_eq!(at_b.current().nonce, n(5));

    let start = 1_000u64;
    let window = 600u64;
    let posted = ChannelInfo {
        participant1: a.address(),
        participant2: b.address(),
        balance1: stale.balance1,
        balance2: stale.balance2,
        nonce: stale.nonce,
        status: ChannelStatus::Closing,
        challenge_end: n(start + window),
    };
    at_b.reconcile(&posted).unwrap();
    assert_eq!(at_b.status(), ChannelStatus::Closing);

    let action = at_b.watch(&posted, &n(start + 1)).unwrap();
    let request = match action {
        WatchAction::Challenge(request) => request,
        other => panic!("expected a challenge, got {:?}", other),
    };
    assert_eq!(request.counterparty, a.address());
    assert_eq!(request.nonce, n(5));
    assert_eq!(request.balance1, n(30));
    assert_eq!(request.balance2, n(120));
    let direct = at_b.challenge(&posted).unwrap();
    assert_eq!(direct.nonce, n(5));
    at_b.confirm(CloseStep::Challenge, Ok(H256([1u8; 32]))).unwrap();
    assert_eq!(at_b.status(), ChannelStatus::Closing);

    let replaced = record_of(&at_b, &a, &b, ChannelStatus::Closing, start + window);
    assert_eq!(replaced.nonce, n(5));
    assert!(matches!(
        at_b.watch(&replaced, &n(start + window - 1)).unwrap(),
        WatchAction::Wait(t) if t == n(start + window)
    ));
    assert!(matches!(at_b.challenge(&replaced), Err(SynapseError::InvalidStateTransition)));
    assert!(matches!(
        at_b.finalize(&replaced, &n(start + window - 1)),
        Err(SynapseError::TransactionFailed(_))
    ));
    assert!(matches!(
        at_b.watch(&replaced, &n(start + window)).unwrap(),
        WatchAction::Finalize(who) if who == a.address()
    ));
    assert_eq!(at_b.finalize(&replaced, &n(start + window)).unwrap(), a.address());
    at_b.confirm(CloseStep::Finalize, Ok(H256([2u8; 32]))).unwrap();
    assert_eq!(at_b.status(), ChannelStatus::Closed);
    assert_eq!(at_b.current().balance1, n(30));
    assert_eq!(at_b.current().balance2, n(120));
}

#[test]
fn proposal_signed_by_a_stranger_is_refused() {
    let (a, b) = parties();
    let impostor = Signer::from_key(secret(3)).unwrap();
    let (at_a, mut at_b) = opened(&a, &b, 100, 50);
    let state = ChannelState {
        channel_id: at_a.channel_id(),
        balance1: n(80),
        balance2: n(70),
        nonce: n(1),
    };
    let forged = Proposal { state, signature: impostor.sign_digest(&state.digest()).unwrap() };
    assert!(matches!(at_b.accept(&b, &forged), Err(SynapseError::InvalidSignature)));
    assert!(at_b.last_agreed().is_none());
    assert_eq!(at_b.current().nonce, U256::zero());
    assert_eq!(at_b.current().balance1, n(100));
    assert_eq!(at_b.current().balance2, n(50));

    let honest = Proposal { state, signature: a.sign_digest(&state.digest()).unwrap() };
    assert!(at_b.accept(&b, &honest).is_ok());
    assert_eq!(at_b.current().nonce, n(1));
}

#[test]
fn proposal_that_changes_the_total_is_refused() {
    let (a, b) = parties();
    let (mut at_a, mut at_b) = opened(&a, &b, 100, 100);
    assert!(matches!(
        at_a.propose(&a, n(150), n(60)),
        Err(SynapseError::InvalidStateTransition)
    ));
    assert!(at_a.pending_local().is_none());
    let state = ChannelState {
        channel_id: at_a.channel_id(),
        balance1: n(150),
        balance2: n(60),
        nonce: n(1),
    };
    let proposal = Proposal { state, signature: a.sign_digest(&state.digest()).unwrap() };
    assert!(matches!(at_b.accept(&b, &proposal), Err(SynapseError::InvalidStateTransition)));
    assert!(at_b.last_agreed().is_none());
    assert_eq!(at_b.current().balance1, n(100));
    assert_eq!(at_b.current().balance2, n(100));
}

#[test]
fn of_two_simultaneous_proposals_the_lower_address_wins() {
    let (a, b) = parties();
    let (mut at_a, mut at_b) = opened(&a, &b, 100, 50);
    let from_a = at_a.propose(&a, n(90), n(60)).unwrap();
    let from_b = at_b.propose(&b, n(110), n(40)).unwrap();
    assert_eq!(from_a.state.nonce, n(1));
    assert_eq!(from_b.state.nonce, n(1));

    assert!(matches!(at_a.accept(&a, &from_b), Err(SynapseError::InvalidStateTransition)));
    assert!(at_a.last_agreed().is_none());
    assert!(at_a.pending_local().is_some());

    let answer = at_b.accept(&b, &from_a).unwrap();
    let retracted = answer.retracted.unwrap();
    assert!(retracted.same(&from_b.state));
    assert!(at_b.pending_local().is_none());
    assert!(at_b.current().same(&from_a.state));

    at_a.commit(&answer.signature).unwrap();
    assert!(at_a.current().same(&from_a.state));
    assert!(matches!(at_b.commit(&answer.signature), Err(SynapseError::InvalidStateTransition)));

    let again = at_b.propose(&b, n(100), n(50)).unwrap();
    assert_eq!(again.state.nonce, n(2));
    let answer = at_a.accept(&a, &again).unwrap();
    assert!(answer.retracted.is_none());
    at_b.commit(&answer.signature).unwrap();
    assert_eq!(at_a.current().nonce, n(2));
    assert!(at_a.current().same(&at_b.current()));
}

#[test]
fn finalizing_a_closed_channel_fails_and_changes_nothing() {
    let (a, b) = parties();
    let (mut at_a, mut at_b) = opened(&a, &b, 100, 50);
    update(&mut at_a, &a, &mut at_b, &b, 70, 80);
    at_a.confirm(CloseStep::Initiate, Ok(H256([1u8; 32]))).unwrap();
    assert_eq!(at_a.status(), ChannelStatus::Closing);
    let closing = record_of(&at_a, &a, &b, ChannelStatus::Closing, 500);
    assert_eq!(at_a.finalize(&closing, &n(500)).unwrap(), b.address());
    at_a.confirm(CloseStep::Finalize, Ok(H256([2u8; 32]))).unwrap();
    assert_eq!(at_a.status(), ChannelStatus::Closed);
    let settled = at_a.current();

    let closed = record_of(&at_a, &a, &b, ChannelStatus::Closed, 500);
    assert!(matches!(at_a.finalize(&closed, &n(900)), Err(SynapseError::TransactionFailed(_))));
    assert!(matches!(at_a.finalize(&closing, &n(900)), Err(SynapseError::TransactionFailed(_))));
    let reverted = at_a.confirm(
        CloseStep::Finalize,
        Err(SynapseError::TransactionFailed("reverted".to_string())),
    );
    assert!(matches!(
        reverted,
        Err(SynapseError::TransactionFailed(reason)) if reason == "reverted"
    ));
    assert_eq!(at_a.status(), ChannelStatus::Closed);
    assert!(at_a.current().same(&settled));
    assert_eq!(at_a.current().balance1, n(70));
    assert_eq!(at_a.current().balance2, n(80));

    at_a.confirm(CloseStep::Initiate, Ok(H256([3u8; 32]))).unwrap();
    assert_eq!(at_a.status(), ChannelStatus::Closed);
    assert!(matches!(at_a.watch(&closed, &n(900)).unwrap(), WatchAction::Settled));
}

#[test]
fn updates_conserve_the_total_and_raise_the_nonce() {
    let (a, b) = parties();
    let (mut at_a, mut at_b) = opened(&a, &b, 100, 50);
    let steps: [(u64, u64); 5] = [(80, 70), (150, 0), (0, 150), (75, 75), (149, 1)];
    let mut nonce = 0u64;
    for (b1, b2) in steps {
        update(&mut at_a, &a, &mut at_b, &b, b1, b2);
        let state = at_a.current();
        assert!(state.nonce > n(nonce));
        nonce += 1;
        assert_eq!(state.nonce, n(nonce));
        assert_eq!(state.balance1.checked_add(&state.balance2), Some(n(150)));
        assert!(state.same(&at_b.current()));
    }
}

#[test]
fn agreed_state_carries_both_signatures() {
    let (a, b) = parties();
    let (mut at_a, mut at_b) = opened(&a, &b, 100, 50);
    update(&mut at_b, &b, &mut at_a, &a, 10, 140);
    for held in [at_a.last_agreed().unwrap(), at_b.last_agreed().unwrap()] {
        let digest = ethers::types::H256(held.state.digest());
        let first = ethers::types::Signature::try_from(&held.sig1[..]).unwrap();
        let second = ethers::types::Signature::try_from(&held.sig2[..]).unwrap();
        assert_eq!(first.recover(digest).unwrap().0, a.address().0);
        assert_eq!(second.recover(digest).unwrap().0, b.address().0);
    }
}

#[test]
fn propose_needs_an_open_channel_without_a_proposal_in_flight() {
    let (a, b) = parties();
    let (mut at_a, _) = opened(&a, &b, 100, 50);
    assert!(matches!(at_a.propose(&b, n(90), n(60)), Err(SynapseError::WalletError(_))));
    assert!(at_a.pending_local().is_none());
    let first = at_a.propose(&a, n(90), n(60)).unwrap();
    assert!(at_a.pending_local().unwrap().state.same(&first.state));
    assert!(matches!(at_a.propose(&a, n(80), n(70)), Err(SynapseError::InvalidStateTransition)));
    let given_up = at_a.abandon().unwrap();
    assert!(given_up.same(&first.state));
    assert!(at_a.pending_local().is_none());
    assert!(at_a.abandon().is_none());
    assert!(at_a.propose(&a, n(80), n(70)).is_ok());
    at_a.confirm(CloseStep::Cooperative, Ok(H256([0u8; 32]))).unwrap();
    assert!(at_a.pending_local().is_none());
    assert!(matches!(at_a.propose(&a, n(80), n(70)), Err(SynapseError::ChannelNotOpen)));
}

#[test]
fn accept_names_each_refusal() {
    let (a, b) = parties();
    let (mut at_a, mut at_b) = opened(&a, &b, 100, 50);
    let proposal = at_a.propose(&a, n(90), n(60)).unwrap();

    let foreign_state = ChannelState { channel_id: [0x55u8; 32], ..proposal.state };
    let foreign = Proposal {
        state: foreign_state,
        signature: a.sign_digest(&foreign_state.digest()).unwrap(),
    };
    assert!(matches!(at_b.accept(&b, &foreign), Err(SynapseError::ChannelNotFound)));

    let skipped_state = ChannelState { nonce: n(2), ..proposal.state };
    let skipped = Proposal {
        state: skipped_state,
        signature: a.sign_digest(&skipped_state.digest()).unwrap(),
    };
    assert!(matches!(at_b.accept(&b, &skipped), Err(SynapseError::InvalidStateTransition)));

    let mut broken = proposal;
    broken.signature[5] ^= 0x40;
    assert!(matches!(at_b.accept(&b, &broken), Err(SynapseError::InvalidSignature)));

    assert!(matches!(at_b.accept(&a, &proposal), Err(SynapseError::WalletError(_))));
    assert!(at_b.last_agreed().is_none());

    at_b.confirm(CloseStep::Initiate, Ok(H256([0u8; 32]))).unwrap();
    assert!(matches!(at_b.accept(&b, &proposal), Err(SynapseError::ChannelNotOpen)));
}

#[test]
fn commit_checks_the_counterparty_signature() {
    let (a, b) = parties();
    let (mut at_a, mut at_b) = opened(&a, &b, 100, 50);
    assert!(matches!(at_a.commit(&[0u8; 65]), Err(SynapseError::InvalidStateTransition)));
    let proposal = at_a.propose(&a, n(90), n(60)).unwrap();
    assert!(matches!(at_a.commit(&proposal.signature), Err(SynapseError::InvalidSignature)));
    assert!(at_a.pending_local().is_some());
    assert!(at_a.last_agreed().is_none());
    let answer = at_b.accept(&b, &proposal).unwrap();
    let signed = at_a.commit(&answer.signature).unwrap();
    assert_eq!(signed.sig1, proposal.signature);
    assert_eq!(signed.sig2, answer.signature);
    let at_other = at_b.last_agreed().unwrap();
    assert_eq!(at_other.sig1, signed.sig1);
    assert_eq!(at_other.sig2, signed.sig2);
    at_a.confirm(CloseStep::Cooperative, Ok(H256([0u8; 32]))).unwrap();
    assert!(matches!(at_a.commit(&answer.signature), Err(SynapseError::ChannelNotOpen)));
}

#[test]
fn closing_needs_a_signed_state() {
    let (a, b) = parties();
    let (mut at_a, mut at_b) = opened(&a, &b, 100, 50);
    assert!(matches!(at_a.close_cooperative(), Err(SynapseError::InvalidStateTransition)));
    assert!(matches!(at_a.close_initiate(), Err(SynapseError::InvalidStateTransition)));
    update(&mut at_a, &a, &mut at_b, &b, 80, 70);
    let request = at_a.close_initiate().unwrap();
    assert_eq!(request.counterparty, b.address());
    assert_eq!(request.nonce, n(1));
    at_a.confirm(CloseStep::Initiate, Ok(H256([0u8; 32]))).unwrap();
    assert!(matches!(at_a.close_cooperative(), Err(SynapseError::ChannelNotOpen)));
    assert!(matches!(at_a.close_initiate(), Err(SynapseError::ChannelNotOpen)));
}

#[test]
fn a_failed_step_is_handed_on_unchanged() {
    let (a, b) = parties();
    let (mut at_a, mut at_b) = opened(&a, &b, 100, 50);
    update(&mut at_a, &a, &mut at_b, &b, 80, 70);
    let failed =
        at_a.confirm(CloseStep::Cooperative, Err(SynapseError::ProviderError("down".to_string())));
    assert!(matches!(failed, Err(SynapseError::ProviderError(reason)) if reason == "down"));
    assert_eq!(at_a.status(), ChannelStatus::Open);
    let failed = at_a.confirm(
        CloseStep::Initiate,
        Err(SynapseError::TransactionFailed("timeout".to_string())),
    );
    assert!(matches!(failed, Err(SynapseError::TransactionFailed(reason)) if reason == "timeout"));
    assert_eq!(at_a.status(), ChannelStatus::Open);
    assert_eq!(at_a.current().nonce, n(1));
}

#[test]
fn records_of_other_channels_are_refused() {
    let (a, b) = parties();
    let (mut at_a, mut at_b) = opened(&a, &b, 100, 50);
    update(&mut at_a, &a, &mut at_b, &b, 80, 70);
    let mut other = record_of(&at_a, &a, &b, ChannelStatus::Closing, 500);
    other.participant2 = addr_ending(9);
    assert!(matches!(at_a.watch(&other, &n(1)), Err(SynapseError::ChannelNotFound)));
    assert!(matches!(at_a.challenge(&other), Err(SynapseError::ChannelNotFound)));
    assert!(matches!(at_a.finalize(&other, &n(999)), Err(SynapseError::ChannelNotFound)));
    assert!(matches!(at_a.reconcile(&other), Err(SynapseError::ChannelNotFound)));
    assert_eq!(at_a.status(), ChannelStatus::Open);
    let swapped = ChannelInfo { participant1: b.address(), participant2: a.address(), ..other };
    assert!(!at_a.owns(&swapped));
    assert!(at_a.owns(&record_of(&at_a, &a, &b, ChannelStatus::Open, 0)));
}

#[test]
fn watch_follows_the_record() {
    let (a, b) = parties();
    let (mut at_a, mut at_b) = opened(&a, &b, 100, 50);
    let open = record_of(&at_a, &a, &b, ChannelStatus::Open, 0);
    assert!(matches!(at_a.watch(&open, &n(5)).unwrap(), WatchAction::Idle));
    let absent = record_of(&at_a, &a, &b, ChannelStatus::Absent, 0);
    assert!(matches!(at_a.watch(&absent, &n(5)).unwrap(), WatchAction::Idle));
    let unsigned = record_of(&at_a, &a, &b, ChannelStatus::Closing, 100);
    assert!(matches!(at_a.watch(&unsigned, &n(5)).unwrap(), WatchAction::Wait(t) if t == n(100)));
    update(&mut at_a, &a, &mut at_b, &b, 80, 70);
    assert!(matches!(at_a.watch(&unsigned, &n(99)).unwrap(), WatchAction::Challenge(_)));
    assert!(matches!(at_a.watch(&unsigned, &n(100)).unwrap(), WatchAction::Finalize(_)));
    let same = record_of(&at_a, &a, &b, ChannelStatus::Closing, 100);
    assert!(matches!(at_a.watch(&same, &n(99)).unwrap(), WatchAction::Wait(t) if t == n(100)));
}

#[test]
fn reconcile_only_moves_forward() {
    let (a, b) = parties();
    let (mut at_a, _) = opened(&a, &b, 100, 50);
    at_a.propose(&a, n(90), n(60)).unwrap();
    at_a.reconcile(&record_of(&at_a, &a, &b, ChannelStatus::Open, 0)).unwrap();
    assert_eq!(at_a.status(), ChannelStatus::Open);
    assert!(at_a.pending_local().is_some());
    at_a.reconcile(&record_of(&at_a, &a, &b, ChannelStatus::Closing, 10)).unwrap();
    assert_eq!(at_a.status(), ChannelStatus::Closing);
    assert!(at_a.pending_local().is_none());
    at_a.reconcile(&record_of(&at_a, &a, &b, ChannelStatus::Open, 0)).unwrap();
    assert_eq!(at_a.status(), ChannelStatus::Closing);
    at_a.reconcile(&record_of(&at_a, &a, &b, ChannelStatus::Closed, 10)).unwrap();
    assert_eq!(at_a.status(), ChannelStatus::Closed);
    at_a.reconcile(&record_of(&at_a, &a, &b, ChannelStatus::Closing, 10)).unwrap();
    assert_eq!(at_a.status(), ChannelStatus::Closed);
    at_a.reconcile(&record_of(&at_a, &a, &b, ChannelStatus::Absent, 0)).unwrap();
    assert_eq!(at_a.status(), ChannelStatus::Closed);
}

#[test]
fn check_deadline_leaves_the_margin() {
    assert_eq!(check_deadline(&n(1600), &n(60)), n(1540));
    assert_eq!(check_deadline(&n(60), &n(60)), U256::zero());
    assert_eq!(check_deadline(&n(10), &n(60)), U256::zero());
}

#[test]
fn resume_checks_the_kept_state() {
    let (a, b) = parties();
    let (mut at_a, mut at_b) = opened(&a, &b, 100, 50);
    update(&mut at_a, &a, &mut at_b, &b, 80, 70);
    let kept = at_a.last_agreed().unwrap();
    let again = Channel::resume(b.address(), a.address(), n(50), n(100), kept).unwrap();
    assert!(again.current().same(&kept.state));
    assert_eq!(again.status(), ChannelStatus::Open);
    assert_eq!(again.last_agreed().unwrap().sig2, kept.sig2);

    let swapped = SignedState { sig1: kept.sig2, sig2: kept.sig1, ..kept };
    assert!(matches!(
        Channel::resume(a.address(), b.address(), n(100), n(50), swapped),
        Err(SynapseError::InvalidSignature)
    ));
    assert!(matches!(
        Channel::resume(a.address(), b.address(), n(100), n(40), kept),
        Err(SynapseError::InvalidStateTransition)
    ));
    assert!(matches!(
        Channel::resume(a.address(), addr_ending(7), n(100), n(50), kept),
        Err(SynapseError::ChannelNotFound)
    ));
    let unsigned = SignedState {
        state: ChannelState { nonce: U256::zero(), ..at_a.current() },
        ..kept
    };
    assert!(matches!(
        Channel::resume(a.address(), b.address(), n(100), n(50), unsigned),
        Err(SynapseError::InvalidStateTransition)
    ));
}

#[test]
fn draft_gives_the_next_state() {
    let a = addr_ending(1);
    let b = addr_ending(2);
    let at_a = Channel::open(a, b, n(100), n(50));
    let state = at_a.draft(n(80), n(70)).unwrap();
    assert_eq!(state.channel_id, at_a.channel_id());
    assert_eq!(state.balance1, n(80));
    assert_eq!(state.balance2, n(70));
    assert_eq!(state.nonce, n(1));
    assert!(at_a.draft(n(0), n(150)).is_ok());
    assert!(matches!(at_a.draft(n(80), n(71)), Err(SynapseError::InvalidStateTransition)));
    assert!(matches!(at_a.draft(n(80), n(69)), Err(SynapseError::InvalidStateTransition)));
    assert!(at_a.pending_local().is_none());
}

#[test]
fn vet_decides_in_a_fixed_order() {
    let a = addr_ending(1);
    let b = addr_ending(2);
    let stranger = addr_ending(3);
    let (signer_low, signer_high) = parties();
    let at_b = Channel::open(b, a, n(50), n(100));
    let state = ChannelState {
        channel_id: at_b.channel_id(),
        balance1: n(80),
        balance2: n(70),
        nonce: n(1),
    };
    assert!(at_b.vet(&state, Some(a)).is_ok());
    assert!(matches!(at_b.vet(&state, Some(stranger)), Err(SynapseError::InvalidSignature)));
    assert!(matches!(at_b.vet(&state, Some(b)), Err(SynapseError::InvalidSignature)));
    assert!(matches!(at_b.vet(&state, None), Err(SynapseError::InvalidSignature)));

    let inflated = ChannelState { balance1: n(81), ..state };
    assert!(matches!(at_b.vet(&inflated, Some(a)), Err(SynapseError::InvalidStateTransition)));
    assert!(matches!(at_b.vet(&inflated, None), Err(SynapseError::InvalidStateTransition)));
    let foreign = ChannelState { channel_id: [9u8; 32], ..inflated };
    assert!(matches!(at_b.vet(&foreign, None), Err(SynapseError::ChannelNotFound)));

    let (mut low, mut high) = opened(&signer_low, &signer_high, 100, 50);
    low.propose(&signer_low, n(90), n(60)).unwrap();
    high.propose(&signer_high, n(110), n(40)).unwrap();
    let incoming = ChannelState {
        channel_id: low.channel_id(),
        balance1: n(70),
        balance2: n(80),
        nonce: n(1),
    };
    assert!(matches!(
        low.vet(&incoming, Some(signer_high.address())),
        Err(SynapseError::InvalidStateTransition)
    ));
    assert!(matches!(low.vet(&incoming, None), Err(SynapseError::InvalidSignature)));
    assert!(high.vet(&incoming, Some(signer_low.address())).is_ok());
    high.confirm(CloseStep::Initiate, Ok(H256([0u8; 32]))).unwrap();
    assert!(matches!(high.vet(&foreign, None), Err(SynapseError::ChannelNotOpen)));
}

#[test]
fn vet_reply_needs_a_proposal_and_the_counterparty() {
    let (a, b) = parties();
    let (mut at_a, _) = opened(&a, &b, 100, 50);
    assert!(matches!(
        at_a.vet_reply(Some(b.address())),
        Err(SynapseError::InvalidStateTransition)
    ));
    let proposal = at_a.propose(&a, n(90), n(60)).unwrap();
    let pending = at_a.vet_reply(Some(b.address())).unwrap();
    assert!(pending.state.same(&proposal.state));
    assert_eq!(pending.signature, proposal.signature);
    assert!(matches!(at_a.vet_reply(Some(a.address())), Err(SynapseError::InvalidSignature)));
    assert!(matches!(at_a.vet_reply(None), Err(SynapseError::InvalidSignature)));
    at_a.confirm(CloseStep::Cooperative, Ok(H256([0u8; 32]))).unwrap();
    assert!(matches!(at_a.vet_reply(Some(b.address())), Err(SynapseError::ChannelNotOpen)));
}

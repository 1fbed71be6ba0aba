//! The state machine of one channel as its local participant sees it:
//! proposing, accepting and committing off-chain updates, and the steps that
//! close the channel on chain.
use crate::codec::{channel_id, channel_id_of, lex_lt, Address, H256};
use crate::error::SynapseError;
use crate::signer::{
    recover, recovered_address, recovers_to, signing_outcome, verify, Signer,
};
use crate::state::{ChannelState, Proposal, ProposalView, SignedState, SignedView, StateView};
use crate::types::{ChannelInfo, ChannelStatus};
use crate::word::U256;
use vstd::prelude::*;

verus! {

/// One channel, as its local participant holds it.
pub struct Channel {
    me: Address,
    peer: Address,
    opening: ChannelState,
    last_agreed: Option<SignedState>,
    pending_local: Option<Proposal>,
    status: ChannelStatus,
}

/// A channel as mathematical values.
pub struct ChannelView {
    /// The local participant.
    pub me: Address,
    /// The counterparty.
    pub peer: Address,
    /// The state that the channel was opened with, at nonce 0.
    pub opening: StateView,
    /// The latest state that both participants signed, once there is one.
    pub last_agreed: Option<SignedView>,
    /// The local proposal that the counterparty has not answered yet.
    pub pending_local: Option<ProposalView>,
    /// Where the local participant believes the channel to stand.
    pub status: ChannelStatus,
}

impl View for Channel {
    type V = ChannelView;

    closed spec fn view(&self) -> ChannelView {
        ChannelView {
            me: self.me,
            peer: self.peer,
            opening: self.opening@,
            last_agreed: match self.last_agreed {
                Some(s) => Some(s@),
                None => None,
            },
            pending_local: match self.pending_local {
                Some(p) => Some(p@),
                None => None,
            },
            status: self.status,
        }
    }
}

impl ChannelView {
    /// Whether the local participant is participant 1, the lower address.
    pub open spec fn local_is_first(self) -> bool {
        lex_lt(self.me@, self.peer@)
    }

    /// The participant that `balance1` and `sig1` belong to.
    pub open spec fn participant1(self) -> Address {
        if self.local_is_first() {
            self.me
        } else {
            self.peer
        }
    }

    /// The participant that `balance2` and `sig2` belong to.
    pub open spec fn participant2(self) -> Address {
        if self.local_is_first() {
            self.peer
        } else {
            self.me
        }
    }

    /// The state in force: the latest agreed one, or the opening state while
    /// no update was signed.
    pub open spec fn current(self) -> StateView {
        match self.last_agreed {
            Some(s) => s.state,
            None => self.opening,
        }
    }

    /// A state with the local signature and the counterparty's, each in the
    /// slot of its participant.
    pub open spec fn signed(self, state: StateView, own: Seq<u8>, other: Seq<u8>) -> SignedView {
        if self.local_is_first() {
            SignedView { state, sig1: own, sig2: other }
        } else {
            SignedView { state, sig1: other, sig2: own }
        }
    }

    /// The channel after `signed` became the latest agreed state.
    pub open spec fn agreed(self, signed: SignedView) -> ChannelView {
        ChannelView { last_agreed: Some(signed), pending_local: None, ..self }
    }

    /// The channel as opened between `me` and `peer`, each deposit in the
    /// slot of its owner.
    pub open spec fn opened(me: Address, peer: Address, mine: nat, theirs: nat) -> ChannelView {
        ChannelView {
            me,
            peer,
            opening: StateView {
                channel_id: channel_id_of(me, peer),
                balance1: if lex_lt(me@, peer@) {
                    mine
                } else {
                    theirs
                },
                balance2: if lex_lt(me@, peer@) {
                    theirs
                } else {
                    mine
                },
                nonce: 0,
            },
            last_agreed: None,
            pending_local: None,
            status: ChannelStatus::Open,
        }
    }

    /// The state that a proposal of the two balances would carry.
    pub open spec fn successor(self, balance1: nat, balance2: nat) -> StateView {
        StateView {
            channel_id: self.opening.channel_id,
            balance1,
            balance2,
            nonce: self.current().nonce + 1,
        }
    }

    /// Whether the local participant may propose the two balances now: the
    /// channel is open, no proposal is in flight, the nonce has a successor
    /// and the total is kept.
    pub open spec fn may_propose(self, balance1: nat, balance2: nat) -> bool {
        &&& self.status == ChannelStatus::Open
        &&& self.pending_local is None
        &&& self.current().nonce + 1 < crate::word::modulus()
        &&& balance1 + balance2 == self.current().total()
    }

    /// Whether a proposal of the counterparty loses against a local proposal
    /// in flight: of two proposals for one nonce, that of participant 1 wins.
    pub open spec fn outranks_incoming(self) -> bool {
        self.pending_local is Some && self.local_is_first()
    }

    /// Whether an on-chain record is that of this channel.
    pub open spec fn owns(self, record: ChannelInfo) -> bool {
        record.participant1@ == self.participant1()@ && record.participant2@
            == self.participant2()@
    }

    /// The invariant of a channel.
    pub open spec fn wf(self) -> bool {
        &&& self.opening.channel_id == channel_id_of(self.me, self.peer)
        &&& self.opening.nonce == 0
        &&& self.status != ChannelStatus::Absent
        &&& (self.last_agreed matches Some(s) ==> {
            &&& s.state.channel_id == self.opening.channel_id
            &&& s.state.total() == self.opening.total()
            &&& s.state.nonce >= 1
            &&& s.signed_by(self.participant1()@, self.participant2()@)
        })
        &&& (self.pending_local matches Some(p) ==> {
            &&& self.status == ChannelStatus::Open
            &&& self.current().precedes(p.state)
            &&& recovers_to(p.state.digest(), p.signature, self.me@)
        })
    }

    /// Whether `after` comes from `before` by one accepted update: a state
    /// that may follow the one in force, signed by both participants, became
    /// the latest agreed state.
    pub open spec fn accepted_update(before: ChannelView, after: ChannelView) -> bool {
        after.last_agreed matches Some(s) && before.current().precedes(s.state) && s.signed_by(
            before.participant1()@,
            before.participant2()@,
        ) && after == before.agreed(s)
    }

    /// Whether each channel of the history comes from the one before it by
    /// one accepted update.
    pub open spec fn accepted_history(history: Seq<ChannelView>) -> bool {
        forall|i: int|
            0 <= i < history.len() - 1 ==> ChannelView::accepted_update(
                #[trigger] history[i],
                history[i + 1],
            )
    }

    /// The status after a closing step was confirmed on chain. A closed
    /// channel stays closed.
    pub open spec fn status_after(self, step: CloseStep) -> ChannelStatus {
        if self.status == ChannelStatus::Closed {
            ChannelStatus::Closed
        } else {
            match step {
                CloseStep::Cooperative => ChannelStatus::Closed,
                CloseStep::Initiate => ChannelStatus::Closing,
                CloseStep::Challenge => ChannelStatus::Closing,
                CloseStep::Finalize => ChannelStatus::Closed,
            }
        }
    }

    /// The channel with its status moved to `status`; a proposal in flight
    /// is dropped once the channel is no longer open.
    pub open spec fn moved_to(self, status: ChannelStatus) -> ChannelView {
        ChannelView {
            status,
            pending_local: if status == ChannelStatus::Open {
                self.pending_local
            } else {
                None
            },
            ..self
        }
    }

    /// Whether the local participant holds a signed state that supersedes
    /// the one posted on chain.
    pub open spec fn supersedes(self, record: ChannelInfo) -> bool {
        self.last_agreed matches Some(s) && s.state.nonce > record.nonce@
    }
}

/// An accepted update keeps the invariant.
pub proof fn lemma_update_keeps_invariant(before: ChannelView, after: ChannelView)
    requires
        before.wf(),
        ChannelView::accepted_update(before, after),
    ensures
        after.wf(),
{
}

/// Conservation: in a channel that meets its invariant the two balances in
/// force add up to the sum of the deposits.
pub proof fn lemma_conservation(channel: ChannelView)
    requires
        channel.wf(),
    ensures
        channel.current().total() == channel.opening.total(),
{
}

/// Conservation over a history: after any sequence of accepted updates the
/// two balances add up to the sum of the deposits.
pub proof fn lemma_conservation_throughout(history: Seq<ChannelView>, i: int)
    requires
        history.len() > 0,
        history[0].wf(),
        ChannelView::accepted_history(history),
        0 <= i < history.len(),
    ensures
        history[i].wf(),
        history[i].opening == history[0].opening,
        history[i].current().total() == history[0].opening.total(),
    decreases i,
{
    if i > 0 {
        lemma_conservation_throughout(history, i - 1);
        assert(ChannelView::accepted_update(history[i - 1], history[i]));
    }
}

/// Nonce monotonicity: along a history of accepted updates the nonce in
/// force grows strictly, so no two states of the history share a nonce.
pub proof fn lemma_nonce_strictly_increasing(history: Seq<ChannelView>, i: int, j: int)
    requires
        ChannelView::accepted_history(history),
        0 <= i < j < history.len(),
    ensures
        history[i].current().nonce < history[j].current().nonce,
    decreases j - i,
{
    assert(ChannelView::accepted_update(history[j - 1], history[j]));
    if i < j - 1 {
        lemma_nonce_strictly_increasing(history, i, j - 1);
    }
}

/// No two states of a history of accepted updates share a nonce.
pub proof fn lemma_nonces_distinct(history: Seq<ChannelView>, i: int, j: int)
    requires
        ChannelView::accepted_history(history),
        0 <= i < history.len(),
        0 <= j < history.len(),
        i != j,
    ensures
        history[i].current().nonce != history[j].current().nonce,
{
    if i < j {
        lemma_nonce_strictly_increasing(history, i, j);
    } else {
        lemma_nonce_strictly_increasing(history, j, i);
    }
}

/// Signature soundness: in a channel that meets its invariant each
/// signature of the latest agreed state is canonical and recovers, over the
/// state's digest, to the participant of its slot.
pub proof fn lemma_signatures_sound(channel: ChannelView)
    requires
        channel.wf(),
    ensures
        channel.last_agreed matches Some(s) ==> recovers_to(
            s.state.digest(),
            s.sig1,
            channel.participant1()@,
        ) && recovers_to(s.state.digest(), s.sig2, channel.participant2()@),
{
}

/// What the acceptor of a proposal hands back.
#[derive(Clone, Copy, Debug)]
pub struct Acceptance {
    /// The acceptor's signature over the proposed state.
    pub signature: [u8; 65],
    /// The acceptor's own proposal for the same nonce, where it had one in
    /// flight and lost: to be proposed again on top of the accepted state.
    pub retracted: Option<ChannelState>,
}

/// The arguments of the three transactions that post a signed state.
#[derive(Clone, Copy, Debug)]
pub struct CloseRequest {
    pub counterparty: Address,
    pub balance1: U256,
    pub balance2: U256,
    pub nonce: U256,
    pub sig1: [u8; 65],
    pub sig2: [u8; 65],
}

impl CloseRequest {
    /// Whether the request posts the signed state `s` against `peer`.
    pub open spec fn posts(self, s: SignedView, peer: Address) -> bool {
        &&& self.counterparty@ == peer@
        &&& self.balance1@ == s.state.balance1
        &&& self.balance2@ == s.state.balance2
        &&& self.nonce@ == s.state.nonce
        &&& self.sig1@ == s.sig1
        &&& self.sig2@ == s.sig2
    }
}

/// The on-chain steps that close a channel.
#[derive(Clone, Copy, Debug, PartialEq, Eq, Structural)]
pub enum CloseStep {
    /// Both parties settle on the latest signed state.
    Cooperative,
    /// One party posts its latest signed state and opens the challenge
    /// window.
    Initiate,
    /// A party replaces the posted state by one of a higher nonce.
    Challenge,
    /// The posted state is paid out after the challenge window.
    Finalize,
}

/// What the watchtower asks for after it looked at the on-chain record.
#[derive(Clone, Copy, Debug)]
pub enum WatchAction {
    /// Nothing is to be done: the channel is not being closed.
    Idle,
    /// The posted state is stale: challenge it with the request.
    Challenge(CloseRequest),
    /// The challenge window has ended: finalize against the counterparty.
    Finalize(Address),
    /// The posted state stands: finalize once the time given is reached.
    Wait(U256),
    /// The channel is closed on chain.
    Settled,
}

/// The latest time for the first look at a channel that is being closed:
/// the end of the challenge window less the safety margin, and zero where
/// the margin is the larger.
pub fn check_deadline(challenge_end: &U256, margin: &U256) -> (r: U256)
    ensures
        r@ == if challenge_end@ >= margin@ {
            challenge_end@ - margin@
        } else {
            0
        },
{
    match challenge_end.checked_sub(margin) {
        Some(d) => d,
        None => U256::zero(),
    }
}

/// The bytes of an address that may be missing.
pub open spec fn bytes_of(address: Option<Address>) -> Option<Seq<u8>> {
    match address {
        Some(a) => Some(a@),
        None => None,
    }
}

impl Channel {
    /// The local participant.
    pub fn me(&self) -> (r: Address)
        ensures
            r == self@.me,
    {
        self.me
    }

    /// The counterparty.
    pub fn peer(&self) -> (r: Address)
        ensures
            r == self@.peer,
    {
        self.peer
    }

    /// The identifier of the channel.
    pub fn channel_id(&self) -> (r: [u8; 32])
        ensures
            r@ == self@.opening.channel_id,
    {
        self.opening.channel_id
    }

    /// Where the local participant believes the channel to stand.
    pub fn status(&self) -> (r: ChannelStatus)
        ensures
            r == self@.status,
    {
        self.status
    }

    /// Whether the local participant is participant 1.
    pub fn is_first(&self) -> (r: bool)
        ensures
            r == self@.local_is_first(),
    {
        self.me.lt(&self.peer)
    }

    /// The state in force.
    pub fn current(&self) -> (r: ChannelState)
        ensures
            r@ == self@.current(),
    {
        match self.last_agreed {
            Some(s) => s.state,
            None => self.opening,
        }
    }

    /// The latest state that both participants signed.
    pub fn last_agreed(&self) -> (r: Option<SignedState>)
        ensures
            match r {
                Some(s) => self@.last_agreed == Some(s@),
                None => self@.last_agreed is None,
            },
    {
        self.last_agreed
    }

    /// The local proposal in flight.
    pub fn pending_local(&self) -> (r: Option<Proposal>)
        ensures
            match r {
                Some(p) => self@.pending_local == Some(p@),
                None => self@.pending_local is None,
            },
    {
        self.pending_local
    }

    /// The nonce that the next update carries; `None` where the nonce in
    /// force is the largest there is.
    pub fn nonce_next(&self) -> (r: Option<U256>)
        ensures
            match r {
                Some(n) => n@ == self@.current().nonce + 1,
                None => self@.current().nonce + 1 == crate::word::modulus(),
            },
    {
        self.current().nonce.successor()
    }

    /// Opens the local view of the channel between `me` and `peer`: the
    /// identifier is derived from the two addresses, each deposit goes to the
    /// slot of its owner, and the nonce is 0.
    pub fn open(me: Address, peer: Address, my_deposit: U256, their_deposit: U256) -> (r: Channel)
        ensures
            r@.wf(),
            r@ == ChannelView::opened(me, peer, my_deposit@, their_deposit@),
    {
        let id = channel_id(&me, &peer);
        let first = me.lt(&peer);
        let opening = ChannelState {
            channel_id: id,
            balance1: if first {
                my_deposit
            } else {
                their_deposit
            },
            balance2: if first {
                their_deposit
            } else {
                my_deposit
            },
            nonce: U256::zero(),
        };
        Channel {
            me,
            peer,
            opening,
            last_agreed: None,
            pending_local: None,
            status: ChannelStatus::Open,
        }
    }

    /// Takes up a channel again from its deposits and the latest signed
    /// state that was kept. The state is checked as on the day it was agreed:
    /// it belongs to the channel, keeps the total, has a nonce above 0 and
    /// carries the signatures of both participants.
    pub fn resume(
        me: Address,
        peer: Address,
        my_deposit: U256,
        their_deposit: U256,
        latest: SignedState,
    ) -> (r: std::result::Result<Channel, SynapseError>)
        ensures
            match r {
                Ok(c) => {
                    &&& ChannelView::resumable(me, peer, my_deposit@, their_deposit@, latest@)
                    &&& c@.wf()
                    &&& c@ == ChannelView::opened(me, peer, my_deposit@, their_deposit@).agreed(
                        latest@,
                    )
                },
                Err(e) => ChannelView::resume_refused(
                    me,
                    peer,
                    my_deposit@,
                    their_deposit@,
                    latest@,
                    e,
                ),
            },
    {
        let mut channel = Channel::open(me, peer, my_deposit, their_deposit);
        if !crate::codec::bytes_equal(&latest.state.channel_id, &channel.opening.channel_id) {
            return Err(SynapseError::ChannelNotFound);
        }
        if !channel.opening.same_total(&latest.state) || latest.state.nonce.is_zero() {
            return Err(SynapseError::InvalidStateTransition);
        }
        let digest = latest.state.digest();
        let first = channel.is_first();
        let lower = if first {
            me
        } else {
            peer
        };
        let upper = if first {
            peer
        } else {
            me
        };
        if verify(&digest, &latest.sig1, &lower).is_err() {
            return Err(SynapseError::InvalidSignature);
        }
        if verify(&digest, &latest.sig2, &upper).is_err() {
            return Err(SynapseError::InvalidSignature);
        }
        channel.last_agreed = Some(latest);
        Ok(channel)
    }

    /// The state that a proposal of the two balances would carry, where the
    /// local participant may propose now: the channel is open, no proposal is
    /// in flight, the nonce has a successor and the total is kept.
    pub fn draft(&self, balance1: U256, balance2: U256) -> (r: std::result::Result<
        ChannelState,
        SynapseError,
    >)
        requires
            self@.wf(),
        ensures
            self@.drafts(balance1@, balance2@, r),
    {
        if self.status != ChannelStatus::Open {
            return Err(SynapseError::ChannelNotOpen);
        }
        if self.pending_local.is_some() {
            return Err(SynapseError::InvalidStateTransition);
        }
        let current = self.current();
        let state = ChannelState {
            channel_id: self.opening.channel_id,
            balance1,
            balance2,
            nonce: match current.nonce.successor() {
                Some(n) => n,
                None => {
                    return Err(SynapseError::InvalidStateTransition);
                },
            },
        };
        match current.check_successor(&state) {
            Ok(()) => Ok(state),
            Err(_) => Err(SynapseError::InvalidStateTransition),
        }
    }

    /// Decides on a state that the counterparty proposes, given the address
    /// that the signature on it recovers to (`None` where it recovers to
    /// none). The checks are made in this order: the channel is open; the
    /// state belongs to it; the state may follow the one in force; the signer
    /// is the counterparty; no local proposal outranks the incoming one.
    pub fn vet(&self, state: &ChannelState, sender: Option<Address>) -> (r: std::result::Result<
        (),
        SynapseError,
    >)
        requires
            self@.wf(),
        ensures
            self@.vets(state@, bytes_of(sender), r),
    {
        if self.status != ChannelStatus::Open {
            return Err(SynapseError::ChannelNotOpen);
        }
        let current = self.current();
        match current.check_successor(state) {
            Ok(()) => {},
            Err(e) => {
                return Err(e);
            },
        }
        match sender {
            Some(a) => {
                if a != self.peer {
                    return Err(SynapseError::InvalidSignature);
                }
            },
            None => {
                return Err(SynapseError::InvalidSignature);
            },
        }
        if self.pending_local.is_some() && self.is_first() {
            return Err(SynapseError::InvalidStateTransition);
        }
        Ok(())
    }

    /// Decides on the counterparty's answer to the local proposal in flight,
    /// given the address that the signature in the answer recovers to over
    /// the proposed state (`None` where it recovers to none), and returns the
    /// proposal that the answer completes.
    pub fn vet_reply(&self, sender: Option<Address>) -> (r: std::result::Result<
        Proposal,
        SynapseError,
    >)
        ensures
            self@.vets_reply(bytes_of(sender), r),
    {
        if self.status != ChannelStatus::Open {
            return Err(SynapseError::ChannelNotOpen);
        }
        let pending = match self.pending_local {
            Some(p) => p,
            None => {
                return Err(SynapseError::InvalidStateTransition);
            },
        };
        match sender {
            Some(a) => {
                if a != self.peer {
                    return Err(SynapseError::InvalidSignature);
                }
            },
            None => {
                return Err(SynapseError::InvalidSignature);
            },
        }
        Ok(pending)
    }

    /// Signs `state` for the local participant with `signer`.
    fn sign(&self, signer: &Signer, state: &ChannelState) -> (r: std::result::Result<
        [u8; 65],
        SynapseError,
    >)
        ensures
            match r {
                Ok(s) => self@.signs(signer.key(), signer.spec_address(), state@) == Some(s@),
                Err(e) => e is WalletError && self@.signs(
                    signer.key(),
                    signer.spec_address(),
                    state@,
                ) is None,
            },
    {
        if signer.address() != self.me {
            return Err(
                SynapseError::WalletError("the signer is not the local participant".to_owned()),
            );
        }
        let digest = state.digest();
        signer.sign_digest(&digest)
    }

    /// Proposes an update to the two balances. The proposal carries the
    /// next nonce and the local signature, and is kept as the proposal in
    /// flight until the counterparty answers.
    pub fn propose(&mut self, signer: &Signer, balance1: U256, balance2: U256) -> (r:
        std::result::Result<Proposal, SynapseError>)
        requires
            old(self)@.wf(),
        ensures
            final(self)@.wf(),
            old(self)@.proposes(
                signer.key(),
                signer.spec_address(),
                balance1@,
                balance2@,
                r,
                final(self)@,
            ),
    {
        let state = match self.draft(balance1, balance2) {
            Ok(s) => s,
            Err(e) => {
                return Err(e);
            },
        };
        let signature = match self.sign(signer, &state) {
            Ok(s) => s,
            Err(e) => {
                return Err(e);
            },
        };
        let proposal = Proposal { state, signature };
        self.pending_local = Some(proposal);
        Ok(proposal)
    }

    /// Answers a proposal of the counterparty. Where the proposal
    /// passes, the local participant signs it and it becomes the latest
    /// agreed state; a local proposal in flight for the same nonce is dropped
    /// and handed back. On any failure the channel is left as it was.
    pub fn accept(&mut self, signer: &Signer, proposal: &Proposal) -> (r: std::result::Result<
        Acceptance,
        SynapseError,
    >)
        requires
            old(self)@.wf(),
        ensures
            final(self)@.wf(),
            old(self)@.accepts(signer.key(), signer.spec_address(), proposal@, r, final(self)@),
    {
        let digest = proposal.state.digest();
        let sender = match recover(&digest, &proposal.signature) {
            Ok(a) => Some(a),
            Err(_) => None,
        };
        match self.vet(&proposal.state, sender) {
            Ok(()) => {},
            Err(e) => {
                return Err(e);
            },
        }
        let signature = match self.sign(signer, &proposal.state) {
            Ok(s) => s,
            Err(e) => {
                return Err(e);
            },
        };
        let retracted = match self.pending_local {
            Some(p) => Some(p.state),
            None => None,
        };
        let signed = if self.is_first() {
            SignedState { state: proposal.state, sig1: signature, sig2: proposal.signature }
        } else {
            SignedState { state: proposal.state, sig1: proposal.signature, sig2: signature }
        };
        self.last_agreed = Some(signed);
        self.pending_local = None;
        Ok(Acceptance { signature, retracted })
    }

    /// Completes the local proposal in flight with the counterparty's
    /// signature: the proposal becomes the latest agreed state. On any
    /// failure the channel is left as it was.
    pub fn commit(&mut self, peer_signature: &[u8; 65]) -> (r: std::result::Result<
        SignedState,
        SynapseError,
    >)
        requires
            old(self)@.wf(),
        ensures
            final(self)@.wf(),
            old(self)@.commits(peer_signature@, r, final(self)@),
    {
        let sender = match self.pending_local {
            Some(p) => {
                let digest = p.state.digest();
                match recover(&digest, peer_signature) {
                    Ok(a) => Some(a),
                    Err(_) => None,
                }
            },
            None => None,
        };
        let pending = match self.vet_reply(sender) {
            Ok(p) => p,
            Err(e) => {
                return Err(e);
            },
        };
        let signed = if self.is_first() {
            SignedState { state: pending.state, sig1: pending.signature, sig2: *peer_signature }
        } else {
            SignedState { state: pending.state, sig1: *peer_signature, sig2: pending.signature }
        };
        self.last_agreed = Some(signed);
        self.pending_local = None;
        Ok(signed)
    }

    /// Gives up the local proposal in flight, as after a timeout of the
    /// exchange, and returns the state it carried.
    pub fn abandon(&mut self) -> (r: Option<ChannelState>)
        requires
            old(self)@.wf(),
        ensures
            final(self)@.wf(),
            final(self)@ == (ChannelView { pending_local: None, ..old(self)@ }),
            match r {
                Some(s) => old(self)@.pending_local matches Some(p) && p.state == s@,
                None => old(self)@.pending_local is None,
            },
    {
        let r = match self.pending_local {
            Some(p) => Some(p.state),
            None => None,
        };
        self.pending_local = None;
        r
    }

    /// The request that posts the latest agreed state.
    fn request(&self, signed: &SignedState) -> (r: CloseRequest)
        ensures
            r.posts(signed@, self@.peer),
    {
        CloseRequest {
            counterparty: self.peer,
            balance1: signed.state.balance1,
            balance2: signed.state.balance2,
            nonce: signed.state.nonce,
            sig1: signed.sig1,
            sig2: signed.sig2,
        }
    }

    /// The request that posts the latest agreed state of an open channel.
    fn request_latest(&self) -> (r: std::result::Result<CloseRequest, SynapseError>)
        ensures
            self@.posts_latest(r),
    {
        if self.status != ChannelStatus::Open {
            return Err(SynapseError::ChannelNotOpen);
        }
        match self.last_agreed {
            Some(s) => Ok(self.request(&s)),
            None => Err(SynapseError::InvalidStateTransition),
        }
    }

    /// What to submit to settle the channel with the counterparty's consent:
    /// the latest agreed state with both signatures. Needs an open channel
    /// and a signed state.
    pub fn close_cooperative(&self) -> (r: std::result::Result<CloseRequest, SynapseError>)
        ensures
            self@.posts_latest(r),
    {
        self.request_latest()
    }

    /// What to submit to close the channel without the counterparty: the
    /// latest agreed state with both signatures, which opens the challenge
    /// window. Needs an open channel and a signed state.
    pub fn close_initiate(&self) -> (r: std::result::Result<CloseRequest, SynapseError>)
        ensures
            self@.posts_latest(r),
    {
        self.request_latest()
    }

    /// Whether an on-chain record is that of this channel.
    pub fn owns(&self, record: &ChannelInfo) -> (r: bool)
        ensures
            r == self@.owns(*record),
    {
        let first = self.is_first();
        let lower = if first {
            self.me
        } else {
            self.peer
        };
        let upper = if first {
            self.peer
        } else {
            self.me
        };
        record.participant1 == lower && record.participant2 == upper
    }

    /// What to submit against a state posted on chain: the latest agreed
    /// state, where the record is being closed and the local nonce is
    /// strictly the higher.
    pub fn challenge(&self, record: &ChannelInfo) -> (r: std::result::Result<
        CloseRequest,
        SynapseError,
    >)
        requires
            self@.wf(),
        ensures
            self@.challenges(*record, r),
    {
        if !self.owns(record) {
            return Err(SynapseError::ChannelNotFound);
        }
        if record.status != ChannelStatus::Closing {
            return Err(SynapseError::InvalidStateTransition);
        }
        match self.last_agreed {
            Some(s) => {
                if record.nonce.lt(&s.state.nonce) {
                    Ok(self.request(&s))
                } else {
                    Err(SynapseError::InvalidStateTransition)
                }
            },
            None => Err(SynapseError::InvalidStateTransition),
        }
    }

    /// Whom to finalize against, once the challenge window of the record has
    /// ended. In every other case the transaction would revert and the result
    /// is `TransactionFailed`; so it is for a channel that is closed already.
    pub fn finalize(&self, record: &ChannelInfo, now: &U256) -> (r: std::result::Result<
        Address,
        SynapseError,
    >)
        requires
            self@.wf(),
        ensures
            self@.finalizes(*record, now@, r),
    {
        if !self.owns(record) {
            return Err(SynapseError::ChannelNotFound);
        }
        if self.status == ChannelStatus::Closed || record.status == ChannelStatus::Closed {
            return Err(SynapseError::TransactionFailed("the channel is closed".to_owned()));
        }
        if record.status != ChannelStatus::Closing {
            return Err(
                SynapseError::TransactionFailed("the channel is not being closed".to_owned()),
            );
        }
        if now.lt(&record.challenge_end) {
            return Err(
                SynapseError::TransactionFailed("the challenge window has not ended".to_owned()),
            );
        }
        Ok(self.peer)
    }

    /// Takes note of what came of a closing step. A failure is handed on as
    /// it is and leaves the channel as it was; a success moves the status on.
    /// The states and balances held are never touched.
    pub fn confirm(
        &mut self,
        step: CloseStep,
        outcome: std::result::Result<H256, SynapseError>,
    ) -> (r: std::result::Result<H256, SynapseError>)
        requires
            old(self)@.wf(),
        ensures
            final(self)@.wf(),
            r == outcome,
            final(self)@ == old(self)@.confirmed(step, outcome is Ok),
    {
        match outcome {
            Ok(hash) => {
                if self.status != ChannelStatus::Closed {
                    self.status = match step {
                        CloseStep::Cooperative => ChannelStatus::Closed,
                        CloseStep::Initiate => ChannelStatus::Closing,
                        CloseStep::Challenge => ChannelStatus::Closing,
                        CloseStep::Finalize => ChannelStatus::Closed,
                    };
                    self.pending_local = None;
                }
                Ok(hash)
            },
            Err(e) => Err(e),
        }
    }

    /// Brings the local status up to the on-chain record. The status only
    /// moves forward: an older record changes nothing.
    pub fn reconcile(&mut self, record: &ChannelInfo) -> (r: std::result::Result<
        (),
        SynapseError,
    >)
        requires
            old(self)@.wf(),
        ensures
            final(self)@.wf(),
            old(self)@.reconciles(*record, r, final(self)@),
    {
        if !self.owns(record) {
            return Err(SynapseError::ChannelNotFound);
        }
        let ahead = match record.status {
            ChannelStatus::Absent => false,
            ChannelStatus::Open => false,
            ChannelStatus::Closing => self.status == ChannelStatus::Open,
            ChannelStatus::Closed => self.status != ChannelStatus::Closed,
        };
        if ahead {
            self.status = record.status;
            self.pending_local = None;
        }
        Ok(())
    }

    /// The watchtower's look at the on-chain record at time `now`. While
    /// the record is being closed: a posted state below the local nonce is
    /// challenged as long as the window is open; once the window has ended
    /// the channel is finalized; otherwise the posted state stands until the
    /// window ends.
    pub fn watch(&self, record: &ChannelInfo, now: &U256) -> (r: std::result::Result<
        WatchAction,
        SynapseError,
    >)
        requires
            self@.wf(),
        ensures
            self@.watches(*record, now@, r),
    {
        if !self.owns(record) {
            return Err(SynapseError::ChannelNotFound);
        }
        match record.status {
            ChannelStatus::Absent => Ok(WatchAction::Idle),
            ChannelStatus::Open => Ok(WatchAction::Idle),
            ChannelStatus::Closed => Ok(WatchAction::Settled),
            ChannelStatus::Closing => {
                if !now.lt(&record.challenge_end) {
                    Ok(WatchAction::Finalize(self.peer))
                } else {
                    match self.last_agreed {
                        Some(s) => {
                            if record.nonce.lt(&s.state.nonce) {
                                Ok(WatchAction::Challenge(self.request(&s)))
                            } else {
                                Ok(WatchAction::Wait(record.challenge_end))
                            }
                        },
                        None => Ok(WatchAction::Wait(record.challenge_end)),
                    }
                }
            },
        }
    }
}

impl ChannelView {
    /// Whether a kept signed state can be taken up again for the channel
    /// between `me` and `peer` with the deposits given: it belongs to the
    /// channel, keeps the total, has a nonce above 0 and carries the
    /// signatures of both participants.
    pub open spec fn resumable(
        me: Address,
        peer: Address,
        mine: nat,
        theirs: nat,
        latest: SignedView,
    ) -> bool {
        let fresh = ChannelView::opened(me, peer, mine, theirs);
        &&& latest.state.channel_id == fresh.opening.channel_id
        &&& latest.state.total() == fresh.opening.total()
        &&& latest.state.nonce >= 1
        &&& latest.signed_by(fresh.participant1()@, fresh.participant2()@)
    }

    /// Whether `e` is the error with which a kept signed state that cannot
    /// be taken up again is refused.
    pub open spec fn resume_refused(
        me: Address,
        peer: Address,
        mine: nat,
        theirs: nat,
        latest: SignedView,
        e: SynapseError,
    ) -> bool {
        let fresh = ChannelView::opened(me, peer, mine, theirs);
        if latest.state.channel_id != fresh.opening.channel_id {
            e is ChannelNotFound
        } else if latest.state.total() != fresh.opening.total() || latest.state.nonce == 0 {
            e is InvalidStateTransition
        } else {
            e is InvalidSignature && !latest.signed_by(
                fresh.participant1()@,
                fresh.participant2()@,
            )
        }
    }

    /// What asking for the state of a proposal of the two balances comes to.
    pub open spec fn drafts(
        self,
        balance1: nat,
        balance2: nat,
        r: std::result::Result<ChannelState, SynapseError>,
    ) -> bool {
        match r {
            Ok(s) => self.may_propose(balance1, balance2) && s@ == self.successor(
                balance1,
                balance2,
            ),
            Err(e) => if self.status != ChannelStatus::Open {
                e is ChannelNotOpen
            } else {
                e is InvalidStateTransition && !self.may_propose(balance1, balance2)
            },
        }
    }

    /// Whether a state that the counterparty proposes passes, given
    /// the address that the signature on it recovers to.
    pub open spec fn acceptable(self, state: StateView, sender: Option<Seq<u8>>) -> bool {
        &&& self.status == ChannelStatus::Open
        &&& self.current().precedes(state)
        &&& sender == Some(self.peer@)
        &&& !self.outranks_incoming()
    }

    /// What deciding on a state that the counterparty proposes comes to.
    pub open spec fn vets(
        self,
        state: StateView,
        sender: Option<Seq<u8>>,
        r: std::result::Result<(), SynapseError>,
    ) -> bool {
        match r {
            Ok(()) => self.acceptable(state, sender),
            Err(e) => if self.status != ChannelStatus::Open {
                e is ChannelNotOpen
            } else if state.channel_id != self.opening.channel_id {
                e is ChannelNotFound
            } else if !self.current().precedes(state) {
                e is InvalidStateTransition
            } else if sender != Some(self.peer@) {
                e is InvalidSignature
            } else {
                e is InvalidStateTransition && self.outranks_incoming()
            },
        }
    }

    /// What deciding on the counterparty's answer to the proposal in flight
    /// comes to.
    pub open spec fn vets_reply(
        self,
        sender: Option<Seq<u8>>,
        r: std::result::Result<Proposal, SynapseError>,
    ) -> bool {
        match r {
            Ok(p) => {
                &&& self.status == ChannelStatus::Open
                &&& self.pending_local == Some(p@)
                &&& sender == Some(self.peer@)
            },
            Err(e) => if self.status != ChannelStatus::Open {
                e is ChannelNotOpen
            } else if self.pending_local is None {
                e is InvalidStateTransition
            } else {
                e is InvalidSignature && sender != Some(self.peer@)
            },
        }
    }

    /// The signature of the local participant over `state`, made with a
    /// signer of the key and address given: none where the signer is not the
    /// local participant or gives no sound signature.
    pub open spec fn signs(self, key: Seq<u8>, address: Seq<u8>, state: StateView) -> Option<
        Seq<u8>,
    > {
        if address == self.me@ {
            signing_outcome(key, address, state.digest())
        } else {
            None
        }
    }

    /// What proposing the two balances comes to, with a signer of the key
    /// and address given: the result `r` and the channel `after`.
    pub open spec fn proposes(
        self,
        key: Seq<u8>,
        address: Seq<u8>,
        balance1: nat,
        balance2: nat,
        r: std::result::Result<Proposal, SynapseError>,
        after: ChannelView,
    ) -> bool {
        let state = self.successor(balance1, balance2);
        match r {
            Ok(p) => {
                &&& self.may_propose(balance1, balance2)
                &&& p@.state == state
                &&& self.signs(key, address, state) == Some(p@.signature)
                &&& after == (ChannelView { pending_local: Some(p@), ..self })
            },
            Err(e) => {
                &&& after == self
                &&& if self.may_propose(balance1, balance2) {
                    e is WalletError && self.signs(key, address, state) is None
                } else {
                    self.drafts(balance1, balance2, Err(e))
                }
            },
        }
    }

    /// What answering a proposal of the counterparty comes to, with a signer
    /// of the key and address given: the result `r` and the channel `after`.
    pub open spec fn accepts(
        self,
        key: Seq<u8>,
        address: Seq<u8>,
        proposal: ProposalView,
        r: std::result::Result<Acceptance, SynapseError>,
        after: ChannelView,
    ) -> bool {
        let sender = recovered_address(proposal.state.digest(), proposal.signature);
        match r {
            Ok(a) => {
                &&& self.acceptable(proposal.state, sender)
                &&& self.signs(key, address, proposal.state) == Some(a.signature@)
                &&& after == self.agreed(
                    self.signed(proposal.state, a.signature@, proposal.signature),
                )
                &&& ChannelView::accepted_update(self, after)
                &&& match a.retracted {
                    Some(s) => self.pending_local matches Some(p) && p.state == s@,
                    None => self.pending_local is None,
                }
            },
            Err(e) => {
                &&& after == self
                &&& if self.acceptable(proposal.state, sender) {
                    e is WalletError && self.signs(key, address, proposal.state) is None
                } else {
                    self.vets(proposal.state, sender, Err(e))
                }
            },
        }
    }

    /// What completing the proposal in flight with the counterparty's
    /// signature comes to: the result `r` and the channel `after`.
    pub open spec fn commits(
        self,
        peer_signature: Seq<u8>,
        r: std::result::Result<SignedState, SynapseError>,
        after: ChannelView,
    ) -> bool {
        let sender = match self.pending_local {
            Some(p) => recovered_address(p.state.digest(), peer_signature),
            None => None,
        };
        match r {
            Ok(s) => {
                &&& self.status == ChannelStatus::Open
                &&& sender == Some(self.peer@)
                &&& self.pending_local matches Some(p)
                &&& s@ == self.signed(p.state, p.signature, peer_signature)
                &&& after == self.agreed(s@)
                &&& ChannelView::accepted_update(self, after)
            },
            Err(e) => {
                &&& after == self
                &&& self.vets_reply(sender, Err(e))
            },
        }
    }

    /// What asking for the request that posts the latest agreed state comes
    /// to: the request, for an open channel that has a signed state.
    pub open spec fn posts_latest(
        self,
        r: std::result::Result<CloseRequest, SynapseError>,
    ) -> bool {
        match r {
            Ok(q) => self.status == ChannelStatus::Open && (self.last_agreed matches Some(s)
                && q.posts(s, self.peer)),
            Err(e) => if self.status != ChannelStatus::Open {
                e is ChannelNotOpen
            } else {
                e is InvalidStateTransition && self.last_agreed is None
            },
        }
    }

    /// What asking for a challenge of the record comes to.
    pub open spec fn challenges(
        self,
        record: ChannelInfo,
        r: std::result::Result<CloseRequest, SynapseError>,
    ) -> bool {
        match r {
            Ok(q) => {
                &&& self.owns(record)
                &&& record.status == ChannelStatus::Closing
                &&& self.supersedes(record)
                &&& self.last_agreed matches Some(s) && q.posts(s, self.peer)
            },
            Err(e) => if !self.owns(record) {
                e is ChannelNotFound
            } else {
                e is InvalidStateTransition && !(record.status == ChannelStatus::Closing
                    && self.supersedes(record))
            },
        }
    }

    /// What asking to finalize at time `now` comes to.
    pub open spec fn finalizes(
        self,
        record: ChannelInfo,
        now: nat,
        r: std::result::Result<Address, SynapseError>,
    ) -> bool {
        match r {
            Ok(a) => a == self.peer && self.ready_to_finalize(record, now),
            Err(e) => if !self.owns(record) {
                e is ChannelNotFound
            } else {
                e is TransactionFailed && !self.ready_to_finalize(record, now)
            },
        }
    }

    /// The channel after what came of a closing step was noted: moved on
    /// where the step succeeded, as it was where it failed.
    pub open spec fn confirmed(self, step: CloseStep, succeeded: bool) -> ChannelView {
        if succeeded {
            self.moved_to(self.status_after(step))
        } else {
            self
        }
    }

    /// What bringing the status up to the record comes to: the result `r`
    /// and the channel `after`.
    pub open spec fn reconciles(
        self,
        record: ChannelInfo,
        r: std::result::Result<(), SynapseError>,
        after: ChannelView,
    ) -> bool {
        match r {
            Ok(()) => self.owns(record) && after == if record.status.rank() > self.status.rank() {
                self.moved_to(record.status)
            } else {
                self
            },
            Err(e) => e is ChannelNotFound && !self.owns(record) && after == self,
        }
    }

    /// What the watchtower's look at the record at time `now` comes to.
    pub open spec fn watches(
        self,
        record: ChannelInfo,
        now: nat,
        r: std::result::Result<WatchAction, SynapseError>,
    ) -> bool {
        match r {
            Ok(action) => self.owns(record) && self.watch_calls_for(record, now, action),
            Err(e) => e is ChannelNotFound && !self.owns(record),
        }
    }

    /// Whether finalizing would go through: the record is this channel's, is
    /// being closed, its challenge window has ended, and the channel is not
    /// known to be closed.
    pub open spec fn ready_to_finalize(self, record: ChannelInfo, now: nat) -> bool {
        &&& self.owns(record)
        &&& self.status != ChannelStatus::Closed
        &&& record.status == ChannelStatus::Closing
        &&& now >= record.challenge_end@
    }

    /// Whether `action` is what the watchtower asks for, given the record
    /// and the time.
    pub open spec fn watch_calls_for(
        self,
        record: ChannelInfo,
        now: nat,
        action: WatchAction,
    ) -> bool {
        match record.status {
            ChannelStatus::Absent => action is Idle,
            ChannelStatus::Open => action is Idle,
            ChannelStatus::Closed => action is Settled,
            ChannelStatus::Closing => if now >= record.challenge_end@ {
                action matches WatchAction::Finalize(a) && a == self.peer
            } else if self.supersedes(record) {
                action matches WatchAction::Challenge(q) && (self.last_agreed matches Some(s)
                    && q.posts(s, self.peer))
            } else {
                action matches WatchAction::Wait(t) && t@ == record.challenge_end@
            },
        }
    }
}

/// Finalization is idempotent: for a channel that is closed, finalizing
/// against its own record is refused with `TransactionFailed` whatever the
/// time, and noting the outcome of any closing step, failed or not, leaves
/// the channel and its balances as they were.
pub proof fn lemma_finalize_idempotent(
    channel: ChannelView,
    record: ChannelInfo,
    now: nat,
    r: std::result::Result<Address, SynapseError>,
    step: CloseStep,
    succeeded: bool,
)
    requires
        channel.wf(),
        channel.status == ChannelStatus::Closed,
        channel.owns(record),
        channel.finalizes(record, now, r),
    ensures
        r matches Err(e) && e is TransactionFailed,
        channel.confirmed(step, succeeded) == channel,
{
}

/// The lifecycle only moves forward: neither noting what came of a closing
/// step nor bringing the status up to an on-chain record takes a channel
/// back to an earlier status.
pub proof fn lemma_status_only_advances(
    channel: ChannelView,
    step: CloseStep,
    succeeded: bool,
    record: ChannelInfo,
    r: std::result::Result<(), SynapseError>,
    after: ChannelView,
)
    requires
        channel.wf(),
        channel.reconciles(record, r, after),
    ensures
        channel.confirmed(step, succeeded).status.rank() >= channel.status.rank(),
        after.status.rank() >= channel.status.rank(),
        channel.confirmed(step, succeeded).current() == channel.current(),
        after.current() == channel.current(),
{
}

/// A closed channel is terminal: no update can be proposed on it.
pub proof fn lemma_closed_takes_no_update(channel: ChannelView, balance1: nat, balance2: nat)
    requires
        channel.status == ChannelStatus::Closed,
    ensures
        !channel.may_propose(balance1, balance2),
{
}

} // verus!

//! The client: one signer and its configuration, and what the client
//! computes around its contract calls.
use crate::channel::{
    Acceptance, Channel, ChannelView, CloseRequest, CloseStep, WatchAction,
};
use crate::codec::{keccak256, keccak256_of, Address, H256};
use crate::error::SynapseError;
use crate::signer::{secret_key_of, signing_outcome, Signer};
use crate::state::{ChannelState, Proposal, SignedState, StateView};
use crate::text::{
    batch_prefix, ether_amount, ether_text, format_batch_prefix, format_ether, format_payment_id,
    is_safe_to_scale, parse_ether, payment_id_text, safe_to_scale,
};
use crate::types::{ChannelInfo, ChannelStatus, Config, ContractAddresses, Receipt};
use crate::word::U256;
use vstd::prelude::*;
use vstd::string::StringSliceAdditionalSpecFns;

verus! {

/// A client of the protocol: the signer of one account, the configuration
/// it works under, and the channels of that account, one for each
/// counterparty.
pub struct SynapseClient {
    signer: Signer,
    config: Config,
    channels: Vec<Channel>,
}

/// Whether two lists of channels differ at most at index `i`.
pub open spec fn same_but_at(before: Seq<ChannelView>, after: Seq<ChannelView>, i: int) -> bool {
    &&& after.len() == before.len()
    &&& forall|j: int| 0 <= j < before.len() && j != i ==> after[j] == before[j]
}

/// The identifier of a payment: the hash of the text made of the prefix, the
/// time and the sender.
pub open spec fn payment_id_of(prefix: Seq<char>, timestamp: nat, sender: Seq<u8>) -> Seq<u8> {
    keccak256_of(vstd::utf8::encode_utf8(payment_id_text(prefix, timestamp, sender)))
}

/// What parsing an amount gives: text that is not ASCII, or that is not
/// safe to scale, is refused unread; any other is read as a decimal number of
/// whole tokens.
pub open spec fn parsed_amount(text: Seq<char>) -> Option<nat> {
    if vstd::utf8::is_ascii_chars(text) && safe_to_scale(vstd::utf8::encode_utf8(text)) {
        match ether_amount(text) {
            Ok(v) => Some(v),
            Err(_) => None,
        }
    } else {
        None
    }
}

/// Whatever amount is written out is read back by the parser: the text that
/// `format_synx` gives is never refused unread.
pub proof fn lemma_formatted_amount_is_read(amount: nat)
    ensures
        parsed_amount(ether_text(amount)) == match ether_amount(ether_text(amount)) {
            Ok(v) => Some(v),
            Err(_) => None::<nat>,
        },
{
    crate::text::lemma_ether_text_is_safe(amount);
}

impl SynapseClient {
    /// The signer of the client.
    pub closed spec fn signer(&self) -> Signer {
        self.signer
    }

    /// The configuration of the client.
    pub closed spec fn config(&self) -> Config {
        self.config
    }

    /// The channels of the client.
    pub closed spec fn channels(&self) -> Seq<ChannelView> {
        Seq::new(self.channels@.len(), |i: int| self.channels@[i]@)
    }

    /// Whether the channel at index `i` is the one with `peer`.
    pub open spec fn holds(&self, peer: Seq<u8>, i: int) -> bool {
        0 <= i < self.channels().len() && self.channels()[i].peer@ == peer
    }

    /// Whether the client has a channel with `peer`.
    pub open spec fn knows(&self, peer: Seq<u8>) -> bool {
        exists|i: int| self.holds(peer, i)
    }

    /// The invariant of a client: the signer is sound, each channel meets
    /// its own invariant and is a channel of the client's account, and no two
    /// channels have the same counterparty.
    pub open spec fn wf(&self) -> bool {
        &&& self.signer().wf()
        &&& forall|i: int|
            0 <= i < self.channels().len() ==> (#[trigger] self.channels()[i]).wf()
                && self.channels()[i].me@ == self.signer().spec_address()
        &&& forall|i: int, j: int|
            0 <= i < j < self.channels().len() ==> (#[trigger] self.channels()[i]).peer@ != (
            #[trigger] self.channels()[j]).peer@
    }

    /// Whether `self` and `before` are one client but for its channels.
    pub open spec fn same_account(&self, before: &SynapseClient) -> bool {
        self.signer() == before.signer() && self.config() == before.config()
    }

    /// A client for the chain `chain_id`, reached at `rpc_url`, that signs
    /// with the key that `private_key` holds in hexadecimal. A text that
    /// holds no valid key is refused with `ConfigError`.
    pub fn new(rpc_url: &str, chain_id: u64, private_key: &str, contracts: ContractAddresses) -> (r:
        std::result::Result<SynapseClient, SynapseError>)
        ensures
            match r {
                Ok(c) => {
                    &&& c.wf()
                    &&& c.channels().len() == 0
                    &&& secret_key_of(private_key@) == Ok::<Seq<u8>, Seq<char>>(c.signer().key())
                    &&& c.config().rpc_url@ == rpc_url@
                    &&& c.config().chain_id == chain_id
                    &&& c.config().contracts == contracts
                },
                Err(e) => e is ConfigError && match secret_key_of(private_key@) {
                    Ok(k) => crate::signer::key_address(k) is None,
                    Err(m) => e->ConfigError_0@ == m,
                },
            },
    {
        let signer = match Signer::from_hex(private_key) {
            Ok(s) => s,
            Err(message) => {
                return Err(SynapseError::ConfigError(message));
            },
        };
        let config = Config { rpc_url: rpc_url.to_owned(), chain_id, contracts };
        Ok(SynapseClient { signer, config, channels: Vec::new() })
    }

    /// The address of the client's account.
    pub fn address(&self) -> (r: Address)
        ensures
            r@ == self.signer().spec_address(),
    {
        self.signer.address()
    }

    /// The identifier of the chain that the client works on.
    pub fn chain_id(&self) -> (r: u64)
        ensures
            r == self.config().chain_id,
    {
        self.config.chain_id
    }

    /// The addresses of the protocol contracts.
    pub fn contracts(&self) -> (r: ContractAddresses)
        ensures
            r == self.config().contracts,
    {
        self.config.contracts
    }

    /// The signer of the client, to sign channel updates with.
    pub fn signer_ref(&self) -> (r: &Signer)
        ensures
            *r == self.signer(),
    {
        &self.signer
    }

    /// The index of the channel with `peer`.
    fn find(&self, peer: &Address) -> (r: Option<usize>)
        ensures
            match r {
                Some(i) => self.holds(peer@, i as int),
                None => !self.knows(peer@),
            },
    {
        let mut i: usize = 0;
        while i < self.channels.len()
            invariant
                i <= self.channels@.len(),
                forall|j: int| 0 <= j < i ==> !self.holds(peer@, j),
            decreases self.channels@.len() - i,
        {
            if self.channels[i].peer() == *peer {
                return Some(i);
            }
            i += 1;
        }
        None
    }

    /// How many channels the client has.
    pub fn channel_count(&self) -> (r: usize)
        ensures
            r == self.channels().len(),
    {
        self.channels.len()
    }

    /// The channel with `counterparty`.
    pub fn channel(&self, counterparty: &Address) -> (r: Option<&Channel>)
        ensures
            match r {
                Some(c) => exists|i: int|
                    self.holds(counterparty@, i) && c@ == self.channels()[i],
                None => !self.knows(counterparty@),
            },
    {
        match self.find(counterparty) {
            Some(i) => {
                assert(self.holds(counterparty@, i as int));
                Some(&self.channels[i])
            },
            None => None,
        }
    }

    /// Whether a channel with `peer` can be put in place: the client has
    /// none with it, or the one it has is closed.
    pub open spec fn may_open(&self, peer: Seq<u8>) -> bool {
        forall|i: int| self.holds(peer, i) ==> self.channels()[i].status == ChannelStatus::Closed
    }

    /// Checks, before a channel with `counterparty` is opened on chain, that
    /// its local view can be opened afterwards: a channel with it that is not
    /// closed stands in the way and is reported as `InvalidStateTransition`.
    pub fn check_open(&self, counterparty: &Address) -> (r: std::result::Result<(), SynapseError>)
        requires
            self.wf(),
        ensures
            r is Ok <==> self.may_open(counterparty@),
            r matches Err(e) ==> e is InvalidStateTransition,
    {
        match self.find(counterparty) {
            Some(i) => {
                assert(self.holds(counterparty@, i as int));
                if self.channels[i].status() != ChannelStatus::Closed {
                    Err(SynapseError::InvalidStateTransition)
                } else {
                    assert forall|j: int| self.holds(counterparty@, j) implies j == i as int by {
                        assert(self.channels()[j].peer@ == self.channels()[i as int].peer@);
                    }
                    Ok(())
                }
            },
            None => Ok(()),
        }
    }

    /// What putting a channel in place comes to: the result `r` and the
    /// channels `after`. A closed channel with the same counterparty is
    /// replaced; one that is not closed stands, and the new one is refused
    /// with `InvalidStateTransition`.
    pub open spec fn installs(
        &self,
        fresh: ChannelView,
        r: std::result::Result<[u8; 32], SynapseError>,
        after: Seq<ChannelView>,
    ) -> bool {
        match r {
            Ok(id) => {
                &&& self.may_open(fresh.peer@)
                &&& id@ == fresh.opening.channel_id
                &&& if self.knows(fresh.peer@) {
                    forall|i: int|
                        self.holds(fresh.peer@, i) ==> self.channels()[i].status
                            == ChannelStatus::Closed && after == self.channels().update(i, fresh)
                } else {
                    after == self.channels().push(fresh)
                }
            },
            Err(e) => {
                &&& !self.may_open(fresh.peer@)
                &&& e is InvalidStateTransition
                &&& after == self.channels()
            },
        }
    }

    /// Puts a channel of the client's account in place.
    fn install(&mut self, channel: Channel) -> (r: std::result::Result<[u8; 32], SynapseError>)
        requires
            old(self).wf(),
            channel@.wf(),
            channel@.me@ == old(self).signer().spec_address(),
        ensures
            final(self).wf(),
            final(self).same_account(old(self)),
            old(self).installs(channel@, r, final(self).channels()),
    {
        let peer = channel.peer();
        let id = channel.channel_id();
        match self.find(&peer) {
            Some(i) => {
                assert(old(self).holds(peer@, i as int));
                if self.channels[i].status() != ChannelStatus::Closed {
                    return Err(SynapseError::InvalidStateTransition);
                }
                self.channels[i] = channel;
                assert(self.channels() =~= old(self).channels().update(i as int, channel@));
                Ok(id)
            },
            None => {
                self.channels.push(channel);
                assert(self.channels() =~= old(self).channels().push(channel@));
                assert forall|j: int| 0 <= j < old(self).channels().len() implies old(
                    self,
                ).channels()[j].peer@ != peer@ by {
                    assert(!old(self).holds(peer@, j));
                }
                Ok(id)
            },
        }
    }

    /// Opens the local view of a channel with `counterparty`, once the
    /// channel was opened on chain, and returns its identifier. A closed
    /// channel with the same counterparty is replaced; one that is not
    /// closed stands, and the call is refused with `InvalidStateTransition`.
    pub fn open(&mut self, counterparty: Address, my_deposit: U256, their_deposit: U256) -> (r:
        std::result::Result<[u8; 32], SynapseError>)
        requires
            old(self).wf(),
        ensures
            final(self).wf(),
            final(self).same_account(old(self)),
            old(self).installs(
                ChannelView::opened(
                    old(self).signer().account(),
                    counterparty,
                    my_deposit@,
                    their_deposit@,
                ),
                r,
                final(self).channels(),
            ),
    {
        let me = self.signer.address();
        let channel = Channel::open(me, counterparty, my_deposit, their_deposit);
        self.install(channel)
    }

    /// Takes up the channel with `counterparty` again from its deposits and
    /// the latest signed state that was kept, and returns its identifier. A
    /// state that does not check is refused as `Channel::resume` refuses it,
    /// and nothing changes; one that checks is put in place as by `open`.
    pub fn resume(
        &mut self,
        counterparty: Address,
        my_deposit: U256,
        their_deposit: U256,
        latest: SignedState,
    ) -> (r: std::result::Result<[u8; 32], SynapseError>)
        requires
            old(self).wf(),
        ensures
            final(self).wf(),
            final(self).same_account(old(self)),
            ({
                let me = old(self).signer().account();
                if ChannelView::resumable(me, counterparty, my_deposit@, their_deposit@, latest@) {
                    old(self).installs(
                        ChannelView::opened(me, counterparty, my_deposit@, their_deposit@).agreed(
                            latest@,
                        ),
                        r,
                        final(self).channels(),
                    )
                } else {
                    &&& final(self).channels() == old(self).channels()
                    &&& r matches Err(e) && ChannelView::resume_refused(
                        me,
                        counterparty,
                        my_deposit@,
                        their_deposit@,
                        latest@,
                        e,
                    )
                }
            }),
    {
        let me = self.signer.address();
        match Channel::resume(me, counterparty, my_deposit, their_deposit, latest) {
            Ok(channel) => self.install(channel),
            Err(e) => Err(e),
        }
    }

    /// Proposes an update to the balances of the channel with
    /// `counterparty`, signed by the client.
    pub fn propose(&mut self, counterparty: &Address, balance1: U256, balance2: U256) -> (r:
        std::result::Result<Proposal, SynapseError>)
        requires
            old(self).wf(),
        ensures
            final(self).wf(),
            final(self).same_account(old(self)),
            !old(self).knows(counterparty@) ==> (r matches Err(e) && e is ChannelNotFound)
                && final(self).channels() == old(self).channels(),
            forall|i: int|
                old(self).holds(counterparty@, i) ==> same_but_at(
                    old(self).channels(),
                    final(self).channels(),
                    i,
                ) && old(self).channels()[i].proposes(
                    old(self).signer().key(),
                    old(self).signer().spec_address(),
                    balance1@,
                    balance2@,
                    r,
                    final(self).channels()[i],
                ),
    {
        match self.find(counterparty) {
            None => Err(SynapseError::ChannelNotFound),
            Some(i) => {
                assert(old(self).holds(counterparty@, i as int));
                let r = self.channels[i].propose(&self.signer, balance1, balance2);
                assert(self.channels() =~= old(self).channels().update(
                    i as int,
                    self.channels@[i as int]@,
                ));
                r
            },
        }
    }

    /// Answers a proposal that `counterparty` sent for the channel with it.
    pub fn accept(&mut self, counterparty: &Address, proposal: &Proposal) -> (r:
        std::result::Result<Acceptance, SynapseError>)
        requires
            old(self).wf(),
        ensures
            final(self).wf(),
            final(self).same_account(old(self)),
            !old(self).knows(counterparty@) ==> (r matches Err(e) && e is ChannelNotFound)
                && final(self).channels() == old(self).channels(),
            forall|i: int|
                old(self).holds(counterparty@, i) ==> same_but_at(
                    old(self).channels(),
                    final(self).channels(),
                    i,
                ) && old(self).channels()[i].accepts(
                    old(self).signer().key(),
                    old(self).signer().spec_address(),
                    proposal@,
                    r,
                    final(self).channels()[i],
                ),
    {
        match self.find(counterparty) {
            None => Err(SynapseError::ChannelNotFound),
            Some(i) => {
                assert(old(self).holds(counterparty@, i as int));
                let r = self.channels[i].accept(&self.signer, proposal);
                assert(self.channels() =~= old(self).channels().update(
                    i as int,
                    self.channels@[i as int]@,
                ));
                r
            },
        }
    }

    /// Completes the proposal in flight on the channel with `counterparty`
    /// with the signature that it sent back.
    pub fn commit(&mut self, counterparty: &Address, peer_signature: &[u8; 65]) -> (r:
        std::result::Result<SignedState, SynapseError>)
        requires
            old(self).wf(),
        ensures
            final(self).wf(),
            final(self).same_account(old(self)),
            !old(self).knows(counterparty@) ==> (r matches Err(e) && e is ChannelNotFound)
                && final(self).channels() == old(self).channels(),
            forall|i: int|
                old(self).holds(counterparty@, i) ==> same_but_at(
                    old(self).channels(),
                    final(self).channels(),
                    i,
                ) && old(self).channels()[i].commits(peer_signature@, r, final(self).channels()[i]),
    {
        match self.find(counterparty) {
            None => Err(SynapseError::ChannelNotFound),
            Some(i) => {
                assert(old(self).holds(counterparty@, i as int));
                let r = self.channels[i].commit(peer_signature);
                assert(self.channels() =~= old(self).channels().update(
                    i as int,
                    self.channels@[i as int]@,
                ));
                r
            },
        }
    }

    /// Gives up the proposal in flight on the channel with `counterparty`,
    /// as after a timeout of the exchange, and returns the state it carried.
    pub fn abandon(&mut self, counterparty: &Address) -> (r: std::result::Result<
        Option<ChannelState>,
        SynapseError,
    >)
        requires
            old(self).wf(),
        ensures
            final(self).wf(),
            final(self).same_account(old(self)),
            !old(self).knows(counterparty@) ==> (r matches Err(e) && e is ChannelNotFound)
                && final(self).channels() == old(self).channels(),
            forall|i: int|
                old(self).holds(counterparty@, i) ==> same_but_at(
                    old(self).channels(),
                    final(self).channels(),
                    i,
                ) && final(self).channels()[i] == (ChannelView {
                    pending_local: None,
                    ..old(self).channels()[i]
                }) && (r matches Ok(given_up) && match given_up {
                    Some(s) => old(self).channels()[i].pending_local matches Some(p) && p.state
                        == s@,
                    None => old(self).channels()[i].pending_local is None,
                }),
    {
        match self.find(counterparty) {
            None => Err(SynapseError::ChannelNotFound),
            Some(i) => {
                assert(old(self).holds(counterparty@, i as int));
                let given_up = self.channels[i].abandon();
                assert(self.channels() =~= old(self).channels().update(
                    i as int,
                    self.channels@[i as int]@,
                ));
                Ok(given_up)
            },
        }
    }

    /// What to submit to settle the channel with `counterparty` with its
    /// consent.
    pub fn close_cooperative(&self, counterparty: &Address) -> (r: std::result::Result<
        CloseRequest,
        SynapseError,
    >)
        requires
            self.wf(),
        ensures
            !self.knows(counterparty@) ==> (r matches Err(e) && e is ChannelNotFound),
            forall|i: int| self.holds(counterparty@, i) ==> self.channels()[i].posts_latest(r),
    {
        match self.find(counterparty) {
            None => Err(SynapseError::ChannelNotFound),
            Some(i) => {
                assert(self.holds(counterparty@, i as int));
                self.channels[i].close_cooperative()
            },
        }
    }

    /// What to submit to close the channel with `counterparty` without it.
    pub fn close_initiate(&self, counterparty: &Address) -> (r: std::result::Result<
        CloseRequest,
        SynapseError,
    >)
        requires
            self.wf(),
        ensures
            !self.knows(counterparty@) ==> (r matches Err(e) && e is ChannelNotFound),
            forall|i: int| self.holds(counterparty@, i) ==> self.channels()[i].posts_latest(r),
    {
        match self.find(counterparty) {
            None => Err(SynapseError::ChannelNotFound),
            Some(i) => {
                assert(self.holds(counterparty@, i as int));
                self.channels[i].close_initiate()
            },
        }
    }

    /// What to submit against the state posted on chain for the channel with
    /// `counterparty`.
    pub fn challenge(&self, counterparty: &Address, record: &ChannelInfo) -> (r:
        std::result::Result<CloseRequest, SynapseError>)
        requires
            self.wf(),
        ensures
            !self.knows(counterparty@) ==> (r matches Err(e) && e is ChannelNotFound),
            forall|i: int|
                self.holds(counterparty@, i) ==> self.channels()[i].challenges(*record, r),
    {
        match self.find(counterparty) {
            None => Err(SynapseError::ChannelNotFound),
            Some(i) => {
                assert(self.holds(counterparty@, i as int));
                self.channels[i].challenge(record)
            },
        }
    }

    /// Whom to finalize against for the channel with `counterparty`, at time
    /// `now`.
    pub fn finalize(&self, counterparty: &Address, record: &ChannelInfo, now: &U256) -> (r:
        std::result::Result<Address, SynapseError>)
        requires
            self.wf(),
        ensures
            !self.knows(counterparty@) ==> (r matches Err(e) && e is ChannelNotFound),
            forall|i: int|
                self.holds(counterparty@, i) ==> self.channels()[i].finalizes(*record, now@, r),
    {
        match self.find(counterparty) {
            None => Err(SynapseError::ChannelNotFound),
            Some(i) => {
                assert(self.holds(counterparty@, i as int));
                self.channels[i].finalize(record, now)
            },
        }
    }

    /// The watchtower's look at the record of the channel with
    /// `counterparty`, at time `now`.
    pub fn watch(&self, counterparty: &Address, record: &ChannelInfo, now: &U256) -> (r:
        std::result::Result<WatchAction, SynapseError>)
        requires
            self.wf(),
        ensures
            !self.knows(counterparty@) ==> (r matches Err(e) && e is ChannelNotFound),
            forall|i: int|
                self.holds(counterparty@, i) ==> self.channels()[i].watches(*record, now@, r),
    {
        match self.find(counterparty) {
            None => Err(SynapseError::ChannelNotFound),
            Some(i) => {
                assert(self.holds(counterparty@, i as int));
                self.channels[i].watch(record, now)
            },
        }
    }

    /// Brings the status of the channel with `counterparty` up to the
    /// on-chain record that a query returned.
    pub fn query(&mut self, counterparty: &Address, record: &ChannelInfo) -> (r:
        std::result::Result<(), SynapseError>)
        requires
            old(self).wf(),
        ensures
            final(self).wf(),
            final(self).same_account(old(self)),
            !old(self).knows(counterparty@) ==> (r matches Err(e) && e is ChannelNotFound)
                && final(self).channels() == old(self).channels(),
            forall|i: int|
                old(self).holds(counterparty@, i) ==> same_but_at(
                    old(self).channels(),
                    final(self).channels(),
                    i,
                ) && old(self).channels()[i].reconciles(*record, r, final(self).channels()[i]),
    {
        match self.find(counterparty) {
            None => Err(SynapseError::ChannelNotFound),
            Some(i) => {
                assert(old(self).holds(counterparty@, i as int));
                let r = self.channels[i].reconcile(record);
                assert(self.channels() =~= old(self).channels().update(
                    i as int,
                    self.channels@[i as int]@,
                ));
                r
            },
        }
    }

    /// Takes note of what came of a closing step on the channel with
    /// `counterparty`. A failure of the step is handed on as it is.
    pub fn confirm(
        &mut self,
        counterparty: &Address,
        step: CloseStep,
        outcome: std::result::Result<H256, SynapseError>,
    ) -> (r: std::result::Result<H256, SynapseError>)
        requires
            old(self).wf(),
        ensures
            final(self).wf(),
            final(self).same_account(old(self)),
            !old(self).knows(counterparty@) ==> (r matches Err(e) && e is ChannelNotFound)
                && final(self).channels() == old(self).channels(),
            forall|i: int|
                old(self).holds(counterparty@, i) ==> r == outcome && same_but_at(
                    old(self).channels(),
                    final(self).channels(),
                    i,
                ) && final(self).channels()[i] == old(self).channels()[i].confirmed(
                    step,
                    outcome is Ok,
                ),
    {
        match self.find(counterparty) {
            None => Err(SynapseError::ChannelNotFound),
            Some(i) => {
                assert(old(self).holds(counterparty@, i as int));
                let r = self.channels[i].confirm(step, outcome);
                assert(self.channels() =~= old(self).channels().update(
                    i as int,
                    self.channels@[i as int]@,
                ));
                r
            },
        }
    }

    /// The contracts that are approved to spend the client's tokens, in the
    /// order in which they are approved: payment router, reputation registry,
    /// service registry, payment channel.
    pub fn approval_targets(&self) -> (r: [Address; 4])
        ensures
            r@ == seq![
                self.config().contracts.payment_router,
                self.config().contracts.reputation,
                self.config().contracts.service_registry,
                self.config().contracts.payment_channel,
            ],
    {
        let r = [
            self.config.contracts.payment_router,
            self.config.contracts.reputation,
            self.config.contracts.service_registry,
            self.config.contracts.payment_channel,
        ];
        assert(r@ =~= seq![
            self.config().contracts.payment_router,
            self.config().contracts.reputation,
            self.config().contracts.service_registry,
            self.config().contracts.payment_channel,
        ]);
        r
    }

    /// Signs the state `(channel_id, balance1, balance2, nonce)`: the
    /// signature is made over the state's digest as it stands, is canonical,
    /// and recovers to the client's address.
    pub fn sign_channel_state(
        &self,
        channel_id: [u8; 32],
        balance1: U256,
        balance2: U256,
        nonce: U256,
    ) -> (r: std::result::Result<[u8; 65], SynapseError>)
        ensures
            ({
                let state = StateView {
                    channel_id: channel_id@,
                    balance1: balance1@,
                    balance2: balance2@,
                    nonce: nonce@,
                };
                let outcome = signing_outcome(
                    self.signer().key(),
                    self.signer().spec_address(),
                    state.digest(),
                );
                match r {
                    Ok(s) => outcome == Some(s@),
                    Err(e) => e is WalletError && outcome is None,
                }
            }),
    {
        let state = ChannelState { channel_id, balance1, balance2, nonce };
        let digest = state.digest();
        self.signer.sign_digest(&digest)
    }

    /// The identifier of a payment made at `timestamp`, in nanoseconds since
    /// the epoch: a salt that tells payments apart, not a secret.
    pub fn generate_payment_id(&self, prefix: &str, timestamp: u128) -> (r: [u8; 32])
        ensures
            r@ == payment_id_of(prefix@, timestamp as nat, self.signer().spec_address()),
    {
        let sender = self.signer.address();
        let text = format_payment_id(prefix, timestamp, &sender);
        keccak256(text.as_str().as_bytes())
    }

    /// The identifiers of the payments of a batch, one for each time given:
    /// the `i`-th is made with the prefix `batch-i`.
    pub fn batch_payment_ids(&self, timestamps: &[u128]) -> (r: Vec<[u8; 32]>)
        ensures
            r@.len() == timestamps@.len(),
            forall|i: int|
                0 <= i < r@.len() ==> (#[trigger] r@[i])@ == payment_id_of(
                    batch_prefix(i as nat),
                    timestamps@[i] as nat,
                    self.signer().spec_address(),
                ),
    {
        let mut ids: Vec<[u8; 32]> = Vec::new();
        let mut i: usize = 0;
        while i < timestamps.len()
            invariant
                i <= timestamps@.len(),
                ids@.len() == i,
                forall|j: int|
                    0 <= j < i ==> (#[trigger] ids@[j])@ == payment_id_of(
                        batch_prefix(j as nat),
                        timestamps@[j] as nat,
                        self.signer().spec_address(),
                    ),
            decreases timestamps@.len() - i,
        {
            let prefix = format_batch_prefix(i);
            let id = self.generate_payment_id(prefix.as_str(), timestamps[i]);
            ids.push(id);
            i += 1;
        }
        ids
    }

    /// Reads an amount written in whole tokens as a number of smallest units;
    /// decimals beyond the 18th are dropped. Text that is not ASCII is refused
    /// unread, and so is text that is not safe to scale: an amount of 2^256
    /// smallest units or more, or text with fewer than 18 decimals, more than
    /// 59 bytes before the point, and a byte that is no digit.
    pub fn parse_synx(amount: &str) -> (r: std::result::Result<U256, SynapseError>)
        ensures
            match r {
                Ok(v) => parsed_amount(amount@) == Some(v@),
                Err(e) => e is ConfigError && parsed_amount(amount@) is None,
            },
    {
        if !amount.is_ascii() {
            return Err(SynapseError::ConfigError("the amount is not plain text".to_owned()));
        }
        if !is_safe_to_scale(amount.as_bytes()) {
            return Err(SynapseError::ConfigError("the amount is too large".to_owned()));
        }
        match parse_ether(amount) {
            Ok(v) => Ok(v),
            Err(message) => Err(SynapseError::ConfigError(message)),
        }
    }

    /// Writes an amount of smallest units in whole tokens, with 18 decimals.
    pub fn format_synx(amount: U256) -> (r: String)
        ensures
            r@ == ether_text(amount@),
    {
        format_ether(&amount)
    }

    /// The hash of a transaction that went through, from what waiting for
    /// its receipt gave: the receipt, none, or the message of a failure to
    /// get one. A transaction has failed where the wait failed or timed out,
    /// where there is no receipt, and where the receipt reports status 0,
    /// which is to say that the transaction was mined and reverted.
    pub fn confirm_receipt(awaited: std::result::Result<Option<Receipt>, String>) -> (r:
        std::result::Result<H256, SynapseError>)
        ensures
            match awaited {
                Ok(Some(x)) => if x.reverted() {
                    r matches Err(e) && e is TransactionFailed
                } else {
                    r == Ok::<H256, SynapseError>(x.tx_hash)
                },
                Ok(None) => r matches Err(e) && e is TransactionFailed,
                Err(message) => r matches Err(e) && e == SynapseError::TransactionFailed(message),
            },
    {
        match awaited {
            Ok(Some(x)) => {
                if x.is_reverted() {
                    Err(SynapseError::TransactionFailed("Transaction reverted".to_owned()))
                } else {
                    Ok(x.tx_hash)
                }
            },
            Ok(None) => Err(SynapseError::TransactionFailed("No receipt".to_owned())),
            Err(message) => Err(SynapseError::TransactionFailed(message)),
        }
    }

    /// Checks before a submission that the balance available covers what is
    /// required.
    pub fn check_funds(required: U256, available: U256) -> (r: std::result::Result<
        (),
        SynapseError,
    >)
        ensures
            r is Ok <==> available@ >= required@,
            r matches Err(e) ==> e == (SynapseError::InsufficientBalance { required, available }),
    {
        if available.lt(&required) {
            Err(SynapseError::InsufficientBalance { required, available })
        } else {
            Ok(())
        }
    }
}

} // verus!

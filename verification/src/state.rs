//! Channel states, their digest, and the rule by which one state may follow
//! another.
use crate::codec::{append_bytes, bytes_equal, encode_u256, keccak256, keccak256_of};
use crate::error::SynapseError;
use crate::signer::recovers_to;
use crate::word::{
    be_bytes, lemma_be_bytes_len, lemma_be_value_of_be_bytes, lemma_pow256_32, modulus, U256,
};
use vstd::prelude::*;

verus! {

/// A moment in a channel's balance history.
#[derive(Clone, Copy, Debug)]
pub struct ChannelState {
    pub channel_id: [u8; 32],
    /// The balance of participant 1, the lower address.
    pub balance1: U256,
    /// The balance of participant 2.
    pub balance2: U256,
    pub nonce: U256,
}

/// A channel state as mathematical values.
pub struct StateView {
    pub channel_id: Seq<u8>,
    pub balance1: nat,
    pub balance2: nat,
    pub nonce: nat,
}

impl View for ChannelState {
    type V = StateView;

    open spec fn view(&self) -> StateView {
        StateView {
            channel_id: self.channel_id@,
            balance1: self.balance1@,
            balance2: self.balance2@,
            nonce: self.nonce@,
        }
    }
}

impl StateView {
    /// What the two participants hold together.
    pub open spec fn total(self) -> nat {
        self.balance1 + self.balance2
    }

    /// Whether the state can be held in a `ChannelState`.
    pub open spec fn representable(self) -> bool {
        &&& self.channel_id.len() == 32
        &&& self.balance1 < modulus()
        &&& self.balance2 < modulus()
        &&& self.nonce < modulus()
    }

    /// The 128 bytes that are hashed: the channel identifier, then the two
    /// balances and the nonce, each as 32 big-endian bytes.
    pub open spec fn preimage(self) -> Seq<u8> {
        self.channel_id + be_bytes(self.balance1, 32) + be_bytes(self.balance2, 32) + be_bytes(
            self.nonce,
            32,
        )
    }

    /// The digest that both parties sign: the Keccak-256 hash of the
    /// preimage, with no prefix.
    pub open spec fn digest(self) -> Seq<u8> {
        keccak256_of(self.preimage())
    }

    /// Whether `next` may follow `self` in one off-chain update: same
    /// channel, the nonce one higher, the total unchanged.
    pub open spec fn precedes(self, next: StateView) -> bool {
        &&& next.channel_id == self.channel_id
        &&& next.nonce == self.nonce + 1
        &&& next.total() == self.total()
    }
}

/// States with different fields have different preimages: what is hashed
/// determines the state.
pub proof fn lemma_preimage_injective(s: StateView, t: StateView)
    requires
        s.representable(),
        t.representable(),
        s.preimage() == t.preimage(),
    ensures
        s == t,
{
    lemma_be_bytes_len(s.balance1, 32);
    lemma_be_bytes_len(s.balance2, 32);
    lemma_be_bytes_len(s.nonce, 32);
    lemma_be_bytes_len(t.balance1, 32);
    lemma_be_bytes_len(t.balance2, 32);
    lemma_be_bytes_len(t.nonce, 32);
    let p = s.preimage();
    let q = t.preimage();
    assert(p.subrange(0, 32) =~= s.channel_id);
    assert(q.subrange(0, 32) =~= t.channel_id);
    assert(p.subrange(32, 64) =~= be_bytes(s.balance1, 32));
    assert(q.subrange(32, 64) =~= be_bytes(t.balance1, 32));
    assert(p.subrange(64, 96) =~= be_bytes(s.balance2, 32));
    assert(q.subrange(64, 96) =~= be_bytes(t.balance2, 32));
    assert(p.subrange(96, 128) =~= be_bytes(s.nonce, 32));
    assert(q.subrange(96, 128) =~= be_bytes(t.nonce, 32));
    lemma_pow256_32();
    lemma_be_value_of_be_bytes(s.balance1, 32);
    lemma_be_value_of_be_bytes(t.balance1, 32);
    lemma_be_value_of_be_bytes(s.balance2, 32);
    lemma_be_value_of_be_bytes(t.balance2, 32);
    lemma_be_value_of_be_bytes(s.nonce, 32);
    lemma_be_value_of_be_bytes(t.nonce, 32);
}

/// The digest is a function of the four fields: equal states have equal
/// digests.
pub proof fn lemma_digest_deterministic(s: StateView, t: StateView)
    requires
        s.channel_id == t.channel_id,
        s.balance1 == t.balance1,
        s.balance2 == t.balance2,
        s.nonce == t.nonce,
    ensures
        s.digest() == t.digest(),
{
}

impl ChannelState {
    /// The 128 bytes that are hashed for the digest.
    pub fn preimage(&self) -> (out: Vec<u8>)
        ensures
            out@ == self@.preimage(),
    {
        let mut out: Vec<u8> = Vec::new();
        append_bytes(&mut out, &self.channel_id);
        let b1 = encode_u256(&self.balance1);
        append_bytes(&mut out, &b1);
        let b2 = encode_u256(&self.balance2);
        append_bytes(&mut out, &b2);
        let n = encode_u256(&self.nonce);
        append_bytes(&mut out, &n);
        assert(out@ =~= self@.preimage());
        out
    }

    /// The digest that both parties sign for this state.
    pub fn digest(&self) -> (out: [u8; 32])
        ensures
            out@ == self@.digest(),
    {
        let data = self.preimage();
        keccak256(data.as_slice())
    }

    /// Whether two states have the same fields.
    pub fn same(&self, other: &ChannelState) -> (r: bool)
        ensures
            r == (self@ == other@),
    {
        let r = bytes_equal(&self.channel_id, &other.channel_id) && self.balance1 == other.balance1
            && self.balance2 == other.balance2 && self.nonce == other.nonce;
        proof {
            if self@ == other@ {
                crate::word::lemma_view_injective(self.balance1, other.balance1);
                crate::word::lemma_view_injective(self.balance2, other.balance2);
                crate::word::lemma_view_injective(self.nonce, other.nonce);
            }
        }
        r
    }

    /// Whether the two balances of `self` add up to what those of `other`
    /// add up to. The sums are compared in full, beyond 256 bits.
    pub fn same_total(&self, other: &ChannelState) -> (r: bool)
        ensures
            r == (self@.total() == other@.total()),
    {
        let (mine, mine_carry) = self.balance1.carrying_add(&self.balance2);
        let (theirs, theirs_carry) = other.balance1.carrying_add(&other.balance2);
        proof {
            if mine@ == theirs@ {
                crate::word::lemma_view_injective(mine, theirs);
            }
        }
        mine_carry == theirs_carry && mine == theirs
    }

    /// Checks that `next` may follow `self`. A state of another channel is
    /// refused with `ChannelNotFound`; a wrong nonce or a changed total with
    /// `InvalidStateTransition`.
    pub fn check_successor(&self, next: &ChannelState) -> (r: std::result::Result<
        (),
        SynapseError,
    >)
        ensures
            r is Ok <==> self@.precedes(next@),
            r matches Err(e) ==> if next@.channel_id != self@.channel_id {
                e is ChannelNotFound
            } else {
                e is InvalidStateTransition
            },
    {
        if !bytes_equal(&self.channel_id, &next.channel_id) {
            return Err(SynapseError::ChannelNotFound);
        }
        let follows = match self.nonce.successor() {
            Some(expected) => {
                proof {
                    if next.nonce@ == expected@ {
                        crate::word::lemma_view_injective(next.nonce, expected);
                    }
                }
                next.nonce == expected
            },
            None => false,
        };
        if follows && self.same_total(next) {
            Ok(())
        } else {
            Err(SynapseError::InvalidStateTransition)
        }
    }
}

/// A state with the signatures of both participants.
#[derive(Clone, Copy, Debug)]
pub struct SignedState {
    pub state: ChannelState,
    /// The signature of participant 1.
    pub sig1: [u8; 65],
    /// The signature of participant 2.
    pub sig2: [u8; 65],
}

/// A signed state as mathematical values.
pub struct SignedView {
    pub state: StateView,
    pub sig1: Seq<u8>,
    pub sig2: Seq<u8>,
}

impl View for SignedState {
    type V = SignedView;

    open spec fn view(&self) -> SignedView {
        SignedView { state: self.state@, sig1: self.sig1@, sig2: self.sig2@ }
    }
}

impl SignedView {
    /// Whether each signature is canonical and recovers, over the state's
    /// digest, to the participant of its slot.
    pub open spec fn signed_by(self, participant1: Seq<u8>, participant2: Seq<u8>) -> bool {
        &&& recovers_to(self.state.digest(), self.sig1, participant1)
        &&& recovers_to(self.state.digest(), self.sig2, participant2)
    }
}

/// A state with the signature of the party that proposes it.
#[derive(Clone, Copy, Debug)]
pub struct Proposal {
    pub state: ChannelState,
    pub signature: [u8; 65],
}

/// A proposal as mathematical values.
pub struct ProposalView {
    pub state: StateView,
    pub signature: Seq<u8>,
}

impl View for Proposal {
    type V = ProposalView;

    open spec fn view(&self) -> ProposalView {
        ProposalView { state: self.state@, signature: self.signature@ }
    }
}

} // verus!

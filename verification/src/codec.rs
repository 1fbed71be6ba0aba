//! The value codec: byte strings, account addresses and their canonical
//! order, Keccak-256, and channel identifiers.
use crate::word::U256;
use vstd::prelude::*;

verus! {

/// Unsigned byte order from index `i` on, given that the two strings agree
/// before `i`: the first byte that differs decides, and a proper prefix comes
/// first.
pub open spec fn lex_lt_from(a: Seq<u8>, b: Seq<u8>, i: int) -> bool
    decreases b.len() - i,
{
    if i < 0 || i >= b.len() {
        false
    } else if i >= a.len() {
        true
    } else if a[i] != b[i] {
        a[i] < b[i]
    } else {
        lex_lt_from(a, b, i + 1)
    }
}

/// Whether `a` comes strictly before `b` in unsigned byte order.
pub open spec fn lex_lt(a: Seq<u8>, b: Seq<u8>) -> bool {
    lex_lt_from(a, b, 0)
}

proof fn lemma_lex_asymmetric_from(a: Seq<u8>, b: Seq<u8>, i: int)
    requires
        0 <= i,
        lex_lt_from(a, b, i),
    ensures
        !lex_lt_from(b, a, i),
    decreases b.len() - i,
{
    if i < a.len() && i < b.len() && a[i] == b[i] {
        lemma_lex_asymmetric_from(a, b, i + 1);
    }
}

proof fn lemma_lex_total_from(a: Seq<u8>, b: Seq<u8>, i: int)
    requires
        0 <= i <= a.len(),
        i <= b.len(),
        a.subrange(0, i) == b.subrange(0, i),
        !lex_lt_from(a, b, i),
        !lex_lt_from(b, a, i),
    ensures
        a == b,
    decreases a.len() - i,
{
    if i < a.len() && i < b.len() {
        assert(a[i] == b[i]);
        assert(a.subrange(0, i + 1) =~= a.subrange(0, i).push(a[i]));
        assert(b.subrange(0, i + 1) =~= b.subrange(0, i).push(b[i]));
        lemma_lex_total_from(a, b, i + 1);
    } else {
        assert(a.len() == b.len());
        assert(a =~= a.subrange(0, i));
        assert(b =~= b.subrange(0, i));
    }
}

/// Of two byte strings at most one comes before the other.
pub proof fn lemma_lex_asymmetric(a: Seq<u8>, b: Seq<u8>)
    requires
        lex_lt(a, b),
    ensures
        !lex_lt(b, a),
{
    lemma_lex_asymmetric_from(a, b, 0);
}

/// Two byte strings of which neither comes before the other are equal.
pub proof fn lemma_lex_total(a: Seq<u8>, b: Seq<u8>)
    requires
        !lex_lt(a, b),
        !lex_lt(b, a),
    ensures
        a == b,
{
    assert(a.subrange(0, 0) =~= b.subrange(0, 0));
    lemma_lex_total_from(a, b, 0);
}

/// Whether two byte strings hold the same bytes.
pub fn bytes_equal(a: &[u8], b: &[u8]) -> (r: bool)
    ensures
        r == (a@ == b@),
{
    if a.len() != b.len() {
        return false;
    }
    let mut i: usize = 0;
    while i < a.len()
        invariant
            i <= a.len(),
            a.len() == b.len(),
            forall|j: int| 0 <= j < i ==> a@[j] == b@[j],
        decreases a.len() - i,
    {
        if a[i] != b[i] {
            return false;
        }
        i += 1;
    }
    assert(a@ =~= b@);
    true
}

/// Whether `a` comes strictly before `b` in unsigned byte order.
pub fn bytes_less(a: &[u8], b: &[u8]) -> (r: bool)
    ensures
        r == lex_lt(a@, b@),
{
    let mut i: usize = 0;
    while i < a.len() && i < b.len()
        invariant
            i <= a.len(),
            i <= b.len(),
            lex_lt(a@, b@) == lex_lt_from(a@, b@, i as int),
        decreases a.len() - i,
    {
        if a[i] != b[i] {
            return a[i] < b[i];
        }
        i += 1;
    }
    i < b.len()
}

/// Appends `bytes` to `out`.
pub fn append_bytes(out: &mut Vec<u8>, bytes: &[u8])
    ensures
        final(out)@ == old(out)@ + bytes@,
{
    let mut i: usize = 0;
    while i < bytes.len()
        invariant
            i <= bytes.len(),
            out@ == old(out)@ + bytes@.subrange(0, i as int),
        decreases bytes.len() - i,
    {
        out.push(bytes[i]);
        i += 1;
        assert(out@ =~= old(out)@ + bytes@.subrange(0, i as int));
    }
    assert(bytes@.subrange(0, bytes@.len() as int) =~= bytes@);
}

/// A 20-byte account identifier.
#[derive(Clone, Copy, Debug, Eq, Hash)]
pub struct Address(pub [u8; 20]);

impl View for Address {
    type V = Seq<u8>;

    open spec fn view(&self) -> Seq<u8> {
        self.0@
    }
}

impl PartialEq for Address {
    fn eq(&self, other: &Self) -> (r: bool) {
        bytes_equal(&self.0, &other.0)
    }
}

impl vstd::std_specs::cmp::PartialEqSpecImpl for Address {
    open spec fn obeys_eq_spec() -> bool {
        true
    }

    open spec fn eq_spec(&self, other: &Self) -> bool {
        self@ == other@
    }
}

/// Two addresses with the same bytes are the same address.
pub proof fn lemma_address_view_injective(a: Address, b: Address)
    requires
        a@ == b@,
    ensures
        a == b,
{
    assert(a.0 =~= b.0);
}

impl Address {
    /// The address of twenty zero bytes.
    pub fn zero() -> (r: Address)
        ensures
            r@ == Seq::new(20, |i: int| 0u8),
    {
        let r = Address([0u8; 20]);
        assert(r@ =~= Seq::new(20, |i: int| 0u8));
        r
    }

    /// Whether `self` comes strictly before `other` in unsigned byte order.
    pub fn lt(&self, other: &Address) -> (r: bool)
        ensures
            r == lex_lt(self@, other@),
    {
        bytes_less(&self.0, &other.0)
    }
}

/// A 32-byte hash, such as that of a transaction.
#[derive(Clone, Copy, Debug, Eq, Hash)]
pub struct H256(pub [u8; 32]);

impl View for H256 {
    type V = Seq<u8>;

    open spec fn view(&self) -> Seq<u8> {
        self.0@
    }
}

impl PartialEq for H256 {
    fn eq(&self, other: &Self) -> (r: bool) {
        bytes_equal(&self.0, &other.0)
    }
}

impl vstd::std_specs::cmp::PartialEqSpecImpl for H256 {
    open spec fn obeys_eq_spec() -> bool {
        true
    }

    open spec fn eq_spec(&self, other: &Self) -> bool {
        self@ == other@
    }
}

/// The two addresses in canonical order: the one that comes first in
/// unsigned byte order, then the other.
pub open spec fn canonical_pair_of(a: Address, b: Address) -> (Address, Address) {
    if lex_lt(b@, a@) {
        (b, a)
    } else {
        (a, b)
    }
}

/// Orders two addresses canonically.
pub fn canonical_pair(a: Address, b: Address) -> (r: (Address, Address))
    ensures
        r == canonical_pair_of(a, b),
{
    if b.lt(&a) {
        (b, a)
    } else {
        (a, b)
    }
}

/// The canonical order of a pair does not depend on the order in which the
/// two addresses are given.
pub proof fn lemma_canonical_pair_symmetric(a: Address, b: Address)
    ensures
        canonical_pair_of(a, b) == canonical_pair_of(b, a),
{
    if lex_lt(b@, a@) {
        lemma_lex_asymmetric(b@, a@);
    } else if lex_lt(a@, b@) {
    } else {
        lemma_lex_total(a@, b@);
        lemma_address_view_injective(a, b);
    }
}

/// The big-endian, zero-padded 32-byte encoding of a 256-bit integer.
pub fn encode_u256(x: &U256) -> (out: [u8; 32])
    ensures
        out@ == crate::word::be_bytes(x@, 32),
{
    x.to_be_bytes()
}

/// The Keccak-256 hash of a byte string (with the padding of Keccak, not
/// that of SHA3-256), as `ethers::utils::keccak256` computes it.
pub uninterp spec fn keccak256_of(bytes: Seq<u8>) -> Seq<u8>;

/// Calls `ethers::utils::keccak256`, which hashes the bytes given with
/// Keccak-256 and returns the 32 bytes of the hash. The contract claims only
/// that the result is a function of the input bytes.
#[verifier::external_body]
pub(crate) fn keccak256(bytes: &[u8]) -> (out: [u8; 32])
    ensures
        out@ == keccak256_of(bytes@),
{
    ethers::utils::keccak256(bytes)
}

/// The identifier of the channel between two accounts: the hash of the two
/// addresses in canonical order.
pub open spec fn channel_id_of(a: Address, b: Address) -> Seq<u8> {
    let pair = canonical_pair_of(a, b);
    keccak256_of(pair.0@ + pair.1@)
}

/// Derives the identifier of the channel between `a` and `b`.
pub fn channel_id(a: &Address, b: &Address) -> (id: [u8; 32])
    ensures
        id@ == channel_id_of(*a, *b),
{
    let (lo, hi) = canonical_pair(*a, *b);
    let mut data: Vec<u8> = Vec::new();
    append_bytes(&mut data, &lo.0);
    append_bytes(&mut data, &hi.0);
    assert(data@ =~= lo@ + hi@);
    keccak256(data.as_slice())
}

/// A channel has one identifier, whichever participant is named first.
pub proof fn lemma_channel_id_symmetric(a: Address, b: Address)
    ensures
        channel_id_of(a, b) == channel_id_of(b, a),
{
    lemma_canonical_pair_symmetric(a, b);
}

} // verus!

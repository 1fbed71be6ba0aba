//! 256-bit unsigned integers as four 64-bit limbs, with their big-endian
//! byte encoding.
use vstd::prelude::*;

verus! {

/// 2^64, the weight of one limb.
pub open spec fn limb_base() -> nat {
    0x1_0000_0000_0000_0000nat
}

/// 2^256, one more than the largest value a `U256` holds.
pub open spec fn modulus() -> nat {
    0x1_0000_0000_0000_0000_0000_0000_0000_0000_0000_0000_0000_0000_0000_0000_0000_0000nat
}

/// The number that four limbs stand for, most significant limb first.
pub open spec fn word_value(w3: u64, w2: u64, w1: u64, w0: u64) -> nat {
    (w3 as nat) * 0x1_0000_0000_0000_0000_0000_0000_0000_0000_0000_0000_0000_0000nat + (w2 as nat)
        * 0x1_0000_0000_0000_0000_0000_0000_0000_0000nat + (w1 as nat) * 0x1_0000_0000_0000_0000nat
        + (w0 as nat)
}

/// 256 to the power `k`.
pub open spec fn pow256(k: nat) -> nat
    decreases k,
{
    if k == 0 {
        1
    } else {
        256 * pow256((k - 1) as nat)
    }
}

/// The `len` lowest base-256 digits of `n`, most significant digit first.
pub open spec fn be_bytes(n: nat, len: nat) -> Seq<u8>
    decreases len,
{
    if len == 0 {
        Seq::empty()
    } else {
        be_bytes(n / 256, (len - 1) as nat).push((n % 256) as u8)
    }
}

/// A 256-bit unsigned integer. The fields are its limbs, most significant
/// first, so that the derived ordering is the numeric one.
#[derive(Clone, Copy, Debug, PartialEq, Eq, Structural, PartialOrd, Ord, Hash)]
pub struct U256 {
    pub w3: u64,
    pub w2: u64,
    pub w1: u64,
    pub w0: u64,
}

impl View for U256 {
    type V = nat;

    open spec fn view(&self) -> nat {
        word_value(self.w3, self.w2, self.w1, self.w0)
    }
}

/// Adds two limbs and an incoming carry; returns the low limb and the
/// outgoing carry.
fn add_limb(a: u64, b: u64, carry: bool) -> (r: (u64, bool))
    ensures
        r.0 as nat + (if r.1 { limb_base() } else { 0 }) == a as nat + b as nat + (if carry {
            1nat
        } else {
            0
        }),
{
    let c: u128 = if carry { 1 } else { 0 };
    let s: u128 = a as u128 + b as u128 + c;
    if s >= 0x1_0000_0000_0000_0000u128 {
        ((s - 0x1_0000_0000_0000_0000u128) as u64, true)
    } else {
        (s as u64, false)
    }
}

/// Subtracts a limb and an incoming borrow from a limb; returns the low limb
/// and the outgoing borrow.
fn sub_limb(a: u64, b: u64, borrow: bool) -> (r: (u64, bool))
    ensures
        r.0 as int - (if r.1 { limb_base() as int } else { 0 }) == a as int - b as int - (
        if borrow {
            1int
        } else {
            0
        }),
{
    let c: u128 = if borrow { 1 } else { 0 };
    let take: u128 = b as u128 + c;
    if (a as u128) >= take {
        ((a as u128 - take) as u64, false)
    } else {
        ((0x1_0000_0000_0000_0000u128 + a as u128 - take) as u64, true)
    }
}

/// One more digit at the low end.
pub proof fn lemma_be_bytes_push(v: nat, b: u8, len: nat)
    ensures
        be_bytes(v * 256 + b as nat, len + 1) == be_bytes(v, len).push(b),
{
    let n = v * 256 + b as nat;
    assert(n / 256 == v);
    assert(n % 256 == b as nat);
}

/// Writes the eight big-endian bytes of `w` into `out` at `at`.
fn put_limb(out: &mut [u8; 32], at: usize, w: u64)
    requires
        at + 8 <= 32,
    ensures
        final(out)@.subrange(at as int, at + 8) == be_bytes(w as nat, 8),
        forall|j: int| 0 <= j < 32 && !(at <= j < at + 8) ==> final(out)@[j] == old(out)@[j],
{
    let b7: u8 = (w % 256) as u8;
    let r6: u64 = w / 256;
    let b6: u8 = (r6 % 256) as u8;
    let r5: u64 = r6 / 256;
    let b5: u8 = (r5 % 256) as u8;
    let r4: u64 = r5 / 256;
    let b4: u8 = (r4 % 256) as u8;
    let r3: u64 = r4 / 256;
    let b3: u8 = (r3 % 256) as u8;
    let r2: u64 = r3 / 256;
    let b2: u8 = (r2 % 256) as u8;
    let r1: u64 = r2 / 256;
    let b1: u8 = (r1 % 256) as u8;
    let r0: u64 = r1 / 256;
    let b0: u8 = (r0 % 256) as u8;
    out[at] = b0;
    out[at + 1] = b1;
    out[at + 2] = b2;
    out[at + 3] = b3;
    out[at + 4] = b4;
    out[at + 5] = b5;
    out[at + 6] = b6;
    out[at + 7] = b7;
    proof {
        let s = out@.subrange(at as int, at + 8);
        assert(be_bytes(0, 0) =~= s.subrange(0, 0));
        lemma_be_bytes_push(0, b0, 0);
        assert(be_bytes(r0 as nat, 1) =~= s.subrange(0, 1));
        lemma_be_bytes_push(r0 as nat, b1, 1);
        assert(be_bytes(r1 as nat, 2) =~= s.subrange(0, 2));
        lemma_be_bytes_push(r1 as nat, b2, 2);
        assert(be_bytes(r2 as nat, 3) =~= s.subrange(0, 3));
        lemma_be_bytes_push(r2 as nat, b3, 3);
        assert(be_bytes(r3 as nat, 4) =~= s.subrange(0, 4));
        lemma_be_bytes_push(r3 as nat, b4, 4);
        assert(be_bytes(r4 as nat, 5) =~= s.subrange(0, 5));
        lemma_be_bytes_push(r4 as nat, b5, 5);
        assert(be_bytes(r5 as nat, 6) =~= s.subrange(0, 6));
        lemma_be_bytes_push(r5 as nat, b6, 6);
        assert(be_bytes(r6 as nat, 7) =~= s.subrange(0, 7));
        lemma_be_bytes_push(r6 as nat, b7, 7);
        assert(be_bytes(w as nat, 8) =~= s.subrange(0, 8));
        assert(s.subrange(0, 8) =~= s);
    }
}

/// Reads the limb whose eight big-endian bytes stand in `bytes` at `at`.
fn get_limb(bytes: &[u8; 32], at: usize) -> (w: u64)
    requires
        at + 8 <= 32,
    ensures
        be_bytes(w as nat, 8) == bytes@.subrange(at as int, at + 8),
{
    let v0: u64 = bytes[at] as u64;
    let v1: u64 = v0 * 256 + bytes[at + 1] as u64;
    let v2: u64 = v1 * 256 + bytes[at + 2] as u64;
    let v3: u64 = v2 * 256 + bytes[at + 3] as u64;
    let v4: u64 = v3 * 256 + bytes[at + 4] as u64;
    let v5: u64 = v4 * 256 + bytes[at + 5] as u64;
    let v6: u64 = v5 * 256 + bytes[at + 6] as u64;
    let v7: u64 = v6 * 256 + bytes[at + 7] as u64;
    proof {
        let s = bytes@.subrange(at as int, at + 8);
        assert(be_bytes(0, 0) =~= s.subrange(0, 0));
        lemma_be_bytes_push(0, s[0], 0);
        assert(be_bytes(v0 as nat, 1) =~= s.subrange(0, 1));
        lemma_be_bytes_push(v0 as nat, s[1], 1);
        assert(be_bytes(v1 as nat, 2) =~= s.subrange(0, 2));
        lemma_be_bytes_push(v1 as nat, s[2], 2);
        assert(be_bytes(v2 as nat, 3) =~= s.subrange(0, 3));
        lemma_be_bytes_push(v2 as nat, s[3], 3);
        assert(be_bytes(v3 as nat, 4) =~= s.subrange(0, 4));
        lemma_be_bytes_push(v3 as nat, s[4], 4);
        assert(be_bytes(v4 as nat, 5) =~= s.subrange(0, 5));
        lemma_be_bytes_push(v4 as nat, s[5], 5);
        assert(be_bytes(v5 as nat, 6) =~= s.subrange(0, 6));
        lemma_be_bytes_push(v5 as nat, s[6], 6);
        assert(be_bytes(v6 as nat, 7) =~= s.subrange(0, 7));
        lemma_be_bytes_push(v6 as nat, s[7], 7);
        assert(be_bytes(v7 as nat, 8) =~= s.subrange(0, 8));
        assert(s.subrange(0, 8) =~= s);
    }
    v7
}

/// The encoding of `hi * 256^k + lo` is that of `hi` followed by the `k`
/// bytes of `lo`.
pub proof fn lemma_be_bytes_split(hi: nat, lo: nat, len: nat, k: nat)
    requires
        lo < pow256(k),
    ensures
        be_bytes(hi * pow256(k) + lo, len + k) == be_bytes(hi, len) + be_bytes(lo, k),
    decreases k,
{
    let n = hi * pow256(k) + lo;
    if k == 0 {
        assert(hi * 1 == hi) by (nonlinear_arith);
        assert(be_bytes(n, len + k) =~= be_bytes(hi, len) + be_bytes(lo, k));
    } else {
        let p = pow256((k - 1) as nat);
        let t = hi * p;
        assert(hi * pow256(k) == 256 * t) by (nonlinear_arith)
            requires
                pow256(k) == 256 * p,
                t == hi * p,
        ;
        assert(n / 256 == t + lo / 256);
        assert(n % 256 == lo % 256);
        lemma_be_bytes_split(hi, lo / 256, len, (k - 1) as nat);
        assert(be_bytes(n, len + k) == be_bytes(n / 256, (len + k - 1) as nat).push(
            (n % 256) as u8,
        ));
        assert(be_bytes(n, len + k) =~= be_bytes(hi, len) + be_bytes(lo, k));
    }
}

/// The 32-byte encoding of a word is the eight-byte encodings of its limbs,
/// most significant limb first.
pub proof fn lemma_be_bytes_word(x: U256)
    ensures
        be_bytes(x@, 32) == be_bytes(x.w3 as nat, 8) + be_bytes(x.w2 as nat, 8) + be_bytes(
            x.w1 as nat,
            8,
        ) + be_bytes(x.w0 as nat, 8),
{
    assert(pow256(8) == limb_base()) by {
        reveal_with_fuel(pow256, 9);
    }
    let n1 = word_value(0, x.w3, x.w2, x.w1);
    let n2 = word_value(0, 0, x.w3, x.w2);
    assert(x@ == n1 * pow256(8) + x.w0 as nat);
    assert(n1 == n2 * pow256(8) + x.w1 as nat);
    assert(n2 == (x.w3 as nat) * pow256(8) + x.w2 as nat);
    lemma_be_bytes_split(n1, x.w0 as nat, 24, 8);
    lemma_be_bytes_split(n2, x.w1 as nat, 16, 8);
    lemma_be_bytes_split(x.w3 as nat, x.w2 as nat, 8, 8);
}

/// The number that a big-endian byte string stands for.
pub open spec fn be_value(bytes: Seq<u8>) -> nat
    decreases bytes.len(),
{
    if bytes.len() == 0 {
        0
    } else {
        be_value(bytes.drop_last()) * 256 + bytes.last() as nat
    }
}

/// Decoding undoes encoding, for a number that fits in `len` bytes.
pub proof fn lemma_be_value_of_be_bytes(n: nat, len: nat)
    requires
        n < pow256(len),
    ensures
        be_value(be_bytes(n, len)) == n,
    decreases len,
{
    lemma_be_bytes_len(n, len);
    if len > 0 {
        let rest = be_bytes(n / 256, (len - 1) as nat);
        lemma_be_value_of_be_bytes(n / 256, (len - 1) as nat);
        assert(be_bytes(n, len).drop_last() =~= rest);
    }
}

/// 256^32 is 2^256.
pub proof fn lemma_pow256_32()
    ensures
        pow256(32) == modulus(),
{
    assert(pow256(8) == limb_base()) by {
        reveal_with_fuel(pow256, 9);
    }
    assert(pow256(16) == limb_base() * limb_base()) by {
        lemma_pow256_add(8, 8);
    }
    assert(pow256(32) == pow256(16) * pow256(16)) by {
        lemma_pow256_add(16, 16);
    }
}

/// 256^(a + b) is 256^a * 256^b.
pub proof fn lemma_pow256_add(a: nat, b: nat)
    ensures
        pow256(a + b) == pow256(a) * pow256(b),
    decreases a,
{
    if a == 0 {
        assert(1 * pow256(b) == pow256(b)) by (nonlinear_arith);
    } else {
        lemma_pow256_add((a - 1) as nat, b);
        let x = pow256((a - 1) as nat);
        let y = pow256(b);
        assert(256 * (x * y) == (256 * x) * y) by (nonlinear_arith);
    }
}

/// The length of an encoding is the length asked for.
pub proof fn lemma_be_bytes_len(n: nat, len: nat)
    ensures
        be_bytes(n, len).len() == len,
    decreases len,
{
    if len > 0 {
        lemma_be_bytes_len(n / 256, (len - 1) as nat);
    }
}

/// Two words with the same 32-byte encoding are the same word.
pub proof fn lemma_word_bytes_injective(a: U256, b: U256)
    requires
        be_bytes(a@, 32) == be_bytes(b@, 32),
    ensures
        a == b,
{
    lemma_pow256_32();
    lemma_be_value_of_be_bytes(a@, 32);
    lemma_be_value_of_be_bytes(b@, 32);
    lemma_view_injective(a, b);
}

/// Two words that stand for the same number are the same word.
pub proof fn lemma_view_injective(a: U256, b: U256)
    requires
        a@ == b@,
    ensures
        a == b,
{
    if a.w3 != b.w3 {
        assert(a.w3 < b.w3 ==> a@ < b@);
        assert(b.w3 < a.w3 ==> b@ < a@);
    } else if a.w2 != b.w2 {
        assert(a.w2 < b.w2 ==> a@ < b@);
        assert(b.w2 < a.w2 ==> b@ < a@);
    } else if a.w1 != b.w1 {
        assert(a.w1 < b.w1 ==> a@ < b@);
        assert(b.w1 < a.w1 ==> b@ < a@);
    }
}

impl U256 {
    /// The number zero.
    pub fn zero() -> (r: U256)
        ensures
            r@ == 0,
    {
        U256 { w3: 0, w2: 0, w1: 0, w0: 0 }
    }

    /// The number one.
    pub fn one() -> (r: U256)
        ensures
            r@ == 1,
    {
        U256 { w3: 0, w2: 0, w1: 0, w0: 1 }
    }

    /// The largest value, 2^256 - 1.
    pub fn max_value() -> (r: U256)
        ensures
            r@ == modulus() - 1,
    {
        U256 {
            w3: 0xffff_ffff_ffff_ffff,
            w2: 0xffff_ffff_ffff_ffff,
            w1: 0xffff_ffff_ffff_ffff,
            w0: 0xffff_ffff_ffff_ffff,
        }
    }

    /// The word that stands for `v`.
    pub fn from_u64(v: u64) -> (r: U256)
        ensures
            r@ == v,
    {
        U256 { w3: 0, w2: 0, w1: 0, w0: v }
    }

    /// The word that stands for `v`.
    pub fn from_u128(v: u128) -> (r: U256)
        ensures
            r@ == v,
    {
        let lo: u64 = (v % 0x1_0000_0000_0000_0000u128) as u64;
        let hi: u64 = (v / 0x1_0000_0000_0000_0000u128) as u64;
        U256 { w3: 0, w2: 0, w1: hi, w0: lo }
    }

    /// The value as a `u64`, where it fits.
    pub fn to_u64(&self) -> (r: Option<u64>)
        ensures
            r matches Some(v) ==> v == self@,
            r is None <==> self@ > u64::MAX,
    {
        if self.w3 == 0 && self.w2 == 0 && self.w1 == 0 {
            Some(self.w0)
        } else {
            None
        }
    }

    /// Whether the value is zero.
    pub fn is_zero(&self) -> (r: bool)
        ensures
            r == (self@ == 0),
    {
        self.w3 == 0 && self.w2 == 0 && self.w1 == 0 && self.w0 == 0
    }

    /// Whether `self` is strictly below `other`.
    pub fn lt(&self, other: &U256) -> (r: bool)
        ensures
            r == (self@ < other@),
    {
        if self.w3 != other.w3 {
            self.w3 < other.w3
        } else if self.w2 != other.w2 {
            self.w2 < other.w2
        } else if self.w1 != other.w1 {
            self.w1 < other.w1
        } else {
            self.w0 < other.w0
        }
    }

    /// Whether `self` is at most `other`.
    pub fn le(&self, other: &U256) -> (r: bool)
        ensures
            r == (self@ <= other@),
    {
        !other.lt(self)
    }

    /// The sum of two words and whether it left the 256-bit range: the
    /// returned word holds the sum reduced by 2^256 where the flag is set.
    pub fn carrying_add(&self, other: &U256) -> (r: (U256, bool))
        ensures
            r.0@ + (if r.1 { modulus() } else { 0 }) == self@ + other@,
    {
        let (w0, c0) = add_limb(self.w0, other.w0, false);
        let (w1, c1) = add_limb(self.w1, other.w1, c0);
        let (w2, c2) = add_limb(self.w2, other.w2, c1);
        let (w3, c3) = add_limb(self.w3, other.w3, c2);
        (U256 { w3, w2, w1, w0 }, c3)
    }

    /// The sum, unless it does not fit in 256 bits.
    pub fn checked_add(&self, other: &U256) -> (r: Option<U256>)
        ensures
            r matches Some(s) ==> s@ == self@ + other@,
            r is None <==> self@ + other@ >= modulus(),
    {
        let (sum, carry) = self.carrying_add(other);
        if carry {
            None
        } else {
            Some(sum)
        }
    }

    /// The difference, unless `other` is the larger.
    pub fn checked_sub(&self, other: &U256) -> (r: Option<U256>)
        ensures
            r matches Some(d) ==> d@ == self@ - other@,
            r is None <==> self@ < other@,
    {
        let (w0, c0) = sub_limb(self.w0, other.w0, false);
        let (w1, c1) = sub_limb(self.w1, other.w1, c0);
        let (w2, c2) = sub_limb(self.w2, other.w2, c1);
        let (w3, c3) = sub_limb(self.w3, other.w3, c2);
        if c3 {
            None
        } else {
            Some(U256 { w3, w2, w1, w0 })
        }
    }

    /// Ten times the value, unless that does not fit in 256 bits.
    pub fn checked_times_ten(&self) -> (r: Option<U256>)
        ensures
            r matches Some(t) ==> t@ == 10 * self@,
            r is None <==> 10 * self@ >= modulus(),
    {
        let twice = match self.checked_add(self) {
            Some(t) => t,
            None => {
                return None;
            },
        };
        let fourfold = match twice.checked_add(&twice) {
            Some(t) => t,
            None => {
                return None;
            },
        };
        let fivefold = match fourfold.checked_add(self) {
            Some(t) => t,
            None => {
                return None;
            },
        };
        fivefold.checked_add(&fivefold)
    }

    /// The next number, unless `self` is the largest.
    pub fn successor(&self) -> (r: Option<U256>)
        ensures
            r matches Some(s) ==> s@ == self@ + 1,
            r is None <==> self@ + 1 == modulus(),
    {
        let one = U256::one();
        self.checked_add(&one)
    }

    /// The 32 bytes of the value, most significant first.
    pub fn to_be_bytes(&self) -> (out: [u8; 32])
        ensures
            out@ == be_bytes(self@, 32),
    {
        let mut out: [u8; 32] = [0u8; 32];
        put_limb(&mut out, 0, self.w3);
        put_limb(&mut out, 8, self.w2);
        put_limb(&mut out, 16, self.w1);
        put_limb(&mut out, 24, self.w0);
        proof {
            lemma_be_bytes_word(*self);
            lemma_be_bytes_len(self.w3 as nat, 8);
            lemma_be_bytes_len(self.w2 as nat, 8);
            lemma_be_bytes_len(self.w1 as nat, 8);
            lemma_be_bytes_len(self.w0 as nat, 8);
            let e = be_bytes(self.w3 as nat, 8) + be_bytes(self.w2 as nat, 8) + be_bytes(
                self.w1 as nat,
                8,
            ) + be_bytes(self.w0 as nat, 8);
            assert forall|j: int| 0 <= j < 32 implies out@[j] == e[j] by {
                if j < 8 {
                    assert(out@[j] == out@.subrange(0, 8)[j]);
                } else if j < 16 {
                    assert(out@[j] == out@.subrange(8, 16)[j - 8]);
                } else if j < 24 {
                    assert(out@[j] == out@.subrange(16, 24)[j - 16]);
                } else {
                    assert(out@[j] == out@.subrange(24, 32)[j - 24]);
                }
            }
            assert(out@ =~= e);
        }
        out
    }

    /// The word that the 32 big-endian bytes stand for.
    pub fn from_be_bytes(bytes: &[u8; 32]) -> (r: U256)
        ensures
            be_bytes(r@, 32) == bytes@,
            r@ == be_value(bytes@),
    {
        let w3 = get_limb(bytes, 0);
        let w2 = get_limb(bytes, 8);
        let w1 = get_limb(bytes, 16);
        let w0 = get_limb(bytes, 24);
        let r = U256 { w3, w2, w1, w0 };
        proof {
            lemma_be_bytes_word(r);
            assert(bytes@ =~= bytes@.subrange(0, 8) + bytes@.subrange(8, 16) + bytes@.subrange(
                16,
                24,
            ) + bytes@.subrange(24, 32));
            lemma_pow256_32();
            lemma_be_value_of_be_bytes(r@, 32);
        }
        r
    }
}

} // verus!

//! Amounts and identifiers as text: token amounts in whole tokens with 18
//! decimals, and the text that a payment identifier is hashed from.
use crate::codec::Address;
use crate::word::{modulus, U256};
use vstd::prelude::*;
use vstd::string::StringSliceAdditionalSpecFns;

verus! {

/// The character of a decimal digit.
pub open spec fn digit_char(d: nat) -> char {
    ((48 + d % 10) as u8) as char
}

/// The decimal digits of `n`, without leading zeros.
pub open spec fn decimal(n: nat) -> Seq<char>
    decreases n,
{
    if n < 10 {
        seq![digit_char(n)]
    } else {
        decimal(n / 10).push(digit_char(n % 10))
    }
}

/// The lowest `width` decimal digits of `n`, with leading zeros.
pub open spec fn decimal_padded(n: nat, width: nat) -> Seq<char>
    decreases width,
{
    if width == 0 {
        Seq::empty()
    } else {
        decimal_padded(n / 10, (width - 1) as nat).push(digit_char(n % 10))
    }
}

/// The character of a hexadecimal digit, in lower case.
pub open spec fn hex_char(d: nat) -> char {
    if d % 16 < 10 {
        ((48 + d % 16) as u8) as char
    } else {
        ((87 + d % 16) as u8) as char
    }
}

/// The two hexadecimal digits of a byte.
pub open spec fn hex_byte(b: u8) -> Seq<char> {
    seq![hex_char(b as nat / 16), hex_char(b as nat % 16)]
}

/// The short form in which an address is shown: `0x`, its first two bytes,
/// an ellipsis, and its last two bytes.
pub open spec fn short_address(address: Seq<u8>) -> Seq<char> {
    seq!['0', 'x'] + hex_byte(address[0]) + hex_byte(address[1]) + seq!['\u{2026}'] + hex_byte(
        address[18],
    ) + hex_byte(address[19])
}

/// 10^18, the number of smallest units in one token.
pub open spec fn token_unit() -> nat {
    1_000_000_000_000_000_000
}

/// An amount of smallest units in whole tokens: the integer part, a point,
/// and 18 decimals.
pub open spec fn ether_text(amount: nat) -> Seq<char> {
    decimal(amount / token_unit()) + seq!['.'] + decimal_padded(amount % token_unit(), 18)
}

/// The text that the identifier of a payment is hashed from: the prefix, the
/// time in nanoseconds, and the sender in short form, joined by hyphens.
pub open spec fn payment_id_text(prefix: Seq<char>, timestamp: nat, sender: Seq<u8>) -> Seq<char> {
    prefix + seq!['-'] + decimal(timestamp) + seq!['-'] + short_address(sender)
}

/// The prefix of the `index`-th payment of a batch.
pub open spec fn batch_prefix(index: nat) -> Seq<char> {
    seq!['b', 'a', 't', 'c', 'h', '-'] + decimal(index)
}

/// The amount of smallest units that a text in whole tokens stands for, as
/// `ethers::utils::parse_ether` reads it, or the message of its error.
pub uninterp spec fn ether_amount(text: Seq<char>) -> std::result::Result<nat, Seq<char>>;

/// The byte of the decimal point.
pub const POINT: u8 = 46;

/// The byte of the underscore, which the parser takes out of the text
/// before it reads it.
pub const SEPARATOR: u8 = 95;

/// The number of decimals of a token.
pub const TOKEN_DECIMALS: usize = 18;

/// The most bytes before the point with which scaling cannot overflow:
/// whatever digits they are, scaled by 10^18 they stay below 2^256.
pub const MAX_WHOLE_LEN: usize = 59;

/// How many bytes from index `i` on are no separators.
pub open spec fn significant_from(bytes: Seq<u8>, i: int) -> nat
    decreases bytes.len() - i,
{
    if i < 0 || i >= bytes.len() {
        0
    } else if bytes[i] == SEPARATOR {
        significant_from(bytes, i + 1)
    } else {
        1 + significant_from(bytes, i + 1)
    }
}

/// How many bytes from index `i` on, up to the first point, are no
/// separators.
pub open spec fn whole_len_from(bytes: Seq<u8>, i: int) -> nat
    decreases bytes.len() - i,
{
    if i < 0 || i >= bytes.len() || bytes[i] == POINT {
        0
    } else if bytes[i] == SEPARATOR {
        whole_len_from(bytes, i + 1)
    } else {
        1 + whole_len_from(bytes, i + 1)
    }
}

/// How many bytes behind the first point at or after index `i` are no
/// separators; zero where there is no point.
pub open spec fn fraction_len_from(bytes: Seq<u8>, i: int) -> nat
    decreases bytes.len() - i,
{
    if i < 0 || i >= bytes.len() {
        0
    } else if bytes[i] == POINT {
        significant_from(bytes, i + 1)
    } else {
        fraction_len_from(bytes, i + 1)
    }
}

/// 10 to the power `k`.
pub open spec fn pow10(k: nat) -> nat
    decreases k,
{
    if k == 0 {
        1
    } else {
        10 * pow10((k - 1) as nat)
    }
}

/// The number that the digits from index `i` on add to `acc`, read as the
/// parser reads them: separators and the first point are passed over, and
/// `behind_point` says whether that point was passed already. `None` where a
/// byte is none of these.
pub open spec fn digits_value_from(bytes: Seq<u8>, i: int, behind_point: bool, acc: nat) -> Option<
    nat,
>
    decreases bytes.len() - i,
{
    if i < 0 || i >= bytes.len() {
        Some(acc)
    } else if bytes[i] == SEPARATOR {
        digits_value_from(bytes, i + 1, behind_point, acc)
    } else if bytes[i] == POINT && !behind_point {
        digits_value_from(bytes, i + 1, true, acc)
    } else if 48 <= bytes[i] <= 57 {
        digits_value_from(bytes, i + 1, behind_point, acc * 10 + (bytes[i] - 48) as nat)
    } else {
        None
    }
}

/// The number of smallest units that a text of digits with at most 18
/// decimals stands for: its digits as one number, scaled up to 18 decimals.
/// `None` for any other text.
pub open spec fn scaled_value(bytes: Seq<u8>) -> Option<nat> {
    match digits_value_from(bytes, 0, false, 0) {
        Some(v) => if fraction_len_from(bytes, 0) <= TOKEN_DECIMALS {
            Some(v * pow10((TOKEN_DECIMALS - fraction_len_from(bytes, 0)) as nat))
        } else {
            None
        },
        None => None,
    }
}

/// Whether the parser can scale the text without overflow. With 18
/// decimals or more the number is not scaled up; with up to 59 bytes before
/// the point the product stays below 2^256 whatever the digits are; and a
/// text of digits is safe where the number it stands for, scaled, is below
/// 2^256.
pub open spec fn safe_to_scale(bytes: Seq<u8>) -> bool {
    ||| fraction_len_from(bytes, 0) >= TOKEN_DECIMALS
    ||| whole_len_from(bytes, 0) <= MAX_WHOLE_LEN
    ||| (scaled_value(bytes) matches Some(v) && v < modulus())
}

/// Digits only add: what they stand for is at least what was there before.
proof fn lemma_digits_value_grows(bytes: Seq<u8>, i: int, behind_point: bool, acc: nat)
    requires
        0 <= i,
    ensures
        digits_value_from(bytes, i, behind_point, acc) matches Some(v) ==> v >= acc,
    decreases bytes.len() - i,
{
    if i < bytes.len() {
        if bytes[i] == SEPARATOR {
            lemma_digits_value_grows(bytes, i + 1, behind_point, acc);
        } else if bytes[i] == POINT && !behind_point {
            lemma_digits_value_grows(bytes, i + 1, true, acc);
        } else if 48 <= bytes[i] <= 57 {
            lemma_digits_value_grows(
                bytes,
                i + 1,
                behind_point,
                acc * 10 + (bytes[i] - 48) as nat,
            );
        }
    }
}

/// Scaling by a higher power of ten gives no less.
proof fn lemma_scaling_grows(v: nat, j: nat, k: nat)
    requires
        j <= k,
    ensures
        pow10(j) >= 1,
        v * pow10(j) <= v * pow10(k),
    decreases k,
{
    if j < k {
        lemma_scaling_grows(v, j, (k - 1) as nat);
        let p = pow10((k - 1) as nat);
        assert(v * p <= v * (10 * p)) by (nonlinear_arith);
    } else if j > 0 {
        lemma_scaling_grows(v, (j - 1) as nat, (j - 1) as nat);
    }
}

/// How many bytes before the first point, and how many behind it, are no
/// separators.
fn count_around_point(bytes: &[u8]) -> (r: (usize, usize))
    ensures
        r.0 == whole_len_from(bytes@, 0),
        r.1 == fraction_len_from(bytes@, 0),
{
    let mut i: usize = 0;
    let mut behind_point = false;
    let mut whole: usize = 0;
    let mut fraction: usize = 0;
    while i < bytes.len()
        invariant
            i <= bytes@.len(),
            whole <= i,
            fraction <= i,
            !behind_point ==> fraction == 0 && whole_len_from(bytes@, 0) == whole + whole_len_from(
                bytes@,
                i as int,
            ) && fraction_len_from(bytes@, 0) == fraction_len_from(bytes@, i as int),
            behind_point ==> whole_len_from(bytes@, 0) == whole && fraction_len_from(bytes@, 0)
                == fraction + significant_from(bytes@, i as int),
        decreases bytes@.len() - i,
    {
        let byte = bytes[i];
        if behind_point {
            if byte != SEPARATOR {
                fraction += 1;
            }
        } else if byte == POINT {
            behind_point = true;
        } else if byte != SEPARATOR {
            whole += 1;
        }
        i += 1;
    }
    (whole, fraction)
}

/// Whether a text with `fraction` decimals, 18 at most, is made of digits
/// that stand, scaled to 18 decimals, for a number below 2^256.
fn scaled_fits(bytes: &[u8], fraction: usize) -> (r: bool)
    requires
        fraction == fraction_len_from(bytes@, 0),
        fraction <= TOKEN_DECIMALS,
    ensures
        r == (scaled_value(bytes@) matches Some(v) && v < modulus()),
{
    let mut acc = U256::zero();
    let mut behind_point = false;
    let mut i: usize = 0;
    while i < bytes.len()
        invariant
            i <= bytes@.len(),
            fraction == fraction_len_from(bytes@, 0),
            fraction <= TOKEN_DECIMALS,
            digits_value_from(bytes@, 0, false, 0) == digits_value_from(
                bytes@,
                i as int,
                behind_point,
                acc@,
            ),
        decreases bytes@.len() - i,
    {
        let byte = bytes[i];
        if byte == SEPARATOR {
        } else if byte == POINT && !behind_point {
            behind_point = true;
        } else if 48 <= byte && byte <= 57 {
            let digit = U256::from_u64((byte - 48) as u64);
            let next = match acc.checked_times_ten() {
                Some(t) => t.checked_add(&digit),
                None => None,
            };
            match next {
                Some(n) => {
                    acc = n;
                },
                None => {
                    proof {
                        let grown = acc@ * 10 + (byte - 48) as nat;
                        lemma_digits_value_grows(bytes@, i + 1, behind_point, grown);
                        if digits_value_from(bytes@, 0, false, 0) is Some {
                            let v = digits_value_from(bytes@, 0, false, 0)->Some_0;
                            lemma_scaling_grows(v, 0, (TOKEN_DECIMALS - fraction) as nat);
                            assert(v * pow10(0) == v) by (nonlinear_arith)
                                requires
                                    pow10(0) == 1,
                            ;
                        }
                    }
                    return false;
                },
            }
        } else {
            return false;
        }
        i += 1;
    }
    let value = Ghost(acc@);
    let mut k: usize = fraction;
    proof {
        assert(value@ * pow10(0) == value@) by (nonlinear_arith)
            requires
                pow10(0) == 1,
        ;
    }
    while k < TOKEN_DECIMALS
        invariant
            fraction <= k <= TOKEN_DECIMALS,
            fraction == fraction_len_from(bytes@, 0),
            digits_value_from(bytes@, 0, false, 0) == Some(value@),
            acc@ == value@ * pow10((k - fraction) as nat),
        decreases TOKEN_DECIMALS - k,
    {
        match acc.checked_times_ten() {
            Some(t) => {
                proof {
                    let p = pow10((k - fraction) as nat);
                    assert(10 * (value@ * p) == value@ * (10 * p)) by (nonlinear_arith);
                }
                acc = t;
            },
            None => {
                proof {
                    let p = pow10((k - fraction) as nat);
                    assert(10 * (value@ * p) == value@ * (10 * p)) by (nonlinear_arith);
                    lemma_scaling_grows(
                        value@,
                        (k + 1 - fraction) as nat,
                        (TOKEN_DECIMALS - fraction) as nat,
                    );
                }
                return false;
            },
        }
        k += 1;
    }
    true
}

/// Whether the parser can scale the text without overflow.
pub fn is_safe_to_scale(bytes: &[u8]) -> (r: bool)
    ensures
        r == safe_to_scale(bytes@),
{
    let (whole, fraction) = count_around_point(bytes);
    if fraction >= TOKEN_DECIMALS || whole <= MAX_WHOLE_LEN {
        true
    } else {
        scaled_fits(bytes, fraction)
    }
}

/// Whether a character is a decimal digit.
pub open spec fn is_digit(c: char) -> bool {
    '0' <= c <= '9'
}

/// The decimal writing of a number is made of digits, at least one.
pub proof fn lemma_decimal_is_digits(n: nat)
    ensures
        decimal(n).len() >= 1,
        forall|i: int| 0 <= i < decimal(n).len() ==> is_digit(#[trigger] decimal(n)[i]),
    decreases n,
{
    if n >= 10 {
        lemma_decimal_is_digits(n / 10);
    }
}

/// The padded decimal writing of a number is made of as many digits as
/// were asked for.
pub proof fn lemma_decimal_padded_is_digits(n: nat, width: nat)
    ensures
        decimal_padded(n, width).len() == width,
        forall|i: int|
            0 <= i < width ==> is_digit(#[trigger] decimal_padded(n, width)[i]),
    decreases width,
{
    if width > 0 {
        lemma_decimal_padded_is_digits(n / 10, (width - 1) as nat);
    }
}

/// Where no byte from `i` on is a separator, every one of them counts.
proof fn lemma_significant_without_separator(bytes: Seq<u8>, i: int)
    requires
        0 <= i <= bytes.len(),
        forall|k: int| i <= k < bytes.len() ==> bytes[k] != SEPARATOR,
    ensures
        significant_from(bytes, i) == bytes.len() - i,
    decreases bytes.len() - i,
{
    if i < bytes.len() {
        lemma_significant_without_separator(bytes, i + 1);
    }
}

/// Where the first point at or after `i` stands at `at`, the decimals are
/// the bytes behind `at`.
proof fn lemma_fraction_behind_point(bytes: Seq<u8>, i: int, at: int)
    requires
        0 <= i <= at < bytes.len(),
        bytes[at] == POINT,
        forall|k: int| i <= k < at ==> bytes[k] != POINT,
    ensures
        fraction_len_from(bytes, i) == significant_from(bytes, at + 1),
    decreases at - i,
{
    if i < at {
        lemma_fraction_behind_point(bytes, i + 1, at);
    }
}

/// An amount written in whole tokens is ASCII text with 18 decimals, and so
/// is safe to scale, whatever the amount.
pub proof fn lemma_ether_text_is_safe(amount: nat)
    ensures
        vstd::utf8::is_ascii_chars(ether_text(amount)),
        safe_to_scale(vstd::utf8::encode_utf8(ether_text(amount))),
{
    let whole = decimal(amount / token_unit());
    let fraction = decimal_padded(amount % token_unit(), 18);
    let text = ether_text(amount);
    lemma_decimal_is_digits(amount / token_unit());
    lemma_decimal_padded_is_digits(amount % token_unit(), 18);
    assert forall|i: int| 0 <= i < text.len() implies (if i == whole.len() {
        text[i] == '.'
    } else {
        is_digit(#[trigger] text[i])
    }) by {
        if i < whole.len() {
            assert(text[i] == whole[i]);
        } else if i > whole.len() {
            assert(text[i] == fraction[i - whole.len() - 1]);
        }
    }
    assert(vstd::utf8::is_ascii_chars(text));
    vstd::utf8::is_ascii_chars_encode_utf8(text);
    let bytes = vstd::utf8::encode_utf8(text);
    let at = whole.len() as int;
    assert forall|k: int| 0 <= k < bytes.len() implies (if k == at {
        bytes[k] == POINT
    } else {
        #[trigger] bytes[k] != POINT && bytes[k] != SEPARATOR
    }) by {
        assert(bytes[k] == text[k] as u8);
        if k != at {
            assert(is_digit(text[k]));
        }
    }
    lemma_fraction_behind_point(bytes, 0, at);
    lemma_significant_without_separator(bytes, at + 1);
    assert(bytes.len() == whole.len() + 19);
}

/// Calls `ethers::utils::parse_ether`, which reads a decimal number of whole
/// tokens and scales it by 10^18. It is called only on ASCII text, where it
/// slices at character boundaries, and only on text that is safe to scale,
/// where its multiplication does not overflow. The contract claims only that
/// the outcome is a function of the text.
#[verifier::external_body]
pub(crate) fn parse_ether(amount: &str) -> (r: std::result::Result<U256, String>)
    requires
        vstd::string::is_ascii(amount),
        safe_to_scale(amount.spec_bytes()),
    ensures
        match r {
            Ok(v) => ether_amount(amount@) == Ok::<nat, Seq<char>>(v@),
            Err(e) => ether_amount(amount@) == Err::<nat, Seq<char>>(e@),
        },
{
    match ethers::utils::parse_ether(amount) {
        Ok(v) => Ok(U256 { w3: v.0[3], w2: v.0[2], w1: v.0[1], w0: v.0[0] }),
        Err(e) => Err(e.to_string()),
    }
}

/// Calls `ethers::utils::format_ether`, which divides the amount by 10^18
/// and writes the quotient, a point, and the remainder in 18 digits.
#[verifier::external_body]
pub(crate) fn format_ether(amount: &U256) -> (r: String)
    ensures
        r@ == ether_text(amount@),
{
    ethers::utils::format_ether(ethers::types::U256([amount.w0, amount.w1, amount.w2, amount.w3]))
}

/// Writes the prefix, the time and the sender, joined by hyphens, with
/// `format!`; the sender is written by `Display` of `ethers::types::Address`,
/// which gives the short form.
#[verifier::external_body]
pub(crate) fn format_payment_id(prefix: &str, timestamp: u128, sender: &Address) -> (r: String)
    ensures
        r@ == payment_id_text(prefix@, timestamp as nat, sender@),
{
    format!("{}-{}-{}", prefix, timestamp, ethers::types::Address::from(sender.0))
}

/// Writes `batch-` and the index in decimal with `format!`.
#[verifier::external_body]
pub(crate) fn format_batch_prefix(index: usize) -> (r: String)
    ensures
        r@ == batch_prefix(index as nat),
{
    format!("batch-{}", index)
}

} // verus!

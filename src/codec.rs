//! The text form of a closure slot's address.
//!
//! The protect primitive hands its callback one interpreter value and nothing
//! else, so the address of the slot that holds the closure travels as an
//! interpreter string of ASCII decimal digits and is read back on the other side.
use vstd::arithmetic::div_mod::lemma_fundamental_div_mod;
use vstd::prelude::*;

verus! {

/// The ASCII code of `0`.
pub const DIGIT_ZERO: u8 = 0x30;

/// The ASCII digit of `d`, for `d` below ten.
pub open spec fn digit_char(d: nat) -> u8 {
    (d + DIGIT_ZERO) as u8
}

/// Whether `b` is an ASCII decimal digit.
pub open spec fn is_digit(b: u8) -> bool {
    DIGIT_ZERO <= b <= DIGIT_ZERO + 9
}

/// The decimal digits of `n`, most significant first, with no leading zero
/// (`0` is the single digit `0`).
pub open spec fn decimal_text(n: nat) -> Seq<u8>
    decreases n,
{
    if n < 10 {
        seq![digit_char(n)]
    } else {
        decimal_text(n / 10).push(digit_char(n % 10))
    }
}

/// The number that the digit string `s` spells, most significant digit first.
pub open spec fn digits_value(s: Seq<u8>) -> nat
    decreases s.len(),
{
    if s.len() == 0 {
        0
    } else {
        digits_value(s.drop_last()) * 10 + (s.last() - DIGIT_ZERO) as nat
    }
}

/// Whether `s` is a non-empty string of decimal digits.
pub open spec fn is_decimal(s: Seq<u8>) -> bool {
    s.len() > 0 && forall|i: int| 0 <= i < s.len() ==> #[trigger] is_digit(s[i])
}

/// The address that the text `s` names: the number its digits spell, where it is
/// a non-empty string of decimal digits whose number fits a machine word.
pub open spec fn address_of_text(s: Seq<u8>) -> Option<usize> {
    if is_decimal(s) && digits_value(s) <= usize::MAX {
        Some(digits_value(s) as usize)
    } else {
        None
    }
}

/// Appends the decimal digits of `n` to `out`.
fn push_decimal(n: usize, out: &mut Vec<u8>)
    ensures
        final(out)@ == old(out)@ + decimal_text(n as nat),
    decreases n,
{
    if n < 10 {
        out.push(n as u8 + DIGIT_ZERO);
    } else {
        push_decimal(n / 10, out);
        out.push((n % 10) as u8 + DIGIT_ZERO);
        assert(final(out)@ =~= old(out)@ + decimal_text(n as nat));
    }
}

/// The decimal text of a slot's address.
pub fn encode_address(address: usize) -> (r: Vec<u8>)
    ensures
        r@ == decimal_text(address as nat),
{
    let mut out: Vec<u8> = Vec::new();
    push_decimal(address, &mut out);
    assert(out@ =~= decimal_text(address as nat));
    out
}

/// The value of a digit string grows, or stays, as digits are added to its end.
proof fn lemma_digits_value_monotone(s: Seq<u8>, i: int)
    requires
        0 <= i <= s.len(),
        forall|k: int| 0 <= k < s.len() ==> #[trigger] is_digit(s[k]),
    ensures
        digits_value(s.subrange(0, i)) <= digits_value(s),
    decreases s.len() - i,
{
    if i < s.len() {
        lemma_digits_value_monotone(s, i + 1);
        let next = s.subrange(0, i + 1);
        assert(next.drop_last() =~= s.subrange(0, i));
    } else {
        assert(s.subrange(0, i) =~= s);
    }
}

/// The address that the text `text` names, or `None` where it names none: where
/// it is empty, holds a byte that is not a decimal digit, or spells a number
/// beyond a machine word.
pub fn decode_address(text: &[u8]) -> (r: Option<usize>)
    ensures
        r == address_of_text(text@),
{
    if text.len() == 0 {
        return None;
    }
    let mut acc: usize = 0;
    let mut i: usize = 0;
    while i < text.len()
        invariant
            0 <= i <= text.len(),
            forall|k: int| 0 <= k < i ==> #[trigger] is_digit(text@[k]),
            acc as nat == digits_value(text@.subrange(0, i as int)),
        decreases text.len() - i,
    {
        let b = text[i];
        if b < DIGIT_ZERO || b > DIGIT_ZERO + 9 {
            assert(!is_digit(text@[i as int]));
            return None;
        }
        let d = (b - DIGIT_ZERO) as usize;
        let prefix = Ghost(text@.subrange(0, i as int + 1));
        assert(prefix@.drop_last() =~= text@.subrange(0, i as int));
        match acc.checked_mul(10) {
            Some(tens) => match tens.checked_add(d) {
                Some(next) => {
                    acc = next;
                },
                None => {
                    proof {
                        if is_decimal(text@) {
                            lemma_digits_value_monotone(text@, i as int + 1);
                        }
                    }
                    return None;
                },
            },
            None => {
                proof {
                    if is_decimal(text@) {
                        lemma_digits_value_monotone(text@, i as int + 1);
                    }
                }
                return None;
            },
        }
        i = i + 1;
    }
    assert(text@.subrange(0, text@.len() as int) =~= text@);
    Some(acc)
}

/// Every byte of a decimal text is a digit, and the text spells the number it
/// was made from.
proof fn lemma_decimal_text_spells(n: nat)
    ensures
        is_decimal(decimal_text(n)),
        digits_value(decimal_text(n)) == n,
    decreases n,
{
    if n >= 10 {
        lemma_decimal_text_spells(n / 10);
        let t = decimal_text(n);
        assert(t.drop_last() =~= decimal_text(n / 10));
        assert forall|i: int| 0 <= i < t.len() implies #[trigger] is_digit(t[i]) by {
            if i < t.len() - 1 {
                assert(t[i] == decimal_text(n / 10)[i]);
            }
        }
        assert(t.last() == digit_char(n % 10));
        assert((t.last() - DIGIT_ZERO) as nat == n % 10);
        assert(digits_value(t) == digits_value(decimal_text(n / 10)) * 10 + (t.last()
            - DIGIT_ZERO) as nat);
        assert((n / 10) * 10 + n % 10 == n) by {
            lemma_fundamental_div_mod(n as int, 10);
        }
    } else {
        let t = decimal_text(n);
        assert(t.drop_last() =~= Seq::<u8>::empty());
        assert((t.last() - DIGIT_ZERO) as nat == n);
        assert(digits_value(t) == digits_value(t.drop_last()) * 10 + (t.last() - DIGIT_ZERO) as nat);
    }
}

/// Reading back the text of an address gives that address, for every address.
pub proof fn lemma_address_round_trip(address: usize)
    ensures
        address_of_text(decimal_text(address as nat)) == Some(address),
{
    lemma_decimal_text_spells(address as nat);
}

/// Two different addresses have different texts, so the slots of nested protected
/// calls, which stand at different addresses, are never confused.
pub proof fn lemma_distinct_addresses_distinct_texts(a: usize, b: usize)
    requires
        a != b,
    ensures
        decimal_text(a as nat) != decimal_text(b as nat),
{
    lemma_address_round_trip(a);
    lemma_address_round_trip(b);
}

} // verus!

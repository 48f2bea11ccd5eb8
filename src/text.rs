//! Decimal text of integers and facts about the UTF-8 bytes of text.
use vstd::prelude::*;

verus! {

pub open spec fn digit_char(d: nat) -> char {
    if d == 0 {
        '0'
    } else if d == 1 {
        '1'
    } else if d == 2 {
        '2'
    } else if d == 3 {
        '3'
    } else if d == 4 {
        '4'
    } else if d == 5 {
        '5'
    } else if d == 6 {
        '6'
    } else if d == 7 {
        '7'
    } else if d == 8 {
        '8'
    } else {
        '9'
    }
}

/// The decimal digits of `n`, most significant first, without leading zeros.
pub open spec fn digits_of(n: nat) -> Seq<char>
    decreases n,
{
    if n < 10 {
        seq![digit_char(n)]
    } else {
        digits_of(n / 10).push(digit_char(n % 10))
    }
}

/// The canonical decimal text of an integer: a `-` before a negative one.
pub open spec fn decimal_of(n: int) -> Seq<char> {
    if n < 0 {
        seq!['-'] + digits_of((-n) as nat)
    } else {
        digits_of(n as nat)
    }
}

/// Relies on `ToString` for `i64`, which writes the integer in decimal.
#[verifier::external_body]
pub(crate) fn decimal_text(n: i64) -> (r: String)
    ensures
        r@ == decimal_of(n as int),
{
    n.to_string()
}

pub proof fn lemma_encode_utf8_concat(a: Seq<char>, b: Seq<char>)
    ensures
        vstd::utf8::encode_utf8(a + b) == vstd::utf8::encode_utf8(a) + vstd::utf8::encode_utf8(b),
    decreases a.len(),
{
    if a.len() == 0 {
        assert(a + b =~= b);
    } else {
        assert((a + b).drop_first() =~= a.drop_first() + b);
        lemma_encode_utf8_concat(a.drop_first(), b);
        assert(vstd::utf8::encode_utf8(a + b) =~= vstd::utf8::encode_utf8(a) + vstd::utf8::encode_utf8(b));
    }
}

/// Every character of a decimal text is ASCII.
pub proof fn lemma_digits_ascii(n: nat)
    ensures
        forall|i: int| 0 <= i < digits_of(n).len() ==> '0' <= #[trigger] digits_of(n)[i] <= '9',
    decreases n,
{
    if n >= 10 {
        lemma_digits_ascii(n / 10);
        let d = digits_of(n / 10);
        assert(digits_of(n) == d.push(digit_char(n % 10)));
        assert forall|i: int| 0 <= i < digits_of(n).len() implies '0' <= #[trigger] digits_of(
            n,
        )[i] <= '9' by {
            if i < d.len() {
                assert(digits_of(n)[i] == d[i]);
            }
        }
    }
}

} // verus!

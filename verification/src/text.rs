//! Plain text that goes on the wire outside any document.

use vstd::prelude::*;
use vstd::utf8::valid_utf8;

verus! {

/// `std::str::from_utf8`, asked only whether it succeeds: it does on the
/// bytes that are well-formed UTF-8 and on no others.
#[verifier::external_body]
pub(crate) fn utf8_accepts(bytes: &[u8]) -> (accepted: bool)
    ensures
        accepted == valid_utf8(bytes@),
{
    match std::str::from_utf8(bytes) {
        Ok(_) => true,
        Err(_) => false,
    }
}

/// Whether `bytes` are text, that is well-formed UTF-8.
pub fn is_text(bytes: &[u8]) -> (text: bool)
    ensures
        text == valid_utf8(bytes@),
{
    utf8_accepts(bytes)
}

/// Whether `text` reads `word`.
pub fn text_is(text: &String, word: &str) -> (same: bool)
    ensures
        same == (text@ == word@),
{
    let other = String::from_str(word);
    *text == other
}

/// The decimal digits of `n`, most significant first, as ASCII bytes.
pub open spec fn decimal(n: nat) -> Seq<u8>
    decreases n,
{
    if n < 10 {
        seq![(48 + n) as u8]
    } else {
        decimal(n / 10).push((48 + n % 10) as u8)
    }
}

/// The number that a run of decimal digits stands for.
pub open spec fn number_of(digits: Seq<u8>) -> nat
    decreases digits.len(),
{
    if digits.len() == 0 {
        0
    } else {
        number_of(digits.drop_last()) * 10 + (digits.last() - 48) as nat
    }
}

/// The decimal text of a number is made of digits only, begins with a zero
/// only for zero itself, and stands for that number.
pub proof fn lemma_decimal_reads_back(n: nat)
    ensures
        decimal(n).len() >= 1,
        forall|i: int| 0 <= i < decimal(n).len() ==> 48 <= #[trigger] decimal(n)[i] <= 57,
        n > 0 ==> decimal(n)[0] != 48,
        number_of(decimal(n)) == n,
    decreases n,
{
    if n < 10 {
        assert(decimal(n).drop_last() =~= Seq::<u8>::empty());
        assert(number_of(Seq::<u8>::empty()) == 0);
    } else {
        lemma_decimal_reads_back(n / 10);
        let head = decimal(n / 10);
        assert(decimal(n).drop_last() =~= head);
        assert(decimal(n)[0] == head[0]);
    }
}

/// Writes `n` in decimal, as `decimal` says.
pub fn decimal_bytes(n: u64) -> (out: Vec<u8>)
    ensures
        out@ == decimal(n as nat),
    decreases n,
{
    if n < 10 {
        let digit: u8 = 48 + (n as u8);
        let mut out: Vec<u8> = Vec::new();
        out.push(digit);
        assert(out@ =~= decimal(n as nat));
        out
    } else {
        let mut out = decimal_bytes(n / 10);
        let digit: u8 = 48 + ((n % 10) as u8);
        out.push(digit);
        out
    }
}

} // verus!

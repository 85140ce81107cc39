//! Character-level building blocks: decimal rendering of integers and
//! appending to strings.
use vstd::prelude::*;

verus! {

/// The character for a single decimal digit.
pub open spec fn digit_char(d: nat) -> char
    recommends
        d < 10,
{
    ((d + 48) as u8) as char
}

/// The decimal representation of `n`, most significant digit first, with no
/// leading zeros (zero itself is written as `0`).
pub open spec fn decimal(n: nat) -> Seq<char>
    decreases n,
{
    if n < 10 {
        seq![digit_char(n)]
    } else {
        decimal(n / 10).push(digit_char(n % 10))
    }
}

/// Every character of `s` is a decimal digit, and there is at least one.
pub open spec fn is_numeric(s: Seq<char>) -> bool {
    &&& s.len() > 0
    &&& forall|i: int| 0 <= i < s.len() ==> '0' <= #[trigger] s[i] <= '9'
}

/// A decimal representation is numeric.
pub proof fn lemma_decimal_is_numeric(n: nat)
    ensures
        is_numeric(decimal(n)),
    decreases n,
{
    if n >= 10 {
        lemma_decimal_is_numeric(n / 10);
    }
}

/// Relies on `String::push`: appends one character at the end.
#[verifier::external_body]
pub(crate) fn push_char(s: &mut String, c: char)
    ensures
        final(s)@ == old(s)@.push(c),
{
    s.push(c);
}

/// Appends the decimal representation of `n` to `out`.
pub fn push_decimal(out: &mut String, n: u128)
    ensures
        final(out)@ == old(out)@ + decimal(n as nat),
{
    // Digits are collected least significant first, then written in reverse.
    let mut digits: Vec<char> = Vec::new();
    let mut m: u128 = n;
    while m >= 10
        invariant
            m <= n,
            decimal(n as nat) == decimal(m as nat) + digits@.reverse(),
        decreases m,
    {
        let c: char = ((m % 10) as u8 + 48) as char;
        let ghost before = digits@;
        digits.push(c);
        assert(digits@.reverse() =~= seq![c] + before.reverse());
        assert(decimal(m as nat) == decimal((m / 10) as nat).push(c));
        assert(decimal((m / 10) as nat) + digits@.reverse()
            =~= decimal((m / 10) as nat).push(c) + before.reverse());
        m = m / 10;
    }
    let c: char = (m as u8 + 48) as char;
    let ghost before = digits@;
    digits.push(c);
    assert(digits@.reverse() =~= seq![c] + before.reverse());
    assert(decimal(m as nat) =~= seq![c]);
    assert(decimal(n as nat) =~= digits@.reverse());
    let mut k: usize = digits.len();
    let ghost start = out@;
    while k > 0
        invariant
            k <= digits.len(),
            out@ == start + digits@.subrange(k as int, digits@.len() as int).reverse(),
        decreases k,
    {
        k = k - 1;
        push_char(out, digits[k]);
        let ghost tail = digits@.subrange(k + 1, digits@.len() as int);
        assert(digits@.subrange(k as int, digits@.len() as int).reverse()
            =~= tail.reverse().push(digits@[k as int]));
    }
    assert(digits@.subrange(0, digits@.len() as int) =~= digits@);
}

} // verus!

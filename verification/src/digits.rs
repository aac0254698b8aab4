//! Decimal representation of unsigned integers, as bytes.
//!
//! The claims payload of a bearer token and the configuration parser both
//! read and write numbers in canonical decimal: at least one digit, no
//! leading zero except for the number zero itself.

use vstd::prelude::*;

verus! {

/// ASCII code of the digit zero.
pub const DIGIT_ZERO: u8 = 48;

/// Whether a byte is an ASCII decimal digit.
pub open spec fn is_digit(b: u8) -> bool {
    48 <= b && b <= 57
}

/// The canonical decimal representation of `n`, most significant digit first.
pub open spec fn dec_rep(n: nat) -> Seq<u8>
    decreases n,
{
    if n < 10 {
        seq![(48 + n) as u8]
    } else {
        dec_rep(n / 10).push((48 + n % 10) as u8)
    }
}

/// The number denoted by a sequence of ASCII digits.
pub open spec fn dec_val(s: Seq<u8>) -> nat
    decreases s.len(),
{
    if s.len() == 0 {
        0
    } else {
        dec_val(s.drop_last()) * 10 + (if is_digit(s.last()) {
            (s.last() - 48) as nat
        } else {
            0
        })
    }
}

/// A sequence of bytes that is the canonical decimal form of a `u64`:
/// nonempty, all digits, no leading zero unless it is exactly "0",
/// and in range.
pub open spec fn canonical_dec(s: Seq<u8>) -> bool {
    &&& s.len() > 0
    &&& forall|i: int| 0 <= i < s.len() ==> is_digit(#[trigger] s[i])
    &&& (s.len() > 1 ==> s[0] != 48)
    &&& dec_val(s) <= u64::MAX
}

/// The canonical representation is made of digits, and its first digit is
/// nonzero whenever it has more than one digit.
pub proof fn lemma_dec_rep_digits(n: nat)
    ensures
        dec_rep(n).len() > 0,
        forall|i: int| 0 <= i < dec_rep(n).len() ==> is_digit(#[trigger] dec_rep(n)[i]),
        dec_rep(n).len() > 1 ==> dec_rep(n)[0] != 48,
        n >= 10 ==> dec_rep(n)[0] != 48,
    decreases n,
{
    if n < 10 {
    } else {
        lemma_dec_rep_digits(n / 10);
        assert(dec_rep(n) == dec_rep(n / 10).push((48 + n % 10) as u8));
        assert(dec_rep(n)[0] == dec_rep(n / 10)[0]);
    }
}

/// Reading back the canonical representation yields the number itself.
pub proof fn lemma_dec_val_of_rep(n: nat)
    ensures
        dec_val(dec_rep(n)) == n,
    decreases n,
{
    if n < 10 {
        let s = dec_rep(n);
        assert(s == seq![(48 + n) as u8]);
        assert(s.drop_last() =~= Seq::<u8>::empty());
        assert(s.last() == (48 + n) as u8);
        assert(is_digit(s.last()));
        assert(dec_val(s.drop_last()) == 0);
        assert(dec_val(s) == 0 * 10 + ((s.last() - 48) as nat));
        assert(dec_val(s) == n);
    } else {
        lemma_dec_val_of_rep(n / 10);
        let s = dec_rep(n);
        assert(s == dec_rep(n / 10).push((48 + n % 10) as u8));
        assert(s.drop_last() =~= dec_rep(n / 10));
        assert(s.last() == (48 + n % 10) as u8);
        assert(is_digit(s.last()));
        assert(dec_val(s) == dec_val(s.drop_last()) * 10 + (n % 10));
        assert(dec_val(s.drop_last()) == n / 10);
        assert(n == (n / 10) * 10 + n % 10);
    }
}

/// Extending a digit sequence on the right never decreases its value.
pub proof fn lemma_dec_val_extend_ge(s: Seq<u8>, i: int, k: int, j: int)
    requires
        0 <= i <= k <= j <= s.len(),
    ensures
        dec_val(s.subrange(i, j)) >= dec_val(s.subrange(i, k)),
    decreases j - k,
{
    if j == k {
    } else {
        lemma_dec_val_extend_ge(s, i, k, j - 1);
        assert(s.subrange(i, j).drop_last() =~= s.subrange(i, j - 1));
        assert(dec_val(s.subrange(i, j)) >= dec_val(s.subrange(i, j - 1)) * 10);
    }
}

/// The canonical representation of a `u64` satisfies `canonical_dec`.
pub proof fn lemma_dec_rep_canonical(n: u64)
    ensures
        canonical_dec(dec_rep(n as nat)),
{
    lemma_dec_rep_digits(n as nat);
    lemma_dec_val_of_rep(n as nat);
}

/// Appends the canonical decimal form of `n` to `out`.
pub fn push_dec_u64(out: &mut Vec<u8>, n: u64)
    ensures
        final(out)@ == old(out)@ + dec_rep(n as nat),
    decreases n,
{
    if n < 10 {
        out.push(48 + n as u8);
        assert(out@ =~= old(out)@ + dec_rep(n as nat));
    } else {
        push_dec_u64(out, n / 10);
        out.push(48 + (n % 10) as u8);
        assert(out@ =~= old(out)@ + dec_rep(n as nat));
    }
}

} // verus!

//! The claims payload carried inside a bearer token.
//!
//! A token's payload is the JSON object
//! `{"account_id":A,"exp":E,"nbf":N}` with the three numbers in canonical
//! decimal. The writer and the reader below are both verified against the
//! same byte-level grammar, and reading back a written payload is proved to
//! recover the claims exactly.

use vstd::prelude::*;

use crate::digits::{canonical_dec, dec_rep, dec_val, is_digit, push_dec_u64};
use crate::digits::{lemma_dec_rep_canonical, lemma_dec_rep_digits, lemma_dec_val_of_rep};
use crate::digits::lemma_dec_val_extend_ge;

verus! {

/// The bytes of `{"account_id":`.
pub open spec fn claims_prefix() -> Seq<u8> {
    seq![123u8, 34u8, 97u8, 99u8, 99u8, 111u8, 117u8, 110u8, 116u8, 95u8, 105u8, 100u8, 34u8, 58u8]
}

/// The bytes of `,"exp":`.
pub open spec fn exp_sep() -> Seq<u8> {
    seq![44u8, 34u8, 101u8, 120u8, 112u8, 34u8, 58u8]
}

/// The bytes of `,"nbf":`.
pub open spec fn nbf_sep() -> Seq<u8> {
    seq![44u8, 34u8, 110u8, 98u8, 102u8, 34u8, 58u8]
}

/// The canonical payload stating `account_id`, a not-before time and an
/// expiry time, both in seconds since the Unix epoch.
pub open spec fn claims_bytes(account_id: u64, nbf: u64, exp: u64) -> Seq<u8> {
    claims_prefix() + dec_rep(account_id as nat) + exp_sep() + dec_rep(exp as nat) + nbf_sep()
        + dec_rep(nbf as nat) + seq![125u8]
}

/// Whether `pat` occurs in `s` at position `i`.
pub open spec fn matches_at(s: Seq<u8>, i: int, pat: Seq<u8>) -> bool {
    0 <= i && i + pat.len() <= s.len() && s.subrange(i, i + pat.len()) == pat
}

/// The number of consecutive digits in `s` starting at `i`.
pub open spec fn digit_run_len(s: Seq<u8>, i: int) -> int
    decreases s.len() - i,
{
    if i < 0 || i >= s.len() || !is_digit(s[i]) {
        0
    } else {
        1 + digit_run_len(s, i + 1)
    }
}

/// Reads one canonical decimal number at position `i`; yields the value
/// and the position just past it.
pub open spec fn parse_num(s: Seq<u8>, i: int) -> Option<(u64, int)> {
    let l = digit_run_len(s, i);
    let d = s.subrange(i, i + l);
    if canonical_dec(d) {
        Some((dec_val(d) as u64, i + l))
    } else {
        None
    }
}

/// The reading of a whole payload: the three claims if `s` follows the
/// grammar, nothing otherwise.
pub open spec fn parse_claims_spec(s: Seq<u8>) -> Option<(u64, u64, u64)> {
    if !matches_at(s, 0, claims_prefix()) {
        None
    } else {
        match parse_num(s, claims_prefix().len() as int) {
            None => None,
            Some((a, i1)) => if !matches_at(s, i1, exp_sep()) {
                None
            } else {
                match parse_num(s, i1 + exp_sep().len()) {
                    None => None,
                    Some((e, i2)) => if !matches_at(s, i2, nbf_sep()) {
                        None
                    } else {
                        match parse_num(s, i2 + nbf_sep().len()) {
                            None => None,
                            Some((n, i3)) => if i3 == s.len() - 1 && s[i3] == 125 {
                                Some((a, n, e))
                            } else {
                                None
                            },
                        }
                    },
                }
            },
        }
    }
}

/// A run of `l` digits at `i`, delimited on the right, has exactly that
/// run length.
proof fn lemma_digit_run_len_exact(s: Seq<u8>, i: int, l: int)
    requires
        0 <= i,
        l >= 0,
        i + l <= s.len(),
        forall|j: int| i <= j < i + l ==> is_digit(#[trigger] s[j]),
        i + l == s.len() || !is_digit(s[i + l]),
    ensures
        digit_run_len(s, i) == l,
    decreases l,
{
    if l == 0 {
    } else {
        lemma_digit_run_len_exact(s, i + 1, l - 1);
    }
}

/// Every byte of a payload is ASCII.
pub proof fn lemma_claims_bytes_ascii(account_id: u64, nbf: u64, exp: u64)
    ensures
        forall|i: int|
            0 <= i < claims_bytes(account_id, nbf, exp).len() ==> #[trigger] claims_bytes(
                account_id,
                nbf,
                exp,
            )[i] < 128,
{
    let s = claims_bytes(account_id, nbf, exp);
    lemma_dec_rep_digits(account_id as nat);
    lemma_dec_rep_digits(exp as nat);
    lemma_dec_rep_digits(nbf as nat);
    let da = dec_rep(account_id as nat);
    let de = dec_rep(exp as nat);
    let dn = dec_rep(nbf as nat);
    assert forall|i: int| 0 <= i < s.len() implies #[trigger] s[i] < 128 by {
        let p1 = claims_prefix().len() as int;
        let p2 = p1 + da.len();
        let p3 = p2 + exp_sep().len();
        let p4 = p3 + de.len();
        let p5 = p4 + nbf_sep().len();
        let p6 = p5 + dn.len();
        if i < p1 {
            assert(s[i] == claims_prefix()[i]);
        } else if i < p2 {
            assert(s[i] == da[i - p1]);
            assert(is_digit(da[i - p1]));
        } else if i < p3 {
            assert(s[i] == exp_sep()[i - p2]);
        } else if i < p4 {
            assert(s[i] == de[i - p3]);
            assert(is_digit(de[i - p3]));
        } else if i < p5 {
            assert(s[i] == nbf_sep()[i - p4]);
        } else if i < p6 {
            assert(s[i] == dn[i - p5]);
            assert(is_digit(dn[i - p5]));
        } else {
            assert(s[i] == 125);
        }
    }
}

/// Reading a written payload yields the written claims: the codec round
/// trips.
pub proof fn lemma_claims_round_trip(account_id: u64, nbf: u64, exp: u64)
    ensures
        parse_claims_spec(claims_bytes(account_id, nbf, exp)) == Some((account_id, nbf, exp)),
{
    let s = claims_bytes(account_id, nbf, exp);
    let da = dec_rep(account_id as nat);
    let de = dec_rep(exp as nat);
    let dn = dec_rep(nbf as nat);
    lemma_dec_rep_canonical(account_id);
    lemma_dec_rep_canonical(exp);
    lemma_dec_rep_canonical(nbf);
    lemma_dec_val_of_rep(account_id as nat);
    lemma_dec_val_of_rep(exp as nat);
    lemma_dec_val_of_rep(nbf as nat);
    let p1 = claims_prefix().len() as int;
    let p2 = p1 + da.len();
    let p3 = p2 + exp_sep().len();
    let p4 = p3 + de.len();
    let p5 = p4 + nbf_sep().len();
    let p6 = p5 + dn.len();
    assert(s.len() == p6 + 1);

    assert(s.subrange(0, p1) =~= claims_prefix());
    assert(matches_at(s, 0, claims_prefix()));

    assert(s.subrange(p1, p2) =~= da);
    assert(forall|j: int| p1 <= j < p2 ==> is_digit(#[trigger] s[j]));
    assert(s[p2] == exp_sep()[0]);
    assert(!is_digit(s[p2]));
    lemma_digit_run_len_exact(s, p1, da.len() as int);
    assert(parse_num(s, p1) == Some((account_id, p2)));

    assert(s.subrange(p2, p3) =~= exp_sep());
    assert(matches_at(s, p2, exp_sep()));

    assert(s.subrange(p3, p4) =~= de);
    assert(forall|j: int| p3 <= j < p4 ==> is_digit(#[trigger] s[j]));
    assert(s[p4] == nbf_sep()[0]);
    assert(!is_digit(s[p4]));
    lemma_digit_run_len_exact(s, p3, de.len() as int);
    assert(parse_num(s, p3) == Some((exp, p4)));

    assert(s.subrange(p4, p5) =~= nbf_sep());
    assert(matches_at(s, p4, nbf_sep()));

    assert(s.subrange(p5, p6) =~= dn);
    assert(forall|j: int| p5 <= j < p6 ==> is_digit(#[trigger] s[j]));
    assert(s[p6] == 125u8);
    assert(!is_digit(s[p6]));
    lemma_digit_run_len_exact(s, p5, dn.len() as int);
    assert(parse_num(s, p5) == Some((nbf, p6)));

    assert(s[p6] == 125u8 && p6 == s.len() - 1);
}

/// Writes the canonical payload for the three claims.
pub fn serialize_claims(account_id: u64, nbf: u64, exp: u64) -> (r: Vec<u8>)
    ensures
        r@ == claims_bytes(account_id, nbf, exp),
        forall|i: int| 0 <= i < r@.len() ==> r@[i] < 128,
{
    let mut v: Vec<u8> = Vec::new();
    v.push(123);
    v.push(34);
    v.push(97);
    v.push(99);
    v.push(99);
    v.push(111);
    v.push(117);
    v.push(110);
    v.push(116);
    v.push(95);
    v.push(105);
    v.push(100);
    v.push(34);
    v.push(58);
    assert(v@ =~= claims_prefix());
    push_dec_u64(&mut v, account_id);
    v.push(44);
    v.push(34);
    v.push(101);
    v.push(120);
    v.push(112);
    v.push(34);
    v.push(58);
    assert(v@ =~= claims_prefix() + dec_rep(account_id as nat) + exp_sep());
    push_dec_u64(&mut v, exp);
    v.push(44);
    v.push(34);
    v.push(110);
    v.push(98);
    v.push(102);
    v.push(34);
    v.push(58);
    assert(v@ =~= claims_prefix() + dec_rep(account_id as nat) + exp_sep() + dec_rep(exp as nat)
        + nbf_sep());
    push_dec_u64(&mut v, nbf);
    v.push(125);
    assert(v@ =~= claims_bytes(account_id, nbf, exp));
    proof {
        lemma_claims_bytes_ascii(account_id, nbf, exp);
    }
    v
}

/// Whether a byte is an ASCII decimal digit.
fn is_digit_byte(b: u8) -> (r: bool)
    ensures
        r == is_digit(b),
{
    b >= 48 && b <= 57
}

/// Reads one canonical decimal number at position `i`, as `parse_num`
/// describes.
fn parse_num_exec(s: &[u8], i: usize) -> (r: Option<(u64, usize)>)
    requires
        i <= s@.len(),
    ensures
        match r {
            Some((v, j)) => parse_num(s@, i as int) == Some((v, j as int)) && i <= j <= s@.len(),
            None => parse_num(s@, i as int) is None,
        },
{
    let mut j: usize = i;
    while j < s.len() && s[j] >= 48 && s[j] <= 57
        invariant
            i <= j <= s@.len(),
            forall|k: int| i <= k < j ==> is_digit(#[trigger] s@[k]),
        decreases s@.len() - j,
    {
        j += 1;
    }
    proof {
        lemma_digit_run_len_exact(s@, i as int, j - i);
    }
    let ghost d = s@.subrange(i as int, j as int);
    if j == i {
        assert(!canonical_dec(d));
        return None;
    }
    if j - i > 1 && s[i] == 48 {
        assert(d[0] == 48 && d.len() > 1);
        assert(!canonical_dec(d));
        return None;
    }
    let mut val: u64 = 0;
    let mut k: usize = i;
    while k < j
        invariant
            i <= k <= j <= s@.len(),
            forall|m: int| i <= m < j ==> is_digit(#[trigger] s@[m]),
            val == dec_val(s@.subrange(i as int, k as int)),
            d == s@.subrange(i as int, j as int),
            digit_run_len(s@, i as int) == j - i,
        decreases j - k,
    {
        let dk = s[k] - 48;
        assert(s@.subrange(i as int, k + 1).drop_last() =~= s@.subrange(i as int, k as int));
        assert(dec_val(s@.subrange(i as int, k + 1)) == val * 10 + dk);
        if val > u64::MAX / 10 {
            proof {
                assert(u64::MAX == (u64::MAX / 10) * 10 + (u64::MAX % 10));
                assert(val >= u64::MAX / 10 + 1);
                assert(val * 10 >= (u64::MAX / 10 + 1) * 10);
                assert(val * 10 > u64::MAX);
                lemma_dec_val_extend_ge(s@, i as int, k + 1, j as int);
                assert(dec_val(d) > u64::MAX);
                assert(!canonical_dec(d));
            }
            return None;
        }
        assert(val * 10 <= (u64::MAX / 10) * 10);
        let v10 = val * 10;
        if dk as u64 > u64::MAX - v10 {
            proof {
                lemma_dec_val_extend_ge(s@, i as int, k + 1, j as int);
                assert(dec_val(d) > u64::MAX);
                assert(!canonical_dec(d));
            }
            return None;
        }
        val = v10 + dk as u64;
        k += 1;
    }
    assert(d.len() > 0 && (d.len() > 1 ==> d[0] != 48));
    assert(forall|m: int| 0 <= m < d.len() ==> is_digit(#[trigger] d[m]));
    assert(canonical_dec(d));
    assert(val == dec_val(d));
    Some((val, j))
}

/// Whether the prefix `{"account_id":` stands at the start of `s`.
fn expect_prefix(s: &[u8]) -> (r: bool)
    ensures
        r == matches_at(s@, 0, claims_prefix()),
{
    if s.len() < 14 {
        assert(!matches_at(s@, 0, claims_prefix()));
        return false;
    }
    let r = s[0] == 123 && s[1] == 34 && s[2] == 97 && s[3] == 99 && s[4] == 99 && s[5] == 111
        && s[6] == 117 && s[7] == 110 && s[8] == 116 && s[9] == 95 && s[10] == 105 && s[11] == 100
        && s[12] == 34 && s[13] == 58;
    proof {
        if r {
            assert(s@.subrange(0, 14) =~= claims_prefix());
        } else {
            assert(s@.subrange(0, 14) != claims_prefix()) by {
                if s@.subrange(0, 14) == claims_prefix() {
                    assert(s@[0] == claims_prefix()[0]);
                    assert(s@[1] == claims_prefix()[1]);
                    assert(s@[2] == claims_prefix()[2]);
                    assert(s@[3] == claims_prefix()[3]);
                    assert(s@[4] == claims_prefix()[4]);
                    assert(s@[5] == claims_prefix()[5]);
                    assert(s@[6] == claims_prefix()[6]);
                    assert(s@[7] == claims_prefix()[7]);
                    assert(s@[8] == claims_prefix()[8]);
                    assert(s@[9] == claims_prefix()[9]);
                    assert(s@[10] == claims_prefix()[10]);
                    assert(s@[11] == claims_prefix()[11]);
                    assert(s@[12] == claims_prefix()[12]);
                    assert(s@[13] == claims_prefix()[13]);
                }
            }
        }
    }
    r
}

/// Whether `,"exp":` stands at position `i` of `s`.
fn expect_exp_sep(s: &[u8], i: usize) -> (r: bool)
    requires
        i <= s@.len(),
    ensures
        r == matches_at(s@, i as int, exp_sep()),
{
    if s.len() - i < 7 {
        assert(!matches_at(s@, i as int, exp_sep()));
        return false;
    }
    let r = s[i] == 44 && s[i + 1] == 34 && s[i + 2] == 101 && s[i + 3] == 120 && s[i + 4] == 112
        && s[i + 5] == 34 && s[i + 6] == 58;
    proof {
        if r {
            assert(s@.subrange(i as int, i + 7) =~= exp_sep());
        } else {
            assert(s@.subrange(i as int, i + 7) != exp_sep()) by {
                if s@.subrange(i as int, i + 7) == exp_sep() {
                    assert(s@[i as int] == exp_sep()[0]);
                    assert(s@[i + 1] == exp_sep()[1]);
                    assert(s@[i + 2] == exp_sep()[2]);
                    assert(s@[i + 3] == exp_sep()[3]);
                    assert(s@[i + 4] == exp_sep()[4]);
                    assert(s@[i + 5] == exp_sep()[5]);
                    assert(s@[i + 6] == exp_sep()[6]);
                }
            }
        }
    }
    r
}

/// Whether `,"nbf":` stands at position `i` of `s`.
fn expect_nbf_sep(s: &[u8], i: usize) -> (r: bool)
    requires
        i <= s@.len(),
    ensures
        r == matches_at(s@, i as int, nbf_sep()),
{
    if s.len() - i < 7 {
        assert(!matches_at(s@, i as int, nbf_sep()));
        return false;
    }
    let r = s[i] == 44 && s[i + 1] == 34 && s[i + 2] == 110 && s[i + 3] == 98 && s[i + 4] == 102
        && s[i + 5] == 34 && s[i + 6] == 58;
    proof {
        if r {
            assert(s@.subrange(i as int, i + 7) =~= nbf_sep());
        } else {
            assert(s@.subrange(i as int, i + 7) != nbf_sep()) by {
                if s@.subrange(i as int, i + 7) == nbf_sep() {
                    assert(s@[i as int] == nbf_sep()[0]);
                    assert(s@[i + 1] == nbf_sep()[1]);
                    assert(s@[i + 2] == nbf_sep()[2]);
                    assert(s@[i + 3] == nbf_sep()[3]);
                    assert(s@[i + 4] == nbf_sep()[4]);
                    assert(s@[i + 5] == nbf_sep()[5]);
                    assert(s@[i + 6] == nbf_sep()[6]);
                }
            }
        }
    }
    r
}

/// Reads a payload, as `parse_claims_spec` describes: the three claims if
/// `s` follows the grammar, nothing otherwise.
pub fn parse_claims(s: &[u8]) -> (r: Option<(u64, u64, u64)>)
    ensures
        r == parse_claims_spec(s@),
{
    let n = s.len();
    if !expect_prefix(s) {
        return None;
    }
    let r1 = parse_num_exec(s, 14);
    match r1 {
        None => None,
        Some((a, i1)) => {
            if !expect_exp_sep(s, i1) {
                return None;
            }
            let r2 = parse_num_exec(s, i1 + 7);
            match r2 {
                None => None,
                Some((e, i2)) => {
                    if !expect_nbf_sep(s, i2) {
                        return None;
                    }
                    let r3 = parse_num_exec(s, i2 + 7);
                    match r3 {
                        None => None,
                        Some((nb, i3)) => {
                            if i3 == n - 1 && s[i3] == 125 {
                                Some((a, nb, e))
                            } else {
                                None
                            }
                        },
                    }
                },
            }
        },
    }
}

} // verus!

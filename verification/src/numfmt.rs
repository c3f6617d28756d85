//! Decimal rendering of machine integers, with an exact character-level
//! specification.  Namespace names, interface names and CIDR strings are all
//! built from these digits, so the planner's naming contracts rest on the
//! lemmas proved here (digit-count bounds and injectivity).

use vstd::prelude::*;

verus! {

/// The character for a single decimal digit value.
pub open spec fn digit_char(d: nat) -> char {
    if d == 0 {
        '0'
    } else if d == 1 {
        '1'
    } else if d == 2 {
        '2'
    } else if d == 3 {
        '3'
    } else if d == 4 {
        '4'
    } else if d == 5 {
        '5'
    } else if d == 6 {
        '6'
    } else if d == 7 {
        '7'
    } else if d == 8 {
        '8'
    } else {
        '9'
    }
}

/// The usual base-10 rendering of `n`: most significant digit first, no
/// leading zeroes (`0` itself renders as "0").
pub open spec fn dec_seq(n: nat) -> Seq<char>
    decreases n,
{
    if n < 10 {
        seq![digit_char(n)]
    } else {
        dec_seq(n / 10) + seq![digit_char(n % 10)]
    }
}

/// `10^k`, the count of `k`-digit strings (with leading zeroes allowed).
pub open spec fn pow10(k: nat) -> nat
    decreases k,
{
    if k == 0 {
        1
    } else {
        10 * pow10((k - 1) as nat)
    }
}

pub proof fn lemma_pow10_positive(k: nat)
    ensures
        pow10(k) >= 1,
    decreases k,
{
    if k > 0 {
        lemma_pow10_positive((k - 1) as nat);
    }
}

pub proof fn lemma_dec_seq_len_at_least_one(n: nat)
    ensures
        dec_seq(n).len() >= 1,
    decreases n,
{
    if n >= 10 {
        lemma_dec_seq_len_at_least_one(n / 10);
    }
}

/// A value below `10^k` renders in at most `k` digits.
pub proof fn lemma_dec_seq_len_bound(n: nat, k: nat)
    requires
        k >= 1,
        n < pow10(k),
    ensures
        dec_seq(n).len() <= k,
    decreases k,
{
    lemma_pow10_positive((k - 1) as nat);
    if n >= 10 {
        assert(pow10(k) == 10 * pow10((k - 1) as nat));
        assert(n / 10 < pow10((k - 1) as nat));
        lemma_dec_seq_len_bound(n / 10, (k - 1) as nat);
    }
}

/// A value of `10^k` or more renders in more than `k` digits.
pub proof fn lemma_dec_seq_len_lower(n: nat, k: nat)
    requires
        n >= pow10(k),
        k >= 1,
    ensures
        dec_seq(n).len() >= k + 1,
    decreases k,
{
    assert(pow10(k) == 10 * pow10((k - 1) as nat));
    lemma_pow10_positive((k - 1) as nat);
    assert(n >= 10);
    assert(n / 10 >= pow10((k - 1) as nat));
    if k == 1 {
        lemma_dec_seq_len_at_least_one(n / 10);
    } else {
        lemma_dec_seq_len_lower(n / 10, (k - 1) as nat);
    }
}

proof fn lemma_digit_char_injective(a: nat, b: nat)
    requires
        a < 10,
        b < 10,
        digit_char(a) == digit_char(b),
    ensures
        a == b,
{
}

/// Distinct numbers render as distinct digit strings.
pub proof fn lemma_dec_seq_injective(a: nat, b: nat)
    requires
        dec_seq(a) == dec_seq(b),
    ensures
        a == b,
    decreases a,
{
    if a < 10 && b < 10 {
        assert(dec_seq(a)[0] == digit_char(a));
        assert(dec_seq(b)[0] == digit_char(b));
        lemma_digit_char_injective(a, b);
    } else if a < 10 && b >= 10 {
        lemma_dec_seq_len_at_least_one(b / 10);
        assert(dec_seq(b).len() >= 2);
        assert(dec_seq(a).len() == 1);
    } else if a >= 10 && b < 10 {
        lemma_dec_seq_len_at_least_one(a / 10);
        assert(dec_seq(a).len() >= 2);
        assert(dec_seq(b).len() == 1);
    } else {
        let la = dec_seq(a / 10).len() as int;
        let lb = dec_seq(b / 10).len() as int;
        assert(dec_seq(a).len() == la + 1);
        assert(dec_seq(b).len() == lb + 1);
        assert(la == lb);
        assert(dec_seq(a).last() == digit_char(a % 10));
        assert(dec_seq(b).last() == digit_char(b % 10));
        lemma_digit_char_injective(a % 10, b % 10);
        assert(a % 10 == b % 10);
        assert(dec_seq(a / 10) =~= dec_seq(b / 10)) by {
            assert forall|i: int| 0 <= i < la implies #[trigger] dec_seq(a / 10)[i] == dec_seq(
                b / 10,
            )[i] by {
                assert(dec_seq(a)[i] == dec_seq(a / 10)[i]);
                assert(dec_seq(b)[i] == dec_seq(b / 10)[i]);
            }
        }
        lemma_dec_seq_injective(a / 10, b / 10);
        assert(a == 10 * (a / 10) + a % 10);
        assert(b == 10 * (b / 10) + b % 10);
    }
}

/// The single-character string for one decimal digit.
fn digit_str(d: usize) -> (r: &'static str)
    requires
        d < 10,
    ensures
        r@ =~= seq![digit_char(d as nat)],
{
    proof {
        reveal_strlit("0");
        reveal_strlit("1");
        reveal_strlit("2");
        reveal_strlit("3");
        reveal_strlit("4");
        reveal_strlit("5");
        reveal_strlit("6");
        reveal_strlit("7");
        reveal_strlit("8");
        reveal_strlit("9");
    }
    if d == 0 {
        "0"
    } else if d == 1 {
        "1"
    } else if d == 2 {
        "2"
    } else if d == 3 {
        "3"
    } else if d == 4 {
        "4"
    } else if d == 5 {
        "5"
    } else if d == 6 {
        "6"
    } else if d == 7 {
        "7"
    } else if d == 8 {
        "8"
    } else {
        "9"
    }
}

/// Renders `n` in decimal, exactly as `dec_seq` specifies.
pub fn dec_string(n: usize) -> (r: String)
    ensures
        r@ == dec_seq(n as nat),
    decreases n,
{
    if n < 10 {
        let s: String = digit_str(n).to_owned();
        assert(s@ =~= dec_seq(n as nat));
        s
    } else {
        let mut s: String = dec_string(n / 10);
        s.append(digit_str(n % 10));
        assert(s@ =~= dec_seq(n as nat));
        s
    }
}

} // verus!

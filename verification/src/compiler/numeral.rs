use vstd::prelude::*;

verus! {

use vstd::string::StringExecFns;

/// The character spelling a single decimal digit.
pub open spec fn dec_digit(d: nat) -> char {
    if d == 0 {
        '0'
    } else if d == 1 {
        '1'
    } else if d == 2 {
        '2'
    } else if d == 3 {
        '3'
    } else if d == 4 {
        '4'
    } else if d == 5 {
        '5'
    } else if d == 6 {
        '6'
    } else if d == 7 {
        '7'
    } else if d == 8 {
        '8'
    } else {
        '9'
    }
}

/// The usual decimal spelling of `n`, most significant digit first and
/// without leading zeros (except for `n == 0` itself).
pub open spec fn dec_seq(n: nat) -> Seq<char>
    decreases n,
{
    if n < 10 {
        seq![dec_digit(n)]
    } else {
        dec_seq(n / 10) + seq![dec_digit(n % 10)]
    }
}

fn digit_str(d: usize) -> (r: &'static str)
    requires
        d < 10,
    ensures
        r@ == seq![dec_digit(d as nat)],
{
    let r: &'static str = if d == 0 {
        "0"
    } else if d == 1 {
        "1"
    } else if d == 2 {
        "2"
    } else if d == 3 {
        "3"
    } else if d == 4 {
        "4"
    } else if d == 5 {
        "5"
    } else if d == 6 {
        "6"
    } else if d == 7 {
        "7"
    } else if d == 8 {
        "8"
    } else {
        "9"
    };
    proof {
        reveal_strlit("0");
        reveal_strlit("1");
        reveal_strlit("2");
        reveal_strlit("3");
        reveal_strlit("4");
        reveal_strlit("5");
        reveal_strlit("6");
        reveal_strlit("7");
        reveal_strlit("8");
        reveal_strlit("9");
        assert(r@ =~= seq![dec_digit(d as nat)]);
    }
    r
}

/// Builds the decimal spelling of `n`.
pub fn dec_string(n: usize) -> (r: String)
    ensures
        r@ == dec_seq(n as nat),
    decreases n,
{
    if n < 10 {
        String::from_str(digit_str(n))
    } else {
        let mut s = dec_string(n / 10);
        s.append(digit_str(n % 10));
        proof {
            assert(s@ =~= dec_seq(n as nat));
        }
        s
    }
}

pub proof fn lemma_dec_seq_len(n: nat)
    ensures
        dec_seq(n).len() >= 1,
        (n < 10) <==> (dec_seq(n).len() == 1),
    decreases n,
{
    if n >= 10 {
        lemma_dec_seq_len(n / 10);
    }
}

/// Distinct numbers have distinct decimal spellings.
pub proof fn lemma_dec_seq_injective(a: nat, b: nat)
    requires
        dec_seq(a) == dec_seq(b),
    ensures
        a == b,
    decreases a,
{
    lemma_dec_seq_len(a);
    lemma_dec_seq_len(b);
    if a < 10 && b < 10 {
        assert(dec_seq(a)[0] == dec_digit(a));
        assert(dec_seq(b)[0] == dec_digit(b));
    } else if a >= 10 && b >= 10 {
        assert(dec_seq(a).last() == dec_digit(a % 10));
        assert(dec_seq(b).last() == dec_digit(b % 10));
        assert(a % 10 == b % 10);
        assert(dec_seq(a).drop_last() =~= dec_seq(a / 10));
        assert(dec_seq(b).drop_last() =~= dec_seq(b / 10));
        lemma_dec_seq_injective(a / 10, b / 10);
    } else {
        // spellings of one and of two or more digits differ in length
        assert(false);
    }
}

} // verus!

//! Decimal rendering of unsigned integers as character sequences, with the
//! zero-padded fixed-width forms used by timestamps and date prefixes.

use vstd::prelude::*;
use vstd::string::StringExecFns;

verus! {

/// The character for one decimal digit.
pub open spec fn digit_char(d: int) -> char {
    if d == 0 {
        '0'
    } else if d == 1 {
        '1'
    } else if d == 2 {
        '2'
    } else if d == 3 {
        '3'
    } else if d == 4 {
        '4'
    } else if d == 5 {
        '5'
    } else if d == 6 {
        '6'
    } else if d == 7 {
        '7'
    } else if d == 8 {
        '8'
    } else {
        '9'
    }
}

/// Decimal rendering of `n`, most significant digit first, no padding.
pub open spec fn dec_seq(n: nat) -> Seq<char>
    decreases n,
{
    if n < 10 {
        seq![digit_char(n as int)]
    } else {
        dec_seq(n / 10).push(digit_char((n % 10) as int))
    }
}

/// `n` rendered with at least two digits (zero-padded).
pub open spec fn pad2_seq(n: nat) -> Seq<char> {
    if n < 10 {
        seq!['0'] + dec_seq(n)
    } else {
        dec_seq(n)
    }
}

/// `n` rendered with at least three digits (zero-padded).
pub open spec fn pad3_seq(n: nat) -> Seq<char> {
    if n < 10 {
        seq!['0', '0'] + dec_seq(n)
    } else if n < 100 {
        seq!['0'] + dec_seq(n)
    } else {
        dec_seq(n)
    }
}

/// `n` rendered with at least four digits (zero-padded).
pub open spec fn pad4_seq(n: nat) -> Seq<char> {
    if n < 10 {
        seq!['0', '0', '0'] + dec_seq(n)
    } else if n < 100 {
        seq!['0', '0'] + dec_seq(n)
    } else if n < 1000 {
        seq!['0'] + dec_seq(n)
    } else {
        dec_seq(n)
    }
}

/// A positive number never renders with a leading zero.
pub proof fn lemma_dec_seq_first_nonzero(n: nat)
    requires
        n >= 1,
    ensures
        dec_seq(n)[0] != '0',
    decreases n,
{
    if n >= 10 {
        lemma_dec_seq_first_nonzero(n / 10);
    }
}

/// How long a rendering is, by magnitude.
pub proof fn lemma_dec_seq_len(n: nat)
    ensures
        dec_seq(n).len() >= 1,
        n < 10 <==> dec_seq(n).len() == 1,
        n < 100 ==> dec_seq(n).len() <= 2,
        n < 1000 ==> dec_seq(n).len() <= 3,
        n >= 10 ==> dec_seq(n).len() >= 2,
        n >= 100 ==> dec_seq(n).len() >= 3,
    decreases n,
{
    if n >= 10 {
        lemma_dec_seq_len(n / 10);
    }
}

/// Distinct digits have distinct characters.
proof fn lemma_digit_char_injective(x: int, y: int)
    requires
        0 <= x < 10,
        0 <= y < 10,
        digit_char(x) == digit_char(y),
    ensures
        x == y,
{
}

/// Distinct numbers render distinctly.
pub proof fn lemma_dec_seq_injective(a: nat, b: nat)
    requires
        dec_seq(a) == dec_seq(b),
    ensures
        a == b,
    decreases a,
{
    lemma_dec_seq_len(a);
    lemma_dec_seq_len(b);
    if a < 10 && b < 10 {
        assert(dec_seq(a)[0] == digit_char(a as int));
        assert(dec_seq(b)[0] == digit_char(b as int));
        lemma_digit_char_injective(a as int, b as int);
    } else if a >= 10 && b >= 10 {
        assert(dec_seq(a) == dec_seq(a / 10).push(digit_char((a % 10) as int)));
        assert(dec_seq(b) == dec_seq(b / 10).push(digit_char((b % 10) as int)));
        assert(dec_seq(a).last() == digit_char((a % 10) as int));
        assert(dec_seq(b).last() == digit_char((b % 10) as int));
        lemma_digit_char_injective((a % 10) as int, (b % 10) as int);
        assert(dec_seq(a).drop_last() =~= dec_seq(a / 10));
        assert(dec_seq(b).drop_last() =~= dec_seq(b / 10));
        lemma_dec_seq_injective(a / 10, b / 10);
    } else {
        assert(dec_seq(a).len() == dec_seq(b).len());
        assert(false);
    }
}

/// Distinct numbers render distinctly in two-digit padded form.
pub proof fn lemma_pad2_injective(a: nat, b: nat)
    requires
        pad2_seq(a) == pad2_seq(b),
    ensures
        a == b,
{
    lemma_dec_seq_len(a);
    lemma_dec_seq_len(b);
    if a < 10 && b < 10 {
        assert(pad2_seq(a)[1] == dec_seq(a)[0]);
        assert(pad2_seq(b)[1] == dec_seq(b)[0]);
        assert(dec_seq(a) =~= seq![digit_char(a as int)]);
        assert(dec_seq(b) =~= seq![digit_char(b as int)]);
        lemma_digit_char_injective(a as int, b as int);
    } else if a >= 10 && b >= 10 {
        lemma_dec_seq_injective(a, b);
    } else if a < 10 {
        lemma_dec_seq_first_nonzero(b);
        assert(pad2_seq(a)[0] == '0');
        assert(pad2_seq(b)[0] == dec_seq(b)[0]);
        assert(false);
    } else {
        lemma_dec_seq_first_nonzero(a);
        assert(pad2_seq(b)[0] == '0');
        assert(pad2_seq(a)[0] == dec_seq(a)[0]);
        assert(false);
    }
}

/// Distinct numbers render distinctly in three-digit padded form.
pub proof fn lemma_pad3_injective(a: nat, b: nat)
    requires
        pad3_seq(a) == pad3_seq(b),
    ensures
        a == b,
{
    lemma_dec_seq_len(a);
    lemma_dec_seq_len(b);
    if a >= 1 {
        lemma_dec_seq_first_nonzero(a);
    }
    if b >= 1 {
        lemma_dec_seq_first_nonzero(b);
    }
    if a < 10 && b < 10 {
        assert(pad3_seq(a)[2] == dec_seq(a)[0]);
        assert(pad3_seq(b)[2] == dec_seq(b)[0]);
        assert(dec_seq(a) =~= seq![digit_char(a as int)]);
        assert(dec_seq(b) =~= seq![digit_char(b as int)]);
        lemma_digit_char_injective(a as int, b as int);
    } else if 10 <= a < 100 && 10 <= b < 100 {
        assert(dec_seq(a) =~= pad3_seq(a).skip(1));
        assert(dec_seq(b) =~= pad3_seq(b).skip(1));
        lemma_dec_seq_injective(a, b);
    } else if a >= 100 && b >= 100 {
        lemma_dec_seq_injective(a, b);
    } else if (a < 10 && 10 <= b < 100) || (b < 10 && 10 <= a < 100) {
        if a < 10 {
            assert(pad3_seq(a)[1] == '0');
            assert(pad3_seq(b)[1] == dec_seq(b)[0]);
        } else {
            assert(pad3_seq(b)[1] == '0');
            assert(pad3_seq(a)[1] == dec_seq(a)[0]);
        }
        assert(false);
    } else {
        if a < 100 {
            assert(pad3_seq(a)[0] == '0');
            assert(pad3_seq(b)[0] == dec_seq(b)[0]);
        } else {
            assert(pad3_seq(b)[0] == '0');
            assert(pad3_seq(a)[0] == dec_seq(a)[0]);
        }
        assert(false);
    }
}

/// Two-digit padded renderings of numbers under 100 are exactly two
/// characters; three-digit ones under 1000 exactly three.
pub proof fn lemma_pad_len(n: nat)
    ensures
        n < 100 ==> pad2_seq(n).len() == 2,
        n < 1000 ==> pad3_seq(n).len() == 3,
        pad2_seq(n).len() >= 2,
        pad3_seq(n).len() >= 3,
{
    lemma_dec_seq_len(n);
}

fn digit_str(d: u64) -> (r: &'static str)
    requires
        d < 10,
    ensures
        r@ == seq![digit_char(d as int)],
{
    if d == 0 {
        proof {
            reveal_strlit("0");
            assert("0"@ =~= seq![digit_char(0)]);
        }
        "0"
    } else if d == 1 {
        proof {
            reveal_strlit("1");
            assert("1"@ =~= seq![digit_char(1)]);
        }
        "1"
    } else if d == 2 {
        proof {
            reveal_strlit("2");
            assert("2"@ =~= seq![digit_char(2)]);
        }
        "2"
    } else if d == 3 {
        proof {
            reveal_strlit("3");
            assert("3"@ =~= seq![digit_char(3)]);
        }
        "3"
    } else if d == 4 {
        proof {
            reveal_strlit("4");
            assert("4"@ =~= seq![digit_char(4)]);
        }
        "4"
    } else if d == 5 {
        proof {
            reveal_strlit("5");
            assert("5"@ =~= seq![digit_char(5)]);
        }
        "5"
    } else if d == 6 {
        proof {
            reveal_strlit("6");
            assert("6"@ =~= seq![digit_char(6)]);
        }
        "6"
    } else if d == 7 {
        proof {
            reveal_strlit("7");
            assert("7"@ =~= seq![digit_char(7)]);
        }
        "7"
    } else if d == 8 {
        proof {
            reveal_strlit("8");
            assert("8"@ =~= seq![digit_char(8)]);
        }
        "8"
    } else {
        proof {
            reveal_strlit("9");
            assert("9"@ =~= seq![digit_char(9)]);
        }
        "9"
    }
}

/// Decimal rendering of `n`, without padding.
pub fn u64_to_string(n: u64) -> (r: String)
    ensures
        r@ == dec_seq(n as nat),
    decreases n,
{
    if n < 10 {
        String::from_str(digit_str(n))
    } else {
        let mut s = u64_to_string(n / 10);
        s.append(digit_str(n % 10));
        proof {
            assert(s@ =~= dec_seq(n as nat));
        }
        s
    }
}

/// Decimal rendering of `n`, zero-padded to at least two digits.
pub fn u64_to_string_pad2(n: u64) -> (r: String)
    ensures
        r@ == pad2_seq(n as nat),
{
    if n < 10 {
        let mut s = String::from_str("0");
        s.append(digit_str(n));
        proof {
            reveal_strlit("0");
            assert(s@ =~= pad2_seq(n as nat));
        }
        s
    } else {
        u64_to_string(n)
    }
}

/// Decimal rendering of `n`, zero-padded to at least three digits.
pub fn u64_to_string_pad3(n: u64) -> (r: String)
    ensures
        r@ == pad3_seq(n as nat),
{
    if n < 10 {
        let mut s = String::from_str("00");
        s.append(digit_str(n));
        proof {
            reveal_strlit("00");
            assert(s@ =~= pad3_seq(n as nat));
        }
        s
    } else if n < 100 {
        let mut s = String::from_str("0");
        s.append(u64_to_string(n).as_str());
        proof {
            reveal_strlit("0");
            assert(s@ =~= pad3_seq(n as nat));
        }
        s
    } else {
        u64_to_string(n)
    }
}

/// Decimal rendering of `n`, zero-padded to at least four digits.
pub fn u64_to_string_pad4(n: u64) -> (r: String)
    ensures
        r@ == pad4_seq(n as nat),
{
    if n < 10 {
        let mut s = String::from_str("000");
        s.append(digit_str(n));
        proof {
            reveal_strlit("000");
            assert(s@ =~= pad4_seq(n as nat));
        }
        s
    } else if n < 100 {
        let mut s = String::from_str("00");
        s.append(u64_to_string(n).as_str());
        proof {
            reveal_strlit("00");
            assert(s@ =~= pad4_seq(n as nat));
        }
        s
    } else if n < 1000 {
        let mut s = String::from_str("0");
        s.append(u64_to_string(n).as_str());
        proof {
            reveal_strlit("0");
            assert(s@ =~= pad4_seq(n as nat));
        }
        s
    } else {
        u64_to_string(n)
    }
}

} // verus!

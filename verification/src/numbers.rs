//! Decimal text: reading the digit runs the lexer produces as integers,
//! and printing integers back as decimal text.

use vstd::prelude::*;

use crate::lexer::is_digit;
use crate::lexer::is_digit_spec;

verus! {

/// Whether every character of `s` is a decimal digit.
pub open spec fn is_digit_seq(s: Seq<char>) -> bool {
    forall|i: int| 0 <= i < s.len() ==> is_digit_spec(#[trigger] s[i])
}

/// The integer a sequence of decimal digits denotes, most significant
/// digit first.
pub open spec fn digits_value(s: Seq<char>) -> int
    decreases s.len(),
{
    if s.len() == 0 {
        0
    } else {
        digits_value(s.drop_last()) * 10 + (s.last() as u32 - 48)
    }
}

/// The value of a digit sequence is never negative.
pub proof fn lemma_digits_value_nonneg(s: Seq<char>)
    requires
        is_digit_seq(s),
    ensures
        digits_value(s) >= 0,
    decreases s.len(),
{
    if s.len() > 0 {
        assert(is_digit_seq(s.drop_last())) by {
            assert(forall|i: int|
                0 <= i < s.len() - 1 ==> is_digit_spec(#[trigger] s.drop_last()[i]));
        }
        lemma_digits_value_nonneg(s.drop_last());
    }
}

/// A digit sequence denotes at least what any of its prefixes denotes.
pub proof fn lemma_digits_value_prefix(s: Seq<char>, i: int, j: int)
    requires
        is_digit_seq(s),
        0 <= i <= j <= s.len(),
    ensures
        digits_value(s.take(i)) <= digits_value(s.take(j)),
    decreases j - i,
{
    if i < j {
        lemma_digits_value_prefix(s, i, j - 1);
        let t = s.take(j);
        assert(t.drop_last() =~= s.take(j - 1));
        assert(is_digit_seq(s.take(j - 1))) by {
            assert(forall|k: int|
                0 <= k < j - 1 ==> is_digit_spec(#[trigger] s.take(j - 1)[k]));
        }
        lemma_digits_value_nonneg(s.take(j - 1));
    }
}

/// Reads a run of decimal digits as an `i128`. Returns `None` when the
/// text is empty, contains a character that is not a digit, or denotes a
/// value too large for `i128`; there is no sign, so the value is never
/// negative.
pub fn parse_i128(s: &str) -> (r: Option<i128>)
    ensures
        r is Some <==> (s@.len() > 0 && is_digit_seq(s@) && digits_value(s@) <= i128::MAX),
        r is Some ==> r->Some_0 == digits_value(s@) && r->Some_0 >= 0,
{
    let n = s.unicode_len();
    if n == 0 {
        return None;
    }
    let mut acc: i128 = 0;
    let mut i: usize = 0;
    while i < n
        invariant
            0 <= i <= n,
            n == s@.len(),
            is_digit_seq(s@.take(i as int)),
            acc == digits_value(s@.take(i as int)),
            0 <= acc,
        decreases n - i,
    {
        let c = s.get_char(i);
        if !is_digit(c) {
            assert(!is_digit_seq(s@)) by {
                assert(s@[i as int] == c);
            }
            return None;
        }
        let d = (c as u32 - 48) as i128;
        let shifted = match acc.checked_mul(10) {
            Some(v) => v,
            None => {
                proof {
                    assert(s@.take(i as int + 1).drop_last() =~= s@.take(i as int));
                    assert(digits_value(s@.take(i as int + 1)) > i128::MAX);
                    assert(is_digit_seq(s@.take(i as int + 1)));
                    if s@.len() > 0 && is_digit_seq(s@) && digits_value(s@) <= i128::MAX {
                        lemma_digits_value_prefix(s@, i as int + 1, s@.len() as int);
                        assert(s@.take(s@.len() as int) =~= s@);
                    }
                }
                return None;
            },
        };
        let next = match shifted.checked_add(d) {
            Some(v) => v,
            None => {
                proof {
                    assert(s@.take(i as int + 1).drop_last() =~= s@.take(i as int));
                    assert(digits_value(s@.take(i as int + 1)) > i128::MAX);
                    assert(is_digit_seq(s@.take(i as int + 1)));
                    if s@.len() > 0 && is_digit_seq(s@) && digits_value(s@) <= i128::MAX {
                        lemma_digits_value_prefix(s@, i as int + 1, s@.len() as int);
                        assert(s@.take(s@.len() as int) =~= s@);
                    }
                }
                return None;
            },
        };
        proof {
            assert(s@.take(i as int + 1).drop_last() =~= s@.take(i as int));
        }
        acc = next;
        i = i + 1;
    }
    proof {
        assert(s@.take(n as int) =~= s@);
    }
    Some(acc)
}

/// Reads a run of decimal digits as a `usize`, the type used to size the
/// storage a declaration allocates. `None` under the same conditions as
/// [`parse_i128`], with the bound `usize::MAX`.
pub fn parse_usize(s: &str) -> (r: Option<usize>)
    ensures
        r is Some <==> (s@.len() > 0 && is_digit_seq(s@) && digits_value(s@) <= usize::MAX),
        r is Some ==> r->Some_0 == digits_value(s@),
{
    match parse_i128(s) {
        None => {
            proof {
                if s@.len() > 0 && is_digit_seq(s@) {
                    if digits_value(s@) <= usize::MAX {
                        assert(digits_value(s@) <= i128::MAX);
                    }
                }
            }
            None
        },
        Some(v) => {
            if v <= usize::MAX as i128 {
                Some(v as usize)
            } else {
                None
            }
        },
    }
}

/// The decimal digit character for `d`, which must lie in `0..10`.
pub open spec fn digit_char(d: int) -> char {
    if d == 0 {
        '0'
    } else if d == 1 {
        '1'
    } else if d == 2 {
        '2'
    } else if d == 3 {
        '3'
    } else if d == 4 {
        '4'
    } else if d == 5 {
        '5'
    } else if d == 6 {
        '6'
    } else if d == 7 {
        '7'
    } else if d == 8 {
        '8'
    } else {
        '9'
    }
}

/// The decimal text of `n`, which must not be negative: its digits, most
/// significant first.
pub open spec fn spec_nat_chars(n: int) -> Seq<char>
    decreases n,
{
    if n < 10 {
        seq![digit_char(n)]
    } else {
        spec_nat_chars(n / 10).push(digit_char(n % 10))
    }
}

/// The decimal text of `n`: a minus sign followed by the digits of its
/// magnitude when `n` is negative, its digits alone otherwise.
pub open spec fn spec_int_chars(n: int) -> Seq<char> {
    if n < 0 {
        seq!['-'] + spec_nat_chars(-n)
    } else {
        spec_nat_chars(n)
    }
}

/// The one-character string for the digit `d`.
fn digit_str(d: u8) -> (r: &'static str)
    requires
        d < 10,
    ensures
        r@ =~= seq![digit_char(d as int)],
{
    proof {
        reveal_strlit("0");
        reveal_strlit("1");
        reveal_strlit("2");
        reveal_strlit("3");
        reveal_strlit("4");
        reveal_strlit("5");
        reveal_strlit("6");
        reveal_strlit("7");
        reveal_strlit("8");
        reveal_strlit("9");
    }
    match d {
        0 => "0",
        1 => "1",
        2 => "2",
        3 => "3",
        4 => "4",
        5 => "5",
        6 => "6",
        7 => "7",
        8 => "8",
        _ => "9",
    }
}

/// Appends the decimal digits of `m` to `out`, most significant first.
fn push_digits(out: &mut String, m: u128)
    ensures
        final(out)@ == old(out)@ + spec_nat_chars(m as int),
    decreases m,
{
    if m >= 10 {
        push_digits(out, m / 10);
    }
    out.append(digit_str((m % 10) as u8));
    proof {
        if m < 10 {
            assert(old(out)@ + spec_nat_chars(m as int) =~= final(out)@);
        } else {
            assert(old(out)@ + spec_nat_chars(m as int) =~= final(out)@);
        }
    }
}

/// Renders `n` as decimal text.
pub fn to_decimal(n: i128) -> (r: String)
    ensures
        r@ == spec_int_chars(n as int),
{
    let mut out = String::new();
    if n < 0 {
        out.append("-");
        proof {
            reveal_strlit("-");
            assert(out@ =~= seq!['-']);
        }
        let m: u128 = ((-(n + 1)) as u128) + 1;
        push_digits(&mut out, m);
        proof {
            assert(out@ =~= spec_int_chars(n as int));
        }
        out
    } else {
        push_digits(&mut out, n as u128);
        proof {
            assert(out@ =~= spec_int_chars(n as int));
        }
        out
    }
}

} // verus!

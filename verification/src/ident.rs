use vstd::prelude::*;
use vstd::string::StrSliceExecFns;

use crate::text::digit_char;
use crate::text::is_digit;

verus! {

/// The value of a decimal digit character, with a sentinel of ten for any
/// other character.
pub open spec fn digit_val(c: char) -> nat {
    if c == '0' {
        0
    } else if c == '1' {
        1
    } else if c == '2' {
        2
    } else if c == '3' {
        3
    } else if c == '4' {
        4
    } else if c == '5' {
        5
    } else if c == '6' {
        6
    } else if c == '7' {
        7
    } else if c == '8' {
        8
    } else if c == '9' {
        9
    } else {
        10
    }
}

/// Every character of the text is a decimal digit.
pub open spec fn all_digits(s: Seq<char>) -> bool {
    forall|i: int| 0 <= i < s.len() ==> is_digit(#[trigger] s[i])
}

/// The value of a text read as decimal digits, most significant first.
pub open spec fn digits_value(s: Seq<char>) -> nat
    decreases s.len(),
{
    if s.len() == 0 {
        0
    } else {
        digits_value(s.drop_last()) * 10 + digit_val(s.last())
    }
}

/// A text's value is at least the value of any of its prefixes.
pub proof fn lemma_digits_value_monotone(s: Seq<char>, j: int)
    requires
        0 <= j <= s.len(),
    ensures
        digits_value(s) >= digits_value(s.take(j)),
    decreases s.len(),
{
    if j < s.len() {
        lemma_digits_value_monotone(s.drop_last(), j);
        assert(s.drop_last().take(j) =~= s.take(j));
    } else {
        assert(s.take(j) =~= s);
    }
}

/// Reads a decimal digit character, answering exactly on the ten digits.
fn char_digit(c: char) -> (r: Option<u64>)
    ensures
        r matches Some(d) ==> d < 10 && c == digit_char(d as nat),
        r is None ==> !is_digit(c),
        r matches Some(d) ==> d == digit_val(c),
{
    let r: Option<u64> = if c == '0' {
        Option::Some(0)
    } else if c == '1' {
        Option::Some(1)
    } else if c == '2' {
        Option::Some(2)
    } else if c == '3' {
        Option::Some(3)
    } else if c == '4' {
        Option::Some(4)
    } else if c == '5' {
        Option::Some(5)
    } else if c == '6' {
        Option::Some(6)
    } else if c == '7' {
        Option::Some(7)
    } else if c == '8' {
        Option::Some(8)
    } else if c == '9' {
        Option::Some(9)
    } else {
        Option::None
    };
    proof {
        if r is None {
            assert forall|d: nat| d < 10 implies digit_char(d) != c by {}
        }
    }
    r
}

/// What parsing a thread identity's debug text yields: the numeric identity
/// exactly when the text is `ThreadId(` followed by at least one decimal
/// digit whose value fits, closed by `)`; nothing otherwise.
pub open spec fn thread_id_parse(s: Seq<char>) -> Option<u64> {
    if s.len() >= 11 && s.subrange(0, 9) == "ThreadId("@ && s.last() == ')' && all_digits(
        s.subrange(9, s.len() - 1),
    ) && digits_value(s.subrange(9, s.len() - 1)) <= u64::MAX {
        Option::Some(digits_value(s.subrange(9, s.len() - 1)) as u64)
    } else {
        Option::None
    }
}

/// Extracts the numeric thread identity from its platform debug text, of the
/// shape `ThreadId(42)`; nothing when the text has any other shape or the
/// number does not fit.
pub fn parse_thread_id(s: &str) -> (r: Option<u64>)
    ensures
        r == thread_id_parse(s@),
{
    proof {
        reveal_strlit("ThreadId(");
    }
    let n = s.unicode_len();
    if n < 11 {
        return Option::None;
    }
    let prefix = "ThreadId(";
    let mut i: usize = 0;
    while i < 9
        invariant
            0 <= i <= 9,
            n == s@.len(),
            n >= 11,
            prefix@ == "ThreadId("@,
            "ThreadId("@.len() == 9,
            forall|j: int| 0 <= j < i ==> s@[j] == "ThreadId("@[j],
        decreases 9 - i,
    {
        proof {
            reveal_strlit("ThreadId(");
        }
        if s.get_char(i) != prefix.get_char(i) {
            proof {
                assert(s@.subrange(0, 9) != "ThreadId("@) by {
                    assert(s@.subrange(0, 9)[i as int] == s@[i as int]);
                };
            }
            return Option::None;
        }
        i += 1;
    }
    proof {
        assert(s@.subrange(0, 9) =~= "ThreadId("@);
    }
    if s.get_char(n - 1) != ')' {
        return Option::None;
    }
    let ghost mid = s@.subrange(9, n as int - 1);
    let mut value: u64 = 0;
    let mut k: usize = 9;
    while k < n - 1
        invariant
            9 <= k <= n - 1,
            n == s@.len(),
            n >= 11,
            mid == s@.subrange(9, n as int - 1),
            value == digits_value(s@.subrange(9, k as int)),
            all_digits(s@.subrange(9, k as int)),
        decreases n - 1 - k,
    {
        let c = s.get_char(k);
        let d = match char_digit(c) {
            Option::Some(d) => d,
            Option::None => {
                proof {
                    assert(mid[k - 9] == s@[k as int]);
                    assert(!all_digits(mid));
                }
                return Option::None;
            },
        };
        let ghost prev = s@.subrange(9, k as int);
        let ghost cur = s@.subrange(9, k as int + 1);
        proof {
            assert(cur.drop_last() =~= prev);
            assert(cur.last() == s@[k as int]);
            assert(digits_value(cur) == digits_value(prev) * 10 + digit_val(s@[k as int]));
        }
        if value > (u64::MAX - d) / 10 {
            proof {
                let x = u64::MAX - d;
                vstd::arithmetic::div_mod::lemma_fundamental_div_mod(x as int, 10);
                assert(value * 10 >= (x / 10 + 1) * 10 > x) by (nonlinear_arith)
                    requires
                        value > x / 10,
                        x == 10 * (x / 10) + x % 10,
                        0 <= x % 10 < 10,
                ;
                assert(digits_value(cur) > u64::MAX);
                lemma_digits_value_monotone(mid, k - 9 + 1);
                assert(mid.take(k - 9 + 1) =~= cur);
                assert(digits_value(mid) > u64::MAX);
            }
            return Option::None;
        }
        proof {
            vstd::arithmetic::div_mod::lemma_fundamental_div_mod((u64::MAX - d) as int, 10);
            assert(value * 10 + d <= u64::MAX) by (nonlinear_arith)
                requires
                    value <= (u64::MAX - d) / 10,
                    (u64::MAX - d) as int == 10 * ((u64::MAX - d) as int / 10) + (u64::MAX
                        - d) as int % 10,
                    0 <= (u64::MAX - d) as int % 10 < 10,
                    0 <= d < 10,
            ;
        }
        value = value * 10 + d;
        k += 1;
        proof {
            assert(s@.subrange(9, k as int) == cur);
        }
    }
    proof {
        assert(s@.subrange(9, k as int) =~= mid);
        assert(thread_id_parse(s@) == Option::Some(value));
    }
    Option::Some(value)
}

} // verus!

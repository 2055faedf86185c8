//! Process argument handling: no argument means the default port,
//! exactly one is parsed as a decimal port number, anything else is
//! rejected with a message naming the argument count.

use vstd::prelude::*;
use vstd::string::{StrSliceExecFns, StringExecFns};

verus! {

/// The port the server binds when none is given.
pub const DEFAULT_PORT: u16 = 22113;

/// A decimal digit.
pub open spec fn spec_is_digit(c: char) -> bool {
    '0' as u32 <= c as u32 <= '9' as u32
}

/// The numeric value of one digit character.
pub open spec fn spec_digit_val(c: char) -> int {
    c as u32 - '0' as u32
}

/// Every character of `s` is a decimal digit.
pub open spec fn spec_all_digits(s: Seq<char>) -> bool {
    forall|i: int| 0 <= i < s.len() ==> spec_is_digit(#[trigger] s[i])
}

/// The value of a digit string read left to right.
pub open spec fn spec_dec_val(s: Seq<char>) -> int
    decreases s.len(),
{
    if s.len() == 0 {
        0
    } else {
        spec_dec_val(s.drop_last()) * 10 + spec_digit_val(s.last())
    }
}

/// The digit part of a number string: everything after one optional
/// leading plus sign.
pub open spec fn spec_u16_digits(s: Seq<char>) -> Seq<char> {
    if s.len() > 0 && s[0] == '+' {
        s.skip(1)
    } else {
        s
    }
}

/// The strings the standard `u16` parser accepts: an optional leading
/// plus, then at least one decimal digit, with a value of at most
/// `u16::MAX`.
pub open spec fn spec_is_u16_string(s: Seq<char>) -> bool {
    let d = spec_u16_digits(s);
    &&& d.len() > 0
    &&& spec_all_digits(d)
    &&& spec_dec_val(d) <= u16::MAX
}

/// A digit string's value is never negative.
proof fn lemma_dec_val_nonneg(s: Seq<char>)
    requires
        spec_all_digits(s),
    ensures
        spec_dec_val(s) >= 0,
    decreases s.len(),
{
    if s.len() > 0 {
        assert(spec_all_digits(s.drop_last()));
        lemma_dec_val_nonneg(s.drop_last());
        assert(spec_is_digit(s.last()));
    }
}

/// Extending a digit string never shrinks its value: the value of any
/// prefix is a lower bound for the whole.
proof fn lemma_dec_val_prefix(s: Seq<char>, m: int)
    requires
        spec_all_digits(s),
        0 <= m <= s.len(),
    ensures
        spec_dec_val(s.take(m)) <= spec_dec_val(s),
    decreases s.len() - m,
{
    if m == s.len() {
        assert(s.take(m) =~= s);
    } else {
        lemma_dec_val_prefix(s, m + 1);
        assert(s.take(m + 1).drop_last() =~= s.take(m));
        assert(spec_all_digits(s.take(m)));
        lemma_dec_val_nonneg(s.take(m));
        assert(spec_is_digit(s[m]));
        assert(spec_dec_val(s.take(m + 1)) == spec_dec_val(s.take(m)) * 10 + spec_digit_val(
            s[m],
        ));
    }
}

/// Parses a decimal port number the way the standard `u16` parser
/// does: accepted exactly when the string is an optional plus followed
/// by at least one digit and the value fits in sixteen bits.
pub fn parse_port(s: &str) -> (r: Option<u16>)
    ensures
        match r {
            Some(p) => spec_is_u16_string(s@) && p == spec_dec_val(spec_u16_digits(s@)),
            None => !spec_is_u16_string(s@),
        },
{
    let n = s.unicode_len();
    let start: usize = if n > 0 && s.get_char(0) == '+' {
        1
    } else {
        0
    };
    let ghost dg = spec_u16_digits(s@);
    proof {
        assert(dg =~= s@.subrange(start as int, n as int));
    }
    if n == start {
        return None;
    }
    let mut val: u32 = 0;
    let mut i: usize = start;
    proof {
        assert(s@.subrange(start as int, start as int) =~= Seq::<char>::empty());
    }
    while i < n
        invariant
            start <= i <= n,
            n == s@.len(),
            start <= 1,
            dg == spec_u16_digits(s@),
            dg == s@.subrange(start as int, n as int),
            spec_all_digits(s@.subrange(start as int, i as int)),
            val == spec_dec_val(s@.subrange(start as int, i as int)),
            val <= 65535,
        decreases n - i,
    {
        let ghost prefix = s@.subrange(start as int, i as int);
        let ghost longer = s@.subrange(start as int, i as int + 1);
        proof {
            assert(longer.drop_last() =~= prefix);
            assert(longer.last() == s@[i as int]);
        }
        let c = s.get_char(i);
        let d = c as u32;
        if d < 48 || d > 57 {
            proof {
                assert(dg[i - start] == s@[i as int]);
                assert(!spec_is_digit(s@[i as int]));
            }
            return None;
        }
        let dv = d - 48;
        if val > 6553 || (val == 6553 && dv > 5) {
            proof {
                assert(spec_all_digits(longer));
                assert(spec_dec_val(longer) == val * 10 + dv > 65535);
                if spec_all_digits(dg) {
                    assert(dg.take(i as int + 1 - start) =~= longer);
                    lemma_dec_val_prefix(dg, i as int + 1 - start);
                }
            }
            return None;
        }
        val = val * 10 + dv;
        i += 1;
    }
    proof {
        assert(s@.subrange(start as int, n as int) =~= dg);
    }
    Some(val as u16)
}

/// The digit character of one value below ten.
pub open spec fn spec_digit_char(d: int) -> char {
    if d == 0 {
        '0'
    } else if d == 1 {
        '1'
    } else if d == 2 {
        '2'
    } else if d == 3 {
        '3'
    } else if d == 4 {
        '4'
    } else if d == 5 {
        '5'
    } else if d == 6 {
        '6'
    } else if d == 7 {
        '7'
    } else if d == 8 {
        '8'
    } else {
        '9'
    }
}

/// The decimal rendering of a non-negative number, most significant
/// digit first.
pub open spec fn spec_dec_digits(n: int) -> Seq<char>
    decreases n,
{
    if n < 10 {
        seq![spec_digit_char(n)]
    } else {
        spec_dec_digits(n / 10).push(spec_digit_char(n % 10))
    }
}

/// One digit as a string slice.
fn digit_str(d: usize) -> (r: &'static str)
    requires
        d < 10,
    ensures
        r@ == seq![spec_digit_char(d as int)],
{
    proof {
        reveal_strlit("0");
        reveal_strlit("1");
        reveal_strlit("2");
        reveal_strlit("3");
        reveal_strlit("4");
        reveal_strlit("5");
        reveal_strlit("6");
        reveal_strlit("7");
        reveal_strlit("8");
        reveal_strlit("9");
    }
    let r: &'static str = if d == 0 {
        "0"
    } else if d == 1 {
        "1"
    } else if d == 2 {
        "2"
    } else if d == 3 {
        "3"
    } else if d == 4 {
        "4"
    } else if d == 5 {
        "5"
    } else if d == 6 {
        "6"
    } else if d == 7 {
        "7"
    } else if d == 8 {
        "8"
    } else {
        "9"
    };
    proof {
        assert(r@ =~= seq![spec_digit_char(d as int)]);
    }
    r
}

/// Renders a number in decimal, as the argument-count message needs
/// it.
pub fn usize_to_string(n: usize) -> (s: String)
    ensures
        s@ == spec_dec_digits(n as int),
    decreases n,
{
    if n < 10 {
        String::from_str(digit_str(n))
    } else {
        let prefix = usize_to_string(n / 10);
        let s = prefix.concat(digit_str(n % 10));
        proof {
            assert(s@ =~= spec_dec_digits(n as int / 10).push(spec_digit_char(n as int % 10)));
        }
        s
    }
}

/// What the process does with its argument vector. The program name
/// alone selects the default port; one further argument must be a
/// decimal port number; more arguments are refused outright, naming
/// their count.
pub fn parse_args(args: &[String]) -> (r: Result<u16, String>)
    ensures
        args@.len() == 1 ==> r == Ok::<u16, String>(DEFAULT_PORT),
        args@.len() == 2 ==> match r {
            Ok(p) => spec_is_u16_string(args@[1]@) && p == spec_dec_val(
                spec_u16_digits(args@[1]@),
            ),
            Err(m) => !spec_is_u16_string(args@[1]@) && m@ == "invalid port: "@ + args@[1]@,
        },
        args@.len() != 1 && args@.len() != 2 ==> match r {
            Ok(_) => false,
            Err(m) => m@ == "invalid arg num: "@ + spec_dec_digits(args@.len() as int),
        },
{
    if args.len() == 1 {
        return Ok(DEFAULT_PORT);
    }

    if args.len() == 2 {
        let port_str: &str = args[1].as_str();
        return match parse_port(port_str) {
            Some(port) => Ok(port),
            None => Err(String::from_str("invalid port: ").concat(port_str)),
        };
    }

    Err(String::from_str("invalid arg num: ").concat(usize_to_string(args.len()).as_str()))
}

} // verus!

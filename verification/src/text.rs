//! Plain-text building blocks: decimal numerals, and the first line of a
//! text.

use vstd::prelude::*;
use vstd::std_specs::iter::IteratorSpec;
use vstd::string::*;

verus! {

/// The character that writes the digit `d`.
pub open spec fn digit_char(d: nat) -> char
    recommends
        d < 10,
{
    if d == 0 {
        '0'
    } else if d == 1 {
        '1'
    } else if d == 2 {
        '2'
    } else if d == 3 {
        '3'
    } else if d == 4 {
        '4'
    } else if d == 5 {
        '5'
    } else if d == 6 {
        '6'
    } else if d == 7 {
        '7'
    } else if d == 8 {
        '8'
    } else {
        '9'
    }
}

/// The decimal numeral of `n`: no sign, no leading zero, `"0"` for zero.
pub open spec fn decimal(n: nat) -> Seq<char>
    decreases n,
{
    if n < 10 {
        seq![digit_char(n)]
    } else {
        decimal(n / 10).push(digit_char(n % 10))
    }
}

/// The decimal numeral of an integer: a minus sign before the numeral of
/// the magnitude of a negative one.
pub open spec fn signed_decimal(n: int) -> Seq<char> {
    if n < 0 {
        seq!['-'] + decimal((-n) as nat)
    } else {
        decimal(n as nat)
    }
}

/// A numeral has at least one digit.
pub proof fn lemma_decimal_len(n: nat)
    ensures
        decimal(n).len() >= 1,
        n >= 10 ==> decimal(n).len() >= 2,
    decreases n,
{
    if n >= 10 {
        lemma_decimal_len(n / 10);
    }
}

/// Two numbers with the same numeral are the same number.
pub proof fn lemma_decimal_injective(a: nat, b: nat)
    requires
        decimal(a) == decimal(b),
    ensures
        a == b,
    decreases a,
{
    lemma_decimal_len(a);
    lemma_decimal_len(b);
    if a < 10 && b < 10 {
        assert(decimal(a)[0] == digit_char(a));
        assert(decimal(b)[0] == digit_char(b));
    } else if a >= 10 && b >= 10 {
        assert(decimal(a).drop_last() =~= decimal(a / 10));
        assert(decimal(b).drop_last() =~= decimal(b / 10));
        assert(decimal(a).last() == digit_char(a % 10));
        assert(decimal(b).last() == digit_char(b % 10));
        lemma_decimal_injective(a / 10, b / 10);
    }
}

fn digit_text(d: u128) -> (r: &'static str)
    requires
        d < 10,
    ensures
        r@ == seq![digit_char(d as nat)],
{
    proof {
        reveal_strlit("0");
        reveal_strlit("1");
        reveal_strlit("2");
        reveal_strlit("3");
        reveal_strlit("4");
        reveal_strlit("5");
        reveal_strlit("6");
        reveal_strlit("7");
        reveal_strlit("8");
        reveal_strlit("9");
    }
    let r = if d == 0 {
        "0"
    } else if d == 1 {
        "1"
    } else if d == 2 {
        "2"
    } else if d == 3 {
        "3"
    } else if d == 4 {
        "4"
    } else if d == 5 {
        "5"
    } else if d == 6 {
        "6"
    } else if d == 7 {
        "7"
    } else if d == 8 {
        "8"
    } else {
        "9"
    };
    r
}

/// Appends the decimal numeral of `n` to `out`.
pub fn push_decimal(out: &mut String, n: u128)
    ensures
        final(out)@ == old(out)@ + decimal(n as nat),
    decreases n,
{
    if n >= 10 {
        push_decimal(out, n / 10);
    }
    out.append(digit_text(n % 10));
}

/// Appends the decimal numeral of `n`, with its sign if negative, to `out`.
pub fn push_signed_decimal(out: &mut String, n: i32)
    ensures
        final(out)@ == old(out)@ + signed_decimal(n as int),
{
    if n < 0 {
        proof {
            reveal_strlit("-");
        }
        out.append("-");
        let magnitude: i64 = -(n as i64);
        push_decimal(out, magnitude as u128);
    } else {
        push_decimal(out, n as u128);
    }
}

/// The first line of `text`: what stands before its first line feed,
/// without a carriage return that stands directly before that line feed;
/// the whole text where it holds no line feed; nothing where it is empty.
pub open spec fn first_line(text: Seq<char>) -> Option<Seq<char>> {
    if text.len() == 0 {
        None
    } else {
        match text.index_of_first('\n') {
            None => Some(text),
            Some(end) => if end > 0 && text[end - 1] == '\r' {
                Some(text.take(end - 1))
            } else {
                Some(text.take(end))
            },
        }
    }
}

/// The first line of `text`, as [`first_line`] defines it.
pub fn take_first_line(text: &str) -> (r: Option<String>)
    ensures
        match r {
            Some(line) => first_line(text@) == Some(line@),
            None => first_line(text@) is None,
        },
{
    broadcast use group_string_axioms;

    // Counted only to know that a position in the text fits the machine.
    let length = text.unicode_len();
    let mut chars = text.chars();
    let mut end: usize = 0;
    let mut carriage: bool = false;
    let mut found: bool = false;
    loop
        invariant_except_break
            !found,
            chars.remaining() == text@.skip(end as int),
        invariant
            chars.obeys_prophetic_iter_laws(),
            chars.decrease() is Some,
            0 <= end <= text@.len() == length,
            forall|i: int| 0 <= i < end ==> text@[i] != '\n',
            carriage <==> (end > 0 && text@[end - 1] == '\r'),
        ensures
            found ==> end < text@.len() && text@[end as int] == '\n',
            !found ==> end == text@.len(),
        decreases chars.decrease()->0,
    {
        match chars.next() {
            None => {
                break ;
            },
            Some(c) => {
                if c == '\n' {
                    found = true;
                    break ;
                }
                carriage = c == '\r';
                end = end + 1;
            },
        }
    }
    proof {
        text@.index_of_first_ensures('\n');
    }
    if !found && end == 0 {
        None
    } else if found && carriage {
        Some(text.substring_char(0, end - 1).to_owned())
    } else {
        Some(text.substring_char(0, end).to_owned())
    }
}

} // verus!

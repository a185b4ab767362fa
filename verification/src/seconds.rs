//! Times in seconds, kept as the decimal text they were read from.
//!
//! The library never computes with a time; it only decides whether a text
//! is a number, and hands the text on. A text is a number when it follows
//! the grammar by which Rust's standard library reads a float:
//!
//! ```text
//! Float  ::= Sign? ( 'inf' | 'infinity' | 'nan' | Number )
//! Number ::= ( Digit+ | Digit+ '.' Digit* | Digit* '.' Digit+ ) Exp?
//! Exp    ::= 'e' Sign? Digit+
//! Sign   ::= [+-]
//! Digit  ::= [0-9]
//! ```
//!
//! with the letters in either case. Every text of this grammar, and no
//! other, is read by `str::parse` at a float type.

use vstd::prelude::*;
use vstd::string::*;
use vstd::utf8::is_ascii_chars;

verus! {

/// `Digit ::= [0-9]`
pub open spec fn is_digit(c: char) -> bool {
    '0' <= c <= '9'
}

/// `Sign ::= [+-]`
pub open spec fn is_sign(c: char) -> bool {
    c == '+' || c == '-'
}

/// `c` is the given letter, in lower or in upper case.
pub open spec fn is_letter(c: char, lower: char, upper: char) -> bool {
    c == lower || c == upper
}

/// `Digit*`
pub open spec fn all_digits(s: Seq<char>) -> bool {
    forall|i: int| 0 <= i < s.len() ==> is_digit(#[trigger] s[i])
}

/// `Exp ::= 'e' Sign? Digit+`
pub open spec fn is_exponent(s: Seq<char>) -> bool {
    &&& s.len() >= 2
    &&& is_letter(s[0], 'e', 'E')
    &&& if is_sign(s[1]) {
        s.len() >= 3 && all_digits(s.skip(2))
    } else {
        all_digits(s.skip(1))
    }
}

/// `Digit+ | Digit+ '.' Digit* | Digit* '.' Digit+`
pub open spec fn is_mantissa(s: Seq<char>) -> bool {
    ||| s.len() >= 1 && all_digits(s)
    ||| exists|point: int|
        #![trigger s.take(point)]
        {
            &&& 0 <= point < s.len()
            &&& s[point] == '.'
            &&& s.len() >= 2
            &&& all_digits(s.take(point))
            &&& all_digits(s.skip(point + 1))
        }
}

/// `Number ::= Mantissa Exp?`
pub open spec fn is_number(s: Seq<char>) -> bool {
    exists|cut: int|
        #![trigger s.take(cut)]
        {
            &&& 0 <= cut <= s.len()
            &&& is_mantissa(s.take(cut))
            &&& (cut == s.len() || is_exponent(s.skip(cut)))
        }
}

/// `'inf'`
pub open spec fn is_inf(s: Seq<char>) -> bool {
    &&& s.len() == 3
    &&& is_letter(s[0], 'i', 'I')
    &&& is_letter(s[1], 'n', 'N')
    &&& is_letter(s[2], 'f', 'F')
}

/// `'infinity'`
pub open spec fn is_infinity(s: Seq<char>) -> bool {
    &&& s.len() == 8
    &&& is_letter(s[0], 'i', 'I')
    &&& is_letter(s[1], 'n', 'N')
    &&& is_letter(s[2], 'f', 'F')
    &&& is_letter(s[3], 'i', 'I')
    &&& is_letter(s[4], 'n', 'N')
    &&& is_letter(s[5], 'i', 'I')
    &&& is_letter(s[6], 't', 'T')
    &&& is_letter(s[7], 'y', 'Y')
}

/// `'nan'`
pub open spec fn is_nan(s: Seq<char>) -> bool {
    &&& s.len() == 3
    &&& is_letter(s[0], 'n', 'N')
    &&& is_letter(s[1], 'a', 'A')
    &&& is_letter(s[2], 'n', 'N')
}

/// What is left of `s` without a sign at its head.
pub open spec fn unsigned_part(s: Seq<char>) -> Seq<char> {
    if s.len() >= 1 && is_sign(s[0]) {
        s.skip(1)
    } else {
        s
    }
}

/// `Float ::= Sign? ( 'inf' | 'infinity' | 'nan' | Number )`
pub open spec fn is_float_text(s: Seq<char>) -> bool {
    let body = unsigned_part(s);
    is_inf(body) || is_infinity(body) || is_nan(body) || is_number(body)
}

/// The text that stands for a time nobody gave: zero seconds.
pub open spec fn zero_text() -> Seq<char> {
    seq!['0', '.', '0']
}

/// Where the run of digits that starts at `from` ends.
spec fn digit_run(s: Seq<char>, from: int) -> int
    decreases s.len() - from,
{
    if 0 <= from < s.len() && is_digit(s[from]) {
        digit_run(s, from + 1)
    } else {
        from
    }
}

/// [`is_exponent`] of what stands from `at` on, by positions in `s`.
spec fn exponent_from(s: Seq<char>, at: int) -> bool {
    &&& at + 2 <= s.len()
    &&& is_letter(s[at], 'e', 'E')
    &&& if is_sign(s[at + 1]) {
        at + 3 <= s.len() && digit_run(s, at + 2) == s.len()
    } else {
        digit_run(s, at + 1) == s.len()
    }
}

/// [`is_number`], read from left to right.
spec fn number_scan(s: Seq<char>) -> bool {
    let whole = digit_run(s, 0);
    let pointed = whole < s.len() && s[whole] == '.';
    let cut = if pointed {
        digit_run(s, whole + 1)
    } else {
        whole
    };
    let digits = if pointed {
        cut - 1
    } else {
        cut
    };
    digits >= 1 && (cut == s.len() || exponent_from(s, cut))
}

proof fn lemma_digit_run(s: Seq<char>, from: int)
    requires
        0 <= from <= s.len(),
    ensures
        from <= digit_run(s, from) <= s.len(),
        forall|i: int| from <= i < digit_run(s, from) ==> is_digit(#[trigger] s[i]),
        digit_run(s, from) < s.len() ==> !is_digit(s[digit_run(s, from)]),
    decreases s.len() - from,
{
    if from < s.len() && is_digit(s[from]) {
        lemma_digit_run(s, from + 1);
    }
}

proof fn lemma_digit_run_ends(s: Seq<char>, from: int, end: int)
    requires
        0 <= from <= end <= s.len(),
        forall|i: int| from <= i < end ==> is_digit(#[trigger] s[i]),
        end < s.len() ==> !is_digit(s[end]),
    ensures
        digit_run(s, from) == end,
    decreases end - from,
{
    if from < end {
        lemma_digit_run_ends(s, from + 1, end);
    }
}

proof fn lemma_digits_to_the_end(s: Seq<char>, from: int)
    requires
        0 <= from <= s.len(),
    ensures
        all_digits(s.skip(from)) <==> digit_run(s, from) == s.len(),
{
    lemma_digit_run(s, from);
    if all_digits(s.skip(from)) {
        assert forall|i: int| from <= i < s.len() implies is_digit(#[trigger] s[i]) by {
            assert(s.skip(from)[i - from] == s[i]);
        }
        lemma_digit_run_ends(s, from, s.len() as int);
    }
    if digit_run(s, from) == s.len() {
        assert(all_digits(s.skip(from)));
    }
}

proof fn lemma_exponent_from(s: Seq<char>, at: int)
    requires
        0 <= at <= s.len(),
    ensures
        exponent_from(s, at) <==> is_exponent(s.skip(at)),
{
    let rest = s.skip(at);
    if at + 2 <= s.len() {
        assert(rest.skip(1) =~= s.skip(at + 1));
        assert(rest.skip(2) =~= s.skip(at + 2));
        lemma_digits_to_the_end(s, at + 1);
        lemma_digits_to_the_end(s, at + 2);
    }
}

proof fn lemma_number_scan(s: Seq<char>)
    ensures
        is_number(s) <==> number_scan(s),
{
    let whole = digit_run(s, 0);
    lemma_digit_run(s, 0);
    let pointed = whole < s.len() && s[whole] == '.';
    if pointed {
        lemma_digit_run(s, whole + 1);
    }
    let scanned = if pointed {
        digit_run(s, whole + 1)
    } else {
        whole
    };
    lemma_exponent_from(s, scanned);
    if number_scan(s) {
        let head = s.take(scanned);
        if pointed {
            assert(all_digits(head.take(whole)));
            assert(all_digits(head.skip(whole + 1)));
        } else {
            assert(all_digits(head));
        }
    }
    if is_number(s) {
        let cut = choose|cut: int|
            #![trigger s.take(cut)]
            {
                &&& 0 <= cut <= s.len()
                &&& is_mantissa(s.take(cut))
                &&& (cut == s.len() || is_exponent(s.skip(cut)))
            };
        let head = s.take(cut);
        if head.len() >= 1 && all_digits(head) {
            assert forall|i: int| 0 <= i < cut implies is_digit(#[trigger] s[i]) by {
                assert(head[i] == s[i]);
            }
            lemma_digit_run_ends(s, 0, cut);
        } else {
            let point = choose|point: int|
                #![trigger head.take(point)]
                {
                    &&& 0 <= point < head.len()
                    &&& head[point] == '.'
                    &&& head.len() >= 2
                    &&& all_digits(head.take(point))
                    &&& all_digits(head.skip(point + 1))
                };
            assert forall|i: int| 0 <= i < point implies is_digit(#[trigger] s[i]) by {
                assert(head.take(point)[i] == s[i]);
            }
            lemma_digit_run_ends(s, 0, point);
            assert forall|i: int| point + 1 <= i < cut implies is_digit(#[trigger] s[i]) by {
                assert(head.skip(point + 1)[i - (point + 1)] == s[i]);
            }
            lemma_digit_run_ends(s, point + 1, cut);
        }
    }
}

proof fn lemma_float_text_is_ascii(s: Seq<char>)
    requires
        is_float_text(s),
    ensures
        is_ascii_chars(s),
{
    let body = unsigned_part(s);
    assert forall|i: int| 0 <= i < body.len() implies '\0' <= #[trigger] body[i] <= '\u{7f}' by {
        if is_inf(body) || is_infinity(body) || is_nan(body) {
        } else {
            lemma_number_scan(body);
            let whole = digit_run(body, 0);
            lemma_digit_run(body, 0);
            let pointed = whole < body.len() && body[whole] == '.';
            if pointed {
                lemma_digit_run(body, whole + 1);
            }
            let cut = if pointed {
                digit_run(body, whole + 1)
            } else {
                whole
            };
            if cut < body.len() {
                lemma_digit_run(body, cut + 1);
                lemma_digit_run(body, cut + 2);
            }
        }
    }
    assert forall|i: int| 0 <= i < s.len() implies '\0' <= #[trigger] s[i] <= '\u{7f}' by {
        if s.len() >= 1 && is_sign(s[0]) {
            if i > 0 {
                assert(body[i - 1] == s[i]);
            }
        }
    }
}

fn char_at(text: &str, at: usize, c: char) -> (r: bool)
    requires
        text.is_ascii(),
        at < text@.len(),
        c <= '\u{7f}',
    ensures
        r == (text@[at as int] == c),
{
    text.get_ascii(at) == c as u8
}

fn letter_at(text: &str, at: usize, lower: char, upper: char) -> (r: bool)
    requires
        text.is_ascii(),
        at < text@.len(),
        lower <= '\u{7f}',
        upper <= '\u{7f}',
    ensures
        r == is_letter(text@[at as int], lower, upper),
{
    char_at(text, at, lower) || char_at(text, at, upper)
}

fn sign_at(text: &str, at: usize) -> (r: bool)
    requires
        text.is_ascii(),
        at < text@.len(),
    ensures
        r == is_sign(text@[at as int]),
{
    char_at(text, at, '+') || char_at(text, at, '-')
}

fn digit_at(text: &str, at: usize) -> (r: bool)
    requires
        text.is_ascii(),
        at < text@.len(),
    ensures
        r == is_digit(text@[at as int]),
{
    let byte = text.get_ascii(at);
    '0' as u8 <= byte && byte <= '9' as u8
}

fn skip_digits(text: &str, from: usize, len: usize) -> (end: usize)
    requires
        text.is_ascii(),
        from <= len == text@.len(),
    ensures
        end == digit_run(text@, from as int),
        from <= end <= len,
{
    let mut at = from;
    while at < len && digit_at(text, at)
        invariant
            text.is_ascii(),
            from <= at <= len == text@.len(),
            digit_run(text@, from as int) == digit_run(text@, at as int),
        decreases len - at,
    {
        at = at + 1;
    }
    at
}

fn special_word(body: &str, len: usize) -> (r: bool)
    requires
        body.is_ascii(),
        len == body@.len(),
    ensures
        r == (is_inf(body@) || is_infinity(body@) || is_nan(body@)),
{
    if len == 3 {
        let inf = letter_at(body, 0, 'i', 'I') && letter_at(body, 1, 'n', 'N')
            && letter_at(body, 2, 'f', 'F');
        let nan = letter_at(body, 0, 'n', 'N') && letter_at(body, 1, 'a', 'A')
            && letter_at(body, 2, 'n', 'N');
        inf || nan
    } else if len == 8 {
        letter_at(body, 0, 'i', 'I') && letter_at(body, 1, 'n', 'N')
            && letter_at(body, 2, 'f', 'F') && letter_at(body, 3, 'i', 'I')
            && letter_at(body, 4, 'n', 'N') && letter_at(body, 5, 'i', 'I')
            && letter_at(body, 6, 't', 'T') && letter_at(body, 7, 'y', 'Y')
    } else {
        false
    }
}

fn exponent_at(body: &str, at: usize, len: usize) -> (r: bool)
    requires
        body.is_ascii(),
        at < len == body@.len(),
    ensures
        r == exponent_from(body@, at as int),
{
    if len - at < 2 || !letter_at(body, at, 'e', 'E') {
        return false;
    }
    if sign_at(body, at + 1) {
        len - at >= 3 && skip_digits(body, at + 2, len) == len
    } else {
        skip_digits(body, at + 1, len) == len
    }
}

fn number(body: &str, len: usize) -> (r: bool)
    requires
        body.is_ascii(),
        len == body@.len(),
    ensures
        r == is_number(body@),
{
    proof {
        lemma_number_scan(body@);
    }
    let whole = skip_digits(body, 0, len);
    let pointed = whole < len && char_at(body, whole, '.');
    let cut = if pointed {
        skip_digits(body, whole + 1, len)
    } else {
        whole
    };
    let digits = if pointed {
        cut - 1
    } else {
        cut
    };
    digits >= 1 && (cut == len || exponent_at(body, cut, len))
}

/// Whether `text` is written as a float is.
pub fn is_float(text: &str) -> (r: bool)
    ensures
        r == is_float_text(text@),
{
    if !text.is_ascii() {
        proof {
            if is_float_text(text@) {
                lemma_float_text_is_ascii(text@);
            }
        }
        return false;
    }
    let len = text.unicode_len();
    let start: usize = if len >= 1 && sign_at(text, 0) {
        1
    } else {
        0
    };
    let body = text.substring_ascii(start, len);
    assert(body@ =~= unsigned_part(text@));
    special_word(body, len - start) || number(body, len - start)
}

/// A time in seconds, held as a text that [`is_float_text`].
///
/// Two times are equal when their texts are: `12.5` and `12.50` differ.
#[derive(Debug, PartialEq, Eq)]
pub struct Seconds {
    text: String,
}

impl View for Seconds {
    type V = Seq<char>;

    closed spec fn view(&self) -> Seq<char> {
        self.text@
    }
}

impl Clone for Seconds {
    fn clone(&self) -> (r: Self)
        ensures
            r@ == self@,
    {
        proof {
            use_type_invariant(self);
        }
        Seconds { text: self.text.clone() }
    }
}

impl Seconds {
    #[verifier::type_invariant]
    spec fn well_formed(self) -> bool {
        is_float_text(self.text@)
    }

    /// Zero seconds, written `0.0`.
    pub fn zero() -> (r: Seconds)
        ensures
            r@ == zero_text(),
    {
        proof {
            reveal_strlit("0.0");
            lemma_zero_is_float();
        }
        let text = "0.0".to_owned();
        assert(text@ =~= zero_text());
        Seconds { text }
    }

    /// The time that `text` writes, if it writes one.
    pub fn parse(text: &str) -> (r: Option<Seconds>)
        ensures
            match r {
                Some(seconds) => is_float_text(text@) && seconds@ == text@,
                None => !is_float_text(text@),
            },
    {
        if is_float(text) {
            Some(Seconds { text: text.to_owned() })
        } else {
            None
        }
    }

    /// The text of the time.
    pub fn as_str(&self) -> (r: &str)
        ensures
            r@ == self@,
            is_float_text(r@),
    {
        proof {
            use_type_invariant(self);
        }
        self.text.as_str()
    }
}

/// Digits, a point and digits, with a digit on at least one side of the
/// point, are a float: the form in which the tool writes a time.
pub proof fn lemma_fixed_point_is_float(whole: Seq<char>, fraction: Seq<char>)
    requires
        all_digits(whole),
        all_digits(fraction),
        whole.len() + fraction.len() >= 1,
    ensures
        is_float_text(whole + seq!['.'] + fraction),
{
    let s = whole + seq!['.'] + fraction;
    let point = whole.len() as int;
    assert(!is_sign(s[0]));
    assert(s.take(s.len() as int) =~= s);
    assert(s.take(point) =~= whole);
}

/// `0.0` is a float.
pub proof fn lemma_zero_is_float()
    ensures
        is_float_text(zero_text()),
{
    lemma_fixed_point_is_float(seq!['0'], seq!['0']);
    assert(zero_text() =~= seq!['0'] + seq!['.'] + seq!['0']);
}

/// A number begins with a digit or a point.
pub proof fn lemma_number_head(s: Seq<char>)
    requires
        is_number(s),
    ensures
        s.len() >= 1,
        is_digit(s[0]) || s[0] == '.',
{
    lemma_number_scan(s);
    lemma_digit_run(s, 0);
}

} // verus!

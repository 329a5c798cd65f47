//! Text rendering of the scalar values that travel in a wire message.
//!
//! Every field of a message is a string. This module fixes how integers,
//! booleans and text are rendered, and proves the executable rendering equal
//! to its mathematical description.

use vstd::prelude::*;
use vstd::string::StringExecFns;

verus! {

/// The character that stands for the decimal digit `d`.
pub open spec fn digit_char(d: int) -> char {
    if d == 0 {
        '0'
    } else if d == 1 {
        '1'
    } else if d == 2 {
        '2'
    } else if d == 3 {
        '3'
    } else if d == 4 {
        '4'
    } else if d == 5 {
        '5'
    } else if d == 6 {
        '6'
    } else if d == 7 {
        '7'
    } else if d == 8 {
        '8'
    } else {
        '9'
    }
}

/// Decimal digits of a natural number, most significant first, without
/// leading zeros.
pub open spec fn natural_text(n: nat) -> Seq<char>
    decreases n,
{
    if n < 10 {
        seq![digit_char(n as int)]
    } else {
        natural_text(n / 10).push(digit_char((n % 10) as int))
    }
}

/// Decimal text of an integer: a minus sign for negative numbers, then the
/// digits of the magnitude.
pub open spec fn decimal_text(n: int) -> Seq<char> {
    if n < 0 {
        seq!['-'] + natural_text((-n) as nat)
    } else {
        natural_text(n as nat)
    }
}

/// Exactly two decimal digits of `n`, zero padded (meant for `n < 100`).
pub open spec fn two_digit_text(n: int) -> Seq<char> {
    seq![digit_char(n / 10), digit_char(n % 10)]
}

/// Exactly four decimal digits of `n`, zero padded (meant for `n < 10000`).
pub open spec fn four_digit_text(n: int) -> Seq<char> {
    two_digit_text(n / 100) + two_digit_text(n % 100)
}

/// Text of a boolean field: `1` for true, `0` for false.
pub open spec fn bool_text(b: bool) -> Seq<char> {
    if b {
        seq!['1']
    } else {
        seq!['0']
    }
}

/// The one-character string of a decimal digit.
pub(crate) fn digit_str(d: u8) -> (text: &'static str)
    requires
        d < 10,
    ensures
        text@ == seq![digit_char(d as int)],
{
    proof {
        reveal_strlit("0");
        reveal_strlit("1");
        reveal_strlit("2");
        reveal_strlit("3");
        reveal_strlit("4");
        reveal_strlit("5");
        reveal_strlit("6");
        reveal_strlit("7");
        reveal_strlit("8");
        reveal_strlit("9");
    }
    let text: &'static str = if d == 0 {
        "0"
    } else if d == 1 {
        "1"
    } else if d == 2 {
        "2"
    } else if d == 3 {
        "3"
    } else if d == 4 {
        "4"
    } else if d == 5 {
        "5"
    } else if d == 6 {
        "6"
    } else if d == 7 {
        "7"
    } else if d == 8 {
        "8"
    } else {
        "9"
    };
    assert(text@ =~= seq![digit_char(d as int)]);
    text
}

/// Appends the decimal digits of `n` to `text`.
pub fn append_natural(text: &mut String, n: u64)
    ensures
        final(text)@ == old(text)@ + natural_text(n as nat),
    decreases n,
{
    if n >= 10 {
        append_natural(text, n / 10);
    }
    let d: u8 = (n % 10) as u8;
    text.append(digit_str(d));
    proof {
        if n >= 10 {
            assert(text@ =~= old(text)@ + natural_text(n as nat / 10).push(
                digit_char((n as nat % 10) as int),
            ));
        } else {
            assert(text@ =~= old(text)@ + seq![digit_char(n as int)]);
        }
    }
}

/// Appends `n` as exactly two zero-padded decimal digits.
pub(crate) fn append_two_digits(text: &mut String, n: u8)
    requires
        n < 100,
    ensures
        final(text)@ == old(text)@ + two_digit_text(n as int),
{
    text.append(digit_str(n / 10));
    text.append(digit_str(n % 10));
    assert(text@ =~= old(text)@ + two_digit_text(n as int));
}

/// Appends `n` as exactly four zero-padded decimal digits.
pub(crate) fn append_four_digits(text: &mut String, n: u16)
    requires
        n < 10000,
    ensures
        final(text)@ == old(text)@ + four_digit_text(n as int),
{
    let high: u8 = (n / 100) as u8;
    let low: u8 = (n % 100) as u8;
    append_two_digits(text, high);
    append_two_digits(text, low);
    assert(text@ =~= old(text)@ + four_digit_text(n as int));
}

/// Decimal text of a signed 64-bit integer.
pub fn decimal_string(n: i64) -> (text: String)
    ensures
        text@ == decimal_text(n as int),
{
    let mut text = String::new();
    if n < 0 {
        proof {
            reveal_strlit("-");
        }
        text.append("-");
        let magnitude: u64 = if n == i64::MIN {
            9223372036854775808u64
        } else {
            (-n) as u64
        };
        append_natural(&mut text, magnitude);
        assert(text@ =~= decimal_text(n as int));
    } else {
        append_natural(&mut text, n as u64);
        assert(text@ =~= decimal_text(n as int));
    }
    text
}

/// The value of a decimal digit character; `None` for any other character.
pub open spec fn digit_value(c: char) -> Option<int> {
    if c == '0' {
        Some(0)
    } else if c == '1' {
        Some(1)
    } else if c == '2' {
        Some(2)
    } else if c == '3' {
        Some(3)
    } else if c == '4' {
        Some(4)
    } else if c == '5' {
        Some(5)
    } else if c == '6' {
        Some(6)
    } else if c == '7' {
        Some(7)
    } else if c == '8' {
        Some(8)
    } else if c == '9' {
        Some(9)
    } else {
        None
    }
}

/// The number that a non-empty run of decimal digits denotes; `None` where
/// the text is empty or holds another character.
pub open spec fn natural_value(text: Seq<char>) -> Option<int>
    decreases text.len(),
{
    if text.len() == 0 {
        None
    } else {
        match digit_value(text.last()) {
            None => None,
            Some(d) => if text.len() == 1 {
                Some(d)
            } else {
                match natural_value(text.drop_last()) {
                    None => None,
                    Some(v) => Some(v * 10 + d),
                }
            },
        }
    }
}

/// The integer that a text denotes: an optional sign, `-` or `+`, followed
/// by a non-empty run of decimal digits.
pub open spec fn integer_value(text: Seq<char>) -> Option<int> {
    if text.len() > 0 && text[0] == '-' {
        match natural_value(text.skip(1)) {
            Some(v) => Some(-v),
            None => None,
        }
    } else if text.len() > 0 && text[0] == '+' {
        natural_value(text.skip(1))
    } else {
        natural_value(text)
    }
}

/// The 32-bit integer that a text denotes; `None` where the text is no
/// integer or the integer does not fit.
pub open spec fn i32_value(text: Seq<char>) -> Option<i32> {
    match integer_value(text) {
        Some(v) => if i32::MIN <= v <= i32::MAX {
            Some(v as i32)
        } else {
            None
        },
        None => None,
    }
}

/// A run of digits denotes at least what any of its non-empty prefixes
/// denotes, and every such prefix is a run of digits too.
pub proof fn lemma_natural_value_prefix(text: Seq<char>, k: int)
    requires
        1 <= k <= text.len(),
        natural_value(text) is Some,
    ensures
        natural_value(text.take(k)) is Some,
        0 <= natural_value(text.take(k))->0 <= natural_value(text)->0,
    decreases text.len(),
{
    if k == text.len() {
        assert(text.take(k) =~= text);
        if text.len() > 1 {
            lemma_natural_value_prefix(text.drop_last(), k - 1);
        }
    } else {
        lemma_natural_value_prefix(text.drop_last(), k);
        assert(text.drop_last().take(k) =~= text.take(k));
    }
}

/// The digits of a natural number are a run of digits that denotes it.
pub proof fn lemma_natural_text_reads_back(n: nat)
    ensures
        natural_text(n).len() >= 1,
        digit_value(natural_text(n)[0]) is Some,
        natural_value(natural_text(n)) == Some(n as int),
    decreases n,
{
    if n >= 10 {
        lemma_natural_text_reads_back(n / 10);
        let text = natural_text(n);
        assert(text.drop_last() =~= natural_text(n / 10));
        assert(text.last() == digit_char((n % 10) as int));
        assert(text[0] == natural_text(n / 10)[0]);
    }
}

/// Reading an integer back from its decimal text gives the integer.
pub proof fn lemma_decimal_text_reads_back(n: int)
    ensures
        integer_value(decimal_text(n)) == Some(n),
{
    if n < 0 {
        lemma_natural_text_reads_back((-n) as nat);
        assert(decimal_text(n).skip(1) =~= natural_text((-n) as nat));
    } else {
        lemma_natural_text_reads_back(n as nat);
    }
}

/// Two zero-padded digits denote the number they were made of.
pub proof fn lemma_two_digit_text_reads_back(n: int)
    requires
        0 <= n < 100,
    ensures
        two_digit_text(n).len() == 2,
        natural_value(two_digit_text(n)) == Some(n),
{
    let text = two_digit_text(n);
    assert(text.drop_last() =~= seq![digit_char(n / 10)]);
    assert(natural_value(text.drop_last()) == Some(n / 10));
}

/// Four zero-padded digits denote the number they were made of.
pub proof fn lemma_four_digit_text_reads_back(n: int)
    requires
        0 <= n < 10000,
    ensures
        four_digit_text(n).len() == 4,
        natural_value(four_digit_text(n)) == Some(n),
{
    let text = four_digit_text(n);
    let high = n / 100;
    let low = n % 100;
    let three = text.drop_last();
    let two = three.drop_last();
    assert(two =~= two_digit_text(high));
    lemma_two_digit_text_reads_back(high);
    assert(three.last() == digit_char(low / 10));
    assert(text.last() == digit_char(low % 10));
    assert(natural_value(three) == Some(high * 10 + low / 10));
}

/// The value of a decimal digit character.
pub fn digit_of(c: char) -> (digit: Option<u8>)
    ensures
        digit is Some <==> digit_value(c) is Some,
        digit is Some ==> digit->0 == digit_value(c)->0,
{
    if c == '0' {
        Some(0)
    } else if c == '1' {
        Some(1)
    } else if c == '2' {
        Some(2)
    } else if c == '3' {
        Some(3)
    } else if c == '4' {
        Some(4)
    } else if c == '5' {
        Some(5)
    } else if c == '6' {
        Some(6)
    } else if c == '7' {
        Some(7)
    } else if c == '8' {
        Some(8)
    } else if c == '9' {
        Some(9)
    } else {
        None
    }
}

/// Reads `text` as a 32-bit integer.
pub fn parse_i32(text: &str) -> (value: Option<i32>)
    ensures
        value == i32_value(text@),
{
    let length: usize = text.unicode_len();
    if length == 0 {
        return None;
    }
    let first: char = text.get_char(0);
    let negative: bool = first == '-';
    let start: usize = if first == '-' || first == '+' {
        1
    } else {
        0
    };
    let ghost digits: Seq<char> = text@.skip(start as int);
    proof {
        if start == 0 {
            assert(digits =~= text@);
        }
    }
    if start == length {
        return None;
    }
    let mut total: i64 = 0;
    let mut i: usize = start;
    while i < length
        invariant
            length == text@.len(),
            start <= i <= length,
            start < length,
            digits == text@.skip(start as int),
            negative == (text@[0] == '-'),
            start == 1 <==> (text@[0] == '-' || text@[0] == '+'),
            start <= 1,
            start == 0 ==> digits == text@,
            0 <= total <= 2147483648,
            i > start ==> natural_value(digits.take(i - start)) == Some(total as int),
            i == start ==> total == 0,
        decreases length - i,
    {
        let c: char = text.get_char(i);
        proof {
            let grown = digits.take(i + 1 - start);
            assert(grown.last() == c);
            assert(grown.drop_last() =~= digits.take(i - start));
        }
        match digit_of(c) {
            None => {
                proof {
                    assert(natural_value(digits.take(i + 1 - start)) is None);
                    if natural_value(digits) is Some {
                        lemma_natural_value_prefix(digits, i + 1 - start);
                    }
                }
                return None;
            },
            Some(d) => {
                total = total * 10 + d as i64;
                assert(natural_value(digits.take(i + 1 - start)) == Some(total as int));
                if total > 2147483648 {
                    proof {
                        if natural_value(digits) is Some {
                            lemma_natural_value_prefix(digits, i + 1 - start);
                        }
                    }
                    return None;
                }
            },
        }
        i += 1;
    }
    proof {
        assert(digits.take(length - start) =~= digits);
    }
    if negative {
        Some((-total) as i32)
    } else if total > 2147483647 {
        None
    } else {
        Some(total as i32)
    }
}

/// A value that can be written as one field of a wire message.
pub trait ToField {
    /// The text of the field.
    spec fn field_text(&self) -> Seq<char>;

    /// Renders the value as the text of its field.
    fn to_field(&self) -> (text: String)
        ensures
            text@ == self.field_text(),
    ;
}

impl ToField for bool {
    open spec fn field_text(&self) -> Seq<char> {
        bool_text(*self)
    }

    fn to_field(&self) -> (text: String) {
        let mut text = String::new();
        if *self {
            text.append(digit_str(1));
        } else {
            text.append(digit_str(0));
        }
        assert(text@ =~= bool_text(*self));
        text
    }
}

impl ToField for i32 {
    open spec fn field_text(&self) -> Seq<char> {
        decimal_text(*self as int)
    }

    fn to_field(&self) -> (text: String) {
        let wide: i64 = *self as i64;
        let text = decimal_string(wide);
        assert(self.field_text() == decimal_text(wide as int));
        text
    }
}

impl ToField for usize {
    open spec fn field_text(&self) -> Seq<char> {
        natural_text(*self as nat)
    }

    fn to_field(&self) -> (text: String) {
        let mut text = String::new();
        append_natural(&mut text, *self as u64);
        assert(text@ =~= natural_text(*self as nat));
        text
    }
}

impl ToField for String {
    open spec fn field_text(&self) -> Seq<char> {
        self@
    }

    fn to_field(&self) -> (text: String) {
        self.clone()
    }
}

impl ToField for &str {
    open spec fn field_text(&self) -> Seq<char> {
        self@
    }

    fn to_field(&self) -> (text: String) {
        String::from_str(*self)
    }
}

impl<T: ToField> ToField for Option<T> {
    open spec fn field_text(&self) -> Seq<char> {
        match self {
            Some(value) => value.field_text(),
            None => Seq::empty(),
        }
    }

    fn to_field(&self) -> (text: String) {
        match self {
            Some(value) => value.to_field(),
            None => String::new(),
        }
    }
}

} // verus!

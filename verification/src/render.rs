//! Numbers and fixed-width fields as text.

use vstd::prelude::*;

verus! {

/// The character of a decimal digit.
pub open spec fn digit_char(digit: int) -> char {
    if digit == 0 {
        '0'
    } else if digit == 1 {
        '1'
    } else if digit == 2 {
        '2'
    } else if digit == 3 {
        '3'
    } else if digit == 4 {
        '4'
    } else if digit == 5 {
        '5'
    } else if digit == 6 {
        '6'
    } else if digit == 7 {
        '7'
    } else if digit == 8 {
        '8'
    } else {
        '9'
    }
}

/// The value of a digit character; meaningful for `'0'` to `'9'`.
pub open spec fn digit_value(c: char) -> int {
    c as int - '0' as int
}

/// A natural number in decimal, without leading zeros.
pub open spec fn decimal_nat(n: nat) -> Seq<char>
    decreases n,
{
    if n < 10 {
        seq![digit_char(n as int)]
    } else {
        decimal_nat(n / 10).push(digit_char((n % 10) as int))
    }
}

/// An integer in decimal, with a minus sign where it is negative.
pub open spec fn decimal(i: int) -> Seq<char> {
    if i < 0 {
        seq!['-'] + decimal_nat((-i) as nat)
    } else {
        decimal_nat(i as nat)
    }
}

/// The number that a text of digits denotes.
pub open spec fn decimal_value(digits: Seq<char>) -> nat
    decreases digits.len(),
{
    if digits.len() == 0 {
        0
    } else {
        (decimal_value(digits.drop_last()) * 10 + digit_value(digits.last())) as nat
    }
}

/// `n` spaces.
pub open spec fn spaces(n: nat) -> Seq<char> {
    Seq::new(n, |i: int| ' ')
}

/// `text` filled with spaces on the right up to `width` characters; a
/// longer text is left as it is.
pub open spec fn padded(text: Seq<char>, width: nat) -> Seq<char> {
    if text.len() < width {
        text + spaces((width - text.len()) as nat)
    } else {
        text
    }
}

/// The text of one digit.
fn digit_text(digit: u64) -> (text: &'static str)
    requires
        digit < 10,
    ensures
        text@ == seq![digit_char(digit as int)],
{
    let text = if digit == 0 {
        "0"
    } else if digit == 1 {
        "1"
    } else if digit == 2 {
        "2"
    } else if digit == 3 {
        "3"
    } else if digit == 4 {
        "4"
    } else if digit == 5 {
        "5"
    } else if digit == 6 {
        "6"
    } else if digit == 7 {
        "7"
    } else if digit == 8 {
        "8"
    } else {
        "9"
    };
    proof {
        reveal_strlit("0");
        reveal_strlit("1");
        reveal_strlit("2");
        reveal_strlit("3");
        reveal_strlit("4");
        reveal_strlit("5");
        reveal_strlit("6");
        reveal_strlit("7");
        reveal_strlit("8");
        reveal_strlit("9");
        assert(text@ =~= seq![digit_char(digit as int)]);
    }
    text
}

/// Writes an unsigned number in decimal.
pub fn unsigned_to_string(n: u64) -> (text: String)
    ensures
        text@ == decimal_nat(n as nat),
    decreases n,
{
    if n < 10 {
        String::from_str(digit_text(n))
    } else {
        let mut text = unsigned_to_string(n / 10);
        text.append(digit_text(n % 10));
        proof {
            assert(text@ =~= decimal_nat((n / 10) as nat).push(digit_char((n % 10) as int)));
        }
        text
    }
}

/// Writes a signed number in decimal.
pub fn signed_to_string(i: i64) -> (text: String)
    ensures
        text@ == decimal(i as int),
{
    if i < 0 {
        let magnitude: u64 = ((-(i + 1)) as u64) + 1;
        let mut text = String::from_str("-");
        let digits = unsigned_to_string(magnitude);
        text.append(digits.as_str());
        proof {
            reveal_strlit("-");
            assert("-"@ =~= seq!['-']);
        }
        text
    } else {
        unsigned_to_string(i as u64)
    }
}

/// Fills `text` with spaces on the right up to `width` characters.
pub fn pad_right(text: &str, width: usize) -> (field: String)
    ensures
        field@ == padded(text@, width as nat),
        field@.len() >= width,
        text@.len() <= width ==> field@.len() == width,
{
    let mut field = String::from_str(text);
    let mut len = text.unicode_len();
    while len < width
        invariant
            len >= text@.len(),
            len == text@.len() || len <= width,
            field@.len() == len,
            field@ == text@ + spaces((len - text@.len()) as nat),
        decreases width - len,
    {
        field.append(" ");
        proof {
            reveal_strlit(" ");
            assert(field@ =~= text@ + spaces((len + 1 - text@.len()) as nat));
        }
        len += 1;
    }
    proof {
        assert(text@ + spaces(0) =~= text@);
    }
    field
}

/// The decimal text of a number consists of digits, begins with a zero only
/// for zero itself, and denotes the number.
pub proof fn lemma_decimal_nat_denotes(n: nat)
    ensures
        decimal_nat(n).len() >= 1,
        forall|i: int| 0 <= i < decimal_nat(n).len() ==> '0' <= #[trigger] decimal_nat(n)[i] <= '9',
        decimal_nat(n)[0] == '0' <==> n == 0,
        decimal_value(decimal_nat(n)) == n,
    decreases n,
{
    let text = decimal_nat(n);
    if n < 10 {
        assert(text.drop_last() =~= Seq::<char>::empty());
        assert(decimal_value(text.drop_last()) == 0);
        assert(text.last() == digit_char(n as int));
    } else {
        lemma_decimal_nat_denotes(n / 10);
        let head = decimal_nat(n / 10);
        assert(text.drop_last() =~= head);
        assert(text.last() == digit_char((n % 10) as int));
        assert(text[0] == head[0]);
    }
}

/// Different integers have different decimal texts.
pub proof fn lemma_decimal_is_injective(a: int, b: int)
    requires
        decimal(a) == decimal(b),
    ensures
        a == b,
{
    let an = (if a < 0 { -a } else { a }) as nat;
    let bn = (if b < 0 { -b } else { b }) as nat;
    lemma_decimal_nat_denotes(an);
    lemma_decimal_nat_denotes(bn);
    if a < 0 && b < 0 {
        assert(decimal(a).subrange(1, decimal(a).len() as int) =~= decimal_nat(an));
        assert(decimal(b).subrange(1, decimal(b).len() as int) =~= decimal_nat(bn));
    } else if a < 0 {
        assert(decimal(a)[0] == '-');
        assert(decimal(b)[0] == decimal_nat(bn)[0]);
    } else if b < 0 {
        assert(decimal(b)[0] == '-');
        assert(decimal(a)[0] == decimal_nat(an)[0]);
    }
}

/// A padded field is never shorter than its width, is exactly as wide
/// where the text fits, and begins with the text.
pub proof fn lemma_padded_field(text: Seq<char>, width: nat)
    ensures
        padded(text, width).len() == if text.len() < width {
            width
        } else {
            text.len()
        },
        padded(text, width).subrange(0, text.len() as int) == text,
        forall|i: int| text.len() <= i < padded(text, width).len() ==> padded(text, width)[i] == ' ',
{
    assert(padded(text, width).subrange(0, text.len() as int) =~= text);
}

} // verus!

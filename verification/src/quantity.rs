//! Quantities as decimal text: how a typed number is read, and how a
//! quantity is written.

use vstd::prelude::*;
use vstd::string::StringExecFns;

verus! {

/// The code of `+` in ASCII.
pub const ASCII_PLUS: u8 = 43;

/// The code of `0` in ASCII.
pub const ASCII_ZERO: u8 = 48;

/// The code of `9` in ASCII.
pub const ASCII_NINE: u8 = 57;

/// Whether `c` is one of the ten decimal digits.
pub open spec fn is_digit(c: char) -> bool {
    '0' <= c <= '9'
}

/// The value of a decimal digit.
pub open spec fn digit_of(c: char) -> nat
    recommends
        is_digit(c),
{
    (c as int - '0' as int) as nat
}

/// Whether every character of `s` is a decimal digit.
pub open spec fn all_digits(s: Seq<char>) -> bool {
    forall|i: int| 0 <= i < s.len() ==> is_digit(#[trigger] s[i])
}

/// The number that a string of decimal digits stands for.
pub open spec fn decimal_value(s: Seq<char>) -> nat
    decreases s.len(),
{
    if s.len() == 0 {
        0
    } else {
        decimal_value(s.drop_last()) * 10 + digit_of(s.last())
    }
}

/// A typed number without its leading `+`, if it has one.
pub open spec fn unsigned_part(text: Seq<char>) -> Seq<char> {
    if text.len() > 0 && text[0] == '+' {
        text.subrange(1, text.len() as int)
    } else {
        text
    }
}

/// The quantity that a typed number stands for: an optional `+`, then one
/// or more decimal digits and nothing else, with a value that fits in 32
/// bits. Anything else is no quantity.
pub open spec fn quantity_of(text: Seq<char>) -> Option<u32> {
    let digits = unsigned_part(text);
    if digits.len() > 0 && all_digits(digits) && decimal_value(digits) <= u32::MAX {
        Some(decimal_value(digits) as u32)
    } else {
        None
    }
}

/// The value of a digit string is at least the value of each of its
/// prefixes.
pub proof fn lemma_prefix_value(s: Seq<char>, k: int)
    requires
        0 <= k <= s.len(),
    ensures
        decimal_value(s.subrange(0, k)) <= decimal_value(s),
    decreases s.len() - k,
{
    if k == s.len() {
        assert(s.subrange(0, k) =~= s);
    } else {
        lemma_prefix_value(s.drop_last(), k);
        assert(s.drop_last().subrange(0, k) =~= s.subrange(0, k));
    }
}

/// Reads a typed quantity; `None` asks for it to be typed again.
pub fn parse_quantity(input: &str) -> (quantity: Option<u32>)
    ensures
        quantity == quantity_of(input@),
{
    let ghost text = input@;
    let ghost digits = unsigned_part(text);
    if !input.is_ascii() {
        proof {
            let i = choose|i: int| 0 <= i < text.len() && !('\0' <= #[trigger] text[i] <= '\u{7f}');
            if text[0] == '+' {
                assert(!is_digit(digits[i - 1]));
            } else {
                assert(!is_digit(digits[i]));
            }
        }
        return None;
    }
    let bytes = input.as_bytes();
    let len = bytes.len();
    proof {
        vstd::string::is_ascii_spec_bytes(input);
    }
    let start: usize = if len > 0 && bytes[0] == ASCII_PLUS {
        1
    } else {
        0
    };
    if start == len {
        return None;
    }
    let mut value: u32 = 0;
    let mut i: usize = start;
    assert(digits.subrange(0, 0) =~= Seq::<char>::empty());
    while i < len
        invariant
            start <= i <= len,
            len == text.len(),
            bytes@.len() == len,
            text == input@,
            digits == unsigned_part(text),
            digits.len() == len - start,
            forall|k: int| 0 <= k < len ==> #[trigger] bytes@[k] == text[k] as u8,
            forall|k: int| 0 <= k < len ==> '\0' <= #[trigger] text[k] <= '\u{7f}',
            forall|k: int| 0 <= k < digits.len() ==> #[trigger] digits[k] == text[k + start],
            all_digits(digits.subrange(0, i - start)),
            value == decimal_value(digits.subrange(0, i - start)),
        decreases len - i,
    {
        let byte = bytes[i];
        let ghost c = text[i as int];
        assert(c == digits[i - start]);
        assert(byte == c as u8);
        if byte < ASCII_ZERO || byte > ASCII_NINE {
            assert(!is_digit(digits[i - start]));
            return None;
        }
        assert(is_digit(c));
        let digit: u32 = (byte - ASCII_ZERO) as u32;
        assert(digit == digit_of(c));
        let ghost longer = digits.subrange(0, i - start + 1);
        assert(longer.drop_last() =~= digits.subrange(0, i - start));
        assert(longer.last() == c);
        assert(decimal_value(longer) == value * 10 + digit);
        if value > (u32::MAX - digit) / 10 {
            proof {
                lemma_prefix_value(digits, i - start + 1);
            }
            return None;
        }
        value = value * 10 + digit;
        i += 1;
        assert forall|k: int| 0 <= k < longer.len() implies is_digit(#[trigger] longer[k]) by {
            if k < longer.len() - 1 {
                assert(longer[k] == digits.subrange(0, i - start - 1)[k]);
            }
        }
    }
    assert(digits.subrange(0, i - start) =~= digits);
    Some(value)
}

/// The character of a decimal digit.
pub open spec fn digit_char(d: nat) -> char
    recommends
        d < 10,
{
    ('0' as int + d) as char
}

/// A quantity in decimal: its digits without sign, separators or leading
/// zeros.
pub open spec fn quantity_text(n: nat) -> Seq<char>
    decreases n,
{
    if n < 10 {
        seq![digit_char(n)]
    } else {
        quantity_text(n / 10).push(digit_char(n % 10))
    }
}

/// What is written for a quantity is digits only, and stands for that
/// quantity.
pub proof fn lemma_text_value(n: nat)
    ensures
        quantity_text(n).len() > 0,
        all_digits(quantity_text(n)),
        decimal_value(quantity_text(n)) == n,
        n > 0 ==> quantity_text(n)[0] != '0',
    decreases n,
{
    if n < 10 {
        let s = quantity_text(n);
        assert(s.drop_last() =~= Seq::<char>::empty());
        assert(decimal_value(s.drop_last()) == 0);
    } else {
        lemma_text_value(n / 10);
        let shorter = quantity_text(n / 10);
        let s = quantity_text(n);
        assert(s.drop_last() =~= shorter);
        assert(s.last() == digit_char(n % 10));
        assert forall|i: int| 0 <= i < s.len() implies is_digit(#[trigger] s[i]) by {
            if i < shorter.len() {
                assert(s[i] == shorter[i]);
            }
        }
        assert(s[0] == shorter[0]);
    }
}

/// A quantity that is written and read again is the same quantity.
pub proof fn lemma_written_quantity_reads_back(n: u32)
    ensures
        quantity_of(quantity_text(n as nat)) == Some(n),
{
    lemma_text_value(n as nat);
    let s = quantity_text(n as nat);
    assert(is_digit(s[0]));
    assert(unsigned_part(s) == s);
}

/// The text of one decimal digit.
fn digit_text(d: u32) -> (s: &'static str)
    requires
        d < 10,
    ensures
        s@ == seq![digit_char(d as nat)],
{
    proof {
        reveal_strlit("0");
        reveal_strlit("1");
        reveal_strlit("2");
        reveal_strlit("3");
        reveal_strlit("4");
        reveal_strlit("5");
        reveal_strlit("6");
        reveal_strlit("7");
        reveal_strlit("8");
        reveal_strlit("9");
    }
    let s = if d == 0 {
        "0"
    } else if d == 1 {
        "1"
    } else if d == 2 {
        "2"
    } else if d == 3 {
        "3"
    } else if d == 4 {
        "4"
    } else if d == 5 {
        "5"
    } else if d == 6 {
        "6"
    } else if d == 7 {
        "7"
    } else if d == 8 {
        "8"
    } else {
        "9"
    };
    assert(s@ =~= seq![digit_char(d as nat)]);
    s
}

/// Writes a quantity in decimal.
pub fn format_quantity(n: u32) -> (text: String)
    ensures
        text@ == quantity_text(n as nat),
    decreases n,
{
    if n < 10 {
        digit_text(n).to_owned()
    } else {
        let text = format_quantity(n / 10).concat(digit_text(n % 10));
        assert(text@ =~= quantity_text(n as nat / 10).push(digit_char(n as nat % 10)));
        text
    }
}

} // verus!

use vstd::prelude::*;

verus! {

/// The text UTF-16 code units stand for, or `None` where a surrogate is unpaired: a unit
/// outside the surrogate range is its own character, a high surrogate followed by a low
/// one makes one character above U+FFFF.
pub open spec fn utf16_decoded(units: Seq<u16>) -> Option<Seq<char>>
    decreases units.len(),
{
    if units.len() == 0 {
        Some(Seq::empty())
    } else if units[0] < 0xD800 || units[0] > 0xDFFF {
        match utf16_decoded(units.drop_first()) {
            Some(rest) => Some(seq![units[0] as char] + rest),
            None => None,
        }
    } else if units[0] >= 0xDC00 {
        None
    } else if units.len() >= 2 && 0xDC00 <= units[1] && units[1] <= 0xDFFF {
        match utf16_decoded(units.subrange(2, units.len() as int)) {
            Some(rest) => Some(
                seq![(0x10000 + (units[0] - 0xD800) * 0x400 + (units[1] - 0xDC00)) as char] + rest,
            ),
            None => None,
        }
    } else {
        None
    }
}

/// `widestring::U16Str::to_string` on the given units: their UTF-16 decoding as a
/// `String`, or `None` (the crate's `Utf16Error`) where a surrogate is unpaired.
#[verifier::external_body]
pub(crate) fn decode_utf16(units: &[u16]) -> (text: Option<String>)
    ensures
        match text {
            Some(s) => utf16_decoded(units@) == Some(s@),
            None => utf16_decoded(units@) is None,
        },
{
    widestring::U16Str::from_slice(units).to_string().ok()
}

/// Whether a number is a Unicode scalar value: a code point outside the surrogate range.
pub open spec fn is_scalar_value(unicode: u32) -> bool {
    unicode < 0xD800 || (0xE000 <= unicode && unicode <= 0x10FFFF)
}

/// `char::from_u32`: the character with this code point, if it is a scalar value.
#[verifier::external_body]
pub(crate) fn char_from_u32(unicode: u32) -> (c: Option<char>)
    ensures
        is_scalar_value(unicode) ==> c == Some(unicode as char),
        !is_scalar_value(unicode) ==> c is None,
{
    char::from_u32(unicode)
}

/// `char::to_string`: the one-character string.
#[verifier::external_body]
pub(crate) fn char_to_string(c: char) -> (s: String)
    ensures
        s@ == seq![c],
{
    c.to_string()
}

/// Characters that can make up a number: ASCII digits, `.`, `-` and `+`.
pub open spec fn is_number_char(c: char) -> bool {
    ('0' <= c && c <= '9') || c == '.' || c == '-' || c == '+'
}

/// The characters of `text` that can make up a number, in order.
pub fn number_chars(text: &str) -> (digits: String)
    ensures
        digits@ == text@.filter(|c: char| is_number_char(c)),
{
    let mut digits = String::new();
    let n = text.unicode_len();
    let mut i: usize = 0;
    while i < n
        invariant
            0 <= i <= n,
            n == text@.len(),
            digits@ == text@.subrange(0, i as int).filter(|c: char| is_number_char(c)),
        decreases n - i,
    {
        let c = text.get_char(i);
        proof {
            let next = text@.subrange(0, i + 1);
            assert(next.drop_last() == text@.subrange(0, i as int));
            assert(next.last() == c);
            reveal_with_fuel(Seq::filter, 1);
        }
        if ('0' <= c && c <= '9') || c == '.' || c == '-' || c == '+' {
            let s = char_to_string(c);
            digits.append(s.as_str());
        }
        i = i + 1;
    }
    proof {
        assert(text@.subrange(0, n as int) == text@);
    }
    digits
}


/// The character of a decimal digit.
pub open spec fn digit_char(d: nat) -> char {
    (48 + d) as char
}

/// The decimal numeral of a number, without leading zeros.
pub open spec fn decimal(n: nat) -> Seq<char>
    decreases n,
{
    if n < 10 {
        seq![digit_char(n)]
    } else {
        decimal(n / 10).push(digit_char(n % 10))
    }
}

fn digit_str(d: u64) -> (s: &'static str)
    requires
        d < 10,
    ensures
        s@ == seq![digit_char(d as nat)],
{
    if d == 0 {
        proof {
            reveal_strlit("0");
        }
        "0"
    } else if d == 1 {
        proof {
            reveal_strlit("1");
        }
        "1"
    } else if d == 2 {
        proof {
            reveal_strlit("2");
        }
        "2"
    } else if d == 3 {
        proof {
            reveal_strlit("3");
        }
        "3"
    } else if d == 4 {
        proof {
            reveal_strlit("4");
        }
        "4"
    } else if d == 5 {
        proof {
            reveal_strlit("5");
        }
        "5"
    } else if d == 6 {
        proof {
            reveal_strlit("6");
        }
        "6"
    } else if d == 7 {
        proof {
            reveal_strlit("7");
        }
        "7"
    } else if d == 8 {
        proof {
            reveal_strlit("8");
        }
        "8"
    } else {
        proof {
            reveal_strlit("9");
        }
        "9"
    }
}

/// Appends the decimal numeral of `n`.
pub fn append_decimal(text: &mut String, n: u64)
    ensures
        final(text)@ == old(text)@ + decimal(n as nat),
    decreases n,
{
    if n >= 10 {
        append_decimal(text, n / 10);
    }
    text.append(digit_str(n % 10));
    proof {
        if n >= 10 {
            assert(decimal(n as nat) == decimal((n / 10) as nat).push(digit_char((n % 10) as nat)));
        }
    }
}

} // verus!

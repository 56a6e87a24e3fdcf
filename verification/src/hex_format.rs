use vstd::prelude::*;
use vstd::string::StringExecFns;

use crate::error::ColorError;
use crate::rgb::RGB;

verus! {

/// Whether the character is a hexadecimal digit, in either case.
pub open spec fn is_hex_digit(c: char) -> bool {
    (48 <= c as int && c as int <= 57)  // '0' through '9'
     || (97 <= c as int && c as int <= 102)  // 'a' through 'f'
     || (65 <= c as int && c as int <= 70)  // 'A' through 'F'

}

/// The numeric value of a hexadecimal digit, in either case.
pub open spec fn hex_digit_value(c: char) -> u8
    recommends
        is_hex_digit(c),
{
    if 48 <= c as int && c as int <= 57 {
        (c as int - 48) as u8
    } else if 97 <= c as int && c as int <= 102 {
        (c as int - 87) as u8
    } else {
        (c as int - 55) as u8
    }
}

/// Whether every character of the text is a hexadecimal digit.
pub open spec fn is_hex_seq(s: Seq<char>) -> bool {
    forall|i: int| 0 <= i < s.len() ==> is_hex_digit(s[i])
}

/// Whether the text is a well-formed color code: exactly six
/// hexadecimal digits, two per channel.
pub open spec fn is_hex6(s: Seq<char>) -> bool {
    s.len() == 6 && is_hex_seq(s)
}

/// The byte encoded by a pair of hexadecimal digits, high digit first.
pub open spec fn byte_of_digits(hi: char, lo: char) -> u8
    recommends
        is_hex_digit(hi),
        is_hex_digit(lo),
{
    (hex_digit_value(hi) * 16 + hex_digit_value(lo)) as u8
}

/// The color encoded by a well-formed six-digit color code.
pub open spec fn rgb_of_hex(s: Seq<char>) -> RGB
    recommends
        is_hex6(s),
{
    RGB {
        red: byte_of_digits(s[0], s[1]),
        green: byte_of_digits(s[2], s[3]),
        blue: byte_of_digits(s[4], s[5]),
    }
}

/// The uppercase hexadecimal digit for a value below sixteen.
pub open spec fn upper_hex_digit(n: u8) -> char
    recommends
        n < 16,
{
    if n == 0 {
        '0'
    } else if n == 1 {
        '1'
    } else if n == 2 {
        '2'
    } else if n == 3 {
        '3'
    } else if n == 4 {
        '4'
    } else if n == 5 {
        '5'
    } else if n == 6 {
        '6'
    } else if n == 7 {
        '7'
    } else if n == 8 {
        '8'
    } else if n == 9 {
        '9'
    } else if n == 10 {
        'A'
    } else if n == 11 {
        'B'
    } else if n == 12 {
        'C'
    } else if n == 13 {
        'D'
    } else if n == 14 {
        'E'
    } else {
        'F'
    }
}

/// The six-digit uppercase color code of a color: two digits for each
/// channel, red first, green second, blue last.
pub open spec fn hex_text_of(c: RGB) -> Seq<char> {
    seq![
        upper_hex_digit((c.red / 16) as u8),
        upper_hex_digit((c.red % 16) as u8),
        upper_hex_digit((c.green / 16) as u8),
        upper_hex_digit((c.green % 16) as u8),
        upper_hex_digit((c.blue / 16) as u8),
        upper_hex_digit((c.blue % 16) as u8),
    ]
}

#[verifier::external_type_specification]
#[verifier::external_body]
pub struct ExFromHexError(hex::FromHexError);

/// Relies on hex::decode: the text decodes to one byte per digit pair
/// exactly when its length is even and every character is a hexadecimal
/// digit of either case; anything else is an error.
#[verifier::external_body]
fn decode_hex(s: &str) -> (r: Result<Vec<u8>, hex::FromHexError>)
    ensures
        r is Ok <==> (s@.len() % 2 == 0 && is_hex_seq(s@)),
        r matches Ok(v) ==> v@.len() == s@.len() / 2,
        r matches Ok(v) ==> forall|i: int|
            0 <= i < v@.len() ==> v@[i] == byte_of_digits(s@[2 * i], s@[2 * i + 1]),
{
    hex::decode(s)
}

/// The one-character text holding the uppercase hexadecimal digit for
/// a value below sixteen.
fn upper_digit_str(n: u8) -> (r: &'static str)
    requires
        n < 16,
    ensures
        r@ == seq![upper_hex_digit(n)],
{
    let r: &'static str = match n {
        0 => "0",
        1 => "1",
        2 => "2",
        3 => "3",
        4 => "4",
        5 => "5",
        6 => "6",
        7 => "7",
        8 => "8",
        9 => "9",
        10 => "A",
        11 => "B",
        12 => "C",
        13 => "D",
        14 => "E",
        _ => "F",
    };
    proof {
        reveal_strlit("0");
        reveal_strlit("1");
        reveal_strlit("2");
        reveal_strlit("3");
        reveal_strlit("4");
        reveal_strlit("5");
        reveal_strlit("6");
        reveal_strlit("7");
        reveal_strlit("8");
        reveal_strlit("9");
        reveal_strlit("A");
        reveal_strlit("B");
        reveal_strlit("C");
        reveal_strlit("D");
        reveal_strlit("E");
        reveal_strlit("F");
        assert(r@ =~= seq![upper_hex_digit(n)]);
    }
    r
}

impl RGB {
    /// Converts a hexadecimal string into an `RGB` color.
    ///
    /// The input must be exactly six hexadecimal digits, two per channel;
    /// either case is accepted. Anything else is a decode error.
    pub fn from_hex_string(input: &str) -> (r: Result<Self, ColorError>)
        ensures
            is_hex6(input@) ==> r == Ok::<RGB, ColorError>(rgb_of_hex(input@)),
            !is_hex6(input@) ==> r == Err::<RGB, ColorError>(ColorError::DecodeError),
    {
        match decode_hex(input) {
            Ok(values) => {
                if values.len() == 3 {
                    Ok(Self { red: values[0], green: values[1], blue: values[2] })
                } else {
                    Err(ColorError::DecodeError)
                }
            },
            Err(_) => Err(ColorError::DecodeError),
        }
    }

    /// Returns the hexadecimal string representation of the color:
    /// six uppercase digits, two per channel, red first.
    pub fn to_hex_string(&self) -> (r: String)
        ensures
            r@ == hex_text_of(*self),
    {
        let mut s = String::new();
        s.append(upper_digit_str(self.red / 16));
        s.append(upper_digit_str(self.red % 16));
        s.append(upper_digit_str(self.green / 16));
        s.append(upper_digit_str(self.green % 16));
        s.append(upper_digit_str(self.blue / 16));
        s.append(upper_digit_str(self.blue % 16));
        proof {
            assert(s@ =~= hex_text_of(*self));
        }
        s
    }
}

/// The two uppercase digits of a byte are hexadecimal digits and
/// encode the byte itself.
proof fn lemma_byte_digits(n: u8)
    ensures
        is_hex_digit(upper_hex_digit((n / 16) as u8)),
        is_hex_digit(upper_hex_digit((n % 16) as u8)),
        byte_of_digits(upper_hex_digit((n / 16) as u8), upper_hex_digit((n % 16) as u8)) == n,
{
    assert(n / 16 < 16);
    assert(n % 16 < 16);
    assert(hex_digit_value(upper_hex_digit((n / 16) as u8)) == n / 16);
    assert(hex_digit_value(upper_hex_digit((n % 16) as u8)) == n % 16);
    assert((n / 16) * 16 + (n % 16) == n) by (nonlinear_arith);
}

/// A digit pair below sixteen divides back into its two digits.
proof fn lemma_split_byte(hi: u8, lo: u8)
    requires
        hi < 16,
        lo < 16,
    ensures
        (hi * 16 + lo) / 16 == hi,
        (hi * 16 + lo) % 16 == lo,
{
    assert((hi * 16 + lo) / 16 == hi && (hi * 16 + lo) % 16 == lo) by (nonlinear_arith)
        requires
            hi < 16,
            lo < 16,
    ;
}

/// Decoding a well-formed six-digit color code and rendering the color
/// again yields the same digits, with letters normalized to upper case.
pub proof fn lemma_hex_case_normalization(s: Seq<char>)
    requires
        is_hex6(s),
    ensures
        hex_text_of(rgb_of_hex(s)).len() == s.len(),
        forall|i: int|
            0 <= i < s.len() ==> hex_text_of(rgb_of_hex(s))[i] == upper_hex_digit(
                hex_digit_value(s[i]),
            ),
{
    let c = rgb_of_hex(s);
    let t = hex_text_of(c);
    assert forall|i: int|
        0 <= i < s.len() implies t[i] == upper_hex_digit(hex_digit_value(s[i])) by {
        if i == 0 || i == 1 {
            lemma_split_byte(hex_digit_value(s[0]), hex_digit_value(s[1]));
        } else if i == 2 || i == 3 {
            lemma_split_byte(hex_digit_value(s[2]), hex_digit_value(s[3]));
        } else {
            lemma_split_byte(hex_digit_value(s[4]), hex_digit_value(s[5]));
        }
    }
}

/// Rendering a color as hexadecimal text always yields a well-formed
/// six-digit color code, and decoding that code yields the same color.
pub proof fn lemma_hex_round_trip(c: RGB)
    ensures
        is_hex6(hex_text_of(c)),
        rgb_of_hex(hex_text_of(c)) == c,
{
    let s = hex_text_of(c);
    lemma_byte_digits(c.red);
    lemma_byte_digits(c.green);
    lemma_byte_digits(c.blue);
    assert forall|i: int| 0 <= i < s.len() implies is_hex_digit(s[i]) by {
        if i == 0 || i == 1 {
            lemma_byte_digits(c.red);
        } else if i == 2 || i == 3 {
            lemma_byte_digits(c.green);
        } else {
            lemma_byte_digits(c.blue);
        }
    }
}

} // verus!

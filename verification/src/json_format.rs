use vstd::prelude::*;

use crate::rgb::RGB;
use crate::rgb::channel_or_zero;

verus! {

/// The decimal digit character for a value below ten.
pub open spec fn decimal_digit(n: nat) -> char
    recommends
        n < 10,
{
    if n == 0 {
        '0'
    } else if n == 1 {
        '1'
    } else if n == 2 {
        '2'
    } else if n == 3 {
        '3'
    } else if n == 4 {
        '4'
    } else if n == 5 {
        '5'
    } else if n == 6 {
        '6'
    } else if n == 7 {
        '7'
    } else if n == 8 {
        '8'
    } else {
        '9'
    }
}

/// The decimal digits of a number, most significant first, with no
/// leading zeros except for the number zero itself.
pub open spec fn decimal_text(n: nat) -> Seq<char>
    decreases n,
{
    if n < 10 {
        seq![decimal_digit(n)]
    } else {
        decimal_text(n / 10) + seq![decimal_digit(n % 10)]
    }
}

/// A key wrapped in double quotes.
pub open spec fn quoted(key: Seq<char>) -> Seq<char> {
    seq!['"'] + key + seq!['"']
}

/// One `"key":value` member of object text, the value in decimal.
pub open spec fn member_text(key: Seq<char>, value: u8) -> Seq<char> {
    quoted(key) + seq![':'] + decimal_text(value as nat)
}

/// The object text for three members in the given order: braces around
/// comma-separated `"key":value` pairs, with no spaces.
pub open spec fn object_text(
    k1: Seq<char>,
    v1: u8,
    k2: Seq<char>,
    v2: u8,
    k3: Seq<char>,
    v3: u8,
) -> Seq<char> {
    seq!['{'] + member_text(k1, v1) + seq![','] + member_text(k2, v2) + seq![','] + member_text(
        k3,
        v3,
    ) + seq!['}']
}

/// Whether a key consists only of lower-case ASCII letters, so that
/// object text renders it with no escapes.
pub open spec fn is_plain_key(key: Seq<char>) -> bool {
    forall|i: int| 0 <= i < key.len() ==> (97 <= key[i] as int && key[i] as int <= 122)
}

/// The object text a color serializes to: the three channels under the
/// keys `red`, `green` and `blue`, in that order.
pub open spec fn rgb_object_text(c: RGB) -> Seq<char> {
    object_text("red"@, c.red, "green"@, c.green, "blue"@, c.blue)
}

/// Whether object text parses as a value at all; parsing depends on
/// the text alone.
pub uninterp spec fn object_text_parses(s: Seq<char>) -> bool;

/// The 8-bit number that parsed object text holds under a key, if the
/// text holds one there; what a key yields depends on the text and the
/// key alone.
pub uninterp spec fn object_member_u8(s: Seq<char>, key: Seq<char>) -> Option<u8>;

/// Relies on json::parse, the str index of json::JsonValue and
/// JsonValue::as_u8: whether the text parses, and which numeric member
/// a key then yields (none for a missing member or one outside the
/// 8-bit range), are functions of the text and the keys alone.
#[verifier::external_body]
fn parse_members3(s: &str, k1: &str, k2: &str, k3: &str) -> (r: Option<
    (Option<u8>, Option<u8>, Option<u8>),
>)
    ensures
        r is Some <==> object_text_parses(s@),
        r matches Some(m) ==> m.0 == object_member_u8(s@, k1@) && m.1 == object_member_u8(
            s@,
            k2@,
        ) && m.2 == object_member_u8(s@, k3@),
{
    match json::parse(s) {
        Ok(data) => Some((data[k1].as_u8(), data[k2].as_u8(), data[k3].as_u8())),
        Err(_) => None,
    }
}

/// Relies on json::object::Object::insert and json::JsonValue::dump:
/// an object prints as brace-wrapped, comma-separated `"key":value`
/// pairs in insertion order with no spaces, a key of lower-case letters
/// prints unescaped, and an 8-bit number prints in decimal. The printed
/// text parses again, and each key then reads back its number.
#[verifier::external_body]
fn print_object3(k1: &str, v1: u8, k2: &str, v2: u8, k3: &str, v3: u8) -> (r: String)
    requires
        is_plain_key(k1@),
        is_plain_key(k2@),
        is_plain_key(k3@),
        k1@ != k2@,
        k1@ != k3@,
        k2@ != k3@,
    ensures
        r@ == object_text(k1@, v1, k2@, v2, k3@, v3),
        object_text_parses(r@),
        object_member_u8(r@, k1@) == Some(v1),
        object_member_u8(r@, k2@) == Some(v2),
        object_member_u8(r@, k3@) == Some(v3),
{
    let mut object = json::object::Object::new();
    object.insert(k1, json::JsonValue::from(v1));
    object.insert(k2, json::JsonValue::from(v2));
    object.insert(k3, json::JsonValue::from(v3));
    json::JsonValue::Object(object).dump()
}

impl RGB {
    /// Builds a color from object text holding channel values under the
    /// keys `red`, `green` and `blue`; a missing or non-numeric member
    /// defaults to zero, other members are ignored, and text that does
    /// not parse yields black.
    pub fn from_json_string(string: &str) -> (r: Self)
        ensures
            object_text_parses(string@) ==> r == (RGB {
                red: channel_or_zero(object_member_u8(string@, "red"@)),
                green: channel_or_zero(object_member_u8(string@, "green"@)),
                blue: channel_or_zero(object_member_u8(string@, "blue"@)),
            }),
            !object_text_parses(string@) ==> r == (RGB { red: 0, green: 0, blue: 0 }),
    {
        match parse_members3(string, "red", "green", "blue") {
            Some((red, green, blue)) => Self::from_components(red, green, blue),
            None => Self { red: 0, green: 0, blue: 0 },
        }
    }

    /// Serializes the color as object text: exactly the three members
    /// `red`, `green` and `blue` in that order, values in decimal. The
    /// text parses back, each key yielding its channel, so parsing it
    /// again restores the color.
    pub fn to_json_string(&self) -> (r: String)
        ensures
            r@ == rgb_object_text(*self),
            object_text_parses(r@),
            object_member_u8(r@, "red"@) == Some(self.red),
            object_member_u8(r@, "green"@) == Some(self.green),
            object_member_u8(r@, "blue"@) == Some(self.blue),
    {
        proof {
            reveal_strlit("red");
            reveal_strlit("green");
            reveal_strlit("blue");
        }
        print_object3("red", self.red, "green", self.green, "blue", self.blue)
    }
}

} // verus!

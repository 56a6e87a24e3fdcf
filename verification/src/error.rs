use vstd::prelude::*;
use vstd::string::StringExecFns;

verus! {

/// The ways an operation on a color can fail.
///
/// Construction never fails: numeric inputs are bounded by their types.
/// Only component lookup by name, hexadecimal decoding and plain channel
/// arithmetic have error cases.
#[derive(Clone, Debug)]
pub enum ColorError {
    /// A component lookup used a name that the model does not have;
    /// the offending name is carried along.
    NoSuchComponent(String),
    /// Hexadecimal text did not consist of exactly six hexadecimal digits.
    DecodeError,
    /// The exact sum or difference of two channels left the 8-bit range.
    ArithmeticOverflow,
}

impl ColorError {
    /// What `message` returns for each error value.
    pub open spec fn message_spec(&self) -> Seq<char> {
        match self {
            ColorError::NoSuchComponent(name) => "No color component named -> "@ + name@,
            ColorError::DecodeError => "Failed to decode hexadecimal color text"@,
            ColorError::ArithmeticOverflow => "Color channel arithmetic left the 8-bit range"@,
        }
    }

    /// A human-readable description of the error.
    pub fn message(&self) -> (r: String)
        ensures
            r@ == self.message_spec(),
    {
        match self {
            ColorError::NoSuchComponent(name) => {
                "No color component named -> ".to_owned().concat(name.as_str())
            },
            ColorError::DecodeError => "Failed to decode hexadecimal color text".to_owned(),
            ColorError::ArithmeticOverflow => {
                "Color channel arithmetic left the 8-bit range".to_owned()
            },
        }
    }
}

impl PartialEq for ColorError {
    fn eq(&self, other: &Self) -> (r: bool) {
        match (self, other) {
            (ColorError::NoSuchComponent(a), ColorError::NoSuchComponent(b)) => {
                a.eq(b)
            },
            (ColorError::DecodeError, ColorError::DecodeError) => true,
            (ColorError::ArithmeticOverflow, ColorError::ArithmeticOverflow) => true,
            _ => false,
        }
    }
}

impl vstd::std_specs::cmp::PartialEqSpecImpl for ColorError {
    open spec fn obeys_eq_spec() -> bool {
        true
    }

    open spec fn eq_spec(&self, other: &Self) -> bool {
        match (self, other) {
            (ColorError::NoSuchComponent(a), ColorError::NoSuchComponent(b)) => a@ == b@,
            (ColorError::DecodeError, ColorError::DecodeError) => true,
            (ColorError::ArithmeticOverflow, ColorError::ArithmeticOverflow) => true,
            _ => false,
        }
    }
}

} // verus!

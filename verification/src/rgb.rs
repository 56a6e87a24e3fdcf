use vstd::prelude::*;

use crate::error::ColorError;

verus! {

/// Data structure for red, green, blue encoded colors.
///
/// Each channel is an 8-bit unsigned value; the type has no further
/// invariant, every triple of channel values is a color.
#[derive(Clone, Copy, Debug, PartialEq, Eq, Structural)]
pub struct RGB {
    pub red: u8,
    pub green: u8,
    pub blue: u8,
}

/// Selects one channel of an `RGB` color.
#[derive(Clone, Copy, Debug, PartialEq, Eq, Structural)]
pub enum Component {
    Red,
    Green,
    Blue,
}

/// The component, if any, that a name denotes: exactly the names
/// `red`, `green` and `blue` are recognized.
pub open spec fn component_of_name(name: Seq<char>) -> Option<Component> {
    if name == "red"@ {
        Some(Component::Red)
    } else if name == "green"@ {
        Some(Component::Green)
    } else if name == "blue"@ {
        Some(Component::Blue)
    } else {
        None
    }
}

/// Blends two channel values: the exact sum, bleeding back by exactly
/// 255 when it passes the top of the channel range. This is not a
/// wrap modulo 256: a sum of 300 comes out as 45.
pub open spec fn bleed_wrap(a: u8, b: u8) -> u8 {
    if a + b > 255 {
        (a + b - 255) as u8
    } else {
        (a + b) as u8
    }
}

/// The channel value an absent object member defaults to.
pub open spec fn channel_or_zero(v: Option<u8>) -> u8 {
    match v {
        Some(value) => value,
        None => 0,
    }
}

/// Whether two strings hold the same characters.
///
/// Relies on vstd's specification of `String` equality.
fn text_eq(a: &str, b: &str) -> (r: bool)
    ensures
        r == (a@ == b@),
{
    a.to_owned().eq(&b.to_owned())
}

/// The component, if any, that an executable name denotes.
pub fn parse_component(name: &str) -> (r: Option<Component>)
    ensures
        r == component_of_name(name@),
{
    if text_eq(name, "red") {
        Some(Component::Red)
    } else if text_eq(name, "green") {
        Some(Component::Green)
    } else if text_eq(name, "blue") {
        Some(Component::Blue)
    } else {
        None
    }
}

impl RGB {
    /// The value of the selected channel.
    pub open spec fn component_spec(&self, c: Component) -> u8 {
        match c {
            Component::Red => self.red,
            Component::Green => self.green,
            Component::Blue => self.blue,
        }
    }

    /// Returns a new instance of the `RGB` data structure.
    pub fn new(red: u8, green: u8, blue: u8) -> (r: Self)
        ensures
            r == (RGB { red, green, blue }),
    {
        Self { red, green, blue }
    }

    /// Returns the value of the selected channel.
    pub fn component(&self, c: Component) -> (r: u8)
        ensures
            r == self.component_spec(c),
    {
        match c {
            Component::Red => self.red,
            Component::Green => self.green,
            Component::Blue => self.blue,
        }
    }

    /// Returns the named component's value, or an error carrying the
    /// unknown name.
    pub fn get(&self, component: &str) -> (r: Result<u8, ColorError>)
        ensures
            component_of_name(component@) matches Some(c) ==> r == Ok::<u8, ColorError>(
                self.component_spec(c),
            ),
            component_of_name(component@) is None ==> (r matches Err(
                ColorError::NoSuchComponent(name),
            ) && name@ == component@),
    {
        match parse_component(component) {
            Some(c) => Ok(self.component(c)),
            None => Err(ColorError::NoSuchComponent(component.to_owned())),
        }
    }

    /// Adds the colors channel by channel. The sum is exact: when any
    /// channel leaves the 8-bit range the whole addition fails.
    pub fn add(self, other: Self) -> (r: Result<Self, ColorError>)
        ensures
            self.red + other.red <= 255 && self.green + other.green <= 255 && self.blue
                + other.blue <= 255 ==> r == Ok::<RGB, ColorError>(
                RGB {
                    red: (self.red + other.red) as u8,
                    green: (self.green + other.green) as u8,
                    blue: (self.blue + other.blue) as u8,
                },
            ),
            self.red + other.red > 255 || self.green + other.green > 255 || self.blue + other.blue
                > 255 ==> r == Err::<RGB, ColorError>(ColorError::ArithmeticOverflow),
    {
        let red_sum: u16 = self.red as u16 + other.red as u16;
        let green_sum: u16 = self.green as u16 + other.green as u16;
        let blue_sum: u16 = self.blue as u16 + other.blue as u16;
        if red_sum > 255 || green_sum > 255 || blue_sum > 255 {
            Err(ColorError::ArithmeticOverflow)
        } else {
            Ok(Self { red: red_sum as u8, green: green_sum as u8, blue: blue_sum as u8 })
        }
    }

    /// Subtracts the colors channel by channel. The difference is exact:
    /// when any channel would fall below zero the whole subtraction fails.
    pub fn sub(self, other: Self) -> (r: Result<Self, ColorError>)
        ensures
            other.red <= self.red && other.green <= self.green && other.blue <= self.blue ==> r
                == Ok::<RGB, ColorError>(
                RGB {
                    red: (self.red - other.red) as u8,
                    green: (self.green - other.green) as u8,
                    blue: (self.blue - other.blue) as u8,
                },
            ),
            other.red > self.red || other.green > self.green || other.blue > self.blue ==> r
                == Err::<RGB, ColorError>(ColorError::ArithmeticOverflow),
    {
        if other.red > self.red || other.green > self.green || other.blue > self.blue {
            Err(ColorError::ArithmeticOverflow)
        } else {
            Ok(
                Self {
                    red: self.red - other.red,
                    green: self.green - other.green,
                    blue: self.blue - other.blue,
                },
            )
        }
    }

    /// Blends this color with another `RGB` value channel by channel,
    /// bleeding each sum back by 255 when it overflows the channel.
    pub fn rotate_rgb(&self, other: Self) -> (r: Self)
        ensures
            r == (RGB {
                red: bleed_wrap(self.red, other.red),
                green: bleed_wrap(self.green, other.green),
                blue: bleed_wrap(self.blue, other.blue),
            }),
    {
        Self {
            red: Self::bleed_channel(self.red, other.red),
            green: Self::bleed_channel(self.green, other.green),
            blue: Self::bleed_channel(self.blue, other.blue),
        }
    }

    /// One channel of the blend: the widened sum, pulled back by 255
    /// when it exceeds the channel maximum.
    fn bleed_channel(a: u8, b: u8) -> (r: u8)
        ensures
            r == bleed_wrap(a, b),
    {
        let sum: u16 = a as u16 + b as u16;
        if sum > 255 {
            (sum - 255) as u8
        } else {
            sum as u8
        }
    }

    /// Builds a color from three optional channel values, each
    /// defaulting to zero when absent.
    pub fn from_components(red: Option<u8>, green: Option<u8>, blue: Option<u8>) -> (r: Self)
        ensures
            r == (RGB {
                red: channel_or_zero(red),
                green: channel_or_zero(green),
                blue: channel_or_zero(blue),
            }),
    {
        Self {
            red: red.unwrap_or(0),
            green: green.unwrap_or(0),
            blue: blue.unwrap_or(0),
        }
    }
}

impl Default for RGB {
    /// The default color is black: all three channels zero.
    fn default() -> (r: Self)
        ensures
            r == (RGB { red: 0, green: 0, blue: 0 }),
    {
        Self { red: 0, green: 0, blue: 0 }
    }
}

} // verus!

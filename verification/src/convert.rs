use vstd::prelude::*;

use crate::rgb::RGB;

verus! {

impl RGB {
    /// Builds a color from an array of the three channel values,
    /// red, green and blue in that order.
    pub fn from_array(array: [u8; 3]) -> (r: Self)
        ensures
            r == (RGB { red: array[0], green: array[1], blue: array[2] }),
    {
        Self { red: array[0], green: array[1], blue: array[2] }
    }

    /// The three channel values as an array, red, green and blue
    /// in that order.
    pub fn to_array(&self) -> (r: [u8; 3])
        ensures
            r@ == seq![self.red, self.green, self.blue],
    {
        let r = [self.red, self.green, self.blue];
        proof {
            assert(r@ =~= seq![self.red, self.green, self.blue]);
        }
        r
    }

    /// Builds a color from a tuple of the three channel values.
    pub fn from_tuple(tuple: (u8, u8, u8)) -> (r: Self)
        ensures
            r == (RGB { red: tuple.0, green: tuple.1, blue: tuple.2 }),
    {
        let (red, green, blue) = tuple;
        Self { red, green, blue }
    }

    /// The three channel values as a tuple.
    pub fn to_tuple(&self) -> (r: (u8, u8, u8))
        ensures
            r == (self.red, self.green, self.blue),
    {
        (self.red, self.green, self.blue)
    }

    /// Builds a color from the first three entries of a vector of
    /// channel values; entries past the third are ignored.
    pub fn from_vector(vector: Vec<u8>) -> (r: Self)
        requires
            vector@.len() >= 3,
        ensures
            r == (RGB { red: vector@[0], green: vector@[1], blue: vector@[2] }),
    {
        Self { red: vector[0], green: vector[1], blue: vector[2] }
    }

    /// The three channel values as a vector, red, green and blue
    /// in that order.
    pub fn to_vector(&self) -> (r: Vec<u8>)
        ensures
            r@ == seq![self.red, self.green, self.blue],
    {
        let mut v: Vec<u8> = Vec::new();
        v.push(self.red);
        v.push(self.green);
        v.push(self.blue);
        proof {
            assert(v@ =~= seq![self.red, self.green, self.blue]);
        }
        v
    }
}

} // verus!

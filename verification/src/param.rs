//! Parameters of a stream that the audio thread reads while it plays.
use vstd::prelude::*;

verus! {

/// The value of a parameter.
#[derive(Debug, PartialEq, Eq, Structural)]
pub enum Parameter<T> {
    /// A plain scalar.
    Raw(T),
}

impl<T: Copy> Copy for Parameter<T> {

}

impl<T: Copy> Clone for Parameter<T> {
    fn clone(&self) -> (copy: Self)
        ensures
            copy == *self,
    {
        *self
    }
}

/// A gain, as the bits of an IEEE 754 single-precision number.
pub type Gain = Parameter<u32>;

/// The bits of the gain `1.0`, which leaves a sample as it is.
pub const UNITY_GAIN: u32 = 0x3f80_0000;

impl<T> Parameter<T> {
    /// The scalar that the parameter stands for.
    pub open spec fn spec_raw(self) -> T {
        match self {
            Parameter::Raw(value) => value,
        }
    }

    /// The scalar that the parameter stands for.
    pub fn raw(self) -> (value: T)
        ensures
            value == self.spec_raw(),
    {
        match self {
            Parameter::Raw(value) => value,
        }
    }
}

} // verus!

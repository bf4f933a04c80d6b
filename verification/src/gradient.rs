//! The federated-learning payload.
//!
//! [`Gradient`] is the only value permitted to cross a building boundary for model training. Its
//! buffer is private and its sole constructor is [`Gradient::from_local`]: there is no conversion
//! from any raw sensor type, so a raw frame can never be turned into a gradient.

use vstd::prelude::*;

use crate::binary32::Binary32;

verus! {

/// A model-update gradient.
#[derive(Clone, Debug, PartialEq)]
pub struct Gradient {
    values: Vec<Binary32>,
}

impl View for Gradient {
    type V = Seq<Binary32>;

    closed spec fn view(&self) -> Seq<Binary32> {
        self.values@
    }
}

impl Gradient {
    /// The only constructor: a gradient is the product of local model computation.
    pub fn from_local(values: Vec<Binary32>) -> (r: Gradient)
        ensures
            r@ == values@,
    {
        Gradient { values }
    }

    /// The components.
    pub fn as_slice(&self) -> (r: &[Binary32])
        ensures
            r@ == self@,
    {
        self.values.as_slice()
    }

    /// The dimensionality.
    pub fn len(&self) -> (r: usize)
        ensures
            r == self@.len(),
    {
        self.values.len()
    }

    /// True for a zero-dimensional gradient.
    pub fn is_empty(&self) -> (r: bool)
        ensures
            r == (self@.len() == 0),
    {
        self.values.len() == 0
    }
}

} // verus!

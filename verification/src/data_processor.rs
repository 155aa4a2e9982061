use vstd::prelude::*;
use crate::error::GalileoError;

verus! {

/// A step that turns loaded data into what a layer draws.
pub trait DataProcessor {
    type Input;

    type Output;

    type Context;

    fn process(&self, input: Self::Input, context: Self::Context) -> (r: Result<
        Self::Output,
        GalileoError,
    >);
}

} // verus!

//! Cleaning up what a client sent.

use vstd::prelude::*;

verus! {

/// A model whose text fields can be trimmed in place.
pub trait Sanitize {
    fn sanitize(&mut self);
}

} // verus!

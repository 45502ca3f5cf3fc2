use vstd::prelude::*;
use crate::common::position::FileSpan;

verus! {

/// A type error: where it is, and why.
#[derive(Debug)]
pub struct TypeError {
    pub position: FileSpan,
    pub reason: String,
}

} // verus!

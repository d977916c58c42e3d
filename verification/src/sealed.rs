use vstd::prelude::*;

verus! {

/// Supertrait that keeps the device and client markers a closed set:
/// this module is private to the crate, so no outside code can
/// implement the marker traits that require it.
pub trait Sealed {

}

} // verus!

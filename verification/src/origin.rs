use vstd::prelude::*;

verus! {

/// The serialization mid-end that produced a payload.
///
/// A tag is handed out by the constructors of [`crate::Interop`] and never
/// changes afterwards. It supports copying, comparison and matching, nothing
/// else.
#[derive(Clone, Copy, Debug, PartialEq, Eq, Structural)]
pub enum Origin {
    /// The payload was encoded through serde.
    Serde,
    /// The payload was encoded through rustc-serialize.
    RustcSerialize,
}

} // verus!

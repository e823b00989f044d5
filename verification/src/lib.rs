//! A tagged container for bytes produced by one of two serialization
//! mid-ends, and the rules that decide which mid-end may read them back and
//! how each mid-end's failures are reported.
//!
//! The encoders and decoders themselves are generic over traits of other
//! crates and run outside this library. The library receives what they
//! returned, written in its own types, and decides everything else: the tag a
//! payload gets, whether a decoder may see it, which failures a caller can
//! recover from, and which ones show a defect and end the computation.

pub mod error;
pub mod failure;
pub mod fault;
pub mod interop;
pub mod laws;
pub mod origin;

pub use error::{DecodeDetail, Error};
pub use failure::{DecodingFailure, DeserializeFailure, EncodingFailure, SerializeFailure};
pub use fault::Fault;
pub use interop::{Interop, InteropView};
pub use origin::Origin;

use vstd::prelude::*;
use crate::failure::{DecodingFailure, DeserializeFailure, SerializeFailure};
use crate::origin::Origin;

verus! {

/// Which decoder found the bytes invalid, with the error that it returned.
#[derive(Debug)]
pub enum DecodeDetail {
    /// The serde decoder, and its error.
    Serde(bincode::serde::DeserializeError),
    /// The rustc-serialize decoder, and its error.
    RustcSerialize(bincode::rustc_serialize::DecodingError),
}

/// A failure of serialization or deserialization that a caller can react to.
#[derive(Debug)]
pub enum Error {
    /// A message from the serialization code of the value itself.
    Custom(String),
    /// An error of serde's own layer, inside the error of the serde decoder
    /// that wrapped it.
    Serde(bincode::serde::DeserializeError),
    /// The bytes were no valid encoding of the wanted type.
    InvalidEncoding(DecodeDetail),
}

impl DecodeDetail {
    /// The mid-end whose decoder reported the invalid encoding.
    pub open spec fn spec_decoder(&self) -> Origin {
        match self {
            DecodeDetail::Serde(_) => Origin::Serde,
            DecodeDetail::RustcSerialize(_) => Origin::RustcSerialize,
        }
    }

    /// The mid-end whose decoder reported the invalid encoding.
    #[verifier::when_used_as_spec(spec_decoder)]
    pub fn decoder(&self) -> (origin: Origin)
        ensures
            origin == self.spec_decoder(),
    {
        match self {
            DecodeDetail::Serde(_) => Origin::Serde,
            DecodeDetail::RustcSerialize(_) => Origin::RustcSerialize,
        }
    }
}

impl Error {
    /// The error that stands for a failure of the serde encoder. It is
    /// defined for the failures that are no fault.
    pub open spec fn spec_from_serialize(failure: SerializeFailure) -> Error
        recommends
            failure.fault() is None,
    {
        match failure {
            SerializeFailure::Custom(message) => Error::Custom(message),
            _ => arbitrary(),
        }
    }

    /// The error that stands for a failure of the serde decoder. It is
    /// defined for the failures that are no fault.
    pub open spec fn spec_from_deserialize(failure: DeserializeFailure) -> Error
        recommends
            failure.fault() is None,
    {
        match failure {
            DeserializeFailure::InvalidEncoding(detail) => Error::InvalidEncoding(
                DecodeDetail::Serde(detail),
            ),
            DeserializeFailure::Serde(inner) => Error::Serde(inner),
            _ => arbitrary(),
        }
    }

    /// The error that stands for a failure of the rustc-serialize decoder. It
    /// is defined for the failures that are no fault.
    pub open spec fn spec_from_decoding(failure: DecodingFailure) -> Error
        recommends
            failure.fault() is None,
    {
        match failure {
            DecodingFailure::InvalidEncoding(detail) => Error::InvalidEncoding(
                DecodeDetail::RustcSerialize(detail),
            ),
            _ => arbitrary(),
        }
    }

    /// Reports a failure of the serde encoder: the message of the value's
    /// own serialization code, word for word.
    pub fn from_serialize(failure: SerializeFailure) -> (error: Error)
        requires
            failure.fault() is None,
        ensures
            error == Error::spec_from_serialize(failure),
            failure matches SerializeFailure::Custom(message) && error == Error::Custom(message),
    {
        match failure {
            SerializeFailure::Custom(message) => Error::Custom(message),
            _ => unreached(),
        }
    }

    /// Reports a failure of the serde decoder. An invalid encoding keeps the
    /// decoder's error and is marked as found by serde; an error of serde's
    /// own layer is passed on inside the decoder's error.
    pub fn from_deserialize(failure: DeserializeFailure) -> (error: Error)
        requires
            failure.fault() is None,
        ensures
            error == Error::spec_from_deserialize(failure),
            failure matches DeserializeFailure::InvalidEncoding(detail) ==> error
                == Error::InvalidEncoding(DecodeDetail::Serde(detail)),
            failure matches DeserializeFailure::Serde(inner) ==> error == Error::Serde(inner),
    {
        match failure {
            DeserializeFailure::InvalidEncoding(detail) => Error::InvalidEncoding(
                DecodeDetail::Serde(detail),
            ),
            DeserializeFailure::Serde(inner) => Error::Serde(inner),
            _ => unreached(),
        }
    }

    /// Reports a failure of the rustc-serialize decoder: an invalid encoding,
    /// which keeps the decoder's error and is marked as found by
    /// rustc-serialize.
    pub fn from_decoding(failure: DecodingFailure) -> (error: Error)
        requires
            failure.fault() is None,
        ensures
            error == Error::spec_from_decoding(failure),
            failure matches DecodingFailure::InvalidEncoding(detail) && error
                == Error::InvalidEncoding(DecodeDetail::RustcSerialize(detail)),
    {
        match failure {
            DecodingFailure::InvalidEncoding(detail) => Error::InvalidEncoding(
                DecodeDetail::RustcSerialize(detail),
            ),
            _ => unreached(),
        }
    }
}

} // verus!

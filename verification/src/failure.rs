use vstd::prelude::*;
use crate::fault::Fault;
use crate::origin::Origin;

verus! {

/// Stands for `bincode::serde::DeserializeError`, which the serde decoder
/// returns. The library carries a value of it through and never looks inside.
#[verifier::external_type_specification]
#[verifier::external_body]
pub struct ExDeserializeError(bincode::serde::DeserializeError);

/// Stands for `bincode::rustc_serialize::DecodingError`, which the
/// rustc-serialize decoder returns. The library carries a value of it through
/// and never looks inside.
#[verifier::external_type_specification]
#[verifier::external_body]
pub struct ExDecodingError(bincode::rustc_serialize::DecodingError);

/// How the serde encoder failed.
#[derive(Debug)]
pub enum SerializeFailure {
    /// The writer failed.
    Io,
    /// The value did not fit the size limit.
    SizeLimit,
    /// The value's own serialization code gave up, with this message.
    Custom(String),
}

/// How the serde decoder failed.
#[derive(Debug)]
pub enum DeserializeFailure {
    /// The reader failed.
    Io,
    /// The bytes are no encoding of the wanted type. The decoder's error is
    /// kept whole.
    InvalidEncoding(bincode::serde::DeserializeError),
    /// More bytes were asked for than the size limit allows.
    SizeLimit,
    /// serde's own layer failed, and the decoder wrapped its error. The
    /// decoder's error is kept whole.
    Serde(bincode::serde::DeserializeError),
}

/// How the rustc-serialize encoder failed.
#[derive(Clone, Copy, Debug, PartialEq, Eq, Structural)]
pub enum EncodingFailure {
    /// The writer failed.
    Io,
    /// The value did not fit the size limit.
    SizeLimit,
}

/// How the rustc-serialize decoder failed.
#[derive(Debug)]
pub enum DecodingFailure {
    /// The reader failed.
    Io,
    /// The bytes are no encoding of the wanted type. The decoder's error is
    /// kept whole.
    InvalidEncoding(bincode::rustc_serialize::DecodingError),
    /// More bytes were asked for than the size limit allows.
    SizeLimit,
}

impl SerializeFailure {
    /// The fault that this failure shows, if it is one: the encoder writes
    /// into memory without a size limit, so only a message from the value's
    /// own code is a failure that a caller can be told of.
    pub open spec fn spec_fault(&self) -> Option<Fault> {
        match self {
            SerializeFailure::Io => Some(Fault::Io { reported_by: Origin::Serde }),
            SerializeFailure::SizeLimit => Some(Fault::SizeLimit { reported_by: Origin::Serde }),
            SerializeFailure::Custom(_) => None,
        }
    }

    /// Tells whether this failure is a fault, and which.
    #[verifier::when_used_as_spec(spec_fault)]
    pub fn fault(&self) -> (fault: Option<Fault>)
        ensures
            fault == self.spec_fault(),
    {
        match self {
            SerializeFailure::Io => Some(Fault::Io { reported_by: Origin::Serde }),
            SerializeFailure::SizeLimit => Some(Fault::SizeLimit { reported_by: Origin::Serde }),
            SerializeFailure::Custom(_) => None,
        }
    }
}

impl DeserializeFailure {
    /// The fault that this failure shows, if it is one: the decoder reads
    /// from memory without a size limit, so an I/O failure or an exceeded
    /// limit is none that a caller can be told of.
    pub open spec fn spec_fault(&self) -> Option<Fault> {
        match self {
            DeserializeFailure::Io => Some(Fault::Io { reported_by: Origin::Serde }),
            DeserializeFailure::SizeLimit => Some(Fault::SizeLimit { reported_by: Origin::Serde }),
            DeserializeFailure::InvalidEncoding(_) => None,
            DeserializeFailure::Serde(_) => None,
        }
    }

    /// Tells whether this failure is a fault, and which.
    #[verifier::when_used_as_spec(spec_fault)]
    pub fn fault(&self) -> (fault: Option<Fault>)
        ensures
            fault == self.spec_fault(),
    {
        match self {
            DeserializeFailure::Io => Some(Fault::Io { reported_by: Origin::Serde }),
            DeserializeFailure::SizeLimit => Some(Fault::SizeLimit { reported_by: Origin::Serde }),
            DeserializeFailure::InvalidEncoding(_) => None,
            DeserializeFailure::Serde(_) => None,
        }
    }
}

impl EncodingFailure {
    /// The fault that this failure shows. Every failure of the
    /// rustc-serialize encoder is one: it knows no failure but those of the
    /// writer and of the size limit.
    pub open spec fn spec_fault(&self) -> Option<Fault> {
        Some(Fault::EncodeFailed)
    }

    /// Tells whether this failure is a fault, and which.
    #[verifier::when_used_as_spec(spec_fault)]
    pub fn fault(&self) -> (fault: Option<Fault>)
        ensures
            fault == self.spec_fault(),
    {
        Some(Fault::EncodeFailed)
    }
}

impl DecodingFailure {
    /// The fault that this failure shows, if it is one: the decoder reads
    /// from memory without a size limit, so only an invalid encoding is a
    /// failure that a caller can be told of.
    pub open spec fn spec_fault(&self) -> Option<Fault> {
        match self {
            DecodingFailure::Io => Some(Fault::Io { reported_by: Origin::RustcSerialize }),
            DecodingFailure::SizeLimit => Some(
                Fault::SizeLimit { reported_by: Origin::RustcSerialize },
            ),
            DecodingFailure::InvalidEncoding(_) => None,
        }
    }

    /// Tells whether this failure is a fault, and which.
    #[verifier::when_used_as_spec(spec_fault)]
    pub fn fault(&self) -> (fault: Option<Fault>)
        ensures
            fault == self.spec_fault(),
    {
        match self {
            DecodingFailure::Io => Some(Fault::Io { reported_by: Origin::RustcSerialize }),
            DecodingFailure::SizeLimit => Some(
                Fault::SizeLimit { reported_by: Origin::RustcSerialize },
            ),
            DecodingFailure::InvalidEncoding(_) => None,
        }
    }
}

} // verus!

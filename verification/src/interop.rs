use vstd::prelude::*;
use crate::error::Error;
use crate::failure::{DecodingFailure, DeserializeFailure, EncodingFailure, SerializeFailure};
use crate::fault::Fault;
use crate::origin::Origin;

verus! {

/// Bytes that one mid-end encoded, tagged with that mid-end.
///
/// The bytes are opaque to the library: it stores them, and hands them to the
/// decoder of the mid-end that produced them and to no other. Neither the
/// bytes nor the tag change once the value exists.
#[derive(Debug)]
pub struct Interop {
    repr: Vec<u8>,
    origin: Origin,
}

/// What an [`Interop`] holds, as mathematical values.
pub struct InteropView {
    /// The encoded bytes.
    pub repr: Seq<u8>,
    /// The mid-end that encoded them.
    pub origin: Origin,
}

impl View for Interop {
    type V = InteropView;

    closed spec fn view(&self) -> InteropView {
        InteropView { repr: self.repr@, origin: self.origin }
    }
}

impl InteropView {
    /// What the decoder of `through` gets when it asks for the bytes: the
    /// bytes where `through` is the mid-end that encoded them, a fault where
    /// it is the other one.
    pub open spec fn payload(self, through: Origin) -> Result<Seq<u8>, Fault> {
        if through == self.origin {
            Ok(self.repr)
        } else {
            Err(Fault::WrongOrigin { constructed: self.origin })
        }
    }

    /// What extraction through serde returns, given what the serde decoder
    /// returned for the bytes. It is defined for a value that serde encoded
    /// and an outcome that is no fault.
    pub open spec fn serde_deser<T>(self, decoded: Result<T, DeserializeFailure>) -> Result<
        T,
        Error,
    >
        recommends
            self.origin == Origin::Serde,
            decoded matches Err(failure) ==> failure.fault() is None,
    {
        match decoded {
            Ok(value) => Ok(value),
            Err(failure) => Err(Error::spec_from_deserialize(failure)),
        }
    }

    /// What extraction through rustc-serialize returns, given what the
    /// rustc-serialize decoder returned for the bytes. It is defined for a
    /// value that rustc-serialize encoded and an outcome that is no fault.
    pub open spec fn rustc_deser<T>(self, decoded: Result<T, DecodingFailure>) -> Result<T, Error>
        recommends
            self.origin == Origin::RustcSerialize,
            decoded matches Err(failure) ==> failure.fault() is None,
    {
        match decoded {
            Ok(value) => Ok(value),
            Err(failure) => Err(Error::spec_from_decoding(failure)),
        }
    }
}

impl Interop {
    /// What [`Interop::serde`] makes of the serde encoder's outcome. It is
    /// defined for an outcome that is no fault.
    pub open spec fn spec_serde(encoded: Result<Vec<u8>, SerializeFailure>) -> Result<
        InteropView,
        Error,
    >
        recommends
            encoded matches Err(failure) ==> failure.fault() is None,
    {
        match encoded {
            Ok(bytes) => Ok(InteropView { repr: bytes@, origin: Origin::Serde }),
            Err(failure) => Err(Error::spec_from_serialize(failure)),
        }
    }

    /// What [`Interop::rustc`] makes of the rustc-serialize encoder's
    /// outcome. It is defined for a success.
    pub open spec fn spec_rustc(encoded: Result<Vec<u8>, EncodingFailure>) -> Result<
        InteropView,
        Error,
    >
        recommends
            encoded is Ok,
    {
        match encoded {
            Ok(bytes) => Ok(InteropView { repr: bytes@, origin: Origin::RustcSerialize }),
            Err(_) => arbitrary(),
        }
    }

    /// Wraps what the serde encoder returned for a value, run without a size
    /// limit: its bytes, unchanged and tagged as serde's, or the message with
    /// which the value's own serialization code failed.
    pub fn serde(encoded: Result<Vec<u8>, SerializeFailure>) -> (made: Result<Interop, Error>)
        requires
            encoded matches Err(failure) ==> failure.fault() is None,
        ensures
            match made {
                Ok(interop) => Interop::spec_serde(encoded) == Ok::<InteropView, Error>(interop@),
                Err(error) => Interop::spec_serde(encoded) == Err::<InteropView, Error>(error),
            },
    {
        match encoded {
            Ok(bytes) => Ok(Interop { repr: bytes, origin: Origin::Serde }),
            Err(failure) => Err(Error::from_serialize(failure)),
        }
    }

    /// Wraps what the rustc-serialize encoder returned for a value, run
    /// without a size limit: its bytes, unchanged and tagged as
    /// rustc-serialize's. This never fails.
    pub fn rustc(encoded: Result<Vec<u8>, EncodingFailure>) -> (made: Result<Interop, Error>)
        requires
            encoded is Ok,
        ensures
            made matches Ok(interop) && Interop::spec_rustc(encoded) == Ok::<InteropView, Error>(
                interop@,
            ),
    {
        match encoded {
            Ok(bytes) => Ok(Interop { repr: bytes, origin: Origin::RustcSerialize }),
            Err(_) => unreached(),
        }
    }

    /// The mid-end that encoded the bytes.
    pub fn origin(&self) -> (origin: Origin)
        ensures
            origin == self@.origin,
    {
        self.origin
    }

    /// Hands the bytes to the decoder of `through`, where that is the mid-end
    /// that encoded them. Where it is the other one the bytes stay inside,
    /// and the result names the fault.
    pub fn payload(&self, through: Origin) -> (payload: Result<&[u8], Fault>)
        ensures
            match payload {
                Ok(bytes) => self@.payload(through) == Ok::<Seq<u8>, Fault>(bytes@),
                Err(fault) => self@.payload(through) == Err::<Seq<u8>, Fault>(fault),
            },
    {
        match (through, self.origin) {
            (Origin::Serde, Origin::Serde) => Ok(self.repr.as_slice()),
            (Origin::RustcSerialize, Origin::RustcSerialize) => Ok(self.repr.as_slice()),
            (_, constructed) => Err(Fault::WrongOrigin { constructed }),
        }
    }

    /// Extraction through serde: gives back what the serde decoder returned
    /// for the bytes of [`Interop::payload`], the value as it is, a failure as
    /// the error that stands for it.
    pub fn serde_deser<T>(&self, decoded: Result<T, DeserializeFailure>) -> (extracted: Result<
        T,
        Error,
    >)
        requires
            self@.origin == Origin::Serde,
            decoded matches Err(failure) ==> failure.fault() is None,
        ensures
            extracted == self@.serde_deser(decoded),
    {
        match decoded {
            Ok(value) => Ok(value),
            Err(failure) => Err(Error::from_deserialize(failure)),
        }
    }

    /// Extraction through rustc-serialize: gives back what the
    /// rustc-serialize decoder returned for the bytes of
    /// [`Interop::payload`], the value as it is, a failure as the error that
    /// stands for it.
    pub fn rustc_deser<T>(&self, decoded: Result<T, DecodingFailure>) -> (extracted: Result<
        T,
        Error,
    >)
        requires
            self@.origin == Origin::RustcSerialize,
            decoded matches Err(failure) ==> failure.fault() is None,
        ensures
            extracted == self@.rustc_deser(decoded),
    {
        match decoded {
            Ok(value) => Ok(value),
            Err(failure) => Err(Error::from_decoding(failure)),
        }
    }
}

} // verus!

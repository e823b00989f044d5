use vstd::prelude::*;
use crate::error::{DecodeDetail, Error};
use crate::failure::{DecodingFailure, DeserializeFailure, SerializeFailure};
use crate::fault::Fault;
use crate::interop::{Interop, InteropView};
use crate::origin::Origin;

verus! {

/// The container adds nothing and loses nothing between the serde encoder
/// and the serde decoder: the bytes that the encoder returned are the bytes
/// that the decoder is handed, and the value that the decoder returns for
/// them is the value that extraction gives back.
pub proof fn lemma_serde_carries_bytes_and_value<T>(bytes: Vec<u8>, value: T)
    ensures
        Interop::spec_serde(Ok(bytes)) matches Ok(interop) && {
            &&& interop.payload(Origin::Serde) == Ok::<Seq<u8>, Fault>(bytes@)
            &&& interop.serde_deser(Ok::<T, DeserializeFailure>(value)) == Ok::<T, Error>(value)
        },
{
}

/// The container adds nothing and loses nothing between the rustc-serialize
/// encoder and the rustc-serialize decoder: the bytes that the encoder
/// returned are the bytes that the decoder is handed, and the value that the
/// decoder returns for them is the value that extraction gives back.
pub proof fn lemma_rustc_carries_bytes_and_value<T>(bytes: Vec<u8>, value: T)
    ensures
        Interop::spec_rustc(Ok(bytes)) matches Ok(interop) && {
            &&& interop.payload(Origin::RustcSerialize) == Ok::<Seq<u8>, Fault>(bytes@)
            &&& interop.rustc_deser(Ok::<T, DecodingFailure>(value)) == Ok::<T, Error>(value)
        },
{
}

/// A value constructed through serde is rejected by extraction through
/// rustc-serialize: the decoder gets no bytes, the outcome is the fault that
/// names serde as the constructor, and the precondition of
/// [`Interop::rustc_deser`] does not hold of the value.
pub proof fn lemma_serde_value_rejected_by_rustc(encoded: Result<Vec<u8>, SerializeFailure>)
    ensures
        Interop::spec_serde(encoded) matches Ok(interop) ==> {
            &&& interop.payload(Origin::RustcSerialize) == Err::<Seq<u8>, Fault>(
                Fault::WrongOrigin { constructed: Origin::Serde },
            )
            &&& interop.origin != Origin::RustcSerialize
        },
{
}

/// A value constructed through rustc-serialize is rejected by extraction
/// through serde: the decoder gets no bytes, the outcome is the fault that
/// names rustc-serialize as the constructor, and the precondition of
/// [`Interop::serde_deser`] does not hold of the value.
pub proof fn lemma_rustc_value_rejected_by_serde(bytes: Vec<u8>)
    ensures
        Interop::spec_rustc(Ok(bytes)) matches Ok(interop) && {
            &&& interop.payload(Origin::Serde) == Err::<Seq<u8>, Fault>(
                Fault::WrongOrigin { constructed: Origin::RustcSerialize },
            )
            &&& interop.origin != Origin::Serde
        },
{
}

/// The tag of a value is the mid-end of the constructor that made it, and
/// the bytes are handed out to the mid-end that the tag names.
pub proof fn lemma_origin_names_constructor(
    by_serde: Result<Vec<u8>, SerializeFailure>,
    by_rustc: Vec<u8>,
)
    ensures
        Interop::spec_serde(by_serde) matches Ok(interop) ==> interop.origin == Origin::Serde
            && interop.payload(interop.origin) is Ok,
        Interop::spec_rustc(Ok(by_rustc)) matches Ok(interop) && interop.origin
            == Origin::RustcSerialize && interop.payload(interop.origin) is Ok,
{
}

/// An invalid encoding that the serde decoder reports is no fault, and
/// extraction through serde returns it as an error of the invalid-encoding
/// kind that holds the decoder's error unchanged and names serde as the
/// decoder.
pub proof fn lemma_serde_invalid_encoding_kept<T>(
    interop: InteropView,
    detail: bincode::serde::DeserializeError,
)
    requires
        interop.origin == Origin::Serde,
    ensures
        DeserializeFailure::InvalidEncoding(detail).fault() is None,
        interop.serde_deser(Err::<T, DeserializeFailure>(DeserializeFailure::InvalidEncoding(detail)))
            == Err::<T, Error>(Error::InvalidEncoding(DecodeDetail::Serde(detail))),
        DecodeDetail::Serde(detail).decoder() == Origin::Serde,
{
}

/// An invalid encoding that the rustc-serialize decoder reports is no fault,
/// and extraction through rustc-serialize returns it as an error of the
/// invalid-encoding kind that holds the decoder's error unchanged and names
/// rustc-serialize as the decoder.
pub proof fn lemma_rustc_invalid_encoding_kept<T>(
    interop: InteropView,
    detail: bincode::rustc_serialize::DecodingError,
)
    requires
        interop.origin == Origin::RustcSerialize,
    ensures
        DecodingFailure::InvalidEncoding(detail).fault() is None,
        interop.rustc_deser(Err::<T, DecodingFailure>(DecodingFailure::InvalidEncoding(detail)))
            == Err::<T, Error>(Error::InvalidEncoding(DecodeDetail::RustcSerialize(detail))),
        DecodeDetail::RustcSerialize(detail).decoder() == Origin::RustcSerialize,
{
}

/// A message with which a value's own serialization code gave up is no
/// fault, and construction through serde reports it word for word.
pub proof fn lemma_custom_message_kept(message: String)
    ensures
        SerializeFailure::Custom(message).fault() is None,
        Interop::spec_serde(Err(SerializeFailure::Custom(message))) == Err::<InteropView, Error>(
            Error::Custom(message),
        ),
{
}

} // verus!

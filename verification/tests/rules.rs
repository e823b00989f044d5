//! The library's decisions on values written by hand.

use bincode::rustc_serialize::DecodingError;
use bincode::serde::DeserializeError;
use interop::{
    DecodeDetail, DecodingFailure, DeserializeFailure, EncodingFailure, Error, Fault, Interop,
    Origin, SerializeFailure,
};

fn serde_invalid(desc: &'static str) -> DeserializeError {
    DeserializeError::InvalidEncoding(bincode::serde::InvalidEncoding { desc, detail: None })
}

fn rustc_invalid(desc: &'static str) -> DecodingError {
    DecodingError::InvalidEncoding(bincode::rustc_serialize::InvalidEncoding {
        desc,
        detail: Some("found by hand".to_string()),
    })
}

#[test]
fn serde_constructor_tags_and_keeps_bytes() {
    let interop = Interop::serde(Ok(vec![1, 2, 3])).unwrap();
    assert_eq!(interop.origin(), Origin::Serde);
    assert_eq!(interop.payload(Origin::Serde), Ok(&[1u8, 2, 3][..]));
}

#[test]
fn rustc_constructor_tags_and_keeps_bytes() {
    let interop = Interop::rustc(Ok(vec![9, 8])).unwrap();
    assert_eq!(interop.origin(), Origin::RustcSerialize);
    assert_eq!(interop.payload(Origin::RustcSerialize), Ok(&[9u8, 8][..]));
}

#[test]
fn empty_payload_is_kept() {
    let interop = Interop::serde(Ok(Vec::new())).unwrap();
    assert_eq!(interop.payload(Origin::Serde), Ok(&[][..]));
    assert_eq!(
        interop.payload(Origin::RustcSerialize),
        Err(Fault::WrongOrigin { constructed: Origin::Serde })
    );
}

#[test]
fn serde_constructor_reports_custom_message() {
    let made = Interop::serde(Err(SerializeFailure::Custom("no can do".to_string())));
    match made {
        Err(Error::Custom(message)) => assert_eq!(message, "no can do"),
        other => panic!("expected the custom message, got {:?}", other),
    }
}

#[test]
fn payload_goes_to_the_constructor_only() {
    let by_serde = Interop::serde(Ok(vec![5])).unwrap();
    let by_rustc = Interop::rustc(Ok(vec![5])).unwrap();
    assert!(by_serde.payload(Origin::Serde).is_ok());
    assert!(by_rustc.payload(Origin::RustcSerialize).is_ok());
    assert_eq!(
        by_serde.payload(Origin::RustcSerialize),
        Err(Fault::WrongOrigin { constructed: Origin::Serde })
    );
    assert_eq!(
        by_rustc.payload(Origin::Serde),
        Err(Fault::WrongOrigin { constructed: Origin::RustcSerialize })
    );
}

#[test]
fn extraction_gives_back_the_decoded_value() {
    let by_serde = Interop::serde(Ok(vec![0, 0, 0, 7])).unwrap();
    assert_eq!(by_serde.serde_deser(Ok(7u32)).unwrap(), 7);
    let by_rustc = Interop::rustc(Ok(vec![0, 0, 0, 7])).unwrap();
    assert_eq!(by_rustc.rustc_deser(Ok("seven".to_string())).unwrap(), "seven");
}

#[test]
fn serde_extraction_maps_invalid_encoding() {
    let interop = Interop::serde(Ok(vec![0xff])).unwrap();
    let failure = DeserializeFailure::InvalidEncoding(serde_invalid("bad byte"));
    match interop.serde_deser::<u8>(Err(failure)) {
        Err(Error::InvalidEncoding(DecodeDetail::Serde(DeserializeError::InvalidEncoding(
            inner,
        )))) => {
            assert_eq!(inner.desc, "bad byte");
            assert_eq!(inner.detail, None);
        }
        other => panic!("expected serde's invalid encoding, got {:?}", other),
    }
}

#[test]
fn serde_extraction_maps_serde_layer_error() {
    let interop = Interop::serde(Ok(vec![0xff])).unwrap();
    let failure =
        DeserializeFailure::Serde(DeserializeError::Serde(serde::de::value::Error::EndOfStream));
    match interop.serde_deser::<u8>(Err(failure)) {
        Err(Error::Serde(DeserializeError::Serde(inner))) => {
            assert_eq!(inner, serde::de::value::Error::EndOfStream);
        }
        other => panic!("expected an error of the serde layer, got {:?}", other),
    }
}

#[test]
fn rustc_extraction_maps_invalid_encoding() {
    let interop = Interop::rustc(Ok(vec![0xff])).unwrap();
    let failure = DecodingFailure::InvalidEncoding(rustc_invalid("bad byte"));
    match interop.rustc_deser::<u8>(Err(failure)) {
        Err(Error::InvalidEncoding(DecodeDetail::RustcSerialize(
            DecodingError::InvalidEncoding(inner),
        ))) => {
            assert_eq!(inner.desc, "bad byte");
            assert_eq!(inner.detail, Some("found by hand".to_string()));
        }
        other => panic!("expected rustc-serialize's invalid encoding, got {:?}", other),
    }
}

#[test]
fn error_from_serialize_keeps_the_message() {
    match Error::from_serialize(SerializeFailure::Custom("as written".to_string())) {
        Error::Custom(message) => assert_eq!(message, "as written"),
        other => panic!("expected the custom message, got {:?}", other),
    }
}

#[test]
fn error_from_deserialize_marks_serde() {
    let error = Error::from_deserialize(DeserializeFailure::InvalidEncoding(serde_invalid("x")));
    match error {
        Error::InvalidEncoding(detail) => assert_eq!(detail.decoder(), Origin::Serde),
        other => panic!("expected an invalid encoding, got {:?}", other),
    }
}

#[test]
fn error_from_decoding_marks_rustc_serialize() {
    let error = Error::from_decoding(DecodingFailure::InvalidEncoding(rustc_invalid("x")));
    match error {
        Error::InvalidEncoding(detail) => assert_eq!(detail.decoder(), Origin::RustcSerialize),
        other => panic!("expected an invalid encoding, got {:?}", other),
    }
}

#[test]
fn faults_of_the_serde_encoder() {
    assert_eq!(SerializeFailure::Io.fault(), Some(Fault::Io { reported_by: Origin::Serde }));
    assert_eq!(
        SerializeFailure::SizeLimit.fault(),
        Some(Fault::SizeLimit { reported_by: Origin::Serde })
    );
    assert_eq!(SerializeFailure::Custom(String::new()).fault(), None);
}

#[test]
fn faults_of_the_serde_decoder() {
    assert_eq!(DeserializeFailure::Io.fault(), Some(Fault::Io { reported_by: Origin::Serde }));
    assert_eq!(
        DeserializeFailure::SizeLimit.fault(),
        Some(Fault::SizeLimit { reported_by: Origin::Serde })
    );
    assert_eq!(DeserializeFailure::InvalidEncoding(serde_invalid("x")).fault(), None);
    let layer = DeserializeError::Serde(serde::de::value::Error::EndOfStream);
    assert_eq!(DeserializeFailure::Serde(layer).fault(), None);
}

#[test]
fn faults_of_the_rustc_encoder() {
    assert_eq!(EncodingFailure::Io.fault(), Some(Fault::EncodeFailed));
    assert_eq!(EncodingFailure::SizeLimit.fault(), Some(Fault::EncodeFailed));
}

#[test]
fn faults_of_the_rustc_decoder() {
    assert_eq!(
        DecodingFailure::Io.fault(),
        Some(Fault::Io { reported_by: Origin::RustcSerialize })
    );
    assert_eq!(
        DecodingFailure::SizeLimit.fault(),
        Some(Fault::SizeLimit { reported_by: Origin::RustcSerialize })
    );
    assert_eq!(DecodingFailure::InvalidEncoding(rustc_invalid("x")).fault(), None);
}

#[test]
fn fault_messages() {
    assert_eq!(
        Fault::WrongOrigin { constructed: Origin::RustcSerialize }.message(),
        "Called serde_deser on value constructed using rustc-serialize"
    );
    assert_eq!(
        Fault::WrongOrigin { constructed: Origin::Serde }.message(),
        "Called rustc_deser on value constructed using serde"
    );
    assert_eq!(
        Fault::Io { reported_by: Origin::Serde }.message(),
        "Attempt to convert SerializeError::IoError to Error"
    );
    assert_eq!(
        Fault::SizeLimit { reported_by: Origin::Serde }.message(),
        "Attempt to convert SerializeError::SizeLimit to Error"
    );
    assert_eq!(
        Fault::Io { reported_by: Origin::RustcSerialize }.message(),
        "Attempt to convert DecodingError::IoError to Error"
    );
    assert_eq!(
        Fault::SizeLimit { reported_by: Origin::RustcSerialize }.message(),
        "Attempt to convert DecodingError::SizeLimit to Error"
    );
    assert_eq!(
        Fault::EncodeFailed.message(),
        "Assertion error: encode returned err value with SizeLimit::Infinite"
    );
}

#[test]
fn origin_is_copied_and_compared() {
    let origin = Origin::Serde;
    let copy = origin;
    assert_eq!(origin, copy);
    assert_ne!(origin, Origin::RustcSerialize);
}

use vstd::prelude::*;
use crate::origin::Origin;

verus! {

/// A condition that shows a defect in the calling program or in a mid-end,
/// never bad input.
///
/// A fault is not an error value of the conversions: functions of this
/// library that would meet one exclude it by their preconditions. The
/// functions that return a `Fault` let a caller outside the verifier's reach
/// test those preconditions, and abort with [`Fault::message`] where one
/// fails.
#[derive(Clone, Copy, Debug, PartialEq, Eq, Structural)]
pub enum Fault {
    /// Extraction was asked of the mid-end that did not construct the value.
    /// `constructed` is the one that did.
    WrongOrigin { constructed: Origin },
    /// The mid-end `reported_by` reported an I/O failure, though it only ever
    /// works on buffers in memory.
    Io { reported_by: Origin },
    /// The mid-end `reported_by` reported an exceeded size limit, though it
    /// is always run without one.
    SizeLimit { reported_by: Origin },
    /// The rustc-serialize encoder failed, which it cannot do when it writes
    /// into memory without a size limit.
    EncodeFailed,
}

impl Fault {
    /// The text that [`Fault::message`] returns.
    pub open spec fn spec_message(self) -> Seq<char> {
        match self {
            Fault::WrongOrigin { constructed: Origin::RustcSerialize } =>
                "Called serde_deser on value constructed using rustc-serialize"@,
            Fault::WrongOrigin { constructed: Origin::Serde } =>
                "Called rustc_deser on value constructed using serde"@,
            Fault::Io { reported_by: Origin::Serde } =>
                "Attempt to convert SerializeError::IoError to Error"@,
            Fault::Io { reported_by: Origin::RustcSerialize } =>
                "Attempt to convert DecodingError::IoError to Error"@,
            Fault::SizeLimit { reported_by: Origin::Serde } =>
                "Attempt to convert SerializeError::SizeLimit to Error"@,
            Fault::SizeLimit { reported_by: Origin::RustcSerialize } =>
                "Attempt to convert DecodingError::SizeLimit to Error"@,
            Fault::EncodeFailed =>
                "Assertion error: encode returned err value with SizeLimit::Infinite"@,
        }
    }

    /// The message to abort with. For a wrong origin it names the extraction
    /// that was called and the mid-end that the value was constructed using.
    pub fn message(&self) -> (text: &'static str)
        ensures
            text@ == self.spec_message(),
    {
        match self {
            Fault::WrongOrigin { constructed: Origin::RustcSerialize } =>
                "Called serde_deser on value constructed using rustc-serialize",
            Fault::WrongOrigin { constructed: Origin::Serde } =>
                "Called rustc_deser on value constructed using serde",
            Fault::Io { reported_by: Origin::Serde } =>
                "Attempt to convert SerializeError::IoError to Error",
            Fault::Io { reported_by: Origin::RustcSerialize } =>
                "Attempt to convert DecodingError::IoError to Error",
            Fault::SizeLimit { reported_by: Origin::Serde } =>
                "Attempt to convert SerializeError::SizeLimit to Error",
            Fault::SizeLimit { reported_by: Origin::RustcSerialize } =>
                "Attempt to convert DecodingError::SizeLimit to Error",
            Fault::EncodeFailed =>
                "Assertion error: encode returned err value with SizeLimit::Infinite",
        }
    }
}

} // verus!

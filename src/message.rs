use vstd::prelude::*;
use vstd::std_specs::convert::FromSpecImpl;

verus! {

/// The error type of anyhow, carried through as the cause of a codec failure.
#[verifier::external_type_specification]
#[verifier::external_body]
pub struct ExAnyhowError(anyhow::Error);

/// The error of serde_json's encoder and decoder.
#[verifier::external_type_specification]
#[verifier::external_body]
pub struct ExJsonError(serde_json::Error);

/// The error of bincode's encoder.
#[verifier::external_type_specification]
#[verifier::external_body]
pub struct ExBincodeEncodeError(bincode::error::EncodeError);

/// The error of bincode's decoder.
#[verifier::external_type_specification]
#[verifier::external_body]
pub struct ExBincodeDecodeError(bincode::error::DecodeError);

/// The general error of rkyv, from its `rancor` crate.
#[verifier::external_type_specification]
#[verifier::external_body]
pub struct ExRancorError(rkyv::rancor::Error);

/// Relies on anyhow's `From<E> for anyhow::Error`, for any standard error
/// that may cross threads: the error becomes the cause that the result
/// carries. Nothing is promised of the result.
#[verifier::external_body]
fn cause_of<E: std::error::Error + Send + Sync + 'static>(e: E) -> anyhow::Error {
    anyhow::Error::from(e)
}

/// Error when serializing message.
pub struct SerializeError(pub anyhow::Error);

/// Error when deserializing message.
pub struct DeserializeError(pub anyhow::Error);

impl From<anyhow::Error> for SerializeError {
    fn from(e: anyhow::Error) -> (r: Self)
        ensures
            r.0 == e,
    {
        SerializeError(e)
    }
}

impl FromSpecImpl<anyhow::Error> for SerializeError {
    open spec fn obeys_from_spec() -> bool {
        true
    }

    open spec fn from_spec(v: anyhow::Error) -> Self {
        SerializeError(v)
    }
}

impl From<anyhow::Error> for DeserializeError {
    fn from(e: anyhow::Error) -> (r: Self)
        ensures
            r.0 == e,
    {
        DeserializeError(e)
    }
}

impl FromSpecImpl<anyhow::Error> for DeserializeError {
    open spec fn obeys_from_spec() -> bool {
        true
    }

    open spec fn from_spec(v: anyhow::Error) -> Self {
        DeserializeError(v)
    }
}

impl From<rkyv::rancor::Error> for SerializeError {
    fn from(e: rkyv::rancor::Error) -> (r: Self) {
        SerializeError(cause_of(e))
    }
}

impl FromSpecImpl<rkyv::rancor::Error> for SerializeError {
    /// The cause is built by anyhow and has no specification.
    open spec fn obeys_from_spec() -> bool {
        false
    }

    open spec fn from_spec(v: rkyv::rancor::Error) -> Self {
        SerializeError(arbitrary())
    }
}

impl From<bincode::error::EncodeError> for SerializeError {
    fn from(e: bincode::error::EncodeError) -> (r: Self) {
        SerializeError(cause_of(e))
    }
}

impl FromSpecImpl<bincode::error::EncodeError> for SerializeError {
    /// The cause is built by anyhow and has no specification.
    open spec fn obeys_from_spec() -> bool {
        false
    }

    open spec fn from_spec(v: bincode::error::EncodeError) -> Self {
        SerializeError(arbitrary())
    }
}

impl From<serde_json::Error> for SerializeError {
    fn from(e: serde_json::Error) -> (r: Self) {
        SerializeError(cause_of(e))
    }
}

impl FromSpecImpl<serde_json::Error> for SerializeError {
    /// The cause is built by anyhow and has no specification.
    open spec fn obeys_from_spec() -> bool {
        false
    }

    open spec fn from_spec(v: serde_json::Error) -> Self {
        SerializeError(arbitrary())
    }
}

impl From<rkyv::rancor::Error> for DeserializeError {
    fn from(e: rkyv::rancor::Error) -> (r: Self) {
        DeserializeError(cause_of(e))
    }
}

impl FromSpecImpl<rkyv::rancor::Error> for DeserializeError {
    /// The cause is built by anyhow and has no specification.
    open spec fn obeys_from_spec() -> bool {
        false
    }

    open spec fn from_spec(v: rkyv::rancor::Error) -> Self {
        DeserializeError(arbitrary())
    }
}

impl From<bincode::error::DecodeError> for DeserializeError {
    fn from(e: bincode::error::DecodeError) -> (r: Self) {
        DeserializeError(cause_of(e))
    }
}

impl FromSpecImpl<bincode::error::DecodeError> for DeserializeError {
    /// The cause is built by anyhow and has no specification.
    open spec fn obeys_from_spec() -> bool {
        false
    }

    open spec fn from_spec(v: bincode::error::DecodeError) -> Self {
        DeserializeError(arbitrary())
    }
}

impl From<serde_json::Error> for DeserializeError {
    fn from(e: serde_json::Error) -> (r: Self) {
        DeserializeError(cause_of(e))
    }
}

impl FromSpecImpl<serde_json::Error> for DeserializeError {
    /// The cause is built by anyhow and has no specification.
    open spec fn obeys_from_spec() -> bool {
        false
    }

    open spec fn from_spec(v: serde_json::Error) -> Self {
        DeserializeError(arbitrary())
    }
}

/// Message serialization
pub trait MessageSer {
    /// Error type for serialization.
    type SerError: Into<SerializeError>;

    /// Serialize the message to bytes.
    fn to_bytes(self) -> Result<Box<[u8]>, Self::SerError>;
}

/// Message deserialization
pub trait MessageDe {
    /// Error type for deserialization.
    type DeError: Into<DeserializeError>;

    /// Deserialize the message from bytes.
    fn from_bytes(bytes: &[u8]) -> Result<Self, Self::DeError>
        where
            Self: Sized,
    ;
}

} // verus!

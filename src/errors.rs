use vstd::prelude::*;

verus! {

/// Errors reported by the driver core.
#[derive(Debug, Clone, PartialEq, Eq)]
pub enum RposError {
    /// The execution of an operation failed.
    OperationFail { description: String },
    /// The operation timed out.
    OperationTimeout,
    /// The device does not support this operation.
    OperationNotSupport,
    /// The data is invalid according to the protocol.
    ProtocolError { description: String },
    /// The buffer is too small for message encoding.
    BufferTooSmall,
}

/// Shorthand for results whose error is a `RposError`.
pub type Result<T> = core::result::Result<T, RposError>;

/// A protocol error with the given description.
pub fn protocol_error(description: &str) -> (r: RposError)
    ensures
        r is ProtocolError,
        r->ProtocolError_description@ == description@,
{
    RposError::ProtocolError { description: description.to_owned() }
}

/// An operation failure with the given description.
pub fn operation_fail(description: &str) -> (r: RposError)
    ensures
        r is OperationFail,
        r->OperationFail_description@ == description@,
{
    RposError::OperationFail { description: description.to_owned() }
}

} // verus!

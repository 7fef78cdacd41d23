use vstd::prelude::*;

verus! {

/// Error returned by the encoding and decoding operations.
///
/// The error kinds cover both directions of the codec.  Transport failures
/// cannot arise here: the library works on in-memory byte buffers, so the
/// only source-side failure is a buffer that ends before the declared
/// payload length, reported as [`DoIpError::SourceExhausted`].
#[derive(Debug, Clone, Copy, PartialEq, Eq, Structural)]
pub enum DoIpError {
    /// The declared payload length does not fit the payload type.
    PayloadLengthTooShort {
        /// Payload length declared in the received message.
        value: u32,
        /// Payload length (or minimum length) required by the payload type.
        expected: u32,
    },
    /// The activation type byte of a routing activation request is unknown.
    UnknownActivationType(u8),
    /// The response code byte of a routing activation response is unknown.
    UnknownRoutingActivationResponseCode(u8),
    /// The payload type in the received header is not the expected one.
    UnexpectedPayloadType {
        /// Payload type code received.
        value: u16,
    },
    /// An in-place decode was attempted on a value whose backing storage
    /// is borrowed and therefore cannot be resized.
    BufferTooSmall,
    /// The byte source ended before the declared payload length.
    SourceExhausted,
}

} // verus!

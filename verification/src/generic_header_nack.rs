use vstd::prelude::*;

use crate::bytes::ByteReader;
use crate::error::DoIpError;
use crate::payload::{Payload, PayloadType};

verus! {

/// Reason a received header was refused, carried by
/// [`GenericDoIpHeaderNegativeAcknowledge`].
///
/// The field is open: a byte without a named meaning decodes into
/// [`NegativeAckCode::Reserved`], which keeps the raw byte and re-encodes
/// to it unchanged.
#[derive(Debug, Clone, Copy, PartialEq, Eq, Structural)]
pub enum NegativeAckCode {
    /// Header malformed.
    IncorrectPatternFormat,
    /// Payload type unknown.
    UnknownPayloadType,
    /// Message too large for the input buffer.
    MessageTooLarge,
    /// Out of memory.
    OutOfMemory,
    /// Payload length incompatible with the payload type.
    InvalidPayloadLength,
    /// Byte without a named meaning; kept as received.
    Reserved(u8),
}

/// The wire byte of a negative acknowledgement code.
pub open spec fn spec_nack_code_byte(c: NegativeAckCode) -> u8 {
    match c {
        NegativeAckCode::IncorrectPatternFormat => 0,
        NegativeAckCode::UnknownPayloadType => 1,
        NegativeAckCode::MessageTooLarge => 2,
        NegativeAckCode::OutOfMemory => 3,
        NegativeAckCode::InvalidPayloadLength => 4,
        NegativeAckCode::Reserved(value) => value,
    }
}

/// The negative acknowledgement code denoted by a wire byte.  Total.
pub open spec fn spec_nack_code_of(b: u8) -> NegativeAckCode {
    if b == 0 {
        NegativeAckCode::IncorrectPatternFormat
    } else if b == 1 {
        NegativeAckCode::UnknownPayloadType
    } else if b == 2 {
        NegativeAckCode::MessageTooLarge
    } else if b == 3 {
        NegativeAckCode::OutOfMemory
    } else if b == 4 {
        NegativeAckCode::InvalidPayloadLength
    } else {
        NegativeAckCode::Reserved(b)
    }
}

/// Codes as decoding produces them: the reserved variant only carries a
/// byte without a named meaning.
pub open spec fn spec_nack_code_canonical(c: NegativeAckCode) -> bool {
    c matches NegativeAckCode::Reserved(value) ==> value > 4
}

impl NegativeAckCode {
    /// The wire byte of this code.
    pub fn into_u8(self) -> (r: u8)
        ensures
            r == spec_nack_code_byte(self),
    {
        match self {
            NegativeAckCode::IncorrectPatternFormat => 0,
            NegativeAckCode::UnknownPayloadType => 1,
            NegativeAckCode::MessageTooLarge => 2,
            NegativeAckCode::OutOfMemory => 3,
            NegativeAckCode::InvalidPayloadLength => 4,
            NegativeAckCode::Reserved(value) => value,
        }
    }

    /// The code denoted by a wire byte.
    pub fn from_u8(b: u8) -> (r: NegativeAckCode)
        ensures
            r == spec_nack_code_of(b),
    {
        match b {
            0 => NegativeAckCode::IncorrectPatternFormat,
            1 => NegativeAckCode::UnknownPayloadType,
            2 => NegativeAckCode::MessageTooLarge,
            3 => NegativeAckCode::OutOfMemory,
            4 => NegativeAckCode::InvalidPayloadLength,
            5..=0xff => NegativeAckCode::Reserved(b),
        }
    }
}

/// Generic DoIP header negative acknowledgement message.
#[derive(Debug, Clone, PartialEq, Eq, Structural)]
pub struct GenericDoIpHeaderNegativeAcknowledge {
    /// The refusal reason.
    pub nack_code: NegativeAckCode,
}

impl View for GenericDoIpHeaderNegativeAcknowledge {
    type V = GenericDoIpHeaderNegativeAcknowledge;

    open spec fn view(&self) -> GenericDoIpHeaderNegativeAcknowledge {
        *self
    }
}

impl Payload for GenericDoIpHeaderNegativeAcknowledge {
    open spec fn spec_payload_type() -> PayloadType {
        PayloadType::GenericDoIpHeaderNegativeAcknowledge
    }

    open spec fn enc(m: GenericDoIpHeaderNegativeAcknowledge) -> Seq<u8> {
        seq![spec_nack_code_byte(m.nack_code)]
    }

    open spec fn dec(bytes: Seq<u8>) -> Result<GenericDoIpHeaderNegativeAcknowledge, DoIpError> {
        if bytes.len() == 1 {
            Ok(GenericDoIpHeaderNegativeAcknowledge { nack_code: spec_nack_code_of(bytes[0]) })
        } else {
            Err(DoIpError::PayloadLengthTooShort { value: bytes.len() as u32, expected: 1 })
        }
    }

    open spec fn accepts_len(n: nat) -> bool {
        n == 1
    }

    open spec fn spec_expected_len() -> u32 {
        1
    }

    open spec fn canonical(m: GenericDoIpHeaderNegativeAcknowledge) -> bool {
        spec_nack_code_canonical(m.nack_code)
    }

    open spec fn replaceable(self) -> bool {
        true
    }

    proof fn lemma_round_trip(m: GenericDoIpHeaderNegativeAcknowledge) {
    }

    proof fn lemma_length_mismatch(bytes: Seq<u8>) {
    }

    proof fn lemma_byte_corruption(m: GenericDoIpHeaderNegativeAcknowledge, i: int, x: u8) {
    }

    fn payload_type() -> (t: PayloadType) {
        PayloadType::GenericDoIpHeaderNegativeAcknowledge
    }

    fn length(&self) -> (n: usize) {
        1
    }

    fn read(reader: &mut ByteReader<'_>, payload_length: usize) -> (r: Result<Self, DoIpError>) {
        if payload_length != 1 {
            return Err(DoIpError::PayloadLengthTooShort {
                value: payload_length as u32,
                expected: 1,
            });
        }
        let b = reader.read_u8();
        Ok(GenericDoIpHeaderNegativeAcknowledge { nack_code: NegativeAckCode::from_u8(b) })
    }

    fn read_replace(&mut self, reader: &mut ByteReader<'_>, payload_length: usize) -> (r: Result<
        (),
        DoIpError,
    >) {
        if payload_length != 1 {
            return Err(DoIpError::PayloadLengthTooShort {
                value: payload_length as u32,
                expected: 1,
            });
        }
        let b = reader.read_u8();
        self.nack_code = NegativeAckCode::from_u8(b);
        Ok(())
    }

    fn write(&self, sink: &mut Vec<u8>) -> (r: Result<(), DoIpError>) {
        sink.push(self.nack_code.into_u8());
        proof {
            assert(sink@ =~= old(sink)@ + Self::enc(self@));
        }
        Ok(())
    }
}

} // verus!

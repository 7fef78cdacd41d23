use vstd::prelude::*;

use crate::bytes::ByteReader;
use crate::error::DoIpError;

verus! {

/// Payload types of the protocol.
///
/// The 16-bit wire code space is total: every code maps to exactly one
/// variant.  Codes without a named meaning fall into [`PayloadType::Reserved`]
/// (reserved by the specification) or [`PayloadType::ReservedVm`] (reserved
/// for the vehicle manufacturer), both of which carry the raw code so that
/// it survives a decode followed by a re-encode.
#[derive(Copy, Clone, Debug, PartialEq, Eq, Structural)]
pub enum PayloadType {
    /// GenericDoIpHeaderNegativeAcknowledge
    GenericDoIpHeaderNegativeAcknowledge,
    /// VehicleIdentificationRequest
    VehicleIdentificationRequest,
    /// VehicleIdentificationRequestWithEid
    VehicleIdentificationRequestWithEid,
    /// VehicleIdentificationRequestWithVin
    VehicleIdentificationRequestWithVin,
    /// VehicleIdentificationResponse
    VehicleIdentificationResponse,
    /// RoutingActivationRequest
    RoutingActivationRequest,
    /// RoutingActivationResponse
    RoutingActivationResponse,
    /// AliveCheckRequest
    AliveCheckRequest,
    /// AliveCheckResponse
    AliveCheckResponse,
    /// DoIpEntityStatusRequest
    DoIpEntityStatusRequest,
    /// DoIpEntityStatusResponse
    DoIpEntityStatusResponse,
    /// DiagnosticPowerModeInformationRequest
    DiagnosticPowerModeInformationRequest,
    /// DiagnosticPowerModeInformationResponse
    DiagnosticPowerModeInformationResponse,
    /// DiagnosticMessage
    DiagnosticMessage,
    /// DiagnosticMessagePositiveAcknowledgement
    DiagnosticMessagePositiveAcknowledgement,
    /// DiagnosticMessageNegativeAcknowledgement
    DiagnosticMessageNegativeAcknowledgement,
    /// Reserved by the specification for future use; carries the raw code.
    Reserved(u16),
    /// Reserved for use by the vehicle manufacturer; carries the raw code.
    ReservedVm(u16),
}

/// Whether `c` lies in one of the three code ranges reserved by the
/// specification.
pub open spec fn spec_reserved_code(c: u16) -> bool {
    (0x0009 <= c <= 0x4000) || (0x4005 <= c <= 0x8000) || (0x8004 <= c <= 0xEFFF)
}

/// Whether `c` lies in the code range reserved for the vehicle manufacturer.
pub open spec fn spec_reserved_vm_code(c: u16) -> bool {
    0xF000 <= c <= 0xFFFF
}

/// The wire code of a payload type.
pub open spec fn spec_code_of(t: PayloadType) -> u16 {
    match t {
        PayloadType::GenericDoIpHeaderNegativeAcknowledge => 0x0000,
        PayloadType::VehicleIdentificationRequest => 0x0001,
        PayloadType::VehicleIdentificationRequestWithEid => 0x0002,
        PayloadType::VehicleIdentificationRequestWithVin => 0x0003,
        PayloadType::VehicleIdentificationResponse => 0x0004,
        PayloadType::RoutingActivationRequest => 0x0005,
        PayloadType::RoutingActivationResponse => 0x0006,
        PayloadType::AliveCheckRequest => 0x0007,
        PayloadType::AliveCheckResponse => 0x0008,
        PayloadType::DoIpEntityStatusRequest => 0x4001,
        PayloadType::DoIpEntityStatusResponse => 0x4002,
        PayloadType::DiagnosticPowerModeInformationRequest => 0x4003,
        PayloadType::DiagnosticPowerModeInformationResponse => 0x4004,
        PayloadType::DiagnosticMessage => 0x8001,
        PayloadType::DiagnosticMessagePositiveAcknowledgement => 0x8002,
        PayloadType::DiagnosticMessageNegativeAcknowledgement => 0x8003,
        PayloadType::Reserved(value) => value,
        PayloadType::ReservedVm(value) => value,
    }
}

/// The payload type denoted by a wire code.  Total: codes without a named
/// meaning map to a reserved variant carrying the code itself.
pub open spec fn spec_type_of(c: u16) -> PayloadType {
    if c == 0x0000 {
        PayloadType::GenericDoIpHeaderNegativeAcknowledge
    } else if c == 0x0001 {
        PayloadType::VehicleIdentificationRequest
    } else if c == 0x0002 {
        PayloadType::VehicleIdentificationRequestWithEid
    } else if c == 0x0003 {
        PayloadType::VehicleIdentificationRequestWithVin
    } else if c == 0x0004 {
        PayloadType::VehicleIdentificationResponse
    } else if c == 0x0005 {
        PayloadType::RoutingActivationRequest
    } else if c == 0x0006 {
        PayloadType::RoutingActivationResponse
    } else if c == 0x0007 {
        PayloadType::AliveCheckRequest
    } else if c == 0x0008 {
        PayloadType::AliveCheckResponse
    } else if c == 0x4001 {
        PayloadType::DoIpEntityStatusRequest
    } else if c == 0x4002 {
        PayloadType::DoIpEntityStatusResponse
    } else if c == 0x4003 {
        PayloadType::DiagnosticPowerModeInformationRequest
    } else if c == 0x4004 {
        PayloadType::DiagnosticPowerModeInformationResponse
    } else if c == 0x8001 {
        PayloadType::DiagnosticMessage
    } else if c == 0x8002 {
        PayloadType::DiagnosticMessagePositiveAcknowledgement
    } else if c == 0x8003 {
        PayloadType::DiagnosticMessageNegativeAcknowledgement
    } else if spec_reserved_vm_code(c) {
        PayloadType::ReservedVm(c)
    } else {
        PayloadType::Reserved(c)
    }
}

/// Payload types as decoding produces them: a reserved variant only carries
/// a code that really lies in its reserved range.
pub open spec fn spec_payload_type_wf(t: PayloadType) -> bool {
    match t {
        PayloadType::Reserved(value) => spec_reserved_code(value),
        PayloadType::ReservedVm(value) => spec_reserved_vm_code(value),
        _ => true,
    }
}

impl PayloadType {
    /// Convert a [`PayloadType`] into its 16-bit wire code.
    pub fn into_u16(self) -> (r: u16)
        ensures
            r == spec_code_of(self),
    {
        match self {
            PayloadType::GenericDoIpHeaderNegativeAcknowledge => 0x0000,
            PayloadType::VehicleIdentificationRequest => 0x0001,
            PayloadType::VehicleIdentificationRequestWithEid => 0x0002,
            PayloadType::VehicleIdentificationRequestWithVin => 0x0003,
            PayloadType::VehicleIdentificationResponse => 0x0004,
            PayloadType::RoutingActivationRequest => 0x0005,
            PayloadType::RoutingActivationResponse => 0x0006,
            PayloadType::AliveCheckRequest => 0x0007,
            PayloadType::AliveCheckResponse => 0x0008,
            PayloadType::DoIpEntityStatusRequest => 0x4001,
            PayloadType::DoIpEntityStatusResponse => 0x4002,
            PayloadType::DiagnosticPowerModeInformationRequest => 0x4003,
            PayloadType::DiagnosticPowerModeInformationResponse => 0x4004,
            PayloadType::DiagnosticMessage => 0x8001,
            PayloadType::DiagnosticMessagePositiveAcknowledgement => 0x8002,
            PayloadType::DiagnosticMessageNegativeAcknowledgement => 0x8003,
            PayloadType::Reserved(value) => value,
            PayloadType::ReservedVm(value) => value,
        }
    }
}

impl core::convert::From<u16> for PayloadType {
    /// Convert a 16-bit wire code into a [`PayloadType`].
    fn from(value: u16) -> (r: PayloadType) {
        match value {
            0x0000 => PayloadType::GenericDoIpHeaderNegativeAcknowledge,
            0x0001 => PayloadType::VehicleIdentificationRequest,
            0x0002 => PayloadType::VehicleIdentificationRequestWithEid,
            0x0003 => PayloadType::VehicleIdentificationRequestWithVin,
            0x0004 => PayloadType::VehicleIdentificationResponse,
            0x0005 => PayloadType::RoutingActivationRequest,
            0x0006 => PayloadType::RoutingActivationResponse,
            0x0007 => PayloadType::AliveCheckRequest,
            0x0008 => PayloadType::AliveCheckResponse,
            0x0009..=0x4000 => PayloadType::Reserved(value),
            0x4001 => PayloadType::DoIpEntityStatusRequest,
            0x4002 => PayloadType::DoIpEntityStatusResponse,
            0x4003 => PayloadType::DiagnosticPowerModeInformationRequest,
            0x4004 => PayloadType::DiagnosticPowerModeInformationResponse,
            0x4005..=0x8000 => PayloadType::Reserved(value),
            0x8001 => PayloadType::DiagnosticMessage,
            0x8002 => PayloadType::DiagnosticMessagePositiveAcknowledgement,
            0x8003 => PayloadType::DiagnosticMessageNegativeAcknowledgement,
            0x8004..=0xEFFF => PayloadType::Reserved(value),
            0xF000..=0xFFFF => PayloadType::ReservedVm(value),
        }
    }
}

impl vstd::std_specs::convert::FromSpecImpl<u16> for PayloadType {
    open spec fn obeys_from_spec() -> bool {
        true
    }

    open spec fn from_spec(value: u16) -> PayloadType {
        spec_type_of(value)
    }
}

/// The registry is total and preserves every raw code: mapping any 16-bit
/// code to its payload type and back reproduces the code exactly.
pub proof fn lemma_registry_code_round_trip(c: u16)
    ensures
        spec_code_of(spec_type_of(c)) == c,
        spec_payload_type_wf(spec_type_of(c)),
{
}

/// The registry is a bijection on well-formed payload types: mapping a
/// payload type to its wire code and back reproduces the payload type.
pub proof fn lemma_registry_kind_round_trip(t: PayloadType)
    requires
        spec_payload_type_wf(t),
    ensures
        spec_type_of(spec_code_of(t)) == t,
{
}

/// A payload of the protocol.
///
/// Every payload kind implements this trait.  The abstract value of a
/// payload is its view `Self::V`; the byte-level meaning of the kind is
/// given by the two spec functions [`Payload::enc`] and [`Payload::dec`],
/// and every executable operation is specified against them.
pub trait Payload: View + Sized {
    /// The fixed wire payload type of this kind; it does not depend on
    /// instance state.
    spec fn spec_payload_type() -> PayloadType;

    /// The exact byte encoding of a payload with abstract value `m`.
    spec fn enc(m: Self::V) -> Seq<u8>;

    /// What decoding yields from `bytes`, the declared-length byte span of
    /// one payload: the abstract value of the decoded payload, or the exact
    /// error for a rejected span.
    spec fn dec(bytes: Seq<u8>) -> Result<Self::V, DoIpError>;

    /// The declared payload lengths this kind accepts.
    spec fn accepts_len(n: nat) -> bool;

    /// The `expected` length reported in a length-mismatch error.
    spec fn spec_expected_len() -> u32;

    /// Abstract values that decoding reproduces exactly from their own
    /// encoding.  Values outside this set exist only where an open
    /// enumerated field re-encodes its fallback variant to a fixed sentinel
    /// byte, or where a field has several wire spellings with one canonical
    /// encoding.
    spec fn canonical(m: Self::V) -> bool;

    /// Whether this value owns its backing storage, so that an in-place
    /// decode may replace it.  Only payloads that borrow caller memory
    /// refuse replacement.
    spec fn replaceable(self) -> bool;

    /// Law: decoding inverts encoding on canonical abstract values.
    proof fn lemma_round_trip(m: Self::V)
        requires
            Self::canonical(m),
        ensures
            Self::dec(Self::enc(m)) == Ok::<Self::V, DoIpError>(m),
    ;

    /// Law: a declared length outside the accepted set is rejected with
    /// exactly a length-mismatch error, and an accepted length never
    /// produces one.
    proof fn lemma_length_mismatch(bytes: Seq<u8>)
        requires
            bytes.len() <= u32::MAX,
        ensures
            !Self::accepts_len(bytes.len()) ==> Self::dec(bytes) == Err::<Self::V, DoIpError>(
                DoIpError::PayloadLengthTooShort {
                    value: bytes.len() as u32,
                    expected: Self::spec_expected_len(),
                },
            ),
            Self::accepts_len(bytes.len()) ==> !(Self::dec(bytes) matches Err(
            DoIpError::PayloadLengthTooShort { .. })),
    ;

    /// Law: changing any single byte of a canonical encoding never decodes
    /// back to the same abstract value; the corrupted span either fails to
    /// decode or decodes to a different value.
    proof fn lemma_byte_corruption(m: Self::V, i: int, x: u8)
        requires
            Self::canonical(m),
            0 <= i < Self::enc(m).len(),
            x != Self::enc(m)[i],
        ensures
            Self::dec(Self::enc(m).update(i, x)) != Ok::<Self::V, DoIpError>(m),
    ;

    /// The payload type of this kind.
    fn payload_type() -> (t: PayloadType)
        ensures
            t == Self::spec_payload_type(),
    ;

    /// The exact number of bytes [`Payload::write`] emits for this value.
    fn length(&self) -> (n: usize)
        requires
            Self::enc(self@).len() <= usize::MAX,
        ensures
            n == Self::enc(self@).len(),
    ;

    /// Decode one payload from exactly `payload_length` bytes of `reader`.
    fn read(reader: &mut ByteReader<'_>, payload_length: usize) -> (r: Result<Self, DoIpError>)
        requires
            old(reader).wf(),
            payload_length <= old(reader).bytes().len() - old(reader).position(),
            payload_length <= u32::MAX,
        ensures
            final(reader).wf(),
            final(reader).bytes() == old(reader).bytes(),
            old(reader).position() <= final(reader).position() <= old(reader).position()
                + payload_length,
            match (r, Self::dec(old(reader).taken(payload_length as int))) {
                (Ok(v), Ok(m)) => v@ == m && v.replaceable(),
                (Err(e), Err(em)) => e == em,
                _ => false,
            },
            r is Ok ==> final(reader).position() == old(reader).position() + payload_length,
            r matches Err(DoIpError::PayloadLengthTooShort { .. }) ==> final(reader).position()
                == old(reader).position(),
    ;

    /// Decode one payload from exactly `payload_length` bytes of `reader`
    /// into this existing value, reusing its backing storage.  Fails with
    /// [`DoIpError::BufferTooSmall`] on a value that borrows caller memory.
    /// On failure the value is not rolled back: fields decoded before the
    /// failure point keep their new contents.
    fn read_replace(&mut self, reader: &mut ByteReader<'_>, payload_length: usize) -> (r: Result<
        (),
        DoIpError,
    >)
        requires
            old(reader).wf(),
            payload_length <= old(reader).bytes().len() - old(reader).position(),
            payload_length <= u32::MAX,
        ensures
            final(reader).wf(),
            final(reader).bytes() == old(reader).bytes(),
            old(reader).position() <= final(reader).position() <= old(reader).position()
                + payload_length,
            match Self::dec(old(reader).taken(payload_length as int)) {
                Ok(m) => if old(self).replaceable() {
                    r == Ok::<(), DoIpError>(()) && final(self)@ == m && final(self).replaceable()
                } else {
                    r == Err::<(), DoIpError>(DoIpError::BufferTooSmall)
                },
                Err(em) => r == Err::<(), DoIpError>(em),
            },
            r is Ok ==> final(reader).position() == old(reader).position() + payload_length,
            r matches Err(DoIpError::PayloadLengthTooShort { .. }) ==> final(reader).position()
                == old(reader).position() && *final(self) == *old(self),
    ;

    /// Append the exact byte encoding of this value to `sink`.
    fn write(&self, sink: &mut Vec<u8>) -> (r: Result<(), DoIpError>)
        requires
            old(sink)@.len() + Self::enc(self@).len() <= usize::MAX,
        ensures
            r is Ok,
            final(sink)@ == old(sink)@ + Self::enc(self@),
    ;
}

/// A payload that can be decoded without copying its opaque data.
///
/// Implemented only by the diagnostic-message family: the decoded value's
/// opaque byte field aliases the caller-supplied slice instead of owning a
/// copy of it.
pub trait BorrowedPayload<'a>: Payload {
    /// Decode one payload from the whole of `payload`; the opaque data of
    /// the result borrows from `payload` rather than owning a copy, so the
    /// result is not replaceable in place.
    fn read_borrowed(payload: &'a [u8]) -> (r: Result<Self, DoIpError>)
        requires
            payload@.len() <= u32::MAX,
        ensures
            match (r, Self::dec(payload@)) {
                (Ok(v), Ok(m)) => v@ == m && !v.replaceable(),
                (Err(e), Err(em)) => e == em,
                _ => false,
            },
    ;
}

} // verus!

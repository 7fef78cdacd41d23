//! DoIP protocol encoding and decoding library.
//!
//! A DoIP message is a fixed eight-byte header followed by a payload whose
//! byte length the header declares.  This crate provides the header codec,
//! the payload-type registry, and a codec for every payload kind, together
//! with machine-checked contracts: every decode function states exactly
//! which bytes succeed, what value they produce, and which error each
//! rejected input yields.

mod alive_check;
mod bytes;
mod diagnostic_message;
mod entity_status;
mod error;
mod generic_header_nack;
mod header;
pub mod message;
mod payload;
mod power_mode_info;
mod routing_activation;
mod vehicleident;

use vstd::prelude::*;

pub use bytes::ByteReader;
pub use error::DoIpError;
pub use header::{DoIpHeader, DOIP_HEADER_LENGTH};
pub use payload::{BorrowedPayload, Payload, PayloadType};

verus! {

/// A DoIP logical address, both for a tester and for a tested entity.
pub type LogicalAddress = u16;

/// A Vehicle Identification Number.
pub type Vin = [u8; 17];

/// The header that `write_message` emits in front of a payload with
/// abstract value `m`: default protocol version, the kind's payload type,
/// and the payload's exact byte length.
pub open spec fn spec_message_header<P: Payload>(m: P::V) -> DoIpHeader {
    DoIpHeader {
        protocol_version: header::spec_version_byte(header::ProtocolVersion::DoIpIso),
        inverse_protocol_version: !header::spec_version_byte(header::ProtocolVersion::DoIpIso),
        payload_type: P::spec_payload_type(),
        payload_length: P::enc(m).len() as u32,
    }
}

/// Message round trip: the bytes that [`write_message`] emits for a
/// canonical payload value decode back to exactly that value.  The header
/// of those bytes carries the payload's kind and exact byte length, and
/// the payload span decodes to the value itself, so [`read_message`] of
/// the same kind succeeds on them.
pub proof fn lemma_message_round_trip<P: Payload>(m: P::V)
    requires
        P::canonical(m),
        P::enc(m).len() <= u32::MAX,
        payload::spec_payload_type_wf(P::spec_payload_type()),
    ensures
        ({
            let bytes = header::spec_header_enc(spec_message_header::<P>(m)) + P::enc(m);
            let h = header::spec_header_dec(bytes.subrange(0, 8));
            &&& h.payload_type == P::spec_payload_type()
            &&& h.payload_length == P::enc(m).len()
            &&& P::dec(bytes.subrange(8, bytes.len() as int)) == Ok::<P::V, DoIpError>(m)
        }),
{
    let hdr = spec_message_header::<P>(m);
    let bytes = header::spec_header_enc(hdr) + P::enc(m);
    header::lemma_header_round_trip(hdr);
    assert(bytes.subrange(0, 8) =~= header::spec_header_enc(hdr));
    assert(bytes.subrange(8, bytes.len() as int) =~= P::enc(m));
    P::lemma_round_trip(m);
}

/// Read a DoIP header: the next eight bytes of the source.
pub fn read_header(reader: &mut ByteReader<'_>) -> (r: Result<DoIpHeader, DoIpError>)
    requires
        old(reader).wf(),
        old(reader).bytes().len() - old(reader).position() >= DOIP_HEADER_LENGTH,
    ensures
        final(reader).wf(),
        final(reader).bytes() == old(reader).bytes(),
        final(reader).position() == old(reader).position() + DOIP_HEADER_LENGTH,
        r == Ok::<DoIpHeader, DoIpError>(header::spec_header_dec(old(reader).taken(8))),
{
    DoIpHeader::read(reader)
}

/// Read one payload of the statically chosen kind `P` from exactly
/// `payload_length` bytes of the source.  Normally called after
/// [`read_header`], with the length the header declared.
pub fn read_payload<P: Payload>(reader: &mut ByteReader<'_>, payload_length: usize) -> (r: Result<
    P,
    DoIpError,
>)
    requires
        old(reader).wf(),
        payload_length <= old(reader).bytes().len() - old(reader).position(),
        payload_length <= u32::MAX,
    ensures
        final(reader).wf(),
        final(reader).bytes() == old(reader).bytes(),
        old(reader).position() <= final(reader).position() <= old(reader).position()
            + payload_length,
        match (r, P::dec(old(reader).taken(payload_length as int))) {
            (Ok(v), Ok(m)) => v@ == m && v.replaceable(),
            (Err(e), Err(em)) => e == em,
            _ => false,
        },
        r is Ok ==> final(reader).position() == old(reader).position() + payload_length,
        r matches Err(DoIpError::PayloadLengthTooShort { .. }) ==> final(reader).position()
            == old(reader).position(),
{
    P::read(reader, payload_length)
}

/// Read one payload of kind `P` into an existing value, reusing its
/// backing storage instead of allocating a new one.
pub fn read_replace_payload<P: Payload>(
    payload: &mut P,
    reader: &mut ByteReader<'_>,
    payload_length: usize,
) -> (r: Result<(), DoIpError>)
    requires
        old(reader).wf(),
        payload_length <= old(reader).bytes().len() - old(reader).position(),
        payload_length <= u32::MAX,
    ensures
        final(reader).wf(),
        final(reader).bytes() == old(reader).bytes(),
        old(reader).position() <= final(reader).position() <= old(reader).position()
            + payload_length,
        match P::dec(old(reader).taken(payload_length as int)) {
            Ok(m) => if old(payload).replaceable() {
                r == Ok::<(), DoIpError>(()) && final(payload)@ == m
                    && final(payload).replaceable()
            } else {
                r == Err::<(), DoIpError>(DoIpError::BufferTooSmall)
            },
            Err(em) => r == Err::<(), DoIpError>(em),
        },
        r is Ok ==> final(reader).position() == old(reader).position() + payload_length,
        r matches Err(DoIpError::PayloadLengthTooShort { .. }) ==> final(reader).position()
            == old(reader).position() && *final(payload) == *old(payload),
{
    payload.read_replace(reader, payload_length)
}

/// Read one message of the statically chosen kind `P`: a header, then the
/// payload the header declares.
///
/// If the header carries a different payload type, the call fails with
/// [`DoIpError::UnexpectedPayloadType`] and consumes only the header: the
/// undecoded payload bytes stay in the source, so a caller that keeps
/// reading from the same source must account for them.
pub fn read_message<P: Payload>(reader: &mut ByteReader<'_>) -> (r: Result<P, DoIpError>)
    requires
        old(reader).wf(),
        old(reader).bytes().len() - old(reader).position() >= DOIP_HEADER_LENGTH,
    ensures
        final(reader).wf(),
        final(reader).bytes() == old(reader).bytes(),
        ({
            let h = header::spec_header_dec(old(reader).taken(8));
            let body = old(reader).position() + 8;
            if h.payload_type != P::spec_payload_type() {
                r == Err::<P, DoIpError>(
                    DoIpError::UnexpectedPayloadType { value: payload::spec_code_of(h.payload_type) },
                ) && final(reader).position() == body
            } else if old(reader).bytes().len() - body < h.payload_length {
                r == Err::<P, DoIpError>(DoIpError::SourceExhausted) && final(reader).position()
                    == body
            } else {
                &&& match (r, P::dec(old(reader).bytes().subrange(body, body + h.payload_length))) {
                    (Ok(v), Ok(m)) => v@ == m && v.replaceable(),
                    (Err(e), Err(em)) => e == em,
                    _ => false,
                }
                &&& body <= final(reader).position() <= body + h.payload_length
                &&& (r is Ok ==> final(reader).position() == body + h.payload_length)
            }
        }),
{
    let header = DoIpHeader::read(reader)?;
    if P::payload_type() == header.payload_type {
        let payload_length = header.payload_length as usize;
        if reader.remaining() < payload_length {
            return Err(DoIpError::SourceExhausted);
        }
        P::read(reader, payload_length)
    } else {
        Err(DoIpError::UnexpectedPayloadType { value: header.payload_type.into_u16() })
    }
}

/// Read one message of kind `P` into an existing value, reusing its
/// backing storage.  Header handling is exactly as in [`read_message`]; on
/// a payload-type mismatch the target value is untouched.
pub fn read_replace_message<P: Payload>(payload: &mut P, reader: &mut ByteReader<'_>) -> (r: Result<
    (),
    DoIpError,
>)
    requires
        old(reader).wf(),
        old(reader).bytes().len() - old(reader).position() >= DOIP_HEADER_LENGTH,
    ensures
        final(reader).wf(),
        final(reader).bytes() == old(reader).bytes(),
        ({
            let h = header::spec_header_dec(old(reader).taken(8));
            let body = old(reader).position() + 8;
            if h.payload_type != P::spec_payload_type() {
                r == Err::<(), DoIpError>(
                    DoIpError::UnexpectedPayloadType { value: payload::spec_code_of(h.payload_type) },
                ) && final(reader).position() == body && *final(payload) == *old(payload)
            } else if old(reader).bytes().len() - body < h.payload_length {
                r == Err::<(), DoIpError>(DoIpError::SourceExhausted) && final(reader).position()
                    == body && *final(payload) == *old(payload)
            } else {
                &&& match P::dec(old(reader).bytes().subrange(body, body + h.payload_length)) {
                    Ok(m) => if old(payload).replaceable() {
                        r == Ok::<(), DoIpError>(()) && final(payload)@ == m
                            && final(payload).replaceable()
                    } else {
                        r == Err::<(), DoIpError>(DoIpError::BufferTooSmall)
                    },
                    Err(em) => r == Err::<(), DoIpError>(em),
                }
                &&& body <= final(reader).position() <= body + h.payload_length
                &&& (r is Ok ==> final(reader).position() == body + h.payload_length)
            }
        }),
{
    let header = DoIpHeader::read(reader)?;
    if P::payload_type() == header.payload_type {
        let payload_length = header.payload_length as usize;
        if reader.remaining() < payload_length {
            return Err(DoIpError::SourceExhausted);
        }
        payload.read_replace(reader, payload_length)
    } else {
        Err(DoIpError::UnexpectedPayloadType { value: header.payload_type.into_u16() })
    }
}

/// Write one message: a header computed from the payload's kind and exact
/// byte length, followed by the payload itself.
pub fn write_message<P: Payload>(payload: &P, sink: &mut Vec<u8>) -> (r: Result<(), DoIpError>)
    requires
        P::enc(payload@).len() <= u32::MAX,
        old(sink)@.len() + DOIP_HEADER_LENGTH + P::enc(payload@).len() <= usize::MAX,
    ensures
        r is Ok,
        final(sink)@ == old(sink)@ + header::spec_header_enc(spec_message_header::<P>(payload@))
            + P::enc(payload@),
{
    let length = payload.length();
    let header = DoIpHeader::new(P::payload_type(), length as u32);
    header.write(sink)?;
    payload.write(sink)
}

/// Length in bytes of the whole message that [`write_message`] emits for
/// this payload: the fixed header length plus the payload's length.
pub fn length_message<P: Payload>(payload: &P) -> (n: usize)
    requires
        DOIP_HEADER_LENGTH + P::enc(payload@).len() <= usize::MAX,
    ensures
        n == DOIP_HEADER_LENGTH + P::enc(payload@).len(),
{
    DOIP_HEADER_LENGTH + payload.length()
}

} // verus!

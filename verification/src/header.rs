use vstd::prelude::*;

use crate::bytes::{put_u32_be, put_u16_be, be16_bytes, be16_of, be32_bytes, be32_of,
    lemma_be16_round_trip, lemma_be32_round_trip, ByteReader};
use crate::error::DoIpError;
use crate::payload::{lemma_registry_kind_round_trip, spec_code_of, spec_payload_type_wf,
    spec_type_of, PayloadType};

verus! {

/// Length of the DoIP header in bytes.
pub const DOIP_HEADER_LENGTH: usize = 8;

/// Generic DoIP header.
///
/// This header always precedes a DoIP payload.  Layout, big-endian
/// throughout: byte 0 protocol version, byte 1 inverse protocol version,
/// bytes 2 and 3 the payload-type code, bytes 4 to 7 the payload length.
#[derive(Debug, Clone, PartialEq, Eq, Structural)]
pub struct DoIpHeader {
    /// DoIP protocol version.
    pub protocol_version: u8,
    /// The bitwise complement of [`DoIpHeader::protocol_version`].  The
    /// builders always establish this relation; decoding does not check it.
    pub inverse_protocol_version: u8,
    /// DoIP payload type.
    pub payload_type: PayloadType,
    /// DoIP payload length: the exact byte count of the payload that
    /// follows the header.
    pub payload_length: u32,
}

/// DoIP protocol versions.
#[derive(Copy, Clone, Debug, PartialEq, Eq, Structural)]
pub enum ProtocolVersion {
    /// Draft edition of the standard.
    DoIpIsoDis,
    /// Published edition of the standard.
    DoIpIso,
    /// Version byte used by vehicle identification requests sent before
    /// the entity's version is known.
    VehicleIdentificationRequest,
}

/// The wire byte of a protocol version.
pub open spec fn spec_version_byte(v: ProtocolVersion) -> u8 {
    match v {
        ProtocolVersion::DoIpIsoDis => 0x01,
        ProtocolVersion::DoIpIso => 0x02,
        ProtocolVersion::VehicleIdentificationRequest => 0xFF,
    }
}

impl ProtocolVersion {
    /// The wire byte of this protocol version.
    pub fn into_u8(self) -> (r: u8)
        ensures
            r == spec_version_byte(self),
    {
        match self {
            ProtocolVersion::DoIpIsoDis => 0x01,
            ProtocolVersion::DoIpIso => 0x02,
            ProtocolVersion::VehicleIdentificationRequest => 0xFF,
        }
    }
}

/// The exact eight-byte encoding of a header.
pub open spec fn spec_header_enc(h: DoIpHeader) -> Seq<u8> {
    seq![h.protocol_version, h.inverse_protocol_version] + be16_bytes(spec_code_of(h.payload_type))
        + be32_bytes(h.payload_length)
}

/// The header denoted by an eight-byte span.  Total: no field of a header
/// is validated on decode.
pub open spec fn spec_header_dec(b: Seq<u8>) -> DoIpHeader
    recommends
        b.len() == 8,
{
    DoIpHeader {
        protocol_version: b[0],
        inverse_protocol_version: b[1],
        payload_type: spec_type_of(be16_of(b.subrange(2, 4))),
        payload_length: be32_of(b.subrange(4, 8)),
    }
}

/// Decoding inverts encoding for headers whose payload type is well
/// formed.
pub proof fn lemma_header_round_trip(h: DoIpHeader)
    requires
        spec_payload_type_wf(h.payload_type),
    ensures
        spec_header_enc(h).len() == 8,
        spec_header_dec(spec_header_enc(h)) == h,
{
    let e = spec_header_enc(h);
    lemma_be16_round_trip(spec_code_of(h.payload_type));
    lemma_be32_round_trip(h.payload_length);
    assert(e.subrange(2, 4) =~= be16_bytes(spec_code_of(h.payload_type)));
    assert(e.subrange(4, 8) =~= be32_bytes(h.payload_length));
    lemma_registry_kind_round_trip(h.payload_type);
}

impl DoIpHeader {
    /// Build a header with the default protocol version
    /// [`ProtocolVersion::DoIpIso`].  The inverse-version byte is always
    /// the bitwise complement of the version byte.
    pub fn new(payload_type: PayloadType, payload_length: u32) -> (r: DoIpHeader)
        ensures
            r.protocol_version == spec_version_byte(ProtocolVersion::DoIpIso),
            r.inverse_protocol_version == !r.protocol_version,
            r.payload_type == payload_type,
            r.payload_length == payload_length,
    {
        let version = ProtocolVersion::DoIpIso.into_u8();
        DoIpHeader {
            protocol_version: version,
            inverse_protocol_version: !version,
            payload_type,
            payload_length,
        }
    }

    /// Build a header with the given protocol version.  The
    /// inverse-version byte is always the bitwise complement of the
    /// version byte.
    pub fn new_versionned(
        protocol_version: ProtocolVersion,
        payload_type: PayloadType,
        payload_length: u32,
    ) -> (r: DoIpHeader)
        ensures
            r.protocol_version == spec_version_byte(protocol_version),
            r.inverse_protocol_version == !r.protocol_version,
            r.payload_type == payload_type,
            r.payload_length == payload_length,
    {
        let version = protocol_version.into_u8();
        DoIpHeader {
            protocol_version: version,
            inverse_protocol_version: !version,
            payload_type,
            payload_length,
        }
    }

    /// Read a DoIP header: the next eight bytes of the source.  No field
    /// is validated; in particular a received header may fail the
    /// inverse-version relation.
    pub fn read(reader: &mut ByteReader<'_>) -> (r: Result<DoIpHeader, DoIpError>)
        requires
            old(reader).wf(),
            old(reader).bytes().len() - old(reader).position() >= 8,
        ensures
            final(reader).wf(),
            final(reader).bytes() == old(reader).bytes(),
            final(reader).position() == old(reader).position() + 8,
            r == Ok::<DoIpHeader, DoIpError>(spec_header_dec(old(reader).taken(8))),
    {
        let protocol_version = reader.read_u8();
        let inverse_protocol_version = reader.read_u8();
        let payload_type_code = reader.read_u16_be();
        let payload_type = PayloadType::from(payload_type_code);
        let payload_length = reader.read_u32_be();
        proof {
            let t = old(reader).taken(8);
            assert(t.subrange(2, 4) =~= old(reader).bytes().subrange(
                old(reader).position() + 2,
                old(reader).position() + 4,
            ));
            assert(t.subrange(4, 8) =~= old(reader).bytes().subrange(
                old(reader).position() + 4,
                old(reader).position() + 8,
            ));
            assert(t[0] == old(reader).bytes()[old(reader).position()]);
            assert(t[1] == old(reader).bytes()[old(reader).position() + 1]);
        }
        Ok(
            DoIpHeader {
                protocol_version,
                inverse_protocol_version,
                payload_type,
                payload_length,
            },
        )
    }

    /// Append the exact eight-byte encoding of this header to `sink`.
    pub fn write(&self, sink: &mut Vec<u8>) -> (r: Result<(), DoIpError>)
        requires
            old(sink)@.len() + 8 <= usize::MAX,
        ensures
            r is Ok,
            final(sink)@ == old(sink)@ + spec_header_enc(*self),
    {
        sink.push(self.protocol_version);
        sink.push(self.inverse_protocol_version);
        let code = self.payload_type.into_u16();
        put_u16_be(sink, code);
        put_u32_be(sink, self.payload_length);
        proof {
            assert(sink@ =~= old(sink)@ + spec_header_enc(*self));
        }
        Ok(())
    }
}

} // verus!

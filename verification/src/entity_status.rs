use vstd::prelude::*;

use crate::bytes::{put_u32_be, be32_bytes, be32_of, lemma_be32_injective, lemma_be32_round_trip,
    ByteReader};
use crate::error::DoIpError;
use crate::payload::{Payload, PayloadType};

verus! {

/// Entity status request message.  Its payload is empty.
#[derive(Debug, Clone, PartialEq, Eq, Structural)]
pub struct EntityStatusRequest {}

/// Entity status response message.
///
/// Tells the external tester about the limitations of the responding
/// entity.
#[derive(Debug, Clone, PartialEq, Eq, Structural)]
pub struct EntityStatusResponse {
    /// Node type.
    pub node_type: u8,
    /// Maximum number of connections supported.
    pub max_open_sockets: u8,
    /// Current number of connections opened.
    pub cur_open_sockets: u8,
    /// Maximum length of a message that can be received.
    pub max_data_size: u32,
}

impl View for EntityStatusRequest {
    type V = EntityStatusRequest;

    open spec fn view(&self) -> EntityStatusRequest {
        EntityStatusRequest {  }
    }
}

impl Payload for EntityStatusRequest {
    open spec fn spec_payload_type() -> PayloadType {
        PayloadType::DoIpEntityStatusRequest
    }

    open spec fn enc(m: EntityStatusRequest) -> Seq<u8> {
        Seq::empty()
    }

    open spec fn dec(bytes: Seq<u8>) -> Result<EntityStatusRequest, DoIpError> {
        if bytes.len() == 0 {
            Ok(EntityStatusRequest {  })
        } else {
            Err(DoIpError::PayloadLengthTooShort { value: bytes.len() as u32, expected: 0 })
        }
    }

    open spec fn accepts_len(n: nat) -> bool {
        n == 0
    }

    open spec fn spec_expected_len() -> u32 {
        0
    }

    open spec fn canonical(m: EntityStatusRequest) -> bool {
        true
    }

    open spec fn replaceable(self) -> bool {
        true
    }

    proof fn lemma_round_trip(m: EntityStatusRequest) {
    }

    proof fn lemma_length_mismatch(bytes: Seq<u8>) {
    }

    proof fn lemma_byte_corruption(m: EntityStatusRequest, i: int, x: u8) {
    }

    fn payload_type() -> (t: PayloadType) {
        PayloadType::DoIpEntityStatusRequest
    }

    fn length(&self) -> (n: usize) {
        0
    }

    fn read(reader: &mut ByteReader<'_>, payload_length: usize) -> (r: Result<Self, DoIpError>) {
        if payload_length != 0 {
            Err(DoIpError::PayloadLengthTooShort { value: payload_length as u32, expected: 0 })
        } else {
            Ok(EntityStatusRequest {  })
        }
    }

    fn read_replace(&mut self, reader: &mut ByteReader<'_>, payload_length: usize) -> (r: Result<
        (),
        DoIpError,
    >) {
        if payload_length != 0 {
            Err(DoIpError::PayloadLengthTooShort { value: payload_length as u32, expected: 0 })
        } else {
            Ok(())
        }
    }

    fn write(&self, sink: &mut Vec<u8>) -> (r: Result<(), DoIpError>) {
        proof {
            assert(sink@ =~= sink@ + Seq::<u8>::empty());
        }
        Ok(())
    }
}

impl View for EntityStatusResponse {
    type V = EntityStatusResponse;

    open spec fn view(&self) -> EntityStatusResponse {
        *self
    }
}

impl Payload for EntityStatusResponse {
    open spec fn spec_payload_type() -> PayloadType {
        PayloadType::DoIpEntityStatusResponse
    }

    open spec fn enc(m: EntityStatusResponse) -> Seq<u8> {
        seq![m.node_type, m.max_open_sockets, m.cur_open_sockets] + be32_bytes(m.max_data_size)
    }

    open spec fn dec(bytes: Seq<u8>) -> Result<EntityStatusResponse, DoIpError> {
        if bytes.len() == 7 {
            Ok(
                EntityStatusResponse {
                    node_type: bytes[0],
                    max_open_sockets: bytes[1],
                    cur_open_sockets: bytes[2],
                    max_data_size: be32_of(bytes.subrange(3, 7)),
                },
            )
        } else {
            Err(DoIpError::PayloadLengthTooShort { value: bytes.len() as u32, expected: 7 })
        }
    }

    open spec fn accepts_len(n: nat) -> bool {
        n == 7
    }

    open spec fn spec_expected_len() -> u32 {
        7
    }

    open spec fn canonical(m: EntityStatusResponse) -> bool {
        true
    }

    open spec fn replaceable(self) -> bool {
        true
    }

    proof fn lemma_round_trip(m: EntityStatusResponse) {
        let e = Self::enc(m);
        lemma_be32_round_trip(m.max_data_size);
        assert(e.subrange(3, 7) =~= be32_bytes(m.max_data_size));
    }

    proof fn lemma_length_mismatch(bytes: Seq<u8>) {
    }

    proof fn lemma_byte_corruption(m: EntityStatusResponse, i: int, x: u8) {
        let e = Self::enc(m);
        let b = e.update(i, x);
        lemma_be32_round_trip(m.max_data_size);
        assert(e.subrange(3, 7) =~= be32_bytes(m.max_data_size));
        if i >= 3 {
            if be32_of(b.subrange(3, 7)) == m.max_data_size {
                lemma_be32_injective(b.subrange(3, 7), e.subrange(3, 7));
                assert(b.subrange(3, 7)[i - 3] == e.subrange(3, 7)[i - 3]);
            }
        }
    }

    fn payload_type() -> (t: PayloadType) {
        PayloadType::DoIpEntityStatusResponse
    }

    fn length(&self) -> (n: usize) {
        7
    }

    fn read(reader: &mut ByteReader<'_>, payload_length: usize) -> (r: Result<Self, DoIpError>) {
        if payload_length != 7 {
            return Err(DoIpError::PayloadLengthTooShort {
                value: payload_length as u32,
                expected: 7,
            });
        }
        let node_type = reader.read_u8();
        let max_open_sockets = reader.read_u8();
        let cur_open_sockets = reader.read_u8();
        let max_data_size = reader.read_u32_be();
        proof {
            let t = old(reader).taken(7);
            assert(t.subrange(3, 7) =~= old(reader).bytes().subrange(
                old(reader).position() + 3,
                old(reader).position() + 7,
            ));
        }
        Ok(EntityStatusResponse { node_type, max_open_sockets, cur_open_sockets, max_data_size })
    }

    fn read_replace(&mut self, reader: &mut ByteReader<'_>, payload_length: usize) -> (r: Result<
        (),
        DoIpError,
    >) {
        if payload_length != 7 {
            return Err(DoIpError::PayloadLengthTooShort {
                value: payload_length as u32,
                expected: 7,
            });
        }
        self.node_type = reader.read_u8();
        self.max_open_sockets = reader.read_u8();
        self.cur_open_sockets = reader.read_u8();
        self.max_data_size = reader.read_u32_be();
        proof {
            let t = old(reader).taken(7);
            assert(t.subrange(3, 7) =~= old(reader).bytes().subrange(
                old(reader).position() + 3,
                old(reader).position() + 7,
            ));
        }
        Ok(())
    }

    fn write(&self, sink: &mut Vec<u8>) -> (r: Result<(), DoIpError>) {
        sink.push(self.node_type);
        sink.push(self.max_open_sockets);
        sink.push(self.cur_open_sockets);
        put_u32_be(sink, self.max_data_size);
        proof {
            assert(sink@ =~= old(sink)@ + Self::enc(self@));
        }
        Ok(())
    }
}

} // verus!

use vstd::prelude::*;

use crate::bytes::{put_u16_be, be16_bytes, be16_of, lemma_be16_injective, lemma_be16_round_trip,
    ByteReader};
use crate::error::DoIpError;
use crate::payload::{Payload, PayloadType};
use crate::LogicalAddress;

verus! {

/// Alive check request message.
///
/// Sent by the tested entity to the external tester to verify that the
/// tester is still connected.  Its payload is empty.
#[derive(Debug, Clone, PartialEq, Eq, Structural)]
pub struct AliveCheckRequest {}

/// Alive check response message.
///
/// Sent by the external tester to the tested entity to confirm that it is
/// still connected.
#[derive(Debug, Clone, PartialEq, Eq, Structural)]
pub struct AliveCheckResponse {
    /// Logical address of the tester.
    pub source_address: LogicalAddress,
}

impl View for AliveCheckRequest {
    type V = AliveCheckRequest;

    open spec fn view(&self) -> AliveCheckRequest {
        AliveCheckRequest {  }
    }
}

impl Payload for AliveCheckRequest {
    open spec fn spec_payload_type() -> PayloadType {
        PayloadType::AliveCheckRequest
    }

    open spec fn enc(m: AliveCheckRequest) -> Seq<u8> {
        Seq::empty()
    }

    open spec fn dec(bytes: Seq<u8>) -> Result<AliveCheckRequest, DoIpError> {
        if bytes.len() == 0 {
            Ok(AliveCheckRequest {  })
        } else {
            Err(DoIpError::PayloadLengthTooShort { value: bytes.len() as u32, expected: 0 })
        }
    }

    open spec fn accepts_len(n: nat) -> bool {
        n == 0
    }

    open spec fn spec_expected_len() -> u32 {
        0
    }

    open spec fn canonical(m: AliveCheckRequest) -> bool {
        true
    }

    open spec fn replaceable(self) -> bool {
        true
    }

    proof fn lemma_round_trip(m: AliveCheckRequest) {
    }

    proof fn lemma_length_mismatch(bytes: Seq<u8>) {
    }

    proof fn lemma_byte_corruption(m: AliveCheckRequest, i: int, x: u8) {
    }

    fn payload_type() -> (t: PayloadType) {
        PayloadType::AliveCheckRequest
    }

    fn length(&self) -> (n: usize) {
        0
    }

    fn read(reader: &mut ByteReader<'_>, payload_length: usize) -> (r: Result<Self, DoIpError>) {
        if payload_length != 0 {
            Err(DoIpError::PayloadLengthTooShort { value: payload_length as u32, expected: 0 })
        } else {
            Ok(AliveCheckRequest {  })
        }
    }

    fn read_replace(&mut self, reader: &mut ByteReader<'_>, payload_length: usize) -> (r: Result<
        (),
        DoIpError,
    >) {
        if payload_length != 0 {
            Err(DoIpError::PayloadLengthTooShort { value: payload_length as u32, expected: 0 })
        } else {
            Ok(())
        }
    }

    fn write(&self, sink: &mut Vec<u8>) -> (r: Result<(), DoIpError>) {
        proof {
            assert(sink@ =~= sink@ + Seq::<u8>::empty());
        }
        Ok(())
    }
}

impl View for AliveCheckResponse {
    type V = AliveCheckResponse;

    open spec fn view(&self) -> AliveCheckResponse {
        *self
    }
}

impl Payload for AliveCheckResponse {
    open spec fn spec_payload_type() -> PayloadType {
        PayloadType::AliveCheckResponse
    }

    open spec fn enc(m: AliveCheckResponse) -> Seq<u8> {
        be16_bytes(m.source_address)
    }

    open spec fn dec(bytes: Seq<u8>) -> Result<AliveCheckResponse, DoIpError> {
        if bytes.len() == 2 {
            Ok(AliveCheckResponse { source_address: be16_of(bytes) })
        } else {
            Err(DoIpError::PayloadLengthTooShort { value: bytes.len() as u32, expected: 2 })
        }
    }

    open spec fn accepts_len(n: nat) -> bool {
        n == 2
    }

    open spec fn spec_expected_len() -> u32 {
        2
    }

    open spec fn canonical(m: AliveCheckResponse) -> bool {
        true
    }

    open spec fn replaceable(self) -> bool {
        true
    }

    proof fn lemma_round_trip(m: AliveCheckResponse) {
        lemma_be16_round_trip(m.source_address);
    }

    proof fn lemma_length_mismatch(bytes: Seq<u8>) {
    }

    proof fn lemma_byte_corruption(m: AliveCheckResponse, i: int, x: u8) {
        let e = Self::enc(m);
        let b = e.update(i, x);
        lemma_be16_round_trip(m.source_address);
        if be16_of(b) == m.source_address {
            lemma_be16_injective(b, e);
            assert(b[i] == e[i]);
        }
    }

    fn payload_type() -> (t: PayloadType) {
        PayloadType::AliveCheckResponse
    }

    fn length(&self) -> (n: usize) {
        2
    }

    fn read(reader: &mut ByteReader<'_>, payload_length: usize) -> (r: Result<Self, DoIpError>) {
        if payload_length != 2 {
            return Err(DoIpError::PayloadLengthTooShort {
                value: payload_length as u32,
                expected: 2,
            });
        }
        let source_address = reader.read_u16_be();
        Ok(AliveCheckResponse { source_address })
    }

    fn read_replace(&mut self, reader: &mut ByteReader<'_>, payload_length: usize) -> (r: Result<
        (),
        DoIpError,
    >) {
        if payload_length != 2 {
            return Err(DoIpError::PayloadLengthTooShort {
                value: payload_length as u32,
                expected: 2,
            });
        }
        self.source_address = reader.read_u16_be();
        Ok(())
    }

    fn write(&self, sink: &mut Vec<u8>) -> (r: Result<(), DoIpError>) {
        put_u16_be(sink, self.source_address);
        Ok(())
    }
}

} // verus!

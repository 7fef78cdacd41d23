use vstd::prelude::*;

use crate::bytes::ByteReader;
use crate::error::DoIpError;
use crate::payload::{Payload, PayloadType};

verus! {

/// Power mode request message.  Its payload is empty.
#[derive(Debug, Clone, PartialEq, Eq, Structural)]
pub struct PowerModeRequest {}

/// Power mode response message.
#[derive(Debug, Clone, PartialEq, Eq, Structural)]
pub struct PowerModeResponse {
    /// Power mode of the responding entity.
    pub power_mode: u8,
}

impl View for PowerModeRequest {
    type V = PowerModeRequest;

    open spec fn view(&self) -> PowerModeRequest {
        PowerModeRequest {  }
    }
}

impl Payload for PowerModeRequest {
    open spec fn spec_payload_type() -> PayloadType {
        PayloadType::DiagnosticPowerModeInformationRequest
    }

    open spec fn enc(m: PowerModeRequest) -> Seq<u8> {
        Seq::empty()
    }

    open spec fn dec(bytes: Seq<u8>) -> Result<PowerModeRequest, DoIpError> {
        if bytes.len() == 0 {
            Ok(PowerModeRequest {  })
        } else {
            Err(DoIpError::PayloadLengthTooShort { value: bytes.len() as u32, expected: 0 })
        }
    }

    open spec fn accepts_len(n: nat) -> bool {
        n == 0
    }

    open spec fn spec_expected_len() -> u32 {
        0
    }

    open spec fn canonical(m: PowerModeRequest) -> bool {
        true
    }

    open spec fn replaceable(self) -> bool {
        true
    }

    proof fn lemma_round_trip(m: PowerModeRequest) {
    }

    proof fn lemma_length_mismatch(bytes: Seq<u8>) {
    }

    proof fn lemma_byte_corruption(m: PowerModeRequest, i: int, x: u8) {
    }

    fn payload_type() -> (t: PayloadType) {
        PayloadType::DiagnosticPowerModeInformationRequest
    }

    fn length(&self) -> (n: usize) {
        0
    }

    fn read(reader: &mut ByteReader<'_>, payload_length: usize) -> (r: Result<Self, DoIpError>) {
        if payload_length != 0 {
            Err(DoIpError::PayloadLengthTooShort { value: payload_length as u32, expected: 0 })
        } else {
            Ok(PowerModeRequest {  })
        }
    }

    fn read_replace(&mut self, reader: &mut ByteReader<'_>, payload_length: usize) -> (r: Result<
        (),
        DoIpError,
    >) {
        if payload_length != 0 {
            Err(DoIpError::PayloadLengthTooShort { value: payload_length as u32, expected: 0 })
        } else {
            Ok(())
        }
    }

    fn write(&self, sink: &mut Vec<u8>) -> (r: Result<(), DoIpError>) {
        proof {
            assert(sink@ =~= sink@ + Seq::<u8>::empty());
        }
        Ok(())
    }
}

impl View for PowerModeResponse {
    type V = PowerModeResponse;

    open spec fn view(&self) -> PowerModeResponse {
        *self
    }
}

impl Payload for PowerModeResponse {
    open spec fn spec_payload_type() -> PayloadType {
        PayloadType::DiagnosticPowerModeInformationResponse
    }

    open spec fn enc(m: PowerModeResponse) -> Seq<u8> {
        seq![m.power_mode]
    }

    open spec fn dec(bytes: Seq<u8>) -> Result<PowerModeResponse, DoIpError> {
        if bytes.len() == 1 {
            Ok(PowerModeResponse { power_mode: bytes[0] })
        } else {
            Err(DoIpError::PayloadLengthTooShort { value: bytes.len() as u32, expected: 1 })
        }
    }

    open spec fn accepts_len(n: nat) -> bool {
        n == 1
    }

    open spec fn spec_expected_len() -> u32 {
        1
    }

    open spec fn canonical(m: PowerModeResponse) -> bool {
        true
    }

    open spec fn replaceable(self) -> bool {
        true
    }

    proof fn lemma_round_trip(m: PowerModeResponse) {
    }

    proof fn lemma_length_mismatch(bytes: Seq<u8>) {
    }

    proof fn lemma_byte_corruption(m: PowerModeResponse, i: int, x: u8) {
    }

    fn payload_type() -> (t: PayloadType) {
        PayloadType::DiagnosticPowerModeInformationResponse
    }

    fn length(&self) -> (n: usize) {
        1
    }

    fn read(reader: &mut ByteReader<'_>, payload_length: usize) -> (r: Result<Self, DoIpError>) {
        if payload_length != 1 {
            return Err(DoIpError::PayloadLengthTooShort {
                value: payload_length as u32,
                expected: 1,
            });
        }
        let power_mode = reader.read_u8();
        Ok(PowerModeResponse { power_mode })
    }

    fn read_replace(&mut self, reader: &mut ByteReader<'_>, payload_length: usize) -> (r: Result<
        (),
        DoIpError,
    >) {
        if payload_length != 1 {
            return Err(DoIpError::PayloadLengthTooShort {
                value: payload_length as u32,
                expected: 1,
            });
        }
        self.power_mode = reader.read_u8();
        Ok(())
    }

    fn write(&self, sink: &mut Vec<u8>) -> (r: Result<(), DoIpError>) {
        sink.push(self.power_mode);
        proof {
            assert(sink@ =~= old(sink)@ + Self::enc(self@));
        }
        Ok(())
    }
}

} // verus!

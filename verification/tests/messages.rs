use doip_rw::message::{ActivationType, AliveCheckRequest, AliveCheckResponse, DiagnosticMessage,
    DiagnosticMessageNegativeAck, DiagnosticMessageNegativeAckCode, DiagnosticMessagePositiveAck,
    DiagnosticMessagePositiveAckCode, DoIpHeader, EntityStatusRequest, EntityStatusResponse,
    FurtherActionRequired, GenericDoIpHeaderNegativeAcknowledge, NegativeAckCode, PowerModeRequest,
    PowerModeResponse, ProtocolVersion, RoutingActivationRequest, RoutingActivationResponse,
    RoutingActivationResponseCode, UdsBuffer, VehicleIdentificationRequest,
    VehicleIdentificationRequestWithEid, VehicleIdentificationRequestWithVin,
    VehicleIdentificationResponse, VinGidSyncStatus};
use doip_rw::{read_message, write_message, ByteReader, Payload, PayloadType, DOIP_HEADER_LENGTH};

fn assert_decode_smaller<P>(input: &[u8], _expected: &P)
where
    P: Payload + PartialEq + std::fmt::Debug,
{
    if !input.is_empty() {
        let mut reader = ByteReader::new(input);
        let res = P::read(&mut reader, input.len() - 1);
        assert!(res.is_err());
    }
}

fn assert_decode_bigger<P>(input: &[u8], _expected: &P)
where
    P: Payload + PartialEq + std::fmt::Debug,
{
    let mut bigger = Vec::new();
    bigger.extend_from_slice(input);
    bigger.push(0x12);
    let mut reader = ByteReader::new(&bigger);
    let res = P::read(&mut reader, bigger.len());
    assert!(res.is_err());
}

fn assert_decode_corrupted<P>(input: &[u8], expected: &P, xor_corruptor: u8)
where
    P: Payload + PartialEq + std::fmt::Debug,
{
    assert_ne!(xor_corruptor, 0);
    if input.is_empty() {
        return;
    }
    for i in 0..(input.len() - 1) {
        let mut corrupted = Vec::from(input);
        corrupted[i] ^= xor_corruptor;
        let mut reader = ByteReader::new(&corrupted);
        let res = P::read(&mut reader, corrupted.len());
        if let Ok(p) = res {
            assert_ne!(&p, expected);
        }
    }
}

fn assert_decode_expected<P>(input: &[u8], expected: &P)
where
    P: Payload + PartialEq + std::fmt::Debug,
{
    let mut reader = ByteReader::new(input);
    let res = P::read(&mut reader, input.len());
    match res {
        Ok(msg) => assert_eq!(&msg, expected),
        Err(_) => panic!("Error in decoding input {:?}", input),
    }
}

fn assert_decode_with_header<P>(input: &[u8], expected: &P)
where
    P: Payload + PartialEq + std::fmt::Debug,
{
    let mut reader = ByteReader::new(input);
    let res: Result<P, doip_rw::DoIpError> = read_message(&mut reader);
    match res {
        Ok(msg) => assert_eq!(&msg, expected),
        Err(_) => panic!("Error in decoding input {:?}", input),
    }
}

fn assert_decode_no_length_change<P>(expected: &P, input: &[u8])
where
    P: Payload + PartialEq + std::fmt::Debug,
{
    let payload = &input[DOIP_HEADER_LENGTH..];

    assert_decode_expected(payload, expected);
    assert_decode_corrupted(payload, expected, 0x01);
    assert_decode_corrupted(payload, expected, 0xaa);
    assert_decode_corrupted(payload, expected, 0xff);
}

fn assert_decode<P>(expected: &P, input: &[u8])
where
    P: Payload + PartialEq + std::fmt::Debug,
{
    let payload = &input[DOIP_HEADER_LENGTH..];

    assert_decode_smaller(payload, expected);
    assert_decode_bigger(payload, expected);
    assert_decode_no_length_change(expected, input);
    assert_decode_with_header(input, expected);
}

fn assert_encode<P>(input: &P, expected: &[u8])
where
    P: Payload + PartialEq + std::fmt::Debug,
{
    let mut v: Vec<u8> = vec![];
    write_message(input, &mut v).unwrap();
    assert_eq!(v, expected);
}

#[test]
fn alive_check_request() {
    let payload = AliveCheckRequest {};
    let v = [
        0x02, 0xfd, // Protocol version
        0x00, 0x07, // Payload type
        0x00, 0x00, 0x00, 0x00, // Payload length
    ];
    assert_encode(&payload, &v);
    assert_decode(&payload, &v);
}

#[test]
fn alive_check_response() {
    let payload = AliveCheckResponse {
        source_address: 0x045e,
    };
    let v = [
        0x02, 0xfd, // Protocol version
        0x00, 0x08, // Payload type
        0x00, 0x00, 0x00, 0x02, // Payload length
        0x04, 0x5e,
    ];
    assert_encode(&payload, &v);
    assert_decode(&payload, &v);
}

#[test]
fn diagnostic_message() {
    let payload = DiagnosticMessage {
        source_address: 0x0123,
        target_address: 0x00ed,
        user_data: UdsBuffer::Owned(vec![0x22, 0xf0, 0x12]),
    };
    let v = vec![
        0x02, 0xfd, // Protocol version
        0x80, 0x01, // Payload type
        0x00, 0x00, 0x00, 0x07, // Payload length
        0x01, 0x23, 0x00, 0xed, 0x22, 0xf0, 0x12,
    ];
    assert_encode(&payload, &v);
    assert_decode_no_length_change(&payload, &v);
}

#[test]
fn diagnostic_message_positive_ack() {
    let payload = DiagnosticMessagePositiveAck {
        source_address: 0x0123,
        target_address: 0x00ed,
        ack_code: DiagnosticMessagePositiveAckCode::RoutingConfirmationAck,
        previous_diagnostic_message_data: UdsBuffer::Owned(vec![0x22, 0xf0, 0x12]),
    };
    let v = vec![
        0x02, 0xfd, // Protocol version
        0x80, 0x02, // Payload type
        0x00, 0x00, 0x00, 0x08, // Payload length
        0x01, 0x23, 0x00, 0xed, 0x00, 0x22, 0xf0, 0x12,
    ];
    assert_encode(&payload, &v);
    assert_decode_no_length_change(&payload, &v);
}

#[test]
fn diagnostic_message_negative_ack() {
    let payload = DiagnosticMessageNegativeAck {
        source_address: 0x0123,
        target_address: 0x00ed,
        ack_code: DiagnosticMessageNegativeAckCode::OutOfMemory,
        previous_diagnostic_message_data: UdsBuffer::Owned(vec![0x22, 0xf0, 0x12]),
    };
    let v = vec![
        0x02, 0xfd, // Protocol version
        0x80, 0x03, // Payload type
        0x00, 0x00, 0x00, 0x08, // Payload length
        0x01, 0x23, 0x00, 0xed, 0x05, 0x22, 0xf0, 0x12,
    ];
    assert_encode(&payload, &v);
    assert_decode_no_length_change(&payload, &v);
}

#[test]
fn entity_status_request() {
    let v = [
        0x02, 0xfd, // Protocol version
        0x40, 0x01, // Payload type
        0x00, 0x00, 0x00, 0x00, // Payload length
    ];
    assert_encode(&EntityStatusRequest {}, &v);
    assert_decode(&EntityStatusRequest {}, &v);
}

#[test]
fn entity_status_response() {
    let payload = EntityStatusResponse {
        node_type: 0x12,
        max_open_sockets: 2,
        cur_open_sockets: 1,
        max_data_size: 1024,
    };
    let v = vec![
        0x02, 0xfd, // Protocol version
        0x40, 0x02, // Payload type
        0x00, 0x00, 0x00, 0x07, // Payload length
        0x12, 0x02, 0x01, 0x00, 0x00, 0x04, 0x00,
    ];
    assert_encode(&payload, &v);
    assert_decode(&payload, &v);
}

#[test]
fn generic_header_nack() {
    let payload = GenericDoIpHeaderNegativeAcknowledge {
        nack_code: NegativeAckCode::OutOfMemory,
    };
    let v = vec![
        0x02, 0xfd, // Protocol version
        0x00, 0x00, // Payload type
        0x00, 0x00, 0x00, 0x01, // Payload length
        0x03,
    ];
    assert_encode(&payload, &v);
    assert_decode(&payload, &v);
}

#[test]
fn test_serialize() {
    let mut buff: Vec<u8> = Vec::new();
    let header = DoIpHeader::new(PayloadType::RoutingActivationRequest, 11);
    let res = header.write(&mut buff);
    assert!(res.is_ok());
    let expected = vec![0x02u8, 0xfd, 0x00, 0x05, 0x00, 0x00, 0x00, 0x0b];
    assert_eq!(&expected, &buff);
}

#[test]
fn test_derialize() {
    let bytes = vec![0x02u8, 0xfd, 0x00, 0x05, 0x00, 0x00, 0x00, 0x0b];
    let mut reader = ByteReader::new(&bytes);
    let header = DoIpHeader::read(&mut reader).unwrap();
    assert_eq!(header.protocol_version, ProtocolVersion::DoIpIso.into_u8());
    assert_eq!(header.payload_type, PayloadType::RoutingActivationRequest);
    assert_eq!(header.payload_length, 11u32);
}

#[test]
fn power_mode_request() {
    let v = vec![
        0x02, 0xfd, // Protocol version
        0x40, 0x03, // Payload type
        0x00, 0x00, 0x00, 0x00, // Payload length
    ];
    assert_encode(&PowerModeRequest {}, &v);
    assert_decode(&PowerModeRequest {}, &v);
}

#[test]
fn power_mode_response() {
    let payload = PowerModeResponse { power_mode: 0x01 };
    let v = vec![
        0x02, 0xfd, // Protocol version
        0x40, 0x04, // Payload type
        0x00, 0x00, 0x00, 0x01, // Payload length
        0x01,
    ];

    assert_encode(&payload, &v);
    assert_decode(&payload, &v);
}

#[test]
fn routing_activation_request() {
    let payload = RoutingActivationRequest {
        source_address: 0x0123,
        activation_type: ActivationType::Default,
        reserved: [0u8; 4],
        reserved_oem: None,
    };
    let v = vec![
        0x02, 0xfd, // Protocol version
        0x00, 0x05, // Payload type
        0x00, 0x00, 0x00, 0x07, // Payload length
        0x01, 0x23, 0x00, 0x00, 0x00, 0x00, 0x00,
    ];
    assert_encode(&payload, &v);
    assert_decode(&payload, &v);
}

#[test]
fn routing_activation_response() {
    let payload = RoutingActivationResponse {
        logical_address_tester: 0x0123,
        logical_address_of_doip_entity: 0x00ed,
        routing_activation_response_code:
            RoutingActivationResponseCode::RoutingSuccessfullyActivated,
        reserved_oem: [0u8; 4],
        oem_specific: None,
    };
    let v = vec![
        0x02, 0xfd, // Protocol version
        0x00, 0x06, // Payload type
        0x00, 0x00, 0x00, 0x09, // Payload length
        0x01, 0x23, 0x00, 0xed, 0x10, 0x00, 0x00, 0x00, 0x00,
    ];
    assert_encode(&payload, &v);
    assert_decode(&payload, &v);
}

#[test]
fn vehicle_identification_request() {
    let payload = VehicleIdentificationRequest {};
    let v = [
        0x02, 0xfd, // Protocol version
        0x00, 0x01, // Payload type
        0x00, 0x00, 0x00, 0x00, // Payload length
    ];
    assert_encode(&payload, &v);
    assert_decode(&payload, &v);
}

#[test]
fn vehicle_identification_request_with_eid() {
    let payload = VehicleIdentificationRequestWithEid {};
    let v = [
        0x02, 0xfd, // Protocol version
        0x00, 0x02, // Payload type
        0x00, 0x00, 0x00, 0x00, // Payload length
    ];
    assert_encode(&payload, &v);
    assert_decode(&payload, &v);
}

#[test]
fn vehicle_identification_request_with_vin() {
    let payload = VehicleIdentificationRequestWithVin {};
    let v = [
        0x02, 0xfd, // Protocol version
        0x00, 0x03, // Payload type
        0x00, 0x00, 0x00, 0x00, // Payload length
    ];
    assert_encode(&payload, &v);
    assert_decode(&payload, &v);
}

#[test]
fn vehicle_identification_response() {
    let vin = [1, 2, 3, 4, 5, 6, 7, 8, 9, 10, 11, 12, 13, 14, 15, 16, 17];
    let eid = [0xaa, 0xbb, 0xcc, 0xdd, 0x00, 0x38];
    let gid = None;
    let payload = VehicleIdentificationResponse {
        vin,
        logical_address: 0xed00,
        eid,
        gid,
        further_action: FurtherActionRequired::NoFurtherActionRequired,
        vin_gid_sync_status: VinGidSyncStatus::Synchronized,
    };
    let v = [
        0x02, 0xfd, // Protocol version
        0x00, 0x04, // Payload type
        0x00, 0x00, 0x00, 0x21, // Payload length
        1, 2, 3, 4, 5, 6, 7, 8, 9, 10, 11, 12, 13, 14, 15, 16, 17, // Vin
        0xed, 0x00, // LogicalAddress
        0xaa, 0xbb, 0xcc, 0xdd, 0x00, 0x38, // EID
        0x00, 0x00, 0x00, 0x00, 0x00, 0x00, // GID
        0x00, // FurtherActionRequired,
        0x00, // VinGidSyncStatus
    ];
    assert_encode(&payload, &v);
    assert_decode(&payload, &v);
}

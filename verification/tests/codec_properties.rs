use doip_rw::message::{ActivationType, AliveCheckRequest, AliveCheckResponse, DiagnosticMessage,
    DiagnosticMessageNegativeAck, DiagnosticMessageNegativeAckCode, DiagnosticMessagePositiveAck,
    DiagnosticMessagePositiveAckCode, DoIpHeader, EntityStatusResponse, FurtherActionRequired,
    GenericDoIpHeaderNegativeAcknowledge, NegativeAckCode, ProtocolVersion,
    RoutingActivationRequest, RoutingActivationResponse, RoutingActivationResponseCode, UdsBuffer,
    VehicleIdentificationResponse, VinGidSyncStatus};
use doip_rw::{length_message, read_message, read_replace_message, read_replace_payload,
    write_message, BorrowedPayload, ByteReader, DoIpError, Payload, PayloadType,
    DOIP_HEADER_LENGTH};

fn encode<P: Payload>(payload: &P) -> Vec<u8> {
    let mut v: Vec<u8> = Vec::new();
    write_message(payload, &mut v).unwrap();
    v
}

fn decode_payload<P: Payload>(bytes: &[u8]) -> Result<P, DoIpError> {
    let mut reader = ByteReader::new(bytes);
    P::read(&mut reader, bytes.len())
}

#[test]
fn round_trip_routing_activation_request_with_extension() {
    let payload = RoutingActivationRequest {
        source_address: 0x0e00,
        activation_type: ActivationType::CentralSecurity,
        reserved: [0xde, 0xad, 0xbe, 0xef],
        reserved_oem: Some([0x01, 0x02, 0x03, 0x04]),
    };
    let bytes = encode(&payload);
    assert_eq!(bytes.len(), DOIP_HEADER_LENGTH + 11);
    let mut reader = ByteReader::new(&bytes);
    let decoded: RoutingActivationRequest = read_message(&mut reader).unwrap();
    assert_eq!(decoded, payload);
}

#[test]
fn round_trip_routing_activation_response_with_extension() {
    let payload = RoutingActivationResponse {
        logical_address_tester: 0x0e80,
        logical_address_of_doip_entity: 0x1713,
        routing_activation_response_code:
            RoutingActivationResponseCode::RoutingActivationDeniedMissingAuthentication,
        reserved_oem: [0x10, 0x20, 0x30, 0x40],
        oem_specific: Some([0xaa, 0xbb, 0xcc, 0xdd]),
    };
    let bytes = encode(&payload);
    assert_eq!(bytes.len(), DOIP_HEADER_LENGTH + 13);
    let mut reader = ByteReader::new(&bytes);
    let decoded: RoutingActivationResponse = read_message(&mut reader).unwrap();
    assert_eq!(decoded, payload);
}

#[test]
fn round_trip_vehicle_identification_with_gid() {
    let payload = VehicleIdentificationResponse {
        vin: [b'W'; 17],
        logical_address: 0x00ed,
        eid: [1, 2, 3, 4, 5, 6],
        gid: Some([9, 8, 7, 6, 5, 4]),
        further_action: FurtherActionRequired::RoutingActivationRequiredToInitiateCentralSecurity,
        vin_gid_sync_status: VinGidSyncStatus::Incomplete,
    };
    let bytes = encode(&payload);
    let mut reader = ByteReader::new(&bytes);
    let decoded: VehicleIdentificationResponse = read_message(&mut reader).unwrap();
    assert_eq!(decoded, payload);
}

#[test]
fn round_trip_reserved_codes_preserve_raw_byte() {
    let nack = GenericDoIpHeaderNegativeAcknowledge {
        nack_code: NegativeAckCode::Reserved(0x77),
    };
    let bytes = encode(&nack);
    assert_eq!(bytes[DOIP_HEADER_LENGTH], 0x77);
    let decoded: GenericDoIpHeaderNegativeAcknowledge =
        decode_payload(&bytes[DOIP_HEADER_LENGTH..]).unwrap();
    assert_eq!(decoded, nack);

    let diag_nack = DiagnosticMessageNegativeAck {
        source_address: 0x0123,
        target_address: 0x00ed,
        ack_code: DiagnosticMessageNegativeAckCode::Reserved(0x00),
        previous_diagnostic_message_data: UdsBuffer::Owned(vec![]),
    };
    let bytes = encode(&diag_nack);
    assert_eq!(bytes[DOIP_HEADER_LENGTH + 4], 0x00);
    let decoded: DiagnosticMessageNegativeAck =
        decode_payload(&bytes[DOIP_HEADER_LENGTH..]).unwrap();
    assert_eq!(decoded, diag_nack);
}

#[test]
fn positive_ack_reserved_code_reencodes_to_sentinel() {
    let ack = DiagnosticMessagePositiveAck {
        source_address: 0x0123,
        target_address: 0x00ed,
        ack_code: DiagnosticMessagePositiveAckCode::Reserved(0x13),
        previous_diagnostic_message_data: UdsBuffer::Owned(vec![]),
    };
    let bytes = encode(&ack);
    assert_eq!(bytes[DOIP_HEADER_LENGTH + 4], 0xff);
    let decoded: DiagnosticMessagePositiveAck =
        decode_payload(&bytes[DOIP_HEADER_LENGTH..]).unwrap();
    assert_eq!(
        decoded.ack_code,
        DiagnosticMessagePositiveAckCode::Reserved(0xff)
    );
}

#[test]
fn length_equals_written_bytes() {
    let diag = DiagnosticMessage {
        source_address: 1,
        target_address: 2,
        user_data: UdsBuffer::Owned(vec![7; 13]),
    };
    let mut sink: Vec<u8> = Vec::new();
    diag.write(&mut sink).unwrap();
    assert_eq!(sink.len(), diag.length());
    assert_eq!(length_message(&diag), DOIP_HEADER_LENGTH + diag.length());

    let resp = EntityStatusResponse {
        node_type: 0,
        max_open_sockets: 16,
        cur_open_sockets: 3,
        max_data_size: 0xffff_ffff,
    };
    let mut sink: Vec<u8> = Vec::new();
    resp.write(&mut sink).unwrap();
    assert_eq!(sink.len(), resp.length());
}

#[test]
fn header_builder_inverse_version() {
    let versions = [
        ProtocolVersion::DoIpIsoDis,
        ProtocolVersion::DoIpIso,
        ProtocolVersion::VehicleIdentificationRequest,
    ];
    for v in versions {
        let header = DoIpHeader::new_versionned(v, PayloadType::AliveCheckRequest, 0);
        assert_eq!(header.inverse_protocol_version, !header.protocol_version);
        assert_eq!(header.protocol_version, v.into_u8());
    }
    let header = DoIpHeader::new(PayloadType::AliveCheckRequest, 0);
    assert_eq!(header.protocol_version, 0x02);
    assert_eq!(header.inverse_protocol_version, 0xfd);
}

#[test]
fn registry_round_trips_every_code() {
    let mut c: u32 = 0;
    while c <= 0xffff {
        let t = PayloadType::from(c as u16);
        assert_eq!(t.into_u16(), c as u16);
        c += 1;
    }
}

#[test]
fn registry_named_codes() {
    let named = [
        (PayloadType::GenericDoIpHeaderNegativeAcknowledge, 0x0000u16),
        (PayloadType::VehicleIdentificationRequest, 0x0001),
        (PayloadType::VehicleIdentificationRequestWithEid, 0x0002),
        (PayloadType::VehicleIdentificationRequestWithVin, 0x0003),
        (PayloadType::VehicleIdentificationResponse, 0x0004),
        (PayloadType::RoutingActivationRequest, 0x0005),
        (PayloadType::RoutingActivationResponse, 0x0006),
        (PayloadType::AliveCheckRequest, 0x0007),
        (PayloadType::AliveCheckResponse, 0x0008),
        (PayloadType::DoIpEntityStatusRequest, 0x4001),
        (PayloadType::DoIpEntityStatusResponse, 0x4002),
        (PayloadType::DiagnosticPowerModeInformationRequest, 0x4003),
        (PayloadType::DiagnosticPowerModeInformationResponse, 0x4004),
        (PayloadType::DiagnosticMessage, 0x8001),
        (PayloadType::DiagnosticMessagePositiveAcknowledgement, 0x8002),
        (PayloadType::DiagnosticMessageNegativeAcknowledgement, 0x8003),
    ];
    for (kind, code) in named {
        assert_eq!(kind.into_u16(), code);
        assert_eq!(PayloadType::from(code), kind);
    }
    assert_eq!(PayloadType::from(0x0009), PayloadType::Reserved(0x0009));
    assert_eq!(PayloadType::from(0x4000), PayloadType::Reserved(0x4000));
    assert_eq!(PayloadType::from(0x4005), PayloadType::Reserved(0x4005));
    assert_eq!(PayloadType::from(0x8000), PayloadType::Reserved(0x8000));
    assert_eq!(PayloadType::from(0x8004), PayloadType::Reserved(0x8004));
    assert_eq!(PayloadType::from(0xefff), PayloadType::Reserved(0xefff));
    assert_eq!(PayloadType::from(0xf000), PayloadType::ReservedVm(0xf000));
    assert_eq!(PayloadType::from(0xffff), PayloadType::ReservedVm(0xffff));
}

#[test]
fn truncated_payloads_report_length_mismatch() {
    let r: Result<AliveCheckResponse, DoIpError> = decode_payload(&[0x04]);
    assert_eq!(
        r.unwrap_err(),
        DoIpError::PayloadLengthTooShort {
            value: 1,
            expected: 2
        }
    );
    let r: Result<VehicleIdentificationResponse, DoIpError> = decode_payload(&[0u8; 32]);
    assert_eq!(
        r.unwrap_err(),
        DoIpError::PayloadLengthTooShort {
            value: 32,
            expected: 33
        }
    );
    let r: Result<RoutingActivationRequest, DoIpError> = decode_payload(&[0u8; 6]);
    assert_eq!(
        r.unwrap_err(),
        DoIpError::PayloadLengthTooShort {
            value: 6,
            expected: 7
        }
    );
}

#[test]
fn over_length_payloads_report_length_mismatch() {
    let r: Result<AliveCheckResponse, DoIpError> = decode_payload(&[0x04, 0x5e, 0x00]);
    assert_eq!(
        r.unwrap_err(),
        DoIpError::PayloadLengthTooShort {
            value: 3,
            expected: 2
        }
    );
    let r: Result<VehicleIdentificationResponse, DoIpError> = decode_payload(&[0u8; 34]);
    assert_eq!(
        r.unwrap_err(),
        DoIpError::PayloadLengthTooShort {
            value: 34,
            expected: 33
        }
    );
    let r: Result<RoutingActivationRequest, DoIpError> = decode_payload(&[0u8; 8]);
    assert_eq!(
        r.unwrap_err(),
        DoIpError::PayloadLengthTooShort {
            value: 8,
            expected: 7
        }
    );
    let r: Result<RoutingActivationResponse, DoIpError> = decode_payload(&[0u8; 10]);
    assert_eq!(
        r.unwrap_err(),
        DoIpError::PayloadLengthTooShort {
            value: 10,
            expected: 9
        }
    );
}

#[test]
fn single_byte_mutation_never_decodes_to_original() {
    let original = AliveCheckResponse {
        source_address: 0x045e,
    };
    let bytes = encode(&original);
    let payload = &bytes[DOIP_HEADER_LENGTH..];
    for i in 0..payload.len() {
        for mask in 1..=255u8 {
            let mut corrupted = Vec::from(payload);
            corrupted[i] ^= mask;
            let r: Result<AliveCheckResponse, DoIpError> = decode_payload(&corrupted);
            match r {
                Ok(decoded) => assert_ne!(decoded, original),
                Err(_) => {}
            }
        }
    }

    let original = EntityStatusResponse {
        node_type: 0x12,
        max_open_sockets: 2,
        cur_open_sockets: 1,
        max_data_size: 1024,
    };
    let bytes = encode(&original);
    let payload = &bytes[DOIP_HEADER_LENGTH..];
    for i in 0..payload.len() {
        for mask in [0x01u8, 0x10, 0x80, 0xff] {
            let mut corrupted = Vec::from(payload);
            corrupted[i] ^= mask;
            let r: Result<EntityStatusResponse, DoIpError> = decode_payload(&corrupted);
            match r {
                Ok(decoded) => assert_ne!(decoded, original),
                Err(_) => {}
            }
        }
    }
}

#[test]
fn gid_sentinel_wire_spellings() {
    let mut payload = vec![0u8; 33];
    payload[17] = 0x0e;
    payload[18] = 0x00;
    let decoded: VehicleIdentificationResponse = decode_payload(&payload).unwrap();
    assert_eq!(decoded.gid, None);

    for i in 25..31 {
        payload[i] = 0xff;
    }
    let decoded: VehicleIdentificationResponse = decode_payload(&payload).unwrap();
    assert_eq!(decoded.gid, None);

    payload[25] = 0x01;
    let decoded: VehicleIdentificationResponse = decode_payload(&payload).unwrap();
    assert_eq!(decoded.gid, Some([0x01, 0xff, 0xff, 0xff, 0xff, 0xff]));

    let unset = VehicleIdentificationResponse {
        vin: [0; 17],
        logical_address: 0x0e00,
        eid: [0; 6],
        gid: None,
        further_action: FurtherActionRequired::NoFurtherActionRequired,
        vin_gid_sync_status: VinGidSyncStatus::Synchronized,
    };
    let bytes = encode(&unset);
    assert_eq!(&bytes[DOIP_HEADER_LENGTH + 25..DOIP_HEADER_LENGTH + 31], &[0u8; 6]);
}

#[test]
fn unknown_activation_type_is_rejected() {
    let payload = [0x01, 0x23, 0x33, 0x00, 0x00, 0x00, 0x00];
    let r: Result<RoutingActivationRequest, DoIpError> = decode_payload(&payload);
    assert_eq!(r.unwrap_err(), DoIpError::UnknownActivationType(0x33));
}

#[test]
fn unknown_routing_activation_response_code_is_rejected() {
    let payload = [0x01, 0x23, 0x00, 0xed, 0x22, 0x00, 0x00, 0x00, 0x00];
    let r: Result<RoutingActivationResponse, DoIpError> = decode_payload(&payload);
    assert_eq!(
        r.unwrap_err(),
        DoIpError::UnknownRoutingActivationResponseCode(0x22)
    );
}

#[test]
fn unexpected_payload_type_leaves_payload_in_source() {
    let bytes = encode(&AliveCheckResponse {
        source_address: 0x045e,
    });
    let mut reader = ByteReader::new(&bytes);
    let r: Result<AliveCheckRequest, DoIpError> = read_message(&mut reader);
    assert_eq!(
        r.unwrap_err(),
        DoIpError::UnexpectedPayloadType { value: 0x0008 }
    );
    // Only the header was consumed: the undecoded payload stays in the
    // source.
    assert_eq!(reader.remaining(), 2);
}

#[test]
fn source_exhausted_when_declared_length_exceeds_source() {
    let bytes = [0x02, 0xfd, 0x00, 0x08, 0x00, 0x00, 0x00, 0x0a, 0x04];
    let mut reader = ByteReader::new(&bytes);
    let r: Result<AliveCheckResponse, DoIpError> = read_message(&mut reader);
    assert_eq!(r.unwrap_err(), DoIpError::SourceExhausted);
}

#[test]
fn read_replace_reuses_existing_value() {
    let bytes = encode(&DiagnosticMessage {
        source_address: 0x0123,
        target_address: 0x00ed,
        user_data: UdsBuffer::Owned(vec![0x22, 0xf0, 0x12]),
    });
    let mut target = DiagnosticMessage {
        source_address: 0,
        target_address: 0,
        user_data: UdsBuffer::Owned(vec![0xee; 40]),
    };
    let mut reader = ByteReader::new(&bytes);
    read_replace_message(&mut target, &mut reader).unwrap();
    assert_eq!(target.source_address, 0x0123);
    assert_eq!(target.target_address, 0x00ed);
    assert_eq!(target.user_data.get_ref(), &[0x22, 0xf0, 0x12]);
}

#[test]
fn read_replace_rejects_borrowed_storage() {
    let backing = [0u8; 3];
    let mut target = DiagnosticMessage {
        source_address: 0,
        target_address: 0,
        user_data: UdsBuffer::Borrowed(&backing),
    };
    let payload = [0x01, 0x23, 0x00, 0xed, 0x99];
    let mut reader = ByteReader::new(&payload);
    let r = read_replace_payload(&mut target, &mut reader, payload.len());
    assert_eq!(r.unwrap_err(), DoIpError::BufferTooSmall);
    // The failure is not rolled back: the addresses decoded before the
    // failure point keep their new contents.
    assert_eq!(target.source_address, 0x0123);
    assert_eq!(target.target_address, 0x00ed);
    assert_eq!(target.user_data.get_ref(), &backing);
}

#[test]
fn read_borrowed_aliases_caller_memory() {
    let payload = [0x01, 0x23, 0x00, 0xed, 0x22, 0xf0, 0x12];
    let msg = DiagnosticMessage::read_borrowed(&payload).unwrap();
    assert_eq!(msg.source_address, 0x0123);
    assert_eq!(msg.target_address, 0x00ed);
    assert_eq!(msg.user_data.get_ref(), &payload[4..]);
    assert!(matches!(msg.user_data, UdsBuffer::Borrowed(_)));

    let payload = [0x01, 0x23, 0x00, 0xed, 0x00, 0xaa, 0xbb];
    let ack = DiagnosticMessagePositiveAck::read_borrowed(&payload).unwrap();
    assert_eq!(
        ack.ack_code,
        DiagnosticMessagePositiveAckCode::RoutingConfirmationAck
    );
    assert_eq!(ack.previous_diagnostic_message_data.get_ref(), &payload[5..]);

    let payload = [0x01, 0x23, 0x00, 0xed, 0x06, 0xaa];
    let nack = DiagnosticMessageNegativeAck::read_borrowed(&payload).unwrap();
    assert_eq!(
        nack.ack_code,
        DiagnosticMessageNegativeAckCode::TargetUnreachable
    );
    assert_eq!(
        nack.previous_diagnostic_message_data.get_ref(),
        &payload[5..]
    );

    let r = DiagnosticMessage::read_borrowed(&[0x01, 0x23, 0x00]);
    assert_eq!(
        r.unwrap_err(),
        DoIpError::PayloadLengthTooShort {
            value: 3,
            expected: 4
        }
    );
}

#[test]
fn diagnostic_message_with_empty_data_round_trips() {
    let msg = DiagnosticMessage {
        source_address: 0x0e00,
        target_address: 0x1713,
        user_data: UdsBuffer::Owned(vec![]),
    };
    let bytes = encode(&msg);
    assert_eq!(bytes.len(), DOIP_HEADER_LENGTH + 4);
    let mut reader = ByteReader::new(&bytes);
    let decoded: DiagnosticMessage = read_message(&mut reader).unwrap();
    assert_eq!(decoded, msg);
}

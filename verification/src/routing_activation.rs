use vstd::prelude::*;

use crate::bytes::{put_u16_be, put_bytes, be16_bytes, be16_of, lemma_be16_injective,
    lemma_be16_round_trip, ByteReader};
use crate::error::DoIpError;
use crate::payload::{Payload, PayloadType};
use crate::LogicalAddress;

verus! {

/// Activation type of a [`RoutingActivationRequest`].
///
/// The field is closed: a byte without a named meaning is a decode
/// failure, because the value drives protocol-level branching that has no
/// safe default.
#[derive(Debug, Clone, Copy, PartialEq, Eq, Structural)]
pub enum ActivationType {
    /// Standard diagnostics.
    Default,
    /// World-wide harmonised on-board diagnostics.
    WwhObd,
    /// Central security.
    CentralSecurity,
}

/// The wire byte of an activation type.
pub open spec fn spec_activation_type_byte(t: ActivationType) -> u8 {
    match t {
        ActivationType::Default => 0x00,
        ActivationType::WwhObd => 0x01,
        ActivationType::CentralSecurity => 0x02,
    }
}

/// Whether a wire byte names an activation type.
pub open spec fn spec_activation_type_known(b: u8) -> bool {
    b <= 0x02
}

/// The activation type denoted by a known wire byte.
pub open spec fn spec_activation_type_of(b: u8) -> ActivationType
    recommends
        spec_activation_type_known(b),
{
    if b == 0x00 {
        ActivationType::Default
    } else if b == 0x01 {
        ActivationType::WwhObd
    } else {
        ActivationType::CentralSecurity
    }
}

impl ActivationType {
    /// The wire byte of this activation type.
    pub fn into_u8(self) -> (r: u8)
        ensures
            r == spec_activation_type_byte(self),
    {
        match self {
            ActivationType::Default => 0x00,
            ActivationType::WwhObd => 0x01,
            ActivationType::CentralSecurity => 0x02,
        }
    }

    /// The activation type denoted by a wire byte; a byte without a named
    /// meaning is rejected.
    pub fn from_u8(b: u8) -> (r: Result<ActivationType, DoIpError>)
        ensures
            spec_activation_type_known(b) ==> r == Ok::<ActivationType, DoIpError>(
                spec_activation_type_of(b),
            ),
            !spec_activation_type_known(b) ==> r == Err::<ActivationType, DoIpError>(
                DoIpError::UnknownActivationType(b),
            ),
    {
        match b {
            0x00 => Ok(ActivationType::Default),
            0x01 => Ok(ActivationType::WwhObd),
            0x02 => Ok(ActivationType::CentralSecurity),
            _ => Err(DoIpError::UnknownActivationType(b)),
        }
    }
}

/// Response code of a [`RoutingActivationResponse`].
///
/// The field is closed: a byte without a named meaning is a decode
/// failure.
#[derive(Debug, Clone, Copy, PartialEq, Eq, Structural)]
pub enum RoutingActivationResponseCode {
    /// The tester's logical address is unknown to the entity.
    RoutingActivationDeniedUnknownSourceAddress,
    /// The entity has no TCP socket resources left.
    RoutingActivationDeniedAllTcpSocketsRegisteredAndActive,
    /// The tester's logical address is already activated.
    RoutingActivationDeniedSourceAddressAlreadyActivated,
    /// The tester's logical address is already registered.
    RoutingActivationDeniedSourceAddressAlreadyRegistred,
    /// Authentication was not provided.
    RoutingActivationDeniedMissingAuthentication,
    /// Routing was rejected.
    RoutingActivationDeniedRejectedConfirmation,
    /// The requested activation type is unsupported.
    RoutingActivationDeniedUnsupportedRoutingActivationType,
    /// An encrypted connection is required.
    RoutingActivationDeniedEncryptedConnectionViaTLSRequired,
    /// Routing is accepted.
    RoutingSuccessfullyActivated,
    /// Routing is activated, but confirmation is required.
    RoutingSuccessfullyActivatedConfirmationRequired,
}

/// The wire byte of a routing activation response code.
pub open spec fn spec_response_code_byte(c: RoutingActivationResponseCode) -> u8 {
    match c {
        RoutingActivationResponseCode::RoutingActivationDeniedUnknownSourceAddress => 0x00,
        RoutingActivationResponseCode::RoutingActivationDeniedAllTcpSocketsRegisteredAndActive => 0x01,
        RoutingActivationResponseCode::RoutingActivationDeniedSourceAddressAlreadyActivated => 0x02,
        RoutingActivationResponseCode::RoutingActivationDeniedSourceAddressAlreadyRegistred => 0x03,
        RoutingActivationResponseCode::RoutingActivationDeniedMissingAuthentication => 0x04,
        RoutingActivationResponseCode::RoutingActivationDeniedRejectedConfirmation => 0x05,
        RoutingActivationResponseCode::RoutingActivationDeniedUnsupportedRoutingActivationType => 0x06,
        RoutingActivationResponseCode::RoutingActivationDeniedEncryptedConnectionViaTLSRequired => 0x07,
        RoutingActivationResponseCode::RoutingSuccessfullyActivated => 0x10,
        RoutingActivationResponseCode::RoutingSuccessfullyActivatedConfirmationRequired => 0x11,
    }
}

/// Whether a wire byte names a routing activation response code.
pub open spec fn spec_response_code_known(b: u8) -> bool {
    b <= 0x07 || b == 0x10 || b == 0x11
}

/// The response code denoted by a known wire byte.
pub open spec fn spec_response_code_of(b: u8) -> RoutingActivationResponseCode
    recommends
        spec_response_code_known(b),
{
    if b == 0x00 {
        RoutingActivationResponseCode::RoutingActivationDeniedUnknownSourceAddress
    } else if b == 0x01 {
        RoutingActivationResponseCode::RoutingActivationDeniedAllTcpSocketsRegisteredAndActive
    } else if b == 0x02 {
        RoutingActivationResponseCode::RoutingActivationDeniedSourceAddressAlreadyActivated
    } else if b == 0x03 {
        RoutingActivationResponseCode::RoutingActivationDeniedSourceAddressAlreadyRegistred
    } else if b == 0x04 {
        RoutingActivationResponseCode::RoutingActivationDeniedMissingAuthentication
    } else if b == 0x05 {
        RoutingActivationResponseCode::RoutingActivationDeniedRejectedConfirmation
    } else if b == 0x06 {
        RoutingActivationResponseCode::RoutingActivationDeniedUnsupportedRoutingActivationType
    } else if b == 0x07 {
        RoutingActivationResponseCode::RoutingActivationDeniedEncryptedConnectionViaTLSRequired
    } else if b == 0x10 {
        RoutingActivationResponseCode::RoutingSuccessfullyActivated
    } else {
        RoutingActivationResponseCode::RoutingSuccessfullyActivatedConfirmationRequired
    }
}

impl RoutingActivationResponseCode {
    /// The wire byte of this response code.
    pub fn into_u8(self) -> (r: u8)
        ensures
            r == spec_response_code_byte(self),
    {
        match self {
            RoutingActivationResponseCode::RoutingActivationDeniedUnknownSourceAddress => 0x00,
            RoutingActivationResponseCode::RoutingActivationDeniedAllTcpSocketsRegisteredAndActive => 0x01,
            RoutingActivationResponseCode::RoutingActivationDeniedSourceAddressAlreadyActivated => 0x02,
            RoutingActivationResponseCode::RoutingActivationDeniedSourceAddressAlreadyRegistred => 0x03,
            RoutingActivationResponseCode::RoutingActivationDeniedMissingAuthentication => 0x04,
            RoutingActivationResponseCode::RoutingActivationDeniedRejectedConfirmation => 0x05,
            RoutingActivationResponseCode::RoutingActivationDeniedUnsupportedRoutingActivationType => 0x06,
            RoutingActivationResponseCode::RoutingActivationDeniedEncryptedConnectionViaTLSRequired => 0x07,
            RoutingActivationResponseCode::RoutingSuccessfullyActivated => 0x10,
            RoutingActivationResponseCode::RoutingSuccessfullyActivatedConfirmationRequired => 0x11,
        }
    }

    /// The response code denoted by a wire byte; a byte without a named
    /// meaning is rejected.
    pub fn from_u8(b: u8) -> (r: Result<RoutingActivationResponseCode, DoIpError>)
        ensures
            spec_response_code_known(b) ==> r == Ok::<RoutingActivationResponseCode, DoIpError>(
                spec_response_code_of(b),
            ),
            !spec_response_code_known(b) ==> r == Err::<RoutingActivationResponseCode, DoIpError>(
                DoIpError::UnknownRoutingActivationResponseCode(b),
            ),
    {
        match b {
            0x00 => Ok(RoutingActivationResponseCode::RoutingActivationDeniedUnknownSourceAddress),
            0x01 => Ok(
                RoutingActivationResponseCode::RoutingActivationDeniedAllTcpSocketsRegisteredAndActive,
            ),
            0x02 => Ok(
                RoutingActivationResponseCode::RoutingActivationDeniedSourceAddressAlreadyActivated,
            ),
            0x03 => Ok(
                RoutingActivationResponseCode::RoutingActivationDeniedSourceAddressAlreadyRegistred,
            ),
            0x04 => Ok(RoutingActivationResponseCode::RoutingActivationDeniedMissingAuthentication),
            0x05 => Ok(RoutingActivationResponseCode::RoutingActivationDeniedRejectedConfirmation),
            0x06 => Ok(
                RoutingActivationResponseCode::RoutingActivationDeniedUnsupportedRoutingActivationType,
            ),
            0x07 => Ok(
                RoutingActivationResponseCode::RoutingActivationDeniedEncryptedConnectionViaTLSRequired,
            ),
            0x10 => Ok(RoutingActivationResponseCode::RoutingSuccessfullyActivated),
            0x11 => Ok(
                RoutingActivationResponseCode::RoutingSuccessfullyActivatedConfirmationRequired,
            ),
            _ => Err(DoIpError::UnknownRoutingActivationResponseCode(b)),
        }
    }
}

/// Routing activation request message.
///
/// Usually the first message from an external tester to an entity; it
/// registers the tester's logical address for the following exchange.
/// The optional vendor extension is present exactly when the declared
/// payload length says so; there is no presence flag on the wire.
#[derive(Debug, Clone, PartialEq, Eq)]
pub struct RoutingActivationRequest {
    /// Address of the tester that requests routing activation.
    pub source_address: LogicalAddress,
    /// Activation type.
    pub activation_type: ActivationType,
    /// Reserved bytes.
    pub reserved: [u8; 4],
    /// Optional vendor extension.
    pub reserved_oem: Option<[u8; 4]>,
}

/// Abstract value of a [`RoutingActivationRequest`].
#[verifier::ext_equal]
pub ghost struct RoutingActivationRequestView {
    /// Address of the tester that requests routing activation.
    pub source_address: u16,
    /// Activation type.
    pub activation_type: ActivationType,
    /// Reserved bytes.
    pub reserved: Seq<u8>,
    /// Optional vendor extension.
    pub reserved_oem: Option<Seq<u8>>,
}

impl View for RoutingActivationRequest {
    type V = RoutingActivationRequestView;

    open spec fn view(&self) -> RoutingActivationRequestView {
        RoutingActivationRequestView {
            source_address: self.source_address,
            activation_type: self.activation_type,
            reserved: self.reserved@,
            reserved_oem: match self.reserved_oem {
                Some(e) => Some(e@),
                None => None,
            },
        }
    }
}

impl Payload for RoutingActivationRequest {
    open spec fn spec_payload_type() -> PayloadType {
        PayloadType::RoutingActivationRequest
    }

    open spec fn enc(m: RoutingActivationRequestView) -> Seq<u8> {
        be16_bytes(m.source_address) + seq![spec_activation_type_byte(m.activation_type)]
            + m.reserved + (match m.reserved_oem {
            Some(e) => e,
            None => Seq::empty(),
        })
    }

    open spec fn dec(bytes: Seq<u8>) -> Result<RoutingActivationRequestView, DoIpError> {
        if bytes.len() != 7 && bytes.len() != 11 {
            Err(DoIpError::PayloadLengthTooShort { value: bytes.len() as u32, expected: 7 })
        } else if !spec_activation_type_known(bytes[2]) {
            Err(DoIpError::UnknownActivationType(bytes[2]))
        } else {
            Ok(
                RoutingActivationRequestView {
                    source_address: be16_of(bytes.subrange(0, 2)),
                    activation_type: spec_activation_type_of(bytes[2]),
                    reserved: bytes.subrange(3, 7),
                    reserved_oem: if bytes.len() == 11 {
                        Some(bytes.subrange(7, 11))
                    } else {
                        None
                    },
                },
            )
        }
    }

    open spec fn accepts_len(n: nat) -> bool {
        n == 7 || n == 11
    }

    open spec fn spec_expected_len() -> u32 {
        7
    }

    open spec fn canonical(m: RoutingActivationRequestView) -> bool {
        &&& m.reserved.len() == 4
        &&& m.reserved_oem matches Some(e) ==> e.len() == 4
    }

    open spec fn replaceable(self) -> bool {
        true
    }

    proof fn lemma_round_trip(m: RoutingActivationRequestView) {
        let e = Self::enc(m);
        lemma_be16_round_trip(m.source_address);
        assert(e.subrange(0, 2) =~= be16_bytes(m.source_address));
        assert(e[2] == spec_activation_type_byte(m.activation_type));
        assert(e.subrange(3, 7) =~= m.reserved);
        match m.reserved_oem {
            Some(x) => {
                assert(e.len() == 11);
                assert(e.subrange(7, 11) =~= x);
            },
            None => {
                assert(e.len() == 7);
            },
        }
        assert(Self::dec(e)->Ok_0 =~= m);
    }

    proof fn lemma_length_mismatch(bytes: Seq<u8>) {
    }

    proof fn lemma_byte_corruption(m: RoutingActivationRequestView, i: int, x: u8) {
        let e = Self::enc(m);
        let b = e.update(i, x);
        lemma_be16_round_trip(m.source_address);
        assert(e.subrange(0, 2) =~= be16_bytes(m.source_address));
        assert(e.subrange(3, 7) =~= m.reserved);
        match Self::dec(b) {
            Ok(v) => {
                if i < 2 {
                    if be16_of(b.subrange(0, 2)) == be16_of(e.subrange(0, 2)) {
                        lemma_be16_injective(b.subrange(0, 2), e.subrange(0, 2));
                        assert(b.subrange(0, 2)[i] == e.subrange(0, 2)[i]);
                    }
                    assert(v.source_address != m.source_address);
                } else if i == 2 {
                    assert(v.activation_type != m.activation_type);
                } else if i < 7 {
                    assert(v.reserved[i - 3] == x && m.reserved[i - 3] == e[i]);
                } else {
                    assert(m.reserved_oem matches Some(o) && e.subrange(7, 11) =~= o);
                    assert(v.reserved_oem == Some(b.subrange(7, 11)));
                    assert(b.subrange(7, 11)[i - 7] == x && e.subrange(7, 11)[i - 7] == e[i]);
                }
            },
            Err(_) => {},
        }
    }

    fn payload_type() -> (t: PayloadType) {
        PayloadType::RoutingActivationRequest
    }

    fn length(&self) -> (n: usize) {
        match self.reserved_oem {
            Some(_) => 11,
            None => 7,
        }
    }

    fn read(reader: &mut ByteReader<'_>, payload_length: usize) -> (r: Result<Self, DoIpError>) {
        if payload_length != 7 && payload_length != 11 {
            return Err(DoIpError::PayloadLengthTooShort {
                value: payload_length as u32,
                expected: 7,
            });
        }
        let source_address = reader.read_u16_be();
        let activation_type = match ActivationType::from_u8(reader.read_u8()) {
            Ok(t) => t,
            Err(e) => {
                return Err(e);
            },
        };
        let reserved: [u8; 4] = reader.read_array();
        let reserved_oem: Option<[u8; 4]> = if payload_length == 11 {
            Some(reader.read_array())
        } else {
            None
        };
        let result = RoutingActivationRequest {
            source_address,
            activation_type,
            reserved,
            reserved_oem,
        };
        proof {
            let t = old(reader).taken(payload_length as int);
            let p = old(reader).position();
            assert(t.subrange(0, 2) =~= old(reader).bytes().subrange(p, p + 2));
            assert(t[2] == old(reader).bytes()[p + 2]);
            assert(t.subrange(3, 7) =~= old(reader).bytes().subrange(p + 3, p + 7));
            if payload_length == 11 {
                assert(t.subrange(7, 11) =~= old(reader).bytes().subrange(p + 7, p + 11));
            }
            assert(result@ =~= Self::dec(t)->Ok_0);
        }
        Ok(result)
    }

    fn read_replace(&mut self, reader: &mut ByteReader<'_>, payload_length: usize) -> (r: Result<
        (),
        DoIpError,
    >) {
        if payload_length != 7 && payload_length != 11 {
            return Err(DoIpError::PayloadLengthTooShort {
                value: payload_length as u32,
                expected: 7,
            });
        }
        self.source_address = reader.read_u16_be();
        self.activation_type = match ActivationType::from_u8(reader.read_u8()) {
            Ok(t) => t,
            Err(e) => {
                return Err(e);
            },
        };
        self.reserved = reader.read_array();
        self.reserved_oem = if payload_length == 11 {
            Some(reader.read_array())
        } else {
            None
        };
        proof {
            let t = old(reader).taken(payload_length as int);
            let p = old(reader).position();
            assert(t.subrange(0, 2) =~= old(reader).bytes().subrange(p, p + 2));
            assert(t[2] == old(reader).bytes()[p + 2]);
            assert(t.subrange(3, 7) =~= old(reader).bytes().subrange(p + 3, p + 7));
            if payload_length == 11 {
                assert(t.subrange(7, 11) =~= old(reader).bytes().subrange(p + 7, p + 11));
            }
            assert(self@ =~= Self::dec(t)->Ok_0);
        }
        Ok(())
    }

    fn write(&self, sink: &mut Vec<u8>) -> (r: Result<(), DoIpError>) {
        put_u16_be(sink, self.source_address);
        sink.push(self.activation_type.into_u8());
        put_bytes(sink, self.reserved.as_slice());
        if let Some(reserved_oem) = &self.reserved_oem {
            put_bytes(sink, reserved_oem.as_slice());
        }
        proof {
            assert(sink@ =~= old(sink)@ + Self::enc(self@));
        }
        Ok(())
    }
}

/// Routing activation response message.
///
/// The reply to a [`RoutingActivationRequest`].  The optional vendor
/// extension is present exactly when the declared payload length says so.
#[derive(Debug, Clone, PartialEq, Eq)]
pub struct RoutingActivationResponse {
    /// Address of the external tester.
    pub logical_address_tester: LogicalAddress,
    /// Address of the responding entity.
    pub logical_address_of_doip_entity: u16,
    /// Routing activation status information.
    pub routing_activation_response_code: RoutingActivationResponseCode,
    /// Reserved bytes.
    pub reserved_oem: [u8; 4],
    /// Optional vendor extension.
    pub oem_specific: Option<[u8; 4]>,
}

/// Abstract value of a [`RoutingActivationResponse`].
#[verifier::ext_equal]
pub ghost struct RoutingActivationResponseView {
    /// Address of the external tester.
    pub logical_address_tester: u16,
    /// Address of the responding entity.
    pub logical_address_of_doip_entity: u16,
    /// Routing activation status information.
    pub routing_activation_response_code: RoutingActivationResponseCode,
    /// Reserved bytes.
    pub reserved_oem: Seq<u8>,
    /// Optional vendor extension.
    pub oem_specific: Option<Seq<u8>>,
}

impl View for RoutingActivationResponse {
    type V = RoutingActivationResponseView;

    open spec fn view(&self) -> RoutingActivationResponseView {
        RoutingActivationResponseView {
            logical_address_tester: self.logical_address_tester,
            logical_address_of_doip_entity: self.logical_address_of_doip_entity,
            routing_activation_response_code: self.routing_activation_response_code,
            reserved_oem: self.reserved_oem@,
            oem_specific: match self.oem_specific {
                Some(e) => Some(e@),
                None => None,
            },
        }
    }
}

impl Payload for RoutingActivationResponse {
    open spec fn spec_payload_type() -> PayloadType {
        PayloadType::RoutingActivationResponse
    }

    open spec fn enc(m: RoutingActivationResponseView) -> Seq<u8> {
        be16_bytes(m.logical_address_tester) + be16_bytes(m.logical_address_of_doip_entity)
            + seq![spec_response_code_byte(m.routing_activation_response_code)] + m.reserved_oem + (
        match m.oem_specific {
            Some(e) => e,
            None => Seq::empty(),
        })
    }

    open spec fn dec(bytes: Seq<u8>) -> Result<RoutingActivationResponseView, DoIpError> {
        if bytes.len() != 9 && bytes.len() != 13 {
            Err(DoIpError::PayloadLengthTooShort { value: bytes.len() as u32, expected: 9 })
        } else if !spec_response_code_known(bytes[4]) {
            Err(DoIpError::UnknownRoutingActivationResponseCode(bytes[4]))
        } else {
            Ok(
                RoutingActivationResponseView {
                    logical_address_tester: be16_of(bytes.subrange(0, 2)),
                    logical_address_of_doip_entity: be16_of(bytes.subrange(2, 4)),
                    routing_activation_response_code: spec_response_code_of(bytes[4]),
                    reserved_oem: bytes.subrange(5, 9),
                    oem_specific: if bytes.len() == 13 {
                        Some(bytes.subrange(9, 13))
                    } else {
                        None
                    },
                },
            )
        }
    }

    open spec fn accepts_len(n: nat) -> bool {
        n == 9 || n == 13
    }

    open spec fn spec_expected_len() -> u32 {
        9
    }

    open spec fn canonical(m: RoutingActivationResponseView) -> bool {
        &&& m.reserved_oem.len() == 4
        &&& m.oem_specific matches Some(e) ==> e.len() == 4
    }

    open spec fn replaceable(self) -> bool {
        true
    }

    proof fn lemma_round_trip(m: RoutingActivationResponseView) {
        let e = Self::enc(m);
        lemma_be16_round_trip(m.logical_address_tester);
        lemma_be16_round_trip(m.logical_address_of_doip_entity);
        assert(e.subrange(0, 2) =~= be16_bytes(m.logical_address_tester));
        assert(e.subrange(2, 4) =~= be16_bytes(m.logical_address_of_doip_entity));
        assert(e[4] == spec_response_code_byte(m.routing_activation_response_code));
        assert(e.subrange(5, 9) =~= m.reserved_oem);
        match m.oem_specific {
            Some(x) => {
                assert(e.len() == 13);
                assert(e.subrange(9, 13) =~= x);
            },
            None => {
                assert(e.len() == 9);
            },
        }
        assert(Self::dec(e)->Ok_0 =~= m);
    }

    proof fn lemma_length_mismatch(bytes: Seq<u8>) {
    }

    proof fn lemma_byte_corruption(m: RoutingActivationResponseView, i: int, x: u8) {
        let e = Self::enc(m);
        let b = e.update(i, x);
        lemma_be16_round_trip(m.logical_address_tester);
        lemma_be16_round_trip(m.logical_address_of_doip_entity);
        assert(e.subrange(0, 2) =~= be16_bytes(m.logical_address_tester));
        assert(e.subrange(2, 4) =~= be16_bytes(m.logical_address_of_doip_entity));
        assert(e.subrange(5, 9) =~= m.reserved_oem);
        match Self::dec(b) {
            Ok(v) => {
                if i < 2 {
                    if be16_of(b.subrange(0, 2)) == be16_of(e.subrange(0, 2)) {
                        lemma_be16_injective(b.subrange(0, 2), e.subrange(0, 2));
                        assert(b.subrange(0, 2)[i] == e.subrange(0, 2)[i]);
                    }
                    assert(v.logical_address_tester != m.logical_address_tester);
                } else if i < 4 {
                    if be16_of(b.subrange(2, 4)) == be16_of(e.subrange(2, 4)) {
                        lemma_be16_injective(b.subrange(2, 4), e.subrange(2, 4));
                        assert(b.subrange(2, 4)[i - 2] == e.subrange(2, 4)[i - 2]);
                    }
                    assert(v.logical_address_of_doip_entity != m.logical_address_of_doip_entity);
                } else if i == 4 {
                    assert(v.routing_activation_response_code
                        != m.routing_activation_response_code);
                } else if i < 9 {
                    assert(v.reserved_oem[i - 5] == x && m.reserved_oem[i - 5] == e[i]);
                } else {
                    assert(m.oem_specific matches Some(o) && e.subrange(9, 13) =~= o);
                    assert(v.oem_specific == Some(b.subrange(9, 13)));
                    assert(b.subrange(9, 13)[i - 9] == x && e.subrange(9, 13)[i - 9] == e[i]);
                }
            },
            Err(_) => {},
        }
    }

    fn payload_type() -> (t: PayloadType) {
        PayloadType::RoutingActivationResponse
    }

    fn length(&self) -> (n: usize) {
        match self.oem_specific {
            Some(_) => 13,
            None => 9,
        }
    }

    fn read(reader: &mut ByteReader<'_>, payload_length: usize) -> (r: Result<Self, DoIpError>) {
        if payload_length != 9 && payload_length != 13 {
            return Err(DoIpError::PayloadLengthTooShort {
                value: payload_length as u32,
                expected: 9,
            });
        }
        let logical_address_tester = reader.read_u16_be();
        let logical_address_of_doip_entity = reader.read_u16_be();
        let routing_activation_response_code = match RoutingActivationResponseCode::from_u8(
            reader.read_u8(),
        ) {
            Ok(c) => c,
            Err(e) => {
                return Err(e);
            },
        };
        let reserved_oem: [u8; 4] = reader.read_array();
        let oem_specific: Option<[u8; 4]> = if payload_length == 13 {
            Some(reader.read_array())
        } else {
            None
        };
        let result = RoutingActivationResponse {
            logical_address_tester,
            logical_address_of_doip_entity,
            routing_activation_response_code,
            reserved_oem,
            oem_specific,
        };
        proof {
            let t = old(reader).taken(payload_length as int);
            let p = old(reader).position();
            assert(t.subrange(0, 2) =~= old(reader).bytes().subrange(p, p + 2));
            assert(t.subrange(2, 4) =~= old(reader).bytes().subrange(p + 2, p + 4));
            assert(t[4] == old(reader).bytes()[p + 4]);
            assert(t.subrange(5, 9) =~= old(reader).bytes().subrange(p + 5, p + 9));
            if payload_length == 13 {
                assert(t.subrange(9, 13) =~= old(reader).bytes().subrange(p + 9, p + 13));
            }
            assert(result@ =~= Self::dec(t)->Ok_0);
        }
        Ok(result)
    }

    fn read_replace(&mut self, reader: &mut ByteReader<'_>, payload_length: usize) -> (r: Result<
        (),
        DoIpError,
    >) {
        if payload_length != 9 && payload_length != 13 {
            return Err(DoIpError::PayloadLengthTooShort {
                value: payload_length as u32,
                expected: 9,
            });
        }
        self.logical_address_tester = reader.read_u16_be();
        self.logical_address_of_doip_entity = reader.read_u16_be();
        self.routing_activation_response_code = match RoutingActivationResponseCode::from_u8(
            reader.read_u8(),
        ) {
            Ok(c) => c,
            Err(e) => {
                return Err(e);
            },
        };
        self.reserved_oem = reader.read_array();
        self.oem_specific = if payload_length == 13 {
            Some(reader.read_array())
        } else {
            None
        };
        proof {
            let t = old(reader).taken(payload_length as int);
            let p = old(reader).position();
            assert(t.subrange(0, 2) =~= old(reader).bytes().subrange(p, p + 2));
            assert(t.subrange(2, 4) =~= old(reader).bytes().subrange(p + 2, p + 4));
            assert(t[4] == old(reader).bytes()[p + 4]);
            assert(t.subrange(5, 9) =~= old(reader).bytes().subrange(p + 5, p + 9));
            if payload_length == 13 {
                assert(t.subrange(9, 13) =~= old(reader).bytes().subrange(p + 9, p + 13));
            }
            assert(self@ =~= Self::dec(t)->Ok_0);
        }
        Ok(())
    }

    fn write(&self, sink: &mut Vec<u8>) -> (r: Result<(), DoIpError>) {
        put_u16_be(sink, self.logical_address_tester);
        put_u16_be(sink, self.logical_address_of_doip_entity);
        sink.push(self.routing_activation_response_code.into_u8());
        put_bytes(sink, self.reserved_oem.as_slice());
        if let Some(oem_specific) = &self.oem_specific {
            put_bytes(sink, oem_specific.as_slice());
        }
        proof {
            assert(sink@ =~= old(sink)@ + Self::enc(self@));
        }
        Ok(())
    }
}

} // verus!

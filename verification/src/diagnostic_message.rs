use vstd::prelude::*;

use crate::bytes::{put_u16_be, put_bytes, be16_bytes, be16_of, lemma_be16_injective,
    lemma_be16_round_trip, ByteReader};
use crate::error::DoIpError;
use crate::payload::{BorrowedPayload, Payload, PayloadType};
use crate::LogicalAddress;

verus! {

/// Buffer holding the opaque diagnostic data of a message.
///
/// The buffer has two mutually exclusive ownership strategies, chosen per
/// value and never switched after construction: an owned vector, which the
/// codec may grow and shrink, and a borrowed slice of caller-owned memory,
/// which the codec never mutates or resizes.  In-place decoding therefore
/// works only on the owned variant.
#[derive(Debug, Clone, PartialEq)]
pub enum UdsBuffer<'a> {
    /// Owned variant: the value holds its own backing storage.
    Owned(Vec<u8>),
    /// Borrowed variant: the value aliases caller-owned memory.
    Borrowed(&'a [u8]),
}

impl<'a> View for UdsBuffer<'a> {
    type V = Seq<u8>;

    open spec fn view(&self) -> Seq<u8> {
        match self {
            UdsBuffer::Owned(v) => v@,
            UdsBuffer::Borrowed(b) => b@,
        }
    }
}

impl<'a> UdsBuffer<'a> {
    /// Whether this buffer owns its backing storage.
    pub open spec fn is_owned(self) -> bool {
        self is Owned
    }

    /// The slice holding the opaque data.
    pub fn get_ref(&self) -> (r: &[u8])
        ensures
            r@ == self@,
    {
        match self {
            UdsBuffer::Owned(v) => v.as_slice(),
            UdsBuffer::Borrowed(b) => b,
        }
    }
}

/// Positive acknowledgement code of a
/// [`DiagnosticMessagePositiveAck`].
///
/// The field is open: a byte without a named meaning decodes into
/// [`DiagnosticMessagePositiveAckCode::Reserved`] carrying the raw byte;
/// re-encoding a reserved value emits the fixed sentinel byte `0xFF`.
#[derive(Debug, Clone, Copy, PartialEq, Eq, Structural)]
pub enum DiagnosticMessagePositiveAckCode {
    /// Positive acknowledgement of reception.
    RoutingConfirmationAck,
    /// Byte without a named meaning; kept as received.
    Reserved(u8),
}

/// The wire byte of a positive acknowledgement code.
pub open spec fn spec_pos_ack_byte(c: DiagnosticMessagePositiveAckCode) -> u8 {
    match c {
        DiagnosticMessagePositiveAckCode::RoutingConfirmationAck => 0x00,
        DiagnosticMessagePositiveAckCode::Reserved(_) => 0xFF,
    }
}

/// The positive acknowledgement code denoted by a wire byte.  Total.
pub open spec fn spec_pos_ack_of(b: u8) -> DiagnosticMessagePositiveAckCode {
    if b == 0x00 {
        DiagnosticMessagePositiveAckCode::RoutingConfirmationAck
    } else {
        DiagnosticMessagePositiveAckCode::Reserved(b)
    }
}

/// Codes whose encoding decodes back to themselves.
pub open spec fn spec_pos_ack_canonical(c: DiagnosticMessagePositiveAckCode) -> bool {
    c matches DiagnosticMessagePositiveAckCode::Reserved(value) ==> value == 0xFF
}

impl DiagnosticMessagePositiveAckCode {
    /// The wire byte of this code.
    pub fn into_u8(self) -> (r: u8)
        ensures
            r == spec_pos_ack_byte(self),
    {
        match self {
            DiagnosticMessagePositiveAckCode::RoutingConfirmationAck => 0x00,
            DiagnosticMessagePositiveAckCode::Reserved(_) => 0xFF,
        }
    }

    /// The code denoted by a wire byte.
    pub fn from_u8(b: u8) -> (r: DiagnosticMessagePositiveAckCode)
        ensures
            r == spec_pos_ack_of(b),
    {
        match b {
            0x00 => DiagnosticMessagePositiveAckCode::RoutingConfirmationAck,
            _ => DiagnosticMessagePositiveAckCode::Reserved(b),
        }
    }
}

/// Negative acknowledgement code of a
/// [`DiagnosticMessageNegativeAck`].
///
/// The field is open: a byte without a named meaning decodes into
/// [`DiagnosticMessageNegativeAckCode::Reserved`] carrying the raw byte,
/// and re-encoding a reserved value emits that byte unchanged.
#[derive(Debug, Clone, Copy, PartialEq, Eq, Structural)]
pub enum DiagnosticMessageNegativeAckCode {
    /// The source address of the acknowledged message is invalid.
    InvalidSourceAddress,
    /// The target address of the acknowledged message is unknown.
    UnknownTargetAddress,
    /// The message exceeds the maximum supported size of the transport.
    DiagnosticMessageTooLarge,
    /// Out of memory.
    OutOfMemory,
    /// The target entity is not reachable.
    TargetUnreachable,
    /// Unknown network.
    UnknownNetwork,
    /// Transport protocol error.
    TransportProtocolError,
    /// Byte without a named meaning; kept as received.
    Reserved(u8),
}

/// The wire byte of a negative acknowledgement code.
pub open spec fn spec_neg_ack_byte(c: DiagnosticMessageNegativeAckCode) -> u8 {
    match c {
        DiagnosticMessageNegativeAckCode::InvalidSourceAddress => 0x02,
        DiagnosticMessageNegativeAckCode::UnknownTargetAddress => 0x03,
        DiagnosticMessageNegativeAckCode::DiagnosticMessageTooLarge => 0x04,
        DiagnosticMessageNegativeAckCode::OutOfMemory => 0x05,
        DiagnosticMessageNegativeAckCode::TargetUnreachable => 0x06,
        DiagnosticMessageNegativeAckCode::UnknownNetwork => 0x07,
        DiagnosticMessageNegativeAckCode::TransportProtocolError => 0x08,
        DiagnosticMessageNegativeAckCode::Reserved(value) => value,
    }
}

/// The negative acknowledgement code denoted by a wire byte.  Total.
pub open spec fn spec_neg_ack_of(b: u8) -> DiagnosticMessageNegativeAckCode {
    if b == 0x02 {
        DiagnosticMessageNegativeAckCode::InvalidSourceAddress
    } else if b == 0x03 {
        DiagnosticMessageNegativeAckCode::UnknownTargetAddress
    } else if b == 0x04 {
        DiagnosticMessageNegativeAckCode::DiagnosticMessageTooLarge
    } else if b == 0x05 {
        DiagnosticMessageNegativeAckCode::OutOfMemory
    } else if b == 0x06 {
        DiagnosticMessageNegativeAckCode::TargetUnreachable
    } else if b == 0x07 {
        DiagnosticMessageNegativeAckCode::UnknownNetwork
    } else if b == 0x08 {
        DiagnosticMessageNegativeAckCode::TransportProtocolError
    } else {
        DiagnosticMessageNegativeAckCode::Reserved(b)
    }
}

/// Codes as decoding produces them: the reserved variant only carries a
/// byte without a named meaning.
pub open spec fn spec_neg_ack_canonical(c: DiagnosticMessageNegativeAckCode) -> bool {
    c matches DiagnosticMessageNegativeAckCode::Reserved(value) ==> !(0x02 <= value <= 0x08)
}

impl DiagnosticMessageNegativeAckCode {
    /// The wire byte of this code.
    pub fn into_u8(self) -> (r: u8)
        ensures
            r == spec_neg_ack_byte(self),
    {
        match self {
            DiagnosticMessageNegativeAckCode::InvalidSourceAddress => 0x02,
            DiagnosticMessageNegativeAckCode::UnknownTargetAddress => 0x03,
            DiagnosticMessageNegativeAckCode::DiagnosticMessageTooLarge => 0x04,
            DiagnosticMessageNegativeAckCode::OutOfMemory => 0x05,
            DiagnosticMessageNegativeAckCode::TargetUnreachable => 0x06,
            DiagnosticMessageNegativeAckCode::UnknownNetwork => 0x07,
            DiagnosticMessageNegativeAckCode::TransportProtocolError => 0x08,
            DiagnosticMessageNegativeAckCode::Reserved(value) => value,
        }
    }

    /// The code denoted by a wire byte.
    pub fn from_u8(b: u8) -> (r: DiagnosticMessageNegativeAckCode)
        ensures
            r == spec_neg_ack_of(b),
    {
        match b {
            0x02 => DiagnosticMessageNegativeAckCode::InvalidSourceAddress,
            0x03 => DiagnosticMessageNegativeAckCode::UnknownTargetAddress,
            0x04 => DiagnosticMessageNegativeAckCode::DiagnosticMessageTooLarge,
            0x05 => DiagnosticMessageNegativeAckCode::OutOfMemory,
            0x06 => DiagnosticMessageNegativeAckCode::TargetUnreachable,
            0x07 => DiagnosticMessageNegativeAckCode::UnknownNetwork,
            0x08 => DiagnosticMessageNegativeAckCode::TransportProtocolError,
            _ => DiagnosticMessageNegativeAckCode::Reserved(b),
        }
    }
}

/// Diagnostic message.
///
/// The main purpose of the protocol: it conveys an opaque diagnostic
/// request or response between the external tester and an entity.  It is
/// the only message kind that can be large, so its opaque data sits in a
/// [`UdsBuffer`] that either owns its bytes or borrows them from the
/// caller.
#[derive(Debug, Clone, PartialEq)]
pub struct DiagnosticMessage<'a> {
    /// Logical address of the sender.
    pub source_address: LogicalAddress,
    /// Logical address of the target of the message.
    pub target_address: LogicalAddress,
    /// Buffer carrying the opaque diagnostic data.
    pub user_data: UdsBuffer<'a>,
}

/// Abstract value of a [`DiagnosticMessage`].
#[verifier::ext_equal]
pub ghost struct DiagnosticMessageView {
    /// Logical address of the sender.
    pub source_address: u16,
    /// Logical address of the target of the message.
    pub target_address: u16,
    /// Opaque diagnostic data.
    pub user_data: Seq<u8>,
}

impl<'a> View for DiagnosticMessage<'a> {
    type V = DiagnosticMessageView;

    open spec fn view(&self) -> DiagnosticMessageView {
        DiagnosticMessageView {
            source_address: self.source_address,
            target_address: self.target_address,
            user_data: self.user_data@,
        }
    }
}

impl<'a> Payload for DiagnosticMessage<'a> {
    open spec fn spec_payload_type() -> PayloadType {
        PayloadType::DiagnosticMessage
    }

    open spec fn enc(m: DiagnosticMessageView) -> Seq<u8> {
        be16_bytes(m.source_address) + be16_bytes(m.target_address) + m.user_data
    }

    open spec fn dec(bytes: Seq<u8>) -> Result<DiagnosticMessageView, DoIpError> {
        if bytes.len() < 4 {
            Err(DoIpError::PayloadLengthTooShort { value: bytes.len() as u32, expected: 4 })
        } else {
            Ok(
                DiagnosticMessageView {
                    source_address: be16_of(bytes.subrange(0, 2)),
                    target_address: be16_of(bytes.subrange(2, 4)),
                    user_data: bytes.subrange(4, bytes.len() as int),
                },
            )
        }
    }

    open spec fn accepts_len(n: nat) -> bool {
        n >= 4
    }

    open spec fn spec_expected_len() -> u32 {
        4
    }

    open spec fn canonical(m: DiagnosticMessageView) -> bool {
        true
    }

    open spec fn replaceable(self) -> bool {
        self.user_data.is_owned()
    }

    proof fn lemma_round_trip(m: DiagnosticMessageView) {
        let e = Self::enc(m);
        lemma_be16_round_trip(m.source_address);
        lemma_be16_round_trip(m.target_address);
        assert(e.subrange(0, 2) =~= be16_bytes(m.source_address));
        assert(e.subrange(2, 4) =~= be16_bytes(m.target_address));
        assert(e.subrange(4, e.len() as int) =~= m.user_data);
        assert(Self::dec(e)->Ok_0 =~= m);
    }

    proof fn lemma_length_mismatch(bytes: Seq<u8>) {
    }

    proof fn lemma_byte_corruption(m: DiagnosticMessageView, i: int, x: u8) {
        let e = Self::enc(m);
        let b = e.update(i, x);
        lemma_be16_round_trip(m.source_address);
        lemma_be16_round_trip(m.target_address);
        assert(e.subrange(0, 2) =~= be16_bytes(m.source_address));
        assert(e.subrange(2, 4) =~= be16_bytes(m.target_address));
        match Self::dec(b) {
            Ok(v) => {
                if i < 2 {
                    if be16_of(b.subrange(0, 2)) == be16_of(e.subrange(0, 2)) {
                        lemma_be16_injective(b.subrange(0, 2), e.subrange(0, 2));
                        assert(b.subrange(0, 2)[i] == e.subrange(0, 2)[i]);
                    }
                    assert(v.source_address != m.source_address);
                } else if i < 4 {
                    if be16_of(b.subrange(2, 4)) == be16_of(e.subrange(2, 4)) {
                        lemma_be16_injective(b.subrange(2, 4), e.subrange(2, 4));
                        assert(b.subrange(2, 4)[i - 2] == e.subrange(2, 4)[i - 2]);
                    }
                    assert(v.target_address != m.target_address);
                } else {
                    assert(v.user_data[i - 4] == x);
                    assert(m.user_data[i - 4] == e[i]);
                }
            },
            Err(_) => {},
        }
    }

    fn payload_type() -> (t: PayloadType) {
        PayloadType::DiagnosticMessage
    }

    fn length(&self) -> (n: usize) {
        4 + self.user_data.get_ref().len()
    }

    fn read(reader: &mut ByteReader<'_>, payload_length: usize) -> (r: Result<Self, DoIpError>) {
        if payload_length < 4 {
            return Err(DoIpError::PayloadLengthTooShort {
                value: payload_length as u32,
                expected: 4,
            });
        }
        let source_address = reader.read_u16_be();
        let target_address = reader.read_u16_be();
        let data = reader.read_vec(payload_length - 4);
        let result = DiagnosticMessage {
            source_address,
            target_address,
            user_data: UdsBuffer::Owned(data),
        };
        proof {
            let t = old(reader).taken(payload_length as int);
            let p = old(reader).position();
            assert(t.subrange(0, 2) =~= old(reader).bytes().subrange(p, p + 2));
            assert(t.subrange(2, 4) =~= old(reader).bytes().subrange(p + 2, p + 4));
            assert(t.subrange(4, t.len() as int) =~= old(reader).bytes().subrange(
                p + 4,
                p + payload_length,
            ));
            assert(result@ =~= Self::dec(t)->Ok_0);
        }
        Ok(result)
    }

    fn read_replace(&mut self, reader: &mut ByteReader<'_>, payload_length: usize) -> (r: Result<
        (),
        DoIpError,
    >) {
        if payload_length < 4 {
            return Err(DoIpError::PayloadLengthTooShort {
                value: payload_length as u32,
                expected: 4,
            });
        }
        self.source_address = reader.read_u16_be();
        self.target_address = reader.read_u16_be();
        let owned = match &self.user_data {
            UdsBuffer::Owned(_) => true,
            UdsBuffer::Borrowed(_) => false,
        };
        if !owned {
            return Err(DoIpError::BufferTooSmall);
        }
        if let UdsBuffer::Owned(buf) = &mut self.user_data {
            reader.read_replace_vec(buf, payload_length - 4);
        }
        proof {
            let t = old(reader).taken(payload_length as int);
            let p = old(reader).position();
            assert(t.subrange(0, 2) =~= old(reader).bytes().subrange(p, p + 2));
            assert(t.subrange(2, 4) =~= old(reader).bytes().subrange(p + 2, p + 4));
            assert(t.subrange(4, t.len() as int) =~= old(reader).bytes().subrange(
                p + 4,
                p + payload_length,
            ));
            assert(self@ =~= Self::dec(t)->Ok_0);
        }
        Ok(())
    }

    fn write(&self, sink: &mut Vec<u8>) -> (r: Result<(), DoIpError>) {
        put_u16_be(sink, self.source_address);
        put_u16_be(sink, self.target_address);
        put_bytes(sink, self.user_data.get_ref());
        proof {
            assert(sink@ =~= old(sink)@ + Self::enc(self@));
        }
        Ok(())
    }
}

impl<'a> BorrowedPayload<'a> for DiagnosticMessage<'a> {
    fn read_borrowed(payload: &'a [u8]) -> (r: Result<Self, DoIpError>) {
        let len = payload.len();
        if len < 4 {
            return Err(DoIpError::PayloadLengthTooShort { value: len as u32, expected: 4 });
        }
        let mut reader = ByteReader::new(payload);
        let source_address = reader.read_u16_be();
        let target_address = reader.read_u16_be();
        let rest = reader.rest();
        let result = DiagnosticMessage {
            source_address,
            target_address,
            user_data: UdsBuffer::Borrowed(rest),
        };
        proof {
            assert(payload@.subrange(0, 2) =~= payload@.subrange(0, 2));
            assert(result@ =~= Self::dec(payload@)->Ok_0);
        }
        Ok(result)
    }
}

/// Diagnostic message positive acknowledgement.
///
/// Sent by an entity to the external tester to confirm that the previous
/// [`DiagnosticMessage`] was received and parsed; it may echo part of that
/// message.
#[derive(Debug, PartialEq)]
pub struct DiagnosticMessagePositiveAck<'a> {
    /// Logical address of the sender.
    pub source_address: LogicalAddress,
    /// Logical address of the target of the message.
    pub target_address: LogicalAddress,
    /// Acknowledgement code.
    pub ack_code: DiagnosticMessagePositiveAckCode,
    /// Echo of the acknowledged message; may be empty.
    pub previous_diagnostic_message_data: UdsBuffer<'a>,
}

/// Abstract value of a [`DiagnosticMessagePositiveAck`].
#[verifier::ext_equal]
pub ghost struct DiagnosticMessagePositiveAckView {
    /// Logical address of the sender.
    pub source_address: u16,
    /// Logical address of the target of the message.
    pub target_address: u16,
    /// Acknowledgement code.
    pub ack_code: DiagnosticMessagePositiveAckCode,
    /// Echo of the acknowledged message.
    pub previous_diagnostic_message_data: Seq<u8>,
}

impl<'a> View for DiagnosticMessagePositiveAck<'a> {
    type V = DiagnosticMessagePositiveAckView;

    open spec fn view(&self) -> DiagnosticMessagePositiveAckView {
        DiagnosticMessagePositiveAckView {
            source_address: self.source_address,
            target_address: self.target_address,
            ack_code: self.ack_code,
            previous_diagnostic_message_data: self.previous_diagnostic_message_data@,
        }
    }
}

impl<'a> Payload for DiagnosticMessagePositiveAck<'a> {
    open spec fn spec_payload_type() -> PayloadType {
        PayloadType::DiagnosticMessagePositiveAcknowledgement
    }

    open spec fn enc(m: DiagnosticMessagePositiveAckView) -> Seq<u8> {
        be16_bytes(m.source_address) + be16_bytes(m.target_address) + seq![
            spec_pos_ack_byte(m.ack_code),
        ] + m.previous_diagnostic_message_data
    }

    open spec fn dec(bytes: Seq<u8>) -> Result<DiagnosticMessagePositiveAckView, DoIpError> {
        if bytes.len() < 5 {
            Err(DoIpError::PayloadLengthTooShort { value: bytes.len() as u32, expected: 5 })
        } else {
            Ok(
                DiagnosticMessagePositiveAckView {
                    source_address: be16_of(bytes.subrange(0, 2)),
                    target_address: be16_of(bytes.subrange(2, 4)),
                    ack_code: spec_pos_ack_of(bytes[4]),
                    previous_diagnostic_message_data: bytes.subrange(5, bytes.len() as int),
                },
            )
        }
    }

    open spec fn accepts_len(n: nat) -> bool {
        n >= 5
    }

    open spec fn spec_expected_len() -> u32 {
        5
    }

    open spec fn canonical(m: DiagnosticMessagePositiveAckView) -> bool {
        spec_pos_ack_canonical(m.ack_code)
    }

    open spec fn replaceable(self) -> bool {
        self.previous_diagnostic_message_data.is_owned()
    }

    proof fn lemma_round_trip(m: DiagnosticMessagePositiveAckView) {
        let e = Self::enc(m);
        lemma_be16_round_trip(m.source_address);
        lemma_be16_round_trip(m.target_address);
        assert(e.subrange(0, 2) =~= be16_bytes(m.source_address));
        assert(e.subrange(2, 4) =~= be16_bytes(m.target_address));
        assert(e[4] == spec_pos_ack_byte(m.ack_code));
        assert(e.subrange(5, e.len() as int) =~= m.previous_diagnostic_message_data);
        assert(Self::dec(e)->Ok_0 =~= m);
    }

    proof fn lemma_length_mismatch(bytes: Seq<u8>) {
    }

    proof fn lemma_byte_corruption(m: DiagnosticMessagePositiveAckView, i: int, x: u8) {
        let e = Self::enc(m);
        let b = e.update(i, x);
        lemma_be16_round_trip(m.source_address);
        lemma_be16_round_trip(m.target_address);
        assert(e.subrange(0, 2) =~= be16_bytes(m.source_address));
        assert(e.subrange(2, 4) =~= be16_bytes(m.target_address));
        match Self::dec(b) {
            Ok(v) => {
                if i < 2 {
                    if be16_of(b.subrange(0, 2)) == be16_of(e.subrange(0, 2)) {
                        lemma_be16_injective(b.subrange(0, 2), e.subrange(0, 2));
                        assert(b.subrange(0, 2)[i] == e.subrange(0, 2)[i]);
                    }
                    assert(v.source_address != m.source_address);
                } else if i < 4 {
                    if be16_of(b.subrange(2, 4)) == be16_of(e.subrange(2, 4)) {
                        lemma_be16_injective(b.subrange(2, 4), e.subrange(2, 4));
                        assert(b.subrange(2, 4)[i - 2] == e.subrange(2, 4)[i - 2]);
                    }
                    assert(v.target_address != m.target_address);
                } else if i == 4 {
                    assert(v.ack_code != m.ack_code);
                } else {
                    assert(v.previous_diagnostic_message_data[i - 5] == x);
                    assert(m.previous_diagnostic_message_data[i - 5] == e[i]);
                }
            },
            Err(_) => {},
        }
    }

    fn payload_type() -> (t: PayloadType) {
        PayloadType::DiagnosticMessagePositiveAcknowledgement
    }

    fn length(&self) -> (n: usize) {
        5 + self.previous_diagnostic_message_data.get_ref().len()
    }

    fn read(reader: &mut ByteReader<'_>, payload_length: usize) -> (r: Result<Self, DoIpError>) {
        if payload_length < 5 {
            return Err(DoIpError::PayloadLengthTooShort {
                value: payload_length as u32,
                expected: 5,
            });
        }
        let source_address = reader.read_u16_be();
        let target_address = reader.read_u16_be();
        let ack_code = DiagnosticMessagePositiveAckCode::from_u8(reader.read_u8());
        let data = reader.read_vec(payload_length - 5);
        let result = DiagnosticMessagePositiveAck {
            source_address,
            target_address,
            ack_code,
            previous_diagnostic_message_data: UdsBuffer::Owned(data),
        };
        proof {
            let t = old(reader).taken(payload_length as int);
            let p = old(reader).position();
            assert(t.subrange(0, 2) =~= old(reader).bytes().subrange(p, p + 2));
            assert(t.subrange(2, 4) =~= old(reader).bytes().subrange(p + 2, p + 4));
            assert(t[4] == old(reader).bytes()[p + 4]);
            assert(t.subrange(5, t.len() as int) =~= old(reader).bytes().subrange(
                p + 5,
                p + payload_length,
            ));
            assert(result@ =~= Self::dec(t)->Ok_0);
        }
        Ok(result)
    }

    fn read_replace(&mut self, reader: &mut ByteReader<'_>, payload_length: usize) -> (r: Result<
        (),
        DoIpError,
    >) {
        if payload_length < 5 {
            return Err(DoIpError::PayloadLengthTooShort {
                value: payload_length as u32,
                expected: 5,
            });
        }
        self.source_address = reader.read_u16_be();
        self.target_address = reader.read_u16_be();
        let owned = match &self.previous_diagnostic_message_data {
            UdsBuffer::Owned(_) => true,
            UdsBuffer::Borrowed(_) => false,
        };
        if !owned {
            return Err(DoIpError::BufferTooSmall);
        }
        self.ack_code = DiagnosticMessagePositiveAckCode::from_u8(reader.read_u8());
        if let UdsBuffer::Owned(buf) = &mut self.previous_diagnostic_message_data {
            reader.read_replace_vec(buf, payload_length - 5);
        }
        proof {
            let t = old(reader).taken(payload_length as int);
            let p = old(reader).position();
            assert(t.subrange(0, 2) =~= old(reader).bytes().subrange(p, p + 2));
            assert(t.subrange(2, 4) =~= old(reader).bytes().subrange(p + 2, p + 4));
            assert(t[4] == old(reader).bytes()[p + 4]);
            assert(t.subrange(5, t.len() as int) =~= old(reader).bytes().subrange(
                p + 5,
                p + payload_length,
            ));
            assert(self@ =~= Self::dec(t)->Ok_0);
        }
        Ok(())
    }

    fn write(&self, sink: &mut Vec<u8>) -> (r: Result<(), DoIpError>) {
        put_u16_be(sink, self.source_address);
        put_u16_be(sink, self.target_address);
        sink.push(self.ack_code.into_u8());
        put_bytes(sink, self.previous_diagnostic_message_data.get_ref());
        proof {
            assert(sink@ =~= old(sink)@ + Self::enc(self@));
        }
        Ok(())
    }
}

impl<'a> BorrowedPayload<'a> for DiagnosticMessagePositiveAck<'a> {
    fn read_borrowed(payload: &'a [u8]) -> (r: Result<Self, DoIpError>) {
        let len = payload.len();
        if len < 5 {
            return Err(DoIpError::PayloadLengthTooShort { value: len as u32, expected: 5 });
        }
        let mut reader = ByteReader::new(payload);
        let source_address = reader.read_u16_be();
        let target_address = reader.read_u16_be();
        let ack_code = DiagnosticMessagePositiveAckCode::from_u8(reader.read_u8());
        let rest = reader.rest();
        let result = DiagnosticMessagePositiveAck {
            source_address,
            target_address,
            ack_code,
            previous_diagnostic_message_data: UdsBuffer::Borrowed(rest),
        };
        proof {
            assert(result@ =~= Self::dec(payload@)->Ok_0);
        }
        Ok(result)
    }
}

/// Diagnostic message negative acknowledgement.
///
/// Sent by an entity to the external tester when the previous
/// [`DiagnosticMessage`] was refused; it may echo part of that message.
#[derive(Debug, PartialEq)]
pub struct DiagnosticMessageNegativeAck<'a> {
    /// Logical address of the sender.
    pub source_address: LogicalAddress,
    /// Logical address of the target of the message.
    pub target_address: LogicalAddress,
    /// Acknowledgement code.
    pub ack_code: DiagnosticMessageNegativeAckCode,
    /// Echo of the acknowledged message; may be empty.
    pub previous_diagnostic_message_data: UdsBuffer<'a>,
}

/// Abstract value of a [`DiagnosticMessageNegativeAck`].
#[verifier::ext_equal]
pub ghost struct DiagnosticMessageNegativeAckView {
    /// Logical address of the sender.
    pub source_address: u16,
    /// Logical address of the target of the message.
    pub target_address: u16,
    /// Acknowledgement code.
    pub ack_code: DiagnosticMessageNegativeAckCode,
    /// Echo of the acknowledged message.
    pub previous_diagnostic_message_data: Seq<u8>,
}

impl<'a> View for DiagnosticMessageNegativeAck<'a> {
    type V = DiagnosticMessageNegativeAckView;

    open spec fn view(&self) -> DiagnosticMessageNegativeAckView {
        DiagnosticMessageNegativeAckView {
            source_address: self.source_address,
            target_address: self.target_address,
            ack_code: self.ack_code,
            previous_diagnostic_message_data: self.previous_diagnostic_message_data@,
        }
    }
}

impl<'a> Payload for DiagnosticMessageNegativeAck<'a> {
    open spec fn spec_payload_type() -> PayloadType {
        PayloadType::DiagnosticMessageNegativeAcknowledgement
    }

    open spec fn enc(m: DiagnosticMessageNegativeAckView) -> Seq<u8> {
        be16_bytes(m.source_address) + be16_bytes(m.target_address) + seq![
            spec_neg_ack_byte(m.ack_code),
        ] + m.previous_diagnostic_message_data
    }

    open spec fn dec(bytes: Seq<u8>) -> Result<DiagnosticMessageNegativeAckView, DoIpError> {
        if bytes.len() < 5 {
            Err(DoIpError::PayloadLengthTooShort { value: bytes.len() as u32, expected: 5 })
        } else {
            Ok(
                DiagnosticMessageNegativeAckView {
                    source_address: be16_of(bytes.subrange(0, 2)),
                    target_address: be16_of(bytes.subrange(2, 4)),
                    ack_code: spec_neg_ack_of(bytes[4]),
                    previous_diagnostic_message_data: bytes.subrange(5, bytes.len() as int),
                },
            )
        }
    }

    open spec fn accepts_len(n: nat) -> bool {
        n >= 5
    }

    open spec fn spec_expected_len() -> u32 {
        5
    }

    open spec fn canonical(m: DiagnosticMessageNegativeAckView) -> bool {
        spec_neg_ack_canonical(m.ack_code)
    }

    open spec fn replaceable(self) -> bool {
        self.previous_diagnostic_message_data.is_owned()
    }

    proof fn lemma_round_trip(m: DiagnosticMessageNegativeAckView) {
        let e = Self::enc(m);
        lemma_be16_round_trip(m.source_address);
        lemma_be16_round_trip(m.target_address);
        assert(e.subrange(0, 2) =~= be16_bytes(m.source_address));
        assert(e.subrange(2, 4) =~= be16_bytes(m.target_address));
        assert(e[4] == spec_neg_ack_byte(m.ack_code));
        assert(e.subrange(5, e.len() as int) =~= m.previous_diagnostic_message_data);
        assert(Self::dec(e)->Ok_0 =~= m);
    }

    proof fn lemma_length_mismatch(bytes: Seq<u8>) {
    }

    proof fn lemma_byte_corruption(m: DiagnosticMessageNegativeAckView, i: int, x: u8) {
        let e = Self::enc(m);
        let b = e.update(i, x);
        lemma_be16_round_trip(m.source_address);
        lemma_be16_round_trip(m.target_address);
        assert(e.subrange(0, 2) =~= be16_bytes(m.source_address));
        assert(e.subrange(2, 4) =~= be16_bytes(m.target_address));
        match Self::dec(b) {
            Ok(v) => {
                if i < 2 {
                    if be16_of(b.subrange(0, 2)) == be16_of(e.subrange(0, 2)) {
                        lemma_be16_injective(b.subrange(0, 2), e.subrange(0, 2));
                        assert(b.subrange(0, 2)[i] == e.subrange(0, 2)[i]);
                    }
                    assert(v.source_address != m.source_address);
                } else if i < 4 {
                    if be16_of(b.subrange(2, 4)) == be16_of(e.subrange(2, 4)) {
                        lemma_be16_injective(b.subrange(2, 4), e.subrange(2, 4));
                        assert(b.subrange(2, 4)[i - 2] == e.subrange(2, 4)[i - 2]);
                    }
                    assert(v.target_address != m.target_address);
                } else if i == 4 {
                    assert(v.ack_code != m.ack_code);
                } else {
                    assert(v.previous_diagnostic_message_data[i - 5] == x);
                    assert(m.previous_diagnostic_message_data[i - 5] == e[i]);
                }
            },
            Err(_) => {},
        }
    }

    fn payload_type() -> (t: PayloadType) {
        PayloadType::DiagnosticMessageNegativeAcknowledgement
    }

    fn length(&self) -> (n: usize) {
        5 + self.previous_diagnostic_message_data.get_ref().len()
    }

    fn read(reader: &mut ByteReader<'_>, payload_length: usize) -> (r: Result<Self, DoIpError>) {
        if payload_length < 5 {
            return Err(DoIpError::PayloadLengthTooShort {
                value: payload_length as u32,
                expected: 5,
            });
        }
        let source_address = reader.read_u16_be();
        let target_address = reader.read_u16_be();
        let ack_code = DiagnosticMessageNegativeAckCode::from_u8(reader.read_u8());
        let data = reader.read_vec(payload_length - 5);
        let result = DiagnosticMessageNegativeAck {
            source_address,
            target_address,
            ack_code,
            previous_diagnostic_message_data: UdsBuffer::Owned(data),
        };
        proof {
            let t = old(reader).taken(payload_length as int);
            let p = old(reader).position();
            assert(t.subrange(0, 2) =~= old(reader).bytes().subrange(p, p + 2));
            assert(t.subrange(2, 4) =~= old(reader).bytes().subrange(p + 2, p + 4));
            assert(t[4] == old(reader).bytes()[p + 4]);
            assert(t.subrange(5, t.len() as int) =~= old(reader).bytes().subrange(
                p + 5,
                p + payload_length,
            ));
            assert(result@ =~= Self::dec(t)->Ok_0);
        }
        Ok(result)
    }

    fn read_replace(&mut self, reader: &mut ByteReader<'_>, payload_length: usize) -> (r: Result<
        (),
        DoIpError,
    >) {
        if payload_length < 5 {
            return Err(DoIpError::PayloadLengthTooShort {
                value: payload_length as u32,
                expected: 5,
            });
        }
        self.source_address = reader.read_u16_be();
        self.target_address = reader.read_u16_be();
        let owned = match &self.previous_diagnostic_message_data {
            UdsBuffer::Owned(_) => true,
            UdsBuffer::Borrowed(_) => false,
        };
        if !owned {
            return Err(DoIpError::BufferTooSmall);
        }
        self.ack_code = DiagnosticMessageNegativeAckCode::from_u8(reader.read_u8());
        if let UdsBuffer::Owned(buf) = &mut self.previous_diagnostic_message_data {
            reader.read_replace_vec(buf, payload_length - 5);
        }
        proof {
            let t = old(reader).taken(payload_length as int);
            let p = old(reader).position();
            assert(t.subrange(0, 2) =~= old(reader).bytes().subrange(p, p + 2));
            assert(t.subrange(2, 4) =~= old(reader).bytes().subrange(p + 2, p + 4));
            assert(t[4] == old(reader).bytes()[p + 4]);
            assert(t.subrange(5, t.len() as int) =~= old(reader).bytes().subrange(
                p + 5,
                p + payload_length,
            ));
            assert(self@ =~= Self::dec(t)->Ok_0);
        }
        Ok(())
    }

    fn write(&self, sink: &mut Vec<u8>) -> (r: Result<(), DoIpError>) {
        put_u16_be(sink, self.source_address);
        put_u16_be(sink, self.target_address);
        sink.push(self.ack_code.into_u8());
        put_bytes(sink, self.previous_diagnostic_message_data.get_ref());
        proof {
            assert(sink@ =~= old(sink)@ + Self::enc(self@));
        }
        Ok(())
    }
}

impl<'a> BorrowedPayload<'a> for DiagnosticMessageNegativeAck<'a> {
    fn read_borrowed(payload: &'a [u8]) -> (r: Result<Self, DoIpError>) {
        let len = payload.len();
        if len < 5 {
            return Err(DoIpError::PayloadLengthTooShort { value: len as u32, expected: 5 });
        }
        let mut reader = ByteReader::new(payload);
        let source_address = reader.read_u16_be();
        let target_address = reader.read_u16_be();
        let ack_code = DiagnosticMessageNegativeAckCode::from_u8(reader.read_u8());
        let rest = reader.rest();
        let result = DiagnosticMessageNegativeAck {
            source_address,
            target_address,
            ack_code,
            previous_diagnostic_message_data: UdsBuffer::Borrowed(rest),
        };
        proof {
            assert(result@ =~= Self::dec(payload@)->Ok_0);
        }
        Ok(result)
    }
}

} // verus!

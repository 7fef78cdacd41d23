use vstd::prelude::*;

use crate::bytes::{put_u16_be, put_bytes, be16_bytes, be16_of, lemma_be16_injective,
    lemma_be16_round_trip, ByteReader};
use crate::error::DoIpError;
use crate::payload::{Payload, PayloadType};
use crate::{LogicalAddress, Vin};

verus! {

/// A vehicle entity identifier, e.g. the MAC address of a network
/// interface.
pub type Eid = [u8; 6];

/// A vehicle group identifier.
pub type Gid = [u8; 6];

/// Vehicle identification request message.  Its payload is empty.
///
/// Broadcast by an external tester to find the entities reachable at an
/// address.
#[derive(Debug, Clone, Copy, PartialEq, Eq, Structural)]
pub struct VehicleIdentificationRequest {}

/// Vehicle identification request asking for an [`Eid`] in the response.
/// Its payload is empty.
#[derive(Debug, Clone, Copy, PartialEq, Eq, Structural)]
pub struct VehicleIdentificationRequestWithEid {}

/// Vehicle identification request asking for a VIN in the response.  Its
/// payload is empty.
#[derive(Debug, Clone, Copy, PartialEq, Eq, Structural)]
pub struct VehicleIdentificationRequestWithVin {}

/// Whether the VIN and GID of all entities of the vehicle are
/// synchronized.
///
/// The field is open: a byte without a named meaning decodes into
/// [`VinGidSyncStatus::Reserved`] carrying the raw byte; re-encoding a
/// reserved value emits the fixed sentinel byte `0xFF`.
#[derive(Debug, Clone, Copy, PartialEq, Eq, Structural)]
pub enum VinGidSyncStatus {
    /// VIN and GID are synchronized.
    Synchronized,
    /// Byte without a named meaning; kept as received.
    Reserved(u8),
    /// VIN and GID are not synchronized.
    Incomplete,
}

/// Further action requested from the external tester.
///
/// The field is open: bytes without a named meaning decode into
/// [`FurtherActionRequired::Reserved`] or
/// [`FurtherActionRequired::VmSpecific`] carrying the raw byte;
/// re-encoding either emits the fixed sentinel byte `0xFF`.
#[derive(Debug, Clone, Copy, PartialEq, Eq, Structural)]
pub enum FurtherActionRequired {
    /// No further action is required.
    NoFurtherActionRequired,
    /// Byte without a named meaning; kept as received.
    Reserved(u8),
    /// Routing activation is required to initiate central security.
    RoutingActivationRequiredToInitiateCentralSecurity,
    /// Vehicle-manufacturer specific byte; kept as received.
    VmSpecific(u8),
}

/// The wire byte of a synchronization status.
pub open spec fn spec_sync_status_byte(v: VinGidSyncStatus) -> u8 {
    match v {
        VinGidSyncStatus::Synchronized => 0x00,
        VinGidSyncStatus::Incomplete => 0x10,
        VinGidSyncStatus::Reserved(_) => 0xFF,
    }
}

/// The synchronization status denoted by a wire byte.  Total.
pub open spec fn spec_sync_status_of(b: u8) -> VinGidSyncStatus {
    if b == 0x00 {
        VinGidSyncStatus::Synchronized
    } else if b == 0x10 {
        VinGidSyncStatus::Incomplete
    } else {
        VinGidSyncStatus::Reserved(b)
    }
}

/// Statuses whose encoding decodes back to themselves.
pub open spec fn spec_sync_status_canonical(v: VinGidSyncStatus) -> bool {
    v matches VinGidSyncStatus::Reserved(value) ==> value == 0xFF
}

/// The wire byte of a further-action value.
pub open spec fn spec_further_action_byte(v: FurtherActionRequired) -> u8 {
    match v {
        FurtherActionRequired::NoFurtherActionRequired => 0x00,
        FurtherActionRequired::RoutingActivationRequiredToInitiateCentralSecurity => 0x10,
        FurtherActionRequired::Reserved(_) => 0xFF,
        FurtherActionRequired::VmSpecific(_) => 0xFF,
    }
}

/// The further-action value denoted by a wire byte.  Total.
pub open spec fn spec_further_action_of(b: u8) -> FurtherActionRequired {
    if b == 0x00 {
        FurtherActionRequired::NoFurtherActionRequired
    } else if b <= 0x0F {
        FurtherActionRequired::Reserved(b)
    } else if b == 0x10 {
        FurtherActionRequired::RoutingActivationRequiredToInitiateCentralSecurity
    } else {
        FurtherActionRequired::VmSpecific(b)
    }
}

/// Further-action values whose encoding decodes back to themselves.
pub open spec fn spec_further_action_canonical(v: FurtherActionRequired) -> bool {
    match v {
        FurtherActionRequired::NoFurtherActionRequired => true,
        FurtherActionRequired::RoutingActivationRequiredToInitiateCentralSecurity => true,
        FurtherActionRequired::Reserved(_) => false,
        FurtherActionRequired::VmSpecific(value) => value == 0xFF,
    }
}

impl VinGidSyncStatus {
    /// The wire byte of this status.
    pub fn into_u8(self) -> (r: u8)
        ensures
            r == spec_sync_status_byte(self),
    {
        match self {
            VinGidSyncStatus::Synchronized => 0x00,
            VinGidSyncStatus::Incomplete => 0x10,
            VinGidSyncStatus::Reserved(_) => 0xFF,
        }
    }

    /// The status denoted by a wire byte.
    pub fn from_u8(b: u8) -> (r: VinGidSyncStatus)
        ensures
            r == spec_sync_status_of(b),
    {
        match b {
            0x00 => VinGidSyncStatus::Synchronized,
            0x10 => VinGidSyncStatus::Incomplete,
            _ => VinGidSyncStatus::Reserved(b),
        }
    }
}

impl FurtherActionRequired {
    /// The wire byte of this value.
    pub fn into_u8(self) -> (r: u8)
        ensures
            r == spec_further_action_byte(self),
    {
        match self {
            FurtherActionRequired::NoFurtherActionRequired => 0x00,
            FurtherActionRequired::RoutingActivationRequiredToInitiateCentralSecurity => 0x10,
            FurtherActionRequired::Reserved(_) => 0xFF,
            FurtherActionRequired::VmSpecific(_) => 0xFF,
        }
    }

    /// The value denoted by a wire byte.
    pub fn from_u8(b: u8) -> (r: FurtherActionRequired)
        ensures
            r == spec_further_action_of(b),
    {
        match b {
            0x00 => FurtherActionRequired::NoFurtherActionRequired,
            0x01..=0x0F => FurtherActionRequired::Reserved(b),
            0x10 => FurtherActionRequired::RoutingActivationRequiredToInitiateCentralSecurity,
            0x11..=0xFF => FurtherActionRequired::VmSpecific(b),
        }
    }
}

/// Whether every byte of `s` equals `b`.
pub open spec fn spec_all_bytes(s: Seq<u8>, b: u8) -> bool {
    forall|i: int| 0 <= i < s.len() ==> s[i] == b
}

/// The six zero bytes that encode an unset GID.
pub open spec fn spec_gid_unset_bytes() -> Seq<u8> {
    Seq::new(6, |i: int| 0u8)
}

/// The GID field denoted by its six-byte span: six zero bytes or six
/// `0xFF` bytes mean "unset"; any other span is the GID itself.
pub open spec fn spec_gid_dec(s: Seq<u8>) -> Option<Seq<u8>>
    recommends
        s.len() == 6,
{
    if spec_all_bytes(s, 0x00) || spec_all_bytes(s, 0xFF) {
        None
    } else {
        Some(s)
    }
}

/// The six-byte encoding of a GID field: an unset GID encodes as six zero
/// bytes.
pub open spec fn spec_gid_enc(g: Option<Seq<u8>>) -> Seq<u8> {
    match g {
        None => spec_gid_unset_bytes(),
        Some(s) => s,
    }
}

/// GID sentinel law: encoding an unset GID emits six zero bytes; decoding
/// six zero bytes or six `0xFF` bytes yields "unset"; decoding any other
/// six bytes yields exactly those bytes.
pub proof fn lemma_gid_sentinel(s: Seq<u8>)
    requires
        s.len() == 6,
    ensures
        spec_gid_enc(None) =~= Seq::new(6, |i: int| 0u8),
        spec_all_bytes(s, 0x00) ==> spec_gid_dec(s) is None,
        spec_all_bytes(s, 0xFF) ==> spec_gid_dec(s) is None,
        !spec_all_bytes(s, 0x00) && !spec_all_bytes(s, 0xFF) ==> spec_gid_dec(s) == Some(s),
{
}

/// Whether every byte of the six-byte array equals `b`.
fn array6_all_bytes(a: &[u8; 6], b: u8) -> (r: bool)
    ensures
        r == spec_all_bytes(a@, b),
{
    let mut i: usize = 0;
    while i < 6
        invariant
            i <= 6,
            forall|j: int| 0 <= j < i ==> a@[j] == b,
        decreases 6 - i,
    {
        if a[i] != b {
            return false;
        }
        i = i + 1;
    }
    true
}

impl View for VehicleIdentificationRequest {
    type V = VehicleIdentificationRequest;

    open spec fn view(&self) -> VehicleIdentificationRequest {
        VehicleIdentificationRequest {  }
    }
}

impl Payload for VehicleIdentificationRequest {
    open spec fn spec_payload_type() -> PayloadType {
        PayloadType::VehicleIdentificationRequest
    }

    open spec fn enc(m: VehicleIdentificationRequest) -> Seq<u8> {
        Seq::empty()
    }

    open spec fn dec(bytes: Seq<u8>) -> Result<VehicleIdentificationRequest, DoIpError> {
        if bytes.len() == 0 {
            Ok(VehicleIdentificationRequest {  })
        } else {
            Err(DoIpError::PayloadLengthTooShort { value: bytes.len() as u32, expected: 0 })
        }
    }

    open spec fn accepts_len(n: nat) -> bool {
        n == 0
    }

    open spec fn spec_expected_len() -> u32 {
        0
    }

    open spec fn canonical(m: VehicleIdentificationRequest) -> bool {
        true
    }

    open spec fn replaceable(self) -> bool {
        true
    }

    proof fn lemma_round_trip(m: VehicleIdentificationRequest) {
    }

    proof fn lemma_length_mismatch(bytes: Seq<u8>) {
    }

    proof fn lemma_byte_corruption(m: VehicleIdentificationRequest, i: int, x: u8) {
    }

    fn payload_type() -> (t: PayloadType) {
        PayloadType::VehicleIdentificationRequest
    }

    fn length(&self) -> (n: usize) {
        0
    }

    fn read(reader: &mut ByteReader<'_>, payload_length: usize) -> (r: Result<Self, DoIpError>) {
        if payload_length != 0 {
            Err(DoIpError::PayloadLengthTooShort { value: payload_length as u32, expected: 0 })
        } else {
            Ok(VehicleIdentificationRequest {  })
        }
    }

    fn read_replace(&mut self, reader: &mut ByteReader<'_>, payload_length: usize) -> (r: Result<
        (),
        DoIpError,
    >) {
        if payload_length != 0 {
            Err(DoIpError::PayloadLengthTooShort { value: payload_length as u32, expected: 0 })
        } else {
            Ok(())
        }
    }

    fn write(&self, sink: &mut Vec<u8>) -> (r: Result<(), DoIpError>) {
        proof {
            assert(sink@ =~= sink@ + Seq::<u8>::empty());
        }
        Ok(())
    }
}

impl View for VehicleIdentificationRequestWithEid {
    type V = VehicleIdentificationRequestWithEid;

    open spec fn view(&self) -> VehicleIdentificationRequestWithEid {
        VehicleIdentificationRequestWithEid {  }
    }
}

impl Payload for VehicleIdentificationRequestWithEid {
    open spec fn spec_payload_type() -> PayloadType {
        PayloadType::VehicleIdentificationRequestWithEid
    }

    open spec fn enc(m: VehicleIdentificationRequestWithEid) -> Seq<u8> {
        Seq::empty()
    }

    open spec fn dec(bytes: Seq<u8>) -> Result<VehicleIdentificationRequestWithEid, DoIpError> {
        if bytes.len() == 0 {
            Ok(VehicleIdentificationRequestWithEid {  })
        } else {
            Err(DoIpError::PayloadLengthTooShort { value: bytes.len() as u32, expected: 0 })
        }
    }

    open spec fn accepts_len(n: nat) -> bool {
        n == 0
    }

    open spec fn spec_expected_len() -> u32 {
        0
    }

    open spec fn canonical(m: VehicleIdentificationRequestWithEid) -> bool {
        true
    }

    open spec fn replaceable(self) -> bool {
        true
    }

    proof fn lemma_round_trip(m: VehicleIdentificationRequestWithEid) {
    }

    proof fn lemma_length_mismatch(bytes: Seq<u8>) {
    }

    proof fn lemma_byte_corruption(m: VehicleIdentificationRequestWithEid, i: int, x: u8) {
    }

    fn payload_type() -> (t: PayloadType) {
        PayloadType::VehicleIdentificationRequestWithEid
    }

    fn length(&self) -> (n: usize) {
        0
    }

    fn read(reader: &mut ByteReader<'_>, payload_length: usize) -> (r: Result<Self, DoIpError>) {
        if payload_length != 0 {
            Err(DoIpError::PayloadLengthTooShort { value: payload_length as u32, expected: 0 })
        } else {
            Ok(VehicleIdentificationRequestWithEid {  })
        }
    }

    fn read_replace(&mut self, reader: &mut ByteReader<'_>, payload_length: usize) -> (r: Result<
        (),
        DoIpError,
    >) {
        if payload_length != 0 {
            Err(DoIpError::PayloadLengthTooShort { value: payload_length as u32, expected: 0 })
        } else {
            Ok(())
        }
    }

    fn write(&self, sink: &mut Vec<u8>) -> (r: Result<(), DoIpError>) {
        proof {
            assert(sink@ =~= sink@ + Seq::<u8>::empty());
        }
        Ok(())
    }
}

impl View for VehicleIdentificationRequestWithVin {
    type V = VehicleIdentificationRequestWithVin;

    open spec fn view(&self) -> VehicleIdentificationRequestWithVin {
        VehicleIdentificationRequestWithVin {  }
    }
}

impl Payload for VehicleIdentificationRequestWithVin {
    open spec fn spec_payload_type() -> PayloadType {
        PayloadType::VehicleIdentificationRequestWithVin
    }

    open spec fn enc(m: VehicleIdentificationRequestWithVin) -> Seq<u8> {
        Seq::empty()
    }

    open spec fn dec(bytes: Seq<u8>) -> Result<VehicleIdentificationRequestWithVin, DoIpError> {
        if bytes.len() == 0 {
            Ok(VehicleIdentificationRequestWithVin {  })
        } else {
            Err(DoIpError::PayloadLengthTooShort { value: bytes.len() as u32, expected: 0 })
        }
    }

    open spec fn accepts_len(n: nat) -> bool {
        n == 0
    }

    open spec fn spec_expected_len() -> u32 {
        0
    }

    open spec fn canonical(m: VehicleIdentificationRequestWithVin) -> bool {
        true
    }

    open spec fn replaceable(self) -> bool {
        true
    }

    proof fn lemma_round_trip(m: VehicleIdentificationRequestWithVin) {
    }

    proof fn lemma_length_mismatch(bytes: Seq<u8>) {
    }

    proof fn lemma_byte_corruption(m: VehicleIdentificationRequestWithVin, i: int, x: u8) {
    }

    fn payload_type() -> (t: PayloadType) {
        PayloadType::VehicleIdentificationRequestWithVin
    }

    fn length(&self) -> (n: usize) {
        0
    }

    fn read(reader: &mut ByteReader<'_>, payload_length: usize) -> (r: Result<Self, DoIpError>) {
        if payload_length != 0 {
            Err(DoIpError::PayloadLengthTooShort { value: payload_length as u32, expected: 0 })
        } else {
            Ok(VehicleIdentificationRequestWithVin {  })
        }
    }

    fn read_replace(&mut self, reader: &mut ByteReader<'_>, payload_length: usize) -> (r: Result<
        (),
        DoIpError,
    >) {
        if payload_length != 0 {
            Err(DoIpError::PayloadLengthTooShort { value: payload_length as u32, expected: 0 })
        } else {
            Ok(())
        }
    }

    fn write(&self, sink: &mut Vec<u8>) -> (r: Result<(), DoIpError>) {
        proof {
            assert(sink@ =~= sink@ + Seq::<u8>::empty());
        }
        Ok(())
    }
}

/// Vehicle identification response, also sent unsolicited as a vehicle
/// announcement.
#[derive(Debug, Clone, PartialEq, Eq)]
pub struct VehicleIdentificationResponse {
    /// Vehicle identification number.
    pub vin: Vin,
    /// Logical address of the responding entity.
    pub logical_address: LogicalAddress,
    /// Unique identification of the responding entity.
    pub eid: Eid,
    /// Unique group identification of the entities within the vehicle;
    /// `None` when the value is not set, which the wire spells as six
    /// `0x00` or six `0xFF` bytes.
    pub gid: Option<Gid>,
    /// Further action to be taken by the external tester.
    pub further_action: FurtherActionRequired,
    /// Whether all entities have synchronized VIN and GID information.
    pub vin_gid_sync_status: VinGidSyncStatus,
}

/// Abstract value of a [`VehicleIdentificationResponse`].
#[verifier::ext_equal]
pub ghost struct VehicleIdentificationResponseView {
    /// Vehicle identification number bytes.
    pub vin: Seq<u8>,
    /// Logical address of the responding entity.
    pub logical_address: u16,
    /// Entity identification bytes.
    pub eid: Seq<u8>,
    /// Group identification bytes, `None` when unset.
    pub gid: Option<Seq<u8>>,
    /// Further action to be taken by the external tester.
    pub further_action: FurtherActionRequired,
    /// Whether all entities have synchronized VIN and GID information.
    pub vin_gid_sync_status: VinGidSyncStatus,
}

impl View for VehicleIdentificationResponse {
    type V = VehicleIdentificationResponseView;

    open spec fn view(&self) -> VehicleIdentificationResponseView {
        VehicleIdentificationResponseView {
            vin: self.vin@,
            logical_address: self.logical_address,
            eid: self.eid@,
            gid: match self.gid {
                Some(g) => Some(g@),
                None => None,
            },
            further_action: self.further_action,
            vin_gid_sync_status: self.vin_gid_sync_status,
        }
    }
}

impl Payload for VehicleIdentificationResponse {
    open spec fn spec_payload_type() -> PayloadType {
        PayloadType::VehicleIdentificationResponse
    }

    open spec fn enc(m: VehicleIdentificationResponseView) -> Seq<u8> {
        m.vin + be16_bytes(m.logical_address) + m.eid + spec_gid_enc(m.gid) + seq![
            spec_further_action_byte(m.further_action),
            spec_sync_status_byte(m.vin_gid_sync_status),
        ]
    }

    open spec fn dec(bytes: Seq<u8>) -> Result<VehicleIdentificationResponseView, DoIpError> {
        if bytes.len() == 33 {
            Ok(
                VehicleIdentificationResponseView {
                    vin: bytes.subrange(0, 17),
                    logical_address: be16_of(bytes.subrange(17, 19)),
                    eid: bytes.subrange(19, 25),
                    gid: spec_gid_dec(bytes.subrange(25, 31)),
                    further_action: spec_further_action_of(bytes[31]),
                    vin_gid_sync_status: spec_sync_status_of(bytes[32]),
                },
            )
        } else {
            Err(DoIpError::PayloadLengthTooShort { value: bytes.len() as u32, expected: 33 })
        }
    }

    open spec fn accepts_len(n: nat) -> bool {
        n == 33
    }

    open spec fn spec_expected_len() -> u32 {
        33
    }

    open spec fn canonical(m: VehicleIdentificationResponseView) -> bool {
        &&& m.vin.len() == 17
        &&& m.eid.len() == 6
        &&& m.gid matches Some(g) ==> g.len() == 6 && !spec_all_bytes(g, 0x00) && !spec_all_bytes(
            g,
            0xFF,
        )
        &&& spec_further_action_canonical(m.further_action)
        &&& spec_sync_status_canonical(m.vin_gid_sync_status)
    }

    open spec fn replaceable(self) -> bool {
        true
    }

    proof fn lemma_round_trip(m: VehicleIdentificationResponseView) {
        let e = Self::enc(m);
        let g = spec_gid_enc(m.gid);
        assert(g.len() == 6);
        assert(e.len() == 33);
        lemma_be16_round_trip(m.logical_address);
        assert(e.subrange(0, 17) =~= m.vin);
        assert(e.subrange(17, 19) =~= be16_bytes(m.logical_address));
        assert(e.subrange(19, 25) =~= m.eid);
        assert(e.subrange(25, 31) =~= g);
        assert(e[31] == spec_further_action_byte(m.further_action));
        assert(e[32] == spec_sync_status_byte(m.vin_gid_sync_status));
        if m.gid is None {
            assert(spec_all_bytes(g, 0x00));
        }
        assert(Self::dec(e)->Ok_0 =~= m);
    }

    proof fn lemma_length_mismatch(bytes: Seq<u8>) {
    }

    proof fn lemma_byte_corruption(m: VehicleIdentificationResponseView, i: int, x: u8) {
        let e = Self::enc(m);
        let b = e.update(i, x);
        let g = spec_gid_enc(m.gid);
        assert(e.len() == 33);
        let v = Self::dec(b)->Ok_0;
        lemma_be16_round_trip(m.logical_address);
        assert(e.subrange(0, 17) =~= m.vin);
        assert(e.subrange(17, 19) =~= be16_bytes(m.logical_address));
        assert(e.subrange(19, 25) =~= m.eid);
        assert(e.subrange(25, 31) =~= g);
        if i < 17 {
            assert(v.vin[i] == x);
            assert(m.vin[i] == e[i]);
        } else if i < 19 {
            if be16_of(b.subrange(17, 19)) == m.logical_address {
                lemma_be16_injective(b.subrange(17, 19), e.subrange(17, 19));
                assert(b.subrange(17, 19)[i - 17] == e.subrange(17, 19)[i - 17]);
            }
            assert(v.logical_address != m.logical_address);
        } else if i < 25 {
            assert(v.eid[i - 19] == x);
            assert(m.eid[i - 19] == e[i]);
        } else if i < 31 {
            let gb = b.subrange(25, 31);
            assert(gb =~= g.update(i - 25, x));
            assert(gb[i - 25] == x && g[i - 25] == e[i]);
            match m.gid {
                None => {
                    assert(spec_all_bytes(g, 0x00));
                    assert(g[i - 25] == 0x00);
                    assert(!spec_all_bytes(gb, 0x00));
                    // another position of the span still holds a zero byte,
                    // so the span is not all 0xFF either
                    let j = if i == 25 {
                        26int
                    } else {
                        25int
                    };
                    assert(gb[j - 25] == 0x00);
                    assert(!spec_all_bytes(gb, 0xFF));
                    assert(v.gid == Some(gb));
                },
                Some(gv) => {
                    assert(g =~= gv);
                    if spec_all_bytes(gb, 0x00) || spec_all_bytes(gb, 0xFF) {
                        assert(v.gid is None);
                    } else {
                        assert(v.gid == Some(gb));
                        assert(gb[i - 25] != gv[i - 25]);
                        assert(gb != gv);
                    }
                },
            }
        } else if i == 31 {
            assert(v.further_action == spec_further_action_of(x));
            assert(x != spec_further_action_byte(m.further_action));
            assert(v.further_action != m.further_action);
        } else {
            assert(v.vin_gid_sync_status == spec_sync_status_of(x));
            assert(x != spec_sync_status_byte(m.vin_gid_sync_status));
            assert(v.vin_gid_sync_status != m.vin_gid_sync_status);
        }
    }

    fn payload_type() -> (t: PayloadType) {
        PayloadType::VehicleIdentificationResponse
    }

    fn length(&self) -> (n: usize) {
        proof {
            assert(Self::enc(self@).len() == 33);
        }
        33
    }

    fn read(reader: &mut ByteReader<'_>, payload_length: usize) -> (r: Result<Self, DoIpError>) {
        if payload_length != 33 {
            return Err(DoIpError::PayloadLengthTooShort {
                value: payload_length as u32,
                expected: 33,
            });
        }
        let vin: Vin = reader.read_array();
        let logical_address = reader.read_u16_be();
        let eid: Eid = reader.read_array();
        let gid_bytes: Gid = reader.read_array();
        let gid: Option<Gid> = if array6_all_bytes(&gid_bytes, 0x00) || array6_all_bytes(
            &gid_bytes,
            0xFF,
        ) {
            None
        } else {
            Some(gid_bytes)
        };
        let further_action = FurtherActionRequired::from_u8(reader.read_u8());
        let vin_gid_sync_status = VinGidSyncStatus::from_u8(reader.read_u8());
        let result = VehicleIdentificationResponse {
            vin,
            logical_address,
            eid,
            gid,
            further_action,
            vin_gid_sync_status,
        };
        proof {
            let t = old(reader).taken(33);
            let p = old(reader).position();
            assert(t.subrange(0, 17) =~= old(reader).bytes().subrange(p, p + 17));
            assert(t.subrange(17, 19) =~= old(reader).bytes().subrange(p + 17, p + 19));
            assert(t.subrange(19, 25) =~= old(reader).bytes().subrange(p + 19, p + 25));
            assert(t.subrange(25, 31) =~= old(reader).bytes().subrange(p + 25, p + 31));
            assert(t[31] == old(reader).bytes()[p + 31]);
            assert(t[32] == old(reader).bytes()[p + 32]);
            assert(result@ =~= Self::dec(t)->Ok_0);
        }
        Ok(result)
    }

    fn read_replace(&mut self, reader: &mut ByteReader<'_>, payload_length: usize) -> (r: Result<
        (),
        DoIpError,
    >) {
        if payload_length != 33 {
            return Err(DoIpError::PayloadLengthTooShort {
                value: payload_length as u32,
                expected: 33,
            });
        }
        self.vin = reader.read_array();
        self.logical_address = reader.read_u16_be();
        self.eid = reader.read_array();
        let gid_bytes: Gid = reader.read_array();
        self.gid = if array6_all_bytes(&gid_bytes, 0x00) || array6_all_bytes(&gid_bytes, 0xFF) {
            None
        } else {
            Some(gid_bytes)
        };
        self.further_action = FurtherActionRequired::from_u8(reader.read_u8());
        self.vin_gid_sync_status = VinGidSyncStatus::from_u8(reader.read_u8());
        proof {
            let t = old(reader).taken(33);
            let p = old(reader).position();
            assert(t.subrange(0, 17) =~= old(reader).bytes().subrange(p, p + 17));
            assert(t.subrange(17, 19) =~= old(reader).bytes().subrange(p + 17, p + 19));
            assert(t.subrange(19, 25) =~= old(reader).bytes().subrange(p + 19, p + 25));
            assert(t.subrange(25, 31) =~= old(reader).bytes().subrange(p + 25, p + 31));
            assert(t[31] == old(reader).bytes()[p + 31]);
            assert(t[32] == old(reader).bytes()[p + 32]);
            assert(self@ =~= Self::dec(t)->Ok_0);
        }
        Ok(())
    }

    fn write(&self, sink: &mut Vec<u8>) -> (r: Result<(), DoIpError>) {
        put_bytes(sink, self.vin.as_slice());
        put_u16_be(sink, self.logical_address);
        put_bytes(sink, self.eid.as_slice());
        match &self.gid {
            Some(g) => put_bytes(sink, g.as_slice()),
            None => {
                let zeros: [u8; 6] = [0u8; 6];
                proof {
                    assert(zeros@ =~= spec_gid_unset_bytes());
                }
                put_bytes(sink, zeros.as_slice());
            },
        }
        sink.push(self.further_action.into_u8());
        sink.push(self.vin_gid_sync_status.into_u8());
        proof {
            assert(sink@ =~= old(sink)@ + Self::enc(self@));
        }
        Ok(())
    }
}

} // verus!

//! All the message kinds handled by the library.
//!
//! [`crate::read_message`], [`crate::read_payload`] and
//! [`crate::write_message`] work on the types of this module, which
//! represent every payload kind of the protocol.

pub use crate::alive_check::{AliveCheckRequest, AliveCheckResponse};
pub use crate::diagnostic_message::{DiagnosticMessage, DiagnosticMessageNegativeAck,
    DiagnosticMessageNegativeAckCode, DiagnosticMessagePositiveAck,
    DiagnosticMessagePositiveAckCode, UdsBuffer};
pub use crate::entity_status::{EntityStatusRequest, EntityStatusResponse};
pub use crate::generic_header_nack::{GenericDoIpHeaderNegativeAcknowledge, NegativeAckCode};
pub use crate::header::{DoIpHeader, ProtocolVersion, DOIP_HEADER_LENGTH};
pub use crate::power_mode_info::{PowerModeRequest, PowerModeResponse};
pub use crate::routing_activation::{ActivationType, RoutingActivationRequest,
    RoutingActivationResponse, RoutingActivationResponseCode};
pub use crate::vehicleident::{Eid, FurtherActionRequired, Gid, VehicleIdentificationRequest,
    VehicleIdentificationRequestWithEid, VehicleIdentificationRequestWithVin,
    VehicleIdentificationResponse, VinGidSyncStatus};

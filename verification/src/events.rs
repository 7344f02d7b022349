//! Controller events and engine actions.
//!
//! Every hardware-originated event arrives as one [`GattsEvent`] on a
//! single dispatch path.  The engine never calls the controller itself: it
//! answers with [`Action`] values, each describing exactly one controller
//! request or one user-callback invocation, and the caller performs them in
//! the order given.
use vstd::prelude::*;
use crate::entities::AttributePermissions;
use crate::entities::CharacteristicProperties;
use crate::uuid::BleUuid;

verus! {

/// The 16-bit UUID of the Client Characteristic Configuration Descriptor.
pub const CLIENT_CHARACTERISTIC_CONFIGURATION_UUID: u16 = 0x2902;

/// The length of the fixed response scratch buffer the wire protocol
/// allows; a response payload never exceeds it.
pub const RESPONSE_BUFFER_LENGTH: usize = 600;

/// A controller event, demultiplexed by kind.
///
/// The registration events carry a `success` flag: a non-success status
/// never advances the registration machine.
#[derive(Clone, Debug)]
pub enum GattsEvent {
    /// An application registration finished; the controller assigned the
    /// interface `gatts_if` to the application `app_id`.
    Registered { success: bool, app_id: u16, gatts_if: u8 },
    /// A service was created and assigned `service_handle`.
    ServiceCreated { success: bool, gatts_if: u8, service_handle: u16, uuid: BleUuid },
    /// A service was started.
    ServiceStarted { success: bool, gatts_if: u8, service_handle: u16 },
    /// A characteristic was added and assigned `attr_handle`.
    CharacteristicAdded {
        success: bool,
        gatts_if: u8,
        attr_handle: u16,
        service_handle: u16,
        uuid: BleUuid,
    },
    /// A descriptor was added and assigned `attr_handle`.
    DescriptorAdded { success: bool, gatts_if: u8, attr_handle: u16, service_handle: u16 },
    /// A central connected.
    Connected { gatts_if: u8, conn_id: u16 },
    /// The central disconnected.
    Disconnected { gatts_if: u8, conn_id: u16 },
    /// The central reads the attribute at `handle`.
    Read { gatts_if: u8, conn_id: u16, trans_id: u32, handle: u16 },
    /// The central writes `value` to the attribute at `handle`.
    Write {
        gatts_if: u8,
        conn_id: u16,
        trans_id: u32,
        handle: u16,
        need_response: bool,
        value: Vec<u8>,
    },
    /// A response went out; confirmation only.
    ResponseSent { gatts_if: u8, handle: u16 },
    /// An attribute value was set; confirmation only.
    AttributeValueSet { gatts_if: u8, handle: u16 },
}

/// One controller request or callback invocation the caller must perform.
#[derive(Clone, Debug)]
pub enum Action {
    /// Register the application `app_id` with the controller.
    RegisterApp { app_id: u16 },
    /// Create a service on the registered interface, reserving
    /// `num_handles` attribute handles.
    CreateService { gatts_if: u8, uuid: BleUuid, is_primary: bool, num_handles: u16 },
    /// Start the created service.
    StartService { service_handle: u16 },
    /// Add a characteristic to the started service.
    AddCharacteristic {
        service_handle: u16,
        uuid: BleUuid,
        permissions: AttributePermissions,
        properties: CharacteristicProperties,
        max_value_length: u16,
    },
    /// Add a Client Characteristic Configuration Descriptor, UUID
    /// [`CLIENT_CHARACTERISTIC_CONFIGURATION_UUID`], to the started
    /// service, with the two-byte "disabled" initial value and stack
    /// auto-reply.
    AddCccdDescriptor { service_handle: u16 },
    /// Restart advertising; the controller never resumes it by itself
    /// after a disconnect.
    StartAdvertising,
    /// Ask the user read callback of the characteristic at `handle` for
    /// its bytes; the reply is built with [`crate::server::read_response`].
    InvokeReadCallback { gatts_if: u8, conn_id: u16, trans_id: u32, handle: u16 },
    /// Hand the written bytes, already truncated to the configured
    /// maximum, to the user write callback of the characteristic.
    InvokeWriteCallback { conn_id: u16, handle: u16, value: Vec<u8> },
    /// Send a protocol response with status OK.
    SendResponse { gatts_if: u8, conn_id: u16, trans_id: u32, handle: u16, value: Vec<u8> },
    /// Push a value to the central: a notification when `confirm` is
    /// false, an indication when it is true.
    SendIndication { gatts_if: u8, conn_id: u16, handle: u16, value: Vec<u8>, confirm: bool },
}

} // verus!

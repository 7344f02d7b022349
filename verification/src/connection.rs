//! The connection value store of the lamp firmware: the single peripheral
//! link session and the controller handles of the two lamp characteristics.
//!
//! The sentinel values mark "not assigned": the link is up exactly when
//! both the interface and the connection id hold non-sentinel values.
use vstd::prelude::*;

verus! {

/// The controller interface value that means "no interface".
pub const GATT_INTERFACE_NONE: u8 = 0xff;

/// The connection id value that means "no connection".
pub const CONNECTION_ID_NONE: u16 = 0xffff;

/// The attribute handle value that means "not yet assigned".
pub const HANDLE_NONE: u16 = 0xffff;

/// The single-link session and the lamp's characteristic handles.
#[derive(Copy, Clone, Debug, PartialEq, Eq, Structural)]
pub struct ConnectionValues {
    pub gatts_if: u8,
    pub conn_id: u16,
    pub brightness_handle: u16,
    pub temperature_handle: u16,
}

impl ConnectionValues {
    /// Whether the peripheral link is up: both the interface and the
    /// connection id hold non-sentinel values.
    pub open spec fn spec_is_connected(&self) -> bool {
        self.gatts_if != GATT_INTERFACE_NONE && self.conn_id != CONNECTION_ID_NONE
    }

    /// A fresh store with every field at its sentinel.
    pub fn new() -> (r: Self)
        ensures
            r.gatts_if == GATT_INTERFACE_NONE,
            r.conn_id == CONNECTION_ID_NONE,
            r.brightness_handle == HANDLE_NONE,
            r.temperature_handle == HANDLE_NONE,
            !r.spec_is_connected(),
    {
        ConnectionValues {
            gatts_if: GATT_INTERFACE_NONE,
            conn_id: CONNECTION_ID_NONE,
            brightness_handle: HANDLE_NONE,
            temperature_handle: HANDLE_NONE,
        }
    }

    /// Records the controller interface of the link.
    pub fn set_gatts_if(&mut self, gatts_if: u8)
        ensures
            *final(self) == (ConnectionValues { gatts_if, ..*old(self) }),
    {
        self.gatts_if = gatts_if;
    }

    /// Records the connection id of the link.
    pub fn set_conn_id(&mut self, conn_id: u16)
        ensures
            *final(self) == (ConnectionValues { conn_id, ..*old(self) }),
    {
        self.conn_id = conn_id;
    }

    /// Records the handle of the brightness characteristic.
    pub fn set_brightness_handle(&mut self, brightness_handle: u16)
        ensures
            *final(self) == (ConnectionValues { brightness_handle, ..*old(self) }),
    {
        self.brightness_handle = brightness_handle;
    }

    /// Records the handle of the temperature characteristic.
    pub fn set_temperature_handle(&mut self, temperature_handle: u16)
        ensures
            *final(self) == (ConnectionValues { temperature_handle, ..*old(self) }),
    {
        self.temperature_handle = temperature_handle;
    }

    /// The controller interface of the link, or its sentinel.
    pub fn get_gatts_if(&self) -> (r: u8)
        ensures
            r == self.gatts_if,
    {
        self.gatts_if
    }

    /// The connection id of the link, or its sentinel.
    pub fn get_conn_id(&self) -> (r: u16)
        ensures
            r == self.conn_id,
    {
        self.conn_id
    }

    /// The handle of the brightness characteristic, or its sentinel.
    pub fn get_brightness_handle(&self) -> (r: u16)
        ensures
            r == self.brightness_handle,
    {
        self.brightness_handle
    }

    /// The handle of the temperature characteristic, or its sentinel.
    pub fn get_temperature_handle(&self) -> (r: u16)
        ensures
            r == self.temperature_handle,
    {
        self.temperature_handle
    }

    /// Whether the peripheral link is up.
    pub fn is_connected(&self) -> (r: bool)
        ensures
            r == self.spec_is_connected(),
    {
        self.gatts_if != GATT_INTERFACE_NONE && self.conn_id != CONNECTION_ID_NONE
    }
}

} // verus!

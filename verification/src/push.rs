//! Notification push for the lamp firmware: turns a lamp state change into
//! the pushes that carry it to the connected central.
//!
//! Best-effort and fire-and-forget: with no link up nothing is produced,
//! and a delivery failure of a produced push is intentionally not
//! escalated — the BLE notification model offers no guarantee once queued.
use vstd::prelude::*;
use crate::connection::ConnectionValues;
use crate::events::Action;
use crate::lamp::Lamp;

verus! {

/// The pushes that carry the lamp's current state to the central: one
/// per lamp characteristic, single-byte payloads, no acknowledgement.
/// Nothing when no link is up.
pub fn indicate_lamp_changes(values: &ConnectionValues, lamp: &Lamp) -> (actions: Vec<Action>)
    ensures
        !values.spec_is_connected() ==> actions@.len() == 0,
        values.spec_is_connected() ==> {
            &&& actions@.len() == 2
            &&& actions@[0] matches Action::SendIndication {
                gatts_if,
                conn_id,
                handle,
                value,
                confirm,
            } && gatts_if == values.gatts_if && conn_id == values.conn_id && handle
                == values.brightness_handle && value@ == seq![lamp.brightness] && !confirm
            &&& actions@[1] matches Action::SendIndication {
                gatts_if,
                conn_id,
                handle,
                value,
                confirm,
            } && gatts_if == values.gatts_if && conn_id == values.conn_id && handle
                == values.temperature_handle && value@ == seq![lamp.temperature] && !confirm
        },
{
    let mut actions: Vec<Action> = Vec::new();
    if !values.is_connected() {
        return actions;
    }
    let mut brightness: Vec<u8> = Vec::new();
    brightness.push(lamp.get_brightness());
    proof {
        assert(brightness@ =~= seq![lamp.brightness]);
    }
    actions.push(
        Action::SendIndication {
            gatts_if: values.get_gatts_if(),
            conn_id: values.get_conn_id(),
            handle: values.get_brightness_handle(),
            value: brightness,
            confirm: false,
        },
    );
    let mut temperature: Vec<u8> = Vec::new();
    temperature.push(lamp.get_temperature());
    proof {
        assert(temperature@ =~= seq![lamp.temperature]);
    }
    actions.push(
        Action::SendIndication {
            gatts_if: values.get_gatts_if(),
            conn_id: values.get_conn_id(),
            handle: values.get_temperature_handle(),
            value: temperature,
            confirm: false,
        },
    );
    actions
}

} // verus!

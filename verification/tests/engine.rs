use bluedroid::connection::ConnectionValues;
use bluedroid::entities::AttributePermissions;
use bluedroid::entities::Characteristic;
use bluedroid::entities::CharacteristicProperties;
use bluedroid::entities::Profile;
use bluedroid::entities::Service;
use bluedroid::events::Action;
use bluedroid::events::GattsEvent;
use bluedroid::lamp::Lamp;
use bluedroid::push::indicate_lamp_changes;
use bluedroid::registry::BoundEntity;
use bluedroid::registry::Registry;
use bluedroid::server::GattServer;
use bluedroid::server::read_response;
use bluedroid::uuid::BleUuid;

const CHAR_UUID_STR: &str = "F9DFBD73-0181-433A-8091-372E0CA8A598";
const SERVICE_UUID_STR: &str = "4E0F5E1E-FC5B-4D67-8E30-2A83B336476B";

fn lamp_characteristic() -> Characteristic {
    Characteristic::new(BleUuid::from_uuid128_str(CHAR_UUID_STR))
        .name("Brightness")
        .show_name()
        .max_value_length(1)
        .permissions(AttributePermissions::new().read().write())
        .properties(CharacteristicProperties::new().read().write().notify())
        .on_read()
        .on_write()
        .build()
}

fn lamp_service() -> Service {
    Service::new(BleUuid::from_uuid128_str(SERVICE_UUID_STR))
        .name("Color Lamp Service")
        .primary()
        .characteristic(lamp_characteristic())
        .build()
}

fn lamp_server() -> GattServer {
    let profile = Profile::new(0).name("Main Profile").service(lamp_service()).build();
    let mut server = GattServer::new();
    server.device_name("Color Lamp");
    server.appearance(0x0597);
    server.advertise_service(&lamp_service());
    server.profile(profile);
    server
}

/// Drives the single lamp profile to Live with the given handles.
fn register_lamp(server: &mut GattServer, gatts_if: u8, service_handle: u16, char_handle: u16) {
    let actions = server.start();
    assert_eq!(actions.len(), 1);
    assert!(matches!(actions[0], Action::RegisterApp { app_id: 0 }));

    let actions = server.handle_event(GattsEvent::Registered {
        success: true,
        app_id: 0,
        gatts_if,
    });
    assert_eq!(actions.len(), 1);
    match &actions[0] {
        Action::CreateService { gatts_if: g, uuid, is_primary, num_handles } => {
            assert_eq!(*g, gatts_if);
            assert!(*uuid == BleUuid::from_uuid128_str(SERVICE_UUID_STR));
            assert!(*is_primary);
            // one service declaration + two for the characteristic + one
            // descriptor for its notify property
            assert_eq!(*num_handles, 4);
        }
        other => panic!("expected CreateService, got {:?}", other),
    }

    let actions = server.handle_event(GattsEvent::ServiceCreated {
        success: true,
        gatts_if,
        service_handle,
        uuid: BleUuid::from_uuid128_str(SERVICE_UUID_STR),
    });
    assert_eq!(actions.len(), 1);
    match &actions[0] {
        Action::StartService { service_handle: h } => assert_eq!(*h, service_handle),
        other => panic!("expected StartService, got {:?}", other),
    }

    let actions = server.handle_event(GattsEvent::ServiceStarted {
        success: true,
        gatts_if,
        service_handle,
    });
    assert_eq!(actions.len(), 1);
    match &actions[0] {
        Action::AddCharacteristic { service_handle: h, uuid, max_value_length, .. } => {
            assert_eq!(*h, service_handle);
            assert!(*uuid == BleUuid::from_uuid128_str(CHAR_UUID_STR));
            assert_eq!(*max_value_length, 1);
        }
        other => panic!("expected AddCharacteristic, got {:?}", other),
    }

    let actions = server.handle_event(GattsEvent::CharacteristicAdded {
        success: true,
        gatts_if,
        attr_handle: char_handle,
        service_handle,
        uuid: BleUuid::from_uuid128_str(CHAR_UUID_STR),
    });
    assert_eq!(actions.len(), 1);
    match &actions[0] {
        Action::AddCccdDescriptor { service_handle: h } => assert_eq!(*h, service_handle),
        other => panic!("expected AddCccdDescriptor, got {:?}", other),
    }

    let actions = server.handle_event(GattsEvent::DescriptorAdded {
        success: true,
        gatts_if,
        attr_handle: char_handle + 1,
        service_handle,
    });
    assert!(actions.is_empty());
}

#[test]
fn lamp_profile_end_to_end() {
    let mut server = lamp_server();
    let mut lamp = Lamp::new();
    register_lamp(&mut server, 4, 10, 11);

    server.handle_event(GattsEvent::Connected { gatts_if: 4, conn_id: 7 });
    assert!(server.is_connected());

    // the peer writes [200] to the characteristic at handle 11
    let actions = server.handle_event(GattsEvent::Write {
        gatts_if: 4,
        conn_id: 7,
        trans_id: 99,
        handle: 11,
        need_response: false,
        value: vec![200],
    });
    assert_eq!(actions.len(), 1);
    match &actions[0] {
        Action::InvokeWriteCallback { conn_id, handle, value } => {
            assert_eq!(*conn_id, 7);
            assert_eq!(*handle, 11);
            // the write callback observes exactly the written byte
            assert_eq!(value.as_slice(), &[200]);
            // the user write callback: store it in the lamp
            lamp.set_brightness(value[0]);
        }
        other => panic!("expected InvokeWriteCallback, got {:?}", other),
    }

    // a subsequent read of handle 11 asks the read callback ...
    let actions = server.handle_event(GattsEvent::Read {
        gatts_if: 4,
        conn_id: 7,
        trans_id: 100,
        handle: 11,
    });
    assert_eq!(actions.len(), 1);
    match &actions[0] {
        Action::InvokeReadCallback { gatts_if, conn_id, trans_id, handle } => {
            // ... and the user read callback answers from the lamp
            let reply = read_response(
                *gatts_if,
                *conn_id,
                *trans_id,
                *handle,
                vec![lamp.get_brightness()],
            );
            match reply {
                Action::SendResponse { handle, value, .. } => {
                    assert_eq!(handle, 11);
                    assert_eq!(value.as_slice(), &[200]);
                }
                other => panic!("expected SendResponse, got {:?}", other),
            }
        }
        other => panic!("expected InvokeReadCallback, got {:?}", other),
    }
}

#[test]
fn registration_order_survives_interleaved_connection_events() {
    let mut plain = lamp_server();
    let mut noisy = lamp_server();

    let a = plain.start();
    let b = noisy.start();
    assert_eq!(format!("{:?}", a), format!("{:?}", b));

    let reg = GattsEvent::Registered { success: true, app_id: 0, gatts_if: 4 };
    let created = GattsEvent::ServiceCreated {
        success: true,
        gatts_if: 4,
        service_handle: 10,
        uuid: BleUuid::from_uuid128_str(SERVICE_UUID_STR),
    };
    let started = GattsEvent::ServiceStarted { success: true, gatts_if: 4, service_handle: 10 };
    let char_added = GattsEvent::CharacteristicAdded {
        success: true,
        gatts_if: 4,
        attr_handle: 11,
        service_handle: 10,
        uuid: BleUuid::from_uuid128_str(CHAR_UUID_STR),
    };
    let descr_added = GattsEvent::DescriptorAdded {
        success: true,
        gatts_if: 4,
        attr_handle: 12,
        service_handle: 10,
    };

    // the noisy run sees a connect, a disconnect and a confirmation
    // between every two registration events
    for event in [reg, created, started, char_added, descr_added] {
        noisy.handle_event(GattsEvent::Connected { gatts_if: 4, conn_id: 9 });
        noisy.handle_event(GattsEvent::ResponseSent { gatts_if: 4, handle: 3 });
        noisy.handle_event(GattsEvent::Disconnected { gatts_if: 4, conn_id: 9 });
        let a = plain.handle_event(event.clone());
        let b = noisy.handle_event(event);
        // the same registration request goes out in both runs
        assert_eq!(format!("{:?}", a), format!("{:?}", b));
        assert_eq!(format!("{:?}", plain.phases), format!("{:?}", noisy.phases));
    }
    assert_eq!(format!("{:?}", plain.registry.entries), format!("{:?}", noisy.registry.entries));
}

#[test]
fn failed_registration_event_does_not_advance() {
    let mut server = lamp_server();
    server.start();
    server.handle_event(GattsEvent::Registered { success: true, app_id: 0, gatts_if: 4 });
    let phases_before = format!("{:?}", server.phases);
    let actions = server.handle_event(GattsEvent::ServiceCreated {
        success: false,
        gatts_if: 4,
        service_handle: 10,
        uuid: BleUuid::from_uuid128_str(SERVICE_UUID_STR),
    });
    assert!(actions.is_empty());
    assert_eq!(format!("{:?}", server.phases), phases_before);
    assert!(server.registry.entries.is_empty());
}

#[test]
fn oversized_write_is_truncated_never_rejected() {
    let mut server = lamp_server();
    register_lamp(&mut server, 4, 10, 11);
    server.handle_event(GattsEvent::Connected { gatts_if: 4, conn_id: 7 });

    // max_value_length is 1; the peer writes three bytes and asks for a
    // response
    let actions = server.handle_event(GattsEvent::Write {
        gatts_if: 4,
        conn_id: 7,
        trans_id: 5,
        handle: 11,
        need_response: true,
        value: vec![42, 43, 44],
    });
    assert_eq!(actions.len(), 2);
    match &actions[0] {
        Action::InvokeWriteCallback { value, .. } => {
            // the callback observes only the truncated byte
            assert_eq!(value.as_slice(), &[42]);
        }
        other => panic!("expected InvokeWriteCallback, got {:?}", other),
    }
    match &actions[1] {
        Action::SendResponse { value, .. } => {
            // the echo carries the now-current (truncated) value
            assert_eq!(value.as_slice(), &[42]);
        }
        other => panic!("expected SendResponse, got {:?}", other),
    }
}

#[test]
fn unresolved_handles_answer_empty_data() {
    let mut server = lamp_server();
    register_lamp(&mut server, 4, 10, 11);

    let actions = server.handle_event(GattsEvent::Read {
        gatts_if: 4,
        conn_id: 7,
        trans_id: 1,
        handle: 999,
    });
    assert_eq!(actions.len(), 1);
    match &actions[0] {
        Action::SendResponse { value, .. } => assert!(value.is_empty()),
        other => panic!("expected SendResponse, got {:?}", other),
    }

    let actions = server.handle_event(GattsEvent::Write {
        gatts_if: 4,
        conn_id: 7,
        trans_id: 2,
        handle: 999,
        need_response: true,
        value: vec![1, 2],
    });
    assert_eq!(actions.len(), 1);
    match &actions[0] {
        Action::SendResponse { value, .. } => assert!(value.is_empty()),
        other => panic!("expected SendResponse, got {:?}", other),
    }
}

#[test]
fn disconnect_restarts_advertising_and_disarms_push() {
    let mut server = lamp_server();
    register_lamp(&mut server, 4, 10, 11);
    server.handle_event(GattsEvent::Connected { gatts_if: 4, conn_id: 7 });
    assert!(server.is_connected());

    // while connected, a notify to the characteristic goes out
    let push = server.notify(11, vec![5]);
    match push {
        Some(Action::SendIndication { gatts_if, conn_id, handle, value, confirm }) => {
            assert_eq!(gatts_if, 4);
            assert_eq!(conn_id, 7);
            assert_eq!(handle, 11);
            assert_eq!(value.as_slice(), &[5]);
            assert!(!confirm);
        }
        other => panic!("expected a notification, got {:?}", other),
    }

    let actions = server.handle_event(GattsEvent::Disconnected { gatts_if: 4, conn_id: 7 });
    assert_eq!(actions.len(), 1);
    assert!(matches!(actions[0], Action::StartAdvertising));
    assert!(!server.is_connected());

    // after the disconnect a notify and an indicate are no-ops
    assert!(server.notify(11, vec![5]).is_none());
    assert!(server.indicate(11, vec![5]).is_none());
}

#[test]
fn indicate_needs_the_indicate_property() {
    let mut server = lamp_server();
    register_lamp(&mut server, 4, 10, 11);
    server.handle_event(GattsEvent::Connected { gatts_if: 4, conn_id: 7 });
    // the lamp characteristic declares notify but not indicate
    assert!(server.notify(11, vec![1]).is_some());
    assert!(server.indicate(11, vec![1]).is_none());
}

#[test]
fn set_value_truncates_and_finds_characteristic() {
    let mut server = lamp_server();
    register_lamp(&mut server, 4, 10, 11);

    let uuid = BleUuid::from_uuid128_str(CHAR_UUID_STR);
    assert_eq!(server.characteristic_handle(&uuid), Some(11));
    assert!(server.characteristic_handle(&BleUuid::from_uuid16(0x2902)).is_none());

    assert!(server.set_characteristic_value(11, &vec![9, 8, 7]));
    assert!(!server.set_characteristic_value(999, &vec![9]));
    match server.registry.resolve(11) {
        Some(BoundEntity::Characteristic { value, .. }) => {
            assert_eq!(value.as_slice(), &[9]);
        }
        other => panic!("expected a characteristic binding, got {:?}", other),
    }
}

#[test]
fn registry_binds_each_handle_once() {
    let mut registry = Registry::new();
    assert!(registry.bind(5, BoundEntity::Service { profile: 0, service: 0 }));
    assert!(!registry.bind(5, BoundEntity::Service { profile: 1, service: 1 }));
    assert_eq!(registry.entries.len(), 1);
    match registry.resolve(5) {
        Some(BoundEntity::Service { profile, service }) => {
            assert_eq!(*profile, 0);
            assert_eq!(*service, 0);
        }
        other => panic!("expected the first binding, got {:?}", other),
    }
    assert!(registry.resolve(6).is_none());
}

#[test]
fn required_handles_counts_declarations_and_descriptors() {
    let plain = Characteristic::new(BleUuid::from_uuid16(0x2a00))
        .properties(CharacteristicProperties::new().read());
    let pushy = Characteristic::new(BleUuid::from_uuid16(0x2a01))
        .properties(CharacteristicProperties::new().read().indicate());
    let service = Service::new(BleUuid::from_uuid16(0x1800))
        .characteristic(plain)
        .characteristic(pushy);
    // one for the service, two per characteristic, one more for the
    // indicate-capable one's descriptor
    assert_eq!(service.required_handles(), 6);
    assert_eq!(Service::new(BleUuid::from_uuid16(0x1801)).required_handles(), 1);
}

#[test]
fn lamp_reports_changes_only_once_attached() {
    let mut lamp = Lamp::new();
    assert_eq!(lamp.get_brightness(), 0);
    assert_eq!(lamp.get_temperature(), 0);
    assert!(lamp.set_brightness(10).is_none());
    lamp.attach_change_callback();
    let change = lamp.set_temperature(20).expect("attached hook must see the change");
    assert_eq!(change.temperature, 20);
    assert_eq!(change.brightness, 10);
}

#[test]
fn connection_values_track_the_single_link() {
    let mut values = ConnectionValues::new();
    assert!(!values.is_connected());
    values.set_gatts_if(4);
    assert!(!values.is_connected());
    values.set_conn_id(7);
    assert!(values.is_connected());
    values.set_brightness_handle(11);
    values.set_temperature_handle(13);
    assert_eq!(values.get_gatts_if(), 4);
    assert_eq!(values.get_conn_id(), 7);
    assert_eq!(values.get_brightness_handle(), 11);
    assert_eq!(values.get_temperature_handle(), 13);
}

#[test]
fn lamp_changes_are_pushed_only_while_connected() {
    let mut lamp = Lamp::new();
    lamp.set_brightness(77);
    lamp.set_temperature(33);

    let disconnected = ConnectionValues::new();
    assert!(indicate_lamp_changes(&disconnected, &lamp).is_empty());

    let mut values = ConnectionValues::new();
    values.set_gatts_if(4);
    values.set_conn_id(7);
    values.set_brightness_handle(11);
    values.set_temperature_handle(13);
    let actions = indicate_lamp_changes(&values, &lamp);
    assert_eq!(actions.len(), 2);
    match &actions[0] {
        Action::SendIndication { handle, value, confirm, .. } => {
            assert_eq!(*handle, 11);
            assert_eq!(value.as_slice(), &[77]);
            assert!(!confirm);
        }
        other => panic!("expected a push, got {:?}", other),
    }
    match &actions[1] {
        Action::SendIndication { handle, value, confirm, .. } => {
            assert_eq!(*handle, 13);
            assert_eq!(value.as_slice(), &[33]);
            assert!(!confirm);
        }
        other => panic!("expected a push, got {:?}", other),
    }
}

#[test]
fn cccd_added_only_for_notify_or_indicate_and_in_declared_order() {
    let plain = Characteristic::new(BleUuid::from_uuid16(0x2a00))
        .max_value_length(4)
        .properties(CharacteristicProperties::new().read().write())
        .build();
    let pushy = Characteristic::new(BleUuid::from_uuid16(0x2a01))
        .max_value_length(4)
        .properties(CharacteristicProperties::new().read().notify())
        .build();
    let service = Service::new(BleUuid::from_uuid16(0x1800))
        .characteristic(plain)
        .characteristic(pushy)
        .primary()
        .build();
    let mut server = GattServer::new();
    server.profile(Profile::new(3).service(service).build());
    server.start();
    server.handle_event(GattsEvent::Registered { success: true, app_id: 3, gatts_if: 5 });
    server.handle_event(GattsEvent::ServiceCreated {
        success: true,
        gatts_if: 5,
        service_handle: 20,
        uuid: BleUuid::from_uuid16(0x1800),
    });
    let actions = server.handle_event(GattsEvent::ServiceStarted {
        success: true,
        gatts_if: 5,
        service_handle: 20,
    });
    // the first declared characteristic goes first
    match &actions[0] {
        Action::AddCharacteristic { uuid, .. } => {
            assert!(*uuid == BleUuid::from_uuid16(0x2a00));
        }
        other => panic!("expected AddCharacteristic, got {:?}", other),
    }

    // no descriptor for the plain characteristic: the second one follows
    // at once, strictly in declaration order
    let actions = server.handle_event(GattsEvent::CharacteristicAdded {
        success: true,
        gatts_if: 5,
        attr_handle: 21,
        service_handle: 20,
        uuid: BleUuid::from_uuid16(0x2a00),
    });
    assert_eq!(actions.len(), 1);
    match &actions[0] {
        Action::AddCharacteristic { uuid, .. } => {
            assert!(*uuid == BleUuid::from_uuid16(0x2a01));
        }
        other => panic!("expected AddCharacteristic, got {:?}", other),
    }

    // the notify-capable characteristic gets its descriptor at once
    let actions = server.handle_event(GattsEvent::CharacteristicAdded {
        success: true,
        gatts_if: 5,
        attr_handle: 22,
        service_handle: 20,
        uuid: BleUuid::from_uuid16(0x2a01),
    });
    assert_eq!(actions.len(), 1);
    assert!(matches!(actions[0], Action::AddCccdDescriptor { service_handle: 20 }));

    let actions = server.handle_event(GattsEvent::DescriptorAdded {
        success: true,
        gatts_if: 5,
        attr_handle: 23,
        service_handle: 20,
    });
    assert!(actions.is_empty());
}

#[test]
fn profiles_register_concurrently_keyed_by_interface() {
    let service_a = Service::new(BleUuid::from_uuid16(0x1800))
        .characteristic(Characteristic::new(BleUuid::from_uuid16(0x2a00)).max_value_length(2))
        .build();
    let service_b = Service::new(BleUuid::from_uuid16(0x1801))
        .characteristic(Characteristic::new(BleUuid::from_uuid16(0x2a05)).max_value_length(2))
        .build();
    let mut server = GattServer::new();
    server.profile(Profile::new(0).service(service_a).build());
    server.profile(Profile::new(1).service(service_b).build());

    let actions = server.start();
    assert_eq!(actions.len(), 2);
    assert!(matches!(actions[0], Action::RegisterApp { app_id: 0 }));
    assert!(matches!(actions[1], Action::RegisterApp { app_id: 1 }));

    // the second profile registers first; events of the two interleave
    let actions = server.handle_event(GattsEvent::Registered { success: true, app_id: 1, gatts_if: 6 });
    match &actions[0] {
        Action::CreateService { gatts_if, uuid, .. } => {
            assert_eq!(*gatts_if, 6);
            assert!(*uuid == BleUuid::from_uuid16(0x1801));
        }
        other => panic!("expected CreateService, got {:?}", other),
    }
    let actions = server.handle_event(GattsEvent::Registered { success: true, app_id: 0, gatts_if: 5 });
    match &actions[0] {
        Action::CreateService { gatts_if, uuid, .. } => {
            assert_eq!(*gatts_if, 5);
            assert!(*uuid == BleUuid::from_uuid16(0x1800));
        }
        other => panic!("expected CreateService, got {:?}", other),
    }

    // each creation event is correlated by its interface
    let actions = server.handle_event(GattsEvent::ServiceCreated {
        success: true,
        gatts_if: 5,
        service_handle: 30,
        uuid: BleUuid::from_uuid16(0x1800),
    });
    assert!(matches!(actions[0], Action::StartService { service_handle: 30 }));
    let actions = server.handle_event(GattsEvent::ServiceCreated {
        success: true,
        gatts_if: 6,
        service_handle: 40,
        uuid: BleUuid::from_uuid16(0x1801),
    });
    assert!(matches!(actions[0], Action::StartService { service_handle: 40 }));

    // an event for a service handle nobody awaits is ignored
    let actions = server.handle_event(GattsEvent::ServiceStarted {
        success: true,
        gatts_if: 6,
        service_handle: 30,
    });
    assert!(actions.is_empty());
}

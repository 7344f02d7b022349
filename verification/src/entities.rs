//! The declarative entity model: permission and property sets, and the
//! builder-constructed Characteristic, Service and Profile value objects.
//!
//! Builders are fluent: every setter takes the draft by value and hands it
//! back, and `build` freezes the finished object.  Declaration order of
//! characteristics inside a service is preserved; it drives the order in
//! which the registration engine adds them and allocates handles.
use vstd::prelude::*;
use crate::uuid::BleUuid;

verus! {

/// The attribute permission set of a characteristic.
#[derive(Copy, Clone, Debug, PartialEq, Eq, Structural)]
pub struct AttributePermissions {
    pub read: bool,
    pub write: bool,
    pub read_encrypted: bool,
    pub write_encrypted: bool,
}

impl AttributePermissions {
    /// An empty permission set.
    pub fn new() -> (r: Self)
        ensures
            !r.read && !r.write && !r.read_encrypted && !r.write_encrypted,
    {
        AttributePermissions { read: false, write: false, read_encrypted: false, write_encrypted: false }
    }

    /// Allows plain reads.
    pub fn read(self) -> (r: Self)
        ensures
            r == (AttributePermissions { read: true, ..self }),
    {
        AttributePermissions { read: true, ..self }
    }

    /// Allows plain writes.
    pub fn write(self) -> (r: Self)
        ensures
            r == (AttributePermissions { write: true, ..self }),
    {
        AttributePermissions { write: true, ..self }
    }

    /// Allows reads over an encrypted link only.
    pub fn read_encrypted(self) -> (r: Self)
        ensures
            r == (AttributePermissions { read_encrypted: true, ..self }),
    {
        AttributePermissions { read_encrypted: true, ..self }
    }

    /// Allows writes over an encrypted link only.
    pub fn write_encrypted(self) -> (r: Self)
        ensures
            r == (AttributePermissions { write_encrypted: true, ..self }),
    {
        AttributePermissions { write_encrypted: true, ..self }
    }
}

/// The property set of a characteristic, as advertised to the peer.
#[derive(Copy, Clone, Debug, PartialEq, Eq, Structural)]
pub struct CharacteristicProperties {
    pub read: bool,
    pub write: bool,
    pub write_without_response: bool,
    pub notify: bool,
    pub indicate: bool,
}

impl CharacteristicProperties {
    /// An empty property set.
    pub fn new() -> (r: Self)
        ensures
            !r.read && !r.write && !r.write_without_response && !r.notify && !r.indicate,
    {
        CharacteristicProperties {
            read: false,
            write: false,
            write_without_response: false,
            notify: false,
            indicate: false,
        }
    }

    /// The characteristic can be read.
    pub fn read(self) -> (r: Self)
        ensures
            r == (CharacteristicProperties { read: true, ..self }),
    {
        CharacteristicProperties { read: true, ..self }
    }

    /// The characteristic can be written with a response.
    pub fn write(self) -> (r: Self)
        ensures
            r == (CharacteristicProperties { write: true, ..self }),
    {
        CharacteristicProperties { write: true, ..self }
    }

    /// The characteristic can be written without a response.
    pub fn write_without_response(self) -> (r: Self)
        ensures
            r == (CharacteristicProperties { write_without_response: true, ..self }),
    {
        CharacteristicProperties { write_without_response: true, ..self }
    }

    /// The server can push value changes without acknowledgement.
    pub fn notify(self) -> (r: Self)
        ensures
            r == (CharacteristicProperties { notify: true, ..self }),
    {
        CharacteristicProperties { notify: true, ..self }
    }

    /// The server can push value changes with acknowledgement.
    pub fn indicate(self) -> (r: Self)
        ensures
            r == (CharacteristicProperties { indicate: true, ..self }),
    {
        CharacteristicProperties { indicate: true, ..self }
    }

    /// Whether the characteristic needs a Client Characteristic
    /// Configuration Descriptor: it does exactly when it can notify or
    /// indicate.
    pub open spec fn spec_needs_cccd(self) -> bool {
        self.notify || self.indicate
    }

    /// Executable form of [`Self::spec_needs_cccd`].
    pub fn needs_cccd(&self) -> (r: bool)
        ensures
            r == self.spec_needs_cccd(),
    {
        self.notify || self.indicate
    }
}

/// An addressable, typed data item of a service.
///
/// `value` is the declared initial cached value; once the characteristic is
/// registered, the live cached value is kept by the server against the
/// controller-assigned handle.  The callback flags declare whether the
/// application attaches a read or write callback: the event dispatcher asks
/// for the callback's outcome through an action instead of calling it, so
/// the flags are all the engine needs to know.
#[derive(Clone, Debug)]
pub struct Characteristic {
    pub uuid: BleUuid,
    pub name: Option<String>,
    pub show_name: bool,
    pub max_value_length: u16,
    pub permissions: AttributePermissions,
    pub properties: CharacteristicProperties,
    pub value: Vec<u8>,
    pub has_read_callback: bool,
    pub has_write_callback: bool,
}

impl Characteristic {
    /// A new draft characteristic with the given UUID and no attributes.
    pub fn new(uuid: BleUuid) -> (r: Self)
        ensures
            r.uuid == uuid,
            r.name is None,
            !r.show_name,
            r.max_value_length == 0,
            r.permissions == (AttributePermissions {
                read: false,
                write: false,
                read_encrypted: false,
                write_encrypted: false,
            }),
            r.properties == (CharacteristicProperties {
                read: false,
                write: false,
                write_without_response: false,
                notify: false,
                indicate: false,
            }),
            r.value@ == Seq::<u8>::empty(),
            !r.has_read_callback,
            !r.has_write_callback,
    {
        Characteristic {
            uuid,
            name: None,
            show_name: false,
            max_value_length: 0,
            permissions: AttributePermissions::new(),
            properties: CharacteristicProperties::new(),
            value: Vec::new(),
            has_read_callback: false,
            has_write_callback: false,
        }
    }

    /// Sets the human-readable name.
    pub fn name(self, name: &str) -> (r: Self)
        ensures
            r.name matches Some(n) && n@ == name@,
            r == (Characteristic { name: r.name, ..self }),
    {
        Characteristic { name: Some(name.to_owned()), ..self }
    }

    /// Marks the name for display through a user-description descriptor.
    pub fn show_name(self) -> (r: Self)
        ensures
            r == (Characteristic { show_name: true, ..self }),
    {
        Characteristic { show_name: true, ..self }
    }

    /// Sets the maximum length of the cached value; longer writes are
    /// truncated to this length, never rejected.
    pub fn max_value_length(self, max_value_length: u16) -> (r: Self)
        ensures
            r == (Characteristic { max_value_length, ..self }),
    {
        Characteristic { max_value_length, ..self }
    }

    /// Sets the permission set.
    pub fn permissions(self, permissions: AttributePermissions) -> (r: Self)
        ensures
            r == (Characteristic { permissions, ..self }),
    {
        Characteristic { permissions, ..self }
    }

    /// Sets the property set.
    pub fn properties(self, properties: CharacteristicProperties) -> (r: Self)
        ensures
            r == (Characteristic { properties, ..self }),
    {
        Characteristic { properties, ..self }
    }

    /// Declares that the application answers reads through a callback; the
    /// dispatcher will request its bytes with an action.
    pub fn on_read(self) -> (r: Self)
        ensures
            r == (Characteristic { has_read_callback: true, ..self }),
    {
        Characteristic { has_read_callback: true, ..self }
    }

    /// Declares that the application observes writes through a callback;
    /// the dispatcher will hand it the written bytes with an action.
    pub fn on_write(self) -> (r: Self)
        ensures
            r == (Characteristic { has_write_callback: true, ..self }),
    {
        Characteristic { has_write_callback: true, ..self }
    }

    /// Freezes the draft.
    pub fn build(self) -> (r: Self)
        ensures
            r == self,
    {
        self
    }
}

/// How many controller handles a characteristic consumes: two for its
/// declaration and value, one more for its Client Characteristic
/// Configuration Descriptor when it can notify or indicate.
pub open spec fn spec_char_handle_cost(c: Characteristic) -> int {
    if c.properties.spec_needs_cccd() {
        3
    } else {
        2
    }
}

/// How many controller handles a service consumes: one for the service
/// declaration plus the cost of each characteristic.
pub open spec fn spec_required_handles(chars: Seq<Characteristic>) -> int
    decreases chars.len(),
{
    if chars.len() == 0 {
        1
    } else {
        spec_required_handles(chars.drop_last()) + spec_char_handle_cost(chars.last())
    }
}

/// A named grouping of characteristics under one UUID.
#[derive(Clone, Debug)]
pub struct Service {
    pub uuid: BleUuid,
    pub name: Option<String>,
    pub primary: bool,
    pub characteristics: Vec<Characteristic>,
}

impl Service {
    /// A new draft service with the given UUID and no characteristics.
    pub fn new(uuid: BleUuid) -> (r: Self)
        ensures
            r.uuid == uuid,
            r.name is None,
            !r.primary,
            r.characteristics@ == Seq::<Characteristic>::empty(),
    {
        Service { uuid, name: None, primary: false, characteristics: Vec::new() }
    }

    /// Sets the human-readable name.
    pub fn name(self, name: &str) -> (r: Self)
        ensures
            r.name matches Some(n) && n@ == name@,
            r == (Service { name: r.name, ..self }),
    {
        Service { name: Some(name.to_owned()), ..self }
    }

    /// Marks the service as primary.
    pub fn primary(self) -> (r: Self)
        ensures
            r == (Service { primary: true, ..self }),
    {
        Service { primary: true, ..self }
    }

    /// Appends a characteristic; declaration order is preserved.
    pub fn characteristic(self, characteristic: Characteristic) -> (r: Self)
        requires
            self.characteristics@.len() < 0x3fff,
        ensures
            r.characteristics@ == self.characteristics@.push(characteristic),
            r == (Service { characteristics: r.characteristics, ..self }),
    {
        let mut s = self;
        s.characteristics.push(characteristic);
        s
    }

    /// Freezes the draft.
    pub fn build(self) -> (r: Self)
        ensures
            r == self,
    {
        self
    }

    /// The number of controller handles the service must reserve.
    pub fn required_handles(&self) -> (r: u16)
        requires
            self.characteristics@.len() <= 0x3fff,
        ensures
            r as int == spec_required_handles(self.characteristics@),
    {
        let n = self.characteristics.len();
        let mut acc: u16 = 1;
        let mut i: usize = 0;
        proof {
            assert(self.characteristics@.take(0) =~= Seq::<Characteristic>::empty());
        }
        while i < n
            invariant
                i <= n,
                n == self.characteristics@.len(),
                n <= 0x3fff,
                acc as int == spec_required_handles(self.characteristics@.take(i as int)),
                acc as int <= 1 + 3 * i as int,
            decreases n - i,
        {
            proof {
                assert(self.characteristics@.take(i as int + 1).drop_last() =~= self
                    .characteristics@.take(i as int));
                assert(self.characteristics@.take(i as int + 1).last() == self.characteristics@[
                    i as int
                ]);
            }
            if self.characteristics[i].properties.needs_cccd() {
                acc = acc + 3;
            } else {
                acc = acc + 2;
            }
            i += 1;
        }
        proof {
            assert(self.characteristics@.take(n as int) =~= self.characteristics@);
        }
        acc
    }
}

/// An application-level registration unit advertising one or more services.
///
/// Its identity is the small application id assigned by the caller; the
/// controller interface assigned once registration succeeds is kept by the
/// server, not here.
#[derive(Clone, Debug)]
pub struct Profile {
    pub app_id: u16,
    pub name: Option<String>,
    pub services: Vec<Service>,
}

impl Profile {
    /// A new draft profile with the given application id and no services.
    pub fn new(app_id: u16) -> (r: Self)
        ensures
            r.app_id == app_id,
            r.name is None,
            r.services@ == Seq::<Service>::empty(),
    {
        Profile { app_id, name: None, services: Vec::new() }
    }

    /// Sets the human-readable name.
    pub fn name(self, name: &str) -> (r: Self)
        ensures
            r.name matches Some(n) && n@ == name@,
            r == (Profile { name: r.name, ..self }),
    {
        Profile { name: Some(name.to_owned()), ..self }
    }

    /// Appends a service; declaration order is preserved.
    pub fn service(self, service: Service) -> (r: Self)
        ensures
            r.services@ == self.services@.push(service),
            r == (Profile { services: r.services, ..self }),
    {
        let mut p = self;
        p.services.push(service);
        p
    }

    /// Freezes the draft.
    pub fn build(self) -> (r: Self)
        ensures
            r == self,
    {
        self
    }
}

} // verus!

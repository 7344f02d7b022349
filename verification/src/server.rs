//! The GATT server engine: the registration state machine, the event
//! dispatcher, and the connection tracker.
//!
//! The controller accepts registration operations in one order only: an
//! application registers, each of its services is created, then started,
//! then its characteristics are added one by one in declaration order, a
//! notify- or indicate-capable characteristic followed at once by its
//! Client Characteristic Configuration Descriptor.  Each step completes
//! only when a matching success event arrives, interleaved with events of
//! unrelated profiles and connections.  The engine keeps one
//! [`RegistrationPhase`] per declared profile, advances it exclusively on
//! the matching success event, and answers each advance with exactly the
//! one next request, as an [`Action`].
//!
//! The caller owns the loop: it performs each action, feeds every
//! controller event to [`GattServer::handle_event`], and answers an
//! [`Action::InvokeReadCallback`] by running the user callback and sending
//! the action built by [`read_response`].
use vstd::prelude::*;
use crate::connection::GATT_INTERFACE_NONE;
use crate::entities::Profile;
use crate::entities::Service;
use crate::entities::spec_required_handles;
use crate::events::Action;
use crate::events::GattsEvent;
use crate::events::RESPONSE_BUFFER_LENGTH;
use crate::registry::BoundEntity;
use crate::registry::Registry;
use crate::registry::RegistryEntry;
use crate::registry::spec_bind;
use crate::uuid::BleUuid;
use crate::uuid::uuid_eq;

verus! {

/// The single peripheral link: the interface it arrived on and its
/// connection id.
#[derive(Copy, Clone, Debug, PartialEq, Eq, Structural)]
pub struct Session {
    pub gatts_if: u8,
    pub conn_id: u16,
}

/// How far the registration of one profile has come.  Each waiting state
/// names the declared entity whose completion event is awaited.
#[derive(Copy, Clone, Debug, PartialEq, Eq, Structural)]
pub enum RegistrationPhase {
    /// Declared; the engine has not started.
    Declared,
    /// The application registration request is out.
    AppRegistering,
    /// The creation request for the service at this index is out.
    ServiceCreating { service: usize },
    /// The start request for the created service is out.
    ServiceStarting { service: usize, service_handle: u16 },
    /// The add request for the characteristic at this index is out.
    CharacteristicAdding { service: usize, service_handle: u16, characteristic: usize },
    /// The descriptor add request for this characteristic is out.
    DescriptorAdding { service: usize, service_handle: u16, characteristic: usize },
    /// Every declared entity of the profile is live.
    Live,
}

/// Every service of the profile keeps its characteristic count within the
/// range the controller's 16-bit handle budget can express.
pub open spec fn profile_wf(p: Profile) -> bool {
    forall|s: int|
        0 <= s < p.services@.len() ==> (#[trigger] p.services@[s]).characteristics@.len() <= 0x3fff
}

/// A phase only names declared entities.
pub open spec fn phase_wf(p: Profile, ph: RegistrationPhase) -> bool {
    match ph {
        RegistrationPhase::Declared => true,
        RegistrationPhase::AppRegistering => true,
        RegistrationPhase::ServiceCreating { service } => service < p.services@.len(),
        RegistrationPhase::ServiceStarting { service, .. } => service < p.services@.len(),
        RegistrationPhase::CharacteristicAdding { service, characteristic, .. } => service
            < p.services@.len() && characteristic < p.services@[service as int].characteristics@.len(),
        RegistrationPhase::DescriptorAdding { service, characteristic, .. } => service
            < p.services@.len() && characteristic < p.services@[service as int].characteristics@.len(),
        RegistrationPhase::Live => true,
    }
}

/// The phase a profile enters once its application registration succeeds.
pub open spec fn first_phase_after_registration(p: Profile) -> RegistrationPhase {
    if p.services@.len() > 0 {
        RegistrationPhase::ServiceCreating { service: 0 }
    } else {
        RegistrationPhase::Live
    }
}

/// The phase that follows a fully processed service: the next service is
/// created, or the profile is live.
pub open spec fn phase_after_service(p: Profile, service: int) -> RegistrationPhase {
    if service + 1 < p.services@.len() {
        RegistrationPhase::ServiceCreating { service: (service + 1) as usize }
    } else {
        RegistrationPhase::Live
    }
}

/// The phase a profile enters once a service started: its first
/// characteristic is added, or the service is done.
pub open spec fn phase_after_service_started(
    p: Profile,
    service: int,
    service_handle: u16,
) -> RegistrationPhase {
    if p.services@[service].characteristics@.len() > 0 {
        RegistrationPhase::CharacteristicAdding {
            service: service as usize,
            service_handle,
            characteristic: 0,
        }
    } else {
        phase_after_service(p, service)
    }
}

/// The phase that follows a fully processed characteristic — added, and
/// its descriptor added where it needs one: the next characteristic of the
/// service in declaration order, or the next service, or live.
pub open spec fn phase_after_characteristic(
    p: Profile,
    service: int,
    service_handle: u16,
    characteristic: int,
) -> RegistrationPhase {
    if characteristic + 1 < p.services@[service].characteristics@.len() {
        RegistrationPhase::CharacteristicAdding {
            service: service as usize,
            service_handle,
            characteristic: (characteristic + 1) as usize,
        }
    } else {
        phase_after_service(p, service)
    }
}

/// The unique successor of a waiting phase under its matching success
/// event: the registration order of the engine, as one function.
pub open spec fn spec_next_phase(p: Profile, ph: RegistrationPhase, e: GattsEvent) -> RegistrationPhase {
    match (ph, e) {
        (RegistrationPhase::AppRegistering, GattsEvent::Registered { .. }) => {
            first_phase_after_registration(p)
        },
        (
            RegistrationPhase::ServiceCreating { service },
            GattsEvent::ServiceCreated { service_handle, .. },
        ) => RegistrationPhase::ServiceStarting { service, service_handle },
        (
            RegistrationPhase::ServiceStarting { service, service_handle },
            GattsEvent::ServiceStarted { .. },
        ) => phase_after_service_started(p, service as int, service_handle),
        (
            RegistrationPhase::CharacteristicAdding { service, service_handle, characteristic },
            GattsEvent::CharacteristicAdded { .. },
        ) => {
            if p.services@[service as int].characteristics@[characteristic as int].properties.spec_needs_cccd() {
                RegistrationPhase::DescriptorAdding { service, service_handle, characteristic }
            } else {
                phase_after_characteristic(p, service as int, service_handle, characteristic as int)
            }
        },
        (
            RegistrationPhase::DescriptorAdding { service, service_handle, characteristic },
            GattsEvent::DescriptorAdded { .. },
        ) => phase_after_characteristic(p, service as int, service_handle, characteristic as int),
        _ => ph,
    }
}

/// The one request issued on entering a phase, if any: registering issues
/// the application registration, each waiting state issues the request it
/// waits on, and a terminal state issues nothing.
pub open spec fn spec_entry_action(p: Profile, iface: u8, ph: RegistrationPhase) -> Seq<Action> {
    match ph {
        RegistrationPhase::Declared => Seq::empty(),
        RegistrationPhase::AppRegistering => seq![Action::RegisterApp { app_id: p.app_id }],
        RegistrationPhase::ServiceCreating { service } => {
            let s = p.services@[service as int];
            seq![
                Action::CreateService {
                    gatts_if: iface,
                    uuid: s.uuid,
                    is_primary: s.primary,
                    num_handles: spec_required_handles(s.characteristics@) as u16,
                },
            ]
        },
        RegistrationPhase::ServiceStarting { service_handle, .. } => {
            seq![Action::StartService { service_handle }]
        },
        RegistrationPhase::CharacteristicAdding { service, service_handle, characteristic } => {
            let c = p.services@[service as int].characteristics@[characteristic as int];
            seq![
                Action::AddCharacteristic {
                    service_handle,
                    uuid: c.uuid,
                    permissions: c.permissions,
                    properties: c.properties,
                    max_value_length: c.max_value_length,
                },
            ]
        },
        RegistrationPhase::DescriptorAdding { service_handle, .. } => {
            seq![Action::AddCccdDescriptor { service_handle }]
        },
        RegistrationPhase::Live => Seq::empty(),
    }
}

/// The GATT server engine.
///
/// Profiles are declared before [`GattServer::start`]; everything after
/// that is driven by [`GattServer::handle_event`].  The declared profiles
/// are never mutated; the live state — one phase and one assigned
/// interface per profile, the handle registry and the link session — sits
/// beside them.
#[derive(Debug)]
pub struct GattServer {
    /// The declared profiles, in declaration order.
    pub profiles: Vec<Profile>,
    /// The registration phase of each profile, by the same index.
    pub phases: Vec<RegistrationPhase>,
    /// The controller interface assigned to each profile, or
    /// [`GATT_INTERFACE_NONE`] before its registration succeeded.
    pub interfaces: Vec<u8>,
    /// The handle registry.
    pub registry: Registry,
    /// The single peripheral link, while one is up.
    pub session: Option<Session>,
    /// The advertised device name.
    pub device_name: String,
    /// The advertised appearance code of the standard registry.
    pub appearance: u16,
    /// The UUIDs of the services named in the advertisement payload.
    pub advertised: Vec<BleUuid>,
    /// Whether [`GattServer::start`] ran.
    pub started: bool,
}

impl GattServer {
    /// The engine invariant: the per-profile tables line up, every phase
    /// names declared entities, application ids are distinct identities,
    /// the registry holds each handle once, and nothing moves before
    /// `start`.
    pub open spec fn wf(&self) -> bool {
        &&& self.phases@.len() == self.profiles@.len()
        &&& self.interfaces@.len() == self.profiles@.len()
        &&& self.registry.wf()
        &&& forall|p: int| 0 <= p < self.profiles@.len() ==> profile_wf(#[trigger] self.profiles@[p])
        &&& forall|p: int|
            0 <= p < self.profiles@.len() ==> phase_wf(self.profiles@[p], #[trigger] self.phases@[p])
        &&& forall|p: int, q: int|
            0 <= p < q < self.profiles@.len() ==> self.profiles@[p].app_id != self.profiles@[
                q
            ].app_id
        &&& !self.started ==> forall|p: int|
            0 <= p < self.phases@.len() ==> self.phases@[p] is Declared
    }

    /// Whether the peripheral link is up.
    pub open spec fn spec_is_connected(&self) -> bool {
        self.session is Some
    }

    /// A fresh engine with nothing declared.
    pub fn new() -> (r: Self)
        ensures
            r.wf(),
            r.profiles@.len() == 0,
            r.phases@.len() == 0,
            r.interfaces@.len() == 0,
            r.registry.entries@.len() == 0,
            r.session is None,
            r.device_name@ == Seq::<char>::empty(),
            r.appearance == 0,
            r.advertised@.len() == 0,
            !r.started,
    {
        GattServer {
            profiles: Vec::new(),
            phases: Vec::new(),
            interfaces: Vec::new(),
            registry: Registry::new(),
            session: None,
            device_name: String::new(),
            appearance: 0,
            advertised: Vec::new(),
            started: false,
        }
    }

    /// Sets the advertised device name.
    pub fn device_name(&mut self, name: &str)
        requires
            old(self).wf(),
        ensures
            final(self).wf(),
            final(self).device_name@ == name@,
            *final(self) == (GattServer { device_name: final(self).device_name, ..*old(self) }),
    {
        self.device_name = name.to_owned();
    }

    /// Sets the advertised appearance code.
    pub fn appearance(&mut self, appearance: u16)
        requires
            old(self).wf(),
        ensures
            final(self).wf(),
            *final(self) == (GattServer { appearance, ..*old(self) }),
    {
        self.appearance = appearance;
    }

    /// Names a service in the advertisement payload.
    pub fn advertise_service(&mut self, service: &Service)
        requires
            old(self).wf(),
        ensures
            final(self).wf(),
            final(self).advertised@ == old(self).advertised@.push(service.uuid),
            *final(self) == (GattServer { advertised: final(self).advertised, ..*old(self) }),
    {
        self.advertised.push(service.uuid);
    }

    /// Declares a profile.  Its application id is its identity and must
    /// differ from every profile already declared.
    pub fn profile(&mut self, profile: Profile)
        requires
            old(self).wf(),
            !old(self).started,
            profile_wf(profile),
            forall|q: int|
                0 <= q < old(self).profiles@.len() ==> (#[trigger] old(self).profiles@[q]).app_id
                    != profile.app_id,
        ensures
            final(self).wf(),
            !final(self).started,
            final(self).profiles@ == old(self).profiles@.push(profile),
            final(self).phases@ == old(self).phases@.push(RegistrationPhase::Declared),
            final(self).interfaces@ == old(self).interfaces@.push(GATT_INTERFACE_NONE),
            final(self).registry.entries@ == old(self).registry.entries@,
            final(self).session == old(self).session,
            final(self).device_name == old(self).device_name,
            final(self).appearance == old(self).appearance,
            final(self).advertised == old(self).advertised,
    {
        self.profiles.push(profile);
        self.phases.push(RegistrationPhase::Declared);
        self.interfaces.push(GATT_INTERFACE_NONE);
    }

    /// Starts the engine: every declared profile issues its application
    /// registration request, in declaration order, and waits.
    pub fn start(&mut self) -> (actions: Vec<Action>)
        requires
            old(self).wf(),
            !old(self).started,
        ensures
            final(self).wf(),
            final(self).started,
            final(self).profiles@ == old(self).profiles@,
            final(self).interfaces@ == old(self).interfaces@,
            final(self).registry.entries@ == old(self).registry.entries@,
            final(self).session == old(self).session,
            final(self).phases@.len() == old(self).phases@.len(),
            forall|p: int|
                0 <= p < final(self).phases@.len() ==> final(self).phases@[p]
                    is AppRegistering,
            actions@.len() == old(self).profiles@.len(),
            forall|p: int|
                0 <= p < actions@.len() ==> actions@[p] == (Action::RegisterApp {
                    app_id: old(self).profiles@[p].app_id,
                }),
    {
        self.started = true;
        let n = self.profiles.len();
        let mut actions: Vec<Action> = Vec::new();
        let mut p: usize = 0;
        while p < n
            invariant
                p <= n,
                n == self.profiles@.len(),
                self.wf(),
                self.started,
                self.profiles@ == old(self).profiles@,
                self.interfaces@ == old(self).interfaces@,
                self.registry.entries@ == old(self).registry.entries@,
                self.session == old(self).session,
                self.phases@.len() == old(self).phases@.len(),
                actions@.len() == p as int,
                forall|q: int| 0 <= q < p as int ==> self.phases@[q] is AppRegistering,
                forall|q: int|
                    p as int <= q < n as int ==> self.phases@[q] == old(self).phases@[q],
                forall|q: int|
                    0 <= q < p as int ==> actions@[q] == (Action::RegisterApp {
                        app_id: old(self).profiles@[q].app_id,
                    }),
            decreases n - p,
        {
            self.phases[p] = RegistrationPhase::AppRegistering;
            actions.push(Action::RegisterApp { app_id: self.profiles[p].app_id });
            p += 1;
        }
        actions
    }

    /// Whether the peripheral link is up.
    pub fn is_connected(&self) -> (r: bool)
        ensures
            r == self.spec_is_connected(),
    {
        self.session.is_some()
    }

    /// Whether the event is the completion event the profile at `p` waits
    /// on.
    fn profile_matches(&self, p: usize, event: &GattsEvent) -> (r: bool)
        requires
            self.wf(),
            p < self.profiles@.len(),
        ensures
            r == event_matches_profile(*self, *event, p as int),
    {
        match event {
            GattsEvent::Registered { app_id, .. } => {
                self.profiles[p].app_id == *app_id && (match self.phases[p] {
                    RegistrationPhase::AppRegistering => true,
                    _ => false,
                })
            },
            GattsEvent::ServiceCreated { gatts_if, uuid, .. } => {
                self.interfaces[p] == *gatts_if && (match self.phases[p] {
                    RegistrationPhase::ServiceCreating { service } => {
                        self.profiles[p].services[service].uuid == *uuid
                    },
                    _ => false,
                })
            },
            GattsEvent::ServiceStarted { gatts_if, service_handle, .. } => {
                self.interfaces[p] == *gatts_if && (match self.phases[p] {
                    RegistrationPhase::ServiceStarting { service_handle: h, .. } => {
                        h == *service_handle
                    },
                    _ => false,
                })
            },
            GattsEvent::CharacteristicAdded { gatts_if, service_handle, uuid, .. } => {
                self.interfaces[p] == *gatts_if && (match self.phases[p] {
                    RegistrationPhase::CharacteristicAdding {
                        service,
                        service_handle: h,
                        characteristic,
                    } => {
                        h == *service_handle
                            && self.profiles[p].services[service].characteristics[characteristic].uuid
                            == *uuid
                    },
                    _ => false,
                })
            },
            GattsEvent::DescriptorAdded { gatts_if, service_handle, .. } => {
                self.interfaces[p] == *gatts_if && (match self.phases[p] {
                    RegistrationPhase::DescriptorAdding { service_handle: h, .. } => {
                        h == *service_handle
                    },
                    _ => false,
                })
            },
            _ => false,
        }
    }

    /// The profile the event is correlated to, if any.
    fn find_matching_profile(&self, event: &GattsEvent) -> (r: Option<usize>)
        requires
            self.wf(),
        ensures
            match r {
                Some(p) => first_matching_profile(*self, *event) == Some(p as int) && p
                    < self.profiles@.len() && event_matches_profile(*self, *event, p as int),
                None => first_matching_profile(*self, *event) is None,
            },
    {
        let n = self.profiles.len();
        let mut p: usize = 0;
        while p < n
            invariant
                p <= n,
                n == self.profiles@.len(),
                self.wf(),
                first_matching_profile(*self, *event) == first_matching_profile_from(
                    *self,
                    *event,
                    p as int,
                ),
            decreases n - p,
        {
            if self.profile_matches(p, event) {
                return Some(p);
            }
            p += 1;
        }
        None
    }

    /// The phase the matched profile advances to.
    fn compute_next_phase(&self, p: usize, event: &GattsEvent) -> (ph: RegistrationPhase)
        requires
            self.wf(),
            p < self.profiles@.len(),
            is_registration_event(*event),
            event_matches_profile(*self, *event, p as int),
        ensures
            ph == spec_next_phase(self.profiles@[p as int], self.phases@[p as int], *event),
            phase_wf(self.profiles@[p as int], ph),
    {
        proof {
            assert(phase_wf(self.profiles@[p as int], self.phases@[p as int]));
        }
        let prof = &self.profiles[p];
        match (self.phases[p], event) {
            (RegistrationPhase::AppRegistering, GattsEvent::Registered { .. }) => {
                if prof.services.len() > 0 {
                    RegistrationPhase::ServiceCreating { service: 0 }
                } else {
                    RegistrationPhase::Live
                }
            },
            (
                RegistrationPhase::ServiceCreating { service },
                GattsEvent::ServiceCreated { service_handle, .. },
            ) => RegistrationPhase::ServiceStarting { service, service_handle: *service_handle },
            (
                RegistrationPhase::ServiceStarting { service, service_handle },
                GattsEvent::ServiceStarted { .. },
            ) => {
                let service_count = prof.services.len();
                if prof.services[service].characteristics.len() > 0 {
                    RegistrationPhase::CharacteristicAdding {
                        service,
                        service_handle,
                        characteristic: 0,
                    }
                } else if service + 1 < service_count {
                    RegistrationPhase::ServiceCreating { service: service + 1 }
                } else {
                    RegistrationPhase::Live
                }
            },
            (
                RegistrationPhase::CharacteristicAdding { service, service_handle, characteristic },
                GattsEvent::CharacteristicAdded { .. },
            ) => {
                let service_count = prof.services.len();
                if prof.services[service].characteristics[characteristic].properties.needs_cccd() {
                    RegistrationPhase::DescriptorAdding { service, service_handle, characteristic }
                } else if characteristic + 1 < prof.services[service].characteristics.len() {
                    RegistrationPhase::CharacteristicAdding {
                        service,
                        service_handle,
                        characteristic: characteristic + 1,
                    }
                } else if service + 1 < service_count {
                    RegistrationPhase::ServiceCreating { service: service + 1 }
                } else {
                    RegistrationPhase::Live
                }
            },
            (
                RegistrationPhase::DescriptorAdding { service, service_handle, characteristic },
                GattsEvent::DescriptorAdded { .. },
            ) => {
                let service_count = prof.services.len();
                if characteristic + 1 < prof.services[service].characteristics.len() {
                    RegistrationPhase::CharacteristicAdding {
                        service,
                        service_handle,
                        characteristic: characteristic + 1,
                    }
                } else if service + 1 < service_count {
                    RegistrationPhase::ServiceCreating { service: service + 1 }
                } else {
                    RegistrationPhase::Live
                }
            },
            _ => {
                proof {
                    assert(false);
                }
                RegistrationPhase::Live
            },
        }
    }

    /// The one request entering the current phase of the profile at `p`
    /// issues.
    fn issue_entry_action(&self, p: usize) -> (actions: Vec<Action>)
        requires
            self.wf(),
            p < self.profiles@.len(),
        ensures
            actions@ == spec_entry_action(
                self.profiles@[p as int],
                self.interfaces@[p as int],
                self.phases@[p as int],
            ),
    {
        let mut actions: Vec<Action> = Vec::new();
        match self.phases[p] {
            RegistrationPhase::Declared => {},
            RegistrationPhase::AppRegistering => {
                actions.push(Action::RegisterApp { app_id: self.profiles[p].app_id });
            },
            RegistrationPhase::ServiceCreating { service } => {
                let s = &self.profiles[p].services[service];
                let num_handles = s.required_handles();
                actions.push(
                    Action::CreateService {
                        gatts_if: self.interfaces[p],
                        uuid: s.uuid,
                        is_primary: s.primary,
                        num_handles,
                    },
                );
            },
            RegistrationPhase::ServiceStarting { service_handle, .. } => {
                actions.push(Action::StartService { service_handle });
            },
            RegistrationPhase::CharacteristicAdding { service, service_handle, characteristic } => {
                let c = &self.profiles[p].services[service].characteristics[characteristic];
                actions.push(
                    Action::AddCharacteristic {
                        service_handle,
                        uuid: c.uuid,
                        permissions: c.permissions,
                        properties: c.properties,
                        max_value_length: c.max_value_length,
                    },
                );
            },
            RegistrationPhase::DescriptorAdding { service_handle, .. } => {
                actions.push(Action::AddCccdDescriptor { service_handle });
            },
            RegistrationPhase::Live => {},
        }
        proof {
            assert(actions@ =~= spec_entry_action(
                self.profiles@[p as int],
                self.interfaces@[p as int],
                self.phases@[p as int],
            ));
        }
        actions
    }

    /// Advances the matched profile of a successful registration event.
    fn on_registration_event(&mut self, event: &GattsEvent) -> (actions: Vec<Action>)
        requires
            old(self).wf(),
            is_registration_event(*event),
            event_success(*event),
        ensures
            final(self).wf(),
            registration_post(*old(self), *final(self), actions@, *event),
    {
        let found = self.find_matching_profile(event);
        match found {
            None => Vec::new(),
            Some(p) => {
                let next = self.compute_next_phase(p, event);
                match event {
                    GattsEvent::Registered { gatts_if, .. } => {
                        self.interfaces[p] = *gatts_if;
                    },
                    GattsEvent::ServiceCreated { service_handle, .. } => {
                        let service = match self.phases[p] {
                            RegistrationPhase::ServiceCreating { service } => service,
                            _ => {
                                proof {
                                    assert(false);
                                }
                                0
                            },
                        };
                        self.registry.bind(
                            *service_handle,
                            BoundEntity::Service { profile: p, service },
                        );
                    },
                    GattsEvent::ServiceStarted { .. } => {},
                    GattsEvent::CharacteristicAdded { attr_handle, .. } => {
                        let (service, characteristic) = match self.phases[p] {
                            RegistrationPhase::CharacteristicAdding {
                                service,
                                characteristic,
                                ..
                            } => (service, characteristic),
                            _ => {
                                proof {
                                    assert(false);
                                }
                                (0, 0)
                            },
                        };
                        let ch = &self.profiles[p].services[service].characteristics[characteristic];
                        let entity = BoundEntity::Characteristic {
                            profile: p,
                            service,
                            characteristic,
                            uuid: ch.uuid,
                            max_value_length: ch.max_value_length,
                            properties: ch.properties,
                            has_read_callback: ch.has_read_callback,
                            has_write_callback: ch.has_write_callback,
                            value: copy_bytes(&ch.value),
                        };
                        let ghost before = self.registry.entries@;
                        self.registry.bind(*attr_handle, entity);
                        proof {
                            if !(exists|i: int|
                                0 <= i < before.len() && before[i].handle == *attr_handle) {
                                assert(self.registry.entries@.take(before.len() as int)
                                    =~= before);
                            }
                        }
                    },
                    GattsEvent::DescriptorAdded { attr_handle, .. } => {
                        let (service, characteristic) = match self.phases[p] {
                            RegistrationPhase::DescriptorAdding {
                                service,
                                characteristic,
                                ..
                            } => (service, characteristic),
                            _ => {
                                proof {
                                    assert(false);
                                }
                                (0, 0)
                            },
                        };
                        self.registry.bind(
                            *attr_handle,
                            BoundEntity::Descriptor { profile: p, service, characteristic },
                        );
                    },
                    _ => {
                        proof {
                            assert(false);
                        }
                    },
                }
                self.phases[p] = next;
                self.issue_entry_action(p)
            },
        }
    }

    /// Answers a read event: the declared read callback is asked for its
    /// bytes, or an empty payload goes straight back.
    fn on_read(&self, gatts_if: u8, conn_id: u16, trans_id: u32, handle: u16) -> (actions: Vec<
        Action,
    >)
        requires
            self.wf(),
        ensures
            read_post(*self, *self, actions@, gatts_if, conn_id, trans_id, handle),
    {
        let mut ask = false;
        match self.registry.resolve(handle) {
            Some(entity) => {
                match entity {
                    BoundEntity::Characteristic { has_read_callback, .. } => {
                        ask = *has_read_callback;
                    },
                    _ => {},
                }
            },
            None => {},
        }
        let mut actions: Vec<Action> = Vec::new();
        if ask {
            actions.push(Action::InvokeReadCallback { gatts_if, conn_id, trans_id, handle });
            proof {
                assert(actions@ =~= seq![
                    Action::InvokeReadCallback { gatts_if, conn_id, trans_id, handle },
                ]);
            }
        } else {
            actions.push(
                Action::SendResponse { gatts_if, conn_id, trans_id, handle, value: Vec::new() },
            );
        }
        actions
    }

    /// Applies a write event: stores the truncated payload, hands it to
    /// the declared write callback, echoes the current value when asked.
    fn on_write(
        &mut self,
        gatts_if: u8,
        conn_id: u16,
        trans_id: u32,
        handle: u16,
        need_response: bool,
        value: &Vec<u8>,
    ) -> (actions: Vec<Action>)
        requires
            old(self).wf(),
        ensures
            final(self).wf(),
            write_post(
                *old(self),
                *final(self),
                actions@,
                gatts_if,
                conn_id,
                trans_id,
                handle,
                need_response,
                value@,
            ),
    {
        let mut actions: Vec<Action> = Vec::new();
        let found = self.registry.find(handle);
        let mut char_at: Option<usize> = None;
        let mut max_len: u16 = 0;
        let mut has_cb = false;
        match found {
            Some(i) => {
                match &self.registry.entries[i].entity {
                    BoundEntity::Characteristic {
                        max_value_length, has_write_callback, ..
                    } => {
                        char_at = Some(i);
                        max_len = *max_value_length;
                        has_cb = *has_write_callback;
                    },
                    _ => {},
                }
            },
            None => {},
        }
        match char_at {
            Some(i) => {
                let stored = bytes_up_to(value, max_len as usize);
                if has_cb {
                    actions.push(
                        Action::InvokeWriteCallback {
                            conn_id,
                            handle,
                            value: copy_bytes(&stored),
                        },
                    );
                }
                if need_response {
                    actions.push(
                        Action::SendResponse {
                            gatts_if,
                            conn_id,
                            trans_id,
                            handle,
                            value: bytes_up_to(&stored, RESPONSE_BUFFER_LENGTH),
                        },
                    );
                }
                self.registry.update_value(i, stored);
            },
            None => {
                if need_response {
                    actions.push(
                        Action::SendResponse {
                            gatts_if,
                            conn_id,
                            trans_id,
                            handle,
                            value: Vec::new(),
                        },
                    );
                }
            },
        }
        actions
    }

    /// The single event entry point: every controller event lands here and
    /// is demultiplexed by kind; see [`dispatch_post`] for what each kind
    /// does.
    pub fn handle_event(&mut self, event: GattsEvent) -> (actions: Vec<Action>)
        requires
            old(self).wf(),
        ensures
            final(self).wf(),
            dispatch_post(*old(self), *final(self), actions@, event),
    {
        match &event {
            GattsEvent::Registered { success, .. } => {
                if *success {
                    self.on_registration_event(&event)
                } else {
                    Vec::new()
                }
            },
            GattsEvent::ServiceCreated { success, .. } => {
                if *success {
                    self.on_registration_event(&event)
                } else {
                    Vec::new()
                }
            },
            GattsEvent::ServiceStarted { success, .. } => {
                if *success {
                    self.on_registration_event(&event)
                } else {
                    Vec::new()
                }
            },
            GattsEvent::CharacteristicAdded { success, .. } => {
                if *success {
                    self.on_registration_event(&event)
                } else {
                    Vec::new()
                }
            },
            GattsEvent::DescriptorAdded { success, .. } => {
                if *success {
                    self.on_registration_event(&event)
                } else {
                    Vec::new()
                }
            },
            GattsEvent::Connected { gatts_if, conn_id } => {
                self.session = Some(Session { gatts_if: *gatts_if, conn_id: *conn_id });
                Vec::new()
            },
            GattsEvent::Disconnected { .. } => {
                self.session = None;
                let mut actions: Vec<Action> = Vec::new();
                actions.push(Action::StartAdvertising);
                proof {
                    assert(actions@ =~= seq![Action::StartAdvertising]);
                }
                actions
            },
            GattsEvent::Read { gatts_if, conn_id, trans_id, handle } => {
                self.on_read(*gatts_if, *conn_id, *trans_id, *handle)
            },
            GattsEvent::Write { gatts_if, conn_id, trans_id, handle, need_response, value } => {
                self.on_write(*gatts_if, *conn_id, *trans_id, *handle, *need_response, value)
            },
            GattsEvent::ResponseSent { .. } => Vec::new(),
            GattsEvent::AttributeValueSet { .. } => Vec::new(),
        }
    }
}

/// Bytes equal to the given ones.
fn copy_bytes(value: &Vec<u8>) -> (r: Vec<u8>)
    ensures
        r@ == value@,
{
    bytes_up_to(value, value.len())
}

/// The entry is a characteristic binding whose UUID equals `uuid` under
/// UUID equality.
pub open spec fn is_char_binding_with_uuid(e: BoundEntity, uuid: BleUuid) -> bool {
    match e {
        BoundEntity::Characteristic { uuid: u, .. } => uuid_eq(u, uuid),
        _ => false,
    }
}

/// The handle of the first characteristic binding with this UUID, from
/// index `i` on.
pub open spec fn spec_char_handle_from(entries: Seq<RegistryEntry>, uuid: BleUuid, i: int) -> Option<
    u16,
>
    decreases entries.len() - i,
{
    if i >= entries.len() {
        None
    } else if is_char_binding_with_uuid(entries[i].entity, uuid) {
        Some(entries[i].handle)
    } else {
        spec_char_handle_from(entries, uuid, i + 1)
    }
}

/// Whether a push to the characteristic at `handle` can go out: the link
/// is up and the characteristic declares the matching push property.
pub open spec fn can_push(s: GattServer, handle: u16, confirm: bool) -> bool {
    s.spec_is_connected() && match s.registry.spec_resolve(handle) {
        Some(BoundEntity::Characteristic { properties, .. }) => if confirm {
            properties.indicate
        } else {
            properties.notify
        },
        _ => false,
    }
}

/// The action is the push of exactly `v` to the live session.
pub open spec fn push_action(s: GattServer, handle: u16, v: Seq<u8>, confirm: bool, a: Action) -> bool {
    s.session matches Some(sess) && a matches Action::SendIndication {
        gatts_if,
        conn_id,
        handle: h,
        value,
        confirm: c,
    } && gatts_if == sess.gatts_if && conn_id == sess.conn_id && h == handle && value@ == v && c
        == confirm
}

impl GattServer {
    /// The push shared by notify and indicate.
    fn push_value(&self, handle: u16, value: Vec<u8>, confirm: bool) -> (r: Option<Action>)
        requires
            self.wf(),
        ensures
            r is Some <==> can_push(*self, handle, confirm),
            r matches Some(a) ==> push_action(*self, handle, value@, confirm, a),
    {
        let sess = match &self.session {
            Some(s) => *s,
            None => {
                return None;
            },
        };
        match self.registry.resolve(handle) {
            Some(entity) => match entity {
                BoundEntity::Characteristic { properties, .. } => {
                    let allowed = if confirm {
                        properties.indicate
                    } else {
                        properties.notify
                    };
                    if allowed {
                        Some(
                            Action::SendIndication {
                                gatts_if: sess.gatts_if,
                                conn_id: sess.conn_id,
                                handle,
                                value,
                                confirm,
                            },
                        )
                    } else {
                        None
                    }
                },
                _ => None,
            },
            None => None,
        }
    }

    /// Pushes `value` to the central without acknowledgement: best-effort
    /// and fire-and-forget.  Nothing goes out — and nothing fails — unless
    /// the link is up and the characteristic at `handle` declares the
    /// notify property.
    pub fn notify(&self, handle: u16, value: Vec<u8>) -> (r: Option<Action>)
        requires
            self.wf(),
        ensures
            !self.spec_is_connected() ==> r is None,
            r is Some <==> can_push(*self, handle, false),
            r matches Some(a) ==> push_action(*self, handle, value@, false, a),
    {
        self.push_value(handle, value, false)
    }

    /// Pushes `value` to the central with acknowledgement: best-effort and
    /// fire-and-forget.  Nothing goes out — and nothing fails — unless the
    /// link is up and the characteristic at `handle` declares the indicate
    /// property.
    pub fn indicate(&self, handle: u16, value: Vec<u8>) -> (r: Option<Action>)
        requires
            self.wf(),
        ensures
            !self.spec_is_connected() ==> r is None,
            r is Some <==> can_push(*self, handle, true),
            r matches Some(a) ==> push_action(*self, handle, value@, true, a),
    {
        self.push_value(handle, value, true)
    }

    /// Replaces the cached value of the characteristic at `handle`,
    /// truncated to its configured maximum; reports whether the handle is
    /// a bound characteristic.
    pub fn set_characteristic_value(&mut self, handle: u16, value: &Vec<u8>) -> (updated: bool)
        requires
            old(self).wf(),
        ensures
            final(self).wf(),
            config_unchanged(*old(self), *final(self)),
            final(self).session == old(self).session,
            final(self).phases@ == old(self).phases@,
            final(self).interfaces@ == old(self).interfaces@,
            updated == (old(self).registry.spec_resolve(handle) matches Some(
                BoundEntity::Characteristic { .. },
            )),
            !updated ==> final(self).registry.entries@ == old(self).registry.entries@,
            updated ==> match old(self).registry.spec_resolve(handle) {
                Some(BoundEntity::Characteristic { max_value_length, .. }) => {
                    let i = old(self).registry.spec_index_of(handle);
                    &&& final(self).registry.entries@.len() == old(self).registry.entries@.len()
                    &&& forall|j: int|
                        0 <= j < old(self).registry.entries@.len() && j != i
                            ==> final(self).registry.entries@[j] == old(self).registry.entries@[j]
                    &&& final(self).registry.entries@[i].handle == handle
                    &&& crate::registry::entity_with_value(
                        old(self).registry.entries@[i].entity,
                        final(self).registry.entries@[i].entity,
                        spec_truncated(value@, max_value_length as int),
                    )
                },
                _ => false,
            },
    {
        let found = self.registry.find(handle);
        let mut char_at: Option<usize> = None;
        let mut max_len: u16 = 0;
        match found {
            Some(i) => {
                match &self.registry.entries[i].entity {
                    BoundEntity::Characteristic { max_value_length, .. } => {
                        char_at = Some(i);
                        max_len = *max_value_length;
                    },
                    _ => {},
                }
            },
            None => {},
        }
        match char_at {
            Some(i) => {
                let stored = bytes_up_to(value, max_len as usize);
                self.registry.update_value(i, stored);
                true
            },
            None => false,
        }
    }

    /// The handle bound to the first characteristic with this UUID, once
    /// its add event arrived.
    pub fn characteristic_handle(&self, uuid: &BleUuid) -> (r: Option<u16>)
        requires
            self.wf(),
        ensures
            r == spec_char_handle_from(self.registry.entries@, *uuid, 0),
    {
        let n = self.registry.entries.len();
        let mut i: usize = 0;
        while i < n
            invariant
                i <= n,
                n == self.registry.entries@.len(),
                self.wf(),
                spec_char_handle_from(self.registry.entries@, *uuid, 0) == spec_char_handle_from(
                    self.registry.entries@,
                    *uuid,
                    i as int,
                ),
            decreases n - i,
        {
            let hit = match &self.registry.entries[i].entity {
                BoundEntity::Characteristic { uuid: u, .. } => *u == *uuid,
                _ => false,
            };
            if hit {
                return Some(self.registry.entries[i].handle);
            }
            i += 1;
        }
        None
    }
}

/// Registration transitions are independent of connection traffic: a
/// connect, disconnect, read, write or confirmation event arriving between
/// two registration events leaves every profile's phase and assigned
/// interface exactly as they were, so the registration order is the same
/// whatever such events are interleaved.
pub proof fn lemma_unrelated_events_preserve_registration(
    pre: GattServer,
    post: GattServer,
    actions: Seq<Action>,
    e: GattsEvent,
)
    requires
        dispatch_post(pre, post, actions, e),
        !is_registration_event(e),
    ensures
        post.phases@ == pre.phases@,
        post.interfaces@ == pre.interfaces@,
{
}

/// A registration event advances at most one profile — the first whose
/// awaited completion it is — and advances it to exactly the unique next
/// phase of the registration order: app registration, then per service
/// creation before start, start before any characteristic, characteristics
/// strictly in declaration order, each notify- or indicate-capable one
/// followed at once by its descriptor.  A non-success status advances
/// nothing.
pub proof fn lemma_registration_advances_in_order(
    pre: GattServer,
    post: GattServer,
    actions: Seq<Action>,
    e: GattsEvent,
)
    requires
        dispatch_post(pre, post, actions, e),
        is_registration_event(e),
    ensures
        post.phases@.len() == pre.phases@.len(),
        forall|p: int|
            0 <= p < pre.phases@.len() ==> post.phases@[p] == pre.phases@[p] || (event_success(e)
                && first_matching_profile(pre, e) == Some(p) && post.phases@[p] == spec_next_phase(
                pre.profiles@[p],
                pre.phases@[p],
                e,
            )),
{
    assert(registration_post(pre, post, actions, e));
    if event_success(e) {
        match first_matching_profile(pre, e) {
            None => {
                assert(post.phases@ == pre.phases@);
            },
            Some(q) => {
                lemma_first_match_in_range(pre, e, 0);
                assert(0 <= q < pre.phases@.len());
                assert(post.phases@ == pre.phases@.update(
                    q,
                    spec_next_phase(pre.profiles@[q], pre.phases@[q], e),
                ));
                assert(post.phases@.len() == pre.phases@.len());
                assert forall|p: int| 0 <= p < pre.phases@.len() implies post.phases@[p]
                    == pre.phases@[p] || (event_success(e) && first_matching_profile(pre, e)
                    == Some(p) && post.phases@[p] == spec_next_phase(
                    pre.profiles@[p],
                    pre.phases@[p],
                    e,
                )) by {
                    if p != q {
                        assert(post.phases@[p] == pre.phases@[p]);
                    }
                }
            },
        }
    } else {
        assert(post.phases@ == pre.phases@);
    }
}

/// After a disconnect event the engine is no longer connected, so a
/// subsequent notify or indicate is answered with nothing at all.
pub proof fn lemma_disconnect_disarms_push(
    pre: GattServer,
    post: GattServer,
    actions: Seq<Action>,
    e: GattsEvent,
    handle: u16,
    confirm: bool,
)
    requires
        dispatch_post(pre, post, actions, e),
        e is Disconnected,
    ensures
        !post.spec_is_connected(),
        !can_push(post, handle, confirm),
{
}

/// A write beyond the configured maximum is truncated to exactly that
/// maximum and never rejected: the stored value is the first
/// `max_value_length` bytes of the payload, and the write callback, where
/// one is declared, observes only those bytes.
pub proof fn lemma_write_truncated_to_maximum(
    pre: GattServer,
    post: GattServer,
    actions: Seq<Action>,
    e: GattsEvent,
)
    requires
        dispatch_post(pre, post, actions, e),
        e is Write,
        match e {
            GattsEvent::Write { handle, .. } => pre.registry.spec_resolve(handle) matches Some(
                BoundEntity::Characteristic { .. },
            ),
            _ => false,
        },
    ensures
        match e {
            GattsEvent::Write { conn_id, handle, value, .. } => match pre.registry.spec_resolve(
                handle,
            ) {
                Some(BoundEntity::Characteristic { max_value_length, has_write_callback, .. }) => {
                    let i = pre.registry.spec_index_of(handle);
                    let stored = spec_truncated(value@, max_value_length as int);
                    &&& stored.len() <= max_value_length
                    &&& crate::registry::entity_with_value(
                        pre.registry.entries@[i].entity,
                        post.registry.entries@[i].entity,
                        stored,
                    )
                    &&& (has_write_callback ==> write_callback_action(
                        actions[0],
                        conn_id,
                        handle,
                        stored,
                    ))
                },
                _ => true,
            },
            _ => true,
        },
{
}

/// What truncating a payload to a maximum length leaves.
pub open spec fn spec_truncated(v: Seq<u8>, max: int) -> Seq<u8> {
    if v.len() <= max {
        v
    } else {
        v.take(max)
    }
}

/// The first `max` bytes of a payload, or all of it when shorter.
pub fn bytes_up_to(value: &Vec<u8>, max: usize) -> (r: Vec<u8>)
    ensures
        r@ == spec_truncated(value@, max as int),
{
    let n = if value.len() <= max {
        value.len()
    } else {
        max
    };
    let mut r: Vec<u8> = Vec::new();
    let mut i: usize = 0;
    while i < n
        invariant
            i <= n,
            n <= value@.len(),
            r@ == value@.take(i as int),
        decreases n - i,
    {
        r.push(value[i]);
        proof {
            assert(r@ =~= value@.take(i as int + 1));
        }
        i += 1;
    }
    proof {
        if value@.len() <= max as int {
            assert(value@.take(value@.len() as int) =~= value@);
        }
    }
    r
}

/// Whether the event is one of the five registration completion events.
pub open spec fn is_registration_event(e: GattsEvent) -> bool {
    ||| e is Registered
    ||| e is ServiceCreated
    ||| e is ServiceStarted
    ||| e is CharacteristicAdded
    ||| e is DescriptorAdded
}

/// The success flag of a registration event; any other event carries none.
pub open spec fn event_success(e: GattsEvent) -> bool {
    match e {
        GattsEvent::Registered { success, .. } => success,
        GattsEvent::ServiceCreated { success, .. } => success,
        GattsEvent::ServiceStarted { success, .. } => success,
        GattsEvent::CharacteristicAdded { success, .. } => success,
        GattsEvent::DescriptorAdded { success, .. } => success,
        _ => true,
    }
}

/// Whether the event is the completion event the profile at `p` waits on:
/// the kind, the addressing — application id before registration, assigned
/// interface after — and the reported entity all fit the awaited one.
pub open spec fn event_matches_profile(s: GattServer, e: GattsEvent, p: int) -> bool {
    match e {
        GattsEvent::Registered { app_id, .. } => s.profiles@[p].app_id == app_id && s.phases@[p]
            is AppRegistering,
        GattsEvent::ServiceCreated { gatts_if, uuid, .. } => s.interfaces@[p] == gatts_if && match s
            .phases@[p] {
            RegistrationPhase::ServiceCreating { service } => uuid_eq(
                s.profiles@[p].services@[service as int].uuid,
                uuid,
            ),
            _ => false,
        },
        GattsEvent::ServiceStarted { gatts_if, service_handle, .. } => s.interfaces@[p] == gatts_if
            && match s.phases@[p] {
            RegistrationPhase::ServiceStarting { service_handle: h, .. } => h == service_handle,
            _ => false,
        },
        GattsEvent::CharacteristicAdded { gatts_if, service_handle, uuid, .. } => s.interfaces@[p]
            == gatts_if && match s.phases@[p] {
            RegistrationPhase::CharacteristicAdding { service, service_handle: h, characteristic } =>
                h == service_handle && uuid_eq(
                s.profiles@[p].services@[service as int].characteristics@[characteristic as int].uuid,
                uuid,
            ),
            _ => false,
        },
        GattsEvent::DescriptorAdded { gatts_if, service_handle, .. } => s.interfaces@[p] == gatts_if
            && match s.phases@[p] {
            RegistrationPhase::DescriptorAdding { service_handle: h, .. } => h == service_handle,
            _ => false,
        },
        _ => false,
    }
}

/// The first profile, from index `i` on, whose awaited event this is.
pub open spec fn first_matching_profile_from(s: GattServer, e: GattsEvent, i: int) -> Option<int>
    decreases s.phases@.len() - i,
{
    if i >= s.phases@.len() {
        None
    } else if event_matches_profile(s, e, i) {
        Some(i)
    } else {
        first_matching_profile_from(s, e, i + 1)
    }
}

/// The profile an event is correlated to: the first whose awaited
/// completion it is.
pub open spec fn first_matching_profile(s: GattServer, e: GattsEvent) -> Option<int> {
    first_matching_profile_from(s, e, 0)
}

/// A match found from `i` on lies between `i` and the profile count and is
/// a real match.
proof fn lemma_first_match_in_range(s: GattServer, e: GattsEvent, i: int)
    requires
        0 <= i,
    ensures
        first_matching_profile_from(s, e, i) matches Some(p) ==> i <= p < s.phases@.len()
            && event_matches_profile(s, e, p),
    decreases s.phases@.len() - i,
{
    if i >= s.phases@.len() {
    } else if event_matches_profile(s, e, i) {
    } else {
        lemma_first_match_in_range(s, e, i + 1);
    }
}

/// The declared profiles and the configuration are never changed by event
/// dispatch.
pub open spec fn config_unchanged(pre: GattServer, post: GattServer) -> bool {
    &&& post.profiles == pre.profiles
    &&& post.device_name == pre.device_name
    &&& post.appearance == pre.appearance
    &&& post.advertised == pre.advertised
    &&& post.started == pre.started
}

/// The registration state — phases, interfaces and handle bindings — is
/// untouched.
pub open spec fn registration_unchanged(pre: GattServer, post: GattServer) -> bool {
    &&& post.phases@ == pre.phases@
    &&& post.interfaces@ == pre.interfaces@
    &&& post.registry.entries@ == pre.registry.entries@
}

/// The entry is a characteristic binding of the declared characteristic
/// `c` at the given position, with `c`'s initial value as cached value.
pub open spec fn char_binding_matches(
    e: BoundEntity,
    profile: int,
    service: int,
    characteristic: int,
    c: crate::entities::Characteristic,
) -> bool {
    match e {
        BoundEntity::Characteristic {
            profile: p2,
            service: s2,
            characteristic: c2,
            uuid,
            max_value_length,
            properties,
            has_read_callback,
            has_write_callback,
            value,
        } => p2 == profile && s2 == service && c2 == characteristic && uuid == c.uuid
            && max_value_length == c.max_value_length && properties == c.properties
            && has_read_callback == c.has_read_callback && has_write_callback
            == c.has_write_callback && value@ == c.value@,
        _ => false,
    }
}

/// Binding a characteristic handle: nothing changes when the handle is
/// already bound, else one binding of the declared characteristic lands at
/// the end.
pub open spec fn binds_characteristic(
    pre: Seq<RegistryEntry>,
    post: Seq<RegistryEntry>,
    handle: u16,
    profile: int,
    service: int,
    characteristic: int,
    c: crate::entities::Characteristic,
) -> bool {
    if exists|i: int| 0 <= i < pre.len() && pre[i].handle == handle {
        post == pre
    } else {
        &&& post.len() == pre.len() + 1
        &&& post.take(pre.len() as int) == pre
        &&& post.last().handle == handle
        &&& char_binding_matches(post.last().entity, profile, service, characteristic, c)
    }
}

/// The action is the invocation of a write callback with exactly `v`.
pub open spec fn write_callback_action(a: Action, conn_id: u16, handle: u16, v: Seq<u8>) -> bool {
    a matches Action::InvokeWriteCallback { conn_id: c, handle: h, value: w } && c == conn_id && h
        == handle && w@ == v
}

/// The action is a status-OK response carrying exactly `v`.
pub open spec fn response_action(
    a: Action,
    gatts_if: u8,
    conn_id: u16,
    trans_id: u32,
    handle: u16,
    v: Seq<u8>,
) -> bool {
    a matches Action::SendResponse { gatts_if: g, conn_id: c, trans_id: t, handle: h, value: w }
        && g == gatts_if && c == conn_id && t == trans_id && h == handle && w@ == v
}

/// What a registration event does: nothing without success or a matching
/// profile; otherwise the matched profile advances to the unique next
/// phase, the reported handle is bound where the event assigns one, and
/// exactly the next request goes out.
pub open spec fn registration_post(
    pre: GattServer,
    post: GattServer,
    actions: Seq<Action>,
    e: GattsEvent,
) -> bool {
    &&& config_unchanged(pre, post)
    &&& post.session == pre.session
    &&& if !event_success(e) {
        registration_unchanged(pre, post) && actions.len() == 0
    } else {
        match first_matching_profile(pre, e) {
            None => registration_unchanged(pre, post) && actions.len() == 0,
            Some(p) => {
                let prof = pre.profiles@[p];
                let ph = spec_next_phase(prof, pre.phases@[p], e);
                &&& post.phases@ == pre.phases@.update(p, ph)
                &&& registration_bindings(pre, post, e, p)
                &&& actions == spec_entry_action(prof, post.interfaces@[p], ph)
            },
        }
    }
}

/// The interface recording and handle binding a success event performs on
/// its matched profile.
pub open spec fn registration_bindings(
    pre: GattServer,
    post: GattServer,
    e: GattsEvent,
    p: int,
) -> bool {
    match e {
        GattsEvent::Registered { gatts_if, .. } => {
            &&& post.interfaces@ == pre.interfaces@.update(p, gatts_if)
            &&& post.registry.entries@ == pre.registry.entries@
        },
        GattsEvent::ServiceCreated { service_handle, .. } => {
            &&& post.interfaces@ == pre.interfaces@
            &&& match pre.phases@[p] {
                RegistrationPhase::ServiceCreating { service } => post.registry.entries@
                    == spec_bind(
                    pre.registry.entries@,
                    service_handle,
                    BoundEntity::Service { profile: p as usize, service },
                ),
                _ => false,
            }
        },
        GattsEvent::ServiceStarted { .. } => {
            &&& post.interfaces@ == pre.interfaces@
            &&& post.registry.entries@ == pre.registry.entries@
        },
        GattsEvent::CharacteristicAdded { attr_handle, .. } => {
            &&& post.interfaces@ == pre.interfaces@
            &&& match pre.phases@[p] {
                RegistrationPhase::CharacteristicAdding { service, characteristic, .. } =>
                    binds_characteristic(
                    pre.registry.entries@,
                    post.registry.entries@,
                    attr_handle,
                    p,
                    service as int,
                    characteristic as int,
                    pre.profiles@[p].services@[service as int].characteristics@[characteristic as int],
                ),
                _ => false,
            }
        },
        GattsEvent::DescriptorAdded { attr_handle, .. } => {
            &&& post.interfaces@ == pre.interfaces@
            &&& match pre.phases@[p] {
                RegistrationPhase::DescriptorAdding { service, characteristic, .. } => post.registry.entries@
                    == spec_bind(
                    pre.registry.entries@,
                    attr_handle,
                    BoundEntity::Descriptor {
                        profile: p as usize,
                        service,
                        characteristic,
                    },
                ),
                _ => false,
            }
        },
        _ => false,
    }
}

/// What a connect event does: it records the session and nothing else.
pub open spec fn connected_post(
    pre: GattServer,
    post: GattServer,
    actions: Seq<Action>,
    gatts_if: u8,
    conn_id: u16,
) -> bool {
    &&& config_unchanged(pre, post)
    &&& registration_unchanged(pre, post)
    &&& post.session == Some(Session { gatts_if, conn_id })
    &&& actions.len() == 0
}

/// What a disconnect event does: it clears the session and restarts
/// advertising, which the controller never resumes by itself.
pub open spec fn disconnected_post(pre: GattServer, post: GattServer, actions: Seq<Action>) -> bool {
    &&& config_unchanged(pre, post)
    &&& registration_unchanged(pre, post)
    &&& post.session is None
    &&& actions == seq![Action::StartAdvertising]
}

/// What a read event does: nothing changes; a characteristic with a read
/// callback has the callback asked for its bytes, anything else — a
/// characteristic without one, another binding, an unknown handle — is
/// answered at once with an empty payload and status OK.
pub open spec fn read_post(
    pre: GattServer,
    post: GattServer,
    actions: Seq<Action>,
    gatts_if: u8,
    conn_id: u16,
    trans_id: u32,
    handle: u16,
) -> bool {
    &&& config_unchanged(pre, post)
    &&& registration_unchanged(pre, post)
    &&& post.session == pre.session
    &&& {
        let ask = match pre.registry.spec_resolve(handle) {
            Some(BoundEntity::Characteristic { has_read_callback, .. }) => has_read_callback,
            _ => false,
        };
        if ask {
            actions == seq![Action::InvokeReadCallback { gatts_if, conn_id, trans_id, handle }]
        } else {
            actions.len() == 1 && response_action(
                actions[0],
                gatts_if,
                conn_id,
                trans_id,
                handle,
                Seq::empty(),
            )
        }
    }
}

/// What a write event does: a write to a bound characteristic stores the
/// payload truncated to the configured maximum — never rejected — hands
/// the truncated bytes to the write callback where one is declared, and,
/// when the peer asked for a response, echoes the now-current value; a
/// write to anything else is accepted without effect and answered empty
/// when a response is asked for.
pub open spec fn write_post(
    pre: GattServer,
    post: GattServer,
    actions: Seq<Action>,
    gatts_if: u8,
    conn_id: u16,
    trans_id: u32,
    handle: u16,
    need_response: bool,
    value: Seq<u8>,
) -> bool {
    &&& config_unchanged(pre, post)
    &&& post.session == pre.session
    &&& post.phases@ == pre.phases@
    &&& post.interfaces@ == pre.interfaces@
    &&& match pre.registry.spec_resolve(handle) {
        Some(BoundEntity::Characteristic { max_value_length, has_write_callback, .. }) => {
            let i = pre.registry.spec_index_of(handle);
            let stored = spec_truncated(value, max_value_length as int);
            &&& post.registry.entries@.len() == pre.registry.entries@.len()
            &&& forall|j: int|
                0 <= j < pre.registry.entries@.len() && j != i ==> post.registry.entries@[j]
                    == pre.registry.entries@[j]
            &&& post.registry.entries@[i].handle == handle
            &&& crate::registry::entity_with_value(
                pre.registry.entries@[i].entity,
                post.registry.entries@[i].entity,
                stored,
            )
            &&& actions.len() == (if has_write_callback { 1int } else { 0int })
                + (if need_response { 1int } else { 0int })
            &&& (has_write_callback ==> write_callback_action(actions[0], conn_id, handle, stored))
            &&& (need_response ==> response_action(
                actions[actions.len() - 1],
                gatts_if,
                conn_id,
                trans_id,
                handle,
                spec_truncated(stored, RESPONSE_BUFFER_LENGTH as int),
            ))
        },
        _ => {
            &&& post.registry.entries@ == pre.registry.entries@
            &&& if need_response {
                actions.len() == 1 && response_action(
                    actions[0],
                    gatts_if,
                    conn_id,
                    trans_id,
                    handle,
                    Seq::empty(),
                )
            } else {
                actions.len() == 0
            }
        },
    }
}

/// What a confirmation event does: nothing; it is observed only.
pub open spec fn passive_post(pre: GattServer, post: GattServer, actions: Seq<Action>) -> bool {
    &&& config_unchanged(pre, post)
    &&& registration_unchanged(pre, post)
    &&& post.session == pre.session
    &&& actions.len() == 0
}

/// The full contract of event dispatch, by event kind.
pub open spec fn dispatch_post(
    pre: GattServer,
    post: GattServer,
    actions: Seq<Action>,
    e: GattsEvent,
) -> bool {
    match e {
        GattsEvent::Registered { .. } => registration_post(pre, post, actions, e),
        GattsEvent::ServiceCreated { .. } => registration_post(pre, post, actions, e),
        GattsEvent::ServiceStarted { .. } => registration_post(pre, post, actions, e),
        GattsEvent::CharacteristicAdded { .. } => registration_post(pre, post, actions, e),
        GattsEvent::DescriptorAdded { .. } => registration_post(pre, post, actions, e),
        GattsEvent::Connected { gatts_if, conn_id } => connected_post(
            pre,
            post,
            actions,
            gatts_if,
            conn_id,
        ),
        GattsEvent::Disconnected { .. } => disconnected_post(pre, post, actions),
        GattsEvent::Read { gatts_if, conn_id, trans_id, handle } => read_post(
            pre,
            post,
            actions,
            gatts_if,
            conn_id,
            trans_id,
            handle,
        ),
        GattsEvent::Write { gatts_if, conn_id, trans_id, handle, need_response, value } => write_post(
            pre,
            post,
            actions,
            gatts_if,
            conn_id,
            trans_id,
            handle,
            need_response,
            value@,
        ),
        GattsEvent::ResponseSent { .. } => passive_post(pre, post, actions),
        GattsEvent::AttributeValueSet { .. } => passive_post(pre, post, actions),
    }
}

/// The response to a read served by a user callback: the callback's bytes,
/// truncated to the fixed response buffer, sent with status OK.
pub fn read_response(gatts_if: u8, conn_id: u16, trans_id: u32, handle: u16, value: Vec<u8>) -> (r:
    Action)
    ensures
        r matches Action::SendResponse {
            gatts_if: g,
            conn_id: c,
            trans_id: t,
            handle: h,
            value: v,
        } && g == gatts_if && c == conn_id && t == trans_id && h == handle && v@ == spec_truncated(
            value@,
            RESPONSE_BUFFER_LENGTH as int,
        ),
{
    let v = bytes_up_to(&value, RESPONSE_BUFFER_LENGTH);
    Action::SendResponse { gatts_if, conn_id, trans_id, handle, value: v }
}

} // verus!

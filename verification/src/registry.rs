//! The handle registry: a process-wide table mapping controller-assigned
//! numeric handles back to the entities they were assigned to.
//!
//! A handle is bound exactly once, on the creation event that reports it;
//! a second bind of the same handle is ignored.  Resolving an unbound
//! handle answers nothing rather than failing: spurious event ordering is
//! a fact of the hardware, not an error of the engine.
//!
//! A characteristic binding also carries the runtime attributes the event
//! dispatcher needs — the live cached value, the configured maximum length
//! and the callback flags — copied out of the declaration when the handle
//! is bound.
use vstd::prelude::*;
use crate::entities::CharacteristicProperties;
use crate::uuid::BleUuid;

verus! {

/// The entity a handle was assigned to, by its position in the declared
/// profiles, with the runtime attributes of a characteristic.
#[derive(Clone, Debug)]
pub enum BoundEntity {
    /// A service declaration handle.
    Service { profile: usize, service: usize },
    /// A characteristic value handle.
    Characteristic {
        profile: usize,
        service: usize,
        characteristic: usize,
        uuid: BleUuid,
        max_value_length: u16,
        properties: CharacteristicProperties,
        has_read_callback: bool,
        has_write_callback: bool,
        value: Vec<u8>,
    },
    /// A Client Characteristic Configuration Descriptor handle.
    Descriptor { profile: usize, service: usize, characteristic: usize },
}

/// One binding of the registry.
#[derive(Clone, Debug)]
pub struct RegistryEntry {
    pub handle: u16,
    pub entity: BoundEntity,
}

/// The handle table.
#[derive(Debug)]
pub struct Registry {
    pub entries: Vec<RegistryEntry>,
}

/// What binding a handle adds: nothing when the handle is already bound,
/// one entry at the end otherwise.
pub open spec fn spec_bind(entries: Seq<RegistryEntry>, handle: u16, entity: BoundEntity) -> Seq<
    RegistryEntry,
> {
    if exists|i: int| 0 <= i < entries.len() && entries[i].handle == handle {
        entries
    } else {
        entries.push(RegistryEntry { handle, entity })
    }
}

/// The two entities are characteristic bindings of the same
/// characteristic, the second holding `v` as its cached value.
pub open spec fn entity_with_value(pre: BoundEntity, post: BoundEntity, v: Seq<u8>) -> bool {
    match (pre, post) {
        (
            BoundEntity::Characteristic {
                profile,
                service,
                characteristic,
                uuid,
                max_value_length,
                properties,
                has_read_callback,
                has_write_callback,
                value: _,
            },
            BoundEntity::Characteristic {
                profile: p2,
                service: s2,
                characteristic: c2,
                uuid: u2,
                max_value_length: m2,
                properties: pr2,
                has_read_callback: r2,
                has_write_callback: w2,
                value: v2,
            },
        ) => p2 == profile && s2 == service && c2 == characteristic && u2 == uuid && m2
            == max_value_length && pr2 == properties && r2 == has_read_callback && w2
            == has_write_callback && v2@ == v,
        _ => false,
    }
}

impl Registry {
    /// No two entries share a handle.
    pub open spec fn wf(&self) -> bool {
        forall|i: int, j: int|
            0 <= i < j < self.entries@.len() ==> self.entries@[i].handle != self.entries@[
                j
            ].handle
    }

    /// Whether the handle is bound.
    pub open spec fn spec_contains(&self, handle: u16) -> bool {
        exists|i: int| 0 <= i < self.entries@.len() && self.entries@[i].handle == handle
    }

    /// The index of the binding of a bound handle.
    pub open spec fn spec_index_of(&self, handle: u16) -> int {
        choose|i: int| 0 <= i < self.entries@.len() && self.entries@[i].handle == handle
    }

    /// The entity a handle resolves to, if it is bound.
    pub open spec fn spec_resolve(&self, handle: u16) -> Option<BoundEntity> {
        if self.spec_contains(handle) {
            Some(self.entries@[self.spec_index_of(handle)].entity)
        } else {
            None
        }
    }

    /// An empty registry.
    pub fn new() -> (r: Self)
        ensures
            r.entries@ == Seq::<RegistryEntry>::empty(),
            r.wf(),
    {
        Registry { entries: Vec::new() }
    }

    /// The index of the binding of a handle, if it is bound.
    pub fn find(&self, handle: u16) -> (r: Option<usize>)
        requires
            self.wf(),
        ensures
            match r {
                Some(i) => self.spec_contains(handle) && i == self.spec_index_of(handle) && i
                    < self.entries@.len() && self.entries@[i as int].handle == handle,
                None => !self.spec_contains(handle),
            },
    {
        let n = self.entries.len();
        let mut i: usize = 0;
        while i < n
            invariant
                i <= n,
                n == self.entries@.len(),
                self.wf(),
                forall|q: int| 0 <= q < i as int ==> self.entries@[q].handle != handle,
            decreases n - i,
        {
            if self.entries[i].handle == handle {
                proof {
                    assert(self.spec_contains(handle));
                    let w = self.spec_index_of(handle);
                    assert(self.entries@[w].handle == handle);
                    assert(w == i as int);
                }
                return Some(i);
            }
            i += 1;
        }
        proof {
            assert(!self.spec_contains(handle));
        }
        None
    }

    /// Binds a handle to an entity.  Exactly one bind per handle takes
    /// effect: a handle that is already bound is left untouched and the
    /// call reports it.
    pub fn bind(&mut self, handle: u16, entity: BoundEntity) -> (bound: bool)
        requires
            old(self).wf(),
        ensures
            final(self).wf(),
            bound == !old(self).spec_contains(handle),
            final(self).entries@ == spec_bind(old(self).entries@, handle, entity),
    {
        match self.find(handle) {
            Some(_) => false,
            None => {
                let ghost before = self.entries@;
                self.entries.push(RegistryEntry { handle, entity });
                proof {
                    assert forall|i: int, j: int|
                        0 <= i < j < self.entries@.len() implies self.entries@[i].handle != self
                        .entries@[j].handle by {
                        if j < before.len() {
                            assert(self.entries@[i] == before[i]);
                            assert(self.entries@[j] == before[j]);
                        } else {
                            assert(self.entries@[j].handle == handle);
                            assert(self.entries@[i] == before[i]);
                        }
                    }
                }
                true
            },
        }
    }

    /// Replaces the cached value of the characteristic binding at `i`.
    pub fn update_value(&mut self, i: usize, value: Vec<u8>)
        requires
            old(self).wf(),
            i < old(self).entries@.len(),
            old(self).entries@[i as int].entity is Characteristic,
        ensures
            final(self).wf(),
            final(self).entries@.len() == old(self).entries@.len(),
            forall|j: int|
                0 <= j < old(self).entries@.len() && j != i as int ==> final(self).entries@[j]
                    == old(self).entries@[j],
            final(self).entries@[i as int].handle == old(self).entries@[i as int].handle,
            entity_with_value(
                old(self).entries@[i as int].entity,
                final(self).entries@[i as int].entity,
                value@,
            ),
    {
        let handle = self.entries[i].handle;
        let entity = match &self.entries[i].entity {
            BoundEntity::Characteristic {
                profile,
                service,
                characteristic,
                uuid,
                max_value_length,
                properties,
                has_read_callback,
                has_write_callback,
                value: _,
            } => BoundEntity::Characteristic {
                profile: *profile,
                service: *service,
                characteristic: *characteristic,
                uuid: *uuid,
                max_value_length: *max_value_length,
                properties: *properties,
                has_read_callback: *has_read_callback,
                has_write_callback: *has_write_callback,
                value,
            },
            _ => {
                proof {
                    assert(false);
                }
                BoundEntity::Service { profile: 0, service: 0 }
            },
        };
        self.entries[i] = RegistryEntry { handle, entity };
        proof {
            assert forall|a: int, b: int|
                0 <= a < b < self.entries@.len() implies self.entries@[a].handle != self.entries@[
                b
            ].handle by {
                assert(self.entries@[a].handle == old(self).entries@[a].handle);
                assert(self.entries@[b].handle == old(self).entries@[b].handle);
            }
        }
    }

    /// The entity a handle resolves to; nothing for an unbound handle.
    pub fn resolve(&self, handle: u16) -> (r: Option<&BoundEntity>)
        requires
            self.wf(),
        ensures
            match r {
                Some(e) => self.spec_resolve(handle) == Some(*e),
                None => self.spec_resolve(handle) is None,
            },
    {
        match self.find(handle) {
            Some(i) => Some(&self.entries[i].entity),
            None => None,
        }
    }
}

} // verus!

//! Identifiers carried on the wire and the handle that names one exported object.

use vstd::prelude::*;

verus! {

/// Id of a method, unique within its trait.
pub type MethodId = u32;

/// Id of a service trait, the same in every module of a process group.
pub type TraitId = u16;

/// Slot number of an exported object in its port's service registry.
pub type ObjectIndex = u16;

/// Id of a port within one module.
pub type PortId = u16;

/// Key of one logical module instance inside a process.
pub type InstanceKey = u32;

/// Marks a slot index that has not been decided.
pub const UNDECIDED_INDEX: ObjectIndex = 0xffff;

/// Marks a trait id that has not been resolved.
pub const UNDECIDED_TRAIT: TraitId = 0xffff;

/// Marks a port id that has not been decided.
pub const UNDECIDED_PORT: PortId = 0xffff;

/// Marks a method id that has not been resolved.
pub const UNDECIDED_METHOD: MethodId = 0xffff_ffff;

/// Names one object in the service registry of the port that exported it.
#[derive(PartialEq, Eq, Structural, Debug, Clone, Copy)]
pub struct ServiceObjectId {
    pub trait_id: TraitId,
    pub index: ObjectIndex,
}

/// A handle to an exported object. It names the object; it never owns it.
#[derive(PartialEq, Eq, Structural, Debug)]
pub struct HandleInstance {
    pub id: ServiceObjectId,
    /// Port id on the exporting side.
    pub port_id_exporter: PortId,
    /// Port id on the importing side.
    pub port_id_importer: PortId,
}

impl HandleInstance {
    /// The empty handle: every field holds its "undecided" sentinel.
    pub open spec fn is_empty_handle(&self) -> bool {
        &&& self.id.trait_id == UNDECIDED_TRAIT
        &&& self.id.index == UNDECIDED_INDEX
        &&& self.port_id_exporter == UNDECIDED_PORT
        &&& self.port_id_importer == UNDECIDED_PORT
    }

    /// A handle that can name a real object: its slot index and exporter port are decided.
    pub open spec fn is_decided(&self) -> bool {
        self.id.index != UNDECIDED_INDEX && self.port_id_exporter != UNDECIDED_PORT
    }

    pub fn new(id: ServiceObjectId, port_id_exporter: PortId, port_id_importer: PortId) -> (r: Self)
        ensures
            r.id == id,
            r.port_id_exporter == port_id_exporter,
            r.port_id_importer == port_id_importer,
    {
        HandleInstance { id, port_id_exporter, port_id_importer }
    }

    /// A field-by-field copy; handles are not `Clone` so that copies stay deliberate.
    pub fn careful_clone(&self) -> (r: Self)
        ensures
            r == *self,
    {
        HandleInstance {
            id: self.id,
            port_id_exporter: self.port_id_exporter,
            port_id_importer: self.port_id_importer,
        }
    }

    /// The exporter's port id, which a dispatcher uses to find the registry.
    pub fn for_dispatcher_get_port_id(&self) -> (r: PortId)
        ensures
            r == self.port_id_exporter,
    {
        self.port_id_exporter
    }

    /// Whether the handle can name a real object.
    pub fn decided(&self) -> (r: bool)
        ensures
            r == self.is_decided(),
    {
        self.id.index != UNDECIDED_INDEX && self.port_id_exporter != UNDECIDED_PORT
    }
}

impl Default for HandleInstance {
    fn default() -> (r: Self)
        ensures
            r.is_empty_handle(),
    {
        HandleInstance {
            id: ServiceObjectId { trait_id: UNDECIDED_TRAIT, index: UNDECIDED_INDEX },
            port_id_exporter: UNDECIDED_PORT,
            port_id_importer: UNDECIDED_PORT,
        }
    }
}

} // verus!

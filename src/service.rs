//! Exporting and importing service objects, the take-once holders that carry
//! them through serialization, the per-thread instance key, and the
//! bootstrap handle exchange.

use vstd::prelude::*;
use std::sync::Arc;
use crate::calls::{CallError, CallTag};
use crate::ids::{HandleInstance, InstanceKey, MethodId, PortId, TraitId};
use crate::port::{call_decided, Port, DELETE_METHOD};
use crate::registry::{RegisterError, ServiceRegistry};

verus! {

/// The instance key of one thread; zero means that it has not been set.
pub struct KeyCell {
    pub key: InstanceKey,
}

impl KeyCell {
    /// A cell with no key.
    pub fn new() -> (r: Self)
        ensures
            r.key == 0,
    {
        KeyCell { key: 0 }
    }
}

impl KeyCell {
    /// Whether the key has been set.
    pub fn is_set(&self) -> (r: bool)
        ensures
            r == (self.key != 0),
    {
        self.key != 0
    }
}

/// Sets the thread's instance key. It is set once: setting it again is a
/// usage error and left out, so callers test `is_set` first.
pub fn set_key(cell: &mut KeyCell, key: InstanceKey)
    requires
        old(cell).key == 0,
    ensures
        final(cell).key == key,
{
    cell.key = key;
}

/// The thread's instance key. Reading it before it was set is a usage error
/// and left out, so callers test `is_set` first.
pub fn get_key(cell: &KeyCell) -> (r: InstanceKey)
    requires
        cell.key != 0,
    ensures
        r == cell.key,
{
    cell.key
}

/// A shared service object that is handed over exactly once, as when it is
/// exported while its holder is serialized.
pub struct SArc<T> {
    pub value: Option<Arc<T>>,
}

impl<T> SArc<T> {
    pub fn new(value: Arc<T>) -> (r: Self)
        ensures
            r.value == Some(value),
    {
        SArc { value: Some(value) }
    }

    /// Takes the object out; it may be taken once.
    pub fn take(&mut self) -> (r: Arc<T>)
        requires
            old(self).value is Some,
        ensures
            Some(r) == old(self).value,
            final(self).value is None,
    {
        self.value.take().unwrap()
    }

    /// The object, which must not have been taken.
    pub fn unwrap(self) -> (r: Arc<T>)
        requires
            self.value is Some,
        ensures
            Some(r) == self.value,
    {
        self.value.unwrap()
    }
}

/// An owned service object that is handed over exactly once.
pub struct SBox<T> {
    pub value: Option<Box<T>>,
}

impl<T> SBox<T> {
    pub fn new(value: Box<T>) -> (r: Self)
        ensures
            r.value == Some(value),
    {
        SBox { value: Some(value) }
    }

    /// Takes the object out; it may be taken once.
    pub fn unwrap(&mut self) -> (r: Box<T>)
        requires
            old(self).value is Some,
        ensures
            Some(r) == old(self).value,
            final(self).value is None,
    {
        self.value.take().unwrap()
    }
}

/// Makes the importer's stub of a service trait from a handle.
pub trait ImportService<T> {
    fn import(handle: HandleInstance) -> Arc<T>;
}

/// Exports an object of a service trait through a port.
pub trait ExportService<T> {
    fn export(port_id: PortId, object: Arc<T>) -> HandleInstance;
}

/// Runs a method of a service trait, chosen by its id, on serialized arguments.
pub trait DispatchService<T> {
    fn dispatch(object: &T, method: MethodId, arguments: &[u8]) -> Vec<u8>;
}

/// The trait id of a service trait.
pub trait IdOfService<T> {
    fn id() -> TraitId;
}

/// The importer's side of a handle: calls through it go to the exporter.
pub struct Remote {
    pub handle: HandleInstance,
}

/// Exports `service` of trait `trait_id` through `port`.
pub fn export_service<T>(port: &mut Port<T>, trait_id: TraitId, service: T) -> (r: Result<HandleInstance, RegisterError>)
    ensures
        final(port).calls == old(port).calls,
        old(port).registry.slots@.len() >= crate::ids::UNDECIDED_INDEX as int <==> r is Err,
        final(port).registry.port_id == old(port).registry.port_id,
        final(port).registry.tables@ == old(port).registry.tables@,
        r is Err ==> final(port).registry.slots@ == old(port).registry.slots@,
        r matches Ok(h) ==> crate::registry::registered(old(port).registry, final(port).registry, trait_id, service, h),
{
    port.registry.register(trait_id, service)
}

/// The handle as the importer holds it: the importer's port is filled in.
pub open spec fn imported(handle: HandleInstance, port_id: PortId) -> HandleInstance {
    HandleInstance { port_id_importer: port_id, ..handle }
}

/// Imports `handle` through the importer's port `port_id`, as a boxed stub.
pub fn import_service_box(port_id: PortId, handle: HandleInstance) -> (r: Box<Remote>)
    ensures
        r.handle == imported(handle, port_id),
{
    Box::new(Remote { handle: HandleInstance { port_id_importer: port_id, ..handle } })
}

/// Imports `handle` through the importer's port `port_id`, as a shared stub.
pub fn import_service_arc(port_id: PortId, handle: HandleInstance) -> (r: Arc<Remote>)
    ensures
        r.handle == imported(handle, port_id),
{
    Arc::new(Remote { handle: HandleInstance { port_id_importer: port_id, ..handle } })
}

/// Asks the exporter to delete the object behind `remote`, when the importer
/// drops it: the result is the delete request to send. While the whole
/// module shuts down (`no_drop`), nothing is sent. A handle with an
/// undecided field never goes on the wire: that input is left out.
pub fn delete_remote<T>(port: &mut Port<T>, remote: &Remote, no_drop: bool) -> (r: Result<Option<(CallTag, Vec<u8>)>, CallError>)
    requires
        old(port).wf(),
        !no_drop ==> call_decided(remote.handle, DELETE_METHOD),
    ensures
        final(port).wf(),
        final(port).registry == old(port).registry,
        no_drop ==> r == Ok::<Option<(CallTag, Vec<u8>)>, CallError>(None) && final(port).calls == old(port).calls,
        !no_drop && old(port).calls.shut_down ==> r == Err::<Option<(CallTag, Vec<u8>)>, CallError>(CallError::ShutDown),
        !no_drop && !old(port).calls.shut_down
            && crate::calls::first_free_slot(old(port).calls.slots@) == old(port).calls.slots@.len()
            ==> r == Err::<Option<(CallTag, Vec<u8>)>, CallError>(CallError::NoFreeSlot),
        !no_drop && !old(port).calls.shut_down
            && crate::calls::first_free_slot(old(port).calls.slots@) < old(port).calls.slots@.len()
            ==> r matches Ok(Some(_)),
        r is Err ==> final(port).calls.slots@ == old(port).calls.slots@,
        r matches Ok(Some((tag, packet))) ==> {
            &&& tag as int == crate::calls::first_free_slot(old(port).calls.slots@)
            &&& (tag as int) < old(port).calls.slots@.len()
            &&& final(port).calls.slots@ == old(port).calls.slots@.update(tag as int, crate::calls::SlotState::Waiting)
            &&& packet@ == crate::frame::header_bytes(crate::frame::PacketHeader { kind: crate::frame::PacketKind::Request, tag })
                + crate::frame::call_head_bytes(remote.handle, DELETE_METHOD)
        },
{
    if no_drop {
        return Ok(None);
    }
    let empty: Vec<u8> = Vec::new();
    match port.call(&remote.handle, DELETE_METHOD, empty.as_slice()) {
        Ok((tag, packet)) => {
            assert(crate::frame::call_head_bytes(remote.handle, DELETE_METHOD) + empty@
                =~= crate::frame::call_head_bytes(remote.handle, DELETE_METHOD));
            Ok(Some((tag, packet)))
        },
        Err(e) => Err(e),
    }
}

/// Handles that one module gives another during bootstrap. At most one link
/// joins two modules in that phase, so no port id is carried.
pub struct HandleExchange {
    /// Name of the exporting module.
    pub exporter: String,
    /// Name of the importing module.
    pub importer: String,
    /// The handles; the importer turns them into stubs of the right trait.
    pub handles: Vec<HandleInstance>,
    /// An argument that only the two modules interpret.
    pub argument: Vec<u8>,
}

/// The bootstrap handles of a module, which each module implements.
pub trait HandlePreset {
    fn export() -> Vec<HandleExchange>;

    fn import(exchange: HandleExchange);
}

/// Services made ready for bootstrap, each exported at most once.
pub struct ExportingServicePool<T> {
    pub pool: Vec<Option<T>>,
}

impl<T> ExportingServicePool<T> {
    /// A pool that holds `services`, none exported yet.
    pub fn new(services: Vec<T>) -> (r: Self)
        ensures
            r.pool@.len() == services@.len(),
            forall|i: int| 0 <= i < services@.len() ==> r.pool@[i] == Some(services@[i]),
    {
        let ghost all = services@;
        let mut services = services;
        let mut pool: Vec<Option<T>> = Vec::new();
        while services.len() > 0
            invariant
                pool@.len() + services@.len() == all.len(),
                services@ == all.subrange(pool@.len() as int, all.len() as int),
                forall|i: int| 0 <= i < pool@.len() ==> pool@[i] == Some(all[i]),
            decreases services@.len(),
        {
            let s = services.remove(0);
            assert(s == all[pool@.len() as int]);
            pool.push(Some(s));
            assert(services@ =~= all.subrange(pool@.len() as int, all.len() as int));
        }
        ExportingServicePool { pool }
    }

    /// Whether the service at position `index` is still in the pool.
    pub fn is_available(&self, index: usize) -> (r: bool)
        ensures
            r == (index < self.pool@.len() && self.pool@[index as int] is Some),
    {
        index < self.pool.len() && self.pool[index].is_some()
    }

    /// Exports the service at position `index` of the pool through
    /// `registry`. A position is exported once: exporting a missing or used
    /// position, or into a full registry, is a usage error and left out, so
    /// callers test `is_available` and `has_room` first.
    pub fn export(&mut self, registry: &mut ServiceRegistry<T>, trait_id: TraitId, index: usize) -> (r: HandleInstance)
        requires
            index < old(self).pool@.len(),
            old(self).pool@[index as int] is Some,
            old(registry).slots@.len() < crate::ids::UNDECIDED_INDEX as int,
        ensures
            crate::registry::registered(*old(registry), *final(registry), trait_id, old(self).pool@[index as int]->0, r),
            final(self).pool@ == old(self).pool@.update(index as int, None),
    {
        let taken = self.pool.remove(index);
        self.pool.insert(index, None);
        assert(self.pool@ =~= old(self).pool@.update(index as int, None));
        let service = match taken {
            Some(service) => service,
            None => {
                assert(false);
                return HandleInstance::default();
            },
        };
        match registry.register(trait_id, service) {
            Ok(h) => h,
            Err(_) => {
                assert(false);
                HandleInstance::default()
            },
        }
    }
}

} // verus!

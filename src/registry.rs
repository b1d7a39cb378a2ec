//! The service registry of one port: an arena of exported objects. A slot
//! owns its object until it is deleted; handles carry only the slot index.

use vstd::prelude::*;
use crate::ids::{HandleInstance, MethodId, ObjectIndex, PortId, ServiceObjectId, TraitId, UNDECIDED_INDEX, UNDECIDED_PORT};

verus! {

/// An exported object: implemented by the per-trait stubs, it runs one
/// method, chosen by its position in the trait, on serialized arguments.
pub trait ServiceDispatcher {
    /// Whether `result_of` states what this object's methods return. An
    /// object whose methods depend on more than their arguments, or whose
    /// implementation is not verified, keeps the default and claims nothing.
    open spec fn obeys_result_spec(&self) -> bool {
        false
    }

    /// The serialized result that method `branch` of this object returns
    /// for the serialized `arguments`, for an object that obeys it.
    open spec fn result_of(&self, branch: usize, arguments: Seq<u8>) -> Seq<u8> {
        Seq::empty()
    }

    fn dispatch(&self, branch: usize, arguments: &[u8]) -> (r: Vec<u8>)
        ensures
            self.obeys_result_spec() ==> r@ == self.result_of(branch, arguments@),
    ;
}

/// A service object: it knows its handle and its trait, and dispatches calls.
pub trait Service: ServiceDispatcher {
    fn get_handle(&self) -> &HandleInstance;

    fn get_handle_mut(&mut self) -> &mut HandleInstance;

    fn get_trait_id(&self) -> TraitId;
}

/// One occupied slot of the registry.
pub struct Entry<T> {
    pub trait_id: TraitId,
    pub object: T,
}

/// The method ids of one trait, in declaration order: the position of a
/// method id in `methods` is the branch that runs it.
pub struct DispatchTable {
    pub trait_id: TraitId,
    pub methods: Vec<MethodId>,
}

/// Why a dispatch was refused. Each of these is a protocol violation.
#[derive(PartialEq, Eq, Structural, Debug, Clone, Copy)]
pub enum DispatchError {
    /// The handle still holds an undecided index or port.
    EmptyHandle,
    /// The handle was exported by another port.
    WrongPort,
    /// No object is registered at the handle's index (never, or no longer).
    NoObject,
    /// No dispatch table exists for the object's trait.
    UnknownTrait,
    /// The object's trait has no method with this id.
    UnknownMethod,
}

/// Why a registration was refused.
#[derive(PartialEq, Eq, Structural, Debug, Clone, Copy)]
pub enum RegisterError {
    /// Every slot index below the undecided sentinel is taken.
    Full,
}

/// The position of `method` in `methods` at or after `start`.
pub open spec fn branch_from(methods: Seq<MethodId>, method: MethodId, start: int) -> Option<nat>
    decreases methods.len() - start,
{
    if start < 0 || start >= methods.len() {
        None
    } else if methods[start] == method {
        Some(start as nat)
    } else {
        branch_from(methods, method, start + 1)
    }
}

/// The position of `method` in `methods`: the branch that runs it.
pub open spec fn branch_of(methods: Seq<MethodId>, method: MethodId) -> Option<nat> {
    branch_from(methods, method, 0)
}

/// The index of the table for `trait_id` at or after `start`.
pub open spec fn table_from(tables: Seq<DispatchTable>, trait_id: TraitId, start: int) -> Option<nat>
    decreases tables.len() - start,
{
    if start < 0 || start >= tables.len() {
        None
    } else if tables[start].trait_id == trait_id {
        Some(start as nat)
    } else {
        table_from(tables, trait_id, start + 1)
    }
}

/// The index of the dispatch table for `trait_id`.
pub open spec fn table_of(tables: Seq<DispatchTable>, trait_id: TraitId) -> Option<nat> {
    table_from(tables, trait_id, 0)
}

/// The branch that runs `method`: its position in `methods`.
pub fn find_branch(methods: &Vec<MethodId>, method: MethodId) -> (r: Option<usize>)
    ensures
        r matches Some(b) ==> branch_of(methods@, method) == Some(b as nat),
        r is None ==> branch_of(methods@, method) is None,
{
    let mut b: usize = 0;
    while b < methods.len()
        invariant
            b <= methods@.len(),
            branch_from(methods@, method, b as int) == branch_of(methods@, method),
        decreases methods@.len() - b,
    {
        if methods[b] == method {
            return Some(b);
        }
        b = b + 1;
    }
    None
}

/// `after` is `before` with `object` exported under handle `h`: the object
/// took a new slot after every slot ever used, and `h` names that slot, its
/// trait and the port.
pub open spec fn registered<T>(
    before: ServiceRegistry<T>,
    after: ServiceRegistry<T>,
    trait_id: TraitId,
    object: T,
    h: HandleInstance,
) -> bool {
    let index = before.slots@.len();
    &&& after.port_id == before.port_id
    &&& after.tables@ == before.tables@
    &&& index < UNDECIDED_INDEX as int
    &&& h.id == ServiceObjectId { trait_id, index: index as ObjectIndex }
    &&& h.port_id_exporter == before.port_id
    &&& h.port_id_importer == UNDECIDED_PORT
    &&& after.slots@ == before.slots@.push(Some(Entry { trait_id, object }))
}

/// The objects exported through one port.
pub struct ServiceRegistry<T> {
    /// The port that exports these objects.
    pub port_id: PortId,
    /// The slots; a handle's index is a position here.
    pub slots: Vec<Option<Entry<T>>>,
    /// One dispatch table per trait.
    pub tables: Vec<DispatchTable>,
}

impl<T> ServiceRegistry<T> {
    /// The object registered at `index`, if any.
    pub open spec fn object_at(&self, index: int) -> Option<T> {
        if 0 <= index < self.slots@.len() && self.slots@[index] is Some {
            Some(self.slots@[index]->0.object)
        } else {
            None
        }
    }

    /// Where a call through `handle` to `method` goes: the slot index and
    /// the branch of the object's trait, or why it is refused.
    pub open spec fn resolve_spec(&self, handle: HandleInstance, method: MethodId) -> Result<(nat, nat), DispatchError> {
        if !handle.is_decided() {
            Err(DispatchError::EmptyHandle)
        } else if handle.port_id_exporter != self.port_id {
            Err(DispatchError::WrongPort)
        } else if self.object_at(handle.id.index as int) is None {
            Err(DispatchError::NoObject)
        } else {
            let entry = self.slots@[handle.id.index as int]->0;
            match table_of(self.tables@, entry.trait_id) {
                None => Err(DispatchError::UnknownTrait),
                Some(t) => match branch_of(self.tables@[t as int].methods@, method) {
                    None => Err(DispatchError::UnknownMethod),
                    Some(b) => Ok((handle.id.index as nat, b)),
                },
            }
        }
    }

    /// Whether the object that a resolving call through `handle` to
    /// `method` reaches states its results.
    pub open spec fn target_obeys(&self, handle: HandleInstance, method: MethodId) -> bool
        where
            T: ServiceDispatcher,
    {
        let (i, b) = self.resolve_spec(handle, method)->Ok_0;
        self.slots@[i as int]->0.object.obeys_result_spec()
    }

    /// What a call through `handle` to `method` with serialized `arguments`
    /// returns, for a call that resolves: the result of the branch of the
    /// object in the handle's slot.
    pub open spec fn result_spec(&self, handle: HandleInstance, method: MethodId, arguments: Seq<u8>) -> Seq<u8>
        where
            T: ServiceDispatcher,
    {
        let (i, b) = self.resolve_spec(handle, method)->Ok_0;
        self.slots@[i as int]->0.object.result_of(b as usize, arguments)
    }

    /// An empty registry for port `port_id`.
    pub fn new(port_id: PortId) -> (r: Self)
        ensures
            r.port_id == port_id,
            r.slots@.len() == 0,
            r.tables@.len() == 0,
    {
        ServiceRegistry { port_id, slots: Vec::new(), tables: Vec::new() }
    }

    /// Adds the dispatch table of a trait. A table already present for the
    /// same trait id keeps precedence.
    pub fn add_table(&mut self, table: DispatchTable)
        ensures
            final(self).port_id == old(self).port_id,
            final(self).slots@ == old(self).slots@,
            final(self).tables@ == old(self).tables@.push(table),
    {
        self.tables.push(table);
    }

    /// Whether a registration would find a slot that was never used.
    pub fn has_room(&self) -> (r: bool)
        ensures
            r == (self.slots@.len() < UNDECIDED_INDEX as int),
    {
        self.slots.len() < UNDECIDED_INDEX as usize
    }

    /// Exports `object`: it takes a slot that was never used, so that a
    /// handle kept after its object was deleted never reaches another
    /// object. The handle names that slot, its trait and this port; the
    /// importer's port is left undecided until the handle crosses to the
    /// peer. When every index below the sentinel has been used, nothing
    /// changes and the registration is refused.
    pub fn register(&mut self, trait_id: TraitId, object: T) -> (r: Result<HandleInstance, RegisterError>)
        ensures
            final(self).port_id == old(self).port_id,
            final(self).tables@ == old(self).tables@,
            old(self).slots@.len() >= UNDECIDED_INDEX as int <==> r is Err,
            r is Err ==> final(self).slots@ == old(self).slots@,
            r matches Ok(h) ==> registered(*old(self), *final(self), trait_id, object, h),
    {
        let index = self.slots.len();
        if index >= UNDECIDED_INDEX as usize {
            return Err(RegisterError::Full);
        }
        self.slots.push(Some(Entry { trait_id, object }));
        Ok(HandleInstance {
            id: ServiceObjectId { trait_id, index: index as ObjectIndex },
            port_id_exporter: self.port_id,
            port_id_importer: UNDECIDED_PORT,
        })
    }

    /// The index of the dispatch table for `trait_id`.
    fn find_table(&self, trait_id: TraitId) -> (r: Option<usize>)
        ensures
            r matches Some(t) ==> table_of(self.tables@, trait_id) == Some(t as nat) && t < self.tables@.len(),
            r is None ==> table_of(self.tables@, trait_id) is None,
    {
        let mut i: usize = 0;
        while i < self.tables.len()
            invariant
                i <= self.tables@.len(),
                table_from(self.tables@, trait_id, i as int) == table_of(self.tables@, trait_id),
            decreases self.tables@.len() - i,
        {
            if self.tables[i].trait_id == trait_id {
                return Some(i);
            }
            i = i + 1;
        }
        None
    }

    /// Where a call through `handle` to `method` goes: the slot index and
    /// the branch to run, or why the call is refused.
    pub fn resolve(&self, handle: &HandleInstance, method: MethodId) -> (r: Result<(usize, usize), DispatchError>)
        ensures
            r matches Ok((i, b)) ==> self.resolve_spec(*handle, method) == Ok::<(nat, nat), DispatchError>((i as nat, b as nat)),
            r matches Err(e) ==> self.resolve_spec(*handle, method) == Err::<(nat, nat), DispatchError>(e),
    {
        if !handle.decided() {
            return Err(DispatchError::EmptyHandle);
        }
        if handle.port_id_exporter != self.port_id {
            return Err(DispatchError::WrongPort);
        }
        let index = handle.id.index as usize;
        if index >= self.slots.len() {
            return Err(DispatchError::NoObject);
        }
        let trait_id = match &self.slots[index] {
            None => return Err(DispatchError::NoObject),
            Some(entry) => entry.trait_id,
        };
        let t = match self.find_table(trait_id) {
            None => return Err(DispatchError::UnknownTrait),
            Some(t) => t,
        };
        match find_branch(&self.tables[t].methods, method) {
            None => Err(DispatchError::UnknownMethod),
            Some(b) => Ok((index, b)),
        }
    }

    /// Runs `method` of the object that `handle` names on serialized
    /// `arguments`, on the branch the object's trait gives the method, and
    /// gives what the object's method returns. A call that
    /// does not resolve is a protocol violation and left out: callers test
    /// `resolve` first.
    pub fn dispatch(&self, handle: &HandleInstance, method: MethodId, arguments: &[u8]) -> (r: Vec<u8>)
        where
            T: ServiceDispatcher,
        requires
            self.resolve_spec(*handle, method) is Ok,
        ensures
            self.target_obeys(*handle, method) ==> r@ == self.result_spec(*handle, method, arguments@),
    {
        let (index, branch) = match self.resolve(handle, method) {
            Ok(found) => found,
            Err(_) => {
                assert(false);
                return Vec::new();
            },
        };
        match &self.slots[index] {
            Some(entry) => entry.object.dispatch(branch, arguments),
            None => {
                assert(false);
                Vec::new()
            },
        }
    }

    /// Removes the object at `index` and hands it back. Later calls through
    /// any handle to that index are refused for good, since indices are
    /// never handed out twice.
    pub fn delete(&mut self, index: ObjectIndex) -> (r: Option<T>)
        ensures
            final(self).port_id == old(self).port_id,
            final(self).tables@ == old(self).tables@,
            r == old(self).object_at(index as int),
            r is None ==> final(self).slots@ == old(self).slots@,
            r is Some ==> final(self).slots@ == old(self).slots@.update(index as int, None),
    {
        let i = index as usize;
        if i >= self.slots.len() {
            return None;
        }
        if self.slots[i].is_none() {
            return None;
        }
        let taken = self.slots.remove(i);
        self.slots.insert(i, None);
        assert(self.slots@ =~= old(self).slots@.update(index as int, None));
        match taken {
            Some(entry) => Some(entry.object),
            None => None,
        }
    }

    /// The object registered at `index`, if any.
    pub fn get(&self, index: ObjectIndex) -> (r: Option<&T>)
        ensures
            r matches Some(o) ==> self.object_at(index as int) == Some(*o),
            r is None ==> self.object_at(index as int) is None,
    {
        let i = index as usize;
        if i < self.slots.len() {
            match &self.slots[i] {
                Some(entry) => Some(&entry.object),
                None => None,
            }
        } else {
            None
        }
    }

    /// Whether an object is registered at `index`.
    pub fn is_registered(&self, index: ObjectIndex) -> (r: bool)
        ensures
            r == self.object_at(index as int) is Some,
    {
        let i = index as usize;
        i < self.slots.len() && self.slots[i].is_some()
    }
}

/// What a call to `method` on an object of trait `trait_id` runs when made
/// directly: the branch that the trait's dispatch table gives the method id.
pub open spec fn direct_branch(tables: Seq<DispatchTable>, trait_id: TraitId, method: MethodId) -> Result<nat, DispatchError> {
    match table_of(tables, trait_id) {
        None => Err(DispatchError::UnknownTrait),
        Some(t) => match branch_of(tables[t as int].methods@, method) {
            None => Err(DispatchError::UnknownMethod),
            Some(b) => Ok(b),
        },
    }
}

/// Exporting an object and calling it through its handle from the peer
/// reaches the exported object itself, on the branch a direct call of the
/// same method would take, and returns what the object's method returns for
/// the same arguments; the importer's port id plays no part. The slot was
/// never used before, and every other object keeps its slot.
pub proof fn lemma_export_then_call<T: ServiceDispatcher>(
    before: ServiceRegistry<T>,
    after: ServiceRegistry<T>,
    trait_id: TraitId,
    object: T,
    h: HandleInstance,
    importer: PortId,
    method: MethodId,
    arguments: Seq<u8>,
)
    requires
        before.port_id != UNDECIDED_PORT,
        registered(before, after, trait_id, object, h),
    ensures
        before.object_at(h.id.index as int) is None,
        after.object_at(h.id.index as int) == Some(object),
        forall|i: int| i != h.id.index as int ==> after.object_at(i) == before.object_at(i),
        after.resolve_spec(HandleInstance { port_id_importer: importer, ..h }, method) == match direct_branch(before.tables@, trait_id, method) {
            Ok(b) => Ok::<(nat, nat), DispatchError>((h.id.index as nat, b)),
            Err(e) => Err(e),
        },
        direct_branch(before.tables@, trait_id, method) matches Ok(b) ==> after.target_obeys(
            HandleInstance { port_id_importer: importer, ..h }, method) == object.obeys_result_spec()
            && after.result_spec(
            HandleInstance { port_id_importer: importer, ..h }, method, arguments) == object.result_of(b as usize, arguments),
{
    let index = before.slots@.len() as int;
    assert(h.id.index as int == index);
    assert(after.slots@[index] == Some(Entry { trait_id, object }));
}

/// After the object behind a slot is deleted, every call through a handle
/// naming that slot is refused, and stays refused whatever is registered
/// later.
pub proof fn lemma_delete_then_call<T>(
    before: ServiceRegistry<T>,
    after: ServiceRegistry<T>,
    handle: HandleInstance,
    method: MethodId,
)
    requires
        before.object_at(handle.id.index as int) is Some,
        after.port_id == before.port_id,
        after.tables@ == before.tables@,
        after.slots@ == before.slots@.update(handle.id.index as int, None),
    ensures
        after.resolve_spec(handle, method) is Err,
        after.object_at(handle.id.index as int) is None,
{
}

/// A deleted slot stays empty: registrations after the delete take new
/// slots, so a call through a handle to the deleted slot is still refused.
pub proof fn lemma_deleted_slot_stays_empty<T>(
    after_delete: ServiceRegistry<T>,
    later: ServiceRegistry<T>,
    trait_id: TraitId,
    object: T,
    h: HandleInstance,
    handle: HandleInstance,
    method: MethodId,
)
    requires
        (handle.id.index as int) < after_delete.slots@.len(),
        after_delete.object_at(handle.id.index as int) is None,
        registered(after_delete, later, trait_id, object, h),
    ensures
        later.object_at(handle.id.index as int) is None,
        later.resolve_spec(handle, method) is Err,
{
    assert(later.slots@[handle.id.index as int] == after_delete.slots@[handle.id.index as int]);
}

} // verus!

//! A port: the endpoint of one peer connection. It joins the call table of
//! the client side, the service registry of the server side and the
//! multiplexer that sorts inbound packets into requests and responses. The
//! transport, the worker threads and the blocking waits belong to the
//! runtime around it, which performs what these functions decide.

use vstd::prelude::*;
use crate::calls::{CallError, CallTable, CallTag, SlotState};
use crate::frame::{
    call_head_bytes, decode, decode_call, decode_call_spec, decode_spec, encode, encode_call, header_bytes,
    payload_of, FrameError, PacketHeader, PacketKind, HEADER_LEN,
};
use crate::ids::{HandleInstance, MethodId, PortId, TraitId, UNDECIDED_INDEX, UNDECIDED_METHOD, UNDECIDED_PORT, UNDECIDED_TRAIT};
use crate::registry::{direct_branch, registered, DispatchError, ServiceDispatcher, ServiceRegistry};

verus! {

/// Holds a value until shutdown takes it out.
pub struct ShutdownHelper<T> {
    pub value: Option<T>,
}

impl<T> ShutdownHelper<T> {
    pub fn new(value: T) -> (r: Self)
        ensures
            r.value == Some(value),
    {
        ShutdownHelper { value: Some(value) }
    }

    /// Takes the value out; it may be taken once.
    pub fn take(&mut self) -> (r: T)
        requires
            old(self).value is Some,
        ensures
            Some(r) == old(self).value,
            final(self).value is None,
    {
        self.value.take().unwrap()
    }

    /// The value, while it has not been taken.
    pub fn get(&self) -> (r: &T)
        requires
            self.value is Some,
        ensures
            Some(*r) == self.value,
    {
        self.value.as_ref().unwrap()
    }

    /// Whether the value has been taken.
    pub fn is_taken(&self) -> (r: bool)
        ensures
            r == self.value is None,
    {
        self.value.is_none()
    }
}

/// An inbound packet, once the multiplexer has sorted it.
#[derive(PartialEq, Eq, Structural, Debug, Clone, Copy)]
pub enum Inbound {
    /// A call for the server, with its tag.
    Request(CallTag),
    /// A response, handed to the waiting call with this tag.
    Delivered(CallTag),
}

/// Why an inbound packet was refused.
#[derive(PartialEq, Eq, Structural, Debug, Clone, Copy)]
pub enum ReceiveError {
    /// The packet's header is malformed.
    Frame(FrameError),
    /// A response for a call that is not waiting.
    UnexpectedResponse,
}

/// Why a request could not be served.
#[derive(PartialEq, Eq, Structural, Debug, Clone, Copy)]
pub enum ServeError {
    /// The packet's header is malformed.
    Frame(FrameError),
    /// The packet is a response, not a request.
    NotRequest,
    /// The call body is shorter than its fixed part.
    ShortBody,
    /// The call does not resolve.
    Dispatch(DispatchError),
}

/// Method id of the request that deletes the object a handle names; it is
/// sent when the importer drops its last reference.
pub const DELETE_METHOD: MethodId = 0xffff_fffe;

/// What deleting the object that `handle` names does on `registry`: the
/// slot index it frees, or why it is refused.
pub open spec fn delete_spec<T>(registry: ServiceRegistry<T>, handle: HandleInstance) -> Result<nat, DispatchError> {
    if !handle.is_decided() {
        Err(DispatchError::EmptyHandle)
    } else if handle.port_id_exporter != registry.port_id {
        Err(DispatchError::WrongPort)
    } else if registry.object_at(handle.id.index as int) is None {
        Err(DispatchError::NoObject)
    } else {
        Ok(handle.id.index as nat)
    }
}

/// The call that request `packet` carries, if its header and body can be
/// read: the header, the handle, the method id and the arguments.
pub open spec fn request_of(packet: Seq<u8>) -> Option<(PacketHeader, HandleInstance, MethodId, Seq<u8>)> {
    match decode_spec(packet) {
        Ok(h) => if h.kind == PacketKind::Request {
            match decode_call_spec(packet.subrange(HEADER_LEN as int, packet.len() as int)) {
                Some((handle, method, arguments)) => Some((h, handle, method, arguments)),
                None => None,
            }
        } else {
            None
        },
        Err(_) => None,
    }
}

/// A call may go on the wire: no field of its handle and not its method id
/// holds an undecided sentinel.
pub open spec fn call_decided(handle: HandleInstance, method: MethodId) -> bool {
    &&& handle.id.trait_id != UNDECIDED_TRAIT
    &&& handle.id.index != UNDECIDED_INDEX
    &&& handle.port_id_exporter != UNDECIDED_PORT
    &&& handle.port_id_importer != UNDECIDED_PORT
    &&& method != UNDECIDED_METHOD
}

/// Whether a call of `method` through `handle` may go on the wire.
pub fn call_allowed(handle: &HandleInstance, method: MethodId) -> (r: bool)
    ensures
        r == call_decided(*handle, method),
{
    handle.id.trait_id != UNDECIDED_TRAIT && handle.id.index != UNDECIDED_INDEX
        && handle.port_id_exporter != UNDECIDED_PORT && handle.port_id_importer != UNDECIDED_PORT
        && method != UNDECIDED_METHOD
}

/// Whether `packet` is a readable request to delete an object.
pub open spec fn is_delete_request(packet: Seq<u8>) -> bool {
    request_of(packet) is Some && (request_of(packet)->0).2 == DELETE_METHOD
}

/// Whether the server can serve request `packet` on `registry`: the
/// response's tag, or the protocol violation that makes it fatal.
pub open spec fn serve_spec<T>(registry: ServiceRegistry<T>, packet: Seq<u8>) -> Result<CallTag, ServeError> {
    match decode_spec(packet) {
        Err(e) => Err(ServeError::Frame(e)),
        Ok(h) => if h.kind != PacketKind::Request {
            Err(ServeError::NotRequest)
        } else {
            match decode_call_spec(packet.subrange(HEADER_LEN as int, packet.len() as int)) {
                None => Err(ServeError::ShortBody),
                Some((handle, method, _)) => if method == DELETE_METHOD {
                    match delete_spec(registry, handle) {
                        Err(e) => Err(ServeError::Dispatch(e)),
                        Ok(_) => Ok(h.tag),
                    }
                } else {
                    match registry.resolve_spec(handle, method) {
                        Err(e) => Err(ServeError::Dispatch(e)),
                        Ok(_) => Ok(h.tag),
                    }
                },
            }
        },
    }
}

/// Whether the response to `packet` is fully stated: a delete request, or
/// a call on an object that states its results.
pub open spec fn response_stated<T: ServiceDispatcher>(registry: ServiceRegistry<T>, packet: Seq<u8>) -> bool {
    let (h, handle, method, arguments) = request_of(packet)->0;
    method == DELETE_METHOD || registry.target_obeys(handle, method)
}

/// The response to a request that the server can serve: the response
/// header with the request's tag, followed by nothing for a delete request
/// and by the result of the called method otherwise.
pub open spec fn response_spec<T: ServiceDispatcher>(registry: ServiceRegistry<T>, packet: Seq<u8>) -> Seq<u8> {
    let (h, handle, method, arguments) = request_of(packet)->0;
    let header = header_bytes(PacketHeader { kind: PacketKind::Response, tag: h.tag });
    if method == DELETE_METHOD {
        header
    } else {
        header + registry.result_spec(handle, method, arguments)
    }
}

/// A request that can be served can be read.
proof fn lemma_served_requests_read<T>(registry: ServiceRegistry<T>, packet: Seq<u8>)
    requires
        serve_spec(registry, packet) is Ok,
    ensures
        request_of(packet) is Some,
        (request_of(packet)->0).0.tag == serve_spec(registry, packet)->Ok_0,
        (request_of(packet)->0).0.kind == PacketKind::Request,
{
}

impl CallTable {
    /// The client's step for a new call of `method` through `handle`: the
    /// call takes a tag of the table, and the result is the tag and the
    /// request packet to send. A call that would put an undecided value on
    /// the wire is left out: callers test `call_allowed` first.
    pub fn request(&mut self, handle: &HandleInstance, method: MethodId, arguments: &[u8]) -> (r: Result<(CallTag, Vec<u8>), CallError>)
        requires
            old(self).wf(),
            call_decided(*handle, method),
        ensures
            final(self).wf(),
            final(self).shut_down == old(self).shut_down,
            old(self).shut_down ==> r == Err::<(CallTag, Vec<u8>), CallError>(CallError::ShutDown),
            !old(self).shut_down && crate::calls::first_free_slot(old(self).slots@) == old(self).slots@.len()
                ==> r == Err::<(CallTag, Vec<u8>), CallError>(CallError::NoFreeSlot),
            r is Err ==> final(self).slots@ == old(self).slots@,
            !old(self).shut_down && crate::calls::first_free_slot(old(self).slots@) < old(self).slots@.len() ==> r is Ok,
            r matches Ok((tag, packet)) ==> {
                &&& tag as int == crate::calls::first_free_slot(old(self).slots@)
                &&& (tag as int) < old(self).slots@.len()
                &&& !old(self).outstanding(tag)
                &&& final(self).slots@ == old(self).slots@.update(tag as int, SlotState::Waiting)
                &&& packet@ == header_bytes(PacketHeader { kind: PacketKind::Request, tag })
                    + (call_head_bytes(*handle, method) + arguments@)
            },
    {
        let tag = match self.begin_call() {
            Ok(tag) => tag,
            Err(e) => return Err(e),
        };
        let body = encode_call(handle, method, arguments);
        let packet = encode(PacketHeader { kind: PacketKind::Request, tag }, body.as_slice());
        Ok((tag, packet))
    }

    /// The multiplexer's step for one inbound packet: a request goes on to
    /// the server; a response goes to the call waiting for its tag, and to no
    /// other.
    pub fn receive(&mut self, packet: &[u8]) -> (r: Result<Inbound, ReceiveError>)
        requires
            old(self).wf(),
        ensures
            final(self).wf(),
            final(self).shut_down == old(self).shut_down,
            decode_spec(packet@) matches Err(e) ==> r == Err::<Inbound, ReceiveError>(ReceiveError::Frame(e)),
            decode_spec(packet@) matches Ok(h) ==> {
                if h.kind == PacketKind::Request {
                    r == Ok::<Inbound, ReceiveError>(Inbound::Request(h.tag))
                } else if (h.tag as int) < old(self).slots@.len() && old(self).slots@[h.tag as int] is Waiting {
                    &&& r == Ok::<Inbound, ReceiveError>(Inbound::Delivered(h.tag))
                    &&& final(self).slots@.len() == old(self).slots@.len()
                    &&& forall|i: int| 0 <= i < old(self).slots@.len() && i != h.tag as int
                        ==> final(self).slots@[i] == old(self).slots@[i]
                    &&& final(self).slots@[h.tag as int] matches SlotState::Answered(p)
                        && p@ == packet@.subrange(HEADER_LEN as int, packet@.len() as int)
                } else {
                    r == Err::<Inbound, ReceiveError>(ReceiveError::UnexpectedResponse)
                }
            },
            !(r matches Ok(Inbound::Delivered(_))) ==> final(self).slots@ == old(self).slots@,
    {
        let header = match decode(packet) {
            Ok(h) => h,
            Err(e) => return Err(ReceiveError::Frame(e)),
        };
        match header.kind {
            PacketKind::Request => Ok(Inbound::Request(header.tag)),
            PacketKind::Response => {
                let payload = vstd::slice::slice_to_vec(payload_of(packet));
                match self.deliver(header.tag, payload) {
                    Ok(()) => Ok(Inbound::Delivered(header.tag)),
                    Err(_) => Err(ReceiveError::UnexpectedResponse),
                }
            },
        }
    }
}

/// Whether `packet` is a readable request to delete an object.
pub fn request_is_delete(packet: &[u8]) -> (r: bool)
    ensures
        r == is_delete_request(packet@),
{
    match decode(packet) {
        Err(_) => false,
        Ok(header) => {
            if header.kind != PacketKind::Request {
                return false;
            }
            match decode_call(payload_of(packet)) {
                None => false,
                Some((_, method, _)) => method == DELETE_METHOD,
            }
        },
    }
}

impl<T> ServiceRegistry<T> {
    /// Whether the server can serve request `packet`: the tag of its
    /// response, or the protocol violation that makes it fatal. The server
    /// tests this before serving.
    pub fn check_request(&self, packet: &[u8]) -> (r: Result<CallTag, ServeError>)
        ensures
            r == serve_spec(*self, packet@),
    {
        let header = match decode(packet) {
            Ok(h) => h,
            Err(e) => return Err(ServeError::Frame(e)),
        };
        if header.kind != PacketKind::Request {
            return Err(ServeError::NotRequest);
        }
        let (handle, method, _) = match decode_call(payload_of(packet)) {
            Some(c) => c,
            None => return Err(ServeError::ShortBody),
        };
        if method == DELETE_METHOD {
            if !handle.decided() {
                return Err(ServeError::Dispatch(DispatchError::EmptyHandle));
            }
            if handle.port_id_exporter != self.port_id {
                return Err(ServeError::Dispatch(DispatchError::WrongPort));
            }
            if !self.is_registered(handle.id.index) {
                return Err(ServeError::Dispatch(DispatchError::NoObject));
            }
            Ok(header.tag)
        } else {
            match self.resolve(&handle, method) {
                Err(e) => Err(ServeError::Dispatch(e)),
                Ok(_) => Ok(header.tag),
            }
        }
    }

    /// The server's step for a request that is not a delete request: it
    /// runs the call on the exported object and gives the response packet,
    /// tagged like the request, with the method's result. It only reads the
    /// registry, so calls on the same registry may run side by side. A
    /// request that cannot be served is left out: the server tests
    /// `check_request` first.
    pub fn serve_call(&self, packet: &[u8]) -> (r: Vec<u8>)
        where
            T: ServiceDispatcher,
        requires
            serve_spec(*self, packet@) is Ok,
            !is_delete_request(packet@),
        ensures
            r@.subrange(0, HEADER_LEN as int) == response_spec(*self, packet@).subrange(0, HEADER_LEN as int),
            response_stated(*self, packet@) ==> r@ == response_spec(*self, packet@),
    {
        proof {
            lemma_served_requests_read(*self, packet@);
        }
        let header = match decode(packet) {
            Ok(h) => h,
            Err(_) => {
                assert(false);
                return Vec::new();
            },
        };
        let (handle, method, arguments) = match decode_call(payload_of(packet)) {
            Some(c) => c,
            None => {
                assert(false);
                return Vec::new();
            },
        };
        let result = self.dispatch(&handle, method, arguments);
        let response = encode(PacketHeader { kind: PacketKind::Response, tag: header.tag }, result.as_slice());
        assert(response@.subrange(0, HEADER_LEN as int) =~= header_bytes(PacketHeader { kind: PacketKind::Response, tag: header.tag }));
        assert(response_spec(*self, packet@).subrange(0, HEADER_LEN as int) =~= header_bytes(PacketHeader { kind: PacketKind::Response, tag: header.tag }));
        response
    }

    /// The server's step for any request that can be served: a delete
    /// request removes the object its handle names and gets an empty
    /// response; any other call runs as `serve_call` does. Only a delete
    /// changes the registry.
    pub fn serve(&mut self, packet: &[u8]) -> (r: Vec<u8>)
        where
            T: ServiceDispatcher,
        requires
            serve_spec(*old(self), packet@) is Ok,
        ensures
            final(self).port_id == old(self).port_id,
            final(self).tables@ == old(self).tables@,
            r@.subrange(0, HEADER_LEN as int) == response_spec(*old(self), packet@).subrange(0, HEADER_LEN as int),
            response_stated(*old(self), packet@) ==> r@ == response_spec(*old(self), packet@),
            is_delete_request(packet@) ==> final(self).slots@
                == old(self).slots@.update((request_of(packet@)->0).1.id.index as int, None),
            !is_delete_request(packet@) ==> final(self).slots@ == old(self).slots@,
    {
        if !request_is_delete(packet) {
            return self.serve_call(packet);
        }
        proof {
            lemma_served_requests_read(*self, packet@);
        }
        let header = match decode(packet) {
            Ok(h) => h,
            Err(_) => {
                assert(false);
                return Vec::new();
            },
        };
        let handle = match decode_call(payload_of(packet)) {
            Some((handle, _, _)) => handle,
            None => {
                assert(false);
                return Vec::new();
            },
        };
        let _deleted = self.delete(handle.id.index);
        let empty: Vec<u8> = Vec::new();
        let response = encode(PacketHeader { kind: PacketKind::Response, tag: header.tag }, empty.as_slice());
        assert(response@ =~= header_bytes(PacketHeader { kind: PacketKind::Response, tag: header.tag }));
        response
    }
}

/// The endpoint of one peer connection.
pub struct Port<T> {
    /// Outbound calls.
    pub calls: CallTable,
    /// Objects exported through this port.
    pub registry: ServiceRegistry<T>,
}

impl<T> Port<T> {
    pub open spec fn wf(&self) -> bool {
        self.calls.wf()
    }

    /// A port with id `port_id`, room for `call_slots` outstanding calls and
    /// no exported object.
    pub fn new(port_id: PortId, call_slots: u32) -> (r: Self)
        ensures
            r.wf(),
            !r.calls.shut_down,
            r.calls.slots@.len() == call_slots,
            forall|i: int| 0 <= i < call_slots ==> r.calls.slots@[i] is Free,
            r.registry.port_id == port_id,
            r.registry.slots@.len() == 0,
            r.registry.tables@.len() == 0,
    {
        Port { calls: CallTable::new(call_slots), registry: ServiceRegistry::new(port_id) }
    }

    /// Starts a call of `method` through `handle`: the call takes a tag of
    /// the call table, and the result is the tag and the request packet to
    /// send. A call that would put an undecided value on the wire is left
    /// out: callers test `call_allowed` first.
    pub fn call(&mut self, handle: &HandleInstance, method: MethodId, arguments: &[u8]) -> (r: Result<(CallTag, Vec<u8>), CallError>)
        requires
            old(self).wf(),
            call_decided(*handle, method),
        ensures
            final(self).wf(),
            final(self).registry == old(self).registry,
            final(self).calls.shut_down == old(self).calls.shut_down,
            old(self).calls.shut_down ==> r == Err::<(CallTag, Vec<u8>), CallError>(CallError::ShutDown),
            !old(self).calls.shut_down && crate::calls::first_free_slot(old(self).calls.slots@) == old(self).calls.slots@.len()
                ==> r == Err::<(CallTag, Vec<u8>), CallError>(CallError::NoFreeSlot),
            r is Err ==> final(self).calls.slots@ == old(self).calls.slots@,
            !old(self).calls.shut_down && crate::calls::first_free_slot(old(self).calls.slots@) < old(self).calls.slots@.len()
                ==> r is Ok,
            r matches Ok((tag, packet)) ==> {
                &&& tag as int == crate::calls::first_free_slot(old(self).calls.slots@)
                &&& (tag as int) < old(self).calls.slots@.len()
                &&& !old(self).calls.outstanding(tag)
                &&& final(self).calls.slots@ == old(self).calls.slots@.update(tag as int, SlotState::Waiting)
                &&& packet@ == header_bytes(PacketHeader { kind: PacketKind::Request, tag })
                    + (call_head_bytes(*handle, method) + arguments@)
            },
    {
        self.calls.request(handle, method, arguments)
    }

    /// Shuts the port's calls down: every waiting caller is released with
    /// the shutdown signal and no new call starts.
    pub fn shutdown(&mut self)
        requires
            old(self).wf(),
        ensures
            final(self).wf(),
            final(self).registry == old(self).registry,
            final(self).calls.shut_down,
            final(self).calls.slots@ == crate::calls::closed_all(old(self).calls.slots@),
    {
        self.calls.shutdown();
    }
}

/// A call made through an exported handle, once it has crossed to the
/// importer, reaches the exporting port as that very call. The server can
/// serve it exactly when a direct call of the method on the object's trait
/// would run, and its response, once read back by the caller, carries what
/// the exported object's method returns for the same arguments.
pub proof fn lemma_call_reaches_exported_object<T: ServiceDispatcher>(
    before: ServiceRegistry<T>,
    after: ServiceRegistry<T>,
    trait_id: TraitId,
    object: T,
    h: HandleInstance,
    importer: PortId,
    method: MethodId,
    tag: CallTag,
    arguments: Seq<u8>,
)
    requires
        before.port_id != UNDECIDED_PORT,
        registered(before, after, trait_id, object, h),
        method != DELETE_METHOD,
    ensures
        ({
            let imported = HandleInstance { port_id_importer: importer, ..h };
            let packet = header_bytes(PacketHeader { kind: PacketKind::Request, tag })
                + (call_head_bytes(imported, method) + arguments);
            &&& request_of(packet) == Some((PacketHeader { kind: PacketKind::Request, tag }, imported, method, arguments))
            &&& serve_spec(after, packet) == match direct_branch(before.tables@, trait_id, method) {
                Ok(_) => Ok::<CallTag, ServeError>(tag),
                Err(e) => Err(ServeError::Dispatch(e)),
            }
            &&& object.obeys_result_spec() ==> (direct_branch(before.tables@, trait_id, method) matches Ok(b) ==> {
                let response = response_spec(after, packet);
                &&& response_stated(after, packet)
                &&& decode_spec(response) == Ok::<PacketHeader, FrameError>(PacketHeader { kind: PacketKind::Response, tag })
                &&& response.subrange(HEADER_LEN as int, response.len() as int) == object.result_of(b as usize, arguments)
            })
        }),
{
    let imported = HandleInstance { port_id_importer: importer, ..h };
    let body = call_head_bytes(imported, method) + arguments;
    let header = PacketHeader { kind: PacketKind::Request, tag };
    crate::frame::lemma_frame_round_trip(header, body);
    crate::frame::lemma_call_round_trip(imported, method, arguments);
    crate::registry::lemma_export_then_call(before, after, trait_id, object, h, importer, method, arguments);
    let packet = header_bytes(header) + body;
    assert(packet.subrange(HEADER_LEN as int, packet.len() as int) == body);
    if let Ok(b) = direct_branch(before.tables@, trait_id, method) {
        let result = object.result_of(b as usize, arguments);
        crate::frame::lemma_frame_round_trip(PacketHeader { kind: PacketKind::Response, tag }, result);
    }
}

/// Once a delete request for an object has been served, a call through any
/// handle to the same slot can no longer be served: it names no object.
pub proof fn lemma_call_after_delete_fails<T>(
    before: ServiceRegistry<T>,
    after: ServiceRegistry<T>,
    handle: HandleInstance,
    method: MethodId,
    tag: CallTag,
    arguments: Seq<u8>,
)
    requires
        delete_spec(before, handle) is Ok,
        after.port_id == before.port_id,
        after.tables@ == before.tables@,
        after.slots@ == before.slots@.update(handle.id.index as int, None),
        method != DELETE_METHOD,
    ensures
        serve_spec(after, header_bytes(PacketHeader { kind: PacketKind::Request, tag })
            + (call_head_bytes(handle, method) + arguments))
            == Err::<CallTag, ServeError>(ServeError::Dispatch(DispatchError::NoObject)),
{
    let body = call_head_bytes(handle, method) + arguments;
    let header = PacketHeader { kind: PacketKind::Request, tag };
    crate::frame::lemma_frame_round_trip(header, body);
    crate::frame::lemma_call_round_trip(handle, method, arguments);
    let packet = header_bytes(header) + body;
    assert(packet.subrange(HEADER_LEN as int, packet.len() as int) == body);
}

} // verus!

use fml::calls::{CallError, CallPoll, CallTable, DeliverError};
use fml::frame::{
    decode, decode_call, encode, encode_call, payload_of, FrameError, PacketHeader, PacketKind, HEADER_LEN,
};
use fml::ids::{HandleInstance, MethodId, ServiceObjectId, UNDECIDED_METHOD, UNDECIDED_PORT};
use fml::port::{
    call_allowed, request_is_delete, Inbound, Port, ReceiveError, ServeError, ShutdownHelper, DELETE_METHOD,
};
use fml::registry::{DispatchError, DispatchTable, ServiceDispatcher, ServiceRegistry};
use fml::service::{
    delete_remote, export_service, import_service_arc, import_service_box, ExportingServicePool, SArc, SBox,
};
use std::sync::Arc;

const TEST_TRAIT: u16 = 9;
const FN1: MethodId = 7;
const FN2: MethodId = 8;
const FN3: MethodId = 9;
const HELLO_TRAIT: u16 = 4;
const GREET: MethodId = 1;

#[derive(Debug)]
struct TestImpl {
    handle: HandleInstance,
    name: String,
}

impl ServiceDispatcher for TestImpl {
    fn dispatch(&self, branch: usize, arguments: &[u8]) -> Vec<u8> {
        match branch {
            0 => {
                let (a1, a2, a3): (String, String, Vec<u8>) = serde_cbor::from_slice(arguments).unwrap();
                serde_cbor::to_vec(&format!("{}{}{}", a1, a2, a3.len())).unwrap()
            }
            1 => {
                let (a,): (u8,) = serde_cbor::from_slice(arguments).unwrap();
                serde_cbor::to_vec(&format!("{}", a)).unwrap()
            }
            2 => serde_cbor::to_vec(&self.name).unwrap(),
            _ => panic!("no such branch"),
        }
    }
}

struct Hello;

impl ServiceDispatcher for Hello {
    fn dispatch(&self, branch: usize, arguments: &[u8]) -> Vec<u8> {
        assert_eq!(branch, 0);
        let (name,): (String,) = serde_cbor::from_slice(arguments).unwrap();
        serde_cbor::to_vec(&format!("Hello, {}", name)).unwrap()
    }
}

struct Echo;

impl ServiceDispatcher for Echo {
    fn dispatch(&self, _branch: usize, arguments: &[u8]) -> Vec<u8> {
        arguments.to_vec()
    }
}

fn distinct_handle(i: u16) -> HandleInstance {
    HandleInstance::new(ServiceObjectId { trait_id: TEST_TRAIT, index: i }, i, i)
}

fn test_port(port_id: u16) -> Port<TestImpl> {
    let mut port = Port::new(port_id, 4);
    port.registry.add_table(DispatchTable { trait_id: TEST_TRAIT, methods: vec![FN1, FN2, FN3] });
    port
}

/// Serves `request` on `server` the way the runtime does: test, then serve.
fn serve_checked<B: ServiceDispatcher>(server: &mut Port<B>, request: &[u8]) -> Result<Vec<u8>, ServeError> {
    server.registry.check_request(request)?;
    Ok(server.registry.serve(request))
}

/// Sends one call from `client` to `server` and brings the response back.
fn exchange<A, B: ServiceDispatcher>(
    client: &mut Port<A>,
    server: &mut Port<B>,
    handle: &HandleInstance,
    method: MethodId,
    args: &[u8],
) -> Result<Vec<u8>, ServeError> {
    assert!(call_allowed(handle, method));
    let (tag, request) = client.call(handle, method, args).unwrap();
    let response = serve_checked(server, &request)?;
    assert_eq!(client.calls.receive(&response), Ok(Inbound::Delivered(tag)));
    match client.calls.poll(tag) {
        CallPoll::Response(p) => Ok(p),
        other => panic!("unexpected {:?}", other),
    }
}

#[test]
fn cast() {
    let object = Arc::new(TestImpl { handle: Default::default(), name: Default::default() });
    let held = SArc::new(object.clone());
    let back = held.unwrap();
    assert!(Arc::ptr_eq(&back, &object));
    let mut boxed = SBox::new(Box::new(TestImpl { handle: Default::default(), name: "b".to_owned() }));
    assert_eq!(boxed.unwrap().name, "b");
    assert!(boxed.value.is_none());
}

#[test]
fn tests_service_1() {
    let mut server: Port<TestImpl> = test_port(2);
    let s = import_service_arc(1, Default::default());
    let args = serde_cbor::to_vec(&("qwe".to_owned(), "qweqwe", b"123".to_vec())).unwrap();
    // The empty handle never goes on the wire.
    assert!(!call_allowed(&s.handle, FN1));
    let x = serde_cbor::to_vec(&(3u8,)).unwrap();
    assert!(!call_allowed(&s.handle, FN2));
    // A peer that sends it anyway is refused by the server.
    let forged = encode(PacketHeader { kind: PacketKind::Request, tag: 0 }, &encode_call(&s.handle, FN2, &x));
    assert_eq!(serve_checked(&mut server, &forged), Err(ServeError::Dispatch(DispatchError::EmptyHandle)));
    let forged = encode(PacketHeader { kind: PacketKind::Request, tag: 0 }, &encode_call(&s.handle, FN1, &args));
    assert_eq!(server.registry.check_request(&forged), Err(ServeError::Dispatch(DispatchError::EmptyHandle)));
}

#[test]
fn intergration_test_service_1() {
    let mut client: Port<TestImpl> = test_port(1);
    let s = import_service_box(1, Default::default());
    assert_eq!(s.handle.port_id_importer, 1);
    let args = serde_cbor::to_vec(&("qwe".to_owned(), "qweqwe", b"123".to_vec())).unwrap();
    assert!(!call_allowed(&s.handle, FN1));
    let decided = import_service_box(1, distinct_handle(3));
    assert!(call_allowed(&decided.handle, FN1));
    let (tag, request) = client.call(&decided.handle, FN1, &args).unwrap();
    let (handle, method, a) = decode_call(payload_of(&request)).unwrap();
    assert_eq!(handle, HandleInstance::new(ServiceObjectId { trait_id: TEST_TRAIT, index: 3 }, 3, 1));
    assert_eq!(method, FN1);
    assert_eq!(a, &args[..]);
    assert_eq!(client.calls.poll(tag), CallPoll::Pending);
    assert!(!call_allowed(&decided.handle, UNDECIDED_METHOD));
}

#[test]
fn tests_service_2() {
    let mut client: Port<TestImpl> = test_port(1234);
    let si = import_service_box(1234, distinct_handle(1234));
    let args = serde_cbor::to_vec(&("s1".to_owned(), "s2".to_owned(), vec![3u8])).unwrap();
    let (_, request) = client.call(&si.handle, FN1, &args).unwrap();
    {
        let header = decode(&request).unwrap();
        assert_eq!(header.kind, PacketKind::Request);
        let (handle, method, a) = decode_call(&request[HEADER_LEN..]).unwrap();
        assert_eq!(handle, distinct_handle(1234));
        assert_eq!(method, 7);
        let (a1, a2, a3): (String, String, Vec<u8>) = serde_cbor::from_slice(a).unwrap();
        assert_eq!(a1, "s1");
        assert_eq!(a2, "s2");
        assert_eq!(a3, &[3]);
    }

    let mut server: Port<TestImpl> = test_port(777);
    let se = export_service(&mut server, TEST_TRAIT, TestImpl { handle: distinct_handle(2345), name: "Hi".to_owned() })
        .unwrap();
    assert_eq!(server.registry.get(se.id.index).unwrap().handle, distinct_handle(2345));
    assert!(server.registry.resolve(&se, 7).is_ok());
    let result = server.registry.dispatch(&se, 7, &args);
    let name: String = serde_cbor::from_slice(&result).unwrap();
    {
        let newly = export_service(&mut server, TEST_TRAIT, TestImpl { handle: Default::default(), name }).unwrap();
        assert_eq!(newly.port_id_exporter, 777);
        let fn3 = server.registry.dispatch(&newly, FN3, &serde_cbor::to_vec(&()).unwrap());
        let s: String = serde_cbor::from_slice(&fn3).unwrap();
        assert_eq!(s, "s1s21");
    }

    let (_, request) = delete_remote(&mut client, &si, false).unwrap().unwrap();
    {
        let (handle, method, a) = decode_call(payload_of(&request)).unwrap();
        assert_eq!(method, DELETE_METHOD);
        assert_eq!(handle, distinct_handle(1234));
        assert!(a.is_empty());
    }
}

#[test]
fn no_drop_skips_remote_delete() {
    let mut client: Port<TestImpl> = test_port(1);
    let si = import_service_box(1, distinct_handle(5));
    assert_eq!(delete_remote(&mut client, &si, true), Ok(None));
}

#[test]
fn ping() {
    let mut main_port: Port<Echo> = Port::new(1, 2);
    let mut ping_port: Port<Echo> = Port::new(2, 2);
    ping_port.registry.add_table(DispatchTable { trait_id: 1, methods: vec![1] });
    let h = export_service(&mut ping_port, 1, Echo).unwrap();
    let remote = import_service_arc(1, h);
    let (t0, r0) = main_port.call(&remote.handle, 1, b"pong").unwrap();
    let (t1, r1) = main_port.call(&remote.handle, 1, b"pong").unwrap();
    assert_ne!(t0, t1);
    let a0 = serve_checked(&mut ping_port, &r0).unwrap();
    let a1 = serve_checked(&mut ping_port, &r1).unwrap();
    assert_eq!(main_port.calls.receive(&a1), Ok(Inbound::Delivered(t1)));
    assert_eq!(main_port.calls.receive(&a0), Ok(Inbound::Delivered(t0)));
    assert_eq!(main_port.calls.poll(t0), CallPoll::Response(b"pong".to_vec()));
    assert_eq!(main_port.calls.poll(t1), CallPoll::Response(b"pong".to_vec()));
}

#[test]
fn responses_match_tags_out_of_order() {
    let mut client: Port<Echo> = Port::new(1, 3);
    let mut server: Port<Echo> = Port::new(2, 3);
    server.registry.add_table(DispatchTable { trait_id: 1, methods: vec![5] });
    let h = import_service_arc(1, export_service(&mut server, 1, Echo).unwrap()).handle.careful_clone();
    let mut calls = Vec::new();
    for body in [b"first".to_vec(), b"second".to_vec(), b"third".to_vec()] {
        let (tag, request) = client.call(&h, 5, &body).unwrap();
        calls.push((tag, body, serve_checked(&mut server, &request).unwrap()));
    }
    assert_eq!(client.call(&h, 5, b"x"), Err(CallError::NoFreeSlot));
    for i in [2usize, 0, 1] {
        assert_eq!(client.calls.receive(&calls[i].2), Ok(Inbound::Delivered(calls[i].0)));
    }
    assert_eq!(client.calls.receive(&calls[0].2), Err(ReceiveError::UnexpectedResponse));
    for (tag, body, _) in &calls {
        assert_eq!(client.calls.poll(*tag), CallPoll::Response(body.clone()));
        assert_eq!(client.calls.poll(*tag), CallPoll::NotOutstanding);
    }
}

#[test]
fn shutdown_releases_waiting_calls() {
    let mut client: Port<Echo> = Port::new(1, 2);
    let h = distinct_handle(3);
    let (t0, _) = client.call(&h, 5, b"a").unwrap();
    client.shutdown();
    assert_eq!(client.calls.poll(t0), CallPoll::Shutdown);
    assert_eq!(client.call(&h, 5, b"b"), Err(CallError::ShutDown));
}

#[test]
fn call_table_delivery_rules() {
    let mut table = CallTable::new(2);
    let t = table.begin_call().unwrap();
    assert_eq!(table.deliver(t + 1, vec![1]), Err(DeliverError::UnexpectedTag));
    assert_eq!(table.deliver(9, vec![1]), Err(DeliverError::UnexpectedTag));
    assert_eq!(table.poll(t), CallPoll::Pending);
    assert_eq!(table.deliver(t, vec![1]), Ok(()));
    assert_eq!(table.deliver(t, vec![2]), Err(DeliverError::UnexpectedTag));
    assert_eq!(table.poll(t), CallPoll::Response(vec![1]));
    assert_eq!(table.begin_call(), Ok(t));
}

#[test]
fn hello_end_to_end() {
    let mut module_a: Port<Hello> = Port::new(10, 4);
    module_a.registry.add_table(DispatchTable { trait_id: HELLO_TRAIT, methods: vec![GREET] });
    let mut module_b: Port<Hello> = Port::new(20, 4);
    let exported = export_service(&mut module_a, HELLO_TRAIT, Hello).unwrap();
    let imported = import_service_box(20, exported);
    let args = serde_cbor::to_vec(&("Robot3".to_owned(),)).unwrap();
    let answer = exchange(&mut module_b, &mut module_a, &imported.handle, GREET, &args).unwrap();
    let text: String = serde_cbor::from_slice(&answer).unwrap();
    assert_eq!(text, "Hello, Robot3");

    let (tag, request) = delete_remote(&mut module_b, &imported, false).unwrap().unwrap();
    let response = serve_checked(&mut module_a, &request).unwrap();
    assert_eq!(module_b.calls.receive(&response), Ok(Inbound::Delivered(tag)));
    assert_eq!(module_b.calls.poll(tag), CallPoll::Response(Vec::new()));

    // A new object never takes the deleted slot.
    let other = export_service(&mut module_a, HELLO_TRAIT, Hello).unwrap();
    assert_ne!(other.id.index, imported.handle.id.index);

    let (_, request) = module_b.call(&imported.handle, GREET, &args).unwrap();
    assert_eq!(module_a.registry.check_request(&request), Err(ServeError::Dispatch(DispatchError::NoObject)));
}

#[test]
fn round_trip_matches_direct_call() {
    let mut exporter: Port<TestImpl> = test_port(3);
    let mut importer: Port<TestImpl> = test_port(4);
    let object = TestImpl { handle: Default::default(), name: "direct".to_owned() };
    let direct_fn2 = object.dispatch(1, &serde_cbor::to_vec(&(42u8,)).unwrap());
    let direct_fn3 = object.dispatch(2, &[]);
    let h = export_service(&mut exporter, TEST_TRAIT, object).unwrap();
    let remote = import_service_arc(4, h);
    let via_fn2 = exchange(&mut importer, &mut exporter, &remote.handle, FN2, &serde_cbor::to_vec(&(42u8,)).unwrap());
    let via_fn3 = exchange(&mut importer, &mut exporter, &remote.handle, FN3, &[]);
    assert_eq!(via_fn2.unwrap(), direct_fn2);
    assert_eq!(via_fn3.unwrap(), direct_fn3);
}

#[test]
fn dispatch_errors() {
    let mut reg: ServiceRegistry<Echo> = ServiceRegistry::new(5);
    reg.add_table(DispatchTable { trait_id: 1, methods: vec![10, 11] });
    let h = reg.register(1, Echo).unwrap();
    let other = reg.register(2, Echo).unwrap();
    assert_eq!(h.id.index, 0);
    assert_eq!(other.id.index, 1);
    assert_eq!(h.port_id_importer, UNDECIDED_PORT);
    assert_eq!(reg.resolve(&h, 11), Ok((0, 1)));
    assert_eq!(reg.resolve(&h, 12), Err(DispatchError::UnknownMethod));
    assert_eq!(reg.resolve(&other, 10), Err(DispatchError::UnknownTrait));
    let wrong = HandleInstance::new(h.id, 6, 1);
    assert_eq!(reg.resolve(&wrong, 10), Err(DispatchError::WrongPort));
    assert_eq!(reg.resolve(&HandleInstance::default(), 10), Err(DispatchError::EmptyHandle));
    assert_eq!(reg.dispatch(&h, 10, b"x"), b"x".to_vec());
}

#[test]
fn deleted_slots_are_never_reused() {
    let mut reg: ServiceRegistry<Echo> = ServiceRegistry::new(5);
    reg.add_table(DispatchTable { trait_id: 1, methods: vec![10] });
    let a = reg.register(1, Echo).unwrap();
    let b = reg.register(1, Echo).unwrap();
    assert!(reg.delete(a.id.index).is_some());
    assert!(reg.delete(a.id.index).is_none());
    assert!(!reg.is_registered(a.id.index));
    assert_eq!(reg.resolve(&a, 10), Err(DispatchError::NoObject));
    assert_eq!(reg.dispatch(&b, 10, b"y"), b"y".to_vec());
    let c = reg.register(1, Echo).unwrap();
    assert_eq!(c.id.index, 2);
    assert_eq!(reg.resolve(&a, 10), Err(DispatchError::NoObject));
}

#[test]
fn exporting_pool_exports_once() {
    let mut pool = ExportingServicePool::new(vec![Echo, Echo]);
    let mut reg: ServiceRegistry<Echo> = ServiceRegistry::new(8);
    assert!(pool.is_available(1));
    assert!(reg.has_room());
    let h = pool.export(&mut reg, 1, 1);
    assert_eq!(h.id.index, 0);
    assert_eq!(h.port_id_exporter, 8);
    assert!(!pool.is_available(1));
    assert!(!pool.is_available(2));
    assert!(pool.is_available(0));
}

#[test]
fn shutdown_helper_takes_once() {
    let mut helper = ShutdownHelper::new(5u32);
    assert_eq!(*helper.get(), 5);
    assert!(!helper.is_taken());
    assert_eq!(helper.take(), 5);
    assert!(helper.is_taken());
}

#[test]
fn serve_call_and_delete_detection() {
    let mut client: Port<Echo> = Port::new(1, 2);
    let mut server: Port<Echo> = Port::new(2, 2);
    server.registry.add_table(DispatchTable { trait_id: 1, methods: vec![5] });
    let h = import_service_box(1, export_service(&mut server, 1, Echo).unwrap());
    let (_, call) = client.call(&h.handle, 5, b"abc").unwrap();
    assert!(!request_is_delete(&call));
    assert_eq!(server.registry.check_request(&call), Ok(0));
    let response = server.registry.serve_call(&call);
    assert_eq!(decode(&response).unwrap(), PacketHeader { kind: PacketKind::Response, tag: 0 });
    assert_eq!(&response[HEADER_LEN..], b"abc");
    let (_, delete) = delete_remote(&mut client, &h, false).unwrap().unwrap();
    assert!(request_is_delete(&delete));
    assert!(server.registry.is_registered(0));
    let reply = serve_checked(&mut server, &delete).unwrap();
    assert_eq!(reply.len(), HEADER_LEN);
    assert!(!server.registry.is_registered(0));
    assert_eq!(server.registry.check_request(&delete), Err(ServeError::Dispatch(DispatchError::NoObject)));
}

#[test]
fn malformed_packets_are_refused() {
    let mut client: Port<Echo> = Port::new(1, 2);
    let server: Port<Echo> = Port::new(2, 2);
    assert_eq!(client.calls.receive(&[1, 2]), Err(ReceiveError::Frame(FrameError::Short)));
    assert_eq!(client.calls.receive(&[0, 0, 0, 0, 9, 0, 0, 0]), Err(ReceiveError::Frame(FrameError::BadKind)));
    let request = encode(PacketHeader { kind: PacketKind::Request, tag: 6 }, b"short");
    assert_eq!(client.calls.receive(&request), Ok(Inbound::Request(6)));
    assert_eq!(server.registry.check_request(&request), Err(ServeError::ShortBody));
    let response = encode(PacketHeader { kind: PacketKind::Response, tag: 0 }, b"");
    assert_eq!(server.registry.check_request(&response), Err(ServeError::NotRequest));
    assert_eq!(server.registry.check_request(&[7]), Err(ServeError::Frame(FrameError::Short)));
}

use systemd::bus::BusName;
use systemd::bus::InterfaceName;
use systemd::bus::MemberName;
use systemd::bus::MessageType;
use systemd::bus::ObjectPath;
use systemd::bus::RawError;
use systemd::bus::types::UnixFd;
use systemd::bus;

fn dbus_names() -> (BusName, ObjectPath, InterfaceName, MemberName) {
    (
        BusName::from_bytes(b"org.freedesktop.DBus\0").unwrap(),
        ObjectPath::from_bytes(b"/\0").unwrap(),
        InterfaceName::from_bytes(b"org.freedesktop.DBus\0").unwrap(),
        MemberName::from_bytes(b"GetId\0").unwrap(),
    )
}

#[test]
fn t_raw_error() {
    let mut e = RawError::new();
    e.set("name", Some("error"));
}

#[test]
fn call() {
    let mut b = bus::Bus::default_system().unwrap();

    let (dest, path, iface, _) = dbus_names();
    let member = MemberName::from_bytes(b"GetId\0").unwrap();
    let mut m = b.new_method_call(&dest, &path, &iface, &member).unwrap();

    // a loopback transport answers the call
    let cookie = m.send(&mut b).unwrap();
    let mut reply = m.new_method_return().unwrap();
    assert_eq!(reply.reply_cookie(), cookie);
    reply
        .append(String::from("0123456789abcdef0123456789abcdef"))
        .unwrap();
    reply.seal();
    b.feed(reply);

    m.call(&mut b, 0).unwrap();
}

#[test]
fn basic_append_and_read() {
    let mut b = bus::Bus::default_system().unwrap();

    let (dest, path, iface, _) = dbus_names();
    let member = MemberName::from_bytes(b"GetNameOwner\0").unwrap();
    let mut m = b.new_method_call(&dest, &path, &iface, &member).unwrap();

    m.append(String::from("org.freedesktop.DBus")).unwrap();

    // a loopback transport answers with the owner's name
    m.send(&mut b).unwrap();
    let mut reply = m.new_method_return().unwrap();
    reply.append(String::from("org.freedesktop.DBus")).unwrap();
    reply.seal();
    b.feed(reply);

    let mut r = m.call(&mut b, 0).unwrap();

    let mut i = r.iter().unwrap();

    assert_eq!(i.peek_type().unwrap(), (b's', String::new()));

    let n: String = i.next().unwrap().unwrap();
    assert_eq!(n, "org.freedesktop.DBus");
}

#[test]
fn message_round_trip() {
    let mut b = bus::Bus::default().unwrap();
    let (dest, path, iface, member) = dbus_names();
    let mut m = b.new_method_call(&dest, &path, &iface, &member).unwrap();

    m.append(7u8).unwrap();
    m.append(-12345i32).unwrap();
    m.append(true).unwrap();
    m.append(String::from("hello world")).unwrap();
    m.append(UnixFd(5)).unwrap();
    m.append(0xdead_beef_dead_beefu64).unwrap();

    m.send(&mut b).unwrap();
    assert!(m.is_sealed());

    // a received or cloned copy yields the same values in the same order
    let mut copy = m.clone();
    let mut it = copy.iter().unwrap();
    assert_eq!(it.peek_type().unwrap().0, b'y');
    assert_eq!(it.next::<u8>().unwrap(), Some(7u8));
    assert_eq!(it.peek_type().unwrap().0, b'i');
    assert_eq!(it.next::<i32>().unwrap(), Some(-12345i32));
    assert_eq!(it.peek_type().unwrap().0, b'b');
    assert_eq!(it.next::<bool>().unwrap(), Some(true));
    assert_eq!(it.peek_type().unwrap().0, b's');
    assert_eq!(it.next::<String>().unwrap(), Some(String::from("hello world")));
    assert_eq!(it.peek_type().unwrap().0, b'h');
    assert_eq!(it.next::<UnixFd>().unwrap(), Some(UnixFd(5)));
    assert_eq!(it.peek_type().unwrap().0, b't');
    assert_eq!(it.next::<u64>().unwrap(), Some(0xdead_beef_dead_beefu64));
    // end of the message
    assert_eq!(it.peek_type().unwrap().0, 0);
    assert_eq!(it.next::<u8>().unwrap(), None);
}

#[test]
fn read_type_mismatch_is_hard_error() {
    let mut b = bus::Bus::default().unwrap();
    let (dest, path, iface, member) = dbus_names();
    let mut m = b.new_method_call(&dest, &path, &iface, &member).unwrap();
    m.append(33u32).unwrap();
    m.seal();
    let mut it = m.iter().unwrap();
    let e = it.next::<u8>().err().unwrap();
    assert_eq!(e.code, systemd::ENXIO);
    // the cursor did not move; the right type still reads
    assert_eq!(it.next::<u32>().unwrap(), Some(33u32));
}

#[test]
fn sealed_message_rejects_append() {
    let mut b = bus::Bus::default().unwrap();
    let (dest, path, iface, member) = dbus_names();
    let mut m = b.new_method_call(&dest, &path, &iface, &member).unwrap();
    m.append(1u8).unwrap();
    m.send(&mut b).unwrap();

    let e = m.append(2u8).err().unwrap();
    assert_eq!(e.code, systemd::EPERM);

    // the body is unchanged: still exactly one byte value
    let mut it = m.iter().unwrap();
    assert_eq!(it.next::<u8>().unwrap(), Some(1u8));
    assert_eq!(it.next::<u8>().unwrap(), None);
}

#[test]
fn open_message_cannot_be_iterated() {
    let mut b = bus::Bus::default().unwrap();
    let (dest, path, iface, member) = dbus_names();
    let mut m = b.new_method_call(&dest, &path, &iface, &member).unwrap();
    let e = m.iter().err().unwrap();
    assert_eq!(e.code, systemd::EPERM);
}

#[test]
fn call_without_reply_reports_timeout() {
    let mut b = bus::Bus::default().unwrap();
    let (dest, path, iface, member) = dbus_names();
    let mut m = b.new_method_call(&dest, &path, &iface, &member).unwrap();
    let e = m.call(&mut b, 1_000_000).err().unwrap();
    assert_eq!(e.name().as_str(), bus::TIMEOUT_ERROR);
    assert!(m.is_sealed());
}

#[test]
fn call_reports_method_error() {
    let mut b = bus::Bus::default().unwrap();
    let (dest, path, iface, member) = dbus_names();
    let mut m = b.new_method_call(&dest, &path, &iface, &member).unwrap();
    m.send(&mut b).unwrap();

    let failure = bus::Error::new("org.example.Failure", Some("it broke"));
    let mut reply = m.new_method_error(&failure).unwrap();
    reply.seal();
    assert_eq!(reply.type_(), MessageType::MethodError);
    b.feed(reply);

    let e = m.call(&mut b, 0).err().unwrap();
    assert_eq!(e.name().as_str(), "org.example.Failure");
    assert_eq!(e.message().unwrap().as_str(), "it broke");
    assert_eq!(e.description().as_str(), "it broke");
}

#[test]
fn error_clone_and_free_are_independent() {
    let base = bus::Error::new("org.example.Error", Some("message"));
    let c1 = base.clone();
    let c2 = base.clone();
    drop(c1);
    assert_eq!(base.name().as_str(), "org.example.Error");
    assert_eq!(c2.name().as_str(), "org.example.Error");
    assert_eq!(c2.message().unwrap().as_str(), "message");

    let mut raw = RawError::new();
    raw.set("org.example.Error", None);
    let mut copy = raw.clone();
    copy.free();
    assert!(!copy.is_set());
    // freeing the copy releases only the copy's buffers
    assert!(raw.is_set());
    assert_eq!(raw.name().unwrap().as_str(), "org.example.Error");
    raw.free();
    assert!(!raw.is_set());
    // a second free has nothing left to release
    raw.free();
    assert!(!raw.is_set());
}

#[test]
fn process_delivers_in_arrival_order() {
    let mut b = bus::Bus::default().unwrap();
    let (dest, path, iface, member) = dbus_names();

    let mut m1 = b.new_method_call(&dest, &path, &iface, &member).unwrap();
    m1.append(1u8).unwrap();
    m1.seal();
    let mut m2 = b.new_method_call(&dest, &path, &iface, &member).unwrap();
    m2.append(2u8).unwrap();
    m2.seal();
    b.feed(m1);
    b.feed(m2);

    let mut d1 = b.process().unwrap().unwrap().unwrap();
    let mut it = d1.iter().unwrap();
    assert_eq!(it.next::<u8>().unwrap(), Some(1u8));
    let mut d2 = b.process().unwrap().unwrap().unwrap();
    let mut it = d2.iter().unwrap();
    assert_eq!(it.next::<u8>().unwrap(), Some(2u8));
    assert!(b.process().unwrap().is_none());
}

#[test]
fn async_replies_correlate_by_cookie() {
    let mut b = bus::Bus::default().unwrap();
    let (dest, path, iface, member) = dbus_names();

    let mut m1 = b.new_method_call(&dest, &path, &iface, &member).unwrap();
    b.new_method_call(&dest, &path, &iface, &member).unwrap();
    let mut m2 = b.new_method_call(&dest, &path, &iface, &member).unwrap();

    m1.call_async(&mut b, 71, 0).unwrap();
    m2.call_async(&mut b, 72, 0).unwrap();

    // replies may come back in any order; the cookie decides
    assert_eq!(b.claim_reply(m2.cookie()), Some(72));
    assert_eq!(b.claim_reply(m1.cookie()), Some(71));
    assert_eq!(b.claim_reply(m1.cookie()), None);
}

#[test]
fn object_routing_matches_the_path() {
    let mut b = bus::Bus::default().unwrap();
    let p1 = ObjectPath::from_bytes(b"/one\0").unwrap();
    let p2 = ObjectPath::from_bytes(b"/two\0").unwrap();
    b.add_object(&p1, 11).unwrap();
    b.add_object(&p2, 22).unwrap();
    assert_eq!(b.route_object(&p1), Some(11));
    assert_eq!(b.route_object(&p2), Some(22));
    let p3 = ObjectPath::from_bytes(b"/three\0").unwrap();
    assert_eq!(b.route_object(&p3), None);
}

#[test]
fn name_ownership_round_trip() {
    let mut b = bus::Bus::default().unwrap();
    let n = BusName::from_bytes(b"org.example.Service\0").unwrap();
    b.request_name(&n, 0).unwrap();
    b.release_name(&n).unwrap();
    let e = b.release_name(&n).err().unwrap();
    assert_eq!(e.code, systemd::ESRCH);
}

#[test]
fn closed_bus_reports_disconnect() {
    let mut b = bus::Bus::default().unwrap();
    b.close();
    let e = b.process().err().unwrap();
    assert_eq!(e.code, systemd::ENOTCONN);
    let (dest, path, iface, member) = dbus_names();
    // the closed transport refuses new work before it starts
    assert!(!b.is_open());
    let mut other = bus::Bus::default().unwrap();
    let mut m = other.new_method_call(&dest, &path, &iface, &member).unwrap();
    let e = m.call(&mut b, 0).err().unwrap();
    assert_eq!(e.name().as_str(), bus::DISCONNECTED_ERROR);
}

#[test]
fn message_metadata() {
    let mut b = bus::Bus::default().unwrap();
    let (dest, path, iface, member) = dbus_names();
    let m2 = b.new_signal(&path, &iface, &member).unwrap();
    assert_eq!(m2.type_(), MessageType::Signal);
    assert!(m2.destination().is_none());

    let mut m = b.new_method_call(&dest, &path, &iface, &member).unwrap();
    assert_eq!(m.type_(), MessageType::MethodCall);
    assert_eq!(m.path().unwrap().as_bytes(), b"/\0");
    assert_eq!(m.member().unwrap().as_bytes(), b"GetId\0");
    assert_eq!(
        m.interface().unwrap().as_bytes(),
        b"org.freedesktop.DBus\0"
    );
    assert!(m.is_empty());
    assert!(!m.is_sealed());
    m.append(1u16).unwrap();
    assert!(!m.is_empty());

    assert_eq!(MessageType::from_raw(1), MessageType::MethodCall);
    assert_eq!(MessageType::from_raw(2), MessageType::MethodReturn);
    assert_eq!(MessageType::from_raw(3), MessageType::MethodError);
    assert_eq!(MessageType::from_raw(4), MessageType::Signal);
}

#[test]
fn ffi_result_maps_negative_statuses() {
    assert_eq!(systemd::ffi_result(3).unwrap(), 3);
    assert_eq!(systemd::ffi_result(0).unwrap(), 0);
    let e = systemd::ffi_result(-16).err().unwrap();
    assert_eq!(e.code, 16);
    assert_eq!(e.code(), 16);
}

#[test]
fn unique_name_arrives_from_transport() {
    let mut b = bus::Bus::default().unwrap();
    let e = b.unique_name().err().unwrap();
    assert_eq!(e.code, systemd::ENODATA);
    b.assign_unique_name(BusName::from_bytes(b":1.42\0").unwrap());
    assert_eq!(b.unique_name().unwrap().as_bytes(), b":1.42\0");
}

#[test]
fn outgoing_queue_drains_in_send_order() {
    let mut b = bus::Bus::default().unwrap();
    let (dest, path, iface, member) = dbus_names();

    let mut m1 = b.new_method_call(&dest, &path, &iface, &member).unwrap();
    let c1 = m1.send(&mut b).unwrap();
    let mut m2 = b.new_method_call(&dest, &path, &iface, &member).unwrap();
    let c2 = m2.send_no_reply(&mut b);
    c2.unwrap();

    let w1 = b.take_outgoing().unwrap();
    assert_eq!(w1.cookie(), c1);
    let w2 = b.take_outgoing().unwrap();
    assert!(w2.cookie() > c1);
    assert!(b.take_outgoing().is_none());
}

#[test]
fn send_to_sets_the_destination() {
    let mut b = bus::Bus::default().unwrap();
    let (dest, path, iface, member) = dbus_names();
    let mut m = b.new_signal(&path, &iface, &member).unwrap();
    assert!(m.destination().is_none());
    let other = BusName::from_bytes(b"org.example.Peer\0").unwrap();
    m.send_to(&mut b, &other).unwrap();
    assert_eq!(m.destination().unwrap().as_bytes(), b"org.example.Peer\0");
    // a sealed message's destination is fixed
    let e = m.send_to(&mut b, &dest).err().unwrap();
    assert_eq!(e.code, systemd::EPERM);
}

#[test]
fn signature_lists_the_body_types() {
    let mut b = bus::Bus::default().unwrap();
    let (dest, path, iface, member) = dbus_names();
    let mut m = b.new_method_call(&dest, &path, &iface, &member).unwrap();
    assert_eq!(m.signature(), "");
    m.append(1u8).unwrap();
    m.append(true).unwrap();
    m.append(-2i16).unwrap();
    m.append(3u16).unwrap();
    m.append(-4i32).unwrap();
    m.append(5u32).unwrap();
    m.append(-6i64).unwrap();
    m.append(7u64).unwrap();
    m.append(String::from("s")).unwrap();
    m.append(ObjectPath::from_bytes(b"/\0").unwrap()).unwrap();
    m.append(UnixFd(0)).unwrap();
    assert_eq!(m.signature(), "ybnqiuxtsoh");
}

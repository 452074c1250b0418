use konsoleat::dbus::{Body, MethodCall, Reply};
use konsoleat::konsole::{
    get_current_session_call, get_service_pid_call, get_session_pid_call, konsole_services, list_services,
    list_services_call, list_sessions, list_sessions_call, list_windows, list_windows_call, new_session_call,
    parse_session_ids, present_names, set_current_session_call, ListSessionsError, ListWindowsError,
};
use std::path::PathBuf;
use zbus::zvariant::serialized::Context;
use zbus::zvariant::{to_bytes, LE};

fn strings(list: &[&str]) -> Vec<String> {
    list.iter().map(|s| s.to_string()).collect()
}

fn strs(list: &[&str]) -> Result<Reply, zbus::Error> {
    let bytes = to_bytes(Context::new_dbus(LE, 0), &list.to_vec()).unwrap().bytes().to_vec();
    Ok(Reply { signature: "as".to_string(), big_endian: false, bytes })
}

fn text(s: &str) -> Result<Reply, zbus::Error> {
    let bytes = to_bytes(Context::new_dbus(LE, 0), s).unwrap().bytes().to_vec();
    Ok(Reply { signature: "s".to_string(), big_endian: false, bytes })
}

fn failure() -> Result<Reply, zbus::Error> {
    Err(zbus::Error::Failure("no reply".to_string()))
}

fn check(call: &MethodCall, destination: &str, path: &str, interface: &str, member: &str) {
    assert_eq!(call.destination, destination);
    assert_eq!(call.path, path);
    assert_eq!(call.interface, interface);
    assert_eq!(call.member, member);
}

#[test]
fn requests_go_to_the_right_objects() {
    let bus = "org.freedesktop.DBus";
    let call = list_services_call();
    check(&call, bus, "/org/freedesktop/DBus", bus, "ListNames");
    assert!(matches!(call.body, Body::Empty));

    let call = list_windows_call("svc");
    check(&call, "svc", "/Windows", "org.freedesktop.DBus.Introspectable", "Introspect");
    assert!(matches!(call.body, Body::Empty));

    let window = "org.kde.konsole.Window";
    let call = list_sessions_call("svc", "3");
    check(&call, "svc", "/Windows/3", window, "sessionList");
    assert!(matches!(call.body, Body::Empty));

    let call = get_current_session_call("svc", "3");
    check(&call, "svc", "/Windows/3", window, "currentSession");
    assert!(matches!(call.body, Body::Empty));

    let call = set_current_session_call("svc", "3", 8);
    check(&call, "svc", "/Windows/3", window, "setCurrentSession");
    assert!(matches!(call.body, Body::Int(8)));

    let call = new_session_call("svc", "3", PathBuf::from("/home"));
    check(&call, "svc", "/Windows/3", window, "newSession");
    assert!(matches!(call.body, Body::StrPath(profile, dir) if profile.is_empty() && dir == PathBuf::from("/home")));

    let call = get_session_pid_call("svc", 12);
    check(&call, "svc", "/Sessions/12", "org.kde.konsole.Session", "processId");
    assert!(matches!(call.body, Body::Empty));

    let call = get_service_pid_call("svc");
    check(&call, bus, "/", bus, "GetConnectionUnixProcessID");
    assert!(matches!(call.body, Body::Str(name) if name == "svc"));
}

#[test]
fn services_are_the_names_that_begin_like_konsole() {
    let names = [":1.5", "org.kde.konsole-12", "org.kde.konsol", "org.kde.konsole", "org.kde.KWin", "org.kde.konsolex"];
    let services = strings(&["org.kde.konsole-12", "org.kde.konsole", "org.kde.konsolex"]);
    assert_eq!(konsole_services(strings(&names)), services);
    assert_eq!(list_services(strs(&names)).unwrap(), services);
    assert_eq!(list_services(strs(&[])).unwrap(), Vec::<String>::new());
}

#[test]
fn services_cannot_be_listed_without_a_proper_reply() {
    assert!(matches!(list_services(failure()), Err(zbus::Error::Failure(m)) if m == "no reply"));
    assert!(matches!(list_services(text("x")), Err(zbus::Error::Variant(_))));
}

#[test]
fn windows_are_the_named_nodes() {
    let xml = r#"<!DOCTYPE node PUBLIC "-//freedesktop//DTD D-BUS Object Introspection 1.0//EN" "x">
<node name="/Windows">
  <interface name="org.freedesktop.DBus.Introspectable"><method name="Introspect"/></interface>
  <node name="2"><node name="99"/></node>
  <node/>
  <node name="x"/>
  <node name="1"/>
</node>"#;
    assert_eq!(list_windows(text(xml)).unwrap(), strings(&["2", "x", "1"]));
    assert_eq!(list_windows(text("<node/>")).unwrap(), Vec::<String>::new());
    let nodes = vec![None, Some("b".to_string()), None, Some("a".to_string())];
    assert_eq!(present_names(nodes), strings(&["b", "a"]));
}

#[test]
fn windows_cannot_be_listed_without_a_proper_description() {
    assert!(matches!(
        list_windows(failure()),
        Err(ListWindowsError::GetIntrospection { source: zbus::Error::Failure(m) }) if m == "no reply"
    ));
    assert!(matches!(
        list_windows(strs(&["<node/>"])),
        Err(ListWindowsError::GetIntrospection { source: zbus::Error::Variant(_) })
    ));
    assert!(matches!(list_windows(text("<node>")), Err(ListWindowsError::ParseIntrospection { .. })));
    assert!(matches!(list_windows(text("")), Err(ListWindowsError::ParseIntrospection { .. })));
}

#[test]
fn texts_with_zero_bytes_or_broken_utf8_are_no_descriptions() {
    let xml = b"<node/>";
    let mut bytes = vec![7, 0, 0, 0];
    bytes.extend_from_slice(xml);
    let reply = |bytes: &[u8]| Ok(Reply { signature: "s".to_string(), big_endian: false, bytes: bytes.to_vec() });
    assert!(list_windows(reply(&bytes)).unwrap().is_empty());
    assert!(list_windows(reply(&bytes[..10])).is_err());
    let mut zero = bytes.clone();
    zero[5] = 0;
    assert!(matches!(list_windows(reply(&zero)), Err(ListWindowsError::GetIntrospection { .. })));
    let mut broken = bytes.clone();
    broken[5] = 0xff;
    assert!(matches!(list_windows(reply(&broken)), Err(ListWindowsError::GetIntrospection { .. })));
}

#[test]
fn sessions_are_integers() {
    assert_eq!(list_sessions(strs(&["4", "1", "-2"])).unwrap(), vec![4, 1, -2]);
    assert_eq!(list_sessions(strs(&[])).unwrap(), Vec::<i32>::new());
    assert_eq!(parse_session_ids(strings(&["3"])).unwrap(), vec![3]);
}

#[test]
fn sessions_cannot_be_listed_without_a_proper_reply() {
    assert!(matches!(
        list_sessions(failure()),
        Err(ListSessionsError::CallSessionList { source: zbus::Error::Failure(m) }) if m == "no reply"
    ));
    assert!(matches!(list_sessions(text("1")), Err(ListSessionsError::CallSessionList { .. })));
    assert!(matches!(
        list_sessions(strs(&["1", "two", "three"])),
        Err(ListSessionsError::ParseSessionId { input, source })
            if input == "two" && source == "two".parse::<i32>().unwrap_err()
    ));
}

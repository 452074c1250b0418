use konsoleat::cli::Cli;
use konsoleat::dbus::{Body, MethodCall, Reply};
use konsoleat::exchange::{Action, Progress};
use konsoleat::konsole::ListSessionsError;
use konsoleat::service::{list_services, services_named, ListWindowsError, Service};
use konsoleat::session::{ProcInquiry, Session};
use konsoleat::window::Window;
use std::path::PathBuf;
use zbus::zvariant::serialized::Context;
use zbus::zvariant::{to_bytes, LE};

fn strs(list: &[&str]) -> Result<Reply, zbus::Error> {
    let bytes = to_bytes(Context::new_dbus(LE, 0), &list.to_vec()).unwrap().bytes().to_vec();
    Ok(Reply { signature: "as".to_string(), big_endian: false, bytes })
}

fn text(s: &str) -> Result<Reply, zbus::Error> {
    let bytes = to_bytes(Context::new_dbus(LE, 0), s).unwrap().bytes().to_vec();
    Ok(Reply { signature: "s".to_string(), big_endian: false, bytes })
}

fn signed(i: i32) -> Result<Reply, zbus::Error> {
    Ok(Reply { signature: "i".to_string(), big_endian: true, bytes: i.to_be_bytes().to_vec() })
}

fn unsigned(u: u32) -> Result<Reply, zbus::Error> {
    Ok(Reply { signature: "u".to_string(), big_endian: false, bytes: u.to_le_bytes().to_vec() })
}

fn nothing() -> Result<Reply, zbus::Error> {
    Ok(Reply { signature: String::new(), big_endian: false, bytes: Vec::new() })
}

fn failure() -> Result<Reply, zbus::Error> {
    Err(zbus::Error::Failure("no reply".to_string()))
}

fn failed<T>(res: Result<T, zbus::Error>) -> bool {
    matches!(res, Err(zbus::Error::Failure(m)) if m == "no reply")
}

fn service() -> Service {
    Service { name: "org.kde.konsole-7".to_string() }
}

fn window() -> Window {
    Window { service: service(), id: 2 }
}

fn session() -> Session {
    Session { window: window(), id: -5 }
}

fn check(call: &MethodCall, destination: &str, path: &str, interface: &str, member: &str) {
    assert_eq!(call.destination, destination);
    assert_eq!(call.path, path);
    assert_eq!(call.interface, interface);
    assert_eq!(call.member, member);
}

#[test]
fn cli_holds_the_directory() {
    assert_eq!(Cli { workdir: PathBuf::from(".") }.workdir, PathBuf::from("."));
}

#[test]
fn services_carry_their_names() {
    let services = list_services(strs(&["a", "org.kde.konsole-2", "org.kde.konsole-1"])).unwrap();
    let names: Vec<&str> = services.iter().map(|s| s.name.as_str()).collect();
    assert_eq!(names, vec!["org.kde.konsole-2", "org.kde.konsole-1"]);
    assert!(failed(list_services(failure())));
    assert_eq!(services_named(vec!["x".to_string()])[0].name, "x");
    assert_eq!(services[0].clone().name, "org.kde.konsole-2");
}

#[test]
fn windows_of_a_service() {
    let call = service().windows_call();
    check(&call, "org.kde.konsole-7", "/Windows", "org.freedesktop.DBus.Introspectable", "Introspect");
    let windows = service().windows(text(r#"<node><node name="3"/><node/><node name="1"/></node>"#)).unwrap();
    let ids: Vec<i32> = windows.iter().map(|w| w.id).collect();
    assert_eq!(ids, vec![3, 1]);
    assert!(windows.iter().all(|w| w.service.name == "org.kde.konsole-7"));
    assert_eq!(windows[0].clone().id, 3);
}

#[test]
fn windows_of_a_service_cannot_be_listed() {
    assert!(matches!(
        service().windows(failure()),
        Err(ListWindowsError::GetIntrospection { source: zbus::Error::Failure(m) }) if m == "no reply"
    ));
    assert!(matches!(service().windows(signed(1)), Err(ListWindowsError::GetIntrospection { .. })));
    assert!(matches!(service().windows(text("<")), Err(ListWindowsError::ParseIntrospection { .. })));
    let xml = r#"<node><node name="1"/><node name="main"/><node name="x"/></node>"#;
    assert!(matches!(
        service().windows(text(xml)),
        Err(ListWindowsError::ParseWindowId { input, source })
            if input == "main" && source == "main".parse::<i32>().unwrap_err()
    ));
    assert!(matches!(
        service().windows_named(vec![None, Some("2147483648".to_string())]),
        Err(ListWindowsError::ParseWindowId { input, .. }) if input == "2147483648"
    ));
}

#[test]
fn a_window_is_addressed_at_the_node_it_was_found_by() {
    for node in ["0", "7", "2147483647", "-3"] {
        let windows = service().windows_named(vec![Some(node.to_string())]).unwrap();
        assert_eq!(windows[0].sessions_call().path, format!("/Windows/{node}"));
    }
}

#[test]
fn pid_of_a_service() {
    let call = service().pid_call();
    check(&call, "org.freedesktop.DBus", "/", "org.freedesktop.DBus", "GetConnectionUnixProcessID");
    assert!(matches!(call.body, Body::Str(name) if name == "org.kde.konsole-7"));
    assert_eq!(service().pid(unsigned(4_000_000_000)).unwrap(), 4_000_000_000);
    assert!(service().pid(signed(1)).is_err());
    assert!(failed(service().pid(failure())));
}

#[test]
fn sessions_of_a_window() {
    let call = window().sessions_call();
    check(&call, "org.kde.konsole-7", "/Windows/2", "org.kde.konsole.Window", "sessionList");
    let sessions = window().sessions(strs(&["5", "4"])).unwrap();
    let ids: Vec<i32> = sessions.iter().map(|s| s.id).collect();
    assert_eq!(ids, vec![5, 4]);
    assert!(sessions.iter().all(|s| s.window.id == 2 && s.window.service.name == "org.kde.konsole-7"));
    assert_eq!(window().sessions_named(vec!["9".to_string()]).unwrap()[0].id, 9);
    assert!(matches!(
        window().sessions(strs(&["5", "", "x"])),
        Err(ListSessionsError::ParseSessionId { input, .. }) if input.is_empty()
    ));
    assert!(matches!(window().sessions(failure()), Err(ListSessionsError::CallSessionList { .. })));
}

#[test]
fn current_session_of_a_window() {
    let call = window().current_session_call();
    check(&call, "org.kde.konsole-7", "/Windows/2", "org.kde.konsole.Window", "currentSession");
    let session = window().current_session(signed(6)).unwrap();
    assert_eq!((session.id, session.window.id), (6, 2));
    assert!(window().current_session(unsigned(6)).is_err());
    assert!(failed(window().current_session(failure())));
}

#[test]
fn new_session_of_a_window() {
    let call = window().new_session_call(PathBuf::from("/srv"));
    check(&call, "org.kde.konsole-7", "/Windows/2", "org.kde.konsole.Window", "newSession");
    assert!(matches!(call.body, Body::StrPath(profile, dir) if profile.is_empty() && dir == PathBuf::from("/srv")));
    let session = window().new_session(signed(-1)).unwrap();
    assert_eq!((session.id, session.window.id), (-1, 2));
    assert!(failed(window().new_session(failure())));
}

#[test]
fn a_session_becomes_the_current_one() {
    let call = session().set_current_session_call();
    check(&call, "org.kde.konsole-7", "/Windows/2", "org.kde.konsole.Window", "setCurrentSession");
    assert!(matches!(call.body, Body::Int(-5)));
    assert!(session().set_current_session(nothing()).is_ok());
    assert!(session().set_current_session(signed(0)).is_err());
    assert!(failed(session().set_current_session(failure())));
}

#[test]
fn pid_of_a_session() {
    let call = session().pid_call();
    check(&call, "org.kde.konsole-7", "/Sessions/-5", "org.kde.konsole.Session", "processId");
    assert_eq!(session().pid(signed(321)).unwrap(), 321);
    assert!(failed(session().pid(failure())));
}

#[test]
fn proc_info_of_a_session_begins_with_its_pid() {
    match session().clone().proc_info() {
        Progress::Pending(ProcInquiry::Pid, Action::Call { call }) => {
            check(&call, "org.kde.konsole-7", "/Sessions/-5", "org.kde.konsole.Session", "processId");
        }
        other => panic!("{other:?}"),
    }
}

#[test]
fn a_service_shows_its_name_and_that_there_is_more() {
    assert_eq!(format!("{:?}", service()), "Service { name: \"org.kde.konsole-7\", .. }");
    assert_eq!(format!("{:#?}", service()), "Service {\n    name: \"org.kde.konsole-7\",\n    ..\n}");
    assert_eq!(
        format!("{:?}", session()),
        "Session { window: Window { service: Service { name: \"org.kde.konsole-7\", .. }, id: 2 }, id: -5 }"
    );
}

#[test]
fn errors_hold_what_the_reading_told() {
    let mismatch = |e: &zbus::Error| matches!(e, zbus::Error::Variant(zbus::zvariant::Error::SignatureMismatch(_, _)));
    assert!(mismatch(&list_services(signed(1)).unwrap_err()));
    assert!(mismatch(&service().pid(signed(1)).unwrap_err()));
    assert!(mismatch(&window().current_session(unsigned(1)).unwrap_err()));
    assert!(mismatch(&window().new_session(unsigned(1)).unwrap_err()));
    assert!(mismatch(&session().pid(unsigned(1)).unwrap_err()));
    assert!(mismatch(&session().set_current_session(unsigned(1)).unwrap_err()));
    assert!(matches!(
        service().windows(signed(1)),
        Err(ListWindowsError::GetIntrospection { source }) if mismatch(&source)
    ));
    assert!(matches!(
        window().sessions(signed(1)),
        Err(ListSessionsError::CallSessionList { source }) if mismatch(&source)
    ));
    assert!(matches!(
        window().sessions(strs(&["4", ""])),
        Err(ListSessionsError::ParseSessionId { source, input })
            if input.is_empty() && *source.kind() == std::num::IntErrorKind::Empty
    ));
}

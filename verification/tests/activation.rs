use konsoleat::activate_windows::{activate_windows, Activation, ActivateWindowsError, ActivationProgress};
use konsoleat::dbus::{Body, MethodCall, Reply};
use konsoleat::exchange::{Action, Event, Progress};
use procfs::ProcError;
use std::io;
use std::path::PathBuf;

fn signed(i: i32) -> Result<Reply, zbus::Error> {
    Ok(Reply { signature: "i".to_string(), big_endian: false, bytes: i.to_le_bytes().to_vec() })
}

fn nothing() -> Result<Reply, zbus::Error> {
    Ok(Reply { signature: String::new(), big_endian: false, bytes: Vec::new() })
}

fn failure() -> Result<Reply, zbus::Error> {
    Err(zbus::Error::Failure("no reply".to_string()))
}

fn check(call: &MethodCall, path: &str, interface: &str, member: &str) {
    assert_eq!(call.destination, "org.kde.KWin");
    assert_eq!(call.path, path);
    assert_eq!(call.interface, interface);
    assert_eq!(call.member, member);
}

fn go_on(progress: ActivationProgress, event: Event) -> ActivationProgress {
    match progress {
        Progress::Pending(state, _) => {
            assert!(state.expects(&event));
            assert!(!state.expects(&Event::OpenProcess(Ok(()))));
            state.step(event)
        }
        Progress::Finished(result) => panic!("{result:?}"),
    }
}

fn tempfile() -> Event {
    Event::CreateTempfile(Ok(PathBuf::from("/tmp/.konsoleat-x")))
}

#[test]
fn activation_runs_through() {
    let progress = activate_windows(42);
    assert!(matches!(
        &progress,
        Progress::Pending(Activation::Tempfile { pid: 42 }, Action::CreateTempfile { prefix }) if prefix == ".konsoleat-"
    ));
    let progress = go_on(progress, tempfile());
    assert!(matches!(
        &progress,
        Progress::Pending(Activation::Render { .. }, Action::RenderScript { file, owner: 42 })
            if *file == PathBuf::from("/tmp/.konsoleat-x")
    ));
    let progress = go_on(progress, Event::RenderScript(Ok(())));
    match &progress {
        Progress::Pending(Activation::Load, Action::Call { call }) => {
            check(call, "/Scripting", "org.kde.kwin.Scripting", "loadScript");
            assert!(matches!(&call.body, Body::Path(path) if *path == PathBuf::from("/tmp/.konsoleat-x")));
        }
        other => panic!("{other:?}"),
    }
    let progress = go_on(progress, Event::Call(signed(-3)));
    match &progress {
        Progress::Pending(Activation::Run { script_id: -3 }, Action::Call { call }) => {
            check(call, "/Scripting/Script-3", "org.kde.kwin.Script", "run");
            assert!(matches!(call.body, Body::Empty));
        }
        other => panic!("{other:?}"),
    }
    let progress = go_on(progress, Event::Call(nothing()));
    match &progress {
        Progress::Pending(Activation::Stop, Action::Call { call }) => {
            check(call, "/Scripting/Script-3", "org.kde.kwin.Script", "stop");
            assert!(matches!(call.body, Body::Empty));
        }
        other => panic!("{other:?}"),
    }
    assert!(matches!(go_on(progress, Event::Call(nothing())), Progress::Finished(Ok(()))));
}

#[test]
fn activation_fails_at_each_step() {
    let denied = || io::Error::from(io::ErrorKind::PermissionDenied);
    assert!(matches!(
        go_on(activate_windows(1), Event::CreateTempfile(Err(denied()))),
        Progress::Finished(Err(ActivateWindowsError::CreateTempfile { source }))
            if source.kind() == io::ErrorKind::PermissionDenied
    ));
    assert!(matches!(
        go_on(go_on(activate_windows(1), tempfile()), Event::RenderScript(Err(denied()))),
        Progress::Finished(Err(ActivateWindowsError::RenderTemplate { source }))
            if source.kind() == io::ErrorKind::PermissionDenied
    ));
    let rendered = || go_on(go_on(activate_windows(1), tempfile()), Event::RenderScript(Ok(())));
    assert!(matches!(
        go_on(rendered(), Event::Call(failure())),
        Progress::Finished(Err(ActivateWindowsError::LoadScript { source: zbus::Error::Failure(m) })) if m == "no reply"
    ));
    assert!(matches!(
        go_on(rendered(), Event::Call(nothing())),
        Progress::Finished(Err(ActivateWindowsError::LoadScript { .. }))
    ));
    let loaded = || go_on(rendered(), Event::Call(signed(0)));
    assert!(matches!(
        go_on(loaded(), Event::Call(failure())),
        Progress::Finished(Err(ActivateWindowsError::RunScript { .. }))
    ));
    assert!(matches!(
        go_on(loaded(), Event::Call(signed(1))),
        Progress::Finished(Err(ActivateWindowsError::RunScript { .. }))
    ));
    let ran = go_on(loaded(), Event::Call(nothing()));
    assert!(matches!(
        go_on(ran, Event::Call(failure())),
        Progress::Finished(Err(ActivateWindowsError::StopScript { .. }))
    ));
}

#[test]
fn activation_waits_for_its_own_events_only() {
    let state = Activation::Load;
    assert!(state.expects(&Event::Call(nothing())));
    assert!(!state.expects(&tempfile()));
    assert!(!state.expects(&Event::ReadStarttime(Err(ProcError::NotFound(None)))));
}

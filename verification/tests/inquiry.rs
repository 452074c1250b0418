use konsoleat::dbus::Reply;
use konsoleat::exchange::{Action, Event, Progress};
use konsoleat::session::{get_session_proc_info, GetSessionProcInfoError, ProcInquiry, ProcProgress};
use procfs::ProcError;
use std::path::PathBuf;

fn signed(i: i32) -> Result<Reply, zbus::Error> {
    Ok(Reply { signature: "i".to_string(), big_endian: false, bytes: i.to_le_bytes().to_vec() })
}

fn go_on(progress: ProcProgress, event: Event) -> ProcProgress {
    match progress {
        Progress::Pending(state, _) => {
            assert!(state.expects(&event));
            assert!(!state.expects(&Event::Connect(Ok(()))));
            state.step(event)
        }
        Progress::Finished(result) => panic!("{result:?}"),
    }
}

fn started() -> ProcProgress {
    get_session_proc_info("svc", 4)
}

fn gone() -> ProcError {
    ProcError::NotFound(Some(PathBuf::from("/proc/77")))
}

#[test]
fn inquiry_runs_through() {
    let progress = started();
    assert!(matches!(
        &progress,
        Progress::Pending(ProcInquiry::Pid, Action::Call { call })
            if call.destination == "svc" && call.path == "/Sessions/4" && call.member == "processId"
    ));
    let progress = go_on(progress, Event::Call(signed(77)));
    assert!(matches!(
        &progress,
        Progress::Pending(ProcInquiry::Handle { pid: 77 }, Action::OpenProcess { pid: 77 })
    ));
    let progress = go_on(progress, Event::OpenProcess(Ok(())));
    assert!(matches!(&progress, Progress::Pending(ProcInquiry::Cwd { pid: 77 }, Action::ReadCwd { pid: 77 })));
    let progress = go_on(progress, Event::ReadCwd(Ok(PathBuf::from("/srv"))));
    assert!(matches!(&progress, Progress::Pending(ProcInquiry::Stat { .. }, Action::ReadStarttime { pid: 77 })));
    match go_on(progress, Event::ReadStarttime(Ok(123))) {
        Progress::Finished(Ok(info)) => {
            assert_eq!(info.cwd, PathBuf::from("/srv"));
            assert_eq!(info.starttime, 123);
        }
        other => panic!("{other:?}"),
    }
}

#[test]
fn inquiry_fails_at_each_step() {
    assert!(matches!(
        go_on(started(), Event::Call(Err(zbus::Error::Failure("x".to_string())))),
        Progress::Finished(Err(GetSessionProcInfoError::Pid { source: zbus::Error::Failure(m) })) if m == "x"
    ));
    let empty = Reply { signature: String::new(), big_endian: false, bytes: Vec::new() };
    assert!(matches!(
        go_on(started(), Event::Call(Ok(empty))),
        Progress::Finished(Err(GetSessionProcInfoError::Pid { source: zbus::Error::Variant(_) }))
    ));
    let told = || go_on(started(), Event::Call(signed(77)));
    assert!(matches!(
        go_on(told(), Event::OpenProcess(Err(gone()))),
        Progress::Finished(Err(GetSessionProcInfoError::Handle { source: ProcError::NotFound(Some(_)), pid: 77 }))
    ));
    let opened = || go_on(told(), Event::OpenProcess(Ok(())));
    assert!(matches!(
        go_on(opened(), Event::ReadCwd(Err(gone()))),
        Progress::Finished(Err(GetSessionProcInfoError::Cwd { source: ProcError::NotFound(Some(_)) }))
    ));
    let located = go_on(opened(), Event::ReadCwd(Ok(PathBuf::from("/"))));
    assert!(matches!(
        go_on(located, Event::ReadStarttime(Err(gone()))),
        Progress::Finished(Err(GetSessionProcInfoError::Stat { source: ProcError::NotFound(Some(_)) }))
    ));
}

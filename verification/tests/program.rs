use konsoleat::activate_windows::ActivateWindowsError;
use konsoleat::cli::Cli;
use konsoleat::dbus::{Body, MethodCall, Reply};
use konsoleat::exchange::{Action, Event, FileId, OpenFailure, Progress};
use konsoleat::konsole::{ListSessionsError, ListWindowsError};
use konsoleat::program::{start, Program, ProgramError, ProgramProgress};
use konsoleat::session::GetSessionProcInfoError;
use procfs::ProcError;
use std::io;
use std::path::{Path, PathBuf};
use zbus::zvariant::serialized::Context;
use zbus::zvariant::{to_bytes, LE};

/// A session: its ID, the working directory and the start time of its process.
type SessionSpec = (i32, &'static str, u64);

/// A window: the name of its node, its current session, its sessions.
type WindowSpec = (&'static str, i32, Vec<SessionSpec>);

/// A desktop with Konsole services, and the action at which it fails, by its number.
struct Desktop {
    services: Vec<(&'static str, Vec<WindowSpec>)>,
    fail_at: Option<usize>,
    log: Vec<String>,
}

fn strs(list: &[&str]) -> Reply {
    let bytes = to_bytes(Context::new_dbus(LE, 0), &list.to_vec()).unwrap().bytes().to_vec();
    Reply { signature: "as".to_string(), big_endian: false, bytes }
}

fn text(s: &str) -> Reply {
    let bytes = to_bytes(Context::new_dbus(LE, 0), s).unwrap().bytes().to_vec();
    Reply { signature: "s".to_string(), big_endian: false, bytes }
}

fn signed(i: i32) -> Reply {
    Reply { signature: "i".to_string(), big_endian: false, bytes: i.to_le_bytes().to_vec() }
}

fn unsigned(u: u32) -> Reply {
    Reply { signature: "u".to_string(), big_endian: false, bytes: u.to_le_bytes().to_vec() }
}

fn nothing() -> Reply {
    Reply { signature: String::new(), big_endian: false, bytes: Vec::new() }
}

fn broken() -> zbus::Error {
    zbus::Error::Failure("broken".to_string())
}

fn denied() -> io::Error {
    io::Error::from(io::ErrorKind::PermissionDenied)
}

fn gone() -> ProcError {
    ProcError::NotFound(None)
}

fn inode(path: &Path) -> Option<u64> {
    match path.to_str().unwrap() {
        "/home" | "/home-by-another-name" => Some(1),
        "/tmp" => Some(2),
        "/srv" => Some(3),
        _ => None,
    }
}

impl Desktop {
    fn new(services: Vec<(&'static str, Vec<WindowSpec>)>) -> Desktop {
        Desktop { services, fail_at: None, log: Vec::new() }
    }

    fn windows(&self, service: &str) -> &Vec<WindowSpec> {
        &self.services.iter().find(|(name, _)| *name == service).unwrap().1
    }

    fn window(&self, call: &MethodCall) -> &WindowSpec {
        let id = call.path.strip_prefix("/Windows/").unwrap();
        self.windows(&call.destination).iter().find(|(name, _, _)| *name == id).unwrap()
    }

    fn session(&self, pid: i32) -> SessionSpec {
        let all = self.services.iter().flat_map(|(_, windows)| windows).flat_map(|(_, _, sessions)| sessions);
        *all.into_iter().find(|(id, _, _)| id + 1000 == pid).unwrap()
    }

    fn reply(&self, call: &MethodCall) -> Reply {
        match call.member.as_str() {
            "ListNames" => {
                let mut names = vec![":1.1", "org.kde.KWin"];
                names.extend(self.services.iter().map(|(name, _)| *name));
                strs(&names)
            }
            "Introspect" => {
                let nodes: Vec<String> =
                    self.windows(&call.destination).iter().map(|(id, _, _)| format!("<node name=\"{id}\"/>")).collect();
                text(&format!("<node>{}</node>", nodes.concat()))
            }
            "currentSession" => signed(self.window(call).1),
            "sessionList" => {
                let ids: Vec<String> = self.window(call).2.iter().map(|(id, _, _)| id.to_string()).collect();
                strs(&ids.iter().map(|id| id.as_str()).collect::<Vec<&str>>())
            }
            "processId" => signed(call.path.strip_prefix("/Sessions/").unwrap().parse::<i32>().unwrap() + 1000),
            "newSession" => signed(55),
            "setCurrentSession" => nothing(),
            "GetConnectionUnixProcessID" => unsigned(match &call.body {
                Body::Str(name) => name.len() as u32,
                other => panic!("{other:?}"),
            }),
            "loadScript" => signed(9),
            "run" | "stop" => nothing(),
            other => panic!("{other}"),
        }
    }

    fn perform(&mut self, action: &Action) -> Event {
        let fails = self.fail_at == Some(self.log.len());
        let (entry, event) = match action {
            Action::Canonicalize { path } => (
                format!("canonicalize {}", path.display()),
                Event::Canonicalize(if fails { Err(denied()) } else { Ok(PathBuf::from("/home")) }),
            ),
            Action::Identify { path } => (
                format!("identify {}", path.display()),
                Event::Identify(match inode(path) {
                    _ if fails => Err(OpenFailure { not_found: false, source: denied() }),
                    Some(ino) => Ok(FileId { dev: 5, ino }),
                    None => Err(OpenFailure { not_found: true, source: io::Error::from(io::ErrorKind::NotFound) }),
                }),
            ),
            Action::Connect => ("connect".to_string(), Event::Connect(if fails { Err(broken()) } else { Ok(()) })),
            Action::Call { call } => (
                match &call.body {
                    Body::Empty => format!("{} {} {}", call.destination, call.path, call.member),
                    Body::Str(s) => format!("{} {} {} {s}", call.destination, call.path, call.member),
                    Body::Int(i) => format!("{} {} {} {i}", call.destination, call.path, call.member),
                    Body::Path(p) => format!("{} {} {} {}", call.destination, call.path, call.member, p.display()),
                    Body::StrPath(s, p) => {
                        format!("{} {} {} {s:?} {}", call.destination, call.path, call.member, p.display())
                    }
                },
                Event::Call(if fails { Err(broken()) } else { Ok(self.reply(call)) }),
            ),
            Action::OpenProcess { pid } => {
                (format!("open {pid}"), Event::OpenProcess(if fails { Err(gone()) } else { Ok(()) }))
            }
            Action::ReadCwd { pid } => (
                format!("cwd {pid}"),
                Event::ReadCwd(if fails { Err(gone()) } else { Ok(PathBuf::from(self.session(*pid).1)) }),
            ),
            Action::ReadStarttime { pid } => (
                format!("starttime {pid}"),
                Event::ReadStarttime(if fails { Err(gone()) } else { Ok(self.session(*pid).2) }),
            ),
            Action::CreateTempfile { prefix } => (
                format!("tempfile {prefix}"),
                Event::CreateTempfile(if fails { Err(denied()) } else { Ok(PathBuf::from("/tmp/file")) }),
            ),
            Action::RenderScript { file, owner } => (
                format!("render {owner} {}", file.display()),
                Event::RenderScript(if fails { Err(denied()) } else { Ok(()) }),
            ),
            Action::Launch { program, option, directory } => (
                format!("launch {program} {option} {}", directory.display()),
                Event::Launch(if fails { Err(denied()) } else { Ok(77) }),
            ),
        };
        self.log.push(entry);
        event
    }

    fn run(&mut self) -> Result<(), ProgramError> {
        let mut progress: ProgramProgress = start(Cli { workdir: PathBuf::from(".") });
        loop {
            match progress {
                Progress::Pending(state, action) => {
                    let event = self.perform(&action);
                    assert!(Program::expects(&state, &event));
                    progress = state.step(event);
                }
                Progress::Finished(result) => return result,
            }
        }
    }

    /// The actions from the first one that is no part of the survey.
    fn run_and_tell_ending(&mut self) -> Vec<String> {
        self.run().unwrap();
        let ending = ["setCurrentSession", "newSession", "GetConnectionUnixProcessID", "launch"];
        let first = self.log.iter().position(|entry| ending.iter().any(|word| entry.contains(word))).unwrap();
        self.log[first..].to_vec()
    }

    fn fail_at(services: Vec<(&'static str, Vec<WindowSpec>)>, entry: &str) -> ProgramError {
        let mut dry = Desktop::new(services.clone());
        dry.run().unwrap();
        let at = dry.log.iter().position(|e| e.contains(entry)).unwrap();
        let mut desktop = Desktop { services, fail_at: Some(at), log: Vec::new() };
        let e = desktop.run().unwrap_err();
        assert_eq!(desktop.log.len(), at + 1);
        e
    }
}

fn activation(pid: u32) -> Vec<String> {
    vec![
        "tempfile .konsoleat-".to_string(),
        format!("render {pid} /tmp/file"),
        "org.kde.KWin /Scripting loadScript /tmp/file".to_string(),
        "org.kde.KWin /Scripting/Script9 run".to_string(),
        "org.kde.KWin /Scripting/Script9 stop".to_string(),
    ]
}

fn is_broken(e: &zbus::Error) -> bool {
    matches!(e, zbus::Error::Failure(m) if m == "broken")
}

fn is_denied(e: &io::Error) -> bool {
    e.kind() == io::ErrorKind::PermissionDenied
}

fn elsewhere() -> Vec<(&'static str, Vec<WindowSpec>)> {
    vec![("org.kde.konsole-1", vec![("1", 3, vec![(3, "/tmp", 30)])])]
}

fn at_home(current: i32) -> Vec<(&'static str, Vec<WindowSpec>)> {
    vec![("org.kde.konsole-1", vec![("1", current, vec![(3, "/home", 30)])])]
}

#[test]
fn survey_visits_every_session_in_order() {
    let mut desktop = Desktop::new(vec![
        ("org.kde.konsole-1", vec![("1", 3, vec![(3, "/tmp", 30), (4, "/gone", 20)]), ("2", 5, vec![])]),
        ("org.kde.konsole-22", vec![]),
        ("org.kde.konsole-3", vec![("main", 6, vec![(6, "/srv", 40)])]),
    ]);
    desktop.run().unwrap();
    let visit = |id: i32, service: &str, cwd: &str| {
        vec![
            format!("{service} /Sessions/{id} processId"),
            format!("open {}", id + 1000),
            format!("cwd {}", id + 1000),
            format!("starttime {}", id + 1000),
            format!("identify {cwd}"),
        ]
    };
    let mut expected: Vec<String> = vec![
        "canonicalize .".to_string(),
        "identify /home".to_string(),
        "connect".to_string(),
        "org.freedesktop.DBus /org/freedesktop/DBus ListNames".to_string(),
        "org.kde.konsole-1 /Windows Introspect".to_string(),
        "org.kde.konsole-1 /Windows/1 currentSession".to_string(),
        "org.kde.konsole-1 /Windows/1 sessionList".to_string(),
    ];
    expected.extend(visit(3, "org.kde.konsole-1", "/tmp"));
    expected.extend(visit(4, "org.kde.konsole-1", "/gone"));
    expected.push("org.kde.konsole-1 /Windows/2 currentSession".to_string());
    expected.push("org.kde.konsole-1 /Windows/2 sessionList".to_string());
    expected.push("org.kde.konsole-22 /Windows Introspect".to_string());
    expected.push("org.kde.konsole-3 /Windows Introspect".to_string());
    expected.push("org.kde.konsole-3 /Windows/main currentSession".to_string());
    expected.push("org.kde.konsole-3 /Windows/main sessionList".to_string());
    expected.extend(visit(6, "org.kde.konsole-3", "/srv"));
    expected.push("org.kde.konsole-1 /Windows/1 newSession \"\" /home".to_string());
    expected.push("org.kde.konsole-1 /Windows/1 setCurrentSession 55".to_string());
    expected.push("org.freedesktop.DBus / GetConnectionUnixProcessID org.kde.konsole-1".to_string());
    expected.extend(activation(17));
    assert_eq!(desktop.log, expected);
}

#[test]
fn current_session_in_the_directory_is_activated() {
    let mut desktop = Desktop::new(at_home(3));
    let mut expected = vec!["org.freedesktop.DBus / GetConnectionUnixProcessID org.kde.konsole-1".to_string()];
    expected.extend(activation(17));
    assert_eq!(desktop.run_and_tell_ending(), expected);
}

#[test]
fn session_in_the_directory_is_made_current_first() {
    let mut desktop = Desktop::new(at_home(8));
    let mut expected = vec![
        "org.kde.konsole-1 /Windows/1 setCurrentSession 3".to_string(),
        "org.freedesktop.DBus / GetConnectionUnixProcessID org.kde.konsole-1".to_string(),
    ];
    expected.extend(activation(17));
    assert_eq!(desktop.run_and_tell_ending(), expected);
}

#[test]
fn best_session_in_the_directory_is_chosen_among_all_windows() {
    let mut desktop = Desktop::new(vec![
        ("org.kde.konsole-1", vec![("1", 2, vec![(1, "/home", 10), (2, "/tmp", 1)])]),
        ("org.kde.konsole-22", vec![("1", 4, vec![(3, "/home", 5), (4, "/home-by-another-name", 99)])]),
        ("org.kde.konsole-333", vec![("1", 5, vec![(5, "/home", 99)])]),
    ]);
    let mut expected = vec!["org.freedesktop.DBus / GetConnectionUnixProcessID org.kde.konsole-22".to_string()];
    expected.extend(activation(18));
    assert_eq!(desktop.run_and_tell_ending(), expected);
}

#[test]
fn session_is_created_in_the_oldest_window() {
    let mut desktop = Desktop::new(vec![
        ("org.kde.konsole-1", vec![("1", 1, vec![(1, "/tmp", 10)])]),
        ("org.kde.konsole-22", vec![("7", 2, vec![(2, "/gone", 9)]), ("8", 3, vec![(3, "/srv", 9)])]),
    ]);
    let mut expected = vec![
        "org.kde.konsole-22 /Windows/7 newSession \"\" /home".to_string(),
        "org.kde.konsole-22 /Windows/7 setCurrentSession 55".to_string(),
        "org.freedesktop.DBus / GetConnectionUnixProcessID org.kde.konsole-22".to_string(),
    ];
    expected.extend(activation(18));
    assert_eq!(desktop.run_and_tell_ending(), expected);
}

#[test]
fn konsole_is_launched_where_there_is_no_window() {
    for services in [vec![], vec![("org.kde.konsole-1", vec![("1", 0, vec![])])]] {
        let mut desktop = Desktop::new(services);
        let mut expected = vec!["launch konsole --workdir /home".to_string()];
        expected.extend(activation(77));
        assert_eq!(desktop.run_and_tell_ending(), expected);
    }
}

#[test]
fn failures_before_the_survey() {
    assert!(matches!(
        Desktop::fail_at(elsewhere(), "canonicalize"),
        ProgramError::CanonicalizeWorkdir { source } if is_denied(&source)
    ));
    assert!(matches!(
        Desktop::fail_at(elsewhere(), "identify /home"),
        ProgramError::ConstructHandleFromWorkdir { source } if is_denied(&source)
    ));
    assert!(matches!(
        Desktop::fail_at(elsewhere(), "connect"),
        ProgramError::ConnectToSessionBus { source } if is_broken(&source)
    ));
    assert!(matches!(
        Desktop::fail_at(elsewhere(), "ListNames"),
        ProgramError::ListServices { source } if is_broken(&source)
    ));
}

#[test]
fn failures_in_the_survey() {
    assert!(matches!(
        Desktop::fail_at(elsewhere(), "Introspect"),
        ProgramError::ListWindows { source: ListWindowsError::GetIntrospection { source } } if is_broken(&source)
    ));
    assert!(matches!(
        Desktop::fail_at(elsewhere(), "currentSession"),
        ProgramError::GetCurrentSession { source } if is_broken(&source)
    ));
    assert!(matches!(
        Desktop::fail_at(elsewhere(), "sessionList"),
        ProgramError::ListSessions { source: ListSessionsError::CallSessionList { source } } if is_broken(&source)
    ));
    assert!(matches!(
        Desktop::fail_at(elsewhere(), "processId"),
        ProgramError::GetSessionProcInfo { source: GetSessionProcInfoError::Pid { source } } if is_broken(&source)
    ));
    assert!(matches!(
        Desktop::fail_at(elsewhere(), "open"),
        ProgramError::GetSessionProcInfo { source: GetSessionProcInfoError::Handle { pid: 1003, .. } }
    ));
    assert!(matches!(
        Desktop::fail_at(elsewhere(), "cwd"),
        ProgramError::GetSessionProcInfo { source: GetSessionProcInfoError::Cwd { .. } }
    ));
    assert!(matches!(
        Desktop::fail_at(elsewhere(), "starttime"),
        ProgramError::GetSessionProcInfo { source: GetSessionProcInfoError::Stat { .. } }
    ));
    assert!(matches!(
        Desktop::fail_at(elsewhere(), "identify /tmp"),
        ProgramError::ConstructHandleFromPath { source, path } if is_denied(&source) && path == PathBuf::from("/tmp")
    ));
}

#[test]
fn failures_after_the_survey() {
    assert!(matches!(
        Desktop::fail_at(at_home(8), "setCurrentSession 3"),
        ProgramError::SetCurrentSession { source } if is_broken(&source)
    ));
    assert!(matches!(
        Desktop::fail_at(at_home(3), "GetConnectionUnixProcessID"),
        ProgramError::GetServicePid { source } if is_broken(&source)
    ));
    assert!(matches!(
        Desktop::fail_at(elsewhere(), "newSession"),
        ProgramError::CreateSession { source } if is_broken(&source)
    ));
    assert!(matches!(
        Desktop::fail_at(elsewhere(), "setCurrentSession 55"),
        ProgramError::SetCurrentSession { source } if is_broken(&source)
    ));
    assert!(matches!(
        Desktop::fail_at(vec![], "launch"),
        ProgramError::LaunchKonsole { source } if is_denied(&source)
    ));
    assert!(matches!(
        Desktop::fail_at(vec![], "run"),
        ProgramError::ActivateWindows { source: ActivateWindowsError::RunScript { source } } if is_broken(&source)
    ));
}

#[test]
fn unreadable_replies_end_the_program() {
    let state = || Program::Pid;
    assert!(matches!(
        state().step(Event::Call(Ok(signed(1)))),
        Progress::Finished(Err(ProgramError::GetServicePid { source: zbus::Error::Variant(_) }))
    ));
    let services = Program::Services { workdir: PathBuf::from("/home"), workdir_id: FileId { dev: 5, ino: 1 } };
    let windows = match services.step(Event::Call(Ok(strs(&["org.kde.konsole"])))) {
        Progress::Pending(state, _) => state,
        other => panic!("{other:?}"),
    };
    assert!(matches!(
        windows.step(Event::Call(Ok(text("<node")))),
        Progress::Finished(Err(ProgramError::ListWindows { source: ListWindowsError::ParseIntrospection { .. } }))
    ));
}

#[test]
fn program_waits_for_its_own_events_only() {
    assert!(Program::Launch.expects(&Event::Launch(Ok(1))));
    assert!(!Program::Launch.expects(&Event::Call(Ok(nothing()))));
    assert!(!Program::Pid.expects(&Event::Connect(Ok(()))));
}

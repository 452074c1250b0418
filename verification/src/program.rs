//! The program: it looks through the sessions of all Konsole windows for one in the working
//! directory, and activates that one, or a new one where there is none.
use crate::activate_windows::{
    activate_windows, activation_start, activation_view, Activation, ActivationProgress, ActivationProgressView,
    ActivateWindowsError, ActivateWindowsFailure,
};
use crate::candidate::{
    better_session, better_window, consider_session_candidate, consider_window_candidate, session_view,
    window_view, AnnotatedSession, AnnotatedWindow, SessionCandidate, WindowCandidate,
};
use crate::cli::Cli;
use crate::dbus::{
    fault_i32, fault_strs, fault_u32, fault_unit, replied_i32, replied_u32, replied_unit, reply_i32, reply_u32,
    reply_unit, CallView, MethodCall,
};
use crate::exchange::{Action, ActionView, Event, EventView, FileId, Identity, Progress, ProgressView};
use crate::konsole::{
    current_session_request, get_current_session_call, get_service_pid_call, list_services, list_services_call,
    list_sessions, list_sessions_call, list_windows, list_windows_call, new_session_call, new_session_request,
    service_pid_request, services_request, sessions_request, set_current_session_call, set_current_session_request,
    told_services, told_sessions, told_windows, windows_request, ListSessionsError, ListSessionsFailure,
    ListWindowsError, ListWindowsFailure,
};
use crate::session::{
    get_session_proc_info, proc_start, proc_view, GetSessionProcInfoError, GetSessionProcInfoFailure, ProcInquiry,
    ProcProgress, ProcProgressView, SessionProcInfo,
};
use crate::text::texts;
use std::io;
use std::path::PathBuf;
use vstd::prelude::*;

verus! {

/// Why the program fails.
#[derive(Debug)]
pub enum ProgramError {
    CanonicalizeWorkdir { source: io::Error },
    ConstructHandleFromWorkdir { source: io::Error },
    ConnectToSessionBus { source: zbus::Error },
    ListServices { source: zbus::Error },
    ListWindows { source: ListWindowsError },
    GetCurrentSession { source: zbus::Error },
    ListSessions { source: ListSessionsError },
    GetSessionProcInfo { source: GetSessionProcInfoError },
    ConstructHandleFromPath { source: io::Error, path: PathBuf },
    SetCurrentSession { source: zbus::Error },
    GetServicePid { source: zbus::Error },
    ActivateWindows { source: ActivateWindowsError },
    CreateSession { source: zbus::Error },
    LaunchKonsole { source: io::Error },
}

/// Why the program fails, without the underlying error.
pub enum Failure {
    CanonicalizeWorkdir,
    ConstructHandleFromWorkdir,
    ConnectToSessionBus,
    ListServices,
    ListWindows { source: ListWindowsFailure },
    GetCurrentSession,
    ListSessions { source: ListSessionsFailure },
    GetSessionProcInfo { source: GetSessionProcInfoFailure },
    ConstructHandleFromPath { path: PathBuf },
    SetCurrentSession,
    GetServicePid,
    ActivateWindows { source: ActivateWindowsFailure },
    CreateSession,
    LaunchKonsole,
}

impl View for ProgramError {
    type V = Failure;

    open spec fn view(&self) -> Failure {
        match self {
            ProgramError::CanonicalizeWorkdir { .. } => Failure::CanonicalizeWorkdir,
            ProgramError::ConstructHandleFromWorkdir { .. } => Failure::ConstructHandleFromWorkdir,
            ProgramError::ConnectToSessionBus { .. } => Failure::ConnectToSessionBus,
            ProgramError::ListServices { .. } => Failure::ListServices,
            ProgramError::ListWindows { source } => Failure::ListWindows { source: source@ },
            ProgramError::GetCurrentSession { .. } => Failure::GetCurrentSession,
            ProgramError::ListSessions { source } => Failure::ListSessions { source: source@ },
            ProgramError::GetSessionProcInfo { source } => Failure::GetSessionProcInfo { source: source@ },
            ProgramError::ConstructHandleFromPath { path, .. } => Failure::ConstructHandleFromPath { path: *path },
            ProgramError::SetCurrentSession { .. } => Failure::SetCurrentSession,
            ProgramError::GetServicePid { .. } => Failure::GetServicePid,
            ProgramError::ActivateWindows { source } => Failure::ActivateWindows { source: source@ },
            ProgramError::CreateSession { .. } => Failure::CreateSession,
            ProgramError::LaunchKonsole { .. } => Failure::LaunchKonsole,
        }
    }
}

impl ProgramError {
    /// Whether the underlying error is the one that an event brings, or that the reading of the reply in
    /// it comes to.
    pub open spec fn comes_of(self, event: Event) -> bool {
        match self {
            ProgramError::CanonicalizeWorkdir { source } => event == Event::Canonicalize(Err(source)),
            ProgramError::ConstructHandleFromWorkdir { source } => event matches Event::Identify(Err(e)) && e.source
                == source,
            ProgramError::ConnectToSessionBus { source } => event == Event::Connect(Err(source)),
            ProgramError::ListServices { source } => event matches Event::Call(reply) && fault_strs(reply, source),
            ProgramError::ListWindows { source } => event matches Event::Call(reply) && source.comes_of(reply),
            ProgramError::GetCurrentSession { source } => event matches Event::Call(reply) && fault_i32(reply, source),
            ProgramError::ListSessions { source } => event matches Event::Call(reply) && source.comes_of(reply),
            ProgramError::GetSessionProcInfo { source } => source.comes_of(event),
            ProgramError::ConstructHandleFromPath { source, .. } => event matches Event::Identify(Err(e)) && e.source
                == source,
            ProgramError::SetCurrentSession { source } => event matches Event::Call(reply) && fault_unit(reply, source),
            ProgramError::GetServicePid { source } => event matches Event::Call(reply) && fault_u32(reply, source),
            ProgramError::ActivateWindows { source } => source.comes_of(event),
            ProgramError::CreateSession { source } => event matches Event::Call(reply) && fault_i32(reply, source),
            ProgramError::LaunchKonsole { source } => event == Event::Launch(Err(source)),
        }
    }
}

/// The survey of the sessions: what was chosen so far, and what is still to be visited.
#[derive(Debug)]
pub struct Survey {
    pub workdir: PathBuf,
    pub workdir_id: FileId,
    pub oldest_window: Option<AnnotatedWindow>,
    pub best_session: Option<AnnotatedSession>,
    /// The services to visit after the present one.
    pub services: Vec<String>,
    pub service_name: String,
    /// The windows of the present service to visit after the present one.
    pub windows: Vec<String>,
    pub window_id: String,
    /// The current session of the present window.
    pub current_session: i32,
    /// The sessions of the present window to visit after the present one.
    pub sessions: Vec<i32>,
}

/// The survey of the sessions, with its text.
pub struct SurveyView {
    pub workdir: PathBuf,
    pub workdir_id: FileId,
    pub oldest_window: Option<WindowCandidate>,
    pub best_session: Option<SessionCandidate>,
    pub services: Seq<Seq<char>>,
    pub service_name: Seq<char>,
    pub windows: Seq<Seq<char>>,
    pub window_id: Seq<char>,
    pub current_session: i32,
    pub sessions: Seq<i32>,
}

impl View for Survey {
    type V = SurveyView;

    open spec fn view(&self) -> SurveyView {
        SurveyView {
            workdir: self.workdir,
            workdir_id: self.workdir_id,
            oldest_window: window_view(self.oldest_window),
            best_session: session_view(self.best_session),
            services: texts(self.services@),
            service_name: self.service_name@,
            windows: texts(self.windows@),
            window_id: self.window_id@,
            current_session: self.current_session,
            sessions: self.sessions@,
        }
    }
}

/// What the survey waits for.
#[derive(Debug)]
pub enum Stage {
    /// The windows of the present service.
    Windows,
    /// The current session of the present window.
    CurrentSession,
    /// The sessions of the present window.
    Sessions,
    /// What is known of the process of a session of the present window.
    Process { session_id: i32, inquiry: ProcInquiry },
    /// The identity of the working directory of that process.
    Directory { session_id: i32, info: SessionProcInfo },
}

/// The program, by what it waits for.
#[derive(Debug)]
pub enum Program {
    /// The canonical path of the working directory.
    Canonicalize,
    /// The identity of the working directory.
    Identify { workdir: PathBuf },
    /// The connection to the session bus.
    Connect { workdir: PathBuf, workdir_id: FileId },
    /// The Konsole services on the bus.
    Services { workdir: PathBuf, workdir_id: FileId },
    /// A step of the survey.
    Survey { survey: Survey, stage: Stage },
    /// A new session in a window.
    Create { window: AnnotatedWindow },
    /// The change of the current session of a window of a service.
    Switch { service_name: String },
    /// The process ID of a service.
    Pid,
    /// The launch of a new Konsole.
    Launch,
    /// A step of the activation of windows.
    Activate { activation: Activation },
}

/// The program, with its text.
pub enum ProgramView {
    Canonicalize,
    Identify { workdir: PathBuf },
    Connect { workdir: PathBuf, workdir_id: FileId },
    Services { workdir: PathBuf, workdir_id: FileId },
    Survey { survey: SurveyView, stage: Stage },
    Create { window: WindowCandidate },
    Switch { service_name: Seq<char> },
    Pid,
    Launch,
    Activate { activation: Activation },
}

impl View for Program {
    type V = ProgramView;

    open spec fn view(&self) -> ProgramView {
        match self {
            Program::Canonicalize => ProgramView::Canonicalize,
            Program::Identify { workdir } => ProgramView::Identify { workdir: *workdir },
            Program::Connect { workdir, workdir_id } => ProgramView::Connect {
                workdir: *workdir,
                workdir_id: *workdir_id,
            },
            Program::Services { workdir, workdir_id } => ProgramView::Services {
                workdir: *workdir,
                workdir_id: *workdir_id,
            },
            Program::Survey { survey, stage } => ProgramView::Survey { survey: survey@, stage: *stage },
            Program::Create { window } => ProgramView::Create { window: window@ },
            Program::Switch { service_name } => ProgramView::Switch { service_name: service_name@ },
            Program::Pid => ProgramView::Pid,
            Program::Launch => ProgramView::Launch,
            Program::Activate { activation } => ProgramView::Activate { activation: *activation },
        }
    }
}

/// How far the program has come.
pub type ProgramProgress = Progress<Program, Result<(), ProgramError>>;

/// How far the program has come, in terms of views.
pub type ProgramProgressView = ProgressView<ProgramView, Result<(), Failure>>;

/// How far the program has come, without the underlying error where it failed.
pub open spec fn progress_view(progress: ProgramProgress) -> ProgramProgressView {
    match progress {
        Progress::Pending(state, action) => ProgressView::Pending(state@, action@),
        Progress::Finished(Ok(_)) => ProgressView::Finished(Ok(())),
        Progress::Finished(Err(e)) => ProgressView::Finished(Err(e@)),
    }
}

/// The failure of the program.
pub open spec fn failed(e: Failure) -> ProgramProgressView {
    ProgressView::Finished(Err(e))
}

/// The program waits for the reply to a method call.
pub open spec fn calling(state: ProgramView, call: CallView) -> ProgramProgressView {
    ProgressView::Pending(state, ActionView::Call { call })
}

/// The activation of windows, as a part of the program.
pub open spec fn activating(progress: ActivationProgressView) -> ProgramProgressView {
    match progress {
        ProgressView::Pending(activation, action) => ProgressView::Pending(
            ProgramView::Activate { activation },
            action,
        ),
        ProgressView::Finished(Ok(_)) => ProgressView::Finished(Ok(())),
        ProgressView::Finished(Err(source)) => failed(Failure::ActivateWindows { source }),
    }
}

/// What follows a survey: the best session, if there is one, is made current unless it is so
/// already, and the bus is asked for the process ID of its service. If there is none, the oldest
/// window opens a new session, or else a new Konsole is launched.
pub open spec fn verdict(
    workdir: PathBuf,
    oldest_window: Option<WindowCandidate>,
    best_session: Option<SessionCandidate>,
) -> ProgramProgressView {
    match best_session {
        Some(session) => if session.is_current {
            calling(ProgramView::Pid, service_pid_request(session.service_name))
        } else {
            calling(
                ProgramView::Switch { service_name: session.service_name },
                set_current_session_request(session.service_name, session.window_id, session.session_id),
            )
        },
        None => match oldest_window {
            Some(window) => calling(
                ProgramView::Create { window },
                new_session_request(window.service_name, window.window_id, workdir),
            ),
            None => ProgressView::Pending(
                ProgramView::Launch,
                ActionView::Launch { program: "konsole"@, option: "--workdir"@, directory: workdir },
            ),
        },
    }
}

impl SurveyView {
    /// A survey that has visited nothing yet.
    pub open spec fn start(workdir: PathBuf, workdir_id: FileId, services: Seq<Seq<char>>) -> SurveyView {
        SurveyView {
            workdir,
            workdir_id,
            oldest_window: None,
            best_session: None,
            services,
            service_name: Seq::empty(),
            windows: Seq::empty(),
            window_id: Seq::empty(),
            current_session: 0,
            sessions: Seq::empty(),
        }
    }

    /// The window that a session of the present window speaks for.
    pub open spec fn window_candidate(self, info: SessionProcInfo) -> WindowCandidate {
        WindowCandidate {
            service_name: self.service_name,
            window_id: self.window_id,
            starttime: info.starttime,
        }
    }

    /// A session of the present window, as a candidate.
    pub open spec fn session_candidate(self, session_id: i32, info: SessionProcInfo) -> SessionCandidate {
        SessionCandidate {
            service_name: self.service_name,
            window_id: self.window_id,
            session_id,
            is_current: session_id == self.current_session,
            starttime: info.starttime,
        }
    }

    /// The survey after the process of a session of the present window has become known.
    pub open spec fn with_process(self, info: SessionProcInfo) -> SurveyView {
        SurveyView {
            oldest_window: better_window(self.oldest_window, self.window_candidate(info)),
            ..self
        }
    }

    /// The survey after the working directory of a session of the present window has been identified.
    pub open spec fn with_directory(self, session_id: i32, info: SessionProcInfo, id: FileId) -> SurveyView {
        if id == self.workdir_id {
            SurveyView {
                best_session: better_session(self.best_session, self.session_candidate(session_id, info)),
                ..self
            }
        } else {
            self
        }
    }

    /// The inquiry into the process of a session, as a part of the survey: when the process has become
    /// known, its working directory is identified.
    pub open spec fn inquiring(self, session_id: i32, progress: ProcProgressView) -> ProgramProgressView {
        match progress {
            ProgressView::Pending(inquiry, action) => ProgressView::Pending(
                ProgramView::Survey { survey: self, stage: Stage::Process { session_id, inquiry } },
                action,
            ),
            ProgressView::Finished(Ok(info)) => ProgressView::Pending(
                ProgramView::Survey {
                    survey: self.with_process(info),
                    stage: Stage::Directory { session_id, info },
                },
                ActionView::Identify { path: info.cwd },
            ),
            ProgressView::Finished(Err(source)) => failed(Failure::GetSessionProcInfo { source }),
        }
    }

    /// How a survey goes on when the present session, window or service is done with: to the next
    /// session of the window, the next window of the service or the next service; after the last,
    /// to what the survey was for.
    pub open spec fn resume(self) -> ProgramProgressView {
        if self.sessions.len() > 0 {
            let session_id = self.sessions[0];
            let survey = SurveyView { sessions: self.sessions.drop_first(), ..self };
            survey.inquiring(session_id, proc_start(self.service_name, session_id))
        } else if self.windows.len() > 0 {
            let window_id = self.windows[0];
            let survey = SurveyView { windows: self.windows.drop_first(), window_id, ..self };
            calling(
                ProgramView::Survey { survey, stage: Stage::CurrentSession },
                current_session_request(self.service_name, window_id),
            )
        } else if self.services.len() > 0 {
            let service_name = self.services[0];
            let survey = SurveyView { services: self.services.drop_first(), service_name, ..self };
            calling(ProgramView::Survey { survey, stage: Stage::Windows }, windows_request(service_name))
        } else {
            self.conclude()
        }
    }

    /// What follows a survey.
    pub open spec fn conclude(self) -> ProgramProgressView {
        verdict(self.workdir, self.oldest_window, self.best_session)
    }
}

impl Stage {
    /// Whether an event is the one that the survey waits for.
    pub open spec fn awaits(self, event: EventView) -> bool {
        match self {
            Stage::Windows => event is Call,
            Stage::CurrentSession => event is Call,
            Stage::Sessions => event is Call,
            Stage::Process { inquiry, .. } => inquiry.awaits(event),
            Stage::Directory { .. } => event is Identify,
        }
    }

    /// How a survey goes on with the event that it waits for.
    pub open spec fn next(self, survey: SurveyView, event: EventView) -> ProgramProgressView
        recommends
            self.awaits(event),
    {
        match self {
            Stage::Windows => match told_windows(event->Call_0) {
                Ok(windows) => SurveyView { windows, ..survey }.resume(),
                Err(source) => failed(Failure::ListWindows { source }),
            },
            Stage::CurrentSession => match replied_i32(event->Call_0) {
                Some(current_session) => calling(
                    ProgramView::Survey {
                        survey: SurveyView { current_session, ..survey },
                        stage: Stage::Sessions,
                    },
                    sessions_request(survey.service_name, survey.window_id),
                ),
                None => failed(Failure::GetCurrentSession),
            },
            Stage::Sessions => match told_sessions(event->Call_0) {
                Ok(sessions) => SurveyView { sessions, ..survey }.resume(),
                Err(source) => failed(Failure::ListSessions { source }),
            },
            Stage::Process { session_id, inquiry } => survey.inquiring(session_id, inquiry.next(event)),
            Stage::Directory { session_id, info } => match event->Identify_0 {
                Identity::Found(id) => survey.with_directory(session_id, info, id).resume(),
                Identity::NotFound => survey.resume(),
                Identity::Failed => failed(Failure::ConstructHandleFromPath { path: info.cwd }),
            },
        }
    }
}

impl ProgramView {
    /// The start of the program: the path of the working directory is resolved.
    pub open spec fn start(workdir: PathBuf) -> ProgramProgressView {
        ProgressView::Pending(ProgramView::Canonicalize, ActionView::Canonicalize { path: workdir })
    }

    /// Whether an event is the one that the program waits for.
    pub open spec fn awaits(self, event: EventView) -> bool {
        match self {
            ProgramView::Canonicalize => event is Canonicalize,
            ProgramView::Identify { .. } => event is Identify,
            ProgramView::Connect { .. } => event is Connect,
            ProgramView::Services { .. } => event is Call,
            ProgramView::Survey { stage, .. } => stage.awaits(event),
            ProgramView::Create { .. } => event is Call,
            ProgramView::Switch { .. } => event is Call,
            ProgramView::Pid => event is Call,
            ProgramView::Launch => event is Launch,
            ProgramView::Activate { activation } => activation.awaits(event),
        }
    }

    /// How the program goes on with the event that it waits for.
    pub open spec fn next(self, event: EventView) -> ProgramProgressView
        recommends
            self.awaits(event),
    {
        match self {
            ProgramView::Canonicalize => match event->Canonicalize_0 {
                Some(workdir) => ProgressView::Pending(
                    ProgramView::Identify { workdir },
                    ActionView::Identify { path: workdir },
                ),
                None => failed(Failure::CanonicalizeWorkdir),
            },
            ProgramView::Identify { workdir } => match event->Identify_0 {
                Identity::Found(workdir_id) => ProgressView::Pending(
                    ProgramView::Connect { workdir, workdir_id },
                    ActionView::Connect,
                ),
                _ => failed(Failure::ConstructHandleFromWorkdir),
            },
            ProgramView::Connect { workdir, workdir_id } => if event->Connect_0 {
                calling(ProgramView::Services { workdir, workdir_id }, services_request())
            } else {
                failed(Failure::ConnectToSessionBus)
            },
            ProgramView::Services { workdir, workdir_id } => match told_services(event->Call_0) {
                Some(services) => SurveyView::start(workdir, workdir_id, services).resume(),
                None => failed(Failure::ListServices),
            },
            ProgramView::Survey { survey, stage } => stage.next(survey, event),
            ProgramView::Create { window } => match replied_i32(event->Call_0) {
                Some(session_id) => calling(
                    ProgramView::Switch { service_name: window.service_name },
                    set_current_session_request(window.service_name, window.window_id, session_id),
                ),
                None => failed(Failure::CreateSession),
            },
            ProgramView::Switch { service_name } => match replied_unit(event->Call_0) {
                Some(_) => calling(ProgramView::Pid, service_pid_request(service_name)),
                None => failed(Failure::SetCurrentSession),
            },
            ProgramView::Pid => match replied_u32(event->Call_0) {
                Some(pid) => activating(activation_start(pid)),
                None => failed(Failure::GetServicePid),
            },
            ProgramView::Launch => match event->Launch_0 {
                Some(pid) => activating(activation_start(pid)),
                None => failed(Failure::LaunchKonsole),
            },
            ProgramView::Activate { activation } => activating(activation.next(event)),
        }
    }
}

/// Starts the program.
pub fn start(cli: Cli) -> (res: ProgramProgress)
    ensures
        progress_view(res) == ProgramView::start(cli.workdir),
{
    Progress::Pending(Program::Canonicalize, Action::Canonicalize { path: cli.workdir })
}

fn call(state: Program, request: MethodCall) -> (res: ProgramProgress)
    ensures
        progress_view(res) == calling(state@, request@),
        res is Pending,
{
    Progress::Pending(state, Action::Call { call: request })
}

fn fail(e: ProgramError) -> (res: ProgramProgress)
    ensures
        progress_view(res) == failed(e@),
        res == ProgramProgress::Finished(Err(e)),
{
    Progress::Finished(Err(e))
}

fn activate(progress: ActivationProgress) -> (res: ProgramProgress)
    ensures
        progress_view(res) == activating(activation_view(progress)),
        res matches Progress::Finished(Err(e)) ==> progress matches Progress::Finished(Err(source)) && e
            == (ProgramError::ActivateWindows { source }),
{
    match progress {
        Progress::Pending(activation, action) => Progress::Pending(Program::Activate { activation }, action),
        Progress::Finished(Ok(())) => Progress::Finished(Ok(())),
        Progress::Finished(Err(source)) => fail(ProgramError::ActivateWindows { source }),
    }
}

impl Survey {
    fn start(workdir: PathBuf, workdir_id: FileId, services: Vec<String>) -> (res: Survey)
        ensures
            res@ == SurveyView::start(workdir, workdir_id, texts(services@)),
    {
        let survey = Survey {
            workdir,
            workdir_id,
            oldest_window: None,
            best_session: None,
            services,
            service_name: String::new(),
            windows: Vec::new(),
            window_id: String::new(),
            current_session: 0,
            sessions: Vec::new(),
        };
        assert(survey@.windows =~= Seq::<Seq<char>>::empty());
        survey
    }

    fn resume(self) -> (res: ProgramProgress)
        ensures
            progress_view(res) == self@.resume(),
            res is Pending,
    {
        let mut survey = self;
        if survey.sessions.len() > 0 {
            let session_id: i32 = survey.sessions.remove(0);
            assert(survey.sessions@ =~= self.sessions@.drop_first());
            let progress = get_session_proc_info(survey.service_name.as_str(), session_id);
            survey.inquire(session_id, progress)
        } else if survey.windows.len() > 0 {
            survey.window_id = survey.windows.remove(0);
            assert(texts(survey.windows@) =~= texts(self.windows@).drop_first());
            let current_call = get_current_session_call(survey.service_name.as_str(), survey.window_id.as_str());
            call(Program::Survey { survey, stage: Stage::CurrentSession }, current_call)
        } else if survey.services.len() > 0 {
            survey.service_name = survey.services.remove(0);
            assert(texts(survey.services@) =~= texts(self.services@).drop_first());
            let windows_call = list_windows_call(survey.service_name.as_str());
            call(Program::Survey { survey, stage: Stage::Windows }, windows_call)
        } else {
            survey.conclude()
        }
    }

    fn conclude(self) -> (res: ProgramProgress)
        ensures
            progress_view(res) == self@.conclude(),
            res is Pending,
    {
        match self.best_session {
            Some(session) => if session.is_current {
                call(Program::Pid, get_service_pid_call(session.service_name.as_str()))
            } else {
                let set_call = set_current_session_call(
                    session.service_name.as_str(),
                    session.window_id.as_str(),
                    session.session_id,
                );
                call(Program::Switch { service_name: session.service_name }, set_call)
            },
            None => match self.oldest_window {
                Some(window) => {
                    let new_call = new_session_call(
                        window.service_name.as_str(),
                        window.window_id.as_str(),
                        self.workdir,
                    );
                    call(Program::Create { window }, new_call)
                },
                None => Progress::Pending(
                    Program::Launch,
                    Action::Launch {
                        program: "konsole".to_owned(),
                        option: "--workdir".to_owned(),
                        directory: self.workdir,
                    },
                ),
            },
        }
    }

    fn inquire(self, session_id: i32, progress: ProcProgress) -> (res: ProgramProgress)
        ensures
            progress_view(res) == self@.inquiring(session_id, proc_view(progress)),
            res matches Progress::Finished(Err(e)) ==> progress matches Progress::Finished(Err(source)) && e
                == (ProgramError::GetSessionProcInfo { source }),
    {
        match progress {
            Progress::Pending(inquiry, action) => Progress::Pending(
                Program::Survey { survey: self, stage: Stage::Process { session_id, inquiry } },
                action,
            ),
            Progress::Finished(Ok(info)) => {
                let survey = self.with_process(&info);
                let path = info.cwd.clone();
                Progress::Pending(
                    Program::Survey { survey, stage: Stage::Directory { session_id, info } },
                    Action::Identify { path },
                )
            },
            Progress::Finished(Err(source)) => fail(ProgramError::GetSessionProcInfo { source }),
        }
    }

    fn with_process(self, info: &SessionProcInfo) -> (res: Survey)
        ensures
            res@ == self@.with_process(*info),
    {
        let mut survey = self;
        let candidate = AnnotatedWindow {
            service_name: survey.service_name.clone(),
            window_id: survey.window_id.clone(),
            starttime: info.starttime,
        };
        consider_window_candidate(&mut survey.oldest_window, candidate);
        survey
    }

    fn with_directory(self, session_id: i32, info: SessionProcInfo, id: FileId) -> (res: Survey)
        ensures
            res@ == self@.with_directory(session_id, info, id),
    {
        let mut survey = self;
        if id == survey.workdir_id {
            let candidate = AnnotatedSession {
                service_name: survey.service_name.clone(),
                window_id: survey.window_id.clone(),
                session_id,
                is_current: session_id == survey.current_session,
                starttime: info.starttime,
            };
            consider_session_candidate(&mut survey.best_session, candidate);
        }
        survey
    }

    fn step(self, stage: Stage, event: Event) -> (res: ProgramProgress)
        requires
            stage.awaits(event@),
        ensures
            progress_view(res) == stage.next(self@, event@),
            res matches Progress::Finished(Err(e)) ==> e.comes_of(event),
    {
        let mut survey = self;
        match (stage, event) {
            (Stage::Windows, Event::Call(reply)) => match list_windows(reply) {
                Ok(windows) => {
                    survey.windows = windows;
                    survey.resume()
                },
                Err(source) => fail(ProgramError::ListWindows { source }),
            },
            (Stage::CurrentSession, Event::Call(reply)) => match reply_i32(reply) {
                Ok(current_session) => {
                    survey.current_session = current_session;
                    let sessions_call = list_sessions_call(survey.service_name.as_str(), survey.window_id.as_str());
                    call(Program::Survey { survey, stage: Stage::Sessions }, sessions_call)
                },
                Err(source) => fail(ProgramError::GetCurrentSession { source }),
            },
            (Stage::Sessions, Event::Call(reply)) => match list_sessions(reply) {
                Ok(sessions) => {
                    survey.sessions = sessions;
                    survey.resume()
                },
                Err(source) => fail(ProgramError::ListSessions { source }),
            },
            (Stage::Process { session_id, inquiry }, event) => survey.inquire(session_id, inquiry.step(event)),
            (Stage::Directory { session_id, info }, Event::Identify(res)) => match res {
                Ok(id) => survey.with_directory(session_id, info, id).resume(),
                Err(e) => if e.not_found {
                    survey.resume()
                } else {
                    fail(ProgramError::ConstructHandleFromPath { source: e.source, path: info.cwd })
                },
            },
            (stage, _) => {
                assert(false);
                Progress::Pending(Program::Survey { survey, stage }, Action::Connect)
            },
        }
    }
}

impl Stage {
    fn expects(&self, event: &Event) -> (res: bool)
        ensures
            res == self.awaits(event@),
    {
        match (self, event) {
            (Stage::Windows, Event::Call(_)) => true,
            (Stage::CurrentSession, Event::Call(_)) => true,
            (Stage::Sessions, Event::Call(_)) => true,
            (Stage::Process { inquiry, .. }, event) => inquiry.expects(event),
            (Stage::Directory { .. }, Event::Identify(_)) => true,
            _ => false,
        }
    }
}

impl Program {
    /// Tells whether an event is the one that the program waits for.
    pub fn expects(&self, event: &Event) -> (res: bool)
        ensures
            res == self@.awaits(event@),
    {
        match (self, event) {
            (Program::Canonicalize, Event::Canonicalize(_)) => true,
            (Program::Identify { .. }, Event::Identify(_)) => true,
            (Program::Connect { .. }, Event::Connect(_)) => true,
            (Program::Services { .. }, Event::Call(_)) => true,
            (Program::Survey { stage, .. }, event) => stage.expects(event),
            (Program::Create { .. }, Event::Call(_)) => true,
            (Program::Switch { .. }, Event::Call(_)) => true,
            (Program::Pid, Event::Call(_)) => true,
            (Program::Launch, Event::Launch(_)) => true,
            (Program::Activate { activation }, event) => activation.expects(event),
            _ => false,
        }
    }

    /// Goes on with the program.
    pub fn step(self, event: Event) -> (res: ProgramProgress)
        requires
            self@.awaits(event@),
        ensures
            progress_view(res) == self@.next(event@),
            res matches Progress::Finished(Err(e)) ==> e.comes_of(event),
    {
        match (self, event) {
            (Program::Canonicalize, Event::Canonicalize(res)) => match res {
                Ok(workdir) => {
                    let path = workdir.clone();
                    Progress::Pending(Program::Identify { workdir }, Action::Identify { path })
                },
                Err(source) => fail(ProgramError::CanonicalizeWorkdir { source }),
            },
            (Program::Identify { workdir }, Event::Identify(res)) => match res {
                Ok(workdir_id) => Progress::Pending(Program::Connect { workdir, workdir_id }, Action::Connect),
                Err(e) => fail(ProgramError::ConstructHandleFromWorkdir { source: e.source }),
            },
            (Program::Connect { workdir, workdir_id }, Event::Connect(res)) => match res {
                Ok(_) => call(Program::Services { workdir, workdir_id }, list_services_call()),
                Err(source) => fail(ProgramError::ConnectToSessionBus { source }),
            },
            (Program::Services { workdir, workdir_id }, Event::Call(reply)) => match list_services(reply) {
                Ok(services) => Survey::start(workdir, workdir_id, services).resume(),
                Err(source) => fail(ProgramError::ListServices { source }),
            },
            (Program::Survey { survey, stage }, event) => survey.step(stage, event),
            (Program::Create { window }, Event::Call(reply)) => match reply_i32(reply) {
                Ok(session_id) => {
                    let set_call = set_current_session_call(
                        window.service_name.as_str(),
                        window.window_id.as_str(),
                        session_id,
                    );
                    call(Program::Switch { service_name: window.service_name }, set_call)
                },
                Err(source) => fail(ProgramError::CreateSession { source }),
            },
            (Program::Switch { service_name }, Event::Call(reply)) => match reply_unit(reply) {
                Ok(_) => call(Program::Pid, get_service_pid_call(service_name.as_str())),
                Err(source) => fail(ProgramError::SetCurrentSession { source }),
            },
            (Program::Pid, Event::Call(reply)) => match reply_u32(reply) {
                Ok(pid) => activate(activate_windows(pid)),
                Err(source) => fail(ProgramError::GetServicePid { source }),
            },
            (Program::Launch, Event::Launch(res)) => match res {
                Ok(pid) => activate(activate_windows(pid)),
                Err(source) => fail(ProgramError::LaunchKonsole { source }),
            },
            (Program::Activate { activation }, event) => activate(activation.step(event)),
            (state, _) => {
                assert(false);
                Progress::Pending(state, Action::Connect)
            },
        }
    }
}

} // verus!

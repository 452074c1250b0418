//! The sessions of a Konsole window.
use crate::dbus::{
    fault_i32, fault_unit, goes_to, held_i32, law_a_call_brings_back_what_its_reply_holds, refused_i32,
    refused_unit, replied_i32, replied_unit, reply_i32, reply_unit, reply_view, Body,
    MethodCall, Reply, ReplyView,
};
use crate::exchange::{answers, Action, ActionView, Event, EventView, Progress, ProgressView};
use crate::konsole;
use crate::text::{decimal, decimal_text};
use crate::window::Window;
use procfs::ProcError;
use std::path::PathBuf;
use vstd::prelude::*;

verus! {

/// A session of a Konsole window, by its ID. Konsole registers sessions on the bus under
/// `/Sessions/<sessionId>`, where `sessionId` is an `int` of C++.
#[derive(Debug)]
pub struct Session {
    pub window: Window,
    pub id: i32,
}

impl Clone for Session {
    fn clone(&self) -> (res: Self)
        ensures
            res == *self,
    {
        Session { window: self.window.clone(), id: self.id }
    }
}

/// The sessions of a window with the given IDs.
pub open spec fn sessions_of(window: Window, ids: Seq<i32>) -> Seq<Session> {
    Seq::new(ids.len(), |k: int| Session { window, id: ids[k] })
}

/// What is known of the process of a session.
#[derive(Debug)]
pub struct SessionProcInfo {
    pub cwd: PathBuf,
    pub starttime: u64,
}

/// Why nothing can be learned of the process of a session.
#[derive(Debug)]
pub enum GetSessionProcInfoError {
    Pid { source: zbus::Error },
    Handle { source: ProcError, pid: i32 },
    Cwd { source: ProcError },
    Stat { source: ProcError },
}

/// Why nothing can be learned of the process of a session, without the underlying error.
pub enum GetSessionProcInfoFailure {
    Pid,
    Handle { pid: i32 },
    Cwd,
    Stat,
}

impl View for GetSessionProcInfoError {
    type V = GetSessionProcInfoFailure;

    open spec fn view(&self) -> GetSessionProcInfoFailure {
        match self {
            GetSessionProcInfoError::Pid { .. } => GetSessionProcInfoFailure::Pid,
            GetSessionProcInfoError::Handle { pid, .. } => GetSessionProcInfoFailure::Handle { pid: *pid },
            GetSessionProcInfoError::Cwd { .. } => GetSessionProcInfoFailure::Cwd,
            GetSessionProcInfoError::Stat { .. } => GetSessionProcInfoFailure::Stat,
        }
    }
}

impl GetSessionProcInfoError {
    /// Whether the underlying error is the one that an event brings, or that the reading of the reply in
    /// it comes to.
    pub open spec fn comes_of(self, event: Event) -> bool {
        match self {
            GetSessionProcInfoError::Pid { source } => event matches Event::Call(reply) && fault_i32(reply, source),
            GetSessionProcInfoError::Handle { source, .. } => event == Event::OpenProcess(Err(source)),
            GetSessionProcInfoError::Cwd { source } => event == Event::ReadCwd(Err(source)),
            GetSessionProcInfoError::Stat { source } => event == Event::ReadStarttime(Err(source)),
        }
    }
}

/// The inquiry into the process of a session, by what it waits for.
#[derive(Debug)]
pub enum ProcInquiry {
    /// The process ID of the session.
    Pid,
    /// A handle to the process.
    Handle { pid: i32 },
    /// The current working directory of the process.
    Cwd { pid: i32 },
    /// The start time of the process.
    Stat { cwd: PathBuf },
}

/// The inquiry into the process of a session, in terms of views.
pub type ProcProgressView = ProgressView<ProcInquiry, Result<SessionProcInfo, GetSessionProcInfoFailure>>;

/// The inquiry into the process of a session.
pub type ProcProgress = Progress<ProcInquiry, Result<SessionProcInfo, GetSessionProcInfoError>>;

/// How far an inquiry has come, without the underlying error where it failed.
pub open spec fn proc_view(progress: ProcProgress) -> ProcProgressView {
    match progress {
        Progress::Pending(state, action) => ProgressView::Pending(state, action@),
        Progress::Finished(Ok(info)) => ProgressView::Finished(Ok(info)),
        Progress::Finished(Err(e)) => ProgressView::Finished(Err(e@)),
    }
}

/// The start of an inquiry: the service is asked for the process ID of the session.
pub open spec fn proc_start(service_name: Seq<char>, session_id: i32) -> ProcProgressView {
    ProgressView::Pending(
        ProcInquiry::Pid,
        ActionView::Call { call: konsole::session_pid_request(service_name, session_id) },
    )
}

/// Starts the inquiry into the process of a session.
pub fn get_session_proc_info(service_name: &str, session_id: i32) -> (res: ProcProgress)
    ensures
        proc_view(res) == proc_start(service_name@, session_id),
{
    Progress::Pending(
        ProcInquiry::Pid,
        Action::Call { call: konsole::get_session_pid_call(service_name, session_id) },
    )
}

impl ProcInquiry {
    /// Whether an event is the one that the inquiry waits for.
    pub open spec fn awaits(self, event: EventView) -> bool {
        match self {
            ProcInquiry::Pid => event is Call,
            ProcInquiry::Handle { .. } => event is OpenProcess,
            ProcInquiry::Cwd { .. } => event is ReadCwd,
            ProcInquiry::Stat { .. } => event is ReadStarttime,
        }
    }

    /// How an inquiry goes on: from the process ID to the handle, the working directory and the start
    /// time, up to the first step that fails.
    pub open spec fn next(self, event: EventView) -> ProcProgressView
        recommends
            self.awaits(event),
    {
        match self {
            ProcInquiry::Pid => match replied_i32(event->Call_0) {
                Some(pid) => ProgressView::Pending(ProcInquiry::Handle { pid }, ActionView::OpenProcess { pid }),
                None => ProgressView::Finished(Err(GetSessionProcInfoFailure::Pid)),
            },
            ProcInquiry::Handle { pid } => if event->OpenProcess_0 {
                ProgressView::Pending(ProcInquiry::Cwd { pid }, ActionView::ReadCwd { pid })
            } else {
                ProgressView::Finished(Err(GetSessionProcInfoFailure::Handle { pid }))
            },
            ProcInquiry::Cwd { pid } => match event->ReadCwd_0 {
                Some(cwd) => ProgressView::Pending(ProcInquiry::Stat { cwd }, ActionView::ReadStarttime { pid }),
                None => ProgressView::Finished(Err(GetSessionProcInfoFailure::Cwd)),
            },
            ProcInquiry::Stat { cwd } => match event->ReadStarttime_0 {
                Some(starttime) => ProgressView::Finished(Ok(SessionProcInfo { cwd, starttime })),
                None => ProgressView::Finished(Err(GetSessionProcInfoFailure::Stat)),
            },
        }
    }

    /// Tells whether an event is the one that the inquiry waits for.
    pub fn expects(&self, event: &Event) -> (res: bool)
        ensures
            res == self.awaits(event@),
    {
        match (self, event) {
            (ProcInquiry::Pid, Event::Call(_)) => true,
            (ProcInquiry::Handle { .. }, Event::OpenProcess(_)) => true,
            (ProcInquiry::Cwd { .. }, Event::ReadCwd(_)) => true,
            (ProcInquiry::Stat { .. }, Event::ReadStarttime(_)) => true,
            _ => false,
        }
    }

    /// Goes on with the inquiry.
    pub fn step(self, event: Event) -> (res: ProcProgress)
        requires
            self.awaits(event@),
        ensures
            proc_view(res) == self.next(event@),
            res matches Progress::Finished(Err(e)) ==> e.comes_of(event),
    {
        match (self, event) {
            (ProcInquiry::Pid, Event::Call(reply)) => match reply_i32(reply) {
                Ok(pid) => Progress::Pending(ProcInquiry::Handle { pid }, Action::OpenProcess { pid }),
                Err(source) => Progress::Finished(Err(GetSessionProcInfoError::Pid { source })),
            },
            (ProcInquiry::Handle { pid }, Event::OpenProcess(res)) => match res {
                Ok(_) => Progress::Pending(ProcInquiry::Cwd { pid }, Action::ReadCwd { pid }),
                Err(source) => Progress::Finished(Err(GetSessionProcInfoError::Handle { source, pid })),
            },
            (ProcInquiry::Cwd { pid }, Event::ReadCwd(res)) => match res {
                Ok(cwd) => Progress::Pending(ProcInquiry::Stat { cwd }, Action::ReadStarttime { pid }),
                Err(source) => Progress::Finished(Err(GetSessionProcInfoError::Cwd { source })),
            },
            (ProcInquiry::Stat { cwd }, Event::ReadStarttime(res)) => match res {
                Ok(starttime) => Progress::Finished(Ok(SessionProcInfo { cwd, starttime })),
                Err(source) => Progress::Finished(Err(GetSessionProcInfoError::Stat { source })),
            },
            (state, _) => {
                assert(false);
                Progress::Pending(state, Action::Connect)
            },
        }
    }
}

impl Session {
    /// Asks the window of the session to make the session its current one.
    pub fn set_current_session_call(&self) -> (res: MethodCall)
        ensures
            res@ == konsole::set_current_session_request(
                self.window.service.name@,
                decimal(self.window.id as int),
                self.id,
            ),
    {
        konsole::set_current_session_call(
            self.window.service.name.as_str(),
            decimal_text(self.window.id).as_str(),
            self.id,
        )
    }

    /// Reads from the reply whether the session has become the current one of its window.
    pub fn set_current_session(&self, reply: Result<Reply, zbus::Error>) -> (res: Result<(), zbus::Error>)
        ensures
            match res {
                Ok(_) => replied_unit(reply_view(reply)) is Some,
                Err(e) => {
                    &&& replied_unit(reply_view(reply)) is None
                    &&& fault_unit(reply, e)
                },
            },
    {
        reply_unit(reply)
    }

    /// Asks the service for the process ID of the session.
    pub fn pid_call(&self) -> (res: MethodCall)
        ensures
            res@ == konsole::session_pid_request(self.window.service.name@, self.id),
    {
        konsole::get_session_pid_call(self.window.service.name.as_str(), self.id)
    }

    /// Reads the process ID of the session from the reply of the service.
    pub fn pid(&self, reply: Result<Reply, zbus::Error>) -> (res: Result<i32, zbus::Error>)
        ensures
            match res {
                Ok(pid) => replied_i32(reply_view(reply)) == Some(pid),
                Err(e) => {
                    &&& replied_i32(reply_view(reply)) is None
                    &&& fault_i32(reply, e)
                },
            },
    {
        reply_i32(reply)
    }

    /// Starts the inquiry into the process of the session.
    pub fn proc_info(&self) -> (res: ProcProgress)
        ensures
            proc_view(res) == proc_start(self.window.service.name@, self.id),
    {
        get_session_proc_info(self.window.service.name.as_str(), self.id)
    }
}

/// An inquiry waits for the event that tells how its action went, and for no other.
pub proof fn law_inquiry_waits_for_its_action(state: ProcInquiry, event: EventView, answer: EventView)
    requires
        state.awaits(event),
        state.next(event) is Pending,
    ensures
        answers(state.next(event)->Pending_1, answer) <==> state.next(event)->Pending_0.awaits(answer),
{
}

/// An inquiry in which every step succeeds ends with the working directory and the start time that
/// were read, of the process whose ID the service told.
pub proof fn law_inquiry_runs_through(reply: Option<ReplyView>, cwd: PathBuf, starttime: u64)
    requires
        replied_i32(reply) is Some,
    ensures
        ({
            let pid = replied_i32(reply)->Some_0;
            let opening = ProcInquiry::Pid.next(EventView::Call(reply));
            let cwd_reading = opening->Pending_0.next(EventView::OpenProcess(true));
            let stat_reading = cwd_reading->Pending_0.next(EventView::ReadCwd(Some(cwd)));
            &&& opening == ProcProgressView::Pending(ProcInquiry::Handle { pid }, ActionView::OpenProcess { pid })
            &&& cwd_reading == ProcProgressView::Pending(ProcInquiry::Cwd { pid }, ActionView::ReadCwd { pid })
            &&& stat_reading == ProcProgressView::Pending(ProcInquiry::Stat { cwd }, ActionView::ReadStarttime { pid })
            &&& stat_reading->Pending_0.next(EventView::ReadStarttime(Some(starttime)))
                == ProcProgressView::Finished(Ok(SessionProcInfo { cwd, starttime }))
        }),
{
}

/// A session is made current by its own window, with its own ID alone.
pub proof fn law_session_is_made_current_by_its_own_window(session: Session, call: MethodCall)
    requires
        call_ensures(Session::set_current_session_call, (&session,), call),
    ensures
        goes_to(call, session.window.service.name@, "/Windows/"@ + decimal(session.window.id as int), "org.kde.konsole.Window"@, "setCurrentSession"@),
        call.body == Body::Int(session.id),
{
}

/// A session is asked for its own process ID.
pub proof fn law_session_is_asked_for_its_process(session: Session, call: MethodCall)
    requires
        call_ensures(Session::pid_call, (&session,), call),
    ensures
        goes_to(call, session.window.service.name@, "/Sessions/"@ + decimal(session.id as int), "org.kde.konsole.Session"@, "processId"@),
        call.body is Empty,
{
}

/// The process ID of a session is the `i32` in the reply.
pub proof fn law_process_of_a_session_is_in_the_reply(
    session: Session,
    reply: Result<Reply, zbus::Error>,
    res: Result<i32, zbus::Error>,
)
    requires
        call_ensures(Session::pid, (&session, reply), res),
    ensures
        match reply {
            Ok(held) => match held_i32(held@) {
                Some(pid) => res == Ok::<i32, zbus::Error>(pid),
                None => res matches Err(e) && refused_i32(held, e),
            },
            Err(e) => res == Err::<i32, zbus::Error>(e),
        },
{
}

/// A session has become current if the reply holds nothing, and only then.
pub proof fn law_session_is_current_if_the_reply_is_empty(
    session: Session,
    reply: Result<Reply, zbus::Error>,
    res: Result<(), zbus::Error>,
)
    requires
        call_ensures(Session::set_current_session, (&session, reply), res),
    ensures
        match reply {
            Ok(held) => {
                &&& res is Ok <==> held.signature@.len() == 0
                &&& res matches Err(e) ==> refused_unit(held, e)
            },
            Err(e) => res == Err::<(), zbus::Error>(e),
        },
{
    if let Ok(held) = reply {
        law_a_call_brings_back_what_its_reply_holds(held@);
    }
}

/// An inquiry begins with the process ID, which is asked of the session.
pub proof fn law_inquiry_begins_with_the_process_id(service_name: &str, session: Session, begun: ProcProgress)
    requires
        call_ensures(get_session_proc_info, (service_name, session.id), begun) && service_name@
            == session.window.service.name@ || call_ensures(Session::proc_info, (&session,), begun),
    ensures
        begun matches Progress::Pending(ProcInquiry::Pid, Action::Call { call }) && goes_to(
            call,
            session.window.service.name@,
            "/Sessions/"@ + decimal(session.id as int),
            "org.kde.konsole.Session"@,
            "processId"@,
        ) && call.body is Empty,
{
}

/// An inquiry goes on through the process whose ID the reply holds: its handle, its working directory
/// and its start time, in this order, and ends with the latter two. The step that fails is told, with
/// the ID where no handle can be had.
pub proof fn law_inquiry_goes_on_step_by_step(inquiry: ProcInquiry, event: Event, res: ProcProgress)
    requires
        inquiry.awaits(event@),
        call_ensures(ProcInquiry::step, (inquiry, event), res),
    ensures
        match (inquiry, event) {
            (ProcInquiry::Pid, Event::Call(Ok(held))) => match held_i32(held@) {
                Some(pid) => res == ProcProgress::Pending(ProcInquiry::Handle { pid }, Action::OpenProcess { pid }),
                None => res matches Progress::Finished(Err(GetSessionProcInfoError::Pid { source })) && refused_i32(held, source),
            },
            (ProcInquiry::Pid, Event::Call(Err(source))) => res == ProcProgress::Finished(
                Err(GetSessionProcInfoError::Pid { source }),
            ),
            (ProcInquiry::Handle { pid }, Event::OpenProcess(Ok(_))) => res == ProcProgress::Pending(
                ProcInquiry::Cwd { pid },
                Action::ReadCwd { pid },
            ),
            (ProcInquiry::Handle { pid }, Event::OpenProcess(Err(source))) => res == ProcProgress::Finished(
                Err(GetSessionProcInfoError::Handle { source, pid }),
            ),
            (ProcInquiry::Cwd { pid }, Event::ReadCwd(Ok(cwd))) => res == ProcProgress::Pending(
                ProcInquiry::Stat { cwd },
                Action::ReadStarttime { pid },
            ),
            (ProcInquiry::Cwd { pid }, Event::ReadCwd(Err(source))) => res == ProcProgress::Finished(
                Err(GetSessionProcInfoError::Cwd { source }),
            ),
            (ProcInquiry::Stat { cwd }, Event::ReadStarttime(Ok(starttime))) => res == ProcProgress::Finished(
                Ok(SessionProcInfo { cwd, starttime }),
            ),
            (ProcInquiry::Stat { cwd }, Event::ReadStarttime(Err(source))) => res == ProcProgress::Finished(
                Err(GetSessionProcInfoError::Stat { source }),
            ),
            _ => false,
        },
{
}

} // verus!

//! What holds of the program after any events at all.
use crate::activate_windows::{ActivateWindowsError, ActivateWindowsFailure, Activation};
use crate::candidate::{
    better_session, better_window, chosen_session, chosen_window, law_chosen_session_is_first_best,
    law_chosen_window_is_first_oldest, SessionCandidate, WindowCandidate,
};
use crate::cli::Cli;
use crate::dbus::{
    child_names, goes_to, held_i32, held_str, held_u32, law_a_call_brings_back_what_its_reply_holds, refused_i32,
    refused_str, refused_strs, refused_u32, refused_unit, refused_xml, replied_i32, replied_str, replied_strs, replied_u32, replied_unit, Body, BodyView,
};
use crate::exchange::{answers, calls, Action, ActionView, Event, EventView, FileId, Identity, Progress, ProgressView};
use crate::konsole::{
    is_first_bad, law_told_sessions_are_the_integers_of_the_reply, law_windows_are_told_by_the_description,
    told_services, told_sessions, told_windows, ListSessionsError, ListSessionsFailure, ListWindowsError, ListWindowsFailure,
};
use crate::program::{
    failed, progress_view, start, verdict, Failure, Program, ProgramError, ProgramProgress, ProgramProgressView,
    ProgramView, Stage, Survey, SurveyView,
};
use crate::session::{GetSessionProcInfoError, GetSessionProcInfoFailure, ProcInquiry};
use crate::text::{decimal, parsed, refused_text};
use std::path::PathBuf;
use vstd::prelude::*;

verus! {

/// How far the program has come after some events, from its start for a working directory.
pub open spec fn run(workdir: PathBuf, events: Seq<EventView>) -> ProgramProgressView
    decreases events.len(),
{
    if events.len() == 0 {
        ProgramView::start(workdir)
    } else {
        match run(workdir, events.drop_last()) {
            ProgressView::Pending(state, _) => state.next(events.last()),
            ProgressView::Finished(result) => ProgressView::Finished(result),
        }
    }
}

/// Whether each event tells how the action went that the program had asked for.
pub open spec fn answered(workdir: PathBuf, events: Seq<EventView>) -> bool
    decreases events.len(),
{
    events.len() > 0 ==> {
        &&& answered(workdir, events.drop_last())
        &&& run(workdir, events.drop_last()) matches ProgressView::Pending(_, action) && answers(action, events.last())
    }
}

/// The window that an event brings up: that of a session whose process has become known.
pub open spec fn window_brought(progress: ProgramProgressView, event: EventView) -> Option<WindowCandidate> {
    match progress {
        ProgressView::Pending(
            ProgramView::Survey { survey, stage: Stage::Process { inquiry, .. } },
            _,
        ) => match inquiry.next(event) {
            ProgressView::Finished(Ok(info)) => Some(
                WindowCandidate {
                    service_name: survey.service_name,
                    window_id: survey.window_id,
                    starttime: info.starttime,
                },
            ),
            _ => None,
        },
        _ => None,
    }
}

/// The session that an event brings up: one whose process works in the directory with the given
/// identity.
pub open spec fn session_brought(
    workdir_id: FileId,
    progress: ProgramProgressView,
    event: EventView,
) -> Option<SessionCandidate> {
    match progress {
        ProgressView::Pending(
            ProgramView::Survey { survey, stage: Stage::Directory { session_id, info } },
            _,
        ) => if event == EventView::Identify(Identity::Found(workdir_id)) {
            Some(
                SessionCandidate {
                    service_name: survey.service_name,
                    window_id: survey.window_id,
                    session_id,
                    is_current: session_id == survey.current_session,
                    starttime: info.starttime,
                },
            )
        } else {
            None
        },
        _ => None,
    }
}

/// All windows that events have brought up, in order.
pub open spec fn windows_seen(workdir: PathBuf, events: Seq<EventView>) -> Seq<WindowCandidate>
    decreases events.len(),
{
    if events.len() == 0 {
        Seq::empty()
    } else {
        let before = windows_seen(workdir, events.drop_last());
        match window_brought(run(workdir, events.drop_last()), events.last()) {
            Some(window) => before.push(window),
            None => before,
        }
    }
}

/// All sessions in the directory with the given identity that events have brought up, in order.
pub open spec fn sessions_seen(workdir: PathBuf, workdir_id: FileId, events: Seq<EventView>) -> Seq<SessionCandidate>
    decreases events.len(),
{
    if events.len() == 0 {
        Seq::empty()
    } else {
        let before = sessions_seen(workdir, workdir_id, events.drop_last());
        match session_brought(workdir_id, run(workdir, events.drop_last()), events.last()) {
            Some(session) => before.push(session),
            None => before,
        }
    }
}

/// The canonical path of the working directory, as the first event tells it.
pub open spec fn canonical(events: Seq<EventView>) -> PathBuf {
    events[0]->Canonicalize_0->Some_0
}

/// The identity of the working directory, as the second event tells it.
pub open spec fn workdir_identity(events: Seq<EventView>) -> FileId {
    events[1]->Identify_0->Found_0
}

/// Whether no event has brought up a window or a session.
spec fn nothing_seen(workdir: PathBuf, events: Seq<EventView>) -> bool {
    &&& windows_seen(workdir, events).len() == 0
    &&& forall|id: FileId| (#[trigger] sessions_seen(workdir, id, events)).len() == 0
}

/// What the program remembers of the events.
spec fn remembers(workdir: PathBuf, events: Seq<EventView>) -> bool {
    match run(workdir, events) {
        ProgressView::Pending(ProgramView::Canonicalize, _) => events.len() == 0 && nothing_seen(workdir, events),
        ProgressView::Pending(ProgramView::Identify { workdir: path }, _) => {
            &&& events.len() == 1
            &&& path == canonical(events)
            &&& nothing_seen(workdir, events)
        },
        ProgressView::Pending(ProgramView::Connect { workdir: path, workdir_id }, _) => {
            &&& events.len() == 2
            &&& path == canonical(events)
            &&& workdir_id == workdir_identity(events)
            &&& nothing_seen(workdir, events)
        },
        ProgressView::Pending(ProgramView::Services { workdir: path, workdir_id }, _) => {
            &&& events.len() == 3
            &&& path == canonical(events)
            &&& workdir_id == workdir_identity(events)
            &&& nothing_seen(workdir, events)
        },
        ProgressView::Pending(ProgramView::Survey { survey, .. }, _) => {
            &&& events.len() > 3
            &&& survey.workdir == canonical(events)
            &&& survey.workdir_id == workdir_identity(events)
            &&& survey.oldest_window == chosen_window(windows_seen(workdir, events))
            &&& survey.best_session == chosen_session(sessions_seen(workdir, workdir_identity(events), events))
        },
        _ => true,
    }
}

/// Whether the program is past the survey.
pub open spec fn past_survey(progress: ProgramProgressView) -> bool {
    match progress {
        ProgressView::Pending(state, _) => state is Create || state is Switch || state is Pid || state is Launch
            || state is Activate,
        ProgressView::Finished(_) => true,
    }
}

proof fn lemma_chosen(
    windows: Seq<WindowCandidate>,
    window: WindowCandidate,
    sessions: Seq<SessionCandidate>,
    session: SessionCandidate,
)
    ensures
        chosen_window(windows.push(window)) == better_window(chosen_window(windows), window),
        chosen_session(sessions.push(session)) == better_session(chosen_session(sessions), session),
{
    assert(windows.push(window).drop_last() =~= windows);
    assert(sessions.push(session).drop_last() =~= sessions);
}

/// The survey that results from an event, before the program goes on to the next session, window or
/// service.
spec fn surveyed(survey: SurveyView, stage: Stage, event: EventView) -> SurveyView {
    match stage {
        Stage::Windows => SurveyView { windows: told_windows(event->Call_0)->Ok_0, ..survey },
        Stage::Sessions => SurveyView { sessions: told_sessions(event->Call_0)->Ok_0, ..survey },
        Stage::Directory { session_id, info } => match event->Identify_0 {
            Identity::Found(id) => survey.with_directory(session_id, info, id),
            _ => survey,
        },
        _ => survey,
    }
}

proof fn lemma_remembers(workdir: PathBuf, events: Seq<EventView>)
    requires
        answered(workdir, events),
    ensures
        remembers(workdir, events),
        events.len() > 0 && !past_survey(run(workdir, events.drop_last())) && past_survey(run(workdir, events))
            && run(workdir, events) is Pending ==> run(workdir, events) == verdict(
            canonical(events),
            chosen_window(windows_seen(workdir, events)),
            chosen_session(sessions_seen(workdir, workdir_identity(events), events)),
        ),
    decreases events.len(),
{
    if events.len() > 0 {
        let before = events.drop_last();
        let event = events.last();
        lemma_remembers(workdir, before);
        let id = workdir_identity(events);
        match run(workdir, before) {
            ProgressView::Pending(ProgramView::Survey { survey, stage }, _) => {
                assert(canonical(before) == canonical(events));
                assert(workdir_identity(before) == id);
                let windows = windows_seen(workdir, before);
                let sessions = sessions_seen(workdir, id, before);
                match stage {
                    Stage::Process { session_id, inquiry } => {
                        if let ProgressView::Finished(Ok(info)) = inquiry.next(event) {
                            lemma_chosen(
                                windows,
                                survey.window_candidate(info),
                                sessions,
                                survey.session_candidate(session_id, info),
                            );
                        }
                    },
                    Stage::Directory { session_id, info } => {
                        lemma_chosen(
                            windows,
                            survey.window_candidate(info),
                            sessions,
                            survey.session_candidate(session_id, info),
                        );
                        assert(surveyed(survey, stage, event).best_session == chosen_session(
                            sessions_seen(workdir, id, events),
                        ));
                    },
                    _ => {},
                }
            },
            ProgressView::Pending(state, _) => {
                assert(windows_seen(workdir, events) == windows_seen(workdir, before));
                assert forall|id: FileId| (#[trigger] sessions_seen(workdir, id, events)) == sessions_seen(
                    workdir,
                    id,
                    before,
                ) by {}
                if events.len() > 1 {
                    assert(canonical(before) == canonical(events));
                }
                if events.len() > 2 {
                    assert(workdir_identity(before) == id);
                }
                if state is Services && told_services(event->Call_0) is Some {
                    assert(nothing_seen(workdir, events));
                    assert(sessions_seen(workdir, id, events).len() == 0);
                }
            },
            _ => {},
        }
    }
}

/// The survey chooses among all that it has seen: at any time, the window that it holds is the choice
/// among the windows brought up so far, and the session that it holds the choice among the sessions
/// brought up so far that work in the working directory.
pub proof fn law_survey_chooses_among_all_seen(workdir: PathBuf, events: Seq<EventView>)
    requires
        answered(workdir, events),
        run(workdir, events) is Pending,
        run(workdir, events)->Pending_0 is Survey,
    ensures
        ({
            let survey = run(workdir, events)->Pending_0->survey;
            &&& survey.workdir == canonical(events)
            &&& survey.workdir_id == workdir_identity(events)
            &&& survey.oldest_window == chosen_window(windows_seen(workdir, events))
            &&& survey.best_session == chosen_session(sessions_seen(workdir, workdir_identity(events), events))
        }),
{
    lemma_remembers(workdir, events);
}

/// When the survey ends, the program goes by the choice among all windows and all sessions that the
/// survey has seen.
pub proof fn law_verdict_is_on_all_seen(workdir: PathBuf, events: Seq<EventView>)
    requires
        events.len() > 0,
        answered(workdir, events),
        !past_survey(run(workdir, events.drop_last())),
        past_survey(run(workdir, events)),
        run(workdir, events) is Pending,
    ensures
        run(workdir, events) == verdict(
            canonical(events),
            chosen_window(windows_seen(workdir, events)),
            chosen_session(sessions_seen(workdir, workdir_identity(events), events)),
        ),
{
    lemma_remembers(workdir, events);
}

/// No session is created, and no Konsole launched, if the survey has seen a session in the working
/// directory; and no Konsole is launched if it has seen any window.
pub proof fn law_nothing_is_created_needlessly(workdir: PathBuf, events: Seq<EventView>)
    requires
        answered(workdir, events),
        run(workdir, events) is Pending,
        run(workdir, events)->Pending_0 is Create || run(workdir, events)->Pending_0 is Launch,
    ensures
        sessions_seen(workdir, workdir_identity(events), events).len() == 0,
        run(workdir, events)->Pending_0 is Launch ==> windows_seen(workdir, events).len() == 0,
{
    lemma_remembers(workdir, events);
    law_chosen_session_is_first_best(sessions_seen(workdir, workdir_identity(events), events));
    law_chosen_window_is_first_oldest(windows_seen(workdir, events));
}

proof fn lemma_resumed_survey_waits(survey: SurveyView, answer: EventView)
    ensures
        survey.resume() is Pending,
        answers(survey.resume()->Pending_1, answer) <==> survey.resume()->Pending_0.awaits(answer),
{
}

proof fn lemma_survey_waits(survey: SurveyView, stage: Stage, event: EventView, answer: EventView)
    requires
        stage.awaits(event),
        stage.next(survey, event) is Pending,
    ensures
        answers(stage.next(survey, event)->Pending_1, answer) <==> stage.next(survey, event)->Pending_0.awaits(answer),
{
    match stage {
        Stage::Windows => {
            lemma_resumed_survey_waits(surveyed(survey, stage, event), answer);
        },
        Stage::CurrentSession => {},
        Stage::Sessions => {
            lemma_resumed_survey_waits(surveyed(survey, stage, event), answer);
        },
        Stage::Process { session_id, inquiry } => {},
        Stage::Directory { session_id, info } => {
            lemma_resumed_survey_waits(surveyed(survey, stage, event), answer);
        },
    }
}

/// The program waits for the event that tells how its action went, and for no other.
pub proof fn law_program_waits_for_its_action(state: ProgramView, event: EventView, answer: EventView)
    requires
        state.awaits(event),
        state.next(event) is Pending,
    ensures
        answers(state.next(event)->Pending_1, answer) <==> state.next(event)->Pending_0.awaits(answer),
{
    match state {
        ProgramView::Services { workdir, workdir_id } => {
            if let Some(services) = told_services(event->Call_0) {
                lemma_resumed_survey_waits(SurveyView::start(workdir, workdir_id, services), answer);
            }
        },
        ProgramView::Survey { survey, stage } => {
            lemma_survey_waits(survey, stage, event, answer);
        },
        _ => {},
    }
}

/// At its start, the program waits for the event that tells how its action went, and for no other.
pub proof fn law_started_program_waits_for_its_action(workdir: PathBuf, answer: EventView)
    ensures
        ProgramView::start(workdir) is Pending,
        answers(ProgramView::start(workdir)->Pending_1, answer) <==> ProgramView::start(workdir)->Pending_0.awaits(answer),
{
}

/// Whether an event tells that an action failed.
pub open spec fn is_failure(event: EventView) -> bool {
    match event {
        EventView::Canonicalize(path) => path is None,
        EventView::Identify(identity) => !(identity is Found),
        EventView::Connect(done) => !done,
        EventView::Call(reply) => reply is None,
        EventView::OpenProcess(done) => !done,
        EventView::ReadCwd(path) => path is None,
        EventView::ReadStarttime(starttime) => starttime is None,
        EventView::CreateTempfile(path) => path is None,
        EventView::RenderScript(done) => !done,
        EventView::Launch(pid) => pid is None,
    }
}

/// The first action that fails ends the program with an error; the one exception is a session whose
/// working directory does not exist, which is passed over.
pub proof fn law_failed_action_ends_the_program(state: ProgramView, event: EventView)
    requires
        state.awaits(event),
        is_failure(event),
    ensures
        state is Survey && event == EventView::Identify(Identity::NotFound) || (state.next(event) is Finished
            && state.next(event)->Finished_0 is Err),
{
}

/// A session whose working directory does not exist is not chosen, nor does it end the survey.
pub proof fn law_missing_directory_is_passed_over(survey: SurveyView, stage: Stage)
    requires
        stage is Directory,
    ensures
        (ProgramView::Survey { survey, stage }).next(EventView::Identify(Identity::NotFound)) == survey.resume(),
{
}

/// The program ends well only when KWin has stopped the activation script.
pub proof fn law_success_ends_the_activation(state: ProgramView, event: EventView)
    requires
        state.awaits(event),
        state.next(event) is Finished,
        state.next(event)->Finished_0 is Ok,
    ensures
        state == (ProgramView::Activate { activation: Activation::Stop }),
        replied_unit(event->Call_0) is Some,
{
}

/// Whether the program, in a survey, asks the present service, window, session or process for what it
/// waits for.
pub open spec fn asks_where_it_looks(progress: ProgramProgressView) -> bool {
    match progress {
        ProgressView::Pending(ProgramView::Survey { survey, stage }, action) => match stage {
            Stage::Windows => calls(
                action,
                survey.service_name,
                "/Windows"@,
                "org.freedesktop.DBus.Introspectable"@,
                "Introspect"@,
                BodyView::Empty,
            ),
            Stage::CurrentSession => calls(
                action,
                survey.service_name,
                "/Windows/"@ + survey.window_id,
                "org.kde.konsole.Window"@,
                "currentSession"@,
                BodyView::Empty,
            ),
            Stage::Sessions => calls(
                action,
                survey.service_name,
                "/Windows/"@ + survey.window_id,
                "org.kde.konsole.Window"@,
                "sessionList"@,
                BodyView::Empty,
            ),
            Stage::Process { session_id, inquiry } => match inquiry {
                ProcInquiry::Pid => calls(
                    action,
                    survey.service_name,
                    "/Sessions/"@ + decimal(session_id as int),
                    "org.kde.konsole.Session"@,
                    "processId"@,
                    BodyView::Empty,
                ),
                ProcInquiry::Handle { pid } => action == (ActionView::OpenProcess { pid }),
                ProcInquiry::Cwd { pid } => action == (ActionView::ReadCwd { pid }),
                ProcInquiry::Stat { .. } => action is ReadStarttime,
            },
            Stage::Directory { info, .. } => action == (ActionView::Identify { path: info.cwd }),
        },
        _ => true,
    }
}

proof fn lemma_resumed_survey_asks(survey: SurveyView)
    ensures
        asks_where_it_looks(survey.resume()),
{
}

/// At any time in a survey, the program asks the present service for its windows, the present window
/// for its current session and its sessions, the object of the present session for its process, and the
/// file system for the working directory of that.
pub proof fn law_survey_asks_where_it_looks(state: ProgramView, event: EventView)
    requires
        state.awaits(event),
    ensures
        asks_where_it_looks(state.next(event)),
{
    match state {
        ProgramView::Services { workdir, workdir_id } => {
            if let Some(services) = told_services(event->Call_0) {
                lemma_resumed_survey_asks(SurveyView::start(workdir, workdir_id, services));
            }
        },
        ProgramView::Survey { survey, stage } => {
            lemma_resumed_survey_asks(surveyed(survey, stage, event));
        },
        _ => {},
    }
}

/// Whether an action changes nothing: it only finds something out.
pub open spec fn is_question(action: ActionView) -> bool {
    match action {
        ActionView::Canonicalize { .. } => true,
        ActionView::Identify { .. } => true,
        ActionView::Connect => true,
        ActionView::Call { call } => {
            ||| call.member == "ListNames"@
            ||| call.member == "Introspect"@
            ||| call.member == "currentSession"@
            ||| call.member == "sessionList"@
            ||| call.member == "processId"@
        },
        ActionView::OpenProcess { .. } => true,
        ActionView::ReadCwd { .. } => true,
        ActionView::ReadStarttime { .. } => true,
        ActionView::CreateTempfile { .. } => false,
        ActionView::RenderScript { .. } => false,
        ActionView::Launch { .. } => false,
    }
}

proof fn lemma_resumed_survey_questions(survey: SurveyView)
    ensures
        survey.resume() is Pending,
        past_survey(survey.resume()) || is_question(survey.resume()->Pending_1),
{
}

/// Up to the end of the survey, the program only asks; it changes nothing.
pub proof fn law_survey_changes_nothing(workdir: PathBuf, state: ProgramView, event: EventView)
    requires
        state.awaits(event),
    ensures
        is_question(ProgramView::start(workdir)->Pending_1),
        past_survey(state.next(event)) || is_question(state.next(event)->Pending_1),
{
    match state {
        ProgramView::Services { workdir, workdir_id } => {
            if let Some(services) = told_services(event->Call_0) {
                lemma_resumed_survey_questions(SurveyView::start(workdir, workdir_id, services));
            }
        },
        ProgramView::Survey { survey, stage } => {
            lemma_resumed_survey_questions(surveyed(survey, stage, event));
        },
        _ => {},
    }
}

/// The first action after the survey is for what was chosen among all that the survey has seen. For a
/// session that is not current, its own window is called to make it current. For a session that is
/// current, the bus is called for the process of its own service. Without a session, the oldest window
/// itself is called to open one in the working directory; without a window, Konsole is launched there.
pub proof fn law_first_action_is_for_the_choice(workdir: PathBuf, events: Seq<EventView>)
    requires
        events.len() > 0,
        answered(workdir, events),
        !past_survey(run(workdir, events.drop_last())),
        past_survey(run(workdir, events)),
        run(workdir, events) is Pending,
    ensures
        ({
            let action = run(workdir, events)->Pending_1;
            match chosen_session(sessions_seen(workdir, workdir_identity(events), events)) {
                Some(session) => if session.is_current {
                    calls(
                        action,
                        "org.freedesktop.DBus"@,
                        "/"@,
                        "org.freedesktop.DBus"@,
                        "GetConnectionUnixProcessID"@,
                        BodyView::Str(session.service_name),
                    )
                } else {
                    calls(
                        action,
                        session.service_name,
                        "/Windows/"@ + session.window_id,
                        "org.kde.konsole.Window"@,
                        "setCurrentSession"@,
                        BodyView::Int(session.session_id),
                    )
                },
                None => match chosen_window(windows_seen(workdir, events)) {
                    Some(window) => calls(
                        action,
                        window.service_name,
                        "/Windows/"@ + window.window_id,
                        "org.kde.konsole.Window"@,
                        "newSession"@,
                        BodyView::StrPath(Seq::empty(), canonical(events)),
                    ),
                    None => action == (ActionView::Launch {
                        program: "konsole"@,
                        option: "--workdir"@,
                        directory: canonical(events),
                    }),
                },
            }
        }),
{
    lemma_remembers(workdir, events);
    reveal_strlit("");
    assert(""@ =~= Seq::<char>::empty());
}

/// Each failure tells the step that failed, and comes of that step alone: of a failed action, or of a
/// reply that does not hold what was asked for. In all other cases the program goes on, or has stopped
/// the activation script.
pub proof fn law_each_failure_tells_its_step(state: ProgramView, event: EventView)
    requires
        state.awaits(event),
    ensures
        ({
            let out = state.next(event);
            match state {
                ProgramView::Canonicalize => if event->Canonicalize_0 is None {
                    out == failed(Failure::CanonicalizeWorkdir)
                } else {
                    out is Pending
                },
                ProgramView::Identify { .. } => if !(event->Identify_0 is Found) {
                    out == failed(Failure::ConstructHandleFromWorkdir)
                } else {
                    out is Pending
                },
                ProgramView::Connect { .. } => if !event->Connect_0 {
                    out == failed(Failure::ConnectToSessionBus)
                } else {
                    out is Pending
                },
                ProgramView::Services { .. } => if replied_strs(event->Call_0) is None {
                    out == failed(Failure::ListServices)
                } else {
                    out is Pending
                },
                ProgramView::Survey { stage, .. } => match stage {
                    Stage::Windows => match replied_str(event->Call_0) {
                        None => out == failed(
                            Failure::ListWindows { source: ListWindowsFailure::GetIntrospection },
                        ),
                        Some(xml) => if child_names(xml) is None {
                            out == failed(Failure::ListWindows { source: ListWindowsFailure::ParseIntrospection })
                        } else {
                            out is Pending
                        },
                    },
                    Stage::CurrentSession => if replied_i32(event->Call_0) is None {
                        out == failed(Failure::GetCurrentSession)
                    } else {
                        out is Pending
                    },
                    Stage::Sessions => match replied_strs(event->Call_0) {
                        None => out == failed(
                            Failure::ListSessions { source: ListSessionsFailure::CallSessionList },
                        ),
                        Some(list) => if forall|k: int|
                            0 <= k < list.len() ==> parsed(#[trigger] list[k]) is Some {
                            out is Pending
                        } else {
                            out matches ProgressView::Finished(
                                Err(
                                    Failure::ListSessions { source: ListSessionsFailure::ParseSessionId { input } },
                                ),
                            ) && is_first_bad(list, input)
                        },
                    },
                    Stage::Process { inquiry, .. } => match inquiry {
                        ProcInquiry::Pid => if replied_i32(event->Call_0) is None {
                            out == failed(Failure::GetSessionProcInfo { source: GetSessionProcInfoFailure::Pid })
                        } else {
                            out is Pending
                        },
                        ProcInquiry::Handle { pid } => if !event->OpenProcess_0 {
                            out == failed(
                                Failure::GetSessionProcInfo { source: GetSessionProcInfoFailure::Handle { pid } },
                            )
                        } else {
                            out is Pending
                        },
                        ProcInquiry::Cwd { .. } => if event->ReadCwd_0 is None {
                            out == failed(Failure::GetSessionProcInfo { source: GetSessionProcInfoFailure::Cwd })
                        } else {
                            out is Pending
                        },
                        ProcInquiry::Stat { .. } => if event->ReadStarttime_0 is None {
                            out == failed(Failure::GetSessionProcInfo { source: GetSessionProcInfoFailure::Stat })
                        } else {
                            out is Pending
                        },
                    },
                    Stage::Directory { info, .. } => if event->Identify_0 is Failed {
                        out == failed(Failure::ConstructHandleFromPath { path: info.cwd })
                    } else {
                        out is Pending
                    },
                },
                ProgramView::Create { .. } => if replied_i32(event->Call_0) is None {
                    out == failed(Failure::CreateSession)
                } else {
                    out is Pending
                },
                ProgramView::Switch { .. } => if replied_unit(event->Call_0) is None {
                    out == failed(Failure::SetCurrentSession)
                } else {
                    out is Pending
                },
                ProgramView::Pid => if replied_u32(event->Call_0) is None {
                    out == failed(Failure::GetServicePid)
                } else {
                    out is Pending
                },
                ProgramView::Launch => if event->Launch_0 is None {
                    out == failed(Failure::LaunchKonsole)
                } else {
                    out is Pending
                },
                ProgramView::Activate { activation } => match activation {
                    Activation::Tempfile { .. } => if event->CreateTempfile_0 is None {
                        out == failed(Failure::ActivateWindows { source: ActivateWindowsFailure::CreateTempfile })
                    } else {
                        out is Pending
                    },
                    Activation::Render { .. } => if !event->RenderScript_0 {
                        out == failed(Failure::ActivateWindows { source: ActivateWindowsFailure::RenderTemplate })
                    } else {
                        out is Pending
                    },
                    Activation::Load => if replied_i32(event->Call_0) is None {
                        out == failed(Failure::ActivateWindows { source: ActivateWindowsFailure::LoadScript })
                    } else {
                        out is Pending
                    },
                    Activation::Run { .. } => if replied_unit(event->Call_0) is None {
                        out == failed(Failure::ActivateWindows { source: ActivateWindowsFailure::RunScript })
                    } else {
                        out is Pending
                    },
                    Activation::Stop => if replied_unit(event->Call_0) is None {
                        out == failed(Failure::ActivateWindows { source: ActivateWindowsFailure::StopScript })
                    } else {
                        out == ProgramProgressView::Finished(Ok(()))
                    },
                },
            }
        }),
{
    match state {
        ProgramView::Services { workdir, workdir_id } => {
            if let Some(services) = told_services(event->Call_0) {
                lemma_resumed_survey_questions(SurveyView::start(workdir, workdir_id, services));
            }
        },
        ProgramView::Survey { survey, stage } => {
            lemma_resumed_survey_questions(surveyed(survey, stage, event));
            if stage is Windows {
                law_windows_are_told_by_the_description(event->Call_0);
            }
            if stage is Sessions {
                law_told_sessions_are_the_integers_of_the_reply(event->Call_0);
            }
        },
        _ => {},
    }
}

/// Progress is shown with its state, its action and its result, but for the error at the bottom.
pub proof fn law_progress_is_shown_in_full(progress: ProgramProgress, failure: Failure)
    ensures
        failed(failure) == ProgramProgressView::Finished(Err(failure)),
        match progress {
            Progress::Pending(state, action) => progress_view(progress) == ProgramProgressView::Pending(state@, action@),
            Progress::Finished(Ok(_)) => progress_view(progress) == ProgramProgressView::Finished(Ok(())),
            Progress::Finished(Err(e)) => progress_view(progress) == ProgramProgressView::Finished(Err(e@)),
        },
{
}

/// The program starts by resolving the path of the working directory that was asked for.
pub proof fn law_program_starts_with_the_working_directory(cli: Cli, begun: ProgramProgress)
    requires
        call_ensures(start, (cli,), begun),
    ensures
        begun == ProgramProgress::Pending(Program::Canonicalize, Action::Canonicalize { path: cli.workdir }),
{
}

/// Outside of the survey, the program goes on in one way. It identifies the resolved directory, connects
/// to the bus and asks for the names on it. A window that has opened a session makes that session
/// current; then the bus is asked for the process of the service of the window. The windows of the
/// process that the bus tells, or that was launched, are activated.
pub proof fn law_program_goes_on_step_by_step(program: Program, event: Event, res: ProgramProgress)
    requires
        program@.awaits(event@),
        call_ensures(Program::step, (program, event), res),
    ensures
        match (program, event) {
            (Program::Canonicalize, Event::Canonicalize(Ok(workdir))) => res == ProgramProgress::Pending(
                Program::Identify { workdir },
                Action::Identify { path: workdir },
            ),
            (Program::Identify { workdir }, Event::Identify(Ok(workdir_id))) => res == ProgramProgress::Pending(
                Program::Connect { workdir, workdir_id },
                Action::Connect,
            ),
            (Program::Connect { workdir, workdir_id }, Event::Connect(Ok(_))) => {
                res matches Progress::Pending(state, Action::Call { call }) && state == (Program::Services {
                    workdir,
                    workdir_id,
                }) && goes_to(
                    call,
                    "org.freedesktop.DBus"@,
                    "/org/freedesktop/DBus"@,
                    "org.freedesktop.DBus"@,
                    "ListNames"@,
                ) && call.body is Empty
            },
            (Program::Create { window }, Event::Call(Ok(held))) => match held_i32(held@) {
                Some(session_id) => {
                    res matches Progress::Pending(Program::Switch { service_name }, Action::Call { call })
                        && service_name@ == window.service_name@ && goes_to(
                        call,
                        window.service_name@,
                        "/Windows/"@ + window.window_id@,
                        "org.kde.konsole.Window"@,
                        "setCurrentSession"@,
                    ) && call.body == Body::Int(session_id)
                },
                None => res matches Progress::Finished(Err(ProgramError::CreateSession { source })) && refused_i32(held, source),
            },
            (Program::Switch { service_name }, Event::Call(Ok(held))) => if held.signature@.len() == 0 {
                res matches Progress::Pending(Program::Pid, Action::Call { call }) && goes_to(
                    call,
                    "org.freedesktop.DBus"@,
                    "/"@,
                    "org.freedesktop.DBus"@,
                    "GetConnectionUnixProcessID"@,
                ) && (call.body matches Body::Str(name) && name@ == service_name@)
            } else {
                res matches Progress::Finished(Err(ProgramError::SetCurrentSession { source })) && refused_unit(
                    held,
                    source,
                )
            },
            (Program::Pid, Event::Call(Ok(held))) => match held_u32(held@) {
                Some(pid) => begins_to_activate(res, pid),
                None => res matches Progress::Finished(Err(ProgramError::GetServicePid { source })) && refused_u32(held, source),
            },
            (Program::Launch, Event::Launch(Ok(pid))) => begins_to_activate(res, pid),
            _ => true,
        },
{
    if let Event::Call(Ok(held)) = event {
        law_a_call_brings_back_what_its_reply_holds(held@);
    }
}

/// Whether the program begins to activate the windows of a process.
pub open spec fn begins_to_activate(progress: ProgramProgress, pid: u32) -> bool {
    progress matches Progress::Pending(state, Action::CreateTempfile { prefix }) && state == (Program::Activate {
        activation: Activation::Tempfile { pid },
    }) && prefix@ == ".konsoleat-"@
}

/// The error that the program ends with holds the error that the last event brings; or, where the event
/// brings a reply, the one that the attempt to read the reply for what it was asked for gives.
pub proof fn law_program_error_is_that_of_the_last_event(program: Program, event: Event, e: ProgramError)
    requires
        program@.awaits(event@),
        call_ensures(Program::step, (program, event), ProgramProgress::Finished(Err(e))),
    ensures
        match e {
            ProgramError::CanonicalizeWorkdir { source } => event == Event::Canonicalize(Err(source)),
            ProgramError::ConstructHandleFromWorkdir { source } => event matches Event::Identify(Err(f)) && source
                == f.source,
            ProgramError::ConnectToSessionBus { source } => event == Event::Connect(Err(source)),
            ProgramError::ListServices { source } => match event {
                Event::Call(Ok(held)) => refused_strs(held, source),
                Event::Call(Err(e)) => source == e,
                _ => false,
            },
            ProgramError::ListWindows { source: ListWindowsError::GetIntrospection { source } } => match event {
                Event::Call(Ok(held)) => refused_str(held, source),
                Event::Call(Err(e)) => source == e,
                _ => false,
            },
            ProgramError::ListWindows { source: ListWindowsError::ParseIntrospection { source } } => {
                event matches Event::Call(Ok(held)) && held_str(held@) is Some && refused_xml(
                    held_str(held@)->Some_0,
                    source,
                )
            },
            ProgramError::GetCurrentSession { source } => match event {
                Event::Call(Ok(held)) => refused_i32(held, source),
                Event::Call(Err(e)) => source == e,
                _ => false,
            },
            ProgramError::ListSessions { source: ListSessionsError::CallSessionList { source } } => match event {
                Event::Call(Ok(held)) => refused_strs(held, source),
                Event::Call(Err(e)) => source == e,
                _ => false,
            },
            ProgramError::ListSessions { source: ListSessionsError::ParseSessionId { source, input } } => refused_text(
                input@,
                source,
            ),
            ProgramError::GetSessionProcInfo { source: GetSessionProcInfoError::Pid { source } } => match event {
                Event::Call(Ok(held)) => refused_i32(held, source),
                Event::Call(Err(e)) => source == e,
                _ => false,
            },
            ProgramError::GetSessionProcInfo { source: GetSessionProcInfoError::Handle { source, .. } } => event
                == Event::OpenProcess(Err(source)),
            ProgramError::GetSessionProcInfo { source: GetSessionProcInfoError::Cwd { source } } => event
                == Event::ReadCwd(Err(source)),
            ProgramError::GetSessionProcInfo { source: GetSessionProcInfoError::Stat { source } } => event
                == Event::ReadStarttime(Err(source)),
            ProgramError::ConstructHandleFromPath { source, .. } => event matches Event::Identify(Err(f)) && source
                == f.source,
            ProgramError::SetCurrentSession { source } => match event {
                Event::Call(Ok(held)) => refused_unit(held, source),
                Event::Call(Err(e)) => source == e,
                _ => false,
            },
            ProgramError::GetServicePid { source } => match event {
                Event::Call(Ok(held)) => refused_u32(held, source),
                Event::Call(Err(e)) => source == e,
                _ => false,
            },
            ProgramError::ActivateWindows { source: ActivateWindowsError::CreateTempfile { source } } => event
                == Event::CreateTempfile(Err(source)),
            ProgramError::ActivateWindows { source: ActivateWindowsError::RenderTemplate { source } } => event
                == Event::RenderScript(Err(source)),
            ProgramError::ActivateWindows { source: ActivateWindowsError::LoadScript { source } } => match event {
                Event::Call(Ok(held)) => refused_i32(held, source),
                Event::Call(Err(e)) => source == e,
                _ => false,
            },
            ProgramError::ActivateWindows { source: ActivateWindowsError::RunScript { source } } => match event {
                Event::Call(Ok(held)) => refused_unit(held, source),
                Event::Call(Err(e)) => source == e,
                _ => false,
            },
            ProgramError::ActivateWindows { source: ActivateWindowsError::StopScript { source } } => match event {
                Event::Call(Ok(held)) => refused_unit(held, source),
                Event::Call(Err(e)) => source == e,
                _ => false,
            },
            ProgramError::CreateSession { source } => match event {
                Event::Call(Ok(held)) => refused_i32(held, source),
                Event::Call(Err(e)) => source == e,
                _ => false,
            },
            ProgramError::LaunchKonsole { source } => event == Event::Launch(Err(source)),
        },
{
}

/// An error of the program is shown as the failure of its name, with all that it holds but the error at the
/// bottom.
pub proof fn law_errors_are_shown_by_their_name(e: ProgramError)
    ensures
        match e {
            ProgramError::CanonicalizeWorkdir { .. } => e@ == Failure::CanonicalizeWorkdir,
            ProgramError::ConstructHandleFromWorkdir { .. } => e@ == Failure::ConstructHandleFromWorkdir,
            ProgramError::ConnectToSessionBus { .. } => e@ == Failure::ConnectToSessionBus,
            ProgramError::ListServices { .. } => e@ == Failure::ListServices,
            ProgramError::ListWindows { source } => e@ == (Failure::ListWindows {
                source: match source {
                    ListWindowsError::GetIntrospection { .. } => ListWindowsFailure::GetIntrospection,
                    ListWindowsError::ParseIntrospection { .. } => ListWindowsFailure::ParseIntrospection,
                },
            }),
            ProgramError::GetCurrentSession { .. } => e@ == Failure::GetCurrentSession,
            ProgramError::ListSessions { source } => e@ == (Failure::ListSessions {
                source: match source {
                    ListSessionsError::CallSessionList { .. } => ListSessionsFailure::CallSessionList,
                    ListSessionsError::ParseSessionId { input, .. } => ListSessionsFailure::ParseSessionId {
                        input: input@,
                    },
                },
            }),
            ProgramError::GetSessionProcInfo { source } => e@ == (Failure::GetSessionProcInfo {
                source: match source {
                    GetSessionProcInfoError::Pid { .. } => GetSessionProcInfoFailure::Pid,
                    GetSessionProcInfoError::Handle { pid, .. } => GetSessionProcInfoFailure::Handle { pid },
                    GetSessionProcInfoError::Cwd { .. } => GetSessionProcInfoFailure::Cwd,
                    GetSessionProcInfoError::Stat { .. } => GetSessionProcInfoFailure::Stat,
                },
            }),
            ProgramError::ConstructHandleFromPath { path, .. } => e@ == (Failure::ConstructHandleFromPath { path }),
            ProgramError::SetCurrentSession { .. } => e@ == Failure::SetCurrentSession,
            ProgramError::GetServicePid { .. } => e@ == Failure::GetServicePid,
            ProgramError::ActivateWindows { source } => e@ == (Failure::ActivateWindows {
                source: match source {
                    ActivateWindowsError::CreateTempfile { .. } => ActivateWindowsFailure::CreateTempfile,
                    ActivateWindowsError::RenderTemplate { .. } => ActivateWindowsFailure::RenderTemplate,
                    ActivateWindowsError::LoadScript { .. } => ActivateWindowsFailure::LoadScript,
                    ActivateWindowsError::RunScript { .. } => ActivateWindowsFailure::RunScript,
                    ActivateWindowsError::StopScript { .. } => ActivateWindowsFailure::StopScript,
                },
            }),
            ProgramError::CreateSession { .. } => e@ == Failure::CreateSession,
            ProgramError::LaunchKonsole { .. } => e@ == Failure::LaunchKonsole,
        },
{
}

/// A survey is shown with all that it holds.
pub proof fn law_surveys_are_shown_in_full(survey: Survey)
    ensures
        survey@.workdir == survey.workdir,
        survey@.workdir_id == survey.workdir_id,
        match survey.oldest_window {
            Some(window) => survey@.oldest_window == Some(window@),
            None => survey@.oldest_window is None,
        },
        match survey.best_session {
            Some(session) => survey@.best_session == Some(session@),
            None => survey@.best_session is None,
        },
        survey@.services.len() == survey.services@.len(),
        forall|k: int| 0 <= k < survey.services@.len() ==> #[trigger] survey@.services[k] == survey.services@[k]@,
        survey@.service_name == survey.service_name@,
        survey@.windows.len() == survey.windows@.len(),
        forall|k: int| 0 <= k < survey.windows@.len() ==> #[trigger] survey@.windows[k] == survey.windows@[k]@,
        survey@.window_id == survey.window_id@,
        survey@.current_session == survey.current_session,
        survey@.sessions == survey.sessions@,
{
}

} // verus!

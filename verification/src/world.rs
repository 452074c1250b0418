//! What the program does in surroundings that answer every action.
use crate::activate_windows::{
    activation_start, load_script_request, run_script_request, stop_script_request,
};
use crate::candidate::{better_session, better_window, chosen_session, chosen_window, SessionCandidate, WindowCandidate};
use crate::dbus::{held_i32, held_u32, replied_i32, replied_u32, replied_unit, BodyView, CallView, ReplyView};
use crate::exchange::{ActionView, EventView, FileId, Identity, ProgressView};
use crate::history::is_question;
use crate::konsole::{
    current_session_request, new_session_request, service_pid_request, services_request, session_pid_request,
    sessions_request, set_current_session_request, told_services, told_sessions, told_windows, windows_request,
};
use crate::program::{activating, calling, verdict, ProgramProgressView, ProgramView, SurveyView};
use crate::session::SessionProcInfo;
use crate::text::{decimal, lemma_filter_picks, picked};
use std::path::PathBuf;
use vstd::prelude::*;

verus! {

/// Surroundings that answer the same action in the same way each time.
pub struct World {
    /// The canonical form of each path.
    pub canonical: spec_fn(PathBuf) -> PathBuf,
    /// The identity of the file at each path, where there is a file.
    pub identity: spec_fn(PathBuf) -> Option<FileId>,
    /// The reply to each method call.
    pub reply: spec_fn(CallView) -> ReplyView,
    /// The working directory of each process.
    pub cwd: spec_fn(i32) -> PathBuf,
    /// The start time of each process.
    pub starttime: spec_fn(i32) -> u64,
    /// The path of a new temporary file.
    pub tempfile: PathBuf,
    /// The process ID of a newly launched program.
    pub launched: u32,
}

impl World {
    /// How an action goes.
    pub open spec fn answer(self, action: ActionView) -> EventView {
        match action {
            ActionView::Canonicalize { path } => EventView::Canonicalize(Some((self.canonical)(path))),
            ActionView::Identify { path } => EventView::Identify(
                match (self.identity)(path) {
                    Some(id) => Identity::Found(id),
                    None => Identity::NotFound,
                },
            ),
            ActionView::Connect => EventView::Connect(true),
            ActionView::Call { call } => EventView::Call(self.told(call)),
            ActionView::OpenProcess { .. } => EventView::OpenProcess(true),
            ActionView::ReadCwd { pid } => EventView::ReadCwd(Some((self.cwd)(pid))),
            ActionView::ReadStarttime { pid } => EventView::ReadStarttime(Some((self.starttime)(pid))),
            ActionView::CreateTempfile { .. } => EventView::CreateTempfile(Some(self.tempfile)),
            ActionView::RenderScript { .. } => EventView::RenderScript(true),
            ActionView::Launch { .. } => EventView::Launch(Some(self.launched)),
        }
    }

    /// The outcome of a method call.
    pub open spec fn told(self, call: CallView) -> Option<ReplyView> {
        Some((self.reply)(call))
    }

    /// The Konsole services.
    pub open spec fn services(self) -> Seq<Seq<char>> {
        told_services(self.told(services_request()))->Some_0
    }

    /// The windows of a service.
    pub open spec fn windows(self, service_name: Seq<char>) -> Seq<Seq<char>> {
        told_windows(self.told(windows_request(service_name)))->Ok_0
    }

    /// The current session of a window.
    pub open spec fn current_session(self, service_name: Seq<char>, window_id: Seq<char>) -> i32 {
        replied_i32(self.told(current_session_request(service_name, window_id)))->Some_0
    }

    /// The sessions of a window.
    pub open spec fn sessions(self, service_name: Seq<char>, window_id: Seq<char>) -> Seq<i32> {
        told_sessions(self.told(sessions_request(service_name, window_id)))->Ok_0
    }

    /// What is to be known of the process of a session.
    pub open spec fn info(self, service_name: Seq<char>, session_id: i32) -> SessionProcInfo {
        let pid = replied_i32(self.told(session_pid_request(service_name, session_id)))->Some_0;
        SessionProcInfo { cwd: (self.cwd)(pid), starttime: (self.starttime)(pid) }
    }

    /// Whether the replies of a window and of its service, as far as they concern its sessions, can be
    /// read.
    pub open spec fn window_is_readable(self, service_name: Seq<char>, window_id: Seq<char>) -> bool {
        &&& replied_i32(self.told(current_session_request(service_name, window_id))) is Some
        &&& told_sessions(self.told(sessions_request(service_name, window_id))) is Ok
        &&& forall|k: int|
            0 <= k < self.sessions(service_name, window_id).len() ==> self.session_is_readable(
                service_name,
                #[trigger] self.sessions(service_name, window_id)[k],
            )
    }

    /// Whether the reply with the process ID of a session can be read.
    pub open spec fn session_is_readable(self, service_name: Seq<char>, session_id: i32) -> bool {
        replied_i32(self.told(session_pid_request(service_name, session_id))) is Some
    }

    /// Whether the replies of a service and of its windows can be read.
    pub open spec fn service_is_readable(self, service_name: Seq<char>) -> bool {
        &&& told_windows(self.told(windows_request(service_name))) is Ok
        &&& forall|k: int|
            0 <= k < self.windows(service_name).len() ==> self.window_is_readable(
                service_name,
                #[trigger] self.windows(service_name)[k],
            )
    }

    /// Whether the replies to everything that a survey asks can be read.
    pub open spec fn is_readable(self) -> bool {
        &&& told_services(self.told(services_request())) is Some
        &&& forall|k: int| 0 <= k < self.services().len() ==> self.service_is_readable(#[trigger] self.services()[k])
    }

    /// The candidates for the oldest window among some sessions of a window.
    pub open spec fn window_candidates_of_sessions(
        self,
        service_name: Seq<char>,
        window_id: Seq<char>,
        sessions: Seq<i32>,
    ) -> Seq<WindowCandidate> {
        sessions.map_values(
            |session_id: i32|
                WindowCandidate {
                    service_name,
                    window_id,
                    starttime: self.info(service_name, session_id).starttime,
                },
        )
    }

    /// The candidates for the oldest window among some windows of a service.
    pub open spec fn window_candidates_of_windows(
        self,
        service_name: Seq<char>,
        windows: Seq<Seq<char>>,
    ) -> Seq<WindowCandidate>
        decreases windows.len(),
    {
        if windows.len() == 0 {
            Seq::empty()
        } else {
            self.window_candidates_of_sessions(service_name, windows[0], self.sessions(service_name, windows[0]))
                + self.window_candidates_of_windows(service_name, windows.drop_first())
        }
    }

    /// The candidates for the oldest window among some services.
    pub open spec fn window_candidates_of_services(self, services: Seq<Seq<char>>) -> Seq<WindowCandidate>
        decreases services.len(),
    {
        if services.len() == 0 {
            Seq::empty()
        } else {
            self.window_candidates_of_windows(services[0], self.windows(services[0]))
                + self.window_candidates_of_services(services.drop_first())
        }
    }

    /// All candidates for the oldest window: one for each session of each window of each service.
    pub open spec fn window_candidates(self) -> Seq<WindowCandidate> {
        self.window_candidates_of_services(self.services())
    }

    /// A session as a candidate for the best session.
    pub open spec fn candidate(self, service_name: Seq<char>, window_id: Seq<char>, session_id: i32) -> SessionCandidate {
        SessionCandidate {
            service_name,
            window_id,
            session_id,
            is_current: session_id == self.current_session(service_name, window_id),
            starttime: self.info(service_name, session_id).starttime,
        }
    }

    /// Whether the process of a session works in the directory with an identity.
    pub open spec fn works_in(self, id: FileId, service_name: Seq<char>, session_id: i32) -> bool {
        (self.identity)(self.info(service_name, session_id).cwd) == Some(id)
    }

    /// The candidates for the best session among some sessions of a window: those that work in the
    /// directory with an identity.
    pub open spec fn session_candidates_of_sessions(
        self,
        id: FileId,
        service_name: Seq<char>,
        window_id: Seq<char>,
        sessions: Seq<i32>,
    ) -> Seq<SessionCandidate> {
        sessions.filter(|session_id: i32| self.works_in(id, service_name, session_id)).map_values(
            |session_id: i32| self.candidate(service_name, window_id, session_id),
        )
    }

    /// The candidates for the best session among some windows of a service.
    pub open spec fn session_candidates_of_windows(
        self,
        id: FileId,
        service_name: Seq<char>,
        windows: Seq<Seq<char>>,
    ) -> Seq<SessionCandidate>
        decreases windows.len(),
    {
        if windows.len() == 0 {
            Seq::empty()
        } else {
            self.session_candidates_of_sessions(
                id,
                service_name,
                windows[0],
                self.sessions(service_name, windows[0]),
            ) + self.session_candidates_of_windows(id, service_name, windows.drop_first())
        }
    }

    /// The candidates for the best session among some services.
    pub open spec fn session_candidates_of_services(self, id: FileId, services: Seq<Seq<char>>) -> Seq<SessionCandidate>
        decreases services.len(),
    {
        if services.len() == 0 {
            Seq::empty()
        } else {
            self.session_candidates_of_windows(id, services[0], self.windows(services[0]))
                + self.session_candidates_of_services(id, services.drop_first())
        }
    }

    /// All candidates for the best session: those of the sessions of the windows of the services that
    /// work in the directory with an identity.
    pub open spec fn session_candidates(self, id: FileId) -> Seq<SessionCandidate> {
        self.session_candidates_of_services(id, self.services())
    }

    /// How far the program comes from a point in some steps.
    pub open spec fn drive(self, progress: ProgramProgressView, steps: nat) -> ProgramProgressView
        decreases steps,
    {
        if steps == 0 {
            progress
        } else {
            match progress {
                ProgressView::Pending(state, action) => self.drive(
                    state.next(self.answer(action)),
                    (steps - 1) as nat,
                ),
                ProgressView::Finished(result) => ProgressView::Finished(result),
            }
        }
    }

    /// Whether the program only asks, and changes nothing, for some steps from a point.
    pub open spec fn only_asks(self, progress: ProgramProgressView, steps: nat) -> bool
        decreases steps,
    {
        steps > 0 ==> match progress {
            ProgressView::Pending(state, action) => is_question(action) && self.only_asks(
                state.next(self.answer(action)),
                (steps - 1) as nat,
            ),
            ProgressView::Finished(_) => true,
        }
    }

    /// The actions that the program performs in some steps from a point.
    pub open spec fn trail(self, progress: ProgramProgressView, steps: nat) -> Seq<ActionView>
        decreases steps,
    {
        if steps == 0 {
            Seq::empty()
        } else {
            match progress {
                ProgressView::Pending(state, action) => seq![action] + self.trail(
                    state.next(self.answer(action)),
                    (steps - 1) as nat,
                ),
                ProgressView::Finished(_) => Seq::empty(),
            }
        }
    }

    /// Whether the program comes from one point to another, and only asks on the way.
    pub open spec fn asks(self, from: ProgramProgressView, to: ProgramProgressView) -> bool {
        exists|steps: nat| #[trigger] self.only_asks(from, steps) && self.drive(from, steps) == to
    }

    /// Whether the program comes from one point to another.
    pub open spec fn leads(self, from: ProgramProgressView, to: ProgramProgressView) -> bool {
        exists|steps: nat| #[trigger] self.drive(from, steps) == to
    }
}

/// The better of a window and the choice among more windows.
spec fn window_after(best: Option<WindowCandidate>, more: Seq<WindowCandidate>) -> Option<WindowCandidate>
    decreases more.len(),
{
    if more.len() == 0 {
        best
    } else {
        window_after(better_window(best, more[0]), more.drop_first())
    }
}

/// The better of a session and the choice among more sessions.
spec fn session_after(best: Option<SessionCandidate>, more: Seq<SessionCandidate>) -> Option<SessionCandidate>
    decreases more.len(),
{
    if more.len() == 0 {
        best
    } else {
        session_after(better_session(best, more[0]), more.drop_first())
    }
}

proof fn lemma_window_after_splits(best: Option<WindowCandidate>, a: Seq<WindowCandidate>, b: Seq<WindowCandidate>)
    ensures
        window_after(best, a + b) == window_after(window_after(best, a), b),
    decreases a.len(),
{
    if a.len() == 0 {
        assert(a + b =~= b);
    } else {
        assert((a + b).drop_first() =~= a.drop_first() + b);
        lemma_window_after_splits(better_window(best, a[0]), a.drop_first(), b);
    }
}

proof fn lemma_session_after_splits(best: Option<SessionCandidate>, a: Seq<SessionCandidate>, b: Seq<SessionCandidate>)
    ensures
        session_after(best, a + b) == session_after(session_after(best, a), b),
    decreases a.len(),
{
    if a.len() == 0 {
        assert(a + b =~= b);
    } else {
        assert((a + b).drop_first() =~= a.drop_first() + b);
        lemma_session_after_splits(better_session(best, a[0]), a.drop_first(), b);
    }
}

proof fn lemma_window_after_is_choice(candidates: Seq<WindowCandidate>)
    ensures
        window_after(None, candidates) == chosen_window(candidates),
    decreases candidates.len(),
{
    if candidates.len() > 0 {
        let last = seq![candidates.last()];
        assert(candidates =~= candidates.drop_last() + last);
        lemma_window_after_splits(None, candidates.drop_last(), last);
        lemma_window_after_is_choice(candidates.drop_last());
        reveal_with_fuel(window_after, 2);
    }
}

proof fn lemma_session_after_is_choice(candidates: Seq<SessionCandidate>)
    ensures
        session_after(None, candidates) == chosen_session(candidates),
    decreases candidates.len(),
{
    if candidates.len() > 0 {
        let last = seq![candidates.last()];
        assert(candidates =~= candidates.drop_last() + last);
        lemma_session_after_splits(None, candidates.drop_last(), last);
        lemma_session_after_is_choice(candidates.drop_last());
        reveal_with_fuel(session_after, 2);
    }
}

impl World {
    proof fn lemma_drive_adds(self, progress: ProgramProgressView, a: nat, b: nat)
        ensures
            self.drive(progress, a + b) == self.drive(self.drive(progress, a), b),
        decreases a,
    {
        if a > 0 {
            match progress {
                ProgressView::Pending(state, action) => {
                    self.lemma_drive_adds(state.next(self.answer(action)), (a - 1) as nat, b);
                },
                ProgressView::Finished(_) => {},
            }
        }
    }

    proof fn lemma_leads_on(self, x: ProgramProgressView, y: ProgramProgressView, z: ProgramProgressView)
        requires
            self.leads(x, y),
            self.leads(y, z),
        ensures
            self.leads(x, z),
    {
        let a = choose|steps: nat| #[trigger] self.drive(x, steps) == y;
        let b = choose|steps: nat| #[trigger] self.drive(y, steps) == z;
        self.lemma_drive_adds(x, a, b);
    }

    proof fn lemma_only_asks_adds(self, progress: ProgramProgressView, a: nat, b: nat)
        requires
            self.only_asks(progress, a),
            self.only_asks(self.drive(progress, a), b),
        ensures
            self.only_asks(progress, a + b),
        decreases a,
    {
        if a > 0 {
            match progress {
                ProgressView::Pending(state, action) => {
                    self.lemma_only_asks_adds(state.next(self.answer(action)), (a - 1) as nat, b);
                },
                ProgressView::Finished(_) => {},
            }
        }
    }

    proof fn lemma_asks_on(self, x: ProgramProgressView, y: ProgramProgressView, z: ProgramProgressView)
        requires
            self.asks(x, y),
            self.asks(y, z),
        ensures
            self.asks(x, z),
    {
        let a = choose|steps: nat| #[trigger] self.only_asks(x, steps) && self.drive(x, steps) == y;
        let b = choose|steps: nat| #[trigger] self.only_asks(y, steps) && self.drive(y, steps) == z;
        self.lemma_drive_adds(x, a, b);
        self.lemma_only_asks_adds(x, a, b);
    }

    /// The survey after a visit to the next session of the present window.
    spec fn after_session(self, survey: SurveyView) -> SurveyView {
        let session_id = survey.sessions[0];
        let info = self.info(survey.service_name, session_id);
        let rest = SurveyView { sessions: survey.sessions.drop_first(), ..survey };
        if self.works_in(survey.workdir_id, survey.service_name, session_id) {
            rest.with_process(info).with_directory(session_id, info, survey.workdir_id)
        } else {
            rest.with_process(info)
        }
    }

    proof fn lemma_session(self, survey: SurveyView)
        requires
            survey.sessions.len() > 0,
            self.session_is_readable(survey.service_name, survey.sessions[0]),
        ensures
            self.asks(survey.resume(), self.after_session(survey).resume()),
    {
        reveal_with_fuel(World::drive, 6);
        reveal_with_fuel(World::only_asks, 6);
        assert(self.only_asks(survey.resume(), 5));
        assert(self.drive(survey.resume(), 5) == self.after_session(survey).resume());
    }

    /// The survey after visits to all sessions of the present window.
    spec fn after_sessions(self, survey: SurveyView) -> SurveyView {
        SurveyView {
            sessions: Seq::empty(),
            oldest_window: window_after(
                survey.oldest_window,
                self.window_candidates_of_sessions(survey.service_name, survey.window_id, survey.sessions),
            ),
            best_session: session_after(
                survey.best_session,
                self.session_candidates_of_sessions(
                    survey.workdir_id,
                    survey.service_name,
                    survey.window_id,
                    survey.sessions,
                ),
            ),
            ..survey
        }
    }

    proof fn lemma_sessions(self, survey: SurveyView)
        requires
            survey.current_session == self.current_session(survey.service_name, survey.window_id),
            forall|k: int|
                0 <= k < survey.sessions.len() ==> self.session_is_readable(
                    survey.service_name,
                    #[trigger] survey.sessions[k],
                ),
        ensures
            self.asks(survey.resume(), self.after_sessions(survey).resume()),
        decreases survey.sessions.len(),
    {
        if survey.sessions.len() == 0 {
            reveal(Seq::filter);
            assert(self.after_sessions(survey) == survey) by {
                assert(survey.sessions =~= Seq::empty());
            }
            assert(self.only_asks(survey.resume(), 0));
            assert(self.drive(survey.resume(), 0) == survey.resume());
        } else {
            let next = self.after_session(survey);
            self.lemma_session(survey);
            self.lemma_sessions(next);
            assert(self.after_sessions(next) == self.after_sessions(survey)) by {
                self.lemma_candidates_of_first_session(survey);
            }
            self.lemma_asks_on(survey.resume(), next.resume(), self.after_sessions(survey).resume());
        }
    }

    proof fn lemma_candidates_of_first_session(self, survey: SurveyView)
        requires
            survey.sessions.len() > 0,
        ensures
            ({
                let (s, w, id) = (survey.service_name, survey.window_id, survey.workdir_id);
                let first = survey.sessions[0];
                let rest = survey.sessions.drop_first();
                let windows = self.window_candidates_of_sessions(s, w, survey.sessions);
                let sessions = self.session_candidates_of_sessions(id, s, w, survey.sessions);
                &&& windows.len() > 0
                &&& windows[0] == WindowCandidate {
                    service_name: s,
                    window_id: w,
                    starttime: self.info(s, first).starttime,
                }
                &&& windows.drop_first() == self.window_candidates_of_sessions(s, w, rest)
                &&& if self.works_in(id, s, first) {
                    &&& sessions.len() > 0
                    &&& sessions[0] == self.candidate(s, w, first)
                    &&& sessions.drop_first() == self.session_candidates_of_sessions(id, s, w, rest)
                } else {
                    sessions == self.session_candidates_of_sessions(id, s, w, rest)
                }
            }),
    {
        let (s, w, id) = (survey.service_name, survey.window_id, survey.workdir_id);
        let first = survey.sessions[0];
        let rest = survey.sessions.drop_first();
        assert(self.window_candidates_of_sessions(s, w, survey.sessions).drop_first()
            =~= self.window_candidates_of_sessions(s, w, rest));
        let fits = |session_id: i32| self.works_in(id, s, session_id);
        assert(survey.sessions =~= seq![first] + rest);
        Seq::filter_distributes_over_add(seq![first], rest, fits);
        assert(seq![first].filter(fits) =~= if fits(first) {
            seq![first]
        } else {
            Seq::empty()
        }) by {
            reveal_with_fuel(Seq::filter, 2);
            assert(seq![first].drop_last() =~= Seq::<i32>::empty());
        }
        let sessions = self.session_candidates_of_sessions(id, s, w, survey.sessions);
        if self.works_in(id, s, first) {
            assert(sessions.drop_first() =~= self.session_candidates_of_sessions(id, s, w, rest));
        } else {
            assert(sessions =~= self.session_candidates_of_sessions(id, s, w, rest));
        }
    }

    /// The survey after visits to all windows of the present service.
    spec fn after_windows(self, survey: SurveyView) -> SurveyView
        decreases survey.windows.len(),
    {
        if survey.windows.len() == 0 {
            survey
        } else {
            self.after_windows(self.after_sessions(self.in_first_window(survey)))
        }
    }

    /// The survey in the next window of the present service, when the sessions of that are known.
    spec fn in_first_window(self, survey: SurveyView) -> SurveyView {
        let window_id = survey.windows[0];
        SurveyView {
            windows: survey.windows.drop_first(),
            window_id,
            current_session: self.current_session(survey.service_name, window_id),
            sessions: self.sessions(survey.service_name, window_id),
            ..survey
        }
    }

    proof fn lemma_windows(self, survey: SurveyView)
        requires
            survey.sessions.len() == 0,
            forall|k: int|
                0 <= k < survey.windows.len() ==> self.window_is_readable(
                    survey.service_name,
                    #[trigger] survey.windows[k],
                ),
        ensures
            self.asks(survey.resume(), self.after_windows(survey).resume()),
            ({
                let after = self.after_windows(survey);
                &&& after.sessions.len() == 0
                &&& after.windows.len() == 0
                &&& after.services == survey.services
                &&& after.workdir == survey.workdir
                &&& after.workdir_id == survey.workdir_id
                &&& after.oldest_window == window_after(
                    survey.oldest_window,
                    self.window_candidates_of_windows(survey.service_name, survey.windows),
                )
                &&& after.best_session == session_after(
                    survey.best_session,
                    self.session_candidates_of_windows(survey.workdir_id, survey.service_name, survey.windows),
                )
            }),
        decreases survey.windows.len(),
    {
        if survey.windows.len() == 0 {
            assert(self.only_asks(survey.resume(), 0));
            assert(self.drive(survey.resume(), 0) == survey.resume());
        } else {
            let (s, id) = (survey.service_name, survey.workdir_id);
            let first = survey.windows[0];
            let entered = self.in_first_window(survey);
            let next = self.after_sessions(entered);
            assert(self.window_is_readable(s, first));
            reveal_with_fuel(World::drive, 3);
            reveal_with_fuel(World::only_asks, 3);
            assert(self.only_asks(survey.resume(), 2));
            assert(self.drive(survey.resume(), 2) == entered.resume());
            self.lemma_sessions(entered);
            self.lemma_asks_on(survey.resume(), entered.resume(), next.resume());
            assert(next.windows =~= survey.windows.drop_first());
            self.lemma_windows(next);
            self.lemma_asks_on(survey.resume(), next.resume(), self.after_windows(next).resume());
            lemma_window_after_splits(
                survey.oldest_window,
                self.window_candidates_of_sessions(s, first, self.sessions(s, first)),
                self.window_candidates_of_windows(s, next.windows),
            );
            lemma_session_after_splits(
                survey.best_session,
                self.session_candidates_of_sessions(id, s, first, self.sessions(s, first)),
                self.session_candidates_of_windows(id, s, next.windows),
            );
        }
    }

    proof fn lemma_services(self, survey: SurveyView)
        requires
            survey.sessions.len() == 0,
            survey.windows.len() == 0,
            forall|k: int| 0 <= k < survey.services.len() ==> self.service_is_readable(#[trigger] survey.services[k]),
        ensures
            self.asks(
                survey.resume(),
                verdict(
                    survey.workdir,
                    window_after(survey.oldest_window, self.window_candidates_of_services(survey.services)),
                    session_after(
                        survey.best_session,
                        self.session_candidates_of_services(survey.workdir_id, survey.services),
                    ),
                ),
            ),
        decreases survey.services.len(),
    {
        if survey.services.len() == 0 {
            assert(self.only_asks(survey.resume(), 0));
            assert(self.drive(survey.resume(), 0) == survey.resume());
        } else {
            let id = survey.workdir_id;
            let first = survey.services[0];
            let entered = SurveyView {
                services: survey.services.drop_first(),
                service_name: first,
                windows: self.windows(first),
                ..survey
            };
            let next = self.after_windows(entered);
            assert(self.service_is_readable(first));
            reveal_with_fuel(World::drive, 2);
            reveal_with_fuel(World::only_asks, 2);
            assert(self.only_asks(survey.resume(), 1));
            assert(self.drive(survey.resume(), 1) == entered.resume());
            self.lemma_windows(entered);
            self.lemma_asks_on(survey.resume(), entered.resume(), next.resume());
            self.lemma_services(next);
            lemma_window_after_splits(
                survey.oldest_window,
                self.window_candidates_of_windows(first, self.windows(first)),
                self.window_candidates_of_services(next.services),
            );
            lemma_session_after_splits(
                survey.best_session,
                self.session_candidates_of_windows(id, first, self.windows(first)),
                self.session_candidates_of_services(id, next.services),
            );
            self.lemma_asks_on(
                survey.resume(),
                next.resume(),
                verdict(
                    survey.workdir,
                    window_after(survey.oldest_window, self.window_candidates_of_services(survey.services)),
                    session_after(survey.best_session, self.session_candidates_of_services(id, survey.services)),
                ),
            );
        }
    }

    /// The process whose windows are to be activated: that of the service of the chosen session, or
    /// else of the chosen window, or else of a new Konsole.
    pub open spec fn target(
        self,
        oldest_window: Option<WindowCandidate>,
        best_session: Option<SessionCandidate>,
    ) -> u32 {
        match best_session {
            Some(session) => self.pid(session.service_name),
            None => match oldest_window {
                Some(window) => self.pid(window.service_name),
                None => self.launched,
            },
        }
    }

    /// The process ID of a service.
    pub open spec fn pid(self, service_name: Seq<char>) -> u32 {
        replied_u32(self.told(service_pid_request(service_name)))->Some_0
    }

    /// Whether the replies to everything that is asked after a survey can be read.
    pub open spec fn is_obliging(self) -> bool {
        &&& forall|s: Seq<char>| replied_u32(self.told(#[trigger] service_pid_request(s))) is Some
        &&& forall|s: Seq<char>, w: Seq<char>, id: i32|
            replied_unit(self.told(#[trigger] set_current_session_request(s, w, id))) is Some
        &&& forall|s: Seq<char>, w: Seq<char>, directory: PathBuf|
            replied_i32(self.told(#[trigger] new_session_request(s, w, directory))) is Some
        &&& forall|path: PathBuf| replied_i32(self.told(#[trigger] load_script_request(path))) is Some
        &&& forall|object: Seq<char>| replied_unit(self.told(#[trigger] run_script_request(object))) is Some
        &&& forall|object: Seq<char>| replied_unit(self.told(#[trigger] stop_script_request(object))) is Some
    }
}

/// A survey visits every session of every window of every service, in order, and the program then
/// goes by the choice among all of them. Up to then it only asks, and changes nothing.
pub proof fn law_program_reaches_its_verdict(world: World, workdir: PathBuf, id: FileId)
    requires
        world.is_readable(),
        (world.identity)((world.canonical)(workdir)) == Some(id),
    ensures
        world.leads(
            ProgramView::start(workdir),
            verdict(
                (world.canonical)(workdir),
                chosen_window(world.window_candidates()),
                chosen_session(world.session_candidates(id)),
            ),
        ),
        world.asks(
            ProgramView::start(workdir),
            verdict(
                (world.canonical)(workdir),
                chosen_window(world.window_candidates()),
                chosen_session(world.session_candidates(id)),
            ),
        ),
{
    let path = (world.canonical)(workdir);
    let start = ProgramView::start(workdir);
    let survey = SurveyView::start(path, id, world.services());
    let decided = verdict(
        path,
        chosen_window(world.window_candidates()),
        chosen_session(world.session_candidates(id)),
    );
    reveal_with_fuel(World::drive, 5);
    reveal_with_fuel(World::only_asks, 5);
    assert(world.only_asks(start, 4));
    assert(world.drive(start, 4) == survey.resume());
    world.lemma_services(survey);
    lemma_window_after_is_choice(world.window_candidates());
    lemma_session_after_is_choice(world.session_candidates(id));
    world.lemma_asks_on(start, survey.resume(), decided);
    let steps = choose|steps: nat| #[trigger] world.only_asks(start, steps) && world.drive(start, steps) == decided;
    assert(world.drive(start, steps) == decided);
}

/// After the verdict, the program activates the windows of the process that the verdict is for.
pub proof fn law_verdict_leads_to_activation(
    world: World,
    workdir: PathBuf,
    oldest_window: Option<WindowCandidate>,
    best_session: Option<SessionCandidate>,
)
    requires
        world.is_obliging(),
    ensures
        world.leads(
            verdict(workdir, oldest_window, best_session),
            activating(activation_start(world.target(oldest_window, best_session))),
        ),
{
    let from = verdict(workdir, oldest_window, best_session);
    let to = activating(activation_start(world.target(oldest_window, best_session)));
    reveal_with_fuel(World::drive, 4);
    match best_session {
        Some(session) => {
            if session.is_current {
                assert(world.drive(from, 1) == to);
            } else {
                assert(world.drive(from, 2) == to);
            }
        },
        None => {
            match oldest_window {
                Some(window) => {
                    assert(world.drive(from, 3) == to);
                },
                None => {
                    assert(world.drive(from, 1) == to);
                },
            }
        },
    }
}

/// In surroundings in which nothing fails, the program ends well: it looks through all sessions,
/// and activates the windows of the service with the best session in the working directory, or else
/// of the one with the oldest window, or else of a new Konsole.
pub proof fn law_program_activates_its_target(world: World, workdir: PathBuf, id: FileId)
    requires
        world.is_readable(),
        world.is_obliging(),
        (world.identity)((world.canonical)(workdir)) == Some(id),
    ensures
        world.leads(
            ProgramView::start(workdir),
            activating(
                activation_start(
                    world.target(
                        chosen_window(world.window_candidates()),
                        chosen_session(world.session_candidates(id)),
                    ),
                ),
            ),
        ),
        world.leads(ProgramView::start(workdir), ProgressView::Finished(Ok(()))),
{
    let start = ProgramView::start(workdir);
    let oldest_window = chosen_window(world.window_candidates());
    let best_session = chosen_session(world.session_candidates(id));
    let decided = verdict((world.canonical)(workdir), oldest_window, best_session);
    let activation = activating(activation_start(world.target(oldest_window, best_session)));
    law_program_reaches_its_verdict(world, workdir, id);
    law_verdict_leads_to_activation(world, (world.canonical)(workdir), oldest_window, best_session);
    world.lemma_leads_on(start, decided, activation);
    reveal_with_fuel(World::drive, 6);
    assert(world.drive(activation, 5) == ProgramProgressView::Finished(Ok(())));
    world.lemma_leads_on(start, activation, ProgressView::Finished(Ok(())));
}

/// The action that calls a member of an interface of an object at a destination.
pub open spec fn calling_action(
    destination: Seq<char>,
    path: Seq<char>,
    interface: Seq<char>,
    member: Seq<char>,
    body: BodyView,
) -> ActionView {
    ActionView::Call { call: CallView { destination, path, interface, member, body } }
}

/// The action that asks the bus for the process ID of a service.
pub open spec fn asking_pid(service_name: Seq<char>) -> ActionView {
    calling_action(
        "org.freedesktop.DBus"@,
        "/"@,
        "org.freedesktop.DBus"@,
        "GetConnectionUnixProcessID"@,
        BodyView::Str(service_name),
    )
}

/// The action that makes a session the current one of a window of a service.
pub open spec fn switching(service_name: Seq<char>, window_id: Seq<char>, session_id: i32) -> ActionView {
    calling_action(
        service_name,
        "/Windows/"@ + window_id,
        "org.kde.konsole.Window"@,
        "setCurrentSession"@,
        BodyView::Int(session_id),
    )
}

/// The action that opens a session in a window of a service, with the default profile.
pub open spec fn creating(service_name: Seq<char>, window_id: Seq<char>, directory: PathBuf) -> ActionView {
    calling_action(
        service_name,
        "/Windows/"@ + window_id,
        "org.kde.konsole.Window"@,
        "newSession"@,
        BodyView::StrPath(Seq::empty(), directory),
    )
}

impl World {
    /// The reply to a method call that is an action.
    pub open spec fn reply_to(self, action: ActionView) -> ReplyView {
        (self.reply)(action->call)
    }

    /// The actions that activate the windows of a process.
    pub open spec fn activation_of(self, pid: u32) -> Seq<ActionView> {
        let loading = calling_action(
            "org.kde.KWin"@,
            "/Scripting"@,
            "org.kde.kwin.Scripting"@,
            "loadScript"@,
            BodyView::Path(self.tempfile),
        );
        let object = "/Scripting/Script"@ + decimal(held_i32(self.reply_to(loading))->Some_0 as int);
        let script = "org.kde.kwin.Script"@;
        seq![
            ActionView::CreateTempfile { prefix: ".konsoleat-"@ },
            ActionView::RenderScript { file: self.tempfile, owner: pid },
            loading,
            calling_action("org.kde.KWin"@, object, script, "run"@, BodyView::Empty),
            calling_action("org.kde.KWin"@, object, script, "stop"@, BodyView::Empty),
        ]
    }

    /// The process of a service, as the bus tells it.
    pub open spec fn process_of(self, service_name: Seq<char>) -> u32 {
        held_u32(self.reply_to(asking_pid(service_name)))->Some_0
    }

    /// The actions that bring a session in a directory to the front: the best session there is, in its own
    /// window; else a new one in the oldest window; else one in a new Konsole. The windows that are
    /// activated are those of the process of the service of that window, or of the new Konsole.
    pub open spec fn closing_actions(
        self,
        directory: PathBuf,
        oldest_window: Option<WindowCandidate>,
        best_session: Option<SessionCandidate>,
    ) -> Seq<ActionView> {
        match best_session {
            Some(session) => {
                let asked = seq![asking_pid(session.service_name)] + self.activation_of(
                    self.process_of(session.service_name),
                );
                if session.is_current {
                    asked
                } else {
                    seq![switching(session.service_name, session.window_id, session.session_id)] + asked
                }
            },
            None => match oldest_window {
                Some(window) => {
                    let opening = creating(window.service_name, window.window_id, directory);
                    let session_id = held_i32(self.reply_to(opening))->Some_0;
                    seq![
                        opening,
                        switching(window.service_name, window.window_id, session_id),
                        asking_pid(window.service_name),
                    ] + self.activation_of(self.process_of(window.service_name))
                },
                None => seq![
                    ActionView::Launch { program: "konsole"@, option: "--workdir"@, directory },
                ] + self.activation_of(self.launched),
            },
        }
    }

    proof fn lemma_activation_trail(self, pid: u32)
        requires
            self.is_obliging(),
        ensures
            self.trail(activating(activation_start(pid)), 5) == self.activation_of(pid),
            self.drive(activating(activation_start(pid)), 5) == ProgramProgressView::Finished(Ok(())),
    {
        reveal_with_fuel(World::drive, 6);
        reveal_with_fuel(World::trail, 6);
        assert(self.trail(activating(activation_start(pid)), 5) =~= self.activation_of(pid));
    }

    proof fn lemma_trail_adds(self, progress: ProgramProgressView, a: nat, b: nat)
        ensures
            self.trail(progress, a + b) == self.trail(progress, a) + self.trail(self.drive(progress, a), b),
        decreases a,
    {
        if a > 0 {
            match progress {
                ProgressView::Pending(state, action) => {
                    let next = state.next(self.answer(action));
                    self.lemma_trail_adds(next, (a - 1) as nat, b);
                    assert(self.trail(progress, a + b) =~= self.trail(progress, a) + self.trail(
                        self.drive(progress, a),
                        b,
                    ));
                },
                ProgressView::Finished(_) => {
                    assert(self.trail(progress, a) + self.trail(self.drive(progress, a), b) =~= Seq::empty());
                },
            }
        } else {
            assert(self.trail(progress, 0) + self.trail(progress, b) =~= self.trail(progress, b));
        }
    }

    proof fn lemma_then_activates(
        self,
        from: ProgramProgressView,
        steps: nat,
        opening: Seq<ActionView>,
        pid: u32,
    )
        requires
            self.is_obliging(),
            self.drive(from, steps) == activating(activation_start(pid)),
            self.trail(from, steps) == opening,
        ensures
            self.trail(from, steps + 5) == opening + self.activation_of(pid),
            self.drive(from, steps + 5) == ProgramProgressView::Finished(Ok(())),
    {
        self.lemma_activation_trail(pid);
        self.lemma_trail_adds(from, steps, 5);
        self.lemma_drive_adds(from, steps, 5);
    }

    proof fn lemma_one_step(self, from: ProgramProgressView)
        requires
            from is Pending,
        ensures
            self.drive(from, 1) == from->Pending_0.next(self.answer(from->Pending_1)),
            self.trail(from, 1) == seq![from->Pending_1],
    {
        reveal_with_fuel(World::drive, 2);
        reveal_with_fuel(World::trail, 2);
        assert(self.trail(from, 1) =~= seq![from->Pending_1]);
    }

    proof fn lemma_pid_is_asked(self, service_name: Seq<char>)
        requires
            self.is_obliging(),
        ensures
            ({
                let from = calling(ProgramView::Pid, service_pid_request(service_name));
                &&& self.trail(from, 1) == seq![asking_pid(service_name)]
                &&& self.drive(from, 1) == activating(activation_start(self.process_of(service_name)))
            }),
    {
        let from = calling(ProgramView::Pid, service_pid_request(service_name));
        self.lemma_one_step(from);
    }

    proof fn lemma_session_is_switched_to(self, service_name: Seq<char>, window_id: Seq<char>, session_id: i32)
        requires
            self.is_obliging(),
        ensures
            ({
                let from = calling(
                    ProgramView::Switch { service_name },
                    set_current_session_request(service_name, window_id, session_id),
                );
                &&& self.trail(from, 2) == seq![
                    switching(service_name, window_id, session_id),
                    asking_pid(service_name),
                ]
                &&& self.drive(from, 2) == activating(activation_start(self.process_of(service_name)))
            }),
    {
        let from = calling(
            ProgramView::Switch { service_name },
            set_current_session_request(service_name, window_id, session_id),
        );
        self.lemma_one_step(from);
        self.lemma_pid_is_asked(service_name);
        self.lemma_trail_adds(from, 1, 1);
        self.lemma_drive_adds(from, 1, 1);
    }

    proof fn lemma_session_is_created(self, window: WindowCandidate, directory: PathBuf)
        requires
            self.is_obliging(),
        ensures
            ({
                let from = calling(
                    ProgramView::Create { window },
                    new_session_request(window.service_name, window.window_id, directory),
                );
                let opening = creating(window.service_name, window.window_id, directory);
                let session_id = held_i32(self.reply_to(opening))->Some_0;
                &&& self.trail(from, 3) == seq![
                    opening,
                    switching(window.service_name, window.window_id, session_id),
                    asking_pid(window.service_name),
                ]
                &&& self.drive(from, 3) == activating(activation_start(self.process_of(window.service_name)))
            }),
    {
        let from = calling(
            ProgramView::Create { window },
            new_session_request(window.service_name, window.window_id, directory),
        );
        let opening = creating(window.service_name, window.window_id, directory);
        let session_id = held_i32(self.reply_to(opening))->Some_0;
        reveal_strlit("");
        assert(""@ =~= Seq::<char>::empty());
        self.lemma_one_step(from);
        self.lemma_session_is_switched_to(window.service_name, window.window_id, session_id);
        self.lemma_trail_adds(from, 1, 2);
        self.lemma_drive_adds(from, 1, 2);
    }

    proof fn lemma_closing(
        self,
        workdir: PathBuf,
        oldest_window: Option<WindowCandidate>,
        best_session: Option<SessionCandidate>,
    )
        requires
            self.is_obliging(),
        ensures
            ({
                let from = verdict(workdir, oldest_window, best_session);
                let actions = self.closing_actions(workdir, oldest_window, best_session);
                &&& self.trail(from, actions.len()) == actions
                &&& self.drive(from, actions.len()) == ProgramProgressView::Finished(Ok(()))
            }),
    {
        let from = verdict(workdir, oldest_window, best_session);
        let actions = self.closing_actions(workdir, oldest_window, best_session);
        match best_session {
            Some(session) => {
                let service_name = session.service_name;
                let pid = self.process_of(service_name);
                if session.is_current {
                    self.lemma_pid_is_asked(service_name);
                    self.lemma_then_activates(from, 1, seq![asking_pid(service_name)], pid);
                } else {
                    let opening = seq![
                        switching(service_name, session.window_id, session.session_id),
                        asking_pid(service_name),
                    ];
                    self.lemma_session_is_switched_to(service_name, session.window_id, session.session_id);
                    self.lemma_then_activates(from, 2, opening, pid);
                    assert(actions =~= opening + self.activation_of(pid));
                }
            },
            None => match oldest_window {
                Some(window) => {
                    self.lemma_session_is_created(window, workdir);
                    self.lemma_then_activates(from, 3, self.trail(from, 3), self.process_of(window.service_name));
                },
                None => {
                    self.lemma_one_step(from);
                    self.lemma_then_activates(from, 1, self.trail(from, 1), self.launched);
                },
            },
        }
    }
}

/// In surroundings in which nothing fails, the program first asks, and changes nothing. Then it brings the
/// best session in the working directory to the front: it has that session made current by the very
/// window that listed it, unless it is so already. Without such a session, the oldest window opens one
/// in the working directory and makes it current; without a window, Konsole is launched there. In the
/// end the windows of the process of that service, or of the new Konsole, are activated by a script that
/// is rendered for that process, loaded from the file it was rendered to, run and stopped.
pub proof fn law_program_acts_for_its_choice(world: World, workdir: PathBuf, id: FileId)
    requires
        world.is_readable(),
        world.is_obliging(),
        (world.identity)((world.canonical)(workdir)) == Some(id),
    ensures
        ({
            let start = ProgramView::start(workdir);
            let actions = world.closing_actions(
                (world.canonical)(workdir),
                chosen_window(world.window_candidates()),
                chosen_session(world.session_candidates(id)),
            );
            exists|asked: nat| #[trigger]
                world.only_asks(start, asked) && world.trail(world.drive(start, asked), actions.len()) == actions
                    && world.drive(world.drive(start, asked), actions.len()) == ProgramProgressView::Finished(Ok(()))
        }),
{
    let path = (world.canonical)(workdir);
    let start = ProgramView::start(workdir);
    let oldest_window = chosen_window(world.window_candidates());
    let best_session = chosen_session(world.session_candidates(id));
    law_program_reaches_its_verdict(world, workdir, id);
    world.lemma_closing(path, oldest_window, best_session);
    let asked = choose|steps: nat| #[trigger]
        world.only_asks(start, steps) && world.drive(start, steps) == verdict(path, oldest_window, best_session);
    assert(world.only_asks(start, asked));
}

/// The program begins by resolving the working directory, identifying it, connecting to the bus and
/// asking for the names on it.
pub proof fn law_program_begins_with_the_directory_and_the_bus(world: World, workdir: PathBuf, id: FileId)
    requires
        (world.identity)((world.canonical)(workdir)) == Some(id),
    ensures
        world.trail(ProgramView::start(workdir), 4) == seq![
            ActionView::Canonicalize { path: workdir },
            ActionView::Identify { path: (world.canonical)(workdir) },
            ActionView::Connect,
            calling_action(
                "org.freedesktop.DBus"@,
                "/org/freedesktop/DBus"@,
                "org.freedesktop.DBus"@,
                "ListNames"@,
                BodyView::Empty,
            ),
        ],
{
    reveal_with_fuel(World::trail, 5);
}

/// A candidate for the oldest window stands for a session that a window of a service lists, and has the
/// start time of the process of that session; and each such session has one.
pub proof fn law_window_candidates_are_those_of_all_sessions(world: World, candidate: WindowCandidate)
    ensures
        world.window_candidates().contains(candidate) <==> exists|s: int, w: int, k: int|
            {
                let service_name = world.services()[s];
                let window_id = world.windows(service_name)[w];
                &&& 0 <= s < world.services().len()
                &&& 0 <= w < world.windows(service_name).len()
                &&& 0 <= k < world.sessions(service_name, window_id).len()
                &&& candidate.service_name == service_name
                &&& candidate.window_id == window_id
                &&& candidate.starttime == world.info(
                    service_name,
                    #[trigger] world.sessions(world.services()[s], world.windows(world.services()[s])[w])[k],
                ).starttime
            },
{
    world.lemma_window_candidates_of_services(world.services(), candidate);
}

/// A candidate for the best session is a session that a window of a service lists, and whose process works
/// in the directory; it has the service, the window and the ID under which it is listed, the start time
/// of its process, and it is current if the window says so. Each such session is a candidate.
pub proof fn law_session_candidates_are_those_in_the_directory(world: World, id: FileId, candidate: SessionCandidate)
    ensures
        world.session_candidates(id).contains(candidate) <==> exists|s: int, w: int, k: int|
            {
                let service_name = world.services()[s];
                let window_id = world.windows(service_name)[w];
                let session_id = #[trigger] world.sessions(
                    world.services()[s],
                    world.windows(world.services()[s])[w],
                )[k];
                &&& 0 <= s < world.services().len()
                &&& 0 <= w < world.windows(service_name).len()
                &&& 0 <= k < world.sessions(service_name, window_id).len()
                &&& (world.identity)(world.info(service_name, session_id).cwd) == Some(id)
                &&& candidate.service_name == service_name
                &&& candidate.window_id == window_id
                &&& candidate.session_id == session_id
                &&& candidate.is_current == (session_id == world.current_session(service_name, window_id))
                &&& candidate.starttime == world.info(service_name, session_id).starttime
            },
{
    world.lemma_session_candidates_of_services(id, world.services(), candidate);
}

impl World {
    /// Whether a candidate for the oldest window stands for a session of a window.
    spec fn stands_for(self, candidate: WindowCandidate, service_name: Seq<char>, window_id: Seq<char>, session_id: i32) -> bool {
        &&& candidate.service_name == service_name
        &&& candidate.window_id == window_id
        &&& candidate.starttime == self.info(service_name, session_id).starttime
    }

    /// Whether a candidate for the best session is a session of a window, and works in a directory.
    spec fn is_candidate(
        self,
        id: FileId,
        candidate: SessionCandidate,
        service_name: Seq<char>,
        window_id: Seq<char>,
        session_id: i32,
    ) -> bool {
        &&& self.works_in(id, service_name, session_id)
        &&& candidate == self.candidate(service_name, window_id, session_id)
    }

    proof fn lemma_window_candidates_of_windows(
        self,
        service_name: Seq<char>,
        windows: Seq<Seq<char>>,
        candidate: WindowCandidate,
    )
        ensures
            self.window_candidates_of_windows(service_name, windows).contains(candidate) <==> exists|w: int, k: int|
                {
                    &&& 0 <= w < windows.len()
                    &&& 0 <= k < self.sessions(service_name, windows[w]).len()
                    &&& self.stands_for(
                        candidate,
                        service_name,
                        windows[w],
                        #[trigger] self.sessions(service_name, windows[w])[k],
                    )
                },
        decreases windows.len(),
    {
        if windows.len() > 0 {
            let rest = windows.drop_first();
            let first = windows[0];
            let a = self.window_candidates_of_sessions(service_name, first, self.sessions(service_name, first));
            let b = self.window_candidates_of_windows(service_name, rest);
            self.lemma_window_candidates_of_windows(service_name, rest, candidate);
            lemma_contains_in_sum(a, b, candidate);
            if a.contains(candidate) {
                let k = choose|k: int| 0 <= k < a.len() && a[k] == candidate;
                assert(self.stands_for(candidate, service_name, windows[0], self.sessions(service_name, windows[0])[k]));
            }
            if b.contains(candidate) {
                let (w, k) = choose|w: int, k: int|
                    {
                        &&& 0 <= w < rest.len()
                        &&& 0 <= k < self.sessions(service_name, rest[w]).len()
                        &&& self.stands_for(
                            candidate,
                            service_name,
                            rest[w],
                            #[trigger] self.sessions(service_name, rest[w])[k],
                        )
                    };
                assert(rest[w] == windows[w + 1]);
                assert(self.stands_for(
                    candidate,
                    service_name,
                    windows[w + 1],
                    self.sessions(service_name, windows[w + 1])[k],
                ));
            }
            if exists|w: int, k: int|
                {
                    &&& 0 <= w < windows.len()
                    &&& 0 <= k < self.sessions(service_name, windows[w]).len()
                    &&& self.stands_for(
                        candidate,
                        service_name,
                        windows[w],
                        #[trigger] self.sessions(service_name, windows[w])[k],
                    )
                } {
                let (w, k) = choose|w: int, k: int|
                    {
                        &&& 0 <= w < windows.len()
                        &&& 0 <= k < self.sessions(service_name, windows[w]).len()
                        &&& self.stands_for(
                            candidate,
                            service_name,
                            windows[w],
                            #[trigger] self.sessions(service_name, windows[w])[k],
                        )
                    };
                if w == 0 {
                    assert(a[k] == candidate);
                } else {
                    assert(rest[w - 1] == windows[w]);
                    assert(self.stands_for(
                        candidate,
                        service_name,
                        rest[w - 1],
                        self.sessions(service_name, rest[w - 1])[k],
                    ));
                }
            }
        }
    }

    proof fn lemma_window_candidates_of_services(self, services: Seq<Seq<char>>, candidate: WindowCandidate)
        ensures
            self.window_candidates_of_services(services).contains(candidate) <==> exists|s: int, w: int, k: int|
                {
                    &&& 0 <= s < services.len()
                    &&& 0 <= w < self.windows(services[s]).len()
                    &&& 0 <= k < self.sessions(services[s], self.windows(services[s])[w]).len()
                    &&& self.stands_for(
                        candidate,
                        services[s],
                        self.windows(services[s])[w],
                        #[trigger] self.sessions(services[s], self.windows(services[s])[w])[k],
                    )
                },
        decreases services.len(),
    {
        if services.len() > 0 {
            let rest = services.drop_first();
            let first = services[0];
            let a = self.window_candidates_of_windows(first, self.windows(first));
            let b = self.window_candidates_of_services(rest);
            self.lemma_window_candidates_of_services(rest, candidate);
            self.lemma_window_candidates_of_windows(first, self.windows(first), candidate);
            lemma_contains_in_sum(a, b, candidate);
            if a.contains(candidate) {
                let (w, k) = choose|w: int, k: int|
                    {
                        &&& 0 <= w < self.windows(first).len()
                        &&& 0 <= k < self.sessions(first, self.windows(first)[w]).len()
                        &&& self.stands_for(
                            candidate,
                            first,
                            self.windows(first)[w],
                            #[trigger] self.sessions(first, self.windows(first)[w])[k],
                        )
                    };
                assert(self.stands_for(
                    candidate,
                    services[0],
                    self.windows(services[0])[w],
                    self.sessions(services[0], self.windows(services[0])[w])[k],
                ));
            }
            if b.contains(candidate) {
                let (s, w, k) = choose|s: int, w: int, k: int|
                    {
                        &&& 0 <= s < rest.len()
                        &&& 0 <= w < self.windows(rest[s]).len()
                        &&& 0 <= k < self.sessions(rest[s], self.windows(rest[s])[w]).len()
                        &&& self.stands_for(
                            candidate,
                            rest[s],
                            self.windows(rest[s])[w],
                            #[trigger] self.sessions(rest[s], self.windows(rest[s])[w])[k],
                        )
                    };
                assert(rest[s] == services[s + 1]);
                assert(self.stands_for(
                    candidate,
                    services[s + 1],
                    self.windows(services[s + 1])[w],
                    self.sessions(services[s + 1], self.windows(services[s + 1])[w])[k],
                ));
            }
            if exists|s: int, w: int, k: int|
                {
                    &&& 0 <= s < services.len()
                    &&& 0 <= w < self.windows(services[s]).len()
                    &&& 0 <= k < self.sessions(services[s], self.windows(services[s])[w]).len()
                    &&& self.stands_for(
                        candidate,
                        services[s],
                        self.windows(services[s])[w],
                        #[trigger] self.sessions(services[s], self.windows(services[s])[w])[k],
                    )
                } {
                let (s, w, k) = choose|s: int, w: int, k: int|
                    {
                        &&& 0 <= s < services.len()
                        &&& 0 <= w < self.windows(services[s]).len()
                        &&& 0 <= k < self.sessions(services[s], self.windows(services[s])[w]).len()
                        &&& self.stands_for(
                            candidate,
                            services[s],
                            self.windows(services[s])[w],
                            #[trigger] self.sessions(services[s], self.windows(services[s])[w])[k],
                        )
                    };
                if s == 0 {
                    assert(self.stands_for(
                        candidate,
                        first,
                        self.windows(first)[w],
                        self.sessions(first, self.windows(first)[w])[k],
                    ));
                } else {
                    assert(rest[s - 1] == services[s]);
                    assert(self.stands_for(
                        candidate,
                        rest[s - 1],
                        self.windows(rest[s - 1])[w],
                        self.sessions(rest[s - 1], self.windows(rest[s - 1])[w])[k],
                    ));
                }
            }
        }
    }

    proof fn lemma_session_candidates_of_windows(
        self,
        id: FileId,
        service_name: Seq<char>,
        windows: Seq<Seq<char>>,
        candidate: SessionCandidate,
    )
        ensures
            self.session_candidates_of_windows(id, service_name, windows).contains(candidate) <==> exists|w: int, k: int|
                {
                    &&& 0 <= w < windows.len()
                    &&& 0 <= k < self.sessions(service_name, windows[w]).len()
                    &&& self.is_candidate(
                        id,
                        candidate,
                        service_name,
                        windows[w],
                        #[trigger] self.sessions(service_name, windows[w])[k],
                    )
                },
        decreases windows.len(),
    {
        if windows.len() > 0 {
            let rest = windows.drop_first();
            let first = windows[0];
            let a = self.session_candidates_of_sessions(id, service_name, first, self.sessions(service_name, first));
            let b = self.session_candidates_of_windows(id, service_name, rest);
            self.lemma_session_candidates_of_windows(id, service_name, rest, candidate);
            lemma_contains_in_sum(a, b, candidate);
            let sessions = self.sessions(service_name, first);
            let fits = |session_id: i32| self.works_in(id, service_name, session_id);
            let at = lemma_filter_picks(sessions, fits);
            assert(picked(sessions, sessions.filter(fits), at));
            if a.contains(candidate) {
                let l = choose|l: int| 0 <= l < a.len() && a[l] == candidate;
                let k = at[l];
                assert(at.contains(at[l]));
                assert(fits(sessions[k]));
                assert(self.is_candidate(id, candidate, service_name, windows[0], self.sessions(service_name, windows[0])[k]));
            }
            if b.contains(candidate) {
                let (w, k) = choose|w: int, k: int|
                    {
                        &&& 0 <= w < rest.len()
                        &&& 0 <= k < self.sessions(service_name, rest[w]).len()
                        &&& self.is_candidate(
                            id,
                            candidate,
                            service_name,
                            rest[w],
                            #[trigger] self.sessions(service_name, rest[w])[k],
                        )
                    };
                assert(rest[w] == windows[w + 1]);
                assert(self.is_candidate(
                    id,
                    candidate,
                    service_name,
                    windows[w + 1],
                    self.sessions(service_name, windows[w + 1])[k],
                ));
            }
            if exists|w: int, k: int|
                {
                    &&& 0 <= w < windows.len()
                    &&& 0 <= k < self.sessions(service_name, windows[w]).len()
                    &&& self.is_candidate(
                        id,
                        candidate,
                        service_name,
                        windows[w],
                        #[trigger] self.sessions(service_name, windows[w])[k],
                    )
                } {
                let (w, k) = choose|w: int, k: int|
                    {
                        &&& 0 <= w < windows.len()
                        &&& 0 <= k < self.sessions(service_name, windows[w]).len()
                        &&& self.is_candidate(
                            id,
                            candidate,
                            service_name,
                            windows[w],
                            #[trigger] self.sessions(service_name, windows[w])[k],
                        )
                    };
                if w == 0 {
                    assert(at.contains(k) <==> fits(sessions[k]));
                    let l = choose|l: int| 0 <= l < at.len() && at[l] == k;
                    assert(a[l] == candidate);
                } else {
                    assert(rest[w - 1] == windows[w]);
                    assert(self.is_candidate(
                        id,
                        candidate,
                        service_name,
                        rest[w - 1],
                        self.sessions(service_name, rest[w - 1])[k],
                    ));
                }
            }
        }
    }

    proof fn lemma_session_candidates_of_services(self, id: FileId, services: Seq<Seq<char>>, candidate: SessionCandidate)
        ensures
            self.session_candidates_of_services(id, services).contains(candidate) <==> exists|s: int, w: int, k: int|
                {
                    &&& 0 <= s < services.len()
                    &&& 0 <= w < self.windows(services[s]).len()
                    &&& 0 <= k < self.sessions(services[s], self.windows(services[s])[w]).len()
                    &&& self.is_candidate(
                        id,
                        candidate,
                        services[s],
                        self.windows(services[s])[w],
                        #[trigger] self.sessions(services[s], self.windows(services[s])[w])[k],
                    )
                },
        decreases services.len(),
    {
        if services.len() > 0 {
            let rest = services.drop_first();
            let first = services[0];
            let a = self.session_candidates_of_windows(id, first, self.windows(first));
            let b = self.session_candidates_of_services(id, rest);
            self.lemma_session_candidates_of_services(id, rest, candidate);
            self.lemma_session_candidates_of_windows(id, first, self.windows(first), candidate);
            lemma_contains_in_sum(a, b, candidate);
            if a.contains(candidate) {
                let (w, k) = choose|w: int, k: int|
                    {
                        &&& 0 <= w < self.windows(first).len()
                        &&& 0 <= k < self.sessions(first, self.windows(first)[w]).len()
                        &&& self.is_candidate(
                            id,
                            candidate,
                            first,
                            self.windows(first)[w],
                            #[trigger] self.sessions(first, self.windows(first)[w])[k],
                        )
                    };
                assert(self.is_candidate(
                    id,
                    candidate,
                    services[0],
                    self.windows(services[0])[w],
                    self.sessions(services[0], self.windows(services[0])[w])[k],
                ));
            }
            if b.contains(candidate) {
                let (s, w, k) = choose|s: int, w: int, k: int|
                    {
                        &&& 0 <= s < rest.len()
                        &&& 0 <= w < self.windows(rest[s]).len()
                        &&& 0 <= k < self.sessions(rest[s], self.windows(rest[s])[w]).len()
                        &&& self.is_candidate(
                            id,
                            candidate,
                            rest[s],
                            self.windows(rest[s])[w],
                            #[trigger] self.sessions(rest[s], self.windows(rest[s])[w])[k],
                        )
                    };
                assert(rest[s] == services[s + 1]);
                assert(self.is_candidate(
                    id,
                    candidate,
                    services[s + 1],
                    self.windows(services[s + 1])[w],
                    self.sessions(services[s + 1], self.windows(services[s + 1])[w])[k],
                ));
            }
            if exists|s: int, w: int, k: int|
                {
                    &&& 0 <= s < services.len()
                    &&& 0 <= w < self.windows(services[s]).len()
                    &&& 0 <= k < self.sessions(services[s], self.windows(services[s])[w]).len()
                    &&& self.is_candidate(
                        id,
                        candidate,
                        services[s],
                        self.windows(services[s])[w],
                        #[trigger] self.sessions(services[s], self.windows(services[s])[w])[k],
                    )
                } {
                let (s, w, k) = choose|s: int, w: int, k: int|
                    {
                        &&& 0 <= s < services.len()
                        &&& 0 <= w < self.windows(services[s]).len()
                        &&& 0 <= k < self.sessions(services[s], self.windows(services[s])[w]).len()
                        &&& self.is_candidate(
                            id,
                            candidate,
                            services[s],
                            self.windows(services[s])[w],
                            #[trigger] self.sessions(services[s], self.windows(services[s])[w])[k],
                        )
                    };
                if s == 0 {
                    assert(self.is_candidate(
                        id,
                        candidate,
                        first,
                        self.windows(first)[w],
                        self.sessions(first, self.windows(first)[w])[k],
                    ));
                } else {
                    assert(rest[s - 1] == services[s]);
                    assert(self.is_candidate(
                        id,
                        candidate,
                        rest[s - 1],
                        self.windows(rest[s - 1])[w],
                        self.sessions(rest[s - 1], self.windows(rest[s - 1])[w])[k],
                    ));
                }
            }
        }
    }
}

proof fn lemma_contains_in_sum<A>(a: Seq<A>, b: Seq<A>, x: A)
    ensures
        (a + b).contains(x) <==> a.contains(x) || b.contains(x),
{
    if a.contains(x) {
        let k = choose|k: int| 0 <= k < a.len() && a[k] == x;
        assert((a + b)[k] == x);
    }
    if b.contains(x) {
        let k = choose|k: int| 0 <= k < b.len() && b[k] == x;
        assert((a + b)[a.len() + k] == x);
    }
}

} // verus!

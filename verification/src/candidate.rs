//! The choice among windows and among sessions.
use vstd::prelude::*;

verus! {

/// A window, with the start time of the process of one of its sessions.
#[derive(Debug)]
pub struct AnnotatedWindow {
    pub service_name: String,
    pub window_id: String,
    pub starttime: u64,
}

/// A window candidate, with its text.
pub struct WindowCandidate {
    pub service_name: Seq<char>,
    pub window_id: Seq<char>,
    pub starttime: u64,
}

impl View for AnnotatedWindow {
    type V = WindowCandidate;

    open spec fn view(&self) -> WindowCandidate {
        WindowCandidate {
            service_name: self.service_name@,
            window_id: self.window_id@,
            starttime: self.starttime,
        }
    }
}

/// A session, whether it is the current one of its window, and the start time of its process.
#[derive(Debug)]
pub struct AnnotatedSession {
    pub service_name: String,
    pub window_id: String,
    pub session_id: i32,
    pub is_current: bool,
    pub starttime: u64,
}

/// A session candidate, with its text.
pub struct SessionCandidate {
    pub service_name: Seq<char>,
    pub window_id: Seq<char>,
    pub session_id: i32,
    pub is_current: bool,
    pub starttime: u64,
}

impl View for AnnotatedSession {
    type V = SessionCandidate;

    open spec fn view(&self) -> SessionCandidate {
        SessionCandidate {
            service_name: self.service_name@,
            window_id: self.window_id@,
            session_id: self.session_id,
            is_current: self.is_current,
            starttime: self.starttime,
        }
    }
}

/// The window candidate that an option holds, with its text.
pub open spec fn window_view(window: Option<AnnotatedWindow>) -> Option<WindowCandidate> {
    match window {
        Some(window) => Some(window@),
        None => None,
    }
}

/// The session candidate that an option holds, with its text.
pub open spec fn session_view(session: Option<AnnotatedSession>) -> Option<SessionCandidate> {
    match session {
        Some(session) => Some(session@),
        None => None,
    }
}

/// Whether a window is to be preferred to another: it is older.
pub open spec fn window_before(a: WindowCandidate, b: WindowCandidate) -> bool {
    a.starttime < b.starttime
}

/// Whether a session is to be preferred to another: a current session comes before one that is
/// not; among equals, the older one comes first.
pub open spec fn session_before(a: SessionCandidate, b: SessionCandidate) -> bool {
    if a.is_current == b.is_current {
        a.starttime < b.starttime
    } else {
        a.is_current
    }
}

/// The better of the best window so far and a candidate; the former stays unless it is beaten.
pub open spec fn better_window(best: Option<WindowCandidate>, candidate: WindowCandidate) -> Option<WindowCandidate> {
    match best {
        Some(b) => if window_before(candidate, b) {
            Some(candidate)
        } else {
            best
        },
        None => Some(candidate),
    }
}

/// The better of the best session so far and a candidate; the former stays unless it is beaten.
pub open spec fn better_session(best: Option<SessionCandidate>, candidate: SessionCandidate) -> Option<SessionCandidate> {
    match best {
        Some(b) => if session_before(candidate, b) {
            Some(candidate)
        } else {
            best
        },
        None => Some(candidate),
    }
}

/// Puts a window in the place of the best one so far, if it is older or the first.
pub fn consider_window_candidate(best: &mut Option<AnnotatedWindow>, candidate: AnnotatedWindow)
    ensures
        window_view(*final(best)) == better_window(window_view(*old(best)), candidate@),
        *final(best) == *old(best) || *final(best) == Some(candidate),
{
    let should_replace = match best {
        Some(best) => candidate.starttime < best.starttime,
        None => true,
    };
    if should_replace {
        *best = Some(candidate);
    }
}

/// Puts a session in the place of the best one so far, if it is to be preferred or the first.
pub fn consider_session_candidate(best: &mut Option<AnnotatedSession>, candidate: AnnotatedSession)
    ensures
        session_view(*final(best)) == better_session(session_view(*old(best)), candidate@),
        *final(best) == *old(best) || *final(best) == Some(candidate),
{
    let should_replace = match best {
        Some(best) => if candidate.is_current == best.is_current {
            candidate.starttime < best.starttime
        } else {
            candidate.is_current
        },
        None => true,
    };
    if should_replace {
        *best = Some(candidate);
    }
}

/// What is left as the best window when candidates are considered one after the other.
pub open spec fn chosen_window(candidates: Seq<WindowCandidate>) -> Option<WindowCandidate>
    decreases candidates.len(),
{
    if candidates.len() == 0 {
        None
    } else {
        better_window(chosen_window(candidates.drop_last()), candidates.last())
    }
}

/// What is left as the best session when candidates are considered one after the other.
pub open spec fn chosen_session(candidates: Seq<SessionCandidate>) -> Option<SessionCandidate>
    decreases candidates.len(),
{
    if candidates.len() == 0 {
        None
    } else {
        better_session(chosen_session(candidates.drop_last()), candidates.last())
    }
}

/// Whether the window at an index is an oldest one, and older than every one before it.
pub open spec fn is_first_oldest(candidates: Seq<WindowCandidate>, k: int) -> bool {
    &&& 0 <= k < candidates.len()
    &&& forall|j: int| 0 <= j < candidates.len() ==> candidates[k].starttime <= #[trigger] candidates[j].starttime
    &&& forall|j: int| 0 <= j < k ==> candidates[k].starttime < #[trigger] candidates[j].starttime
}

/// Whether no session is to be preferred to the one at an index, and that one is to be preferred to
/// every one before it.
pub open spec fn is_first_best(candidates: Seq<SessionCandidate>, k: int) -> bool {
    &&& 0 <= k < candidates.len()
    &&& forall|j: int| 0 <= j < candidates.len() ==> !session_before(#[trigger] candidates[j], candidates[k])
    &&& forall|j: int| 0 <= j < k ==> session_before(candidates[k], #[trigger] candidates[j])
}

/// Of windows considered one after the other, the first among the oldest is left; there is none
/// only where none was considered.
pub proof fn law_chosen_window_is_first_oldest(candidates: Seq<WindowCandidate>)
    ensures
        candidates.len() == 0 ==> chosen_window(candidates) is None,
        candidates.len() > 0 ==> exists|k: int| #[trigger]
            is_first_oldest(candidates, k) && chosen_window(candidates) == Some(candidates[k]),
    decreases candidates.len(),
{
    if candidates.len() > 0 {
        let rest = candidates.drop_last();
        let last = candidates.len() - 1;
        law_chosen_window_is_first_oldest(rest);
        if rest.len() == 0 {
            assert(is_first_oldest(candidates, last));
        } else {
            let k = choose|k: int| #[trigger]
                is_first_oldest(rest, k) && chosen_window(rest) == Some(rest[k]);
            assert(rest[k] == candidates[k]);
            assert(forall|j: int| 0 <= j < last ==> #[trigger] candidates[j] == rest[j]);
            if window_before(candidates[last], rest[k]) {
                assert(is_first_oldest(candidates, last));
            } else {
                assert(is_first_oldest(candidates, k));
            }
        }
    }
}

/// Of sessions considered one after the other, the first among the best is left; there is none
/// only where none was considered.
pub proof fn law_chosen_session_is_first_best(candidates: Seq<SessionCandidate>)
    ensures
        candidates.len() == 0 ==> chosen_session(candidates) is None,
        candidates.len() > 0 ==> exists|k: int| #[trigger]
            is_first_best(candidates, k) && chosen_session(candidates) == Some(candidates[k]),
    decreases candidates.len(),
{
    if candidates.len() > 0 {
        let rest = candidates.drop_last();
        let last = candidates.len() - 1;
        law_chosen_session_is_first_best(rest);
        if rest.len() == 0 {
            assert(is_first_best(candidates, last));
        } else {
            let k = choose|k: int| #[trigger]
                is_first_best(rest, k) && chosen_session(rest) == Some(rest[k]);
            assert(rest[k] == candidates[k]);
            assert(forall|j: int| 0 <= j < last ==> #[trigger] candidates[j] == rest[j]);
            if session_before(candidates[last], rest[k]) {
                assert(is_first_best(candidates, last));
            } else {
                assert(is_first_best(candidates, k));
            }
        }
    }
}

/// If any session considered is the current one of its window, the one that is left is.
pub proof fn law_current_session_is_preferred(candidates: Seq<SessionCandidate>, j: int)
    requires
        0 <= j < candidates.len(),
        candidates[j].is_current,
    ensures
        chosen_session(candidates) is Some,
        chosen_session(candidates)->Some_0.is_current,
{
    law_chosen_session_is_first_best(candidates);
}

/// The session that is left of sessions considered one after the other is one of them. It is the
/// current one of its window if any of them is. None of them that is current just as it is, or just as
/// it is not, has an earlier start time, and those considered before it have a later one.
pub proof fn law_chosen_session_is_current_then_oldest(candidates: Seq<SessionCandidate>)
    ensures
        match chosen_session(candidates) {
            Some(c) => exists|k: int|
                {
                    &&& 0 <= k < candidates.len()
                    &&& #[trigger] candidates[k] == c
                    &&& forall|j: int|
                        0 <= j < candidates.len() && (#[trigger] candidates[j]).is_current ==> c.is_current
                    &&& forall|j: int|
                        0 <= j < candidates.len() && (#[trigger] candidates[j]).is_current == c.is_current
                            ==> c.starttime as int <= candidates[j].starttime as int
                    &&& forall|j: int|
                        0 <= j < k && (#[trigger] candidates[j]).is_current == c.is_current ==> (c.starttime as int)
                            < candidates[j].starttime as int
                },
            None => candidates.len() == 0,
        },
{
    law_chosen_session_is_first_best(candidates);
    if candidates.len() > 0 {
        let k = choose|k: int| #[trigger]
            is_first_best(candidates, k) && chosen_session(candidates) == Some(candidates[k]);
        let c = candidates[k];
        assert forall|j: int| 0 <= j < candidates.len() && (#[trigger] candidates[j]).is_current implies c.is_current by {
            assert(!session_before(candidates[j], candidates[k]));
        }
        assert forall|j: int|
            0 <= j < candidates.len() && (#[trigger] candidates[j]).is_current == c.is_current implies c.starttime as int
            <= candidates[j].starttime as int by {
            assert(!session_before(candidates[j], candidates[k]));
        }
        assert forall|j: int|
            0 <= j < k && (#[trigger] candidates[j]).is_current == c.is_current implies (c.starttime as int)
            < candidates[j].starttime as int by {
            assert(session_before(candidates[k], candidates[j]));
        }
        assert(candidates[k] == c);
    }
}

/// The window that is left of windows considered one after the other is one of them. None of them has
/// an earlier start time, and those considered before it have a later one.
pub proof fn law_chosen_window_is_oldest(candidates: Seq<WindowCandidate>)
    ensures
        match chosen_window(candidates) {
            Some(c) => exists|k: int|
                {
                    &&& 0 <= k < candidates.len()
                    &&& #[trigger] candidates[k] == c
                    &&& forall|j: int|
                        0 <= j < candidates.len() ==> c.starttime as int <= (#[trigger] candidates[j]).starttime as int
                    &&& forall|j: int|
                        0 <= j < k ==> (c.starttime as int) < (#[trigger] candidates[j]).starttime as int
                },
            None => candidates.len() == 0,
        },
{
    law_chosen_window_is_first_oldest(candidates);
    if candidates.len() > 0 {
        let k = choose|k: int| #[trigger]
            is_first_oldest(candidates, k) && chosen_window(candidates) == Some(candidates[k]);
        assert(candidates[k] == chosen_window(candidates)->Some_0);
    }
}

/// Of two candidates, the second takes the place of the first only if it is to be preferred: a window if
/// it has an earlier start time, a session if it alone is current, or if it is current just as the
/// first and has an earlier start time.
pub proof fn law_second_candidate_has_to_be_preferred(
    window: WindowCandidate,
    other_window: WindowCandidate,
    session: SessionCandidate,
    other_session: SessionCandidate,
)
    ensures
        better_window(None, window) == Some(window),
        better_window(Some(window), other_window) == (if other_window.starttime as int + 1 <= window.starttime {
            Some(other_window)
        } else {
            Some(window)
        }),
        better_session(None, session) == Some(session),
        better_session(Some(session), other_session) == (if other_session.is_current && !session.is_current {
            Some(other_session)
        } else if session.is_current && !other_session.is_current {
            Some(session)
        } else if other_session.starttime as int + 1 <= session.starttime {
            Some(other_session)
        } else {
            Some(session)
        }),
{
}

/// Candidates are shown with all that they hold.
pub proof fn law_candidates_are_shown_in_full(
    window: AnnotatedWindow,
    session: AnnotatedSession,
)
    ensures
        window@.service_name == window.service_name@,
        window@.window_id == window.window_id@,
        window@.starttime == window.starttime,
        session@.service_name == session.service_name@,
        session@.window_id == session.window_id@,
        session@.session_id == session.session_id,
        session@.is_current == session.is_current,
        session@.starttime == session.starttime,
        window_view(Some(window)) == Some(window@),
        window_view(None) is None,
        session_view(Some(session)) == Some(session@),
        session_view(None) is None,
{
}

} // verus!

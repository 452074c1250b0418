//! The windows of a Konsole service.
use crate::dbus::{
    fault_i32, goes_to, held_i32, refused_i32, refused_strs, replied_i32, reply_i32, reply_view, string_array, Body, MethodCall, Reply,
};
use crate::konsole;
use crate::konsole::{
    is_first_bad, law_told_sessions_are_the_integers_of_the_reply, session_ids, told_sessions, ListSessionsFailure,
};
pub use crate::konsole::ListSessionsError;
use crate::service::Service;
use crate::session::{sessions_of, Session};
use crate::text::{
    decimal, decimal_text, first_unparsed, law_decimal_parses_back, lemma_parsed_all, parsed, parsed_all, refused_text,
    texts,
};
use std::path::PathBuf;
use vstd::prelude::*;

verus! {

/// A window of a Konsole service, by its ID. Konsole registers windows on the bus under
/// `/Windows/<managerId>`, where `managerId` is an `int` of C++.
#[derive(Debug)]
pub struct Window {
    pub service: Service,
    pub id: i32,
}

impl Clone for Window {
    fn clone(&self) -> (res: Self)
        ensures
            res == *self,
    {
        Window { service: self.service.clone(), id: self.id }
    }
}

/// The windows of a service with the given IDs.
pub open spec fn windows_of(service: Service, ids: Seq<i32>) -> Seq<Window> {
    Seq::new(ids.len(), |k: int| Window { service, id: ids[k] })
}

impl Window {
    /// Asks the window for its sessions.
    pub fn sessions_call(&self) -> (res: MethodCall)
        ensures
            res@ == konsole::sessions_request(self.service.name@, decimal(self.id as int)),
    {
        konsole::list_sessions_call(self.service.name.as_str(), decimal_text(self.id).as_str())
    }

    /// Takes texts for the IDs of sessions of the window.
    pub fn sessions_named(&self, ids: Vec<String>) -> (res: Result<Vec<Session>, ListSessionsError>)
        ensures
            match res {
                Ok(sessions) => exists|parsed: Seq<i32>|
                    session_ids(texts(ids@)) == Ok::<Seq<i32>, ListSessionsFailure>(parsed) && sessions@
                        == #[trigger] sessions_of(*self, parsed),
                Err(e) => {
                    &&& session_ids(texts(ids@)) == Err::<Seq<i32>, ListSessionsFailure>(e@)
                    &&& e matches ListSessionsError::ParseSessionId { source, input }
                    &&& refused_text(input@, source)
                },
            },
    {
        match konsole::parse_session_ids(ids) {
            Ok(parsed) => Ok(self.sessions_with(parsed)),
            Err(e) => Err(e),
        }
    }

    fn sessions_with(&self, ids: Vec<i32>) -> (res: Vec<Session>)
        ensures
            res@ == sessions_of(*self, ids@),
    {
        let mut sessions: Vec<Session> = Vec::new();
        let mut k: usize = 0;
        while k < ids.len()
            invariant
                k <= ids.len(),
                sessions@ == sessions_of(*self, ids@.take(k as int)),
            decreases ids.len() - k,
        {
            sessions.push(Session { window: self.clone(), id: ids[k] });
            assert(sessions@ =~= sessions_of(*self, ids@.take(k + 1)));
            k = k + 1;
        }
        assert(ids@.take(k as int) =~= ids@);
        sessions
    }

    /// Reads the sessions of the window from the reply to the call for them.
    pub fn sessions(&self, reply: Result<Reply, zbus::Error>) -> (res: Result<Vec<Session>, ListSessionsError>)
        ensures
            match res {
                Ok(sessions) => exists|ids: Seq<i32>|
                    told_sessions(reply_view(reply)) == Ok::<Seq<i32>, ListSessionsFailure>(ids) && sessions@
                        == #[trigger] sessions_of(*self, ids),
                Err(e) => {
                    &&& told_sessions(reply_view(reply)) == Err::<Seq<i32>, ListSessionsFailure>(e@)
                    &&& e.comes_of(reply)
                },
            },
    {
        match konsole::list_sessions(reply) {
            Ok(ids) => Ok(self.sessions_with(ids)),
            Err(e) => Err(e),
        }
    }

    /// Asks the window for its current session.
    pub fn current_session_call(&self) -> (res: MethodCall)
        ensures
            res@ == konsole::current_session_request(self.service.name@, decimal(self.id as int)),
    {
        konsole::get_current_session_call(self.service.name.as_str(), decimal_text(self.id).as_str())
    }

    fn session_told(&self, reply: Result<Reply, zbus::Error>) -> (res: Result<Session, zbus::Error>)
        ensures
            match res {
                Ok(session) => session.window == *self && replied_i32(reply_view(reply)) == Some(session.id),
                Err(e) => {
                    &&& replied_i32(reply_view(reply)) is None
                    &&& fault_i32(reply, e)
                },
            },
    {
        match reply_i32(reply) {
            Ok(id) => Ok(Session { window: self.clone(), id }),
            Err(e) => Err(e),
        }
    }

    /// Reads the current session of the window from the reply to the call for it.
    pub fn current_session(&self, reply: Result<Reply, zbus::Error>) -> (res: Result<Session, zbus::Error>)
        ensures
            match res {
                Ok(session) => session.window == *self && replied_i32(reply_view(reply)) == Some(session.id),
                Err(e) => {
                    &&& replied_i32(reply_view(reply)) is None
                    &&& fault_i32(reply, e)
                },
            },
    {
        self.session_told(reply)
    }

    /// Asks the window to open a session in a directory, with the default profile.
    pub fn new_session_call(&self, directory: PathBuf) -> (res: MethodCall)
        ensures
            res@ == konsole::new_session_request(self.service.name@, decimal(self.id as int), directory),
    {
        konsole::new_session_call(self.service.name.as_str(), decimal_text(self.id).as_str(), directory)
    }

    /// Reads the session that the window has opened from its reply.
    pub fn new_session(&self, reply: Result<Reply, zbus::Error>) -> (res: Result<Session, zbus::Error>)
        ensures
            match res {
                Ok(session) => session.window == *self && replied_i32(reply_view(reply)) == Some(session.id),
                Err(e) => {
                    &&& replied_i32(reply_view(reply)) is None
                    &&& fault_i32(reply, e)
                },
            },
    {
        self.session_told(reply)
    }
}

/// A window that was found by a node which is named by an integer in decimal, as Konsole names them,
/// is addressed at that very node.
pub proof fn law_window_is_addressed_at_its_node(node: Seq<char>, managerid: i32)
    requires
        node == decimal(managerid as int),
    ensures
        parsed(node) == Some(managerid),
        decimal(parsed(node)->Some_0 as int) == node,
{
    law_decimal_parses_back(managerid);
}

/// A window is asked for its own sessions.
pub proof fn law_window_is_asked_for_its_sessions(window: Window, call: MethodCall)
    requires
        call_ensures(Window::sessions_call, (&window,), call),
    ensures
        goes_to(call, window.service.name@, "/Windows/"@ + decimal(window.id as int), "org.kde.konsole.Window"@, "sessionList"@),
        call.body is Empty,
{
}

/// A window is asked for its own current session.
pub proof fn law_window_is_asked_for_its_current_session(window: Window, call: MethodCall)
    requires
        call_ensures(Window::current_session_call, (&window,), call),
    ensures
        goes_to(call, window.service.name@, "/Windows/"@ + decimal(window.id as int), "org.kde.konsole.Window"@, "currentSession"@),
        call.body is Empty,
{
}

/// A window is asked to open a session itself, with the empty profile and in the directory that is told.
pub proof fn law_window_is_asked_for_a_new_session(window: Window, directory: PathBuf, call: MethodCall)
    requires
        call_ensures(Window::new_session_call, (&window, directory), call),
    ensures
        goes_to(call, window.service.name@, "/Windows/"@ + decimal(window.id as int), "org.kde.konsole.Window"@, "newSession"@),
        call.body matches Body::StrPath(profile, path) && profile@.len() == 0 && path == directory,
{
    reveal_strlit("");
}

/// The sessions of a window are as many as the texts in the reply, each with the integer that the text
/// at its place stands for, and each of this window; or else the first text that stands for none is
/// told, or that the reply holds no texts.
pub proof fn law_sessions_of_a_window_are_those_of_the_reply(
    window: Window,
    reply: Result<Reply, zbus::Error>,
    res: Result<Vec<Session>, ListSessionsError>,
)
    requires
        call_ensures(Window::sessions, (&window, reply), res),
    ensures
        match reply {
            Ok(held) => match string_array(held.signature@, held.big_endian, held.bytes@) {
                Some(list) => match res {
                    Ok(sessions) => {
                        &&& sessions@.len() == list.len()
                        &&& forall|k: int|
                            0 <= k < list.len() ==> {
                                &&& parsed(#[trigger] list[k]) == Some(sessions@[k].id)
                                &&& sessions@[k].window == window
                            }
                    },
                    Err(ListSessionsError::ParseSessionId { source, input }) => is_first_bad(list, input@) && refused_text(input@, source),
                    Err(ListSessionsError::CallSessionList { .. }) => false,
                },
                None => res matches Err(ListSessionsError::CallSessionList { source }) && refused_strs(held, source),
            },
            Err(source) => res == Err::<Vec<Session>, ListSessionsError>(
                ListSessionsError::CallSessionList { source },
            ),
        },
{
    law_told_sessions_are_the_integers_of_the_reply(reply_view(reply));
}

/// Texts are taken for as many sessions of a window, each with the integer that the text at its place
/// stands for; or else the first text that stands for none is told.
pub proof fn law_texts_are_taken_for_sessions(
    window: Window,
    ids: Vec<String>,
    res: Result<Vec<Session>, ListSessionsError>,
)
    requires
        call_ensures(Window::sessions_named, (&window, ids), res),
    ensures
        match res {
            Ok(sessions) => {
                &&& sessions@.len() == ids@.len()
                &&& forall|k: int|
                    0 <= k < ids@.len() ==> {
                        &&& parsed((#[trigger] ids@[k])@) == Some(sessions@[k].id)
                        &&& sessions@[k].window == window
                    }
            },
            Err(ListSessionsError::ParseSessionId { source, input }) => is_first_bad(texts(ids@), input@) && refused_text(input@, source),
            Err(ListSessionsError::CallSessionList { .. }) => false,
        },
{
    lemma_parsed_all(texts(ids@));
    assert(forall|k: int| 0 <= k < ids@.len() ==> texts(ids@)[k] == (#[trigger] ids@[k])@);
    if parsed_all(texts(ids@)) is Err {
        assert(texts(ids@)[first_unparsed(texts(ids@))->Some_0] == parsed_all(texts(ids@))->Err_0);
    }
}

/// The current session of a window, and one that it has opened, are sessions of this window with the
/// `i32` in the reply.
pub proof fn law_told_session_is_of_the_window(
    window: Window,
    reply: Result<Reply, zbus::Error>,
    res: Result<Session, zbus::Error>,
)
    requires
        call_ensures(Window::current_session, (&window, reply), res) || call_ensures(
            Window::new_session,
            (&window, reply),
            res,
        ),
    ensures
        match reply {
            Ok(held) => match held_i32(held@) {
                Some(id) => res == Ok::<Session, zbus::Error>(Session { window, id }),
                None => res matches Err(e) && refused_i32(held, e),
            },
            Err(e) => res == Err::<Session, zbus::Error>(e),
        },
{
}

} // verus!

//! What is asked of Konsole and of the message bus, and how the replies are read.
use crate::dbus::{
    child_names, document_names, fault_str, fault_strs, goes_to, held_str, method_call, names, refused_str, refused_strs, refused_xml,
    replied_str, replied_strs, reply_str, reply_strs, reply_view, string_array, Body, BodyView, CallView, MethodCall, Reply, ReplyView,
};
use crate::text::{
    decimal, decimal_text, first_unparsed, lemma_filter_picks, lemma_parsed_all, parse_all, parsed, parsed_all, picked,
    refused_text, starts_with, texts,
};
use std::num::ParseIntError;
use std::path::PathBuf;
use vstd::prelude::*;
use vstd::string::*;

verus! {

/// The call that lists the names on the bus.
pub open spec fn services_request() -> CallView {
    CallView {
        destination: "org.freedesktop.DBus"@,
        path: "/org/freedesktop/DBus"@,
        interface: "org.freedesktop.DBus"@,
        member: "ListNames"@,
        body: BodyView::Empty,
    }
}

/// The call that describes the windows of a service.
pub open spec fn windows_request(service_name: Seq<char>) -> CallView {
    CallView {
        destination: service_name,
        path: "/Windows"@,
        interface: "org.freedesktop.DBus.Introspectable"@,
        member: "Introspect"@,
        body: BodyView::Empty,
    }
}

/// A call to a window of a service.
pub open spec fn window_request(
    service_name: Seq<char>,
    window_id: Seq<char>,
    member: Seq<char>,
    body: BodyView,
) -> CallView {
    CallView {
        destination: service_name,
        path: "/Windows/"@ + window_id,
        interface: "org.kde.konsole.Window"@,
        member,
        body,
    }
}

/// The call that lists the sessions of a window.
pub open spec fn sessions_request(service_name: Seq<char>, window_id: Seq<char>) -> CallView {
    window_request(service_name, window_id, "sessionList"@, BodyView::Empty)
}

/// The call that tells the current session of a window.
pub open spec fn current_session_request(service_name: Seq<char>, window_id: Seq<char>) -> CallView {
    window_request(service_name, window_id, "currentSession"@, BodyView::Empty)
}

/// The call that makes a session the current one of a window.
pub open spec fn set_current_session_request(service_name: Seq<char>, window_id: Seq<char>, session_id: i32) -> CallView {
    window_request(service_name, window_id, "setCurrentSession"@, BodyView::Int(session_id))
}

/// The call that opens a session in a directory, with the default profile.
pub open spec fn new_session_request(service_name: Seq<char>, window_id: Seq<char>, directory: PathBuf) -> CallView {
    window_request(service_name, window_id, "newSession"@, BodyView::StrPath(""@, directory))
}

/// The call that tells the process ID of a session.
pub open spec fn session_pid_request(service_name: Seq<char>, session_id: i32) -> CallView {
    CallView {
        destination: service_name,
        path: "/Sessions/"@ + decimal(session_id as int),
        interface: "org.kde.konsole.Session"@,
        member: "processId"@,
        body: BodyView::Empty,
    }
}

/// The call that tells the process ID of a service.
pub open spec fn service_pid_request(service_name: Seq<char>) -> CallView {
    CallView {
        destination: "org.freedesktop.DBus"@,
        path: "/"@,
        interface: "org.freedesktop.DBus"@,
        member: "GetConnectionUnixProcessID"@,
        body: BodyView::Str(service_name),
    }
}

/// Asks for the names on the bus.
pub fn list_services_call() -> (res: MethodCall)
    ensures
        res@ == services_request(),
{
    method_call("org.freedesktop.DBus", "/org/freedesktop/DBus", "org.freedesktop.DBus", "ListNames", Body::Empty)
}

/// Asks a service for a description of its windows.
pub fn list_windows_call(service_name: &str) -> (res: MethodCall)
    ensures
        res@ == windows_request(service_name@),
{
    method_call(service_name, "/Windows", "org.freedesktop.DBus.Introspectable", "Introspect", Body::Empty)
}

fn window_call(service_name: &str, window_id: &str, member: &str, body: Body) -> (res: MethodCall)
    ensures
        res@ == window_request(service_name@, window_id@, member@, body@),
{
    let mut path = "/Windows/".to_owned();
    path.append(window_id);
    method_call(service_name, path.as_str(), "org.kde.konsole.Window", member, body)
}

/// Asks a window for its sessions.
pub fn list_sessions_call(service_name: &str, window_id: &str) -> (res: MethodCall)
    ensures
        res@ == sessions_request(service_name@, window_id@),
{
    window_call(service_name, window_id, "sessionList", Body::Empty)
}

/// Asks a window for its current session.
pub fn get_current_session_call(service_name: &str, window_id: &str) -> (res: MethodCall)
    ensures
        res@ == current_session_request(service_name@, window_id@),
{
    window_call(service_name, window_id, "currentSession", Body::Empty)
}

/// Asks a window to make a session its current one.
pub fn set_current_session_call(service_name: &str, window_id: &str, session_id: i32) -> (res: MethodCall)
    ensures
        res@ == set_current_session_request(service_name@, window_id@, session_id),
{
    window_call(service_name, window_id, "setCurrentSession", Body::Int(session_id))
}

/// Asks a window to open a session in a directory, with the default profile: Konsole takes an empty
/// text for it.
pub fn new_session_call(service_name: &str, window_id: &str, directory: PathBuf) -> (res: MethodCall)
    ensures
        res@ == new_session_request(service_name@, window_id@, directory),
{
    window_call(service_name, window_id, "newSession", Body::StrPath("".to_owned(), directory))
}

/// Asks a service for the process ID of a session.
pub fn get_session_pid_call(service_name: &str, session_id: i32) -> (res: MethodCall)
    ensures
        res@ == session_pid_request(service_name@, session_id),
{
    let mut path = "/Sessions/".to_owned();
    path.append(decimal_text(session_id).as_str());
    method_call(service_name, path.as_str(), "org.kde.konsole.Session", "processId", Body::Empty)
}

/// Asks the bus for the process ID of a service.
pub fn get_service_pid_call(service_name: &str) -> (res: MethodCall)
    ensures
        res@ == service_pid_request(service_name@),
{
    method_call(
        "org.freedesktop.DBus",
        "/",
        "org.freedesktop.DBus",
        "GetConnectionUnixProcessID",
        Body::Str(service_name.to_owned()),
    )
}

/// Whether a name on the bus belongs to Konsole.
pub open spec fn is_konsole(name: Seq<char>) -> bool {
    "org.kde.konsole"@.is_prefix_of(name)
}

/// The names among those on the bus that belong to Konsole, in order.
pub open spec fn konsole_names(names: Seq<Seq<char>>) -> Seq<Seq<char>> {
    names.filter(|name: Seq<char>| is_konsole(name))
}

/// Keeps the names that belong to Konsole.
pub fn konsole_services(names: Vec<String>) -> (res: Vec<String>)
    ensures
        texts(res@) == konsole_names(texts(names@)),
{
    let mut services: Vec<String> = Vec::new();
    let mut k: usize = 0;
    assert(texts(services@) =~= konsole_names(texts(names@).take(0)));
    while k < names.len()
        invariant
            k <= names.len(),
            texts(services@) == konsole_names(texts(names@).take(k as int)),
        decreases names.len() - k,
    {
        let ghost before = services@;
        let ghost all = texts(names@);
        proof {
            reveal(Seq::filter);
            assert(all.take(k + 1).drop_last() =~= all.take(k as int));
            assert(all.take(k + 1).last() == names@[k as int]@);
        }
        if starts_with(names[k].as_str(), "org.kde.konsole") {
            services.push(names[k].clone());
            assert(texts(services@) =~= texts(before).push(names@[k as int]@));
        }
        k = k + 1;
    }
    assert(texts(names@).take(k as int) =~= texts(names@));
    services
}

/// The names of the Konsole services, as the reply to the call for the names on the bus tells them.
pub open spec fn told_services(reply: Option<ReplyView>) -> Option<Seq<Seq<char>>> {
    match replied_strs(reply) {
        Some(names) => Some(konsole_names(names)),
        None => None,
    }
}

/// Reads the names of the Konsole services from the reply to the call for the names on the bus.
pub fn list_services(reply: Result<Reply, zbus::Error>) -> (res: Result<Vec<String>, zbus::Error>)
    ensures
        match res {
            Ok(services) => told_services(reply_view(reply)) == Some(texts(services@)),
            Err(e) => {
                &&& told_services(reply_view(reply)) is None
                &&& fault_strs(reply, e)
            },
        },
{
    match reply_strs(reply) {
        Ok(names) => Ok(konsole_services(names)),
        Err(e) => Err(e),
    }
}

/// Why the windows of a service cannot be listed.
#[derive(Debug)]
pub enum ListWindowsError {
    GetIntrospection { source: zbus::Error },
    ParseIntrospection { source: zbus_xml::Error },
}

/// Why the windows of a service cannot be listed, without the underlying error.
pub enum ListWindowsFailure {
    GetIntrospection,
    ParseIntrospection,
}

impl View for ListWindowsError {
    type V = ListWindowsFailure;

    open spec fn view(&self) -> ListWindowsFailure {
        match self {
            ListWindowsError::GetIntrospection { .. } => ListWindowsFailure::GetIntrospection,
            ListWindowsError::ParseIntrospection { .. } => ListWindowsFailure::ParseIntrospection,
        }
    }
}

/// The names that are there, in order.
pub open spec fn present(names: Seq<Option<Seq<char>>>) -> Seq<Seq<char>> {
    names.filter(|name: Option<Seq<char>>| name is Some).map_values(|name: Option<Seq<char>>| name->Some_0)
}

/// Keeps the names that are there.
pub fn present_names(list: Vec<Option<String>>) -> (res: Vec<String>)
    ensures
        texts(res@) == present(names(list@)),
{
    let mut res: Vec<String> = Vec::new();
    let mut k: usize = 0;
    assert(texts(res@) =~= present(names(list@).take(0)));
    while k < list.len()
        invariant
            k <= list.len(),
            texts(res@) == present(names(list@).take(k as int)),
        decreases list.len() - k,
    {
        let ghost before = res@;
        let ghost all = names(list@);
        proof {
            reveal(Seq::filter);
            assert(all.take(k + 1).drop_last() =~= all.take(k as int));
        }
        match &list[k] {
            Some(name) => {
                res.push(name.clone());
                assert(texts(res@) =~= texts(before).push(name@));
                assert(present(all.take(k + 1)) =~= present(all.take(k as int)).push(name@));
            },
            None => {},
        }
        k = k + 1;
    }
    assert(names(list@).take(k as int) =~= names(list@));
    res
}

/// The names of the nodes below the windows object of a service, as its description tells them.
pub open spec fn told_nodes(reply: Option<ReplyView>) -> Result<Seq<Option<Seq<char>>>, ListWindowsFailure> {
    match replied_str(reply) {
        Some(xml) => match child_names(xml) {
            Some(nodes) => Ok(nodes),
            None => Err(ListWindowsFailure::ParseIntrospection),
        },
        None => Err(ListWindowsFailure::GetIntrospection),
    }
}

impl ListWindowsError {
    /// Whether the underlying error is the one of the step that failed: of the call for the
    /// description or the reading of the reply, or of the parse of the document in the reply.
    pub open spec fn comes_of(self, reply: Result<Reply, zbus::Error>) -> bool {
        match self {
            ListWindowsError::GetIntrospection { source } => fault_str(reply, source),
            ListWindowsError::ParseIntrospection { source } => {
                &&& replied_str(reply_view(reply)) matches Some(xml)
                &&& refused_xml(xml, source)
            },
        }
    }
}

/// Reads the names of the nodes below the windows object of a service from its description.
pub fn list_nodes(reply: Result<Reply, zbus::Error>) -> (res: Result<Vec<Option<String>>, ListWindowsError>)
    ensures
        match res {
            Ok(nodes) => told_nodes(reply_view(reply)) == Ok::<Seq<Option<Seq<char>>>, ListWindowsFailure>(
                names(nodes@),
            ),
            Err(e) => {
                &&& told_nodes(reply_view(reply)) == Err::<Seq<Option<Seq<char>>>, ListWindowsFailure>(e@)
                &&& e.comes_of(reply)
            },
        },
{
    let xml = match reply_str(reply) {
        Ok(xml) => xml,
        Err(source) => {
            return Err(ListWindowsError::GetIntrospection { source });
        },
    };
    match document_names(xml.as_str()) {
        Ok(nodes) => Ok(nodes),
        Err(source) => Err(ListWindowsError::ParseIntrospection { source }),
    }
}

/// The IDs of the windows of a service, as its description tells them.
pub open spec fn told_windows(reply: Option<ReplyView>) -> Result<Seq<Seq<char>>, ListWindowsFailure> {
    match told_nodes(reply) {
        Ok(nodes) => Ok(present(nodes)),
        Err(e) => Err(e),
    }
}

/// Reads the IDs of the windows of a service from its description.
pub fn list_windows(reply: Result<Reply, zbus::Error>) -> (res: Result<Vec<String>, ListWindowsError>)
    ensures
        match res {
            Ok(windows) => told_windows(reply_view(reply)) == Ok::<Seq<Seq<char>>, ListWindowsFailure>(
                texts(windows@),
            ),
            Err(e) => {
                &&& told_windows(reply_view(reply)) == Err::<Seq<Seq<char>>, ListWindowsFailure>(e@)
                &&& e.comes_of(reply)
            },
        },
{
    match list_nodes(reply) {
        Ok(nodes) => Ok(present_names(nodes)),
        Err(e) => Err(e),
    }
}

/// Why the sessions of a window cannot be listed.
#[derive(Debug)]
pub enum ListSessionsError {
    CallSessionList { source: zbus::Error },
    ParseSessionId { source: ParseIntError, input: String },
}

/// Why the sessions of a window cannot be listed, without the underlying error.
pub enum ListSessionsFailure {
    CallSessionList,
    ParseSessionId { input: Seq<char> },
}

impl View for ListSessionsError {
    type V = ListSessionsFailure;

    open spec fn view(&self) -> ListSessionsFailure {
        match self {
            ListSessionsError::CallSessionList { .. } => ListSessionsFailure::CallSessionList,
            ListSessionsError::ParseSessionId { input, .. } => ListSessionsFailure::ParseSessionId { input: input@ },
        }
    }
}

impl ListSessionsError {
    /// Whether the underlying error is the one of the step that failed: of the call for the sessions
    /// or the reading of the reply, or of the reading of the ID.
    pub open spec fn comes_of(self, reply: Result<Reply, zbus::Error>) -> bool {
        match self {
            ListSessionsError::CallSessionList { source } => fault_strs(reply, source),
            ListSessionsError::ParseSessionId { source, input } => refused_text(input@, source),
        }
    }
}

/// The IDs that a list of texts stands for, or the first text that stands for none.
pub open spec fn session_ids(ids: Seq<Seq<char>>) -> Result<Seq<i32>, ListSessionsFailure> {
    match parsed_all(ids) {
        Ok(ids) => Ok(ids),
        Err(input) => Err(ListSessionsFailure::ParseSessionId { input }),
    }
}

/// Reads the IDs of sessions from their text.
pub fn parse_session_ids(ids: Vec<String>) -> (res: Result<Vec<i32>, ListSessionsError>)
    ensures
        match res {
            Ok(sessions) => session_ids(texts(ids@)) == Ok::<Seq<i32>, ListSessionsFailure>(sessions@),
            Err(e) => {
                &&& session_ids(texts(ids@)) == Err::<Seq<i32>, ListSessionsFailure>(e@)
                &&& e matches ListSessionsError::ParseSessionId { source, input }
                &&& refused_text(input@, source)
            },
        },
{
    match parse_all(ids) {
        Ok(sessions) => Ok(sessions),
        Err(e) => Err(ListSessionsError::ParseSessionId { source: e.source, input: e.input }),
    }
}

/// The IDs of the sessions of a window, as the reply to the call for them tells them.
pub open spec fn told_sessions(reply: Option<ReplyView>) -> Result<Seq<i32>, ListSessionsFailure> {
    match replied_strs(reply) {
        Some(ids) => session_ids(ids),
        None => Err(ListSessionsFailure::CallSessionList),
    }
}

/// Reads the IDs of the sessions of a window from the reply to the call for them.
pub fn list_sessions(reply: Result<Reply, zbus::Error>) -> (res: Result<Vec<i32>, ListSessionsError>)
    ensures
        match res {
            Ok(sessions) => told_sessions(reply_view(reply)) == Ok::<Seq<i32>, ListSessionsFailure>(sessions@),
            Err(e) => {
                &&& told_sessions(reply_view(reply)) == Err::<Seq<i32>, ListSessionsFailure>(e@)
                &&& e.comes_of(reply)
            },
        },
{
    match reply_strs(reply) {
        Ok(ids) => parse_session_ids(ids),
        Err(source) => Err(ListSessionsError::CallSessionList { source }),
    }
}

/// The names on the bus are asked of the bus itself.
pub proof fn law_names_are_asked_of_the_bus(call: MethodCall)
    requires
        call_ensures(list_services_call, (), call),
    ensures
        goes_to(call, "org.freedesktop.DBus"@, "/org/freedesktop/DBus"@, "org.freedesktop.DBus"@, "ListNames"@),
        call.body is Empty,
{
}

/// The windows of a service are asked of that service, as a description of its windows object.
pub proof fn law_windows_are_asked_of_the_service(service_name: &str, call: MethodCall)
    requires
        call_ensures(list_windows_call, (service_name,), call),
    ensures
        goes_to(call, service_name@, "/Windows"@, "org.freedesktop.DBus.Introspectable"@, "Introspect"@),
        call.body is Empty,
{
}

/// The sessions of a window are asked of that window.
pub proof fn law_sessions_are_asked_of_the_window(service_name: &str, window_id: &str, call: MethodCall)
    requires
        call_ensures(list_sessions_call, (service_name, window_id), call),
    ensures
        goes_to(call, service_name@, "/Windows/"@ + window_id@, "org.kde.konsole.Window"@, "sessionList"@),
        call.body is Empty,
{
}

/// The current session of a window is asked of that window.
pub proof fn law_current_session_is_asked_of_the_window(service_name: &str, window_id: &str, call: MethodCall)
    requires
        call_ensures(get_current_session_call, (service_name, window_id), call),
    ensures
        goes_to(call, service_name@, "/Windows/"@ + window_id@, "org.kde.konsole.Window"@, "currentSession"@),
        call.body is Empty,
{
}

/// A session is made current by the window that is told, with the ID of the session alone.
pub proof fn law_session_is_made_current_by_the_window(service_name: &str, window_id: &str, session_id: i32, call: MethodCall)
    requires
        call_ensures(set_current_session_call, (service_name, window_id, session_id), call),
    ensures
        goes_to(call, service_name@, "/Windows/"@ + window_id@, "org.kde.konsole.Window"@, "setCurrentSession"@),
        call.body == Body::Int(session_id),
{
}

/// A session is opened by the window that is told, with the empty profile and in the
/// directory that is told.
pub proof fn law_session_is_opened_by_the_window(service_name: &str, window_id: &str, directory: PathBuf, call: MethodCall)
    requires
        call_ensures(new_session_call, (service_name, window_id, directory), call),
    ensures
        goes_to(call, service_name@, "/Windows/"@ + window_id@, "org.kde.konsole.Window"@, "newSession"@),
        call.body matches Body::StrPath(profile, path) && profile@.len() == 0 && path == directory,
{
    reveal_strlit("");
}

/// The process ID of a session is asked of the object that the ID of the session names.
pub proof fn law_process_of_a_session_is_asked_of_the_session(service_name: &str, session_id: i32, call: MethodCall)
    requires
        call_ensures(get_session_pid_call, (service_name, session_id), call),
    ensures
        goes_to(call, service_name@, "/Sessions/"@ + decimal(session_id as int), "org.kde.konsole.Session"@, "processId"@),
        call.body is Empty,
{
}

/// The process ID of a service is asked of the bus, by the name of the service.
pub proof fn law_process_of_a_service_is_asked_of_the_bus(service_name: &str, call: MethodCall)
    requires
        call_ensures(get_service_pid_call, (service_name,), call),
    ensures
        goes_to(call, "org.freedesktop.DBus"@, "/"@, "org.freedesktop.DBus"@, "GetConnectionUnixProcessID"@),
        call.body matches Body::Str(name) && name@ == service_name@,
{
}

/// The names told as those of services are the names on the bus that are `org.kde.konsole` followed by
/// any text at all: each of them, in order, and no other.
pub proof fn law_told_services_are_those_of_konsole(reply: Option<ReplyView>)
    ensures
        match replied_strs(reply) {
            Some(names) => {
                &&& told_services(reply) is Some
                &&& exists|at: Seq<int>| #[trigger]
                    picked(names, told_services(reply)->Some_0, at) && forall|i: int|
                        0 <= i < names.len() ==> (at.contains(i) <==> exists|rest: Seq<char>| #[trigger]
                            ("org.kde.konsole"@ + rest) == names[i])
            },
            None => told_services(reply) is None,
        },
{
    if let Some(names) = replied_strs(reply) {
        let keeps = |name: Seq<char>| is_konsole(name);
        let at = lemma_filter_picks(names, keeps);
        assert forall|i: int| 0 <= i < names.len() implies (at.contains(i) <==> exists|rest: Seq<char>| #[trigger]
            ("org.kde.konsole"@ + rest) == names[i]) by {
            let prefix = "org.kde.konsole"@;
            let name = names[i];
            assert(at.contains(i) <==> keeps(names[i]));
            if keeps(name) {
                let rest = name.subrange(prefix.len() as int, name.len() as int);
                assert(prefix + rest =~= name);
            }
            if exists|rest: Seq<char>| #[trigger] (prefix + rest) == name {
                let rest = choose|rest: Seq<char>| #[trigger] (prefix + rest) == name;
                assert((prefix + rest).subrange(0, prefix.len() as int) =~= prefix);
                assert(prefix.is_prefix_of(name));
            }
        }
        assert(picked(names, told_services(reply)->Some_0, at));
    }
}

/// The services that are listed are the names in the reply that are `org.kde.konsole` followed by any
/// text at all: each of them, in order, and no other. They are listed whenever the reply can be read.
pub proof fn law_listed_services_are_those_of_konsole(
    reply: Result<Reply, zbus::Error>,
    res: Result<Vec<String>, zbus::Error>,
)
    requires
        call_ensures(list_services, (reply,), res),
    ensures
        match reply {
            Ok(held) => match string_array(held.signature@, held.big_endian, held.bytes@) {
                Some(names) => {
                    &&& res is Ok
                    &&& exists|at: Seq<int>|
                        {
                            &&& #[trigger] at.len() == res->Ok_0@.len()
                            &&& forall|k: int|
                                0 <= k < at.len() ==> 0 <= #[trigger] at[k] < names.len() && res->Ok_0@[k]@
                                    == names[at[k]]
                            &&& forall|j: int, k: int| 0 <= j < k < at.len() ==> #[trigger] at[j] < #[trigger] at[k]
                            &&& forall|i: int|
                                0 <= i < names.len() ==> (at.contains(i) <==> exists|rest: Seq<char>| #[trigger]
                                    ("org.kde.konsole"@ + rest) == names[i])
                        }
                },
                None => res matches Err(e) && refused_strs(held, e),
            },
            Err(e) => res == Err::<Vec<String>, zbus::Error>(e),
        },
{
    law_told_services_are_those_of_konsole(reply_view(reply));
    if let Ok(held) = reply {
        if let Some(names) = string_array(held.signature@, held.big_endian, held.bytes@) {
            let services = res->Ok_0@;
            let at = choose|at: Seq<int>| #[trigger]
                picked(names, told_services(reply_view(reply))->Some_0, at) && forall|i: int|
                    0 <= i < names.len() ==> (at.contains(i) <==> exists|rest: Seq<char>| #[trigger]
                        ("org.kde.konsole"@ + rest) == names[i]);
            assert forall|k: int| 0 <= k < at.len() implies 0 <= #[trigger] at[k] < names.len() && services[k]@
                == names[at[k]] by {
                assert(texts(services)[k] == services[k]@);
            }
            assert(at.len() == services.len());
        }
    }
}

/// The names that are there are those of the nodes with a name: each of them, in order, and no other.
pub proof fn law_present_names_are_those_of_named_nodes(nodes: Seq<Option<Seq<char>>>)
    ensures
        exists|at: Seq<int>|
            {
                &&& #[trigger] at.len() == present(nodes).len()
                &&& forall|k: int|
                    0 <= k < at.len() ==> 0 <= #[trigger] at[k] < nodes.len() && nodes[at[k]] == Some(present(nodes)[k])
                &&& forall|j: int, k: int| 0 <= j < k < at.len() ==> #[trigger] at[j] < #[trigger] at[k]
                &&& forall|i: int| 0 <= i < nodes.len() ==> (at.contains(i) <==> #[trigger] nodes[i] is Some)
            },
{
    let keeps = |name: Option<Seq<char>>| name is Some;
    let at = lemma_filter_picks(nodes, keeps);
    assert forall|k: int| 0 <= k < at.len() implies 0 <= #[trigger] at[k] < nodes.len() && nodes[at[k]] == Some(
        present(nodes)[k],
    ) by {
        assert(nodes.filter(keeps)[k] == nodes[at[k]]);
        assert(at.contains(at[k]));
        assert(keeps(nodes[at[k]]));
    }
    assert forall|i: int| 0 <= i < nodes.len() implies (at.contains(i) <==> #[trigger] nodes[i] is Some) by {
        assert(at.contains(i) <==> keeps(nodes[i]));
    }
    assert(at.len() == present(nodes).len());
}

/// The windows of a service are the nodes with a name that its description has, whenever the
/// description is a text, and a document that zbus_xml reads. Otherwise the one that fails is told.
pub proof fn law_windows_are_told_by_the_description(reply: Option<ReplyView>)
    ensures
        match replied_str(reply) {
            Some(xml) => match child_names(xml) {
                Some(nodes) => told_windows(reply) == Ok::<Seq<Seq<char>>, ListWindowsFailure>(present(nodes))
                    && told_nodes(reply) == Ok::<Seq<Option<Seq<char>>>, ListWindowsFailure>(nodes),
                None => told_windows(reply) == Err::<Seq<Seq<char>>, ListWindowsFailure>(
                    ListWindowsFailure::ParseIntrospection,
                ) && told_nodes(reply) == Err::<Seq<Option<Seq<char>>>, ListWindowsFailure>(
                    ListWindowsFailure::ParseIntrospection,
                ),
            },
            None => told_windows(reply) == Err::<Seq<Seq<char>>, ListWindowsFailure>(
                ListWindowsFailure::GetIntrospection,
            ) && told_nodes(reply) == Err::<Seq<Option<Seq<char>>>, ListWindowsFailure>(
                ListWindowsFailure::GetIntrospection,
            ),
        },
{
}

/// The windows that are listed have the names of the nodes with a name in the description: each of them,
/// in order, and no other. An error tells whether the description is no text or no document.
pub proof fn law_listed_windows_are_the_named_nodes(
    reply: Result<Reply, zbus::Error>,
    res: Result<Vec<String>, ListWindowsError>,
)
    requires
        call_ensures(list_windows, (reply,), res),
    ensures
        match reply {
            Ok(held) => match held_str(held@) {
                Some(xml) => match child_names(xml) {
                    Some(nodes) => {
                        &&& res is Ok
                        &&& exists|at: Seq<int>|
                            {
                                &&& #[trigger] at.len() == res->Ok_0@.len()
                                &&& forall|k: int|
                                    0 <= k < at.len() ==> 0 <= #[trigger] at[k] < nodes.len() && nodes[at[k]] == Some(
                                        res->Ok_0@[k]@,
                                    )
                                &&& forall|j: int, k: int| 0 <= j < k < at.len() ==> #[trigger] at[j] < #[trigger] at[k]
                                &&& forall|i: int|
                                    0 <= i < nodes.len() ==> (at.contains(i) <==> #[trigger] nodes[i] is Some)
                            }
                    },
                    None => res matches Err(ListWindowsError::ParseIntrospection { source }) && refused_xml(xml, source),
                },
                None => res matches Err(ListWindowsError::GetIntrospection { source }) && refused_str(held, source),
            },
            Err(source) => res == Err::<Vec<String>, ListWindowsError>(ListWindowsError::GetIntrospection { source }),
        },
{
    law_windows_are_told_by_the_description(reply_view(reply));
    if let Ok(held) = reply {
        if let Some(xml) = held_str(held@) {
            if let Some(nodes) = child_names(xml) {
                law_present_names_are_those_of_named_nodes(nodes);
                let windows = res->Ok_0@;
                let at = choose|at: Seq<int>|
                    {
                        &&& #[trigger] at.len() == present(nodes).len()
                        &&& forall|k: int|
                            0 <= k < at.len() ==> 0 <= #[trigger] at[k] < nodes.len() && nodes[at[k]] == Some(
                                present(nodes)[k],
                            )
                        &&& forall|j: int, k: int| 0 <= j < k < at.len() ==> #[trigger] at[j] < #[trigger] at[k]
                        &&& forall|i: int| 0 <= i < nodes.len() ==> (at.contains(i) <==> #[trigger] nodes[i] is Some)
                    };
                assert forall|k: int| 0 <= k < at.len() implies 0 <= #[trigger] at[k] < nodes.len() && nodes[at[k]]
                    == Some(windows[k]@) by {
                    assert(texts(windows)[k] == windows[k]@);
                }
                assert(at.len() == windows.len());
            }
        }
    }
}

/// Whether the first text of a list that is no integer is the one given.
pub open spec fn is_first_bad(list: Seq<Seq<char>>, input: Seq<char>) -> bool {
    exists|k: int|
        {
            &&& 0 <= k < list.len()
            &&& #[trigger] list[k] == input
            &&& parsed(input) is None
            &&& forall|j: int| 0 <= j < k ==> parsed(#[trigger] list[j]) is Some
        }
}

/// Sessions are told as many as there are texts in the reply, each with the integer that the text at its
/// place stands for; or else the first text that stands for none is told, or that there are no texts.
pub proof fn law_told_sessions_are_the_integers_of_the_reply(reply: Option<ReplyView>)
    ensures
        match replied_strs(reply) {
            Some(list) => match told_sessions(reply) {
                Ok(ids) => {
                    &&& ids.len() == list.len()
                    &&& forall|k: int| 0 <= k < list.len() ==> parsed(#[trigger] list[k]) == Some(ids[k])
                },
                Err(ListSessionsFailure::ParseSessionId { input }) => is_first_bad(list, input),
                Err(ListSessionsFailure::CallSessionList) => false,
            },
            None => told_sessions(reply) == Err::<Seq<i32>, ListSessionsFailure>(ListSessionsFailure::CallSessionList),
        },
{
    if let Some(list) = replied_strs(reply) {
        lemma_parsed_all(list);
        if parsed_all(list) is Err {
            assert(list[first_unparsed(list)->Some_0] == parsed_all(list)->Err_0);
        }
    }
}

/// Session IDs are read from as many texts as there are, each as the integer that it stands for, in
/// order; or else the first text that stands for none is told.
pub proof fn law_session_ids_are_the_integers_of_the_texts(
    ids: Vec<String>,
    res: Result<Vec<i32>, ListSessionsError>,
)
    requires
        call_ensures(parse_session_ids, (ids,), res),
    ensures
        match res {
            Ok(sessions) => {
                &&& sessions@.len() == ids@.len()
                &&& forall|k: int| 0 <= k < ids@.len() ==> parsed((#[trigger] ids@[k])@) == Some(sessions@[k])
            },
            Err(ListSessionsError::ParseSessionId { source, input }) => is_first_bad(texts(ids@), input@) && refused_text(input@, source),
            Err(ListSessionsError::CallSessionList { .. }) => false,
        },
{
    lemma_parsed_all(texts(ids@));
    assert(forall|k: int| 0 <= k < ids@.len() ==> texts(ids@)[k] == (#[trigger] ids@[k])@);
    if parsed_all(texts(ids@)) is Err {
        assert(texts(ids@)[first_unparsed(texts(ids@))->Some_0] == parsed_all(texts(ids@))->Err_0);
    }
}

/// The sessions that are listed are as many as the texts in the reply, each the integer that the text at
/// its place stands for; or else the first text that stands for none is told, or that the reply holds
/// no texts.
pub proof fn law_listed_sessions_are_the_integers_of_the_reply(
    reply: Result<Reply, zbus::Error>,
    res: Result<Vec<i32>, ListSessionsError>,
)
    requires
        call_ensures(list_sessions, (reply,), res),
    ensures
        match reply {
            Ok(held) => match string_array(held.signature@, held.big_endian, held.bytes@) {
                Some(list) => match res {
                    Ok(ids) => {
                        &&& ids@.len() == list.len()
                        &&& forall|k: int| 0 <= k < list.len() ==> parsed(#[trigger] list[k]) == Some(ids@[k])
                    },
                    Err(ListSessionsError::ParseSessionId { source, input }) => is_first_bad(list, input@) && refused_text(input@, source),
                    Err(ListSessionsError::CallSessionList { .. }) => false,
                },
                None => res matches Err(ListSessionsError::CallSessionList { source }) && refused_strs(held, source),
            },
            Err(source) => res == Err::<Vec<i32>, ListSessionsError>(ListSessionsError::CallSessionList { source }),
        },
{
    law_told_sessions_are_the_integers_of_the_reply(reply_view(reply));
}

} // verus!

//! The Konsole services on the bus.
use crate::dbus::{
    child_names, fault_str, fault_strs, fault_u32, goes_to, held_str, held_u32, names, refused_str, refused_strs, refused_u32,
    refused_xml, replied_str,
    replied_u32, reply_u32, reply_view, string_array, Body, MethodCall, Reply, ReplyView,
};
use crate::konsole;
use crate::konsole::{
    law_present_names_are_those_of_named_nodes, law_told_services_are_those_of_konsole,
    law_windows_are_told_by_the_description, present, told_nodes, told_services,
};
use crate::text::{first_unparsed, lemma_parsed_all, parse_all, parsed, parsed_all, picked, refused_text, texts};
use crate::window::{windows_of, Window};
use std::fmt::{Debug, DebugStruct, Formatter};
use std::num::ParseIntError;
use vstd::prelude::*;

verus! {

/// A running Konsole, by its name on the bus.
pub struct Service {
    pub name: String,
}

/// `Formatter::debug_struct` begins to write a structure with a name. What it writes is left unsaid.
#[verifier::external_body]
fn debug_struct<'a, 'b>(f: &'a mut Formatter<'b>, name: &str) -> (res: DebugStruct<'a, 'b>) {
    f.debug_struct(name)
}

/// `DebugStruct::field` writes a field that holds a text. What it writes is left unsaid.
#[verifier::external_body]
fn debug_field<'a, 'b>(structure: DebugStruct<'a, 'b>, name: &str, value: &String) -> (res: DebugStruct<'a, 'b>) {
    let mut structure = structure;
    structure.field(name, value);
    structure
}

/// `DebugStruct::finish_non_exhaustive` ends a structure, with a sign that there is more to it. What
/// it writes is left unsaid.
#[verifier::external_body]
fn debug_finish(structure: DebugStruct<'_, '_>) -> (res: Result<(), std::fmt::Error>) {
    let mut structure = structure;
    structure.finish_non_exhaustive()
}

/// Whether a result comes of writing a service to a formatter as a structure that shows its name, and
/// that there is more to it.
pub closed spec fn written<'a, 'b>(
    service: Service,
    writer: &'a mut Formatter<'b>,
    res: Result<(), std::fmt::Error>,
) -> bool {
    exists|opened: DebugStruct<'a, 'b>, filled: DebugStruct<'a, 'b>|
        call_ensures(debug_struct, (writer, "Service"), opened)
            && #[trigger] call_ensures(debug_field, (opened, "name", &service.name), filled)
            && call_ensures(debug_finish, (filled,), res)
}

impl Debug for Service {
    /// Writes the name of the service, and that there is more to a service; nothing else is written.
    fn fmt(&self, f: &mut Formatter<'_>) -> (res: Result<(), std::fmt::Error>)
        ensures
            exists|writer: &mut Formatter<'_>|
                *writer == *old(f) && *final(writer) == *final(f) && #[trigger] written(*self, writer, res),
    {
        let opened = debug_struct(f, "Service");
        let filled = debug_field(opened, "name", &self.name);
        let res = debug_finish(filled);
        proof {
            let writer = choose|writer: &mut Formatter<'_>|
                *writer == *old(f) && *final(writer) == *final(f) && #[trigger] call_ensures(
                    debug_struct,
                    (writer, "Service"),
                    opened,
                );
            assert(written(*self, writer, res));
        }
        res
    }
}

impl Clone for Service {
    fn clone(&self) -> (res: Self)
        ensures
            res == *self,
    {
        Service { name: self.name.clone() }
    }
}

/// The names of a list of services.
pub open spec fn service_names(services: Seq<Service>) -> Seq<Seq<char>> {
    services.map_values(|service: Service| service.name@)
}

/// Takes names on the bus for services.
pub fn services_named(list: Vec<String>) -> (res: Vec<Service>)
    ensures
        service_names(res@) == texts(list@),
{
    let mut services: Vec<Service> = Vec::new();
    let mut k: usize = 0;
    while k < list.len()
        invariant
            k <= list.len(),
            service_names(services@) == texts(list@).take(k as int),
        decreases list.len() - k,
    {
        let ghost before = services@;
        services.push(Service { name: list[k].clone() });
        assert(service_names(services@) =~= service_names(before).push(list@[k as int]@));
        assert(texts(list@).take(k + 1) =~= texts(list@).take(k as int).push(list@[k as int]@));
        k = k + 1;
    }
    assert(texts(list@).take(k as int) =~= texts(list@));
    services
}

/// Reads the Konsole services from the reply to the call for the names on the bus.
pub fn list_services(reply: Result<Reply, zbus::Error>) -> (res: Result<Vec<Service>, zbus::Error>)
    ensures
        match res {
            Ok(services) => told_services(reply_view(reply)) == Some(service_names(services@)),
            Err(e) => {
                &&& told_services(reply_view(reply)) is None
                &&& fault_strs(reply, e)
            },
        },
{
    match konsole::list_services(reply) {
        Ok(list) => Ok(services_named(list)),
        Err(e) => Err(e),
    }
}

/// Why the windows of a service cannot be listed.
#[derive(Debug)]
pub enum ListWindowsError {
    GetIntrospection { source: zbus::Error },
    ParseIntrospection { source: zbus_xml::Error },
    ParseWindowId { source: ParseIntError, input: String },
}

/// Why the windows of a service cannot be listed, without the underlying error.
pub enum ListWindowsFailure {
    GetIntrospection,
    ParseIntrospection,
    ParseWindowId { input: Seq<char> },
}

impl View for ListWindowsError {
    type V = ListWindowsFailure;

    open spec fn view(&self) -> ListWindowsFailure {
        match self {
            ListWindowsError::GetIntrospection { .. } => ListWindowsFailure::GetIntrospection,
            ListWindowsError::ParseIntrospection { .. } => ListWindowsFailure::ParseIntrospection,
            ListWindowsError::ParseWindowId { input, .. } => ListWindowsFailure::ParseWindowId { input: input@ },
        }
    }
}

impl ListWindowsError {
    /// Whether the underlying error is the one of the step that failed: of the call for the
    /// description or the reading of the reply, of the parse of the document in the reply, or of the
    /// reading of the ID.
    pub open spec fn comes_of(self, reply: Result<Reply, zbus::Error>) -> bool {
        match self {
            ListWindowsError::GetIntrospection { source } => fault_str(reply, source),
            ListWindowsError::ParseIntrospection { source } => {
                &&& replied_str(reply_view(reply)) matches Some(xml)
                &&& refused_xml(xml, source)
            },
            ListWindowsError::ParseWindowId { source, input } => refused_text(input@, source),
        }
    }
}

/// The window IDs that the names of nodes stand for, or the first name that stands for none. Nodes
/// without a name are passed over.
pub open spec fn window_ids(nodes: Seq<Option<Seq<char>>>) -> Result<Seq<i32>, ListWindowsFailure> {
    match parsed_all(present(nodes)) {
        Ok(ids) => Ok(ids),
        Err(input) => Err(ListWindowsFailure::ParseWindowId { input }),
    }
}

/// The IDs of the windows of a service, as its description tells them.
pub open spec fn told_window_ids(reply: Option<ReplyView>) -> Result<Seq<i32>, ListWindowsFailure> {
    match told_nodes(reply) {
        Ok(nodes) => window_ids(nodes),
        Err(konsole::ListWindowsFailure::GetIntrospection) => Err(ListWindowsFailure::GetIntrospection),
        Err(konsole::ListWindowsFailure::ParseIntrospection) => Err(ListWindowsFailure::ParseIntrospection),
    }
}

impl Service {
    /// Asks the service for a description of its windows.
    pub fn windows_call(&self) -> (res: MethodCall)
        ensures
            res@ == konsole::windows_request(self.name@),
    {
        konsole::list_windows_call(self.name.as_str())
    }

    /// Takes the nodes below the windows object of the service for its windows.
    pub fn windows_named(&self, nodes: Vec<Option<String>>) -> (res: Result<Vec<Window>, ListWindowsError>)
        ensures
            match res {
                Ok(windows) => exists|ids: Seq<i32>|
                    window_ids(names(nodes@)) == Ok::<Seq<i32>, ListWindowsFailure>(ids) && windows@
                        == #[trigger] windows_of(*self, ids),
                Err(e) => {
                    &&& window_ids(names(nodes@)) == Err::<Seq<i32>, ListWindowsFailure>(e@)
                    &&& e matches ListWindowsError::ParseWindowId { source, input }
                    &&& refused_text(input@, source)
                },
            },
    {
        let list = konsole::present_names(nodes);
        let ids = match parse_all(list) {
            Ok(ids) => ids,
            Err(e) => {
                return Err(ListWindowsError::ParseWindowId { source: e.source, input: e.input });
            },
        };
        let mut windows: Vec<Window> = Vec::new();
        let mut k: usize = 0;
        while k < ids.len()
            invariant
                k <= ids.len(),
                windows@ == windows_of(*self, ids@.take(k as int)),
            decreases ids.len() - k,
        {
            windows.push(Window { service: self.clone(), id: ids[k] });
            assert(windows@ =~= windows_of(*self, ids@.take(k + 1)));
            k = k + 1;
        }
        assert(ids@.take(k as int) =~= ids@);
        Ok(windows)
    }

    /// Reads the windows of the service from its description.
    pub fn windows(&self, reply: Result<Reply, zbus::Error>) -> (res: Result<Vec<Window>, ListWindowsError>)
        ensures
            match res {
                Ok(windows) => exists|ids: Seq<i32>|
                    told_window_ids(reply_view(reply)) == Ok::<Seq<i32>, ListWindowsFailure>(ids) && windows@
                        == #[trigger] windows_of(*self, ids),
                Err(e) => {
                    &&& told_window_ids(reply_view(reply)) == Err::<Seq<i32>, ListWindowsFailure>(e@)
                    &&& e.comes_of(reply)
                },
            },
    {
        match konsole::list_nodes(reply) {
            Ok(nodes) => self.windows_named(nodes),
            Err(konsole::ListWindowsError::GetIntrospection { source }) => Err(
                ListWindowsError::GetIntrospection { source },
            ),
            Err(konsole::ListWindowsError::ParseIntrospection { source }) => Err(
                ListWindowsError::ParseIntrospection { source },
            ),
        }
    }

    /// Asks the bus for the process ID of the service.
    pub fn pid_call(&self) -> (res: MethodCall)
        ensures
            res@ == konsole::service_pid_request(self.name@),
    {
        konsole::get_service_pid_call(self.name.as_str())
    }

    /// Reads the process ID of the service from the reply of the bus.
    pub fn pid(&self, reply: Result<Reply, zbus::Error>) -> (res: Result<u32, zbus::Error>)
        ensures
            match res {
                Ok(pid) => replied_u32(reply_view(reply)) == Some(pid),
                Err(e) => {
                    &&& replied_u32(reply_view(reply)) is None
                    &&& fault_u32(reply, e)
                },
            },
    {
        reply_u32(reply)
    }
}

/// A service is asked for its own windows.
pub proof fn law_service_is_asked_for_its_windows(service: Service, call: MethodCall)
    requires
        call_ensures(Service::windows_call, (&service,), call),
    ensures
        goes_to(call, service.name@, "/Windows"@, "org.freedesktop.DBus.Introspectable"@, "Introspect"@),
        call.body is Empty,
{
}

/// The bus is asked for the process ID of a service by its name.
pub proof fn law_bus_is_asked_for_the_process_of_the_service(service: Service, call: MethodCall)
    requires
        call_ensures(Service::pid_call, (&service,), call),
    ensures
        goes_to(call, "org.freedesktop.DBus"@, "/"@, "org.freedesktop.DBus"@, "GetConnectionUnixProcessID"@),
        call.body matches Body::Str(name) && name@ == service.name@,
{
}

/// The services that are listed have the names in the reply that are `org.kde.konsole` followed by any
/// text at all: each of them, in order, and no other.
pub proof fn law_services_have_the_names_of_konsole(
    reply: Result<Reply, zbus::Error>,
    res: Result<Vec<Service>, zbus::Error>,
)
    requires
        call_ensures(list_services, (reply,), res),
    ensures
        match reply {
            Ok(held) => match string_array(held.signature@, held.big_endian, held.bytes@) {
                Some(names) => {
                    &&& res is Ok
                    &&& exists|at: Seq<int>|
                        {
                            &&& #[trigger] at.len() == res->Ok_0@.len()
                            &&& forall|k: int|
                                0 <= k < at.len() ==> 0 <= #[trigger] at[k] < names.len() && res->Ok_0@[k].name@
                                    == names[at[k]]
                            &&& forall|j: int, k: int| 0 <= j < k < at.len() ==> #[trigger] at[j] < #[trigger] at[k]
                            &&& forall|i: int|
                                0 <= i < names.len() ==> (at.contains(i) <==> exists|rest: Seq<char>| #[trigger]
                                    ("org.kde.konsole"@ + rest) == names[i])
                        }
                },
                None => res matches Err(e) && refused_strs(held, e),
            },
            Err(e) => res == Err::<Vec<Service>, zbus::Error>(e),
        },
{
    law_told_services_are_those_of_konsole(reply_view(reply));
    if let Ok(held) = reply {
        if let Some(names) = string_array(held.signature@, held.big_endian, held.bytes@) {
            let services = res->Ok_0@;
            let at = choose|at: Seq<int>| #[trigger]
                picked(names, told_services(reply_view(reply))->Some_0, at) && forall|i: int|
                    0 <= i < names.len() ==> (at.contains(i) <==> exists|rest: Seq<char>| #[trigger]
                        ("org.kde.konsole"@ + rest) == names[i]);
            assert forall|k: int| 0 <= k < at.len() implies 0 <= #[trigger] at[k] < names.len() && services[k].name@
                == names[at[k]] by {
                assert(service_names(services)[k] == services[k].name@);
            }
            assert(at.len() == services.len());
        }
    }
}

/// Each name in a list is taken for a service of that name, in order.
pub proof fn law_each_name_is_a_service(list: Vec<String>, services: Vec<Service>)
    requires
        call_ensures(services_named, (list,), services),
    ensures
        services@.len() == list@.len(),
        forall|k: int| 0 <= k < list@.len() ==> (#[trigger] services@[k]).name@ == list@[k]@,
{
    assert(service_names(services@).len() == texts(list@).len());
    assert forall|k: int| 0 <= k < list@.len() implies (#[trigger] services@[k]).name@ == list@[k]@ by {
        assert(service_names(services@)[k] == texts(list@)[k]);
    }
}

/// Whether windows are those of a service at the nodes with a name: each of them, in order, and no
/// other, with the integer that the name stands for.
pub open spec fn windows_at(service: Service, nodes: Seq<Option<Seq<char>>>, windows: Seq<Window>, at: Seq<int>) -> bool {
    &&& at.len() == windows.len()
    &&& forall|k: int|
        0 <= k < at.len() ==> {
            &&& 0 <= #[trigger] at[k] < nodes.len()
            &&& nodes[at[k]] is Some
            &&& parsed(nodes[at[k]]->Some_0) == Some(windows[k].id)
            &&& windows[k].service == service
        }
    &&& forall|j: int, k: int| 0 <= j < k < at.len() ==> #[trigger] at[j] < #[trigger] at[k]
    &&& forall|i: int| 0 <= i < nodes.len() ==> (at.contains(i) <==> #[trigger] nodes[i] is Some)
}

/// Whether some node has a name that stands for no integer, and it is the first such name.
pub open spec fn is_first_bad_node(nodes: Seq<Option<Seq<char>>>, input: Seq<char>) -> bool {
    exists|i: int|
        {
            &&& 0 <= i < nodes.len()
            &&& #[trigger] nodes[i] == Some(input)
            &&& parsed(input) is None
            &&& forall|j: int| 0 <= j < i && #[trigger] nodes[j] is Some ==> parsed(nodes[j]->Some_0) is Some
        }
}

proof fn lemma_window_ids(nodes: Seq<Option<Seq<char>>>) -> (at: Seq<int>)
    ensures
        match window_ids(nodes) {
            Ok(ids) => forall|service: Service| #[trigger] windows_at(service, nodes, windows_of(service, ids), at),
            Err(ListWindowsFailure::ParseWindowId { input }) => is_first_bad_node(nodes, input),
            Err(_) => false,
        },
{
    law_present_names_are_those_of_named_nodes(nodes);
    lemma_parsed_all(present(nodes));
    let at = choose|at: Seq<int>|
        {
            &&& #[trigger] at.len() == present(nodes).len()
            &&& forall|k: int|
                0 <= k < at.len() ==> 0 <= #[trigger] at[k] < nodes.len() && nodes[at[k]] == Some(present(nodes)[k])
            &&& forall|j: int, k: int| 0 <= j < k < at.len() ==> #[trigger] at[j] < #[trigger] at[k]
            &&& forall|i: int| 0 <= i < nodes.len() ==> (at.contains(i) <==> #[trigger] nodes[i] is Some)
        };
    if let Ok(ids) = window_ids(nodes) {
        assert forall|service: Service| #[trigger] windows_at(service, nodes, windows_of(service, ids), at) by {
            let windows = windows_of(service, ids);
            assert forall|k: int| 0 <= k < at.len() implies {
                &&& 0 <= #[trigger] at[k] < nodes.len()
                &&& nodes[at[k]] is Some
                &&& parsed(nodes[at[k]]->Some_0) == Some(windows[k].id)
                &&& windows[k].service == service
            } by {
                assert(parsed(present(nodes)[k]) == Some(ids[k]));
            }
        }
    } else {
        let k = first_unparsed(present(nodes))->Some_0;
        let i = at[k];
        assert(nodes[i] == Some(present(nodes)[k]));
        assert forall|j: int| 0 <= j < i && #[trigger] nodes[j] is Some implies parsed(nodes[j]->Some_0) is Some by {
            assert(at.contains(j));
            let l = choose|l: int| 0 <= l < at.len() && at[l] == j;
            if k < l {
                assert(at[k] < at[l]);
            }
            assert(nodes[at[l]] == Some(present(nodes)[l]));
            assert(parsed(present(nodes)[l]) is Some);
        }
    }
    at
}

/// The windows of a service are those at the nodes with a name that its description has: each of them,
/// in order, and no other, with the integer that the name stands for. Otherwise the first name that
/// stands for none is told, or that there is no document, or no text.
pub proof fn law_windows_are_at_the_named_nodes(
    service: Service,
    reply: Result<Reply, zbus::Error>,
    res: Result<Vec<Window>, ListWindowsError>,
)
    requires
        call_ensures(Service::windows, (&service, reply), res),
    ensures
        match reply {
            Ok(held) => match held_str(held@) {
                Some(xml) => match child_names(xml) {
                    Some(nodes) => match res {
                        Ok(windows) => exists|at: Seq<int>| windows_at(service, nodes, windows@, at),
                        Err(ListWindowsError::ParseWindowId { source, input }) => is_first_bad_node(nodes, input@) && refused_text(
                input@,
                source,
            ),
                        Err(_) => false,
                    },
                    None => res matches Err(ListWindowsError::ParseIntrospection { source }) && refused_xml(xml, source),
                },
                None => res matches Err(ListWindowsError::GetIntrospection { source }) && refused_str(held, source),
            },
            Err(source) => res == Err::<Vec<Window>, ListWindowsError>(ListWindowsError::GetIntrospection { source }),
        },
{
    law_windows_are_told_by_the_description(reply_view(reply));
    if let Ok(held) = reply {
        if let Some(xml) = held_str(held@) {
            if let Some(nodes) = child_names(xml) {
                let at = lemma_window_ids(nodes);
                if let Ok(windows) = res {
                    assert(windows_at(service, nodes, windows_of(service, window_ids(nodes)->Ok_0), at));
                    assert(windows_at(service, nodes, windows@, at));
                }
            }
        }
    }
}

/// The windows taken from nodes are those at the nodes with a name: each of them, in order, and no
/// other, with the integer that the name stands for; or the first name that stands for none is told.
pub proof fn law_named_nodes_are_taken_for_windows(
    service: Service,
    nodes: Vec<Option<String>>,
    res: Result<Vec<Window>, ListWindowsError>,
)
    requires
        call_ensures(Service::windows_named, (&service, nodes), res),
    ensures
        match res {
            Ok(windows) => exists|at: Seq<int>| windows_at(service, names(nodes@), windows@, at),
            Err(ListWindowsError::ParseWindowId { source, input }) => is_first_bad_node(names(nodes@), input@) && refused_text(
                input@,
                source,
            ),
            Err(_) => false,
        },
{
    let at = lemma_window_ids(names(nodes@));
    if let Ok(windows) = res {
        assert(windows_at(service, names(nodes@), windows_of(service, window_ids(names(nodes@))->Ok_0), at));
        assert(windows_at(service, names(nodes@), windows@, at));
    }
}

/// The process ID of a service is the `u32` in the reply.
pub proof fn law_process_of_a_service_is_in_the_reply(
    service: Service,
    reply: Result<Reply, zbus::Error>,
    res: Result<u32, zbus::Error>,
)
    requires
        call_ensures(Service::pid, (&service, reply), res),
    ensures
        match reply {
            Ok(held) => match held_u32(held@) {
                Some(pid) => res == Ok::<u32, zbus::Error>(pid),
                None => res matches Err(e) && refused_u32(held, e),
            },
            Err(e) => res == Err::<u32, zbus::Error>(e),
        },
{
}

/// A service is written as a structure named `Service`, with the one field `name` that holds its name, and
/// with the sign that there is more to it.
proof fn law_service_is_written_with_its_name<'a, 'b>(
    service: Service,
    writer: &'a mut Formatter<'b>,
    res: Result<(), std::fmt::Error>,
)
    requires
        written(service, writer, res),
    ensures
        exists|opened: DebugStruct<'a, 'b>, filled: DebugStruct<'a, 'b>|
            call_ensures(debug_struct, (writer, "Service"), opened) && #[trigger] call_ensures(
                debug_field,
                (opened, "name", &service.name),
                filled,
            ) && call_ensures(debug_finish, (filled,), res),
{
}

} // verus!

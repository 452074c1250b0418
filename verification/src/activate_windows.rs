//! The activation of the windows of a process, by a script that KWin runs once.
use crate::dbus::{
    fault_i32, fault_unit, goes_to, held_i32, law_a_call_brings_back_what_its_reply_holds, method_call, refused_i32,
    refused_unit, replied_i32,
    replied_unit, reply_i32, reply_unit, Body, BodyView, CallView, MethodCall, ReplyView,
};
use crate::exchange::{answers, Action, ActionView, Event, EventView, Progress, ProgressView};
use crate::text::{decimal, decimal_text, law_decimal_parses_back, parsed};
use std::io;
use std::path::PathBuf;
use vstd::prelude::*;
use vstd::string::*;

verus! {

/// Why windows cannot be activated.
#[derive(Debug)]
pub enum ActivateWindowsError {
    CreateTempfile { source: io::Error },
    RenderTemplate { source: io::Error },
    LoadScript { source: zbus::Error },
    RunScript { source: zbus::Error },
    StopScript { source: zbus::Error },
}

/// Why windows cannot be activated, without the underlying error.
pub enum ActivateWindowsFailure {
    CreateTempfile,
    RenderTemplate,
    LoadScript,
    RunScript,
    StopScript,
}

impl View for ActivateWindowsError {
    type V = ActivateWindowsFailure;

    open spec fn view(&self) -> ActivateWindowsFailure {
        match self {
            ActivateWindowsError::CreateTempfile { .. } => ActivateWindowsFailure::CreateTempfile,
            ActivateWindowsError::RenderTemplate { .. } => ActivateWindowsFailure::RenderTemplate,
            ActivateWindowsError::LoadScript { .. } => ActivateWindowsFailure::LoadScript,
            ActivateWindowsError::RunScript { .. } => ActivateWindowsFailure::RunScript,
            ActivateWindowsError::StopScript { .. } => ActivateWindowsFailure::StopScript,
        }
    }
}

impl ActivateWindowsError {
    /// Whether the underlying error is the one that an event brings, or that the reading of the reply in
    /// it comes to.
    pub open spec fn comes_of(self, event: Event) -> bool {
        match self {
            ActivateWindowsError::CreateTempfile { source } => event == Event::CreateTempfile(Err(source)),
            ActivateWindowsError::RenderTemplate { source } => event == Event::RenderScript(Err(source)),
            ActivateWindowsError::LoadScript { source } => event matches Event::Call(reply) && fault_i32(reply, source),
            ActivateWindowsError::RunScript { source } => event matches Event::Call(reply) && fault_unit(reply, source),
            ActivateWindowsError::StopScript { source } => event matches Event::Call(reply) && fault_unit(reply, source),
        }
    }
}

/// The call that loads a script.
pub open spec fn load_script_request(path: PathBuf) -> CallView {
    CallView {
        destination: "org.kde.KWin"@,
        path: "/Scripting"@,
        interface: "org.kde.kwin.Scripting"@,
        member: "loadScript"@,
        body: BodyView::Path(path),
    }
}

/// The object of a loaded script.
pub open spec fn script_object(script_id: i32) -> Seq<char> {
    "/Scripting/Script"@ + decimal(script_id as int)
}

/// The call that runs a loaded script.
pub open spec fn run_script_request(object_path: Seq<char>) -> CallView {
    CallView {
        destination: "org.kde.KWin"@,
        path: object_path,
        interface: "org.kde.kwin.Script"@,
        member: "run"@,
        body: BodyView::Empty,
    }
}

/// The call that stops a loaded script.
pub open spec fn stop_script_request(object_path: Seq<char>) -> CallView {
    CallView {
        destination: "org.kde.KWin"@,
        path: object_path,
        interface: "org.kde.kwin.Script"@,
        member: "stop"@,
        body: BodyView::Empty,
    }
}

/// Asks KWin to load the script in a file.
pub fn load_script_call(path: PathBuf) -> (res: MethodCall)
    ensures
        res@ == load_script_request(path),
{
    method_call("org.kde.KWin", "/Scripting", "org.kde.kwin.Scripting", "loadScript", Body::Path(path))
}

/// Asks KWin to run a loaded script.
pub fn run_script_call(object_path: &str) -> (res: MethodCall)
    ensures
        res@ == run_script_request(object_path@),
{
    method_call("org.kde.KWin", object_path, "org.kde.kwin.Script", "run", Body::Empty)
}

/// Asks KWin to stop a loaded script.
pub fn stop_script_call(object_path: &str) -> (res: MethodCall)
    ensures
        res@ == stop_script_request(object_path@),
{
    method_call("org.kde.KWin", object_path, "org.kde.kwin.Script", "stop", Body::Empty)
}

/// Names the object of a loaded script.
pub fn script_path(script_id: i32) -> (res: String)
    ensures
        res@ == script_object(script_id),
{
    let mut path = "/Scripting/Script".to_owned();
    path.append(decimal_text(script_id).as_str());
    path
}

/// The activation of windows, by what it waits for.
#[derive(Debug)]
pub enum Activation {
    /// The temporary file for the script.
    Tempfile { pid: u32 },
    /// The script in the file.
    Render { path: PathBuf },
    /// The ID under which KWin has loaded the script.
    Load,
    /// The run of the script.
    Run { script_id: i32 },
    /// The end of the script.
    Stop,
}

/// The activation of windows, in terms of views.
pub type ActivationProgressView = ProgressView<Activation, Result<(), ActivateWindowsFailure>>;

/// The activation of windows.
pub type ActivationProgress = Progress<Activation, Result<(), ActivateWindowsError>>;

/// How far an activation has come, without the underlying error where it failed.
pub open spec fn activation_view(progress: ActivationProgress) -> ActivationProgressView {
    match progress {
        Progress::Pending(state, action) => ProgressView::Pending(state, action@),
        Progress::Finished(Ok(_)) => ProgressView::Finished(Ok(())),
        Progress::Finished(Err(e)) => ProgressView::Finished(Err(e@)),
    }
}

/// The start of an activation: a temporary file is created for the script.
pub open spec fn activation_start(pid: u32) -> ActivationProgressView {
    ProgressView::Pending(Activation::Tempfile { pid }, ActionView::CreateTempfile { prefix: ".konsoleat-"@ })
}

/// Starts the activation of the windows of a process.
pub fn activate_windows(pid: u32) -> (res: ActivationProgress)
    ensures
        activation_view(res) == activation_start(pid),
{
    Progress::Pending(Activation::Tempfile { pid }, Action::CreateTempfile { prefix: ".konsoleat-".to_owned() })
}

impl Activation {
    /// Whether an event is the one that the activation waits for.
    pub open spec fn awaits(self, event: EventView) -> bool {
        match self {
            Activation::Tempfile { .. } => event is CreateTempfile,
            Activation::Render { .. } => event is RenderScript,
            Activation::Load => event is Call,
            Activation::Run { .. } => event is Call,
            Activation::Stop => event is Call,
        }
    }

    /// How an activation goes on: the script is rendered to the file, loaded, run and stopped, up to
    /// the first step that fails.
    pub open spec fn next(self, event: EventView) -> ActivationProgressView
        recommends
            self.awaits(event),
    {
        match self {
            Activation::Tempfile { pid } => match event->CreateTempfile_0 {
                Some(path) => ProgressView::Pending(
                    Activation::Render { path },
                    ActionView::RenderScript { file: path, owner: pid },
                ),
                None => ProgressView::Finished(Err(ActivateWindowsFailure::CreateTempfile)),
            },
            Activation::Render { path } => if event->RenderScript_0 {
                ProgressView::Pending(Activation::Load, ActionView::Call { call: load_script_request(path) })
            } else {
                ProgressView::Finished(Err(ActivateWindowsFailure::RenderTemplate))
            },
            Activation::Load => match replied_i32(event->Call_0) {
                Some(script_id) => ProgressView::Pending(
                    Activation::Run { script_id },
                    ActionView::Call { call: run_script_request(script_object(script_id)) },
                ),
                None => ProgressView::Finished(Err(ActivateWindowsFailure::LoadScript)),
            },
            Activation::Run { script_id } => match replied_unit(event->Call_0) {
                Some(_) => ProgressView::Pending(
                    Activation::Stop,
                    ActionView::Call { call: stop_script_request(script_object(script_id)) },
                ),
                None => ProgressView::Finished(Err(ActivateWindowsFailure::RunScript)),
            },
            Activation::Stop => match replied_unit(event->Call_0) {
                Some(_) => ProgressView::Finished(Ok(())),
                None => ProgressView::Finished(Err(ActivateWindowsFailure::StopScript)),
            },
        }
    }

    /// Tells whether an event is the one that the activation waits for.
    pub fn expects(&self, event: &Event) -> (res: bool)
        ensures
            res == self.awaits(event@),
    {
        match (self, event) {
            (Activation::Tempfile { .. }, Event::CreateTempfile(_)) => true,
            (Activation::Render { .. }, Event::RenderScript(_)) => true,
            (Activation::Load, Event::Call(_)) => true,
            (Activation::Run { .. }, Event::Call(_)) => true,
            (Activation::Stop, Event::Call(_)) => true,
            _ => false,
        }
    }

    /// Goes on with the activation.
    pub fn step(self, event: Event) -> (res: ActivationProgress)
        requires
            self.awaits(event@),
        ensures
            activation_view(res) == self.next(event@),
            res matches Progress::Finished(Err(e)) ==> e.comes_of(event),
    {
        match (self, event) {
            (Activation::Tempfile { pid }, Event::CreateTempfile(res)) => match res {
                Ok(path) => {
                    let file = path.clone();
                    Progress::Pending(Activation::Render { path }, Action::RenderScript { file, owner: pid })
                },
                Err(source) => Progress::Finished(Err(ActivateWindowsError::CreateTempfile { source })),
            },
            (Activation::Render { path }, Event::RenderScript(res)) => match res {
                Ok(_) => Progress::Pending(Activation::Load, Action::Call { call: load_script_call(path) }),
                Err(source) => Progress::Finished(Err(ActivateWindowsError::RenderTemplate { source })),
            },
            (Activation::Load, Event::Call(reply)) => match reply_i32(reply) {
                Ok(script_id) => {
                    let call = run_script_call(script_path(script_id).as_str());
                    Progress::Pending(Activation::Run { script_id }, Action::Call { call })
                },
                Err(source) => Progress::Finished(Err(ActivateWindowsError::LoadScript { source })),
            },
            (Activation::Run { script_id }, Event::Call(reply)) => match reply_unit(reply) {
                Ok(_) => {
                    let call = stop_script_call(script_path(script_id).as_str());
                    Progress::Pending(Activation::Stop, Action::Call { call })
                },
                Err(source) => Progress::Finished(Err(ActivateWindowsError::RunScript { source })),
            },
            (Activation::Stop, Event::Call(reply)) => match reply_unit(reply) {
                Ok(_) => Progress::Finished(Ok(())),
                Err(source) => Progress::Finished(Err(ActivateWindowsError::StopScript { source })),
            },
            (state, _) => {
                assert(false);
                Progress::Pending(state, Action::Connect)
            },
        }
    }
}

/// An activation waits for the event that tells how its action went, and for no other.
pub proof fn law_activation_waits_for_its_action(state: Activation, event: EventView, answer: EventView)
    requires
        state.awaits(event),
        state.next(event) is Pending,
    ensures
        answers(state.next(event)->Pending_1, answer) <==> state.next(event)->Pending_0.awaits(answer),
{
}

/// An activation in which every step succeeds renders the script for the process, loads the file it
/// was rendered to, and runs and stops the script that KWin has loaded, in this order. The object of that
/// script ends in a text that is read back as the ID that KWin has told.
pub proof fn law_activation_runs_through(
    pid: u32,
    path: PathBuf,
    loaded: Option<ReplyView>,
    ran: Option<ReplyView>,
    stopped: Option<ReplyView>,
)
    requires
        replied_i32(loaded) is Some,
        replied_unit(ran) is Some,
        replied_unit(stopped) is Some,
    ensures
        ({
            let script_id = replied_i32(loaded)->Some_0;
            let object = "/Scripting/Script"@ + decimal(script_id as int);
            let kwin = "org.kde.KWin"@;
            let script = "org.kde.kwin.Script"@;
            let rendering = activation_start(pid)->Pending_0.next(EventView::CreateTempfile(Some(path)));
            let loading = rendering->Pending_0.next(EventView::RenderScript(true));
            let running = loading->Pending_0.next(EventView::Call(loaded));
            let stopping = running->Pending_0.next(EventView::Call(ran));
            &&& activation_start(pid)->Pending_1 == ActionView::CreateTempfile { prefix: ".konsoleat-"@ }
            &&& rendering is Pending && rendering->Pending_1 == ActionView::RenderScript { file: path, owner: pid }
            &&& loading is Pending && loading->Pending_1 == (ActionView::Call {
                call: CallView {
                    destination: kwin,
                    path: "/Scripting"@,
                    interface: "org.kde.kwin.Scripting"@,
                    member: "loadScript"@,
                    body: BodyView::Path(path),
                },
            })
            &&& running is Pending && running->Pending_1 == (ActionView::Call {
                call: CallView {
                    destination: kwin,
                    path: object,
                    interface: script,
                    member: "run"@,
                    body: BodyView::Empty,
                },
            })
            &&& stopping is Pending && stopping->Pending_1 == (ActionView::Call {
                call: CallView {
                    destination: kwin,
                    path: object,
                    interface: script,
                    member: "stop"@,
                    body: BodyView::Empty,
                },
            })
            &&& stopping->Pending_0.next(EventView::Call(stopped)) == ActivationProgressView::Finished(Ok(()))
            &&& parsed(decimal(script_id as int)) == Some(script_id)
        }),
{
    law_decimal_parses_back(replied_i32(loaded)->Some_0);
}

/// A script is loaded by KWin from the file that is told.
pub proof fn law_script_is_loaded_from_its_file(path: PathBuf, call: MethodCall)
    requires
        call_ensures(load_script_call, (path,), call),
    ensures
        goes_to(call, "org.kde.KWin"@, "/Scripting"@, "org.kde.kwin.Scripting"@, "loadScript"@),
        call.body == Body::Path(path),
{
}

/// A script is run at the object that is told.
pub proof fn law_script_is_run_at_its_object(object_path: &str, call: MethodCall)
    requires
        call_ensures(run_script_call, (object_path,), call),
    ensures
        goes_to(call, "org.kde.KWin"@, object_path@, "org.kde.kwin.Script"@, "run"@),
        call.body is Empty,
{
}

/// A script is stopped at the object that is told.
pub proof fn law_script_is_stopped_at_its_object(object_path: &str, call: MethodCall)
    requires
        call_ensures(stop_script_call, (object_path,), call),
    ensures
        goes_to(call, "org.kde.KWin"@, object_path@, "org.kde.kwin.Script"@, "stop"@),
        call.body is Empty,
{
}

/// The object of a script is named `/Scripting/Script` and a text that is read back as the ID of the
/// script, in plain decimal; so different scripts have different objects.
pub proof fn law_script_object_ends_in_its_id(script_id: i32, path: String)
    requires
        call_ensures(script_path, (script_id,), path),
    ensures
        path@ == "/Scripting/Script"@ + decimal(script_id as int),
        parsed(path@.skip("/Scripting/Script"@.len() as int)) == Some(script_id),
{
    law_decimal_parses_back(script_id);
    assert(path@.skip("/Scripting/Script"@.len() as int) =~= decimal(script_id as int));
}

/// An activation begins with a temporary file of the program.
pub proof fn law_activation_begins_with_a_file(pid: u32, begun: ActivationProgress)
    requires
        call_ensures(activate_windows, (pid,), begun),
    ensures
        begun matches Progress::Pending(state, Action::CreateTempfile { prefix }) && state == (Activation::Tempfile {
            pid,
        }) && prefix@ == ".konsoleat-"@,
{
}

/// An activation renders the script for the process to the file that was created, has KWin load that
/// file, and run and stop the script whose ID KWin has told, at the object that ends in this ID. It ends
/// well when all of this has been done; the step that fails is told.
pub proof fn law_activation_goes_on_step_by_step(activation: Activation, event: Event, res: ActivationProgress)
    requires
        activation.awaits(event@),
        call_ensures(Activation::step, (activation, event), res),
    ensures
        match (activation, event) {
            (Activation::Tempfile { pid }, Event::CreateTempfile(Ok(path))) => res == ActivationProgress::Pending(
                Activation::Render { path },
                Action::RenderScript { file: path, owner: pid },
            ),
            (Activation::Tempfile { pid }, Event::CreateTempfile(Err(source))) => res == ActivationProgress::Finished(
                Err(ActivateWindowsError::CreateTempfile { source }),
            ),
            (Activation::Render { path }, Event::RenderScript(Ok(_))) => {
                res matches Progress::Pending(Activation::Load, Action::Call { call }) && goes_to(
                    call,
                    "org.kde.KWin"@,
                    "/Scripting"@,
                    "org.kde.kwin.Scripting"@,
                    "loadScript"@,
                ) && call.body == Body::Path(path)
            },
            (Activation::Render { path }, Event::RenderScript(Err(source))) => res == ActivationProgress::Finished(
                Err(ActivateWindowsError::RenderTemplate { source }),
            ),
            (Activation::Load, Event::Call(Ok(held))) => match held_i32(held@) {
                Some(script_id) => {
                    res matches Progress::Pending(state, Action::Call { call }) && state == (Activation::Run { script_id })
                        && goes_to(
                        call,
                        "org.kde.KWin"@,
                        "/Scripting/Script"@ + decimal(script_id as int),
                        "org.kde.kwin.Script"@,
                        "run"@,
                    ) && call.body is Empty
                },
                None => res matches Progress::Finished(Err(ActivateWindowsError::LoadScript { source })) && refused_i32(
                    held,
                    source,
                ),
            },
            (Activation::Load, Event::Call(Err(source))) => res == ActivationProgress::Finished(
                Err(ActivateWindowsError::LoadScript { source }),
            ),
            (Activation::Run { script_id }, Event::Call(Ok(held))) => if held.signature@.len() == 0 {
                res matches Progress::Pending(Activation::Stop, Action::Call { call }) && goes_to(
                    call,
                    "org.kde.KWin"@,
                    "/Scripting/Script"@ + decimal(script_id as int),
                    "org.kde.kwin.Script"@,
                    "stop"@,
                ) && call.body is Empty
            } else {
                res matches Progress::Finished(Err(ActivateWindowsError::RunScript { source })) && refused_unit(held, source)
            },
            (Activation::Run { script_id }, Event::Call(Err(source))) => res == ActivationProgress::Finished(
                Err(ActivateWindowsError::RunScript { source }),
            ),
            (Activation::Stop, Event::Call(Ok(held))) => if held.signature@.len() == 0 {
                res matches Progress::Finished(Ok(_))
            } else {
                res matches Progress::Finished(Err(ActivateWindowsError::StopScript { source })) && refused_unit(held, source)
            },
            (Activation::Stop, Event::Call(Err(source))) => res == ActivationProgress::Finished(
                Err(ActivateWindowsError::StopScript { source }),
            ),
            _ => false,
        },
{
    if let Event::Call(Ok(held)) = event {
        law_a_call_brings_back_what_its_reply_holds(held@);
    }
}

} // verus!

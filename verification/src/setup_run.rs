use vstd::prelude::*;
use vstd::string::*;

use crate::paths::{
    Canonical,
    canonicalize, shown_text, strip_verbatim, join_all, join_parts, join_path, joined_path, views,
};
use crate::text::{decimal, decimal_string};

verus! {

// ---------------------------------------------------------------------------
// The plan of a setup run: every path it touches
// ---------------------------------------------------------------------------

/// The paths of one setup run, fixed before it starts.
pub struct SetupPlan {
    /// The Counter-Strike 2 installation copied from.
    pub cs2_path: String,
    /// What is copied, in order: three parts of the game, then three parts of the template.
    pub sources: Vec<String>,
    /// The `game` folder copied into.
    pub dest: String,
    /// `dest` as shown in messages.
    pub dest_shown: Canonical,
    /// The `content/core` folder.
    pub content_core: String,
    /// `content_core` as shown in messages.
    pub content_core_shown: Canonical,
    /// The `content/core_addons` folder.
    pub content_addons: String,
    /// `content_addons` as shown in messages.
    pub content_addons_shown: Canonical,
    /// The game's resource compiler, moved aside ...
    pub compiler_from: String,
    /// ... to this name.
    pub compiler_to: String,
    /// The resource compiler wrapper of the template, moved ...
    pub wrapper_from: String,
    /// ... to this name.
    pub wrapper_to: String,
}

/// The mathematical model of a [`SetupPlan`].
pub struct SetupPlanView {
    pub cs2_path: Seq<char>,
    pub sources: Seq<Seq<char>>,
    pub dest: Seq<char>,
    pub dest_shown: Seq<char>,
    pub dest_resolved: Option<String>,
    pub dest_asked: Seq<char>,
    pub content_core: Seq<char>,
    pub content_core_shown: Seq<char>,
    pub content_core_resolved: Option<String>,
    pub content_core_asked: Seq<char>,
    pub content_addons: Seq<char>,
    pub content_addons_shown: Seq<char>,
    pub content_addons_resolved: Option<String>,
    pub content_addons_asked: Seq<char>,
    pub compiler_from: Seq<char>,
    pub compiler_to: Seq<char>,
    pub wrapper_from: Seq<char>,
    pub wrapper_to: Seq<char>,
}

impl View for SetupPlan {
    type V = SetupPlanView;

    open spec fn view(&self) -> SetupPlanView {
        SetupPlanView {
            cs2_path: self.cs2_path@,
            sources: self.sources@.map_values(|s: String| s@),
            dest: self.dest@,
            dest_shown: self.dest_shown.shown(),
            dest_resolved: self.dest_shown.resolution(),
            dest_asked: self.dest_shown.asked(),
            content_core: self.content_core@,
            content_core_shown: self.content_core_shown.shown(),
            content_core_resolved: self.content_core_shown.resolution(),
            content_core_asked: self.content_core_shown.asked(),
            content_addons: self.content_addons@,
            content_addons_shown: self.content_addons_shown.shown(),
            content_addons_resolved: self.content_addons_shown.resolution(),
            content_addons_asked: self.content_addons_shown.asked(),
            compiler_from: self.compiler_from@,
            compiler_to: self.compiler_to@,
            wrapper_from: self.wrapper_from@,
            wrapper_to: self.wrapper_to@,
        }
    }
}

/// The binaries folder `<wd>/game/bin/win64` of the setup's destination.
pub open spec fn dest_bin(wd: Seq<char>) -> Seq<char> {
    join_all(joined_path(wd, "game"@), seq!["bin"@, "win64"@])
}

/// What is copied: `<cs2>/game/{core, thirdpartylegalnotices.txt, bin}`, then
/// `<wd>/template/game/{bin, core, core_addons}`.
pub open spec fn planned_sources(cs2: Seq<char>, wd: Seq<char>) -> Seq<Seq<char>> {
    let game = joined_path(cs2, "game"@);
    let template = join_all(wd, seq!["template"@, "game"@]);
    seq![
        joined_path(game, "core"@),
        joined_path(game, "thirdpartylegalnotices.txt"@),
        joined_path(game, "bin"@),
        joined_path(template, "bin"@),
        joined_path(template, "core"@),
        joined_path(template, "core_addons"@),
    ]
}

/// Whether `plan` holds the paths of a setup from `cs2` into the working
/// directory `wd`. The texts shown in messages are those paths as the file
/// system resolved them (or as they are, where it did not), without the
/// verbatim prefix.
pub open spec fn is_plan_for(plan: SetupPlanView, cs2: Seq<char>, wd: Seq<char>) -> bool {
    &&& plan.cs2_path == cs2
    &&& plan.sources == planned_sources(cs2, wd)
    &&& plan.dest == joined_path(wd, "game"@)
    &&& plan.content_core == join_all(wd, seq!["content"@, "core"@])
    &&& plan.content_addons == join_all(wd, seq!["content"@, "core_addons"@])
    &&& plan.compiler_from == joined_path(dest_bin(wd), "resourcecompiler.exe"@)
    &&& plan.compiler_to == joined_path(dest_bin(wd), "resourcecompiler_inner.exe"@)
    &&& plan.wrapper_from == joined_path(dest_bin(wd), "bs2_resourcecompiler.exe"@)
    &&& plan.wrapper_to == joined_path(dest_bin(wd), "resourcecompilerr.exe"@)
    &&& plan.dest_asked == plan.dest
    &&& plan.dest_shown == strip_verbatim(shown_text(plan.dest, plan.dest_resolved))
    &&& plan.content_core_asked == plan.content_core
    &&& plan.content_core_shown == strip_verbatim(shown_text(plan.content_core, plan.content_core_resolved))
    &&& plan.content_addons_asked == plan.content_addons
    &&& plan.content_addons_shown == strip_verbatim(shown_text(plan.content_addons, plan.content_addons_resolved))
}

/// Fixes the paths of a setup from the installation at `cs2_path` into the
/// working directory `working_dir`.
pub fn plan_setup(cs2_path: &str, working_dir: &str) -> (res: SetupPlan)
    ensures
        is_plan_for(res@, cs2_path@, working_dir@),
{
    let game = join_path(cs2_path, "game");
    let template_parts = ["template", "game"];
    let template = join_parts(working_dir, &template_parts);
    assert(views(template_parts@) =~= seq!["template"@, "game"@]);

    let mut sources: Vec<String> = Vec::new();
    sources.push(join_path(game.as_str(), "core"));
    sources.push(join_path(game.as_str(), "thirdpartylegalnotices.txt"));
    sources.push(join_path(game.as_str(), "bin"));
    sources.push(join_path(template.as_str(), "bin"));
    sources.push(join_path(template.as_str(), "core"));
    sources.push(join_path(template.as_str(), "core_addons"));

    let dest = join_path(working_dir, "game");
    let dest_shown = canonicalize(dest.as_str());

    let core_parts = ["content", "core"];
    let content_core = join_parts(working_dir, &core_parts);
    assert(views(core_parts@) =~= seq!["content"@, "core"@]);
    let content_core_shown = canonicalize(content_core.as_str());
    let addons_parts = ["content", "core_addons"];
    let content_addons = join_parts(working_dir, &addons_parts);
    assert(views(addons_parts@) =~= seq!["content"@, "core_addons"@]);
    let content_addons_shown = canonicalize(content_addons.as_str());

    let bin_parts = ["bin", "win64"];
    let bin = join_parts(dest.as_str(), &bin_parts);
    assert(views(bin_parts@) =~= seq!["bin"@, "win64"@]);

    let plan = SetupPlan {
        cs2_path: String::from_str(cs2_path),
        sources,
        dest,
        dest_shown,
        content_core,
        content_core_shown,
        content_addons,
        content_addons_shown,
        compiler_from: join_path(bin.as_str(), "resourcecompiler.exe"),
        compiler_to: join_path(bin.as_str(), "resourcecompiler_inner.exe"),
        wrapper_from: join_path(bin.as_str(), "bs2_resourcecompiler.exe"),
        wrapper_to: join_path(bin.as_str(), "resourcecompilerr.exe"),
    };
    assert(plan@.sources =~= planned_sources(cs2_path@, working_dir@));
    plan
}


// ---------------------------------------------------------------------------
// Events, actions and messages
// ---------------------------------------------------------------------------

/// How a file operation failed: the error's text and its kind, as reported.
pub struct FsFailure {
    pub message: String,
    pub kind: String,
}

/// The mathematical model of a [`FsFailure`].
pub struct FsFailureView {
    pub message: Seq<char>,
    pub kind: Seq<char>,
}

impl View for FsFailure {
    type V = FsFailureView;

    open spec fn view(&self) -> FsFailureView {
        FsFailureView { message: self.message@, kind: self.kind@ }
    }
}

/// What happened outside, handed to the setup run.
pub enum SetupEvent {
    /// The user asked for the setup; whether the template folder exists and
    /// whether the installed engine is held open by running tools.
    Start { template_exists: bool, engine_locked: bool },
    /// A requested folder was created, or the error's text.
    DirCreated(Result<(), String>),
    /// The copy finished with the number of bytes written, or failed; and the
    /// total size last reported while copying (0 if never reported).
    Copied { result: Result<u64, FsFailure>, total_bytes: u64 },
    /// A requested rename was done, or failed.
    Renamed(Result<(), FsFailure>),
}

/// The mathematical model of a [`SetupEvent`].
pub enum SetupEventView {
    Start { template_exists: bool, engine_locked: bool },
    DirCreated(Result<(), Seq<char>>),
    Copied { result: Result<u64, FsFailureView>, total_bytes: u64 },
    Renamed(Result<(), FsFailureView>),
}

impl View for SetupEvent {
    type V = SetupEventView;

    open spec fn view(&self) -> SetupEventView {
        match self {
            SetupEvent::Start { template_exists, engine_locked } => SetupEventView::Start {
                template_exists: *template_exists,
                engine_locked: *engine_locked,
            },
            SetupEvent::DirCreated(r) => SetupEventView::DirCreated(
                match r {
                    Ok(_) => Ok(()),
                    Err(e) => Err(e@),
                },
            ),
            SetupEvent::Copied { result, total_bytes } => SetupEventView::Copied {
                result: match result {
                    Ok(w) => Ok(*w),
                    Err(f) => Err(f@),
                },
                total_bytes: *total_bytes,
            },
            SetupEvent::Renamed(r) => SetupEventView::Renamed(
                match r {
                    Ok(_) => Ok(()),
                    Err(f) => Err(f@),
                },
            ),
        }
    }
}

/// A message for the user; `is_error` marks a failure.
pub struct Toast {
    pub is_error: bool,
    pub message: String,
}

/// The mathematical model of a [`Toast`].
pub struct ToastView {
    pub is_error: bool,
    pub message: Seq<char>,
}

impl View for Toast {
    type V = ToastView;

    open spec fn view(&self) -> ToastView {
        ToastView { is_error: self.is_error, message: self.message@ }
    }
}

/// A file operation the run asks for; its outcome comes back as the next event.
pub enum FsRequest {
    /// Create a folder and its parents.
    CreateDir(String),
    /// Copy the sources into the destination folder, overwriting what is
    /// there where `overwrite` is set.
    Copy { sources: Vec<String>, dest: String, overwrite: bool },
    /// Rename a file.
    Rename { from: String, to: String },
}

/// The mathematical model of a [`FsRequest`].
pub enum FsRequestView {
    CreateDir(Seq<char>),
    Copy { sources: Seq<Seq<char>>, dest: Seq<char>, overwrite: bool },
    Rename { from: Seq<char>, to: Seq<char> },
}

impl View for FsRequest {
    type V = FsRequestView;

    open spec fn view(&self) -> FsRequestView {
        match self {
            FsRequest::CreateDir(p) => FsRequestView::CreateDir(p@),
            FsRequest::Copy { sources, dest, overwrite } => FsRequestView::Copy {
                sources: sources@.map_values(|s: String| s@),
                dest: dest@,
                overwrite: *overwrite,
            },
            FsRequest::Rename { from, to } => FsRequestView::Rename { from: from@, to: to@ },
        }
    }
}

/// What the run does after an event, applied in this order: the copy
/// progress line is set (with no progress), the "setup done" flag is set, the
/// toast is shown, and the file operation is started.
pub struct SetupAction {
    pub progress_label: Option<String>,
    pub setup_done: Option<bool>,
    pub toast: Option<Toast>,
    pub request: Option<FsRequest>,
}

/// The mathematical model of a [`SetupAction`].
pub struct SetupActionView {
    pub progress_label: Option<Seq<char>>,
    pub setup_done: Option<bool>,
    pub toast: Option<ToastView>,
    pub request: Option<FsRequestView>,
}

impl View for SetupAction {
    type V = SetupActionView;

    open spec fn view(&self) -> SetupActionView {
        SetupActionView {
            progress_label: match self.progress_label {
                Some(l) => Some(l@),
                None => None,
            },
            setup_done: self.setup_done,
            toast: match self.toast {
                Some(t) => Some(t@),
                None => None,
            },
            request: match self.request {
                Some(r) => Some(r@),
                None => None,
            },
        }
    }
}

/// Where a setup run stands.
#[derive(PartialEq, Eq, Structural, Clone, Copy, Debug)]
pub enum SetupPhase {
    /// Not started, or refused to start.
    Idle,
    /// Creating the `game` folder.
    CreatingGameDir,
    /// Creating `content/core`.
    CreatingContentCore,
    /// Creating `content/core_addons`.
    CreatingContentAddons,
    /// Copying the game and the template.
    Copying,
    /// Moving the game's resource compiler aside.
    RenamingCompiler,
    /// Putting the wrapper in its place.
    RenamingWrapper,
    /// Done.
    Finished,
    /// Stopped on an error.
    Failed,
}

pub open spec fn msg_template_missing() -> Seq<char> {
    "Cannot set up BS2: the template/ directory is missing. Try completely uninstalling and reinstalling BS2."@
}

pub open spec fn msg_tools_in_use() -> Seq<char> {
    "Cannot set up BS2 while the Source 2 Tools are in use. Please close all of them first."@
}

pub open spec fn msg_create_failed(shown: Seq<char>, err: Seq<char>) -> Seq<char> {
    "Failed to create "@ + shown + ": "@ + err
}

pub open spec fn msg_copy_incomplete(written: u64, total: u64) -> Seq<char> {
    "Failed to set up BS2: wrote only "@ + decimal(written as nat) + " bytes out of "@ + decimal(
        total as nat,
    ) + ". Please try again."@
}

pub open spec fn msg_copy_failed(f: FsFailureView) -> Seq<char> {
    "Failed to set up BS2: "@ + f.message + " ("@ + f.kind + ")"@
}

pub open spec fn msg_rename_failed(from: Seq<char>, to: Seq<char>, f: FsFailureView) -> Seq<
    char,
> {
    "Failed to rename "@ + from + " to "@ + to + ": "@ + f.message + " ("@ + f.kind + ")"@
}

pub open spec fn msg_success() -> Seq<char> {
    "BS2 was successfully set up! Switch to the \"Projects\" tab now to manage your projects and launch the Source 2 tools."@
}

pub open spec fn label_renaming() -> Seq<char> {
    "renaming files..."@
}

/// An action.
pub open spec fn act(
    progress_label: Option<Seq<char>>,
    setup_done: Option<bool>,
    toast: Option<ToastView>,
    request: Option<FsRequestView>,
) -> SetupActionView {
    SetupActionView { progress_label, setup_done, toast, request }
}

/// An error toast with `message`.
pub open spec fn error_toast(message: Seq<char>) -> Option<ToastView> {
    Some(ToastView { is_error: true, message })
}

/// The action that does nothing.
pub open spec fn no_action() -> SetupActionView {
    act(None, None, None, None)
}

/// One step of a setup run: the next phase and what to do, from the phase
/// and the event. An event that does not belong to the phase changes nothing.
/// Every request to set up starts a run of its own, from `Idle`; a start
/// event that reaches a run already under way belongs to another run.
pub open spec fn next_step(plan: SetupPlanView, phase: SetupPhase, ev: SetupEventView) -> (
    SetupPhase,
    SetupActionView,
) {
    match ev {
        SetupEventView::Start { template_exists, engine_locked } => {
            if phase != SetupPhase::Idle {
                (phase, no_action())
            } else if !template_exists {
                (SetupPhase::Idle, act(None, None, error_toast(msg_template_missing()), None))
            } else if engine_locked {
                (SetupPhase::Idle, act(None, None, error_toast(msg_tools_in_use()), None))
            } else {
                (
                    SetupPhase::CreatingGameDir,
                    act(
                        None,
                        Some(false),
                        Some(ToastView { is_error: false, message: Seq::empty() }),
                        Some(FsRequestView::CreateDir(plan.dest)),
                    ),
                )
            }
        },
        SetupEventView::DirCreated(r) => {
            if phase == SetupPhase::CreatingGameDir {
                match r {
                    Ok(_) => (
                        SetupPhase::CreatingContentCore,
                        act(None, None, None, Some(FsRequestView::CreateDir(plan.content_core))),
                    ),
                    Err(e) => (
                        SetupPhase::Failed,
                        act(None, None, error_toast(msg_create_failed(plan.dest_shown, e)), None),
                    ),
                }
            } else if phase == SetupPhase::CreatingContentCore {
                match r {
                    Ok(_) => (
                        SetupPhase::CreatingContentAddons,
                        act(None, None, None, Some(FsRequestView::CreateDir(plan.content_addons))),
                    ),
                    Err(e) => (
                        SetupPhase::Failed,
                        act(
                            None,
                            None,
                            error_toast(msg_create_failed(plan.content_core_shown, e)),
                            None,
                        ),
                    ),
                }
            } else if phase == SetupPhase::CreatingContentAddons {
                match r {
                    Ok(_) => (
                        SetupPhase::Copying,
                        act(
                            None,
                            None,
                            None,
                            Some(
                                FsRequestView::Copy {
                                    sources: plan.sources,
                                    dest: plan.dest,
                                    overwrite: true,
                                },
                            ),
                        ),
                    ),
                    Err(e) => (
                        SetupPhase::Failed,
                        act(
                            None,
                            None,
                            error_toast(msg_create_failed(plan.content_addons_shown, e)),
                            None,
                        ),
                    ),
                }
            } else {
                (phase, no_action())
            }
        },
        SetupEventView::Copied { result, total_bytes } => {
            if phase != SetupPhase::Copying {
                (phase, no_action())
            } else {
                match result {
                    Ok(written) => if written >= total_bytes {
                        (
                            SetupPhase::RenamingCompiler,
                            act(
                                Some(label_renaming()),
                                None,
                                None,
                                Some(
                                    FsRequestView::Rename {
                                        from: plan.compiler_from,
                                        to: plan.compiler_to,
                                    },
                                ),
                            ),
                        )
                    } else {
                        (
                            SetupPhase::Failed,
                            act(
                                Some(Seq::empty()),
                                None,
                                error_toast(msg_copy_incomplete(written, total_bytes)),
                                None,
                            ),
                        )
                    },
                    Err(f) => (
                        SetupPhase::Failed,
                        act(Some(Seq::empty()), None, error_toast(msg_copy_failed(f)), None),
                    ),
                }
            }
        },
        SetupEventView::Renamed(r) => {
            if phase == SetupPhase::RenamingCompiler {
                match r {
                    Ok(_) => (
                        SetupPhase::RenamingWrapper,
                        act(
                            None,
                            None,
                            None,
                            Some(FsRequestView::Rename { from: plan.wrapper_from, to: plan.wrapper_to }),
                        ),
                    ),
                    Err(f) => (
                        SetupPhase::Failed,
                        act(
                            None,
                            None,
                            error_toast(msg_rename_failed(plan.compiler_from, plan.compiler_to, f)),
                            None,
                        ),
                    ),
                }
            } else if phase == SetupPhase::RenamingWrapper {
                match r {
                    Ok(_) => (
                        SetupPhase::Finished,
                        act(
                            Some(Seq::empty()),
                            Some(true),
                            Some(ToastView { is_error: false, message: msg_success() }),
                            None,
                        ),
                    ),
                    Err(f) => (
                        SetupPhase::Failed,
                        act(
                            None,
                            None,
                            error_toast(msg_rename_failed(plan.wrapper_from, plan.wrapper_to, f)),
                            None,
                        ),
                    ),
                }
            } else {
                (phase, no_action())
            }
        },
    }
}


// ---------------------------------------------------------------------------
// Running the steps
// ---------------------------------------------------------------------------

/// `a` followed by `b`.
fn concat(a: String, b: &str) -> (res: String)
    ensures
        res@ == a@ + b@,
{
    let mut a = a;
    a.append(b);
    a
}

fn message_create_failed(shown: &str, err: &str) -> (res: String)
    ensures
        res@ == msg_create_failed(shown@, err@),
{
    let m = concat(String::from_str("Failed to create "), shown);
    let m = concat(m, ": ");
    concat(m, err)
}

fn message_copy_incomplete(written: u64, total: u64) -> (res: String)
    ensures
        res@ == msg_copy_incomplete(written, total),
{
    let w = decimal_string(written);
    let t = decimal_string(total);
    let m = concat(String::from_str("Failed to set up BS2: wrote only "), w.as_str());
    let m = concat(m, " bytes out of ");
    let m = concat(m, t.as_str());
    concat(m, ". Please try again.")
}

fn message_copy_failed(f: &FsFailure) -> (res: String)
    ensures
        res@ == msg_copy_failed(f@),
{
    let m = concat(String::from_str("Failed to set up BS2: "), f.message.as_str());
    let m = concat(m, " (");
    let m = concat(m, f.kind.as_str());
    concat(m, ")")
}

fn message_rename_failed(from: &str, to: &str, f: &FsFailure) -> (res: String)
    ensures
        res@ == msg_rename_failed(from@, to@, f@),
{
    let m = concat(String::from_str("Failed to rename "), from);
    let m = concat(m, " to ");
    let m = concat(m, to);
    let m = concat(m, ": ");
    let m = concat(m, f.message.as_str());
    let m = concat(m, " (");
    let m = concat(m, f.kind.as_str());
    concat(m, ")")
}

/// A copy of a list of strings.
pub fn copy_strings(v: &Vec<String>) -> (res: Vec<String>)
    ensures
        res@.map_values(|s: String| s@) == v@.map_values(|s: String| s@),
{
    let mut res: Vec<String> = Vec::new();
    let mut i: usize = 0;
    while i < v.len()
        invariant
            i <= v@.len(),
            res@.len() == i,
            forall|j: int| 0 <= j < i ==> #[trigger] res@[j]@ == v@[j]@,
        decreases v@.len() - i,
    {
        let c = v[i].clone();
        res.push(c);
        i = i + 1;
    }
    assert(res@.map_values(|s: String| s@) =~= v@.map_values(|s: String| s@));
    res
}

fn nothing() -> (res: SetupAction)
    ensures
        res@ == no_action(),
{
    SetupAction { progress_label: None, setup_done: None, toast: None, request: None }
}

fn error_only(message: String) -> (res: SetupAction)
    ensures
        res@ == act(None, None, error_toast(message@), None),
{
    SetupAction {
        progress_label: None,
        setup_done: None,
        toast: Some(Toast { is_error: true, message }),
        request: None,
    }
}

fn request_only(request: FsRequest) -> (res: SetupAction)
    ensures
        res@ == act(None, None, None, Some(request@)),
{
    SetupAction { progress_label: None, setup_done: None, toast: None, request: Some(request) }
}

fn copy_error(message: String) -> (res: SetupAction)
    ensures
        res@ == act(Some(Seq::empty()), None, error_toast(message@), None),
{
    SetupAction {
        progress_label: Some(String::new()),
        setup_done: None,
        toast: Some(Toast { is_error: true, message }),
        request: None,
    }
}

/// Takes one step of a setup run following [`next_step`].
pub fn step(plan: &SetupPlan, phase: SetupPhase, event: SetupEvent) -> (res: (
    SetupPhase,
    SetupAction,
))
    ensures
        res.0 == next_step(plan@, phase, event@).0,
        res.1@ == next_step(plan@, phase, event@).1,
{
    match event {
        SetupEvent::Start { template_exists, engine_locked } => {
            if phase != SetupPhase::Idle {
                (phase, nothing())
            } else if !template_exists {
                (
                    SetupPhase::Idle,
                    error_only(
                        String::from_str(
                            "Cannot set up BS2: the template/ directory is missing. Try completely uninstalling and reinstalling BS2.",
                        ),
                    ),
                )
            } else if engine_locked {
                (
                    SetupPhase::Idle,
                    error_only(
                        String::from_str(
                            "Cannot set up BS2 while the Source 2 Tools are in use. Please close all of them first.",
                        ),
                    ),
                )
            } else {
                (
                    SetupPhase::CreatingGameDir,
                    SetupAction {
                        progress_label: None,
                        setup_done: Some(false),
                        toast: Some(Toast { is_error: false, message: String::new() }),
                        request: Some(FsRequest::CreateDir(plan.dest.clone())),
                    },
                )
            }
        },
        SetupEvent::DirCreated(r) => {
            if phase == SetupPhase::CreatingGameDir {
                match r {
                    Ok(_) => (
                        SetupPhase::CreatingContentCore,
                        request_only(FsRequest::CreateDir(plan.content_core.clone())),
                    ),
                    Err(e) => (
                        SetupPhase::Failed,
                        error_only(message_create_failed(plan.dest_shown.text(), e.as_str())),
                    ),
                }
            } else if phase == SetupPhase::CreatingContentCore {
                match r {
                    Ok(_) => (
                        SetupPhase::CreatingContentAddons,
                        request_only(FsRequest::CreateDir(plan.content_addons.clone())),
                    ),
                    Err(e) => (
                        SetupPhase::Failed,
                        error_only(
                            message_create_failed(plan.content_core_shown.text(), e.as_str()),
                        ),
                    ),
                }
            } else if phase == SetupPhase::CreatingContentAddons {
                match r {
                    Ok(_) => (
                        SetupPhase::Copying,
                        request_only(
                            FsRequest::Copy {
                                sources: copy_strings(&plan.sources),
                                dest: plan.dest.clone(),
                                overwrite: true,
                            },
                        ),
                    ),
                    Err(e) => (
                        SetupPhase::Failed,
                        error_only(
                            message_create_failed(plan.content_addons_shown.text(), e.as_str()),
                        ),
                    ),
                }
            } else {
                (phase, nothing())
            }
        },
        SetupEvent::Copied { result, total_bytes } => {
            if phase != SetupPhase::Copying {
                (phase, nothing())
            } else {
                match result {
                    Ok(written) => if written >= total_bytes {
                        (
                            SetupPhase::RenamingCompiler,
                            SetupAction {
                                progress_label: Some(String::from_str("renaming files...")),
                                setup_done: None,
                                toast: None,
                                request: Some(
                                    FsRequest::Rename {
                                        from: plan.compiler_from.clone(),
                                        to: plan.compiler_to.clone(),
                                    },
                                ),
                            },
                        )
                    } else {
                        (
                            SetupPhase::Failed,
                            copy_error(message_copy_incomplete(written, total_bytes)),
                        )
                    },
                    Err(f) => (SetupPhase::Failed, copy_error(message_copy_failed(&f))),
                }
            }
        },
        SetupEvent::Renamed(r) => {
            if phase == SetupPhase::RenamingCompiler {
                match r {
                    Ok(_) => (
                        SetupPhase::RenamingWrapper,
                        request_only(
                            FsRequest::Rename {
                                from: plan.wrapper_from.clone(),
                                to: plan.wrapper_to.clone(),
                            },
                        ),
                    ),
                    Err(f) => (
                        SetupPhase::Failed,
                        error_only(
                            message_rename_failed(
                                plan.compiler_from.as_str(),
                                plan.compiler_to.as_str(),
                                &f,
                            ),
                        ),
                    ),
                }
            } else if phase == SetupPhase::RenamingWrapper {
                match r {
                    Ok(_) => (
                        SetupPhase::Finished,
                        SetupAction {
                            progress_label: Some(String::new()),
                            setup_done: Some(true),
                            toast: Some(
                                Toast {
                                    is_error: false,
                                    message: String::from_str(
                                        "BS2 was successfully set up! Switch to the \"Projects\" tab now to manage your projects and launch the Source 2 tools.",
                                    ),
                                },
                            ),
                            request: None,
                        },
                    ),
                    Err(f) => (
                        SetupPhase::Failed,
                        error_only(
                            message_rename_failed(
                                plan.wrapper_from.as_str(),
                                plan.wrapper_to.as_str(),
                                &f,
                            ),
                        ),
                    ),
                }
            } else {
                (phase, nothing())
            }
        },
    }
}

/// The copy progress line while copying: the file (or, when no file is
/// reported, the folder) being copied, below the game folder of the
/// installation.
pub fn progress_path(plan: &SetupPlan, file_name: &str, dir_name: &str) -> (res: String)
    ensures
        res@ == joined_path(
            joined_path(plan@.cs2_path, "game"@),
            if file_name@.len() == 0 {
                dir_name@
            } else {
                file_name@
            },
        ),
{
    let game = join_path(plan.cs2_path.as_str(), "game");
    if file_name.is_empty() {
        join_path(game.as_str(), dir_name)
    } else {
        join_path(game.as_str(), file_name)
    }
}


// ---------------------------------------------------------------------------
// Laws of a setup run
// ---------------------------------------------------------------------------

/// How far a run has come: the number of steps done, or -1 once it failed.
pub open spec fn rank(phase: SetupPhase) -> int {
    match phase {
        SetupPhase::Idle => 0,
        SetupPhase::CreatingGameDir => 1,
        SetupPhase::CreatingContentCore => 2,
        SetupPhase::CreatingContentAddons => 3,
        SetupPhase::Copying => 4,
        SetupPhase::RenamingCompiler => 5,
        SetupPhase::RenamingWrapper => 6,
        SetupPhase::Finished => 7,
        SetupPhase::Failed => -1,
    }
}

/// Whether `ev` is the successful outcome of step `k` of a run: an accepted
/// start, a created folder, a copy that wrote everything, a done rename.
pub open spec fn advances(k: int, ev: SetupEventView) -> bool {
    match ev {
        SetupEventView::Start { template_exists, engine_locked } => k == 0 && template_exists
            && !engine_locked,
        SetupEventView::DirCreated(r) => 1 <= k <= 3 && r is Ok,
        SetupEventView::Copied { result, total_bytes } => k == 4 && match result {
            Ok(written) => written >= total_bytes,
            Err(_) => false,
        },
        SetupEventView::Renamed(r) => 5 <= k <= 6 && r is Ok,
    }
}

/// The steps of a setup run keep their order. A finished or failed run stays
/// as it is and does nothing more. A run moves on by exactly one step when,
/// and only when, the event is the successful outcome of the step it waits
/// for; otherwise it stays or fails. A run that fails shows an error and asks
/// for no further file operation. A run that finishes reports success and
/// marks the setup as done.
pub proof fn lemma_step_order(plan: SetupPlanView, phase: SetupPhase, ev: SetupEventView)
    ensures
        (phase == SetupPhase::Finished || phase == SetupPhase::Failed) ==> next_step(
            plan,
            phase,
            ev,
        ) == (phase, no_action()),
        rank(phase) >= 0 && advances(rank(phase), ev) ==> rank(next_step(plan, phase, ev).0)
            == rank(phase) + 1,
        rank(phase) >= 0 && !advances(rank(phase), ev) ==> next_step(plan, phase, ev).0 == phase
            || next_step(plan, phase, ev).0 == SetupPhase::Failed,
        phase != SetupPhase::Failed && next_step(plan, phase, ev).0 == SetupPhase::Failed ==> {
            &&& next_step(plan, phase, ev).1.toast matches Some(t) && t.is_error
            &&& next_step(plan, phase, ev).1.request is None
        },
        phase != SetupPhase::Finished && next_step(plan, phase, ev).0 == SetupPhase::Finished ==> {
            &&& next_step(plan, phase, ev).1.toast == Some(
                ToastView { is_error: false, message: msg_success() },
            )
            &&& next_step(plan, phase, ev).1.setup_done == Some(true)
        },
{
}

/// A step that fails never marks the setup as done: only a step that
/// finishes the run sets the "setup done" flag to true. A start that is
/// refused leaves the run idle and touches no file: whenever a step begins
/// and ends idle, it asks for no file operation.
pub proof fn lemma_done_only_on_finish(plan: SetupPlanView, phase: SetupPhase, ev: SetupEventView)
    ensures
        next_step(plan, phase, ev).0 == SetupPhase::Failed ==> next_step(plan, phase, ev).1.setup_done
            != Some(true),
        next_step(plan, phase, ev).1.setup_done == Some(true) ==> next_step(plan, phase, ev).0
            == SetupPhase::Finished,
        phase == SetupPhase::Idle && next_step(plan, phase, ev).0 == SetupPhase::Idle
            ==> next_step(plan, phase, ev).1.request is None,
        next_step(plan, phase, ev).1.request is Some ==> next_step(plan, phase, ev).0 != phase,
{
}

/// A start is refused, and nothing is done but an error message, when the
/// template is missing or the installed engine is in use; otherwise the run
/// begins by marking the setup as not done and creating the `game` folder.
pub proof fn lemma_start(plan: SetupPlanView, template_exists: bool, engine_locked: bool)
    ensures
        !template_exists || engine_locked ==> {
            let (p, a) = next_step(
                plan,
                SetupPhase::Idle,
                SetupEventView::Start { template_exists, engine_locked },
            );
            &&& p == SetupPhase::Idle
            &&& a.request is None
            &&& a.setup_done is None
            &&& a.toast matches Some(t) && t.is_error
        },
        template_exists && !engine_locked ==> {
            let (p, a) = next_step(
                plan,
                SetupPhase::Idle,
                SetupEventView::Start { template_exists, engine_locked },
            );
            &&& p == SetupPhase::CreatingGameDir
            &&& a.setup_done == Some(false)
            &&& a.request == Some(FsRequestView::CreateDir(plan.dest))
        },
{
}

/// The phase a run reaches from `phase` through the events `evs`.
pub open spec fn run_phase(plan: SetupPlanView, phase: SetupPhase, evs: Seq<SetupEventView>) -> SetupPhase
    decreases evs.len(),
{
    if evs.len() == 0 {
        phase
    } else {
        run_phase(plan, next_step(plan, phase, evs[0]).0, evs.drop_first())
    }
}

/// How many steps, from step `k` on, the events hold as successful outcomes
/// in order: each event that is the successful outcome of the step reached so
/// far counts and moves on to the next step, up to the seventh.
pub open spec fn successes_in_order(evs: Seq<SetupEventView>, k: int) -> int
    decreases evs.len(),
{
    if evs.len() == 0 {
        k
    } else if k < 7 && advances(k, evs[0]) {
        successes_in_order(evs.drop_first(), k + 1)
    } else {
        successes_in_order(evs.drop_first(), k)
    }
}

proof fn lemma_failed_stays(plan: SetupPlanView, evs: Seq<SetupEventView>)
    ensures
        run_phase(plan, SetupPhase::Failed, evs) == SetupPhase::Failed,
    decreases evs.len(),
{
    if evs.len() > 0 {
        lemma_step_order(plan, SetupPhase::Failed, evs[0]);
        lemma_failed_stays(plan, evs.drop_first());
    }
}

proof fn lemma_finished_in_order(plan: SetupPlanView, phase: SetupPhase, evs: Seq<SetupEventView>)
    requires
        rank(phase) >= 0,
        run_phase(plan, phase, evs) == SetupPhase::Finished,
    ensures
        successes_in_order(evs, rank(phase)) == 7,
    decreases evs.len(),
{
    if evs.len() == 0 {
    } else {
        let next = next_step(plan, phase, evs[0]).0;
        lemma_step_order(plan, phase, evs[0]);
        if next == SetupPhase::Failed {
            lemma_failed_stays(plan, evs.drop_first());
        } else {
            lemma_finished_in_order(plan, next, evs.drop_first());
            if phase == SetupPhase::Finished {
                lemma_successes_saturate(evs.drop_first());
            }
        }
    }
}

proof fn lemma_successes_saturate(evs: Seq<SetupEventView>)
    ensures
        successes_in_order(evs, 7) == 7,
    decreases evs.len(),
{
    if evs.len() > 0 {
        lemma_successes_saturate(evs.drop_first());
    }
}

/// A setup run finishes only if the events it was given hold, in this order,
/// an accepted start, the three created folders, a copy that wrote every byte
/// and the two done renames: no step is skipped and none is taken on a failure.
pub proof fn lemma_finished_run_succeeded_in_order(
    plan: SetupPlanView,
    evs: Seq<SetupEventView>,
)
    requires
        run_phase(plan, SetupPhase::Idle, evs) == SetupPhase::Finished,
    ensures
        successes_in_order(evs, 0) == 7,
{
    lemma_finished_in_order(plan, SetupPhase::Idle, evs);
}

/// The events of a run in which every step succeeds.
pub open spec fn all_good_run(written: u64, total: u64) -> Seq<SetupEventView> {
    seq![
        SetupEventView::Start { template_exists: true, engine_locked: false },
        SetupEventView::DirCreated(Ok(())),
        SetupEventView::DirCreated(Ok(())),
        SetupEventView::DirCreated(Ok(())),
        SetupEventView::Copied { result: Ok(written), total_bytes: total },
        SetupEventView::Renamed(Ok(())),
        SetupEventView::Renamed(Ok(())),
    ]
}

/// A run in which every step succeeds, with a copy that wrote at least the
/// reported total, finishes.
pub proof fn lemma_good_run_finishes(plan: SetupPlanView, written: u64, total: u64)
    requires
        written >= total,
    ensures
        run_phase(plan, SetupPhase::Idle, all_good_run(written, total)) == SetupPhase::Finished,
{
    let evs = all_good_run(written, total);
    reveal_with_fuel(run_phase, 8);
    assert(evs.drop_first() =~= evs.subrange(1, 7));
    assert(evs.subrange(1, 7).drop_first() =~= evs.subrange(2, 7));
    assert(evs.subrange(2, 7).drop_first() =~= evs.subrange(3, 7));
    assert(evs.subrange(3, 7).drop_first() =~= evs.subrange(4, 7));
    assert(evs.subrange(4, 7).drop_first() =~= evs.subrange(5, 7));
    assert(evs.subrange(5, 7).drop_first() =~= evs.subrange(6, 7));
    assert(evs.subrange(6, 7).drop_first() =~= Seq::<SetupEventView>::empty());
}

} // verus!

//! Opening a sidebar beside the pane that has the focus.
//!
//! An opening names the next thing to do, is told what came of it, and goes on
//! from there. The plan of where to split is a text of the host; shares of the
//! split stay texts here and are read where they are used.

use vstd::prelude::*;

use crate::activity::{SidebarView, State, Target};
use crate::event::Event;
use crate::json::{from_text, json_view, put, JsonView};
use crate::request::{focus, params_of, Request};
use crate::text::{cut, field, opt_text, parse_truth, split_once, truth};

verus! {

/// How a sidebar's process is started. `S` is the kind of text.
#[derive(Debug, PartialEq, Eq)]
pub enum Platform<S> {
    /// The host starts the process in a pane of its own.
    Unix,
    /// A pane is split off, and the command is typed into its shell.
    Windows { executable: S, view_flag: S, label: S },
}

/// Something that an opening asks its surroundings to do.
#[derive(Debug, PartialEq, Eq)]
pub enum OpenAction<S> {
    /// Send a request to the host.
    Call(Request<S>),
    /// Plan the split, given the layout, the side and the columns to have.
    PlanLayout { layout: S, dock_right: bool, sidebar_width: u16 },
    /// Have the host start a sidebar beside a pane.
    OpenPane { target: S, view: SidebarView, cwd: S, merged: bool, initial: Option<Target> },
    /// Send the request to split a pane, with the parameters that `split_params`
    /// gives and the share of the new pane. The share is the one that `ratio`
    /// spells; where it spells none, `fallback` hundredths.
    SplitPane { request: Request<S>, ratio: Option<S>, fallback: u64, initial: Option<Target> },
    /// Report that the sidebar in a pane is starting.
    ReportStarting { pane_id: S, view: SidebarView, merged: bool },
    /// Send the request to resize a pane, by as much as its share differs from
    /// one half, if that is worth a request.
    Resize { request: Request<S>, ratio: Option<S>, fallback: u64 },
    /// Grow a pane to the full height.
    Repair { pane_id: S, dock_right: bool },
    /// Nothing: the opening is over.
    Finish,
    /// Nothing: the opening is over, and something could not be done. The
    /// opening's outcome says why.
    Fail,
}

/// Where an opening stands.
#[derive(Debug, PartialEq, Eq)]
pub enum OpenStage<S, E> {
    /// The layout is asked for.
    Layout,
    /// The plan is asked for.
    Plan { layout: S },
    /// The new pane is asked for.
    Spawn,
    /// The sidebar is reported as starting.
    Identity,
    /// The new pane is given up, for the given reason.
    Abandon { error: E },
    /// The new pane is brought to its side.
    Swap,
    /// The new pane is brought to its share.
    Resize,
    /// The command is typed.
    Command,
    /// The new pane is labelled.
    Label,
    /// The new pane is grown to the full height.
    Repair,
    /// The focus is given.
    Focus,
    /// It is over.
    Finished,
    /// Something could not be done, for the given reason.
    Failed { error: E },
}

/// The opening of a sidebar. `E` is what the surroundings say of a failure.
#[derive(Debug, PartialEq, Eq)]
pub struct Open<S, E> {
    pub platform: Platform<S>,
    /// The new sidebar gets the focus.
    pub focus_new: bool,
    pub view: SidebarView,
    pub initial: Option<Target>,
    pub state: State,
    /// The pane that has the focus at the start.
    pub origin: S,
    /// The directory that the sidebar is rooted in.
    pub cwd: S,
    /// The pane that is split.
    pub target: S,
    /// The share of the new pane, if the plan gives one.
    pub ratio: Option<S>,
    /// The new pane has to change sides.
    pub needs_swap: bool,
    /// The new pane.
    pub pane: S,
    pub stage: OpenStage<S, E>,
}

impl View for Platform<String> {
    type V = Platform<Seq<char>>;

    open spec fn view(&self) -> Platform<Seq<char>> {
        match *self {
            Platform::Unix => Platform::Unix,
            Platform::Windows { executable, view_flag, label } => Platform::Windows {
                executable: executable@,
                view_flag: view_flag@,
                label: label@,
            },
        }
    }
}

impl View for OpenAction<String> {
    type V = OpenAction<Seq<char>>;

    open spec fn view(&self) -> OpenAction<Seq<char>> {
        match *self {
            OpenAction::Call(request) => OpenAction::Call(request@),
            OpenAction::PlanLayout { layout, dock_right, sidebar_width } => OpenAction::PlanLayout {
                layout: layout@,
                dock_right,
                sidebar_width,
            },
            OpenAction::OpenPane { target, view, cwd, merged, initial } => OpenAction::OpenPane {
                target: target@,
                view,
                cwd: cwd@,
                merged,
                initial,
            },
            OpenAction::SplitPane { request, ratio, fallback, initial } => OpenAction::SplitPane {
                request: request@,
                ratio: opt_text(ratio),
                fallback,
                initial,
            },
            OpenAction::ReportStarting { pane_id, view, merged } => OpenAction::ReportStarting {
                pane_id: pane_id@,
                view,
                merged,
            },
            OpenAction::Resize { request, ratio, fallback } => OpenAction::Resize {
                request: request@,
                ratio: opt_text(ratio),
                fallback,
            },
            OpenAction::Repair { pane_id, dock_right } => OpenAction::Repair {
                pane_id: pane_id@,
                dock_right,
            },
            OpenAction::Finish => OpenAction::Finish,
            OpenAction::Fail => OpenAction::Fail,
        }
    }
}

impl<E> View for OpenStage<String, E> {
    type V = OpenStage<Seq<char>, E>;

    open spec fn view(&self) -> OpenStage<Seq<char>, E> {
        match *self {
            OpenStage::Layout => OpenStage::Layout,
            OpenStage::Plan { layout } => OpenStage::Plan { layout: layout@ },
            OpenStage::Spawn => OpenStage::Spawn,
            OpenStage::Identity => OpenStage::Identity,
            OpenStage::Abandon { error } => OpenStage::Abandon { error },
            OpenStage::Swap => OpenStage::Swap,
            OpenStage::Resize => OpenStage::Resize,
            OpenStage::Command => OpenStage::Command,
            OpenStage::Label => OpenStage::Label,
            OpenStage::Repair => OpenStage::Repair,
            OpenStage::Focus => OpenStage::Focus,
            OpenStage::Finished => OpenStage::Finished,
            OpenStage::Failed { error } => OpenStage::Failed { error },
        }
    }
}

impl<E> View for Open<String, E> {
    type V = Open<Seq<char>, E>;

    open spec fn view(&self) -> Open<Seq<char>, E> {
        Open {
            platform: self.platform@,
            focus_new: self.focus_new,
            view: self.view,
            initial: self.initial,
            state: self.state,
            origin: self.origin@,
            cwd: self.cwd@,
            target: self.target@,
            ratio: opt_text(self.ratio),
            needs_swap: self.needs_swap,
            pane: self.pane@,
            stage: self.stage@,
        }
    }
}

/// The pane that a plan says to split: its first field, or `origin` where that
/// is empty.
pub open spec fn planned_target(plan: Seq<char>, origin: Seq<char>) -> Seq<char> {
    match field(plan, '\t', 0) {
        Some(target) => if target.len() == 0 {
            origin
        } else {
            target
        },
        None => origin,
    }
}

/// Whether a plan says that the new pane has to change sides: its third field. A
/// plan that does not say leaves it to the side of the dock, since a split puts
/// the new pane to the right.
pub open spec fn planned_swap(plan: Seq<char>, dock_right: bool) -> bool {
    match field(plan, '\t', 2) {
        Some(swap) => match truth(swap) {
            Some(swap) => swap,
            None => !dock_right,
        },
        None => !dock_right,
    }
}

/// The share of the new pane in hundredths, where the plan gives none.
pub open spec fn fallback_share(dock_right: bool) -> u64 {
    if dock_right {
        75
    } else {
        25
    }
}

/// The edge of the new pane that is moved to bring it to its share.
pub open spec fn inner_edge(dock_right: bool) -> Seq<char> {
    if dock_right {
        "right"@
    } else {
        "left"@
    }
}

/// The command that starts a sidebar: the Explorer is what it shows unasked.
pub open spec fn command_line(
    executable: Seq<char>,
    view: SidebarView,
    view_flag: Seq<char>,
) -> Seq<char> {
    if view == SidebarView::Explorer {
        executable
    } else {
        executable + " --view "@ + view_flag
    }
}

impl<E> Open<Seq<char>, E> {
    /// Whether the new pane shows both views.
    pub open spec fn merged(self) -> bool {
        self.view == SidebarView::Explorer && self.state.merged
    }

    /// The request to resize the new pane.
    pub open spec fn resize_request(self) -> Request<Seq<char>> {
        Request::PaneResize { pane_id: self.pane, direction: inner_edge(self.state.dock_right) }
    }

    /// The request to split the target.
    pub open spec fn split_request(self) -> Request<Seq<char>> {
        Request::PaneSplit {
            target: self.target,
            cwd: if self.cwd.len() == 0 {
                None
            } else {
                Some(self.cwd)
            },
        }
    }

    /// The opening once the new pane is in place.
    pub open spec fn in_place(self) -> Open<Seq<char>, E> {
        Open {
            stage: if self.platform is Unix {
                OpenStage::Resize
            } else {
                OpenStage::Command
            },
            ..self
        }
    }

    /// The opening once the new pane is there.
    pub open spec fn spawned(self) -> Open<Seq<char>, E> {
        if self.needs_swap {
            Open { stage: OpenStage::Swap, ..self }
        } else {
            self.in_place()
        }
    }

    /// What the opening asks for.
    pub open spec fn pending(self) -> OpenAction<Seq<char>> {
        match self.stage {
            OpenStage::Layout => OpenAction::Call(Request::PaneLayout { pane_id: self.origin }),
            OpenStage::Plan { layout } => OpenAction::PlanLayout {
                layout,
                dock_right: self.state.dock_right,
                sidebar_width: self.state.sidebar_width,
            },
            OpenStage::Spawn => match self.platform {
                Platform::Unix => OpenAction::OpenPane {
                    target: self.target,
                    view: self.view,
                    cwd: self.cwd,
                    merged: self.merged(),
                    initial: self.initial,
                },
                Platform::Windows { .. } => OpenAction::SplitPane {
                    request: self.split_request(),
                    ratio: self.ratio,
                    fallback: fallback_share(self.state.dock_right),
                    initial: self.initial,
                },
            },
            OpenStage::Identity => OpenAction::ReportStarting {
                pane_id: self.pane,
                view: self.view,
                merged: self.merged(),
            },
            OpenStage::Abandon { .. } => OpenAction::Call(Request::PaneClose { pane_id: self.pane }),
            OpenStage::Swap => OpenAction::Call(
                Request::PaneSwap { source: self.pane, target: self.target },
            ),
            OpenStage::Resize => OpenAction::Resize {
                request: self.resize_request(),
                ratio: self.ratio,
                fallback: fallback_share(self.state.dock_right),
            },
            OpenStage::Command => OpenAction::Call(
                Request::PaneSendInput {
                    pane_id: self.pane,
                    text: match self.platform {
                        Platform::Unix => Seq::empty(),
                        Platform::Windows { executable, view_flag, .. } => command_line(
                            executable,
                            self.view,
                            view_flag,
                        ),
                    },
                    key: "Enter"@,
                },
            ),
            OpenStage::Label => OpenAction::Call(
                Request::PaneRename {
                    pane_id: self.pane,
                    label: match self.platform {
                        Platform::Unix => Seq::empty(),
                        Platform::Windows { label, .. } => label,
                    },
                },
            ),
            OpenStage::Repair => OpenAction::Repair {
                pane_id: self.pane,
                dock_right: self.state.dock_right,
            },
            OpenStage::Focus => OpenAction::Call(
                Request::PaneFocus {
                    pane_id: if self.focus_new {
                        self.pane
                    } else {
                        self.origin
                    },
                },
            ),
            OpenStage::Finished => OpenAction::Finish,
            OpenStage::Failed { .. } => OpenAction::Fail,
        }
    }

    /// The opening once the new pane has been given up, whatever came of that.
    pub open spec fn given_up(self) -> Open<Seq<char>, E> {
        match self.stage {
            OpenStage::Abandon { error } => Open { stage: OpenStage::Failed { error }, ..self },
            _ => self,
        }
    }

    /// What the opening comes to: the reason of the failure that ended it, if one
    /// did. That a new pane could not be given up either is not such a reason.
    pub open spec fn outcome(self) -> Result<(), E> {
        match self.stage {
            OpenStage::Failed { error } => Err(error),
            _ => Ok(()),
        }
    }

    /// The opening once it is told `event`. An event that does not answer what
    /// the opening asks for changes nothing.
    pub open spec fn next(self, event: Event<Seq<char>, E>) -> Open<Seq<char>, E> {
        match (self.stage, event) {
            (OpenStage::Layout, Event::Text(layout)) => Open {
                stage: OpenStage::Plan { layout },
                ..self
            },
            (OpenStage::Plan { .. }, Event::Text(plan)) => Open {
                target: planned_target(plan, self.origin),
                ratio: field(plan, '\t', 1),
                needs_swap: planned_swap(plan, self.state.dock_right),
                stage: OpenStage::Spawn,
                ..self
            },
            (OpenStage::Spawn, Event::Text(pane)) => if self.platform is Unix {
                Open { pane, ..self }.spawned()
            } else {
                Open { pane, stage: OpenStage::Identity, ..self }
            },
            (OpenStage::Spawn, Event::Missing) => if self.platform is Unix {
                self
            } else {
                Open { stage: OpenStage::Finished, ..self }
            },
            (OpenStage::Identity, Event::Done) => self.spawned(),
            (OpenStage::Identity, Event::Failed(error)) => Open {
                stage: OpenStage::Abandon { error },
                ..self
            },
            (OpenStage::Abandon { .. }, Event::Text(_)) => self.given_up(),
            (OpenStage::Abandon { .. }, Event::Failed(_)) => self.given_up(),
            (OpenStage::Swap, Event::Text(_)) => self.in_place(),
            (OpenStage::Resize, Event::Done) => Open { stage: OpenStage::Repair, ..self },
            (OpenStage::Command, Event::Text(_)) => Open { stage: OpenStage::Label, ..self },
            (OpenStage::Label, Event::Text(_)) => Open { stage: OpenStage::Repair, ..self },
            (OpenStage::Repair, Event::Done) => Open { stage: OpenStage::Focus, ..self },
            (OpenStage::Focus, Event::Text(_)) => Open { stage: OpenStage::Finished, ..self },
            (
                OpenStage::Layout
                | OpenStage::Spawn
                | OpenStage::Swap
                | OpenStage::Command
                | OpenStage::Label
                | OpenStage::Focus,
                Event::Failed(error),
            ) => Open { stage: OpenStage::Failed { error }, ..self },
            _ => self,
        }
    }
}

/// An opening at its start. `focused` is the focused pane, a tab and its
/// directory; where there is no such pane, there is nothing to open beside.
pub open spec fn open_start<E>(
    platform: Platform<Seq<char>>,
    focus_new: bool,
    view: SidebarView,
    initial: Option<Target>,
    state: State,
    focused: Seq<char>,
) -> Open<Seq<char>, E> {
    let (origin, cwd) = match cut(focused, '\t') {
        Some((origin, cwd)) => (origin, cwd),
        None => (Seq::empty(), Seq::empty()),
    };
    Open {
        platform,
        focus_new,
        view,
        initial,
        state,
        origin,
        cwd,
        target: Seq::empty(),
        ratio: None,
        needs_swap: false,
        pane: Seq::empty(),
        stage: if cut(focused, '\t') is Some {
            OpenStage::Layout
        } else {
            OpenStage::Finished
        },
    }
}

/// Starts an opening.
pub fn open<E>(
    platform: Platform<String>,
    focus_new: bool,
    view: SidebarView,
    initial: Option<Target>,
    state: State,
    focused: &str,
) -> (open: Open<String, E>)
    ensures
        open@ == open_start::<E>(platform@, focus_new, view, initial, state, focused@),
{
    let (origin, cwd, stage) = match split_once(focused, '\t') {
        Some((origin, cwd)) => (origin.to_owned(), cwd.to_owned(), OpenStage::Layout),
        None => (String::new(), String::new(), OpenStage::Finished),
    };
    Open {
        platform,
        focus_new,
        view,
        initial,
        state,
        origin,
        cwd,
        target: String::new(),
        ratio: None,
        needs_swap: false,
        pane: String::new(),
        stage,
    }
}

/// What a plan says: the pane to split, the share of the new pane, and whether
/// it has to change sides.
pub fn read_plan(plan: &str, origin: &str, dock_right: bool) -> (read: (String, Option<String>, bool))
    ensures
        read.0@ == planned_target(plan@, origin@),
        opt_text(read.1) == field(plan@, '\t', 1),
        read.2 == planned_swap(plan@, dock_right),
{
    reveal_with_fuel(field, 3);
    match split_once(plan, '\t') {
        Some((first, rest)) => {
            let target: String = if first.is_empty() {
                origin.to_owned()
            } else {
                first.to_owned()
            };
            match split_once(rest, '\t') {
                Some((second, rest)) => {
                    let third: &str = match split_once(rest, '\t') {
                        Some((third, _)) => third,
                        None => rest,
                    };
                    let swap: bool = match parse_truth(third) {
                        Some(swap) => swap,
                        None => !dock_right,
                    };
                    (target, Some(second.to_owned()), swap)
                },
                None => (target, Some(rest.to_owned()), !dock_right),
            }
        },
        None => {
            let target: String = if plan.is_empty() {
                origin.to_owned()
            } else {
                plan.to_owned()
            };
            (target, None, !dock_right)
        },
    }
}

/// The share of the new pane in hundredths, where the plan gives none.
pub fn default_share(dock_right: bool) -> (share: u64)
    ensures
        share == fallback_share(dock_right),
{
    if dock_right {
        75
    } else {
        25
    }
}

/// The request that moves the inner edge of a pane.
pub fn resize_direct_spawn(pane_id: &str, dock_right: bool) -> (request: Request<String>)
    ensures
        request@ == (Request::PaneResize {
            pane_id: pane_id@,
            direction: inner_edge(dock_right),
        }),
{
    let direction: &str = if dock_right {
        "right"
    } else {
        "left"
    };
    Request::PaneResize { pane_id: pane_id.to_owned(), direction: direction.to_owned() }
}

/// The command that starts a sidebar.
pub fn spawn_command(executable: &str, view: SidebarView, view_flag: &str) -> (command: String)
    ensures
        command@ == command_line(executable@, view, view_flag@),
{
    let mut command: String = executable.to_owned();
    if view != SidebarView::Explorer {
        command.append(" --view ");
        command.append(view_flag);
    }
    command
}

/// The environment of a new process: the given one, with the initial target
/// under `variable` where there is a target and an environment to name it in.
pub open spec fn env_with(env: JsonView, variable: Seq<char>, initial: Option<Target>) -> JsonView {
    match (env, initial) {
        (JsonView::Object(names), Some(target)) => JsonView::Object(
            names.insert(variable, JsonView::Text(target.env_name())),
        ),
        _ => env,
    }
}

/// The parameters of the request that splits a pane for a new process: its own,
/// and the environment of the process, in which `variable` names the initial
/// target. The share of the new pane goes beside them.
pub fn split_params(
    request: &Request<String>,
    env: serde_json::Value,
    variable: &str,
    initial: Option<Target>,
) -> (params: serde_json::Value)
    ensures
        json_view(params) == JsonView::Object(
            params_of(request@).insert("env"@, env_with(json_view(env), variable@, initial)),
        ),
{
    let mut env = env;
    if let Some(target) = initial {
        if env.is_object() {
            put(&mut env, variable, from_text(target.env_value()));
        }
    }
    let mut params = request.params();
    put(&mut params, "env", env);
    params
}

/// A copy of an optional text.
fn copy_text(text: &Option<String>) -> (copy: Option<String>)
    ensures
        opt_text(copy) == opt_text(*text),
{
    match text {
        Some(text) => Some(text.clone()),
        None => None,
    }
}

impl<E> Open<String, E> {
    /// Whether the host starts the process.
    fn is_unix(&self) -> (unix: bool)
        ensures
            unix == self@.platform is Unix,
    {
        match self.platform {
            Platform::Unix => true,
            _ => false,
        }
    }

    /// Whether the new pane shows both views.
    fn is_merged(&self) -> (merged: bool)
        ensures
            merged == self@.merged(),
    {
        self.view == SidebarView::Explorer && self.state.merged
    }

    /// What the opening asks for.
    pub fn action(&self) -> (action: OpenAction<String>)
        ensures
            action@ == self@.pending(),
    {
        match &self.stage {
            OpenStage::Layout => OpenAction::Call(
                Request::PaneLayout { pane_id: self.origin.clone() },
            ),
            OpenStage::Plan { layout } => OpenAction::PlanLayout {
                layout: layout.clone(),
                dock_right: self.state.dock_right,
                sidebar_width: self.state.sidebar_width,
            },
            OpenStage::Spawn => if self.is_unix() {
                OpenAction::OpenPane {
                    target: self.target.clone(),
                    view: self.view,
                    cwd: self.cwd.clone(),
                    merged: self.is_merged(),
                    initial: self.initial,
                }
            } else {
                let cwd: Option<String> = if self.cwd.as_str().is_empty() {
                    None
                } else {
                    Some(self.cwd.clone())
                };
                OpenAction::SplitPane {
                    request: Request::PaneSplit { target: self.target.clone(), cwd },
                    ratio: copy_text(&self.ratio),
                    fallback: default_share(self.state.dock_right),
                    initial: self.initial,
                }
            },
            OpenStage::Identity => OpenAction::ReportStarting {
                pane_id: self.pane.clone(),
                view: self.view,
                merged: self.is_merged(),
            },
            OpenStage::Abandon { .. } => OpenAction::Call(
                Request::PaneClose { pane_id: self.pane.clone() },
            ),
            OpenStage::Swap => OpenAction::Call(
                Request::PaneSwap { source: self.pane.clone(), target: self.target.clone() },
            ),
            OpenStage::Resize => OpenAction::Resize {
                request: resize_direct_spawn(self.pane.as_str(), self.state.dock_right),
                ratio: copy_text(&self.ratio),
                fallback: default_share(self.state.dock_right),
            },
            OpenStage::Command => {
                let text: String = match &self.platform {
                    Platform::Unix => String::new(),
                    Platform::Windows { executable, view_flag, .. } => spawn_command(
                        executable.as_str(),
                        self.view,
                        view_flag.as_str(),
                    ),
                };
                OpenAction::Call(
                    Request::PaneSendInput {
                        pane_id: self.pane.clone(),
                        text,
                        key: "Enter".to_owned(),
                    },
                )
            },
            OpenStage::Label => {
                let label: String = match &self.platform {
                    Platform::Unix => String::new(),
                    Platform::Windows { label, .. } => label.clone(),
                };
                OpenAction::Call(Request::PaneRename { pane_id: self.pane.clone(), label })
            },
            OpenStage::Repair => OpenAction::Repair {
                pane_id: self.pane.clone(),
                dock_right: self.state.dock_right,
            },
            OpenStage::Focus => OpenAction::Call(
                if self.focus_new {
                    focus(self.pane.as_str())
                } else {
                    focus(self.origin.as_str())
                },
            ),
            OpenStage::Finished => OpenAction::Finish,
            OpenStage::Failed { .. } => OpenAction::Fail,
        }
    }

    /// The opening once the new pane is in place.
    fn in_place(self) -> (open: Self)
        ensures
            open@ == self@.in_place(),
    {
        if self.is_unix() {
            Open { stage: OpenStage::Resize, ..self }
        } else {
            Open { stage: OpenStage::Command, ..self }
        }
    }

    /// The opening once the new pane is there.
    fn spawned(self) -> (open: Self)
        ensures
            open@ == self@.spawned(),
    {
        if self.needs_swap {
            Open { stage: OpenStage::Swap, ..self }
        } else {
            self.in_place()
        }
    }

    /// The opening once the new pane has been given up, whatever came of that.
    fn given_up(self) -> (open: Self)
        ensures
            open@ == self@.given_up(),
    {
        match self.stage {
            OpenStage::Abandon { error } => Open { stage: OpenStage::Failed { error }, ..self },
            _ => self,
        }
    }

    /// What the opening comes to: the reason of the failure that ended it, if one
    /// did. That a new pane could not be given up either is not such a reason.
    pub fn outcome(self) -> (outcome: Result<(), E>)
        ensures
            outcome == self@.outcome(),
    {
        match self.stage {
            OpenStage::Failed { error } => Err(error),
            _ => Ok(()),
        }
    }

    /// The opening once it is told what came of what it asked for. An event that
    /// does not answer that changes nothing.
    pub fn next(self, event: Event<String, E>) -> (open: Self)
        ensures
            open@ == self@.next(event@),
    {
        match (&self.stage, event) {
            (OpenStage::Layout, Event::Text(layout)) => Open {
                stage: OpenStage::Plan { layout },
                ..self
            },
            (OpenStage::Plan { .. }, Event::Text(plan)) => {
                let (target, ratio, needs_swap) = read_plan(
                    plan.as_str(),
                    self.origin.as_str(),
                    self.state.dock_right,
                );
                Open { target, ratio, needs_swap, stage: OpenStage::Spawn, ..self }
            },
            (OpenStage::Spawn, Event::Text(pane)) => if self.is_unix() {
                Open { pane, ..self }.spawned()
            } else {
                Open { pane, stage: OpenStage::Identity, ..self }
            },
            (OpenStage::Spawn, Event::Missing) => if self.is_unix() {
                self
            } else {
                Open { stage: OpenStage::Finished, ..self }
            },
            (OpenStage::Identity, Event::Done) => self.spawned(),
            (OpenStage::Identity, Event::Failed(error)) => Open {
                stage: OpenStage::Abandon { error },
                ..self
            },
            (OpenStage::Abandon { .. }, Event::Text(_)) => self.given_up(),
            (OpenStage::Abandon { .. }, Event::Failed(_)) => self.given_up(),
            (OpenStage::Swap, Event::Text(_)) => self.in_place(),
            (OpenStage::Resize, Event::Done) => Open { stage: OpenStage::Repair, ..self },
            (OpenStage::Command, Event::Text(_)) => Open { stage: OpenStage::Label, ..self },
            (OpenStage::Label, Event::Text(_)) => Open { stage: OpenStage::Repair, ..self },
            (OpenStage::Repair, Event::Done) => Open { stage: OpenStage::Focus, ..self },
            (OpenStage::Focus, Event::Text(_)) => Open { stage: OpenStage::Finished, ..self },
            (
                OpenStage::Layout
                | OpenStage::Spawn
                | OpenStage::Swap
                | OpenStage::Command
                | OpenStage::Label
                | OpenStage::Focus,
                Event::Failed(error),
            ) => Open { stage: OpenStage::Failed { error }, ..self },
            _ => self,
        }
    }
}

} // verus!

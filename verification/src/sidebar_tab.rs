//! The sidebar tab of a workspace: jumping to it, and opening it first where
//! there is none. Either way it ends up in the first slot.
//!
//! A visit names the next thing to do, is told what came of it, and goes on from
//! there.

use vstd::prelude::*;

use crate::activity::State;
use crate::event::Event;
use crate::json::document;
use crate::panes::{
    context_pane, context_pane_in, first_where, focused_pane, has_focus, has_id, has_label,
    lemma_the_first_one_is_found, pane_views, pane_with_id, panes_in, read_panes, read_tabs,
    tab_views, tab_with_label, tabs_in, PaneInfo, TabInfo,
};
use crate::request::Request;
use crate::text::opt_text;

verus! {

/// The label of a workspace's sidebar tab.
pub const SIDEBAR_TAB_LABEL: &'static str = "sidebar";

/// Something that a visit asks its surroundings to do. `S` is the kind of text.
#[derive(Debug, PartialEq, Eq)]
pub enum TabAction<S> {
    /// Take the lock between launchers, and wait for it.
    TakeLock,
    /// Send a request to the host.
    Call(Request<S>),
    /// Load the remembered state.
    LoadState,
    /// Have the host start a sidebar in a new tab of a workspace.
    OpenTab { workspace_id: S, cwd: S, merged: bool },
    /// Nothing: the visit is over.
    Finish,
    /// Nothing: the visit is over, and what was asked for last could not be done.
    /// The visit's outcome says why.
    Fail,
}

/// Where a visit stands.
#[derive(Debug, PartialEq, Eq)]
pub enum TabStage<S, E> {
    /// The lock is asked for.
    Lock,
    /// The panes are asked for.
    Panes,
    /// The tabs of the workspace are asked for.
    Tabs { workspace_id: S, cwd: S },
    /// The state is asked for.
    Load { workspace_id: S, cwd: S },
    /// The new tab is asked for.
    Spawn { workspace_id: S, cwd: S, merged: bool },
    /// The panes are asked for again, with the new one among them.
    Relist { pane_id: S },
    /// The new tab is labelled.
    Rename { tab_id: S },
    /// The tab is moved to the first slot.
    Move { tab_id: S },
    /// The tab gets the focus.
    Focus { tab_id: S },
    /// It is over.
    Finished,
    /// Something could not be done, for the given reason.
    Failed { error: E },
}

/// A visit to the sidebar tab. `E` is what the surroundings say of a failure.
#[derive(Debug, PartialEq, Eq)]
pub struct SidebarTab<S, E> {
    /// The pane that the context of the invocation names as focused.
    pub context: Option<S>,
    pub stage: TabStage<S, E>,
}

impl View for TabAction<String> {
    type V = TabAction<Seq<char>>;

    open spec fn view(&self) -> TabAction<Seq<char>> {
        match *self {
            TabAction::TakeLock => TabAction::TakeLock,
            TabAction::Call(request) => TabAction::Call(request@),
            TabAction::LoadState => TabAction::LoadState,
            TabAction::OpenTab { workspace_id, cwd, merged } => TabAction::OpenTab {
                workspace_id: workspace_id@,
                cwd: cwd@,
                merged,
            },
            TabAction::Finish => TabAction::Finish,
            TabAction::Fail => TabAction::Fail,
        }
    }
}

impl<E> View for TabStage<String, E> {
    type V = TabStage<Seq<char>, E>;

    open spec fn view(&self) -> TabStage<Seq<char>, E> {
        match *self {
            TabStage::Lock => TabStage::Lock,
            TabStage::Panes => TabStage::Panes,
            TabStage::Tabs { workspace_id, cwd } => TabStage::Tabs {
                workspace_id: workspace_id@,
                cwd: cwd@,
            },
            TabStage::Load { workspace_id, cwd } => TabStage::Load {
                workspace_id: workspace_id@,
                cwd: cwd@,
            },
            TabStage::Spawn { workspace_id, cwd, merged } => TabStage::Spawn {
                workspace_id: workspace_id@,
                cwd: cwd@,
                merged,
            },
            TabStage::Relist { pane_id } => TabStage::Relist { pane_id: pane_id@ },
            TabStage::Rename { tab_id } => TabStage::Rename { tab_id: tab_id@ },
            TabStage::Move { tab_id } => TabStage::Move { tab_id: tab_id@ },
            TabStage::Focus { tab_id } => TabStage::Focus { tab_id: tab_id@ },
            TabStage::Finished => TabStage::Finished,
            TabStage::Failed { error } => TabStage::Failed { error },
        }
    }
}

impl<E> View for SidebarTab<String, E> {
    type V = SidebarTab<Seq<char>, E>;

    open spec fn view(&self) -> SidebarTab<Seq<char>, E> {
        SidebarTab { context: opt_text(self.context), stage: self.stage@ }
    }
}

/// The pane that a visit starts from: the one that the context names, or the
/// focused one where it names none.
pub open spec fn starting_pane(
    panes: Seq<PaneInfo<Seq<char>>>,
    context: Option<Seq<char>>,
) -> Option<PaneInfo<Seq<char>>> {
    match context {
        Some(id) => first_where(panes, has_id(id)),
        None => first_where(panes, has_focus()),
    }
}

/// The directory that a sidebar started from a pane is rooted in.
pub open spec fn root_of(pane: PaneInfo<Seq<char>>) -> Seq<char> {
    match (pane.foreground_cwd, pane.cwd) {
        (Some(cwd), _) => cwd,
        (None, Some(cwd)) => cwd,
        (None, None) => Seq::empty(),
    }
}

/// The id of the first tab with the sidebar's label, if it has one.
pub open spec fn sidebar_tab_in(tabs: Seq<TabInfo<Seq<char>>>) -> Option<Seq<char>> {
    match first_where(tabs, has_label(SIDEBAR_TAB_LABEL@)) {
        Some(tab) => tab.tab_id,
        None => None,
    }
}

/// The tab of the first pane with the given id, if it has one.
pub open spec fn tab_of(panes: Seq<PaneInfo<Seq<char>>>, pane_id: Seq<char>) -> Option<Seq<char>> {
    match first_where(panes, has_id(pane_id)) {
        Some(pane) => pane.tab_id,
        None => None,
    }
}

impl<E> SidebarTab<Seq<char>, E> {
    /// The visit at another stage.
    pub open spec fn at(self, stage: TabStage<Seq<char>, E>) -> SidebarTab<Seq<char>, E> {
        SidebarTab { stage, ..self }
    }

    /// The visit once it knows the panes.
    pub open spec fn started(self, panes: Seq<PaneInfo<Seq<char>>>) -> SidebarTab<Seq<char>, E> {
        match starting_pane(panes, self.context) {
            Some(pane) => match pane.workspace_id {
                Some(workspace_id) => self.at(TabStage::Tabs { workspace_id, cwd: root_of(pane) }),
                None => self.at(TabStage::Finished),
            },
            None => self.at(TabStage::Finished),
        }
    }

    /// What the visit asks for.
    pub open spec fn pending(self) -> TabAction<Seq<char>> {
        match self.stage {
            TabStage::Lock => TabAction::TakeLock,
            TabStage::Panes => TabAction::Call(Request::PaneList),
            TabStage::Tabs { workspace_id, .. } => TabAction::Call(
                Request::TabList { workspace_id },
            ),
            TabStage::Load { .. } => TabAction::LoadState,
            TabStage::Spawn { workspace_id, cwd, merged } => TabAction::OpenTab {
                workspace_id,
                cwd,
                merged,
            },
            TabStage::Relist { .. } => TabAction::Call(Request::PaneList),
            TabStage::Rename { tab_id } => TabAction::Call(
                Request::TabRename { tab_id, label: SIDEBAR_TAB_LABEL@ },
            ),
            TabStage::Move { tab_id } => TabAction::Call(
                Request::TabMove { tab_id, insert_index: 0 },
            ),
            TabStage::Focus { tab_id } => TabAction::Call(Request::TabFocus { tab_id }),
            TabStage::Finished => TabAction::Finish,
            TabStage::Failed { .. } => TabAction::Fail,
        }
    }

    /// What the visit comes to: the reason of the failure that ended it, if one
    /// did.
    pub open spec fn outcome(self) -> Result<(), E> {
        match self.stage {
            TabStage::Failed { error } => Err(error),
            _ => Ok(()),
        }
    }

    /// The visit once it is told `event`. An event that does not answer what the
    /// visit asks for changes nothing.
    pub open spec fn next(self, event: Event<Seq<char>, E>) -> SidebarTab<Seq<char>, E> {
        match (self.stage, event) {
            (TabStage::Lock, Event::Locked) => self.at(TabStage::Panes),
            (TabStage::Lock, Event::Busy) => self.at(TabStage::Finished),
            (TabStage::Panes, Event::Text(reply)) => self.started(panes_in(document(reply))),
            (TabStage::Tabs { workspace_id, cwd }, Event::Text(reply)) => match sidebar_tab_in(
                tabs_in(document(reply)),
            ) {
                Some(tab_id) => self.at(TabStage::Move { tab_id }),
                None => self.at(TabStage::Load { workspace_id, cwd }),
            },
            (TabStage::Load { workspace_id, cwd }, Event::Loaded(state)) => self.at(
                TabStage::Spawn { workspace_id, cwd, merged: state.merged },
            ),
            (TabStage::Spawn { .. }, Event::Text(pane_id)) => self.at(TabStage::Relist { pane_id }),
            (TabStage::Relist { pane_id }, Event::Text(reply)) => match tab_of(
                panes_in(document(reply)),
                pane_id,
            ) {
                Some(tab_id) => self.at(TabStage::Rename { tab_id }),
                None => self.at(TabStage::Finished),
            },
            (TabStage::Rename { tab_id }, Event::Text(_)) => self.at(TabStage::Move { tab_id }),
            (TabStage::Move { tab_id }, Event::Text(_)) => self.at(TabStage::Focus { tab_id }),
            (TabStage::Focus { .. }, Event::Text(_)) => self.at(TabStage::Finished),
            (
                TabStage::Panes
                | TabStage::Tabs { .. }
                | TabStage::Spawn { .. }
                | TabStage::Relist { .. }
                | TabStage::Rename { .. }
                | TabStage::Move { .. }
                | TabStage::Focus { .. },
                Event::Failed(error),
            ) => self.at(TabStage::Failed { error }),
            _ => self,
        }
    }
}

/// A visit at its start.
pub open spec fn sidebar_tab_start<E>(context: Seq<char>) -> SidebarTab<Seq<char>, E> {
    SidebarTab { context: context_pane_in(document(context)), stage: TabStage::Lock }
}

/// Starts a visit, given the context of the invocation.
pub fn sidebar_tab<E>(context_json: &str) -> (visit: SidebarTab<String, E>)
    ensures
        visit@ == sidebar_tab_start::<E>(context_json@),
{
    SidebarTab { context: context_pane(context_json), stage: TabStage::Lock }
}

/// The pane that a visit starts from.
pub fn pane_to_start_from<'a>(panes: &'a Vec<PaneInfo<String>>, context: &Option<String>) -> (found:
    Option<&'a PaneInfo<String>>)
    ensures
        starting_pane(pane_views(panes@), opt_text(*context)) == match found {
            Some(pane) => Some(pane@),
            None => None,
        },
{
    match context {
        Some(id) => pane_with_id(panes, id.as_str()),
        None => focused_pane(panes),
    }
}

/// The directory that a sidebar started from a pane is rooted in.
pub fn pane_root(pane: &PaneInfo<String>) -> (root: String)
    ensures
        root@ == root_of(pane@),
{
    match &pane.foreground_cwd {
        Some(cwd) => cwd.clone(),
        None => match &pane.cwd {
            Some(cwd) => cwd.clone(),
            None => String::new(),
        },
    }
}

/// The id of the sidebar tab among `tabs`.
pub fn existing_sidebar_tab(tabs: &Vec<TabInfo<String>>) -> (found: Option<String>)
    ensures
        opt_text(found) == sidebar_tab_in(tab_views(tabs@)),
{
    match tab_with_label(tabs, SIDEBAR_TAB_LABEL) {
        Some(tab) => match &tab.tab_id {
            Some(id) => Some(id.clone()),
            None => None,
        },
        None => None,
    }
}

/// The tab that a pane is in.
pub fn tab_of_pane(panes: &Vec<PaneInfo<String>>, pane_id: &str) -> (found: Option<String>)
    ensures
        opt_text(found) == tab_of(pane_views(panes@), pane_id@),
{
    match pane_with_id(panes, pane_id) {
        Some(pane) => match &pane.tab_id {
            Some(id) => Some(id.clone()),
            None => None,
        },
        None => None,
    }
}

impl<E> SidebarTab<String, E> {
    /// The visit at another stage.
    fn at(self, stage: TabStage<String, E>) -> (visit: Self)
        ensures
            visit@ == self@.at(stage@),
    {
        SidebarTab { stage, ..self }
    }

    /// The visit once it knows the panes.
    pub fn started(self, panes: &Vec<PaneInfo<String>>) -> (visit: Self)
        ensures
            visit@ == self@.started(pane_views(panes@)),
    {
        match pane_to_start_from(panes, &self.context) {
            Some(pane) => match &pane.workspace_id {
                Some(workspace_id) => self.at(
                    TabStage::Tabs { workspace_id: workspace_id.clone(), cwd: pane_root(pane) },
                ),
                None => self.at(TabStage::Finished),
            },
            None => self.at(TabStage::Finished),
        }
    }

    /// What the visit asks for.
    pub fn action(&self) -> (action: TabAction<String>)
        ensures
            action@ == self@.pending(),
    {
        match &self.stage {
            TabStage::Lock => TabAction::TakeLock,
            TabStage::Panes => TabAction::Call(Request::PaneList),
            TabStage::Tabs { workspace_id, .. } => TabAction::Call(
                Request::TabList { workspace_id: workspace_id.clone() },
            ),
            TabStage::Load { .. } => TabAction::LoadState,
            TabStage::Spawn { workspace_id, cwd, merged } => TabAction::OpenTab {
                workspace_id: workspace_id.clone(),
                cwd: cwd.clone(),
                merged: *merged,
            },
            TabStage::Relist { .. } => TabAction::Call(Request::PaneList),
            TabStage::Rename { tab_id } => TabAction::Call(
                Request::TabRename {
                    tab_id: tab_id.clone(),
                    label: SIDEBAR_TAB_LABEL.to_owned(),
                },
            ),
            TabStage::Move { tab_id } => TabAction::Call(
                Request::TabMove { tab_id: tab_id.clone(), insert_index: 0 },
            ),
            TabStage::Focus { tab_id } => TabAction::Call(
                Request::TabFocus { tab_id: tab_id.clone() },
            ),
            TabStage::Finished => TabAction::Finish,
            TabStage::Failed { .. } => TabAction::Fail,
        }
    }

    /// What the visit comes to: the reason of the failure that ended it, if one
    /// did.
    pub fn outcome(self) -> (outcome: Result<(), E>)
        ensures
            outcome == self@.outcome(),
    {
        match self.stage {
            TabStage::Failed { error } => Err(error),
            _ => Ok(()),
        }
    }

    /// The visit once it is told what came of what it asked for. An event that
    /// does not answer that changes nothing.
    pub fn next(self, event: Event<String, E>) -> (visit: Self)
        ensures
            visit@ == self@.next(event@),
    {
        match (&self.stage, event) {
            (TabStage::Lock, Event::Locked) => self.at(TabStage::Panes),
            (TabStage::Lock, Event::Busy) => self.at(TabStage::Finished),
            (TabStage::Panes, Event::Text(reply)) => {
                let panes = read_panes(reply.as_str());
                self.started(&panes)
            },
            (TabStage::Tabs { workspace_id, cwd }, Event::Text(reply)) => {
                let tabs = read_tabs(reply.as_str());
                match existing_sidebar_tab(&tabs) {
                    Some(tab_id) => self.at(TabStage::Move { tab_id }),
                    None => {
                        let stage = TabStage::Load {
                            workspace_id: workspace_id.clone(),
                            cwd: cwd.clone(),
                        };
                        self.at(stage)
                    },
                }
            },
            (TabStage::Load { workspace_id, cwd }, Event::Loaded(state)) => {
                let stage = TabStage::Spawn {
                    workspace_id: workspace_id.clone(),
                    cwd: cwd.clone(),
                    merged: state.merged,
                };
                self.at(stage)
            },
            (TabStage::Spawn { .. }, Event::Text(pane_id)) => self.at(TabStage::Relist { pane_id }),
            (TabStage::Relist { pane_id }, Event::Text(reply)) => {
                let panes = read_panes(reply.as_str());
                match tab_of_pane(&panes, pane_id.as_str()) {
                    Some(tab_id) => self.at(TabStage::Rename { tab_id }),
                    None => self.at(TabStage::Finished),
                }
            },
            (TabStage::Rename { tab_id }, Event::Text(_)) => {
                let stage = TabStage::Move { tab_id: tab_id.clone() };
                self.at(stage)
            },
            (TabStage::Move { tab_id }, Event::Text(_)) => {
                let stage = TabStage::Focus { tab_id: tab_id.clone() };
                self.at(stage)
            },
            (TabStage::Focus { .. }, Event::Text(_)) => self.at(TabStage::Finished),
            (
                TabStage::Panes
                | TabStage::Tabs { .. }
                | TabStage::Spawn { .. }
                | TabStage::Relist { .. }
                | TabStage::Rename { .. }
                | TabStage::Move { .. }
                | TabStage::Focus { .. },
                Event::Failed(error),
            ) => self.at(TabStage::Failed { error }),
            _ => self,
        }
    }
}

/// The visit once it has been told all of `events`, one after the other.
pub open spec fn sidebar_tab_after<E>(
    visit: SidebarTab<Seq<char>, E>,
    events: Seq<Event<Seq<char>, E>>,
) -> SidebarTab<Seq<char>, E>
    decreases events.len(),
{
    if events.len() == 0 {
        visit
    } else {
        sidebar_tab_after(visit, events.drop_last()).next(events.last())
    }
}

/// Once a visit knows its tab, and nothing fails, the tab is moved to the first
/// slot and gets the focus, and the visit is over; a new tab is labelled before.
pub proof fn lemma_the_tab_moves_first<E>(
    visit: SidebarTab<Seq<char>, E>,
    tab_id: Seq<char>,
    reply: Seq<char>,
)
    ensures
        visit.at(TabStage::Rename { tab_id }).pending() == TabAction::Call(
            Request::TabRename { tab_id, label: SIDEBAR_TAB_LABEL@ },
        ),
        visit.at(TabStage::Rename { tab_id }).next(Event::Text(reply)) == visit.at(
            TabStage::Move { tab_id },
        ),
        visit.at(TabStage::Move { tab_id }).pending() == TabAction::Call(
            Request::TabMove { tab_id, insert_index: 0 },
        ),
        visit.at(TabStage::Move { tab_id }).next(Event::Text(reply)).pending() == TabAction::Call(
            Request::TabFocus { tab_id },
        ),
        visit.at(TabStage::Move { tab_id }).next(Event::Text(reply)).next(
            Event::Text(reply),
        ).pending() == TabAction::<Seq<char>>::Finish,
{
}

/// A workspace that has its sidebar tab gets no second one: what follows the
/// listing is the move, and nothing is opened from there on.
pub proof fn lemma_an_existing_tab_is_reused<E>(
    visit: SidebarTab<Seq<char>, E>,
    reply: Seq<char>,
    events: Seq<Event<Seq<char>, E>>,
)
    requires
        visit.stage is Tabs,
        sidebar_tab_in(tabs_in(document(reply))) is Some,
    ensures
        visit.next(Event::Text(reply)).pending() == TabAction::Call(
            Request::TabMove {
                tab_id: sidebar_tab_in(tabs_in(document(reply)))->0,
                insert_index: 0,
            },
        ),
        !(sidebar_tab_after(visit.next(Event::Text(reply)), events).pending() is OpenTab),
{
    lemma_late_visits_open_nothing(visit.next(Event::Text(reply)), events);
}

proof fn lemma_late_visits_open_nothing<E>(
    visit: SidebarTab<Seq<char>, E>,
    events: Seq<Event<Seq<char>, E>>,
)
    requires
        visit.stage is Move,
    ensures
        ({
            let stage = sidebar_tab_after(visit, events).stage;
            stage is Move || stage is Focus || stage is Finished || stage is Failed
        }),
    decreases events.len(),
{
    if events.len() > 0 {
        lemma_late_visits_open_nothing(visit, events.drop_last());
    }
}

/// A request that fails ends the visit, and its reason is what the visit comes
/// to; the same holds of a tab that cannot be opened.
pub proof fn lemma_failures_end_the_visit<E>(
    visit: SidebarTab<Seq<char>, E>,
    error: E,
    events: Seq<Event<Seq<char>, E>>,
)
    requires
        visit.pending() is Call || visit.pending() is OpenTab,
    ensures
        sidebar_tab_after(visit.next(Event::Failed(error)), events).pending() == TabAction::<
            Seq<char>,
        >::Fail,
        sidebar_tab_after(visit.next(Event::Failed(error)), events).outcome() == Err::<(), E>(error),
{
    lemma_failed_stays_failed(visit.next(Event::Failed(error)), events);
}

proof fn lemma_failed_stays_failed<E>(
    visit: SidebarTab<Seq<char>, E>,
    events: Seq<Event<Seq<char>, E>>,
)
    requires
        visit.stage is Failed,
    ensures
        sidebar_tab_after(visit, events) == visit,
    decreases events.len(),
{
    if events.len() > 0 {
        lemma_failed_stays_failed(visit, events.drop_last());
    }
}

/// No visit makes up a reason: the one that it comes to is that of the answer
/// that ended it. It comes to one if and only if it says that it failed.
pub proof fn lemma_visits_fail_for_what_they_are_told<E>(
    visit: SidebarTab<Seq<char>, E>,
    event: Event<Seq<char>, E>,
    error: E,
)
    ensures
        visit.outcome() is Ok && visit.next(event).outcome() == Err::<(), E>(error) ==> event
            == Event::<Seq<char>, E>::Failed(error),
        visit.pending() is Fail <==> visit.outcome() is Err,
{
}

/// A visit does nothing before it holds the lock.
pub proof fn lemma_visits_lock_first<E>(context: Seq<char>)
    ensures
        sidebar_tab_start::<E>(context).pending() == TabAction::<Seq<char>>::TakeLock,
        sidebar_tab_start::<E>(context).next(Event::Busy).pending() == TabAction::<Seq<char>>::Finish,
{
}

/// How many answers a visit still waits for at most.
pub open spec fn answers_left<E>(visit: SidebarTab<Seq<char>, E>) -> nat {
    match visit.stage {
        TabStage::Lock => 9,
        TabStage::Panes => 8,
        TabStage::Tabs { .. } => 7,
        TabStage::Load { .. } => 6,
        TabStage::Spawn { .. } => 5,
        TabStage::Relist { .. } => 4,
        TabStage::Rename { .. } => 3,
        TabStage::Move { .. } => 2,
        TabStage::Focus { .. } => 1,
        TabStage::Finished => 0,
        TabStage::Failed { .. } => 0,
    }
}

/// Every visit ends: each answer that changes it leaves it fewer to wait for,
/// and one that waits for none is over.
pub proof fn lemma_visits_end<E>(visit: SidebarTab<Seq<char>, E>, event: Event<Seq<char>, E>)
    ensures
        visit.next(event) == visit || answers_left(visit.next(event)) < answers_left(visit),
        answers_left(visit) == 0 <==> visit.pending() is Finish || visit.pending() is Fail,
{
}

/// No visit gets stuck: while it waits for answers, some answer takes it further.
pub proof fn lemma_visits_can_go_on<E>(visit: SidebarTab<Seq<char>, E>, state: State)
    requires
        answers_left(visit) > 0,
    ensures
        exists|event: Event<Seq<char>, E>|
            answers_left(#[trigger] visit.next(event)) < answers_left(visit),
{
    let event = match visit.stage {
        TabStage::Lock => Event::Locked,
        TabStage::Load { .. } => Event::Loaded(state),
        _ => Event::Text(Seq::<char>::empty()),
    };
    assert(answers_left(visit.next(event)) < answers_left(visit));
}

/// A visit that holds the lock lists the panes.
pub proof fn lemma_visits_list_the_panes<E>(visit: SidebarTab<Seq<char>, E>)
    requires
        visit.stage is Lock,
    ensures
        visit.next(Event::Locked).pending() == TabAction::<Seq<char>>::Call(Request::PaneList),
        visit.next(Event::Locked).stage is Panes,
        visit.next(Event::Locked).context == visit.context,
{
}

/// A visit is about the workspace of the first pane that the context names or, where
/// it names none, of the first pane that has the focus. The tabs of that workspace
/// are listed, and a sidebar would be rooted where the foreground process of the
/// pane is, or else where the pane is. A pane without a workspace ends the visit.
pub proof fn lemma_visits_start_from_the_pane_at_hand<E>(
    visit: SidebarTab<Seq<char>, E>,
    reply: Seq<char>,
    at: int,
)
    requires
        visit.stage is Panes,
        0 <= at < panes_in(document(reply)).len(),
        match visit.context {
            Some(id) => {
                &&& panes_in(document(reply))[at].pane_id == Some(id)
                &&& forall|i: int|
                    0 <= i < at ==> (#[trigger] panes_in(document(reply))[i]).pane_id != Some(id)
            },
            None => {
                &&& panes_in(document(reply))[at].focused
                &&& forall|i: int|
                    0 <= i < at ==> !(#[trigger] panes_in(document(reply))[i]).focused
            },
        },
    ensures
        ({
            let pane = panes_in(document(reply))[at];
            let next = visit.next(Event::Text(reply));
            match pane.workspace_id {
                Some(workspace_id) => {
                    &&& next.pending() == TabAction::Call(Request::TabList { workspace_id })
                    &&& next.stage == (TabStage::<Seq<char>, E>::Tabs {
                        workspace_id,
                        cwd: if pane.foreground_cwd is Some {
                            pane.foreground_cwd->0
                        } else if pane.cwd is Some {
                            pane.cwd->0
                        } else {
                            Seq::empty()
                        },
                    })
                },
                None => next.pending() is Finish,
            }
        }),
{
    let panes = panes_in(document(reply));
    match visit.context {
        Some(id) => {
            lemma_the_first_one_is_found(panes, has_id(id), at);
        },
        None => {
            lemma_the_first_one_is_found(panes, has_focus(), at);
        },
    }
}

/// Where the pane that the context names is not listed, or no pane has the focus,
/// there is nothing to visit.
pub proof fn lemma_visits_need_a_pane<E>(visit: SidebarTab<Seq<char>, E>, reply: Seq<char>)
    requires
        visit.stage is Panes,
        forall|i: int|
            0 <= i < panes_in(document(reply)).len() ==> match visit.context {
                Some(id) => (#[trigger] panes_in(document(reply))[i]).pane_id != Some(id),
                None => !panes_in(document(reply))[i].focused,
            },
    ensures
        visit.next(Event::Text(reply)).pending() is Finish,
{
    let panes = panes_in(document(reply));
    if panes.len() > 0 {
        match visit.context {
            Some(id) => {
                assert forall|i: int| 0 <= i < panes.len() implies !has_id(id)(
                    #[trigger] panes[i],
                ) by {}
                lemma_the_first_one_is_found(panes, has_id(id), 0);
            },
            None => {
                assert forall|i: int| 0 <= i < panes.len() implies !has_focus()(
                    #[trigger] panes[i],
                ) by {}
                lemma_the_first_one_is_found(panes, has_focus(), 0);
            },
        }
    }
}

/// The first tab that is labelled as the sidebar's is moved to the first slot. Where
/// it has no id, or no tab has that label, the state is loaded in order to open one.
pub proof fn lemma_visits_look_for_the_label<E>(
    visit: SidebarTab<Seq<char>, E>,
    reply: Seq<char>,
    at: int,
)
    requires
        visit.stage is Tabs,
        0 <= at < tabs_in(document(reply)).len(),
    ensures
        ({
            let tabs = tabs_in(document(reply));
            let next = visit.next(Event::Text(reply));
            let first = tabs[at].label == Some("sidebar"@) && forall|i: int|
                0 <= i < at ==> (#[trigger] tabs[i]).label != Some("sidebar"@);
            let absent = forall|i: int|
                0 <= i < tabs.len() ==> (#[trigger] tabs[i]).label != Some("sidebar"@);
            &&& first && tabs[at].tab_id is Some ==> next.pending() == TabAction::Call(
                Request::TabMove { tab_id: tabs[at].tab_id->0, insert_index: 0 },
            )
            &&& first && tabs[at].tab_id is None ==> next.pending() is LoadState
            &&& absent ==> next.pending() is LoadState
        }),
{
    lemma_the_first_one_is_found(tabs_in(document(reply)), has_label("sidebar"@), at);
}

/// A workspace without tabs has no sidebar tab either.
pub proof fn lemma_no_tabs_hold_no_sidebar<E>(visit: SidebarTab<Seq<char>, E>, reply: Seq<char>)
    requires
        visit.stage is Tabs,
        tabs_in(document(reply)).len() == 0,
    ensures
        visit.next(Event::Text(reply)).pending() is LoadState,
{
}

/// A new sidebar tab is opened in the workspace and the directory that the visit
/// started from, merged if the state says so. The panes are listed again, and the
/// tab of the first one that is the new pane gets the sidebar's label.
pub proof fn lemma_new_tabs_are_opened_and_labelled<E>(
    visit: SidebarTab<Seq<char>, E>,
    workspace_id: Seq<char>,
    cwd: Seq<char>,
    reply: Seq<char>,
    state: State,
    pane_id: Seq<char>,
    listing: Seq<char>,
    at: int,
)
    requires
        visit.stage == (TabStage::<Seq<char>, E>::Tabs { workspace_id, cwd }),
        visit.next(Event::Text(reply)).pending() is LoadState,
        0 <= at < panes_in(document(listing)).len(),
        panes_in(document(listing))[at].pane_id == Some(pane_id),
        forall|i: int|
            0 <= i < at ==> (#[trigger] panes_in(document(listing))[i]).pane_id != Some(pane_id),
    ensures
        ({
            let loaded = visit.next(Event::Text(reply)).next(Event::Loaded(state));
            let opened = loaded.next(Event::Text(pane_id));
            let listed = opened.next(Event::Text(listing));
            &&& loaded.pending() == (TabAction::OpenTab {
                workspace_id,
                cwd,
                merged: state.merged,
            })
            &&& opened.pending() == TabAction::<Seq<char>>::Call(Request::PaneList)
            &&& match panes_in(document(listing))[at].tab_id {
                Some(tab_id) => listed.pending() == TabAction::Call(
                    Request::TabRename { tab_id, label: "sidebar"@ },
                ),
                None => listed.pending() is Finish,
            }
        }),
{
    lemma_the_first_one_is_found(panes_in(document(listing)), has_id(pane_id), at);
}

/// Once its tab is known, a visit that meets no failure labels it if it is new,
/// moves it to the first slot, gives it the focus, and is over; it is about that tab
/// all along.
pub proof fn lemma_visits_end_at_their_tab<E>(
    visit: SidebarTab<Seq<char>, E>,
    tab_id: Seq<char>,
    reply: Seq<char>,
)
    requires
        visit.pending() == TabAction::Call(Request::TabRename { tab_id, label: "sidebar"@ }),
    ensures
        ({
            let labelled = visit.next(Event::Text(reply));
            let moved = labelled.next(Event::Text(reply));
            &&& labelled.pending() == TabAction::Call(
                Request::TabMove { tab_id, insert_index: 0 },
            )
            &&& moved.pending() == TabAction::Call(Request::TabFocus { tab_id })
            &&& moved.next(Event::Text(reply)).pending() is Finish
        }),
{
}

/// Only an answer to what it asks for takes a visit further.
pub proof fn lemma_visits_wait_for_their_answer<E>(
    visit: SidebarTab<Seq<char>, E>,
    event: Event<Seq<char>, E>,
)
    ensures
        visit.next(event) != visit ==> match visit.pending() {
            TabAction::TakeLock => event is Locked || event is Busy,
            TabAction::Call(_) => event is Text || event is Failed,
            TabAction::LoadState => event is Loaded,
            TabAction::OpenTab { .. } => event is Text || event is Failed,
            TabAction::Finish | TabAction::Fail => false,
        },
{
}

/// A visit is about the pane that its context names, if it names one.
pub proof fn lemma_visits_heed_their_context<E>(context: Seq<char>)
    ensures
        sidebar_tab_start::<E>(context).context == context_pane_in(document(context)),
{
}

} // verus!

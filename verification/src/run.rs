//! One invocation of the launcher: which sidebar is looked for, what is done
//! about it, and in what order.
//!
//! A run names the next thing to do, is told what came of it, and goes on from
//! there. The pane list, the scope and the decision are texts of the host; the
//! run settles everything else.

use vstd::prelude::*;

use crate::activity::{Mode, SidebarView, State, Target};
use crate::event::Event;
use crate::json::document;
use crate::panes::{
    event_kind_in, focused_tab_in, must_wait_for_lock, panes_in, snooze_tab_for_scope, snooze_tab_of,
    waits,
};
use crate::request::{close_request, focus, request_close, Request};
use crate::text::{cut, same_text, split_once};

verus! {

/// What to do about the sidebar that was looked for. `S` is the kind of text.
#[derive(Debug, PartialEq, Eq)]
pub enum Verdict<S> {
    /// A live sidebar stands in this pane, without the focus.
    Focus { pane_id: S },
    /// A live sidebar stands in this pane and has the focus.
    Close { pane_id: S },
    /// A dead sidebar stands in this pane.
    Replace { pane_id: S },
    /// There is no sidebar.
    Absent,
}

/// Something that a run asks its surroundings to do.
#[derive(Debug, PartialEq, Eq)]
pub enum Action<S> {
    /// Take the lock between launchers, waiting for it or not.
    TakeLock { wait: bool },
    /// Send a request to the host.
    Call(Request<S>),
    /// Find the scope that the event at hand is about.
    ResolveScope,
    /// Forget the snoozes of tabs that are gone.
    SweepSnoozes,
    /// Look for the sidebar of a view.
    Decide { view: SidebarView },
    /// Turn a decision to focus into one to close.
    FocusAsClose { decision: S },
    /// Say whether the sidebar in a pane is still starting.
    AskStarting { pane_id: S },
    /// Say whether a tab is snoozed.
    AskSnoozed { tab: S },
    /// Note in the remembered state that a target has been asked for.
    Prepare { target: Target },
    /// Snooze a tab.
    SetSnooze { tab: S },
    /// End the snooze of a tab.
    ClearSnooze { tab: S },
    /// Open a sidebar in the scope, beside the panes that the run has listed.
    Open { focus_new: bool, view: SidebarView, initial: Option<Target> },
    /// Nothing: the run is over.
    Finish,
    /// Nothing: the run is over, and what was asked for last could not be done.
    /// The run's outcome says why.
    Fail,
}

/// Where a run stands.
#[derive(Debug, PartialEq, Eq)]
pub enum RunStage<S, E> {
    /// The lock is asked for.
    Lock,
    /// The panes are asked for.
    Panes,
    /// The scope is asked for.
    Scope,
    /// The snoozes are swept.
    Sweep,
    /// The decision is asked for.
    Decision,
    /// The decision is made strict.
    Strict { decision: S },
    /// It is asked whether the sidebar to close is still starting.
    Starting { pane_id: S },
    /// It is asked whether the tab is snoozed.
    Snoozed,
    /// The rest is settled and is worked off.
    Work,
    /// Something could not be done, for the given reason.
    Failed { error: E },
}

/// One invocation of the launcher. `E` is what the surroundings say of a failure.
#[derive(Debug, PartialEq, Eq)]
pub struct Run<E> {
    pub mode: Mode,
    pub state: State,
    /// The event that the run is about, as the host describes it.
    pub event: String,
    /// The panes, as the host last listed them.
    pub panes: String,
    /// The tab or the workspace that the run is about; empty for the focused tab.
    pub scope: String,
    /// The tab whose snooze counts.
    pub tab: String,
    pub stage: RunStage<String, E>,
    /// What is left to do, in order.
    pub todo: Vec<Action<String>>,
}

/// A run, by its contents.
pub struct RunView<E> {
    pub mode: Mode,
    pub state: State,
    pub event: Seq<char>,
    pub panes: Seq<char>,
    pub scope: Seq<char>,
    pub tab: Seq<char>,
    pub stage: RunStage<Seq<char>, E>,
    pub todo: Seq<Action<Seq<char>>>,
}

impl View for Verdict<String> {
    type V = Verdict<Seq<char>>;

    open spec fn view(&self) -> Verdict<Seq<char>> {
        match *self {
            Verdict::Focus { pane_id } => Verdict::Focus { pane_id: pane_id@ },
            Verdict::Close { pane_id } => Verdict::Close { pane_id: pane_id@ },
            Verdict::Replace { pane_id } => Verdict::Replace { pane_id: pane_id@ },
            Verdict::Absent => Verdict::Absent,
        }
    }
}

impl View for Action<String> {
    type V = Action<Seq<char>>;

    open spec fn view(&self) -> Action<Seq<char>> {
        match *self {
            Action::TakeLock { wait } => Action::TakeLock { wait },
            Action::Call(request) => Action::Call(request@),
            Action::ResolveScope => Action::ResolveScope,
            Action::SweepSnoozes => Action::SweepSnoozes,
            Action::Decide { view } => Action::Decide { view },
            Action::FocusAsClose { decision } => Action::FocusAsClose { decision: decision@ },
            Action::AskStarting { pane_id } => Action::AskStarting { pane_id: pane_id@ },
            Action::AskSnoozed { tab } => Action::AskSnoozed { tab: tab@ },
            Action::Prepare { target } => Action::Prepare { target },
            Action::SetSnooze { tab } => Action::SetSnooze { tab: tab@ },
            Action::ClearSnooze { tab } => Action::ClearSnooze { tab: tab@ },
            Action::Open { focus_new, view, initial } => Action::Open { focus_new, view, initial },
            Action::Finish => Action::Finish,
            Action::Fail => Action::Fail,
        }
    }
}

impl Clone for Action<String> {
    fn clone(&self) -> (copy: Self)
        ensures
            copy@ == self@,
    {
        match self {
            Action::TakeLock { wait } => Action::TakeLock { wait: *wait },
            Action::Call(request) => Action::Call(request.clone()),
            Action::ResolveScope => Action::ResolveScope,
            Action::SweepSnoozes => Action::SweepSnoozes,
            Action::Decide { view } => Action::Decide { view: *view },
            Action::FocusAsClose { decision } => Action::FocusAsClose { decision: decision.clone() },
            Action::AskStarting { pane_id } => Action::AskStarting { pane_id: pane_id.clone() },
            Action::AskSnoozed { tab } => Action::AskSnoozed { tab: tab.clone() },
            Action::Prepare { target } => Action::Prepare { target: *target },
            Action::SetSnooze { tab } => Action::SetSnooze { tab: tab.clone() },
            Action::ClearSnooze { tab } => Action::ClearSnooze { tab: tab.clone() },
            Action::Open { focus_new, view, initial } => Action::Open {
                focus_new: *focus_new,
                view: *view,
                initial: *initial,
            },
            Action::Finish => Action::Finish,
            Action::Fail => Action::Fail,
        }
    }
}

impl<E> View for RunStage<String, E> {
    type V = RunStage<Seq<char>, E>;

    open spec fn view(&self) -> RunStage<Seq<char>, E> {
        match *self {
            RunStage::Lock => RunStage::Lock,
            RunStage::Panes => RunStage::Panes,
            RunStage::Scope => RunStage::Scope,
            RunStage::Sweep => RunStage::Sweep,
            RunStage::Decision => RunStage::Decision,
            RunStage::Strict { decision } => RunStage::Strict { decision: decision@ },
            RunStage::Starting { pane_id } => RunStage::Starting { pane_id: pane_id@ },
            RunStage::Snoozed => RunStage::Snoozed,
            RunStage::Work => RunStage::Work,
            RunStage::Failed { error } => RunStage::Failed { error },
        }
    }
}

/// Several actions, by their views.
pub open spec fn action_views(actions: Seq<Action<String>>) -> Seq<Action<Seq<char>>> {
    actions.map_values(|action: Action<String>| action@)
}

impl<E> View for Run<E> {
    type V = RunView<E>;

    open spec fn view(&self) -> RunView<E> {
        RunView {
            mode: self.mode,
            state: self.state,
            event: self.event@,
            panes: self.panes@,
            scope: self.scope@,
            tab: self.tab@,
            stage: self.stage@,
            todo: action_views(self.todo@),
        }
    }
}

/// The verdict that a decision spells: a word, a space and a pane. Anything else
/// means that there is no sidebar.
pub open spec fn verdict_in(decision: Seq<char>) -> Verdict<Seq<char>> {
    match cut(decision, ' ') {
        Some((word, pane_id)) => if word == "FOCUS"@ {
            Verdict::Focus { pane_id }
        } else if word == "CLOSE"@ {
            Verdict::Close { pane_id }
        } else if word == "REPLACE"@ {
            Verdict::Replace { pane_id }
        } else {
            Verdict::Absent
        },
        None => Verdict::Absent,
    }
}

/// What brings a live sidebar to a target: the state is prepared, the pane gets
/// the focus, and the target's key is pressed in it.
pub open spec fn reuse(pane_id: Seq<char>, target: Target) -> Seq<Action<Seq<char>>> {
    seq![
        Action::Prepare { target },
        Action::Call(Request::PaneFocus { pane_id }),
        Action::Call(Request::PaneSendInput { pane_id, text: Seq::empty(), key: target.key_name() }),
    ]
}

impl<E> RunView<E> {
    /// The view of the pane that the run is about.
    pub open spec fn view_wanted(self) -> SidebarView {
        self.mode.pane(self.state.merged)
    }

    /// Whether the run heeds snoozes: only the Explorer's pane has them.
    pub open spec fn tracks_snooze(self) -> bool {
        self.view_wanted() == SidebarView::Explorer
    }

    /// What opens a sidebar. An activation prepares the state first and always
    /// takes the focus; a toggle takes it if the user wants that; a hook never
    /// does.
    pub open spec fn fresh(self) -> Seq<Action<Seq<char>>> {
        match self.mode {
            Mode::Activate(target) => seq![
                Action::Prepare { target },
                Action::Open { focus_new: true, view: self.view_wanted(), initial: Some(target) },
            ],
            _ => seq![
                Action::Open {
                    focus_new: self.mode.toggles() && self.state.focus_on_open,
                    view: self.view_wanted(),
                    initial: None,
                },
            ],
        }
    }

    /// What ends the snooze of the tab, where the run heeds snoozes.
    pub open spec fn unsnooze(self) -> Seq<Action<Seq<char>>> {
        if self.tracks_snooze() {
            seq![Action::ClearSnooze { tab: self.tab }]
        } else {
            seq![]
        }
    }

    /// What starts the snooze of the tab, where the run heeds snoozes.
    pub open spec fn snooze(self) -> Seq<Action<Seq<char>>> {
        if self.tracks_snooze() {
            seq![Action::SetSnooze { tab: self.tab }]
        } else {
            seq![]
        }
    }

    /// The run with only `todo` left to do.
    pub open spec fn working(self, todo: Seq<Action<Seq<char>>>) -> RunView<E> {
        RunView { stage: RunStage::Work, todo, ..self }
    }

    /// The run once it has its decision.
    pub open spec fn decided(self, verdict: Verdict<Seq<char>>) -> RunView<E> {
        match verdict {
            Verdict::Focus { pane_id } => match self.mode {
                Mode::Ensure => self.working(seq![]),
                Mode::Toggle(_) => self.working(
                    seq![Action::Call(Request::PaneFocus { pane_id })],
                ),
                Mode::Activate(target) => self.working(reuse(pane_id, target)),
            },
            Verdict::Close { pane_id } => match self.mode {
                Mode::Ensure => self.working(seq![]),
                Mode::Toggle(_) => RunView { stage: RunStage::Starting { pane_id }, ..self },
                Mode::Activate(target) => self.working(reuse(pane_id, target)),
            },
            // A dead sidebar is closed, and the panes are listed anew, since its
            // id is gone and the focus may have moved.
            Verdict::Replace { pane_id } => self.working(
                seq![
                    Action::Call(Request::PaneClose { pane_id }),
                    Action::Call(Request::PaneList),
                ] + self.fresh(),
            ),
            Verdict::Absent => if self.mode.explicit() {
                self.working(self.unsnooze() + self.fresh())
            } else {
                RunView { stage: RunStage::Snoozed, ..self }
            },
        }
    }

    /// The run once it knows its scope.
    pub open spec fn scoped(self, scope: Seq<char>) -> RunView<E> {
        RunView {
            scope,
            tab: snooze_tab_of(scope, focused_tab_in(panes_in(document(self.panes)))),
            stage: RunStage::Sweep,
            ..self
        }
    }

    /// What the run asks for.
    pub open spec fn pending(self) -> Action<Seq<char>> {
        match self.stage {
            RunStage::Lock => Action::TakeLock {
                wait: waits(self.mode.explicit(), event_kind_in(document(self.event))),
            },
            RunStage::Panes => Action::Call(Request::PaneList),
            RunStage::Scope => Action::ResolveScope,
            RunStage::Sweep => Action::SweepSnoozes,
            RunStage::Decision => Action::Decide { view: self.mode.wanted() },
            RunStage::Strict { decision } => Action::FocusAsClose { decision },
            RunStage::Starting { pane_id } => Action::AskStarting { pane_id },
            RunStage::Snoozed => Action::AskSnoozed { tab: self.tab },
            RunStage::Work => if self.todo.len() == 0 {
                Action::Finish
            } else {
                self.todo[0]
            },
            RunStage::Failed { .. } => Action::Fail,
        }
    }

    /// What the run comes to: the reason of the failure that ended it, if one did.
    pub open spec fn outcome(self) -> Result<(), E> {
        match self.stage {
            RunStage::Failed { error } => Err(error),
            _ => Ok(()),
        }
    }

    /// The run once it is told `event`. An event that does not answer what the
    /// run asks for changes nothing.
    pub open spec fn next(self, event: Event<Seq<char>, E>) -> RunView<E> {
        match (self.stage, event) {
            (RunStage::Lock, Event::Locked) => RunView { stage: RunStage::Panes, ..self },
            (RunStage::Lock, Event::Busy) => self.working(seq![]),
            (RunStage::Panes, Event::Text(panes)) => {
                let listed = RunView { panes, ..self };
                if self.mode.explicit() {
                    listed.scoped(Seq::empty())
                } else {
                    RunView { stage: RunStage::Scope, ..listed }
                }
            },
            (RunStage::Panes, Event::Failed(error)) => RunView {
                stage: RunStage::Failed { error },
                ..self
            },
            (RunStage::Scope, Event::Text(scope)) => self.scoped(scope),
            (RunStage::Sweep, Event::Done) => RunView { stage: RunStage::Decision, ..self },
            (RunStage::Decision, Event::Text(decision)) => if self.mode.toggles()
                && self.state.strict_toggle {
                RunView { stage: RunStage::Strict { decision }, ..self }
            } else {
                self.decided(verdict_in(decision))
            },
            (RunStage::Strict { .. }, Event::Text(decision)) => self.decided(verdict_in(decision)),
            (RunStage::Starting { pane_id }, Event::Flag(starting)) => self.working(
                seq![Action::Call(close_request(starting, pane_id))] + self.snooze(),
            ),
            (RunStage::Snoozed, Event::Flag(snoozed)) => self.working(
                if snoozed {
                    seq![]
                } else {
                    self.fresh()
                },
            ),
            (RunStage::Work, event) => if self.todo.len() == 0 {
                self
            } else {
                match (self.todo[0], event) {
                    (Action::Call(request), Event::Text(reply)) => RunView {
                        panes: if request == Request::<Seq<char>>::PaneList {
                            reply
                        } else {
                            self.panes
                        },
                        todo: self.todo.drop_first(),
                        ..self
                    },
                    (Action::Call(_), Event::Failed(error)) => RunView {
                        stage: RunStage::Failed { error },
                        ..self
                    },
                    (Action::Open { .. }, Event::Failed(error)) => RunView {
                        stage: RunStage::Failed { error },
                        ..self
                    },
                    (Action::Call(_), _) => self,
                    (_, Event::Done) => RunView { todo: self.todo.drop_first(), ..self },
                    _ => self,
                }
            },
            _ => self,
        }
    }
}

/// A run at its start. A hook leaves closed tabs alone where the user has turned
/// opening off; the user's own actions still work.
pub open spec fn run_start<E>(mode: Mode, state: State, event: Seq<char>) -> RunView<E> {
    RunView {
        mode,
        state,
        event,
        panes: Seq::empty(),
        scope: Seq::empty(),
        tab: Seq::empty(),
        stage: if mode.explicit() || state.auto_open {
            RunStage::Lock
        } else {
            RunStage::Work
        },
        todo: Seq::empty(),
    }
}

/// The name of the lock file: a plain one beside the remembered state, or one
/// that tells whose it is where it has to stand among the files of others.
pub open spec fn lock_name(beside_state: bool) -> Seq<char> {
    if beside_state {
        "launcher.lock"@
    } else {
        "herdr-sidebar-launcher.lock"@
    }
}

/// The name of the lock file, given whether it stands beside the state.
pub fn lock_file_name(beside_state: bool) -> (name: &'static str)
    ensures
        name@ == lock_name(beside_state),
{
    if beside_state {
        "launcher.lock"
    } else {
        "herdr-sidebar-launcher.lock"
    }
}

/// Reads the verdict that a decision spells.
pub fn read_verdict(decision: &str) -> (verdict: Verdict<String>)
    ensures
        verdict@ == verdict_in(decision@),
{
    match split_once(decision, ' ') {
        Some((word, pane_id)) => if same_text(word, "FOCUS") {
            Verdict::Focus { pane_id: pane_id.to_owned() }
        } else if same_text(word, "CLOSE") {
            Verdict::Close { pane_id: pane_id.to_owned() }
        } else if same_text(word, "REPLACE") {
            Verdict::Replace { pane_id: pane_id.to_owned() }
        } else {
            Verdict::Absent
        },
        None => Verdict::Absent,
    }
}

/// What brings the live sidebar in a pane to a target.
pub fn activate_existing(pane_id: &str, target: Target) -> (actions: Vec<Action<String>>)
    ensures
        action_views(actions@) == reuse(pane_id@, target),
{
    let mut actions: Vec<Action<String>> = Vec::new();
    actions.push(Action::Prepare { target });
    actions.push(Action::Call(focus(pane_id)));
    actions.push(
        Action::Call(
            Request::PaneSendInput {
                pane_id: pane_id.to_owned(),
                text: String::new(),
                key: target.key().to_owned(),
            },
        ),
    );
    assert(action_views(actions@) =~= reuse(pane_id@, target));
    actions
}

/// Starts a run.
pub fn run<E>(mode: Mode, state: State, event_json: &str) -> (run: Run<E>)
    ensures
        run@ == run_start::<E>(mode, state, event_json@),
{
    let run = Run {
        mode,
        state,
        event: event_json.to_owned(),
        panes: String::new(),
        scope: String::new(),
        tab: String::new(),
        stage: if mode.is_explicit() || state.auto_open {
            RunStage::Lock
        } else {
            RunStage::Work
        },
        todo: Vec::new(),
    };
    assert(run@.todo =~= Seq::empty());
    run
}

impl<E> Run<E> {
    /// The view of the pane that the run is about.
    fn view_wanted(&self) -> (view: SidebarView)
        ensures
            view == self@.view_wanted(),
    {
        self.mode.pane_view(self.state.merged)
    }

    /// Whether the run heeds snoozes.
    fn tracks_snooze(&self) -> (tracks: bool)
        ensures
            tracks == self@.tracks_snooze(),
    {
        self.view_wanted() == SidebarView::Explorer
    }

    /// Puts what opens a sidebar behind `todo`.
    fn push_fresh(&self, todo: &mut Vec<Action<String>>)
        ensures
            action_views(final(todo)@) == action_views(old(todo)@) + self@.fresh(),
    {
        let ghost before = todo@;
        match self.mode {
            Mode::Activate(target) => {
                todo.push(Action::Prepare { target });
                todo.push(
                    Action::Open {
                        focus_new: true,
                        view: self.view_wanted(),
                        initial: Some(target),
                    },
                );
            },
            _ => {
                todo.push(
                    Action::Open {
                        focus_new: self.mode.is_toggle() && self.state.focus_on_open,
                        view: self.view_wanted(),
                        initial: None,
                    },
                );
            },
        }
        assert(action_views(todo@) =~= action_views(before) + self@.fresh());
    }

    /// The run with only `todo` left to do.
    fn working(self, todo: Vec<Action<String>>) -> (run: Self)
        ensures
            run@ == self@.working(action_views(todo@)),
    {
        Run { stage: RunStage::Work, todo, ..self }
    }

    /// The run with nothing left to do.
    fn idle(self) -> (run: Self)
        ensures
            run@ == self@.working(seq![]),
    {
        let todo: Vec<Action<String>> = Vec::new();
        assert(action_views(todo@) =~= seq![]);
        self.working(todo)
    }

    /// The run once it has its decision.
    fn decided(self, verdict: Verdict<String>) -> (run: Self)
        ensures
            run@ == self@.decided(verdict@),
    {
        let mut todo: Vec<Action<String>> = Vec::new();
        match verdict {
            Verdict::Focus { pane_id } => match self.mode {
                Mode::Ensure => self.idle(),
                Mode::Toggle(_) => {
                    todo.push(Action::Call(focus(pane_id.as_str())));
                    assert(action_views(todo@) =~= seq![
                        Action::Call(Request::PaneFocus { pane_id: pane_id@ }),
                    ]);
                    self.working(todo)
                },
                Mode::Activate(target) => self.working(activate_existing(pane_id.as_str(), target)),
            },
            Verdict::Close { pane_id } => match self.mode {
                Mode::Ensure => self.idle(),
                Mode::Toggle(_) => Run { stage: RunStage::Starting { pane_id }, ..self },
                Mode::Activate(target) => self.working(activate_existing(pane_id.as_str(), target)),
            },
            Verdict::Replace { pane_id } => {
                let ghost id = pane_id@;
                todo.push(Action::Call(Request::PaneClose { pane_id }));
                todo.push(Action::Call(Request::PaneList));
                assert(action_views(todo@) =~= seq![
                    Action::Call(Request::PaneClose { pane_id: id }),
                    Action::Call(Request::PaneList),
                ]);
                self.push_fresh(&mut todo);
                self.working(todo)
            },
            Verdict::Absent => if self.mode.is_explicit() {
                if self.tracks_snooze() {
                    todo.push(Action::ClearSnooze { tab: self.tab.clone() });
                }
                assert(action_views(todo@) =~= self@.unsnooze());
                self.push_fresh(&mut todo);
                self.working(todo)
            } else {
                Run { stage: RunStage::Snoozed, ..self }
            },
        }
    }

    /// The run once it knows its scope.
    fn scoped(self, scope: String) -> (run: Self)
        ensures
            run@ == self@.scoped(scope@),
    {
        let tab: String = snooze_tab_for_scope(self.panes.as_str(), scope.as_str());
        Run { scope, tab, stage: RunStage::Sweep, ..self }
    }

    /// What the run asks for.
    pub fn action(&self) -> (action: Action<String>)
        ensures
            action@ == self@.pending(),
    {
        match &self.stage {
            RunStage::Lock => Action::TakeLock {
                wait: must_wait_for_lock(self.mode.is_explicit(), self.event.as_str()),
            },
            RunStage::Panes => Action::Call(Request::PaneList),
            RunStage::Scope => Action::ResolveScope,
            RunStage::Sweep => Action::SweepSnoozes,
            RunStage::Decision => Action::Decide { view: self.mode.wanted_view() },
            RunStage::Strict { decision } => Action::FocusAsClose { decision: decision.clone() },
            RunStage::Starting { pane_id } => Action::AskStarting { pane_id: pane_id.clone() },
            RunStage::Snoozed => Action::AskSnoozed { tab: self.tab.clone() },
            RunStage::Work => if self.todo.len() == 0 {
                Action::Finish
            } else {
                self.todo[0].clone()
            },
            RunStage::Failed { .. } => Action::Fail,
        }
    }

    /// What the run comes to: the reason of the failure that ended it, if one did.
    pub fn outcome(self) -> (outcome: Result<(), E>)
        ensures
            outcome == self@.outcome(),
    {
        match self.stage {
            RunStage::Failed { error } => Err(error),
            _ => Ok(()),
        }
    }

    /// The run with the first thing left to do behind it.
    fn one_done(self) -> (run: Self)
        requires
            self.todo@.len() > 0,
        ensures
            run@ == (RunView { todo: self@.todo.drop_first(), ..self@ }),
    {
        let ghost before = self@;
        let mut todo = self.todo;
        let _ = todo.remove(0);
        assert(action_views(todo@) =~= before.todo.drop_first());
        Run { todo, ..self }
    }

    /// The run once the first thing left to do is answered.
    fn worked(self, event: Event<String, E>) -> (run: Self)
        requires
            self.stage is Work,
        ensures
            run@ == self@.next(event@),
    {
        if self.todo.len() == 0 {
            return self;
        }
        assert(self@.todo[0] == self.todo@[0]@);
        match (&self.todo[0], event) {
            (Action::Call(Request::PaneList), Event::Text(panes)) => Run { panes, ..self }.one_done(),
            (Action::Call(_), Event::Text(_)) => self.one_done(),
            (Action::Call(_), Event::Failed(error)) => Run {
                stage: RunStage::Failed { error },
                ..self
            },
            (Action::Open { .. }, Event::Failed(error)) => Run {
                stage: RunStage::Failed { error },
                ..self
            },
            (Action::Call(_), _) => self,
            (_, Event::Done) => self.one_done(),
            _ => self,
        }
    }

    /// The run once it is told what came of what it asked for. An event that
    /// does not answer that changes nothing.
    pub fn next(self, event: Event<String, E>) -> (run: Self)
        ensures
            run@ == self@.next(event@),
    {
        match (&self.stage, event) {
            (RunStage::Lock, Event::Locked) => Run { stage: RunStage::Panes, ..self },
            (RunStage::Lock, Event::Busy) => self.idle(),
            (RunStage::Panes, Event::Text(panes)) => if self.mode.is_explicit() {
                let scope: String = String::new();
                Run { panes, ..self }.scoped(scope)
            } else {
                Run { panes, stage: RunStage::Scope, ..self }
            },
            (RunStage::Panes, Event::Failed(error)) => Run {
                stage: RunStage::Failed { error },
                ..self
            },
            (RunStage::Scope, Event::Text(scope)) => self.scoped(scope),
            (RunStage::Sweep, Event::Done) => Run { stage: RunStage::Decision, ..self },
            (RunStage::Decision, Event::Text(decision)) => if self.mode.is_toggle()
                && self.state.strict_toggle {
                Run { stage: RunStage::Strict { decision }, ..self }
            } else {
                self.decided(read_verdict(decision.as_str()))
            },
            (RunStage::Strict { .. }, Event::Text(decision)) => self.decided(
                read_verdict(decision.as_str()),
            ),
            (RunStage::Starting { pane_id }, Event::Flag(starting)) => {
                let mut todo: Vec<Action<String>> = Vec::new();
                todo.push(Action::Call(request_close(starting, pane_id.as_str())));
                if self.tracks_snooze() {
                    todo.push(Action::SetSnooze { tab: self.tab.clone() });
                }
                assert(action_views(todo@) =~= seq![
                    Action::Call(close_request(starting, pane_id@)),
                ] + self@.snooze());
                self.working(todo)
            },
            (RunStage::Snoozed, Event::Flag(snoozed)) => if snoozed {
                self.idle()
            } else {
                let mut todo: Vec<Action<String>> = Vec::new();
                self.push_fresh(&mut todo);
                assert(action_views(todo@) =~= self@.fresh());
                self.working(todo)
            },
            (RunStage::Work, event) => self.worked(event),
            _ => self,
        }
    }
}

} // verus!

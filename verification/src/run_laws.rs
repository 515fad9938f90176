//! What holds of every run, whatever its surroundings answer.

use vstd::prelude::*;

use crate::activity::{Mode, SidebarView, State, Target};
use crate::event::Event;
use crate::json::document;
use crate::panes::{event_kind_in, focused_tab_in, panes_in};
use crate::request::{close_request, Request};
use crate::run::{run_start, verdict_in, Action, RunStage, RunView, Verdict};
use crate::text::lemma_cuts_are_at_the_first_mark;

verus! {

/// The run once it has been told all of `events`, one after the other.
pub open spec fn run_after<E>(run: RunView<E>, events: Seq<Event<Seq<char>, E>>) -> RunView<E>
    decreases events.len(),
{
    if events.len() == 0 {
        run
    } else {
        run_after(run, events.drop_last()).next(events.last())
    }
}

/// Whether an action gives the focus to a sidebar, or types into one.
pub open spec fn takes_focus(action: Action<Seq<char>>) -> bool {
    match action {
        Action::Call(Request::PaneFocus { .. }) => true,
        Action::Call(Request::PaneSendInput { .. }) => true,
        Action::Open { focus_new, .. } => focus_new,
        _ => false,
    }
}

/// Whether an action starts or ends a snooze.
pub open spec fn changes_snoozes(action: Action<Seq<char>>) -> bool {
    action is SetSnooze || action is ClearSnooze
}

/// Whether a run in the given mode and state may ask for an action.
pub open spec fn fits(mode: Mode, state: State, action: Action<Seq<char>>) -> bool {
    match action {
        Action::SetSnooze { .. } => mode == Mode::Toggle(SidebarView::Explorer),
        Action::ClearSnooze { .. } => mode.explicit() && mode.pane(state.merged)
            == SidebarView::Explorer,
        Action::Prepare { target } => mode == Mode::Activate(target),
        Action::Call(Request::PaneFocus { .. }) => mode.explicit(),
        Action::Call(Request::PaneSendInput { .. }) => mode.explicit(),
        Action::Open { focus_new, view, initial } => {
            &&& view == mode.pane(state.merged)
            &&& match mode {
                Mode::Ensure => !focus_new && initial is None,
                Mode::Toggle(_) => focus_new == state.focus_on_open && initial is None,
                Mode::Activate(target) => focus_new && initial == Some(target),
            }
        },
        Action::FocusAsClose { .. } => mode.toggles() && state.strict_toggle,
        Action::AskStarting { .. } => mode.toggles(),
        Action::AskSnoozed { .. } => mode == Mode::Ensure,
        Action::ResolveScope => mode == Mode::Ensure,
        _ => true,
    }
}

/// What every run keeps: its mode, its state and its event, an empty scope where
/// the user asked for it, only actions that fit, and no failure that is planned.
pub open spec fn kept<E>(run: RunView<E>, mode: Mode, state: State, event: Seq<char>) -> bool {
    &&& run.mode == mode
    &&& run.state == state
    &&& run.event == event
    &&& mode.explicit() ==> run.scope.len() == 0
    &&& fits(mode, state, run.pending())
    &&& forall|i: int|
        0 <= i < run.todo.len() ==> fits(mode, state, #[trigger] run.todo[i])
            && !(run.todo[i] is Fail)
}

proof fn lemma_kept_by_next<E>(
    run: RunView<E>,
    event: Event<Seq<char>, E>,
    mode: Mode,
    state: State,
    about: Seq<char>,
)
    requires
        kept(run, mode, state, about),
    ensures
        kept(run.next(event), mode, state, about),
{
    let after = run.next(event);
    assert forall|i: int| 0 <= i < after.todo.len() implies fits(
        mode,
        state,
        #[trigger] after.todo[i],
    ) && !(after.todo[i] is Fail) by {
        if run.stage is Work && after.todo == run.todo.drop_first() {
            assert(after.todo[i] == run.todo[i + 1]);
        }
    }
}

proof fn lemma_kept<E>(mode: Mode, state: State, about: Seq<char>, events: Seq<Event<Seq<char>, E>>)
    ensures
        kept(run_after(run_start::<E>(mode, state, about), events), mode, state, about),
    decreases events.len(),
{
    if events.len() > 0 {
        lemma_kept(mode, state, about, events.drop_last());
        lemma_kept_by_next(
            run_after(run_start::<E>(mode, state, about), events.drop_last()),
            events.last(),
            mode,
            state,
            about,
        );
    }
}

/// A run never forgets its mode, the state it started from or the event it is
/// about, and asks only for what fits the mode and the state.
pub proof fn lemma_runs_ask_for_what_fits<E>(
    mode: Mode,
    state: State,
    about: Seq<char>,
    events: Seq<Event<Seq<char>, E>>,
)
    ensures
        run_after(run_start::<E>(mode, state, about), events).mode == mode,
        run_after(run_start::<E>(mode, state, about), events).state == state,
        run_after(run_start::<E>(mode, state, about), events).event == about,
        fits(mode, state, run_after(run_start::<E>(mode, state, about), events).pending()),
{
    lemma_kept(mode, state, about, events);
}

/// A hook never takes the focus, never types into a pane, changes no snooze and
/// leaves the remembered state alone.
pub proof fn lemma_hooks_are_quiet<E>(
    state: State,
    about: Seq<char>,
    events: Seq<Event<Seq<char>, E>>,
)
    ensures
        !takes_focus(run_after(run_start::<E>(Mode::Ensure, state, about), events).pending()),
        !changes_snoozes(run_after(run_start::<E>(Mode::Ensure, state, about), events).pending()),
        !(run_after(run_start::<E>(Mode::Ensure, state, about), events).pending() is Prepare),
{
    lemma_kept(Mode::Ensure, state, about, events);
}

/// A hook does nothing at all where the user has turned opening off.
pub proof fn lemma_hooks_heed_auto_open<E>(
    state: State,
    about: Seq<char>,
    events: Seq<Event<Seq<char>, E>>,
)
    requires
        !state.auto_open,
    ensures
        run_after(run_start::<E>(Mode::Ensure, state, about), events).pending() == Action::<
            Seq<char>,
        >::Finish,
{
    lemma_idle_stays_idle(run_start::<E>(Mode::Ensure, state, about), events);
}

proof fn lemma_idle_stays_idle<E>(run: RunView<E>, events: Seq<Event<Seq<char>, E>>)
    requires
        run.stage is Work,
        run.todo.len() == 0,
    ensures
        run_after(run, events) == run,
    decreases events.len(),
{
    if events.len() > 0 {
        lemma_idle_stays_idle(run, events.drop_last());
    }
}

/// Where a hook finds no sidebar, it asks whether the tab is snoozed, and opens
/// one if and only if it is not.
pub proof fn lemma_hooks_heed_snoozes<E>(run: RunView<E>, decision: Seq<char>)
    requires
        run.mode == Mode::Ensure,
        run.stage is Decision,
        verdict_in(decision) is Absent,
    ensures
        run.next(Event::Text(decision)).pending() == (Action::AskSnoozed { tab: run.tab }),
        run.next(Event::Text(decision)).next(Event::Flag(true)).pending() == Action::<
            Seq<char>,
        >::Finish,
        run.next(Event::Text(decision)).next(Event::Flag(false)).pending() == (Action::<
            Seq<char>,
        >::Open { focus_new: false, view: SidebarView::Explorer, initial: None }),
{
}

/// A hook about the tab in which the user closed a sidebar asks about the snooze
/// that closing it set.
pub proof fn lemma_hooks_ask_about_the_tab_that_was_snoozed<E>(
    toggle: RunView<E>,
    hook: RunView<E>,
    panes: Seq<char>,
)
    requires
        toggle.mode.explicit(),
        toggle.stage is Panes,
        hook.stage is Scope,
        toggle.next(Event::Text(panes)).tab.contains(':'),
    ensures
        hook.next(Event::Text(toggle.next(Event::Text(panes)).tab)).tab == toggle.next(
            Event::Text(panes),
        ).tab,
{
}

/// A hook leaves a live sidebar alone, whether it has the focus or not.
pub proof fn lemma_hooks_leave_live_sidebars_alone<E>(run: RunView<E>, decision: Seq<char>)
    requires
        run.mode == Mode::Ensure,
        run.stage is Decision,
        verdict_in(decision) is Focus || verdict_in(decision) is Close,
    ensures
        run.next(Event::Text(decision)).pending() == Action::<Seq<char>>::Finish,
{
}

/// What the user asks for is about the focused tab and always waits for the lock.
pub proof fn lemma_explicit_runs_are_unscoped<E>(
    mode: Mode,
    state: State,
    about: Seq<char>,
    events: Seq<Event<Seq<char>, E>>,
)
    requires
        mode.explicit(),
    ensures
        run_start::<E>(mode, state, about).pending() == (Action::<Seq<char>>::TakeLock { wait: true }),
        run_after(run_start::<E>(mode, state, about), events).scope == Seq::<char>::empty(),
{
    lemma_kept(mode, state, about, events);
    assert(run_after(run_start::<E>(mode, state, about), events).scope =~= Seq::<char>::empty());
}

/// What the user asks for does not depend on whether hooks may open a sidebar:
/// with that setting one way or the other, the same answers lead to the same
/// action and the same outcome.
pub proof fn lemma_explicit_runs_ignore_auto_open<E>(
    mode: Mode,
    state: State,
    auto_open: bool,
    about: Seq<char>,
    events: Seq<Event<Seq<char>, E>>,
)
    requires
        mode.explicit(),
    ensures
        run_after(run_start::<E>(mode, State { auto_open, ..state }, about), events).pending()
            == run_after(run_start::<E>(mode, state, about), events).pending(),
        run_after(run_start::<E>(mode, State { auto_open, ..state }, about), events).outcome()
            == run_after(run_start::<E>(mode, state, about), events).outcome(),
{
    lemma_explicit_runs_keep_step(mode, state, auto_open, about, events);
}

proof fn lemma_explicit_runs_keep_step<E>(
    mode: Mode,
    state: State,
    auto_open: bool,
    about: Seq<char>,
    events: Seq<Event<Seq<char>, E>>,
)
    requires
        mode.explicit(),
    ensures
        ({
            let other = State { auto_open, ..state };
            run_after(run_start::<E>(mode, other, about), events) == with_auto_open(
                run_after(run_start::<E>(mode, state, about), events),
                auto_open,
            )
        }),
    decreases events.len(),
{
    if events.len() > 0 {
        lemma_explicit_runs_keep_step(mode, state, auto_open, about, events.drop_last());
        let before = run_after(run_start::<E>(mode, state, about), events.drop_last());
        lemma_steps_ignore_auto_open(before, auto_open, events.last());
    }
}

/// A run whose hooks may open a sidebar, or may not, and which is otherwise the
/// same.
spec fn with_auto_open<E>(run: RunView<E>, auto_open: bool) -> RunView<E> {
    RunView { state: State { auto_open, ..run.state }, ..run }
}

proof fn lemma_verdicts_ignore_auto_open<E>(
    run: RunView<E>,
    auto_open: bool,
    verdict: Verdict<Seq<char>>,
)
    ensures
        with_auto_open(run, auto_open).decided(verdict) == with_auto_open(
            run.decided(verdict),
            auto_open,
        ),
{
    let other = with_auto_open(run, auto_open);
    assert(other.fresh() == run.fresh());
    assert(other.unsnooze() == run.unsnooze());
}

proof fn lemma_early_steps_ignore_auto_open<E>(
    run: RunView<E>,
    auto_open: bool,
    event: Event<Seq<char>, E>,
)
    requires
        run.stage is Lock || run.stage is Panes || run.stage is Scope || run.stage is Sweep,
    ensures
        with_auto_open(run, auto_open).next(event) == with_auto_open(run.next(event), auto_open),
{
}

proof fn lemma_decisions_ignore_auto_open<E>(
    run: RunView<E>,
    auto_open: bool,
    event: Event<Seq<char>, E>,
)
    requires
        run.stage is Decision || run.stage is Strict,
    ensures
        with_auto_open(run, auto_open).next(event) == with_auto_open(run.next(event), auto_open),
{
    if let Event::Text(decision) = event {
        lemma_verdicts_ignore_auto_open(run, auto_open, verdict_in(decision));
    }
}

proof fn lemma_questions_ignore_auto_open<E>(
    run: RunView<E>,
    auto_open: bool,
    event: Event<Seq<char>, E>,
)
    requires
        run.stage is Starting || run.stage is Snoozed,
    ensures
        with_auto_open(run, auto_open).next(event) == with_auto_open(run.next(event), auto_open),
{
    let other = with_auto_open(run, auto_open);
    assert(other.snooze() == run.snooze());
    assert(other.fresh() == run.fresh());
}

proof fn lemma_work_ignores_auto_open<E>(
    run: RunView<E>,
    auto_open: bool,
    event: Event<Seq<char>, E>,
)
    requires
        run.stage is Work || run.stage is Failed,
    ensures
        with_auto_open(run, auto_open).next(event) == with_auto_open(run.next(event), auto_open),
{
}

proof fn lemma_steps_ignore_auto_open<E>(
    run: RunView<E>,
    auto_open: bool,
    event: Event<Seq<char>, E>,
)
    ensures
        with_auto_open(run, auto_open).next(event) == with_auto_open(run.next(event), auto_open),
{
    match run.stage {
        RunStage::Decision | RunStage::Strict { .. } => {
            lemma_decisions_ignore_auto_open(run, auto_open, event);
        },
        RunStage::Starting { .. } | RunStage::Snoozed => {
            lemma_questions_ignore_auto_open(run, auto_open, event);
        },
        RunStage::Work | RunStage::Failed { .. } => {
            lemma_work_ignores_auto_open(run, auto_open, event);
        },
        _ => {
            lemma_early_steps_ignore_auto_open(run, auto_open, event);
        },
    }
}

/// A run that does not get the lock does nothing.
pub proof fn lemma_busy_runs_yield<E>(mode: Mode, state: State, about: Seq<char>)
    ensures
        run_start::<E>(mode, state, about).next(Event::Busy).pending() == Action::<Seq<char>>::Finish,
{
}

/// Only runs about the Explorer's pane change snoozes.
pub proof fn lemma_only_the_explorer_snoozes<E>(
    mode: Mode,
    state: State,
    about: Seq<char>,
    events: Seq<Event<Seq<char>, E>>,
)
    requires
        mode.pane(state.merged) != SidebarView::Explorer,
    ensures
        !changes_snoozes(run_after(run_start::<E>(mode, state, about), events).pending()),
{
    lemma_kept(mode, state, about, events);
}

/// A dead sidebar never blocks a new one: in every mode it is closed, the panes
/// are listed anew, and the last thing to do is to open a sidebar.
pub proof fn lemma_dead_sidebars_are_replaced<E>(run: RunView<E>, pane_id: Seq<char>)
    ensures
        run.decided(Verdict::Replace { pane_id }).pending() == Action::Call(
            Request::PaneClose { pane_id },
        ),
        run.decided(Verdict::Replace { pane_id }).todo[1] == Action::<Seq<char>>::Call(
            Request::PaneList,
        ),
        run.decided(Verdict::Replace { pane_id }).todo.last() is Open,
{
}

/// A new pane list, and no other reply, takes the place of the old one.
pub proof fn lemma_relisting_refreshes_the_panes<E>(run: RunView<E>, reply: Seq<char>)
    requires
        run.pending() is Call,
    ensures
        run.next(Event::Text(reply)).panes == if run.pending() == Action::<Seq<char>>::Call(
            Request::PaneList,
        ) {
            reply
        } else {
            run.panes
        },
{
}

/// A toggle of the Explorer opens, focuses or closes: without a sidebar it ends
/// the tab's snooze and opens one; a sidebar without the focus gets it; one with
/// the focus is closed, and the tab is snoozed, so that hooks leave it closed.
pub proof fn lemma_toggles_open_focus_or_close<E>(run: RunView<E>, pane_id: Seq<char>, starting: bool)
    requires
        run.mode == Mode::Toggle(SidebarView::Explorer),
    ensures
        run.decided(Verdict::Absent).todo == seq![
            Action::ClearSnooze { tab: run.tab },
            Action::Open {
                focus_new: run.state.focus_on_open,
                view: SidebarView::Explorer,
                initial: None,
            },
        ],
        run.decided(Verdict::Focus { pane_id }).todo == seq![
            Action::Call(Request::PaneFocus { pane_id }),
        ],
        run.decided(Verdict::Close { pane_id }).pending() == (Action::AskStarting { pane_id }),
        run.decided(Verdict::Close { pane_id }).next(Event::Flag(starting)).todo == seq![
            Action::Call(close_request(starting, pane_id)),
            Action::SetSnooze { tab: run.tab },
        ],
{
    assert(run.unsnooze() + run.fresh() =~= seq![
        Action::ClearSnooze { tab: run.tab },
        Action::Open {
            focus_new: run.state.focus_on_open,
            view: SidebarView::Explorer,
            initial: None,
        },
    ]);
}

/// An activation brings a live sidebar to its target, with or without the focus:
/// the state is prepared before the pane gets the focus and the key.
pub proof fn lemma_activations_reuse_live_sidebars<E>(
    run: RunView<E>,
    pane_id: Seq<char>,
    target: Target,
)
    requires
        run.mode == Mode::Activate(target),
    ensures
        run.decided(Verdict::Focus { pane_id }) == run.decided(Verdict::Close { pane_id }),
        run.decided(Verdict::Focus { pane_id }).todo == seq![
            Action::Prepare { target },
            Action::Call(Request::PaneFocus { pane_id }),
            Action::Call(
                Request::PaneSendInput {
                    pane_id,
                    text: Seq::<char>::empty(),
                    key: target.key_name(),
                },
            ),
        ],
{
}

/// Once a run looks for a sidebar, its scope and the tab whose snooze counts are
/// settled: what is opened in the end is opened where it was looked for.
pub proof fn lemma_the_scope_is_settled_first<E>(run: RunView<E>, events: Seq<Event<Seq<char>, E>>)
    requires
        run.stage is Decision,
    ensures
        run_after(run, events).scope == run.scope,
        run_after(run, events).tab == run.tab,
{
    lemma_late_runs_keep_their_scope(run, events);
}

proof fn lemma_late_runs_keep_their_scope<E>(run: RunView<E>, events: Seq<Event<Seq<char>, E>>)
    requires
        run.stage is Decision,
    ensures
        ({
            let after = run_after(run, events);
            &&& after.scope == run.scope
            &&& after.tab == run.tab
            &&& !(after.stage is Lock || after.stage is Panes || after.stage is Scope)
        }),
    decreases events.len(),
{
    if events.len() > 0 {
        lemma_late_runs_keep_their_scope(run, events.drop_last());
    }
}

/// A request that fails ends the run, and its reason is what the run comes to;
/// the same holds of an opening.
pub proof fn lemma_failures_end_the_run<E>(
    run: RunView<E>,
    error: E,
    events: Seq<Event<Seq<char>, E>>,
)
    requires
        run.pending() is Call || run.pending() is Open,
    ensures
        run_after(run.next(Event::Failed(error)), events).pending() == Action::<Seq<char>>::Fail,
        run_after(run.next(Event::Failed(error)), events).outcome() == Err::<(), E>(error),
{
    lemma_failed_stays_failed(run.next(Event::Failed(error)), events);
}

proof fn lemma_failed_stays_failed<E>(run: RunView<E>, events: Seq<Event<Seq<char>, E>>)
    requires
        run.stage is Failed,
    ensures
        run_after(run, events) == run,
    decreases events.len(),
{
    if events.len() > 0 {
        lemma_failed_stays_failed(run, events.drop_last());
    }
}

/// No run makes up a reason: the one that it comes to is that of the answer that
/// ended it.
pub proof fn lemma_runs_fail_for_what_they_are_told<E>(
    run: RunView<E>,
    event: Event<Seq<char>, E>,
    error: E,
)
    requires
        run.outcome() is Ok,
        run.next(event).outcome() == Err::<(), E>(error),
    ensures
        event == Event::<Seq<char>, E>::Failed(error),
        run.pending() is Call || run.pending() is Open,
{
}

/// A run comes to a failure if and only if it says that it failed.
pub proof fn lemma_failed_runs_say_so<E>(
    mode: Mode,
    state: State,
    about: Seq<char>,
    events: Seq<Event<Seq<char>, E>>,
)
    ensures
        run_after(run_start::<E>(mode, state, about), events).pending() is Fail <==> run_after(
            run_start::<E>(mode, state, about),
            events,
        ).outcome() is Err,
{
    lemma_kept(mode, state, about, events);
}

/// How many answers a run still waits for at most.
pub open spec fn answers_left<E>(run: RunView<E>) -> nat {
    match run.stage {
        RunStage::Lock => 11,
        RunStage::Panes => 10,
        RunStage::Scope => 9,
        RunStage::Sweep => 8,
        RunStage::Decision => 7,
        RunStage::Strict { .. } => 6,
        RunStage::Starting { .. } => 5,
        RunStage::Snoozed => 5,
        RunStage::Work => run.todo.len(),
        RunStage::Failed { .. } => 0,
    }
}

/// Every run ends: each answer that changes it leaves it fewer to wait for, and
/// a run that waits for none is over.
pub proof fn lemma_runs_end<E>(run: RunView<E>, event: Event<Seq<char>, E>)
    ensures
        run.next(event) == run || answers_left(run.next(event)) < answers_left(run),
        answers_left(run) == 0 ==> run.pending() is Finish || run.pending() is Fail,
{
}

/// No run gets stuck: while it waits for answers, some answer takes it further.
pub proof fn lemma_runs_can_go_on<E>(run: RunView<E>)
    requires
        answers_left(run) > 0,
    ensures
        exists|event: Event<Seq<char>, E>| answers_left(#[trigger] run.next(event)) < answers_left(run),
{
    let text = Event::Text(Seq::<char>::empty());
    let event = match run.stage {
        RunStage::Lock => Event::Locked,
        RunStage::Sweep => Event::Done,
        RunStage::Starting { .. } => Event::Flag(true),
        RunStage::Snoozed => Event::Flag(true),
        RunStage::Work => if run.todo[0] is Call {
            text
        } else {
            Event::Done
        },
        _ => text,
    };
    assert(answers_left(run.next(event)) < answers_left(run));
}

/// A decision is a word, a space and a pane. Each of the three words gives the
/// verdict on the pane behind it, and no other text gives one on a pane.
pub proof fn lemma_decisions_are_a_word_and_a_pane(decision: Seq<char>, pane_id: Seq<char>)
    ensures
        verdict_in(decision) == (Verdict::Focus { pane_id }) <==> decision == "FOCUS "@ + pane_id,
        verdict_in(decision) == (Verdict::Close { pane_id }) <==> decision == "CLOSE "@ + pane_id,
        verdict_in(decision) == (Verdict::Replace { pane_id }) <==> decision == "REPLACE "@
            + pane_id,
{
    reveal_strlit("FOCUS");
    reveal_strlit("FOCUS ");
    reveal_strlit("CLOSE");
    reveal_strlit("CLOSE ");
    reveal_strlit("REPLACE");
    reveal_strlit("REPLACE ");
    assert("FOCUS"@.len() == 5 && "FOCUS"@[0] == 'F');
    assert("CLOSE"@.len() == 5 && "CLOSE"@[0] == 'C');
    assert("REPLACE"@.len() == 7);
    assert("FOCUS "@ =~= "FOCUS"@ + seq![' ']);
    assert("CLOSE "@ =~= "CLOSE"@ + seq![' ']);
    assert("REPLACE "@ =~= "REPLACE"@ + seq![' ']);
    lemma_cuts_are_at_the_first_mark(decision, ' ', "FOCUS"@, pane_id);
    lemma_cuts_are_at_the_first_mark(decision, ' ', "CLOSE"@, pane_id);
    lemma_cuts_are_at_the_first_mark(decision, ' ', "REPLACE"@, pane_id);
}

/// What the user asks for waits for the lock, lists the panes, sweeps the snoozes,
/// and then looks for the sidebar: that of the view to toggle, or that of the view
/// which the target shows. It is about the tab in focus and has no scope.
pub proof fn lemma_explicit_runs_step_by_step<E>(
    mode: Mode,
    state: State,
    about: Seq<char>,
    panes: Seq<char>,
)
    requires
        mode is Toggle || mode is Activate,
    ensures
        ({
            let start = run_start::<E>(mode, state, about);
            let locked = start.next(Event::Locked);
            let listed = locked.next(Event::Text(panes));
            let swept = listed.next(Event::Done);
            &&& start.pending() == (Action::<Seq<char>>::TakeLock { wait: true })
            &&& locked.pending() == Action::<Seq<char>>::Call(Request::PaneList)
            &&& listed.pending() == Action::<Seq<char>>::SweepSnoozes
            &&& swept.pending() == (Action::<Seq<char>>::Decide {
                view: match mode {
                    Mode::Toggle(view) => view,
                    Mode::Activate(Target::SourceControl) => SidebarView::SourceControl,
                    _ => SidebarView::Explorer,
                },
            })
            &&& swept.stage is Decision
            &&& swept.mode == mode
            &&& swept.state == state
            &&& swept.panes == panes
            &&& swept.scope == Seq::<char>::empty()
            &&& swept.tab == focused_tab_in(panes_in(document(panes)))
        }),
{
}

/// A hook waits for the lock only where a tab is new. It lists the panes, finds the
/// scope that its event is about, sweeps the snoozes, and then looks for the
/// Explorer. The tab whose snooze counts is the scope where that is a tab, the tab
/// in focus where there is no scope, and none where the scope is a workspace.
pub proof fn lemma_hooks_step_by_step<E>(
    state: State,
    about: Seq<char>,
    panes: Seq<char>,
    scope: Seq<char>,
)
    requires
        state.auto_open,
    ensures
        ({
            let start = run_start::<E>(Mode::Ensure, state, about);
            let locked = start.next(Event::Locked);
            let listed = locked.next(Event::Text(panes));
            let scoped = listed.next(Event::Text(scope));
            let swept = scoped.next(Event::Done);
            &&& start.pending() == (Action::<Seq<char>>::TakeLock {
                wait: event_kind_in(document(about)) == "tab_created"@,
            })
            &&& locked.pending() == Action::<Seq<char>>::Call(Request::PaneList)
            &&& listed.pending() == Action::<Seq<char>>::ResolveScope
            &&& scoped.pending() == Action::<Seq<char>>::SweepSnoozes
            &&& swept.pending() == (Action::<Seq<char>>::Decide { view: SidebarView::Explorer })
            &&& swept.stage is Decision
            &&& swept.mode == Mode::Ensure
            &&& swept.state == state
            &&& swept.panes == panes
            &&& swept.scope == scope
            &&& scope.contains(':') ==> swept.tab == scope
            &&& scope.len() == 0 ==> swept.tab == focused_tab_in(panes_in(document(panes)))
            &&& scope.len() > 0 && !scope.contains(':') ==> swept.tab.len() == 0
        }),
{
}

/// Whether the next text that a run is told is its decision: a strict toggle has
/// the first one turned before it counts.
pub open spec fn hears_its_decision<E>(run: RunView<E>) -> bool {
    ||| run.stage is Strict
    ||| run.stage is Decision && !(run.mode is Toggle && run.state.strict_toggle)
}

/// A strict toggle has its decision turned from focusing into closing, and then
/// goes by what it is told; no other run does.
pub proof fn lemma_strict_toggles_ask_once_more<E>(run: RunView<E>, decision: Seq<char>)
    requires
        run.stage is Decision,
    ensures
        run.mode is Toggle && run.state.strict_toggle ==> {
            let asked = run.next(Event::Text(decision));
            &&& asked.pending() == (Action::FocusAsClose { decision })
            &&& asked.mode == run.mode
            &&& asked.state == run.state
            &&& asked.tab == run.tab
            &&& asked.scope == run.scope
            &&& asked.panes == run.panes
            &&& hears_its_decision(asked)
        },
        !(run.mode is Toggle && run.state.strict_toggle) ==> !(run.next(
            Event::Text(decision),
        ).stage is Strict),
{
}

/// A toggle of either view closes a sidebar of that view which has the focus. It
/// asks whether the sidebar is still starting: the pane of one that is gets closed,
/// and one that runs is sent the key on which it saves its draft and closes itself.
/// After that the tab is snoozed if the view is the Explorer, and nothing else is
/// done.
pub proof fn lemma_toggles_close_either_view<E>(
    run: RunView<E>,
    view: SidebarView,
    pane_id: Seq<char>,
)
    requires
        hears_its_decision(run),
        run.mode == Mode::Toggle(view),
    ensures
        ({
            let asked = run.next(Event::Text("CLOSE "@ + pane_id));
            let at_once = Action::Call(Request::PaneClose { pane_id });
            let by_itself = Action::Call(
                Request::PaneSendInput { pane_id, text: Seq::<char>::empty(), key: "ctrl+q"@ },
            );
            let snooze = Action::SetSnooze { tab: run.tab };
            let starting = asked.next(Event::Flag(true));
            let running = asked.next(Event::Flag(false));
            &&& asked.pending() == (Action::AskStarting { pane_id })
            &&& starting.stage is Work && running.stage is Work
            &&& view == SidebarView::Explorer ==> starting.todo == seq![at_once, snooze]
                && running.todo == seq![by_itself, snooze]
            &&& view == SidebarView::SourceControl ==> starting.todo == seq![at_once]
                && running.todo == seq![by_itself]
        }),
{
    lemma_decisions_are_a_word_and_a_pane("CLOSE "@ + pane_id, pane_id);
}

/// A toggle of either view gives the focus to a sidebar of that view which lacks
/// it, and does nothing else.
pub proof fn lemma_toggles_focus_either_view<E>(
    run: RunView<E>,
    view: SidebarView,
    pane_id: Seq<char>,
)
    requires
        hears_its_decision(run),
        run.mode == Mode::Toggle(view),
    ensures
        ({
            let decided = run.next(Event::Text("FOCUS "@ + pane_id));
            &&& decided.stage is Work
            &&& decided.todo == seq![Action::Call(Request::PaneFocus { pane_id })]
        }),
{
    lemma_decisions_are_a_word_and_a_pane("FOCUS "@ + pane_id, pane_id);
}

/// A toggle of either view opens a sidebar of that view where there is none, with
/// the focus if the user wants that. A toggle of the Explorer ends the snooze of the
/// tab before.
pub proof fn lemma_toggles_open_either_view<E>(
    run: RunView<E>,
    view: SidebarView,
    decision: Seq<char>,
)
    requires
        hears_its_decision(run),
        run.mode == Mode::Toggle(view),
        verdict_in(decision) is Absent,
    ensures
        ({
            let decided = run.next(Event::Text(decision));
            let unsnooze = Action::ClearSnooze { tab: run.tab };
            let open = Action::Open {
                focus_new: run.state.focus_on_open,
                view,
                initial: None,
            };
            &&& decided.stage is Work
            &&& view == SidebarView::Explorer ==> decided.todo == seq![unsnooze, open]
            &&& view == SidebarView::SourceControl ==> decided.todo == seq![open]
        }),
{
    assert(run.unsnooze() + run.fresh() =~= run.next(Event::Text(decision)).todo);
}

/// An activation that finds no sidebar notes its target in the state and opens the
/// pane that the target lives in, with the focus, on that target. Where that is the
/// Explorer's pane, the snooze of the tab ends before; Source Control has a pane of
/// its own unless the views are merged.
pub proof fn lemma_activations_open_their_target<E>(
    run: RunView<E>,
    target: Target,
    decision: Seq<char>,
)
    requires
        hears_its_decision(run),
        run.mode == Mode::Activate(target),
        verdict_in(decision) is Absent,
    ensures
        ({
            let decided = run.next(Event::Text(decision));
            let apart = target == Target::SourceControl && !run.state.merged;
            let unsnooze = Action::ClearSnooze { tab: run.tab };
            let prepare = Action::Prepare { target };
            let open = |view: SidebarView|
                Action::<Seq<char>>::Open { focus_new: true, view, initial: Some(target) };
            &&& decided.stage is Work
            &&& apart ==> decided.todo == seq![prepare, open(SidebarView::SourceControl)]
            &&& !apart ==> decided.todo == seq![unsnooze, prepare, open(SidebarView::Explorer)]
        }),
{
    assert(run.unsnooze() + run.fresh() =~= run.next(Event::Text(decision)).todo);
}

/// An activation brings a live sidebar to its target, with or without the focus: it
/// notes the target in the state, gives the pane the focus, and presses the key of
/// the target in it.
pub proof fn lemma_activations_press_the_key_of_their_target<E>(
    run: RunView<E>,
    target: Target,
    pane_id: Seq<char>,
)
    requires
        hears_its_decision(run),
        run.mode == Mode::Activate(target),
    ensures
        ({
            let key = match target {
                Target::Explorer => "f9"@,
                Target::Search => "f10"@,
                Target::SourceControl => "f11"@,
                Target::QuickOpen => "f12"@,
            };
            let steps = seq![
                Action::Prepare { target },
                Action::Call(Request::PaneFocus { pane_id }),
                Action::Call(Request::PaneSendInput { pane_id, text: Seq::<char>::empty(), key }),
            ];
            &&& run.next(Event::Text("FOCUS "@ + pane_id)).stage is Work
            &&& run.next(Event::Text("FOCUS "@ + pane_id)).todo == steps
            &&& run.next(Event::Text("CLOSE "@ + pane_id)).stage is Work
            &&& run.next(Event::Text("CLOSE "@ + pane_id)).todo == steps
        }),
{
    lemma_decisions_are_a_word_and_a_pane("FOCUS "@ + pane_id, pane_id);
    lemma_decisions_are_a_word_and_a_pane("CLOSE "@ + pane_id, pane_id);
}

/// In every mode a dead sidebar is closed, the panes are listed anew, and a new
/// sidebar takes its place: quietly for a hook, as the user wants it for a toggle,
/// and with the focus and on its target for an activation. No snooze changes.
pub proof fn lemma_dead_sidebars_make_room<E>(run: RunView<E>, pane_id: Seq<char>)
    requires
        hears_its_decision(run),
    ensures
        ({
            let decided = run.next(Event::Text("REPLACE "@ + pane_id));
            let close = Action::Call(Request::PaneClose { pane_id });
            let list = Action::<Seq<char>>::Call(Request::PaneList);
            &&& decided.stage is Work
            &&& decided.todo == match run.mode {
                Mode::Ensure => seq![
                    close,
                    list,
                    Action::Open {
                        focus_new: false,
                        view: SidebarView::Explorer,
                        initial: None,
                    },
                ],
                Mode::Toggle(view) => seq![
                    close,
                    list,
                    Action::Open { focus_new: run.state.focus_on_open, view, initial: None },
                ],
                Mode::Activate(target) => seq![
                    close,
                    list,
                    Action::Prepare { target },
                    Action::Open {
                        focus_new: true,
                        view: if target == Target::SourceControl && !run.state.merged {
                            SidebarView::SourceControl
                        } else {
                            SidebarView::Explorer
                        },
                        initial: Some(target),
                    },
                ],
            }
        }),
{
    lemma_decisions_are_a_word_and_a_pane("REPLACE "@ + pane_id, pane_id);
    let decided = run.next(Event::Text("REPLACE "@ + pane_id));
    assert(decided.todo =~= seq![
        Action::Call(Request::PaneClose { pane_id }),
        Action::Call(Request::PaneList),
    ] + run.fresh());
}

/// A hook that finds a live sidebar has nothing to do. One that finds none asks
/// whether the tab is snoozed: if it is, there is nothing to do, and if it is not,
/// an Explorer is opened quietly, and nothing else is done.
pub proof fn lemma_hooks_only_open<E>(run: RunView<E>, decision: Seq<char>, pane_id: Seq<char>)
    requires
        hears_its_decision(run),
        run.mode == Mode::Ensure,
        verdict_in(decision) is Absent,
    ensures
        ({
            let asked = run.next(Event::Text(decision));
            let open = Action::<Seq<char>>::Open {
                focus_new: false,
                view: SidebarView::Explorer,
                initial: None,
            };
            &&& run.next(Event::Text("FOCUS "@ + pane_id)).pending() is Finish
            &&& run.next(Event::Text("CLOSE "@ + pane_id)).pending() is Finish
            &&& asked.pending() == (Action::AskSnoozed { tab: run.tab })
            &&& asked.next(Event::Flag(true)).pending() is Finish
            &&& asked.next(Event::Flag(false)).stage is Work
            &&& asked.next(Event::Flag(false)).todo == seq![open]
        }),
{
    lemma_decisions_are_a_word_and_a_pane("FOCUS "@ + pane_id, pane_id);
    lemma_decisions_are_a_word_and_a_pane("CLOSE "@ + pane_id, pane_id);
}

/// What is left to do is done one by one and in order: each request with its reply,
/// everything else once it is done. Only a new list of panes takes the place of the
/// old one. With nothing left, the run is over.
pub proof fn lemma_the_rest_is_worked_off_in_order<E>(run: RunView<E>, reply: Seq<char>)
    requires
        run.stage is Work,
    ensures
        run.todo.len() == 0 ==> run.pending() is Finish,
        run.todo.len() > 0 ==> run.pending() == run.todo[0],
        run.todo.len() > 0 && run.todo[0] is Call ==> run.next(Event::Text(reply)) == (RunView {
            todo: run.todo.drop_first(),
            panes: if run.todo[0] == Action::<Seq<char>>::Call(Request::PaneList) {
                reply
            } else {
                run.panes
            },
            ..run
        }),
        run.todo.len() > 0 && !(run.todo[0] is Call) ==> run.next(Event::Done) == (RunView {
            todo: run.todo.drop_first(),
            ..run
        }),
{
}

/// Only an answer to what it asks for takes a run further.
pub proof fn lemma_runs_wait_for_their_answer<E>(run: RunView<E>, event: Event<Seq<char>, E>)
    requires
        run.stage is Work && run.todo.len() > 0 ==> {
            let first = run.todo[0];
            first is Call || first is Open || first is Prepare || first is SetSnooze
                || first is ClearSnooze
        },
    ensures
        run.next(event) != run ==> match run.pending() {
            Action::TakeLock { .. } => event is Locked || event is Busy,
            Action::Call(_) => event is Text || event is Failed,
            Action::ResolveScope => event is Text,
            Action::SweepSnoozes => event is Done,
            Action::Decide { .. } => event is Text,
            Action::FocusAsClose { .. } => event is Text,
            Action::AskStarting { .. } => event is Flag,
            Action::AskSnoozed { .. } => event is Flag,
            Action::Open { .. } => event is Done || event is Failed,
            Action::Prepare { .. } => event is Done,
            Action::SetSnooze { .. } => event is Done,
            Action::ClearSnooze { .. } => event is Done,
            Action::Finish | Action::Fail => false,
        },
{
}

} // verus!

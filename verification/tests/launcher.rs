use herdr_sidebar::activity::{Mode, SidebarView, State, Target};
use herdr_sidebar::event::Event;
use herdr_sidebar::open::{
    default_share, read_plan, resize_direct_spawn, spawn_command, split_params, Open,
    OpenAction, Platform,
};
use herdr_sidebar::repair::{full_height_repair, Repair, RepairAction};
use herdr_sidebar::request::{focus, request_close, Request};
use herdr_sidebar::run::{
    activate_existing, lock_file_name, read_verdict, Action, Run, Verdict,
};
use herdr_sidebar::sidebar_tab::{
    existing_sidebar_tab, pane_root, pane_to_start_from, tab_of_pane, SidebarTab,
    TabAction, SIDEBAR_TAB_LABEL,
};
use herdr_sidebar::panes::{read_panes, read_tabs};

const PANES: &str = r#"{"result":{"panes":[
    {"pane_id":"w1:p1","tab_id":"w1:t1","workspace_id":"w1","focused":true,"cwd":"/one"},
    {"pane_id":"w2:p1","tab_id":"w2:t1","workspace_id":"w2","cwd":"/two",
     "foreground_cwd":"/two/deep"}
]}}"#;

fn s(text: &str) -> String {
    text.to_string()
}

/// What the surroundings say of a failure here.
type Why = &'static str;

fn text<E>(text: &str) -> Event<String, E> {
    Event::Text(s(text))
}

fn state() -> State {
    State {
        merged: false,
        auto_open: true,
        strict_toggle: false,
        focus_on_open: true,
        dock_right: false,
        sidebar_width: 30,
        active: SidebarView::Explorer,
        search_active: false,
    }
}

fn run(mode: Mode, state: State, event_json: &str) -> Run<Why> {
    herdr_sidebar::run::run(mode, state, event_json)
}

fn open(
    platform: Platform<String>,
    focus_new: bool,
    view: SidebarView,
    initial: Option<Target>,
    state: State,
    focused: &str,
) -> Open<String, Why> {
    herdr_sidebar::open::open(platform, focus_new, view, initial, state, focused)
}

fn sidebar_tab(context_json: &str) -> SidebarTab<String, Why> {
    herdr_sidebar::sidebar_tab::sidebar_tab(context_json)
}

/// A run that waits for its decision.
fn undecided(mode: Mode, state: State) -> Run<Why> {
    let run = run(mode, state, r#"{"event":"tab_focused"}"#);
    assert_eq!(
        run.action(),
        Action::TakeLock {
            wait: mode.is_explicit()
        }
    );
    let run = run.next(Event::Locked);
    assert_eq!(run.action(), Action::Call(Request::PaneList));
    let mut run = run.next(text(PANES));
    if !mode.is_explicit() {
        assert_eq!(run.action(), Action::ResolveScope);
        run = run.next(text("w2:t1"));
    }
    assert_eq!(run.action(), Action::SweepSnoozes);
    let run = run.next(Event::Done);
    assert_eq!(
        run.action(),
        Action::Decide {
            view: mode.wanted_view()
        }
    );
    run
}

/// Everything that a run asks for from here on, with every request answered.
fn rest(mut run: Run<Why>) -> Vec<Action<String>> {
    let mut seen = Vec::new();
    loop {
        let action = run.action();
        let event = match &action {
            Action::Finish | Action::Fail => return seen,
            Action::Call(_) => text("reply"),
            _ => Event::Done,
        };
        seen.push(action);
        run = run.next(event);
    }
}

#[test]
fn hooks_do_nothing_while_auto_open_is_off() {
    let off = State {
        auto_open: false,
        ..state()
    };
    let quiet = run(Mode::Ensure, off, "");
    assert_eq!(quiet.action(), Action::Finish);
    assert_eq!(quiet.next(Event::Locked).action(), Action::Finish);
    let toggle = run(Mode::Toggle(SidebarView::Explorer), off, "");
    assert_eq!(toggle.action(), Action::TakeLock { wait: true });
}

#[test]
fn only_the_hook_on_a_new_tab_waits() {
    let created = run(Mode::Ensure, state(), r#"{"event":"tab.created"}"#);
    assert_eq!(created.action(), Action::TakeLock { wait: true });
    let focused = run(Mode::Ensure, state(), r#"{"event":"tab.focused"}"#);
    assert_eq!(focused.action(), Action::TakeLock { wait: false });
    assert_eq!(focused.next(Event::Busy).action(), Action::Finish);
}

#[test]
fn hooks_open_quietly_unless_snoozed() {
    let asked = undecided(Mode::Ensure, state()).next(text("OPEN"));
    assert_eq!(asked.action(), Action::AskSnoozed { tab: s("w2:t1") });
    assert_eq!(
        rest(asked.next(Event::Flag(false))),
        vec![Action::Open {
            focus_new: false,
            view: SidebarView::Explorer,
            initial: None
        }]
    );
    let asked = undecided(Mode::Ensure, state()).next(text("OPEN"));
    assert!(rest(asked.next(Event::Flag(true))).is_empty());
}

#[test]
fn a_tab_that_was_closed_is_the_tab_that_hooks_ask_about() {
    let toggle = undecided(Mode::Toggle(SidebarView::Explorer), state());
    let hook = run(Mode::Ensure, state(), "")
        .next(Event::Locked)
        .next(text(PANES))
        .next(text(&toggle.tab))
        .next(Event::Done)
        .next(text("OPEN"));
    assert_eq!(hook.action(), Action::AskSnoozed { tab: toggle.tab });
}

#[test]
fn hooks_leave_live_sidebars_alone() {
    for decision in ["FOCUS w2:p1", "CLOSE w2:p1"] {
        let decided = undecided(Mode::Ensure, state()).next(text(decision));
        assert_eq!(decided.action(), Action::Finish);
    }
}

#[test]
fn toggles_open_focus_or_close() {
    let mode = Mode::Toggle(SidebarView::Explorer);
    assert_eq!(
        rest(undecided(mode, state()).next(text(""))),
        vec![
            Action::ClearSnooze { tab: s("w1:t1") },
            Action::Open {
                focus_new: true,
                view: SidebarView::Explorer,
                initial: None
            },
        ]
    );
    assert_eq!(
        rest(undecided(mode, state()).next(text("FOCUS w1:p7"))),
        vec![Action::Call(focus("w1:p7"))]
    );
    let closing = undecided(mode, state()).next(text("CLOSE w1:p7"));
    assert_eq!(closing.action(), Action::AskStarting { pane_id: s("w1:p7") });
    assert_eq!(
        rest(closing.next(Event::Flag(false))),
        vec![
            Action::Call(Request::PaneSendInput {
                pane_id: s("w1:p7"),
                text: s(""),
                key: s("ctrl+q")
            }),
            Action::SetSnooze { tab: s("w1:t1") },
        ]
    );
    let closing = undecided(mode, state()).next(text("CLOSE w1:p7"));
    assert_eq!(
        rest(closing.next(Event::Flag(true)))[0],
        Action::Call(Request::PaneClose { pane_id: s("w1:p7") })
    );
}

#[test]
fn toggles_in_the_background_do_not_take_the_focus() {
    let quiet = State {
        focus_on_open: false,
        ..state()
    };
    let actions = rest(undecided(Mode::Toggle(SidebarView::Explorer), quiet).next(text("")));
    assert_eq!(
        actions[1],
        Action::Open {
            focus_new: false,
            view: SidebarView::Explorer,
            initial: None
        }
    );
}

#[test]
fn source_control_has_no_snoozes() {
    let mode = Mode::Toggle(SidebarView::SourceControl);
    assert_eq!(
        rest(undecided(mode, state()).next(text(""))),
        vec![Action::Open {
            focus_new: true,
            view: SidebarView::SourceControl,
            initial: None
        }]
    );
    let closing = undecided(mode, state()).next(text("CLOSE p"));
    assert_eq!(rest(closing.next(Event::Flag(true))).len(), 1);
}

#[test]
fn strict_toggles_ask_once_more() {
    let strict = State {
        strict_toggle: true,
        ..state()
    };
    let run = undecided(Mode::Toggle(SidebarView::Explorer), strict).next(text("FOCUS p"));
    assert_eq!(run.action(), Action::FocusAsClose { decision: s("FOCUS p") });
    let run = run.next(text("CLOSE p"));
    assert_eq!(run.action(), Action::AskStarting { pane_id: s("p") });
    // Other runs do not care.
    let quiet = undecided(Mode::Ensure, strict).next(text("FOCUS p"));
    assert_eq!(quiet.action(), Action::Finish);
}

#[test]
fn dead_sidebars_are_replaced() {
    let replaced = undecided(Mode::Ensure, state()).next(text("REPLACE w2:p9"));
    assert_eq!(
        replaced.action(),
        Action::Call(Request::PaneClose { pane_id: s("w2:p9") })
    );
    let listed = replaced.next(text("closed"));
    assert_eq!(listed.action(), Action::Call(Request::PaneList));
    assert_eq!(listed.panes, PANES);
    let fresh = listed.next(text("fresh list"));
    assert_eq!(fresh.panes, "fresh list");
    assert_eq!(
        fresh.action(),
        Action::Open {
            focus_new: false,
            view: SidebarView::Explorer,
            initial: None
        }
    );
    let activated =
        undecided(Mode::Activate(Target::Search), state()).next(text("REPLACE w2:p9"));
    assert_eq!(rest(activated).len(), 4);
}

#[test]
fn activations_reach_their_target() {
    let mode = Mode::Activate(Target::SourceControl);
    for decision in ["FOCUS p", "CLOSE p"] {
        assert_eq!(
            rest(undecided(mode, state()).next(text(decision))),
            activate_existing("p", Target::SourceControl)
        );
    }
    assert_eq!(
        activate_existing("p", Target::QuickOpen),
        vec![
            Action::Prepare {
                target: Target::QuickOpen
            },
            Action::Call(focus("p")),
            Action::Call(Request::PaneSendInput {
                pane_id: s("p"),
                text: s(""),
                key: s("f12")
            }),
        ]
    );
    assert_eq!(
        rest(undecided(mode, state()).next(text(""))),
        vec![
            Action::Prepare {
                target: Target::SourceControl
            },
            Action::Open {
                focus_new: true,
                view: SidebarView::SourceControl,
                initial: Some(Target::SourceControl)
            },
        ]
    );
    let merged = State {
        merged: true,
        ..state()
    };
    assert_eq!(
        rest(undecided(mode, merged).next(text("")))[0],
        Action::ClearSnooze { tab: s("w1:t1") }
    );
}

#[test]
fn failures_end_a_run() {
    let failed = run(Mode::Toggle(SidebarView::Explorer), state(), "")
        .next(Event::Locked)
        .next(Event::Failed("no panes"));
    assert_eq!(failed.action(), Action::Fail);
    let late = failed.next(text("late")).next(Event::Failed("too late"));
    assert_eq!(late.action(), Action::Fail);
    assert_eq!(late.outcome(), Err("no panes"));
    let opening = undecided(Mode::Toggle(SidebarView::SourceControl), state()).next(text(""));
    let failed = opening.next(Event::Failed("no room"));
    assert_eq!(failed.action(), Action::Fail);
    assert_eq!(failed.outcome(), Err("no room"));
    let yielded = run(Mode::Ensure, state(), "").next(Event::Busy);
    assert_eq!(yielded.outcome(), Ok(()));
}

#[test]
fn explicit_runs_do_not_ask_whether_hooks_may_open() {
    let off = State {
        auto_open: false,
        ..state()
    };
    let mode = Mode::Toggle(SidebarView::Explorer);
    assert_eq!(
        rest(undecided(mode, off).next(text(""))),
        rest(undecided(mode, state()).next(text("")))
    );
}

#[test]
fn answers_to_nothing_change_nothing() {
    let fresh = run(Mode::Ensure, state(), "");
    let same = run(Mode::Ensure, state(), "").next(Event::Flag(true));
    assert_eq!(fresh, same);
}

#[test]
fn verdicts_are_a_word_and_a_pane() {
    assert_eq!(
        read_verdict("FOCUS a b"),
        Verdict::Focus { pane_id: s("a b") }
    );
    assert_eq!(read_verdict("CLOSE "), Verdict::Close { pane_id: s("") });
    assert_eq!(read_verdict("REPLACE x"), Verdict::Replace { pane_id: s("x") });
    assert_eq!(read_verdict("FOCUS"), Verdict::Absent);
    assert_eq!(read_verdict("focus x"), Verdict::Absent);
    assert_eq!(read_verdict(""), Verdict::Absent);
}

#[test]
fn lock_files_have_names() {
    assert_eq!(lock_file_name(true), "launcher.lock");
    assert_eq!(lock_file_name(false), "herdr-sidebar-launcher.lock");
}

fn opening(platform: Platform<String>, focus_new: bool, state: State) -> Open<String, Why> {
    open(
        platform,
        focus_new,
        SidebarView::Explorer,
        Some(Target::Search),
        state,
        "p1\t/work",
    )
}

fn windows() -> Platform<String> {
    Platform::Windows {
        executable: s("sidebar.exe"),
        view_flag: s("explorer"),
        label: s("Explorer"),
    }
}

#[test]
fn nothing_opens_without_a_focused_pane() {
    let open = open(
        Platform::Unix,
        true,
        SidebarView::Explorer,
        None,
        state(),
        "p1",
    );
    assert_eq!(open.action(), OpenAction::Finish);
}

#[test]
fn quiet_openings_give_the_focus_back() {
    let open = opening(Platform::Unix, false, state());
    assert_eq!(
        open.action(),
        OpenAction::Call(Request::PaneLayout { pane_id: s("p1") })
    );
    let open = open.next(text("layout"));
    assert_eq!(
        open.action(),
        OpenAction::PlanLayout {
            layout: s("layout"),
            dock_right: false,
            sidebar_width: 30
        }
    );
    let open = open.next(text("p0\t0.2\ttrue"));
    assert_eq!(
        open.action(),
        OpenAction::OpenPane {
            target: s("p0"),
            view: SidebarView::Explorer,
            cwd: s("/work"),
            merged: false,
            initial: Some(Target::Search)
        }
    );
    // The host starts the process, or fails; it does not come without a pane.
    let open = open.next(Event::Missing).next(text("p9"));
    assert_eq!(
        open.action(),
        OpenAction::Call(Request::PaneSwap {
            source: s("p9"),
            target: s("p0")
        })
    );
    let open = open.next(text(""));
    assert_eq!(
        open.action(),
        OpenAction::Resize {
            request: Request::PaneResize {
                pane_id: s("p9"),
                direction: s("left")
            },
            ratio: Some(s("0.2")),
            fallback: 25
        }
    );
    let open = open.next(Event::Done);
    assert_eq!(
        open.action(),
        OpenAction::Repair {
            pane_id: s("p9"),
            dock_right: false
        }
    );
    let open = open.next(Event::Done);
    assert_eq!(open.action(), OpenAction::Call(focus("p1")));
    assert_eq!(open.next(text("")).action(), OpenAction::Finish);
}

#[test]
fn loud_openings_focus_the_new_pane() {
    let right = State {
        dock_right: true,
        merged: true,
        ..state()
    };
    let open = opening(Platform::Unix, true, right)
        .next(text("layout"))
        .next(text(""))
        .next(text("p9"));
    assert_eq!(open.target, "p1");
    assert_eq!(
        open.action(),
        OpenAction::Resize {
            request: resize_direct_spawn("p9", true),
            ratio: None,
            fallback: 75
        }
    );
    let open = open.next(Event::Done).next(Event::Done);
    assert_eq!(open.action(), OpenAction::Call(focus("p9")));
    let failed = open.next(Event::Failed("gone"));
    assert_eq!(failed.action(), OpenAction::Fail);
    assert_eq!(failed.next(text("late")).outcome(), Err("gone"));
}

#[test]
fn shells_are_split_off_and_typed_into() {
    let open = opening(windows(), true, state())
        .next(text("layout"))
        .next(text("p0\tx\tmaybe"));
    assert_eq!(
        open.action(),
        OpenAction::SplitPane {
            request: Request::PaneSplit {
                target: s("p0"),
                cwd: Some(s("/work"))
            },
            ratio: Some(s("x")),
            fallback: 25,
            initial: Some(Target::Search)
        }
    );
    let open = open.next(text("p9"));
    assert_eq!(
        open.action(),
        OpenAction::ReportStarting {
            pane_id: s("p9"),
            view: SidebarView::Explorer,
            merged: false
        }
    );
    let open = open.next(Event::Done).next(text("swapped"));
    assert_eq!(
        open.action(),
        OpenAction::Call(Request::PaneSendInput {
            pane_id: s("p9"),
            text: s("sidebar.exe"),
            key: s("Enter")
        })
    );
    let open = open.next(text(""));
    assert_eq!(
        open.action(),
        OpenAction::Call(Request::PaneRename {
            pane_id: s("p9"),
            label: s("Explorer")
        })
    );
    assert_eq!(
        open.next(text("")).action(),
        OpenAction::Repair {
            pane_id: s("p9"),
            dock_right: false
        }
    );
}

#[test]
fn shells_that_cannot_be_had_are_given_up() {
    let unsplit = opening(windows(), true, state())
        .next(text("layout"))
        .next(text("p0"))
        .next(Event::Missing);
    assert_eq!(unsplit.action(), OpenAction::Finish);
    let unreported = opening(windows(), true, state())
        .next(text("layout"))
        .next(text("p0"))
        .next(text("p9"))
        .next(Event::Failed("unheard"));
    assert_eq!(
        unreported.action(),
        OpenAction::Call(Request::PaneClose { pane_id: s("p9") })
    );
    let closed = unreported.next(text(""));
    assert_eq!(closed.action(), OpenAction::Fail);
    assert_eq!(closed.outcome(), Err("unheard"));
    // What comes of closing the pane does not hide why it was closed.
    let stuck = opening(windows(), true, state())
        .next(text("layout"))
        .next(text("p0"))
        .next(text("p9"))
        .next(Event::Failed("unheard"))
        .next(Event::Failed("stuck"));
    assert_eq!(stuck.action(), OpenAction::Fail);
    assert_eq!(stuck.outcome(), Err("unheard"));
}

#[test]
fn plans_are_read_with_what_they_lack() {
    assert_eq!(
        read_plan("p0\t0.25\ttrue\tmore", "p1", true),
        (s("p0"), Some(s("0.25")), true)
    );
    assert_eq!(
        read_plan("\t0.25\tfalse", "p1", false),
        (s("p1"), Some(s("0.25")), false)
    );
    assert_eq!(read_plan("p0\t", "p1", false), (s("p0"), Some(s("")), true));
    assert_eq!(read_plan("p0", "p1", true), (s("p0"), None, false));
    assert_eq!(read_plan("", "p1", false), (s("p1"), None, true));
    assert_eq!(default_share(true), 75);
    assert_eq!(
        spawn_command("x", SidebarView::SourceControl, "scm"),
        "x --view scm"
    );
    assert_eq!(spawn_command("x", SidebarView::Explorer, "explorer"), "x");
}

#[test]
fn splits_name_the_initial_target_in_the_environment() {
    let request = Request::PaneSplit {
        target: s("p0"),
        cwd: None,
    };
    let read = |json: &str| serde_json::from_str::<serde_json::Value>(json).unwrap();
    assert_eq!(
        split_params(&request, read(r#"{"A":"1"}"#), "FIRST", Some(Target::Search)),
        read(
            r#"{"target_pane_id":"p0","direction":"right","focus":false,
                "env":{"A":"1","FIRST":"search"}}"#
        )
    );
    assert_eq!(
        split_params(&request, read(r#"{"A":"1"}"#), "FIRST", None),
        read(
            r#"{"target_pane_id":"p0","direction":"right","focus":false,"env":{"A":"1"}}"#
        )
    );
    assert_eq!(
        split_params(&request, read("null"), "FIRST", Some(Target::Search)),
        read(r#"{"target_pane_id":"p0","direction":"right","focus":false,"env":null}"#)
    );
}

fn step() -> Event<String, ()> {
    Event::Step {
        below: s("p2"),
        tab: s("t1"),
        beside: s("p3"),
    }
}

fn back() -> RepairAction<String> {
    RepairAction::Call(Request::PaneMoveBelow {
        pane_id: s("p2"),
        tab_id: s("t1"),
        beside: s("p3"),
    })
}

/// A repair that waits for the answer to its move back.
fn moving_back(repair: Repair<String>) -> Repair<String> {
    assert_eq!(
        repair.action(),
        RepairAction::Call(Request::PaneLayout { pane_id: s("p9") })
    );
    let repair = repair.next(text("layout"));
    assert_eq!(
        repair.action(),
        RepairAction::PlanStep {
            layout: s("layout"),
            pane_id: s("p9"),
            dock_right: true
        }
    );
    let repair = repair.next(step());
    assert_eq!(
        repair.action(),
        RepairAction::Call(Request::PaneMoveToNewTab { pane_id: s("p2") })
    );
    let repair = repair.next(text(""));
    assert_eq!(repair.action(), back());
    repair
}

#[test]
fn repairs_take_four_rounds_at_most() {
    let mut repair = full_height_repair("p9", true);
    for _ in 0..4 {
        repair = moving_back(repair).next(text(""));
    }
    assert_eq!(repair.action(), RepairAction::Finish);
}

#[test]
fn refused_moves_back_are_asked_for_again() {
    let repair = moving_back(full_height_repair("p9", true)).next(Event::Failed(()));
    assert_eq!(repair.action(), back());
    // Only an answer counts.
    let repair = repair.next(Event::Missing);
    assert_eq!(repair.action(), back());
    // Once the pane is back, the repair is over.
    assert_eq!(repair.next(text("")).action(), RepairAction::Finish);
}

#[test]
fn refused_moves_back_use_up_the_rounds() {
    let mut repair = moving_back(full_height_repair("p9", true));
    for _ in 0..3 {
        repair = repair.next(Event::Failed(()));
        assert_eq!(repair.action(), back());
    }
    assert_eq!(repair.next(Event::Failed(())).action(), RepairAction::Finish);
    // In the last round there is none left to ask in.
    let mut repair = full_height_repair("p9", true);
    for _ in 0..3 {
        repair = moving_back(repair).next(text(""));
    }
    let repair = moving_back(repair).next(Event::Failed(()));
    assert_eq!(repair.action(), RepairAction::Finish);
}

#[test]
fn repairs_stop_where_nothing_can_be_done() {
    let gone = full_height_repair("p9", true).next(Event::Failed(()));
    assert_eq!(gone.action(), RepairAction::Finish);
    let done = full_height_repair("p9", true)
        .next(text("layout"))
        .next(Event::Missing);
    assert_eq!(done.action(), RepairAction::Finish);
    let stuck = full_height_repair("p9", true)
        .next(text("layout"))
        .next(step())
        .next(Event::Failed(()));
    assert_eq!(stuck.action(), RepairAction::Finish);
}

fn visit(context: &str) -> SidebarTab<String, Why> {
    let visit = sidebar_tab(context);
    assert_eq!(visit.action(), TabAction::TakeLock);
    let visit = visit.next(Event::Locked);
    assert_eq!(visit.action(), TabAction::Call(Request::PaneList));
    visit.next(text(PANES))
}

#[test]
fn an_existing_sidebar_tab_is_moved_first() {
    let visit = visit("{}");
    assert_eq!(
        visit.action(),
        TabAction::Call(Request::TabList {
            workspace_id: s("w1")
        })
    );
    let visit = visit.next(text(
        r#"{"result":{"tabs":[{"label":"x","tab_id":"t1"},{"label":"sidebar","tab_id":"t2"}]}}"#,
    ));
    assert_eq!(
        visit.action(),
        TabAction::Call(Request::TabMove {
            tab_id: s("t2"),
            insert_index: 0
        })
    );
    let visit = visit.next(text(""));
    assert_eq!(
        visit.action(),
        TabAction::Call(Request::TabFocus { tab_id: s("t2") })
    );
    assert_eq!(visit.next(text("")).action(), TabAction::Finish);
}

#[test]
fn a_missing_sidebar_tab_is_opened_where_the_context_says() {
    let visit = visit(r#"{"focused_pane_id":"w2:p1"}"#).next(text("{}"));
    assert_eq!(visit.action(), TabAction::LoadState);
    let visit = visit.next(Event::Loaded(State {
        merged: true,
        ..state()
    }));
    assert_eq!(
        visit.action(),
        TabAction::OpenTab {
            workspace_id: s("w2"),
            cwd: s("/two/deep"),
            merged: true
        }
    );
    let visit = visit.next(text("w2:p1"));
    assert_eq!(visit.action(), TabAction::Call(Request::PaneList));
    let visit = visit.next(text(PANES));
    assert_eq!(
        visit.action(),
        TabAction::Call(Request::TabRename {
            tab_id: s("w2:t1"),
            label: s(SIDEBAR_TAB_LABEL)
        })
    );
    let visit = visit.next(text(""));
    assert_eq!(
        visit.action(),
        TabAction::Call(Request::TabMove {
            tab_id: s("w2:t1"),
            insert_index: 0
        })
    );
    let failed = visit.next(Event::Failed("fixed"));
    assert_eq!(failed.action(), TabAction::Fail);
    assert_eq!(failed.next(text("late")).outcome(), Err("fixed"));
}

#[test]
fn visits_end_where_there_is_nothing_to_start_from() {
    assert_eq!(sidebar_tab("").next(Event::Busy).action(), TabAction::Finish);
    assert_eq!(
        visit(r#"{"focused_pane_id":"gone"}"#).action(),
        TabAction::Finish
    );
    let nowhere = sidebar_tab("").next(Event::Locked).next(text("{}"));
    assert_eq!(nowhere.action(), TabAction::Finish);
    let homeless = sidebar_tab("")
        .next(Event::Locked)
        .next(text(r#"{"result":{"panes":[{"focused":true}]}}"#));
    assert_eq!(homeless.action(), TabAction::Finish);
    let lost = visit("{}")
        .next(text("{}"))
        .next(Event::Loaded(state()))
        .next(text("unlisted"))
        .next(text(PANES));
    assert_eq!(lost.action(), TabAction::Finish);
}

#[test]
fn visits_look_things_up() {
    let panes = read_panes(PANES);
    let start = pane_to_start_from(&panes, &None).unwrap();
    assert_eq!(pane_root(start), "/one");
    let named = pane_to_start_from(&panes, &Some(s("w2:p1"))).unwrap();
    assert_eq!(pane_root(named), "/two/deep");
    assert_eq!(tab_of_pane(&panes, "w2:p1"), Some(s("w2:t1")));
    assert_eq!(tab_of_pane(&panes, "w3:p1"), None);
    // Only the first tab with the label counts, even without an id.
    let tabs = read_tabs(r#"{"result":{"tabs":[{"label":"sidebar"},{"label":"sidebar","tab_id":"t"}]}}"#);
    assert_eq!(existing_sidebar_tab(&tabs), None);
}

fn wire(request: Request<String>, method: &str, params: &str) {
    assert_eq!(request.method(), method);
    let expected: serde_json::Value = serde_json::from_str(params).unwrap();
    assert_eq!(request.params(), expected);
    assert_eq!(request.clone(), request);
}

#[test]
fn requests_have_their_form_on_the_wire() {
    wire(Request::PaneList, "pane.list", "{}");
    wire(focus("p"), "pane.focus", r#"{"pane_id":"p"}"#);
    wire(request_close(true, "p"), "pane.close", r#"{"pane_id":"p"}"#);
    wire(
        request_close(false, "p"),
        "pane.send_input",
        r#"{"pane_id":"p","text":"","keys":["ctrl+q"]}"#,
    );
    wire(
        Request::PaneLayout { pane_id: s("p") },
        "pane.layout",
        r#"{"pane_id":"p"}"#,
    );
    wire(
        Request::PaneSplit {
            target: s("p"),
            cwd: None,
        },
        "pane.split",
        r#"{"target_pane_id":"p","direction":"right","focus":false}"#,
    );
    wire(
        Request::PaneSplit {
            target: s("p"),
            cwd: Some(s("/d")),
        },
        "pane.split",
        r#"{"target_pane_id":"p","direction":"right","focus":false,"cwd":"/d"}"#,
    );
    wire(
        Request::PaneSwap {
            source: s("a"),
            target: s("b"),
        },
        "pane.swap",
        r#"{"source_pane_id":"a","target_pane_id":"b"}"#,
    );
    wire(
        resize_direct_spawn("p", false),
        "pane.resize",
        r#"{"pane_id":"p","direction":"left"}"#,
    );
    wire(
        Request::PaneRename {
            pane_id: s("p"),
            label: s("l"),
        },
        "pane.rename",
        r#"{"pane_id":"p","label":"l"}"#,
    );
    wire(
        Request::PaneMoveToNewTab { pane_id: s("p") },
        "pane.move",
        r#"{"pane_id":"p","destination":{"type":"new_tab"},"focus":false}"#,
    );
    wire(
        Request::PaneMoveBelow {
            pane_id: s("p"),
            tab_id: s("t"),
            beside: s("q"),
        },
        "pane.move",
        r#"{"pane_id":"p","destination":{"type":"tab","tab_id":"t","target_pane_id":"q",
            "split":"down"},"focus":false}"#,
    );
    wire(
        Request::TabList {
            workspace_id: s("w"),
        },
        "tab.list",
        r#"{"workspace_id":"w"}"#,
    );
    wire(
        Request::TabRename {
            tab_id: s("t"),
            label: s("l"),
        },
        "tab.rename",
        r#"{"tab_id":"t","label":"l"}"#,
    );
    wire(
        Request::TabMove {
            tab_id: s("t"),
            insert_index: 0,
        },
        "tab.move",
        r#"{"tab_id":"t","insert_index":0}"#,
    );
    wire(
        Request::TabFocus { tab_id: s("t") },
        "tab.focus",
        r#"{"tab_id":"t"}"#,
    );
}

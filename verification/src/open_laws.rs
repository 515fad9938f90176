//! What holds of every opening, whatever its surroundings answer.

use vstd::prelude::*;

use crate::activity::{SidebarView, State, Target};
use crate::event::Event;
use crate::json::JsonView;
use crate::open::{
    command_line, env_with, open_start, Open, OpenAction, OpenStage, Platform,
};
use crate::request::Request;
use crate::text::{
    cut, lemma_cuts_are_at_the_first_mark, lemma_fields_are_parted_by_marks,
    lemma_truth_is_spelt_in_one_way,
};

verus! {

/// The opening once it has been told all of `events`, one after the other.
pub open spec fn open_after<E>(
    open: Open<Seq<char>, E>,
    events: Seq<Event<Seq<char>, E>>,
) -> Open<Seq<char>, E>
    decreases events.len(),
{
    if events.len() == 0 {
        open
    } else {
        open_after(open, events.drop_last()).next(events.last())
    }
}

/// What an opening never changes: how the process is started, who gets the
/// focus, what is shown, and the pane and directory it started from.
pub open spec fn same_order<E>(one: Open<Seq<char>, E>, other: Open<Seq<char>, E>) -> bool {
    &&& one.platform == other.platform
    &&& one.focus_new == other.focus_new
    &&& one.view == other.view
    &&& one.initial == other.initial
    &&& one.state == other.state
    &&& one.origin == other.origin
    &&& one.cwd == other.cwd
}

/// An opening keeps to what it was asked for at the start.
pub proof fn lemma_openings_keep_their_order<E>(
    open: Open<Seq<char>, E>,
    events: Seq<Event<Seq<char>, E>>,
)
    ensures
        same_order(open_after(open, events), open),
    decreases events.len(),
{
    if events.len() > 0 {
        lemma_openings_keep_their_order(open, events.drop_last());
    }
}

/// A quiet opening never moves the focus: every request for the focus is for the
/// pane that had it at the start.
pub proof fn lemma_quiet_openings_restore_the_focus<E>(
    open: Open<Seq<char>, E>,
    events: Seq<Event<Seq<char>, E>>,
    pane_id: Seq<char>,
)
    requires
        !open.focus_new,
        open_after(open, events).pending() == OpenAction::Call(Request::PaneFocus { pane_id }),
    ensures
        pane_id == open.origin,
{
    lemma_openings_keep_their_order(open, events);
}

/// An opening that takes the focus asks for it for the new pane only.
pub proof fn lemma_loud_openings_focus_the_new_pane<E>(
    open: Open<Seq<char>, E>,
    events: Seq<Event<Seq<char>, E>>,
    pane_id: Seq<char>,
)
    requires
        open.focus_new,
        open_after(open, events).pending() == OpenAction::Call(Request::PaneFocus { pane_id }),
    ensures
        pane_id == open_after(open, events).pane,
{
    lemma_openings_keep_their_order(open, events);
}

/// The last thing an opening does is to give the focus, unless no pane could be
/// split off in the first place.
pub proof fn lemma_openings_end_with_the_focus<E>(open: Open<Seq<char>, E>, event: Event<Seq<char>, E>)
    requires
        !(open.stage is Finished),
        open.next(event).stage is Finished,
    ensures
        open.pending() == OpenAction::Call(
            Request::PaneFocus {
                pane_id: if open.focus_new {
                    open.pane
                } else {
                    open.origin
                },
            },
        ) || (open.stage is Spawn && event is Missing),
{
}

/// Without a focused pane in the scope nothing is opened.
pub proof fn lemma_nothing_opens_without_a_focused_pane<E>(
    platform: Platform<Seq<char>>,
    focus_new: bool,
    view: SidebarView,
    initial: Option<Target>,
    state: State,
    focused: Seq<char>,
)
    requires
        cut(focused, '\t') is None,
    ensures
        open_start::<E>(platform, focus_new, view, initial, state, focused).pending() == OpenAction::<
            Seq<char>,
        >::Finish,
{
}

/// A pane whose sidebar cannot be reported is closed before the opening fails,
/// whatever comes of closing it. It fails for the reason of the report, not for
/// that of the closing.
pub proof fn lemma_unreported_panes_are_closed<E>(
    open: Open<Seq<char>, E>,
    reply: Seq<char>,
    error: E,
    other: E,
)
    requires
        open.stage is Identity,
    ensures
        open.next(Event::Failed(error)).pending() == OpenAction::Call(
            Request::PaneClose { pane_id: open.pane },
        ),
        open.next(Event::Failed(error)).next(Event::Failed(other)).pending() == OpenAction::<
            Seq<char>,
        >::Fail,
        open.next(Event::Failed(error)).next(Event::Failed(other)).outcome() == Err::<(), E>(error),
        open.next(Event::Failed(error)).next(Event::Text(reply)).pending() == OpenAction::<
            Seq<char>,
        >::Fail,
        open.next(Event::Failed(error)).next(Event::Text(reply)).outcome() == Err::<(), E>(error),
{
}

/// A request that fails ends the opening, and its reason is what the opening
/// comes to; the same holds of a process that cannot be started. An opening whose
/// new pane is being given up has its reason already.
pub proof fn lemma_failures_end_the_opening<E>(
    open: Open<Seq<char>, E>,
    error: E,
    events: Seq<Event<Seq<char>, E>>,
)
    requires
        open.pending() is Call || open.pending() is OpenPane || open.pending() is SplitPane,
        !(open.stage is Abandon),
    ensures
        open_after(open.next(Event::Failed(error)), events).pending() == OpenAction::<
            Seq<char>,
        >::Fail,
        open_after(open.next(Event::Failed(error)), events).outcome() == Err::<(), E>(error),
{
    lemma_failed_stays_failed(open.next(Event::Failed(error)), events);
}

proof fn lemma_failed_stays_failed<E>(open: Open<Seq<char>, E>, events: Seq<Event<Seq<char>, E>>)
    requires
        open.stage is Failed,
    ensures
        open_after(open, events) == open,
    decreases events.len(),
{
    if events.len() > 0 {
        lemma_failed_stays_failed(open, events.drop_last());
    }
}

/// No opening makes up a reason: the one that it comes to is that of the answer
/// that ended it, or, where a new pane had to be given up, that of the report.
pub proof fn lemma_openings_fail_for_what_they_are_told<E>(
    open: Open<Seq<char>, E>,
    event: Event<Seq<char>, E>,
    error: E,
)
    requires
        open.outcome() is Ok,
        open.next(event).outcome() == Err::<(), E>(error),
    ensures
        open.stage == (OpenStage::<Seq<char>, E>::Abandon { error }) || (!(open.stage is Abandon)
            && event == Event::<Seq<char>, E>::Failed(error)),
{
}

/// An opening comes to a failure if and only if it says that it failed.
pub proof fn lemma_failed_openings_say_so<E>(open: Open<Seq<char>, E>)
    ensures
        open.pending() is Fail <==> open.outcome() is Err,
{
}

/// A pane changes sides right after it is there, if the plan says so, and not
/// otherwise.
pub proof fn lemma_swaps_follow_the_plan<E>(open: Open<Seq<char>, E>)
    ensures
        open.needs_swap ==> open.spawned().pending() == OpenAction::Call(
            Request::PaneSwap { source: open.pane, target: open.target },
        ),
        !open.needs_swap ==> !(open.spawned().stage is Swap),
{
}

/// How many answers an opening still waits for at most.
pub open spec fn answers_left<E>(open: Open<Seq<char>, E>) -> nat {
    match open.stage {
        OpenStage::Layout => 10,
        OpenStage::Plan { .. } => 9,
        OpenStage::Spawn => 8,
        OpenStage::Identity => 7,
        OpenStage::Abandon { .. } => 1,
        OpenStage::Swap => 6,
        OpenStage::Resize => 5,
        OpenStage::Command => 5,
        OpenStage::Label => 4,
        OpenStage::Repair => 3,
        OpenStage::Focus => 2,
        OpenStage::Finished => 0,
        OpenStage::Failed { .. } => 0,
    }
}

/// Every opening ends: each answer that changes it leaves it fewer to wait for,
/// and one that waits for none is over.
pub proof fn lemma_openings_end<E>(open: Open<Seq<char>, E>, event: Event<Seq<char>, E>)
    ensures
        open.next(event) == open || answers_left(open.next(event)) < answers_left(open),
        answers_left(open) == 0 <==> open.pending() is Finish || open.pending() is Fail,
{
}

/// No opening gets stuck: while it waits for answers, some answer takes it
/// further.
pub proof fn lemma_openings_can_go_on<E>(open: Open<Seq<char>, E>)
    requires
        answers_left(open) > 0,
    ensures
        exists|event: Event<Seq<char>, E>|
            answers_left(#[trigger] open.next(event)) < answers_left(open),
{
    let event = match open.stage {
        OpenStage::Identity => Event::Done,
        OpenStage::Resize => Event::Done,
        OpenStage::Repair => Event::Done,
        _ => Event::Text(Seq::<char>::empty()),
    };
    assert(answers_left(open.next(event)) < answers_left(open));
}

/// An opening starts from the focused pane and its directory, with everything that
/// was asked for. It asks for the layout around that pane and has the split planned
/// for that layout, on the side and with the columns that the state gives.
pub proof fn lemma_openings_plan_from_the_focused_pane<E>(
    platform: Platform<Seq<char>>,
    focus_new: bool,
    view: SidebarView,
    initial: Option<Target>,
    state: State,
    origin: Seq<char>,
    cwd: Seq<char>,
    layout: Seq<char>,
)
    requires
        !origin.contains('\t'),
    ensures
        ({
            let open = open_start::<E>(
                platform,
                focus_new,
                view,
                initial,
                state,
                origin + seq!['\t'] + cwd,
            );
            let listed = open.next(Event::Text(layout));
            &&& open.platform == platform
            &&& open.focus_new == focus_new
            &&& open.view == view
            &&& open.initial == initial
            &&& open.state == state
            &&& open.origin == origin
            &&& open.cwd == cwd
            &&& open.pending() == OpenAction::Call(Request::PaneLayout { pane_id: origin })
            &&& listed.pending() == (OpenAction::PlanLayout {
                layout,
                dock_right: state.dock_right,
                sidebar_width: state.sidebar_width,
            })
            &&& same_order(listed, open)
        }),
{
    lemma_cuts_are_at_the_first_mark(origin + seq!['\t'] + cwd, '\t', origin, cwd);
}

/// A plan is a pane, a share and a word, parted by tabs. The pane is split, or the
/// focused one where it is empty; the share is kept as it is; the word says whether
/// the new pane changes sides.
pub proof fn lemma_plans_are_followed<E>(
    open: Open<Seq<char>, E>,
    target: Seq<char>,
    share: Seq<char>,
    word: Seq<char>,
)
    requires
        open.stage is Plan,
        !target.contains('\t'),
        !share.contains('\t'),
        !word.contains('\t'),
    ensures
        ({
            let plan = target + seq!['\t'] + (share + seq!['\t'] + word);
            let planned = open.next(Event::Text(plan));
            &&& planned.stage is Spawn
            &&& same_order(planned, open)
            &&& target.len() > 0 ==> planned.target == target
            &&& target.len() == 0 ==> planned.target == open.origin
            &&& planned.ratio == Some(share)
            &&& word == "true"@ ==> planned.needs_swap
            &&& word == "false"@ ==> !planned.needs_swap
            &&& word != "true"@ && word != "false"@ ==> planned.needs_swap
                == !open.state.dock_right
        }),
{
    let rest = share + seq!['\t'] + word;
    lemma_fields_are_parted_by_marks(target, rest, '\t', 0);
    lemma_fields_are_parted_by_marks(target, rest, '\t', 1);
    lemma_fields_are_parted_by_marks(share, word, '\t', 0);
    lemma_fields_are_parted_by_marks(word, word, '\t', 0);
    lemma_truth_is_spelt_in_one_way(word);
}

/// What a plan leaves out is made up for: without a word, the new pane changes
/// sides unless the sidebar stands to the right, where a split puts it anyway;
/// without a share, none is known; without a pane, the focused one is split.
pub proof fn lemma_plans_may_be_short<E>(
    open: Open<Seq<char>, E>,
    target: Seq<char>,
    share: Seq<char>,
)
    requires
        open.stage is Plan,
        !target.contains('\t'),
        !share.contains('\t'),
    ensures
        ({
            let bare = open.next(Event::Text(target));
            let shared = open.next(Event::Text(target + seq!['\t'] + share));
            &&& bare.stage is Spawn && shared.stage is Spawn
            &&& same_order(bare, open) && same_order(shared, open)
            &&& target.len() > 0 ==> bare.target == target && shared.target == target
            &&& target.len() == 0 ==> bare.target == open.origin && shared.target == open.origin
            &&& bare.ratio is None
            &&& shared.ratio == Some(share)
            &&& bare.needs_swap == !open.state.dock_right
            &&& shared.needs_swap == !open.state.dock_right
        }),
{
    lemma_fields_are_parted_by_marks(target, share, '\t', 0);
    lemma_fields_are_parted_by_marks(target, share, '\t', 1);
    lemma_fields_are_parted_by_marks(share, share, '\t', 0);
}

/// Only the first three fields of a plan count: what follows them, behind another
/// tab, changes nothing.
pub proof fn lemma_plans_have_three_fields<E>(
    open: Open<Seq<char>, E>,
    target: Seq<char>,
    share: Seq<char>,
    word: Seq<char>,
    more: Seq<char>,
)
    requires
        open.stage is Plan,
        !target.contains('\t'),
        !share.contains('\t'),
        !word.contains('\t'),
    ensures
        ({
            let tab = seq!['\t'];
            open.next(Event::Text(target + tab + (share + tab + (word + tab + more))))
                == open.next(Event::Text(target + tab + (share + tab + word)))
        }),
{
    let tab = seq!['\t'];
    let long = word + tab + more;
    lemma_fields_are_parted_by_marks(target, share + tab + long, '\t', 0);
    lemma_fields_are_parted_by_marks(target, share + tab + long, '\t', 1);
    lemma_fields_are_parted_by_marks(share, long, '\t', 0);
    lemma_fields_are_parted_by_marks(word, more, '\t', 0);
    lemma_fields_are_parted_by_marks(target, share + tab + word, '\t', 0);
    lemma_fields_are_parted_by_marks(target, share + tab + word, '\t', 1);
    lemma_fields_are_parted_by_marks(share, word, '\t', 0);
    lemma_fields_are_parted_by_marks(word, word, '\t', 0);
}

/// Whatever came before, the process is started with what was asked for at the
/// start: the view, the directory and the initial target, beside the planned pane.
/// It shows both views if and only if it is the Explorer and the views are merged.
/// Where the host starts the process, it is told all that; where a pane is split
/// off instead, the split is told the share, and the directory unless it is empty.
pub proof fn lemma_processes_start_as_asked_for<E>(
    open: Open<Seq<char>, E>,
    events: Seq<Event<Seq<char>, E>>,
)
    requires
        open_after(open, events).stage is Spawn,
    ensures
        ({
            let now = open_after(open, events);
            &&& open.platform is Unix ==> now.pending() == (OpenAction::OpenPane {
                target: now.target,
                view: open.view,
                cwd: open.cwd,
                merged: open.view == SidebarView::Explorer && open.state.merged,
                initial: open.initial,
            })
            &&& open.platform is Windows ==> now.pending() == (OpenAction::SplitPane {
                request: Request::PaneSplit {
                    target: now.target,
                    cwd: if open.cwd.len() == 0 {
                        None
                    } else {
                        Some(open.cwd)
                    },
                },
                ratio: now.ratio,
                fallback: if open.state.dock_right {
                    75
                } else {
                    25
                },
                initial: open.initial,
            })
        }),
{
    lemma_openings_keep_their_order(open, events);
}

/// Where the host starts the process, the new pane is swapped with the pane that was
/// split if the plan says so, resized by its inner edge to the planned share or to
/// the usual one, and grown to the full height. Then the focus is given, to the new
/// pane or back to the one that had it, and the opening is over.
pub proof fn lemma_started_panes_are_put_in_place<E>(
    open: Open<Seq<char>, E>,
    pane: Seq<char>,
    reply: Seq<char>,
)
    requires
        open.stage is Spawn,
        open.platform is Unix,
    ensures
        ({
            let started = open.next(Event::Text(pane));
            let placed = if open.needs_swap {
                started.next(Event::Text(reply))
            } else {
                started
            };
            let sized = placed.next(Event::Done);
            let grown = sized.next(Event::Done);
            &&& started.pane == pane
            &&& open.needs_swap ==> started.pending() == OpenAction::Call(
                Request::PaneSwap { source: pane, target: open.target },
            )
            &&& placed.pending() == (OpenAction::Resize {
                request: Request::PaneResize {
                    pane_id: pane,
                    direction: if open.state.dock_right {
                        "right"@
                    } else {
                        "left"@
                    },
                },
                ratio: open.ratio,
                fallback: if open.state.dock_right {
                    75
                } else {
                    25
                },
            })
            &&& sized.pending() == (OpenAction::Repair {
                pane_id: pane,
                dock_right: open.state.dock_right,
            })
            &&& grown.pending() == OpenAction::Call(
                Request::PaneFocus {
                    pane_id: if open.focus_new {
                        pane
                    } else {
                        open.origin
                    },
                },
            )
            &&& grown.next(Event::Text(reply)).pending() is Finish
        }),
{
}

/// Where a pane is split off, its sidebar is reported as starting. The pane is
/// swapped if the plan says so, the command is typed into it with a final Enter, and
/// it is labelled and grown to the full height. The command names the view unless it
/// is the Explorer. Then the focus is given, and the opening is over.
pub proof fn lemma_split_panes_are_typed_into<E>(
    open: Open<Seq<char>, E>,
    executable: Seq<char>,
    view_flag: Seq<char>,
    label: Seq<char>,
    pane: Seq<char>,
    reply: Seq<char>,
)
    requires
        open.stage is Spawn,
        open.platform == (Platform::Windows { executable, view_flag, label }),
    ensures
        ({
            let split = open.next(Event::Text(pane));
            let reported = split.next(Event::Done);
            let placed = if open.needs_swap {
                reported.next(Event::Text(reply))
            } else {
                reported
            };
            let typed = placed.next(Event::Text(reply));
            let labelled = typed.next(Event::Text(reply));
            let grown = labelled.next(Event::Done);
            &&& split.pending() == (OpenAction::ReportStarting {
                pane_id: pane,
                view: open.view,
                merged: open.view == SidebarView::Explorer && open.state.merged,
            })
            &&& open.needs_swap ==> reported.pending() == OpenAction::Call(
                Request::PaneSwap { source: pane, target: open.target },
            )
            &&& placed.pending() == OpenAction::Call(
                Request::PaneSendInput {
                    pane_id: pane,
                    text: if open.view == SidebarView::Explorer {
                        executable
                    } else {
                        executable + " --view "@ + view_flag
                    },
                    key: "Enter"@,
                },
            )
            &&& typed.pending() == OpenAction::Call(Request::PaneRename { pane_id: pane, label })
            &&& labelled.pending() == (OpenAction::Repair {
                pane_id: pane,
                dock_right: open.state.dock_right,
            })
            &&& grown.pending() == OpenAction::Call(
                Request::PaneFocus {
                    pane_id: if open.focus_new {
                        pane
                    } else {
                        open.origin
                    },
                },
            )
            &&& grown.next(Event::Text(reply)).pending() is Finish
            &&& open.next(Event::Missing).pending() is Finish
        }),
{
}

/// Only an answer to what it asks for takes an opening further. Where the host starts
/// the process, there is no pane missing without a failure.
pub proof fn lemma_openings_wait_for_their_answer<E>(
    open: Open<Seq<char>, E>,
    event: Event<Seq<char>, E>,
)
    ensures
        open.next(event) != open ==> match open.pending() {
            OpenAction::Call(_) => event is Text || event is Failed,
            OpenAction::PlanLayout { .. } => event is Text,
            OpenAction::OpenPane { .. } => event is Text || event is Failed,
            OpenAction::SplitPane { .. } => event is Text || event is Missing || event is Failed,
            OpenAction::ReportStarting { .. } => event is Done || event is Failed,
            OpenAction::Resize { .. } => event is Done,
            OpenAction::Repair { .. } => event is Done,
            OpenAction::Finish | OpenAction::Fail => false,
        },
{
}

/// The command of a sidebar is its executable, with the view asked for behind it
/// unless that is the Explorer: two views are told apart by it.
pub proof fn lemma_commands_tell_the_views_apart(executable: Seq<char>, view_flag: Seq<char>)
    ensures
        command_line(executable, SidebarView::Explorer, view_flag) == executable,
        command_line(executable, SidebarView::SourceControl, view_flag) == executable + " --view "@
            + view_flag,
        command_line(executable, SidebarView::Explorer, view_flag) != command_line(
            executable,
            SidebarView::SourceControl,
            view_flag,
        ),
{
    reveal_strlit(" --view ");
    assert(" --view "@.len() == 8);
    assert((executable + " --view "@ + view_flag).len() >= executable.len() + 8);
}

/// The environment of a new process names the initial target, if there is one, and
/// keeps everything else that it holds. Without a target, or without an object to
/// name it in, it stays as it is.
pub proof fn lemma_environments_name_the_target(
    env: JsonView,
    names: Map<Seq<char>, JsonView>,
    variable: Seq<char>,
    other: Seq<char>,
    target: Target,
)
    requires
        other != variable,
    ensures
        env_with(env, variable, None) == env,
        !(env is Object) ==> env_with(env, variable, Some(target)) == env,
        ({
            let named = env_with(JsonView::Object(names), variable, Some(target));
            &&& named is Object
            &&& named->Object_0.contains_key(variable)
            &&& named->Object_0[variable] == JsonView::Text(
                match target {
                    Target::Explorer => "explorer"@,
                    Target::Search => "search"@,
                    Target::SourceControl => "source-control"@,
                    Target::QuickOpen => "quick-open"@,
                },
            )
            &&& named->Object_0.contains_key(other) <==> names.contains_key(other)
            &&& names.contains_key(other) ==> named->Object_0[other] == names[other]
        }),
{
}

} // verus!

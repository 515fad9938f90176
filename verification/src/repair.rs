//! Growing a sidebar into a column of the full height.
//!
//! Where the edge of a tab was split already, a new sidebar gets only the top
//! slot. Each round moves the pane below it under the pane beside it, by way of
//! a tab of its own, since the host ignores moves within a tab.
//!
//! It is an effort, not a duty: the first thing that cannot be done ends it, and
//! the layout stays as it is. Where that is the move back, the pane is already
//! out, so the move is asked for again in place of further rounds. If the host
//! refuses to the last, the pane remains in the tab of its own. Why something
//! could not be done makes no difference.

use vstd::prelude::*;

use crate::event::Event;
use crate::request::Request;

verus! {

/// The most rounds that a repair takes.
pub const ROUNDS: u64 = 4;

/// Something that a repair asks its surroundings to do. `S` is the kind of text.
#[derive(Debug, PartialEq, Eq)]
pub enum RepairAction<S> {
    /// Send a request to the host.
    Call(Request<S>),
    /// Find the next step, given the layout.
    PlanStep { layout: S, pane_id: S, dock_right: bool },
    /// Nothing: the repair is over.
    Finish,
}

/// Where a repair stands.
#[derive(Debug, PartialEq, Eq)]
pub enum RepairStage<S> {
    /// The layout is asked for.
    Layout,
    /// The next step is asked for.
    Step { layout: S },
    /// The pane below is moved out.
    Out { below: S, tab: S, beside: S },
    /// The pane below is moved back.
    Back { below: S, tab: S, beside: S },
    /// The pane below is moved back once more, after the host has refused.
    Again { below: S, tab: S, beside: S },
    /// It is over.
    Finished,
}

/// The repair of a sidebar's height.
#[derive(Debug, PartialEq, Eq)]
pub struct Repair<S> {
    pub pane_id: S,
    pub dock_right: bool,
    /// The rounds that are left, the one under way counted in.
    pub rounds_left: u64,
    pub stage: RepairStage<S>,
}

impl View for RepairAction<String> {
    type V = RepairAction<Seq<char>>;

    open spec fn view(&self) -> RepairAction<Seq<char>> {
        match *self {
            RepairAction::Call(request) => RepairAction::Call(request@),
            RepairAction::PlanStep { layout, pane_id, dock_right } => RepairAction::PlanStep {
                layout: layout@,
                pane_id: pane_id@,
                dock_right,
            },
            RepairAction::Finish => RepairAction::Finish,
        }
    }
}

impl View for RepairStage<String> {
    type V = RepairStage<Seq<char>>;

    open spec fn view(&self) -> RepairStage<Seq<char>> {
        match *self {
            RepairStage::Layout => RepairStage::Layout,
            RepairStage::Step { layout } => RepairStage::Step { layout: layout@ },
            RepairStage::Out { below, tab, beside } => RepairStage::Out {
                below: below@,
                tab: tab@,
                beside: beside@,
            },
            RepairStage::Back { below, tab, beside } => RepairStage::Back {
                below: below@,
                tab: tab@,
                beside: beside@,
            },
            RepairStage::Again { below, tab, beside } => RepairStage::Again {
                below: below@,
                tab: tab@,
                beside: beside@,
            },
            RepairStage::Finished => RepairStage::Finished,
        }
    }
}

impl View for Repair<String> {
    type V = Repair<Seq<char>>;

    open spec fn view(&self) -> Repair<Seq<char>> {
        Repair {
            pane_id: self.pane_id@,
            dock_right: self.dock_right,
            rounds_left: self.rounds_left,
            stage: self.stage@,
        }
    }
}

impl Repair<Seq<char>> {
    /// What the repair asks for.
    pub open spec fn pending(self) -> RepairAction<Seq<char>> {
        match self.stage {
            RepairStage::Layout => RepairAction::Call(
                Request::PaneLayout { pane_id: self.pane_id },
            ),
            RepairStage::Step { layout } => RepairAction::PlanStep {
                layout,
                pane_id: self.pane_id,
                dock_right: self.dock_right,
            },
            RepairStage::Out { below, .. } => RepairAction::Call(
                Request::PaneMoveToNewTab { pane_id: below },
            ),
            RepairStage::Back { below, tab, beside } => RepairAction::Call(
                Request::PaneMoveBelow { pane_id: below, tab_id: tab, beside },
            ),
            RepairStage::Again { below, tab, beside } => RepairAction::Call(
                Request::PaneMoveBelow { pane_id: below, tab_id: tab, beside },
            ),
            RepairStage::Finished => RepairAction::Finish,
        }
    }

    /// The repair, over.
    pub open spec fn over(self) -> Repair<Seq<char>> {
        Repair { stage: RepairStage::Finished, ..self }
    }

    /// The repair with one more round behind it, and `stage` next if there is a
    /// round for it.
    pub open spec fn round_done(self, stage: RepairStage<Seq<char>>) -> Repair<Seq<char>> {
        if self.rounds_left > 1 {
            Repair { rounds_left: (self.rounds_left - 1) as u64, stage, ..self }
        } else {
            Repair { rounds_left: 0, stage: RepairStage::Finished, ..self }
        }
    }

    /// The repair once it is told `event`. An event that does not answer what
    /// the repair asks for changes nothing.
    pub open spec fn next(self, event: Event<Seq<char>, ()>) -> Repair<Seq<char>> {
        match (self.stage, event) {
            (RepairStage::Layout, Event::Text(layout)) => Repair {
                stage: RepairStage::Step { layout },
                ..self
            },
            (RepairStage::Layout, Event::Failed(_)) => self.over(),
            (RepairStage::Step { .. }, Event::Step { below, tab, beside }) => Repair {
                stage: RepairStage::Out { below, tab, beside },
                ..self
            },
            (RepairStage::Step { .. }, Event::Missing) => self.over(),
            (RepairStage::Out { below, tab, beside }, Event::Text(_)) => Repair {
                stage: RepairStage::Back { below, tab, beside },
                ..self
            },
            (RepairStage::Out { .. }, Event::Failed(_)) => self.over(),
            (RepairStage::Back { .. }, Event::Text(_)) => self.round_done(RepairStage::Layout),
            (RepairStage::Back { below, tab, beside }, Event::Failed(_)) => self.round_done(
                RepairStage::Again { below, tab, beside },
            ),
            (RepairStage::Again { .. }, Event::Text(_)) => self.round_done(RepairStage::Finished),
            (RepairStage::Again { .. }, Event::Failed(_)) => self.round_done(self.stage),
            _ => self,
        }
    }
}

/// A repair at its start.
pub open spec fn repair_start(pane_id: Seq<char>, dock_right: bool) -> Repair<Seq<char>> {
    Repair { pane_id, dock_right, rounds_left: ROUNDS, stage: RepairStage::Layout }
}

/// Starts the repair of the sidebar in a pane.
pub fn full_height_repair(pane_id: &str, dock_right: bool) -> (repair: Repair<String>)
    ensures
        repair@ == repair_start(pane_id@, dock_right),
{
    Repair { pane_id: pane_id.to_owned(), dock_right, rounds_left: ROUNDS, stage: RepairStage::Layout }
}

impl Repair<String> {
    /// What the repair asks for.
    pub fn action(&self) -> (action: RepairAction<String>)
        ensures
            action@ == self@.pending(),
    {
        match &self.stage {
            RepairStage::Layout => RepairAction::Call(
                Request::PaneLayout { pane_id: self.pane_id.clone() },
            ),
            RepairStage::Step { layout } => RepairAction::PlanStep {
                layout: layout.clone(),
                pane_id: self.pane_id.clone(),
                dock_right: self.dock_right,
            },
            RepairStage::Out { below, .. } => RepairAction::Call(
                Request::PaneMoveToNewTab { pane_id: below.clone() },
            ),
            RepairStage::Back { below, tab, beside } | RepairStage::Again { below, tab, beside } =>
            RepairAction::Call(
                Request::PaneMoveBelow {
                    pane_id: below.clone(),
                    tab_id: tab.clone(),
                    beside: beside.clone(),
                },
            ),
            RepairStage::Finished => RepairAction::Finish,
        }
    }

    /// The repair, over.
    fn over(self) -> (repair: Self)
        ensures
            repair@ == self@.over(),
    {
        Repair { stage: RepairStage::Finished, ..self }
    }

    /// The repair with one more round behind it, and `stage` next if there is a
    /// round for it.
    fn round_done(self, stage: RepairStage<String>) -> (repair: Self)
        ensures
            repair@ == self@.round_done(stage@),
    {
        if self.rounds_left > 1 {
            Repair { rounds_left: self.rounds_left - 1, stage, ..self }
        } else {
            Repair { rounds_left: 0, stage: RepairStage::Finished, ..self }
        }
    }

    /// The repair once it is told what came of what it asked for. An event that
    /// does not answer that changes nothing.
    pub fn next(self, event: Event<String, ()>) -> (repair: Self)
        ensures
            repair@ == self@.next(event@),
    {
        match (&self.stage, event) {
            (RepairStage::Layout, Event::Text(layout)) => Repair {
                stage: RepairStage::Step { layout },
                ..self
            },
            (RepairStage::Layout, Event::Failed(_)) => self.over(),
            (RepairStage::Step { .. }, Event::Step { below, tab, beside }) => Repair {
                stage: RepairStage::Out { below, tab, beside },
                ..self
            },
            (RepairStage::Step { .. }, Event::Missing) => self.over(),
            (RepairStage::Out { below, tab, beside }, Event::Text(_)) => {
                let stage = RepairStage::Back {
                    below: below.clone(),
                    tab: tab.clone(),
                    beside: beside.clone(),
                };
                Repair { stage, ..self }
            },
            (RepairStage::Out { .. }, Event::Failed(_)) => self.over(),
            (RepairStage::Back { .. }, Event::Text(_)) => self.round_done(RepairStage::Layout),
            (
                RepairStage::Back { below, tab, beside } | RepairStage::Again { below, tab, beside },
                Event::Failed(_),
            ) => {
                let stage = RepairStage::Again {
                    below: below.clone(),
                    tab: tab.clone(),
                    beside: beside.clone(),
                };
                self.round_done(stage)
            },
            (RepairStage::Again { .. }, Event::Text(_)) => self.round_done(RepairStage::Finished),
            _ => self,
        }
    }
}

/// The repair once it has been told all of `events`, one after the other.
pub open spec fn repair_after(
    repair: Repair<Seq<char>>,
    events: Seq<Event<Seq<char>, ()>>,
) -> Repair<Seq<char>>
    decreases events.len(),
{
    if events.len() == 0 {
        repair
    } else {
        repair_after(repair, events.drop_last()).next(events.last())
    }
}

/// How many answers a repair still waits for at most.
pub open spec fn answers_left(repair: Repair<Seq<char>>) -> int {
    match repair.stage {
        RepairStage::Layout => 4 * repair.rounds_left + 4,
        RepairStage::Step { .. } => 4 * repair.rounds_left + 3,
        RepairStage::Out { .. } => 4 * repair.rounds_left + 2,
        RepairStage::Back { .. } => 4 * repair.rounds_left + 1,
        RepairStage::Again { .. } => 4 * repair.rounds_left + 1,
        RepairStage::Finished => 0,
    }
}

/// Every repair ends: each answer that changes it leaves it fewer to wait for,
/// and one that waits for none is over.
pub proof fn lemma_repairs_end(repair: Repair<Seq<char>>, event: Event<Seq<char>, ()>)
    ensures
        repair.next(event) == repair || 0 <= answers_left(repair.next(event)) < answers_left(
            repair,
        ),
        answers_left(repair) == 0 <==> repair.pending() is Finish,
{
}

/// No repair gets stuck: while it waits for answers, some answer takes it
/// further.
pub proof fn lemma_repairs_can_go_on(repair: Repair<Seq<char>>)
    requires
        answers_left(repair) > 0,
    ensures
        exists|event: Event<Seq<char>, ()>|
            answers_left(#[trigger] repair.next(event)) < answers_left(repair),
{
    let event = if repair.stage is Step {
        Event::Missing
    } else {
        Event::Text(Seq::<char>::empty())
    };
    assert(answers_left(repair.next(event)) < answers_left(repair));
}

/// How often the host has answered so far whether it moves a pane back.
pub open spec fn rounds_done(repair: Repair<Seq<char>>, events: Seq<Event<Seq<char>, ()>>) -> nat
    decreases events.len(),
{
    if events.len() == 0 {
        0
    } else {
        let before = repair_after(repair, events.drop_last());
        let done = rounds_done(repair, events.drop_last());
        if (before.stage is Back || before.stage is Again) && before.next(events.last()) != before {
            done + 1
        } else {
            done
        }
    }
}

/// A repair takes four rounds at most: no more often is a pane moved back.
pub proof fn lemma_repairs_take_few_rounds(
    pane_id: Seq<char>,
    dock_right: bool,
    events: Seq<Event<Seq<char>, ()>>,
)
    ensures
        rounds_done(repair_start(pane_id, dock_right), events) <= ROUNDS,
{
    lemma_rounds_add_up(pane_id, dock_right, events);
}

proof fn lemma_rounds_add_up(
    pane_id: Seq<char>,
    dock_right: bool,
    events: Seq<Event<Seq<char>, ()>>,
)
    ensures
        ({
            let repair = repair_after(repair_start(pane_id, dock_right), events);
            let done = rounds_done(repair_start(pane_id, dock_right), events);
            &&& done + repair.rounds_left == ROUNDS
            &&& repair.rounds_left > 0 || repair.stage is Finished
        }),
    decreases events.len(),
{
    if events.len() > 0 {
        lemma_rounds_add_up(pane_id, dock_right, events.drop_last());
    }
}

/// Before a pane is out, whatever cannot be done ends the repair.
pub proof fn lemma_misses_end_the_repair(repair: Repair<Seq<char>>)
    ensures
        repair.stage is Layout ==> repair.next(Event::Failed(())).pending() is Finish,
        repair.stage is Step ==> repair.next(Event::Missing).pending() is Finish,
        repair.stage is Out ==> repair.next(Event::Failed(())).pending() is Finish,
{
}

/// Where the host refuses to move a pane back, the same move is asked for again
/// while rounds are left.
pub proof fn lemma_refused_moves_are_asked_for_again(repair: Repair<Seq<char>>)
    requires
        repair.stage is Back || repair.stage is Again,
    ensures
        repair.rounds_left > 1 ==> repair.next(Event::Failed(())).pending() == repair.pending(),
        repair.rounds_left <= 1 ==> repair.next(Event::Failed(())).pending() is Finish,
{
}

/// Once the host has refused to move a pane back, no other pane is touched: all
/// that is ever asked for is that move.
pub proof fn lemma_refusals_end_the_rounds(
    repair: Repair<Seq<char>>,
    events: Seq<Event<Seq<char>, ()>>,
)
    requires
        repair.stage is Again,
    ensures
        repair_after(repair, events).pending() == repair.pending() || repair_after(
            repair,
            events,
        ).pending() is Finish,
{
    lemma_late_repairs_keep_their_pane(repair, events);
}

proof fn lemma_late_repairs_keep_their_pane(
    repair: Repair<Seq<char>>,
    events: Seq<Event<Seq<char>, ()>>,
)
    requires
        repair.stage is Again,
    ensures
        ({
            let stage = repair_after(repair, events).stage;
            stage == repair.stage || stage is Finished
        }),
    decreases events.len(),
{
    if events.len() > 0 {
        lemma_late_repairs_keep_their_pane(repair, events.drop_last());
    }
}

/// A repair moves the same pane out and back: out into a tab of its own, and
/// back below the pane beside the sidebar, in the tab it came from.
pub proof fn lemma_moved_panes_come_back(
    repair: Repair<Seq<char>>,
    below: Seq<char>,
    tab: Seq<char>,
    beside: Seq<char>,
    reply: Seq<char>,
)
    requires
        repair.stage is Step,
    ensures
        repair.next(Event::Step { below, tab, beside }).pending() == RepairAction::Call(
            Request::PaneMoveToNewTab { pane_id: below },
        ),
        repair.next(Event::Step { below, tab, beside }).next(Event::Text(reply)).pending()
            == RepairAction::Call(Request::PaneMoveBelow { pane_id: below, tab_id: tab, beside }),
{
}

/// A repair has four rounds to begin with, and begins by asking for the layout
/// around the sidebar.
pub proof fn lemma_repairs_have_four_rounds(pane_id: Seq<char>, dock_right: bool)
    ensures
        repair_start(pane_id, dock_right).rounds_left == 4,
        repair_start(pane_id, dock_right).pane_id == pane_id,
        repair_start(pane_id, dock_right).dock_right == dock_right,
        repair_start(pane_id, dock_right).pending() == RepairAction::Call(
            Request::PaneLayout { pane_id },
        ),
{
}

/// A round that goes well asks for the layout around the sidebar, has the next step
/// planned for that layout, moves the pane below out, and moves it back below the
/// pane beside the sidebar, in the tab that it came from. Then the next round begins
/// the same way, for the same sidebar, as long as there is one.
pub proof fn lemma_a_round_in_full(
    repair: Repair<Seq<char>>,
    layout: Seq<char>,
    below: Seq<char>,
    tab: Seq<char>,
    beside: Seq<char>,
    reply: Seq<char>,
)
    requires
        repair.stage is Layout,
    ensures
        ({
            let listed = repair.next(Event::Text(layout));
            let planned = listed.next(Event::Step { below, tab, beside });
            let out = planned.next(Event::Text(reply));
            let back = out.next(Event::Text(reply));
            &&& repair.pending() == RepairAction::Call(
                Request::PaneLayout { pane_id: repair.pane_id },
            )
            &&& listed.pending() == (RepairAction::PlanStep {
                layout,
                pane_id: repair.pane_id,
                dock_right: repair.dock_right,
            })
            &&& planned.pending() == RepairAction::Call(
                Request::PaneMoveToNewTab { pane_id: below },
            )
            &&& out.pending() == RepairAction::Call(
                Request::PaneMoveBelow { pane_id: below, tab_id: tab, beside },
            )
            &&& repair.rounds_left > 1 ==> back == (Repair {
                rounds_left: (repair.rounds_left - 1) as u64,
                ..repair
            })
            &&& repair.rounds_left <= 1 ==> back.pending() is Finish
        }),
{
}

/// A pane that comes back after a refusal is the last one to be moved.
pub proof fn lemma_a_late_return_ends_the_repair(repair: Repair<Seq<char>>, reply: Seq<char>)
    requires
        repair.stage is Again,
    ensures
        repair.next(Event::Text(reply)).pending() is Finish,
{
}

/// Only an answer to what it asks for takes a repair further: a reply or a failure
/// where it sends a request, a step or none where it has one planned.
pub proof fn lemma_repairs_wait_for_their_answer(
    repair: Repair<Seq<char>>,
    event: Event<Seq<char>, ()>,
)
    ensures
        repair.next(event) != repair ==> match repair.pending() {
            RepairAction::Call(_) => event is Text || event is Failed,
            RepairAction::PlanStep { .. } => event is Step || event is Missing,
            RepairAction::Finish => false,
        },
{
}

} // verus!

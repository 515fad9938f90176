//! The views of the sidebar, the activities a user can ask for, and the state
//! that they change.

use vstd::prelude::*;

use crate::text::same_text;

verus! {

/// The two views that a sidebar pane can show.
#[derive(Clone, Copy, Debug, PartialEq, Eq, Structural)]
pub enum SidebarView {
    Explorer,
    SourceControl,
}

/// An activity that a host keybinding opens or focuses.
#[derive(Clone, Copy, Debug, PartialEq, Eq, Structural)]
pub enum Target {
    Explorer,
    Search,
    SourceControl,
    QuickOpen,
}

/// Why the launcher was invoked.
#[derive(Clone, Copy, Debug, PartialEq, Eq, Structural)]
pub enum Mode {
    /// A focus or create hook quietly ensures that the Explorer exists.
    Ensure,
    /// An explicit user action toggles the requested view.
    Toggle(SidebarView),
    /// An explicit host keybinding opens or focuses an activity.
    Activate(Target),
}

/// What is remembered between invocations, as far as the launcher reads or
/// writes it.
#[derive(Clone, Copy, Debug, PartialEq, Eq, Structural)]
pub struct State {
    /// One pane shows both views.
    pub merged: bool,
    /// Hooks may open the Explorer.
    pub auto_open: bool,
    /// A toggle closes an open sidebar even when it does not have the focus.
    pub strict_toggle: bool,
    /// A toggle that opens a sidebar also focuses it.
    pub focus_on_open: bool,
    /// The sidebar stands at the right edge.
    pub dock_right: bool,
    /// The columns that the sidebar is to have.
    pub sidebar_width: u16,
    /// The view that the sidebar shows.
    pub active: SidebarView,
    /// The Explorer shows its search.
    pub search_active: bool,
}

impl Target {
    /// The name of a target in the environment of a pane.
    pub open spec fn env_name(self) -> Seq<char> {
        match self {
            Target::Explorer => "explorer"@,
            Target::Search => "search"@,
            Target::SourceControl => "source-control"@,
            Target::QuickOpen => "quick-open"@,
        }
    }

    /// The key that brings a running sidebar to a target.
    pub open spec fn key_name(self) -> Seq<char> {
        match self {
            Target::Explorer => "f9"@,
            Target::Search => "f10"@,
            Target::SourceControl => "f11"@,
            Target::QuickOpen => "f12"@,
        }
    }

    /// The view of the pane that a target lives in.
    pub open spec fn home(self, merged: bool) -> SidebarView {
        if self == Target::SourceControl && !merged {
            SidebarView::SourceControl
        } else {
            SidebarView::Explorer
        }
    }

    /// The view that a target shows.
    pub open spec fn shown(self) -> SidebarView {
        if self == Target::SourceControl {
            SidebarView::SourceControl
        } else {
            SidebarView::Explorer
        }
    }

    /// The target with the given name in the environment.
    pub open spec fn named(value: Seq<char>) -> Option<Target> {
        if value == "explorer"@ {
            Some(Target::Explorer)
        } else if value == "search"@ {
            Some(Target::Search)
        } else if value == "source-control"@ {
            Some(Target::SourceControl)
        } else if value == "quick-open"@ {
            Some(Target::QuickOpen)
        } else {
            None
        }
    }

    /// Reads a target by its name in the environment.
    pub fn from_env_value(value: &str) -> (target: Option<Self>)
        ensures
            target == Target::named(value@),
    {
        if same_text(value, "explorer") {
            Some(Target::Explorer)
        } else if same_text(value, "search") {
            Some(Target::Search)
        } else if same_text(value, "source-control") {
            Some(Target::SourceControl)
        } else if same_text(value, "quick-open") {
            Some(Target::QuickOpen)
        } else {
            None
        }
    }

    /// The name of the target in the environment of a pane.
    pub fn env_value(self) -> (value: &'static str)
        ensures
            value@ == self.env_name(),
    {
        match self {
            Target::Explorer => "explorer",
            Target::Search => "search",
            Target::SourceControl => "source-control",
            Target::QuickOpen => "quick-open",
        }
    }

    /// The view of the pane that the target lives in: Source Control has a pane
    /// of its own unless the views are merged.
    pub fn pane_view(self, merged: bool) -> (view: SidebarView)
        ensures
            view == self.home(merged),
    {
        match self {
            Target::SourceControl => if merged {
                SidebarView::Explorer
            } else {
                SidebarView::SourceControl
            },
            _ => SidebarView::Explorer,
        }
    }

    /// The view that the target shows first.
    pub fn initial_view(self) -> (view: SidebarView)
        ensures
            view == self.shown(),
    {
        match self {
            Target::SourceControl => SidebarView::SourceControl,
            _ => SidebarView::Explorer,
        }
    }

    /// The key that brings a running sidebar to the target.
    pub fn key(self) -> (key: &'static str)
        ensures
            key@ == self.key_name(),
    {
        match self {
            Target::Explorer => "f9",
            Target::Search => "f10",
            Target::SourceControl => "f11",
            Target::QuickOpen => "f12",
        }
    }
}

impl Mode {
    /// Whether the user asked for this, rather than a hook.
    pub open spec fn explicit(self) -> bool {
        self != Mode::Ensure
    }

    /// Whether this is a toggle.
    pub open spec fn toggles(self) -> bool {
        self is Toggle
    }

    /// The view of the pane that this is about.
    pub open spec fn pane(self, merged: bool) -> SidebarView {
        match self {
            Mode::Ensure => SidebarView::Explorer,
            Mode::Toggle(view) => view,
            Mode::Activate(target) => target.home(merged),
        }
    }

    /// The view whose pane is looked for.
    pub open spec fn wanted(self) -> SidebarView {
        match self {
            Mode::Ensure => SidebarView::Explorer,
            Mode::Toggle(view) => view,
            Mode::Activate(target) => target.shown(),
        }
    }

    /// Whether the user asked for this, rather than a hook.
    pub fn is_explicit(self) -> (explicit: bool)
        ensures
            explicit == self.explicit(),
    {
        match self {
            Mode::Ensure => false,
            _ => true,
        }
    }

    /// Whether this is a toggle.
    pub fn is_toggle(self) -> (toggle: bool)
        ensures
            toggle == self.toggles(),
    {
        match self {
            Mode::Toggle(_) => true,
            _ => false,
        }
    }

    /// The view of the pane that this is about.
    pub fn pane_view(self, merged: bool) -> (view: SidebarView)
        ensures
            view == self.pane(merged),
    {
        match self {
            Mode::Ensure => SidebarView::Explorer,
            Mode::Toggle(view) => view,
            Mode::Activate(target) => target.pane_view(merged),
        }
    }

    /// The view whose pane is looked for.
    pub fn wanted_view(self) -> (view: SidebarView)
        ensures
            view == self.wanted(),
    {
        match self {
            Mode::Ensure => SidebarView::Explorer,
            Mode::Toggle(view) => view,
            Mode::Activate(target) => target.initial_view(),
        }
    }
}

/// The state once `target` has been asked for.
pub open spec fn prepared(state: State, target: Target) -> State {
    State { active: target.shown(), search_active: target == Target::Search, ..state }
}

/// Notes in the state that `target` has been asked for: the view that it shows,
/// and whether that is the search. Nothing else changes.
pub fn prepare_activation(state: &mut State, target: Target)
    ensures
        *final(state) == prepared(*old(state), target),
{
    match target {
        Target::Explorer | Target::QuickOpen => {
            state.active = SidebarView::Explorer;
            state.search_active = false;
        },
        Target::Search => {
            state.active = SidebarView::Explorer;
            state.search_active = true;
        },
        Target::SourceControl => {
            state.active = SidebarView::SourceControl;
            state.search_active = false;
        },
    }
}

/// A target is read back from its name in the environment, and from no other
/// text.
pub proof fn lemma_env_round_trip(value: Seq<char>, target: Target)
    ensures
        Target::named(value) == Some(target) <==> value == target.env_name(),
{
    reveal_strlit("explorer");
    reveal_strlit("search");
    reveal_strlit("source-control");
    reveal_strlit("quick-open");
    assert("explorer"@.len() == 8);
    assert("search"@.len() == 6);
    assert("source-control"@.len() == 14);
    assert("quick-open"@.len() == 10);
}

/// No two targets share a key.
pub proof fn lemma_keys_differ()
    ensures
        forall|a: Target, b: Target|
            #[trigger] a.key_name() == #[trigger] b.key_name() ==> a == b,
{
    reveal_strlit("f9");
    reveal_strlit("f10");
    reveal_strlit("f11");
    reveal_strlit("f12");
    assert("f9"@.len() == 2);
    assert("f10"@.len() == 3);
    assert("f10"@[2] == '0');
    assert("f11"@[2] == '1');
    assert("f12"@[2] == '2');
    assert("f11"@.len() == 3);
    assert("f12"@.len() == 3);
}

/// With merged views every activity lives in the Explorer's pane; without, only
/// Source Control lives elsewhere, in the pane of the view it shows.
pub proof fn lemma_unified_pane(target: Target)
    ensures
        target.home(true) == SidebarView::Explorer,
        target.home(false) == target.shown(),
{
}

/// Only the last activity asked for shows in the state.
pub proof fn lemma_last_activation_counts(state: State, first: Target, second: Target)
    ensures
        prepared(prepared(state, first), second) == prepared(state, second),
{
}

/// Source Control alone shows the view of its own, and it alone lives in a pane
/// of its own, unless the views are merged.
pub proof fn lemma_only_source_control_stands_apart(target: Target, merged: bool)
    ensures
        target.shown() == SidebarView::SourceControl <==> target == Target::SourceControl,
        target.home(merged) == SidebarView::SourceControl <==> target == Target::SourceControl
            && !merged,
{
}

/// A hook is about the Explorer. A toggle is about the view that is toggled,
/// merged or not. An activation is about the pane that its target lives in, and
/// looks for the pane of the view that its target shows.
pub proof fn lemma_modes_are_about_what_they_name(view: SidebarView, target: Target, merged: bool)
    ensures
        !Mode::Ensure.explicit(),
        Mode::Ensure.pane(merged) == SidebarView::Explorer,
        Mode::Ensure.wanted() == SidebarView::Explorer,
        Mode::Toggle(view).explicit(),
        Mode::Toggle(view).pane(merged) == view,
        Mode::Toggle(view).wanted() == view,
        Mode::Activate(target).explicit(),
        Mode::Activate(target).pane(merged) == SidebarView::SourceControl <==> target
            == Target::SourceControl && !merged,
        Mode::Activate(target).wanted() == SidebarView::SourceControl <==> target
            == Target::SourceControl,
        Mode::Toggle(view).toggles(),
        !Mode::Activate(target).toggles(),
        !Mode::Ensure.toggles(),
{
}

/// An activity that has been asked for shows in the state: Source Control as the
/// view, the search as the search. No setting of the user changes.
pub proof fn lemma_activations_change_only_what_shows(state: State, target: Target)
    ensures
        prepared(state, target).active == SidebarView::SourceControl <==> target
            == Target::SourceControl,
        prepared(state, target).search_active <==> target == Target::Search,
        prepared(state, target).merged == state.merged,
        prepared(state, target).auto_open == state.auto_open,
        prepared(state, target).strict_toggle == state.strict_toggle,
        prepared(state, target).focus_on_open == state.focus_on_open,
        prepared(state, target).dock_right == state.dock_right,
        prepared(state, target).sidebar_width == state.sidebar_width,
{
}

} // verus!

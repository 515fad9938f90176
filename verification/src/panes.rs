//! What the host tells about its panes, its tabs and the event at hand.

use vstd::prelude::*;

use crate::json::{
    document, items_of, json_view, json_views, member, opt_json, read_document, read_member, read_text,
    read_true, text_of, JsonView,
};
use crate::text::{
    holds, lemma_replacing_changes_one_character, opt_text, replace_char, replaced, same_text,
};

verus! {

/// A pane, as far as the launcher reads it. `S` is the kind of text: `String`
/// in a program, a sequence of characters in a contract.
#[derive(Debug, PartialEq, Eq)]
pub struct PaneInfo<S> {
    pub pane_id: Option<S>,
    pub tab_id: Option<S>,
    pub workspace_id: Option<S>,
    pub focused: bool,
    pub foreground_cwd: Option<S>,
    pub cwd: Option<S>,
}

/// A tab, as far as the launcher reads it.
#[derive(Debug, PartialEq, Eq)]
pub struct TabInfo<S> {
    pub tab_id: Option<S>,
    pub label: Option<S>,
}

impl View for PaneInfo<String> {
    type V = PaneInfo<Seq<char>>;

    open spec fn view(&self) -> PaneInfo<Seq<char>> {
        PaneInfo {
            pane_id: opt_text(self.pane_id),
            tab_id: opt_text(self.tab_id),
            workspace_id: opt_text(self.workspace_id),
            focused: self.focused,
            foreground_cwd: opt_text(self.foreground_cwd),
            cwd: opt_text(self.cwd),
        }
    }
}

impl View for TabInfo<String> {
    type V = TabInfo<Seq<char>>;

    open spec fn view(&self) -> TabInfo<Seq<char>> {
        TabInfo { tab_id: opt_text(self.tab_id), label: opt_text(self.label) }
    }
}

/// Several panes, by their views.
pub open spec fn pane_views(panes: Seq<PaneInfo<String>>) -> Seq<PaneInfo<Seq<char>>> {
    panes.map_values(|pane: PaneInfo<String>| pane@)
}

/// Several tabs, by their views.
pub open spec fn tab_views(tabs: Seq<TabInfo<String>>) -> Seq<TabInfo<Seq<char>>> {
    tabs.map_values(|tab: TabInfo<String>| tab@)
}

/// The pane that a value describes.
pub open spec fn pane_in(value: JsonView) -> PaneInfo<Seq<char>> {
    PaneInfo {
        pane_id: text_of(member(value, "pane_id"@)),
        tab_id: text_of(member(value, "tab_id"@)),
        workspace_id: text_of(member(value, "workspace_id"@)),
        focused: member(value, "focused"@) == JsonView::Bool(true),
        foreground_cwd: text_of(member(value, "foreground_cwd"@)),
        cwd: text_of(member(value, "cwd"@)),
    }
}

/// The tab that a value describes.
pub open spec fn tab_in(value: JsonView) -> TabInfo<Seq<char>> {
    TabInfo { tab_id: text_of(member(value, "tab_id"@)), label: text_of(member(value, "label"@)) }
}

/// The panes that a reply to a listing of panes describes.
pub open spec fn panes_in(reply: JsonView) -> Seq<PaneInfo<Seq<char>>> {
    items_of(member(member(reply, "result"@), "panes"@)).map_values(|value: JsonView| pane_in(value))
}

/// The tabs that a reply to a listing of tabs describes.
pub open spec fn tabs_in(reply: JsonView) -> Seq<TabInfo<Seq<char>>> {
    items_of(member(member(reply, "result"@), "tabs"@)).map_values(|value: JsonView| tab_in(value))
}

/// The first item that `wanted` holds of.
pub open spec fn first_where<A>(items: Seq<A>, wanted: spec_fn(A) -> bool) -> Option<A>
    decreases items.len(),
{
    if items.len() == 0 {
        None
    } else if wanted(items[0]) {
        Some(items[0])
    } else {
        first_where(items.drop_first(), wanted)
    }
}

/// Reads the pane that a value describes.
fn read_pane(value: &serde_json::Value) -> (pane: PaneInfo<String>)
    ensures
        pane@ == pane_in(json_view(*value)),
{
    PaneInfo {
        pane_id: read_text(read_member(Some(value), "pane_id")),
        tab_id: read_text(read_member(Some(value), "tab_id")),
        workspace_id: read_text(read_member(Some(value), "workspace_id")),
        focused: read_true(read_member(Some(value), "focused")),
        foreground_cwd: read_text(read_member(Some(value), "foreground_cwd")),
        cwd: read_text(read_member(Some(value), "cwd")),
    }
}

/// Reads the tab that a value describes.
fn read_tab(value: &serde_json::Value) -> (tab: TabInfo<String>)
    ensures
        tab@ == tab_in(json_view(*value)),
{
    TabInfo {
        tab_id: read_text(read_member(Some(value), "tab_id")),
        label: read_text(read_member(Some(value), "label")),
    }
}

/// Reads the panes out of a reply to a listing of panes.
pub fn read_panes(reply: &str) -> (panes: Vec<PaneInfo<String>>)
    ensures
        pane_views(panes@) == panes_in(document(reply@)),
{
    let mut panes: Vec<PaneInfo<String>> = Vec::new();
    let read = read_document(reply);
    let root = read.as_ref();
    let listed = read_member(read_member(root, "result"), "panes");
    let ghost expected = panes_in(document(reply@));
    assert(opt_json(root) == document(reply@));
    if let Some(listed) = listed {
        if let Some(items) = listed.as_array() {
            let count: usize = items.len();
            let mut at: usize = 0;
            while at < count
                invariant
                    count == items@.len(),
                    at <= count,
                    expected == json_views(items@).map_values(|value: JsonView| pane_in(value)),
                    pane_views(panes@) == expected.take(at as int),
                decreases count - at,
            {
                let ghost before = panes@;
                panes.push(read_pane(&items[at]));
                proof {
                    assert(pane_views(panes@) =~= pane_views(before).push(panes@.last()@));
                    assert(expected.take(at + 1) =~= expected.take(at as int).push(
                        expected[at as int],
                    ));
                }
                at = at + 1;
            }
        }
    }
    assert(pane_views(panes@) =~= expected);
    panes
}

/// Reads the tabs out of a reply to a listing of tabs.
pub fn read_tabs(reply: &str) -> (tabs: Vec<TabInfo<String>>)
    ensures
        tab_views(tabs@) == tabs_in(document(reply@)),
{
    let mut tabs: Vec<TabInfo<String>> = Vec::new();
    let read = read_document(reply);
    let root = read.as_ref();
    let listed = read_member(read_member(root, "result"), "tabs");
    let ghost expected = tabs_in(document(reply@));
    assert(opt_json(root) == document(reply@));
    if let Some(listed) = listed {
        if let Some(items) = listed.as_array() {
            let count: usize = items.len();
            let mut at: usize = 0;
            while at < count
                invariant
                    count == items@.len(),
                    at <= count,
                    expected == json_views(items@).map_values(|value: JsonView| tab_in(value)),
                    tab_views(tabs@) == expected.take(at as int),
                decreases count - at,
            {
                let ghost before = tabs@;
                tabs.push(read_tab(&items[at]));
                proof {
                    assert(tab_views(tabs@) =~= tab_views(before).push(tabs@.last()@));
                    assert(expected.take(at + 1) =~= expected.take(at as int).push(
                        expected[at as int],
                    ));
                }
                at = at + 1;
            }
        }
    }
    assert(tab_views(tabs@) =~= expected);
    tabs
}

proof fn lemma_first_where<A>(items: Seq<A>, wanted: spec_fn(A) -> bool, at: int)
    requires
        0 <= at < items.len(),
        wanted(items[at]),
        forall|i: int| 0 <= i < at ==> !wanted(#[trigger] items[i]),
    ensures
        first_where(items, wanted) == Some(items[at]),
    decreases items.len(),
{
    if at > 0 {
        assert(!wanted(items[0]));
        let rest = items.drop_first();
        assert forall|i: int| 0 <= i < at - 1 implies !wanted(#[trigger] rest[i]) by {
            assert(rest[i] == items[i + 1]);
        }
        lemma_first_where(rest, wanted, at - 1);
    }
}

proof fn lemma_none_where<A>(items: Seq<A>, wanted: spec_fn(A) -> bool)
    requires
        forall|i: int| 0 <= i < items.len() ==> !wanted(#[trigger] items[i]),
    ensures
        first_where(items, wanted) is None,
    decreases items.len(),
{
    if items.len() > 0 {
        assert(!wanted(items[0]));
        let rest = items.drop_first();
        assert forall|i: int| 0 <= i < rest.len() implies !wanted(#[trigger] rest[i]) by {
            assert(rest[i] == items[i + 1]);
        }
        lemma_none_where(rest, wanted);
    }
}

/// What is asked of the pane with a given id.
pub open spec fn has_id(id: Seq<char>) -> spec_fn(PaneInfo<Seq<char>>) -> bool {
    |pane: PaneInfo<Seq<char>>| pane.pane_id == Some(id)
}

/// What is asked of the pane that has the focus.
pub open spec fn has_focus() -> spec_fn(PaneInfo<Seq<char>>) -> bool {
    |pane: PaneInfo<Seq<char>>| pane.focused
}

/// What is asked of the tab with a given label.
pub open spec fn has_label(label: Seq<char>) -> spec_fn(TabInfo<Seq<char>>) -> bool {
    |tab: TabInfo<Seq<char>>| tab.label == Some(label)
}

/// Whether an optional text is there and is `text`.
fn is_text(value: &Option<String>, text: &str) -> (same: bool)
    ensures
        same == (opt_text(*value) == Some(text@)),
{
    match value {
        Some(value) => same_text(value.as_str(), text),
        None => false,
    }
}

/// The first pane with the given id.
pub fn pane_with_id<'a>(panes: &'a Vec<PaneInfo<String>>, id: &str) -> (found: Option<
    &'a PaneInfo<String>,
>)
    ensures
        first_where(pane_views(panes@), has_id(id@)) == match found {
            Some(pane) => Some(pane@),
            None => None,
        },
{
    let count: usize = panes.len();
    let ghost views = pane_views(panes@);
    let mut at: usize = 0;
    while at < count
        invariant
            count == panes@.len(),
            at <= count,
            views == pane_views(panes@),
            forall|i: int| 0 <= i < at ==> !has_id(id@)(#[trigger] views[i]),
        decreases count - at,
    {
        let pane = &panes[at];
        assert(views[at as int] == pane@);
        if is_text(&pane.pane_id, id) {
            proof {
                lemma_first_where(views, has_id(id@), at as int);
            }
            return Some(pane);
        }
        at = at + 1;
    }
    proof {
        lemma_none_where(views, has_id(id@));
    }
    None
}

/// The first pane that has the focus.
pub fn focused_pane<'a>(panes: &'a Vec<PaneInfo<String>>) -> (found: Option<&'a PaneInfo<String>>)
    ensures
        first_where(pane_views(panes@), has_focus()) == match found {
            Some(pane) => Some(pane@),
            None => None,
        },
{
    let count: usize = panes.len();
    let ghost views = pane_views(panes@);
    let mut at: usize = 0;
    while at < count
        invariant
            count == panes@.len(),
            at <= count,
            views == pane_views(panes@),
            forall|i: int| 0 <= i < at ==> !has_focus()(#[trigger] views[i]),
        decreases count - at,
    {
        let pane = &panes[at];
        assert(views[at as int] == pane@);
        if pane.focused {
            proof {
                lemma_first_where(views, has_focus(), at as int);
            }
            return Some(pane);
        }
        at = at + 1;
    }
    proof {
        lemma_none_where(views, has_focus());
    }
    None
}

/// The first tab with the given label.
pub fn tab_with_label<'a>(tabs: &'a Vec<TabInfo<String>>, label: &str) -> (found: Option<
    &'a TabInfo<String>,
>)
    ensures
        first_where(tab_views(tabs@), has_label(label@)) == match found {
            Some(tab) => Some(tab@),
            None => None,
        },
{
    let count: usize = tabs.len();
    let ghost views = tab_views(tabs@);
    let mut at: usize = 0;
    while at < count
        invariant
            count == tabs@.len(),
            at <= count,
            views == tab_views(tabs@),
            forall|i: int| 0 <= i < at ==> !has_label(label@)(#[trigger] views[i]),
        decreases count - at,
    {
        let tab = &tabs[at];
        assert(views[at as int] == tab@);
        if is_text(&tab.label, label) {
            proof {
                lemma_first_where(views, has_label(label@), at as int);
            }
            return Some(tab);
        }
        at = at + 1;
    }
    proof {
        lemma_none_where(views, has_label(label@));
    }
    None
}

/// The tab of the pane that has the focus; empty where there is none.
pub open spec fn focused_tab_in(panes: Seq<PaneInfo<Seq<char>>>) -> Seq<char> {
    match first_where(panes, has_focus()) {
        Some(pane) => match pane.tab_id {
            Some(tab) => tab,
            None => Seq::empty(),
        },
        None => Seq::empty(),
    }
}

/// The tab of the pane that has the focus; empty where there is none.
pub fn tab_in_focus(panes: &Vec<PaneInfo<String>>) -> (tab: String)
    ensures
        tab@ == focused_tab_in(pane_views(panes@)),
{
    match focused_pane(panes) {
        Some(pane) => match &pane.tab_id {
            Some(tab) => tab.clone(),
            None => String::new(),
        },
        None => String::new(),
    }
}

/// The tab of the pane that has the focus, out of a reply to a listing of
/// panes; empty where there is none.
pub fn focused_tab(panes_json: &str) -> (tab: String)
    ensures
        tab@ == focused_tab_in(panes_in(document(panes_json@))),
{
    let panes = read_panes(panes_json);
    tab_in_focus(&panes)
}

/// The kind of the event that a value describes, with underscores for dots;
/// empty where it names none.
pub open spec fn event_kind_in(event: JsonView) -> Seq<char> {
    match text_of(member(event, "event"@)) {
        Some(kind) => replaced(kind, '.', '_'),
        None => Seq::empty(),
    }
}

/// The kind of the event that `event_json` describes, with underscores for
/// dots; empty where it names none.
pub fn event_kind(event_json: &str) -> (kind: String)
    ensures
        kind@ == event_kind_in(document(event_json@)),
{
    let read = read_document(event_json);
    match read_text(read_member(read.as_ref(), "event")) {
        Some(kind) => replace_char(kind.as_str(), '.', '_'),
        None => String::new(),
    }
}

/// The pane that an invocation's context names as focused.
pub open spec fn context_pane_in(context: JsonView) -> Option<Seq<char>> {
    text_of(member(context, "focused_pane_id"@))
}

/// The pane that the invocation's context names as focused.
pub fn context_pane(context_json: &str) -> (pane: Option<String>)
    ensures
        opt_text(pane) == context_pane_in(document(context_json@)),
{
    let read = read_document(context_json);
    read_text(read_member(read.as_ref(), "focused_pane_id"))
}

/// Whether a run waits for the lock: the user's own actions do, and so does the
/// hook on a new tab, which comes once. Every other hook comes again.
pub open spec fn waits(explicit: bool, kind: Seq<char>) -> bool {
    explicit || kind == "tab_created"@
}

/// Whether a run on an event of the given kind waits for the lock.
pub fn kind_waits(explicit: bool, kind: &str) -> (wait: bool)
    ensures
        wait == waits(explicit, kind@),
{
    explicit || same_text(kind, "tab_created")
}

/// Whether a run on the given event waits for the lock.
pub fn must_wait_for_lock(explicit: bool, event_json: &str) -> (wait: bool)
    ensures
        wait == waits(explicit, event_kind_in(document(event_json@))),
{
    let kind: String = event_kind(event_json);
    kind_waits(explicit, kind.as_str())
}

/// The tab whose snooze counts: the tab that the scope names, or the focused
/// one where there is no scope. A scope that names a whole workspace has none.
pub open spec fn snooze_tab_of(scope: Seq<char>, focused: Seq<char>) -> Seq<char> {
    if scope.contains(':') {
        scope
    } else if scope.len() == 0 {
        focused
    } else {
        Seq::empty()
    }
}

/// The tab whose snooze counts, given the focused tab.
pub fn snooze_tab(scope: &str, focused: &str) -> (tab: String)
    ensures
        tab@ == snooze_tab_of(scope@, focused@),
{
    if holds(scope, ':') {
        scope.to_owned()
    } else if scope.is_empty() {
        focused.to_owned()
    } else {
        String::new()
    }
}

/// The tab whose snooze counts for a run in the given scope.
pub fn snooze_tab_for_scope(panes_json: &str, scope: &str) -> (tab: String)
    ensures
        tab@ == snooze_tab_of(scope@, focused_tab_in(panes_in(document(panes_json@)))),
{
    let focused: String = focused_tab(panes_json);
    snooze_tab(scope, focused.as_str())
}

/// A run about a tab or a workspace does not depend on which tab happens to
/// have the focus.
pub proof fn lemma_scoped_runs_ignore_the_focus(
    scope: Seq<char>,
    one: Seq<char>,
    another: Seq<char>,
)
    requires
        scope.len() > 0,
    ensures
        snooze_tab_of(scope, one) == snooze_tab_of(scope, another),
{
}

/// What is found is the first item that is asked for, and something is found if
/// and only if there is such an item.
pub proof fn lemma_the_first_one_is_found<A>(items: Seq<A>, wanted: spec_fn(A) -> bool, at: int)
    requires
        0 <= at < items.len(),
    ensures
        wanted(items[at]) && (forall|i: int| 0 <= i < at ==> !wanted(#[trigger] items[i]))
            ==> first_where(items, wanted) == Some(items[at]),
        (forall|i: int| 0 <= i < items.len() ==> !wanted(#[trigger] items[i])) ==> first_where(
            items,
            wanted,
        ) is None,
{
    if wanted(items[at]) && forall|i: int| 0 <= i < at ==> !wanted(#[trigger] items[i]) {
        lemma_first_where(items, wanted, at);
    }
    if forall|i: int| 0 <= i < items.len() ==> !wanted(#[trigger] items[i]) {
        lemma_none_where(items, wanted);
    }
}

/// The panes of a reply are the objects in its list, all of them and in order, and
/// each is described by its own members. What is not of the kind that is looked for
/// counts as missing; only `true` is the focus.
pub proof fn lemma_panes_are_read_one_by_one(
    reply: Map<Seq<char>, JsonView>,
    result: Map<Seq<char>, JsonView>,
    items: Seq<JsonView>,
    at: int,
    pane: Map<Seq<char>, JsonView>,
    text: Seq<char>,
)
    requires
        reply.contains_key("result"@),
        reply["result"@] == JsonView::Object(result),
        result.contains_key("panes"@),
        result["panes"@] == JsonView::Array(items),
        0 <= at < items.len(),
        items[at] == JsonView::Object(pane),
    ensures
        ({
            let panes = panes_in(JsonView::Object(reply));
            let has = |name: Seq<char>| pane.contains_key(name) && pane[name] == JsonView::Text(text);
            &&& panes.len() == items.len()
            &&& panes[at].pane_id == Some(text) <==> has("pane_id"@)
            &&& panes[at].tab_id == Some(text) <==> has("tab_id"@)
            &&& panes[at].workspace_id == Some(text) <==> has("workspace_id"@)
            &&& panes[at].foreground_cwd == Some(text) <==> has("foreground_cwd"@)
            &&& panes[at].cwd == Some(text) <==> has("cwd"@)
            &&& panes[at].focused <==> pane.contains_key("focused"@) && pane["focused"@]
                == JsonView::Bool(true)
        }),
{
}

/// The tabs of a reply are the objects in its list, all of them and in order, and
/// each is described by its own members.
pub proof fn lemma_tabs_are_read_one_by_one(
    reply: Map<Seq<char>, JsonView>,
    result: Map<Seq<char>, JsonView>,
    items: Seq<JsonView>,
    at: int,
    tab: Map<Seq<char>, JsonView>,
    text: Seq<char>,
)
    requires
        reply.contains_key("result"@),
        reply["result"@] == JsonView::Object(result),
        result.contains_key("tabs"@),
        result["tabs"@] == JsonView::Array(items),
        0 <= at < items.len(),
        items[at] == JsonView::Object(tab),
    ensures
        ({
            let tabs = tabs_in(JsonView::Object(reply));
            let has = |name: Seq<char>| tab.contains_key(name) && tab[name] == JsonView::Text(text);
            &&& tabs.len() == items.len()
            &&& tabs[at].tab_id == Some(text) <==> has("tab_id"@)
            &&& tabs[at].label == Some(text) <==> has("label"@)
        }),
{
}

/// A reply without a list describes no panes and no tabs.
pub proof fn lemma_no_list_lists_nothing(reply: JsonView)
    ensures
        !(member(member(reply, "result"@), "panes"@) is Array) ==> panes_in(reply).len() == 0,
        !(member(member(reply, "result"@), "tabs"@) is Array) ==> tabs_in(reply).len() == 0,
{
}

/// The tab in focus is the tab of the first pane that has the focus. There is none
/// where no pane has it, or where that pane names no tab.
pub proof fn lemma_the_tab_in_focus_is_that_of_its_pane(
    panes: Seq<PaneInfo<Seq<char>>>,
    at: int,
)
    requires
        0 <= at < panes.len(),
    ensures
        panes[at].focused && (forall|i: int| 0 <= i < at ==> !(#[trigger] panes[i]).focused)
            ==> focused_tab_in(panes) == match panes[at].tab_id {
            Some(tab) => tab,
            None => Seq::<char>::empty(),
        },
        (forall|i: int| 0 <= i < panes.len() ==> !(#[trigger] panes[i]).focused)
            ==> focused_tab_in(panes) == Seq::<char>::empty(),
{
    if panes[at].focused && forall|i: int| 0 <= i < at ==> !(#[trigger] panes[i]).focused {
        lemma_first_where(panes, has_focus(), at);
    }
    if forall|i: int| 0 <= i < panes.len() ==> !(#[trigger] panes[i]).focused {
        lemma_none_where(panes, has_focus());
    }
}

/// The kind of an event is the name under which the host describes it, character
/// by character, with underscores for dots; an event without a name has an empty
/// kind.
pub proof fn lemma_event_kinds_are_names_without_dots(
    event: Map<Seq<char>, JsonView>,
    name: Seq<char>,
)
    ensures
        event.contains_key("event"@) && event["event"@] == JsonView::Text(name) ==> {
            let kind = event_kind_in(JsonView::Object(event));
            &&& kind.len() == name.len()
            &&& !kind.contains('.')
            &&& forall|i: int| 0 <= i < name.len() && name[i] == '.' ==> #[trigger] kind[i] == '_'
            &&& forall|i: int| 0 <= i < name.len() && name[i] != '.' ==> #[trigger] kind[i] == name[i]
        },
        !event.contains_key("event"@) || !(event["event"@] is Text) ==> event_kind_in(
            JsonView::Object(event),
        ).len() == 0,
{
    lemma_replacing_changes_one_character(name, '.', '_');
}

/// The context of an invocation names a pane if and only if it holds its id under
/// that name.
pub proof fn lemma_contexts_name_a_pane(context: Map<Seq<char>, JsonView>, pane_id: Seq<char>)
    ensures
        context_pane_in(JsonView::Object(context)) == Some(pane_id) <==> context.contains_key(
            "focused_pane_id"@,
        ) && context["focused_pane_id"@] == JsonView::Text(pane_id),
{
}

/// What the user asks for waits for the lock whatever the event; a hook waits if
/// and only if its event is a new tab.
pub proof fn lemma_only_new_tabs_make_hooks_wait(kind: Seq<char>)
    ensures
        waits(true, kind),
        waits(false, kind) <==> kind == "tab_created"@,
{
}

/// A scope that names a tab is the tab whose snooze counts; without a scope that is
/// the tab in focus; a scope that names a workspace has no such tab.
pub proof fn lemma_snoozes_belong_to_the_tab_at_hand(scope: Seq<char>, focused: Seq<char>)
    ensures
        scope.contains(':') ==> snooze_tab_of(scope, focused) == scope,
        snooze_tab_of(Seq::empty(), focused) == focused,
        scope.len() > 0 && !scope.contains(':') ==> snooze_tab_of(scope, focused).len() == 0,
{
}

/// An item that is no object is still a pane of the list, but one of which nothing
/// is known.
pub proof fn lemma_other_items_say_nothing(reply: JsonView, at: int)
    requires
        0 <= at < panes_in(reply).len(),
        !(items_of(member(member(reply, "result"@), "panes"@))[at] is Object),
    ensures
        panes_in(reply)[at].pane_id is None,
        panes_in(reply)[at].tab_id is None,
        panes_in(reply)[at].workspace_id is None,
        panes_in(reply)[at].foreground_cwd is None,
        panes_in(reply)[at].cwd is None,
        !panes_in(reply)[at].focused,
{
}

} // verus!

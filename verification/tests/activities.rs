use herdr_sidebar::activity::{prepare_activation, Mode, SidebarView, State, Target};
use herdr_sidebar::json::read_document;
use herdr_sidebar::panes::{
    context_pane, event_kind, focused_tab, kind_waits, must_wait_for_lock, pane_with_id, read_panes,
    read_tabs, snooze_tab, snooze_tab_for_scope, tab_in_focus, tab_with_label,
};
use herdr_sidebar::text::{
    holds, parse_truth, replace_char, same_text, split_once, to_decimal, trim_marks,
};

fn state() -> State {
    State {
        merged: false,
        auto_open: true,
        strict_toggle: false,
        focus_on_open: true,
        dock_right: false,
        sidebar_width: 30,
        active: SidebarView::Explorer,
        search_active: false,
    }
}

#[test]
fn workspace_events_do_not_borrow_the_globally_focused_tabs_snooze() {
    let panes = r#"{"result":{"panes":[
            {"pane_id":"w1:p1","tab_id":"w1:t1","focused":true},
            {"pane_id":"w2:p1","tab_id":"w2:t1"}
        ]}}"#;
    assert_eq!(snooze_tab_for_scope(panes, ""), "w1:t1");
    assert_eq!(snooze_tab_for_scope(panes, "w2:t1"), "w2:t1");
    assert_eq!(snooze_tab_for_scope(panes, "w2"), "");
}

#[test]
fn discrete_tab_creation_and_manual_toggles_wait_for_the_lock() {
    assert!(must_wait_for_lock(false, r#"{"event":"tab_created"}"#));
    assert!(must_wait_for_lock(false, r#"{"event":"tab.created"}"#));
    assert!(must_wait_for_lock(true, ""));
    assert!(!must_wait_for_lock(false, r#"{"event":"tab_focused"}"#));
}

#[test]
fn direct_activities_use_the_unified_pane_and_stable_keys() {
    for (target, value, key) in [
        (Target::Explorer, "explorer", "f9"),
        (Target::Search, "search", "f10"),
        (Target::SourceControl, "source-control", "f11"),
        (Target::QuickOpen, "quick-open", "f12"),
    ] {
        assert_eq!(Target::from_env_value(value), Some(target));
        assert_eq!(target.env_value(), value);
        assert_eq!(target.key(), key);
        assert_eq!(target.pane_view(true), SidebarView::Explorer);
    }
    assert_eq!(
        Target::SourceControl.pane_view(false),
        SidebarView::SourceControl
    );
    assert_eq!(
        Target::SourceControl.initial_view(),
        SidebarView::SourceControl
    );
    assert_eq!(Target::from_env_value("unknown"), None);
}

#[test]
fn only_source_control_leaves_the_explorers_pane() {
    for target in [Target::Explorer, Target::Search, Target::QuickOpen] {
        assert_eq!(target.pane_view(false), SidebarView::Explorer);
        assert_eq!(target.initial_view(), SidebarView::Explorer);
    }
    assert_eq!(Target::from_env_value(""), None);
    assert_eq!(Target::from_env_value("Explorer"), None);
}

#[test]
fn modes_know_their_view() {
    assert!(!Mode::Ensure.is_explicit());
    assert!(Mode::Toggle(SidebarView::Explorer).is_toggle());
    assert!(!Mode::Activate(Target::Search).is_toggle());
    let scm = Mode::Activate(Target::SourceControl);
    assert_eq!(scm.pane_view(true), SidebarView::Explorer);
    assert_eq!(scm.pane_view(false), SidebarView::SourceControl);
    assert_eq!(scm.wanted_view(), SidebarView::SourceControl);
    assert_eq!(Mode::Ensure.wanted_view(), SidebarView::Explorer);
    assert_eq!(
        Mode::Toggle(SidebarView::SourceControl).pane_view(true),
        SidebarView::SourceControl
    );
}

#[test]
fn the_last_activation_counts() {
    let mut prepared = state();
    prepare_activation(&mut prepared, Target::Search);
    assert_eq!(prepared.active, SidebarView::Explorer);
    assert!(prepared.search_active);
    prepare_activation(&mut prepared, Target::SourceControl);
    let mut direct = state();
    prepare_activation(&mut direct, Target::SourceControl);
    assert_eq!(prepared, direct);
    assert_eq!(direct.active, SidebarView::SourceControl);
    assert!(!direct.search_active);
    prepare_activation(&mut direct, Target::QuickOpen);
    assert_eq!(direct, state());
}

#[test]
fn panes_are_read_with_what_they_lack() {
    let reply = "\u{feff}\u{feff}{\"result\":{\"panes\":[
        {\"pane_id\":\"p1\",\"focused\":false,\"cwd\":\"/a\"},
        {\"pane_id\":7,\"focused\":\"yes\"},
        {\"pane_id\":\"p3\",\"tab_id\":\"t3\",\"workspace_id\":\"w\",\"focused\":true,
         \"foreground_cwd\":\"/b\"}
    ]}}";
    let panes = read_panes(reply);
    assert_eq!(panes.len(), 3);
    assert_eq!(panes[0].pane_id.as_deref(), Some("p1"));
    assert_eq!(panes[0].cwd.as_deref(), Some("/a"));
    assert_eq!(panes[0].tab_id, None);
    assert_eq!(panes[1].pane_id, None);
    assert!(!panes[1].focused);
    assert_eq!(panes[2].workspace_id.as_deref(), Some("w"));
    assert_eq!(panes[2].foreground_cwd.as_deref(), Some("/b"));
    assert_eq!(tab_in_focus(&panes), "t3");
    assert_eq!(focused_tab(reply), "t3");
    assert!(pane_with_id(&panes, "p9").is_none());
    assert!(pane_with_id(&panes, "p3").unwrap().focused);
}

#[test]
fn anything_but_a_listing_lists_nothing() {
    for reply in ["", "no json", "[]", "{\"result\":{\"panes\":{}}}", "{\"result\":3}"] {
        assert!(read_panes(reply).is_empty());
        assert!(read_tabs(reply).is_empty());
        assert_eq!(focused_tab(reply), "");
    }
}

#[test]
fn the_first_tab_with_a_label_is_found() {
    let tabs = read_tabs(
        r#"{"result":{"tabs":[{"tab_id":"t1","label":"work"},
            {"tab_id":"t2","label":"sidebar"},{"tab_id":"t3","label":"sidebar"}]}}"#,
    );
    assert_eq!(
        tab_with_label(&tabs, "sidebar").unwrap().tab_id.as_deref(),
        Some("t2")
    );
    assert!(tab_with_label(&tabs, "none").is_none());
}

#[test]
fn event_kinds_have_underscores() {
    assert_eq!(event_kind(r#"{"event":"tab.created"}"#), "tab_created");
    assert_eq!(event_kind(r#"{"event":"a.b.c_d"}"#), "a_b_c_d");
    assert_eq!(event_kind(r#"{"event":4}"#), "");
    assert_eq!(event_kind(""), "");
    assert!(kind_waits(false, "tab_created"));
    assert!(!kind_waits(false, "tab.created"));
    assert!(kind_waits(true, "tab_focused"));
}

#[test]
fn contexts_name_the_focused_pane() {
    assert_eq!(
        context_pane(r#"{"focused_pane_id":"p1"}"#).as_deref(),
        Some("p1")
    );
    assert_eq!(context_pane("{}"), None);
    assert_eq!(context_pane("\u{feff}"), None);
}

#[test]
fn scoped_runs_ignore_the_focus() {
    for focused in ["w1:t1", "w2:t2", ""] {
        assert_eq!(snooze_tab("w2:t1", focused), "w2:t1");
        assert_eq!(snooze_tab("w2", focused), "");
        assert_eq!(snooze_tab("", focused), focused);
    }
}

#[test]
fn documents_are_read_behind_byte_order_marks() {
    assert!(read_document("\u{feff}{}").unwrap().is_object());
    assert!(read_document("\u{feff}\u{feff}true").unwrap().as_bool().unwrap());
    assert!(read_document("{").is_none());
}

#[test]
fn texts_are_cut_and_changed() {
    assert_eq!(split_once("a b c", ' '), Some(("a", "b c")));
    assert_eq!(split_once("abc", ' '), None);
    assert_eq!(split_once("é\tü", '\t'), Some(("é", "ü")));
    assert_eq!(split_once("\t", '\t'), Some(("", "")));
    assert_eq!(trim_marks("--a-", '-'), "a-");
    assert_eq!(trim_marks("--", '-'), "");
    assert_eq!(replace_char("a.b", '.', '_'), "a_b");
    assert!(holds("w:t", ':'));
    assert!(!holds("w", ':'));
    assert!(same_text("a", "a"));
    assert!(!same_text("a", "A"));
    assert_eq!(parse_truth("true"), Some(true));
    assert_eq!(parse_truth("false"), Some(false));
    assert_eq!(parse_truth("True"), None);
    assert_eq!(to_decimal(0), "0");
    assert_eq!(to_decimal(1090), "1090");
    assert_eq!(to_decimal(u64::MAX), "18446744073709551615");
}

//! The requests that the launcher sends to the host, and their form on the
//! wire: a method and a JSON object of parameters.

use vstd::prelude::*;

use crate::json::{
    empty_object, from_flag, from_integer, from_items, from_text, json_view, json_views, put, JsonView,
};

verus! {

/// A request to the host. `S` is the kind of text: `String` in a program, a
/// sequence of characters in a contract.
#[derive(Debug, PartialEq, Eq)]
pub enum Request<S> {
    /// List the panes.
    PaneList,
    /// Close a pane.
    PaneClose { pane_id: S },
    /// Give the focus to a pane.
    PaneFocus { pane_id: S },
    /// Type a text and press a key in a pane.
    PaneSendInput { pane_id: S, text: S, key: S },
    /// Describe the layout around a pane.
    PaneLayout { pane_id: S },
    /// Split a pane to the right, in the background. The share of the new pane
    /// and its environment go beside these parameters.
    PaneSplit { target: S, cwd: Option<S> },
    /// Exchange two panes.
    PaneSwap { source: S, target: S },
    /// Move an edge of a pane. The amount goes beside these parameters.
    PaneResize { pane_id: S, direction: S },
    /// Label a pane.
    PaneRename { pane_id: S, label: S },
    /// Move a pane to a tab of its own, in the background.
    PaneMoveToNewTab { pane_id: S },
    /// Move a pane below another one in a tab, in the background.
    PaneMoveBelow { pane_id: S, tab_id: S, beside: S },
    /// List the tabs of a workspace.
    TabList { workspace_id: S },
    /// Label a tab.
    TabRename { tab_id: S, label: S },
    /// Move a tab to a slot.
    TabMove { tab_id: S, insert_index: u64 },
    /// Give the focus to a tab.
    TabFocus { tab_id: S },
}

impl View for Request<String> {
    type V = Request<Seq<char>>;

    open spec fn view(&self) -> Request<Seq<char>> {
        match *self {
            Request::PaneList => Request::PaneList,
            Request::PaneClose { pane_id } => Request::PaneClose { pane_id: pane_id@ },
            Request::PaneFocus { pane_id } => Request::PaneFocus { pane_id: pane_id@ },
            Request::PaneSendInput { pane_id, text, key } => Request::PaneSendInput {
                pane_id: pane_id@,
                text: text@,
                key: key@,
            },
            Request::PaneLayout { pane_id } => Request::PaneLayout { pane_id: pane_id@ },
            Request::PaneSplit { target, cwd } => Request::PaneSplit {
                target: target@,
                cwd: crate::text::opt_text(cwd),
            },
            Request::PaneSwap { source, target } => Request::PaneSwap {
                source: source@,
                target: target@,
            },
            Request::PaneResize { pane_id, direction } => Request::PaneResize {
                pane_id: pane_id@,
                direction: direction@,
            },
            Request::PaneRename { pane_id, label } => Request::PaneRename {
                pane_id: pane_id@,
                label: label@,
            },
            Request::PaneMoveToNewTab { pane_id } => Request::PaneMoveToNewTab { pane_id: pane_id@ },
            Request::PaneMoveBelow { pane_id, tab_id, beside } => Request::PaneMoveBelow {
                pane_id: pane_id@,
                tab_id: tab_id@,
                beside: beside@,
            },
            Request::TabList { workspace_id } => Request::TabList { workspace_id: workspace_id@ },
            Request::TabRename { tab_id, label } => Request::TabRename {
                tab_id: tab_id@,
                label: label@,
            },
            Request::TabMove { tab_id, insert_index } => Request::TabMove {
                tab_id: tab_id@,
                insert_index,
            },
            Request::TabFocus { tab_id } => Request::TabFocus { tab_id: tab_id@ },
        }
    }
}

impl Clone for Request<String> {
    fn clone(&self) -> (copy: Self)
        ensures
            copy@ == self@,
    {
        match self {
            Request::PaneList => Request::PaneList,
            Request::PaneClose { pane_id } => Request::PaneClose { pane_id: pane_id.clone() },
            Request::PaneFocus { pane_id } => Request::PaneFocus { pane_id: pane_id.clone() },
            Request::PaneSendInput { pane_id, text, key } => Request::PaneSendInput {
                pane_id: pane_id.clone(),
                text: text.clone(),
                key: key.clone(),
            },
            Request::PaneLayout { pane_id } => Request::PaneLayout { pane_id: pane_id.clone() },
            Request::PaneSplit { target, cwd } => Request::PaneSplit {
                target: target.clone(),
                cwd: match cwd {
                    Some(cwd) => Some(cwd.clone()),
                    None => None,
                },
            },
            Request::PaneSwap { source, target } => Request::PaneSwap {
                source: source.clone(),
                target: target.clone(),
            },
            Request::PaneResize { pane_id, direction } => Request::PaneResize {
                pane_id: pane_id.clone(),
                direction: direction.clone(),
            },
            Request::PaneRename { pane_id, label } => Request::PaneRename {
                pane_id: pane_id.clone(),
                label: label.clone(),
            },
            Request::PaneMoveToNewTab { pane_id } => Request::PaneMoveToNewTab {
                pane_id: pane_id.clone(),
            },
            Request::PaneMoveBelow { pane_id, tab_id, beside } => Request::PaneMoveBelow {
                pane_id: pane_id.clone(),
                tab_id: tab_id.clone(),
                beside: beside.clone(),
            },
            Request::TabList { workspace_id } => Request::TabList {
                workspace_id: workspace_id.clone(),
            },
            Request::TabRename { tab_id, label } => Request::TabRename {
                tab_id: tab_id.clone(),
                label: label.clone(),
            },
            Request::TabMove { tab_id, insert_index } => Request::TabMove {
                tab_id: tab_id.clone(),
                insert_index: *insert_index,
            },
            Request::TabFocus { tab_id } => Request::TabFocus { tab_id: tab_id.clone() },
        }
    }
}

/// The method of a request.
pub open spec fn method_of(request: Request<Seq<char>>) -> Seq<char> {
    match request {
        Request::PaneList => "pane.list"@,
        Request::PaneClose { .. } => "pane.close"@,
        Request::PaneFocus { .. } => "pane.focus"@,
        Request::PaneSendInput { .. } => "pane.send_input"@,
        Request::PaneLayout { .. } => "pane.layout"@,
        Request::PaneSplit { .. } => "pane.split"@,
        Request::PaneSwap { .. } => "pane.swap"@,
        Request::PaneResize { .. } => "pane.resize"@,
        Request::PaneRename { .. } => "pane.rename"@,
        Request::PaneMoveToNewTab { .. } => "pane.move"@,
        Request::PaneMoveBelow { .. } => "pane.move"@,
        Request::TabList { .. } => "tab.list"@,
        Request::TabRename { .. } => "tab.rename"@,
        Request::TabMove { .. } => "tab.move"@,
        Request::TabFocus { .. } => "tab.focus"@,
    }
}

/// The parameters of a request, by name.
pub open spec fn params_of(request: Request<Seq<char>>) -> Map<Seq<char>, JsonView> {
    match request {
        Request::PaneList => map![],
        Request::PaneClose { pane_id } => map!["pane_id"@ => JsonView::Text(pane_id)],
        Request::PaneFocus { pane_id } => map!["pane_id"@ => JsonView::Text(pane_id)],
        Request::PaneSendInput { pane_id, text, key } => map![
            "pane_id"@ => JsonView::Text(pane_id),
            "text"@ => JsonView::Text(text),
            "keys"@ => JsonView::Array(seq![JsonView::Text(key)]),
        ],
        Request::PaneLayout { pane_id } => map!["pane_id"@ => JsonView::Text(pane_id)],
        Request::PaneSplit { target, cwd } => {
            let always = map![
                "target_pane_id"@ => JsonView::Text(target),
                "direction"@ => JsonView::Text("right"@),
                "focus"@ => JsonView::Bool(false),
            ];
            match cwd {
                Some(cwd) => always.insert("cwd"@, JsonView::Text(cwd)),
                None => always,
            }
        },
        Request::PaneSwap { source, target } => map![
            "source_pane_id"@ => JsonView::Text(source),
            "target_pane_id"@ => JsonView::Text(target),
        ],
        Request::PaneResize { pane_id, direction } => map![
            "pane_id"@ => JsonView::Text(pane_id),
            "direction"@ => JsonView::Text(direction),
        ],
        Request::PaneRename { pane_id, label } => map![
            "pane_id"@ => JsonView::Text(pane_id),
            "label"@ => JsonView::Text(label),
        ],
        Request::PaneMoveToNewTab { pane_id } => map![
            "pane_id"@ => JsonView::Text(pane_id),
            "destination"@ => JsonView::Object(map!["type"@ => JsonView::Text("new_tab"@)]),
            "focus"@ => JsonView::Bool(false),
        ],
        Request::PaneMoveBelow { pane_id, tab_id, beside } => map![
            "pane_id"@ => JsonView::Text(pane_id),
            "destination"@ => JsonView::Object(map![
                "type"@ => JsonView::Text("tab"@),
                "tab_id"@ => JsonView::Text(tab_id),
                "target_pane_id"@ => JsonView::Text(beside),
                "split"@ => JsonView::Text("down"@),
            ]),
            "focus"@ => JsonView::Bool(false),
        ],
        Request::TabList { workspace_id } => map!["workspace_id"@ => JsonView::Text(workspace_id)],
        Request::TabRename { tab_id, label } => map![
            "tab_id"@ => JsonView::Text(tab_id),
            "label"@ => JsonView::Text(label),
        ],
        Request::TabMove { tab_id, insert_index } => map![
            "tab_id"@ => JsonView::Text(tab_id),
            "insert_index"@ => JsonView::Integer(insert_index as int),
        ],
        Request::TabFocus { tab_id } => map!["tab_id"@ => JsonView::Text(tab_id)],
    }
}

impl Request<String> {
    /// The method of the request.
    pub fn method(&self) -> (method: &'static str)
        ensures
            method@ == method_of(self@),
    {
        match self {
            Request::PaneList => "pane.list",
            Request::PaneClose { .. } => "pane.close",
            Request::PaneFocus { .. } => "pane.focus",
            Request::PaneSendInput { .. } => "pane.send_input",
            Request::PaneLayout { .. } => "pane.layout",
            Request::PaneSplit { .. } => "pane.split",
            Request::PaneSwap { .. } => "pane.swap",
            Request::PaneResize { .. } => "pane.resize",
            Request::PaneRename { .. } => "pane.rename",
            Request::PaneMoveToNewTab { .. } => "pane.move",
            Request::PaneMoveBelow { .. } => "pane.move",
            Request::TabList { .. } => "tab.list",
            Request::TabRename { .. } => "tab.rename",
            Request::TabMove { .. } => "tab.move",
            Request::TabFocus { .. } => "tab.focus",
        }
    }

    /// The parameters of the request, as a JSON object.
    pub fn params(&self) -> (params: serde_json::Value)
        ensures
            json_view(params) == JsonView::Object(params_of(self@)),
    {
        let mut params = empty_object();
        match self {
            Request::PaneList => {},
            Request::PaneClose { pane_id } => {
                put(&mut params, "pane_id", from_text(pane_id.as_str()));
            },
            Request::PaneFocus { pane_id } => {
                put(&mut params, "pane_id", from_text(pane_id.as_str()));
            },
            Request::PaneSendInput { pane_id, text, key } => {
                let mut keys: Vec<serde_json::Value> = Vec::new();
                keys.push(from_text(key.as_str()));
                assert(json_views(keys@) =~= seq![JsonView::Text(key@)]);
                put(&mut params, "pane_id", from_text(pane_id.as_str()));
                put(&mut params, "text", from_text(text.as_str()));
                put(&mut params, "keys", from_items(keys));
            },
            Request::PaneLayout { pane_id } => {
                put(&mut params, "pane_id", from_text(pane_id.as_str()));
            },
            Request::PaneSplit { target, cwd } => {
                put(&mut params, "target_pane_id", from_text(target.as_str()));
                put(&mut params, "direction", from_text("right"));
                put(&mut params, "focus", from_flag(false));
                if let Some(cwd) = cwd {
                    put(&mut params, "cwd", from_text(cwd.as_str()));
                }
            },
            Request::PaneSwap { source, target } => {
                put(&mut params, "source_pane_id", from_text(source.as_str()));
                put(&mut params, "target_pane_id", from_text(target.as_str()));
            },
            Request::PaneResize { pane_id, direction } => {
                put(&mut params, "pane_id", from_text(pane_id.as_str()));
                put(&mut params, "direction", from_text(direction.as_str()));
            },
            Request::PaneRename { pane_id, label } => {
                put(&mut params, "pane_id", from_text(pane_id.as_str()));
                put(&mut params, "label", from_text(label.as_str()));
            },
            Request::PaneMoveToNewTab { pane_id } => {
                let mut destination = empty_object();
                put(&mut destination, "type", from_text("new_tab"));
                put(&mut params, "pane_id", from_text(pane_id.as_str()));
                put(&mut params, "destination", destination);
                put(&mut params, "focus", from_flag(false));
            },
            Request::PaneMoveBelow { pane_id, tab_id, beside } => {
                let mut destination = empty_object();
                put(&mut destination, "type", from_text("tab"));
                put(&mut destination, "tab_id", from_text(tab_id.as_str()));
                put(&mut destination, "target_pane_id", from_text(beside.as_str()));
                put(&mut destination, "split", from_text("down"));
                put(&mut params, "pane_id", from_text(pane_id.as_str()));
                put(&mut params, "destination", destination);
                put(&mut params, "focus", from_flag(false));
            },
            Request::TabList { workspace_id } => {
                put(&mut params, "workspace_id", from_text(workspace_id.as_str()));
            },
            Request::TabRename { tab_id, label } => {
                put(&mut params, "tab_id", from_text(tab_id.as_str()));
                put(&mut params, "label", from_text(label.as_str()));
            },
            Request::TabMove { tab_id, insert_index } => {
                put(&mut params, "tab_id", from_text(tab_id.as_str()));
                put(&mut params, "insert_index", from_integer(*insert_index));
            },
            Request::TabFocus { tab_id } => {
                put(&mut params, "tab_id", from_text(tab_id.as_str()));
            },
        }
        params
    }
}

/// The request that gives the focus to a pane.
pub fn focus(pane_id: &str) -> (request: Request<String>)
    ensures
        request@ == (Request::PaneFocus { pane_id: pane_id@ }),
{
    Request::PaneFocus { pane_id: pane_id.to_owned() }
}

/// The request that ends a sidebar. One that is still starting has no event loop
/// and no draft yet, so its pane is closed. A running one is sent the key on
/// which it saves its draft and closes its own pane.
pub open spec fn close_request(starting: bool, pane_id: Seq<char>) -> Request<Seq<char>> {
    if starting {
        Request::PaneClose { pane_id }
    } else {
        Request::PaneSendInput { pane_id, text: Seq::empty(), key: "ctrl+q"@ }
    }
}

/// The request that ends the sidebar in a pane, given whether it is starting.
pub fn request_close(starting: bool, pane_id: &str) -> (request: Request<String>)
    ensures
        request@ == close_request(starting, pane_id@),
{
    if starting {
        Request::PaneClose { pane_id: pane_id.to_owned() }
    } else {
        Request::PaneSendInput {
            pane_id: pane_id.to_owned(),
            text: String::new(),
            key: "ctrl+q".to_owned(),
        }
    }
}

/// No two methods share a name, but for the two ways of moving a pane.
proof fn lemma_methods_differ(one: Request<Seq<char>>, other: Request<Seq<char>>)
    requires
        method_of(one) == method_of(other),
    ensures
        one is PaneList <==> other is PaneList,
        one is PaneClose <==> other is PaneClose,
        one is PaneFocus <==> other is PaneFocus,
        one is PaneSendInput <==> other is PaneSendInput,
        one is PaneLayout <==> other is PaneLayout,
        one is PaneSplit <==> other is PaneSplit,
        one is PaneSwap <==> other is PaneSwap,
        one is PaneResize <==> other is PaneResize,
        one is PaneRename <==> other is PaneRename,
        one is TabList <==> other is TabList,
        one is TabRename <==> other is TabRename,
        one is TabMove <==> other is TabMove,
        one is TabFocus <==> other is TabFocus,
{
    reveal_strlit("pane.list");
    reveal_strlit("pane.close");
    reveal_strlit("pane.focus");
    reveal_strlit("pane.send_input");
    reveal_strlit("pane.layout");
    reveal_strlit("pane.split");
    reveal_strlit("pane.swap");
    reveal_strlit("pane.resize");
    reveal_strlit("pane.rename");
    reveal_strlit("pane.move");
    reveal_strlit("tab.list");
    reveal_strlit("tab.rename");
    reveal_strlit("tab.move");
    reveal_strlit("tab.focus");
    let (a, b) = (method_of(one), method_of(other));
    assert(a.len() == b.len());
    assert(a[0] == b[0]);
    assert(a[4] == b[4]);
    assert(a[5] == b[5]);
    assert(a[7] == b[7]);
}

/// No two parameters share a name.
proof fn lemma_parameters_differ()
    ensures
        "pane_id"@ != "text"@,
        "pane_id"@ != "keys"@,
        "text"@ != "keys"@,
        "target_pane_id"@ != "direction"@,
        "target_pane_id"@ != "focus"@,
        "direction"@ != "focus"@,
        "cwd"@ != "target_pane_id"@,
        "cwd"@ != "direction"@,
        "cwd"@ != "focus"@,
        "source_pane_id"@ != "target_pane_id"@,
        "pane_id"@ != "direction"@,
        "pane_id"@ != "label"@,
        "pane_id"@ != "destination"@,
        "pane_id"@ != "focus"@,
        "destination"@ != "focus"@,
        "type"@ != "tab_id"@,
        "type"@ != "target_pane_id"@,
        "type"@ != "split"@,
        "tab_id"@ != "target_pane_id"@,
        "tab_id"@ != "split"@,
        "target_pane_id"@ != "split"@,
        "tab_id"@ != "label"@,
        "tab_id"@ != "insert_index"@,
        "new_tab"@ != "tab"@,
{
    reveal_strlit("pane_id");
    reveal_strlit("text");
    reveal_strlit("keys");
    reveal_strlit("target_pane_id");
    reveal_strlit("direction");
    reveal_strlit("focus");
    reveal_strlit("cwd");
    reveal_strlit("source_pane_id");
    reveal_strlit("label");
    reveal_strlit("destination");
    reveal_strlit("type");
    reveal_strlit("tab_id");
    reveal_strlit("split");
    reveal_strlit("insert_index");
    reveal_strlit("new_tab");
    reveal_strlit("tab");
    assert("pane_id"@.len() == 7);
    assert("text"@.len() == 4);
    assert("keys"@.len() == 4);
    assert("target_pane_id"@.len() == 14);
    assert("direction"@.len() == 9);
    assert("focus"@.len() == 5);
    assert("cwd"@.len() == 3);
    assert("source_pane_id"@.len() == 14);
    assert("label"@.len() == 5);
    assert("destination"@.len() == 11);
    assert("type"@.len() == 4);
    assert("tab_id"@.len() == 6);
    assert("split"@.len() == 5);
    assert("insert_index"@.len() == 12);
    assert("new_tab"@.len() == 7);
    assert("tab"@.len() == 3);
    assert("text"@[0] == 't' && "keys"@[0] == 'k');
    assert("target_pane_id"@[0] == 't' && "source_pane_id"@[0] == 's');
}

/// The parameters of a request say what it asks for, each under its name, and
/// nothing beside that. Panes are split and moved in the background.
pub proof fn lemma_requests_say_what_they_ask_for(request: Request<Seq<char>>)
    ensures
        ({
            let params = params_of(request);
            match request {
                Request::PaneList => params.dom() == Set::<Seq<char>>::empty(),
                Request::PaneClose { pane_id } => params.dom() == set!["pane_id"@]
                    && params["pane_id"@] == JsonView::Text(pane_id),
                Request::PaneFocus { pane_id } => params.dom() == set!["pane_id"@]
                    && params["pane_id"@] == JsonView::Text(pane_id),
                Request::PaneSendInput { pane_id, text, key } => {
                    &&& params.dom() == set!["pane_id"@, "text"@, "keys"@]
                    &&& params["pane_id"@] == JsonView::Text(pane_id)
                    &&& params["text"@] == JsonView::Text(text)
                    &&& params["keys"@] == JsonView::Array(seq![JsonView::Text(key)])
                },
                Request::PaneLayout { pane_id } => params.dom() == set!["pane_id"@]
                    && params["pane_id"@] == JsonView::Text(pane_id),
                Request::PaneSplit { target, cwd } => {
                    &&& params["target_pane_id"@] == JsonView::Text(target)
                    &&& params["direction"@] == JsonView::Text("right"@)
                    &&& params["focus"@] == JsonView::Bool(false)
                    &&& match cwd {
                        Some(cwd) => params.dom() == set![
                            "target_pane_id"@,
                            "direction"@,
                            "focus"@,
                            "cwd"@,
                        ] && params["cwd"@] == JsonView::Text(cwd),
                        None => params.dom() == set!["target_pane_id"@, "direction"@, "focus"@],
                    }
                },
                Request::PaneSwap { source, target } => {
                    &&& params.dom() == set!["source_pane_id"@, "target_pane_id"@]
                    &&& params["source_pane_id"@] == JsonView::Text(source)
                    &&& params["target_pane_id"@] == JsonView::Text(target)
                },
                Request::PaneResize { pane_id, direction } => {
                    &&& params.dom() == set!["pane_id"@, "direction"@]
                    &&& params["pane_id"@] == JsonView::Text(pane_id)
                    &&& params["direction"@] == JsonView::Text(direction)
                },
                Request::PaneRename { pane_id, label } => {
                    &&& params.dom() == set!["pane_id"@, "label"@]
                    &&& params["pane_id"@] == JsonView::Text(pane_id)
                    &&& params["label"@] == JsonView::Text(label)
                },
                Request::PaneMoveToNewTab { pane_id } => {
                    &&& params.dom() == set!["pane_id"@, "destination"@, "focus"@]
                    &&& params["pane_id"@] == JsonView::Text(pane_id)
                    &&& params["focus"@] == JsonView::Bool(false)
                    &&& params["destination"@] is Object
                    &&& params["destination"@]->Object_0.dom() == set!["type"@]
                    &&& params["destination"@]->Object_0["type"@] == JsonView::Text("new_tab"@)
                },
                Request::PaneMoveBelow { pane_id, tab_id, beside } => {
                    let destination = params["destination"@]->Object_0;
                    &&& params.dom() == set!["pane_id"@, "destination"@, "focus"@]
                    &&& params["pane_id"@] == JsonView::Text(pane_id)
                    &&& params["focus"@] == JsonView::Bool(false)
                    &&& params["destination"@] is Object
                    &&& destination.dom() == set!["type"@, "tab_id"@, "target_pane_id"@, "split"@]
                    &&& destination["type"@] == JsonView::Text("tab"@)
                    &&& destination["tab_id"@] == JsonView::Text(tab_id)
                    &&& destination["target_pane_id"@] == JsonView::Text(beside)
                    &&& destination["split"@] == JsonView::Text("down"@)
                },
                Request::TabList { workspace_id } => params.dom() == set!["workspace_id"@]
                    && params["workspace_id"@] == JsonView::Text(workspace_id),
                Request::TabRename { tab_id, label } => {
                    &&& params.dom() == set!["tab_id"@, "label"@]
                    &&& params["tab_id"@] == JsonView::Text(tab_id)
                    &&& params["label"@] == JsonView::Text(label)
                },
                Request::TabMove { tab_id, insert_index } => {
                    &&& params.dom() == set!["tab_id"@, "insert_index"@]
                    &&& params["tab_id"@] == JsonView::Text(tab_id)
                    &&& params["insert_index"@] == JsonView::Integer(insert_index as int)
                },
                Request::TabFocus { tab_id } => params.dom() == set!["tab_id"@]
                    && params["tab_id"@] == JsonView::Text(tab_id),
            }
        }),
{
    lemma_parameters_differ();
}

/// Nothing is lost on the wire: two requests with the same method and the same
/// parameters are the same request.
pub proof fn lemma_nothing_is_lost_on_the_wire(one: Request<Seq<char>>, other: Request<Seq<char>>)
    requires
        method_of(one) == method_of(other),
        params_of(one) == params_of(other),
    ensures
        one == other,
{
    lemma_methods_differ(one, other);
    lemma_parameters_differ();
    lemma_requests_say_what_they_ask_for(one);
    lemma_requests_say_what_they_ask_for(other);
    match (one, other) {
        (
            Request::PaneSendInput { key: a, .. },
            Request::PaneSendInput { key: b, .. },
        ) => {
            assert(seq![JsonView::Text(a)][0] == seq![JsonView::Text(b)][0]);
        },
        (Request::PaneSplit { cwd: a, .. }, Request::PaneSplit { cwd: b, .. }) => {
            assert(params_of(one).contains_key("cwd"@) <==> a is Some);
            assert(params_of(other).contains_key("cwd"@) <==> b is Some);
        },
        _ => {},
    }
}

/// A sidebar that is still starting is closed with its pane. One that runs is told
/// to close itself: nothing is typed into it but the key on which it saves its
/// draft. Either way the request is about that pane alone.
pub proof fn lemma_running_sidebars_close_themselves(pane_id: Seq<char>)
    ensures
        close_request(true, pane_id) == (Request::PaneClose { pane_id }),
        close_request(false, pane_id) == (Request::PaneSendInput {
            pane_id,
            text: Seq::<char>::empty(),
            key: "ctrl+q"@,
        }),
{
}

/// The method of a request depends on what kind of request it is, and on nothing
/// that it says. Both ways of moving a pane are one method.
pub proof fn lemma_methods_go_by_the_kind(one: Request<Seq<char>>, other: Request<Seq<char>>)
    ensures
        one is PaneList && other is PaneList ==> method_of(one) == method_of(other),
        one is PaneClose && other is PaneClose ==> method_of(one) == method_of(other),
        one is PaneFocus && other is PaneFocus ==> method_of(one) == method_of(other),
        one is PaneSendInput && other is PaneSendInput ==> method_of(one) == method_of(other),
        one is PaneLayout && other is PaneLayout ==> method_of(one) == method_of(other),
        one is PaneSplit && other is PaneSplit ==> method_of(one) == method_of(other),
        one is PaneSwap && other is PaneSwap ==> method_of(one) == method_of(other),
        one is PaneResize && other is PaneResize ==> method_of(one) == method_of(other),
        one is PaneRename && other is PaneRename ==> method_of(one) == method_of(other),
        one is PaneMoveToNewTab && other is PaneMoveToNewTab ==> method_of(one) == method_of(other),
        one is PaneMoveBelow && other is PaneMoveBelow ==> method_of(one) == method_of(other),
        one is TabList && other is TabList ==> method_of(one) == method_of(other),
        one is TabRename && other is TabRename ==> method_of(one) == method_of(other),
        one is TabMove && other is TabMove ==> method_of(one) == method_of(other),
        one is TabFocus && other is TabFocus ==> method_of(one) == method_of(other),
        one is PaneMoveToNewTab && other is PaneMoveBelow ==> method_of(one) == method_of(other),
{
}

} // verus!

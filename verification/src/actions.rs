//! The actions that the panel offers for the system and for plugins.
use vstd::prelude::*;

use crate::text::owned;

verus! {

/// An action: its id, its label, and the API step that performs it.
pub struct ApiAction {
    pub id: String,
    pub label: String,
    pub step: Option<String>,
}

pub open spec fn action_view(a: ApiAction) -> (Seq<char>, Seq<char>, Option<Seq<char>>) {
    (
        a.id@,
        a.label@,
        match a.step {
            Some(s) => Some(s@),
            None => None,
        },
    )
}

pub open spec fn action_views(v: Seq<ApiAction>) -> Seq<(Seq<char>, Seq<char>, Option<Seq<char>>)> {
    v.map_values(|a: ApiAction| action_view(a))
}

impl ApiAction {
    /// An action performed by the given step.
    pub fn get(id: &str, label: &str, step: &str) -> (a: ApiAction)
        ensures
            action_view(a) == (id@, label@, Some(step@)),
    {
        ApiAction { id: owned(id), label: owned(label), step: Some(owned(step)) }
    }
}

pub fn system_actions() -> (v: Vec<ApiAction>)
    ensures
        action_views(v@) == seq![
            ("system_overview"@, "System overview"@, Some("GET /api/system/overview"@)),
            ("check_update"@, "Check for updates"@, Some("GET /api/system/update"@)),
            ("list_plugins"@, "List plugins"@, Some("GET /api/system/plugins"@)),
            ("diagnostics"@, "Run diagnostics"@, Some("GET /health"@)),
        ],
{
    let v = vec![
        ApiAction::get("system_overview", "System overview", "GET /api/system/overview"),
        ApiAction::get("check_update", "Check for updates", "GET /api/system/update"),
        ApiAction::get("list_plugins", "List plugins", "GET /api/system/plugins"),
        ApiAction::get("diagnostics", "Run diagnostics", "GET /health"),
    ];
    assert(action_views(v@) =~= seq![
        ("system_overview"@, "System overview"@, Some("GET /api/system/overview"@)),
        ("check_update"@, "Check for updates"@, Some("GET /api/system/update"@)),
        ("list_plugins"@, "List plugins"@, Some("GET /api/system/plugins"@)),
        ("diagnostics"@, "Run diagnostics"@, Some("GET /health"@)),
    ]);
    v
}

pub fn plugins_actions() -> (v: Vec<ApiAction>)
    ensures
        action_views(v@) == seq![
            ("reload_plugins"@, "Reload plugins"@, Some("POST /api/system/plugins/reload"@)),
            ("plugin_docs"@, "Plugin developer docs"@, Some("GET /docs/plugins"@)),
        ],
{
    let v = vec![
        ApiAction::get("reload_plugins", "Reload plugins", "POST /api/system/plugins/reload"),
        ApiAction::get("plugin_docs", "Plugin developer docs", "GET /docs/plugins"),
    ];
    assert(action_views(v@) =~= seq![
        ("reload_plugins"@, "Reload plugins"@, Some("POST /api/system/plugins/reload"@)),
        ("plugin_docs"@, "Plugin developer docs"@, Some("GET /docs/plugins"@)),
    ]);
    v
}

} // verus!

//! The CloudPanel API surface: its routes, the lifecycle events that its
//! write operations raise, and the arguments that each request becomes.
use vstd::prelude::*;

use crate::cloudpanel::command::{arg_view, arg_views, CliArg};
use crate::text::{chars_of, dec_nat, push_all, push_u64, string_of};

verus! {

/// One route of the CloudPanel bridge and the command it runs.
pub struct RouteSpec {
    pub method: &'static str,
    pub path: &'static str,
    pub command: &'static str,
    pub summary: &'static str,
}

pub open spec fn route_view(r: RouteSpec) -> (Seq<char>, Seq<char>, Seq<char>, Seq<char>) {
    (r.method@, r.path@, r.command@, r.summary@)
}

/// The seventeen routes of the bridge: method, path, command, summary.
pub open spec fn route_table() -> Seq<(Seq<char>, Seq<char>, Seq<char>, Seq<char>)> {
    seq![
        ("POST"@, "/api/system/cloudpanel/site/static"@, "site:add:static"@, "Add a static site."@),
        ("POST"@, "/api/system/cloudpanel/site/nodejs"@, "site:add:nodejs"@, "Add a Node.js site."@),
        ("POST"@, "/api/system/cloudpanel/site/python"@, "site:add:python"@, "Add a Python site."@),
        (
            "POST"@,
            "/api/system/cloudpanel/site/reverseproxy"@,
            "site:add:reverse-proxy"@,
            "Add a reverse proxy site."@,
        ),
        ("POST"@, "/api/system/cloudpanel/site/php"@, "site:add:php"@, "Add a PHP site."@),
        (
            "DELETE"@,
            "/api/system/cloudpanel/site/{domainName}"@,
            "site:delete --force"@,
            "Delete a site."@,
        ),
        (
            "GET"@,
            "/api/system/cloudpanel/db/master-credentials"@,
            "db:show:master-credentials"@,
            "Get database master credentials."@,
        ),
        ("POST"@, "/api/system/cloudpanel/db"@, "db:add"@, "Add a database."@),
        (
            "DELETE"@,
            "/api/system/cloudpanel/db/{databaseName}"@,
            "db:delete --force"@,
            "Delete a database."@,
        ),
        (
            "POST"@,
            "/api/system/cloudpanel/db/{databaseName}/export"@,
            "db:export"@,
            "Export a database dump."@,
        ),
        ("GET"@, "/api/system/cloudpanel/user"@, "user:list"@, "List users."@),
        (
            "PUT"@,
            "/api/system/cloudpanel/user/{username}/resetpassword"@,
            "user:reset:password"@,
            "Reset a user password."@,
        ),
        (
            "PUT"@,
            "/api/system/cloudpanel/user/{username}/mfa"@,
            "user:disable:mfa"@,
            "Disable user MFA."@,
        ),
        (
            "POST"@,
            "/api/system/cloudpanel/letsencrypt/install/certificate"@,
            "lets-encrypt:install:certificate"@,
            "Install a Let's Encrypt certificate."@,
        ),
        (
            "GET"@,
            "/api/system/cloudpanel/vhosttemplates"@,
            "vhost-templates:list"@,
            "List vhost templates."@,
        ),
        (
            "POST"@,
            "/api/system/cloudpanel/vhosttemplates"@,
            "vhost-templates:import"@,
            "Import vhost templates."@,
        ),
        (
            "GET"@,
            "/api/system/cloudpanel/vhosttemplate/{name}"@,
            "vhost-template:view"@,
            "View a vhost template."@,
        ),
    ]
}

fn route(
    method: &'static str,
    path: &'static str,
    command: &'static str,
    summary: &'static str,
) -> (r: RouteSpec)
    ensures
        route_view(r) == (method@, path@, command@, summary@),
{
    RouteSpec { method, path, command, summary }
}

/// The routes of the bridge, in the order the API lists them.
pub fn route_specs() -> (routes: Vec<RouteSpec>)
    ensures
        routes@.map_values(|r: RouteSpec| route_view(r)) == route_table(),
{
    let mut v: Vec<RouteSpec> = Vec::new();
    v.push(route("POST", "/api/system/cloudpanel/site/static", "site:add:static", "Add a static site."));
    v.push(route("POST", "/api/system/cloudpanel/site/nodejs", "site:add:nodejs", "Add a Node.js site."));
    v.push(route("POST", "/api/system/cloudpanel/site/python", "site:add:python", "Add a Python site."));
    v.push(
        route(
            "POST",
            "/api/system/cloudpanel/site/reverseproxy",
            "site:add:reverse-proxy",
            "Add a reverse proxy site.",
        ),
    );
    v.push(route("POST", "/api/system/cloudpanel/site/php", "site:add:php", "Add a PHP site."));
    v.push(
        route(
            "DELETE",
            "/api/system/cloudpanel/site/{domainName}",
            "site:delete --force",
            "Delete a site.",
        ),
    );
    v.push(
        route(
            "GET",
            "/api/system/cloudpanel/db/master-credentials",
            "db:show:master-credentials",
            "Get database master credentials.",
        ),
    );
    v.push(route("POST", "/api/system/cloudpanel/db", "db:add", "Add a database."));
    v.push(
        route(
            "DELETE",
            "/api/system/cloudpanel/db/{databaseName}",
            "db:delete --force",
            "Delete a database.",
        ),
    );
    v.push(
        route(
            "POST",
            "/api/system/cloudpanel/db/{databaseName}/export",
            "db:export",
            "Export a database dump.",
        ),
    );
    v.push(route("GET", "/api/system/cloudpanel/user", "user:list", "List users."));
    v.push(
        route(
            "PUT",
            "/api/system/cloudpanel/user/{username}/resetpassword",
            "user:reset:password",
            "Reset a user password.",
        ),
    );
    v.push(
        route(
            "PUT",
            "/api/system/cloudpanel/user/{username}/mfa",
            "user:disable:mfa",
            "Disable user MFA.",
        ),
    );
    v.push(
        route(
            "POST",
            "/api/system/cloudpanel/letsencrypt/install/certificate",
            "lets-encrypt:install:certificate",
            "Install a Let's Encrypt certificate.",
        ),
    );
    v.push(
        route(
            "GET",
            "/api/system/cloudpanel/vhosttemplates",
            "vhost-templates:list",
            "List vhost templates.",
        ),
    );
    v.push(
        route(
            "POST",
            "/api/system/cloudpanel/vhosttemplates",
            "vhost-templates:import",
            "Import vhost templates.",
        ),
    );
    v.push(
        route(
            "GET",
            "/api/system/cloudpanel/vhosttemplate/{name}",
            "vhost-template:view",
            "View a vhost template.",
        ),
    );
    assert(v@.map_values(|r: RouteSpec| route_view(r)) =~= route_table());
    v
}

/// Where a command stands: asked for, done, or failed.
#[derive(Clone, Copy, Debug, PartialEq, Eq, Structural)]
pub enum CommandPhase {
    Requested,
    Succeeded,
    Failed,
}

/// The write operations whose progress is announced to plugins.
#[derive(Clone, Copy, Debug, PartialEq, Eq, Structural)]
pub enum CloudPanelLifecycle {
    SiteCreate,
    SiteDelete,
    DatabaseCreate,
    DatabaseDelete,
    DatabaseExport,
    UserPasswordReset,
    UserMfaDisable,
    CertificateInstall,
    VhostTemplatesImport,
}

/// The plugin events of the bridge's write operations.
#[derive(Clone, Copy, Debug, PartialEq, Eq, Structural)]
pub enum CloudPanelEvent {
    SiteCreateRequested,
    SiteCreated,
    SiteCreateFailed,
    SiteDeleteRequested,
    SiteDeleted,
    SiteDeleteFailed,
    DatabaseCreateRequested,
    DatabaseCreated,
    DatabaseCreateFailed,
    DatabaseDeleteRequested,
    DatabaseDeleted,
    DatabaseDeleteFailed,
    DatabaseExportRequested,
    DatabaseExported,
    DatabaseExportFailed,
    UserPasswordResetRequested,
    UserPasswordReset,
    UserPasswordResetFailed,
    UserMfaDisableRequested,
    UserMfaDisabled,
    UserMfaDisableFailed,
    CertificateInstallRequested,
    CertificateInstalled,
    CertificateInstallFailed,
    VhostTemplatesImportRequested,
    VhostTemplatesImported,
    VhostTemplatesImportFailed,
}

pub open spec fn lifecycle_of(operation: Seq<char>) -> Option<CloudPanelLifecycle> {
    if operation == "add_static_site"@ || operation == "add_nodejs_site"@ || operation
        == "add_python_site"@ || operation == "add_reverse_proxy_site"@ || operation
        == "add_php_site"@ {
        Some(CloudPanelLifecycle::SiteCreate)
    } else if operation == "delete_site"@ {
        Some(CloudPanelLifecycle::SiteDelete)
    } else if operation == "add_database"@ {
        Some(CloudPanelLifecycle::DatabaseCreate)
    } else if operation == "delete_database"@ {
        Some(CloudPanelLifecycle::DatabaseDelete)
    } else if operation == "export_database"@ {
        Some(CloudPanelLifecycle::DatabaseExport)
    } else if operation == "reset_user_password"@ {
        Some(CloudPanelLifecycle::UserPasswordReset)
    } else if operation == "disable_user_mfa"@ {
        Some(CloudPanelLifecycle::UserMfaDisable)
    } else if operation == "install_lets_encrypt_certificate"@ {
        Some(CloudPanelLifecycle::CertificateInstall)
    } else if operation == "import_vhost_templates"@ {
        Some(CloudPanelLifecycle::VhostTemplatesImport)
    } else {
        None
    }
}

pub open spec fn site_type_of(operation: Seq<char>) -> Option<Seq<char>> {
    if operation == "add_static_site"@ {
        Some("static"@)
    } else if operation == "add_nodejs_site"@ {
        Some("nodejs"@)
    } else if operation == "add_python_site"@ {
        Some("python"@)
    } else if operation == "add_reverse_proxy_site"@ {
        Some("reverse_proxy"@)
    } else if operation == "add_php_site"@ {
        Some("php"@)
    } else {
        None
    }
}

pub open spec fn event_of(l: CloudPanelLifecycle, phase: CommandPhase) -> CloudPanelEvent {
    match (l, phase) {
        (CloudPanelLifecycle::SiteCreate, CommandPhase::Requested) => CloudPanelEvent::SiteCreateRequested,
        (CloudPanelLifecycle::SiteCreate, CommandPhase::Succeeded) => CloudPanelEvent::SiteCreated,
        (CloudPanelLifecycle::SiteCreate, CommandPhase::Failed) => CloudPanelEvent::SiteCreateFailed,
        (CloudPanelLifecycle::SiteDelete, CommandPhase::Requested) => CloudPanelEvent::SiteDeleteRequested,
        (CloudPanelLifecycle::SiteDelete, CommandPhase::Succeeded) => CloudPanelEvent::SiteDeleted,
        (CloudPanelLifecycle::SiteDelete, CommandPhase::Failed) => CloudPanelEvent::SiteDeleteFailed,
        (CloudPanelLifecycle::DatabaseCreate, CommandPhase::Requested) => CloudPanelEvent::DatabaseCreateRequested,
        (CloudPanelLifecycle::DatabaseCreate, CommandPhase::Succeeded) => CloudPanelEvent::DatabaseCreated,
        (CloudPanelLifecycle::DatabaseCreate, CommandPhase::Failed) => CloudPanelEvent::DatabaseCreateFailed,
        (CloudPanelLifecycle::DatabaseDelete, CommandPhase::Requested) => CloudPanelEvent::DatabaseDeleteRequested,
        (CloudPanelLifecycle::DatabaseDelete, CommandPhase::Succeeded) => CloudPanelEvent::DatabaseDeleted,
        (CloudPanelLifecycle::DatabaseDelete, CommandPhase::Failed) => CloudPanelEvent::DatabaseDeleteFailed,
        (CloudPanelLifecycle::DatabaseExport, CommandPhase::Requested) => CloudPanelEvent::DatabaseExportRequested,
        (CloudPanelLifecycle::DatabaseExport, CommandPhase::Succeeded) => CloudPanelEvent::DatabaseExported,
        (CloudPanelLifecycle::DatabaseExport, CommandPhase::Failed) => CloudPanelEvent::DatabaseExportFailed,
        (CloudPanelLifecycle::UserPasswordReset, CommandPhase::Requested) => CloudPanelEvent::UserPasswordResetRequested,
        (CloudPanelLifecycle::UserPasswordReset, CommandPhase::Succeeded) => CloudPanelEvent::UserPasswordReset,
        (CloudPanelLifecycle::UserPasswordReset, CommandPhase::Failed) => CloudPanelEvent::UserPasswordResetFailed,
        (CloudPanelLifecycle::UserMfaDisable, CommandPhase::Requested) => CloudPanelEvent::UserMfaDisableRequested,
        (CloudPanelLifecycle::UserMfaDisable, CommandPhase::Succeeded) => CloudPanelEvent::UserMfaDisabled,
        (CloudPanelLifecycle::UserMfaDisable, CommandPhase::Failed) => CloudPanelEvent::UserMfaDisableFailed,
        (CloudPanelLifecycle::CertificateInstall, CommandPhase::Requested) => CloudPanelEvent::CertificateInstallRequested,
        (CloudPanelLifecycle::CertificateInstall, CommandPhase::Succeeded) => CloudPanelEvent::CertificateInstalled,
        (CloudPanelLifecycle::CertificateInstall, CommandPhase::Failed) => CloudPanelEvent::CertificateInstallFailed,
        (CloudPanelLifecycle::VhostTemplatesImport, CommandPhase::Requested) => CloudPanelEvent::VhostTemplatesImportRequested,
        (CloudPanelLifecycle::VhostTemplatesImport, CommandPhase::Succeeded) => CloudPanelEvent::VhostTemplatesImported,
        (CloudPanelLifecycle::VhostTemplatesImport, CommandPhase::Failed) => CloudPanelEvent::VhostTemplatesImportFailed,
    }
}

impl CloudPanelLifecycle {
    /// The lifecycle that an operation belongs to; read-only operations
    /// belong to none.
    pub fn from_operation(operation: &str) -> (r: Option<CloudPanelLifecycle>)
        ensures
            r == lifecycle_of(operation@),
    {
        let op = chars_of(operation);
        let eq = |lit: &str| -> (b: bool)
            ensures
                b == (op@ == lit@),
            { crate::text::eq_str(op.as_slice(), lit) };
        if eq("add_static_site") || eq("add_nodejs_site") || eq("add_python_site") || eq(
            "add_reverse_proxy_site",
        ) || eq("add_php_site") {
            Some(CloudPanelLifecycle::SiteCreate)
        } else if eq("delete_site") {
            Some(CloudPanelLifecycle::SiteDelete)
        } else if eq("add_database") {
            Some(CloudPanelLifecycle::DatabaseCreate)
        } else if eq("delete_database") {
            Some(CloudPanelLifecycle::DatabaseDelete)
        } else if eq("export_database") {
            Some(CloudPanelLifecycle::DatabaseExport)
        } else if eq("reset_user_password") {
            Some(CloudPanelLifecycle::UserPasswordReset)
        } else if eq("disable_user_mfa") {
            Some(CloudPanelLifecycle::UserMfaDisable)
        } else if eq("install_lets_encrypt_certificate") {
            Some(CloudPanelLifecycle::CertificateInstall)
        } else if eq("import_vhost_templates") {
            Some(CloudPanelLifecycle::VhostTemplatesImport)
        } else {
            None
        }
    }

    /// The kind of site that a site-creating operation makes.
    pub fn site_type(operation: &str) -> (r: Option<&'static str>)
        ensures
            match site_type_of(operation@) {
                Some(t) => r is Some && r->0@ == t,
                None => r is None,
            },
    {
        let op = chars_of(operation);
        if crate::text::eq_str(op.as_slice(), "add_static_site") {
            Some("static")
        } else if crate::text::eq_str(op.as_slice(), "add_nodejs_site") {
            Some("nodejs")
        } else if crate::text::eq_str(op.as_slice(), "add_python_site") {
            Some("python")
        } else if crate::text::eq_str(op.as_slice(), "add_reverse_proxy_site") {
            Some("reverse_proxy")
        } else if crate::text::eq_str(op.as_slice(), "add_php_site") {
            Some("php")
        } else {
            None
        }
    }

    /// The event that announces this operation in the given phase.
    pub fn event(self, phase: CommandPhase) -> (e: CloudPanelEvent)
        ensures
            e == event_of(self, phase),
    {
        match (self, phase) {
            (CloudPanelLifecycle::SiteCreate, CommandPhase::Requested) => CloudPanelEvent::SiteCreateRequested,
            (CloudPanelLifecycle::SiteCreate, CommandPhase::Succeeded) => CloudPanelEvent::SiteCreated,
            (CloudPanelLifecycle::SiteCreate, CommandPhase::Failed) => CloudPanelEvent::SiteCreateFailed,
            (CloudPanelLifecycle::SiteDelete, CommandPhase::Requested) => CloudPanelEvent::SiteDeleteRequested,
            (CloudPanelLifecycle::SiteDelete, CommandPhase::Succeeded) => CloudPanelEvent::SiteDeleted,
            (CloudPanelLifecycle::SiteDelete, CommandPhase::Failed) => CloudPanelEvent::SiteDeleteFailed,
            (CloudPanelLifecycle::DatabaseCreate, CommandPhase::Requested) => CloudPanelEvent::DatabaseCreateRequested,
            (CloudPanelLifecycle::DatabaseCreate, CommandPhase::Succeeded) => CloudPanelEvent::DatabaseCreated,
            (CloudPanelLifecycle::DatabaseCreate, CommandPhase::Failed) => CloudPanelEvent::DatabaseCreateFailed,
            (CloudPanelLifecycle::DatabaseDelete, CommandPhase::Requested) => CloudPanelEvent::DatabaseDeleteRequested,
            (CloudPanelLifecycle::DatabaseDelete, CommandPhase::Succeeded) => CloudPanelEvent::DatabaseDeleted,
            (CloudPanelLifecycle::DatabaseDelete, CommandPhase::Failed) => CloudPanelEvent::DatabaseDeleteFailed,
            (CloudPanelLifecycle::DatabaseExport, CommandPhase::Requested) => CloudPanelEvent::DatabaseExportRequested,
            (CloudPanelLifecycle::DatabaseExport, CommandPhase::Succeeded) => CloudPanelEvent::DatabaseExported,
            (CloudPanelLifecycle::DatabaseExport, CommandPhase::Failed) => CloudPanelEvent::DatabaseExportFailed,
            (CloudPanelLifecycle::UserPasswordReset, CommandPhase::Requested) => CloudPanelEvent::UserPasswordResetRequested,
            (CloudPanelLifecycle::UserPasswordReset, CommandPhase::Succeeded) => CloudPanelEvent::UserPasswordReset,
            (CloudPanelLifecycle::UserPasswordReset, CommandPhase::Failed) => CloudPanelEvent::UserPasswordResetFailed,
            (CloudPanelLifecycle::UserMfaDisable, CommandPhase::Requested) => CloudPanelEvent::UserMfaDisableRequested,
            (CloudPanelLifecycle::UserMfaDisable, CommandPhase::Succeeded) => CloudPanelEvent::UserMfaDisabled,
            (CloudPanelLifecycle::UserMfaDisable, CommandPhase::Failed) => CloudPanelEvent::UserMfaDisableFailed,
            (CloudPanelLifecycle::CertificateInstall, CommandPhase::Requested) => CloudPanelEvent::CertificateInstallRequested,
            (CloudPanelLifecycle::CertificateInstall, CommandPhase::Succeeded) => CloudPanelEvent::CertificateInstalled,
            (CloudPanelLifecycle::CertificateInstall, CommandPhase::Failed) => CloudPanelEvent::CertificateInstallFailed,
            (CloudPanelLifecycle::VhostTemplatesImport, CommandPhase::Requested) => CloudPanelEvent::VhostTemplatesImportRequested,
            (CloudPanelLifecycle::VhostTemplatesImport, CommandPhase::Succeeded) => CloudPanelEvent::VhostTemplatesImported,
            (CloudPanelLifecycle::VhostTemplatesImport, CommandPhase::Failed) => CloudPanelEvent::VhostTemplatesImportFailed,
        }
    }
}

/// The event that an operation raises in a phase, if it is a write operation.
pub fn command_event(operation: &str, phase: CommandPhase) -> (e: Option<CloudPanelEvent>)
    ensures
        e == match lifecycle_of(operation@) {
            Some(l) => Some(event_of(l, phase)),
            None => None,
        },
{
    match CloudPanelLifecycle::from_operation(operation) {
        Some(l) => Some(l.event(phase)),
        None => None,
    }
}

/// Distinct operations in distinct phases raise distinct events.
pub proof fn lemma_events_distinct(
    a: CloudPanelLifecycle,
    p: CommandPhase,
    b: CloudPanelLifecycle,
    q: CommandPhase,
)
    requires
        a != b || p != q,
    ensures
        event_of(a, p) != event_of(b, q),
{
}

/// What a route's handler runs: the operation name it reports (to the
/// lifecycle events and the plugin hooks) and the `clpctl` command.
pub struct RouteHandler {
    pub operation: &'static str,
    pub command: &'static str,
}

/// The handler of each route of `route_table`, in the same order.
pub open spec fn handler_table() -> Seq<(Seq<char>, Seq<char>)> {
    seq![
        ("add_static_site"@, "site:add:static"@),
        ("add_nodejs_site"@, "site:add:nodejs"@),
        ("add_python_site"@, "site:add:python"@),
        ("add_reverse_proxy_site"@, "site:add:reverse-proxy"@),
        ("add_php_site"@, "site:add:php"@),
        ("delete_site"@, "site:delete"@),
        ("get_master_credentials"@, "db:show:master-credentials"@),
        ("add_database"@, "db:add"@),
        ("delete_database"@, "db:delete"@),
        ("export_database"@, "db:export"@),
        ("list_users"@, "user:list"@),
        ("reset_user_password"@, "user:reset:password"@),
        ("disable_user_mfa"@, "user:disable:mfa"@),
        ("install_lets_encrypt_certificate"@, "lets-encrypt:install:certificate"@),
        ("get_vhost_templates"@, "vhost-templates:list"@),
        ("import_vhost_templates"@, "vhost-templates:import"@),
        ("view_vhost_template"@, "vhost-template:view"@),
    ]
}

pub fn route_handlers() -> (v: Vec<RouteHandler>)
    ensures
        v@.map_values(|h: RouteHandler| (h.operation@, h.command@)) == handler_table(),
{
    let mut v: Vec<RouteHandler> = Vec::new();
    v.push(RouteHandler { operation: "add_static_site", command: "site:add:static" });
    v.push(RouteHandler { operation: "add_nodejs_site", command: "site:add:nodejs" });
    v.push(RouteHandler { operation: "add_python_site", command: "site:add:python" });
    v.push(RouteHandler { operation: "add_reverse_proxy_site", command: "site:add:reverse-proxy" });
    v.push(RouteHandler { operation: "add_php_site", command: "site:add:php" });
    v.push(RouteHandler { operation: "delete_site", command: "site:delete" });
    v.push(RouteHandler { operation: "get_master_credentials", command: "db:show:master-credentials" });
    v.push(RouteHandler { operation: "add_database", command: "db:add" });
    v.push(RouteHandler { operation: "delete_database", command: "db:delete" });
    v.push(RouteHandler { operation: "export_database", command: "db:export" });
    v.push(RouteHandler { operation: "list_users", command: "user:list" });
    v.push(RouteHandler { operation: "reset_user_password", command: "user:reset:password" });
    v.push(RouteHandler { operation: "disable_user_mfa", command: "user:disable:mfa" });
    v.push(RouteHandler { operation: "install_lets_encrypt_certificate", command: "lets-encrypt:install:certificate" });
    v.push(RouteHandler { operation: "get_vhost_templates", command: "vhost-templates:list" });
    v.push(RouteHandler { operation: "import_vhost_templates", command: "vhost-templates:import" });
    v.push(RouteHandler { operation: "view_vhost_template", command: "vhost-template:view" });
    assert(v@.map_values(|h: RouteHandler| (h.operation@, h.command@)) =~= handler_table());
    v
}

/// Every route has a handler, and the command a route documents begins
/// with the command its handler runs (the documented command may add the
/// flags the handler always passes).
pub proof fn lemma_routes_have_handlers()
    ensures
        handler_table().len() == route_table().len(),
        forall|i: int|
            0 <= i < route_table().len() ==> crate::text::has_prefix(
                #[trigger] route_table()[i].2,
                handler_table()[i].1,
            ),
{
    reveal_strlit("site:delete --force");
    reveal_strlit("site:delete");
    reveal_strlit("db:delete --force");
    reveal_strlit("db:delete");
    assert forall|i: int| 0 <= i < route_table().len() implies crate::text::has_prefix(
        #[trigger] route_table()[i].2,
        handler_table()[i].1,
    ) by {
        if i == 5 {
            assert(route_table()[i].2.take(handler_table()[i].1.len() as int) =~= handler_table()[i].1);
        } else if i == 8 {
            assert(route_table()[i].2.take(handler_table()[i].1.len() as int) =~= handler_table()[i].1);
        } else {
            assert(route_table()[i].2 =~= handler_table()[i].1);
            assert(route_table()[i].2.take(handler_table()[i].1.len() as int) =~= route_table()[i].2);
        }
    }
}

/// The write routes raise lifecycle events; the routes that only read
/// (credentials, users, templates) raise none.
pub proof fn lemma_route_lifecycles()
    ensures
        forall|i: int|
            0 <= i < handler_table().len() ==> (lifecycle_of(#[trigger] handler_table()[i].0) is None
                <==> (i == 6 || i == 10 || i == 14 || i == 16)),
{
    reveal_strlit("add_static_site");
    reveal_strlit("add_nodejs_site");
    reveal_strlit("add_python_site");
    reveal_strlit("add_reverse_proxy_site");
    reveal_strlit("add_php_site");
    reveal_strlit("delete_site");
    reveal_strlit("get_master_credentials");
    reveal_strlit("add_database");
    reveal_strlit("delete_database");
    reveal_strlit("export_database");
    reveal_strlit("list_users");
    reveal_strlit("reset_user_password");
    reveal_strlit("disable_user_mfa");
    reveal_strlit("install_lets_encrypt_certificate");
    reveal_strlit("get_vhost_templates");
    reveal_strlit("import_vhost_templates");
    reveal_strlit("view_vhost_template");
    assert forall|i: int| 0 <= i < handler_table().len() implies (lifecycle_of(
        #[trigger] handler_table()[i].0,
    ) is None <==> (i == 6 || i == 10 || i == 14 || i == 16)) by {
        let o = handler_table()[i].0;
        if i == 6 || i == 10 || i == 14 || i == 16 {
            assert(o[0] == 'g' || o[0] == 'l' || o[0] == 'v');
            assert(o.len() != 15 || o[0] != 'a');
        }
    }
}

} // verus!

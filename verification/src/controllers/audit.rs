//! The audit events the handlers record: action, the resource acted on, and
//! the details kept with it.
use vstd::prelude::*;

use crate::text::{owned, string_views};

verus! {

/// A detail's value, as the audit log keeps it.
pub enum AuditValue {
    Text(String),
    Int(i64),
    Bool(bool),
    TextList(Vec<String>),
    /// No value (an absent optional detail).
    Null,
}

pub enum ValueView {
    Text(Seq<char>),
    Int(i64),
    Bool(bool),
    TextList(Seq<Seq<char>>),
    Null,
}

pub open spec fn value_view(v: AuditValue) -> ValueView {
    match v {
        AuditValue::Text(s) => ValueView::Text(s@),
        AuditValue::Int(n) => ValueView::Int(n),
        AuditValue::Bool(b) => ValueView::Bool(b),
        AuditValue::TextList(l) => ValueView::TextList(string_views(l@)),
        AuditValue::Null => ValueView::Null,
    }
}

pub open spec fn opt_text(v: Option<Seq<char>>) -> ValueView {
    match v {
        Some(s) => ValueView::Text(s),
        None => ValueView::Null,
    }
}

pub open spec fn opt_int(v: Option<i64>) -> ValueView {
    match v {
        Some(n) => ValueView::Int(n),
        None => ValueView::Null,
    }
}

/// One audit event.
pub struct AuditEvent {
    pub action: String,
    pub resource_type: String,
    pub resource_id: String,
    /// The details, by name.
    pub metadata: Vec<(String, AuditValue)>,
}

pub open spec fn metadata_view(m: Seq<(String, AuditValue)>) -> Seq<(Seq<char>, ValueView)> {
    m.map_values(|p: (String, AuditValue)| (p.0@, value_view(p.1)))
}

pub open spec fn event_is(
    e: AuditEvent,
    action: Seq<char>,
    resource_type: Seq<char>,
    resource_id: Seq<char>,
    metadata: Seq<(Seq<char>, ValueView)>,
) -> bool {
    e.action@ == action && e.resource_type@ == resource_type && e.resource_id@ == resource_id
        && metadata_view(e.metadata@) == metadata
}

fn text(s: &str) -> (v: AuditValue)
    ensures
        value_view(v) == ValueView::Text(s@),
{
    AuditValue::Text(owned(s))
}

fn opt_text_value(s: &Option<String>) -> (v: AuditValue)
    ensures
        value_view(v) == opt_text(crate::text::opt_view(*s)),
{
    match s {
        Some(x) => AuditValue::Text(owned(x.as_str())),
        None => AuditValue::Null,
    }
}

fn entry(key: &str, v: AuditValue) -> (p: (String, AuditValue))
    ensures
        p.0@ == key@,
        p.1 == v,
{
    (owned(key), v)
}

/// An event on a site: the action, the site as its resource, and the
/// details given.
pub fn site_event(action: &str, site_id: &str, metadata: Vec<(String, AuditValue)>) -> (e:
    AuditEvent)
    ensures
        event_is(e, action@, "site"@, site_id@, metadata_view(metadata@)),
{
    AuditEvent {
        action: owned(action),
        resource_type: owned("site"),
        resource_id: owned(site_id),
        metadata,
    }
}

/// An event on one file of a site: its path.
pub fn file_event(action: &str, site_id: &str, path: &str) -> (e: AuditEvent)
    ensures
        event_is(e, action@, "site"@, site_id@, seq![("path"@, ValueView::Text(path@))]),
{
    let mut m: Vec<(String, AuditValue)> = Vec::new();
    m.push(entry("path", text(path)));
    assert(metadata_view(m@) =~= seq![("path"@, ValueView::Text(path@))]);
    site_event(action, site_id, m)
}

/// An event that moves, renames or copies a file of a site: where from and
/// where to.
pub fn file_move_event(action: &str, site_id: &str, from: &str, to: &str) -> (e: AuditEvent)
    ensures
        event_is(
            e,
            action@,
            "site"@,
            site_id@,
            seq![("from"@, ValueView::Text(from@)), ("to"@, ValueView::Text(to@))],
        ),
{
    let mut m: Vec<(String, AuditValue)> = Vec::new();
    m.push(entry("from", text(from)));
    m.push(entry("to", text(to)));
    assert(metadata_view(m@) =~= seq![("from"@, ValueView::Text(from@)), ("to"@, ValueView::Text(to@))]);
    site_event(action, site_id, m)
}

/// A mail account was created: `site.mail_account_created` with its id,
/// address and quota.
pub fn mail_account_created_event(site_id: &str, account_id: &str, address: &str, quota_mb: Option<i64>) -> (e:
    AuditEvent)
    ensures
        event_is(
            e,
            "site.mail_account_created"@,
            "site"@,
            site_id@,
            seq![
                ("account_id"@, ValueView::Text(account_id@)),
                ("address"@, ValueView::Text(address@)),
                ("quota_mb"@, opt_int(quota_mb)),
            ],
        ),
{
    let mut m: Vec<(String, AuditValue)> = Vec::new();
    m.push(entry("account_id", text(account_id)));
    m.push(entry("address", text(address)));
    let q = match quota_mb {
        Some(n) => AuditValue::Int(n),
        None => AuditValue::Null,
    };
    m.push(entry("quota_mb", q));
    assert(metadata_view(m@) =~= seq![
        ("account_id"@, ValueView::Text(account_id@)),
        ("address"@, ValueView::Text(address@)),
        ("quota_mb"@, opt_int(quota_mb)),
    ]);
    site_event("site.mail_account_created", site_id, m)
}

/// An FTP account was created: `site.ftp_account_created` with its id,
/// user name, protocol and home directory.
pub fn ftp_account_created_event(
    site_id: &str,
    account_id: &str,
    username: &str,
    protocol: &str,
    home_subpath: &str,
) -> (e: AuditEvent)
    ensures
        event_is(
            e,
            "site.ftp_account_created"@,
            "site"@,
            site_id@,
            seq![
                ("account_id"@, ValueView::Text(account_id@)),
                ("username"@, ValueView::Text(username@)),
                ("protocol"@, ValueView::Text(protocol@)),
                ("home_subpath"@, ValueView::Text(home_subpath@)),
            ],
        ),
{
    let mut m: Vec<(String, AuditValue)> = Vec::new();
    m.push(entry("account_id", text(account_id)));
    m.push(entry("username", text(username)));
    m.push(entry("protocol", text(protocol)));
    m.push(entry("home_subpath", text(home_subpath)));
    assert(metadata_view(m@) =~= seq![
        ("account_id"@, ValueView::Text(account_id@)),
        ("username"@, ValueView::Text(username@)),
        ("protocol"@, ValueView::Text(protocol@)),
        ("home_subpath"@, ValueView::Text(home_subpath@)),
    ]);
    site_event("site.ftp_account_created", site_id, m)
}

/// A mail or FTP account was deleted (`action` says which): its id.
pub fn account_deleted_event(action: &str, site_id: &str, account_id: &str) -> (e: AuditEvent)
    ensures
        event_is(e, action@, "site"@, site_id@, seq![("account_id"@, ValueView::Text(account_id@))]),
{
    let mut m: Vec<(String, AuditValue)> = Vec::new();
    m.push(entry("account_id", text(account_id)));
    assert(metadata_view(m@) =~= seq![("account_id"@, ValueView::Text(account_id@))]);
    site_event(action, site_id, m)
}

/// A backup was made: `site.backup_created` with its id and archive path.
pub fn backup_created_event(site_id: &str, backup_id: &str, path: &str) -> (e: AuditEvent)
    ensures
        event_is(
            e,
            "site.backup_created"@,
            "site"@,
            site_id@,
            seq![("backup_id"@, ValueView::Text(backup_id@)), ("path"@, ValueView::Text(path@))],
        ),
{
    let mut m: Vec<(String, AuditValue)> = Vec::new();
    m.push(entry("backup_id", text(backup_id)));
    m.push(entry("path", text(path)));
    assert(metadata_view(m@) =~= seq![
        ("backup_id"@, ValueView::Text(backup_id@)),
        ("path"@, ValueView::Text(path@)),
    ]);
    site_event("site.backup_created", site_id, m)
}

/// A database was created: `site.database_created` with its id, engine,
/// host and port.
pub fn database_created_event(site_id: &str, database_id: &str, engine: &str, host: &str, port: i64) -> (e:
    AuditEvent)
    ensures
        event_is(
            e,
            "site.database_created"@,
            "site"@,
            site_id@,
            seq![
                ("database_id"@, ValueView::Text(database_id@)),
                ("engine"@, ValueView::Text(engine@)),
                ("host"@, ValueView::Text(host@)),
                ("port"@, ValueView::Int(port)),
            ],
        ),
{
    let mut m: Vec<(String, AuditValue)> = Vec::new();
    m.push(entry("database_id", text(database_id)));
    m.push(entry("engine", text(engine)));
    m.push(entry("host", text(host)));
    m.push(entry("port", AuditValue::Int(port)));
    assert(metadata_view(m@) =~= seq![
        ("database_id"@, ValueView::Text(database_id@)),
        ("engine"@, ValueView::Text(engine@)),
        ("host"@, ValueView::Text(host@)),
        ("port"@, ValueView::Int(port)),
    ]);
    site_event("site.database_created", site_id, m)
}

/// A webhook deployed a site: `site.webhook_deployed` with the reference
/// it asked for, if any.
pub fn webhook_deployed_event(site_id: &str, git_ref: &Option<String>) -> (e: AuditEvent)
    ensures
        event_is(
            e,
            "site.webhook_deployed"@,
            "site"@,
            site_id@,
            seq![("git_ref"@, opt_text(crate::text::opt_view(*git_ref)))],
        ),
{
    let mut m: Vec<(String, AuditValue)> = Vec::new();
    m.push(entry("git_ref", opt_text_value(git_ref)));
    assert(metadata_view(m@) =~= seq![("git_ref"@, opt_text(crate::text::opt_view(*git_ref)))]);
    site_event("site.webhook_deployed", site_id, m)
}

/// A configuration was applied through the API: `config.applied` on the
/// configuration file, with whether it needs a restart, whether one was
/// scheduled, and why it is needed.
pub fn config_applied_event(
    config_path: &str,
    requires_restart: bool,
    restart_scheduled: bool,
    restart_reasons: &Vec<String>,
) -> (e: AuditEvent)
    ensures
        event_is(
            e,
            "config.applied"@,
            "config"@,
            config_path@,
            seq![
                ("requires_restart"@, ValueView::Bool(requires_restart)),
                ("restart_scheduled"@, ValueView::Bool(restart_scheduled)),
                ("restart_reasons"@, ValueView::TextList(string_views(restart_reasons@))),
            ],
        ),
{
    let mut reasons: Vec<String> = Vec::new();
    let mut i: usize = 0;
    while i < restart_reasons.len()
        invariant
            i <= restart_reasons@.len(),
            string_views(reasons@) == string_views(restart_reasons@.take(i as int)),
        decreases restart_reasons.len() - i,
    {
        let ghost before = reasons@;
        reasons.push(owned(restart_reasons[i].as_str()));
        assert(string_views(reasons@) =~= string_views(before).push(restart_reasons@[i as int]@));
        assert(string_views(restart_reasons@.take(i + 1)) =~= string_views(
            restart_reasons@.take(i as int),
        ).push(restart_reasons@[i as int]@));
        i = i + 1;
    }
    assert(restart_reasons@.take(restart_reasons@.len() as int) =~= restart_reasons@);
    let mut m: Vec<(String, AuditValue)> = Vec::new();
    m.push(entry("requires_restart", AuditValue::Bool(requires_restart)));
    m.push(entry("restart_scheduled", AuditValue::Bool(restart_scheduled)));
    m.push(entry("restart_reasons", AuditValue::TextList(reasons)));
    assert(metadata_view(m@) =~= seq![
        ("requires_restart"@, ValueView::Bool(requires_restart)),
        ("restart_scheduled"@, ValueView::Bool(restart_scheduled)),
        ("restart_reasons"@, ValueView::TextList(string_views(restart_reasons@))),
    ]);
    AuditEvent {
        action: owned("config.applied"),
        resource_type: owned("config"),
        resource_id: owned(config_path),
        metadata: m,
    }
}

} // verus!

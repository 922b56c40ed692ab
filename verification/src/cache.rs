//! The records that the daemon keeps in its SQLite cache, and how a stored
//! site row becomes a site record.
use vstd::prelude::*;

use crate::text::{opt_view, owned};

verus! {

/// A hosted site.
pub struct SiteRecord {
    pub id: String,
    pub name: String,
    pub domain: String,
    pub egg_id: String,
    pub container_id: Option<String>,
    pub network: Option<String>,
    pub volume: Option<String>,
    pub git_repo: Option<String>,
    pub memory_mb: Option<i64>,
    pub cpu_quota: Option<i64>,
    pub disk_quota_mb: Option<i64>,
    pub bandwidth_mbps: Option<i64>,
    pub status: String,
    pub domains: Vec<String>,
    pub document_root: Option<String>,
    pub site_type: String,
    /// The site's variables, by name, without repeated names.
    pub variables: Vec<(String, String)>,
    /// The site's redirects as the JSON text of their list, as the row
    /// stores it ("[]" where the row has none); the sites module, which
    /// defines a redirect, reads them from it.
    pub redirects: String,
    pub preview_domain: Option<String>,
    pub wildcard_domain: bool,
    pub created_at: i64,
}

/// A site as its row in the `sites` table stores it: the newer columns may
/// be missing, lists and maps are JSON text.
pub struct SiteRow {
    pub id: String,
    pub name: String,
    pub domain: String,
    pub egg_id: Option<String>,
    pub template: Option<String>,
    pub container_id: Option<String>,
    pub network: Option<String>,
    pub volume: Option<String>,
    pub git_repo: Option<String>,
    pub memory_mb: Option<i64>,
    pub cpu_quota: Option<i64>,
    pub disk_quota_mb: Option<i64>,
    pub bandwidth_mbps: Option<i64>,
    pub status: Option<String>,
    pub domains: Option<String>,
    pub document_root: Option<String>,
    pub site_type: Option<String>,
    pub variables: Option<String>,
    pub redirects: Option<String>,
    pub preview_domain: Option<String>,
    pub wildcard_domain: Option<i64>,
    pub created_at: i64,
}

pub struct DatabaseRecord {
    pub id: String,
    pub site_id: String,
    pub engine: String,
    pub container_id: Option<String>,
    pub volume: Option<String>,
    pub username: Option<String>,
    pub database_name: Option<String>,
    pub host: String,
    pub port: i64,
    pub created_at: i64,
}

pub struct TaskRecord {
    pub id: String,
    pub site_id: String,
    pub name: String,
    pub kind: String,
    pub schedule: Option<String>,
    pub run_at: Option<i64>,
    pub action: String,
    pub command: Option<String>,
    pub enabled: i64,
    pub last_run_at: Option<i64>,
    pub created_at: i64,
}

pub struct DnsRecordRow {
    pub id: String,
    pub site_id: String,
    pub name: String,
    pub record_type: String,
    pub value: String,
    pub ttl: i64,
    pub created_at: i64,
}

pub struct BackupRecord {
    pub id: String,
    pub site_id: String,
    pub path: String,
    pub created_at: i64,
}

pub struct MailAccountRecord {
    pub id: String,
    pub site_id: String,
    pub address: String,
    pub password: String,
    pub quota_mb: Option<i64>,
    pub created_at: i64,
}

pub struct MailMetaRecord {
    pub site_id: String,
    pub mailserver_container_id: Option<String>,
    pub mailserver_volume: Option<String>,
    pub roundcube_container_id: Option<String>,
    pub mail_domain: Option<String>,
    pub updated_at: i64,
}

pub struct FtpAccountRecord {
    pub id: String,
    pub site_id: String,
    pub username: String,
    pub password: String,
    pub protocol: String,
    pub home_subpath: String,
    pub created_at: i64,
}

pub struct FtpMetaRecord {
    pub site_id: String,
    pub sftp_container_id: Option<String>,
    pub ftp_container_id: Option<String>,
    pub updated_at: i64,
}

pub struct AuditEventRecord {
    pub id: String,
    pub created_at: i64,
    pub request_id: Option<String>,
    pub actor: Option<String>,
    pub action: String,
    pub resource_type: Option<String>,
    pub resource_id: Option<String>,
    pub client_ip: Option<String>,
    pub method: Option<String>,
    pub path: Option<String>,
    pub status: Option<i64>,
    pub success: i64,
    pub message: Option<String>,
    pub metadata_json: Option<String>,
}

/// What JSON text holding an array of strings decodes to (`serde_json`).
pub uninterp spec fn json_string_list(raw: Seq<char>) -> Option<Seq<Seq<char>>>;

/// What JSON text holding an object of strings decodes to (`serde_json`),
/// as its entries ordered by key.
pub uninterp spec fn json_string_map(raw: Seq<char>) -> Option<Seq<(Seq<char>, Seq<char>)>>;

/// Decodes a JSON array of strings with `serde_json::from_str`; `None` where
/// the text is no such array. Which texts decode, and to what, is left to
/// `serde_json` and named, not stated.
#[verifier::external_body]
fn decode_string_list(raw: &str) -> (r: Option<Vec<String>>)
    ensures
        match json_string_list(raw@) {
            Some(l) => r is Some && r->0@.map_values(|s: String| s@) == l,
            None => r is None,
        },
{
    serde_json::from_str::<Vec<String>>(raw).ok()
}

/// Decodes a JSON object of strings with `serde_json::from_str` into an
/// ordered map and hands out its entries; `None` where the text is no such
/// object. Which texts decode, and to what, is left to `serde_json`.
#[verifier::external_body]
fn decode_string_map(raw: &str) -> (r: Option<Vec<(String, String)>>)
    ensures
        match json_string_map(raw@) {
            Some(m) => r is Some && r->0@.map_values(|p: (String, String)| (p.0@, p.1@)) == m,
            None => r is None,
        },
{
    serde_json::from_str::<std::collections::BTreeMap<String, String>>(raw).ok().map(
        |m| m.into_iter().collect(),
    )
}

/// The egg of a stored site: its egg column, else the older template column,
/// else "unknown".
pub open spec fn egg_of(egg_id: Option<Seq<char>>, template: Option<Seq<char>>) -> Seq<char> {
    match egg_id {
        Some(e) => e,
        None => match template {
            Some(t) => t,
            None => "unknown"@,
        },
    }
}

pub open spec fn domains_of(raw: Option<Seq<char>>) -> Seq<Seq<char>> {
    match raw {
        Some(r) => match json_string_list(r) {
            Some(l) => l,
            None => seq![],
        },
        None => seq![],
    }
}

pub open spec fn variables_of(raw: Option<Seq<char>>) -> Seq<(Seq<char>, Seq<char>)> {
    match raw {
        Some(r) => match json_string_map(r) {
            Some(m) => m,
            None => seq![],
        },
        None => seq![],
    }
}

pub open spec fn or_default(v: Option<Seq<char>>, d: Seq<char>) -> Seq<char> {
    match v {
        Some(s) => s,
        None => d,
    }
}

/// What a decoded JSON column gives a record: the decoded list, or an empty
/// one where the column was missing or did not decode.
pub fn decoded_or_empty<T>(decoded: Option<Vec<T>>) -> (r: Vec<T>)
    ensures
        r@ == match decoded {
            Some(v) => v@,
            None => Seq::<T>::empty(),
        },
{
    match decoded {
        Some(v) => v,
        None => Vec::new(),
    }
}

/// Decodes a stored JSON list of strings, where the column holds one.
fn decode_list_column(raw: &Option<String>) -> (r: Option<Vec<String>>)
    ensures
        match raw {
            Some(t) => match json_string_list(t@) {
                Some(l) => r is Some && r->0@.map_values(|s: String| s@) == l,
                None => r is None,
            },
            None => r is None,
        },
{
    match raw {
        Some(t) => decode_string_list(t.as_str()),
        None => None,
    }
}

/// Decodes a stored JSON object of strings, where the column holds one.
fn decode_map_column(raw: &Option<String>) -> (r: Option<Vec<(String, String)>>)
    ensures
        match raw {
            Some(t) => match json_string_map(t@) {
                Some(m) => r is Some && r->0@.map_values(|p: (String, String)| (p.0@, p.1@)) == m,
                None => r is None,
            },
            None => r is None,
        },
{
    match raw {
        Some(t) => decode_string_map(t.as_str()),
        None => None,
    }
}

impl SiteRecord {
    /// The site record of a stored row: missing columns take their defaults
    /// (status "active", type "custom", redirects "[]"), domains and variables that do not decode read as
    /// empty, and a wildcard flag other than zero is set.
    pub fn from_row(row: SiteRow) -> (s: SiteRecord)
        ensures
            s.id@ == row.id@,
            s.name@ == row.name@,
            s.domain@ == row.domain@,
            s.egg_id@ == egg_of(opt_view(row.egg_id), opt_view(row.template)),
            s.container_id == row.container_id,
            s.network == row.network,
            s.volume == row.volume,
            s.git_repo == row.git_repo,
            s.memory_mb == row.memory_mb,
            s.cpu_quota == row.cpu_quota,
            s.disk_quota_mb == row.disk_quota_mb,
            s.bandwidth_mbps == row.bandwidth_mbps,
            s.status@ == or_default(opt_view(row.status), "active"@),
            s.domains@.map_values(|d: String| d@) == domains_of(opt_view(row.domains)),
            s.document_root == row.document_root,
            s.site_type@ == or_default(opt_view(row.site_type), "custom"@),
            s.variables@.map_values(|p: (String, String)| (p.0@, p.1@)) == variables_of(
                opt_view(row.variables),
            ),
            s.redirects@ == or_default(opt_view(row.redirects), "[]"@),
            s.preview_domain == row.preview_domain,
            s.wildcard_domain == (row.wildcard_domain is Some && row.wildcard_domain->0 != 0),
            s.created_at == row.created_at,
    {
        let egg_id = match row.egg_id {
            Some(e) => e,
            None => match row.template {
                Some(t) => t,
                None => owned("unknown"),
            },
        };
        let status = match row.status {
            Some(s) => s,
            None => owned("active"),
        };
        let domains = decoded_or_empty(decode_list_column(&row.domains));
        let site_type = match row.site_type {
            Some(t) => t,
            None => owned("custom"),
        };
        let variables = decoded_or_empty(decode_map_column(&row.variables));
        let redirects = match row.redirects {
            Some(t) => t,
            None => owned("[]"),
        };
        let wildcard_domain = match row.wildcard_domain {
            Some(v) => v != 0,
            None => false,
        };
        let r = SiteRecord {
            id: row.id,
            name: row.name,
            domain: row.domain,
            egg_id,
            container_id: row.container_id,
            network: row.network,
            volume: row.volume,
            git_repo: row.git_repo,
            memory_mb: row.memory_mb,
            cpu_quota: row.cpu_quota,
            disk_quota_mb: row.disk_quota_mb,
            bandwidth_mbps: row.bandwidth_mbps,
            status,
            domains,
            document_root: row.document_root,
            site_type,
            variables,
            redirects,
            preview_domain: row.preview_domain,
            wildcard_domain,
            created_at: row.created_at,
        };
        assert(r.domains@.map_values(|d: String| d@) =~= domains_of(opt_view(row.domains)));
        assert(r.variables@.map_values(|p: (String, String)| (p.0@, p.1@)) =~= variables_of(
            opt_view(row.variables),
        ));
        r
    }
}

/// How many audit events a listing returns: the asked number, kept within
/// one to five hundred.
pub fn audit_list_limit(limit: i64) -> (n: i64)
    ensures
        n == if limit < 1 {
            1
        } else if limit > 500 {
            500
        } else {
            limit
        },
{
    if limit < 1 {
        1
    } else if limit > 500 {
        500
    } else {
        limit
    }
}

/// The query of an audit listing.
pub struct ListAuditQuery {
    pub limit: i64,
}

/// The number of audit events listed when the query names none.
pub fn default_limit() -> (n: i64)
    ensures
        n == 100,
{
    100
}

} // verus!

//! The cache database's schema: the statements that bring it up to date, in
//! order, and which of them must succeed.
use vstd::prelude::*;

use crate::text::{chars_of, concat3, join_path, path_join, string_of};

verus! {

/// One schema statement. Statements that create a table must succeed (the
/// table is named for the error); the others add columns that may already
/// be there, and their failures are ignored.
pub struct Migration {
    pub sql: &'static str,
    pub table: Option<&'static str>,
}

pub open spec fn migration_view(m: Migration) -> (Seq<char>, Option<Seq<char>>) {
    (
        m.sql@,
        match m.table {
            Some(t) => Some(t@),
            None => None,
        },
    )
}

pub open spec fn schema() -> Seq<(Seq<char>, Option<Seq<char>>)> {
    seq![
        ("CREATE TABLE IF NOT EXISTS container_state (\n                id TEXT PRIMARY KEY,\n                last_seen INTEGER NOT NULL,\n                panel_correlation_id TEXT\n            )"@, Some("container_state"@)),
        ("CREATE TABLE IF NOT EXISTS deployments (\n                id TEXT PRIMARY KEY,\n                status TEXT NOT NULL,\n                created_at INTEGER NOT NULL,\n                panel_correlation_id TEXT\n            )"@, Some("deployments"@)),
        ("CREATE TABLE IF NOT EXISTS panel_messages (\n                correlation_id TEXT PRIMARY KEY,\n                handled_at INTEGER NOT NULL\n            )"@, Some("panel_messages"@)),
        ("CREATE TABLE IF NOT EXISTS sites (\n                id TEXT PRIMARY KEY,\n                name TEXT NOT NULL,\n                domain TEXT NOT NULL,\n                template TEXT NOT NULL,\n                container_id TEXT,\n                network TEXT,\n                volume TEXT,\n                git_repo TEXT,\n                created_at INTEGER NOT NULL\n            )"@, Some("sites"@)),
        ("CREATE TABLE IF NOT EXISTS site_backups (\n                id TEXT PRIMARY KEY,\n                site_id TEXT NOT NULL,\n                path TEXT NOT NULL,\n                created_at INTEGER NOT NULL\n            )"@, Some("site_backups"@)),
        ("CREATE TABLE IF NOT EXISTS site_databases (\n                id TEXT PRIMARY KEY,\n                site_id TEXT NOT NULL,\n                engine TEXT NOT NULL,\n                container_id TEXT,\n                volume TEXT,\n                username TEXT,\n                database_name TEXT,\n                host TEXT NOT NULL,\n                port INTEGER NOT NULL,\n                created_at INTEGER NOT NULL\n            )"@, Some("site_databases"@)),
        ("CREATE TABLE IF NOT EXISTS site_tasks (\n                id TEXT PRIMARY KEY,\n                site_id TEXT NOT NULL,\n                name TEXT NOT NULL,\n                kind TEXT NOT NULL,\n                schedule TEXT,\n                run_at INTEGER,\n                action TEXT NOT NULL,\n                command TEXT,\n                enabled INTEGER NOT NULL DEFAULT 1,\n                last_run_at INTEGER,\n                created_at INTEGER NOT NULL\n            )"@, Some("site_tasks"@)),
        ("CREATE TABLE IF NOT EXISTS site_dns (\n                id TEXT PRIMARY KEY,\n                site_id TEXT NOT NULL,\n                name TEXT NOT NULL,\n                record_type TEXT NOT NULL,\n                value TEXT NOT NULL,\n                ttl INTEGER NOT NULL,\n                created_at INTEGER NOT NULL\n            )"@, Some("site_dns"@)),
        ("ALTER TABLE sites ADD COLUMN memory_mb INTEGER"@, None),
        ("ALTER TABLE sites ADD COLUMN cpu_quota INTEGER"@, None),
        ("ALTER TABLE sites ADD COLUMN disk_quota_mb INTEGER"@, None),
        ("ALTER TABLE sites ADD COLUMN bandwidth_mbps INTEGER"@, None),
        ("ALTER TABLE sites ADD COLUMN status TEXT NOT NULL DEFAULT 'active'"@, None),
        ("ALTER TABLE sites ADD COLUMN domains TEXT NOT NULL DEFAULT '[]'"@, None),
        ("ALTER TABLE sites ADD COLUMN document_root TEXT"@, None),
        ("ALTER TABLE sites ADD COLUMN site_type TEXT NOT NULL DEFAULT 'custom'"@, None),
        ("ALTER TABLE sites ADD COLUMN egg_id TEXT"@, None),
        ("UPDATE sites SET egg_id = template WHERE egg_id IS NULL"@, None),
        ("ALTER TABLE sites ADD COLUMN variables TEXT NOT NULL DEFAULT '{}'"@, None),
        ("ALTER TABLE sites ADD COLUMN redirects TEXT NOT NULL DEFAULT '[]'"@, None),
        ("ALTER TABLE sites ADD COLUMN preview_domain TEXT"@, None),
        ("ALTER TABLE sites ADD COLUMN wildcard_domain INTEGER NOT NULL DEFAULT 0"@, None),
        ("CREATE TABLE IF NOT EXISTS site_mail_accounts (\n                id TEXT PRIMARY KEY,\n                site_id TEXT NOT NULL,\n                address TEXT NOT NULL,\n                password TEXT NOT NULL,\n                quota_mb INTEGER,\n                created_at INTEGER NOT NULL\n            )"@, Some("site_mail_accounts"@)),
        ("CREATE TABLE IF NOT EXISTS site_mail_meta (\n                site_id TEXT PRIMARY KEY,\n                mailserver_container_id TEXT,\n                mailserver_volume TEXT,\n                roundcube_container_id TEXT,\n                mail_domain TEXT,\n                updated_at INTEGER NOT NULL\n            )"@, Some("site_mail_meta"@)),
        ("CREATE TABLE IF NOT EXISTS site_ftp_accounts (\n                id TEXT PRIMARY KEY,\n                site_id TEXT NOT NULL,\n                username TEXT NOT NULL,\n                password TEXT NOT NULL,\n                protocol TEXT NOT NULL,\n                home_subpath TEXT NOT NULL DEFAULT 'files',\n                created_at INTEGER NOT NULL\n            )"@, Some("site_ftp_accounts"@)),
        ("CREATE TABLE IF NOT EXISTS site_ftp_meta (\n                site_id TEXT PRIMARY KEY,\n                sftp_container_id TEXT,\n                ftp_container_id TEXT,\n                updated_at INTEGER NOT NULL\n            )"@, Some("site_ftp_meta"@)),
        ("CREATE TABLE IF NOT EXISTS audit_events (\n                id TEXT PRIMARY KEY,\n                created_at INTEGER NOT NULL,\n                request_id TEXT,\n                actor TEXT,\n                action TEXT NOT NULL,\n                resource_type TEXT,\n                resource_id TEXT,\n                client_ip TEXT,\n                method TEXT,\n                path TEXT,\n                status INTEGER,\n                success INTEGER NOT NULL,\n                message TEXT,\n                metadata_json TEXT\n            )"@, Some("audit_events"@)),
    ]
}

/// The statements, in the order they run.
pub fn migrations() -> (v: Vec<Migration>)
    ensures
        v@.map_values(|m: Migration| migration_view(m)) == schema(),
{
    let mut v: Vec<Migration> = Vec::new();
    v.push(Migration { sql: "CREATE TABLE IF NOT EXISTS container_state (\n                id TEXT PRIMARY KEY,\n                last_seen INTEGER NOT NULL,\n                panel_correlation_id TEXT\n            )", table: Some("container_state") });
    v.push(Migration { sql: "CREATE TABLE IF NOT EXISTS deployments (\n                id TEXT PRIMARY KEY,\n                status TEXT NOT NULL,\n                created_at INTEGER NOT NULL,\n                panel_correlation_id TEXT\n            )", table: Some("deployments") });
    v.push(Migration { sql: "CREATE TABLE IF NOT EXISTS panel_messages (\n                correlation_id TEXT PRIMARY KEY,\n                handled_at INTEGER NOT NULL\n            )", table: Some("panel_messages") });
    v.push(Migration { sql: "CREATE TABLE IF NOT EXISTS sites (\n                id TEXT PRIMARY KEY,\n                name TEXT NOT NULL,\n                domain TEXT NOT NULL,\n                template TEXT NOT NULL,\n                container_id TEXT,\n                network TEXT,\n                volume TEXT,\n                git_repo TEXT,\n                created_at INTEGER NOT NULL\n            )", table: Some("sites") });
    v.push(Migration { sql: "CREATE TABLE IF NOT EXISTS site_backups (\n                id TEXT PRIMARY KEY,\n                site_id TEXT NOT NULL,\n                path TEXT NOT NULL,\n                created_at INTEGER NOT NULL\n            )", table: Some("site_backups") });
    v.push(Migration { sql: "CREATE TABLE IF NOT EXISTS site_databases (\n                id TEXT PRIMARY KEY,\n                site_id TEXT NOT NULL,\n                engine TEXT NOT NULL,\n                container_id TEXT,\n                volume TEXT,\n                username TEXT,\n                database_name TEXT,\n                host TEXT NOT NULL,\n                port INTEGER NOT NULL,\n                created_at INTEGER NOT NULL\n            )", table: Some("site_databases") });
    v.push(Migration { sql: "CREATE TABLE IF NOT EXISTS site_tasks (\n                id TEXT PRIMARY KEY,\n                site_id TEXT NOT NULL,\n                name TEXT NOT NULL,\n                kind TEXT NOT NULL,\n                schedule TEXT,\n                run_at INTEGER,\n                action TEXT NOT NULL,\n                command TEXT,\n                enabled INTEGER NOT NULL DEFAULT 1,\n                last_run_at INTEGER,\n                created_at INTEGER NOT NULL\n            )", table: Some("site_tasks") });
    v.push(Migration { sql: "CREATE TABLE IF NOT EXISTS site_dns (\n                id TEXT PRIMARY KEY,\n                site_id TEXT NOT NULL,\n                name TEXT NOT NULL,\n                record_type TEXT NOT NULL,\n                value TEXT NOT NULL,\n                ttl INTEGER NOT NULL,\n                created_at INTEGER NOT NULL\n            )", table: Some("site_dns") });
    v.push(Migration { sql: "ALTER TABLE sites ADD COLUMN memory_mb INTEGER", table: None });
    v.push(Migration { sql: "ALTER TABLE sites ADD COLUMN cpu_quota INTEGER", table: None });
    v.push(Migration { sql: "ALTER TABLE sites ADD COLUMN disk_quota_mb INTEGER", table: None });
    v.push(Migration { sql: "ALTER TABLE sites ADD COLUMN bandwidth_mbps INTEGER", table: None });
    v.push(Migration { sql: "ALTER TABLE sites ADD COLUMN status TEXT NOT NULL DEFAULT 'active'", table: None });
    v.push(Migration { sql: "ALTER TABLE sites ADD COLUMN domains TEXT NOT NULL DEFAULT '[]'", table: None });
    v.push(Migration { sql: "ALTER TABLE sites ADD COLUMN document_root TEXT", table: None });
    v.push(Migration { sql: "ALTER TABLE sites ADD COLUMN site_type TEXT NOT NULL DEFAULT 'custom'", table: None });
    v.push(Migration { sql: "ALTER TABLE sites ADD COLUMN egg_id TEXT", table: None });
    v.push(Migration { sql: "UPDATE sites SET egg_id = template WHERE egg_id IS NULL", table: None });
    v.push(Migration { sql: "ALTER TABLE sites ADD COLUMN variables TEXT NOT NULL DEFAULT '{}'", table: None });
    v.push(Migration { sql: "ALTER TABLE sites ADD COLUMN redirects TEXT NOT NULL DEFAULT '[]'", table: None });
    v.push(Migration { sql: "ALTER TABLE sites ADD COLUMN preview_domain TEXT", table: None });
    v.push(Migration { sql: "ALTER TABLE sites ADD COLUMN wildcard_domain INTEGER NOT NULL DEFAULT 0", table: None });
    v.push(Migration { sql: "CREATE TABLE IF NOT EXISTS site_mail_accounts (\n                id TEXT PRIMARY KEY,\n                site_id TEXT NOT NULL,\n                address TEXT NOT NULL,\n                password TEXT NOT NULL,\n                quota_mb INTEGER,\n                created_at INTEGER NOT NULL\n            )", table: Some("site_mail_accounts") });
    v.push(Migration { sql: "CREATE TABLE IF NOT EXISTS site_mail_meta (\n                site_id TEXT PRIMARY KEY,\n                mailserver_container_id TEXT,\n                mailserver_volume TEXT,\n                roundcube_container_id TEXT,\n                mail_domain TEXT,\n                updated_at INTEGER NOT NULL\n            )", table: Some("site_mail_meta") });
    v.push(Migration { sql: "CREATE TABLE IF NOT EXISTS site_ftp_accounts (\n                id TEXT PRIMARY KEY,\n                site_id TEXT NOT NULL,\n                username TEXT NOT NULL,\n                password TEXT NOT NULL,\n                protocol TEXT NOT NULL,\n                home_subpath TEXT NOT NULL DEFAULT 'files',\n                created_at INTEGER NOT NULL\n            )", table: Some("site_ftp_accounts") });
    v.push(Migration { sql: "CREATE TABLE IF NOT EXISTS site_ftp_meta (\n                site_id TEXT PRIMARY KEY,\n                sftp_container_id TEXT,\n                ftp_container_id TEXT,\n                updated_at INTEGER NOT NULL\n            )", table: Some("site_ftp_meta") });
    v.push(Migration { sql: "CREATE TABLE IF NOT EXISTS audit_events (\n                id TEXT PRIMARY KEY,\n                created_at INTEGER NOT NULL,\n                request_id TEXT,\n                actor TEXT,\n                action TEXT NOT NULL,\n                resource_type TEXT,\n                resource_id TEXT,\n                client_ip TEXT,\n                method TEXT,\n                path TEXT,\n                status INTEGER,\n                success INTEGER NOT NULL,\n                message TEXT,\n                metadata_json TEXT\n            )", table: Some("audit_events") });
    assert(v@.map_values(|m: Migration| migration_view(m)) =~= schema());
    v
}

/// What a failed statement means: opening the cache fails, with the
/// table's name, when the statement creates a table; otherwise nothing.
pub fn migration_failure(m: &Migration) -> (r: Option<String>)
    ensures
        match m.table {
            Some(t) => r matches Some(s) && s@ == "failed to migrate "@ + t@ + " table"@,
            None => r is None,
        },
{
    match m.table {
        Some(t) => Some(concat3("failed to migrate ", t, " table")),
        None => None,
    }
}

/// Where the cache's database file is: `<data>/cache/featherfly.db`; the
/// directory is created first.
pub fn cache_paths(data_dir: &str) -> (r: (String, String))
    ensures
        r.0@ == path_join(data_dir@, "cache"@),
        r.1@ == path_join(path_join(data_dir@, "cache"@), "featherfly.db"@),
{
    let dir = join_path(chars_of(data_dir).as_slice(), chars_of("cache").as_slice());
    let db = join_path(dir.as_slice(), chars_of("featherfly.db").as_slice());
    (string_of(&dir), string_of(&db))
}

} // verus!

use featherfly::actions::{plugins_actions, system_actions};
use featherfly::api_spec::{operation_id_for, plugin_operation_id, requires_bearer, sanitize_segment};
use featherfly::backups::{
    backup_archive_path, backup_args, backup_record, backup_volume, restore_args, site_backup_dir,
};
use featherfly::cache::{audit_list_limit, default_limit, BackupRecord, DnsRecordRow};
use featherfly::daemon::{config_mutated, container_type_of, AppContainerType};
use featherfly::databases::{
    build_db_env, database_container_plan, database_record, CreateDatabaseRequest, DatabaseEngine,
};
use featherfly::dns::{
    build_dns_rows, default_ttl, render_zone_file, rows_to_records, zone_dir, DnsRecord, DsRecord,
};
use featherfly::migrations::{cache_paths, migration_failure, migrations};
use featherfly::text::{parse_unsigned_chars, split_first_word, u64_string};

#[test]
fn plugin_operation_ids() {
    assert_eq!(plugin_operation_id("GET", "/plugins/demo/ping", "demo"), "plugin_demo_get_plugins_demo_ping");
    assert_eq!(sanitize_segment("--My Plugin!--"), "my_plugin");
    assert_eq!(operation_id_for("get", "/api/sites/{id}"), "get_api_sites_id");
    assert!(!requires_bearer("/health"));
    assert!(requires_bearer("/api/sites"));
}

#[test]
fn action_lists() {
    let v = system_actions();
    assert_eq!(v.len(), 4);
    assert_eq!(v[0].id, "system_overview");
    assert_eq!(v[3].step.as_deref(), Some("GET /health"));
    assert_eq!(plugins_actions()[0].id, "reload_plugins");
}

#[test]
fn backup_paths_and_arguments() {
    let dir = site_backup_dir("/var/backups", "demo");
    assert_eq!(dir, "/var/backups/demo");
    assert_eq!(backup_archive_path(&dir, "b1"), "/var/backups/demo/b1.tar.gz");
    let args = backup_args("vol", &dir, "b1");
    assert_eq!(args[3], "vol:/data:ro");
    assert_eq!(args[9], "/backup/b1.tar.gz");
    let args = restore_args("vol", "/var/backups/demo", "b1.tar.gz");
    assert_eq!(
        args[9],
        "rm -rf /data/* /data/.[!.]* /data/..?* 2>/dev/null; tar -xzf /backup/b1.tar.gz -C /data"
    );
    assert!(backup_volume(&None).is_err());
    assert_eq!(backup_volume(&Some("v".to_string())).ok().unwrap(), "v");
    let r: BackupRecord = backup_record("b1", "demo", "/p", 7);
    assert_eq!(r.created_at, 7);
}

#[test]
fn audit_limits_are_clamped() {
    assert_eq!(audit_list_limit(0), 1);
    assert_eq!(audit_list_limit(-5), 1);
    assert_eq!(audit_list_limit(50), 50);
    assert_eq!(audit_list_limit(10_000), 500);
    assert_eq!(default_limit(), 100);
}

#[test]
fn container_type_from_environment() {
    assert_eq!(container_type_of(Some("official")), AppContainerType::Official);
    assert_eq!(container_type_of(Some("other")), AppContainerType::Unknown);
    assert_eq!(container_type_of(None), AppContainerType::NoContainer);
    assert!(config_mutated(b"a: 1", b"a: 2"));
    assert!(!config_mutated(b"a: 1", b"a: 1"));
}

fn db_request(engine: DatabaseEngine) -> CreateDatabaseRequest {
    CreateDatabaseRequest {
        id: "main".to_string(),
        engine,
        username: None,
        password: "pw".to_string(),
        database: None,
        memory_mb: None,
    }
}

#[test]
fn database_environments() {
    let (env, db) = build_db_env(DatabaseEngine::Mysql, &db_request(DatabaseEngine::Mysql), "demo");
    assert_eq!(
        env,
        vec!["MYSQL_ROOT_PASSWORD=pw", "MYSQL_DATABASE=site_demo", "MYSQL_USER=app", "MYSQL_PASSWORD=pw"]
    );
    assert_eq!(db.as_deref(), Some("site_demo"));
    let (env, db) = build_db_env(DatabaseEngine::Redis, &db_request(DatabaseEngine::Redis), "demo");
    assert_eq!(env, vec!["REDIS_PASSWORD=pw"]);
    assert_eq!(db, None);
    let (env, _) = build_db_env(DatabaseEngine::Mongodb, &db_request(DatabaseEngine::Mongodb), "demo");
    assert_eq!(env[0], "MONGO_INITDB_ROOT_USERNAME=root");
}

#[test]
fn database_plans_and_records() {
    let req = db_request(DatabaseEngine::Postgres);
    let plan = database_container_plan("demo", &req, Some(256));
    assert_eq!(plan.volume_name, "db-vol-demo-main");
    assert_eq!(plan.container_name, "db-demo-main");
    assert_eq!(plan.port, 5432);
    assert_eq!(plan.image, "postgres:16-alpine");
    assert_eq!(plan.memory_mb, Some(256));
    assert_eq!(plan.data_mount, "/var/lib/postgresql/data");
    let rec = database_record(&plan, &req, "demo", "cid", 9);
    assert_eq!(rec.engine, "postgres");
    assert_eq!(rec.host, "db-demo-main");
    assert_eq!(rec.container_id.as_deref(), Some("cid"));
}

#[test]
fn dns_zone_rendering() {
    let rows = build_dns_rows(
        "demo",
        &[DnsRecord { name: "www".to_string(), record_type: "A".to_string(), value: "1.2.3.4".to_string(), ttl: 300 }],
        5,
    );
    assert_eq!(rows.len(), 1);
    assert_eq!(rows[0].site_id, "demo");
    assert_eq!(rows[0].created_at, 5);
    let ds = [DsRecord { key_tag: 1, algorithm: 13, digest_type: 2, digest: "ab".to_string() }];
    let zone = render_zone_file(&rows, true, &ds);
    assert_eq!(zone, "$ORIGIN .\n; DNSSEC enabled\nwww 300 IN A 1.2.3.4\n@ 300 IN DS 1 13 2 ab\n");
    let records = rows_to_records(&rows);
    assert_eq!(records[0].value, "1.2.3.4");
    assert_eq!(default_ttl(), 300);
    assert_eq!(zone_dir("/data", "demo"), "/data/dns/demo");
    let _: &DnsRecordRow = &rows[0];
}

#[test]
fn cache_schema_statements() {
    let m = migrations();
    assert_eq!(m.len(), 27);
    assert!(m[0].sql.starts_with("CREATE TABLE IF NOT EXISTS container_state"));
    assert_eq!(migration_failure(&m[0]).as_deref(), Some("failed to migrate container_state table"));
    let optional = m.iter().find(|s| s.table.is_none()).unwrap();
    assert!(optional.sql.starts_with("ALTER TABLE sites"));
    assert_eq!(migration_failure(optional), None);
    let (dir, db) = cache_paths("/var/lib/featherfly");
    assert_eq!(dir, "/var/lib/featherfly/cache");
    assert_eq!(db, "/var/lib/featherfly/cache/featherfly.db");
}

#[test]
fn numbers_format_and_parse_back() {
    for n in [0u64, 7, 42, 65535, 1_000_000] {
        let s = u64_string(n);
        let chars: Vec<char> = s.chars().collect();
        assert_eq!(parse_unsigned_chars(&chars, u64::MAX), Some(n));
    }
    let chars: Vec<char> = "+12".chars().collect();
    assert_eq!(parse_unsigned_chars(&chars, 100), Some(12));
    let chars: Vec<char> = "101".chars().collect();
    assert_eq!(parse_unsigned_chars(&chars, 100), None);
}

#[test]
fn first_word_split() {
    let chars: Vec<char> = "  Uid:\t0 0".chars().collect();
    let (w, rest) = split_first_word(&chars);
    assert_eq!(w.iter().collect::<String>(), "Uid:");
    assert_eq!(chars[rest..].iter().collect::<String>(), "\t0 0");
}

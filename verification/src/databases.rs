//! Per-site database containers: engines, their images and ports, the
//! environment a container starts with, and the names it is given.
use vstd::prelude::*;

use crate::cache::DatabaseRecord;
use crate::text::{chars_of, opt_or, owned, push_str, string_of};

verus! {

#[derive(Clone, Copy, Debug, PartialEq, Eq, Structural)]
pub enum DatabaseEngine {
    Mysql,
    Postgres,
    Redis,
    Mongodb,
}

pub open spec fn engine_name(e: DatabaseEngine) -> Seq<char> {
    match e {
        DatabaseEngine::Mysql => "mysql"@,
        DatabaseEngine::Postgres => "postgres"@,
        DatabaseEngine::Redis => "redis"@,
        DatabaseEngine::Mongodb => "mongodb"@,
    }
}

pub open spec fn engine_image(e: DatabaseEngine) -> Seq<char> {
    match e {
        DatabaseEngine::Mysql => "mysql:8"@,
        DatabaseEngine::Postgres => "postgres:16-alpine"@,
        DatabaseEngine::Redis => "redis:7-alpine"@,
        DatabaseEngine::Mongodb => "mongo:7"@,
    }
}

pub open spec fn engine_port(e: DatabaseEngine) -> i64 {
    match e {
        DatabaseEngine::Mysql => 3306,
        DatabaseEngine::Postgres => 5432,
        DatabaseEngine::Redis => 6379,
        DatabaseEngine::Mongodb => 27017,
    }
}

pub open spec fn engine_data_mount(e: DatabaseEngine) -> Seq<char> {
    match e {
        DatabaseEngine::Mysql => "/var/lib/mysql"@,
        DatabaseEngine::Postgres => "/var/lib/postgresql/data"@,
        DatabaseEngine::Redis => "/data"@,
        DatabaseEngine::Mongodb => "/data/db"@,
    }
}

impl DatabaseEngine {
    pub fn as_str(self) -> (s: &'static str)
        ensures
            s@ == engine_name(self),
    {
        match self {
            DatabaseEngine::Mysql => "mysql",
            DatabaseEngine::Postgres => "postgres",
            DatabaseEngine::Redis => "redis",
            DatabaseEngine::Mongodb => "mongodb",
        }
    }

    pub fn image(self) -> (s: &'static str)
        ensures
            s@ == engine_image(self),
    {
        match self {
            DatabaseEngine::Mysql => "mysql:8",
            DatabaseEngine::Postgres => "postgres:16-alpine",
            DatabaseEngine::Redis => "redis:7-alpine",
            DatabaseEngine::Mongodb => "mongo:7",
        }
    }

    pub fn default_port(self) -> (p: i64)
        ensures
            p == engine_port(self),
    {
        match self {
            DatabaseEngine::Mysql => 3306,
            DatabaseEngine::Postgres => 5432,
            DatabaseEngine::Redis => 6379,
            DatabaseEngine::Mongodb => 27017,
        }
    }
}

/// Where an engine keeps its data inside its container.
pub fn data_mount(engine: DatabaseEngine) -> (s: &'static str)
    ensures
        s@ == engine_data_mount(engine),
{
    match engine {
        DatabaseEngine::Mysql => "/var/lib/mysql",
        DatabaseEngine::Postgres => "/var/lib/postgresql/data",
        DatabaseEngine::Redis => "/data",
        DatabaseEngine::Mongodb => "/data/db",
    }
}

/// The operations on a site's databases.
pub struct DatabaseService;

pub struct CreateDatabaseRequest {
    pub id: String,
    pub engine: DatabaseEngine,
    pub username: Option<String>,
    pub password: String,
    pub database: Option<String>,
    pub memory_mb: Option<u64>,
}

pub struct DatabaseSummary {
    pub id: String,
    pub site_id: String,
    pub engine: String,
    pub host: String,
    pub port: i64,
    pub username: Option<String>,
    pub database: Option<String>,
    pub container_id: Option<String>,
}

/// The environment of a database container and the name of the database it
/// makes: MySQL and PostgreSQL default the database to `site_<site>` and the
/// user to `app`; MongoDB defaults the database to `app` and its root user
/// to `root`; Redis only takes a password.
pub open spec fn db_env_of(engine: DatabaseEngine, req: CreateDatabaseRequest, site_id: Seq<char>) -> (
    Seq<Seq<char>>,
    Option<Seq<char>>,
) {
    let site_db = "site_"@ + site_id;
    match engine {
        DatabaseEngine::Mysql => {
            let db = opt_or(req.database, site_db);
            let user = opt_or(req.username, "app"@);
            (
                seq![
                    "MYSQL_ROOT_PASSWORD="@ + req.password@,
                    "MYSQL_DATABASE="@ + db,
                    "MYSQL_USER="@ + user,
                    "MYSQL_PASSWORD="@ + req.password@,
                ],
                Some(db),
            )
        },
        DatabaseEngine::Postgres => {
            let db = opt_or(req.database, site_db);
            let user = opt_or(req.username, "app"@);
            (
                seq![
                    "POSTGRES_PASSWORD="@ + req.password@,
                    "POSTGRES_DB="@ + db,
                    "POSTGRES_USER="@ + user,
                ],
                Some(db),
            )
        },
        DatabaseEngine::Redis => (seq!["REDIS_PASSWORD="@ + req.password@], None),
        DatabaseEngine::Mongodb => {
            let db = opt_or(req.database, "app"@);
            (
                seq![
                    "MONGO_INITDB_ROOT_USERNAME="@ + opt_or(req.username, "root"@),
                    "MONGO_INITDB_ROOT_PASSWORD="@ + req.password@,
                    "MONGO_INITDB_DATABASE="@ + db,
                ],
                Some(db),
            )
        },
    }
}

/// The variable that names the database a container makes (Redis has
/// none).
pub open spec fn db_name_variable(engine: DatabaseEngine) -> Seq<char> {
    match engine {
        DatabaseEngine::Mysql => "MYSQL_DATABASE="@,
        DatabaseEngine::Postgres => "POSTGRES_DB="@,
        DatabaseEngine::Mongodb => "MONGO_INITDB_DATABASE="@,
        DatabaseEngine::Redis => Seq::empty(),
    }
}

/// A database that the request names is the one made: the container's
/// variable for it and the returned name are exactly the requested name,
/// whatever the site. Only when the request names none do MySQL and
/// PostgreSQL fall back to `site_<site>` (MongoDB to `app`); Redis makes
/// no named database.
pub proof fn lemma_requested_database_is_used(
    engine: DatabaseEngine,
    req: CreateDatabaseRequest,
    site_id: Seq<char>,
    other_site: Seq<char>,
)
    ensures
        engine != DatabaseEngine::Redis ==> match req.database {
            Some(d) => {
                &&& db_env_of(engine, req, site_id).1 == Some(d@)
                &&& db_env_of(engine, req, site_id).0.contains(db_name_variable(engine) + d@)
                &&& db_env_of(engine, req, site_id).1 == db_env_of(engine, req, other_site).1
            },
            None => {
                let fallback = if engine == DatabaseEngine::Mongodb {
                    "app"@
                } else {
                    "site_"@ + site_id
                };
                &&& db_env_of(engine, req, site_id).1 == Some(fallback)
                &&& db_env_of(engine, req, site_id).0.contains(db_name_variable(engine) + fallback)
            },
        },
        engine == DatabaseEngine::Redis ==> db_env_of(engine, req, site_id).1 is None,
{
    let env = db_env_of(engine, req, site_id).0;
    match engine {
        DatabaseEngine::Mysql => assert(env[1] == db_name_variable(engine) + opt_or(req.database, "site_"@ + site_id)),
        DatabaseEngine::Postgres => assert(env[1] == db_name_variable(engine) + opt_or(req.database, "site_"@ + site_id)),
        DatabaseEngine::Mongodb => assert(env[2] == db_name_variable(engine) + opt_or(req.database, "app"@)),
        DatabaseEngine::Redis => {},
    }
}

fn pick(v: &Option<String>, default: &str) -> (r: Vec<char>)
    ensures
        r@ == opt_or(*v, default@),
{
    match v {
        Some(s) => chars_of(s.as_str()),
        None => chars_of(default),
    }
}

fn entry(key: &str, value: &[char]) -> (r: String)
    ensures
        r@ == key@ + value@,
{
    let mut v = chars_of(key);
    crate::text::push_all(&mut v, value);
    string_of(&v)
}

pub fn build_db_env(engine: DatabaseEngine, req: &CreateDatabaseRequest, site_id: &str) -> (r: (
    Vec<String>,
    Option<String>,
))
    ensures
        r.0@.map_values(|s: String| s@) == db_env_of(engine, *req, site_id@).0,
        match db_env_of(engine, *req, site_id@).1 {
            Some(d) => r.1 is Some && r.1->0@ == d,
            None => r.1 is None,
        },
{
    let password = chars_of(req.password.as_str());
    let mut site_db = chars_of("site_");
    push_str(&mut site_db, site_id);
    match engine {
        DatabaseEngine::Mysql => {
            let db = match &req.database {
                Some(d) => chars_of(d.as_str()),
                None => site_db,
            };
            let user = pick(&req.username, "app");
            let env = vec![
                entry("MYSQL_ROOT_PASSWORD=", password.as_slice()),
                entry("MYSQL_DATABASE=", db.as_slice()),
                entry("MYSQL_USER=", user.as_slice()),
                entry("MYSQL_PASSWORD=", password.as_slice()),
            ];
            assert(env@.map_values(|s: String| s@) =~= db_env_of(engine, *req, site_id@).0);
            (env, Some(string_of(&db)))
        },
        DatabaseEngine::Postgres => {
            let db = match &req.database {
                Some(d) => chars_of(d.as_str()),
                None => site_db,
            };
            let user = pick(&req.username, "app");
            let env = vec![
                entry("POSTGRES_PASSWORD=", password.as_slice()),
                entry("POSTGRES_DB=", db.as_slice()),
                entry("POSTGRES_USER=", user.as_slice()),
            ];
            assert(env@.map_values(|s: String| s@) =~= db_env_of(engine, *req, site_id@).0);
            (env, Some(string_of(&db)))
        },
        DatabaseEngine::Redis => {
            let env = vec![entry("REDIS_PASSWORD=", password.as_slice())];
            assert(env@.map_values(|s: String| s@) =~= db_env_of(engine, *req, site_id@).0);
            (env, None)
        },
        DatabaseEngine::Mongodb => {
            let db = pick(&req.database, "app");
            let user = pick(&req.username, "root");
            let env = vec![
                entry("MONGO_INITDB_ROOT_USERNAME=", user.as_slice()),
                entry("MONGO_INITDB_ROOT_PASSWORD=", password.as_slice()),
                entry("MONGO_INITDB_DATABASE=", db.as_slice()),
            ];
            assert(env@.map_values(|s: String| s@) =~= db_env_of(engine, *req, site_id@).0);
            (env, Some(string_of(&db)))
        },
    }
}

/// The summary that the API shows of a stored database.
pub fn record_to_summary(record: &DatabaseRecord) -> (s: DatabaseSummary)
    ensures
        s.id == record.id,
        s.site_id == record.site_id,
        s.engine == record.engine,
        s.host == record.host,
        s.port == record.port,
        s.username == record.username,
        s.database == record.database_name,
        s.container_id == record.container_id,
{
    DatabaseSummary {
        id: record.id.clone(),
        site_id: record.site_id.clone(),
        engine: record.engine.clone(),
        host: record.host.clone(),
        port: record.port,
        username: record.username.clone(),
        database: record.database_name.clone(),
        container_id: record.container_id.clone(),
    }
}

/// Everything about a new database container that does not depend on Docker's
/// answers.
pub struct DatabasePlan {
    pub volume_name: String,
    pub container_name: String,
    pub host: String,
    pub port: i64,
    pub image: String,
    pub env: Vec<String>,
    pub database_name: Option<String>,
    pub labels: Vec<(String, String)>,
    pub memory_mb: Option<u64>,
    pub data_mount: String,
}

/// The memory limit of a database: the request's, else the site's.
pub open spec fn db_memory_of(requested: Option<u64>, site_memory_mb: Option<i64>) -> Option<u64> {
    match requested {
        Some(m) => Some(m),
        None => match site_memory_mb {
            Some(m) => Some(m as u64),
            None => None,
        },
    }
}

/// Plans the container of a new database of a site: volume `db-vol-<site>-<id>`,
/// container (and host name) `db-<site>-<id>`, the engine's image, port and
/// data mount, the environment of `build_db_env`, and labels naming the site,
/// the database and the engine.
pub fn database_container_plan(
    site_id: &str,
    req: &CreateDatabaseRequest,
    site_memory_mb: Option<i64>,
) -> (p: DatabasePlan)
    ensures
        p.volume_name@ == "db-vol-"@ + site_id@ + "-"@ + req.id@,
        p.container_name@ == "db-"@ + site_id@ + "-"@ + req.id@,
        p.host@ == p.container_name@,
        p.port == engine_port(req.engine),
        p.image@ == engine_image(req.engine),
        p.env@.map_values(|s: String| s@) == db_env_of(req.engine, *req, site_id@).0,
        match db_env_of(req.engine, *req, site_id@).1 {
            Some(d) => p.database_name is Some && p.database_name->0@ == d,
            None => p.database_name is None,
        },
        p.labels@.map_values(|l: (String, String)| (l.0@, l.1@)) == seq![
            ("featherfly.site.id"@, site_id@),
            ("featherfly.database.id"@, req.id@),
            ("featherfly.database.engine"@, engine_name(req.engine)),
        ],
        p.memory_mb == db_memory_of(req.memory_mb, site_memory_mb),
        p.data_mount@ == engine_data_mount(req.engine),
{
    let mut volume = chars_of("db-vol-");
    push_str(&mut volume, site_id);
    push_str(&mut volume, "-");
    push_str(&mut volume, req.id.as_str());
    let mut name = chars_of("db-");
    push_str(&mut name, site_id);
    push_str(&mut name, "-");
    push_str(&mut name, req.id.as_str());
    let (env, database_name) = build_db_env(req.engine, req, site_id);
    let labels = vec![
        (owned("featherfly.site.id"), owned(site_id)),
        (owned("featherfly.database.id"), req.id.clone()),
        (owned("featherfly.database.engine"), owned(req.engine.as_str())),
    ];
    assert(labels@.map_values(|l: (String, String)| (l.0@, l.1@)) =~= seq![
        ("featherfly.site.id"@, site_id@),
        ("featherfly.database.id"@, req.id@),
        ("featherfly.database.engine"@, engine_name(req.engine)),
    ]);
    let memory_mb = match req.memory_mb {
        Some(m) => Some(m),
        None => match site_memory_mb {
            Some(m) => Some(m as u64),
            None => None,
        },
    };
    DatabasePlan {
        volume_name: string_of(&volume),
        container_name: string_of(&name),
        host: string_of(&name),
        port: req.engine.default_port(),
        image: owned(req.engine.image()),
        env,
        database_name,
        labels,
        memory_mb,
        data_mount: owned(data_mount(req.engine)),
    }
}

/// The record stored for a database created from `plan`, once Docker gave
/// its container the id `container_id`.
pub fn database_record(
    plan: &DatabasePlan,
    req: &CreateDatabaseRequest,
    site_id: &str,
    container_id: &str,
    now: i64,
) -> (r: DatabaseRecord)
    ensures
        r.id@ == req.id@,
        r.site_id@ == site_id@,
        r.engine@ == engine_name(req.engine),
        r.container_id matches Some(c) && c@ == container_id@,
        r.volume matches Some(v) && v@ == plan.volume_name@,
        crate::text::opt_view(r.username) == crate::text::opt_view(req.username),
        crate::text::opt_view(r.database_name) == crate::text::opt_view(plan.database_name),
        r.host@ == plan.host@,
        r.port == plan.port,
        r.created_at == now,
{
    let username = match &req.username {
        Some(u) => Some(owned(u.as_str())),
        None => None,
    };
    let database_name = match &plan.database_name {
        Some(d) => Some(owned(d.as_str())),
        None => None,
    };
    DatabaseRecord {
        id: owned(req.id.as_str()),
        site_id: owned(site_id),
        engine: owned(req.engine.as_str()),
        container_id: Some(owned(container_id)),
        volume: Some(owned(plan.volume_name.as_str())),
        username,
        database_name,
        host: owned(plan.host.as_str()),
        port: plan.port,
        created_at: now,
    }
}

/// How a database is taken away.
pub enum RemovalPlan {
    /// On the shared database server: its database and user are dropped there.
    Shared,
    /// Its own container is stopped and removed (`force` passed on), then
    /// its volume removed; what the record does not have is skipped.
    Own { container_id: Option<String>, volume: Option<String>, force: bool },
}

/// The removal of a stored database, by where it lives.
pub fn removal_plan(shared_services: bool, record: &DatabaseRecord, force: bool) -> (p: RemovalPlan)
    ensures
        shared_services ==> p is Shared,
        !shared_services ==> (p matches RemovalPlan::Own { container_id, volume, force: f }
            && crate::text::opt_view(container_id) == crate::text::opt_view(record.container_id)
            && crate::text::opt_view(volume) == crate::text::opt_view(record.volume) && f == force),
{
    if shared_services {
        RemovalPlan::Shared
    } else {
        let container_id = match &record.container_id {
            Some(c) => Some(owned(c.as_str())),
            None => None,
        };
        let volume = match &record.volume {
            Some(v) => Some(owned(v.as_str())),
            None => None,
        };
        RemovalPlan::Own { container_id, volume, force }
    }
}

pub open spec fn is_summary_of(s: DatabaseSummary, r: DatabaseRecord) -> bool {
    s.id == r.id && s.site_id == r.site_id && s.engine == r.engine && s.host == r.host && s.port
        == r.port && s.username == r.username && s.database == r.database_name && s.container_id
        == r.container_id
}

/// The summaries of a site's stored databases, in order.
pub fn summaries(records: &Vec<DatabaseRecord>) -> (v: Vec<DatabaseSummary>)
    ensures
        v@.len() == records@.len(),
        forall|i: int| 0 <= i < v@.len() ==> is_summary_of(#[trigger] v@[i], records@[i]),
{
    let mut v: Vec<DatabaseSummary> = Vec::new();
    let mut i: usize = 0;
    while i < records.len()
        invariant
            i <= records@.len(),
            v@.len() == i,
            forall|k: int| 0 <= k < i ==> is_summary_of(#[trigger] v@[k], records@[k]),
        decreases records.len() - i,
    {
        v.push(record_to_summary(&records[i]));
        i = i + 1;
    }
    v
}

} // verus!

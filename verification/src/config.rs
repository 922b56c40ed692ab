//! The daemon's configuration: its sections and their defaults, where the
//! file is looked for, what a valid configuration is, and what opening one
//! does.
use vstd::prelude::*;

use crate::text::{
    chars_of, ends_with, has_prefix, has_suffix, join_path, owned, path_join, push_str, starts_with,
    string_of,
};

verus! {

/// How often the log archive rolls over.
#[derive(Clone, Copy, Debug, PartialEq, Eq, Structural)]
pub enum LogRotation {
    Daily,
    Hourly,
    Never,
}

pub open spec fn rotation_name(r: LogRotation) -> Seq<char> {
    match r {
        LogRotation::Daily => "daily"@,
        LogRotation::Hourly => "hourly"@,
        LogRotation::Never => "never"@,
    }
}

impl LogRotation {
    pub fn as_str(self) -> (s: &'static str)
        ensures
            s@ == rotation_name(self),
    {
        match self {
            LogRotation::Daily => "daily",
            LogRotation::Hourly => "hourly",
            LogRotation::Never => "never",
        }
    }
}

impl Default for LogRotation {
    fn default() -> (r: Self)
        ensures
            r == LogRotation::Daily,
    {
        LogRotation::Daily
    }
}

pub fn default_true() -> (b: bool)
    ensures
        b,
{
    true
}

pub fn logging_enabled_default() -> (b: bool)
    ensures
        b,
{
    true
}

pub fn log_to_stdout_default() -> (b: bool)
    ensures
        b,
{
    true
}

pub fn log_level_default() -> (s: String)
    ensures
        s@ == "info"@,
{
    owned("info")
}

pub fn latest_file_default() -> (s: String)
    ensures
        s@ == "latest.log"@,
{
    owned("latest.log")
}

pub fn archive_prefix_default() -> (s: String)
    ensures
        s@ == "featherfly"@,
{
    owned("featherfly")
}

pub fn archive_suffix_default() -> (s: String)
    ensures
        s@ == "log"@,
{
    owned("log")
}

pub fn archive_max_files_default() -> (n: usize)
    ensures
        n == 30,
{
    30
}

pub fn timestamp_format_default() -> (s: String)
    ensures
        s@ == "%Y-%m-%d %H:%M:%S %z"@,
{
    owned("%Y-%m-%d %H:%M:%S %z")
}

pub fn app_name() -> (s: String)
    ensures
        s@ == "FeatherFly"@,
{
    owned("FeatherFly")
}

pub fn api_host() -> (s: String)
    ensures
        s@ == "0.0.0.0"@,
{
    owned("0.0.0.0")
}

pub fn api_port() -> (p: u16)
    ensures
        p == 9090,
{
    9090
}

pub fn system_root_directory() -> (s: String)
    ensures
        s@ == "/var/lib/featherfly"@,
{
    owned("/var/lib/featherfly")
}

pub fn system_log_directory() -> (s: String)
    ensures
        s@ == "/var/log/featherfly"@,
{
    owned("/var/log/featherfly")
}

pub fn system_tmp_directory() -> (s: String)
    ensures
        s@ == "/tmp/featherfly"@,
{
    owned("/tmp/featherfly")
}

pub fn system_username() -> (s: String)
    ensures
        s@ == "featherfly"@,
{
    owned("featherfly")
}

pub fn system_pid_file() -> (s: String)
    ensures
        s@ == "/var/run/featherfly/daemon.pid"@,
{
    owned("/var/run/featherfly/daemon.pid")
}

pub fn system_plugins_directory() -> (s: String)
    ensures
        s@ == "/var/lib/featherfly/plugins"@,
{
    owned("/var/lib/featherfly/plugins")
}

pub fn node_id_default() -> (s: String)
    ensures
        s@ == Seq::<char>::empty(),
{
    String::new()
}

pub fn token_id_default() -> (s: String)
    ensures
        s@ == Seq::<char>::empty(),
{
    String::new()
}

pub fn probe_max_404s_default() -> (n: u32)
    ensures
        n == 25,
{
    25
}

pub fn probe_window_secs_default() -> (n: u32)
    ensures
        n == 60,
{
    60
}

pub fn probe_block_secs_default() -> (n: u32)
    ensures
        n == 900,
{
    900
}

pub struct LogFormatConfig {
    pub timestamp: String,
    pub include_target: bool,
    pub include_file_line: bool,
}

impl Default for LogFormatConfig {
    fn default() -> (r: Self)
        ensures
            r.timestamp@ == "%Y-%m-%d %H:%M:%S %z"@,
            !r.include_target,
            !r.include_file_line,
    {
        LogFormatConfig {
            timestamp: timestamp_format_default(),
            include_target: false,
            include_file_line: false,
        }
    }
}

pub struct LogArchiveConfig {
    pub enabled: bool,
    pub prefix: String,
    pub suffix: String,
    pub rotation: LogRotation,
    pub max_files: usize,
    pub max_age_days: u32,
    pub prune_on_startup: bool,
}

pub open spec fn archive_name(prefix: Seq<char>, suffix: Seq<char>, name: Seq<char>) -> bool {
    has_prefix(name, prefix + "."@) && has_suffix(name, "."@ + suffix)
}

impl LogArchiveConfig {
    /// Whether a file in the log directory is one of the archive's files:
    /// it begins with the prefix and a dot and ends with a dot and the suffix.
    pub fn looks_like_archive(&self, filename: &str) -> (r: bool)
        ensures
            r == archive_name(self.prefix@, self.suffix@, filename@),
    {
        let name = chars_of(filename);
        let mut head = chars_of(self.prefix.as_str());
        head.push('.');
        let mut tail = chars_of(".");
        push_str(&mut tail, self.suffix.as_str());
        assert(head@ =~= self.prefix@ + "."@) by {
            reveal_strlit(".");
        }
        starts_with(name.as_slice(), head.as_slice()) && ends_with(name.as_slice(), tail.as_slice())
    }
}

impl Default for LogArchiveConfig {
    fn default() -> (r: Self)
        ensures
            r.enabled,
            r.prefix@ == "featherfly"@,
            r.suffix@ == "log"@,
            r.rotation == LogRotation::Daily,
            r.max_files == 30,
            r.max_age_days == 0,
            r.prune_on_startup,
    {
        LogArchiveConfig {
            enabled: true,
            prefix: archive_prefix_default(),
            suffix: archive_suffix_default(),
            rotation: LogRotation::Daily,
            max_files: archive_max_files_default(),
            max_age_days: 0,
            prune_on_startup: true,
        }
    }
}

pub struct LoggingConfig {
    pub enabled: bool,
    pub log_to_stdout: bool,
    pub level: String,
    pub latest_file: String,
    pub archive: LogArchiveConfig,
    pub format: LogFormatConfig,
}

impl Default for LoggingConfig {
    fn default() -> (r: Self)
        ensures
            r.enabled,
            r.log_to_stdout,
            r.level@ == "info"@,
            r.latest_file@ == "latest.log"@,
            r.archive.prefix@ == "featherfly"@,
            r.archive.suffix@ == "log"@,
            r.archive.max_files == 30,
            r.format.timestamp@ == "%Y-%m-%d %H:%M:%S %z"@,
    {
        LoggingConfig {
            enabled: logging_enabled_default(),
            log_to_stdout: log_to_stdout_default(),
            level: log_level_default(),
            latest_file: latest_file_default(),
            archive: LogArchiveConfig::default(),
            format: LogFormatConfig::default(),
        }
    }
}

pub struct PluginsConfig {
    pub enabled: bool,
}

impl Default for PluginsConfig {
    fn default() -> (r: Self)
        ensures
            r.enabled,
    {
        PluginsConfig { enabled: true }
    }
}

pub struct ProbeProtectionConfig {
    pub enabled: bool,
    pub max_404s: u32,
    pub window_secs: u32,
    pub block_secs: u32,
    pub log_requests: bool,
    pub log_unknown_routes: bool,
    pub log_blocked: bool,
}

impl Default for ProbeProtectionConfig {
    fn default() -> (r: Self)
        ensures
            r.enabled && r.max_404s == 25 && r.window_secs == 60 && r.block_secs == 900
                && r.log_requests && r.log_unknown_routes && r.log_blocked,
    {
        ProbeProtectionConfig {
            enabled: true,
            max_404s: probe_max_404s_default(),
            window_secs: probe_window_secs_default(),
            block_secs: probe_block_secs_default(),
            log_requests: true,
            log_unknown_routes: true,
            log_blocked: true,
        }
    }
}

pub struct SecurityConfig {
    pub probe_protection: ProbeProtectionConfig,
}

impl Default for SecurityConfig {
    fn default() -> (r: Self)
        ensures
            r.probe_protection.enabled && r.probe_protection.max_404s == 25
                && r.probe_protection.window_secs == 60 && r.probe_protection.block_secs == 900,
    {
        SecurityConfig { probe_protection: ProbeProtectionConfig::default() }
    }
}

pub struct ApiConfig {
    pub host: String,
    pub port: u16,
}

impl Default for ApiConfig {
    fn default() -> (r: Self)
        ensures
            r.host@ == "0.0.0.0"@,
            r.port == 9090,
    {
        ApiConfig { host: api_host(), port: api_port() }
    }
}

pub struct SystemConfig {
    pub root_directory: String,
    pub log_directory: String,
    pub tmp_directory: String,
    pub username: String,
    pub pid_file: String,
    pub plugins_directory: String,
}

impl Default for SystemConfig {
    fn default() -> (r: Self)
        ensures
            r.root_directory@ == "/var/lib/featherfly"@,
            r.log_directory@ == "/var/log/featherfly"@,
            r.tmp_directory@ == "/tmp/featherfly"@,
            r.username@ == "featherfly"@,
            r.pid_file@ == "/var/run/featherfly/daemon.pid"@,
            r.plugins_directory@ == "/var/lib/featherfly/plugins"@,
    {
        SystemConfig {
            root_directory: system_root_directory(),
            log_directory: system_log_directory(),
            tmp_directory: system_tmp_directory(),
            username: system_username(),
            pid_file: system_pid_file(),
            plugins_directory: system_plugins_directory(),
        }
    }
}

/// The daemon's whole configuration.
pub struct InnerConfig {
    pub app_name: String,
    pub debug: bool,
    /// Node UUID; generated on first boot when empty.
    pub uuid: String,
    /// Panel authentication token id; generated on first boot when empty.
    pub token_id: String,
    /// Daemon API bearer token; generated on first boot when empty.
    pub token: String,
    /// Base URL of the panel.
    pub remote: String,
    pub api: ApiConfig,
    pub system: SystemConfig,
    pub plugins: PluginsConfig,
    pub logging: LoggingConfig,
    pub security: SecurityConfig,
}

impl Default for InnerConfig {
    fn default() -> (r: Self)
        ensures
            r.app_name@ == "FeatherFly"@,
            !r.debug,
            r.uuid@.len() == 0,
            r.token_id@.len() == 0,
            r.token@.len() == 0,
            r.remote@.len() == 0,
            r.api.host@ == "0.0.0.0"@,
            r.api.port == 9090,
            r.system.root_directory@ == "/var/lib/featherfly"@,
            r.system.log_directory@ == "/var/log/featherfly"@,
            r.system.tmp_directory@ == "/tmp/featherfly"@,
            r.system.pid_file@ == "/var/run/featherfly/daemon.pid"@,
            r.system.plugins_directory@ == "/var/lib/featherfly/plugins"@,
            r.plugins.enabled,
            r.logging.latest_file@ == "latest.log"@,
            r.logging.archive.prefix@ == "featherfly"@,
    {
        InnerConfig {
            app_name: app_name(),
            debug: false,
            uuid: String::new(),
            token_id: String::new(),
            token: String::new(),
            remote: String::new(),
            api: ApiConfig::default(),
            system: SystemConfig::default(),
            plugins: PluginsConfig::default(),
            logging: LoggingConfig::default(),
            security: SecurityConfig::default(),
        }
    }
}

/// What opening the configuration did to it.
#[derive(Clone, Copy, Debug, Default, PartialEq, Eq, Structural)]
pub struct ConfigOpenMeta {
    pub identity_generated: bool,
    pub config_upgraded: bool,
}

/// Why a configuration is refused.
#[derive(Clone, Copy, Debug, PartialEq, Eq, Structural)]
pub enum ConfigError {
    ZeroPort,
    EmptyRootDirectory,
    EmptyLatestFile,
    EmptyArchivePrefix,
    NoWorkingDirectory,
}

impl ConfigError {
    pub fn message(&self) -> (m: String)
        ensures
            m@ == match *self {
                ConfigError::ZeroPort => "api.port must be greater than 0"@,
                ConfigError::EmptyRootDirectory => "system.root_directory must not be empty"@,
                ConfigError::EmptyLatestFile => "logging.latest_file must not be empty"@,
                ConfigError::EmptyArchivePrefix => "logging.archive.prefix must not be empty"@,
                ConfigError::NoWorkingDirectory => "failed to determine current working directory"@,
            },
    {
        match self {
            ConfigError::ZeroPort => owned("api.port must be greater than 0"),
            ConfigError::EmptyRootDirectory => owned("system.root_directory must not be empty"),
            ConfigError::EmptyLatestFile => owned("logging.latest_file must not be empty"),
            ConfigError::EmptyArchivePrefix => owned("logging.archive.prefix must not be empty"),
            ConfigError::NoWorkingDirectory => owned(
                "failed to determine current working directory",
            ),
        }
    }
}

/// The first rule that a configuration breaks, if any: a port, a root
/// directory, a latest log file and an archive prefix are needed.
pub open spec fn validation_of(inner: InnerConfig) -> Result<(), ConfigError> {
    if inner.api.port == 0 {
        Err(ConfigError::ZeroPort)
    } else if inner.system.root_directory@.len() == 0 {
        Err(ConfigError::EmptyRootDirectory)
    } else if inner.logging.latest_file@.len() == 0 {
        Err(ConfigError::EmptyLatestFile)
    } else if inner.logging.archive.prefix@.len() == 0 {
        Err(ConfigError::EmptyArchivePrefix)
    } else {
        Ok(())
    }
}

pub fn validate_inner(inner: &InnerConfig) -> (r: Result<(), ConfigError>)
    ensures
        r == validation_of(*inner),
{
    if inner.api.port == 0 {
        return Err(ConfigError::ZeroPort);
    }
    if inner.system.root_directory.as_str().is_empty() {
        return Err(ConfigError::EmptyRootDirectory);
    }
    if inner.logging.latest_file.as_str().is_empty() {
        return Err(ConfigError::EmptyLatestFile);
    }
    if inner.logging.archive.prefix.as_str().is_empty() {
        return Err(ConfigError::EmptyArchivePrefix);
    }
    Ok(())
}

/// The configuration file's usual place.
pub open spec fn default_config_path() -> Seq<char> {
    "/etc/featherfly/config.yml"@
}

/// Where the configuration is read from: the path given on the command line
/// (or the usual place) when it came from there; in debug mode `config.yml`
/// in the working directory; otherwise the usual place.
pub open spec fn config_path_of(
    debug: bool,
    explicit: Option<Seq<char>>,
    from_command_line: bool,
    current_dir: Option<Seq<char>>,
) -> Result<Seq<char>, ConfigError> {
    if from_command_line {
        Ok(
            match explicit {
                Some(p) => p,
                None => default_config_path(),
            },
        )
    } else if debug {
        match current_dir {
            Some(d) => Ok(path_join(d, "config.yml"@)),
            None => Err(ConfigError::NoWorkingDirectory),
        }
    } else {
        Ok(default_config_path())
    }
}

pub open spec fn str_opt_view(v: Option<&str>) -> Option<Seq<char>> {
    match v {
        Some(s) => Some(s@),
        None => None,
    }
}

/// `current_dir` is the working directory, or `None` where it could not be
/// determined.
pub fn resolve_config_path(
    debug: bool,
    explicit: Option<&str>,
    from_command_line: bool,
    current_dir: Option<&str>,
) -> (r: Result<String, ConfigError>)
    ensures
        match config_path_of(debug, str_opt_view(explicit), from_command_line, str_opt_view(current_dir)) {
            Ok(p) => r is Ok && r->Ok_0@ == p,
            Err(e) => r == Err::<String, ConfigError>(e),
        },
{
    if from_command_line {
        return Ok(
            match explicit {
                Some(p) => owned(p),
                None => owned("/etc/featherfly/config.yml"),
            },
        );
    }
    if debug {
        let dir = match current_dir {
            Some(d) => chars_of(d),
            None => return Err(ConfigError::NoWorkingDirectory),
        };
        let out = join_path(dir.as_slice(), chars_of("config.yml").as_slice());
        return Ok(string_of(&out));
    }
    Ok(owned("/etc/featherfly/config.yml"))
}

/// Debug mode given on the command line turns the configuration's debug on.
pub fn apply_debug_overrides(inner: InnerConfig, debug: bool) -> (r: InnerConfig)
    ensures
        r.debug == (inner.debug || debug),
        r.app_name == inner.app_name,
        r.uuid == inner.uuid,
        r.token_id == inner.token_id,
        r.token == inner.token,
        r.remote == inner.remote,
        r.api == inner.api,
        r.system == inner.system,
        r.plugins == inner.plugins,
        r.logging == inner.logging,
        r.security == inner.security,
{
    let mut inner = inner;
    if debug {
        inner.debug = true;
    }
    inner
}

/// The directories that the daemon makes before it starts, besides the one
/// that holds the pid file.
pub fn required_directories(inner: &InnerConfig) -> (dirs: Vec<String>)
    ensures
        dirs@.map_values(|d: String| d@) == seq![
            inner.system.root_directory@,
            inner.system.log_directory@,
            inner.system.tmp_directory@,
            inner.system.plugins_directory@,
        ],
{
    let v = vec![
        inner.system.root_directory.clone(),
        inner.system.log_directory.clone(),
        inner.system.tmp_directory.clone(),
        inner.system.plugins_directory.clone(),
    ];
    assert(v@.map_values(|d: String| d@) =~= seq![
        inner.system.root_directory@,
        inner.system.log_directory@,
        inner.system.tmp_directory@,
        inner.system.plugins_directory@,
    ]);
    v
}

/// What opening a configuration does beyond reading it.
#[derive(Clone, Copy, Debug, PartialEq, Eq, Structural)]
pub struct OpenPlan {
    /// Make the daemon's directories.
    pub ensure_directories: bool,
    /// Write the pid file.
    pub write_pid_file: bool,
}

/// A subcommand touches no directories; a daemon in debug mode (or a
/// subcommand) writes no pid file.
pub fn open_plan(debug: bool, is_subcommand: bool) -> (p: OpenPlan)
    ensures
        p.ensure_directories == !is_subcommand,
        p.write_pid_file == !(debug || is_subcommand),
{
    OpenPlan { ensure_directories: !is_subcommand, write_pid_file: !(debug || is_subcommand) }
}

/// The configuration is written back when a new identity was generated or
/// the file lacks settings, but never by a subcommand.
pub fn should_persist(identity_changed: bool, config_upgraded: bool, is_subcommand: bool) -> (r:
    bool)
    ensures
        r == ((identity_changed || config_upgraded) && !is_subcommand),
{
    (identity_changed || config_upgraded) && !is_subcommand
}

} // verus!

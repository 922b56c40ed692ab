//! The request bodies of the CloudPanel bridge and the `clpctl` arguments
//! that each becomes.
use vstd::prelude::*;

use crate::cloudpanel::command::{arg_views, CliArg};
use crate::text::{dec_nat, join_strings, join_with, u64_string};

verus! {

pub struct AddStaticSiteRequest {
    pub domain_name: String,
    pub site_user: String,
    pub site_user_password: String,
}

pub struct AddNodejsSiteRequest {
    pub domain_name: String,
    pub site_user: String,
    pub site_user_password: String,
    pub nodejs_version: u16,
    pub app_port: u16,
}

pub struct AddPythonSiteRequest {
    pub domain_name: String,
    pub site_user: String,
    pub site_user_password: String,
    pub python_version: String,
    pub app_port: u16,
}

pub struct AddReverseProxySiteRequest {
    pub domain_name: String,
    pub site_user: String,
    pub site_user_password: String,
    pub reverse_proxy_url: String,
}

pub struct AddPhpSiteRequest {
    pub domain_name: String,
    pub site_user: String,
    pub site_user_password: String,
    pub vhost_template: String,
    pub php_version: String,
}

pub struct AddDatabaseRequest {
    pub domain_name: String,
    pub database_name: String,
    pub database_user_name: String,
    pub database_user_password: String,
}

pub struct ResetPasswordRequest {
    pub password: String,
}

pub struct InstallCertificateRequest {
    pub domain_name: String,
    pub subject_alternative_name: Vec<String>,
}

pub struct ExportDatabaseRequest {
    pub file: String,
}

fn arg(name: &str, value: &String) -> (a: CliArg)
    ensures
        crate::cloudpanel::command::arg_view(a) == (name@, Some(value@), false),
{
    CliArg::value(name, value.as_str(), false)
}

fn secret(name: &str, value: &String) -> (a: CliArg)
    ensures
        crate::cloudpanel::command::arg_view(a) == (name@, Some(value@), true),
{
    CliArg::value(name, value.as_str(), true)
}

fn number(name: &str, value: u16) -> (a: CliArg)
    ensures
        crate::cloudpanel::command::arg_view(a) == (name@, Some(dec_nat(value as nat)), false),
{
    let s = u64_string(value as u64);
    CliArg::value(name, s.as_str(), false)
}

/// `site:add:static`: domain, site user, and the site user's password (secret).
pub fn add_static_site_args(r: &AddStaticSiteRequest) -> (args: Vec<CliArg>)
    ensures
        arg_views(args@) == seq![
            ("domainName"@, Some(r.domain_name@), false),
            ("siteUser"@, Some(r.site_user@), false),
            ("siteUserPassword"@, Some(r.site_user_password@), true),
        ],
{
    let v = vec![
        arg("domainName", &r.domain_name),
        arg("siteUser", &r.site_user),
        secret("siteUserPassword", &r.site_user_password),
    ];
    assert(arg_views(v@) =~= seq![
        ("domainName"@, Some(r.domain_name@), false),
        ("siteUser"@, Some(r.site_user@), false),
        ("siteUserPassword"@, Some(r.site_user_password@), true),
    ]);
    v
}

/// `site:add:nodejs`: the static site's arguments, Node.js version, app port.
pub fn add_nodejs_site_args(r: &AddNodejsSiteRequest) -> (args: Vec<CliArg>)
    ensures
        arg_views(args@) == seq![
            ("domainName"@, Some(r.domain_name@), false),
            ("siteUser"@, Some(r.site_user@), false),
            ("siteUserPassword"@, Some(r.site_user_password@), true),
            ("nodejsVersion"@, Some(dec_nat(r.nodejs_version as nat)), false),
            ("appPort"@, Some(dec_nat(r.app_port as nat)), false),
        ],
{
    let v = vec![
        arg("domainName", &r.domain_name),
        arg("siteUser", &r.site_user),
        secret("siteUserPassword", &r.site_user_password),
        number("nodejsVersion", r.nodejs_version),
        number("appPort", r.app_port),
    ];
    assert(arg_views(v@) =~= seq![
        ("domainName"@, Some(r.domain_name@), false),
        ("siteUser"@, Some(r.site_user@), false),
        ("siteUserPassword"@, Some(r.site_user_password@), true),
        ("nodejsVersion"@, Some(dec_nat(r.nodejs_version as nat)), false),
        ("appPort"@, Some(dec_nat(r.app_port as nat)), false),
    ]);
    v
}

/// `site:add:python`: the static site's arguments, Python version, app port.
pub fn add_python_site_args(r: &AddPythonSiteRequest) -> (args: Vec<CliArg>)
    ensures
        arg_views(args@) == seq![
            ("domainName"@, Some(r.domain_name@), false),
            ("siteUser"@, Some(r.site_user@), false),
            ("siteUserPassword"@, Some(r.site_user_password@), true),
            ("pythonVersion"@, Some(r.python_version@), false),
            ("appPort"@, Some(dec_nat(r.app_port as nat)), false),
        ],
{
    let v = vec![
        arg("domainName", &r.domain_name),
        arg("siteUser", &r.site_user),
        secret("siteUserPassword", &r.site_user_password),
        arg("pythonVersion", &r.python_version),
        number("appPort", r.app_port),
    ];
    assert(arg_views(v@) =~= seq![
        ("domainName"@, Some(r.domain_name@), false),
        ("siteUser"@, Some(r.site_user@), false),
        ("siteUserPassword"@, Some(r.site_user_password@), true),
        ("pythonVersion"@, Some(r.python_version@), false),
        ("appPort"@, Some(dec_nat(r.app_port as nat)), false),
    ]);
    v
}

/// `site:add:reverse-proxy`: the static site's arguments and the upstream URL.
pub fn add_reverse_proxy_site_args(r: &AddReverseProxySiteRequest) -> (args: Vec<CliArg>)
    ensures
        arg_views(args@) == seq![
            ("domainName"@, Some(r.domain_name@), false),
            ("siteUser"@, Some(r.site_user@), false),
            ("siteUserPassword"@, Some(r.site_user_password@), true),
            ("reverseProxyUrl"@, Some(r.reverse_proxy_url@), false),
        ],
{
    let v = vec![
        arg("domainName", &r.domain_name),
        arg("siteUser", &r.site_user),
        secret("siteUserPassword", &r.site_user_password),
        arg("reverseProxyUrl", &r.reverse_proxy_url),
    ];
    assert(arg_views(v@) =~= seq![
        ("domainName"@, Some(r.domain_name@), false),
        ("siteUser"@, Some(r.site_user@), false),
        ("siteUserPassword"@, Some(r.site_user_password@), true),
        ("reverseProxyUrl"@, Some(r.reverse_proxy_url@), false),
    ]);
    v
}

/// `site:add:php`: the static site's arguments, PHP version, vhost template.
pub fn add_php_site_args(r: &AddPhpSiteRequest) -> (args: Vec<CliArg>)
    ensures
        arg_views(args@) == seq![
            ("domainName"@, Some(r.domain_name@), false),
            ("siteUser"@, Some(r.site_user@), false),
            ("siteUserPassword"@, Some(r.site_user_password@), true),
            ("phpVersion"@, Some(r.php_version@), false),
            ("vhostTemplate"@, Some(r.vhost_template@), false),
        ],
{
    let v = vec![
        arg("domainName", &r.domain_name),
        arg("siteUser", &r.site_user),
        secret("siteUserPassword", &r.site_user_password),
        arg("phpVersion", &r.php_version),
        arg("vhostTemplate", &r.vhost_template),
    ];
    assert(arg_views(v@) =~= seq![
        ("domainName"@, Some(r.domain_name@), false),
        ("siteUser"@, Some(r.site_user@), false),
        ("siteUserPassword"@, Some(r.site_user_password@), true),
        ("phpVersion"@, Some(r.php_version@), false),
        ("vhostTemplate"@, Some(r.vhost_template@), false),
    ]);
    v
}

/// `site:delete`: the domain, forced.
pub fn delete_site_args(domain_name: &String) -> (args: Vec<CliArg>)
    ensures
        arg_views(args@) == seq![
            ("domainName"@, Some(domain_name@), false),
            ("force"@, None::<Seq<char>>, false),
        ],
{
    let v = vec![arg("domainName", domain_name), CliArg::flag("force")];
    assert(arg_views(v@) =~= seq![
        ("domainName"@, Some(domain_name@), false),
        ("force"@, None::<Seq<char>>, false),
    ]);
    v
}

/// `db:add`: domain, database, its user, and the user's password (secret).
pub fn add_database_args(r: &AddDatabaseRequest) -> (args: Vec<CliArg>)
    ensures
        arg_views(args@) == seq![
            ("domainName"@, Some(r.domain_name@), false),
            ("databaseName"@, Some(r.database_name@), false),
            ("databaseUserName"@, Some(r.database_user_name@), false),
            ("databaseUserPassword"@, Some(r.database_user_password@), true),
        ],
{
    let v = vec![
        arg("domainName", &r.domain_name),
        arg("databaseName", &r.database_name),
        arg("databaseUserName", &r.database_user_name),
        secret("databaseUserPassword", &r.database_user_password),
    ];
    assert(arg_views(v@) =~= seq![
        ("domainName"@, Some(r.domain_name@), false),
        ("databaseName"@, Some(r.database_name@), false),
        ("databaseUserName"@, Some(r.database_user_name@), false),
        ("databaseUserPassword"@, Some(r.database_user_password@), true),
    ]);
    v
}

/// `db:delete`: the database, forced.
pub fn delete_database_args(database_name: &String) -> (args: Vec<CliArg>)
    ensures
        arg_views(args@) == seq![
            ("databaseName"@, Some(database_name@), false),
            ("force"@, None::<Seq<char>>, false),
        ],
{
    let v = vec![arg("databaseName", database_name), CliArg::flag("force")];
    assert(arg_views(v@) =~= seq![
        ("databaseName"@, Some(database_name@), false),
        ("force"@, None::<Seq<char>>, false),
    ]);
    v
}

/// `user:reset:password`: the user and the new password (secret).
pub fn reset_user_password_args(username: &String, r: &ResetPasswordRequest) -> (args: Vec<CliArg>)
    ensures
        arg_views(args@) == seq![
            ("userName"@, Some(username@), false),
            ("password"@, Some(r.password@), true),
        ],
{
    let v = vec![arg("userName", username), secret("password", &r.password)];
    assert(arg_views(v@) =~= seq![
        ("userName"@, Some(username@), false),
        ("password"@, Some(r.password@), true),
    ]);
    v
}

/// `user:disable:mfa`: the user.
pub fn disable_user_mfa_args(username: &String) -> (args: Vec<CliArg>)
    ensures
        arg_views(args@) == seq![("userName"@, Some(username@), false)],
{
    let v = vec![arg("userName", username)];
    assert(arg_views(v@) =~= seq![("userName"@, Some(username@), false)]);
    v
}

/// `lets-encrypt:install:certificate`: the domain, and the alternative names
/// joined by commas when there are any.
pub fn install_certificate_args(r: &InstallCertificateRequest) -> (args: Vec<CliArg>)
    ensures
        arg_views(args@) == if r.subject_alternative_name@.len() == 0 {
            seq![("domainName"@, Some(r.domain_name@), false)]
        } else {
            seq![
                ("domainName"@, Some(r.domain_name@), false),
                (
                    "subjectAlternativeName"@,
                    Some(
                        join_with(
                            r.subject_alternative_name@.map_values(|p: String| p@),
                            ","@,
                        ),
                    ),
                    false,
                ),
            ]
        },
{
    let mut v = vec![arg("domainName", &r.domain_name)];
    if r.subject_alternative_name.len() > 0 {
        let joined = join_strings(&r.subject_alternative_name, ",");
        let ghost before = v@;
        v.push(arg("subjectAlternativeName", &joined));
        assert(arg_views(v@) =~= seq![
            ("domainName"@, Some(r.domain_name@), false),
            ("subjectAlternativeName"@, Some(joined@), false),
        ]);
    } else {
        assert(arg_views(v@) =~= seq![("domainName"@, Some(r.domain_name@), false)]);
    }
    v
}

/// `db:export`: the database and the dump file.
pub fn export_database_args(database_name: &String, r: &ExportDatabaseRequest) -> (args: Vec<
    CliArg,
>)
    ensures
        arg_views(args@) == seq![
            ("databaseName"@, Some(database_name@), false),
            ("file"@, Some(r.file@), false),
        ],
{
    let v = vec![arg("databaseName", database_name), arg("file", &r.file)];
    assert(arg_views(v@) =~= seq![
        ("databaseName"@, Some(database_name@), false),
        ("file"@, Some(r.file@), false),
    ]);
    v
}

/// `vhost-template:view`: the template's name.
pub fn view_vhost_template_args(name: &String) -> (args: Vec<CliArg>)
    ensures
        arg_views(args@) == seq![("name"@, Some(name@), false)],
{
    let v = vec![arg("name", name)];
    assert(arg_views(v@) =~= seq![("name"@, Some(name@), false)]);
    v
}

} // verus!

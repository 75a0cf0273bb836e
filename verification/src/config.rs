//! Process configuration: the plain settings the server reads at start.
//! Loading the file is the caller's concern; the accessors and their
//! defaults are specified here.

use vstd::prelude::*;
use vstd::string::StringExecFns;

verus! {

/// Clones an optional text.
fn opt_string_clone(a: &Option<String>) -> (r: Option<String>)
    ensures
        r == *a,
{
    match a {
        Some(s) => Some(s.clone()),
        None => None,
    }
}

/// The whole configuration file.
#[derive(Debug, Clone)]
pub struct Config {
    pub server: Option<ConfigServer>,
    pub database: Option<ConfigDatabase>,
    pub redis: Option<ConfigDatabase>,
    pub coc_api: Option<ConfigApi>,
}

/// Where the server listens.
#[derive(Debug, Clone)]
pub struct ConfigServer {
    pub url: Option<String>,
    pub path: Option<String>,
    pub port: Option<u16>,
}

/// A storage backend: either a single connection text or its parts.
#[derive(Debug, Clone)]
pub struct ConfigDatabase {
    pub url: Option<String>,
    pub host: Option<String>,
    pub port: Option<u16>,
    pub name: Option<String>,
    pub username: Option<String>,
    pub password: Option<String>,
}

/// Credentials for the third-party game API.
#[derive(Debug, Clone)]
pub struct ConfigApi {
    pub ws: Option<String>,
    pub url: Option<String>,
    pub id: Option<String>,
    pub account: Option<String>,
    pub token: Option<String>,
    pub secret: Option<String>,
}

/// The fallback server settings: all interfaces, port 50000.
pub open spec fn is_default_server(r: ConfigServer) -> bool {
    &&& r.port == Some(50000u16)
    &&& r.url matches Some(u) && u@ == "0.0.0.0:50000"@
    &&& r.path matches Some(p) && p@ == "0.0.0.0"@
}

pub open spec fn is_empty_database(r: ConfigDatabase) -> bool {
    r.url is None && r.host is None && r.port is None && r.name is None && r.username is None
        && r.password is None
}

pub open spec fn is_empty_api(r: ConfigApi) -> bool {
    r.ws is None && r.url is None && r.id is None && r.account is None && r.token is None
        && r.secret is None
}

impl Default for ConfigServer {
    /// The fallback server settings: all interfaces, port 50000.
    fn default() -> (r: Self)
        ensures
            is_default_server(r),
    {
        ConfigServer {
            path: Some(String::from_str("0.0.0.0")),
            port: Some(50000),
            url: Some(String::from_str("0.0.0.0:50000")),
        }
    }
}

fn empty_database() -> (r: ConfigDatabase)
    ensures
        is_empty_database(r),
{
    ConfigDatabase { url: None, host: None, port: None, name: None, username: None, password: None }
}

fn empty_api() -> (r: ConfigApi)
    ensures
        is_empty_api(r),
{
    ConfigApi { ws: None, url: None, id: None, account: None, token: None, secret: None }
}

impl Config {
    /// The server section, or the default listen settings when absent.
    pub fn get_server(&self) -> (r: ConfigServer)
        ensures
            match self.server {
                Some(s) => r == s,
                None => is_default_server(r),
            },
    {
        match &self.server {
            Some(s) => ConfigServer {
                url: opt_string_clone(&s.url),
                path: opt_string_clone(&s.path),
                port: s.port,
            },
            None => Default::default(),
        }
    }

    /// The primary storage section, or an empty one when absent.
    pub fn get_database(&self) -> (r: ConfigDatabase)
        ensures
            match self.database {
                Some(d) => r == d,
                None => is_empty_database(r),
            },
    {
        match &self.database {
            Some(d) => ConfigDatabase {
                url: opt_string_clone(&d.url),
                host: opt_string_clone(&d.host),
                port: d.port,
                name: opt_string_clone(&d.name),
                username: opt_string_clone(&d.username),
                password: opt_string_clone(&d.password),
            },
            None => empty_database(),
        }
    }

    /// The cache-store section, or an empty one when absent.
    pub fn get_redis(&self) -> (r: ConfigDatabase)
        ensures
            match self.redis {
                Some(d) => r == d,
                None => is_empty_database(r),
            },
    {
        match &self.redis {
            Some(d) => ConfigDatabase {
                url: opt_string_clone(&d.url),
                host: opt_string_clone(&d.host),
                port: d.port,
                name: opt_string_clone(&d.name),
                username: opt_string_clone(&d.username),
                password: opt_string_clone(&d.password),
            },
            None => empty_database(),
        }
    }

    /// The game-API credential section, or an empty one when absent.
    pub fn get_api(&self) -> (r: ConfigApi)
        ensures
            match self.coc_api {
                Some(a) => r == a,
                None => is_empty_api(r),
            },
    {
        match &self.coc_api {
            Some(a) => ConfigApi {
                ws: opt_string_clone(&a.ws),
                url: opt_string_clone(&a.url),
                id: opt_string_clone(&a.id),
                account: opt_string_clone(&a.account),
                token: opt_string_clone(&a.token),
                secret: opt_string_clone(&a.secret),
            },
            None => empty_api(),
        }
    }
}

impl ConfigServer {
    /// The configured port, or 50000.
    pub fn get_port(&self) -> (r: u16)
        ensures
            r == (match self.port {
                Some(p) => p,
                None => 50000u16,
            }),
    {
        match self.port {
            Some(p) => p,
            None => 50000,
        }
    }

    /// The configured full listen address, or the default one.
    pub fn _get_url(&self) -> (r: String)
        ensures
            match self.url {
                Some(u) => r == u,
                None => r@ == "0.0.0.0:50000"@,
            },
    {
        match &self.url {
            Some(u) => u.clone(),
            None => String::from_str("0.0.0.0:50000"),
        }
    }

    /// The configured listen interface, or all interfaces.
    pub fn get_path(&self) -> (r: String)
        ensures
            match self.path {
                Some(p) => r == p,
                None => r@ == "0.0.0.0"@,
            },
    {
        match &self.path {
            Some(p) => p.clone(),
            None => String::from_str("0.0.0.0"),
        }
    }
}

} // verus!

use vstd::prelude::*;

verus! {

/// Where the server listens.
#[derive(Debug)]
pub struct Server {
    ip: String,
    port: String,
}

pub struct ServerView {
    pub ip: Seq<char>,
    pub port: Seq<char>,
}

impl View for Server {
    type V = ServerView;

    closed spec fn view(&self) -> ServerView {
        ServerView { ip: self.ip@, port: self.port@ }
    }
}

/// Where the database is and how to log in to it.
#[derive(Debug)]
pub struct Database {
    prefix: String,
    password: String,
    ip: String,
    port: String,
    db_name: String,
}

pub struct DatabaseView {
    pub prefix: Seq<char>,
    pub password: Seq<char>,
    pub ip: Seq<char>,
    pub port: Seq<char>,
    pub db_name: Seq<char>,
}

impl View for Database {
    type V = DatabaseView;

    closed spec fn view(&self) -> DatabaseView {
        DatabaseView {
            prefix: self.prefix@,
            password: self.password@,
            ip: self.ip@,
            port: self.port@,
            db_name: self.db_name@,
        }
    }
}

/// The server's settings.
#[derive(Debug)]
pub struct Settings {
    pub server: Server,
    pub database: Database,
}

pub struct SettingsView {
    pub server: ServerView,
    pub database: DatabaseView,
}

impl View for Settings {
    type V = SettingsView;

    open spec fn view(&self) -> SettingsView {
        SettingsView { server: self.server@, database: self.database@ }
    }
}

/// What a setting is when looking it up gave `found`: the value found, or
/// the empty text.
pub open spec fn or_empty(found: Option<String>) -> Seq<char> {
    match found {
        Some(value) => value@,
        None => Seq::empty(),
    }
}

/// The value of a setting that was looked up: empty when it was not found.
pub fn field_or_empty(found: Option<String>) -> (value: String)
    ensures
        value@ == or_empty(found),
{
    match found {
        Some(value) => value,
        None => String::new(),
    }
}

/// The settings file's path, relative to the working directory, which
/// either is the server's own directory or holds it.
pub fn config_path(in_server_directory: bool) -> (path: &'static str)
    ensures
        path@ == if in_server_directory {
            "config\\production.toml"@
        } else {
            "server\\config\\production.toml"@
        },
{
    if in_server_directory {
        "config\\production.toml"
    } else {
        "server\\config\\production.toml"
    }
}

impl Server {
    pub fn new(ip: String, port: String) -> (s: Server)
        ensures
            s@ == (ServerView { ip: ip@, port: port@ }),
    {
        Server { ip, port }
    }

    pub fn get_ip(&self) -> (ip: String)
        ensures
            ip@ == self@.ip,
    {
        self.ip.clone()
    }

    pub fn get_port(&self) -> (port: String)
        ensures
            port@ == self@.port,
    {
        self.port.clone()
    }
}

impl Database {
    pub fn new(prefix: String, password: String, ip: String, port: String, db_name: String) -> (d:
        Database)
        ensures
            d@ == (DatabaseView {
                prefix: prefix@,
                password: password@,
                ip: ip@,
                port: port@,
                db_name: db_name@,
            }),
    {
        Database { prefix, password, ip, port, db_name }
    }

    pub fn get_prefix(&self) -> (prefix: String)
        ensures
            prefix@ == self@.prefix,
    {
        self.prefix.clone()
    }

    pub fn get_password(&self) -> (password: String)
        ensures
            password@ == self@.password,
    {
        self.password.clone()
    }

    pub fn get_ip(&self) -> (ip: String)
        ensures
            ip@ == self@.ip,
    {
        self.ip.clone()
    }

    pub fn get_port(&self) -> (port: String)
        ensures
            port@ == self@.port,
    {
        self.port.clone()
    }

    pub fn get_db_name(&self) -> (db_name: String)
        ensures
            db_name@ == self@.db_name,
    {
        self.db_name.clone()
    }
}

impl Settings {
    /// The settings that the looked-up values give. A value that was not
    /// found leaves its setting empty.
    pub fn new(
        server_ip: Option<String>,
        server_port: Option<String>,
        database_prefix: Option<String>,
        database_password: Option<String>,
        database_ip: Option<String>,
        database_port: Option<String>,
        database_db_name: Option<String>,
    ) -> (s: Settings)
        ensures
            s@.server == (ServerView { ip: or_empty(server_ip), port: or_empty(server_port) }),
            s@.database == (DatabaseView {
                prefix: or_empty(database_prefix),
                password: or_empty(database_password),
                ip: or_empty(database_ip),
                port: or_empty(database_port),
                db_name: or_empty(database_db_name),
            }),
    {
        Settings {
            server: Server::new(field_or_empty(server_ip), field_or_empty(server_port)),
            database: Database::new(
                field_or_empty(database_prefix),
                field_or_empty(database_password),
                field_or_empty(database_ip),
                field_or_empty(database_port),
                field_or_empty(database_db_name),
            ),
        }
    }
}

} // verus!

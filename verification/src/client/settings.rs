use crate::settings::{field_or_empty, or_empty};
use vstd::prelude::*;

verus! {

/// Where the server is and how long to wait for it.
#[derive(Debug)]
pub struct Client {
    url: String,
    timeout: u64,
}

pub struct ClientView {
    pub url: Seq<char>,
    pub timeout: u64,
}

impl View for Client {
    type V = ClientView;

    closed spec fn view(&self) -> ClientView {
        ClientView { url: self.url@, timeout: self.timeout }
    }
}

/// The paths of the server's operations.
#[derive(Debug)]
pub struct API {
    place_order: String,
    delete_order: String,
    update_order: String,
    status_order: String,
}

pub struct ApiView {
    pub place_order: Seq<char>,
    pub delete_order: Seq<char>,
    pub update_order: Seq<char>,
    pub status_order: Seq<char>,
}

impl View for API {
    type V = ApiView;

    closed spec fn view(&self) -> ApiView {
        ApiView {
            place_order: self.place_order@,
            delete_order: self.delete_order@,
            update_order: self.update_order@,
            status_order: self.status_order@,
        }
    }
}

/// What a tablet shows the server to be let in.
#[derive(Debug)]
pub struct Auth {
    username: String,
    password: String,
}

pub struct AuthView {
    pub username: Seq<char>,
    pub password: Seq<char>,
}

impl View for Auth {
    type V = AuthView;

    closed spec fn view(&self) -> AuthView {
        AuthView { username: self.username@, password: self.password@ }
    }
}

/// A tablet's settings.
#[derive(Debug)]
pub struct Settings {
    pub client: Client,
    pub api: API,
    pub auth: Auth,
}

pub struct SettingsView {
    pub client: ClientView,
    pub api: ApiView,
    pub auth: AuthView,
}

impl View for Settings {
    type V = SettingsView;

    open spec fn view(&self) -> SettingsView {
        SettingsView { client: self.client@, api: self.api@, auth: self.auth@ }
    }
}

/// The settings file's path, relative to the working directory, which
/// either is the client's own directory or holds it.
pub fn config_path(in_client_directory: bool) -> (path: &'static str)
    ensures
        path@ == if in_client_directory {
            "config\\production.toml"@
        } else {
            "client\\config\\production.toml"@
        },
{
    if in_client_directory {
        "config\\production.toml"
    } else {
        "client\\config\\production.toml"
    }
}

impl Client {
    /// The server's address and the time to wait for an answer. A value
    /// that was not found leaves the address empty and the time zero.
    pub fn new(url: Option<String>, timeout: Option<u64>) -> (c: Client)
        ensures
            c@.url == or_empty(url),
            c@.timeout == match timeout {
                Some(secs) => secs,
                None => 0,
            },
    {
        Client {
            url: field_or_empty(url),
            timeout: match timeout {
                Some(secs) => secs,
                None => 0,
            },
        }
    }

    pub fn get_base_url(&self) -> (url: String)
        ensures
            url@ == self@.url,
    {
        self.url.clone()
    }

    pub fn get_timeout(&self) -> (timeout: u64)
        ensures
            timeout == self@.timeout,
    {
        self.timeout
    }
}

impl API {
    /// The paths of the four operations. A value that was not found leaves
    /// its path empty.
    pub fn new(
        place_order: Option<String>,
        delete_order: Option<String>,
        update_order: Option<String>,
        status_order: Option<String>,
    ) -> (api: API)
        ensures
            api@ == (ApiView {
                place_order: or_empty(place_order),
                delete_order: or_empty(delete_order),
                update_order: or_empty(update_order),
                status_order: or_empty(status_order),
            }),
    {
        API {
            place_order: field_or_empty(place_order),
            delete_order: field_or_empty(delete_order),
            update_order: field_or_empty(update_order),
            status_order: field_or_empty(status_order),
        }
    }

    pub fn get_place_order_api(&self) -> (path: String)
        ensures
            path@ == self@.place_order,
    {
        self.place_order.clone()
    }

    pub fn get_delete_order_api(&self) -> (path: String)
        ensures
            path@ == self@.delete_order,
    {
        self.delete_order.clone()
    }

    pub fn get_update_order_api(&self) -> (path: String)
        ensures
            path@ == self@.update_order,
    {
        self.update_order.clone()
    }

    pub fn get_status_order_api(&self) -> (path: String)
        ensures
            path@ == self@.status_order,
    {
        self.status_order.clone()
    }
}

impl Auth {
    /// The name and password to show. A value that was not found is empty.
    pub fn new(username: Option<String>, password: Option<String>) -> (auth: Auth)
        ensures
            auth@ == (AuthView { username: or_empty(username), password: or_empty(password) }),
    {
        Auth { username: field_or_empty(username), password: field_or_empty(password) }
    }

    pub fn get_username(&self) -> (username: String)
        ensures
            username@ == self@.username,
    {
        self.username.clone()
    }

    pub fn get_password(&self) -> (password: String)
        ensures
            password@ == self@.password,
    {
        self.password.clone()
    }
}

impl Settings {
    pub fn new(client: Client, api: API, auth: Auth) -> (s: Settings)
        ensures
            s@ == (SettingsView { client: client@, api: api@, auth: auth@ }),
    {
        Settings { client, api, auth }
    }
}

} // verus!

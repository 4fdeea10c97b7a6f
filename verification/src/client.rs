//! Configuration of the appliance connection and construction of the two
//! control-API requests, together with the reading of the login response.

use vstd::prelude::*;
use vstd::string::*;

use crate::text::json_escape;
use crate::text::json_escape_str;

verus! {

/// Connection settings for the AdGuard Home control API, immutable for the
/// process lifetime.
#[derive(Clone, Debug)]
pub struct AdGuardConfig {
    /// Base URL of the appliance, for example `http://192.168.1.10:3000`.
    pub base_url: String,
    /// Username presented to the login endpoint.
    pub username: String,
    /// Password presented to the login endpoint.
    pub password: String,
    /// Per-request timeout in seconds for every appliance call.
    pub timeout_seconds: u64,
}

/// The mathematical content of a configuration: its strings as character
/// sequences.
pub struct ConfigModel {
    pub base_url: Seq<char>,
    pub username: Seq<char>,
    pub password: Seq<char>,
    pub timeout_seconds: u64,
}

impl View for AdGuardConfig {
    type V = ConfigModel;

    open spec fn view(&self) -> ConfigModel {
        ConfigModel {
            base_url: self.base_url@,
            username: self.username@,
            password: self.password@,
            timeout_seconds: self.timeout_seconds,
        }
    }
}

/// The HTTP methods the control API is driven with.
pub enum HttpMethod {
    Post,
    Put,
}

/// One request against the appliance's control API, as plain values. The
/// transport performs it as it stands and hands back an [`HttpResponse`].
pub struct ApplianceRequest {
    pub method: HttpMethod,
    /// Full request URL.
    pub url: String,
    /// Session cookie attached as a credential header, for authenticated
    /// calls only.
    pub cookie: Option<String>,
    /// JSON request body.
    pub body: String,
}

/// What the library reads of an appliance response: the status, the
/// session-cookie header if one was set, and the body.
pub struct HttpResponse {
    pub status: u16,
    pub set_cookie: Option<String>,
    pub body: String,
}

/// Why a login yielded no session token.
#[derive(Clone, Debug)]
pub enum AuthError {
    /// The appliance answered, but set no session cookie; any status counts
    /// as this failure when the cookie is missing.
    NoCookie,
    /// The login request never completed (connection, timeout, TLS), with
    /// the transport's description.
    Transport(String),
}

/// Why a blocking-list update failed. Only transport-level failures count:
/// the appliance's own status on the update call is not interpreted.
#[derive(Clone, Debug)]
pub enum RemoteError {
    Transport(String),
}

/// The URL of the login endpoint under a base URL.
pub open spec fn login_url(base_url: Seq<char>) -> Seq<char> {
    base_url + "/control/login"@
}

/// The URL of the blocking-list update endpoint under a base URL.
pub open spec fn update_url(base_url: Seq<char>) -> Seq<char> {
    base_url + "/control/blocked_services/update"@
}

/// The JSON body of a login request: the configured name and password.
pub open spec fn login_body(username: Seq<char>, password: Seq<char>) -> Seq<char> {
    "{\"name\":\""@ + json_escape(username) + "\",\"password\":\""@ + json_escape(password)
        + "\"}"@
}

/// The JSON body of a blocking-list update: the tracked service identifier
/// is listed under `ids` to enable blocking, and the list is left empty to
/// disable it.
pub open spec fn blocking_body(enabled: bool) -> Seq<char> {
    if enabled {
        "{\"ids\":[\"youtube\"],\"schedule\":{\"time_zone\":\"Local\"}}"@
    } else {
        "{\"ids\":[],\"schedule\":{\"time_zone\":\"Local\"}}"@
    }
}

/// Client for the AdGuard Home control API: it owns the connection settings
/// and builds every request from them. It holds no session state — each
/// command logs in afresh.
#[derive(Clone)]
pub struct AdGuardClient {
    config: AdGuardConfig,
}

impl View for AdGuardClient {
    type V = ConfigModel;

    closed spec fn view(&self) -> ConfigModel {
        self.config@
    }
}

impl AdGuardClient {
    /// Create a client for the appliance the configuration names.
    pub fn new(config: AdGuardConfig) -> (client: Self)
        ensures
            client@ == config@,
    {
        AdGuardClient { config }
    }

    /// The login request: a POST of the configured credentials to the login
    /// endpoint, with no cookie attached.
    pub fn login_request(&self) -> (r: ApplianceRequest)
        ensures
            r.method is Post,
            r.url@ == login_url(self@.base_url),
            r.cookie is None,
            r.body@ == login_body(self@.username, self@.password),
    {
        let url: String = String::from_str(self.config.base_url.as_str()).concat(
            "/control/login",
        );
        let mut body: String = String::from_str("{\"name\":\"");
        let escaped_name: String = json_escape_str(self.config.username.as_str());
        body.append(escaped_name.as_str());
        body.append("\",\"password\":\"");
        let escaped_password: String = json_escape_str(self.config.password.as_str());
        body.append(escaped_password.as_str());
        body.append("\"}");
        proof {
            assert(body@ =~= login_body(self@.username, self@.password));
        }
        ApplianceRequest { method: HttpMethod::Post, url, cookie: None, body }
    }

    /// The blocking-list update request: a PUT to the update endpoint with
    /// the session token attached as the cookie and the body that enables or
    /// disables blocking of the tracked service.
    pub fn set_blocking_request(&self, token: &str, enabled: bool) -> (r: ApplianceRequest)
        ensures
            r.method is Put,
            r.url@ == update_url(self@.base_url),
            r.cookie matches Some(c) && c@ == token@,
            r.body@ == blocking_body(enabled),
    {
        let url: String = String::from_str(self.config.base_url.as_str()).concat(
            "/control/blocked_services/update",
        );
        let body: String = if enabled {
            String::from_str("{\"ids\":[\"youtube\"],\"schedule\":{\"time_zone\":\"Local\"}}")
        } else {
            String::from_str("{\"ids\":[],\"schedule\":{\"time_zone\":\"Local\"}}")
        };
        let cookie: String = String::from_str(token);
        ApplianceRequest { method: HttpMethod::Put, url, cookie: Some(cookie), body }
    }
}

/// Reads a login response. Success is the presence of a session cookie and
/// nothing else: the status code never decides, so a 200 without a cookie is
/// still a failure.
pub fn interpret_login(response: HttpResponse) -> (r: Result<String, AuthError>)
    ensures
        response.set_cookie matches Some(c) ==> (r matches Ok(t) && t@ == c@),
        response.set_cookie is None ==> (r matches Err(e) && e is NoCookie),
{
    match response.set_cookie {
        Some(cookie) => Ok(cookie),
        None => Err(AuthError::NoCookie),
    }
}

} // verus!

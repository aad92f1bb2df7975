use vstd::prelude::*;
use vstd::string::StringExecFns;
use reqwest::blocking::Client as Session;
use crate::reply::{ApiResponse, TransportError};
use crate::request::{pairs_view, HttpRequest, RequestBody};

verus! {

/// Relies on reqwest's blocking client, whose handle is shared, not copied,
/// when cloned: a clone sends with the same cookie jar.
#[verifier::external_type_specification]
#[verifier::external_body]
pub struct ExSession(Session);

/// Relies on reqwest's error type, carried only as far as its message.
#[verifier::external_type_specification]
#[verifier::external_body]
pub struct ExHttpError(reqwest::Error);

/// Relies on `Clone` of reqwest's blocking client: a second handle on the same
/// connection pool and cookie jar.
pub assume_specification[ <Session as Clone>::clone ](
    c: &Session,
) -> Session;

/// The fixed address of the single-sign-on portal.
pub const SSO_URL: &'static str = "https://apps.coop1d.com/yunohost/sso/";

/// The browser identity the portal is shown.
pub const SSO_USER_AGENT: &'static str = "Mozilla/5.0 (Macintosh; Intel Mac OS X 10.15; rv:87.0) Gecko/20100101 Firefox/87.0";

/// The page the portal's form is posted from.
pub const SSO_REFERER: &'static str = "https://apps.coop1d.com/yunohost/sso/";

/// The origin of the portal's form.
pub const SSO_ORIGIN: &'static str = "https://apps.coop1d.com";

/// What `serde_json` writes for a JSON string holding `s`: quoted and escaped.
pub uninterp spec fn json_string_of(s: Seq<char>) -> Seq<char>;

/// Relies on `Display` of `serde_json::Value::String`: the compact JSON text
/// of a string, which depends on its characters alone.
#[verifier::external_body]
fn json_string(s: &str) -> (r: String)
    ensures
        r@ == json_string_of(s@),
{
    serde_json::Value::String(s.to_string()).to_string()
}

/// Relies on reqwest's `ClientBuilder::cookie_store(true)` and `build`: a
/// blocking client that keeps the cookies of each response for later requests.
/// `build` fails where the TLS backend cannot be set up or the resolver cannot
/// load the system configuration; it panics only inside an async runtime,
/// which this library never starts.
#[verifier::external_body]
fn cookie_session() -> (r: Result<Session, reqwest::Error>) {
    Session::builder().cookie_store(true).build()
}

/// Relies on `Display` of `reqwest::Error`, for its message alone.
#[verifier::external_body]
fn error_message(e: &reqwest::Error) -> (r: String) {
    e.to_string()
}

/// The JSON document posted to the login endpoint.
pub open spec fn login_body(username: Seq<char>, password: Seq<char>) -> Seq<char> {
    "{\"login\":"@ + json_string_of(username) + ",\"password\":"@ + json_string_of(password)
        + "}"@
}

/// What a client is: the address of its instance and the token it holds.
pub struct ClientView {
    pub base: Seq<char>,
    pub token: Option<Seq<char>>,
}

/// A client of one application instance: its address, the API token once a
/// login has given one, and an HTTP session whose cookie jar is shared by
/// every client derived from it.
#[derive(Debug, Clone)]
pub struct Client {
    instance_url: String,
    api_key: Option<String>,
    session: Session,
}

impl View for Client {
    type V = ClientView;

    closed spec fn view(&self) -> ClientView {
        ClientView {
            base: self.instance_url@,
            token: match self.api_key {
                Some(k) => Some(k@),
                None => None,
            },
        }
    }
}

impl Client {
    /// A client of the instance at `instance_url`, with no token and a fresh
    /// cookie-keeping session. Nothing is sent.
    pub fn new(instance_url: String) -> (r: Result<Client, TransportError>)
        ensures
            r matches Ok(c) ==> c@ == (ClientView { base: instance_url@, token: None }),
            r matches Err(e) ==> e matches TransportError::Connection(_),
    {
        match cookie_session() {
            Ok(session) => Ok(Client { instance_url, api_key: None, session }),
            Err(e) => Err(TransportError::Connection(error_message(&e))),
        }
    }

    /// A client on the same instance and session, holding `token`.
    fn with_token(&self, token: Option<String>) -> (r: Client)
        ensures
            r@.base == self@.base,
            r@.token == (match token {
                Some(k) => Some(k@),
                None => None::<Seq<char>>,
            }),
    {
        Client { instance_url: self.instance_url.clone(), api_key: token, session: self.session.clone() }
    }

    /// The address of the instance.
    pub fn instance_url(&self) -> (r: &str)
        ensures
            r@ == self@.base,
    {
        self.instance_url.as_str()
    }

    /// The API token, if a login has given one.
    pub fn api_key(&self) -> (r: Option<String>)
        ensures
            r matches Some(k) ==> self@.token == Some(k@),
            r is None ==> self@.token is None,
    {
        match &self.api_key {
            Some(k) => Some(k.clone()),
            None => None,
        }
    }

    /// The HTTP session the client's requests are to be sent with.
    pub fn session(&self) -> &Session {
        &self.session
    }

    /// The address of `path` under the instance.
    pub fn url(&self, path: &str) -> (r: String)
        ensures
            r@ == self@.base + "/"@ + path@,
    {
        let mut r = self.instance_url.clone();
        r.append("/");
        r.append(path);
        r
    }

    /// The request that exchanges `username` and `password` for an API token:
    /// a JSON POST to `/login` under the instance.
    pub fn login_request(&self, username: &str, password: &str) -> (r: HttpRequest)
        ensures
            r.url@ == self@.base + "/"@ + "login"@,
            pairs_view(r.headers@) == seq![
                ("Accept"@, "application/json"@),
                ("Content-Type"@, "application/json"@),
            ],
            r.body matches RequestBody::Json(b) && b@ == login_body(username@, password@),
    {
        let url = self.url("login");
        let mut headers: Vec<(String, String)> = Vec::new();
        headers.push((String::from_str("Accept"), String::from_str("application/json")));
        headers.push((String::from_str("Content-Type"), String::from_str("application/json")));
        let mut body = String::from_str("{\"login\":");
        body.append(json_string(username).as_str());
        body.append(",\"password\":");
        body.append(json_string(password).as_str());
        body.append("}");
        proof {
            assert(pairs_view(headers@) =~= seq![
                ("Accept"@, "application/json"@),
                ("Content-Type"@, "application/json"@),
            ]);
        }
        HttpRequest { url, headers, body: RequestBody::Json(body) }
    }

    /// The request that opens a session at the single-sign-on portal: a form
    /// POST of `user` and `password` to the portal's fixed address, with the
    /// headers of a browser.
    pub fn sso_request(username: &str, password: &str) -> (r: HttpRequest)
        ensures
            r.url@ == SSO_URL@,
            pairs_view(r.headers@) == seq![
                ("User-Agent"@, SSO_USER_AGENT@),
                ("Referer"@, SSO_REFERER@),
                ("Origin"@, SSO_ORIGIN@),
            ],
            r.body matches RequestBody::Form(f) && pairs_view(f@) == seq![
                ("user"@, username@),
                ("password"@, password@),
            ],
    {
        let mut headers: Vec<(String, String)> = Vec::new();
        headers.push((String::from_str("User-Agent"), String::from_str(SSO_USER_AGENT)));
        headers.push((String::from_str("Referer"), String::from_str(SSO_REFERER)));
        headers.push((String::from_str("Origin"), String::from_str(SSO_ORIGIN)));
        let mut form: Vec<(String, String)> = Vec::new();
        form.push((String::from_str("user"), String::from_str(username)));
        form.push((String::from_str("password"), String::from_str(password)));
        proof {
            assert(pairs_view(headers@) =~= seq![
                ("User-Agent"@, SSO_USER_AGENT@),
                ("Referer"@, SSO_REFERER@),
                ("Origin"@, SSO_ORIGIN@),
            ]);
            assert(pairs_view(form@) =~= seq![("user"@, username@), ("password"@, password@)]);
        }
        HttpRequest { url: String::from_str(SSO_URL), headers, body: RequestBody::Form(form) }
    }

    /// The client that a reply of the login endpoint leaves: a `success`
    /// reply gives it the token the reply holds, an `error` reply leaves it
    /// without a token, and a failed exchange is passed on as it came.
    pub fn finish_login(&self, reply: Result<ApiResponse, TransportError>) -> (r: Result<
        Client,
        TransportError,
    >)
        ensures
            match reply {
                Ok(ApiResponse::Success(c)) => r matches Ok(n) && n@ == (ClientView {
                    base: self@.base,
                    token: Some(c.token@),
                }),
                Ok(ApiResponse::Error(_)) => r matches Ok(n) && n@ == (ClientView {
                    base: self@.base,
                    token: None,
                }),
                Err(e) => r == Err::<Client, TransportError>(e),
            },
    {
        match reply {
            Ok(ApiResponse::Success(c)) => Ok(self.with_token(Some(c.token))),
            Ok(ApiResponse::Error(_)) => Ok(self.with_token(None)),
            Err(e) => Err(e),
        }
    }

    /// The client that the portal's answer leaves: any response, whatever its
    /// status, keeps the client as it is (the session now holds the cookies
    /// the response set); only a failed exchange is an error.
    pub fn finish_sso(&self, outcome: Result<u16, TransportError>) -> (r: Result<
        Client,
        TransportError,
    >)
        ensures
            match outcome {
                Ok(_) => r matches Ok(n) && n@ == self@,
                Err(e) => r == Err::<Client, TransportError>(e),
            },
    {
        match outcome {
            Ok(_) => Ok(self.with_token(self.api_key())),
            Err(e) => Err(e),
        }
    }
}

} // verus!

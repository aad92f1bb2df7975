use dolibarr_login::{
    ApiCredentials, ApiError, ApiResponse, Client, HttpRequest, RequestBody, TransportError,
};

const INSTANCE: &str = "https://apps.coop1d.com/BOS/api/index.php";

fn client() -> Client {
    match Client::new(INSTANCE.to_string()) {
        Ok(c) => c,
        Err(_) => panic!("no client"),
    }
}

fn pairs(v: &[(String, String)]) -> Vec<(&str, &str)> {
    v.iter().map(|(a, b)| (a.as_str(), b.as_str())).collect()
}

fn success(token: &str) -> Result<ApiResponse, TransportError> {
    Ok(ApiResponse::Success(ApiCredentials { token: token.to_string() }))
}

fn refused() -> Result<ApiResponse, TransportError> {
    Ok(ApiResponse::Error(ApiError { code: 403, message: "bad credentials".to_string() }))
}

#[test]
fn create_client() {
    let c = client();
    assert_eq!(c.instance_url(), INSTANCE);
    assert_eq!(c.api_key(), None);
    let sso = Client::sso_request("alice", "secret");
    assert_eq!(sso.url, "https://apps.coop1d.com/yunohost/sso/");
    let c = match c.finish_sso(Ok(200)) {
        Ok(c) => c,
        Err(_) => panic!("sso refused"),
    };
    let login = c.login_request("alice", "secret");
    assert_eq!(login.url, "https://apps.coop1d.com/BOS/api/index.php/login");
    match c.finish_login(success("tok-1")) {
        Ok(c) => assert_eq!(c.api_key(), Some("tok-1".to_string())),
        Err(_) => panic!("login refused"),
    }
}

#[test]
fn url_joins_with_slash() {
    assert_eq!(client().url("login"), format!("{}/login", INSTANCE));
    assert_eq!(client().url(""), format!("{}/", INSTANCE));
}

#[test]
fn login_request_is_json_post() {
    let r: HttpRequest = client().login_request("alice", "pw");
    assert_eq!(r.url, format!("{}/login", INSTANCE));
    assert_eq!(
        pairs(&r.headers),
        vec![("Accept", "application/json"), ("Content-Type", "application/json")]
    );
    match r.body {
        RequestBody::Json(b) => assert_eq!(b, r#"{"login":"alice","password":"pw"}"#),
        RequestBody::Form(_) => panic!("form body"),
    }
}

#[test]
fn login_request_escapes_json() {
    let r = client().login_request("a\"b\\c", "p\nw");
    match r.body {
        RequestBody::Json(b) => {
            assert_eq!(b, r#"{"login":"a\"b\\c","password":"p\nw"}"#);
            let v: serde_json::Value = serde_json::from_str(&b).unwrap();
            assert_eq!(v["login"], "a\"b\\c");
            assert_eq!(v["password"], "p\nw");
        }
        RequestBody::Form(_) => panic!("form body"),
    }
}

#[test]
fn sso_request_is_browser_form() {
    let r = Client::sso_request("bob", "hunter 2");
    assert_eq!(r.url, "https://apps.coop1d.com/yunohost/sso/");
    assert_eq!(
        pairs(&r.headers),
        vec![
            (
                "User-Agent",
                "Mozilla/5.0 (Macintosh; Intel Mac OS X 10.15; rv:87.0) Gecko/20100101 Firefox/87.0"
            ),
            ("Referer", "https://apps.coop1d.com/yunohost/sso/"),
            ("Origin", "https://apps.coop1d.com"),
        ]
    );
    match r.body {
        RequestBody::Form(f) => {
            assert_eq!(pairs(&f), vec![("user", "bob"), ("password", "hunter 2")])
        }
        RequestBody::Json(_) => panic!("json body"),
    }
}

#[test]
fn success_reply_sets_token() {
    let c = client().finish_login(success("tok-1")).ok().unwrap();
    assert_eq!(c.api_key(), Some("tok-1".to_string()));
    assert_eq!(c.instance_url(), INSTANCE);
}

#[test]
fn empty_token_is_kept() {
    let c = client().finish_login(success("")).ok().unwrap();
    assert_eq!(c.api_key(), Some(String::new()));
}

#[test]
fn error_reply_leaves_no_token() {
    let c = client().finish_login(refused()).ok().unwrap();
    assert_eq!(c.api_key(), None);
    let with = client().finish_login(success("old")).ok().unwrap();
    let again = with.finish_login(refused()).ok().unwrap();
    assert_eq!(again.api_key(), None);
}

#[test]
fn malformed_reply_is_transport_error() {
    let r = client().finish_login(Err(TransportError::Decode("missing field `token`".to_string())));
    match r {
        Err(TransportError::Decode(m)) => assert_eq!(m, "missing field `token`"),
        _ => panic!("expected a decode error"),
    }
    let r = client().finish_login(Err(TransportError::Connection("refused".to_string())));
    assert!(matches!(r, Err(TransportError::Connection(_))));
}

#[test]
fn sso_accepts_any_status() {
    for status in [200u16, 302, 403, 500] {
        let c = client().finish_sso(Ok(status)).ok().unwrap();
        assert_eq!(c.api_key(), None);
        assert_eq!(c.instance_url(), INSTANCE);
    }
    let t = client().finish_login(success("t")).ok().unwrap();
    let kept = t.finish_sso(Ok(401)).ok().unwrap();
    assert_eq!(kept.api_key(), Some("t".to_string()));
}

#[test]
fn sso_fails_without_response() {
    let r = client().finish_sso(Err(TransportError::Connection("dns".to_string())));
    match r {
        Err(TransportError::Connection(m)) => assert_eq!(m, "dns"),
        _ => panic!("expected a connection error"),
    }
}

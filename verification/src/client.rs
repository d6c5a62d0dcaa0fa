use vstd::prelude::*;

use crate::error::{EmailError, EmailErrorView};
use crate::exchange::{Header, HeaderName, HttpRequest, HttpRequestView, Method};
use crate::message::{opt_text, SendEmail, SendEmailView, SendOptions};

verus! {

/// Where the REST API lives unless another base URL is set.
pub const DEFAULT_BASE_URL: &'static str = "https://api.cloudflare.com/client/v4";

/// The environment variables that configure a client, as read by the caller.
pub struct Environment {
    /// `CLOUDFLARE_API_TOKEN`
    pub cloudflare_api_token: Option<String>,
    /// `CF_API_TOKEN`, used when `CLOUDFLARE_API_TOKEN` is not set
    pub cf_api_token: Option<String>,
    /// `CLOUDFLARE_ACCOUNT_ID`
    pub cloudflare_account_id: Option<String>,
    /// `CF_ACCOUNT_ID`, used when `CLOUDFLARE_ACCOUNT_ID` is not set
    pub cf_account_id: Option<String>,
}

/// The first of two optional texts that is present.
pub open spec fn first_set(primary: Option<Seq<char>>, fallback: Option<Seq<char>>) -> Option<
    Seq<char>,
> {
    match primary {
        Some(p) => Some(p),
        None => fallback,
    }
}

/// `s` without the `/` characters at its end.
pub open spec fn trim_trailing_slashes(s: Seq<char>) -> Seq<char>
    decreases s.len(),
{
    if s.len() > 0 && s.last() == '/' {
        trim_trailing_slashes(s.drop_last())
    } else {
        s
    }
}

/// The settings with which requests to the API are made.
#[derive(Clone, Debug)]
pub struct Email {
    api_key: String,
    account_id: Option<String>,
    base_url: String,
}

/// What an [`Email`] client is configured with.
pub struct EmailView {
    pub api_key: Seq<char>,
    pub account_id: Option<Seq<char>>,
    pub base_url: Seq<char>,
}

impl View for Email {
    type V = EmailView;

    closed spec fn view(&self) -> EmailView {
        EmailView {
            api_key: self.api_key@,
            account_id: opt_text(self.account_id),
            base_url: self.base_url@,
        }
    }
}

/// The clone of an optional text.
fn clone_opt(o: &Option<String>) -> (res: Option<String>)
    ensures
        opt_text(res) == opt_text(*o),
{
    match o {
        Some(s) => Some(s.clone()),
        None => None,
    }
}

/// The first of two optional values that is present, cloned.
fn first_of(primary: &Option<String>, fallback: &Option<String>) -> (res: Option<String>)
    ensures
        opt_text(res) == first_set(opt_text(*primary), opt_text(*fallback)),
{
    match primary {
        Some(p) => Some(p.clone()),
        None => clone_opt(fallback),
    }
}

impl Email {
    /// A client for `api_key`, with the account id that the environment gives
    /// (`CLOUDFLARE_ACCOUNT_ID`, else `CF_ACCOUNT_ID`, else none) and the default base URL.
    pub fn new(api_key: &str, env: &Environment) -> (res: Email)
        ensures
            res@ == (EmailView {
                api_key: api_key@,
                account_id: first_set(
                    opt_text(env.cloudflare_account_id),
                    opt_text(env.cf_account_id),
                ),
                base_url: DEFAULT_BASE_URL@,
            }),
    {
        Email {
            api_key: api_key.to_owned(),
            account_id: first_of(&env.cloudflare_account_id, &env.cf_account_id),
            base_url: DEFAULT_BASE_URL.to_owned(),
        }
    }

    /// A client whose token comes from the environment (`CLOUDFLARE_API_TOKEN`, else
    /// `CF_API_TOKEN`); without either, `MissingApiToken`.
    pub fn from_env(env: &Environment) -> (res: Result<Email, EmailError>)
        ensures
            match first_set(opt_text(env.cloudflare_api_token), opt_text(env.cf_api_token)) {
                None => res is Err && res->Err_0@ == EmailErrorView::MissingApiToken,
                Some(token) => res is Ok && res->Ok_0@ == (EmailView {
                    api_key: token,
                    account_id: first_set(
                        opt_text(env.cloudflare_account_id),
                        opt_text(env.cf_account_id),
                    ),
                    base_url: DEFAULT_BASE_URL@,
                }),
            },
    {
        let token = first_of(&env.cloudflare_api_token, &env.cf_api_token);
        match token {
            Some(t) => Ok(Email::new(t.as_str(), env)),
            None => Err(EmailError::MissingApiToken),
        }
    }

    /// Uses `account_id` for every send, so that no account is looked up.
    pub fn with_account_id(self, account_id: &str) -> (res: Email)
        ensures
            res@ == (EmailView { account_id: Some(account_id@), ..self@ }),
    {
        let mut e = self;
        e.account_id = Some(account_id.to_owned());
        e
    }

    /// Sends requests to `base_url` in place of the default, without its trailing `/`s.
    pub fn with_base_url(self, base_url: &str) -> (res: Email)
        ensures
            res@ == (EmailView { base_url: trim_trailing_slashes(base_url@), ..self@ }),
    {
        let mut e = self;
        e.base_url = trim_end_slashes(base_url);
        e
    }

    /// The token that authorizes requests.
    pub fn api_key(&self) -> (res: &str)
        ensures
            res@ == self@.api_key,
    {
        self.api_key.as_str()
    }

    /// The account that sends use, when one was configured.
    pub fn account_id(&self) -> (res: Option<&str>)
        ensures
            match res {
                Some(a) => self@.account_id == Some(a@),
                None => self@.account_id is None,
            },
    {
        match &self.account_id {
            Some(a) => Some(a.as_str()),
            None => None,
        }
    }

    /// The URL that paths of the API are appended to.
    pub fn base_url(&self) -> (res: &str)
        ensures
            res@ == self@.base_url,
    {
        self.base_url.as_str()
    }
}

/// `s` without the `/` characters at its end.
pub fn trim_end_slashes(s: &str) -> (res: String)
    ensures
        res@ == trim_trailing_slashes(s@),
{
    let n = s.unicode_len();
    let mut end: usize = n;
    proof {
        assert(s@.take(n as int) =~= s@);
    }
    while end > 0 && s.get_char(end - 1) == '/'
        invariant
            end <= n,
            n == s@.len(),
            trim_trailing_slashes(s@.take(end as int)) == trim_trailing_slashes(s@),
        decreases end,
    {
        proof {
            assert(s@.take(end as int).drop_last() =~= s@.take(end - 1));
        }
        end = end - 1;
    }
    let kept = s.substring_char(0, end);
    proof {
        assert(s@.subrange(0, end as int) =~= s@.take(end as int));
        if end > 0 {
            assert(s@.take(end as int).last() == s@[end - 1]);
        }
    }
    kept.to_owned()
}


/// The path of the endpoint that sends email from `account_id`.
pub open spec fn send_path(account_id: Seq<char>) -> Seq<char> {
    "/accounts/"@ + account_id + "/email/sending/send"@
}

/// The `Content-Type` of a JSON body.
pub open spec fn json_type() -> Seq<char> {
    "application/json"@
}

impl EmailView {
    /// The `Authorization` header's value: the token as a bearer credential.
    pub open spec fn authorization(self) -> Seq<char> {
        "Bearer "@ + self.api_key
    }

    /// The request for `path` with `method` and `body`: refused with `MissingApiToken`
    /// when the token is empty, else authorized, and typed as JSON when it has a body.
    pub open spec fn api_request(self, method: Method, path: Seq<char>, body: Option<SendEmailView>) -> Result<HttpRequestView, EmailErrorView> {
        if self.api_key.len() == 0 {
            Err(EmailErrorView::MissingApiToken)
        } else {
            let auth = seq![(HeaderName::Authorization, self.authorization())];
            Ok(HttpRequestView {
                method,
                url: self.base_url + path,
                headers: if body is Some {
                    auth.push((HeaderName::ContentType, json_type()))
                } else {
                    auth
                },
                body,
            })
        }
    }

    /// The request that lists the accounts the token can read.
    pub open spec fn accounts_request(self) -> Result<HttpRequestView, EmailErrorView> {
        self.api_request(Method::Get, "/accounts"@, None)
    }

    /// The request that sends `message` from `account_id`, with the idempotency key when
    /// there is one.
    pub open spec fn delivery_request(self, account_id: Seq<char>, message: SendEmailView, key: Option<Seq<char>>) -> HttpRequestView {
        let base = seq![
            (HeaderName::Authorization, self.authorization()),
            (HeaderName::ContentType, json_type()),
        ];
        HttpRequestView {
            method: Method::Post,
            url: self.base_url + send_path(account_id),
            headers: match key {
                Some(k) => base.push((HeaderName::IdempotencyKey, k)),
                None => base,
            },
            body: Some(message),
        }
    }
}

impl Email {
    /// The `Authorization` header's value: `Bearer ` and the token.
    pub fn authorization(&self) -> (res: String)
        ensures
            res@ == self@.authorization(),
    {
        let mut v = "Bearer ".to_owned();
        v.append(self.api_key.as_str());
        v
    }

    /// The URL of `path` under the base URL.
    pub fn endpoint(&self, path: &str) -> (res: String)
        ensures
            res@ == self@.base_url + path@,
    {
        let mut u = self.base_url.clone();
        u.append(path);
        u
    }

    /// A request for `path` with `method` and `body`; with an empty token, `MissingApiToken`.
    pub fn request(&self, method: Method, path: &str, body: Option<SendEmail>) -> (res: Result<HttpRequest, EmailError>)
        ensures
            match self@.api_request(method, path@, match body { Some(b) => Some(b@), None => None }) {
                Ok(r) => res is Ok && res->Ok_0@ == r,
                Err(e) => res is Err && res->Err_0@ == e,
            },
    {
        if self.api_key.as_str().is_empty() {
            return Err(EmailError::MissingApiToken);
        }
        let url = self.endpoint(path);
        let mut headers: Vec<Header> = Vec::new();
        headers.push(Header { name: HeaderName::Authorization, value: self.authorization() });
        if body.is_some() {
            headers.push(Header { name: HeaderName::ContentType, value: "application/json".to_owned() });
        }
        let req = HttpRequest { method, url, headers, body };
        proof {
            let auth = seq![(HeaderName::Authorization, self@.authorization())];
            if body is Some {
                assert(req@.headers =~= auth.push((HeaderName::ContentType, json_type())));
            } else {
                assert(req@.headers =~= auth);
            }
        }
        Ok(req)
    }

    /// The request that lists the accounts the token can read.
    pub fn accounts_request(&self) -> (res: Result<HttpRequest, EmailError>)
        ensures
            match self@.accounts_request() {
                Ok(r) => res is Ok && res->Ok_0@ == r,
                Err(e) => res is Err && res->Err_0@ == e,
            },
    {
        self.request(Method::Get, "/accounts", None)
    }

    /// The request that sends `message` from `account_id` with `options`.
    pub fn delivery_request(&self, account_id: &str, message: SendEmail, options: SendOptions) -> (res: HttpRequest)
        ensures
            res@ == self@.delivery_request(account_id@, message@, opt_text(options.idempotency_key)),
    {
        let mut path = "/accounts/".to_owned();
        path.append(account_id);
        path.append("/email/sending/send");
        let url = self.endpoint(path.as_str());
        let mut headers: Vec<Header> = Vec::new();
        headers.push(Header { name: HeaderName::Authorization, value: self.authorization() });
        headers.push(Header { name: HeaderName::ContentType, value: "application/json".to_owned() });
        let key = options.idempotency_key;
        match key {
            Some(k) => {
                headers.push(Header { name: HeaderName::IdempotencyKey, value: k });
            },
            None => {},
        }
        let ghost mview = message@;
        let req = HttpRequest { method: Method::Post, url, headers, body: Some(message) };
        proof {
            assert(path@ =~= send_path(account_id@));
            let base = seq![
                (HeaderName::Authorization, self@.authorization()),
                (HeaderName::ContentType, json_type()),
            ];
            match opt_text(options.idempotency_key) {
                Some(k) => assert(req@.headers =~= base.push((HeaderName::IdempotencyKey, k))),
                None => assert(req@.headers =~= base),
            }
        }
        req
    }
}

} // verus!

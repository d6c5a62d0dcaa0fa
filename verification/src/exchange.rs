//! The requests the client makes of the REST API, and how it reads the answers.
use vstd::prelude::*;

use crate::error::{api_errors_view, ApiError, ApiErrorView, EmailError, EmailErrorView};
use crate::message::{opt_text, texts, SendEmail, SendEmailView};
use crate::outside::{status_display, status_is_success, status_text};

verus! {

/// The HTTP methods the client uses.
#[derive(Clone, Copy, Debug, PartialEq, Eq, Structural)]
pub enum Method {
    Get,
    Post,
}

/// The headers the client sets.
#[derive(Clone, Copy, Debug, PartialEq, Eq, Structural)]
pub enum HeaderName {
    /// `Authorization`
    Authorization,
    /// `Content-Type`
    ContentType,
    /// `Idempotency-Key`
    IdempotencyKey,
}

/// One header of a request.
#[derive(Clone, Debug)]
pub struct Header {
    pub name: HeaderName,
    pub value: String,
}

/// A request to make of the API: the body, when there is one, is sent as JSON.
#[derive(Clone, Debug)]
pub struct HttpRequest {
    pub method: Method,
    pub url: String,
    pub headers: Vec<Header>,
    pub body: Option<SendEmail>,
}

/// What an [`HttpRequest`] asks for.
pub struct HttpRequestView {
    pub method: Method,
    pub url: Seq<char>,
    pub headers: Seq<(HeaderName, Seq<char>)>,
    pub body: Option<SendEmailView>,
}

/// The (name, value) texts of a list of headers, in order.
pub open spec fn headers_view(h: Seq<Header>) -> Seq<(HeaderName, Seq<char>)> {
    h.map_values(|x: Header| (x.name, x.value@))
}

impl View for HttpRequest {
    type V = HttpRequestView;

    open spec fn view(&self) -> HttpRequestView {
        HttpRequestView {
            method: self.method,
            url: self.url@,
            headers: headers_view(self.headers@),
            body: match self.body {
                Some(b) => Some(b@),
                None => None,
            },
        }
    }
}

/// An account that the API token can read.
#[derive(Clone, Debug)]
pub struct Account {
    pub id: String,
}

/// The answer of the API, read from its JSON body, with the HTTP status it came with.
#[derive(Debug)]
pub struct CloudflareResponse<T> {
    pub status: u16,
    pub success: bool,
    pub errors: Vec<ApiError>,
    pub result: Option<T>,
}

/// The failure that an answer with `status` and `errors` stands for: the first error's
/// code and message, or, without errors, no code and the status's text.
pub open spec fn api_failure(status: u16, errors: Seq<ApiErrorView>) -> EmailErrorView {
    EmailErrorView::Api {
        status,
        code: if errors.len() > 0 {
            Some(errors[0].code_text())
        } else {
            None
        },
        message: if errors.len() > 0 {
            errors[0].message
        } else {
            status_display(status)
        },
        details: errors,
    }
}

/// An answer is a failure unless its status is 2xx and it reports success.
pub open spec fn answer_failed(status: u16, success: bool) -> bool {
    !(200 <= status && status < 300) || !success
}

/// What an answer yields: a failure, its result, or `MissingResult` when a successful
/// answer has none.
pub open spec fn envelope_outcome<T>(status: u16, success: bool, errors: Seq<ApiErrorView>, result: Option<T>) -> Result<T, EmailErrorView> {
    if answer_failed(status, success) {
        Err(api_failure(status, errors))
    } else {
        match result {
            Some(r) => Ok(r),
            None => Err(EmailErrorView::MissingResult),
        }
    }
}

/// The value an answer yields, or the error it stands for.
pub fn read_envelope<T>(env: CloudflareResponse<T>) -> (res: Result<T, EmailError>)
    requires
        100 <= env.status <= 999,
    ensures
        match envelope_outcome(env.status, env.success, api_errors_view(env.errors@), env.result) {
            Ok(r) => res == Ok::<T, EmailError>(r),
            Err(e) => res is Err && res->Err_0@ == e,
        },
{
    let CloudflareResponse { status, success, errors, result } = env;
    if !status_is_success(status) || !success {
        let (code, message) = if errors.len() > 0 {
            (Some(errors[0].code()), errors[0].message.clone())
        } else {
            (None, status_text(status))
        };
        return Err(EmailError::Api { status, code, message, details: errors });
    }
    match result {
        Some(r) => Ok(r),
        None => Err(EmailError::MissingResult),
    }
}

/// The account to send from, among the accounts the token can read: the only one, or,
/// with none or several, `NoAccounts` or `MultipleAccounts`.
pub open spec fn account_choice(accounts: Seq<Seq<char>>) -> Result<Seq<char>, EmailErrorView> {
    if accounts.len() == 0 {
        Err(EmailErrorView::NoAccounts)
    } else if accounts.len() == 1 {
        Ok(accounts[0])
    } else {
        Err(EmailErrorView::MultipleAccounts)
    }
}

/// The ids of a list of accounts, in order.
pub open spec fn account_ids(accounts: Seq<Account>) -> Seq<Seq<char>> {
    accounts.map_values(|a: Account| a.id@)
}

/// Picks the account to send from: the only one the token can read.
pub fn choose_account(accounts: Vec<Account>) -> (res: Result<String, EmailError>)
    ensures
        match account_choice(account_ids(accounts@)) {
            Ok(id) => res is Ok && res->Ok_0@ == id,
            Err(e) => res is Err && res->Err_0@ == e,
        },
{
    if accounts.len() == 0 {
        Err(EmailError::NoAccounts)
    } else if accounts.len() == 1 {
        Ok(accounts[0].id.clone())
    } else {
        Err(EmailError::MultipleAccounts)
    }
}

/// `parts` joined with `sep` between each two of them.
pub open spec fn join(parts: Seq<Seq<char>>, sep: Seq<char>) -> Seq<char>
    decreases parts.len(),
{
    if parts.len() == 0 {
        Seq::empty()
    } else if parts.len() == 1 {
        parts[0]
    } else {
        join(parts.drop_last(), sep) + sep + parts.last()
    }
}

/// The result the API gives for a sent message.
#[derive(Clone, Debug)]
pub struct CloudflareSendResult {
    pub id: Option<String>,
    pub delivered: Vec<String>,
    pub queued: Vec<String>,
    pub permanent_bounces: Vec<String>,
}

/// What a [`CloudflareSendResult`] holds.
pub struct CloudflareSendResultView {
    pub id: Option<Seq<char>>,
    pub delivered: Seq<Seq<char>>,
    pub queued: Seq<Seq<char>>,
    pub permanent_bounces: Seq<Seq<char>>,
}

impl View for CloudflareSendResult {
    type V = CloudflareSendResultView;

    open spec fn view(&self) -> CloudflareSendResultView {
        CloudflareSendResultView {
            id: opt_text(self.id),
            delivered: texts(self.delivered@),
            queued: texts(self.queued@),
            permanent_bounces: texts(self.permanent_bounces@),
        }
    }
}

/// What the API said of a sent message.
#[derive(Clone, Debug, PartialEq, Eq)]
pub struct SendEmailResponse {
    pub id: String,
    pub delivered: Vec<String>,
    pub queued: Vec<String>,
    pub permanent_bounces: Vec<String>,
}

/// What a [`SendEmailResponse`] holds.
pub struct SendEmailResponseView {
    pub id: Seq<char>,
    pub delivered: Seq<Seq<char>>,
    pub queued: Seq<Seq<char>>,
    pub permanent_bounces: Seq<Seq<char>>,
}

impl View for SendEmailResponse {
    type V = SendEmailResponseView;

    open spec fn view(&self) -> SendEmailResponseView {
        SendEmailResponseView {
            id: self.id@,
            delivered: texts(self.delivered@),
            queued: texts(self.queued@),
            permanent_bounces: texts(self.permanent_bounces@),
        }
    }
}

impl CloudflareSendResultView {
    /// The message's id: the one the API gave, else the delivered and then the queued
    /// addresses joined with commas.
    pub open spec fn message_id(self) -> Seq<char> {
        match self.id {
            Some(id) => id,
            None => join(self.delivered + self.queued, ","@),
        }
    }

    /// The response made of this result.
    pub open spec fn response(self) -> SendEmailResponseView {
        SendEmailResponseView {
            id: self.message_id(),
            delivered: self.delivered,
            queued: self.queued,
            permanent_bounces: self.permanent_bounces,
        }
    }
}

/// The parts appended to `acc`, each after a `,` but for the first when `acc` is empty.
fn append_joined(acc: &mut String, started: bool, parts: &Vec<String>, Ghost(done): Ghost<Seq<Seq<char>>>) -> (now_started: bool)
    requires
        old(acc)@ == join(done, ","@),
        started == (done.len() > 0),
    ensures
        final(acc)@ == join(done + texts(parts@), ","@),
        now_started == (done.len() + parts@.len() > 0),
{
    let mut started = started;
    let mut i: usize = 0;
    while i < parts.len()
        invariant
            i <= parts@.len(),
            acc@ == join(done + texts(parts@).take(i as int), ","@),
            started == (done.len() + i > 0),
        decreases parts@.len() - i,
    {
        let ghost prefix = done + texts(parts@).take(i as int);
        if started {
            acc.append(",");
        }
        acc.append(parts[i].as_str());
        proof {
            let next = done + texts(parts@).take(i as int + 1);
            assert(next =~= prefix.push(parts@[i as int]@));
            assert(next.drop_last() =~= prefix);
            reveal_strlit(",");
            if prefix.len() == 0 {
                assert(acc@ =~= parts@[i as int]@);
            } else {
                assert(acc@ =~= join(prefix, ","@) + ","@ + parts@[i as int]@);
            }
        }
        started = true;
        i = i + 1;
    }
    proof {
        assert(texts(parts@).take(parts@.len() as int) =~= texts(parts@));
    }
    started
}

impl CloudflareSendResult {
    /// The message's id: the one the API gave, else the delivered and then the queued
    /// addresses joined with commas.
    pub fn id(&self) -> (res: String)
        ensures
            res@ == self@.message_id(),
    {
        match &self.id {
            Some(id) => id.clone(),
            None => {
                let mut acc = String::new();
                let started = append_joined(&mut acc, false, &self.delivered, Ghost(Seq::empty()));
                let _ = append_joined(&mut acc, started, &self.queued, Ghost(texts(self.delivered@)));
                proof {
                    assert(Seq::<Seq<char>>::empty() + texts(self.delivered@) =~= texts(self.delivered@));
                }
                acc
            },
        }
    }

    /// The response made of this result.
    pub fn into_response(self) -> (res: SendEmailResponse)
        ensures
            res@ == self@.response(),
    {
        let id = self.id();
        SendEmailResponse {
            id,
            delivered: self.delivered,
            queued: self.queued,
            permanent_bounces: self.permanent_bounces,
        }
    }
}

} // verus!

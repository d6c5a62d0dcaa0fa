//! Sending one email, as a sequence of decisions between the requests that the caller makes.
//!
//! The caller starts a [`Delivery`], calls [`Delivery::step`] with no reply, performs each
//! request that an [`Action`] asks for, and hands the answer back in the next step, until
//! the action is [`Action::Finish`].
use vstd::prelude::*;

use crate::client::{Email, EmailView};
use crate::error::{api_errors_view, outcome, EmailError, EmailErrorView, ApiErrorView};
use crate::exchange::{
    account_choice, account_ids, choose_account, envelope_outcome, read_envelope, Account,
    CloudflareResponse, HttpRequest, HttpRequestView, SendEmailResponse, SendEmailResponseView, CloudflareSendResult,
    CloudflareSendResultView,
};
use crate::message::{opt_text, SendEmail, SendEmailView, SendOptions};

verus! {

/// Where a delivery stands.
pub enum Delivery {
    /// Nothing has been sent yet.
    Ready { email: Email, message: SendEmail, options: SendOptions },
    /// The accounts that the token can read were asked for.
    AwaitingAccount { email: Email, message: SendEmail, options: SendOptions },
    /// The message was sent; its result is awaited.
    AwaitingResult,
    /// The outcome was handed out.
    Finished,
}

/// What a [`Delivery`] holds.
pub enum DeliveryView {
    Ready { email: EmailView, message: SendEmailView, key: Option<Seq<char>> },
    AwaitingAccount { email: EmailView, message: SendEmailView, key: Option<Seq<char>> },
    AwaitingResult,
    Finished,
}

impl View for Delivery {
    type V = DeliveryView;

    open spec fn view(&self) -> DeliveryView {
        match self {
            Delivery::Ready { email, message, options } => DeliveryView::Ready {
                email: email@,
                message: message@,
                key: opt_text(options.idempotency_key),
            },
            Delivery::AwaitingAccount { email, message, options } => DeliveryView::AwaitingAccount {
                email: email@,
                message: message@,
                key: opt_text(options.idempotency_key),
            },
            Delivery::AwaitingResult => DeliveryView::AwaitingResult,
            Delivery::Finished => DeliveryView::Finished,
        }
    }
}

/// An answer of the API as the delivery reads it.
pub struct AnswerView<V> {
    pub status: u16,
    pub success: bool,
    pub errors: Seq<ApiErrorView>,
    pub result: Option<V>,
}

/// What the caller hands back after performing a request: the API's answer, or the
/// transport failure that kept it from coming.
pub enum Reply {
    /// The answer to [`Action::ListAccounts`].
    Accounts(Result<CloudflareResponse<Vec<Account>>, reqwest::Error>),
    /// The answer to [`Action::Send`].
    Sent(Result<CloudflareResponse<CloudflareSendResult>, reqwest::Error>),
}

/// What a [`Reply`] holds.
pub enum ReplyView {
    Accounts(Result<AnswerView<Seq<Seq<char>>>, reqwest::Error>),
    Sent(Result<AnswerView<CloudflareSendResultView>, reqwest::Error>),
}

impl View for Reply {
    type V = ReplyView;

    open spec fn view(&self) -> ReplyView {
        match self {
            Reply::Accounts(Ok(e)) => ReplyView::Accounts(Ok(AnswerView {
                status: e.status,
                success: e.success,
                errors: api_errors_view(e.errors@),
                result: match e.result {
                    Some(a) => Some(account_ids(a@)),
                    None => None,
                },
            })),
            Reply::Accounts(Err(t)) => ReplyView::Accounts(Err(*t)),
            Reply::Sent(Ok(e)) => ReplyView::Sent(Ok(AnswerView {
                status: e.status,
                success: e.success,
                errors: api_errors_view(e.errors@),
                result: match e.result {
                    Some(r) => Some(r@),
                    None => None,
                },
            })),
            Reply::Sent(Err(t)) => ReplyView::Sent(Err(*t)),
        }
    }
}

/// The view of an optional reply.
pub open spec fn reply_view(r: Option<Reply>) -> Option<ReplyView> {
    match r {
        Some(x) => Some(x@),
        None => None,
    }
}

/// What the caller is asked to do next.
pub enum Action {
    /// Make this request and hand its answer back as [`Reply::Accounts`].
    ListAccounts(HttpRequest),
    /// Make this request and hand its answer back as [`Reply::Sent`].
    Send(HttpRequest),
    /// The delivery is over, with this outcome.
    Finish(Result<SendEmailResponse, EmailError>),
}

/// What an [`Action`] asks for.
pub enum ActionView {
    ListAccounts(HttpRequestView),
    Send(HttpRequestView),
    Finish(Result<SendEmailResponseView, EmailErrorView>),
}

impl View for Action {
    type V = ActionView;

    open spec fn view(&self) -> ActionView {
        match self {
            Action::ListAccounts(r) => ActionView::ListAccounts(r@),
            Action::Send(r) => ActionView::Send(r@),
            Action::Finish(o) => ActionView::Finish(outcome(*o)),
        }
    }
}

/// What an answer yields, read as [`envelope_outcome`] reads it.
pub open spec fn answer_outcome<V>(a: AnswerView<V>) -> Result<V, EmailErrorView> {
    envelope_outcome(a.status, a.success, a.errors, a.result)
}

/// A status that an HTTP answer can carry.
pub open spec fn valid_status(status: u16) -> bool {
    100 <= status <= 999
}

/// The reply that a delivery in state `d` can take: none to start, then the answer to
/// the request it asked for.
pub open spec fn accepts(d: DeliveryView, reply: Option<ReplyView>) -> bool {
    match d {
        DeliveryView::Ready { .. } => reply is None,
        DeliveryView::AwaitingAccount { .. } => match reply {
            Some(ReplyView::Accounts(Ok(a))) => valid_status(a.status),
            Some(ReplyView::Accounts(Err(_))) => true,
            _ => false,
        },
        DeliveryView::AwaitingResult => match reply {
            Some(ReplyView::Sent(Ok(a))) => valid_status(a.status),
            Some(ReplyView::Sent(Err(_))) => true,
            _ => false,
        },
        DeliveryView::Finished => false,
    }
}

/// Sending from `account`: the request that sends the message, and the wait for its result.
pub open spec fn send_from(email: EmailView, account: Seq<char>, message: SendEmailView, key: Option<Seq<char>>) -> (DeliveryView, ActionView) {
    (DeliveryView::AwaitingResult, ActionView::Send(email.delivery_request(account, message, key)))
}

/// The end of a delivery with `outcome`.
pub open spec fn finish(outcome: Result<SendEmailResponseView, EmailErrorView>) -> (DeliveryView, ActionView) {
    (DeliveryView::Finished, ActionView::Finish(outcome))
}

/// The next state of a delivery in state `d` given `reply`, and what it asks for.
///
/// A message that cannot be sent ends the delivery before any request. With an account
/// configured, the message is sent from it; without one, the accounts that the token can
/// read are listed and the only one is used. A transport failure, a failed answer, or
/// an answer without its result ends the delivery with that error; the result of the
/// send ends it with the response. Replies that [`accepts`] refuses lie outside the
/// protocol; for them the delivery ends with `MissingResult`.
pub open spec fn transition(d: DeliveryView, reply: Option<ReplyView>) -> (DeliveryView, ActionView) {
    match d {
        DeliveryView::Ready { email, message, key } => match message.refusal() {
            Some(reason) => finish(Err(EmailErrorView::Validation(reason))),
            None => match email.account_id {
                Some(account) => send_from(email, account, message, key),
                None => match email.accounts_request() {
                    Err(e) => finish(Err(e)),
                    Ok(req) => (
                        DeliveryView::AwaitingAccount { email, message, key },
                        ActionView::ListAccounts(req),
                    ),
                },
            },
        },
        DeliveryView::AwaitingAccount { email, message, key } => match reply {
            Some(ReplyView::Accounts(Err(t))) => finish(Err(EmailErrorView::Http(t))),
            Some(ReplyView::Accounts(Ok(answer))) => match answer_outcome(answer) {
                Err(e) => finish(Err(e)),
                Ok(ids) => match account_choice(ids) {
                    Err(e) => finish(Err(e)),
                    Ok(account) => send_from(email, account, message, key),
                },
            },
            _ => finish(Err(EmailErrorView::MissingResult)),
        },
        DeliveryView::AwaitingResult => match reply {
            Some(ReplyView::Sent(Err(t))) => finish(Err(EmailErrorView::Http(t))),
            Some(ReplyView::Sent(Ok(answer))) => match answer_outcome(answer) {
                Err(e) => finish(Err(e)),
                Ok(result) => finish(Ok(result.response())),
            },
            _ => finish(Err(EmailErrorView::MissingResult)),
        },
        DeliveryView::Finished => finish(Err(EmailErrorView::MissingResult)),
    }
}

impl Delivery {
    /// A delivery of `message` through `email`, with `options`, that has not started.
    pub fn new(email: Email, message: SendEmail, options: SendOptions) -> (res: Delivery)
        ensures
            res@ == (DeliveryView::Ready {
                email: email@,
                message: message@,
                key: opt_text(options.idempotency_key),
            }),
    {
        Delivery::Ready { email, message, options }
    }

    /// Whether `reply` is one this delivery can take next.
    pub fn accepts(&self, reply: &Option<Reply>) -> (res: bool)
        ensures
            res == accepts(self@, reply_view(*reply)),
    {
        match self {
            Delivery::Ready { .. } => reply.is_none(),
            Delivery::AwaitingAccount { .. } => match reply {
                Some(Reply::Accounts(Ok(a))) => 100 <= a.status && a.status <= 999,
                Some(Reply::Accounts(Err(_))) => true,
                _ => false,
            },
            Delivery::AwaitingResult => match reply {
                Some(Reply::Sent(Ok(a))) => 100 <= a.status && a.status <= 999,
                Some(Reply::Sent(Err(_))) => true,
                _ => false,
            },
            Delivery::Finished => false,
        }
    }

    /// Takes `reply`, the answer to the last request, and decides what comes next.
    pub fn step(self, reply: Option<Reply>) -> (res: (Delivery, Action))
        requires
            accepts(self@, reply_view(reply)),
        ensures
            (res.0@, res.1@) == transition(self@, reply_view(reply)),
    {
        match self {
            Delivery::Ready { email, message, options } => {
                match message.validate() {
                    Err(e) => return (Delivery::Finished, Action::Finish(Err(e))),
                    Ok(()) => {},
                }
                match email.account_id() {
                    Some(account) => {
                        let account = account.to_owned();
                        let req = email.delivery_request(account.as_str(), message, options);
                        (Delivery::AwaitingResult, Action::Send(req))
                    },
                    None => match email.accounts_request() {
                        Err(e) => (Delivery::Finished, Action::Finish(Err(e))),
                        Ok(req) => (
                            Delivery::AwaitingAccount { email, message, options },
                            Action::ListAccounts(req),
                        ),
                    },
                }
            },
            Delivery::AwaitingAccount { email, message, options } => {
                let answer = match reply {
                    Some(Reply::Accounts(a)) => a,
                    _ => {
                        return (Delivery::Finished, Action::Finish(Err(EmailError::MissingResult)));
                    },
                };
                let envelope = match answer {
                    Err(t) => return (Delivery::Finished, Action::Finish(Err(EmailError::Http(t)))),
                    Ok(env) => env,
                };
                let accounts = match read_envelope(envelope) {
                    Err(e) => return (Delivery::Finished, Action::Finish(Err(e))),
                    Ok(a) => a,
                };
                match choose_account(accounts) {
                    Err(e) => (Delivery::Finished, Action::Finish(Err(e))),
                    Ok(account) => {
                        let req = email.delivery_request(account.as_str(), message, options);
                        (Delivery::AwaitingResult, Action::Send(req))
                    },
                }
            },
            Delivery::AwaitingResult => {
                let answer = match reply {
                    Some(Reply::Sent(a)) => a,
                    _ => {
                        return (Delivery::Finished, Action::Finish(Err(EmailError::MissingResult)));
                    },
                };
                let envelope = match answer {
                    Err(t) => return (Delivery::Finished, Action::Finish(Err(EmailError::Http(t)))),
                    Ok(env) => env,
                };
                match read_envelope(envelope) {
                    Err(e) => (Delivery::Finished, Action::Finish(Err(e))),
                    Ok(result) => (Delivery::Finished, Action::Finish(Ok(result.into_response()))),
                }
            },
            Delivery::Finished => (Delivery::Finished, Action::Finish(Err(EmailError::MissingResult))),
        }
    }
}

} // verus!

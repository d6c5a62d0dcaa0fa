//! Properties that hold of the library as a whole.
use vstd::prelude::*;

use crate::client::{first_set, send_path, trim_trailing_slashes, EmailView};
use crate::delivery::{
    accepts, answer_outcome, finish, transition, ActionView, AnswerView, DeliveryView, ReplyView,
};
use crate::error::{ApiErrorView, ErrorCodeView, EmailErrorView};
use crate::exchange::{api_failure, answer_failed, CloudflareSendResultView, HeaderName, Method};
use crate::message::{
    distinct_names, header_value, without_header, AttachmentView, SendEmailView,
};
use crate::outside::status_display;

verus! {

/// The header entries of a message, none when it has no headers.
pub open spec fn header_entries(m: SendEmailView) -> Seq<(Seq<char>, Seq<char>)> {
    match m.headers {
        Some(h) => h,
        None => Seq::empty(),
    }
}

proof fn lemma_without_header_lookup(h: Seq<(Seq<char>, Seq<char>)>, name: Seq<char>, other: Seq<char>)
    requires
        other != name,
    ensures
        header_value(without_header(h, name), other) == header_value(h, other),
        header_value(without_header(h, name), name) is None,
    decreases h.len(),
{
    if h.len() > 0 {
        let rest = h.drop_last();
        lemma_without_header_lookup(rest, name, other);
        let w = without_header(rest, name);
        if h.last().0 != name {
            assert(w.push(h.last()).drop_last() =~= w);
        }
    }
}

proof fn lemma_without_header_names(h: Seq<(Seq<char>, Seq<char>)>, name: Seq<char>)
    requires
        distinct_names(h),
    ensures
        distinct_names(without_header(h, name)),
        forall|i: int| 0 <= i < without_header(h, name).len() ==> (#[trigger] without_header(h, name)[i]).0 != name,
        forall|i: int| 0 <= i < without_header(h, name).len() ==> h.contains(#[trigger] without_header(h, name)[i]),
    decreases h.len(),
{
    if h.len() > 0 {
        let rest = h.drop_last();
        assert(distinct_names(rest)) by {
            assert forall|i: int, j: int| 0 <= i < j < rest.len() implies #[trigger] rest[i].0 != #[trigger] rest[j].0 by {
                assert(rest[i] == h[i] && rest[j] == h[j]);
            }
        }
        lemma_without_header_names(rest, name);
        let w = without_header(rest, name);
        assert forall|i: int| 0 <= i < w.len() implies h.contains(#[trigger] w[i]) by {
            let k = choose|k: int| 0 <= k < rest.len() && rest[k] == w[i];
            assert(h[k] == w[i]);
        }
        if h.last().0 != name {
            let out = w.push(h.last());
            assert forall|i: int, j: int| 0 <= i < j < out.len() implies #[trigger] out[i].0 != #[trigger] out[j].0 by {
                if j == out.len() - 1 {
                    let k = choose|k: int| 0 <= k < rest.len() && rest[k] == w[i];
                    assert(h[k] == out[i]);
                    assert(h[h.len() - 1] == out[j]);
                }
            }
            assert forall|i: int| 0 <= i < out.len() implies h.contains(#[trigger] out[i]) by {
                if i == out.len() - 1 {
                    assert(h[h.len() - 1] == out[i]);
                }
            }
        }
    }
}

/// Setting a header makes it read back as the value set.
pub proof fn header_reads_back(m: SendEmailView, name: Seq<char>, value: Seq<char>)
    ensures
        header_value(header_entries(m.with_header(name, value)), name) == Some(value),
{
}

/// Setting a header leaves every header of another name as it was.
pub proof fn header_keeps_others(m: SendEmailView, name: Seq<char>, value: Seq<char>, other: Seq<char>)
    requires
        other != name,
    ensures
        header_value(header_entries(m.with_header(name, value)), other) == header_value(
            header_entries(m),
            other,
        ),
{
    lemma_without_header_lookup(header_entries(m), name, other);
    let w = without_header(header_entries(m), name);
    assert(w.push((name, value)).drop_last() =~= w);
}

/// Setting a header keeps the header names distinct: a name occurs at most once.
pub proof fn header_names_stay_distinct(m: SendEmailView, name: Seq<char>, value: Seq<char>)
    requires
        distinct_names(header_entries(m)),
    ensures
        distinct_names(header_entries(m.with_header(name, value))),
{
    lemma_without_header_names(header_entries(m), name);
    let w = without_header(header_entries(m), name);
    let out = w.push((name, value));
    assert(header_entries(m.with_header(name, value)) == out);
    assert forall|i: int, j: int| 0 <= i < j < out.len() implies #[trigger] out[i].0 != #[trigger] out[j].0 by {
        if j == out.len() - 1 {
            assert(w[i].0 != name);
        } else {
            assert(out[i] == w[i] && out[j] == w[j]);
        }
    }
}

proof fn lemma_without_header_twice(h: Seq<(Seq<char>, Seq<char>)>, name: Seq<char>)
    ensures
        without_header(without_header(h, name), name) == without_header(h, name),
    decreases h.len(),
{
    if h.len() > 0 {
        let rest = h.drop_last();
        lemma_without_header_twice(rest, name);
        let w = without_header(rest, name);
        if h.last().0 != name {
            assert(w.push(h.last()).drop_last() =~= w);
        }
    }
}

/// Setting a header twice leaves the message as setting it once to the later value.
pub proof fn header_last_write_wins(m: SendEmailView, name: Seq<char>, first: Seq<char>, second: Seq<char>)
    ensures
        m.with_header(name, first).with_header(name, second) == m.with_header(name, second),
{
    let w = without_header(header_entries(m), name);
    assert(w.push((name, first)).drop_last() =~= w);
    lemma_without_header_twice(header_entries(m), name);
}

/// A base URL keeps no `/` at its end, trimming again changes nothing, and what is left is
/// the start of what was given.
pub proof fn base_url_is_trimmed(s: Seq<char>)
    ensures
        trim_trailing_slashes(s).len() == 0 || trim_trailing_slashes(s).last() != '/',
        trim_trailing_slashes(trim_trailing_slashes(s)) == trim_trailing_slashes(s),
        trim_trailing_slashes(s).len() <= s.len(),
        trim_trailing_slashes(s) == s.take(trim_trailing_slashes(s).len() as int),
        forall|i: int| trim_trailing_slashes(s).len() <= i < s.len() ==> #[trigger] s[i] == '/',
    decreases s.len(),
{
    if s.len() > 0 && s.last() == '/' {
        base_url_is_trimmed(s.drop_last());
        assert forall|i: int| trim_trailing_slashes(s).len() <= i < s.len() implies #[trigger] s[i] == '/' by {
            if i < s.len() - 1 {
                assert(s.drop_last()[i] == s[i]);
            }
        }
        assert(s.drop_last().take(trim_trailing_slashes(s).len() as int) =~= s.take(
            trim_trailing_slashes(s).len() as int,
        ));
    } else {
        assert(s.take(s.len() as int) =~= s);
    }
}

/// A message that cannot be sent ends its delivery at once, with the reason, and no
/// request is made.
pub proof fn refused_message_sends_nothing(email: EmailView, message: SendEmailView, key: Option<Seq<char>>)
    requires
        message.refusal() is Some,
    ensures
        transition(DeliveryView::Ready { email, message, key }, None) == finish(
            Err(EmailErrorView::Validation(message.refusal().unwrap())),
        ),
{
}

/// With an account configured, a sendable message is posted to that account's send
/// endpoint at once, with the token as bearer credential, the idempotency key when there
/// is one, and the message as body; no account is looked up.
pub proof fn configured_account_is_used(email: EmailView, message: SendEmailView, key: Option<Seq<char>>, account: Seq<char>)
    requires
        message.refusal() is None,
        email.account_id == Some(account),
    ensures
        transition(DeliveryView::Ready { email, message, key }, None).0 == DeliveryView::AwaitingResult,
        transition(DeliveryView::Ready { email, message, key }, None).1 matches ActionView::Send(r)
            && r.method == Method::Post
            && r.url == email.base_url + "/accounts/"@ + account + "/email/sending/send"@
            && r.headers[0] == (HeaderName::Authorization, "Bearer "@ + email.api_key)
            && r.headers[1] == (HeaderName::ContentType, "application/json"@)
            && (key matches Some(k) ==> r.headers.len() == 3 && r.headers[2] == (HeaderName::IdempotencyKey, k))
            && (key is None ==> r.headers.len() == 2)
            && r.body == Some(message),
{
}

/// Without an account configured, a sendable message first lists the accounts the token
/// can read, with the token as bearer credential; an empty token ends the delivery with
/// `MissingApiToken` instead.
pub proof fn missing_account_is_looked_up(email: EmailView, message: SendEmailView, key: Option<Seq<char>>)
    requires
        message.refusal() is None,
        email.account_id is None,
    ensures
        email.api_key.len() == 0 ==> transition(DeliveryView::Ready { email, message, key }, None)
            == finish(Err(EmailErrorView::MissingApiToken)),
        email.api_key.len() > 0 ==> (transition(DeliveryView::Ready { email, message, key }, None).1 matches ActionView::ListAccounts(r)
            && r.method == Method::Get
            && r.url == email.base_url + "/accounts"@
            && r.headers == seq![(HeaderName::Authorization, "Bearer "@ + email.api_key)]
            && r.body is None),
{
}

/// A successful answer that lists exactly one account makes the delivery send from it.
pub proof fn single_account_is_used(email: EmailView, message: SendEmailView, key: Option<Seq<char>>, answer: AnswerView<Seq<Seq<char>>>, account: Seq<char>)
    requires
        !answer_failed(answer.status, answer.success),
        answer.result == Some(seq![account]),
    ensures
        transition(DeliveryView::AwaitingAccount { email, message, key }, Some(ReplyView::Accounts(Ok(answer))))
            == (DeliveryView::AwaitingResult, ActionView::Send(email.delivery_request(account, message, key))),
{
}

/// A successful answer that lists no account, or several, ends the delivery with
/// `NoAccounts` or `MultipleAccounts`.
pub proof fn account_must_be_unique(email: EmailView, message: SendEmailView, key: Option<Seq<char>>, answer: AnswerView<Seq<Seq<char>>>, ids: Seq<Seq<char>>)
    requires
        !answer_failed(answer.status, answer.success),
        answer.result == Some(ids),
        ids.len() != 1,
    ensures
        transition(DeliveryView::AwaitingAccount { email, message, key }, Some(ReplyView::Accounts(Ok(answer))))
            == finish(Err(if ids.len() == 0 { EmailErrorView::NoAccounts } else { EmailErrorView::MultipleAccounts })),
{
}

/// An answer with a status other than 2xx, or one that reports no success, ends the
/// delivery with the API's error: the status, the first error's code and message, and
/// all the errors.
pub proof fn failed_answer_is_reported(d: DeliveryView, reply: Option<ReplyView>)
    requires
        accepts(d, reply),
        (reply matches Some(ReplyView::Accounts(Ok(a))) ==> answer_failed(a.status, a.success)),
        (reply matches Some(ReplyView::Sent(Ok(a))) ==> answer_failed(a.status, a.success)),
        (reply matches Some(ReplyView::Accounts(Ok(_)))) || (reply matches Some(ReplyView::Sent(Ok(_)))),
    ensures
        (reply matches Some(ReplyView::Accounts(Ok(a))) ==> transition(d, reply) == finish(Err(api_failure(a.status, a.errors)))),
        (reply matches Some(ReplyView::Sent(Ok(a))) ==> transition(d, reply) == finish(Err(api_failure(a.status, a.errors)))),
{
}

/// The primary setting wins whenever it is present, whatever the fallback; the fallback
/// is used exactly when the primary is absent.
pub proof fn primary_setting_wins(primary: Option<Seq<char>>, fallback: Option<Seq<char>>, p: Seq<char>)
    ensures
        first_set(Some(p), fallback) == Some(p),
        first_set(None, fallback) == fallback,
        primary is Some ==> first_set(primary, fallback) == primary,
{
}

/// A message with an empty subject is refused for its subject, whatever its bodies; one
/// with a subject but neither body is refused for the body; every other message passes.
pub proof fn refusal_reasons(m: SendEmailView)
    ensures
        m.subject.len() == 0 ==> m.refusal() == Some("subject is required"@),
        m.subject.len() > 0 && m.html is None && m.text is None ==> m.refusal() == Some(
            "Either html or text is required"@,
        ),
        (m.refusal() is None) <==> (m.subject.len() > 0 && (m.html is Some || m.text is Some)),
{
}

/// Adding an attachment keeps the earlier ones and puts exactly the given one after them;
/// nothing else of the message changes.
pub proof fn attachment_is_appended_unchanged(m: SendEmailView, a: AttachmentView)
    ensures
        ({
            let before = match m.attachments {
                Some(v) => v,
                None => Seq::<AttachmentView>::empty(),
            };
            let after = m.with_attachment(a);
            &&& after.attachments is Some
            &&& after.attachments.unwrap().len() == before.len() + 1
            &&& after.attachments.unwrap().last() == a
            &&& after.attachments.unwrap().drop_last() == before
            &&& after == SendEmailView { attachments: after.attachments, ..m }
        }),
{
    let before = match m.attachments {
        Some(v) => v,
        None => Seq::<AttachmentView>::empty(),
    };
    assert(before.push(a).drop_last() =~= before);
}

/// Without an id from the API, the message id is made of the delivered and queued
/// addresses only: it does not depend on the bounced ones. A single delivered or queued
/// address is the id itself, and two are joined with a comma; an id from the API is
/// taken as it is.
pub proof fn message_id_ignores_bounces(r: CloudflareSendResultView, bounces: Seq<Seq<char>>, d: Seq<char>, q: Seq<char>)
    ensures
        (CloudflareSendResultView { permanent_bounces: bounces, ..r }).message_id() == r.message_id(),
        (r.id matches Some(i) ==> r.message_id() == i),
        r.id is None && r.delivered == seq![d] && r.queued.len() == 0 ==> r.message_id() == d,
        r.id is None && r.delivered.len() == 0 && r.queued == seq![q] ==> r.message_id() == q,
        r.id is None && r.delivered == seq![d] && r.queued == seq![q] ==> r.message_id() == d + ","@ + q,
{
    if r.id is None && r.delivered == seq![d] && r.queued.len() == 0 {
        assert(r.delivered + r.queued =~= seq![d]);
    }
    if r.id is None && r.delivered.len() == 0 && r.queued == seq![q] {
        assert(r.delivered + r.queued =~= seq![q]);
    }
    if r.id is None && r.delivered == seq![d] && r.queued == seq![q] {
        let both = r.delivered + r.queued;
        assert(both =~= seq![d, q]);
        assert(both.drop_last() =~= seq![d]);
        assert(both.last() == q);
        assert(crate::exchange::join(seq![d], ","@) == d);
        assert(crate::exchange::join(both, ","@) == crate::exchange::join(both.drop_last(), ","@) + ","@ + both.last());
    }
}

/// A successful send answer finishes the delivery with a response that carries the
/// result's delivered, queued and bounced addresses unchanged, and the result's id.
pub proof fn response_carries_the_result(answer: AnswerView<CloudflareSendResultView>, r: CloudflareSendResultView)
    requires
        200 <= answer.status < 300,
        answer.success,
        answer.result == Some(r),
    ensures
        transition(DeliveryView::AwaitingResult, Some(ReplyView::Sent(Ok(answer)))).0 == DeliveryView::Finished,
        transition(DeliveryView::AwaitingResult, Some(ReplyView::Sent(Ok(answer)))).1 matches ActionView::Finish(Ok(v))
            && v.delivered == r.delivered
            && v.queued == r.queued
            && v.permanent_bounces == r.permanent_bounces
            && v.id == r.message_id()
            && (r.id matches Some(i) ==> v.id == i),
{
}

/// How an answer is read: a status outside 2xx or a reported failure gives the API's
/// error, with the status, the first error's code (a string code as it is, any other as
/// its JSON text) and message, or, without errors, no code and the status's text; a
/// success gives its result, and `MissingResult` when it has none.
pub proof fn answers_are_read<V>(a: AnswerView<V>)
    ensures
        ({
            let failed = !(200 <= a.status < 300) || !a.success;
            let first_code = if a.errors.len() > 0 {
                match a.errors[0].code {
                    ErrorCodeView::Text(t) => Some(t),
                    ErrorCodeView::Json(t) => Some(t),
                }
            } else {
                None
            };
            let message = if a.errors.len() > 0 {
                a.errors[0].message
            } else {
                status_display(a.status)
            };
            failed ==> answer_outcome(a) == Err::<V, EmailErrorView>(
                EmailErrorView::Api { status: a.status, code: first_code, message, details: a.errors },
            )
        }),
        (200 <= a.status < 300 && a.success && a.result is None) ==> answer_outcome(a) == Err::<V, EmailErrorView>(EmailErrorView::MissingResult),
        (200 <= a.status < 300 && a.success && a.result is Some) ==> answer_outcome(a) == Ok::<V, EmailErrorView>(a.result.unwrap()),
{
}

/// A transport failure, while listing accounts or sending, ends the delivery with that
/// failure as an `Http` error.
pub proof fn transport_failure_is_reported(email: EmailView, message: SendEmailView, key: Option<Seq<char>>, t: reqwest::Error)
    ensures
        transition(DeliveryView::AwaitingAccount { email, message, key }, Some(ReplyView::Accounts(Err(t))))
            == (DeliveryView::Finished, ActionView::Finish(Err(EmailErrorView::Http(t)))),
        transition(DeliveryView::AwaitingResult, Some(ReplyView::Sent(Err(t))))
            == (DeliveryView::Finished, ActionView::Finish(Err(EmailErrorView::Http(t)))),
{
}

/// A request with a token is made to the base URL followed by the path, with the token as
/// bearer credential, typed as JSON exactly when it has a body, which it carries as
/// given; without a token it is refused.
pub proof fn requests_carry_token_and_body(email: EmailView, method: Method, path: Seq<char>, body: Option<SendEmailView>)
    ensures
        email.api_key.len() == 0 ==> email.api_request(method, path, body) == Err::<crate::exchange::HttpRequestView, EmailErrorView>(EmailErrorView::MissingApiToken),
        email.api_key.len() > 0 ==> (email.api_request(method, path, body) matches Ok(r)
            && r.method == method
            && r.url == email.base_url + path
            && r.body == body
            && r.headers[0] == (HeaderName::Authorization, "Bearer "@ + email.api_key)
            && (body is Some ==> r.headers.len() == 2 && r.headers[1] == (HeaderName::ContentType, "application/json"@))
            && (body is None ==> r.headers.len() == 1)),
{
}

/// How far a delivery is from its end.
pub open spec fn steps_left(d: DeliveryView) -> nat {
    match d {
        DeliveryView::Ready { .. } => 3,
        DeliveryView::AwaitingAccount { .. } => 2,
        DeliveryView::AwaitingResult => 1,
        DeliveryView::Finished => 0,
    }
}

/// Every step moves a delivery closer to its end, so that it finishes after at most
/// three steps; and it ends exactly when it hands out its outcome.
pub proof fn delivery_progresses(d: DeliveryView, reply: Option<ReplyView>)
    requires
        accepts(d, reply),
    ensures
        steps_left(transition(d, reply).0) < steps_left(d),
        (transition(d, reply).0 is Finished) <==> (transition(d, reply).1 is Finish),
{
}

/// Every request that a delivery asks for carries the token as bearer credential, under
/// the configured base URL.
pub proof fn requests_are_authorized(email: EmailView, message: SendEmailView, key: Option<Seq<char>>, reply: Option<ReplyView>, ready: bool)
    requires
        accepts(
            if ready { DeliveryView::Ready { email, message, key } } else { DeliveryView::AwaitingAccount { email, message, key } },
            reply,
        ),
    ensures
        ({
            let d = if ready { DeliveryView::Ready { email, message, key } } else { DeliveryView::AwaitingAccount { email, message, key } };
            match transition(d, reply).1 {
                ActionView::ListAccounts(r) => r.headers[0] == (HeaderName::Authorization, "Bearer "@ + email.api_key)
                    && r.url.take(email.base_url.len() as int) == email.base_url,
                ActionView::Send(r) => r.headers[0] == (HeaderName::Authorization, "Bearer "@ + email.api_key)
                    && r.url.take(email.base_url.len() as int) == email.base_url,
                ActionView::Finish(_) => true,
            }
        }),
{
    let d = if ready { DeliveryView::Ready { email, message, key } } else { DeliveryView::AwaitingAccount { email, message, key } };
    match transition(d, reply).1 {
        ActionView::ListAccounts(r) => {
            assert(r.url.take(email.base_url.len() as int) =~= email.base_url);
        },
        ActionView::Send(r) => {
            assert(r.url.take(email.base_url.len() as int) =~= email.base_url);
        },
        ActionView::Finish(_) => {},
    }
}

} // verus!

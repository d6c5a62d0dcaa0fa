use vstd::prelude::*;

use crate::error::{EmailError, EmailErrorView};

verus! {

/// The text that an optional `String` holds.
pub open spec fn opt_text(o: Option<String>) -> Option<Seq<char>> {
    match o {
        Some(s) => Some(s@),
        None => None,
    }
}

/// The texts that a list of `String`s holds, in order.
pub open spec fn texts(v: Seq<String>) -> Seq<Seq<char>> {
    v.map_values(|s: String| s@)
}

/// The sender of a message: a bare address, or an address with a display name.
#[derive(Clone, Debug)]
pub enum Address {
    Email(String),
    Named { address: String, name: String },
}

/// What an [`Address`] denotes.
pub enum AddressView {
    Email(Seq<char>),
    Named { address: Seq<char>, name: Seq<char> },
}

impl View for Address {
    type V = AddressView;

    open spec fn view(&self) -> AddressView {
        match self {
            Address::Email(e) => AddressView::Email(e@),
            Address::Named { address, name } => AddressView::Named {
                address: address@,
                name: name@,
            },
        }
    }
}

impl Address {
    /// A bare address.
    pub fn email(email: &str) -> (res: Address)
        ensures
            res@ == AddressView::Email(email@),
    {
        Address::Email(email.to_owned())
    }

    /// An address shown with a display name.
    pub fn named(name: &str, email: &str) -> (res: Address)
        ensures
            res@ == (AddressView::Named { address: email@, name: name@ }),
    {
        Address::Named { name: name.to_owned(), address: email.to_owned() }
    }
}

impl From<&str> for Address {
    fn from(value: &str) -> (res: Address)
        ensures
            res@ == AddressView::Email(value@),
    {
        Address::Email(value.to_owned())
    }
}

/// The conversion's contract is the `ensures` of `from` above: a text cannot be written
/// as a spec value of `String`, so no equality is offered here.
impl vstd::std_specs::convert::FromSpecImpl<&str> for Address {
    open spec fn obeys_from_spec() -> bool {
        false
    }

    open spec fn from_spec(v: &str) -> Address {
        arbitrary()
    }
}

impl From<String> for Address {
    fn from(value: String) -> (res: Address)
        ensures
            res == Address::Email(value),
    {
        Address::Email(value)
    }
}

impl vstd::std_specs::convert::FromSpecImpl<String> for Address {
    open spec fn obeys_from_spec() -> bool {
        true
    }

    open spec fn from_spec(v: String) -> Address {
        Address::Email(v)
    }
}

/// The recipients of a message: one address, or a list of them.
#[derive(Clone, Debug)]
pub enum Recipients {
    One(String),
    Many(Vec<String>),
}

/// What [`Recipients`] denote.
pub enum RecipientsView {
    One(Seq<char>),
    Many(Seq<Seq<char>>),
}

impl View for Recipients {
    type V = RecipientsView;

    open spec fn view(&self) -> RecipientsView {
        match self {
            Recipients::One(s) => RecipientsView::One(s@),
            Recipients::Many(v) => RecipientsView::Many(texts(v@)),
        }
    }
}

/// The view of optional recipients.
pub open spec fn opt_recipients(o: Option<Recipients>) -> Option<RecipientsView> {
    match o {
        Some(r) => Some(r@),
        None => None,
    }
}

impl From<&str> for Recipients {
    fn from(value: &str) -> (res: Recipients)
        ensures
            res@ == RecipientsView::One(value@),
    {
        Recipients::One(value.to_owned())
    }
}

/// The conversion's contract is the `ensures` of `from` above.
impl vstd::std_specs::convert::FromSpecImpl<&str> for Recipients {
    open spec fn obeys_from_spec() -> bool {
        false
    }

    open spec fn from_spec(v: &str) -> Recipients {
        arbitrary()
    }
}

impl From<String> for Recipients {
    fn from(value: String) -> (res: Recipients)
        ensures
            res == Recipients::One(value),
    {
        Recipients::One(value)
    }
}

impl vstd::std_specs::convert::FromSpecImpl<String> for Recipients {
    open spec fn obeys_from_spec() -> bool {
        true
    }

    open spec fn from_spec(v: String) -> Recipients {
        Recipients::One(v)
    }
}

impl From<Vec<String>> for Recipients {
    fn from(value: Vec<String>) -> (res: Recipients)
        ensures
            res == Recipients::Many(value),
    {
        Recipients::Many(value)
    }
}

impl vstd::std_specs::convert::FromSpecImpl<Vec<String>> for Recipients {
    open spec fn obeys_from_spec() -> bool {
        true
    }

    open spec fn from_spec(v: Vec<String>) -> Recipients {
        Recipients::Many(v)
    }
}

impl<const N: usize> From<[&str; N]> for Recipients {
    fn from(value: [&str; N]) -> (res: Recipients)
        ensures
            res@ == RecipientsView::Many(value@.map_values(|s: &str| s@)),
    {
        let mut all: Vec<String> = Vec::new();
        let mut i: usize = 0;
        while i < N
            invariant
                i <= N,
                value@.len() == N,
                texts(all@) =~= value@.take(i as int).map_values(|s: &str| s@),
            decreases N - i,
        {
            let s: &str = value[i];
            let ghost before = all@;
            all.push(s.to_owned());
            proof {
                assert(value@.take(i as int + 1) =~= value@.take(i as int).push(value@[i as int]));
                assert(texts(all@) =~= texts(before).push(s@));
            }
            i = i + 1;
        }
        proof {
            assert(value@.take(N as int) =~= value@);
        }
        Recipients::Many(all)
    }
}

/// The conversion's contract is the `ensures` of `from` above.
impl<const N: usize> vstd::std_specs::convert::FromSpecImpl<[&str; N]> for Recipients {
    open spec fn obeys_from_spec() -> bool {
        false
    }

    open spec fn from_spec(v: [&str; N]) -> Recipients {
        arbitrary()
    }
}

/// How a mail client should show an attachment.
#[derive(Clone, Copy, Debug, PartialEq, Eq, Structural)]
pub enum AttachmentDisposition {
    Attachment,
    Inline,
}

/// A file sent with a message; its content is base64-encoded.
#[derive(Clone, Debug)]
pub struct Attachment {
    pub content: String,
    pub filename: String,
    pub mime_type: String,
    pub disposition: AttachmentDisposition,
    pub content_id: Option<String>,
}

/// What an [`Attachment`] holds.
pub struct AttachmentView {
    pub content: Seq<char>,
    pub filename: Seq<char>,
    pub mime_type: Seq<char>,
    pub disposition: AttachmentDisposition,
    pub content_id: Option<Seq<char>>,
}

impl View for Attachment {
    type V = AttachmentView;

    open spec fn view(&self) -> AttachmentView {
        AttachmentView {
            content: self.content@,
            filename: self.filename@,
            mime_type: self.mime_type@,
            disposition: self.disposition,
            content_id: opt_text(self.content_id),
        }
    }
}

impl Attachment {
    /// A regular attachment, with no content id.
    pub fn new(content: &str, filename: &str, mime_type: &str) -> (res: Attachment)
        ensures
            res@ == (AttachmentView {
                content: content@,
                filename: filename@,
                mime_type: mime_type@,
                disposition: AttachmentDisposition::Attachment,
                content_id: None,
            }),
    {
        Attachment {
            content: content.to_owned(),
            filename: filename.to_owned(),
            mime_type: mime_type.to_owned(),
            disposition: AttachmentDisposition::Attachment,
            content_id: None,
        }
    }

    /// Marks the attachment inline, referenced from the HTML body by `content_id`.
    pub fn inline(self, content_id: &str) -> (res: Attachment)
        ensures
            res@ == (AttachmentView {
                disposition: AttachmentDisposition::Inline,
                content_id: Some(content_id@),
                ..self@
            }),
    {
        let mut a = self;
        a.disposition = AttachmentDisposition::Inline;
        a.content_id = Some(content_id.to_owned());
        a
    }
}

/// Options of one send call.
#[derive(Clone, Debug)]
pub struct SendOptions {
    pub idempotency_key: Option<String>,
}

impl Default for SendOptions {
    fn default() -> (res: SendOptions)
        ensures
            res.idempotency_key is None,
    {
        SendOptions { idempotency_key: None }
    }
}

impl SendOptions {
    /// Options with no idempotency key.
    pub fn new() -> (res: SendOptions)
        ensures
            res.idempotency_key is None,
    {
        SendOptions { idempotency_key: None }
    }

    /// Sets the key under which the service deduplicates repeated sends.
    pub fn idempotency_key(self, key: &str) -> (res: SendOptions)
        ensures
            opt_text(res.idempotency_key) == Some(key@),
    {
        let mut o = self;
        o.idempotency_key = Some(key.to_owned());
        o
    }
}


/// The texts of a list of header entries, in order.
pub open spec fn header_texts(v: Seq<(String, String)>) -> Seq<(Seq<char>, Seq<char>)> {
    v.map_values(|p: (String, String)| (p.0@, p.1@))
}

/// The views of a list of attachments, in order.
pub open spec fn attachments_view(v: Seq<Attachment>) -> Seq<AttachmentView> {
    v.map_values(|a: Attachment| a@)
}

/// The entries of `h` whose name is not `name`, in order.
pub open spec fn without_header(h: Seq<(Seq<char>, Seq<char>)>, name: Seq<char>) -> Seq<
    (Seq<char>, Seq<char>),
>
    decreases h.len(),
{
    if h.len() == 0 {
        h
    } else {
        let rest = without_header(h.drop_last(), name);
        if h.last().0 == name {
            rest
        } else {
            rest.push(h.last())
        }
    }
}

/// The value of the last entry of `h` named `name`, if there is one.
pub open spec fn header_value(h: Seq<(Seq<char>, Seq<char>)>, name: Seq<char>) -> Option<Seq<char>>
    decreases h.len(),
{
    if h.len() == 0 {
        None
    } else if h.last().0 == name {
        Some(h.last().1)
    } else {
        header_value(h.drop_last(), name)
    }
}

/// No two entries of `h` have the same name.
pub open spec fn distinct_names(h: Seq<(Seq<char>, Seq<char>)>) -> bool {
    forall|i: int, j: int| 0 <= i < j < h.len() ==> #[trigger] h[i].0 != #[trigger] h[j].0
}

/// An email to send.
#[derive(Clone, Debug)]
pub struct SendEmail {
    pub from: Address,
    pub to: Recipients,
    pub subject: String,
    pub html: Option<String>,
    pub text: Option<String>,
    pub cc: Option<Recipients>,
    pub bcc: Option<Recipients>,
    pub reply_to: Option<String>,
    /// Custom headers, as (name, value) entries; `header` keeps the names distinct.
    pub headers: Option<Vec<(String, String)>>,
    pub attachments: Option<Vec<Attachment>>,
}

/// What a [`SendEmail`] holds.
pub struct SendEmailView {
    pub from: AddressView,
    pub to: RecipientsView,
    pub subject: Seq<char>,
    pub html: Option<Seq<char>>,
    pub text: Option<Seq<char>>,
    pub cc: Option<RecipientsView>,
    pub bcc: Option<RecipientsView>,
    pub reply_to: Option<Seq<char>>,
    pub headers: Option<Seq<(Seq<char>, Seq<char>)>>,
    pub attachments: Option<Seq<AttachmentView>>,
}

impl View for SendEmail {
    type V = SendEmailView;

    open spec fn view(&self) -> SendEmailView {
        SendEmailView {
            from: self.from@,
            to: self.to@,
            subject: self.subject@,
            html: opt_text(self.html),
            text: opt_text(self.text),
            cc: opt_recipients(self.cc),
            bcc: opt_recipients(self.bcc),
            reply_to: opt_text(self.reply_to),
            headers: match self.headers {
                Some(h) => Some(header_texts(h@)),
                None => None,
            },
            attachments: match self.attachments {
                Some(a) => Some(attachments_view(a@)),
                None => None,
            },
        }
    }
}

impl SendEmailView {
    /// The message with header `name` set to `value`: earlier entries of that name are
    /// dropped, and the new entry comes last.
    pub open spec fn with_header(self, name: Seq<char>, value: Seq<char>) -> SendEmailView {
        let current = match self.headers {
            Some(h) => h,
            None => Seq::empty(),
        };
        SendEmailView { headers: Some(without_header(current, name).push((name, value))), ..self }
    }

    /// The message with `a` added after its other attachments.
    pub open spec fn with_attachment(self, a: AttachmentView) -> SendEmailView {
        let current = match self.attachments {
            Some(v) => v,
            None => Seq::empty(),
        };
        SendEmailView { attachments: Some(current.push(a)), ..self }
    }

    /// Why the message cannot be sent, if it cannot: it needs a subject, and an HTML or a
    /// text body.
    pub open spec fn refusal(self) -> Option<Seq<char>> {
        if self.subject.len() == 0 {
            Some("subject is required"@)
        } else if self.html is None && self.text is None {
            Some("Either html or text is required"@)
        } else {
            None
        }
    }
}

impl SendEmail {
    /// A message with a sender, recipients and subject, and nothing else yet.
    pub fn new(from: Address, to: Recipients, subject: &str) -> (res: SendEmail)
        ensures
            res.from == from,
            res.to == to,
            res@ == (SendEmailView {
                from: from@,
                to: to@,
                subject: subject@,
                html: None,
                text: None,
                cc: None,
                bcc: None,
                reply_to: None,
                headers: None,
                attachments: None,
            }),
    {
        SendEmail {
            from,
            to,
            subject: subject.to_owned(),
            html: None,
            text: None,
            cc: None,
            bcc: None,
            reply_to: None,
            headers: None,
            attachments: None,
        }
    }

    /// Sets the HTML body.
    pub fn html(self, html: &str) -> (res: SendEmail)
        ensures
            res@ == (SendEmailView { html: Some(html@), ..self@ }),
    {
        let mut m = self;
        m.html = Some(html.to_owned());
        m
    }

    /// Sets the plain-text body.
    pub fn text(self, text: &str) -> (res: SendEmail)
        ensures
            res@ == (SendEmailView { text: Some(text@), ..self@ }),
    {
        let mut m = self;
        m.text = Some(text.to_owned());
        m
    }

    /// Sets the carbon-copy recipients.
    pub fn cc(self, cc: Recipients) -> (res: SendEmail)
        ensures
            res@ == (SendEmailView { cc: Some(cc@), ..self@ }),
    {
        let mut m = self;
        m.cc = Some(cc);
        m
    }

    /// Sets the blind carbon-copy recipients.
    pub fn bcc(self, bcc: Recipients) -> (res: SendEmail)
        ensures
            res@ == (SendEmailView { bcc: Some(bcc@), ..self@ }),
    {
        let mut m = self;
        m.bcc = Some(bcc);
        m
    }

    /// Sets the reply-to address.
    pub fn reply_to(self, reply_to: &str) -> (res: SendEmail)
        ensures
            res@ == (SendEmailView { reply_to: Some(reply_to@), ..self@ }),
    {
        let mut m = self;
        m.reply_to = Some(reply_to.to_owned());
        m
    }

    /// Sets custom header `name` to `value`, replacing an earlier value of that name.
    pub fn header(self, name: &str, value: &str) -> (res: SendEmail)
        ensures
            res@ == self@.with_header(name@, value@),
    {
        let mut m = self;
        let current: Vec<(String, String)> = match m.headers.take() {
            Some(h) => h,
            None => Vec::new(),
        };
        let key = name.to_owned();
        let mut kept: Vec<(String, String)> = Vec::new();
        let mut i: usize = 0;
        while i < current.len()
            invariant
                i <= current.len(),
                key@ == name@,
                header_texts(kept@) == without_header(
                    header_texts(current@).take(i as int),
                    name@,
                ),
            decreases current.len() - i,
        {
            let ghost before = kept@;
            let entry = &current[i];
            if !(entry.0 == key) {
                kept.push((entry.0.clone(), entry.1.clone()));
                proof {
                    assert(header_texts(kept@) =~= header_texts(before).push(
                        (entry.0@, entry.1@),
                    ));
                }
            }
            proof {
                let all = header_texts(current@);
                assert(all.take(i as int + 1).drop_last() =~= all.take(i as int));
                assert(all.take(i as int + 1).last() == (entry.0@, entry.1@));
            }
            i = i + 1;
        }
        proof {
            assert(header_texts(current@).take(current@.len() as int) =~= header_texts(current@));
        }
        let ghost before = kept@;
        kept.push((key, value.to_owned()));
        proof {
            assert(header_texts(kept@) =~= header_texts(before).push((name@, value@)));
            assert(match self@.headers {
                Some(h) => h,
                None => Seq::empty(),
            } =~= header_texts(current@));
        }
        m.headers = Some(kept);
        m
    }

    /// Adds an attachment after the others.
    pub fn attachment(self, attachment: Attachment) -> (res: SendEmail)
        ensures
            res@ == self@.with_attachment(attachment@),
    {
        let mut m = self;
        let mut current: Vec<Attachment> = match m.attachments.take() {
            Some(v) => v,
            None => Vec::new(),
        };
        let ghost before = current@;
        current.push(attachment);
        proof {
            assert(attachments_view(current@) =~= attachments_view(before).push(attachment@));
            assert(match self@.attachments {
                Some(v) => v,
                None => Seq::empty(),
            } =~= attachments_view(before));
        }
        m.attachments = Some(current);
        m
    }

    /// Checks that the message can be sent: it needs a subject, and an HTML or a text
    /// body. The error says which is missing.
    pub fn validate(&self) -> (res: Result<(), EmailError>)
        ensures
            match self@.refusal() {
                None => res is Ok,
                Some(reason) => res is Err && res->Err_0@ == EmailErrorView::Validation(reason),
            },
    {
        if self.subject.as_str().is_empty() {
            return Err(EmailError::Validation("subject is required".to_owned()));
        }
        if self.html.is_none() && self.text.is_none() {
            return Err(EmailError::Validation("Either html or text is required".to_owned()));
        }
        Ok(())
    }
}

} // verus!

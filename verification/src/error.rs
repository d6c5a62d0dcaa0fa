use vstd::prelude::*;

verus! {

/// The `code` of an error that the API reports: a JSON string, or any other JSON
/// value, kept as its compact JSON text.
#[derive(Clone, Debug)]
pub enum ErrorCode {
    Text(String),
    Json(String),
}

/// What an [`ErrorCode`] holds.
pub enum ErrorCodeView {
    Text(Seq<char>),
    Json(Seq<char>),
}

impl View for ErrorCode {
    type V = ErrorCodeView;

    open spec fn view(&self) -> ErrorCodeView {
        match self {
            ErrorCode::Text(s) => ErrorCodeView::Text(s@),
            ErrorCode::Json(s) => ErrorCodeView::Json(s@),
        }
    }
}

/// One entry of the `errors` list of an API response.
#[derive(Clone, Debug)]
pub struct ApiError {
    pub code: ErrorCode,
    pub message: String,
}

/// What an [`ApiError`] holds.
pub struct ApiErrorView {
    pub code: ErrorCodeView,
    pub message: Seq<char>,
}

impl View for ApiError {
    type V = ApiErrorView;

    open spec fn view(&self) -> ApiErrorView {
        ApiErrorView { code: self.code@, message: self.message@ }
    }
}

impl ApiErrorView {
    /// The code as text: a string code as it is, any other code as its JSON text.
    pub open spec fn code_text(self) -> Seq<char> {
        match self.code {
            ErrorCodeView::Text(s) => s,
            ErrorCodeView::Json(s) => s,
        }
    }
}

/// The views of a list of API errors, in order.
pub open spec fn api_errors_view(v: Seq<ApiError>) -> Seq<ApiErrorView> {
    v.map_values(|e: ApiError| e@)
}

impl ApiError {
    /// The error's code as text: a string code as it is, any other code as its JSON text.
    pub fn code(&self) -> (res: String)
        ensures
            res@ == self@.code_text(),
    {
        match &self.code {
            ErrorCode::Text(s) => s.clone(),
            ErrorCode::Json(s) => s.clone(),
        }
    }
}

/// Why sending an email, or a call to the API, failed.
#[derive(Debug)]
pub enum EmailError {
    /// No API token was configured, or it is empty.
    MissingApiToken,
    /// The token can read no account, so none can be chosen.
    NoAccounts,
    /// The token can read several accounts; an account id must be given.
    MultipleAccounts,
    /// The API answered with a failure.
    Api { status: u16, code: Option<String>, message: String, details: Vec<ApiError> },
    /// The API reported success but sent no result.
    MissingResult,
    /// The message was refused before any request was made.
    Validation(String),
    /// The request could not be made, or its answer could not be read.
    Http(reqwest::Error),
}

/// What an [`EmailError`] holds.
pub enum EmailErrorView {
    MissingApiToken,
    NoAccounts,
    MultipleAccounts,
    Api { status: u16, code: Option<Seq<char>>, message: Seq<char>, details: Seq<ApiErrorView> },
    MissingResult,
    Validation(Seq<char>),
    Http(reqwest::Error),
}

impl View for EmailError {
    type V = EmailErrorView;

    open spec fn view(&self) -> EmailErrorView {
        match self {
            EmailError::MissingApiToken => EmailErrorView::MissingApiToken,
            EmailError::NoAccounts => EmailErrorView::NoAccounts,
            EmailError::MultipleAccounts => EmailErrorView::MultipleAccounts,
            EmailError::Api { status, code, message, details } => EmailErrorView::Api {
                status: *status,
                code: match code {
                    Some(c) => Some(c@),
                    None => None,
                },
                message: message@,
                details: api_errors_view(details@),
            },
            EmailError::MissingResult => EmailErrorView::MissingResult,
            EmailError::Validation(m) => EmailErrorView::Validation(m@),
            EmailError::Http(e) => EmailErrorView::Http(*e),
        }
    }
}

/// The view of a result whose error is an [`EmailError`].
pub open spec fn outcome<T: View>(r: Result<T, EmailError>) -> Result<T::V, EmailErrorView> {
    match r {
        Ok(v) => Ok(v@),
        Err(e) => Err(e@),
    }
}

} // verus!

//! A verified client core for Cloudflare's email sending service.
//!
//! The library builds messages, decides every request that sending one takes, and reads
//! the answers; the caller performs the requests. See [`delivery`] for the protocol.

pub mod client;
pub mod delivery;
pub mod error;
pub mod exchange;
pub mod laws;
pub mod message;
pub mod outside;

pub use client::{trim_end_slashes, Email, Environment, DEFAULT_BASE_URL};
pub use delivery::{Action, Delivery, Reply};
pub use error::{ApiError, EmailError, ErrorCode};
pub use exchange::{
    choose_account, read_envelope, Account, CloudflareResponse, CloudflareSendResult, Header,
    HeaderName, HttpRequest, Method, SendEmailResponse,
};
pub use message::{
    Address, Attachment, AttachmentDisposition, Recipients, SendEmail, SendOptions,
};

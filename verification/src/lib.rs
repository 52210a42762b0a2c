//! The verified core of a small blog and account web service: pagination of
//! blog posts, the rules of account sign-up, confirmation mail composition and
//! the text encodings they rely on.
pub mod hex;
pub mod text;
pub mod mail;
pub mod blog;
pub mod todo;
pub mod account;
pub mod endpoints;
pub mod message;
pub mod credentials;
pub mod random;

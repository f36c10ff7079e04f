pub mod builder;
pub mod client;
mod conversions;
pub mod dispatch;
pub mod encoding;
pub mod lemmas;
pub mod operation;
pub mod request;
pub mod types;

pub use client::{ApiEnv, Client, API_ENV_BASEURL_PRACTICE, API_ENV_BASEURL_TRADE};

use vstd::prelude::*;
use vstd::string::StringExecFns;

use crate::types::AcceptDatetimeFormat;

verus! {

/// The trading environment whose fixed base URL a client talks to.
#[derive(Clone, Copy, PartialEq, Eq, Structural, Debug)]
pub enum ApiEnv {
    Practice,
    Trade,
}

pub const API_ENV_BASEURL_PRACTICE: &'static str = "https://api-fxpractice.oanda.com/v3";

pub const API_ENV_BASEURL_TRADE: &'static str = "https://api-fxtrade.oanda.com/v3";

/// The base URL of an environment.
pub open spec fn env_baseurl(env: ApiEnv) -> Seq<char> {
    match env {
        ApiEnv::Practice => API_ENV_BASEURL_PRACTICE@,
        ApiEnv::Trade => API_ENV_BASEURL_TRADE@,
    }
}

/// The configuration that every request of a client shares: where requests
/// go, the token that authorises them and the date-time format asked for.
/// It is read-only once made, and each builder borrows it.
#[derive(Clone, Debug)]
pub struct Client {
    baseurl: String,
    auth_token: String,
    accept_datetime_format: AcceptDatetimeFormat,
}

impl Client {
    pub closed spec fn base(&self) -> Seq<char> {
        self.baseurl@
    }

    pub closed spec fn token(&self) -> Seq<char> {
        self.auth_token@
    }

    pub closed spec fn format(&self) -> AcceptDatetimeFormat {
        self.accept_datetime_format
    }

    /// A client for one of the two fixed environments; the date-time format
    /// is UNIX unless another is given.
    pub fn new(env: ApiEnv, token: &str, datetime_format: Option<AcceptDatetimeFormat>) -> (r:
        Self)
        ensures
            r.base() == env_baseurl(env),
            r.token() == token@,
            r.format() == match datetime_format {
                Some(f) => f,
                None => AcceptDatetimeFormat::Unix,
            },
    {
        let baseurl = match env {
            ApiEnv::Practice => API_ENV_BASEURL_PRACTICE,
            ApiEnv::Trade => API_ENV_BASEURL_TRADE,
        };
        let datetime_format = match datetime_format {
            Some(f) => f,
            None => AcceptDatetimeFormat::Unix,
        };
        Self::with_baseurl(baseurl, token, datetime_format)
    }

    /// A client for any base URL, such as a local stand-in for the API.
    pub fn with_baseurl(baseurl: &str, token: &str, datetime_format: AcceptDatetimeFormat) -> (r:
        Self)
        ensures
            r.base() == baseurl@,
            r.token() == token@,
            r.format() == datetime_format,
    {
        Client {
            baseurl: String::from_str(baseurl),
            auth_token: String::from_str(token),
            accept_datetime_format: datetime_format,
        }
    }

    /// The base URL to which requests are made.
    pub fn baseurl(&self) -> (r: &String)
        ensures
            r@ == self.base(),
    {
        &self.baseurl
    }

    /// The token with which requests are authorised.
    pub fn auth_token(&self) -> (r: &String)
        ensures
            r@ == self.token(),
    {
        &self.auth_token
    }

    /// The date-time format asked of the API.
    pub fn accept_datetime_format(&self) -> (r: AcceptDatetimeFormat)
        ensures
            r == self.format(),
    {
        self.accept_datetime_format
    }

    /// The version of the API that this client speaks.
    pub fn api_version(&self) -> (r: &'static str)
        ensures
            r@ == "3.0.25"@,
    {
        "3.0.25"
    }
}

} // verus!

//! The origin of a request: where the panel is being addressed from, used
//! to build absolute links (password-reset emails point back at it).

use vstd::prelude::*;
use vstd::string::StringExecFns;

use crate::error::WebsiteError;
use crate::text::{starts_with, str_starts_with};

verus! {

/// A request's origin URL and whether it is served over HTTPS.
#[derive(Clone, Debug)]
pub struct Origin {
    pub url: String,
    pub is_https: bool,
}

impl Origin {
    /// Derives the origin from the request's headers. The `Origin` header
    /// wins and is taken verbatim; else the `Host` header is prefixed with
    /// the scheme the configuration says the panel is served under; a
    /// request with neither header is a client fault.
    pub fn from_headers(origin: &Option<String>, host: &Option<String>, config_https: bool) -> (r:
        Result<Origin, WebsiteError>)
        ensures
            match r {
                Ok(o) => match origin {
                    Some(v) => o.url@ == v@ && o.is_https == starts_with(v@, "https"@),
                    None => match host {
                        Some(h) => o.is_https == config_https && o.url@ == (
                        if config_https {
                            "https://"@ + h@
                        } else {
                            "http://"@ + h@
                        }),
                        None => false,
                    },
                },
                Err(e) => origin is None && host is None && e is BadRequest,
            },
    {
        if let Some(value) = origin {
            let is_https = str_starts_with(value.as_str(), "https");
            Ok(Origin { url: value.clone(), is_https })
        } else if let Some(value) = host {
            let url = if config_https {
                String::from_str("https://").concat(value.as_str())
            } else {
                String::from_str("http://").concat(value.as_str())
            };
            Ok(Origin { url, is_https: config_https })
        } else {
            Err(WebsiteError::BadRequest(String::from_str("No Host or Origin header found")))
        }
    }

    /// The origin's URL text.
    pub fn as_str(&self) -> (r: &str)
        ensures
            r@ == self.url@,
    {
        self.url.as_str()
    }
}

} // verus!

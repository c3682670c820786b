//! The one trusted boundary of the library: performing a blocking HTTP GET
//! through `ureq` and reducing what came back to plain values.

use vstd::prelude::*;

use crate::model::FetchOutcome;

verus! {

/// Relies on `ureq::get` and `ureq::Request::call` to perform one blocking
/// HTTP GET of `url` (an error status, 400 and above, comes back as
/// `ureq::Error::Status`), on `ureq::Response::status` for the status code,
/// and on `ureq::Response::into_string` to read the response's body as
/// text. The outcome depends on the network, so nothing is promised of
/// which variant comes back.
#[verifier::external_body]
pub(crate) fn http_get(url: &str) -> FetchOutcome {
    match ureq::get(url).call() {
        Ok(resp) => {
            let status = resp.status();
            match resp.into_string() {
                Ok(body) => FetchOutcome::Body(status, body.into_bytes()),
                Err(e) => FetchOutcome::Unreadable(e.to_string()),
            }
        },
        Err(e) => match &e {
            ureq::Error::Status(code, _) => FetchOutcome::Status(*code, e.to_string()),
            ureq::Error::Transport(_) => FetchOutcome::Transport(e.to_string()),
        },
    }
}

} // verus!

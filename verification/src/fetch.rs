//! The pure side of the track fetcher: the request URL sent to the scrobble
//! service's "recently played" endpoint, and the bound on each request.
//! Issuing the request and decoding the response body happen outside the
//! library.

use vstd::prelude::*;
use vstd::string::*;
use crate::config::Config;

verus! {

/// Every request is given up after this many seconds.
pub const REQUEST_TIMEOUT_SECS: u64 = 5;

/// The endpoint URL asking for a user's most recent tracks as JSON.
pub open spec fn spec_request_url(username: Seq<char>, api_key: Seq<char>) -> Seq<char> {
    "http://ws.audioscrobbler.com/2.0/?method=user.getrecenttracks&user="@ + username
        + "&api_key="@ + api_key + "&format=json"@
}

/// Builds the endpoint URL for the configured user and API key.
pub fn request_url(config: &Config) -> (r: String)
    ensures
        r@ == spec_request_url(config.username@, config.api_key@),
{
    let mut url: String =
        "http://ws.audioscrobbler.com/2.0/?method=user.getrecenttracks&user=".to_owned();
    url.append(config.username.as_str());
    url.append("&api_key=");
    url.append(config.api_key.as_str());
    url.append("&format=json");
    url
}

} // verus!

use std::marker::PhantomData;
use vstd::prelude::*;
use vstd::string::StringSliceAdditionalSpecFns;

use crate::encoding::{pct_encode, percent_encode};
use crate::reply::{json_member, json_text, member};

verus! {

/// Marks a client whose credential the service has accepted.
#[derive(Debug)]
pub struct Validated;

/// Marks a client whose credential has not been checked yet.
#[derive(Debug)]
pub struct Invalidated;

#[derive(Debug, Clone, Copy, PartialEq, Eq, Structural)]
pub enum GMapsClientError {
    /// The service denied a request made with the credential.
    InvalidApiKey,
    /// The credential source held no readable value.
    ApiKeyLoadingFailure,
    /// The request could not be sent, or its reply could not be decoded.
    RequestFailure,
    /// The credential source held a value, but no key remains in it.
    MissingApiKey,
}

/// The fixed address of the service.
pub const BASE_URL: &'static str = "https://maps.googleapis.com/";

/// The text searched for when a credential is probed.
pub const PROBE_QUERY: &'static str = "bosfor alba";

/// The top-level `status` with which the service rejects a credential.
pub const DENIED_STATUS: &'static str = "REQUEST_DENIED";

/// A credential as read from its source: one pair of double quotes that
/// wraps the whole value is taken off, anything else is kept as it is.
pub open spec fn unquoted(raw: Seq<char>) -> Seq<char> {
    if raw.len() >= 2 && raw[0] == '"' && raw[raw.len() - 1] == '"' {
        raw.subrange(1, raw.len() - 1)
    } else {
        raw
    }
}

/// A credential written between one pair of double quotes is read as the
/// text between them, with exactly one quote taken off each end.
pub proof fn quoted_credential_is_unwrapped(inner: Seq<char>)
    ensures
        unquoted(seq!['"'] + inner + seq!['"']) == inner,
{
    let raw = seq!['"'] + inner + seq!['"'];
    assert(raw.subrange(1, raw.len() - 1) =~= inner);
}

/// The "find place from text" request for `text` made with `key`.
pub open spec fn find_place_address(base: Seq<char>, text: Seq<u8>, key: Seq<char>) -> Seq<char> {
    base + "maps/api/place/findplacefromtext/json?input="@ + pct_encode(text)
        + "&inputtype=textquery&fields=name,place_id,geometry,formatted_address&locationbias=point:50,10&key="@
        + key
}

/// The "text search" request for `query` made with `key`, within 5000 meters.
pub open spec fn text_search_address(base: Seq<char>, query: Seq<u8>, key: Seq<char>) -> Seq<char> {
    base + "maps/api/place/textsearch/json?query="@ + pct_encode(query) + "&radius=5000&key="@ + key
}

/// Whether a reply's `status` is the service's rejection of the credential.
pub open spec fn denies(status: Option<&str>) -> bool {
    status matches Some(s) && s@ == DENIED_STATUS@
}

/// Whether a decoded reply denies the credential: its top-level `status`
/// member is the JSON string `REQUEST_DENIED`.
pub open spec fn reply_denies(v: serde_json::Value) -> bool {
    json_member(v, "status"@) matches Some(m) && json_text(m) == Some(DENIED_STATUS@)
}

/// A client of the Places API. `T` is `Invalidated` until the service has
/// accepted the credential, then `Validated`; only a validated client builds
/// query requests.
#[derive(Debug)]
pub struct GMapsClient<T = Invalidated> {
    api_key: String,
    base_url: String,
    state: PhantomData<T>,
}

impl<T> GMapsClient<T> {
    /// The credential the client sends.
    pub closed spec fn key(&self) -> Seq<char> {
        self.api_key@
    }

    /// The address of the service the client talks to.
    pub closed spec fn base(&self) -> Seq<char> {
        self.base_url@
    }

    /// A client holds a non-empty credential and the fixed service address.
    pub open spec fn wf(&self) -> bool {
        &&& self.key().len() > 0
        &&& self.base() == BASE_URL@
    }

    /// The credential the client sends.
    pub fn api_key(&self) -> (r: &str)
        ensures
            r@ == self.key(),
    {
        self.api_key.as_str()
    }
}

/// Takes off one pair of double quotes that wraps the whole of `raw`.
fn unquote(raw: &str) -> (r: String)
    ensures
        r@ == unquoted(raw@),
{
    let n = raw.unicode_len();
    if n >= 2 && raw.get_char(0) == '"' && raw.get_char(n - 1) == '"' {
        raw.substring_char(1, n - 1).to_owned()
    } else {
        raw.to_owned()
    }
}

impl GMapsClient<Invalidated> {
    /// The credential held by `raw`, the value read from the credential
    /// source (`None` where the source held no readable value).
    pub fn load_api_key(raw: Option<String>) -> (r: Result<String, GMapsClientError>)
        ensures
            raw is None ==> r == Err::<String, GMapsClientError>(GMapsClientError::ApiKeyLoadingFailure),
            (raw is Some && unquoted(raw->0@).len() == 0) ==> r == Err::<String, GMapsClientError>(
                GMapsClientError::MissingApiKey,
            ),
            (raw is Some && unquoted(raw->0@).len() > 0) ==> (r matches Ok(k) && k@ == unquoted(raw->0@)),
    {
        match raw {
            None => Err(GMapsClientError::ApiKeyLoadingFailure),
            Some(v) => {
                let key = unquote(v.as_str());
                if key.as_str().is_empty() {
                    Err(GMapsClientError::MissingApiKey)
                } else {
                    Ok(key)
                }
            },
        }
    }

    /// A client that has not been validated yet, holding the credential of
    /// `raw` (see `load_api_key`) and the fixed service address.
    pub fn new(raw: Option<String>) -> (r: Result<GMapsClient<Invalidated>, GMapsClientError>)
        ensures
            raw is None ==> (r matches Err(e) && e == GMapsClientError::ApiKeyLoadingFailure),
            (raw is Some && unquoted(raw->0@).len() == 0) ==> (r matches Err(e) && e
                == GMapsClientError::MissingApiKey),
            (raw is Some && unquoted(raw->0@).len() > 0) ==> (r matches Ok(c) && c.wf() && c.key()
                == unquoted(raw->0@)),
    {
        let api_key = GMapsClient::load_api_key(raw)?;
        Ok(GMapsClient { api_key, base_url: BASE_URL.to_owned(), state: PhantomData })
    }

    /// The request that probes the credential: a "find place from text"
    /// search for a fixed text.
    pub fn validation_url(&self) -> (r: String)
        ensures
            r@ == find_place_address(self.base(), PROBE_QUERY.spec_bytes(), self.key()),
    {
        find_place_request(&self.base_url, PROBE_QUERY, &self.api_key)
    }

    /// Settles validation on the `status` of the probe's reply: the service
    /// denied the credential exactly when the status is `REQUEST_DENIED`;
    /// any other status, or none, accepts it. The client is consumed either way.
    pub fn accept_status(self, status: Option<&str>) -> (r: Result<GMapsClient<Validated>, GMapsClientError>)
        ensures
            denies(status) ==> (r matches Err(e) && e == GMapsClientError::InvalidApiKey),
            !denies(status) ==> (r matches Ok(c) && c.key() == self.key() && c.base() == self.base()),
    {
        let denied = match status {
            Some(s) => s.to_owned() == DENIED_STATUS.to_owned(),
            None => false,
        };
        if denied {
            Err(GMapsClientError::InvalidApiKey)
        } else {
            Ok(GMapsClient { api_key: self.api_key, base_url: self.base_url, state: PhantomData })
        }
    }

    /// Validates the credential from the decoded reply to `validation_url`;
    /// `None` stands for a request or a decoding that failed. The reply's
    /// top-level `status` decides, as in `accept_status`.
    pub fn validate_api_key(self, reply: Option<serde_json::Value>) -> (r: Result<
        GMapsClient<Validated>,
        GMapsClientError,
    >)
        ensures
            reply is None ==> (r matches Err(e) && e == GMapsClientError::RequestFailure),
            (reply is Some && reply_denies(reply->0)) ==> (r matches Err(e) && e
                == GMapsClientError::InvalidApiKey),
            (reply is Some && !reply_denies(reply->0)) ==> (r matches Ok(c) && c.key() == self.key()
                && c.base() == self.base()),
    {
        match reply {
            None => Err(GMapsClientError::RequestFailure),
            Some(v) => {
                let status = match member(&v, "status") {
                    Some(s) => s.as_str(),
                    None => None,
                };
                self.accept_status(status)
            },
        }
    }
}

impl GMapsClient<Validated> {
    /// The request that looks up the single place best described by `place`;
    /// the text goes into the request percent-encoded.
    pub fn single_place_url(&self, place: &str) -> (r: String)
        ensures
            r@ == find_place_address(self.base(), place.spec_bytes(), self.key()),
    {
        find_place_request(&self.base_url, place, &self.api_key)
    }

    /// The request that searches for the places that match `query`; the
    /// text goes into the request percent-encoded.
    pub fn text_search_url(&self, query: &str) -> (r: String)
        ensures
            r@ == text_search_address(self.base(), query.spec_bytes(), self.key()),
    {
        let mut url = self.base_url.clone();
        url.append("maps/api/place/textsearch/json?query=");
        url.append(percent_encode(query).as_str());
        url.append("&radius=5000&key=");
        url.append(self.api_key.as_str());
        url
    }
}

/// The "find place from text" request for `text` on `base` with `key`.
fn find_place_request(base: &String, text: &str, key: &String) -> (r: String)
    ensures
        r@ == find_place_address(base@, text.spec_bytes(), key@),
{
    let mut url = base.clone();
    url.append("maps/api/place/findplacefromtext/json?input=");
    url.append(percent_encode(text).as_str());
    url.append(
        "&inputtype=textquery&fields=name,place_id,geometry,formatted_address&locationbias=point:50,10&key=",
    );
    url.append(key.as_str());
    url
}


} // verus!

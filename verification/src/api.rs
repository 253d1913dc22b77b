//! The saved searches that the rarefy API hands out, and the rules of a
//! reply from it.
use vstd::prelude::*;
use crate::text::{decimal, decimal_string};

verus! {

/// A search that a user saved; the crawler runs it on each target.
#[derive(Default, Debug, Clone, PartialEq)]
pub struct SavedSearch {
    pub id: String,
    pub name: String,
    pub query: String,
    pub created_at: String,
    pub updated_at: String,
    pub vinyl_only: bool,
    pub user_id: String,
}

/// The body of the API's reply to a request for the saved searches.
pub struct SavedSearchResponse {
    searches: Vec<SavedSearch>,
}

impl SavedSearchResponse {
    pub fn new(searches: Vec<SavedSearch>) -> (r: SavedSearchResponse)
        ensures
            r.spec_searches() == searches@,
    {
        SavedSearchResponse { searches }
    }

    pub closed spec fn spec_searches(&self) -> Seq<SavedSearch> {
        self.searches@
    }

    /// The searches that the reply holds, in its order.
    pub fn into_searches(self) -> (r: Vec<SavedSearch>)
        ensures
            r@ == self.spec_searches(),
    {
        self.searches
    }
}

/// Why a request to the API failed.
#[derive(Debug, Clone, Copy, PartialEq, Eq, Structural)]
pub enum ApiError {
    /// The API answered with a status other than 200.
    BadStatus(u16),
}

/// The message of an `ApiError`.
pub open spec fn api_error_message(e: ApiError) -> Seq<char> {
    match e {
        ApiError::BadStatus(status) => "Got status: "@ + decimal(status as nat),
    }
}

impl ApiError {
    /// The error's message, as the crawler logs it.
    pub fn message(&self) -> (r: String)
        ensures
            r@ == api_error_message(*self),
    {
        match self {
            ApiError::BadStatus(status) => {
                let mut s = String::new();
                s.append("Got status: ");
                let digits = decimal_string(*status);
                s.append(digits.as_str());
                s
            },
        }
    }
}

/// The path of the saved searches on the API host.
pub open spec fn saved_searches_path() -> Seq<char> {
    "/api/saved_searches"@
}

/// The client side of the rarefy API: where it lives.
pub struct Api {
    base_url: String,
}

impl Api {
    /// An API client for the host at `base_url` (the value of `API_HOST`).
    pub fn from_base_url(base_url: String) -> (r: Api)
        ensures
            r.spec_base_url() == base_url@,
    {
        Api { base_url }
    }

    pub closed spec fn spec_base_url(&self) -> Seq<char> {
        self.base_url@
    }

    fn fmt_url(&self, path: &str) -> (r: String)
        ensures
            r@ == self.spec_base_url() + path@,
    {
        let mut url = String::new();
        url.append(self.base_url.as_str());
        url.append(path);
        url
    }

    /// The URL of the saved searches.
    pub fn saved_searches_url(&self) -> (r: String)
        ensures
            r@ == self.spec_base_url() + saved_searches_path(),
    {
        self.fmt_url("/api/saved_searches")
    }

    /// What a reply's status means: only 200 carries the saved searches.
    pub fn check_status(status: u16) -> (r: Result<(), ApiError>)
        ensures
            r is Ok <==> status == 200,
            r is Err ==> r == Err::<(), ApiError>(ApiError::BadStatus(status)),
    {
        match status {
            200 => Ok(()),
            _ => Err(ApiError::BadStatus(status)),
        }
    }
}

} // verus!

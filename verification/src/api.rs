//! Where the user interface finds the REST API, and the URLs of its
//! endpoints.
use vstd::prelude::*;
use vstd::string::*;
use crate::ids::{id_text, uuid_text, Id};

verus! {

/// The address the API is reached at when none is configured.
pub open spec fn default_base_url() -> Seq<char> {
    "http://localhost:3000"@
}

/// The client of the REST API: the base address its endpoints hang off.
#[derive(Clone, Debug)]
pub struct ApiService {
    base_url: String,
}

impl ApiService {
    /// The base address.
    pub closed spec fn base(self) -> Seq<char> {
        self.base_url@
    }

    /// The client for the configured base address, or for the local server
    /// where none is configured.
    pub fn with_base_url(configured: Option<String>) -> (s: ApiService)
        ensures
            configured matches Some(u) ==> s.base() == u@,
            configured is None ==> s.base() == default_base_url(),
    {
        match configured {
            Some(u) => ApiService { base_url: u },
            None => ApiService { base_url: String::from_str("http://localhost:3000") },
        }
    }

    /// The base address.
    pub fn base_url(&self) -> (s: &str)
        ensures
            s@ == self.base(),
    {
        self.base_url.as_str()
    }

    /// The URL of an endpoint: the base address followed by the path.
    pub fn endpoint(&self, path: &str) -> (s: String)
        ensures
            s@ == self.base() + path@,
    {
        let mut s = self.base_url.clone();
        s.append(path);
        s
    }

    /// The URL of one record of a collection, followed by an action path
    /// (empty for the record itself).
    pub fn record_url(&self, collection: &str, id: Id, action: &str) -> (s: String)
        ensures
            s@ == self.base() + collection@ + "/"@ + uuid_text(id) + action@,
    {
        let mut s = self.base_url.clone();
        s.append(collection);
        s.append("/");
        let id_string = id_text(id);
        s.append(id_string.as_str());
        s.append(action);
        s
    }
}

} // verus!

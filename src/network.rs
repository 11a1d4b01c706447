//! State kept for each resource the engine reads over the network.
use vstd::prelude::*;
use crate::headers::{lookup, HeaderCache};

verus! {

/// One open resource: its URL and the headers of its last response.
///
/// Made when the engine opens the resource, consulted by every read and header lookup, and
/// dropped when the engine closes it.
#[derive(Debug)]
pub struct HandleData {
    url: String,
    headers: HeaderCache,
}

impl HandleData {
    pub closed spec fn url_view(&self) -> Seq<char> {
        self.url@
    }

    pub closed spec fn headers_view(&self) -> Seq<(Seq<u8>, Seq<u8>)> {
        self.headers.view()
    }

    /// State of a resource that was just opened.
    pub fn new(url: String, headers: HeaderCache) -> (r: HandleData)
        ensures
            r.url_view() == url@,
            r.headers_view() == headers.view(),
    {
        HandleData { url, headers }
    }

    /// The resource's URL.
    pub fn url(&self) -> (r: &String)
        ensures
            r@ == self.url_view(),
    {
        &self.url
    }

    /// Keep the headers of a newer response in place of the old ones.
    pub fn replace_headers(&mut self, headers: HeaderCache)
        ensures
            final(self).url_view() == old(self).url_view(),
            final(self).headers_view() == headers.view(),
    {
        self.headers = headers;
    }

    /// The value of header `name` in the last response, up to ASCII case.
    pub fn header_value(&self, name: &[u8]) -> (r: Option<&Vec<u8>>)
        ensures
            match lookup(self.headers_view(), name@) {
                Some(v) => r is Some && r->Some_0@ == v,
                None => r is None,
            },
    {
        self.headers.get(name)
    }
}

} // verus!

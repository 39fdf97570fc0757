//! The HTTP endpoint watcher: it substitutes `{ip}` and `{port}` into the
//! configured url's query string and body and sends one request per update.
//! The request itself runs outside; the choice and substitution of the body
//! are made here.

use crate::client::MappedAddress;
use crate::config::Metadata;
use vstd::prelude::*;
use vstd::string::StringSliceAdditionalSpecFns;

verus! {

/// An HTTP endpoint told about each address change.
pub struct Http {
    /// Instance name.
    pub name: Vec<u8>,
    /// Request url; `{ip}` and `{port}` in its query are replaced before
    /// sending.
    pub url: Vec<u8>,
    /// Request method.
    pub method: Vec<u8>,
    /// Request body; `{ip}` and `{port}` are replaced before sending. The
    /// metadata's value overrides it when non-empty.
    pub body: Option<Vec<u8>>,
    /// Request headers.
    pub headers: Vec<(Vec<u8>, Vec<u8>)>,
}

impl Http {
    /// An HTTP watcher. Fails exactly when the url does not parse or names
    /// no host.
    pub fn new(
        name: Vec<u8>,
        url: Vec<u8>,
        method: Vec<u8>,
        body: Option<Vec<u8>>,
        headers: Vec<(Vec<u8>, Vec<u8>)>,
    ) -> (r: Result<Http, crate::urls::UrlError>)
        ensures
            crate::urls::url_parts_of(url@) is Some ==> (r matches Ok(w) && w.name == name && w.url
                == url && w.method == method && w.body == body && w.headers == headers),
            crate::urls::url_parts_of(url@) is None ==> (r matches Err(e) && e
                == crate::urls::UrlError::Invalid),
    {
        match crate::urls::parse_url(&url) {
            Some(_) => Ok(Http { name, url, method, body, headers }),
            None => Err(crate::urls::UrlError::Invalid),
        }
    }

    /// The watcher's kind tag.
    pub fn kind(&self) -> (r: Vec<u8>)
        ensures
            r@ == "http".spec_bytes(),
    {
        proof {
            reveal_strlit("http");
        }
        crate::bytes::lit("http")
    }

    /// The body one update sends: the metadata's value when it is
    /// non-empty, the configured body otherwise, tokens substituted either
    /// way; nothing when neither is configured.
    pub fn request_body(&self, md: &Metadata, addr: &MappedAddress) -> (r: Option<Vec<u8>>)
        ensures
            md.value@.len() > 0 ==> (r matches Some(b) && b@ == crate::watcher::formatted(
                md.value@,
                *addr,
            )),
            md.value@.len() == 0 ==> (match self.body {
                Some(body) => r matches Some(b) && b@ == crate::watcher::formatted(body@, *addr),
                None => r is None,
            }),
    {
        if md.value.len() > 0 {
            Some(crate::watcher::format_value(&md.value, addr))
        } else {
            match &self.body {
                Some(body) => Some(crate::watcher::format_value(body, addr)),
                None => None,
            }
        }
    }

    /// The query string one update sends: the configured one, tokens
    /// substituted.
    pub fn request_query(&self, query: &Vec<u8>, addr: &MappedAddress) -> (r: Vec<u8>)
        ensures
            r@ == crate::watcher::formatted(query@, *addr),
    {
        crate::watcher::format_value(query, addr)
    }
}

} // verus!

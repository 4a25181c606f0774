//! Validated outbound URLs.  The scheme — the text before the first
//! `:` — is checked before any structural parsing, so a non-HTTP URL
//! never reaches outbound I/O; the structural parse itself is
//! delegated to the `url` crate.

use vstd::prelude::*;
use crate::external::{parse_url, parsed_url};
use crate::strutil::{first_colon_at, lemma_first_colon_at_unique, str_eq};

verus! {

/// The reasons a candidate URL is rejected.
#[derive(Debug)]
pub enum HttpUrlError {
    InvalidHttpUrl(url::ParseError),
    SchemeNotSupported,
}

/// A validated URL whose scheme is `http` or `https`, held in the
/// parser's normalized serialization.
#[derive(Debug)]
pub struct HttpUrl {
    url: String,
}

impl Clone for HttpUrl {
    /// The copy carries the same text.
    fn clone(&self) -> (r: Self)
        ensures
            r@ == self@,
    {
        HttpUrl { url: self.url.clone() }
    }
}

/// The scheme guard: the text before the first `:` must be exactly
/// `http` or `https`.
pub open spec fn spec_is_http_or_https(s: Seq<char>) -> bool {
    exists|i: int|
        #[trigger] first_colon_at(s, i) && (s.subrange(0, i) == "http"@ || s.subrange(0, i)
            == "https"@)
}

impl View for HttpUrl {
    type V = Seq<char>;

    closed spec fn view(&self) -> Seq<char> {
        self.url@
    }
}

impl HttpUrl {
    /// Validates `url`: first the scheme, then the structural parse.
    /// On success the held text is the normalized serialization of the
    /// input.
    pub fn new(url: &str) -> (r: Result<HttpUrl, HttpUrlError>)
        ensures
            r matches Ok(u) ==> spec_is_http_or_https(url@) && parsed_url(url@) == Some(u@),
            r matches Err(e) ==> match e {
                HttpUrlError::SchemeNotSupported => !spec_is_http_or_https(url@),
                HttpUrlError::InvalidHttpUrl(_) => spec_is_http_or_https(url@) && parsed_url(
                    url@,
                ) is None,
            },
            (r matches Ok(_)) <==> (spec_is_http_or_https(url@) && parsed_url(url@) is Some),
    {
        if !Self::is_http_or_https_scheme(url) {
            return Err(HttpUrlError::SchemeNotSupported);
        }
        match parse_url(url) {
            Ok(normalized) => Ok(HttpUrl { url: normalized }),
            Err(e) => Err(HttpUrlError::InvalidHttpUrl(e)),
        }
    }

    fn is_http_or_https_scheme(input: &str) -> (r: bool)
        ensures
            r == spec_is_http_or_https(input@),
    {
        let n = input.unicode_len();
        let mut i: usize = 0;
        while i < n
            invariant
                i <= n,
                n == input@.len(),
                forall|k: int| 0 <= k < i ==> input@[k] != ':',
            decreases n - i,
        {
            if input.get_char(i) == ':' {
                proof {
                    assert(first_colon_at(input@, i as int));
                    assert forall|j: int| #[trigger] first_colon_at(input@, j) implies j
                        == i as int by {
                        lemma_first_colon_at_unique(input@, i as int, j);
                    }
                }
                let scheme = input.substring_char(0, i);
                return str_eq(scheme, "http") || str_eq(scheme, "https");
            }
            i = i + 1;
        }
        proof {
            assert forall|j: int| !(#[trigger] first_colon_at(input@, j)) by {
                if 0 <= j < input@.len() {
                    assert(input@[j] != ':');
                }
            }
        }
        false
    }

    /// The normalized URL text.
    pub fn as_str(&self) -> (r: &str)
        ensures
            r@ == self@,
    {
        self.url.as_str()
    }

    /// The normalized URL text as an owned string.
    pub fn to_text(&self) -> (r: String)
        ensures
            r@ == self@,
    {
        self.url.clone()
    }
}

} // verus!

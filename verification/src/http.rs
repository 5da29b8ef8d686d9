//! The request that fetches a stream, and which answers open one.
use vstd::prelude::*;

use crate::config::{self, Config, ConfigView, Method};
use crate::error::{Error, ErrorView};

verus! {

/// An HTTP request.
#[derive(Debug)]
pub struct Request {
    pub method: Method,
    pub url: String,
    /// Headers as `(name, value)` pairs, in the order in which they are added.
    pub headers: Vec<(String, String)>,
    pub body: Option<Vec<u8>>,
}

/// The mathematical value of a [`Request`].
pub struct RequestView {
    pub method: Seq<char>,
    pub url: Seq<char>,
    pub headers: Seq<(Seq<char>, Seq<char>)>,
    pub body: Option<Seq<u8>>,
}

impl View for Request {
    type V = RequestView;

    open spec fn view(&self) -> RequestView {
        RequestView {
            method: self.method@,
            url: self.url@,
            headers: config::headers_view(self.headers@),
            body: config::body_view(self.body),
        }
    }
}

impl ConfigView {
    /// The request that fetches the stream of the configuration: its method,
    /// URL and body, and all of its headers in their order.
    pub open spec fn request(self) -> RequestView {
        RequestView {
            method: self.method,
            url: self.url,
            headers: self.headers,
            body: self.body,
        }
    }
}

/// A request is made of the method, the URL, the headers and the body of its
/// configuration, each by itself: whatever the others are, each is that of the
/// configuration. Where the FIFO is makes no difference.
pub proof fn law_request_is_that_of_the_configuration(config: ConfigView, other: ConfigView)
    ensures
        config.request().method == config.method,
        config.request().url == config.url,
        config.request().headers == config.headers,
        config.request().body == config.body,
        config.request() == other.request() <==> config.method == other.method && config.url
            == other.url && config.headers == other.headers && config.body == other.body,
{
}

/// The statuses that open a stream are those from 200 to 299.
pub proof fn law_success_is_2xx(status: u16)
    ensures
        success(status) <==> status / 100 == 2,
{
}

/// The request that fetches the stream of `config`.
pub fn fetch_stream(config: &Config) -> (r: Request)
    ensures
        r@ == config@.request(),
        r@.method == config@.method,
        r@.url == config@.url,
        r@.headers == config@.headers,
        r@.body == config@.body,
        r.method@ == config.method@,
        r.url@ == config.url@,
        r.headers.len() == config.headers.len(),
        forall|i: int|
            0 <= i < config.headers.len() ==> (#[trigger] r.headers@[i]).0@
                == config.headers@[i].0@ && r.headers@[i].1@ == config.headers@[i].1@,
        match config.body {
            Some(body) => r.body matches Some(sent) && sent@ == body@,
            None => r.body is None,
        },
{
    Request {
        method: config.method.copy(),
        url: config.url.clone(),
        headers: config::copy_headers(&config.headers),
        body: config::copy_body(&config.body),
    }
}

/// The statuses that mean success.
pub open spec fn success(status: u16) -> bool {
    200 <= status <= 299
}

/// Whether the body of an answer with `status` is the stream, or the error for a
/// status other than success, described by `detail`.
pub fn check_status(status: u16, detail: String) -> (r: Result<(), Error>)
    ensures
        r is Ok <==> success(status),
        r is Ok <==> 200 <= status <= 299,
        r matches Err(e) ==> e@ == ErrorView::Http(detail@),
{
    if 200 <= status && status <= 299 {
        Ok(())
    } else {
        Err(Error::Http(detail))
    }
}

} // verus!

//! What to mount.
use vstd::prelude::*;

use crate::text;

verus! {

/// The characters that an HTTP method may hold.
pub open spec fn method_char(c: char) -> bool {
    ||| 'a' <= c <= 'z'
    ||| 'A' <= c <= 'Z'
    ||| '0' <= c <= '9'
    ||| c == '!' || c == '#' || c == '$' || c == '%' || c == '&' || c == '\'' || c == '*'
    ||| c == '+' || c == '-' || c == '.' || c == '^' || c == '_' || c == '`' || c == '|'
    ||| c == '~'
}

/// The texts that are HTTP methods: one or more of the method characters, in
/// any case.
pub open spec fn is_method(s: Seq<char>) -> bool {
    s.len() > 0 && forall|i: int| 0 <= i < s.len() ==> method_char(#[trigger] s[i])
}

/// Whether a text is a method is a matter of its characters alone: a text is one if
/// and only if it has parts and they all are. The empty text is none.
pub proof fn law_method_is_made_of_method_characters(a: Seq<char>, b: Seq<char>, c: char)
    ensures
        !is_method(Seq::empty()),
        is_method(seq![c]) <==> method_char(c),
        a.len() > 0 && b.len() > 0 ==> (is_method(a + b) <==> is_method(a) && is_method(b)),
{
    assert(seq![c][0] == c);
    if a.len() > 0 && b.len() > 0 && is_method(a + b) {
        assert forall|i: int| 0 <= i < a.len() implies method_char(#[trigger] a[i]) by {
            assert((a + b)[i] == a[i]);
        }
        assert forall|i: int| 0 <= i < b.len() implies method_char(#[trigger] b[i]) by {
            assert((a + b)[a.len() + i] == b[i]);
        }
    }
}

/// Parses `s` as a `reqwest::Method` and gives back the method's text, or the
/// text of the parse error. A method is one or more token characters, its text
/// is what was parsed, and there is one error text only.
#[verifier::external_body]
fn parse_method_name(s: &str) -> (r: Result<String, String>)
    ensures
        r is Ok <==> is_method(s@),
        r matches Ok(name) ==> name@ == s@,
        r matches Err(detail) ==> detail@ == "invalid HTTP method"@,
{
    match s.parse::<reqwest::Method>() {
        Ok(method) => Ok(method.as_str().to_owned()),
        Err(e) => Err(e.to_string()),
    }
}

/// An HTTP method (GET, POST, PUT, ...).
#[derive(Debug)]
pub struct Method {
    name: String,
}

impl View for Method {
    type V = Seq<char>;

    closed spec fn view(&self) -> Seq<char> {
        self.name@
    }
}

impl Method {
    #[verifier::type_invariant]
    spec fn valid(self) -> bool {
        is_method(self.name@)
    }

    /// The method that `s` names, or what is wrong with it.
    pub fn parse(s: &str) -> (r: Result<Method, String>)
        ensures
            r is Ok <==> is_method(s@),
            r matches Ok(method) ==> method@ == s@,
            r matches Err(detail) ==> detail@ == "invalid HTTP method"@,
    {
        match parse_method_name(s) {
            Ok(name) => Ok(Method { name }),
            Err(detail) => Err(detail),
        }
    }

    /// The method's text.
    pub fn as_str(&self) -> (r: &str)
        ensures
            r@ == self@,
            is_method(r@),
    {
        proof {
            use_type_invariant(self);
        }
        self.name.as_str()
    }

    /// A copy of the method.
    pub(crate) fn copy(&self) -> (r: Method)
        ensures
            r@ == self@,
    {
        proof {
            use_type_invariant(self);
        }
        Method { name: self.name.clone() }
    }
}

/// One HTTP stream and the FIFO that it is mounted to.
#[derive(Debug)]
pub struct Config {
    /// HTTP endpoint to stream from.
    pub url: String,
    /// HTTP method (GET, POST, PUT, ...).
    pub method: Method,
    /// Optional request body, used with POST/PUT/PATCH.
    pub body: Option<Vec<u8>>,
    /// Additional request headers as `(name, value)` pairs.
    pub headers: Vec<(String, String)>,
    /// The bytes of the path where the FIFO will be created.
    pub fifo_path: Vec<u8>,
}

/// The mathematical value of a [`Config`].
pub struct ConfigView {
    pub url: Seq<char>,
    pub method: Seq<char>,
    pub body: Option<Seq<u8>>,
    pub headers: Seq<(Seq<char>, Seq<char>)>,
    pub fifo_path: Seq<u8>,
}

/// The mathematical value of a request body.
pub open spec fn body_view(body: Option<Vec<u8>>) -> Option<Seq<u8>> {
    match body {
        Some(bytes) => Some(bytes@),
        None => None,
    }
}

/// The mathematical value of a list of headers.
pub open spec fn headers_view(headers: Seq<(String, String)>) -> Seq<(Seq<char>, Seq<char>)> {
    headers.map_values(|h: (String, String)| (h.0@, h.1@))
}

impl View for Config {
    type V = ConfigView;

    open spec fn view(&self) -> ConfigView {
        ConfigView {
            url: self.url@,
            method: self.method@,
            body: body_view(self.body),
            headers: headers_view(self.headers@),
            fifo_path: self.fifo_path@,
        }
    }
}

/// The value of a configuration holds all that the configuration does: its URL, its
/// method, its path, every byte of its body, and every header in its place.
pub proof fn law_value_holds_the_whole_configuration(config: Config)
    ensures
        config@.url == config.url@,
        config@.method == config.method@,
        config@.fifo_path == config.fifo_path@,
        config.body is None <==> config@.body is None,
        config.body matches Some(bytes) ==> config@.body == Some(bytes@),
        config@.headers.len() == config.headers@.len(),
        forall|i: int|
            0 <= i < config.headers@.len() ==> #[trigger] config@.headers[i] == (
                config.headers@[i].0@,
                config.headers@[i].1@,
            ),
{
}

/// The mathematical value of a list of configurations.
pub open spec fn configs_view(configs: Seq<Config>) -> Seq<ConfigView> {
    configs.map_values(|c: Config| c@)
}

/// A copy of `body`.
pub(crate) fn copy_body(body: &Option<Vec<u8>>) -> (r: Option<Vec<u8>>)
    ensures
        body_view(r) == body_view(*body),
        match *body {
            Some(bytes) => r matches Some(copy) && copy@ == bytes@,
            None => r is None,
        },
{
    match body {
        Some(bytes) => Some(text::copy_bytes(bytes)),
        None => None,
    }
}

/// A copy of `headers`.
pub(crate) fn copy_headers(headers: &Vec<(String, String)>) -> (r: Vec<(String, String)>)
    ensures
        headers_view(r@) == headers_view(headers@),
        r.len() == headers.len(),
        forall|i: int|
            0 <= i < headers.len() ==> (#[trigger] r@[i]).0@ == headers@[i].0@ && r@[i].1@
                == headers@[i].1@,
{
    let mut copy: Vec<(String, String)> = Vec::new();
    for i in 0..headers.len()
        invariant
            copy.len() == i,
            forall|j: int|
                0 <= j < i ==> (#[trigger] copy@[j]).0@ == headers@[j].0@ && copy@[j].1@
                    == headers@[j].1@,
    {
        copy.push((headers[i].0.clone(), headers[i].1.clone()));
    }
    assert(headers_view(copy@) =~= headers_view(headers@));
    copy
}

} // verus!

//! From the command line to the configurations of the mounts.
use vstd::prelude::*;
use vstd::string::*;
use vstd::utf8::*;

use crate::config::{self, Config, ConfigView, Method};
use crate::text;

verus! {

/// What is wrong with a command line.
#[derive(Debug, PartialEq, Eq)]
pub enum CliError {
    /// The first text is not an HTTP method, for the reason that the second gives.
    InvalidMethod(String, String),
    /// This header has no colon.
    MalformedHeader(String),
    /// Positionals and `--mount` are mutually exclusive.
    MixedForms,
    /// One of the two positionals is missing.
    IncompletePositionals,
    /// Neither positionals nor `--mount` are given.
    NothingToMount,
}

/// The mathematical value of a [`CliError`].
pub enum CliErrorView {
    InvalidMethod(Seq<char>, Seq<char>),
    MalformedHeader(Seq<char>),
    MixedForms,
    IncompletePositionals,
    NothingToMount,
}

impl View for CliError {
    type V = CliErrorView;

    open spec fn view(&self) -> CliErrorView {
        match self {
            CliError::InvalidMethod(method, detail) => CliErrorView::InvalidMethod(
                method@,
                detail@,
            ),
            CliError::MalformedHeader(header) => CliErrorView::MalformedHeader(header@),
            CliError::MixedForms => CliErrorView::MixedForms,
            CliError::IncompletePositionals => CliErrorView::IncompletePositionals,
            CliError::NothingToMount => CliErrorView::NothingToMount,
        }
    }
}

impl CliErrorView {
    /// The line that explains the error.
    pub open spec fn message(self) -> Seq<char> {
        match self {
            CliErrorView::InvalidMethod(method, detail) => "error: invalid HTTP method '"@ + method
                + "': "@ + detail,
            CliErrorView::MalformedHeader(header) => "error: header must be NAME:VALUE, got "@
                + text::debug_text(header),
            CliErrorView::MixedForms =>
                "error: cannot combine positional <URL>/<FIFO_PATH> with --mount flags"@,
            CliErrorView::IncompletePositionals =>
                "error: single-mount form requires both <URL> and <FIFO_PATH>"@,
            CliErrorView::NothingToMount =>
                "error: provide either <URL> <FIFO_PATH> or at least one --mount <URL> <FIFO_PATH>"@,
        }
    }
}

impl CliError {
    /// The line that explains the error.
    pub fn message(&self) -> (r: String)
        ensures
            r@ == self@.message(),
            match self {
                CliError::InvalidMethod(method, detail) => r@ == "error: invalid HTTP method '"@
                    + method@ + "': "@ + detail@,
                CliError::MalformedHeader(header) => r@
                    == "error: header must be NAME:VALUE, got "@ + text::debug_text(header@),
                CliError::MixedForms => r@
                    == "error: cannot combine positional <URL>/<FIFO_PATH> with --mount flags"@,
                CliError::IncompletePositionals => r@
                    == "error: single-mount form requires both <URL> and <FIFO_PATH>"@,
                CliError::NothingToMount => r@
                    == "error: provide either <URL> <FIFO_PATH> or at least one --mount <URL> <FIFO_PATH>"@,
            },
    {
        match self {
            CliError::InvalidMethod(method, detail) => "error: invalid HTTP method '".to_owned().concat(
                method.as_str(),
            ).concat("': ").concat(detail.as_str()),
            CliError::MalformedHeader(header) => {
                let shown = text::quoted(header.as_str());
                malformed_header_message(shown.as_str())
            },
            CliError::MixedForms =>
                "error: cannot combine positional <URL>/<FIFO_PATH> with --mount flags".to_owned(),
            CliError::IncompletePositionals =>
                "error: single-mount form requires both <URL> and <FIFO_PATH>".to_owned(),
            CliError::NothingToMount =>
                "error: provide either <URL> <FIFO_PATH> or at least one --mount <URL> <FIFO_PATH>".to_owned(),
        }
    }
}

/// The line for a header without a colon that is shown as `header`.
pub fn malformed_header_message(header: &str) -> (r: String)
    ensures
        r@ == "error: header must be NAME:VALUE, got "@ + header@,
{
    "error: header must be NAME:VALUE, got ".to_owned().concat(header)
}

/// Parses an HTTP method.
pub fn parse_method(s: &str) -> (r: Result<Method, CliError>)
    ensures
        r is Ok <==> config::is_method(s@),
        r matches Ok(method) ==> method@ == s@,
        r matches Err(e) ==> e@ == CliErrorView::InvalidMethod(s@, "invalid HTTP method"@),
{
    match Method::parse(s) {
        Ok(method) => Ok(method),
        Err(detail) => Err(CliError::InvalidMethod(s.to_owned(), detail)),
    }
}

/// The name and the value of the header `s`: what stands before its first colon
/// and what stands after it, without the white space around either. There is none
/// if `s` has no colon.
pub open spec fn header(s: Seq<char>) -> Option<(Seq<char>, Seq<char>)> {
    match s.index_of_first(':') {
        Some(i) => Some((text::trimmed(s.take(i)), text::trimmed(s.skip(i + 1)))),
        None => None,
    }
}

/// Parses `NAME:VALUE` (or `NAME: VALUE`) into a pair.
pub fn parse_header(s: &str) -> (r: Result<(String, String), CliError>)
    ensures
        match header(s@) {
            Some(pair) => r is Ok && (r->Ok_0.0@, r->Ok_0.1@) == pair,
            None => r is Err && r->Err_0@ == CliErrorView::MalformedHeader(s@),
        },
        r is Ok <==> s@.contains(':'),
        r matches Ok(pair) ==> exists|i: int|
            {
                &&& 0 <= i < s@.len()
                &&& #[trigger] s@[i] == ':'
                &&& !s@.take(i).contains(':')
                &&& pair.0@ == text::trimmed(s@.take(i))
                &&& pair.1@ == text::trimmed(s@.skip(i + 1))
            },
        r matches Err(e) ==> (e matches CliError::MalformedHeader(line) && line@ == s@),
{
    let chars = text::chars_of(s);
    proof {
        s@.index_of_first_ensures(':');
    }
    for i in 0..chars.len()
        invariant
            chars@ == s@,
            forall|j: int| 0 <= j < i ==> s@[j] != ':',
            match s@.index_of_first(':') {
                Some(index) => {
                    &&& 0 <= index < s@.len()
                    &&& s@[index] == ':'
                    &&& forall|j: int| 0 <= j < index ==> s@[j] != ':'
                },
                None => !s@.contains(':'),
            },
    {
        if chars[i] == ':' {
            assert(s@.contains(':'));
            assert(s@.index_of_first(':') == Some(i as int));
            let name = s.substring_char(0, i);
            let value = s.substring_char(i + 1, chars.len());
            assert(name@ =~= s@.take(i as int));
            assert(value@ =~= s@.skip(i + 1));
            assert(!s@.take(i as int).contains(':'));
            return Ok((text::trim(name).to_owned(), text::trim(value).to_owned()));
        }
    }
    assert(!s@.contains(':'));
    Err(CliError::MalformedHeader(s.to_owned()))
}

/// A header is split at its first colon, the value may hold further ones, and
/// `NAME: VALUE` means the same as `NAME:VALUE`. Without a colon there is none.
pub proof fn law_header_splits_at_first_colon(name: Seq<char>, value: Seq<char>)
    requires
        !name.contains(':'),
    ensures
        header(name + seq![':'] + value) == Some((text::trimmed(name), text::trimmed(value))),
        header(name + seq![':'] + seq![' '] + value) == header(name + seq![':'] + value),
        header(name) is None,
{
    name.index_of_first_ensures(':');
    lemma_first_colon(name, value);
    lemma_first_colon(name, seq![' '] + value);
    assert(name + seq![':'] + seq![' '] + value =~= name + seq![':'] + (seq![' '] + value));
    text::law_trim_ignores_leading_white_space(' ', value);
}

proof fn lemma_first_colon(name: Seq<char>, value: Seq<char>)
    requires
        !name.contains(':'),
    ensures
        header(name + seq![':'] + value) == Some((text::trimmed(name), text::trimmed(value))),
{
    let s = name + seq![':'] + value;
    s.index_of_first_ensures(':');
    assert(s[name.len() as int] == ':');
    assert(s.contains(':'));
    let i = s.index_of_first(':')->0;
    if i < name.len() {
        assert(name[i] == ':');
    }
    assert(i == name.len());
    assert(s.take(i) =~= name);
    assert(s.skip(i + 1) =~= value);
}

/// The headers that `lines` give, or the error for the first that is malformed.
pub open spec fn headers(lines: Seq<Seq<char>>) -> Result<
    Seq<(Seq<char>, Seq<char>)>,
    CliErrorView,
>
    decreases lines.len(),
{
    if lines.len() == 0 {
        Ok(Seq::empty())
    } else {
        match headers(lines.drop_last()) {
            Ok(before) => match header(lines.last()) {
                Some(pair) => Ok(before.push(pair)),
                None => Err(CliErrorView::MalformedHeader(lines.last())),
            },
            Err(e) => Err(e),
        }
    }
}

/// Headers are parsed line by line and keep their order: there are headers if and
/// only if every line has a colon, one for each line, and otherwise the first line
/// without one is what is wrong.
pub proof fn law_headers_line_by_line(lines: Seq<Seq<char>>)
    ensures
        headers(lines) is Ok <==> forall|i: int|
            0 <= i < lines.len() ==> (#[trigger] lines[i]).contains(':'),
        headers(lines) matches Ok(pairs) ==> pairs.len() == lines.len() && forall|i: int|
            0 <= i < lines.len() ==> header(#[trigger] lines[i]) == Some(pairs[i]),
        headers(lines) matches Err(e) ==> exists|n: int|
            {
                &&& 0 <= n < lines.len()
                &&& !(#[trigger] lines[n]).contains(':')
                &&& forall|j: int| 0 <= j < n ==> (#[trigger] lines[j]).contains(':')
                &&& e == CliErrorView::MalformedHeader(lines[n])
            },
    decreases lines.len(),
{
    if lines.len() > 0 {
        let before = lines.drop_last();
        law_headers_line_by_line(before);
        lines.last().index_of_first_ensures(':');
        assert(forall|i: int| 0 <= i < before.len() ==> #[trigger] before[i] == lines[i]);
        assert(forall|i: int| 0 <= i < before.len() ==> #[trigger] lines[i] == before[i]);
        assert(lines[lines.len() - 1] == lines.last());
        if headers(before) is Err {
            let n = choose|n: int|
                {
                    &&& 0 <= n < before.len()
                    &&& !(#[trigger] before[n]).contains(':')
                    &&& forall|j: int| 0 <= j < n ==> (#[trigger] before[j]).contains(':')
                    &&& headers(before)->Err_0 == CliErrorView::MalformedHeader(before[n])
                };
            assert(!lines[n].contains(':'));
        }
    }
}

/// The mathematical value of a list of texts.
pub open spec fn texts(list: Seq<String>) -> Seq<Seq<char>> {
    list.map_values(|s: String| s@)
}

/// Parses headers, up to the first that is malformed.
pub fn parse_headers(lines: &Vec<String>) -> (r: Result<Vec<(String, String)>, CliError>)
    ensures
        match headers(texts(lines@)) {
            Ok(pairs) => r is Ok && config::headers_view(r->Ok_0@) == pairs,
            Err(e) => r is Err && r->Err_0@ == e,
        },
        r is Ok <==> forall|i: int|
            0 <= i < lines.len() ==> (#[trigger] lines@[i])@.contains(':'),
        r matches Ok(pairs) ==> pairs.len() == lines.len() && forall|i: int|
            0 <= i < lines.len() ==> header((#[trigger] lines@[i])@) == Some(
                (pairs@[i].0@, pairs@[i].1@),
            ),
        r matches Err(e) ==> e is MalformedHeader,
{
    let ghost given = texts(lines@);
    proof {
        law_headers_line_by_line(given);
        assert(forall|i: int| 0 <= i < lines.len() ==> #[trigger] given[i] == lines@[i]@);
        assert(forall|i: int| 0 <= i < lines.len() ==> (#[trigger] lines@[i])@ == given[i]);
    }
    let mut pairs: Vec<(String, String)> = Vec::new();
    assert(config::headers_view(pairs@) =~= Seq::empty());
    for i in 0..lines.len()
        invariant
            given == texts(lines@),
            headers(given.take(i as int)) == Ok::<_, CliErrorView>(config::headers_view(pairs@)),
    {
        let ghost before = pairs@;
        assert(given.take(i + 1).drop_last() =~= given.take(i as int));
        match parse_header(lines[i].as_str()) {
            Ok(pair) => {
                pairs.push(pair);
                assert(config::headers_view(pairs@) =~= config::headers_view(before).push(
                    (pair.0@, pair.1@),
                ));
            },
            Err(e) => {
                proof {
                    lemma_error_stays(given, i + 1);
                }
                return Err(e);
            },
        }
    }
    assert(given.take(lines.len() as int) =~= given);
    assert(forall|i: int|
        0 <= i < pairs.len() ==> #[trigger] config::headers_view(pairs@)[i] == (
            pairs@[i].0@,
            pairs@[i].1@,
        ));
    Ok(pairs)
}

proof fn lemma_error_stays(lines: Seq<Seq<char>>, n: int)
    requires
        0 <= n <= lines.len(),
        headers(lines.take(n)) is Err,
    ensures
        headers(lines) == headers(lines.take(n)),
    decreases lines.len(),
{
    if n < lines.len() {
        assert(lines.drop_last().take(n) =~= lines.take(n));
        lemma_error_stays(lines.drop_last(), n);
    } else {
        assert(lines.take(n) =~= lines);
    }
}

/// What all mounts share.
pub struct SharedView {
    pub method: Seq<char>,
    pub headers: Seq<(Seq<char>, Seq<char>)>,
    pub body: Option<Seq<u8>>,
}

impl SharedView {
    /// The configuration that mounts `url` to a FIFO at `fifo_path`.
    pub open spec fn config(self, url: Seq<char>, fifo_path: Seq<u8>) -> ConfigView {
        ConfigView {
            url,
            method: self.method,
            body: self.body,
            headers: self.headers,
            fifo_path,
        }
    }
}

/// The configuration that mounts `url` to a FIFO at `fifo_path`, with the method,
/// headers and body that all mounts share.
pub fn make_config(
    url: String,
    fifo_path: Vec<u8>,
    method: Method,
    headers: Vec<(String, String)>,
    body: Option<Vec<u8>>,
) -> (r: Config)
    ensures
        r.url == url,
        r.fifo_path == fifo_path,
        r.method == method,
        r.headers == headers,
        r.body == body,
{
    Config { url, method, body, headers, fifo_path }
}

/// The configurations that the mount arguments ask for: one for the two
/// positionals, or one for each URL and FIFO path of `--mount`, in their order.
pub open spec fn configs(
    url: Option<Seq<char>>,
    fifo_path: Option<Seq<u8>>,
    mounts: Seq<Seq<char>>,
    shared: SharedView,
) -> Result<Seq<ConfigView>, CliErrorView> {
    if url is None && fifo_path is None {
        if mounts.len() == 0 {
            Err(CliErrorView::NothingToMount)
        } else {
            Ok(
                Seq::new(
                    mounts.len() / 2,
                    |i: int| shared.config(mounts[2 * i], encode_utf8(mounts[2 * i + 1])),
                ),
            )
        }
    } else if mounts.len() > 0 {
        Err(CliErrorView::MixedForms)
    } else {
        match (url, fifo_path) {
            (Some(url), Some(fifo_path)) => Ok(seq![shared.config(url, fifo_path)]),
            _ => Err(CliErrorView::IncompletePositionals),
        }
    }
}

/// The mathematical value of an optional text.
pub open spec fn text_view(s: Option<String>) -> Option<Seq<char>> {
    match s {
        Some(s) => Some(s@),
        None => None,
    }
}

/// Validates the mount arguments and builds the list of configurations.
///
/// `mounts` holds a URL and a FIFO path in turn. When they are what is mounted,
/// each URL has its path.
pub fn build_configs(
    url: Option<String>,
    fifo_path: Option<Vec<u8>>,
    mounts: &[String],
    method: Method,
    headers: Vec<(String, String)>,
    body: Option<Vec<u8>>,
) -> (r: Result<Vec<Config>, CliError>)
    requires
        url is None && fifo_path is None ==> mounts@.len() % 2 == 0,
    ensures
        ({
            let shared = SharedView {
                method: method@,
                headers: config::headers_view(headers@),
                body: config::body_view(body),
            };
            match configs(
                text_view(url),
                config::body_view(fifo_path),
                texts(mounts@),
                shared,
            ) {
                Ok(list) => r is Ok && config::configs_view(r->Ok_0@) == list,
                Err(e) => r is Err && r->Err_0@ == e,
            }
        }),
        ({
            let positionals = url is Some || fifo_path is Some;
            &&& positionals && mounts@.len() > 0 ==> (r matches Err(e) && e is MixedForms)
            &&& positionals && mounts@.len() == 0 && (url is None || fifo_path is None) ==> (
            r matches Err(e) && e is IncompletePositionals)
            &&& !positionals && mounts@.len() == 0 ==> (r matches Err(e) && e is NothingToMount)
            &&& url is Some && fifo_path is Some && mounts@.len() == 0 ==> (r matches Ok(list)
                && list@.len() == 1 && list@[0].url@ == url->0@ && list@[0].fifo_path@
                == fifo_path->0@)
            &&& !positionals && mounts@.len() > 0 ==> (r matches Ok(list) && 2 * list@.len()
                == mounts@.len() && forall|i: int|
                0 <= i < list@.len() ==> (#[trigger] list@[i]).url@ == mounts@[2 * i]@
                    && list@[i].fifo_path@ == encode_utf8(mounts@[2 * i + 1]@))
        }),
        r matches Ok(list) ==> forall|i: int|
            0 <= i < list@.len() ==> {
                &&& (#[trigger] list@[i]).method@ == method@
                &&& list@[i]@.headers == config::headers_view(headers@)
                &&& list@[i]@.body == config::body_view(body)
            },
{
    let ghost shared = SharedView {
        method: method@,
        headers: config::headers_view(headers@),
        body: config::body_view(body),
    };
    let has_positionals = url.is_some() || fifo_path.is_some();
    let has_mounts = mounts.len() > 0;
    if has_positionals && has_mounts {
        Err(CliError::MixedForms)
    } else if has_positionals {
        match (url, fifo_path) {
            (Some(url), Some(fifo_path)) => {
                let mut list: Vec<Config> = Vec::new();
                list.push(make_config(url, fifo_path, method, headers, body));
                assert(config::configs_view(list@) =~= seq![shared.config(url@, fifo_path@)]);
                Ok(list)
            },
            _ => Err(CliError::IncompletePositionals),
        }
    } else if has_mounts {
        let mut list: Vec<Config> = Vec::new();
        let mut i: usize = 0;
        while i < mounts.len()
            invariant
                i <= mounts.len(),
                i % 2 == 0,
                mounts@.len() % 2 == 0,
                list.len() == i / 2,
                shared == (SharedView {
                    method: method@,
                    headers: config::headers_view(headers@),
                    body: config::body_view(body),
                }),
                forall|j: int|
                    0 <= j < list.len() ==> (#[trigger] list@[j])@ == shared.config(
                        mounts@[2 * j]@,
                        encode_utf8(mounts@[2 * j + 1]@),
                    ),
            decreases mounts.len() - i,
        {
            list.push(
                make_config(
                    mounts[i].clone(),
                    text::bytes_of(mounts[i + 1].as_str()),
                    method.copy(),
                    config::copy_headers(&headers),
                    config::copy_body(&body),
                ),
            );
            i = i + 2;
        }
        assert(config::configs_view(list@) =~= configs(
            None,
            None,
            texts(mounts@),
            shared,
        )->Ok_0);
        Ok(list)
    } else {
        Err(CliError::NothingToMount)
    }
}

/// One URL and one path of `--mount` make one configuration, in their order, and
/// none is left out: the configuration at each place has the URL and the path given
/// there, and the method, headers and body that all share.
pub proof fn law_mounts_come_in_pairs(mounts: Seq<Seq<char>>, shared: SharedView)
    requires
        mounts.len() > 0,
        mounts.len() % 2 == 0,
    ensures
        configs(None, None, mounts, shared) matches Ok(list) && {
            &&& 2 * list.len() == mounts.len()
            &&& forall|i: int|
                0 <= i < list.len() ==> {
                    &&& (#[trigger] list[i]).url == mounts[2 * i]
                    &&& list[i].fifo_path == encode_utf8(mounts[2 * i + 1])
                    &&& list[i].method == shared.method
                    &&& list[i].headers == shared.headers
                    &&& list[i].body == shared.body
                }
        },
{
}

/// A further `--mount` adds its configuration at the end, and leaves those before it
/// as they are.
pub proof fn law_further_mount_adds_its_configuration(
    mounts: Seq<Seq<char>>,
    url: Seq<char>,
    fifo_path: Seq<char>,
    shared: SharedView,
)
    requires
        mounts.len() % 2 == 0,
    ensures
        ({
            let before = if mounts.len() == 0 {
                Seq::empty()
            } else {
                configs(None, None, mounts, shared)->Ok_0
            };
            let config = ConfigView {
                url,
                method: shared.method,
                body: shared.body,
                headers: shared.headers,
                fifo_path: encode_utf8(fifo_path),
            };
            configs(None, None, mounts + seq![url, fifo_path], shared) == Ok::<
                Seq<ConfigView>,
                CliErrorView,
            >(before.push(config))
        }),
{
    let longer = mounts + seq![url, fifo_path];
    let before = if mounts.len() == 0 {
        Seq::empty()
    } else {
        configs(None, None, mounts, shared)->Ok_0
    };
    let last = shared.config(url, encode_utf8(fifo_path));
    assert(configs(None, None, longer, shared)->Ok_0 =~= before.push(last));
}

/// The two forms exclude each other, the positional form takes both positionals,
/// and there has to be one of the forms.
pub proof fn law_one_form_and_all_of_it(
    url: Option<Seq<char>>,
    fifo_path: Option<Seq<u8>>,
    mounts: Seq<Seq<char>>,
    shared: SharedView,
)
    ensures
        (url is Some || fifo_path is Some) && mounts.len() > 0 <==> configs(
            url,
            fifo_path,
            mounts,
            shared,
        ) == Err::<Seq<ConfigView>, CliErrorView>(CliErrorView::MixedForms),
        (url is Some) != (fifo_path is Some) && mounts.len() == 0 <==> configs(
            url,
            fifo_path,
            mounts,
            shared,
        ) == Err::<Seq<ConfigView>, CliErrorView>(CliErrorView::IncompletePositionals),
        url is None && fifo_path is None && mounts.len() == 0 <==> configs(
            url,
            fifo_path,
            mounts,
            shared,
        ) == Err::<Seq<ConfigView>, CliErrorView>(CliErrorView::NothingToMount),
        url is Some && fifo_path is Some && mounts.len() == 0 ==> (configs(
            url,
            fifo_path,
            mounts,
            shared,
        ) matches Ok(list) && {
            &&& list.len() == 1
            &&& list[0].url == url->0
            &&& list[0].fifo_path == fifo_path->0
            &&& list[0].method == shared.method
            &&& list[0].headers == shared.headers
            &&& list[0].body == shared.body
        }),
{
}

/// The positional form is a convenience: it means the same as one `--mount` with
/// the same URL and FIFO path.
pub proof fn law_positionals_mean_one_mount(
    url: Seq<char>,
    fifo_path: Seq<char>,
    shared: SharedView,
)
    ensures
        configs(Some(url), Some(encode_utf8(fifo_path)), Seq::empty(), shared) == configs(
            None,
            None,
            seq![url, fifo_path],
            shared,
        ),
{
    assert(configs(None, None, seq![url, fifo_path], shared)->Ok_0 =~= seq![
        shared.config(url, encode_utf8(fifo_path)),
    ]);
}

/// The arguments of the command line.
#[derive(Debug)]
pub struct Arguments {
    /// HTTP endpoint to stream (single-mount form).
    pub url: Option<String>,
    /// The bytes of the FIFO path to create (single-mount form).
    pub fifo_path: Option<Vec<u8>>,
    /// A URL and a FIFO path in turn, for each `--mount`.
    pub mounts: Vec<String>,
    /// HTTP method applied to all mounts.
    pub method: String,
    /// Request headers as `NAME:VALUE`, applied to all mounts.
    pub headers: Vec<String>,
    /// Request body, applied to all mounts.
    pub data: Option<String>,
}

/// The request body that `--data` gives.
pub open spec fn body(data: Option<Seq<char>>) -> Option<Seq<u8>> {
    match data {
        Some(text) => Some(encode_utf8(text)),
        None => None,
    }
}

/// The configurations that a command line asks for, or the first thing that is
/// wrong with it: the method is looked at first, then the headers in their order,
/// then the mounts.
pub open spec fn planned(args: Arguments) -> Result<Seq<ConfigView>, CliErrorView> {
    if !config::is_method(args.method@) {
        Err(CliErrorView::InvalidMethod(args.method@, "invalid HTTP method"@))
    } else {
        match headers(texts(args.headers@)) {
            Err(e) => Err(e),
            Ok(pairs) => configs(
                text_view(args.url),
                config::body_view(args.fifo_path),
                texts(args.mounts@),
                SharedView {
                    method: args.method@,
                    headers: pairs,
                    body: body(text_view(args.data)),
                },
            ),
        }
    }
}

/// A command line is looked at in order: its method, then its headers, then its
/// mounts; the first thing that is wrong is what is said. If nothing is, every
/// configuration has the method as it was given, the headers of all header lines in
/// their order, and the data as its body.
pub proof fn law_command_line_is_taken_in_order(args: Arguments)
    ensures
        !config::is_method(args.method@) ==> planned(args) == Err::<Seq<ConfigView>, CliErrorView>(
            CliErrorView::InvalidMethod(args.method@, "invalid HTTP method"@),
        ),
        config::is_method(args.method@) && !(forall|i: int|
            0 <= i < args.headers@.len() ==> (#[trigger] args.headers@[i])@.contains(':')) ==> (
        planned(args) matches Err(e) && exists|n: int|
            {
                &&& 0 <= n < args.headers@.len()
                &&& !(#[trigger] args.headers@[n])@.contains(':')
                &&& forall|j: int| 0 <= j < n ==> (#[trigger] args.headers@[j])@.contains(':')
                &&& e == CliErrorView::MalformedHeader(args.headers@[n]@)
            }),
        config::is_method(args.method@) && (forall|i: int|
            0 <= i < args.headers@.len() ==> (#[trigger] args.headers@[i])@.contains(':')) ==> {
            let positionals = args.url is Some || args.fifo_path is Some;
            match planned(args) {
                Err(e) => {
                    ||| e is MixedForms && positionals && args.mounts@.len() > 0
                    ||| e is IncompletePositionals && args.mounts@.len() == 0 && (args.url is Some)
                        != (args.fifo_path is Some)
                    ||| e is NothingToMount && !positionals && args.mounts@.len() == 0
                },
                Ok(list) => {
                    &&& positionals ==> {
                        &&& args.mounts@.len() == 0
                        &&& list.len() == 1
                        &&& args.url matches Some(url) && list[0].url == url@
                        &&& args.fifo_path matches Some(path) && list[0].fifo_path == path@
                    }
                    &&& !positionals ==> {
                        &&& args.mounts@.len() > 0
                        &&& list.len() == args.mounts@.len() / 2
                        &&& forall|i: int|
                            0 <= i < list.len() ==> (#[trigger] list[i]).url
                                == args.mounts@[2 * i]@ && list[i].fifo_path == encode_utf8(
                                args.mounts@[2 * i + 1]@,
                            )
                    }
                    &&& forall|i: int|
                        0 <= i < list.len() ==> {
                            &&& (#[trigger] list[i]).method == args.method@
                            &&& list[i].headers.len() == args.headers@.len()
                            &&& forall|j: int|
                                0 <= j < args.headers@.len() ==> header(
                                    (#[trigger] args.headers@[j])@,
                                ) == Some(list[i].headers[j])
                            &&& match args.data {
                                Some(data) => list[i].body == Some(encode_utf8(data@)),
                                None => list[i].body is None,
                            }
                        }
                },
            }
        },
{
    let lines = texts(args.headers@);
    law_headers_line_by_line(lines);
    assert(forall|i: int| 0 <= i < lines.len() ==> #[trigger] lines[i] == args.headers@[i]@);
    assert(forall|i: int|
        0 <= i < lines.len() ==> (#[trigger] args.headers@[i])@ == lines[i]);
    assert(forall|i: int|
        0 <= i < args.mounts@.len() ==> #[trigger] texts(args.mounts@)[i] == args.mounts@[i]@);
    if headers(lines) is Err {
        let n = choose|n: int|
            {
                &&& 0 <= n < lines.len()
                &&& !(#[trigger] lines[n]).contains(':')
                &&& forall|j: int| 0 <= j < n ==> (#[trigger] lines[j]).contains(':')
                &&& headers(lines)->Err_0 == CliErrorView::MalformedHeader(lines[n])
            };
        assert(!args.headers@[n]@.contains(':'));
    }
}

/// The configurations that a command line asks for.
///
/// When `--mount` is what is mounted, each URL has its path.
pub fn plan(args: Arguments) -> (r: Result<Vec<Config>, CliError>)
    requires
        config::is_method(args.method@) && headers(texts(args.headers@)) is Ok && args.url is None
            && args.fifo_path is None ==> args.mounts@.len() % 2 == 0,
    ensures
        match planned(args) {
            Ok(list) => r is Ok && config::configs_view(r->Ok_0@) == list,
            Err(e) => r is Err && r->Err_0@ == e,
        },
        !config::is_method(args.method@) <==> (r matches Err(e) && e is InvalidMethod),
        config::is_method(args.method@) && (exists|i: int|
            0 <= i < args.headers@.len() && !(#[trigger] args.headers@[i])@.contains(':')) <==> (
        r matches Err(e) && e is MalformedHeader),
        r matches Ok(list) ==> if args.url is Some || args.fifo_path is Some {
            &&& args.mounts@.len() == 0
            &&& list@.len() == 1
            &&& args.url matches Some(url) && list@[0].url@ == url@
            &&& args.fifo_path matches Some(path) && list@[0].fifo_path@ == path@
        } else {
            &&& args.mounts@.len() > 0
            &&& 2 * list@.len() == args.mounts@.len()
            &&& forall|i: int|
                0 <= i < list@.len() ==> (#[trigger] list@[i]).url@ == args.mounts@[2 * i]@
                    && list@[i].fifo_path@ == encode_utf8(args.mounts@[2 * i + 1]@)
        },
        r matches Ok(list) ==> forall|i: int|
            0 <= i < list@.len() ==> {
                &&& (#[trigger] list@[i]).method@ == args.method@
                &&& list@[i]@.headers.len() == args.headers@.len()
                &&& match args.data {
                    Some(data) => list@[i].body matches Some(body) && body@ == encode_utf8(data@),
                    None => list@[i].body is None,
                }
            },
{
    let method = match parse_method(args.method.as_str()) {
        Ok(method) => method,
        Err(e) => return Err(e),
    };
    let pairs = match parse_headers(&args.headers) {
        Ok(pairs) => pairs,
        Err(e) => return Err(e),
    };
    let data = match &args.data {
        Some(data) => Some(text::bytes_of(data.as_str())),
        None => None,
    };
    build_configs(args.url, args.fifo_path, args.mounts.as_slice(), method, pairs, data)
}

} // verus!

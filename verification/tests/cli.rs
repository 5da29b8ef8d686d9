use http2fifo::cli::{
    build_configs, make_config, malformed_header_message, parse_header, parse_headers,
    parse_method, plan, Arguments, CliError,
};
use http2fifo::config::{Config, Method};
use http2fifo::exit::USAGE_EXIT_CODE;
use http2fifo::logging::{log_filter, LogFilter, LogLevel};

fn strings(list: &[&str]) -> Vec<String> {
    list.iter().map(|s| s.to_string()).collect()
}

fn pair(name: &str, value: &str) -> (String, String) {
    (name.to_string(), value.to_string())
}

fn get() -> Method {
    Method::parse("GET").unwrap()
}

fn arguments() -> Arguments {
    Arguments {
        url: None,
        fifo_path: None,
        mounts: Vec::new(),
        method: "GET".to_string(),
        headers: Vec::new(),
        data: None,
    }
}

fn assert_config(config: &Config, url: &str, path: &str) {
    assert_eq!(config.url, url);
    assert_eq!(config.fifo_path, path.as_bytes());
}

#[test]
fn rejects_mixed_positional_and_mount_forms() {
    let args = Arguments {
        url: Some("http://example.test".to_string()),
        fifo_path: Some(b"/tmp/a.fifo".to_vec()),
        mounts: strings(&["http://example.test", "/tmp/b.fifo"]),
        ..arguments()
    };
    let error = plan(args).unwrap_err();
    assert_eq!(error, CliError::MixedForms);
    assert!(error
        .message()
        .contains("cannot combine positional <URL>/<FIFO_PATH> with --mount flags"));
    assert_eq!(USAGE_EXIT_CODE, 1);
}

#[test]
fn rejects_malformed_header() {
    let args = Arguments {
        mounts: strings(&["http://example.test", "/tmp/a.fifo"]),
        headers: strings(&["broken"]),
        ..arguments()
    };
    let error = plan(args).unwrap_err();
    assert_eq!(error, CliError::MalformedHeader("broken".to_string()));
    assert!(error.message().contains("header must be NAME:VALUE"));
    assert_eq!(error.message(), "error: header must be NAME:VALUE, got \"broken\"");
    assert_eq!(USAGE_EXIT_CODE, 1);
}

#[test]
fn malformed_header_is_quoted_with_escapes() {
    let error = parse_header("a\t\"b\"").unwrap_err();
    assert_eq!(
        error.message(),
        "error: header must be NAME:VALUE, got \"a\\t\\\"b\\\"\""
    );
    assert_eq!(
        malformed_header_message("'x'"),
        "error: header must be NAME:VALUE, got 'x'"
    );
}

#[test]
fn header_is_split_at_the_first_colon_and_trimmed() {
    assert_eq!(parse_header("Accept:text/html"), Ok(pair("Accept", "text/html")));
    assert_eq!(parse_header("Accept: text/html"), Ok(pair("Accept", "text/html")));
    assert_eq!(parse_header(" X-Url \t: http://a:80 "), Ok(pair("X-Url", "http://a:80")));
    assert_eq!(parse_header("Empty:"), Ok(pair("Empty", "")));
    assert_eq!(parse_header(":v"), Ok(pair("", "v")));
    assert_eq!(parse_header(""), Err(CliError::MalformedHeader(String::new())));
}

#[test]
fn first_malformed_header_is_named() {
    let lines = strings(&["a: b", "bad", "worse"]);
    assert_eq!(
        parse_headers(&lines),
        Err(CliError::MalformedHeader("bad".to_string()))
    );
    let lines = strings(&["a: b", "a: c"]);
    assert_eq!(parse_headers(&lines), Ok(vec![pair("a", "b"), pair("a", "c")]));
}

#[test]
fn methods_are_tokens() {
    for name in ["GET", "POST", "PUT", "PATCH", "get", "M-SEARCH", "!#$%&'*+-.^_`|~09azAZ"] {
        assert_eq!(parse_method(name).unwrap().as_str(), name);
    }
    for name in ["", "GE T", "GET/", "G\u{c9}T", "a:b", "(x)"] {
        let error = parse_method(name).unwrap_err();
        assert_eq!(
            error.message(),
            format!("error: invalid HTTP method '{}': invalid HTTP method", name)
        );
    }
}

#[test]
fn every_method_character_is_known() {
    let marks = "!#$%&'*+-.^_`|~";
    for byte in 0u8..=255 {
        let c = char::from(byte);
        let known = c.is_ascii_alphanumeric() || marks.contains(c);
        assert_eq!(Method::parse(&c.to_string()).is_ok(), known, "at {:?}", c);
    }
}

#[test]
fn method_error_comes_before_header_error_and_mount_error() {
    let args = Arguments {
        method: "bad method".to_string(),
        headers: strings(&["broken"]),
        ..arguments()
    };
    assert!(matches!(plan(args), Err(CliError::InvalidMethod(_, _))));
    let args = Arguments {
        headers: strings(&["broken"]),
        ..arguments()
    };
    assert!(matches!(plan(args), Err(CliError::MalformedHeader(_))));
    let error = plan(arguments()).unwrap_err();
    assert_eq!(
        error.message(),
        "error: provide either <URL> <FIFO_PATH> or at least one --mount <URL> <FIFO_PATH>"
    );
}

#[test]
fn single_mount_form_requires_both_positionals() {
    let args = Arguments {
        url: Some("http://example.test".to_string()),
        ..arguments()
    };
    let error = plan(args).unwrap_err();
    assert_eq!(error, CliError::IncompletePositionals);
    assert_eq!(
        error.message(),
        "error: single-mount form requires both <URL> and <FIFO_PATH>"
    );
    let path = Some(b"/tmp/a.fifo".to_vec());
    let result = build_configs(None, path, &[], get(), Vec::new(), None);
    assert_eq!(result.unwrap_err(), CliError::IncompletePositionals);
}

#[test]
fn shared_options_apply_to_all_mounts() {
    let args = Arguments {
        mounts: strings(&["http://a.test", "/tmp/a.fifo", "http://b.test", "/tmp/b\u{e9}.fifo"]),
        method: "POST".to_string(),
        headers: strings(&["x-one: 1", "x-two:2"]),
        data: Some("payload".to_string()),
        ..arguments()
    };
    let configs = plan(args).unwrap();
    assert_eq!(configs.len(), 2);
    assert_config(&configs[0], "http://a.test", "/tmp/a.fifo");
    assert_config(&configs[1], "http://b.test", "/tmp/b\u{e9}.fifo");
    for config in &configs {
        assert_eq!(config.method.as_str(), "POST");
        assert_eq!(config.headers, vec![pair("x-one", "1"), pair("x-two", "2")]);
        assert_eq!(config.body, Some(b"payload".to_vec()));
    }
}

#[test]
fn positionals_mean_the_same_as_one_mount() {
    let positional = Arguments {
        url: Some("http://a.test".to_string()),
        fifo_path: Some(b"/tmp/a.fifo".to_vec()),
        ..arguments()
    };
    let flag = Arguments {
        mounts: strings(&["http://a.test", "/tmp/a.fifo"]),
        ..arguments()
    };
    for args in [positional, flag] {
        let configs = plan(args).unwrap();
        assert_eq!(configs.len(), 1);
        assert_config(&configs[0], "http://a.test", "/tmp/a.fifo");
        assert_eq!(configs[0].method.as_str(), "GET");
        assert_eq!(configs[0].headers, Vec::new());
        assert_eq!(configs[0].body, None);
    }
}

#[test]
fn config_holds_what_it_was_made_of() {
    let config = make_config(
        "http://a.test".to_string(),
        vec![b'/', 0xff],
        get(),
        vec![pair("a", "b")],
        Some(vec![0, 1]),
    );
    assert_eq!(config.url, "http://a.test");
    assert_eq!(config.fifo_path, vec![b'/', 0xff]);
    assert_eq!(config.headers, vec![pair("a", "b")]);
    assert_eq!(config.body, Some(vec![0, 1]));
}

#[test]
fn log_levels_have_names() {
    let names = [
        (LogLevel::Off, "off"),
        (LogLevel::Error, "error"),
        (LogLevel::Warn, "warn"),
        (LogLevel::Info, "info"),
        (LogLevel::Debug, "debug"),
        (LogLevel::Trace, "trace"),
    ];
    for (level, name) in names {
        assert_eq!(level.as_str(), name);
    }
}

#[test]
fn log_level_overrides_the_environment() {
    assert!(matches!(
        log_filter(Some(LogLevel::Debug), true),
        LogFilter::Level(LogLevel::Debug)
    ));
    assert!(matches!(log_filter(None, true), LogFilter::Environment));
    assert!(matches!(
        log_filter(None, false),
        LogFilter::Level(LogLevel::Off)
    ));
}

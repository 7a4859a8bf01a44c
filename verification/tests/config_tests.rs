use cors_proxy::config::{parse_allowed_domains, parse_port, ProxyConfig, DEFAULT_PORT};
use cors_proxy::method::{map_method, Method};
use cors_proxy::response::{content_type_of, Response};
use cors_proxy::text::{contains_text, same_text};

fn some(s: &str) -> Option<String> {
    Some(s.to_string())
}

#[test]
fn defaults_when_nothing_is_set() {
    let config = ProxyConfig::from_settings(None, None, None, None);
    assert!(!config.logging_enabled);
    assert_eq!(config.listen_port, 8080);
    assert_eq!(config.listen_address, "0.0.0.0");
    assert_eq!(config.allowed_domains, None);
    assert_eq!(DEFAULT_PORT, 8080);
}

#[test]
fn settings_are_taken_over() {
    let config = ProxyConfig::from_settings(
        some("true"),
        some("3000"),
        some("127.0.0.1"),
        some("example.com,api.example.com"),
    );
    assert!(config.logging_enabled);
    assert_eq!(config.listen_port, 3000);
    assert_eq!(config.listen_address, "127.0.0.1");
    assert_eq!(
        config.allowed_domains,
        Some(vec!["example.com".to_string(), "api.example.com".to_string()])
    );
}

#[test]
fn logging_needs_the_exact_word() {
    for raw in ["TRUE", "True", "1", "yes", "", " true", "true ", "false"] {
        let config = ProxyConfig::from_settings(some(raw), None, None, None);
        assert!(!config.logging_enabled, "{:?}", raw);
    }
    assert!(ProxyConfig::from_settings(some("true"), None, None, None).logging_enabled);
}

#[test]
fn port_falls_back_to_default() {
    for raw in ["", "abc", "80a", " 80", "80 ", "-1", "65536", "99999999999999999999", "+", "8 0", "\u{663}"] {
        let config = ProxyConfig::from_settings(None, some(raw), None, None);
        assert_eq!(config.listen_port, 8080, "{:?}", raw);
    }
}

#[test]
fn port_is_read_in_decimal() {
    assert_eq!(parse_port("0"), Some(0));
    assert_eq!(parse_port("80"), Some(80));
    assert_eq!(parse_port("+443"), Some(443));
    assert_eq!(parse_port("0008080"), Some(8080));
    assert_eq!(parse_port("65535"), Some(65535));
    assert_eq!(parse_port("65536"), None);
    assert_eq!(parse_port("655350"), None);
    assert_eq!(parse_port(""), None);
    assert_eq!(parse_port("+"), None);
    assert_eq!(parse_port("++1"), None);
    assert_eq!(parse_port("-0"), None);
    assert_eq!(parse_port("1_000"), None);
}

#[test]
fn port_agrees_with_the_standard_parser() {
    for raw in ["0", "1", "+1", "-1", "007", "65535", "65536", "70000", "", "+", "a", "1a", "\u{661}\u{662}", " 1", "4294967296", "+0", "00000000000000000000000001"] {
        assert_eq!(parse_port(raw), raw.parse::<u16>().ok(), "{:?}", raw);
    }
}

#[test]
fn allowed_domains_are_cut_at_commas() {
    let cases: [(&str, &[&str]); 9] = [
        ("", &[""]),
        ("a", &["a"]),
        ("a,b", &["a", "b"]),
        ("a,,b ", &["a", "", "b "]),
        (",", &["", ""]),
        ("a,", &["a", ""]),
        (",a", &["", "a"]),
        ("example.com, api.example.com", &["example.com", " api.example.com"]),
        ("\u{e9},\u{fc},\u{6771}\u{4eac}", &["\u{e9}", "\u{fc}", "\u{6771}\u{4eac}"]),
    ];
    for (raw, expected) in cases {
        let expected: Vec<String> = expected.iter().map(|s| s.to_string()).collect();
        assert_eq!(parse_allowed_domains(raw), expected, "{:?}", raw);
        let by_std: Vec<String> = raw.split(",").map(|s| s.to_string()).collect();
        assert_eq!(parse_allowed_domains(raw), by_std);
    }
}

#[test]
fn pieces_are_one_more_than_commas() {
    for raw in ["", ",", ",,", "a,b,c", "no comma", ",x,"] {
        let pieces = parse_allowed_domains(raw);
        assert_eq!(pieces.len(), raw.matches(',').count() + 1);
        assert!(pieces.iter().all(|piece| !piece.contains(',')));
        assert_eq!(pieces.join(","), raw);
    }
}

#[test]
fn present_but_empty_allow_list_is_not_absent() {
    let config = ProxyConfig::from_settings(None, None, None, some(""));
    assert_eq!(config.allowed_domains, Some(vec![String::new()]));
}

#[test]
fn text_helpers_compare_exactly() {
    assert!(same_text("abc", "abc"));
    assert!(!same_text("abc", "abC"));
    assert!(!same_text("abc", "abcd"));
    assert!(same_text("", ""));
    let items = vec!["a".to_string(), "b".to_string()];
    assert!(contains_text(&items, "b"));
    assert!(!contains_text(&items, "B"));
    assert!(!contains_text(&items, ""));
    assert!(!contains_text(&Vec::new(), "a"));
}

#[test]
fn method_names_are_matched_exactly() {
    assert_eq!(map_method("GET"), Some(Method::Get));
    assert_eq!(map_method("POST"), Some(Method::Post));
    assert_eq!(map_method("PUT"), Some(Method::Put));
    assert_eq!(map_method("DELETE"), Some(Method::Delete));
    for name in ["HEAD", "PATCH", "OPTIONS", "TRACE", "CONNECT", "get", "Get", " GET", "GET ", ""] {
        assert_eq!(map_method(name), None, "{:?}", name);
    }
    for method in [Method::Get, Method::Post, Method::Put, Method::Delete] {
        assert_eq!(map_method(method.as_str()), Some(method));
    }
}

#[test]
fn content_type_choice() {
    assert_eq!(content_type_of(&None), "application/json");
    assert_eq!(content_type_of(&Some(b"image/png".to_vec())), "image/png");
    assert_eq!(content_type_of(&Some(vec![0x00])), "application/json");
    assert_eq!(content_type_of(&Some(vec![b'a', b'\n'])), "application/json");
    assert_eq!(content_type_of(&Some(Vec::new())), "");
}

#[test]
fn response_builders() {
    let empty = Response::empty(418);
    assert_eq!(empty.status, 418);
    assert!(empty.headers.is_empty());
    assert!(empty.body.is_empty());
    assert_eq!(empty.header("Content-Type"), None);

    let relayed = Response::relay("text/css".to_string(), vec![1, 2]);
    assert_eq!(relayed.status, 200);
    assert_eq!(relayed.headers.len(), 5);
    assert_eq!(relayed.header("Content-Type").as_deref(), Some("text/css"));
    assert_eq!(relayed.header("Access-Control-Max-Age").as_deref(), Some("3600"));
    assert_eq!(relayed.header("Access-Control-Allow-Headers").as_deref(), Some("Content-Type"));
    assert_eq!(
        relayed.header("Access-Control-Allow-Methods").as_deref(),
        Some("GET, POST, PUT, DELETE, OPTIONS")
    );
    assert_eq!(relayed.header("content-type"), None);
    assert_eq!(relayed.body, vec![1, 2]);
}

use httpie::{
    body_members, build_get, build_post, decimal_text, header_line, json_body,
    matches_ignore_ascii_case, parse_kv_pair, parse_url, select_body, HttpieError, KvPair,
    Request, ResponseView,
};

fn pair(k: &str, v: &str) -> KvPair {
    KvPair { key: k.to_string(), value: v.to_string() }
}

fn response(headers: &[(&str, &str)], body: &str) -> ResponseView {
    ResponseView {
        version: "HTTP/1.1".to_string(),
        status: 200,
        headers: headers.iter().map(|(n, v)| (n.to_string(), v.to_string())).collect(),
        body: body.to_string(),
    }
}

#[test]
fn single_separator_splits_key_and_value() {
    let p = parse_kv_pair("name=rust").unwrap();
    assert_eq!(p.key, "name");
    assert_eq!(p.value, "rust");
}

#[test]
fn empty_sides_are_kept() {
    let p = parse_kv_pair("=").unwrap();
    assert_eq!(p.key, "");
    assert_eq!(p.value, "");
    let q = parse_kv_pair("k=").unwrap();
    assert_eq!(q.key, "k");
    assert_eq!(q.value, "");
}

#[test]
fn token_without_separator_is_malformed() {
    let e = parse_kv_pair("norust").unwrap_err();
    assert_eq!(e, HttpieError::MalformedPair("norust".to_string()));
    assert_eq!(e.message(), "Failed to parse: norust");
    assert!(parse_kv_pair("").is_err());
}

#[test]
fn text_after_second_separator_is_dropped() {
    let p = parse_kv_pair("a=b=c").unwrap();
    assert_eq!(p.key, "a");
    assert_eq!(p.value, "b");
    let q = parse_kv_pair("x==y").unwrap();
    assert_eq!(q.key, "x");
    assert_eq!(q.value, "");
}

#[test]
fn non_ascii_tokens_split_on_characters() {
    let p = parse_kv_pair("ключ=значение").unwrap();
    assert_eq!(p.key, "ключ");
    assert_eq!(p.value, "значение");
}

#[test]
fn from_str_agrees_with_parser() {
    let p: KvPair = "name=rust".parse().unwrap();
    assert_eq!(p.key, "name");
    assert_eq!(p.value, "rust");
    assert!("plain".parse::<KvPair>().is_err());
}

#[test]
fn url_without_scheme_is_invalid() {
    let e = parse_url("example.com").unwrap_err();
    assert_eq!(e, HttpieError::InvalidUrl("example.com".to_string()));
    assert_eq!(e.message(), "Invalid URL: example.com");
    assert!(parse_url("").is_err());
    assert!(parse_url("/relative/path").is_err());
}

#[test]
fn absolute_url_is_kept_unchanged() {
    assert_eq!(parse_url("https://example.com").unwrap(), "https://example.com");
    assert_eq!(
        parse_url("http://localhost:8080/a b?x=1").unwrap(),
        "http://localhost:8080/a b?x=1"
    );
}

#[test]
fn malformed_authority_is_invalid() {
    assert!(parse_url("http://exa mple.com/").is_err());
}

#[test]
fn get_request_keeps_url() {
    match build_get("https://example.test/ok").unwrap() {
        Request::Get { url } => assert_eq!(url, "https://example.test/ok"),
        other => panic!("unexpected {:?}", other),
    }
    assert!(build_get("example.test").is_err());
}

#[test]
fn post_request_collects_pairs_in_order() {
    let tokens = vec!["a=1".to_string(), "b=2".to_string()];
    let r = build_post("http://h.test/p", &tokens).unwrap();
    assert_eq!(r.url(), "http://h.test/p");
    match r {
        Request::Post { url, body } => {
            assert_eq!(url, "http://h.test/p");
            assert_eq!(body.len(), 2);
            assert_eq!((body[0].key.as_str(), body[0].value.as_str()), ("a", "1"));
            assert_eq!((body[1].key.as_str(), body[1].value.as_str()), ("b", "2"));
        }
        other => panic!("unexpected {:?}", other),
    }
}

#[test]
fn post_request_reports_first_failure() {
    let tokens = vec!["a=1".to_string(), "bad".to_string(), "worse".to_string()];
    assert_eq!(
        build_post("http://h.test/", &tokens).unwrap_err(),
        HttpieError::MalformedPair("bad".to_string())
    );
    assert_eq!(
        build_post("h.test", &tokens).unwrap_err(),
        HttpieError::InvalidUrl("h.test".to_string())
    );
}

#[test]
fn duplicate_keys_last_write_wins() {
    let pairs = vec![pair("a", "1"), pair("a", "2")];
    let members = body_members(&pairs);
    assert_eq!(members.len(), 1);
    assert_eq!(members[0].value, "2");
    assert_eq!(json_body(&pairs), "{\"a\":\"2\"}");
}

#[test]
fn json_body_holds_every_key() {
    let pairs = vec![pair("b", "x"), pair("a", "1"), pair("b", "y")];
    assert_eq!(json_body(&pairs), "{\"a\":\"1\",\"b\":\"y\"}");
    assert_eq!(json_body(&vec![]), "{}");
    assert_eq!(json_body(&vec![pair("q", "say \"hi\"")]), "{\"q\":\"say \\\"hi\\\"\"}");
}

#[test]
fn payload_only_for_post() {
    let g = Request::Get { url: "http://h.test/".to_string() };
    assert_eq!(g.payload(), None);
    let p = Request::Post { url: "http://h.test/".to_string(), body: vec![pair("k", "v")] };
    assert_eq!(p.payload(), Some("{\"k\":\"v\"}".to_string()));
}

#[test]
fn json_body_is_pretty_printed() {
    let v = response(&[("Content-Type", "application/json")], "{\"x\":1}");
    assert!(v.is_json());
    assert_eq!(v.render_body().unwrap(), "{\n  \"x\": 1\n}");
}

#[test]
fn declared_json_that_is_not_json_fails() {
    let v = response(&[("content-type", "application/json")], "not-json");
    assert_eq!(v.render_body().unwrap_err(), HttpieError::BodyFormat);
    assert_eq!(HttpieError::BodyFormat.message(), "response body is not valid JSON");
}

#[test]
fn body_without_content_type_is_verbatim() {
    let v = response(&[("server", "mock")], "  {not: json}\n");
    assert_eq!(v.content_type(), None);
    assert_eq!(v.render_body().unwrap(), "  {not: json}\n");
}

#[test]
fn other_content_type_is_verbatim() {
    let v = response(&[("content-type", "text/html")], "{\"x\":1}");
    assert!(!v.is_json());
    assert_eq!(v.render_body().unwrap(), "{\"x\":1}");
}

#[test]
fn content_type_found_in_any_case() {
    let v = response(&[("x-a", "1"), ("CONTENT-TYPE", "text/plain"), ("content-type", "b")], "");
    assert_eq!(v.content_type(), Some("text/plain".to_string()));
}

#[test]
fn select_body_covers_each_outcome() {
    assert_eq!(select_body(false, false, None, "raw").unwrap(), "raw");
    assert_eq!(select_body(true, false, Some("p".to_string()), "raw"), Err(HttpieError::BodyFormat));
    assert_eq!(select_body(true, true, Some("p".to_string()), "raw").unwrap(), "p");
    assert_eq!(select_body(true, true, None, "raw"), Err(HttpieError::BodyFormat));
}

#[test]
fn status_and_header_lines() {
    let mut v = response(&[], "");
    assert_eq!(v.status_line(), "HTTP/1.1 200");
    v.status = 404;
    v.version = "HTTP/2.0".to_string();
    assert_eq!(v.status_line(), "HTTP/2.0 404");
    assert_eq!(header_line("server", "mock"), "server: mock");
}

#[test]
fn decimal_text_edges() {
    assert_eq!(decimal_text(0), "0");
    assert_eq!(decimal_text(7), "7");
    assert_eq!(decimal_text(10), "10");
    assert_eq!(decimal_text(65535), "65535");
}

#[test]
fn ascii_case_comparison() {
    assert!(matches_ignore_ascii_case("Content-Type", "content-type"));
    assert!(!matches_ignore_ascii_case("content-typ", "content-type"));
    assert!(!matches_ignore_ascii_case("content_type", "content-type"));
}

#[test]
fn get_end_to_end_against_mock_response() {
    let req = build_get("https://example.test/ok").unwrap();
    assert_eq!(req.url(), "https://example.test/ok");
    assert_eq!(req.payload(), None);
    let v = response(&[("content-type", "text/plain")], "hello");
    let mut out = String::new();
    out.push_str(&v.status_line());
    out.push_str("\n\n");
    for (n, val) in &v.headers {
        out.push_str(&header_line(n, val));
        out.push('\n');
    }
    out.push('\n');
    out.push_str(&v.render_body().unwrap());
    out.push('\n');
    assert!(out.lines().next().unwrap().contains("200"));
    assert!(out.lines().any(|l| l == "hello"));
}

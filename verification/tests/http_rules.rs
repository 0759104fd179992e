use platform::headers::{
    is_insertable_name, is_sendable_value, names_match, select_headers, RocHeader,
};
use platform::http::{
    plan_response, response_status, roc_fx_method, HeaderNameRefused, RocMethod, RocResponse,
};

fn header(k: &str, v: &str) -> RocHeader {
    RocHeader { k: k.to_string(), v: v.to_string() }
}

#[test]
fn methods_by_name() {
    assert_eq!(roc_fx_method("CONNECT"), RocMethod::Connect);
    assert_eq!(roc_fx_method("DELETE"), RocMethod::Delete);
    assert_eq!(roc_fx_method("GET"), RocMethod::Get);
    assert_eq!(roc_fx_method("HEAD"), RocMethod::Head);
    assert_eq!(roc_fx_method("OPTIONS"), RocMethod::Options);
    assert_eq!(roc_fx_method("PATCH"), RocMethod::Patch);
    assert_eq!(roc_fx_method("POST"), RocMethod::Post);
    assert_eq!(roc_fx_method("PUT"), RocMethod::Put);
    assert_eq!(roc_fx_method("TRACE"), RocMethod::Trace);
    assert_eq!(roc_fx_method("get"), RocMethod::Other);
    assert_eq!(roc_fx_method("PROPFIND"), RocMethod::Other);
    assert_eq!(roc_fx_method(""), RocMethod::Other);
}

#[test]
fn methods_agree_with_hyper() {
    let cases = [
        (hyper::Method::CONNECT, RocMethod::Connect),
        (hyper::Method::DELETE, RocMethod::Delete),
        (hyper::Method::GET, RocMethod::Get),
        (hyper::Method::HEAD, RocMethod::Head),
        (hyper::Method::OPTIONS, RocMethod::Options),
        (hyper::Method::PATCH, RocMethod::Patch),
        (hyper::Method::POST, RocMethod::Post),
        (hyper::Method::PUT, RocMethod::Put),
        (hyper::Method::TRACE, RocMethod::Trace),
    ];
    for (m, expected) in cases {
        assert_eq!(roc_fx_method(m.as_str()), expected);
    }
    let custom = hyper::Method::from_bytes(b"PURGE").unwrap();
    assert_eq!(roc_fx_method(custom.as_str()), RocMethod::Other);
}

#[test]
fn status_codes_outside_http_range_become_500() {
    assert_eq!(response_status(200), 200);
    assert_eq!(response_status(100), 100);
    assert_eq!(response_status(999), 999);
    assert_eq!(response_status(404), 404);
    assert_eq!(response_status(99), 500);
    assert_eq!(response_status(0), 500);
    assert_eq!(response_status(1000), 500);
    assert_eq!(response_status(u16::MAX), 500);
}

#[test]
fn header_values_checked_byte_by_byte() {
    assert!(is_sendable_value("text/html"));
    assert!(is_sendable_value(""));
    assert!(is_sendable_value("a\tb"));
    assert!(is_sendable_value("caf\u{e9}"));
    assert!(!is_sendable_value("a\nb"));
    assert!(!is_sendable_value("a\rb"));
    assert!(!is_sendable_value("\u{7f}"));
    assert!(!is_sendable_value("\u{0}"));
}

#[test]
fn headers_split_in_order() {
    let hs = vec![
        header("content-type", "text/plain"),
        header("x-bad", "line\nbreak"),
        header("x-one", "1"),
        header("x-bad2", "\u{1}"),
    ];
    let (kept, rejected) = select_headers(&hs).unwrap();
    let kept: Vec<&str> = kept.iter().map(|h| h.k.as_str()).collect();
    let rejected: Vec<&str> = rejected.iter().map(|h| h.k.as_str()).collect();
    assert_eq!(kept, vec!["content-type", "x-one"]);
    assert_eq!(rejected, vec!["x-bad", "x-bad2"]);
}

#[test]
fn response_plan() {
    let resp = RocResponse {
        body: "hello".to_string(),
        headers: vec![header("a", "1"), header("b", "\n"), header("a", "2")],
        status: 1234,
    };
    let plan = plan_response(&resp).unwrap();
    assert_eq!(plan.status, 500);
    assert_eq!(plan.body, "hello");
    let sent: Vec<(&str, &str)> =
        plan.headers.iter().map(|h| (h.k.as_str(), h.v.as_str())).collect();
    assert_eq!(sent, vec![("a", "2")]);
    assert_eq!(plan.rejected.len(), 1);
    assert_eq!(plan.rejected[0].k, "b");
}

#[test]
fn last_sendable_header_of_a_name_wins_regardless_of_case() {
    let resp = RocResponse {
        body: String::new(),
        headers: vec![
            header("Content-Type", "text/plain"),
            header("x-id", "1"),
            header("content-type", "text/html"),
            header("CONTENT-TYPE", "bad\nvalue"),
            header("X-Id", "2"),
            header("x-other", "3"),
        ],
        status: 200,
    };
    let plan = plan_response(&resp).unwrap();
    assert_eq!(plan.status, 200);
    let sent: Vec<(&str, &str)> =
        plan.headers.iter().map(|h| (h.k.as_str(), h.v.as_str())).collect();
    assert_eq!(
        sent,
        vec![("Content-Type", "text/html"), ("x-id", "2"), ("x-other", "3")]
    );
    assert_eq!(plan.rejected.len(), 1);
}

#[test]
fn sent_headers_match_hyper_header_map() {
    let long = "L".repeat(80);
    let hs = vec![
        header("Set-Thing", "a"),
        header("x", "1"),
        header("set-thing", "b"),
        header("y", "\u{7f}"),
        header(&long, "c"),
        header(&long.to_lowercase(), "d"),
    ];
    let (sent, _) = select_headers(&hs).unwrap();
    let mut map = hyper::HeaderMap::new();
    for h in hs.iter() {
        if let Ok(v) = hyper::header::HeaderValue::from_str(&h.v) {
            let name: &'static str = Box::leak(h.k.clone().into_boxed_str());
            map.insert(name, v);
        }
    }
    assert_eq!(map.len(), sent.len());
    for h in sent.iter() {
        let all: Vec<&hyper::header::HeaderValue> = map.get_all(h.k.as_str()).iter().collect();
        assert_eq!(all.len(), 1);
        assert_eq!(all[0].to_str().unwrap(), h.v);
    }
}

#[test]
fn refused_header_name_ends_the_response() {
    let resp = RocResponse {
        body: String::new(),
        headers: vec![
            header("ok", "1"),
            header("bad name", "\n"),
            header("bad name", "2"),
            header("also bad", "3"),
        ],
        status: 200,
    };
    assert_eq!(plan_response(&resp).unwrap_err(), HeaderNameRefused { index: 2 });
}

#[test]
fn header_names_checked_like_a_static_str_insert() {
    assert!(is_insertable_name("content-type"));
    assert!(is_insertable_name("X-Custom_Header.1"));
    assert!(is_insertable_name("\"quoted"));
    assert!(!is_insertable_name(""));
    assert!(!is_insertable_name("a b"));
    assert!(!is_insertable_name("a:b"));
    assert!(!is_insertable_name("caf\u{e9}"));
    assert!(!is_insertable_name(&format!("{} ", "a".repeat(63))));
    assert!(is_insertable_name(&format!("{} ", "a".repeat(64))));
    assert!(is_insertable_name(&"a".repeat(65535)));
    assert!(!is_insertable_name(&"a".repeat(65536)));
}

#[test]
fn long_header_names_are_sent_as_they_are() {
    let long_bad = format!("{} :", "x".repeat(70));
    let long_bad_other = format!("{}\t;", "X".repeat(70));
    let resp = RocResponse {
        body: String::new(),
        headers: vec![header(&long_bad, "1"), header(&long_bad_other, "2")],
        status: 200,
    };
    let plan = plan_response(&resp).unwrap();
    assert_eq!(plan.headers.len(), 1);
    assert_eq!(plan.headers[0].k, long_bad);
    assert_eq!(plan.headers[0].v, "2");
}

#[test]
fn header_names_compared_regardless_of_ascii_case() {
    assert!(names_match("Content-Type", "content-type"));
    assert!(names_match("X-ID", "x-id"));
    assert!(!names_match("x-id", "x-idd"));
    assert!(!names_match("a", "b"));
    assert!(names_match("", ""));
}

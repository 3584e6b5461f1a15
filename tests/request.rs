use reqwest_builder::{Client, Request, RequestError};

fn context() -> Client {
    Client::new("https://api.example.com").expect("the transport builds")
}

#[test]
fn home_is_kept() {
    let c = context();
    assert_eq!(c.home(), "https://api.example.com");
}

#[test]
fn url_joins_home_and_path() {
    let c = context();
    let req = c.get("widgets/7").build().unwrap().build().unwrap();
    assert_eq!(req.method(), &reqwest::Method::GET);
    assert_eq!(req.url().as_str(), "https://api.example.com/widgets/7");
}

#[test]
fn each_method_is_kept() {
    let c = context();
    let cases = [
        (c.get("a"), reqwest::Method::GET),
        (c.post("a"), reqwest::Method::POST),
        (c.put("a"), reqwest::Method::PUT),
        (c.patch("a"), reqwest::Method::PATCH),
        (c.delete("a"), reqwest::Method::DELETE),
    ];
    for (r, m) in cases {
        let req = r.build().unwrap().build().unwrap();
        assert_eq!(req.method(), &m);
    }
    let direct = Request::post(&c, "b").build().unwrap().build().unwrap();
    assert_eq!(direct.method(), &reqwest::Method::POST);
    assert_eq!(direct.url().as_str(), "https://api.example.com/b");
}

#[test]
fn plain_request_has_no_headers_and_no_body() {
    let c = context();
    let req = c.get("widgets").build().unwrap().build().unwrap();
    assert!(req.headers().is_empty());
    assert!(req.body().is_none());
}

#[test]
fn queries_keep_order_and_repeats() {
    let c = context();
    let req = c
        .get("search")
        .query("b", "2")
        .query("a", "1")
        .queries(&[("b", "3"), ("c", "x y")])
        .build()
        .unwrap()
        .build()
        .unwrap();
    assert_eq!(req.url().query(), Some("b=2&a=1&b=3&c=x+y"));
}

#[test]
fn headers_keep_order_and_repeats() {
    let c = context();
    let req = c
        .get("x")
        .header("X-Tag", "one")
        .header("Accept", "text/plain")
        .headers(&[("x-tag", "two"), ("X-Other", "3")])
        .build()
        .unwrap()
        .build()
        .unwrap();
    let tags: Vec<&str> = req
        .headers()
        .get_all("x-tag")
        .iter()
        .map(|v| v.to_str().unwrap())
        .collect();
    assert_eq!(tags, vec!["one", "two"]);
    assert_eq!(req.headers().get("accept").unwrap(), "text/plain");
    assert_eq!(req.headers().get("x-other").unwrap(), "3");
    assert_eq!(req.headers().len(), 4);
}

#[test]
fn last_body_wins() {
    let c = context();
    let req = c
        .post("items")
        .body(String::from("first"))
        .body(String::from("second"))
        .build()
        .unwrap()
        .build()
        .unwrap();
    let bytes = req.body().unwrap().as_bytes().unwrap();
    assert_eq!(bytes, b"second");
}

#[test]
fn expected_statuscode_is_recorded() {
    let c = context();
    let r = c.get("x");
    assert_eq!(r.expected_statuscode(), None);
    let r = r.validate_statuscode(201).validate_statuscode(200);
    assert_eq!(r.expected_statuscode(), Some(200));
}

#[test]
fn illegal_header_name_fails_build() {
    let c = context();
    let r = c.get("x").header("Good", "1").header("bad name", "2").build();
    assert!(matches!(r, Err(RequestError::InvalidHeaderName(_))));
}

#[test]
fn empty_header_name_fails_build() {
    let c = context();
    let r = c.get("x").header("", "1").build();
    assert!(matches!(r, Err(RequestError::InvalidHeaderName(_))));
}

#[test]
fn illegal_header_value_fails_build() {
    let c = context();
    let r = c.get("x").header("X-Line", "a\nb").build();
    assert!(matches!(r, Err(RequestError::InvalidHeaderValue(_))));
}

#[test]
fn first_header_fault_is_reported() {
    let c = context();
    let r = c.get("x").header("X-A", "bad\u{7f}").header("bad name", "ok").build();
    assert!(matches!(r, Err(RequestError::InvalidHeaderValue(_))));
}

#[test]
fn tab_and_non_ascii_values_are_legal() {
    let c = context();
    let r = c.get("x").header("X-A", "a\tb").header("X-B", "caf\u{e9}").build();
    assert!(r.is_ok());
}

#[test]
fn non_ascii_header_name_fails_build() {
    let c = context();
    let r = c.get("x").header("caf\u{e9}", "1").build();
    assert!(matches!(r, Err(RequestError::InvalidHeaderName(_))));
}

#[test]
fn default_headers_are_checked() {
    let bad_name = Client::with_default_headers("https://h", &[("ok", "1"), ("no good", "2")]);
    assert!(matches!(bad_name, Err(RequestError::InvalidHeaderName(_))));
    let bad_value = Client::with_default_headers("https://h", &[("x-a", "\u{0}")]);
    assert!(matches!(bad_value, Err(RequestError::InvalidHeaderValue(_))));
    let good = Client::with_default_headers("https://h", &[("User-Agent", "tester")]).unwrap();
    assert_eq!(good.home(), "https://h");
}

#[test]
fn request_headers_are_only_its_own() {
    // Default headers live in the transport, not in the request being built.
    let c = Client::with_default_headers("https://h", &[("x-default", "1")]).unwrap();
    let req = c.get("p").build().unwrap().build().unwrap();
    assert!(req.headers().get("x-default").is_none());
}

#[test]
fn manipulate_keeps_home() {
    let mut c = context();
    c.manipulate(|t| t.clone());
    assert_eq!(c.home(), "https://api.example.com");
    let req = c.get("a").build().unwrap().build().unwrap();
    assert_eq!(req.url().as_str(), "https://api.example.com/a");
}

#[test]
fn try_manipulate_passes_error_on() {
    let mut c = context();
    let r: Result<(), &str> = c.try_manipulate(|_| Err("refused"));
    assert_eq!(r, Err("refused"));
    assert_eq!(c.home(), "https://api.example.com");
    let ok: Result<(), &str> = c.try_manipulate(|t| Ok(t.clone()));
    assert_eq!(ok, Ok(()));
}

#[test]
fn sibling_contexts_have_distinct_jars() {
    let a = context();
    let b = context();
    assert!(!std::sync::Arc::ptr_eq(a.cookies(), b.cookies()));
    let a2 = a.clone();
    assert!(std::sync::Arc::ptr_eq(a.cookies(), a2.cookies()));
    assert_eq!(a.cookies().lock().unwrap().iter_any().count(), 0);
}

#[test]
fn header_count_counts_repeats() {
    let c = context();
    let r = c.get("x").header("a", "1").header("a", "2").headers(&[("b", "3")]);
    assert_eq!(r.header_count(), 3);
}

#[test]
fn address_query_comes_before_added_pairs() {
    let c = context();
    let req = c.get("p?x=1").query("a", "2").build().unwrap().build().unwrap();
    assert_eq!(req.url().path(), "/p");
    assert_eq!(req.url().query(), Some("x=1&a=2"));
}

#[test]
fn header_names_are_case_folded() {
    let c = context();
    let req = c.get("x").header("X-Mixed-Case", "v").build().unwrap().build().unwrap();
    let names: Vec<&str> = req.headers().keys().map(|k| k.as_str()).collect();
    assert_eq!(names, vec!["x-mixed-case"]);
}

#[test]
fn refused_address_fails_at_send_not_build() {
    let c = Client::new("no-scheme").unwrap();
    let built = c.get("x").build();
    assert!(built.is_ok());
    assert!(built.unwrap().build().is_err());
}

#[test]
fn user_info_in_address_becomes_authorization() {
    let c = Client::new("https://user:pw@api.example.com").unwrap();
    let req = c.get("x").header("x-a", "1").build().unwrap().build().unwrap();
    assert_eq!(req.url().as_str(), "https://api.example.com/x");
    let auth = req.headers().get("authorization").unwrap();
    assert_eq!(auth.as_bytes(), b"Basic dXNlcjpwdw==");
    assert_eq!(req.headers().get("x-a").unwrap(), "1");
    assert_eq!(req.headers().len(), 2);
}

use web_tester::params::ParameterSet;
use web_tester::request::{
    build, form_request, join_fields, json_request, query_request, text_post_request, Method,
    PostEncoding, RequestConfig, WireRequest,
};

fn s(text: &str) -> String {
    text.to_string()
}

fn params(fields: &[(&str, &str)]) -> ParameterSet {
    let mut set = ParameterSet::new();
    for (field, value) in fields {
        set.add(s(field), s(value));
    }
    set
}

fn config(
    url: &str,
    method: Method,
    post_encoding: PostEncoding,
    use_query_params: bool,
    fields: &[(&str, &str)],
) -> RequestConfig {
    RequestConfig { url: s(url), method, post_encoding, use_query_params, params: params(fields) }
}

fn built(config: &RequestConfig) -> WireRequest {
    match build(config) {
        Ok(request) => request,
        Err(e) => panic!("the request was not built: {:?}", e),
    }
}

fn header(name: &str, value: &str) -> (String, String) {
    (s(name), s(value))
}

#[test]
fn default_config_is_a_plain_get() {
    let c = RequestConfig::default();
    assert_eq!(c.url, "http://127.0.0.1:8080/get");
    assert_eq!(c.method, Method::Get);
    assert_eq!(c.post_encoding, PostEncoding::Json);
    assert!(!c.use_query_params);
    assert!(c.params.is_empty());
}

#[test]
fn get_without_query_params_keeps_the_url() {
    let c = config("http://x/get", Method::Get, PostEncoding::Json, false, &[("a", "1"), ("b", "2")]);
    let r = built(&c);
    assert_eq!(r.method, "GET");
    assert_eq!(r.url, "http://x/get");
    assert!(r.body.is_empty());
    assert_eq!(r.headers, vec![header("Accept", "*/*")]);
}

#[test]
fn get_with_an_empty_parameter_set_leaves_no_question_mark() {
    let c = config("http://x/get", Method::Get, PostEncoding::Json, true, &[]);
    let r = built(&c);
    assert_eq!(r.url, "http://x/get");
    assert!(r.body.is_empty());
}

#[test]
fn get_with_params_writes_the_query_string() {
    let c = config("http://x/get", Method::Get, PostEncoding::Form, true, &[("a", "1"), ("b", "2")]);
    let r = built(&c);
    assert_eq!(r.method, "GET");
    assert_eq!(r.url, "http://x/get?a=1&b=2");
    assert!(r.body.is_empty());
    assert_eq!(r.headers, vec![header("Accept", "*/*")]);
}

#[test]
fn get_with_one_param_has_no_separator() {
    let c = config("http://x/get", Method::Get, PostEncoding::Form, true, &[("only", "one")]);
    assert_eq!(built(&c).url, "http://x/get?only=one");
}

#[test]
fn query_string_follows_insertion_order() {
    let c = config(
        "http://x/get",
        Method::Get,
        PostEncoding::Form,
        true,
        &[("z", "26"), ("a", "1"), ("m", "13"), ("a", "2")],
    );
    assert_eq!(built(&c).url, "http://x/get?z=26&a=2&m=13");
}

#[test]
fn values_are_not_percent_encoded() {
    let c = config(
        "http://x/get",
        Method::Get,
        PostEncoding::Form,
        true,
        &[("a b", "x&y=z"), ("q", "caf\u{e9} ?")],
    );
    assert_eq!(built(&c).url, "http://x/get?a b=x&y=z&q=caf\u{e9} ?");
}

#[test]
fn post_form_writes_the_body_and_the_header() {
    let c = config("http://x/post", Method::Post, PostEncoding::Form, false, &[("a", "1"), ("b", "2")]);
    let r = built(&c);
    assert_eq!(r.method, "POST");
    assert_eq!(r.url, "http://x/post");
    assert_eq!(r.body, b"a=1&b=2".to_vec());
    assert_eq!(
        r.headers,
        vec![
            header("Accept", "*/*"),
            header("Content-Type", "text/plain; charset=utf-8"),
            header("Content-Type", "application/x-www-form-urlencoded"),
        ]
    );
    assert_eq!(r.headers.last(), Some(&header("Content-Type", "application/x-www-form-urlencoded")));
}

#[test]
fn post_form_with_no_params_has_an_empty_body() {
    let c = config("http://x/post", Method::Post, PostEncoding::Form, true, &[]);
    let r = built(&c);
    assert_eq!(r.url, "http://x/post");
    assert!(r.body.is_empty());
}

#[test]
fn post_form_body_is_utf8() {
    let c = config("http://x/post", Method::Post, PostEncoding::Form, false, &[("k", "\u{e9}")]);
    assert_eq!(built(&c).body, vec![b'k', b'=', 0xc3, 0xa9]);
}

#[test]
fn post_ignores_the_query_switch() {
    let c = config("http://x/post", Method::Post, PostEncoding::Form, true, &[("a", "1")]);
    assert_eq!(built(&c).url, "http://x/post");
}

#[test]
fn post_json_writes_an_object_and_the_header() {
    let c = config("http://x/post", Method::Post, PostEncoding::Json, false, &[("a", "1"), ("b", "2")]);
    let r = built(&c);
    assert_eq!(r.method, "POST");
    assert_eq!(r.url, "http://x/post");
    let value: serde_json::Value = serde_json::from_slice(&r.body).expect("the body is JSON");
    let object = value.as_object().expect("the body is an object");
    assert_eq!(object.len(), 2);
    assert_eq!(object.get("a").and_then(|v| v.as_str()), Some("1"));
    assert_eq!(object.get("b").and_then(|v| v.as_str()), Some("2"));
    assert_eq!(
        r.headers,
        vec![
            header("Accept", "*/*"),
            header("Content-Type", "text/plain; charset=utf-8"),
            header("Content-Type", "application/json"),
        ]
    );
}

#[test]
fn post_json_with_no_params_is_the_empty_object() {
    let c = config("http://x/post", Method::Post, PostEncoding::Json, false, &[]);
    assert_eq!(built(&c).body, b"{}".to_vec());
}

#[test]
fn post_json_escapes_what_json_asks_for() {
    let c = config(
        "http://x/post",
        Method::Post,
        PostEncoding::Json,
        false,
        &[("quote\"d", "line\nbreak"), ("caf\u{e9}", "\\")],
    );
    let r = built(&c);
    let value: serde_json::Value = serde_json::from_slice(&r.body).expect("the body is JSON");
    let object = value.as_object().expect("the body is an object");
    assert_eq!(object.len(), 2);
    assert_eq!(object.get("quote\"d").and_then(|v| v.as_str()), Some("line\nbreak"));
    assert_eq!(object.get("caf\u{e9}").and_then(|v| v.as_str()), Some("\\"));
}

#[test]
fn post_json_text_depends_on_the_parameters_alone() {
    let c = config("http://x/post", Method::Post, PostEncoding::Json, false, &[("b", "2"), ("a", "1")]);
    let first = built(&c).body;
    let second = built(&c).body;
    assert_eq!(first, second);
    assert_eq!(first, b"{\"a\":\"1\",\"b\":\"2\"}".to_vec());
}

#[test]
fn join_fields_puts_separators_between_fields_only() {
    assert_eq!(join_fields(&params(&[])), "");
    assert_eq!(join_fields(&params(&[("a", "1")])), "a=1");
    assert_eq!(join_fields(&params(&[("a", "1"), ("b", "2"), ("c", "3")])), "a=1&b=2&c=3");
    assert_eq!(join_fields(&params(&[("", "")])), "=");
    assert_eq!(join_fields(&params(&[("", ""), ("x", "")])), "=&x=");
}

#[test]
fn query_request_appends_to_the_url_as_it_is() {
    let r = query_request(&s("http://x/get?fixed=1"), &params(&[("a", "1")]));
    assert_eq!(r.url, "http://x/get?fixed=1?a=1");
    let r = query_request(&s(""), &params(&[]));
    assert_eq!(r.url, "");
    assert_eq!(r.method, "GET");
}

#[test]
fn form_request_declares_the_form_encoding() {
    let r = form_request(&s("http://x/post"), &params(&[("a", "1"), ("b", "2")]));
    assert_eq!(r.body, b"a=1&b=2".to_vec());
    assert_eq!(r.headers.last(), Some(&header("Content-Type", "application/x-www-form-urlencoded")));
}

#[test]
fn json_request_sends_the_text_it_is_given() {
    let r = json_request(&s("http://x/post"), &s("{\"a\":\"1\"}"));
    assert_eq!(r.method, "POST");
    assert_eq!(r.url, "http://x/post");
    assert_eq!(r.body, b"{\"a\":\"1\"}".to_vec());
    assert_eq!(r.headers.len(), 3);
    assert_eq!(r.headers.last(), Some(&header("Content-Type", "application/json")));
}

#[test]
fn text_post_request_declares_the_given_type_last() {
    let r = text_post_request(&s("http://x/post"), &s("hello"), "text/x-custom");
    assert_eq!(r.body, b"hello".to_vec());
    assert_eq!(
        r.headers,
        vec![
            header("Accept", "*/*"),
            header("Content-Type", "text/plain; charset=utf-8"),
            header("Content-Type", "text/x-custom"),
        ]
    );
}

#[test]
fn every_configuration_is_built() {
    let fields = [("", ""), ("a\u{0}b", "\u{1f}"), ("\u{1f600}", "\"\\/"), ("k", "v")];
    for method in [Method::Get, Method::Post] {
        for encoding in [PostEncoding::Form, PostEncoding::Json] {
            for use_query in [false, true] {
                let c = config("", method, encoding, use_query, &fields);
                assert!(build(&c).is_ok());
                let c = config("http://x/", method, encoding, use_query, &[]);
                assert!(build(&c).is_ok());
            }
        }
    }
}

//! Building the transport-ready request from a request configuration.
//!
//! The builder is a pure function of the configuration. A GET request carries
//! its parameters in the query string, or none at all; a POST request carries
//! them in its body, as a form or as a JSON object, and names the encoding in
//! a `Content-Type` header. Field names and values are written as they are:
//! nothing is percent-encoded.

use crate::params::{distinct_fields, fields_of, Field, ParameterSet};
use vstd::prelude::*;
use vstd::string::*;
use vstd::utf8::encode_utf8;

verus! {

/// The HTTP method of a request.
#[derive(Clone, Copy, Debug, PartialEq, Eq, Structural)]
pub enum Method {
    Get,
    Post,
}

/// How a POST request writes its parameters into the body.
#[derive(Clone, Copy, Debug, PartialEq, Eq, Structural)]
pub enum PostEncoding {
    Form,
    Json,
}

/// What the user has set up: where to send the request, how, and with which
/// parameters. `post_encoding` matters only for POST, `use_query_params` only
/// for GET.
#[derive(Debug)]
pub struct RequestConfig {
    pub url: String,
    pub method: Method,
    pub post_encoding: PostEncoding,
    pub use_query_params: bool,
    pub params: ParameterSet,
}

/// A request configuration as plain values.
pub struct RequestConfigView {
    pub url: Seq<char>,
    pub method: Method,
    pub post_encoding: PostEncoding,
    pub use_query_params: bool,
    pub params: Seq<Field>,
}

impl View for RequestConfig {
    type V = RequestConfigView;

    open spec fn view(&self) -> RequestConfigView {
        RequestConfigView {
            url: self.url@,
            method: self.method,
            post_encoding: self.post_encoding,
            use_query_params: self.use_query_params,
            params: self.params@,
        }
    }
}

/// The configuration that a session starts with: a GET request to a server
/// on this machine, with no parameters.
pub open spec fn default_config() -> RequestConfigView {
    RequestConfigView {
        url: "http://127.0.0.1:8080/get"@,
        method: Method::Get,
        post_encoding: PostEncoding::Json,
        use_query_params: false,
        params: Seq::empty(),
    }
}

impl Default for RequestConfig {
    fn default() -> (r: Self)
        ensures
            r@ == default_config(),
    {
        RequestConfig {
            url: String::from_str("http://127.0.0.1:8080/get"),
            method: Method::Get,
            post_encoding: PostEncoding::Json,
            use_query_params: false,
            params: ParameterSet::new(),
        }
    }
}

/// A request ready for the transport: method, URL, headers in order, body.
#[derive(Debug)]
pub struct WireRequest {
    pub method: String,
    pub url: String,
    pub headers: Vec<(String, String)>,
    pub body: Vec<u8>,
}

/// A transport-ready request as plain values.
pub struct WireRequestView {
    pub method: Seq<char>,
    pub url: Seq<char>,
    pub headers: Seq<Field>,
    pub body: Seq<u8>,
}

impl View for WireRequest {
    type V = WireRequestView;

    open spec fn view(&self) -> WireRequestView {
        WireRequestView {
            method: self.method@,
            url: self.url@,
            headers: fields_of(self.headers@),
            body: self.body@,
        }
    }
}

/// Why a configuration could not be turned into a request. No configuration
/// that this library can hold gives one: the type is there for the serializer
/// to report through, should it ever fail.
#[derive(Clone, Copy, Debug, PartialEq, Eq, Structural)]
pub enum ConstructionError {
    /// The parameters could not be written as a JSON object.
    Serialization,
}

/// One parameter on the wire: the field, an equals sign, the value.
pub open spec fn field_text(f: Field) -> Seq<char> {
    f.0 + seq!['='] + f.1
}

/// The parameters on the wire: each as `field=value`, in the order of `s`,
/// with an ampersand between neighbours and none at either end.
pub open spec fn joined_fields(s: Seq<Field>) -> Seq<char>
    decreases s.len(),
{
    if s.len() == 0 {
        Seq::empty()
    } else if s.len() == 1 {
        field_text(s[0])
    } else {
        joined_fields(s.drop_last()) + seq!['&'] + field_text(s.last())
    }
}

/// The URL of a GET request that carries `s` in its query string. With no
/// parameter the URL stays as it is: no question mark is left behind.
pub open spec fn url_with_query(url: Seq<char>, s: Seq<Field>) -> Seq<char> {
    if s.len() == 0 {
        url
    } else {
        url + seq!['?'] + joined_fields(s)
    }
}

/// The GET request for `url`.
pub open spec fn get_request(url: Seq<char>) -> WireRequestView {
    WireRequestView {
        method: "GET"@,
        url,
        headers: seq![("Accept"@, "*/*"@)],
        body: Seq::empty(),
    }
}

/// The POST request for `url` with the body `body`, before the caller has
/// named the body's encoding.
pub open spec fn plain_post_request(url: Seq<char>, body: Seq<u8>) -> WireRequestView {
    WireRequestView {
        method: "POST"@,
        url,
        headers: seq![("Accept"@, "*/*"@), ("Content-Type"@, "text/plain; charset=utf-8"@)],
        body,
    }
}

/// The POST request for `url` with the body `body`, declared as
/// `content_type`. The declaration comes last among the headers, after the
/// default one.
pub open spec fn post_request(
    url: Seq<char>,
    body: Seq<u8>,
    content_type: Seq<char>,
) -> WireRequestView {
    WireRequestView {
        headers: plain_post_request(url, body).headers.push(("Content-Type"@, content_type)),
        ..plain_post_request(url, body)
    }
}

/// The request that `c` describes, where `json` is the JSON text of its
/// parameters.
pub open spec fn built(c: RequestConfigView, json: Seq<char>) -> WireRequestView {
    match c.method {
        Method::Get => if c.use_query_params {
            get_request(url_with_query(c.url, c.params))
        } else {
            get_request(c.url)
        },
        Method::Post => match c.post_encoding {
            PostEncoding::Form => post_request(
                c.url,
                encode_utf8(joined_fields(c.params)),
                "application/x-www-form-urlencoded"@,
            ),
            PostEncoding::Json => post_request(c.url, encode_utf8(json), "application/json"@),
        },
    }
}

/// Calls `ehttp::Request::get` and hands its fields over. That constructor
/// sets the method to `GET`, keeps the URL, leaves the body empty and gives
/// the request the single header `Accept: */*`.
#[verifier::external_body]
fn new_get(url: &str) -> (r: WireRequest)
    ensures
        r@ == get_request(url@),
{
    let q = ehttp::Request::get(url);
    WireRequest { method: q.method, url: q.url, headers: q.headers.headers, body: q.body }
}

/// Calls `ehttp::Request::post` and hands its fields over. That constructor
/// sets the method to `POST`, keeps the URL and the body, and gives the
/// request the headers `Accept: */*` and
/// `Content-Type: text/plain; charset=utf-8`, in this order.
#[verifier::external_body]
fn new_post(url: &str, body: Vec<u8>) -> (r: WireRequest)
    ensures
        r@ == plain_post_request(url@, body@),
{
    let q = ehttp::Request::post(url, body);
    WireRequest { method: q.method, url: q.url, headers: q.headers.headers, body: q.body }
}

/// Calls `ehttp::Headers::insert`, which appends the pair to the list and
/// keeps every header that is already there, one of the same name too.
#[verifier::external_body]
fn insert_header(headers: &mut Vec<(String, String)>, key: &str, value: &str)
    ensures
        fields_of(final(headers)@) == fields_of(old(headers)@).push((key@, value@)),
{
    let mut h = ehttp::Headers { headers: std::mem::take(headers) };
    h.insert(key, value);
    *headers = h.headers;
}

/// The text that `serde_json::to_string` gives for the JSON object whose
/// members are the parameters `fields`, each value a JSON string.
pub uninterp spec fn json_object_text(fields: Seq<Field>) -> Seq<char>;

/// `serde_json::Error`, the serializer's account of a failure. It is carried
/// through as it is; nothing is read from it.
#[verifier::external_type_specification]
#[verifier::external_body]
pub struct ExJsonError(serde_json::Error);

/// Calls `serde_json::to_string` on the parameters as a map from field to
/// value. The map is ordered by field name, so the text depends on the
/// parameters alone. The call succeeds: the serializer fails only where a
/// value refuses to be written, where a map has a key that is no string, or
/// where its writer fails, and here keys and values are strings and the
/// writer is a byte vector.
#[verifier::external_body]
fn json_text(pairs: &Vec<(String, String)>) -> (r: Result<String, serde_json::Error>)
    requires
        distinct_fields(fields_of(pairs@)),
    ensures
        r is Ok,
        r matches Ok(text) ==> text@ == json_object_text(fields_of(pairs@)),
{
    let object: std::collections::BTreeMap<&str, &str> =
        pairs.iter().map(|p| (p.0.as_str(), p.1.as_str())).collect();
    serde_json::to_string(&object)
}

/// One more parameter at the end adds its text at the end, after a
/// separator where it is not the first.
pub proof fn lemma_joined_fields_push(s: Seq<Field>, f: Field)
    ensures
        joined_fields(s.push(f)) == if s.len() == 0 {
            field_text(f)
        } else {
            joined_fields(s) + seq!['&'] + field_text(f)
        },
{
    assert(s.push(f).drop_last() =~= s);
}

/// The text of the parameters follows their order: the text of a list is the
/// text of its front part, a separator, and the text of its back part.
pub proof fn law_joined_fields_follow_order(front: Seq<Field>, back: Seq<Field>)
    requires
        front.len() > 0,
        back.len() > 0,
    ensures
        joined_fields(front + back) == joined_fields(front) + seq!['&'] + joined_fields(back),
    decreases back.len(),
{
    let all = front + back;
    if back.len() == 1 {
        assert(all =~= front.push(back[0]));
        lemma_joined_fields_push(front, back[0]);
    } else {
        let shorter = back.drop_last();
        assert(all.drop_last() =~= front + shorter);
        assert(all.last() == back.last());
        law_joined_fields_follow_order(front, shorter);
        assert(joined_fields(all) =~= joined_fields(front) + seq!['&'] + joined_fields(back));
    }
}

/// In the query string of a GET request the parameters stand in their own
/// order, and so they do in the body of a form POST.
pub proof fn law_wire_order_is_parameter_order(c: RequestConfigView, json: Seq<char>)
    ensures
        c.method == Method::Get && c.use_query_params && c.params.len() > 0 ==> built(c, json).url
            == c.url + seq!['?'] + joined_fields(c.params),
        c.method == Method::Post && c.post_encoding == PostEncoding::Form ==> built(c, json).body
            == encode_utf8(joined_fields(c.params)),
{
}

/// A GET request that carries no parameters goes to the configured URL as it
/// is, and a GET request has an empty body in any case.
pub proof fn law_get_without_parameters_keeps_url(c: RequestConfigView, json: Seq<char>)
    requires
        c.method == Method::Get,
    ensures
        !c.use_query_params || c.params.len() == 0 ==> built(c, json).url == c.url,
        built(c, json).body == Seq::<u8>::empty(),
{
}

/// Writes the parameters as `field=value` pairs with ampersands between them.
pub fn join_fields(params: &ParameterSet) -> (r: String)
    ensures
        r@ == joined_fields(params@),
{
    let pairs = params.iterate();
    let mut out = String::new();
    let mut i: usize = 0;
    while i < pairs.len()
        invariant
            i <= pairs@.len(),
            out@ == joined_fields(fields_of(pairs@).take(i as int)),
        decreases pairs@.len() - i,
    {
        let ghost before = out@;
        proof {
            reveal_strlit("&");
            reveal_strlit("=");
            lemma_joined_fields_push(
                fields_of(pairs@).take(i as int),
                fields_of(pairs@)[i as int],
            );
            assert(fields_of(pairs@).take(i as int).push(fields_of(pairs@)[i as int])
                =~= fields_of(pairs@).take(i + 1));
        }
        if i > 0 {
            out.append("&");
        }
        out.append(pairs[i].0.as_str());
        out.append("=");
        out.append(pairs[i].1.as_str());
        assert("&"@ =~= seq!['&'] && "="@ =~= seq!['=']);
        assert(out@ =~= if i == 0 {
            field_text(fields_of(pairs@)[i as int])
        } else {
            before + seq!['&'] + field_text(fields_of(pairs@)[i as int])
        });
        i += 1;
    }
    assert(fields_of(pairs@).take(i as int) =~= fields_of(pairs@));
    out
}

/// The GET request for `url`, with the parameters in its query string.
pub fn query_request(url: &String, params: &ParameterSet) -> (r: WireRequest)
    ensures
        r@ == get_request(url_with_query(url@, params@)),
{
    let mut target = url.clone();
    if !params.is_empty() {
        let query = join_fields(params);
        proof {
            reveal_strlit("?");
        }
        target.append("?");
        target.append(query.as_str());
        assert("?"@ =~= seq!['?']);
        assert(target@ =~= url@ + seq!['?'] + joined_fields(params@));
    }
    new_get(target.as_str())
}

/// The POST request for `url` whose body is the text `body`, declared as
/// `content_type`.
pub fn text_post_request(url: &String, body: &String, content_type: &str) -> (r: WireRequest)
    ensures
        r@ == post_request(url@, encode_utf8(body@), content_type@),
{
    let mut request = new_post(url.as_str(), body.as_str().as_bytes_vec());
    insert_header(&mut request.headers, "Content-Type", content_type);
    request
}

/// The POST request for `url` with the parameters as a form in its body.
pub fn form_request(url: &String, params: &ParameterSet) -> (r: WireRequest)
    ensures
        r@ == post_request(
            url@,
            encode_utf8(joined_fields(params@)),
            "application/x-www-form-urlencoded"@,
        ),
{
    let body = join_fields(params);
    text_post_request(url, &body, "application/x-www-form-urlencoded")
}

/// The POST request for `url` whose body is the JSON text `json`.
pub fn json_request(url: &String, json: &String) -> (r: WireRequest)
    ensures
        r@ == post_request(url@, encode_utf8(json@), "application/json"@),
{
    text_post_request(url, json, "application/json")
}

/// Builds the request that `config` describes.
///
/// Every configuration gives a request. A JSON POST is built from the text
/// that the serializer gives for the parameters.
pub fn build(config: &RequestConfig) -> (r: Result<WireRequest, ConstructionError>)
    ensures
        r matches Ok(request) && request@ == built(config@, json_object_text(config.params@)),
{
    match config.method {
        Method::Get => {
            if config.use_query_params {
                Ok(query_request(&config.url, &config.params))
            } else {
                Ok(new_get(config.url.as_str()))
            }
        },
        Method::Post => match config.post_encoding {
            PostEncoding::Form => Ok(form_request(&config.url, &config.params)),
            PostEncoding::Json => {
                let pairs = config.params.iterate();
                match json_text(&pairs) {
                    Ok(text) => Ok(json_request(&config.url, &text)),
                    Err(_) => Err(ConstructionError::Serialization),
                }
            },
        },
    }
}

} // verus!

//! Classifying a completed response by its declared content type.
//!
//! A response declared as an image is shown as an image, under a handle that
//! is its URL. Any other response is text where its bytes are valid UTF-8 and
//! opaque binary data where they are not. Classification never fails.

use crate::params::{fields_of, Field};
use vstd::prelude::*;
use vstd::string::*;
use vstd::utf8::{decode_utf8, valid_utf8};

verus! {

/// A response as the transport delivered it.
#[derive(Debug)]
pub struct RawResponse {
    pub url: String,
    pub ok: bool,
    pub status: u16,
    pub status_text: String,
    pub headers: Vec<(String, String)>,
    pub bytes: Vec<u8>,
}

/// A delivered response as plain values.
pub struct RawResponseView {
    pub url: Seq<char>,
    pub ok: bool,
    pub status: u16,
    pub status_text: Seq<char>,
    pub headers: Seq<Field>,
    pub bytes: Seq<u8>,
}

impl View for RawResponse {
    type V = RawResponseView;

    open spec fn view(&self) -> RawResponseView {
        RawResponseView {
            url: self.url@,
            ok: self.ok,
            status: self.status,
            status_text: self.status_text@,
            headers: fields_of(self.headers@),
            bytes: self.bytes@,
        }
    }
}

/// How the body of a response is to be shown.
#[derive(Debug)]
pub enum Payload {
    /// An image, registered under `handle`.
    Image { handle: String },
    /// The body decoded as text.
    Text { text: String },
    /// Neither: the body is shown as an opaque marker.
    Binary,
}

/// A payload as plain values.
pub enum PayloadView {
    Image { handle: Seq<char> },
    Text { text: Seq<char> },
    Binary,
}

impl View for Payload {
    type V = PayloadView;

    open spec fn view(&self) -> PayloadView {
        match self {
            Payload::Image { handle } => PayloadView::Image { handle: handle@ },
            Payload::Text { text } => PayloadView::Text { text: text@ },
            Payload::Binary => PayloadView::Binary,
        }
    }
}

/// A response together with the reading of its body.
#[derive(Debug)]
pub struct ClassifiedResponse {
    pub response: RawResponse,
    pub payload: Payload,
}

/// A classified response as plain values.
pub struct ClassifiedResponseView {
    pub response: RawResponseView,
    pub payload: PayloadView,
}

impl View for ClassifiedResponse {
    type V = ClassifiedResponseView;

    open spec fn view(&self) -> ClassifiedResponseView {
        ClassifiedResponseView { response: self.response@, payload: self.payload@ }
    }
}

/// The plain-text reading of an optional string.
pub open spec fn text_of(s: Option<String>) -> Option<Seq<char>> {
    match s {
        Some(t) => Some(t@),
        None => None,
    }
}

/// The content type that counts where none is declared: the empty one.
pub open spec fn or_empty(content_type: Option<Seq<char>>) -> Seq<char> {
    match content_type {
        Some(c) => c,
        None => Seq::empty(),
    }
}

/// `c` with a capital Latin letter turned into the small one. Every other
/// character stays as it is.
pub open spec fn ascii_lower(c: char) -> char {
    if 'A' <= c && c <= 'Z' {
        ((c as u8) + 32) as char
    } else {
        c
    }
}

/// `s` with each character in its ASCII lower-case form.
pub open spec fn ascii_lowercase(s: Seq<char>) -> Seq<char> {
    s.map_values(|c: char| ascii_lower(c))
}

/// A content type that declares an image: it begins with `image/`, in
/// whatever letter case it is written.
pub open spec fn is_image_type(content_type: Seq<char>) -> bool {
    "image/"@.is_prefix_of(ascii_lowercase(content_type))
}

/// The reading of a body `bytes` that came from `url`, declared as
/// `content_type`.
pub open spec fn payload_of(
    url: Seq<char>,
    bytes: Seq<u8>,
    content_type: Option<Seq<char>>,
) -> PayloadView {
    if is_image_type(or_empty(content_type)) {
        PayloadView::Image { handle: url }
    } else if valid_utf8(bytes) {
        PayloadView::Text { text: decode_utf8(bytes) }
    } else {
        PayloadView::Binary
    }
}

/// The response `raw` once classified under the declaration `content_type`.
pub open spec fn classified(
    raw: RawResponseView,
    content_type: Option<Seq<char>>,
) -> ClassifiedResponseView {
    ClassifiedResponseView {
        response: raw,
        payload: payload_of(raw.url, raw.bytes, content_type),
    }
}

/// What `ehttp::Response::content_type` gives for a response with the
/// headers `headers`: the value of the first header whose name is
/// `content-type` in any letter case, if there is one.
pub uninterp spec fn content_type_of(headers: Seq<Field>) -> Option<Seq<char>>;

/// Calls `ehttp::Response::content_type` on a copy of `raw`. The call reads
/// the headers and nothing else.
#[verifier::external_body]
fn declared_content_type(raw: &RawResponse) -> (r: Option<String>)
    ensures
        text_of(r) == content_type_of(fields_of(raw.headers@)),
{
    let response = ehttp::Response {
        url: raw.url.clone(),
        ok: raw.ok,
        status: raw.status,
        status_text: raw.status_text.clone(),
        headers: ehttp::Headers { headers: raw.headers.clone() },
        bytes: raw.bytes.clone(),
    };
    response.content_type().map(|c| c.to_owned())
}

/// Calls `ehttp::Response::text` on a copy of `raw`. The call decodes the
/// body as UTF-8: it gives the text where the bytes are valid UTF-8 and
/// nothing where they are not.
#[verifier::external_body]
fn decoded_text(raw: &RawResponse) -> (r: Option<String>)
    ensures
        r is Some <==> valid_utf8(raw.bytes@),
        r matches Some(text) ==> text@ == decode_utf8(raw.bytes@),
{
    let response = ehttp::Response {
        url: raw.url.clone(),
        ok: raw.ok,
        status: raw.status,
        status_text: raw.status_text.clone(),
        headers: ehttp::Headers { headers: raw.headers.clone() },
        bytes: raw.bytes.clone(),
    };
    response.text().map(|t| t.to_owned())
}

/// The content type that the headers of `raw` declare, and the empty text
/// where they declare none.
pub fn content_type_label(raw: &RawResponse) -> (r: String)
    ensures
        r@ == or_empty(content_type_of(raw@.headers)),
{
    match declared_content_type(raw) {
        Some(c) => c,
        None => String::new(),
    }
}

/// The ASCII lower-case form of `c`.
pub fn to_ascii_lower(c: char) -> (r: char)
    ensures
        r == ascii_lower(c),
{
    if 'A' <= c && c <= 'Z' {
        ((c as u8) + 32) as char
    } else {
        c
    }
}

/// Whether `content_type` declares an image.
pub fn declares_image(content_type: &str) -> (b: bool)
    ensures
        b == is_image_type(content_type@),
{
    proof {
        reveal_strlit("image/");
    }
    let n = content_type.unicode_len();
    if n < 6 {
        return false;
    }
    let b = to_ascii_lower(content_type.get_char(0)) == 'i' && to_ascii_lower(
        content_type.get_char(1),
    ) == 'm' && to_ascii_lower(content_type.get_char(2)) == 'a' && to_ascii_lower(
        content_type.get_char(3),
    ) == 'g' && to_ascii_lower(content_type.get_char(4)) == 'e' && content_type.get_char(5)
        == '/';
    proof {
        let prefix = "image/"@;
        let lowered = ascii_lowercase(content_type@);
        let head = lowered.subrange(0, 6);
        assert(ascii_lower('/') == '/');
        assert(ascii_lower(content_type@[5]) == '/' <==> content_type@[5] == '/');
        assert(prefix[0] == 'i' && prefix[1] == 'm' && prefix[2] == 'a' && prefix[3] == 'g'
            && prefix[4] == 'e' && prefix[5] == '/');
        assert(head[0] == lowered[0] && head[1] == lowered[1] && head[2] == lowered[2] && head[3]
            == lowered[3] && head[4] == lowered[4] && head[5] == lowered[5]);
        if b {
            assert(prefix =~= head);
        }
    }
    b
}

/// Classifies `raw` under the declaration `content_type`.
pub fn classify_as(raw: RawResponse, content_type: Option<String>) -> (r: ClassifiedResponse)
    ensures
        r@ == classified(raw@, text_of(content_type)),
        r.response == raw,
{
    let image = match &content_type {
        Some(c) => declares_image(c.as_str()),
        None => declares_image(""),
    };
    proof {
        reveal_strlit("");
        assert(""@ =~= Seq::<char>::empty());
    }
    if image {
        let handle = raw.url.clone();
        ClassifiedResponse { response: raw, payload: Payload::Image { handle } }
    } else {
        match decoded_text(&raw) {
            Some(text) => ClassifiedResponse { response: raw, payload: Payload::Text { text } },
            None => ClassifiedResponse { response: raw, payload: Payload::Binary },
        }
    }
}

/// Classifies `raw` under the content type that its headers declare.
pub fn classify(raw: RawResponse) -> (r: ClassifiedResponse)
    ensures
        r@ == classified(raw@, content_type_of(raw@.headers)),
        r.response == raw,
{
    let content_type = declared_content_type(&raw);
    classify_as(raw, content_type)
}

} // verus!

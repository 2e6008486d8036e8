//! What the user interface shows of a resolved request.

use crate::response::{Payload, PayloadView, RawResponse};
use vstd::prelude::*;
use vstd::string::*;

verus! {

/// The text shown for a failure with the message `message`.
pub open spec fn error_text(message: Seq<char>) -> Seq<char> {
    if message.len() == 0 {
        "Error"@
    } else {
        message
    }
}

/// The text shown in place of a body under `payload`: the decoded text, the
/// marker `[binary]` for an opaque body, and none for an image, which is
/// shown as an image.
pub open spec fn body_text(payload: PayloadView) -> Option<Seq<char>> {
    match payload {
        PayloadView::Image { handle } => None,
        PayloadView::Text { text } => Some(text),
        PayloadView::Binary => Some("[binary]"@),
    }
}

/// The text to show for a failed request. A failure without a message is
/// shown as `Error`, never as nothing.
pub fn error_label(message: &String) -> (r: String)
    ensures
        r@ == error_text(message@),
{
    if message.as_str().is_empty() {
        String::from_str("Error")
    } else {
        message.clone()
    }
}

/// The text to show in place of the body, if any.
pub fn body_label(payload: &Payload) -> (r: Option<String>)
    ensures
        match r {
            Some(text) => body_text(payload@) == Some(text@),
            None => body_text(payload@) is None,
        },
{
    match payload {
        Payload::Image { handle } => None,
        Payload::Text { text } => Some(text.clone()),
        Payload::Binary => Some(String::from_str("[binary]")),
    }
}

/// The number of bytes in the body.
pub fn byte_length(raw: &RawResponse) -> (n: usize)
    ensures
        n == raw@.bytes.len(),
{
    raw.bytes.len()
}

} // verus!

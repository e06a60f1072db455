//! Wire framing for protocol messages: a message is sent behind a
//! `Content-Length` header (counting bytes), an optional `Content-Type`
//! header, and a blank line.

use vstd::prelude::*;

use crate::text::{chars_to_string, dec_digits, push_dec, push_str_chars};

verus! {

/// Frames `message` with its `Content-Length` header and the optional
/// `Content-Type` header. The length counts the message's bytes.
pub fn encode_message(content_type: Option<&str>, message: &str) -> (r: String)
    ensures
        r@ == "Content-Length: "@ + dec_digits(message.len() as nat) + (match content_type {
            Some(t) => "\r\nContent-Type: "@ + t@,
            None => Seq::<char>::empty(),
        }) + "\r\n\r\n"@ + message@,
{
    let len = message.len();
    let mut out: Vec<char> = Vec::new();
    push_str_chars(&mut out, "Content-Length: ");
    push_dec(&mut out, len as u64);
    match content_type {
        Some(t) => {
            push_str_chars(&mut out, "\r\nContent-Type: ");
            push_str_chars(&mut out, t);
        },
        None => {},
    }
    push_str_chars(&mut out, "\r\n\r\n");
    push_str_chars(&mut out, message);
    proof {
        assert(out@ =~= "Content-Length: "@ + dec_digits(message.len() as nat) + (
        match content_type {
            Some(t) => "\r\nContent-Type: "@ + t@,
            None => Seq::<char>::empty(),
        }) + "\r\n\r\n"@ + message@);
    }
    chars_to_string(&out)
}

} // verus!

//! Framing of the signed request payload.
//!
//! The request body is a JSON object with the device identity, the opaque
//! caller data, the Unix timestamp (as a JSON number) and the signature.
//! The body is framed here, byte for byte, so that the timestamp digits
//! embedded in the body are provably the same digits that were fed to the
//! signature — the server rejects any mismatch.

use vstd::prelude::*;
use vstd::string::{StrSliceExecFns, StringExecFns};

use crate::decfmt::{dec_of_int, i64_to_dec};
use crate::hexfmt::{hex_digit, hex_digit_str};
use crate::signing::{create_signature, signature_hex};

verus! {

/// How one character is written inside a JSON string literal: quote,
/// backslash and the named control characters get two-character escapes,
/// other control characters get a `\u00..` escape, everything else stands
/// as itself.
pub open spec fn escape_char(c: char) -> Seq<char> {
    if c == '"' {
        seq!['\\', '"']
    } else if c == '\\' {
        seq!['\\', '\\']
    } else if c == '\u{8}' {
        seq!['\\', 'b']
    } else if c == '\t' {
        seq!['\\', 't']
    } else if c == '\n' {
        seq!['\\', 'n']
    } else if c == '\u{c}' {
        seq!['\\', 'f']
    } else if c == '\r' {
        seq!['\\', 'r']
    } else if (c as u32) < 32 {
        seq!['\\', 'u', '0', '0', hex_digit(((c as u32) / 16) as u8), hex_digit(
            ((c as u32) % 16) as u8,
        )]
    } else {
        seq![c]
    }
}

/// A whole string written inside a JSON string literal.
pub open spec fn json_escaped(s: Seq<char>) -> Seq<char>
    decreases s.len(),
{
    if s.len() == 0 {
        Seq::<char>::empty()
    } else {
        escape_char(s[0]) + json_escaped(s.drop_first())
    }
}

proof fn lemma_json_escaped_push(s: Seq<char>, c: char)
    ensures
        json_escaped(s + seq![c]) == json_escaped(s) + escape_char(c),
    decreases s.len(),
{
    let ext = s + seq![c];
    if s.len() == 0 {
        assert(ext =~= seq![c]);
        assert(ext[0] == c);
        assert(ext.drop_first() =~= Seq::<char>::empty());
        assert(json_escaped(ext) == escape_char(c) + json_escaped(Seq::<char>::empty()));
        assert(json_escaped(ext) =~= json_escaped(s) + escape_char(c));
    } else {
        assert(ext[0] == s[0]);
        assert(ext.drop_first() =~= s.drop_first() + seq![c]);
        lemma_json_escaped_push(s.drop_first(), c);
        assert(json_escaped(ext) == escape_char(s[0]) + (json_escaped(s.drop_first())
            + escape_char(c)));
        assert(json_escaped(ext) =~= json_escaped(s) + escape_char(c));
    }
}

/// Escape a string for inclusion in a JSON string literal.
pub fn json_escape(s: &str) -> (r: String)
    ensures
        r@ == json_escaped(s@),
{
    let mut out = String::new();
    let n = s.unicode_len();
    let mut i: usize = 0;
    while i < n
        invariant
            i <= s@.len(),
            n == s@.len(),
            out@ == json_escaped(s@.take(i as int)),
        decreases n - i,
    {
        let c = s.get_char(i);
        proof {
            reveal_strlit("\\\"");
            reveal_strlit("\\\\");
            reveal_strlit("\\b");
            reveal_strlit("\\t");
            reveal_strlit("\\n");
            reveal_strlit("\\f");
            reveal_strlit("\\r");
            reveal_strlit("\\u00");
        }
        if c == '"' {
            out.append("\\\"");
        } else if c == '\\' {
            out.append("\\\\");
        } else if c == '\u{8}' {
            out.append("\\b");
        } else if c == '\t' {
            out.append("\\t");
        } else if c == '\n' {
            out.append("\\n");
        } else if c == '\u{c}' {
            out.append("\\f");
        } else if c == '\r' {
            out.append("\\r");
        } else if (c as u32) < 32 {
            let cu = c as u32;
            out.append("\\u00");
            out.append(hex_digit_str((cu / 16) as u8));
            out.append(hex_digit_str((cu % 16) as u8));
        } else {
            let piece = s.substring_char(i, i + 1);
            proof {
                assert(piece@ =~= seq![s@[i as int]]);
            }
            out.append(piece);
        }
        proof {
            assert(s@.take(i + 1 as int) =~= s@.take(i as int) + seq![s@[i as int]]);
            lemma_json_escaped_push(s@.take(i as int), s@[i as int]);
        }
        i = i + 1;
    }
    proof {
        assert(s@.take(s@.len() as int) =~= s@);
    }
    out
}

/// The request body, character for character: a JSON object holding the
/// escaped device identity, the escaped opaque data, the timestamp as a
/// bare decimal number, and the signature computed over the secret, the
/// device identity, the data and the very same decimal digits.
pub open spec fn body_text(
    device: Seq<char>,
    data: Seq<char>,
    timestamp: int,
    key: Seq<char>,
) -> Seq<char> {
    "{\"device_hash\":\""@ + json_escaped(device) + "\",\"data\":\""@ + json_escaped(data)
        + "\",\"timestamp\":"@ + dec_of_int(timestamp) + ",\"signature\":\""@ + signature_hex(
        key,
        device,
        data,
        dec_of_int(timestamp),
    ) + "\"}"@
}

/// Build the signed request body for one timestamp.
///
/// The timestamp is rendered once; the rendering is both signed and
/// embedded, so the signature and the transmitted timestamp can never
/// disagree.
pub fn build_body(subscription_key: &str, device_hash: &str, data: &str, timestamp: i64) -> (r:
    String)
    ensures
        r@ == body_text(device_hash@, data@, timestamp as int, subscription_key@),
{
    let ts = i64_to_dec(timestamp);
    let signature = create_signature(subscription_key, device_hash, data, ts.as_str());
    let mut out = String::from_str("{\"device_hash\":\"");
    let escaped_device = json_escape(device_hash);
    out.append(escaped_device.as_str());
    out.append("\",\"data\":\"");
    let escaped_data = json_escape(data);
    out.append(escaped_data.as_str());
    out.append("\",\"timestamp\":");
    out.append(ts.as_str());
    out.append(",\"signature\":\"");
    out.append(signature.as_str());
    out.append("\"}");
    proof {
        assert(out@ =~= body_text(device_hash@, data@, timestamp as int, subscription_key@));
    }
    out
}

/// Everything the transport needs for one activation check: where to send
/// the request, the two authentication headers, and the signed body.
pub struct PreparedRequest {
    /// The full endpoint URL.
    pub url: String,
    /// The value of the `X-API-KEY` header: the subscription secret.
    pub api_key: String,
    /// The value of the `Date` header: the current UTC time, RFC 2822.
    pub date: String,
    /// The signed JSON body.
    pub body: String,
}

} // verus!

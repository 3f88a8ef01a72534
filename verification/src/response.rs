//! Interpretation of the service's response.
//!
//! The service answers with a JSON object whose `message` field carries the
//! decision. The raw field — rendered back to JSON text, so a string value
//! arrives quoted and with escaped newlines — is normalized, and the HTTP
//! status and a suffix match against the product code turn it into a typed
//! outcome.

use vstd::prelude::*;
use vstd::string::{StrSliceExecFns, StringExecFns};

use crate::errors::Error;

verus! {

/// One layer of surrounding quote characters removed, if both ends carry
/// one.
pub open spec fn strip_quotes(s: Seq<char>) -> Seq<char> {
    if s.len() >= 2 && s[0] == '"' && s[s.len() - 1] == '"' {
        s.subrange(1, s.len() - 1)
    } else {
        s
    }
}

/// Every two-character `\n` sequence replaced by a real newline, left to
/// right, non-overlapping.
pub open spec fn unescape_newlines(s: Seq<char>) -> Seq<char>
    decreases s.len(),
{
    if s.len() >= 2 && s[0] == '\\' && s[1] == 'n' {
        seq!['\n'] + unescape_newlines(s.skip(2))
    } else if s.len() == 0 {
        s
    } else {
        seq![s[0]] + unescape_newlines(s.drop_first())
    }
}

/// The normalized message: quotes stripped, newlines unescaped.
pub open spec fn normalized(raw: Seq<char>) -> Seq<char> {
    unescape_newlines(strip_quotes(raw))
}

/// Normalize a raw `message` value: strip a single layer of surrounding
/// quotes and turn literal `\n` sequences into real newlines.
pub fn normalize_message(raw: &str) -> (r: String)
    ensures
        r@ == normalized(raw@),
{
    let n = raw.unicode_len();
    let stripped: &str = if n >= 2 && raw.get_char(0) == '"' && raw.get_char(n - 1) == '"' {
        raw.substring_char(1, n - 1)
    } else {
        raw
    };
    proof {
        assert(stripped@ == strip_quotes(raw@));
    }
    let m = stripped.unicode_len();
    let mut out = String::new();
    let mut i: usize = 0;
    proof {
        assert(stripped@.skip(0) =~= stripped@);
        assert(out@ + unescape_newlines(stripped@) =~= unescape_newlines(stripped@));
    }
    while i < m
        invariant
            i <= m,
            m == stripped@.len(),
            unescape_newlines(stripped@) == out@ + unescape_newlines(stripped@.skip(i as int)),
        decreases m - i,
    {
        let ghost tail = stripped@.skip(i as int);
        if i + 1 < m && stripped.get_char(i) == '\\' && stripped.get_char(i + 1) == 'n' {
            proof {
                reveal_strlit("\n");
                assert(tail[0] == '\\' && tail[1] == 'n');
                assert(tail.skip(2) =~= stripped@.skip(i + 2 as int));
                assert(unescape_newlines(tail) == seq!['\n'] + unescape_newlines(
                    stripped@.skip(i + 2 as int),
                ));
                assert(out@ + unescape_newlines(tail) =~= (out@ + seq!['\n'])
                    + unescape_newlines(stripped@.skip(i + 2 as int)));
            }
            out.append("\n");
            i = i + 2;
        } else {
            let piece = stripped.substring_char(i, i + 1);
            proof {
                assert(piece@ =~= seq![stripped@[i as int]]);
                assert(tail[0] == stripped@[i as int]);
                assert(tail.drop_first() =~= stripped@.skip(i + 1 as int));
                assert(unescape_newlines(tail) == seq![tail[0]] + unescape_newlines(
                    stripped@.skip(i + 1 as int),
                ));
                assert(out@ + unescape_newlines(tail) =~= (out@ + seq![stripped@[i as int]])
                    + unescape_newlines(stripped@.skip(i + 1 as int)));
            }
            out.append(piece);
            i = i + 1;
        }
    }
    proof {
        assert(stripped@.skip(m as int) =~= Seq::<char>::empty());
        assert(out@ + unescape_newlines(Seq::<char>::empty()) =~= out@);
    }
    out
}

/// Whether `code` is a character-for-character suffix of `msg`.
pub open spec fn is_suffix(msg: Seq<char>, code: Seq<char>) -> bool {
    code.len() <= msg.len() && msg.subrange(msg.len() - code.len(), msg.len() as int) == code
}

/// Case-sensitive suffix match of the product code against the message.
pub fn ends_with_code(msg: &str, code: &str) -> (r: bool)
    ensures
        r == is_suffix(msg@, code@),
{
    let m = msg.unicode_len();
    let c = code.unicode_len();
    if c > m {
        return false;
    }
    let mut i: usize = 0;
    while i < c
        invariant
            i <= c <= m,
            m == msg@.len(),
            c == code@.len(),
            forall|j: int| 0 <= j < i ==> msg@[m - c + j] == code@[j],
        decreases c - i,
    {
        if msg.get_char(m - c + i) != code.get_char(i) {
            proof {
                if is_suffix(msg@, code@) {
                    assert(msg@.subrange(m - c, m as int)[i as int] == msg@[m - c + i as int]);
                }
            }
            return false;
        }
        i = i + 1;
    }
    proof {
        assert(msg@.subrange(m - c, m as int) =~= code@);
    }
    true
}

/// The fixed client-side explanation attached to [`Error::InvalidForProduct`].
pub open spec fn invalid_product_message() -> Seq<char> {
    "The subscription is not for this product!"@
}

/// What the outcome must be, given the HTTP status, the raw `message`
/// value and the product code: on status 200 the normalized message must
/// end with the product code, and failure carries the fixed client-side
/// text; on any other status the normalized server message is surfaced
/// verbatim.
pub open spec fn response_decision(
    status: int,
    raw: Seq<char>,
    product: Seq<char>,
    r: Result<(), Error>,
) -> bool {
    let msg = normalized(raw);
    if status == 200 {
        if is_suffix(msg, product) {
            r is Ok
        } else {
            r matches Err(Error::InvalidForProduct(m)) && m@ == invalid_product_message()
        }
    } else {
        r matches Err(Error::ApiError(m)) && m@ == msg
    }
}

/// Decide the outcome from the HTTP status and the raw `message` value.
pub fn decide_outcome(status: u16, raw_message: &str, product_code: &str) -> (r: Result<(), Error>)
    ensures
        response_decision(status as int, raw_message@, product_code@, r),
{
    let message = normalize_message(raw_message);
    if status == 200 {
        if ends_with_code(message.as_str(), product_code) {
            Ok(())
        } else {
            Err(Error::InvalidForProduct(String::from_str(
                "The subscription is not for this product!",
            )))
        }
    } else {
        Err(Error::ApiError(message))
    }
}

/// Whether serde_json accepts a text as JSON. Parsing is a function of the
/// text alone.
pub uninterp spec fn json_parses(s: Seq<char>) -> bool;

/// Whether the document parsed from a text carries a top-level `message`
/// member. Parsing and the lookup are functions of the text alone.
pub uninterp spec fn has_message_of(s: Seq<char>) -> bool;

/// The top-level `message` member of the document parsed from a text,
/// rendered back to JSON text. A function of the text alone; meaningful
/// where [`has_message_of`] holds.
pub uninterp spec fn raw_message_of(s: Seq<char>) -> Seq<char>;

/// Relies on `serde_json::from_str::<serde_json::Value>`, `Value::get`
/// and `Value`'s `Display`: parsing succeeds exactly on valid JSON, the
/// lookup finds exactly a present top-level `message` member, and the
/// member is rendered back to compact JSON text (a string value comes
/// quoted and with escaped newlines). Each step is a function of the body
/// text alone. The parse error carries nothing the outcome needs, so it
/// is dropped here.
#[verifier::external_body]
fn extract_message(body: &str) -> (r: Result<Option<String>, ()>)
    ensures
        r is Ok <==> json_parses(body@),
        r matches Ok(m) ==> ((m is Some) <==> has_message_of(body@)),
        r matches Ok(Some(raw)) ==> raw@ == raw_message_of(body@),
{
    match serde_json::from_str::<serde_json::Value>(body) {
        Err(_) => Err(()),
        Ok(doc) => match doc.get("message") {
            None => Ok(None),
            Some(field) => Ok(Some(field.to_string())),
        },
    }
}

/// Interpret a response: parse the body, extract and normalize the
/// `message` field, and decide the outcome from the HTTP status.
///
/// A body that is not JSON gives exactly [`Error::ParseError`]; a JSON
/// body without a `message` field gives exactly [`Error::MissingField`];
/// otherwise the outcome follows [`response_decision`] for the extracted
/// raw message.
pub fn interpret_response(status: u16, body: &str, product_code: &str) -> (r: Result<(), Error>)
    ensures
        (r matches Err(Error::ParseError)) <==> !json_parses(body@),
        json_parses(body@) ==> ((r matches Err(Error::MissingField)) <==> !has_message_of(body@)),
        json_parses(body@) && has_message_of(body@) ==> response_decision(
            status as int,
            raw_message_of(body@),
            product_code@,
            r,
        ),
        r is Ok ==> status == 200 && json_parses(body@) && has_message_of(body@),
{
    match extract_message(body) {
        Err(_) => Err(Error::ParseError),
        Ok(None) => Err(Error::MissingField),
        Ok(Some(raw)) => decide_outcome(status, raw.as_str(), product_code),
    }
}

} // verus!

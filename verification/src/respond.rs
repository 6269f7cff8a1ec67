//! Response Renderer: wraps a result or a classified error into the
//! service's uniform JSON envelope.
//!
//! Every response carries the JSON content type and a permissive
//! cross-origin header. A success wraps an already-encoded domain body with
//! status 200; every error path renders with status 400 and a body holding
//! exactly the two fields `short` and `long`. The error body is encoded
//! here, character by character, with JSON string escaping.

use vstd::prelude::*;
use vstd::string::StrSliceExecFns;
use vstd::string::StringExecFns;

use crate::errors::{classify, long_of, short_of, Failure};

verus! {

/// An outgoing HTTP response: status code, headers in order, and body.
pub struct HttpResponse {
    pub status: u16,
    pub headers: Vec<(String, String)>,
    pub body: String,
}

/// The headers every envelope carries: the JSON content type and the
/// permissive cross-origin header, in that order.
pub open spec fn envelope_headers(h: Seq<(String, String)>) -> bool {
    &&& h.len() == 2
    &&& h[0].0@ == "Content-Type"@
    &&& h[0].1@ == "application/json"@
    &&& h[1].0@ == "Access-Control-Allow-Origin"@
    &&& h[1].1@ == "*"@
}

fn make_envelope_headers() -> (h: Vec<(String, String)>)
    ensures
        envelope_headers(h@),
{
    let mut h: Vec<(String, String)> = Vec::new();
    h.push((String::from_str("Content-Type"), String::from_str("application/json")));
    h.push((String::from_str("Access-Control-Allow-Origin"), String::from_str("*")));
    h
}

/// Relies on String::push: appends the given character to the end of the
/// string.
#[verifier::external_body]
fn push_char(s: &mut String, c: char)
    ensures
        final(s)@ == old(s)@.push(c),
{
    s.push(c);
}

/// The lowercase hexadecimal digit for a value below sixteen.
pub open spec fn hex_digit(n: int) -> char {
    if n == 0 {
        '0'
    } else if n == 1 {
        '1'
    } else if n == 2 {
        '2'
    } else if n == 3 {
        '3'
    } else if n == 4 {
        '4'
    } else if n == 5 {
        '5'
    } else if n == 6 {
        '6'
    } else if n == 7 {
        '7'
    } else if n == 8 {
        '8'
    } else if n == 9 {
        '9'
    } else if n == 10 {
        'a'
    } else if n == 11 {
        'b'
    } else if n == 12 {
        'c'
    } else if n == 13 {
        'd'
    } else if n == 14 {
        'e'
    } else if n == 15 {
        'f'
    } else {
        '0'
    }
}

fn hex_digit_char(n: u8) -> (c: char)
    requires
        n < 16,
    ensures
        c == hex_digit(n as int),
{
    if n == 0 {
        '0'
    } else if n == 1 {
        '1'
    } else if n == 2 {
        '2'
    } else if n == 3 {
        '3'
    } else if n == 4 {
        '4'
    } else if n == 5 {
        '5'
    } else if n == 6 {
        '6'
    } else if n == 7 {
        '7'
    } else if n == 8 {
        '8'
    } else if n == 9 {
        '9'
    } else if n == 10 {
        'a'
    } else if n == 11 {
        'b'
    } else if n == 12 {
        'c'
    } else if n == 13 {
        'd'
    } else if n == 14 {
        'e'
    } else {
        'f'
    }
}

/// How one character is written inside a JSON string: quote and backslash
/// are escaped, the common control characters take their short escapes, any
/// other control character takes the `\u00..` form, and everything else
/// stands as itself.
pub open spec fn escape_char(c: char) -> Seq<char> {
    if c == '"' {
        seq!['\\', '"']
    } else if c == '\\' {
        seq!['\\', '\\']
    } else if c == '\n' {
        seq!['\\', 'n']
    } else if c == '\r' {
        seq!['\\', 'r']
    } else if c == '\t' {
        seq!['\\', 't']
    } else if (c as u32) < 32 {
        seq!['\\', 'u', '0', '0', hex_digit(c as u32 as int / 16), hex_digit(c as u32 as int % 16)]
    } else {
        seq![c]
    }
}

/// A whole string written inside a JSON string, character by character.
pub open spec fn escape_seq(s: Seq<char>) -> Seq<char>
    decreases s.len(),
{
    if s.len() == 0 {
        Seq::empty()
    } else {
        escape_char(s[0]) + escape_seq(s.drop_first())
    }
}

proof fn lemma_escape_snoc(s: Seq<char>, c: char)
    ensures
        escape_seq(s.push(c)) == escape_seq(s) + escape_char(c),
    decreases s.len(),
{
    if s.len() == 0 {
        assert(s.push(c).drop_first() =~= Seq::<char>::empty());
        assert(s.push(c)[0] == c);
        assert(escape_seq(s.push(c)) == escape_char(c) + escape_seq(s.push(c).drop_first()));
        assert(escape_seq(s.push(c)) =~= escape_seq(s) + escape_char(c));
    } else {
        assert(s.push(c).drop_first() =~= s.drop_first().push(c));
        lemma_escape_snoc(s.drop_first(), c);
        assert(escape_seq(s.push(c)) =~= escape_seq(s) + escape_char(c));
    }
}

/// Appends the JSON escaping of one character.
fn append_escaped_char(out: &mut String, c: char)
    ensures
        final(out)@ == old(out)@ + escape_char(c),
{
    if c == '"' {
        push_char(out, '\\');
        push_char(out, '"');
    } else if c == '\\' {
        push_char(out, '\\');
        push_char(out, '\\');
    } else if c == '\n' {
        push_char(out, '\\');
        push_char(out, 'n');
    } else if c == '\r' {
        push_char(out, '\\');
        push_char(out, 'r');
    } else if c == '\t' {
        push_char(out, '\\');
        push_char(out, 't');
    } else if (c as u32) < 32 {
        let n: u32 = c as u32;
        push_char(out, '\\');
        push_char(out, 'u');
        push_char(out, '0');
        push_char(out, '0');
        push_char(out, hex_digit_char((n / 16) as u8));
        push_char(out, hex_digit_char((n % 16) as u8));
    } else {
        push_char(out, c);
    }
    proof {
        assert(out@ =~= old(out)@ + escape_char(c));
    }
}

/// Appends the JSON escaping of a whole string.
#[verifier::loop_isolation(false)]
fn escape_into(out: &mut String, s: &str)
    ensures
        final(out)@ == old(out)@ + escape_seq(s@),
{
    let n = s.unicode_len();
    let mut i: usize = 0;
    while i < n
        invariant
            i <= n,
            out@ == old(out)@ + escape_seq(s@.take(i as int)),
        decreases n - i,
    {
        let c = s.get_char(i);
        append_escaped_char(out, c);
        proof {
            assert(s@.take(i as int + 1) =~= s@.take(i as int).push(c));
            lemma_escape_snoc(s@.take(i as int), c);
            assert(out@ =~= old(out)@ + escape_seq(s@.take(i as int + 1)));
        }
        i = i + 1;
    }
    proof {
        assert(s@.take(n as int) =~= s@);
    }
}

/// The JSON encoding of the error envelope body: exactly the two fields
/// `short` and `long`, both JSON-escaped strings.
pub open spec fn json_error_body(short: Seq<char>, long: Seq<char>) -> Seq<char> {
    "{\"short\":\""@ + escape_seq(short) + "\",\"long\":\""@ + escape_seq(long) + "\"}"@
}

/// Wraps an already-encoded domain body into the success envelope: status
/// 200, JSON content type, permissive cross-origin header, body unchanged.
/// (The JSON encoding of domain results is outside this layer.)
pub fn render_success(body: String) -> (r: HttpResponse)
    ensures
        r.status == 200,
        envelope_headers(r.headers@),
        r.body@ == body@,
{
    HttpResponse { status: 200, headers: make_envelope_headers(), body }
}

/// Law and renderer of every error path: a failure, whatever raised it, is
/// classified and rendered with HTTP status exactly 400, the JSON content
/// type, the permissive cross-origin header, and a body holding exactly the
/// classified `short` and `long` fields.
pub fn render_error(f: &Failure) -> (r: HttpResponse)
    ensures
        r.status == 400,
        envelope_headers(r.headers@),
        r.body@ == json_error_body(short_of(*f), long_of(*f)),
{
    let err = classify(f);
    let mut body = String::from_str("{\"short\":\"");
    escape_into(&mut body, err.short.as_str());
    body.append("\",\"long\":\"");
    escape_into(&mut body, err.long.as_str());
    body.append("\"}");
    proof {
        assert(body@ =~= json_error_body(short_of(*f), long_of(*f)));
    }
    HttpResponse { status: 400, headers: make_envelope_headers(), body }
}

/// The body of the service-status report: the package's semantic version,
/// the configured backend connection string, and the fixed health marker.
pub struct Status {
    pub version: String,
    pub es: String,
    pub status: String,
}

/// Builds the status report; the health marker is always `good`.
pub fn build_status(version: String, es: String) -> (s: Status)
    ensures
        s.version@ == version@,
        s.es@ == es@,
        s.status@ == "good"@,
{
    Status { version, es, status: String::from_str("good") }
}

/// The body of the root endpoint: the service's self-description.
pub struct EndPoint {
    pub description: String,
}

/// Builds the root endpoint's self-description.
pub fn describe_endpoint() -> (e: EndPoint)
    ensures
        e.description@ == "autocomplete service"@,
{
    EndPoint { description: String::from_str("autocomplete service") }
}

} // verus!

//! Response builder: consumes raw transfer results and produces a finished
//! response, classifying the body's media type, computing size and timing
//! metrics, and assembling the final value. Building consumes the handler, so
//! a second build on the same results is statically impossible.

use vstd::prelude::*;

use crate::error::RelayError;
use crate::interop::{
    HeaderEntryV, HeaderMap, MediaType, MediaTypeV, Protocol, Response, ResponseBody,
    ResponseMeta, SizeInfo, TimingInfo,
};

verus! {

/// ASCII lowercase of one character.
pub open spec fn lower_char(c: char) -> char {
    if 'A' <= c && c <= 'Z' {
        ((c as u32) + 32) as char
    } else {
        c
    }
}

/// Case-insensitive (ASCII) equality of two character sequences.
pub open spec fn seq_eq_ci(a: Seq<char>, b: Seq<char>) -> bool {
    a.len() == b.len() && forall|i: int|
        0 <= i < a.len() ==> lower_char(#[trigger] a[i]) == lower_char(b[i])
}

/// `p` is a character-for-character prefix of `s`.
pub open spec fn prefix_of(p: Seq<char>, s: Seq<char>) -> bool {
    p.len() <= s.len() && forall|i: int| 0 <= i < p.len() ==> #[trigger] s[i] == p[i]
}

fn char_lower(c: char) -> (r: char)
    ensures
        r == lower_char(c),
{
    if 'A' <= c && c <= 'Z' {
        (((c as u32) + 32) as u8) as char
    } else {
        c
    }
}

/// Case-insensitive string equality, character by character.
fn str_eq_ci(a: &str, b: &str) -> (r: bool)
    ensures
        r == seq_eq_ci(a@, b@),
{
    let an = a.unicode_len();
    let bn = b.unicode_len();
    if an != bn {
        return false;
    }
    let mut i: usize = 0;
    while i < an
        invariant
            an == a@.len(),
            bn == b@.len(),
            an == bn,
            0 <= i <= an,
            forall|k: int| 0 <= k < i ==> lower_char(#[trigger] a@[k]) == lower_char(b@[k]),
        decreases an - i,
    {
        let ca = a.get_char(i);
        let cb = b.get_char(i);
        if char_lower(ca) != char_lower(cb) {
            return false;
        }
        i += 1;
    }
    true
}

/// Whether `s` starts with the prefix `p`.
fn starts_with_text(s: &str, p: &str) -> (r: bool)
    ensures
        r == prefix_of(p@, s@),
{
    let pn = p.unicode_len();
    let sn = s.unicode_len();
    if pn > sn {
        return false;
    }
    let mut i: usize = 0;
    while i < pn
        invariant
            pn == p@.len(),
            sn == s@.len(),
            pn <= sn,
            0 <= i <= pn,
            forall|k: int| 0 <= k < i ==> #[trigger] s@[k] == p@[k],
        decreases pn - i,
    {
        if s.get_char(i) != p.get_char(i) {
            return false;
        }
        i += 1;
    }
    true
}

/// The classification catalog in its fixed priority order, each member tested
/// as a prefix of the header value; no match classifies as plain text.
pub open spec fn classify_value(v: Seq<char>) -> MediaTypeV {
    if prefix_of("text/plain"@, v) {
        MediaTypeV::TextPlain
    } else if prefix_of("text/html"@, v) {
        MediaTypeV::TextHtml
    } else if prefix_of("text/css"@, v) {
        MediaTypeV::TextCss
    } else if prefix_of("text/csv"@, v) {
        MediaTypeV::TextCsv
    } else if prefix_of("application/json"@, v) {
        MediaTypeV::Json
    } else if prefix_of("application/ld+json"@, v) {
        MediaTypeV::JsonLd
    } else if prefix_of("application/xml"@, v) {
        MediaTypeV::Xml
    } else if prefix_of("text/xml"@, v) {
        MediaTypeV::TextXml
    } else if prefix_of("application/x-www-form-urlencoded"@, v) {
        MediaTypeV::FormUrlEncoded
    } else if prefix_of("multipart/form-data"@, v) {
        MediaTypeV::MultipartFormData
    } else if prefix_of("application/octet-stream"@, v) {
        MediaTypeV::OctetStream
    } else {
        MediaTypeV::TextPlain
    }
}

/// The first value under a case-insensitive "Content-Type" key: the first
/// matching entry decides, and a matching entry without values yields
/// nothing.
pub open spec fn content_type_value(headers: Seq<HeaderEntryV>) -> Option<Seq<char>>
    decreases headers.len(),
{
    if headers.len() == 0 {
        Option::None
    } else if seq_eq_ci(headers[0].name, "content-type"@) {
        if headers[0].values.len() > 0 {
            Option::Some(headers[0].values[0])
        } else {
            Option::None
        }
    } else {
        content_type_value(headers.drop_first())
    }
}

/// Media-type classification of a whole header mapping: an absent
/// content-type classifies as plain text.
pub open spec fn classify_headers(headers: Seq<HeaderEntryV>) -> MediaTypeV {
    match content_type_value(headers) {
        Option::Some(v) => classify_value(v),
        Option::None => MediaTypeV::TextPlain,
    }
}

fn classify_text(v: &str) -> (m: MediaType)
    ensures
        m.deep_view() == classify_value(v@),
{
    if starts_with_text(v, "text/plain") {
        MediaType::TextPlain
    } else if starts_with_text(v, "text/html") {
        MediaType::TextHtml
    } else if starts_with_text(v, "text/css") {
        MediaType::TextCss
    } else if starts_with_text(v, "text/csv") {
        MediaType::TextCsv
    } else if starts_with_text(v, "application/json") {
        MediaType::Json
    } else if starts_with_text(v, "application/ld+json") {
        MediaType::JsonLd
    } else if starts_with_text(v, "application/xml") {
        MediaType::Xml
    } else if starts_with_text(v, "text/xml") {
        MediaType::TextXml
    } else if starts_with_text(v, "application/x-www-form-urlencoded") {
        MediaType::FormUrlEncoded
    } else if starts_with_text(v, "multipart/form-data") {
        MediaType::MultipartFormData
    } else if starts_with_text(v, "application/octet-stream") {
        MediaType::OctetStream
    } else {
        MediaType::TextPlain
    }
}

/// Reads the response header mapping for the first value under the
/// case-insensitive key "Content-Type" and classifies it against the catalog.
pub fn determine_media_type(headers: &HeaderMap) -> (m: MediaType)
    ensures
        m.deep_view() == classify_headers(headers@),
{
    let n = headers.entries.len();
    let mut i: usize = 0;
    proof {
        assert(headers@.skip(0) =~= headers@);
    }
    while i < n
        invariant
            n == headers.entries.len(),
            0 <= i <= n,
            content_type_value(headers@) == content_type_value(headers@.skip(i as int)),
        decreases n - i,
    {
        let e = &headers.entries[i];
        proof {
            assert(headers@.skip(i as int)[0] == headers@[i as int]);
            assert(headers@[i as int] == headers.entries@[i as int].deep_view());
        }
        if str_eq_ci(e.name.as_str(), "content-type") {
            if e.values.len() > 0 {
                let v = &e.values[0];
                proof {
                    assert(headers@[i as int].values[0] == e.values@[0]@);
                    assert(content_type_value(headers@) == Option::Some(v@));
                }
                return classify_text(v.as_str());
            } else {
                proof {
                    assert(content_type_value(headers@) is None);
                }
                return MediaType::TextPlain;
            }
        }
        proof {
            assert(headers@.skip(i as int).drop_first() =~= headers@.skip(i as int + 1));
        }
        i += 1;
    }
    proof {
        assert(headers@.skip(n as int).len() == 0);
    }
    MediaType::TextPlain
}

/// Converts start and end wall-clock milliseconds (signed, relative to the
/// standard epoch) into timing info. A timestamp before the epoch cannot be
/// expressed and fails with a Parse error naming the offending field; no
/// clamping or sign correction is performed on the pair.
pub fn calculate_timing(start_ms: i64, end_ms: i64) -> (r: Result<TimingInfo, RelayError>)
    ensures
        r is Ok <==> start_ms >= 0 && end_ms >= 0,
        r is Ok ==> r->Ok_0 == (TimingInfo { start: start_ms as u64, end: end_ms as u64 }),
        r is Err ==> r->Err_0 is Parse,
        start_ms < 0 ==> r->Err_0->Parse_message@ == "start timestamp predates the epoch"@,
        start_ms >= 0 && end_ms < 0 ==> r->Err_0->Parse_message@
            == "end timestamp predates the epoch"@,
{
    if start_ms < 0 {
        return Result::Err(
            RelayError::Parse {
                message: String::from_str("start timestamp predates the epoch"),
                cause: Option::None,
            },
        );
    }
    if end_ms < 0 {
        return Result::Err(
            RelayError::Parse {
                message: String::from_str("end timestamp predates the epoch"),
                cause: Option::None,
            },
        );
    }
    Result::Ok(TimingInfo { start: start_ms as u64, end: end_ms as u64 })
}

/// The canonical reason phrase of a status code, as the standard status
/// registry gives it; codes outside the registry read as unknown.
pub open spec fn spec_reason(code: u16) -> Seq<char> {
    if false {
        ""@
    } else if code == 100 {
        "Continue"@
    } else if code == 101 {
        "Switching Protocols"@
    } else if code == 102 {
        "Processing"@
    } else if code == 103 {
        "Early Hints"@
    } else if code == 200 {
        "OK"@
    } else if code == 201 {
        "Created"@
    } else if code == 202 {
        "Accepted"@
    } else if code == 203 {
        "Non Authoritative Information"@
    } else if code == 204 {
        "No Content"@
    } else if code == 205 {
        "Reset Content"@
    } else if code == 206 {
        "Partial Content"@
    } else if code == 207 {
        "Multi-Status"@
    } else if code == 208 {
        "Already Reported"@
    } else if code == 226 {
        "IM Used"@
    } else if code == 300 {
        "Multiple Choices"@
    } else if code == 301 {
        "Moved Permanently"@
    } else if code == 302 {
        "Found"@
    } else if code == 303 {
        "See Other"@
    } else if code == 304 {
        "Not Modified"@
    } else if code == 305 {
        "Use Proxy"@
    } else if code == 307 {
        "Temporary Redirect"@
    } else if code == 308 {
        "Permanent Redirect"@
    } else if code == 400 {
        "Bad Request"@
    } else if code == 401 {
        "Unauthorized"@
    } else if code == 402 {
        "Payment Required"@
    } else if code == 403 {
        "Forbidden"@
    } else if code == 404 {
        "Not Found"@
    } else if code == 405 {
        "Method Not Allowed"@
    } else if code == 406 {
        "Not Acceptable"@
    } else if code == 407 {
        "Proxy Authentication Required"@
    } else if code == 408 {
        "Request Timeout"@
    } else if code == 409 {
        "Conflict"@
    } else if code == 410 {
        "Gone"@
    } else if code == 411 {
        "Length Required"@
    } else if code == 412 {
        "Precondition Failed"@
    } else if code == 413 {
        "Payload Too Large"@
    } else if code == 414 {
        "URI Too Long"@
    } else if code == 415 {
        "Unsupported Media Type"@
    } else if code == 416 {
        "Range Not Satisfiable"@
    } else if code == 417 {
        "Expectation Failed"@
    } else if code == 418 {
        "I'm a teapot"@
    } else if code == 421 {
        "Misdirected Request"@
    } else if code == 422 {
        "Unprocessable Entity"@
    } else if code == 423 {
        "Locked"@
    } else if code == 424 {
        "Failed Dependency"@
    } else if code == 425 {
        "Too Early"@
    } else if code == 426 {
        "Upgrade Required"@
    } else if code == 428 {
        "Precondition Required"@
    } else if code == 429 {
        "Too Many Requests"@
    } else if code == 431 {
        "Request Header Fields Too Large"@
    } else if code == 451 {
        "Unavailable For Legal Reasons"@
    } else if code == 500 {
        "Internal Server Error"@
    } else if code == 501 {
        "Not Implemented"@
    } else if code == 502 {
        "Bad Gateway"@
    } else if code == 503 {
        "Service Unavailable"@
    } else if code == 504 {
        "Gateway Timeout"@
    } else if code == 505 {
        "HTTP Version Not Supported"@
    } else if code == 506 {
        "Variant Also Negotiates"@
    } else if code == 507 {
        "Insufficient Storage"@
    } else if code == 508 {
        "Loop Detected"@
    } else if code == 510 {
        "Not Extended"@
    } else if code == 511 {
        "Network Authentication Required"@
    } else {
        "<unknown status code>"@
    }
}

fn reason_text(code: u16) -> (r: &'static str)
    ensures
        r@ == spec_reason(code),
{
    if false {
        ""
    } else if code == 100 {
        "Continue"
    } else if code == 101 {
        "Switching Protocols"
    } else if code == 102 {
        "Processing"
    } else if code == 103 {
        "Early Hints"
    } else if code == 200 {
        "OK"
    } else if code == 201 {
        "Created"
    } else if code == 202 {
        "Accepted"
    } else if code == 203 {
        "Non Authoritative Information"
    } else if code == 204 {
        "No Content"
    } else if code == 205 {
        "Reset Content"
    } else if code == 206 {
        "Partial Content"
    } else if code == 207 {
        "Multi-Status"
    } else if code == 208 {
        "Already Reported"
    } else if code == 226 {
        "IM Used"
    } else if code == 300 {
        "Multiple Choices"
    } else if code == 301 {
        "Moved Permanently"
    } else if code == 302 {
        "Found"
    } else if code == 303 {
        "See Other"
    } else if code == 304 {
        "Not Modified"
    } else if code == 305 {
        "Use Proxy"
    } else if code == 307 {
        "Temporary Redirect"
    } else if code == 308 {
        "Permanent Redirect"
    } else if code == 400 {
        "Bad Request"
    } else if code == 401 {
        "Unauthorized"
    } else if code == 402 {
        "Payment Required"
    } else if code == 403 {
        "Forbidden"
    } else if code == 404 {
        "Not Found"
    } else if code == 405 {
        "Method Not Allowed"
    } else if code == 406 {
        "Not Acceptable"
    } else if code == 407 {
        "Proxy Authentication Required"
    } else if code == 408 {
        "Request Timeout"
    } else if code == 409 {
        "Conflict"
    } else if code == 410 {
        "Gone"
    } else if code == 411 {
        "Length Required"
    } else if code == 412 {
        "Precondition Failed"
    } else if code == 413 {
        "Payload Too Large"
    } else if code == 414 {
        "URI Too Long"
    } else if code == 415 {
        "Unsupported Media Type"
    } else if code == 416 {
        "Range Not Satisfiable"
    } else if code == 417 {
        "Expectation Failed"
    } else if code == 418 {
        "I'm a teapot"
    } else if code == 421 {
        "Misdirected Request"
    } else if code == 422 {
        "Unprocessable Entity"
    } else if code == 423 {
        "Locked"
    } else if code == 424 {
        "Failed Dependency"
    } else if code == 425 {
        "Too Early"
    } else if code == 426 {
        "Upgrade Required"
    } else if code == 428 {
        "Precondition Required"
    } else if code == 429 {
        "Too Many Requests"
    } else if code == 431 {
        "Request Header Fields Too Large"
    } else if code == 451 {
        "Unavailable For Legal Reasons"
    } else if code == 500 {
        "Internal Server Error"
    } else if code == 501 {
        "Not Implemented"
    } else if code == 502 {
        "Bad Gateway"
    } else if code == 503 {
        "Service Unavailable"
    } else if code == 504 {
        "Gateway Timeout"
    } else if code == 505 {
        "HTTP Version Not Supported"
    } else if code == 506 {
        "Variant Also Negotiates"
    } else if code == 507 {
        "Insufficient Storage"
    } else if code == 508 {
        "Loop Detected"
    } else if code == 510 {
        "Not Extended"
    } else if code == 511 {
        "Network Authentication Required"
    } else {
        "<unknown status code>"
    }
}

/// The decimal digit character for one digit value.
pub open spec fn spec_digit(d: int) -> Seq<char> {
    if d == 0 { "0"@ } else if d == 1 { "1"@ } else if d == 2 { "2"@ } else if d == 3 { "3"@ }
    else if d == 4 { "4"@ } else if d == 5 { "5"@ } else if d == 6 { "6"@ } else if d == 7 { "7"@ }
    else if d == 8 { "8"@ } else { "9"@ }
}

fn digit_text(d: u16) -> (r: &'static str)
    requires
        d <= 9,
    ensures
        r@ == spec_digit(d as int),
{
    if d == 0 { "0" } else if d == 1 { "1" } else if d == 2 { "2" } else if d == 3 { "3" }
    else if d == 4 { "4" } else if d == 5 { "5" } else if d == 6 { "6" } else if d == 7 { "7" }
    else if d == 8 { "8" } else { "9" }
}
/// The canonical status line `"<code> <reason>"`.
pub open spec fn status_line(code: u16) -> Seq<char> {
    spec_digit(code as int / 100) + spec_digit((code as int / 10) % 10) + spec_digit(
        code as int % 10,
    ) + " "@ + spec_reason(code)
}

/// Renders the canonical text for a status code.
pub fn status_text(code: u16) -> (r: String)
    requires
        100 <= code <= 999,
    ensures
        r@ == status_line(code),
{
    let mut s = String::from_str(digit_text(code / 100));
    s.append(digit_text((code / 10) % 10));
    s.append(digit_text(code % 10));
    s.append(" ");
    s.append(reason_text(code));
    s
}

/// Raw transfer results accumulating toward a single build: identifiers,
/// response headers, body bytes, status, the engine-reported header byte
/// size, wall-clock start and end milliseconds, and the negotiated protocol.
pub struct ResponseHandler {
    pub id: i64,
    pub headers: HeaderMap,
    pub body: Vec<u8>,
    pub status: u16,
    pub header_size: u64,
    pub start_time: i64,
    pub end_time: i64,
    pub version: Protocol,
}

impl ResponseHandler {
    /// The captured results admit a build: the engine reported a status in
    /// the three-digit range and the total size fits the size type.
    pub open spec fn wf(&self) -> bool {
        &&& self.header_size + self.body@.len() <= u64::MAX
        &&& 100 <= self.status <= 999
    }

    /// Captures raw transfer results for one build.
    pub fn new(
        id: i64,
        headers: HeaderMap,
        body: Vec<u8>,
        status: u16,
        header_size: u64,
        start_time: i64,
        end_time: i64,
        version: Protocol,
    ) -> (r: ResponseHandler)
        requires
            header_size + body@.len() <= u64::MAX,
            100 <= status <= 999,
        ensures
            r == (ResponseHandler { id, headers, body, status, header_size, start_time, end_time, version }),
            r.wf(),
    {
        ResponseHandler { id, headers, body, status, header_size, start_time, end_time, version }
    }

    /// Builds the finished response, consuming the handler: classifies the
    /// body media type from the response headers, computes sizes (the header
    /// size is trusted engine input, never recomputed) and timing, renders
    /// the canonical status text, and assembles the value. Fails only when a
    /// timestamp predates the epoch, and yields either a fully valid
    /// response or an error, never a partial value.
    pub fn build(self) -> (r: Result<Response, RelayError>)
        requires
            self.wf(),
        ensures
            r is Ok <==> self.start_time >= 0 && self.end_time >= 0,
            r is Err ==> r->Err_0 is Parse,
            r is Ok ==> {
                let resp = r->Ok_0;
                &&& resp.id == self.id
                &&& resp.status == self.status
                &&& resp.status_text@ == status_line(self.status)
                &&& resp.protocol == self.version
                &&& resp.headers == self.headers
                &&& resp.cookies is None
                &&& resp.content.body == self.body
                &&& resp.content.media_type.deep_view() == classify_headers(self.headers@)
                &&& resp.meta.timing == (TimingInfo {
                    start: self.start_time as u64,
                    end: self.end_time as u64,
                })
                &&& resp.meta.size.spec_headers() == self.header_size
                &&& resp.meta.size.spec_body() == self.body@.len()
                &&& resp.meta.size.spec_total() == self.header_size + self.body@.len()
                &&& resp.meta.size.wf()
            },
    {
        let media_type = determine_media_type(&self.headers);
        let timing = match calculate_timing(self.start_time, self.end_time) {
            Result::Ok(t) => t,
            Result::Err(e) => {
                return Result::Err(e);
            },
        };
        let body_len = self.body.len() as u64;
        let size = SizeInfo::new(self.header_size, body_len);
        let status_text = status_text(self.status);
        Result::Ok(
            Response {
                id: self.id,
                status: self.status,
                status_text,
                protocol: self.version,
                headers: self.headers,
                cookies: Option::None,
                content: ResponseBody { body: self.body, media_type },
                meta: ResponseMeta { timing, size },
            },
        )
    }
}

} // verus!

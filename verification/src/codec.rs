//! Wire codec for the taxonomy: encoding into and decoding from the wire
//! document model, with proved round trips. Enum spellings and field names
//! are fixed exactly; external consumers key on them.

use vstd::prelude::*;

use crate::error::RelayError;
use crate::interop::{
    media_name, media_wf, AuthType, AuthTypeV, CertificateConfig, CertificateConfigV, CertificateType,
    CertificateTypeV, ContentType, ContentTypeV, Cookie, CookieV, FormEntry, FormEntryV,
    FormValue, FormValueV, HeaderEntry, HeaderEntryV, HeaderMap, SecurityConfig,
    SecurityConfigV,
    UrlPair, UrlPairV,
    DigestAlgorithm, DigestQop, MediaType, MediaTypeV, Protocol, ProxyAuth, ProxyAuthV,
    ProxyConfig, ProxyConfigV, Request, RequestV, Response, ResponseBody, ResponseBodyV,
    ResponseMeta, ResponseV,
    SameSite, SizeInfo, TimingInfo,
};
use crate::wire::{
    decode_error, get_i64_field, get_opt_bool_field, get_opt_str_field, get_str_field, get_u64_field, json_clone, json_view,
    json_view_fields, json_view_seq, lemma_fields_view_index, lemma_seq_view_index, lookup,
    obj_get, spec_get_i64, spec_get_opt_bool, spec_get_opt_str, spec_get_str, spec_get_u64,
    str_eqx, JsonV,
    JsonValue,
};

verus! {

broadcast use vstd::string::group_string_axioms;

/// In a field list whose first `i` names differ from the name of field `i`,
/// looking that name up finds exactly field `i`'s value.
pub proof fn lemma_lookup_at(fields: Seq<(Seq<char>, JsonV)>, i: int)
    requires
        0 <= i < fields.len(),
        forall|j: int| 0 <= j < i ==> (#[trigger] fields[j].0) != fields[i].0,
    ensures
        lookup(fields, fields[i].0) == Option::Some(fields[i].1),
    decreases i,
{
    if i > 0 {
        lemma_lookup_at(fields.drop_first(), i - 1);
    }
}

/// The wire spelling of a protocol version.
pub open spec fn protocol_name(p: Protocol) -> Seq<char> {
    match p {
        Protocol::Http10 => "http/1.0"@,
        Protocol::Http11 => "http/1.1"@,
        Protocol::Http2 => "http/2"@,
        Protocol::Http3 => "http/3"@,
    }
}

pub open spec fn spec_enc_protocol(p: Protocol) -> JsonV {
    JsonV::Str(protocol_name(p))
}

pub open spec fn spec_dec_protocol(d: JsonV) -> Option<Protocol> {
    match d {
        JsonV::Str(s) => if s == "http/1.0"@ {
            Option::Some(Protocol::Http10)
        } else if s == "http/1.1"@ {
            Option::Some(Protocol::Http11)
        } else if s == "http/2"@ {
            Option::Some(Protocol::Http2)
        } else if s == "http/3"@ {
            Option::Some(Protocol::Http3)
        } else {
            Option::None
        },
        _ => Option::None,
    }
}

/// Law: every protocol value decodes back from its encoding.
pub proof fn lemma_protocol_round_trip(p: Protocol)
    ensures
        spec_dec_protocol(spec_enc_protocol(p)) == Option::Some(p),
{
    reveal_strlit("http/1.0");
    reveal_strlit("http/1.1");
    reveal_strlit("http/2");
    reveal_strlit("http/3");
    assert(("http/1.1"@)[7] != ("http/1.0"@)[7]);
    assert(("http/3"@)[5] != ("http/2"@)[5]);
}

pub fn encode_protocol(p: &Protocol) -> (d: JsonValue)
    ensures
        json_view(d) == spec_enc_protocol(*p),
{
    match p {
        Protocol::Http10 => JsonValue::Str(String::from_str("http/1.0")),
        Protocol::Http11 => JsonValue::Str(String::from_str("http/1.1")),
        Protocol::Http2 => JsonValue::Str(String::from_str("http/2")),
        Protocol::Http3 => JsonValue::Str(String::from_str("http/3")),
    }
}

pub fn decode_protocol(d: &JsonValue) -> (r: Result<Protocol, RelayError>)
    ensures
        r is Ok ==> spec_dec_protocol(json_view(*d)) == Option::Some(r->Ok_0),
        r is Err ==> spec_dec_protocol(json_view(*d)) is None && r->Err_0 is Parse,
{
    match d {
        JsonValue::Str(s) => {
            if str_eqx(s.as_str(), "http/1.0") {
                Result::Ok(Protocol::Http10)
            } else if str_eqx(s.as_str(), "http/1.1") {
                Result::Ok(Protocol::Http11)
            } else if str_eqx(s.as_str(), "http/2") {
                Result::Ok(Protocol::Http2)
            } else if str_eqx(s.as_str(), "http/3") {
                Result::Ok(Protocol::Http3)
            } else {
                Result::Err(decode_error("protocol"))
            }
        },
        _ => Result::Err(decode_error("protocol")),
    }
}

/// The wire spelling of a digest algorithm.
pub open spec fn algorithm_name(a: DigestAlgorithm) -> Seq<char> {
    match a {
        DigestAlgorithm::Md5 => "MD5"@,
        DigestAlgorithm::Sha256 => "SHA-256"@,
        DigestAlgorithm::Sha512 => "SHA-512"@,
    }
}

pub open spec fn spec_algorithm_of(s: Seq<char>) -> Option<DigestAlgorithm> {
    if s == "MD5"@ {
        Option::Some(DigestAlgorithm::Md5)
    } else if s == "SHA-256"@ {
        Option::Some(DigestAlgorithm::Sha256)
    } else if s == "SHA-512"@ {
        Option::Some(DigestAlgorithm::Sha512)
    } else {
        Option::None
    }
}

/// Law: every digest algorithm decodes back from its spelling.
pub proof fn lemma_algorithm_round_trip(a: DigestAlgorithm)
    ensures
        spec_algorithm_of(algorithm_name(a)) == Option::Some(a),
{
    reveal_strlit("MD5");
    reveal_strlit("SHA-256");
    reveal_strlit("SHA-512");
    assert(("MD5"@).len() == 3);
    assert(("SHA-256"@).len() == 7);
    assert(("SHA-512"@).len() == 7);
    assert(("SHA-512"@)[4] != ("SHA-256"@)[4]);
}

fn algorithm_text(a: &DigestAlgorithm) -> (r: String)
    ensures
        r@ == algorithm_name(*a),
{
    match a {
        DigestAlgorithm::Md5 => String::from_str("MD5"),
        DigestAlgorithm::Sha256 => String::from_str("SHA-256"),
        DigestAlgorithm::Sha512 => String::from_str("SHA-512"),
    }
}

fn algorithm_of_text(s: &str) -> (r: Option<DigestAlgorithm>)
    ensures
        r == spec_algorithm_of(s@),
{
    if str_eqx(s, "MD5") {
        Option::Some(DigestAlgorithm::Md5)
    } else if str_eqx(s, "SHA-256") {
        Option::Some(DigestAlgorithm::Sha256)
    } else if str_eqx(s, "SHA-512") {
        Option::Some(DigestAlgorithm::Sha512)
    } else {
        Option::None
    }
}

/// The wire spelling of a quality-of-protection directive.
pub open spec fn qop_name(q: DigestQop) -> Seq<char> {
    match q {
        DigestQop::Auth => "auth"@,
        DigestQop::AuthInt => "auth-int"@,
    }
}

pub open spec fn spec_qop_of(s: Seq<char>) -> Option<DigestQop> {
    if s == "auth"@ {
        Option::Some(DigestQop::Auth)
    } else if s == "auth-int"@ {
        Option::Some(DigestQop::AuthInt)
    } else {
        Option::None
    }
}

/// Law: every quality-of-protection directive decodes back from its
/// spelling.
pub proof fn lemma_qop_round_trip(q: DigestQop)
    ensures
        spec_qop_of(qop_name(q)) == Option::Some(q),
{
    reveal_strlit("auth");
    reveal_strlit("auth-int");
    assert(("auth"@).len() == 4);
    assert(("auth-int"@).len() == 8);
}

fn qop_text(q: &DigestQop) -> (r: String)
    ensures
        r@ == qop_name(*q),
{
    match q {
        DigestQop::Auth => String::from_str("auth"),
        DigestQop::AuthInt => String::from_str("auth-int"),
    }
}

fn qop_of_text(s: &str) -> (r: Option<DigestQop>)
    ensures
        r == spec_qop_of(s@),
{
    if str_eqx(s, "auth") {
        Option::Some(DigestQop::Auth)
    } else if str_eqx(s, "auth-int") {
        Option::Some(DigestQop::AuthInt)
    } else {
        Option::None
    }
}

/// The wire spelling of a same-site directive.
pub open spec fn same_site_name(v: SameSite) -> Seq<char> {
    match v {
        SameSite::Strict => "Strict"@,
        SameSite::Lax => "Lax"@,
        SameSite::NoneAttr => "None"@,
    }
}

pub open spec fn spec_same_site_of(s: Seq<char>) -> Option<SameSite> {
    if s == "Strict"@ {
        Option::Some(SameSite::Strict)
    } else if s == "Lax"@ {
        Option::Some(SameSite::Lax)
    } else if s == "None"@ {
        Option::Some(SameSite::NoneAttr)
    } else {
        Option::None
    }
}

/// Law: every same-site directive decodes back from its spelling.
pub proof fn lemma_same_site_round_trip(v: SameSite)
    ensures
        spec_same_site_of(same_site_name(v)) == Option::Some(v),
{
    reveal_strlit("Strict");
    reveal_strlit("Lax");
    reveal_strlit("None");
    assert(("Strict"@).len() == 6);
    assert(("Lax"@).len() == 3);
    assert(("None"@).len() == 4);
}

fn same_site_text(v: &SameSite) -> (r: String)
    ensures
        r@ == same_site_name(*v),
{
    match v {
        SameSite::Strict => String::from_str("Strict"),
        SameSite::Lax => String::from_str("Lax"),
        SameSite::NoneAttr => String::from_str("None"),
    }
}

fn same_site_of_text(s: &str) -> (r: Option<SameSite>)
    ensures
        r == spec_same_site_of(s@),
{
    if str_eqx(s, "Strict") {
        Option::Some(SameSite::Strict)
    } else if str_eqx(s, "Lax") {
        Option::Some(SameSite::Lax)
    } else if str_eqx(s, "None") {
        Option::Some(SameSite::NoneAttr)
    } else {
        Option::None
    }
}

pub open spec fn spec_enc_media(m: MediaTypeV) -> JsonV {
    JsonV::Str(media_name(m))
}

/// The media type a wire string reads as: a catalog member on its exact
/// canonical spelling, else the fallback member preserving the string.
pub open spec fn spec_media_of(s: Seq<char>) -> MediaTypeV {
    if s == "text/plain"@ {
        MediaTypeV::TextPlain
    } else if s == "text/html"@ {
        MediaTypeV::TextHtml
    } else if s == "text/css"@ {
        MediaTypeV::TextCss
    } else if s == "text/csv"@ {
        MediaTypeV::TextCsv
    } else if s == "application/json"@ {
        MediaTypeV::Json
    } else if s == "application/ld+json"@ {
        MediaTypeV::JsonLd
    } else if s == "application/xml"@ {
        MediaTypeV::Xml
    } else if s == "text/xml"@ {
        MediaTypeV::TextXml
    } else if s == "application/x-www-form-urlencoded"@ {
        MediaTypeV::FormUrlEncoded
    } else if s == "multipart/form-data"@ {
        MediaTypeV::MultipartFormData
    } else if s == "application/octet-stream"@ {
        MediaTypeV::OctetStream
    } else {
        MediaTypeV::Other(s)
    }
}

pub open spec fn spec_dec_media(d: JsonV) -> Option<MediaTypeV> {
    match d {
        JsonV::Str(s) => Option::Some(spec_media_of(s)),
        _ => Option::None,
    }
}

/// Whatever string arrives, the media type it reads as is well formed: the
/// fallback is only ever produced for a non-canonical spelling.
pub proof fn lemma_media_of_wf(s: Seq<char>)
    ensures
        media_wf(spec_media_of(s)),
{
}

/// Law: every well-formed media type — the fallback member with its
/// arbitrary string included — decodes back from its encoding, and decoding
/// never fails on a string.
pub proof fn lemma_media_round_trip(m: MediaTypeV)
    requires
        media_wf(m),
    ensures
        spec_dec_media(spec_enc_media(m)) == Option::Some(m),
{
    reveal_strlit("text/plain");
    reveal_strlit("text/html");
    reveal_strlit("text/css");
    reveal_strlit("text/csv");
    reveal_strlit("application/json");
    reveal_strlit("application/ld+json");
    reveal_strlit("application/xml");
    reveal_strlit("text/xml");
    reveal_strlit("application/x-www-form-urlencoded");
    reveal_strlit("multipart/form-data");
    reveal_strlit("application/octet-stream");
    assert(("text/plain"@).len() == 10);
    assert(("text/html"@).len() == 9);
    assert(("text/css"@).len() == 8);
    assert(("text/csv"@).len() == 8);
    assert(("application/json"@).len() == 16);
    assert(("application/ld+json"@).len() == 19);
    assert(("application/xml"@).len() == 15);
    assert(("text/xml"@).len() == 8);
    assert(("application/x-www-form-urlencoded"@).len() == 33);
    assert(("multipart/form-data"@).len() == 19);
    assert(("application/octet-stream"@).len() == 24);
    assert(("text/csv"@)[7] != ("text/css"@)[7]);
    assert(("text/xml"@)[5] != ("text/css"@)[5]);
    assert(("text/xml"@)[5] != ("text/csv"@)[5]);
    assert(("multipart/form-data"@)[0] != ("application/ld+json"@)[0]);
}

pub fn encode_media(m: &MediaType) -> (d: JsonValue)
    ensures
        json_view(d) == spec_enc_media(m.deep_view()),
{
    match m {
        MediaType::TextPlain => JsonValue::Str(String::from_str("text/plain")),
        MediaType::TextHtml => JsonValue::Str(String::from_str("text/html")),
        MediaType::TextCss => JsonValue::Str(String::from_str("text/css")),
        MediaType::TextCsv => JsonValue::Str(String::from_str("text/csv")),
        MediaType::Json => JsonValue::Str(String::from_str("application/json")),
        MediaType::JsonLd => JsonValue::Str(String::from_str("application/ld+json")),
        MediaType::Xml => JsonValue::Str(String::from_str("application/xml")),
        MediaType::TextXml => JsonValue::Str(String::from_str("text/xml")),
        MediaType::FormUrlEncoded => JsonValue::Str(
            String::from_str("application/x-www-form-urlencoded"),
        ),
        MediaType::MultipartFormData => JsonValue::Str(String::from_str("multipart/form-data")),
        MediaType::OctetStream => JsonValue::Str(String::from_str("application/octet-stream")),
        MediaType::Other(s) => JsonValue::Str(s.clone()),
    }
}

fn media_of_text(s: &String) -> (m: MediaType)
    ensures
        m.deep_view() == spec_media_of(s@),
{
    if str_eqx(s.as_str(), "text/plain") {
        MediaType::TextPlain
    } else if str_eqx(s.as_str(), "text/html") {
        MediaType::TextHtml
    } else if str_eqx(s.as_str(), "text/css") {
        MediaType::TextCss
    } else if str_eqx(s.as_str(), "text/csv") {
        MediaType::TextCsv
    } else if str_eqx(s.as_str(), "application/json") {
        MediaType::Json
    } else if str_eqx(s.as_str(), "application/ld+json") {
        MediaType::JsonLd
    } else if str_eqx(s.as_str(), "application/xml") {
        MediaType::Xml
    } else if str_eqx(s.as_str(), "text/xml") {
        MediaType::TextXml
    } else if str_eqx(s.as_str(), "application/x-www-form-urlencoded") {
        MediaType::FormUrlEncoded
    } else if str_eqx(s.as_str(), "multipart/form-data") {
        MediaType::MultipartFormData
    } else if str_eqx(s.as_str(), "application/octet-stream") {
        MediaType::OctetStream
    } else {
        MediaType::Other(s.clone())
    }
}

/// Decodes a media type; an unrecognized string must not fail and reads as
/// the fallback member.
pub fn decode_media(d: &JsonValue) -> (r: Result<MediaType, RelayError>)
    ensures
        r is Ok ==> spec_dec_media(json_view(*d)) == Option::Some(r->Ok_0.deep_view())
            && media_wf(r->Ok_0.deep_view()),
        r is Err ==> spec_dec_media(json_view(*d)) is None && r->Err_0 is Parse,
{
    match d {
        JsonValue::Str(s) => {
            proof {
                lemma_media_of_wf(s@);
            }
            Result::Ok(media_of_text(s))
        },
        _ => Result::Err(decode_error("mediaType")),
    }
}

pub open spec fn spec_enc_timing(t: TimingInfo) -> JsonV {
    JsonV::Obj(seq![("start"@, JsonV::NumU(t.start)), ("end"@, JsonV::NumU(t.end))])
}

pub open spec fn spec_dec_timing(d: JsonV) -> Option<TimingInfo> {
    match d {
        JsonV::Obj(fields) => {
            let s = spec_get_u64(fields, "start"@);
            let e = spec_get_u64(fields, "end"@);
            if s is Some && e is Some {
                Option::Some(TimingInfo { start: s->Some_0, end: e->Some_0 })
            } else {
                Option::None
            }
        },
        _ => Option::None,
    }
}

/// Law: timing info decodes back from its encoding.
pub proof fn lemma_timing_round_trip(t: TimingInfo)
    ensures
        spec_dec_timing(spec_enc_timing(t)) == Option::Some(t),
{
    reveal_strlit("start");
    reveal_strlit("end");
    assert(("start"@).len() == 5);
    assert(("end"@).len() == 3);
    let fields = seq![("start"@, JsonV::NumU(t.start)), ("end"@, JsonV::NumU(t.end))];
    lemma_lookup_at(fields, 0);
    lemma_lookup_at(fields, 1);
}

pub fn encode_timing(t: &TimingInfo) -> (d: JsonValue)
    ensures
        json_view(d) == spec_enc_timing(*t),
{
    let mut fields: Vec<(String, JsonValue)> = Vec::new();
    fields.push((String::from_str("start"), JsonValue::NumU(t.start)));
    fields.push((String::from_str("end"), JsonValue::NumU(t.end)));
    proof {
        lemma_fields_view_index(fields@);
        assert(json_view_fields(fields@) =~= seq![
            ("start"@, JsonV::NumU(t.start)),
            ("end"@, JsonV::NumU(t.end)),
        ]);
    }
    JsonValue::Obj(fields)
}

pub fn decode_timing(d: &JsonValue) -> (r: Result<TimingInfo, RelayError>)
    ensures
        r is Ok ==> spec_dec_timing(json_view(*d)) == Option::Some(r->Ok_0),
        r is Err ==> spec_dec_timing(json_view(*d)) is None && r->Err_0 is Parse,
{
    match d {
        JsonValue::Obj(fields) => {
            let start = match get_u64_field(fields, "start") {
                Result::Ok(v) => v,
                Result::Err(e) => {
                    return Result::Err(e);
                },
            };
            let end = match get_u64_field(fields, "end") {
                Result::Ok(v) => v,
                Result::Err(e) => {
                    return Result::Err(e);
                },
            };
            Result::Ok(TimingInfo { start, end })
        },
        _ => Result::Err(decode_error("timing")),
    }
}

pub open spec fn spec_enc_size(s: SizeInfo) -> JsonV {
    JsonV::Obj(
        seq![
            ("headers"@, JsonV::NumU(s.spec_headers())),
            ("body"@, JsonV::NumU(s.spec_body())),
            ("total"@, JsonV::NumU(s.spec_total())),
        ],
    )
}

/// Size info decodes only when the recorded total is exactly the sum of its
/// parts, so the construction invariant survives the wire.
pub open spec fn spec_dec_size(d: JsonV) -> Option<(u64, u64, u64)> {
    match d {
        JsonV::Obj(fields) => {
            let h = spec_get_u64(fields, "headers"@);
            let b = spec_get_u64(fields, "body"@);
            let t = spec_get_u64(fields, "total"@);
            if h is Some && b is Some && t is Some && h->Some_0 + b->Some_0 <= u64::MAX
                && t->Some_0 == h->Some_0 + b->Some_0 {
                Option::Some((h->Some_0, b->Some_0, t->Some_0))
            } else {
                Option::None
            }
        },
        _ => Option::None,
    }
}

/// Law: well-formed size info decodes back from its encoding.
pub proof fn lemma_size_round_trip(s: SizeInfo)
    requires
        s.wf(),
    ensures
        spec_dec_size(spec_enc_size(s)) == Option::Some(
            (s.spec_headers(), s.spec_body(), s.spec_total()),
        ),
{
    reveal_strlit("headers");
    reveal_strlit("body");
    reveal_strlit("total");
    assert(("headers"@).len() == 7);
    assert(("body"@).len() == 4);
    assert(("total"@).len() == 5);
    let fields = seq![
        ("headers"@, JsonV::NumU(s.spec_headers())),
        ("body"@, JsonV::NumU(s.spec_body())),
        ("total"@, JsonV::NumU(s.spec_total())),
    ];
    lemma_lookup_at(fields, 0);
    lemma_lookup_at(fields, 1);
    lemma_lookup_at(fields, 2);
}

pub fn encode_size(s: &SizeInfo) -> (d: JsonValue)
    ensures
        json_view(d) == spec_enc_size(*s),
{
    let mut fields: Vec<(String, JsonValue)> = Vec::new();
    fields.push((String::from_str("headers"), JsonValue::NumU(s.headers())));
    fields.push((String::from_str("body"), JsonValue::NumU(s.body())));
    fields.push((String::from_str("total"), JsonValue::NumU(s.total())));
    proof {
        lemma_fields_view_index(fields@);
        assert(json_view_fields(fields@) =~= seq![
            ("headers"@, JsonV::NumU(s.spec_headers())),
            ("body"@, JsonV::NumU(s.spec_body())),
            ("total"@, JsonV::NumU(s.spec_total())),
        ]);
    }
    JsonValue::Obj(fields)
}

pub fn decode_size(d: &JsonValue) -> (r: Result<SizeInfo, RelayError>)
    ensures
        r is Ok ==> spec_dec_size(json_view(*d)) == Option::Some(
            (r->Ok_0.spec_headers(), r->Ok_0.spec_body(), r->Ok_0.spec_total()),
        ) && r->Ok_0.wf(),
        r is Err ==> spec_dec_size(json_view(*d)) is None && r->Err_0 is Parse,
{
    match d {
        JsonValue::Obj(fields) => {
            let headers = match get_u64_field(fields, "headers") {
                Result::Ok(v) => v,
                Result::Err(e) => {
                    return Result::Err(e);
                },
            };
            let body = match get_u64_field(fields, "body") {
                Result::Ok(v) => v,
                Result::Err(e) => {
                    return Result::Err(e);
                },
            };
            let total = match get_u64_field(fields, "total") {
                Result::Ok(v) => v,
                Result::Err(e) => {
                    return Result::Err(e);
                },
            };
            if body > u64::MAX - headers {
                return Result::Err(decode_error("total"));
            }
            if total != headers + body {
                return Result::Err(decode_error("total"));
            }
            Result::Ok(SizeInfo::new(headers, body))
        },
        _ => Result::Err(decode_error("size")),
    }
}

pub open spec fn spec_enc_meta(m: ResponseMeta) -> JsonV {
    JsonV::Obj(seq![("timing"@, spec_enc_timing(m.timing)), ("size"@, spec_enc_size(m.size))])
}

pub open spec fn spec_dec_meta(d: JsonV) -> Option<(TimingInfo, (u64, u64, u64))> {
    match d {
        JsonV::Obj(fields) => {
            let td = lookup(fields, "timing"@);
            let sd = lookup(fields, "size"@);
            if td is Some && sd is Some {
                let t = spec_dec_timing(td->Some_0);
                let s = spec_dec_size(sd->Some_0);
                if t is Some && s is Some {
                    Option::Some((t->Some_0, s->Some_0))
                } else {
                    Option::None
                }
            } else {
                Option::None
            }
        },
        _ => Option::None,
    }
}

/// Law: well-formed response metadata decodes back from its encoding.
pub proof fn lemma_meta_round_trip(m: ResponseMeta)
    requires
        m.size.wf(),
    ensures
        spec_dec_meta(spec_enc_meta(m)) == Option::Some(
            (m.timing, (m.size.spec_headers(), m.size.spec_body(), m.size.spec_total())),
        ),
{
    reveal_strlit("timing");
    reveal_strlit("size");
    assert(("timing"@).len() == 6);
    assert(("size"@).len() == 4);
    let fields = seq![("timing"@, spec_enc_timing(m.timing)), ("size"@, spec_enc_size(m.size))];
    lemma_lookup_at(fields, 0);
    lemma_lookup_at(fields, 1);
    lemma_timing_round_trip(m.timing);
    lemma_size_round_trip(m.size);
}

pub fn encode_meta(m: &ResponseMeta) -> (d: JsonValue)
    ensures
        json_view(d) == spec_enc_meta(*m),
{
    let mut fields: Vec<(String, JsonValue)> = Vec::new();
    fields.push((String::from_str("timing"), encode_timing(&m.timing)));
    fields.push((String::from_str("size"), encode_size(&m.size)));
    proof {
        lemma_fields_view_index(fields@);
        assert(json_view_fields(fields@) =~= seq![
            ("timing"@, spec_enc_timing(m.timing)),
            ("size"@, spec_enc_size(m.size)),
        ]);
    }
    JsonValue::Obj(fields)
}

pub fn decode_meta(d: &JsonValue) -> (r: Result<ResponseMeta, RelayError>)
    ensures
        r is Ok ==> spec_dec_meta(json_view(*d)) == Option::Some(
            (
                r->Ok_0.timing,
                (
                    r->Ok_0.size.spec_headers(),
                    r->Ok_0.size.spec_body(),
                    r->Ok_0.size.spec_total(),
                ),
            ),
        ) && r->Ok_0.size.wf(),
        r is Err ==> spec_dec_meta(json_view(*d)) is None && r->Err_0 is Parse,
{
    match d {
        JsonValue::Obj(fields) => {
            let timing = match obj_get(fields, "timing") {
                Option::Some(v) => match decode_timing(v) {
                    Result::Ok(t) => t,
                    Result::Err(e) => {
                        return Result::Err(e);
                    },
                },
                Option::None => {
                    return Result::Err(decode_error("timing"));
                },
            };
            let size = match obj_get(fields, "size") {
                Option::Some(v) => match decode_size(v) {
                    Result::Ok(s) => s,
                    Result::Err(e) => {
                        return Result::Err(e);
                    },
                },
                Option::None => {
                    return Result::Err(decode_error("size"));
                },
            };
            Result::Ok(ResponseMeta { timing, size })
        },
        _ => Result::Err(decode_error("meta")),
    }
}



/// The optional signed number under a field name: an absent field or a null
/// reads as no value.
pub open spec fn spec_get_opt_i64(fields: Seq<(Seq<char>, JsonV)>, name: Seq<char>) -> Option<
    Option<i64>,
> {
    match lookup(fields, name) {
        Option::None => Option::Some(Option::None),
        Option::Some(JsonV::Null) => Option::Some(Option::None),
        Option::Some(JsonV::NumI(n)) => Option::Some(Option::Some(n)),
        Option::Some(JsonV::NumU(n)) => if n <= i64::MAX as u64 {
            Option::Some(Option::Some(n as i64))
        } else {
            Option::None
        },
        _ => Option::None,
    }
}

fn get_opt_i64_field(fields: &Vec<(String, JsonValue)>, name: &str) -> (r: Result<
    Option<i64>,
    RelayError,
>)
    ensures
        r is Ok ==> spec_get_opt_i64(json_view_fields(fields@), name@) == Option::Some(r->Ok_0),
        r is Err ==> spec_get_opt_i64(json_view_fields(fields@), name@) is None && r->Err_0
            is Parse,
{
    match obj_get(fields, name) {
        Option::Some(v) => match v {
            JsonValue::NumI(n) => Result::Ok(Option::Some(*n)),
            JsonValue::NumU(n) => if *n <= 9223372036854775807u64 {
                Result::Ok(Option::Some(*n as i64))
            } else {
                Result::Err(decode_error(name))
            },
            JsonValue::Null => Result::Ok(Option::None),
            _ => Result::Err(decode_error(name)),
        },
        Option::None => Result::Ok(Option::None),
    }
}

/// The optional digest algorithm under a field name: absent or null reads as
/// no value, a canonical spelling as that algorithm.
pub open spec fn spec_get_opt_algorithm(fields: Seq<(Seq<char>, JsonV)>, name: Seq<char>) -> Option<
    Option<DigestAlgorithm>,
> {
    match lookup(fields, name) {
        Option::None => Option::Some(Option::None),
        Option::Some(JsonV::Null) => Option::Some(Option::None),
        Option::Some(JsonV::Str(s)) => match spec_algorithm_of(s) {
            Option::Some(a) => Option::Some(Option::Some(a)),
            Option::None => Option::None,
        },
        _ => Option::None,
    }
}

fn get_opt_algorithm_field(fields: &Vec<(String, JsonValue)>, name: &str) -> (r: Result<
    Option<DigestAlgorithm>,
    RelayError,
>)
    ensures
        r is Ok ==> spec_get_opt_algorithm(json_view_fields(fields@), name@) == Option::Some(
            r->Ok_0,
        ),
        r is Err ==> spec_get_opt_algorithm(json_view_fields(fields@), name@) is None && r->Err_0
            is Parse,
{
    match obj_get(fields, name) {
        Option::Some(v) => match v {
            JsonValue::Str(s) => match algorithm_of_text(s.as_str()) {
                Option::Some(a) => Result::Ok(Option::Some(a)),
                Option::None => Result::Err(decode_error(name)),
            },
            JsonValue::Null => Result::Ok(Option::None),
            _ => Result::Err(decode_error(name)),
        },
        Option::None => Result::Ok(Option::None),
    }
}

/// The optional quality-of-protection directive under a field name.
pub open spec fn spec_get_opt_qop(fields: Seq<(Seq<char>, JsonV)>, name: Seq<char>) -> Option<
    Option<DigestQop>,
> {
    match lookup(fields, name) {
        Option::None => Option::Some(Option::None),
        Option::Some(JsonV::Null) => Option::Some(Option::None),
        Option::Some(JsonV::Str(s)) => match spec_qop_of(s) {
            Option::Some(q) => Option::Some(Option::Some(q)),
            Option::None => Option::None,
        },
        _ => Option::None,
    }
}

fn get_opt_qop_field(fields: &Vec<(String, JsonValue)>, name: &str) -> (r: Result<
    Option<DigestQop>,
    RelayError,
>)
    ensures
        r is Ok ==> spec_get_opt_qop(json_view_fields(fields@), name@) == Option::Some(r->Ok_0),
        r is Err ==> spec_get_opt_qop(json_view_fields(fields@), name@) is None && r->Err_0
            is Parse,
{
    match obj_get(fields, name) {
        Option::Some(v) => match v {
            JsonValue::Str(s) => match qop_of_text(s.as_str()) {
                Option::Some(q) => Result::Ok(Option::Some(q)),
                Option::None => Result::Err(decode_error(name)),
            },
            JsonValue::Null => Result::Ok(Option::None),
            _ => Result::Err(decode_error(name)),
        },
        Option::None => Result::Ok(Option::None),
    }
}

/// The optional same-site directive under a field name.
pub open spec fn spec_get_opt_same_site(fields: Seq<(Seq<char>, JsonV)>, name: Seq<char>) -> Option<
    Option<SameSite>,
> {
    match lookup(fields, name) {
        Option::None => Option::Some(Option::None),
        Option::Some(JsonV::Null) => Option::Some(Option::None),
        Option::Some(JsonV::Str(s)) => match spec_same_site_of(s) {
            Option::Some(v) => Option::Some(Option::Some(v)),
            Option::None => Option::None,
        },
        _ => Option::None,
    }
}

fn get_opt_same_site_field(fields: &Vec<(String, JsonValue)>, name: &str) -> (r: Result<
    Option<SameSite>,
    RelayError,
>)
    ensures
        r is Ok ==> spec_get_opt_same_site(json_view_fields(fields@), name@) == Option::Some(
            r->Ok_0,
        ),
        r is Err ==> spec_get_opt_same_site(json_view_fields(fields@), name@) is None && r->Err_0
            is Parse,
{
    match obj_get(fields, name) {
        Option::Some(v) => match v {
            JsonValue::Str(s) => match same_site_of_text(s.as_str()) {
                Option::Some(q) => Result::Ok(Option::Some(q)),
                Option::None => Result::Err(decode_error(name)),
            },
            JsonValue::Null => Result::Ok(Option::None),
            _ => Result::Err(decode_error(name)),
        },
        Option::None => Result::Ok(Option::None),
    }
}

/// The wire form of an optional string: the string, or null for absence.
pub open spec fn spec_enc_opt_str(o: Option<Seq<char>>) -> JsonV {
    match o {
        Option::Some(s) => JsonV::Str(s),
        Option::None => JsonV::Null,
    }
}

fn enc_opt_str(o: &Option<String>) -> (d: JsonValue)
    ensures
        json_view(d) == spec_enc_opt_str(o.deep_view()),
{
    match o {
        Option::Some(s) => JsonValue::Str(s.clone()),
        Option::None => JsonValue::Null,
    }
}

pub open spec fn spec_enc_auth(a: AuthTypeV) -> JsonV {
    match a {
        AuthTypeV::NoAuth => JsonV::Obj(seq![("kind"@, JsonV::Str("none"@))]),
        AuthTypeV::Basic { username, password } => JsonV::Obj(
            seq![
                ("kind"@, JsonV::Str("basic"@)),
                ("username"@, JsonV::Str(username)),
                ("password"@, JsonV::Str(password)),
            ],
        ),
        AuthTypeV::Bearer { token } => JsonV::Obj(
            seq![("kind"@, JsonV::Str("bearer"@)), ("token"@, JsonV::Str(token))],
        ),
        AuthTypeV::Digest {
            username,
            password,
            realm,
            nonce,
            opaque,
            algorithm,
            qop,
            nc,
            cnonce,
        } => {
            let alg_doc = match algorithm {
                Option::Some(x) => JsonV::Str(algorithm_name(x)),
                Option::None => JsonV::Null,
            };
            let qop_doc = match qop {
                Option::Some(x) => JsonV::Str(qop_name(x)),
                Option::None => JsonV::Null,
            };
            JsonV::Obj(
                seq![
                    ("kind"@, JsonV::Str("digest"@)),
                    ("username"@, JsonV::Str(username)),
                    ("password"@, JsonV::Str(password)),
                    ("realm"@, spec_enc_opt_str(realm)),
                    ("nonce"@, spec_enc_opt_str(nonce)),
                    ("opaque"@, spec_enc_opt_str(opaque)),
                    ("algorithm"@, alg_doc),
                    ("qop"@, qop_doc),
                    ("nc"@, spec_enc_opt_str(nc)),
                    ("cnonce"@, spec_enc_opt_str(cnonce)),
                ],
            )
        },
    }
}

pub open spec fn spec_dec_auth(d: JsonV) -> Option<AuthTypeV> {
    match d {
        JsonV::Obj(fields) => match spec_get_str(fields, "kind"@) {
            Option::Some(k) => if k == "none"@ {
                Option::Some(AuthTypeV::NoAuth)
            } else if k == "basic"@ {
                let u = spec_get_str(fields, "username"@);
                let p = spec_get_str(fields, "password"@);
                if u is Some && p is Some {
                    Option::Some(
                        AuthTypeV::Basic { username: u->Some_0, password: p->Some_0 },
                    )
                } else {
                    Option::None
                }
            } else if k == "bearer"@ {
                let t = spec_get_str(fields, "token"@);
                if t is Some {
                    Option::Some(AuthTypeV::Bearer { token: t->Some_0 })
                } else {
                    Option::None
                }
            } else if k == "digest"@ {
                let u = spec_get_str(fields, "username"@);
                let p = spec_get_str(fields, "password"@);
                let realm = spec_get_opt_str(fields, "realm"@);
                let nonce = spec_get_opt_str(fields, "nonce"@);
                let opaque = spec_get_opt_str(fields, "opaque"@);
                let algorithm = spec_get_opt_algorithm(fields, "algorithm"@);
                let qop = spec_get_opt_qop(fields, "qop"@);
                let nc = spec_get_opt_str(fields, "nc"@);
                let cnonce = spec_get_opt_str(fields, "cnonce"@);
                if u is Some && p is Some && realm is Some && nonce is Some && opaque is Some
                    && algorithm is Some && qop is Some && nc is Some && cnonce is Some {
                    Option::Some(
                        AuthTypeV::Digest {
                            username: u->Some_0,
                            password: p->Some_0,
                            realm: realm->Some_0,
                            nonce: nonce->Some_0,
                            opaque: opaque->Some_0,
                            algorithm: algorithm->Some_0,
                            qop: qop->Some_0,
                            nc: nc->Some_0,
                            cnonce: cnonce->Some_0,
                        },
                    )
                } else {
                    Option::None
                }
            } else {
                Option::None
            },
            _ => Option::None,
        },
        _ => Option::None,
    }
}

/// Law: every authentication value — a digest challenge with any mix of
/// absent optional fields included — decodes back from its encoding.
#[verifier::rlimit(60)]
pub proof fn lemma_auth_round_trip(a: AuthTypeV)
    ensures
        spec_dec_auth(spec_enc_auth(a)) == Option::Some(a),
{
    reveal_strlit("kind");
    reveal_strlit("none");
    reveal_strlit("basic");
    reveal_strlit("bearer");
    reveal_strlit("digest");
    reveal_strlit("username");
    reveal_strlit("password");
    reveal_strlit("token");
    reveal_strlit("realm");
    reveal_strlit("nonce");
    reveal_strlit("opaque");
    reveal_strlit("algorithm");
    reveal_strlit("qop");
    reveal_strlit("nc");
    reveal_strlit("cnonce");
    assert(("kind"@).len() == 4);
    assert(("none"@).len() == 4);
    assert(("basic"@).len() == 5);
    assert(("bearer"@).len() == 6);
    assert(("digest"@).len() == 6);
    assert(("username"@).len() == 8);
    assert(("password"@).len() == 8);
    assert(("token"@).len() == 5);
    assert(("realm"@).len() == 5);
    assert(("nonce"@).len() == 5);
    assert(("opaque"@).len() == 6);
    assert(("algorithm"@).len() == 9);
    assert(("qop"@).len() == 3);
    assert(("nc"@).len() == 2);
    assert(("cnonce"@).len() == 6);
    assert(("bearer"@)[0] != ("digest"@)[0]);
    assert(("username"@)[0] != ("password"@)[0]);
    assert(("realm"@)[0] != ("nonce"@)[0]);
    assert(("token"@)[0] != ("realm"@)[0]);
    assert(("token"@)[0] != ("nonce"@)[0]);
    assert(("opaque"@)[0] != ("cnonce"@)[0]);
    assert(("opaque"@)[0] != ("bearer"@)[0] && ("cnonce"@)[0] != ("bearer"@)[0]);
    assert(("opaque"@)[0] != ("digest"@)[0] && ("cnonce"@)[0] != ("digest"@)[0]);
    assert(("none"@)[0] != ("kind"@)[0]);
    match a {
        AuthTypeV::NoAuth => {
            let fields = seq![("kind"@, JsonV::Str("none"@))];
            lemma_lookup_at(fields, 0);
        },
        AuthTypeV::Basic { username, password } => {
            let fields = seq![
                ("kind"@, JsonV::Str("basic"@)),
                ("username"@, JsonV::Str(username)),
                ("password"@, JsonV::Str(password)),
            ];
            lemma_lookup_at(fields, 0);
            lemma_lookup_at(fields, 1);
            lemma_lookup_at(fields, 2);
        },
        AuthTypeV::Bearer { token } => {
            let fields = seq![("kind"@, JsonV::Str("bearer"@)), ("token"@, JsonV::Str(token))];
            lemma_lookup_at(fields, 0);
            lemma_lookup_at(fields, 1);
        },
        AuthTypeV::Digest {
            username,
            password,
            realm,
            nonce,
            opaque,
            algorithm,
            qop,
            nc,
            cnonce,
        } => {
            let alg_doc = match algorithm {
                Option::Some(x) => JsonV::Str(algorithm_name(x)),
                Option::None => JsonV::Null,
            };
            let qop_doc = match qop {
                Option::Some(x) => JsonV::Str(qop_name(x)),
                Option::None => JsonV::Null,
            };
            let fields = seq![
                ("kind"@, JsonV::Str("digest"@)),
                ("username"@, JsonV::Str(username)),
                ("password"@, JsonV::Str(password)),
                ("realm"@, spec_enc_opt_str(realm)),
                ("nonce"@, spec_enc_opt_str(nonce)),
                ("opaque"@, spec_enc_opt_str(opaque)),
                ("algorithm"@, alg_doc),
                ("qop"@, qop_doc),
                ("nc"@, spec_enc_opt_str(nc)),
                ("cnonce"@, spec_enc_opt_str(cnonce)),
            ];
            lemma_lookup_at(fields, 0);
            lemma_lookup_at(fields, 1);
            lemma_lookup_at(fields, 2);
            lemma_lookup_at(fields, 3);
            lemma_lookup_at(fields, 4);
            lemma_lookup_at(fields, 5);
            lemma_lookup_at(fields, 6);
            lemma_lookup_at(fields, 7);
            lemma_lookup_at(fields, 8);
            lemma_lookup_at(fields, 9);
            match algorithm {
                Option::Some(x) => lemma_algorithm_round_trip(x),
                Option::None => (),
            }
            match qop {
                Option::Some(x) => lemma_qop_round_trip(x),
                Option::None => (),
            }
        },
    }
}

pub fn encode_auth(a: &AuthType) -> (d: JsonValue)
    ensures
        json_view(d) == spec_enc_auth(a.deep_view()),
{
    match a {
        AuthType::NoAuth => {
            let mut fields: Vec<(String, JsonValue)> = Vec::new();
            fields.push((String::from_str("kind"), JsonValue::Str(String::from_str("none"))));
            proof {
                lemma_fields_view_index(fields@);
                assert(json_view_fields(fields@) =~= seq![("kind"@, JsonV::Str("none"@))]);
            }
            JsonValue::Obj(fields)
        },
        AuthType::Basic { username, password } => {
            let mut fields: Vec<(String, JsonValue)> = Vec::new();
            fields.push((String::from_str("kind"), JsonValue::Str(String::from_str("basic"))));
            fields.push((String::from_str("username"), JsonValue::Str(username.clone())));
            fields.push((String::from_str("password"), JsonValue::Str(password.clone())));
            proof {
                lemma_fields_view_index(fields@);
                assert(json_view_fields(fields@) =~= seq![
                    ("kind"@, JsonV::Str("basic"@)),
                    ("username"@, JsonV::Str(username@)),
                    ("password"@, JsonV::Str(password@)),
                ]);
            }
            JsonValue::Obj(fields)
        },
        AuthType::Bearer { token } => {
            let mut fields: Vec<(String, JsonValue)> = Vec::new();
            fields.push((String::from_str("kind"), JsonValue::Str(String::from_str("bearer"))));
            fields.push((String::from_str("token"), JsonValue::Str(token.clone())));
            proof {
                lemma_fields_view_index(fields@);
                assert(json_view_fields(fields@) =~= seq![
                    ("kind"@, JsonV::Str("bearer"@)),
                    ("token"@, JsonV::Str(token@)),
                ]);
            }
            JsonValue::Obj(fields)
        },
        AuthType::Digest { username, password, realm, nonce, opaque, algorithm, qop, nc, cnonce } => {
            let alg_val = match algorithm {
                Option::Some(x) => JsonValue::Str(algorithm_text(x)),
                Option::None => JsonValue::Null,
            };
            let qop_val = match qop {
                Option::Some(x) => JsonValue::Str(qop_text(x)),
                Option::None => JsonValue::Null,
            };
            let mut fields: Vec<(String, JsonValue)> = Vec::new();
            fields.push((String::from_str("kind"), JsonValue::Str(String::from_str("digest"))));
            fields.push((String::from_str("username"), JsonValue::Str(username.clone())));
            fields.push((String::from_str("password"), JsonValue::Str(password.clone())));
            fields.push((String::from_str("realm"), enc_opt_str(realm)));
            fields.push((String::from_str("nonce"), enc_opt_str(nonce)));
            fields.push((String::from_str("opaque"), enc_opt_str(opaque)));
            fields.push((String::from_str("algorithm"), alg_val));
            fields.push((String::from_str("qop"), qop_val));
            fields.push((String::from_str("nc"), enc_opt_str(nc)));
            fields.push((String::from_str("cnonce"), enc_opt_str(cnonce)));
            proof {
                lemma_fields_view_index(fields@);
                let av = a.deep_view();
                let alg_doc = match av->Digest_algorithm {
                    Option::Some(x) => JsonV::Str(algorithm_name(x)),
                    Option::None => JsonV::Null,
                };
                let qop_doc = match av->Digest_qop {
                    Option::Some(x) => JsonV::Str(qop_name(x)),
                    Option::None => JsonV::Null,
                };
                assert(json_view_fields(fields@) =~= seq![
                    ("kind"@, JsonV::Str("digest"@)),
                    ("username"@, JsonV::Str(username@)),
                    ("password"@, JsonV::Str(password@)),
                    ("realm"@, spec_enc_opt_str(realm.deep_view())),
                    ("nonce"@, spec_enc_opt_str(nonce.deep_view())),
                    ("opaque"@, spec_enc_opt_str(opaque.deep_view())),
                    ("algorithm"@, alg_doc),
                    ("qop"@, qop_doc),
                    ("nc"@, spec_enc_opt_str(nc.deep_view())),
                    ("cnonce"@, spec_enc_opt_str(cnonce.deep_view())),
                ]);
            }
            JsonValue::Obj(fields)
        },
    }
}

pub fn decode_auth(d: &JsonValue) -> (r: Result<AuthType, RelayError>)
    ensures
        r is Ok ==> spec_dec_auth(json_view(*d)) == Option::Some(r->Ok_0.deep_view()),
        r is Err ==> spec_dec_auth(json_view(*d)) is None && r->Err_0 is Parse,
{
    match d {
        JsonValue::Obj(fields) => {
            let kind = match get_str_field(fields, "kind") {
                Result::Ok(v) => v,
                Result::Err(e) => {
                    return Result::Err(e);
                },
            };
            if str_eqx(kind.as_str(), "none") {
                Result::Ok(AuthType::NoAuth)
            } else if str_eqx(kind.as_str(), "basic") {
                let username = match get_str_field(fields, "username") {
                    Result::Ok(v) => v,
                    Result::Err(e) => {
                        return Result::Err(e);
                    },
                };
                let password = match get_str_field(fields, "password") {
                    Result::Ok(v) => v,
                    Result::Err(e) => {
                        return Result::Err(e);
                    },
                };
                Result::Ok(AuthType::Basic { username, password })
            } else if str_eqx(kind.as_str(), "bearer") {
                let token = match get_str_field(fields, "token") {
                    Result::Ok(v) => v,
                    Result::Err(e) => {
                        return Result::Err(e);
                    },
                };
                Result::Ok(AuthType::Bearer { token })
            } else if str_eqx(kind.as_str(), "digest") {
                let username = match get_str_field(fields, "username") {
                    Result::Ok(v) => v,
                    Result::Err(e) => {
                        return Result::Err(e);
                    },
                };
                let password = match get_str_field(fields, "password") {
                    Result::Ok(v) => v,
                    Result::Err(e) => {
                        return Result::Err(e);
                    },
                };
                let realm = match get_opt_str_field(fields, "realm") {
                    Result::Ok(v) => v,
                    Result::Err(e) => {
                        return Result::Err(e);
                    },
                };
                let nonce = match get_opt_str_field(fields, "nonce") {
                    Result::Ok(v) => v,
                    Result::Err(e) => {
                        return Result::Err(e);
                    },
                };
                let opaque = match get_opt_str_field(fields, "opaque") {
                    Result::Ok(v) => v,
                    Result::Err(e) => {
                        return Result::Err(e);
                    },
                };
                let algorithm = match get_opt_algorithm_field(fields, "algorithm") {
                    Result::Ok(v) => v,
                    Result::Err(e) => {
                        return Result::Err(e);
                    },
                };
                let qop = match get_opt_qop_field(fields, "qop") {
                    Result::Ok(v) => v,
                    Result::Err(e) => {
                        return Result::Err(e);
                    },
                };
                let nc = match get_opt_str_field(fields, "nc") {
                    Result::Ok(v) => v,
                    Result::Err(e) => {
                        return Result::Err(e);
                    },
                };
                let cnonce = match get_opt_str_field(fields, "cnonce") {
                    Result::Ok(v) => v,
                    Result::Err(e) => {
                        return Result::Err(e);
                    },
                };
                Result::Ok(
                    AuthType::Digest {
                        username,
                        password,
                        realm,
                        nonce,
                        opaque,
                        algorithm,
                        qop,
                        nc,
                        cnonce,
                    },
                )
            } else {
                Result::Err(decode_error("kind"))
            }
        },
        _ => Result::Err(decode_error("auth")),
    }
}



/// The wire form of a byte string: an array of byte-sized numbers.
pub open spec fn bytes_doc(b: Seq<u8>) -> JsonV {
    JsonV::Arr(Seq::new(b.len(), |i: int| JsonV::NumU(b[i] as u64)))
}

/// The byte string an array reads as, where every element is a byte-sized
/// number.
pub open spec fn spec_bytes_of(d: JsonV) -> Option<Seq<u8>> {
    match d {
        JsonV::Arr(items) => if forall|i: int|
            0 <= i < items.len() ==> (#[trigger] items[i]) is NumU && items[i]->NumU_0 <= 255 {
            Option::Some(Seq::new(items.len(), |i: int| items[i]->NumU_0 as u8))
        } else {
            Option::None
        },
        _ => Option::None,
    }
}

/// Law: every byte string decodes back from its encoding.
pub proof fn lemma_bytes_round_trip(b: Seq<u8>)
    ensures
        spec_bytes_of(bytes_doc(b)) == Option::Some(b),
{
    let items = Seq::new(b.len(), |i: int| JsonV::NumU(b[i] as u64));
    assert(forall|i: int|
        0 <= i < items.len() ==> (#[trigger] items[i]) is NumU && items[i]->NumU_0 <= 255);
    assert(Seq::new(items.len(), |i: int| items[i]->NumU_0 as u8) =~= b);
}

pub fn encode_bytes(b: &Vec<u8>) -> (d: JsonValue)
    ensures
        json_view(d) == bytes_doc(b@),
{
    let mut items: Vec<JsonValue> = Vec::new();
    let n = b.len();
    let mut i: usize = 0;
    while i < n
        invariant
            n == b.len(),
            0 <= i <= n,
            items@.len() == i,
            forall|k: int| 0 <= k < i ==> #[trigger] items@[k] == JsonValue::NumU(b@[k] as u64),
        decreases n - i,
    {
        items.push(JsonValue::NumU(b[i] as u64));
        i += 1;
    }
    proof {
        lemma_seq_view_index(items@);
        assert(json_view_seq(items@) =~= Seq::new(b@.len(), |k: int| JsonV::NumU(b@[k] as u64)));
    }
    JsonValue::Arr(items)
}

pub fn decode_bytes(d: &JsonValue, what: &str) -> (r: Result<Vec<u8>, RelayError>)
    ensures
        r is Ok ==> spec_bytes_of(json_view(*d)) == Option::Some(r->Ok_0@),
        r is Err ==> spec_bytes_of(json_view(*d)) is None && r->Err_0 is Parse,
{
    match d {
        JsonValue::Arr(items) => {
            let ghost vitems = json_view_seq(items@);
            proof {
                lemma_seq_view_index(items@);
            }
            let n = items.len();
            let mut out: Vec<u8> = Vec::new();
            let mut i: usize = 0;
            while i < n
                invariant
                    n == items.len(),
                    0 <= i <= n,
                    out@.len() == i,
                    vitems == json_view_seq(items@),
                    json_view(*d) == JsonV::Arr(vitems),
                    vitems.len() == n,
                    forall|k: int| 0 <= k < n ==> #[trigger] vitems[k] == json_view(items@[k]),
                    forall|k: int|
                        0 <= k < i ==> (#[trigger] vitems[k]) is NumU && vitems[k]->NumU_0 <= 255
                            && out@[k] == vitems[k]->NumU_0 as u8,
                decreases n - i,
            {
                match &items[i] {
                    JsonValue::NumU(v) => {
                        if *v <= 255 {
                            out.push(*v as u8);
                        } else {
                            proof {
                                assert(!((vitems[i as int]) is NumU && vitems[i as int]->NumU_0
                                    <= 255));
                            }
                            return Result::Err(decode_error(what));
                        }
                    },
                    _ => {
                        proof {
                            assert(!((vitems[i as int]) is NumU && vitems[i as int]->NumU_0
                                <= 255));
                        }
                        return Result::Err(decode_error(what));
                    },
                }
                i += 1;
            }
            proof {
                assert(Seq::new(vitems.len(), |k: int| vitems[k]->NumU_0 as u8) =~= out@);
            }
            Result::Ok(out)
        },
        _ => Result::Err(decode_error(what)),
    }
}

/// The byte string under a field name.
pub open spec fn spec_get_bytes(fields: Seq<(Seq<char>, JsonV)>, name: Seq<char>) -> Option<
    Seq<u8>,
> {
    match lookup(fields, name) {
        Option::Some(v) => spec_bytes_of(v),
        Option::None => Option::None,
    }
}

fn get_bytes_field(fields: &Vec<(String, JsonValue)>, name: &str) -> (r: Result<
    Vec<u8>,
    RelayError,
>)
    ensures
        r is Ok ==> spec_get_bytes(json_view_fields(fields@), name@) == Option::Some(r->Ok_0@),
        r is Err ==> spec_get_bytes(json_view_fields(fields@), name@) is None && r->Err_0 is Parse,
{
    match obj_get(fields, name) {
        Option::Some(v) => decode_bytes(v, name),
        Option::None => Result::Err(decode_error(name)),
    }
}

pub open spec fn spec_enc_cert(c: CertificateTypeV) -> JsonV {
    match c {
        CertificateTypeV::Pem { cert, key } => JsonV::Obj(
            seq![
                ("kind"@, JsonV::Str("pem"@)),
                ("cert"@, bytes_doc(cert)),
                ("key"@, bytes_doc(key)),
            ],
        ),
        CertificateTypeV::Pfx { data, password } => JsonV::Obj(
            seq![
                ("kind"@, JsonV::Str("pfx"@)),
                ("data"@, bytes_doc(data)),
                ("password"@, JsonV::Str(password)),
            ],
        ),
    }
}

pub open spec fn spec_dec_cert(d: JsonV) -> Option<CertificateTypeV> {
    match d {
        JsonV::Obj(fields) => match spec_get_str(fields, "kind"@) {
            Option::Some(k) => if k == "pem"@ {
                let cert = spec_get_bytes(fields, "cert"@);
                let key = spec_get_bytes(fields, "key"@);
                if cert is Some && key is Some {
                    Option::Some(CertificateTypeV::Pem { cert: cert->Some_0, key: key->Some_0 })
                } else {
                    Option::None
                }
            } else if k == "pfx"@ {
                let data = spec_get_bytes(fields, "data"@);
                let password = spec_get_str(fields, "password"@);
                if data is Some && password is Some {
                    Option::Some(
                        CertificateTypeV::Pfx { data: data->Some_0, password: password->Some_0 },
                    )
                } else {
                    Option::None
                }
            } else {
                Option::None
            },
            _ => Option::None,
        },
        _ => Option::None,
    }
}

/// Law: every certificate value decodes back from its encoding.
pub proof fn lemma_cert_round_trip(c: CertificateTypeV)
    ensures
        spec_dec_cert(spec_enc_cert(c)) == Option::Some(c),
{
    reveal_strlit("kind");
    reveal_strlit("pem");
    reveal_strlit("pfx");
    reveal_strlit("cert");
    reveal_strlit("key");
    reveal_strlit("data");
    reveal_strlit("password");
    assert(("kind"@).len() == 4);
    assert(("pem"@).len() == 3);
    assert(("pfx"@).len() == 3);
    assert(("cert"@).len() == 4);
    assert(("key"@).len() == 3);
    assert(("data"@).len() == 4);
    assert(("password"@).len() == 8);
    assert(("pfx"@)[1] != ("pem"@)[1]);
    assert(("cert"@)[0] != ("kind"@)[0]);
    assert(("data"@)[0] != ("kind"@)[0]);
    match c {
        CertificateTypeV::Pem { cert, key } => {
            let fields = seq![
                ("kind"@, JsonV::Str("pem"@)),
                ("cert"@, bytes_doc(cert)),
                ("key"@, bytes_doc(key)),
            ];
            lemma_lookup_at(fields, 0);
            lemma_lookup_at(fields, 1);
            lemma_lookup_at(fields, 2);
            lemma_bytes_round_trip(cert);
            lemma_bytes_round_trip(key);
        },
        CertificateTypeV::Pfx { data, password } => {
            let fields = seq![
                ("kind"@, JsonV::Str("pfx"@)),
                ("data"@, bytes_doc(data)),
                ("password"@, JsonV::Str(password)),
            ];
            lemma_lookup_at(fields, 0);
            lemma_lookup_at(fields, 1);
            lemma_lookup_at(fields, 2);
            lemma_bytes_round_trip(data);
        },
    }
}

pub fn encode_cert(c: &CertificateType) -> (d: JsonValue)
    ensures
        json_view(d) == spec_enc_cert(c.deep_view()),
{
    match c {
        CertificateType::Pem { cert, key } => {
            let mut fields: Vec<(String, JsonValue)> = Vec::new();
            fields.push((String::from_str("kind"), JsonValue::Str(String::from_str("pem"))));
            fields.push((String::from_str("cert"), encode_bytes(cert)));
            fields.push((String::from_str("key"), encode_bytes(key)));
            proof {
                lemma_fields_view_index(fields@);
                assert(json_view_fields(fields@) =~= seq![
                    ("kind"@, JsonV::Str("pem"@)),
                    ("cert"@, bytes_doc(cert@)),
                    ("key"@, bytes_doc(key@)),
                ]);
            }
            JsonValue::Obj(fields)
        },
        CertificateType::Pfx { data, password } => {
            let mut fields: Vec<(String, JsonValue)> = Vec::new();
            fields.push((String::from_str("kind"), JsonValue::Str(String::from_str("pfx"))));
            fields.push((String::from_str("data"), encode_bytes(data)));
            fields.push((String::from_str("password"), JsonValue::Str(password.clone())));
            proof {
                lemma_fields_view_index(fields@);
                assert(json_view_fields(fields@) =~= seq![
                    ("kind"@, JsonV::Str("pfx"@)),
                    ("data"@, bytes_doc(data@)),
                    ("password"@, JsonV::Str(password@)),
                ]);
            }
            JsonValue::Obj(fields)
        },
    }
}

pub fn decode_cert(d: &JsonValue) -> (r: Result<CertificateType, RelayError>)
    ensures
        r is Ok ==> spec_dec_cert(json_view(*d)) == Option::Some(r->Ok_0.deep_view()),
        r is Err ==> spec_dec_cert(json_view(*d)) is None && r->Err_0 is Parse,
{
    match d {
        JsonValue::Obj(fields) => {
            let kind = match get_str_field(fields, "kind") {
                Result::Ok(v) => v,
                Result::Err(e) => {
                    return Result::Err(e);
                },
            };
            if str_eqx(kind.as_str(), "pem") {
                let cert = match get_bytes_field(fields, "cert") {
                    Result::Ok(v) => v,
                    Result::Err(e) => {
                        return Result::Err(e);
                    },
                };
                let key = match get_bytes_field(fields, "key") {
                    Result::Ok(v) => v,
                    Result::Err(e) => {
                        return Result::Err(e);
                    },
                };
                Result::Ok(CertificateType::Pem { cert, key })
            } else if str_eqx(kind.as_str(), "pfx") {
                let data = match get_bytes_field(fields, "data") {
                    Result::Ok(v) => v,
                    Result::Err(e) => {
                        return Result::Err(e);
                    },
                };
                let password = match get_str_field(fields, "password") {
                    Result::Ok(v) => v,
                    Result::Err(e) => {
                        return Result::Err(e);
                    },
                };
                Result::Ok(CertificateType::Pfx { data, password })
            } else {
                Result::Err(decode_error("kind"))
            }
        },
        _ => Result::Err(decode_error("certificate")),
    }
}

pub open spec fn spec_enc_proxy_auth(p: ProxyAuthV) -> JsonV {
    JsonV::Obj(
        seq![("username"@, JsonV::Str(p.username)), ("password"@, JsonV::Str(p.password))],
    )
}

pub open spec fn spec_dec_proxy_auth(d: JsonV) -> Option<ProxyAuthV> {
    match d {
        JsonV::Obj(fields) => {
            let u = spec_get_str(fields, "username"@);
            let p = spec_get_str(fields, "password"@);
            if u is Some && p is Some {
                Option::Some(ProxyAuthV { username: u->Some_0, password: p->Some_0 })
            } else {
                Option::None
            }
        },
        _ => Option::None,
    }
}

/// Law: proxy credentials decode back from their encoding.
pub proof fn lemma_proxy_auth_round_trip(p: ProxyAuthV)
    ensures
        spec_dec_proxy_auth(spec_enc_proxy_auth(p)) == Option::Some(p),
{
    reveal_strlit("username");
    reveal_strlit("password");
    assert(("username"@).len() == 8);
    assert(("password"@).len() == 8);
    assert(("username"@)[0] != ("password"@)[0]);
    let fields = seq![
        ("username"@, JsonV::Str(p.username)),
        ("password"@, JsonV::Str(p.password)),
    ];
    lemma_lookup_at(fields, 0);
    lemma_lookup_at(fields, 1);
}

pub fn encode_proxy_auth(p: &ProxyAuth) -> (d: JsonValue)
    ensures
        json_view(d) == spec_enc_proxy_auth(p.deep_view()),
{
    let mut fields: Vec<(String, JsonValue)> = Vec::new();
    fields.push((String::from_str("username"), JsonValue::Str(p.username.clone())));
    fields.push((String::from_str("password"), JsonValue::Str(p.password.clone())));
    proof {
        lemma_fields_view_index(fields@);
        assert(json_view_fields(fields@) =~= seq![
            ("username"@, JsonV::Str(p.username@)),
            ("password"@, JsonV::Str(p.password@)),
        ]);
    }
    JsonValue::Obj(fields)
}

pub fn decode_proxy_auth(d: &JsonValue) -> (r: Result<ProxyAuth, RelayError>)
    ensures
        r is Ok ==> spec_dec_proxy_auth(json_view(*d)) == Option::Some(r->Ok_0.deep_view()),
        r is Err ==> spec_dec_proxy_auth(json_view(*d)) is None && r->Err_0 is Parse,
{
    match d {
        JsonValue::Obj(fields) => {
            let username = match get_str_field(fields, "username") {
                Result::Ok(v) => v,
                Result::Err(e) => {
                    return Result::Err(e);
                },
            };
            let password = match get_str_field(fields, "password") {
                Result::Ok(v) => v,
                Result::Err(e) => {
                    return Result::Err(e);
                },
            };
            Result::Ok(ProxyAuth { username, password })
        },
        _ => Result::Err(decode_error("proxy auth")),
    }
}

pub open spec fn spec_enc_proxy(p: ProxyConfigV) -> JsonV {
    let auth_doc = match p.auth {
        Option::Some(a) => spec_enc_proxy_auth(a),
        Option::None => JsonV::Null,
    };
    JsonV::Obj(seq![("url"@, JsonV::Str(p.url)), ("auth"@, auth_doc)])
}

pub open spec fn spec_dec_proxy(d: JsonV) -> Option<ProxyConfigV> {
    match d {
        JsonV::Obj(fields) => {
            let u = spec_get_str(fields, "url"@);
            if u is Some {
                match lookup(fields, "auth"@) {
                    Option::None => Option::Some(
                        ProxyConfigV { url: u->Some_0, auth: Option::None },
                    ),
                    Option::Some(JsonV::Null) => Option::Some(
                        ProxyConfigV { url: u->Some_0, auth: Option::None },
                    ),
                    Option::Some(a) => match spec_dec_proxy_auth(a) {
                        Option::Some(pa) => Option::Some(
                            ProxyConfigV { url: u->Some_0, auth: Option::Some(pa) },
                        ),
                        Option::None => Option::None,
                    },
                }
            } else {
                Option::None
            }
        },
        _ => Option::None,
    }
}

/// Law: every proxy configuration decodes back from its encoding.
pub proof fn lemma_proxy_round_trip(p: ProxyConfigV)
    ensures
        spec_dec_proxy(spec_enc_proxy(p)) == Option::Some(p),
{
    reveal_strlit("url");
    reveal_strlit("auth");
    assert(("url"@).len() == 3);
    assert(("auth"@).len() == 4);
    let auth_doc = match p.auth {
        Option::Some(a) => spec_enc_proxy_auth(a),
        Option::None => JsonV::Null,
    };
    let fields = seq![("url"@, JsonV::Str(p.url)), ("auth"@, auth_doc)];
    lemma_lookup_at(fields, 0);
    lemma_lookup_at(fields, 1);
    match p.auth {
        Option::Some(a) => lemma_proxy_auth_round_trip(a),
        Option::None => (),
    }
}

pub fn encode_proxy(p: &ProxyConfig) -> (d: JsonValue)
    ensures
        json_view(d) == spec_enc_proxy(p.deep_view()),
{
    let auth_val = match &p.auth {
        Option::Some(a) => encode_proxy_auth(a),
        Option::None => JsonValue::Null,
    };
    let mut fields: Vec<(String, JsonValue)> = Vec::new();
    fields.push((String::from_str("url"), JsonValue::Str(p.url.clone())));
    fields.push((String::from_str("auth"), auth_val));
    proof {
        lemma_fields_view_index(fields@);
        let auth_doc = match p.deep_view().auth {
            Option::Some(a) => spec_enc_proxy_auth(a),
            Option::None => JsonV::Null,
        };
        assert(json_view_fields(fields@) =~= seq![
            ("url"@, JsonV::Str(p.url@)),
            ("auth"@, auth_doc),
        ]);
    }
    JsonValue::Obj(fields)
}

pub fn decode_proxy(d: &JsonValue) -> (r: Result<ProxyConfig, RelayError>)
    ensures
        r is Ok ==> spec_dec_proxy(json_view(*d)) == Option::Some(r->Ok_0.deep_view()),
        r is Err ==> spec_dec_proxy(json_view(*d)) is None && r->Err_0 is Parse,
{
    match d {
        JsonValue::Obj(fields) => {
            let url = match get_str_field(fields, "url") {
                Result::Ok(v) => v,
                Result::Err(e) => {
                    return Result::Err(e);
                },
            };
            let auth = match obj_get(fields, "auth") {
                Option::Some(v) => match v {
                    JsonValue::Null => Option::None,
                    _ => match decode_proxy_auth(v) {
                        Result::Ok(a) => Option::Some(a),
                        Result::Err(e) => {
                            return Result::Err(e);
                        },
                    },
                },
                Option::None => Option::None,
            };
            Result::Ok(ProxyConfig { url, auth })
        },
        _ => Result::Err(decode_error("proxy")),
    }
}

pub open spec fn spec_enc_opt_bool(o: Option<bool>) -> JsonV {
    match o {
        Option::Some(b) => JsonV::Bool(b),
        Option::None => JsonV::Null,
    }
}

fn enc_opt_bool(o: &Option<bool>) -> (d: JsonValue)
    ensures
        json_view(d) == spec_enc_opt_bool(*o),
{
    match o {
        Option::Some(b) => JsonValue::Bool(*b),
        Option::None => JsonValue::Null,
    }
}

pub open spec fn spec_enc_cookie(c: CookieV) -> JsonV {
    let expires_doc = match c.expires {
        Option::Some(n) => JsonV::NumI(n),
        Option::None => JsonV::Null,
    };
    let same_site_doc = match c.same_site {
        Option::Some(v) => JsonV::Str(same_site_name(v)),
        Option::None => JsonV::Null,
    };
    JsonV::Obj(
        seq![
            ("name"@, JsonV::Str(c.name)),
            ("value"@, JsonV::Str(c.value)),
            ("domain"@, spec_enc_opt_str(c.domain)),
            ("path"@, spec_enc_opt_str(c.path)),
            ("expires"@, expires_doc),
            ("secure"@, spec_enc_opt_bool(c.secure)),
            ("httpOnly"@, spec_enc_opt_bool(c.http_only)),
            ("sameSite"@, same_site_doc),
        ],
    )
}

pub open spec fn spec_dec_cookie(d: JsonV) -> Option<CookieV> {
    match d {
        JsonV::Obj(fields) => {
            let n = spec_get_str(fields, "name"@);
            let v = spec_get_str(fields, "value"@);
            let domain = spec_get_opt_str(fields, "domain"@);
            let path = spec_get_opt_str(fields, "path"@);
            let expires = spec_get_opt_i64(fields, "expires"@);
            let secure = spec_get_opt_bool(fields, "secure"@);
            let http_only = spec_get_opt_bool(fields, "httpOnly"@);
            let same_site = spec_get_opt_same_site(fields, "sameSite"@);
            if n is Some && v is Some && domain is Some && path is Some && expires is Some
                && secure is Some && http_only is Some && same_site is Some {
                Option::Some(
                    CookieV {
                        name: n->Some_0,
                        value: v->Some_0,
                        domain: domain->Some_0,
                        path: path->Some_0,
                        expires: expires->Some_0,
                        secure: secure->Some_0,
                        http_only: http_only->Some_0,
                        same_site: same_site->Some_0,
                    },
                )
            } else {
                Option::None
            }
        },
        _ => Option::None,
    }
}

/// Law: every cookie — any mix of absent optional attributes included —
/// decodes back from its encoding.
#[verifier::rlimit(60)]
pub proof fn lemma_cookie_round_trip(c: CookieV)
    ensures
        spec_dec_cookie(spec_enc_cookie(c)) == Option::Some(c),
{
    reveal_strlit("name");
    reveal_strlit("value");
    reveal_strlit("domain");
    reveal_strlit("path");
    reveal_strlit("expires");
    reveal_strlit("secure");
    reveal_strlit("httpOnly");
    reveal_strlit("sameSite");
    assert(("name"@).len() == 4);
    assert(("value"@).len() == 5);
    assert(("domain"@).len() == 6);
    assert(("path"@).len() == 4);
    assert(("expires"@).len() == 7);
    assert(("secure"@).len() == 6);
    assert(("httpOnly"@).len() == 8);
    assert(("sameSite"@).len() == 8);
    assert(("path"@)[0] != ("name"@)[0]);
    assert(("secure"@)[0] != ("domain"@)[0]);
    assert(("sameSite"@)[0] != ("httpOnly"@)[0]);
    let expires_doc = match c.expires {
        Option::Some(n) => JsonV::NumI(n),
        Option::None => JsonV::Null,
    };
    let same_site_doc = match c.same_site {
        Option::Some(v) => JsonV::Str(same_site_name(v)),
        Option::None => JsonV::Null,
    };
    let fields = seq![
        ("name"@, JsonV::Str(c.name)),
        ("value"@, JsonV::Str(c.value)),
        ("domain"@, spec_enc_opt_str(c.domain)),
        ("path"@, spec_enc_opt_str(c.path)),
        ("expires"@, expires_doc),
        ("secure"@, spec_enc_opt_bool(c.secure)),
        ("httpOnly"@, spec_enc_opt_bool(c.http_only)),
        ("sameSite"@, same_site_doc),
    ];
    lemma_lookup_at(fields, 0);
    lemma_lookup_at(fields, 1);
    lemma_lookup_at(fields, 2);
    lemma_lookup_at(fields, 3);
    lemma_lookup_at(fields, 4);
    lemma_lookup_at(fields, 5);
    lemma_lookup_at(fields, 6);
    lemma_lookup_at(fields, 7);
    match c.same_site {
        Option::Some(v) => lemma_same_site_round_trip(v),
        Option::None => (),
    }
}

pub fn encode_cookie(c: &Cookie) -> (d: JsonValue)
    ensures
        json_view(d) == spec_enc_cookie(c.deep_view()),
{
    let expires_val = match &c.expires {
        Option::Some(n) => JsonValue::NumI(*n),
        Option::None => JsonValue::Null,
    };
    let same_site_val = match &c.same_site {
        Option::Some(v) => JsonValue::Str(same_site_text(v)),
        Option::None => JsonValue::Null,
    };
    let mut fields: Vec<(String, JsonValue)> = Vec::new();
    fields.push((String::from_str("name"), JsonValue::Str(c.name.clone())));
    fields.push((String::from_str("value"), JsonValue::Str(c.value.clone())));
    fields.push((String::from_str("domain"), enc_opt_str(&c.domain)));
    fields.push((String::from_str("path"), enc_opt_str(&c.path)));
    fields.push((String::from_str("expires"), expires_val));
    fields.push((String::from_str("secure"), enc_opt_bool(&c.secure)));
    fields.push((String::from_str("httpOnly"), enc_opt_bool(&c.http_only)));
    fields.push((String::from_str("sameSite"), same_site_val));
    proof {
        lemma_fields_view_index(fields@);
        let cv = c.deep_view();
        let expires_doc = match cv.expires {
            Option::Some(n) => JsonV::NumI(n),
            Option::None => JsonV::Null,
        };
        let same_site_doc = match cv.same_site {
            Option::Some(v) => JsonV::Str(same_site_name(v)),
            Option::None => JsonV::Null,
        };
        assert(json_view_fields(fields@) =~= seq![
            ("name"@, JsonV::Str(cv.name)),
            ("value"@, JsonV::Str(cv.value)),
            ("domain"@, spec_enc_opt_str(cv.domain)),
            ("path"@, spec_enc_opt_str(cv.path)),
            ("expires"@, expires_doc),
            ("secure"@, spec_enc_opt_bool(cv.secure)),
            ("httpOnly"@, spec_enc_opt_bool(cv.http_only)),
            ("sameSite"@, same_site_doc),
        ]);
    }
    JsonValue::Obj(fields)
}

pub fn decode_cookie(d: &JsonValue) -> (r: Result<Cookie, RelayError>)
    ensures
        r is Ok ==> spec_dec_cookie(json_view(*d)) == Option::Some(r->Ok_0.deep_view()),
        r is Err ==> spec_dec_cookie(json_view(*d)) is None && r->Err_0 is Parse,
{
    match d {
        JsonValue::Obj(fields) => {
            let name = match get_str_field(fields, "name") {
                Result::Ok(v) => v,
                Result::Err(e) => {
                    return Result::Err(e);
                },
            };
            let value = match get_str_field(fields, "value") {
                Result::Ok(v) => v,
                Result::Err(e) => {
                    return Result::Err(e);
                },
            };
            let domain = match get_opt_str_field(fields, "domain") {
                Result::Ok(v) => v,
                Result::Err(e) => {
                    return Result::Err(e);
                },
            };
            let path = match get_opt_str_field(fields, "path") {
                Result::Ok(v) => v,
                Result::Err(e) => {
                    return Result::Err(e);
                },
            };
            let expires = match get_opt_i64_field(fields, "expires") {
                Result::Ok(v) => v,
                Result::Err(e) => {
                    return Result::Err(e);
                },
            };
            let secure = match get_opt_bool_field(fields, "secure") {
                Result::Ok(v) => v,
                Result::Err(e) => {
                    return Result::Err(e);
                },
            };
            let http_only = match get_opt_bool_field(fields, "httpOnly") {
                Result::Ok(v) => v,
                Result::Err(e) => {
                    return Result::Err(e);
                },
            };
            let same_site = match get_opt_same_site_field(fields, "sameSite") {
                Result::Ok(v) => v,
                Result::Err(e) => {
                    return Result::Err(e);
                },
            };
            Result::Ok(
                Cookie { name, value, domain, path, expires, secure, http_only, same_site },
            )
        },
        _ => Result::Err(decode_error("cookie")),
    }
}



/// The wire form of an optional authority list: an array of byte strings, or
/// null for absence.
pub open spec fn spec_enc_ca(ca: Option<Seq<Seq<u8>>>) -> JsonV {
    match ca {
        Option::Some(list) => JsonV::Arr(Seq::new(list.len(), |i: int| bytes_doc(list[i]))),
        Option::None => JsonV::Null,
    }
}

/// The authority list a document reads as.
pub open spec fn spec_dec_ca(d: JsonV) -> Option<Option<Seq<Seq<u8>>>> {
    match d {
        JsonV::Null => Option::Some(Option::None),
        JsonV::Arr(items) => if forall|i: int|
            0 <= i < items.len() ==> (#[trigger] spec_bytes_of(items[i])) is Some {
            Option::Some(
                Option::Some(Seq::new(items.len(), |i: int| spec_bytes_of(items[i])->Some_0)),
            )
        } else {
            Option::None
        },
        _ => Option::None,
    }
}

/// Law: every authority list decodes back from its encoding.
pub proof fn lemma_ca_round_trip(ca: Option<Seq<Seq<u8>>>)
    ensures
        spec_dec_ca(spec_enc_ca(ca)) == Option::Some(ca),
{
    match ca {
        Option::None => {
        },
        Option::Some(list) => {
            let items = Seq::new(list.len(), |i: int| bytes_doc(list[i]));
            assert forall|i: int| 0 <= i < items.len() implies (#[trigger] spec_bytes_of(
                items[i],
            )) is Some by {
                lemma_bytes_round_trip(list[i]);
            }
            assert forall|i: int| 0 <= i < items.len() implies #[trigger] spec_bytes_of(
                items[i],
            )->Some_0 == list[i] by {
                lemma_bytes_round_trip(list[i]);
            }
            assert(Seq::new(items.len(), |i: int| spec_bytes_of(items[i])->Some_0) =~= list);
        },
    }
}

fn encode_ca(list: &Vec<Vec<u8>>) -> (d: JsonValue)
    ensures
        json_view(d) == spec_enc_ca(Option::Some(list.deep_view())),
{
    let mut items: Vec<JsonValue> = Vec::new();
    let n = list.len();
    let mut i: usize = 0;
    while i < n
        invariant
            n == list.len(),
            0 <= i <= n,
            items@.len() == i,
            forall|k: int| 0 <= k < i ==> #[trigger] json_view(items@[k]) == bytes_doc(list@[k]@),
        decreases n - i,
    {
        items.push(encode_bytes(&list[i]));
        i += 1;
    }
    proof {
        lemma_seq_view_index(items@);
        assert forall|k: int| 0 <= k < n implies #[trigger] list.deep_view()[k] == list@[k]@ by {
            assert(list.deep_view()[k] =~= list@[k]@);
        }
        assert(json_view_seq(items@) =~= Seq::new(
            list.deep_view().len(),
            |k: int| bytes_doc(list.deep_view()[k]),
        ));
    }
    JsonValue::Arr(items)
}

fn decode_ca(d: &JsonValue) -> (r: Result<Option<Vec<Vec<u8>>>, RelayError>)
    ensures
        r is Ok ==> spec_dec_ca(json_view(*d)) == Option::Some(
            match r->Ok_0 {
                Option::Some(list) => Option::Some(list.deep_view()),
                Option::None => Option::None,
            },
        ),
        r is Err ==> spec_dec_ca(json_view(*d)) is None && r->Err_0 is Parse,
{
    match d {
        JsonValue::Null => Result::Ok(Option::None),
        JsonValue::Arr(items) => {
            let ghost vitems = json_view_seq(items@);
            proof {
                lemma_seq_view_index(items@);
            }
            let n = items.len();
            let mut out: Vec<Vec<u8>> = Vec::new();
            let mut i: usize = 0;
            while i < n
                invariant
                    n == items.len(),
                    0 <= i <= n,
                    out@.len() == i,
                    vitems == json_view_seq(items@),
                    json_view(*d) == JsonV::Arr(vitems),
                    vitems.len() == n,
                    forall|k: int| 0 <= k < n ==> #[trigger] vitems[k] == json_view(items@[k]),
                    forall|k: int|
                        0 <= k < i ==> (#[trigger] spec_bytes_of(vitems[k])) is Some
                            && spec_bytes_of(vitems[k])->Some_0 == out@[k]@,
                decreases n - i,
            {
                match decode_bytes(&items[i], "ca") {
                    Result::Ok(b) => {
                        out.push(b);
                    },
                    Result::Err(e) => {
                        proof {
                            assert(!(spec_bytes_of(vitems[i as int]) is Some));
                        }
                        return Result::Err(e);
                    },
                }
                i += 1;
            }
            proof {
                assert forall|k: int| 0 <= k < n implies #[trigger] out.deep_view()[k]
                    == out@[k]@ by {
                    assert(out.deep_view()[k] =~= out@[k]@);
                }
                assert(Seq::new(vitems.len(), |k: int| spec_bytes_of(vitems[k])->Some_0)
                    =~= out.deep_view());
            }
            Result::Ok(Option::Some(out))
        },
        _ => Result::Err(decode_error("ca")),
    }
}

pub open spec fn spec_enc_cert_config(c: CertificateConfigV) -> JsonV {
    let client_doc = match c.client {
        Option::Some(x) => spec_enc_cert(x),
        Option::None => JsonV::Null,
    };
    JsonV::Obj(seq![("client"@, client_doc), ("ca"@, spec_enc_ca(c.ca))])
}

pub open spec fn spec_dec_cert_config(d: JsonV) -> Option<CertificateConfigV> {
    match d {
        JsonV::Obj(fields) => {
            let client = match lookup(fields, "client"@) {
                Option::None => Option::Some(Option::None),
                Option::Some(JsonV::Null) => Option::Some(Option::None),
                Option::Some(x) => match spec_dec_cert(x) {
                    Option::Some(c) => Option::Some(Option::Some(c)),
                    Option::None => Option::None,
                },
            };
            let ca = match lookup(fields, "ca"@) {
                Option::None => Option::Some(Option::None),
                Option::Some(x) => spec_dec_ca(x),
            };
            if client is Some && ca is Some {
                Option::Some(CertificateConfigV { client: client->Some_0, ca: ca->Some_0 })
            } else {
                Option::None
            }
        },
        _ => Option::None,
    }
}

/// Law: every certificate configuration decodes back from its encoding.
pub proof fn lemma_cert_config_round_trip(c: CertificateConfigV)
    ensures
        spec_dec_cert_config(spec_enc_cert_config(c)) == Option::Some(c),
{
    reveal_strlit("client");
    reveal_strlit("ca");
    assert(("client"@).len() == 6);
    assert(("ca"@).len() == 2);
    let client_doc = match c.client {
        Option::Some(x) => spec_enc_cert(x),
        Option::None => JsonV::Null,
    };
    let fields = seq![("client"@, client_doc), ("ca"@, spec_enc_ca(c.ca))];
    lemma_lookup_at(fields, 0);
    lemma_lookup_at(fields, 1);
    match c.client {
        Option::Some(x) => lemma_cert_round_trip(x),
        Option::None => (),
    }
    lemma_ca_round_trip(c.ca);
    match c.ca {
        Option::None => {
            assert(spec_enc_ca(c.ca) is Null);
        },
        Option::Some(list) => {
        },
    }
}

pub fn encode_cert_config(c: &CertificateConfig) -> (d: JsonValue)
    ensures
        json_view(d) == spec_enc_cert_config(c.deep_view()),
{
    let client_val = match &c.client {
        Option::Some(x) => encode_cert(x),
        Option::None => JsonValue::Null,
    };
    let ca_val = match &c.ca {
        Option::Some(list) => encode_ca(list),
        Option::None => JsonValue::Null,
    };
    let mut fields: Vec<(String, JsonValue)> = Vec::new();
    fields.push((String::from_str("client"), client_val));
    fields.push((String::from_str("ca"), ca_val));
    proof {
        lemma_fields_view_index(fields@);
        let cv = c.deep_view();
        let client_doc = match cv.client {
            Option::Some(x) => spec_enc_cert(x),
            Option::None => JsonV::Null,
        };
        assert(json_view_fields(fields@) =~= seq![
            ("client"@, client_doc),
            ("ca"@, spec_enc_ca(cv.ca)),
        ]);
    }
    JsonValue::Obj(fields)
}

pub fn decode_cert_config(d: &JsonValue) -> (r: Result<CertificateConfig, RelayError>)
    ensures
        r is Ok ==> spec_dec_cert_config(json_view(*d)) == Option::Some(r->Ok_0.deep_view()),
        r is Err ==> spec_dec_cert_config(json_view(*d)) is None && r->Err_0 is Parse,
{
    match d {
        JsonValue::Obj(fields) => {
            let client = match obj_get(fields, "client") {
                Option::Some(v) => match v {
                    JsonValue::Null => Option::None,
                    _ => match decode_cert(v) {
                        Result::Ok(c) => Option::Some(c),
                        Result::Err(e) => {
                            return Result::Err(e);
                        },
                    },
                },
                Option::None => Option::None,
            };
            let ca = match obj_get(fields, "ca") {
                Option::Some(v) => match decode_ca(v) {
                    Result::Ok(x) => x,
                    Result::Err(e) => {
                        return Result::Err(e);
                    },
                },
                Option::None => Option::None,
            };
            Result::Ok(CertificateConfig { client, ca })
        },
        _ => Result::Err(decode_error("certificates")),
    }
}

pub open spec fn spec_enc_security(s: SecurityConfigV) -> JsonV {
    let certs_doc = match s.certificates {
        Option::Some(c) => spec_enc_cert_config(c),
        Option::None => JsonV::Null,
    };
    JsonV::Obj(
        seq![
            ("certificates"@, certs_doc),
            ("validateCertificates"@, spec_enc_opt_bool(s.validate_certificates)),
            ("verifyHost"@, spec_enc_opt_bool(s.verify_host)),
            ("verifyPeer"@, spec_enc_opt_bool(s.verify_peer)),
        ],
    )
}

pub open spec fn spec_dec_security(d: JsonV) -> Option<SecurityConfigV> {
    match d {
        JsonV::Obj(fields) => {
            let certificates = match lookup(fields, "certificates"@) {
                Option::None => Option::Some(Option::None),
                Option::Some(JsonV::Null) => Option::Some(Option::None),
                Option::Some(x) => match spec_dec_cert_config(x) {
                    Option::Some(c) => Option::Some(Option::Some(c)),
                    Option::None => Option::None,
                },
            };
            let validate = spec_get_opt_bool(fields, "validateCertificates"@);
            let host = spec_get_opt_bool(fields, "verifyHost"@);
            let peer = spec_get_opt_bool(fields, "verifyPeer"@);
            if certificates is Some && validate is Some && host is Some && peer is Some {
                Option::Some(
                    SecurityConfigV {
                        certificates: certificates->Some_0,
                        validate_certificates: validate->Some_0,
                        verify_host: host->Some_0,
                        verify_peer: peer->Some_0,
                    },
                )
            } else {
                Option::None
            }
        },
        _ => Option::None,
    }
}

/// Law: every security configuration — absent fields deferring to the
/// engine's defaults included — decodes back from its encoding.
pub proof fn lemma_security_round_trip(s: SecurityConfigV)
    ensures
        spec_dec_security(spec_enc_security(s)) == Option::Some(s),
{
    reveal_strlit("certificates");
    reveal_strlit("validateCertificates");
    reveal_strlit("verifyHost");
    reveal_strlit("verifyPeer");
    assert(("certificates"@).len() == 12);
    assert(("validateCertificates"@).len() == 20);
    assert(("verifyHost"@).len() == 10);
    assert(("verifyPeer"@).len() == 10);
    assert(("verifyPeer"@)[6] != ("verifyHost"@)[6]);
    let certs_doc = match s.certificates {
        Option::Some(c) => spec_enc_cert_config(c),
        Option::None => JsonV::Null,
    };
    let fields = seq![
        ("certificates"@, certs_doc),
        ("validateCertificates"@, spec_enc_opt_bool(s.validate_certificates)),
        ("verifyHost"@, spec_enc_opt_bool(s.verify_host)),
        ("verifyPeer"@, spec_enc_opt_bool(s.verify_peer)),
    ];
    lemma_lookup_at(fields, 0);
    lemma_lookup_at(fields, 1);
    lemma_lookup_at(fields, 2);
    lemma_lookup_at(fields, 3);
    match s.certificates {
        Option::Some(c) => lemma_cert_config_round_trip(c),
        Option::None => (),
    }
}

pub fn encode_security(s: &SecurityConfig) -> (d: JsonValue)
    ensures
        json_view(d) == spec_enc_security(s.deep_view()),
{
    let certs_val = match &s.certificates {
        Option::Some(c) => encode_cert_config(c),
        Option::None => JsonValue::Null,
    };
    let mut fields: Vec<(String, JsonValue)> = Vec::new();
    fields.push((String::from_str("certificates"), certs_val));
    fields.push((String::from_str("validateCertificates"), enc_opt_bool(&s.validate_certificates)));
    fields.push((String::from_str("verifyHost"), enc_opt_bool(&s.verify_host)));
    fields.push((String::from_str("verifyPeer"), enc_opt_bool(&s.verify_peer)));
    proof {
        lemma_fields_view_index(fields@);
        let sv = s.deep_view();
        let certs_doc = match sv.certificates {
            Option::Some(c) => spec_enc_cert_config(c),
            Option::None => JsonV::Null,
        };
        assert(json_view_fields(fields@) =~= seq![
            ("certificates"@, certs_doc),
            ("validateCertificates"@, spec_enc_opt_bool(sv.validate_certificates)),
            ("verifyHost"@, spec_enc_opt_bool(sv.verify_host)),
            ("verifyPeer"@, spec_enc_opt_bool(sv.verify_peer)),
        ]);
    }
    JsonValue::Obj(fields)
}

pub fn decode_security(d: &JsonValue) -> (r: Result<SecurityConfig, RelayError>)
    ensures
        r is Ok ==> spec_dec_security(json_view(*d)) == Option::Some(r->Ok_0.deep_view()),
        r is Err ==> spec_dec_security(json_view(*d)) is None && r->Err_0 is Parse,
{
    match d {
        JsonValue::Obj(fields) => {
            let certificates = match obj_get(fields, "certificates") {
                Option::Some(v) => match v {
                    JsonValue::Null => Option::None,
                    _ => match decode_cert_config(v) {
                        Result::Ok(c) => Option::Some(c),
                        Result::Err(e) => {
                            return Result::Err(e);
                        },
                    },
                },
                Option::None => Option::None,
            };
            let validate_certificates = match get_opt_bool_field(fields, "validateCertificates") {
                Result::Ok(v) => v,
                Result::Err(e) => {
                    return Result::Err(e);
                },
            };
            let verify_host = match get_opt_bool_field(fields, "verifyHost") {
                Result::Ok(v) => v,
                Result::Err(e) => {
                    return Result::Err(e);
                },
            };
            let verify_peer = match get_opt_bool_field(fields, "verifyPeer") {
                Result::Ok(v) => v,
                Result::Err(e) => {
                    return Result::Err(e);
                },
            };
            Result::Ok(
                SecurityConfig { certificates, validate_certificates, verify_host, verify_peer },
            )
        },
        _ => Result::Err(decode_error("security")),
    }
}



/// The wire form of a flat urlencoded payload: one string field per pair, in
/// order.
pub open spec fn spec_enc_pairs(pairs: Seq<UrlPairV>) -> JsonV {
    JsonV::Obj(Seq::new(pairs.len(), |i: int| (pairs[i].name, JsonV::Str(pairs[i].value))))
}

pub open spec fn spec_dec_pairs(d: JsonV) -> Option<Seq<UrlPairV>> {
    match d {
        JsonV::Obj(fields) => if forall|i: int|
            0 <= i < fields.len() ==> (#[trigger] fields[i].1) is Str {
            Option::Some(
                Seq::new(
                    fields.len(),
                    |i: int| UrlPairV { name: fields[i].0, value: fields[i].1->Str_0 },
                ),
            )
        } else {
            Option::None
        },
        _ => Option::None,
    }
}

/// Law: every urlencoded payload decodes back from its encoding.
pub proof fn lemma_pairs_round_trip(pairs: Seq<UrlPairV>)
    ensures
        spec_dec_pairs(spec_enc_pairs(pairs)) == Option::Some(pairs),
{
    let fields = Seq::new(pairs.len(), |i: int| (pairs[i].name, JsonV::Str(pairs[i].value)));
    assert(forall|i: int| 0 <= i < fields.len() ==> (#[trigger] fields[i].1) is Str);
    assert(Seq::new(
        fields.len(),
        |i: int| UrlPairV { name: fields[i].0, value: fields[i].1->Str_0 },
    ) =~= pairs);
}

fn encode_pairs(pairs: &Vec<UrlPair>) -> (d: JsonValue)
    ensures
        json_view(d) == spec_enc_pairs(pairs.deep_view()),
{
    let n = pairs.len();
    let mut fields: Vec<(String, JsonValue)> = Vec::new();
    let mut i: usize = 0;
    while i < n
        invariant
            n == pairs.len(),
            0 <= i <= n,
            fields@.len() == i,
            forall|k: int|
                0 <= k < i ==> #[trigger] fields@[k].0@ == pairs@[k].name@ && fields@[k].1
                    == JsonValue::Str(pairs@[k].value),
        decreases n - i,
    {
        fields.push((pairs[i].name.clone(), JsonValue::Str(pairs[i].value.clone())));
        i += 1;
    }
    proof {
        lemma_fields_view_index(fields@);
        assert(json_view_fields(fields@) =~= Seq::new(
            pairs.deep_view().len(),
            |k: int| (pairs.deep_view()[k].name, JsonV::Str(pairs.deep_view()[k].value)),
        ));
    }
    JsonValue::Obj(fields)
}

fn decode_pairs(d: &JsonValue) -> (r: Result<Vec<UrlPair>, RelayError>)
    ensures
        r is Ok ==> spec_dec_pairs(json_view(*d)) == Option::Some(r->Ok_0.deep_view()),
        r is Err ==> spec_dec_pairs(json_view(*d)) is None && r->Err_0 is Parse,
{
    match d {
        JsonValue::Obj(fields) => {
            let ghost vf = json_view_fields(fields@);
            proof {
                lemma_fields_view_index(fields@);
            }
            let n = fields.len();
            let mut out: Vec<UrlPair> = Vec::new();
            let mut i: usize = 0;
            while i < n
                invariant
                    n == fields.len(),
                    0 <= i <= n,
                    out@.len() == i,
                    vf == json_view_fields(fields@),
                    json_view(*d) == JsonV::Obj(vf),
                    vf.len() == n,
                    forall|k: int|
                        0 <= k < n ==> #[trigger] vf[k] == (fields@[k].0@, json_view(fields@[k].1)),
                    forall|k: int|
                        0 <= k < i ==> (#[trigger] vf[k].1) is Str && out@[k].name@ == vf[k].0
                            && out@[k].value@ == vf[k].1->Str_0,
                decreases n - i,
            {
                match &fields[i].1 {
                    JsonValue::Str(s) => {
                        out.push(UrlPair { name: fields[i].0.clone(), value: s.clone() });
                    },
                    _ => {
                        proof {
                            assert(!(vf[i as int].1 is Str));
                        }
                        return Result::Err(decode_error("urlencoded"));
                    },
                }
                i += 1;
            }
            proof {
                assert(Seq::new(
                    vf.len(),
                    |k: int| UrlPairV { name: vf[k].0, value: vf[k].1->Str_0 },
                ) =~= out.deep_view());
            }
            Result::Ok(out)
        },
        _ => Result::Err(decode_error("urlencoded")),
    }
}

pub open spec fn spec_enc_form_value(v: FormValueV) -> JsonV {
    match v {
        FormValueV::Text(s) => JsonV::Obj(seq![("Text"@, JsonV::Str(s))]),
        FormValueV::File { filename, content_type, data } => JsonV::Obj(
            seq![
                (
                    "File"@,
                    JsonV::Obj(
                        seq![
                            ("filename"@, JsonV::Str(filename)),
                            ("content_type"@, spec_enc_media(content_type)),
                            ("data"@, bytes_doc(data)),
                        ],
                    ),
                ),
            ],
        ),
    }
}

pub open spec fn spec_dec_form_value(d: JsonV) -> Option<FormValueV> {
    match d {
        JsonV::Obj(fields) => match lookup(fields, "Text"@) {
            Option::Some(JsonV::Str(s)) => Option::Some(FormValueV::Text(s)),
            Option::Some(_) => Option::None,
            Option::None => match lookup(fields, "File"@) {
                Option::Some(JsonV::Obj(inner)) => {
                    let fname = spec_get_str(inner, "filename"@);
                    let ct = match lookup(inner, "content_type"@) {
                        Option::Some(x) => spec_dec_media(x),
                        Option::None => Option::None,
                    };
                    let data = spec_get_bytes(inner, "data"@);
                    if fname is Some && ct is Some && data is Some {
                        Option::Some(
                            FormValueV::File {
                                filename: fname->Some_0,
                                content_type: ct->Some_0,
                                data: data->Some_0,
                            },
                        )
                    } else {
                        Option::None
                    }
                },
                _ => Option::None,
            },
        },
        _ => Option::None,
    }
}

/// An uploaded file's media type tag is well formed.
pub open spec fn form_value_wf(v: FormValueV) -> bool {
    match v {
        FormValueV::File { content_type, .. } => media_wf(content_type),
        _ => true,
    }
}

/// Law: every well-formed form value decodes back from its encoding.
pub proof fn lemma_form_value_round_trip(v: FormValueV)
    requires
        form_value_wf(v),
    ensures
        spec_dec_form_value(spec_enc_form_value(v)) == Option::Some(v),
{
    reveal_strlit("Text");
    reveal_strlit("File");
    reveal_strlit("filename");
    reveal_strlit("content_type");
    reveal_strlit("data");
    assert(("Text"@).len() == 4);
    assert(("File"@).len() == 4);
    assert(("filename"@).len() == 8);
    assert(("content_type"@).len() == 12);
    assert(("data"@).len() == 4);
    assert(("File"@)[0] != ("Text"@)[0]);
    match v {
        FormValueV::Text(s) => {
            let fields = seq![("Text"@, JsonV::Str(s))];
            lemma_lookup_at(fields, 0);
        },
        FormValueV::File { filename, content_type, data } => {
            let inner = seq![
                ("filename"@, JsonV::Str(filename)),
                ("content_type"@, spec_enc_media(content_type)),
                ("data"@, bytes_doc(data)),
            ];
            let fields = seq![("File"@, JsonV::Obj(inner))];
            assert(fields.drop_first().len() == 0);
            assert(lookup(fields.drop_first(), "Text"@) is None);
            assert(lookup(fields, "Text"@) is None);
            lemma_lookup_at(fields, 0);
            lemma_lookup_at(inner, 0);
            lemma_lookup_at(inner, 1);
            lemma_lookup_at(inner, 2);
            lemma_media_round_trip(content_type);
            lemma_bytes_round_trip(data);
        },
    }
}

fn encode_form_value(v: &FormValue) -> (d: JsonValue)
    ensures
        json_view(d) == spec_enc_form_value(v.deep_view()),
{
    match v {
        FormValue::Text(s) => {
            let mut fields: Vec<(String, JsonValue)> = Vec::new();
            fields.push((String::from_str("Text"), JsonValue::Str(s.clone())));
            proof {
                lemma_fields_view_index(fields@);
                assert(json_view_fields(fields@) =~= seq![("Text"@, JsonV::Str(s@))]);
            }
            JsonValue::Obj(fields)
        },
        FormValue::File { filename, content_type, data } => {
            let mut inner: Vec<(String, JsonValue)> = Vec::new();
            inner.push((String::from_str("filename"), JsonValue::Str(filename.clone())));
            inner.push((String::from_str("content_type"), encode_media(content_type)));
            inner.push((String::from_str("data"), encode_bytes(data)));
            proof {
                lemma_fields_view_index(inner@);
                assert(json_view_fields(inner@) =~= seq![
                    ("filename"@, JsonV::Str(filename@)),
                    ("content_type"@, spec_enc_media(content_type.deep_view())),
                    ("data"@, bytes_doc(data@)),
                ]);
            }
            let mut fields: Vec<(String, JsonValue)> = Vec::new();
            fields.push((String::from_str("File"), JsonValue::Obj(inner)));
            proof {
                lemma_fields_view_index(fields@);
                assert(json_view_fields(fields@) =~= seq![
                    (
                        "File"@,
                        JsonV::Obj(seq![
                            ("filename"@, JsonV::Str(filename@)),
                            ("content_type"@, spec_enc_media(content_type.deep_view())),
                            ("data"@, bytes_doc(data@)),
                        ]),
                    ),
                ]);
            }
            JsonValue::Obj(fields)
        },
    }
}

fn decode_form_value(d: &JsonValue) -> (r: Result<FormValue, RelayError>)
    ensures
        r is Ok ==> spec_dec_form_value(json_view(*d)) == Option::Some(r->Ok_0.deep_view()),
        r is Err ==> spec_dec_form_value(json_view(*d)) is None && r->Err_0 is Parse,
{
    match d {
        JsonValue::Obj(fields) => {
            match obj_get(fields, "Text") {
                Option::Some(v) => match v {
                    JsonValue::Str(s) => Result::Ok(FormValue::Text(s.clone())),
                    _ => Result::Err(decode_error("form value")),
                },
                Option::None => match obj_get(fields, "File") {
                    Option::Some(v) => match v {
                        JsonValue::Obj(inner) => {
                            let filename = match get_str_field(inner, "filename") {
                                Result::Ok(x) => x,
                                Result::Err(e) => {
                                    return Result::Err(e);
                                },
                            };
                            let content_type = match obj_get(inner, "content_type") {
                                Option::Some(x) => match decode_media(x) {
                                    Result::Ok(m) => m,
                                    Result::Err(e) => {
                                        return Result::Err(e);
                                    },
                                },
                                Option::None => {
                                    return Result::Err(decode_error("content_type"));
                                },
                            };
                            let data = match get_bytes_field(inner, "data") {
                                Result::Ok(x) => x,
                                Result::Err(e) => {
                                    return Result::Err(e);
                                },
                            };
                            Result::Ok(FormValue::File { filename, content_type, data })
                        },
                        _ => Result::Err(decode_error("form value")),
                    },
                    Option::None => Result::Err(decode_error("form value")),
                },
            }
        },
        _ => Result::Err(decode_error("form value")),
    }
}



pub open spec fn spec_enc_form_values(vals: Seq<FormValueV>) -> JsonV {
    JsonV::Arr(Seq::new(vals.len(), |i: int| spec_enc_form_value(vals[i])))
}

pub open spec fn spec_dec_form_values(d: JsonV) -> Option<Seq<FormValueV>> {
    match d {
        JsonV::Arr(items) => if forall|i: int|
            0 <= i < items.len() ==> (#[trigger] spec_dec_form_value(items[i])) is Some {
            Option::Some(Seq::new(items.len(), |i: int| spec_dec_form_value(items[i])->Some_0))
        } else {
            Option::None
        },
        _ => Option::None,
    }
}

pub open spec fn form_values_wf(vals: Seq<FormValueV>) -> bool {
    forall|i: int| 0 <= i < vals.len() ==> form_value_wf(#[trigger] vals[i])
}

/// Law: every well-formed value list of one form field decodes back from its
/// encoding.
pub proof fn lemma_form_values_round_trip(vals: Seq<FormValueV>)
    requires
        form_values_wf(vals),
    ensures
        spec_dec_form_values(spec_enc_form_values(vals)) == Option::Some(vals),
{
    let items = Seq::new(vals.len(), |i: int| spec_enc_form_value(vals[i]));
    assert forall|i: int| 0 <= i < items.len() implies (#[trigger] spec_dec_form_value(
        items[i],
    )) is Some by {
        lemma_form_value_round_trip(vals[i]);
    }
    assert forall|i: int| 0 <= i < items.len() implies #[trigger] spec_dec_form_value(
        items[i],
    )->Some_0 == vals[i] by {
        lemma_form_value_round_trip(vals[i]);
    }
    assert(Seq::new(items.len(), |i: int| spec_dec_form_value(items[i])->Some_0) =~= vals);
}

/// The wire form of a whole form payload: one field per entry, in order,
/// each holding the ordered array of that entry's values.
pub open spec fn spec_enc_form(entries: Seq<FormEntryV>) -> JsonV {
    JsonV::Obj(
        Seq::new(
            entries.len(),
            |i: int| (entries[i].name, spec_enc_form_values(entries[i].values)),
        ),
    )
}

pub open spec fn spec_dec_form(d: JsonV) -> Option<Seq<FormEntryV>> {
    match d {
        JsonV::Obj(fields) => if forall|i: int|
            0 <= i < fields.len() ==> (#[trigger] spec_dec_form_values(fields[i].1)) is Some {
            Option::Some(
                Seq::new(
                    fields.len(),
                    |i: int| FormEntryV {
                        name: fields[i].0,
                        values: spec_dec_form_values(fields[i].1)->Some_0,
                    },
                ),
            )
        } else {
            Option::None
        },
        _ => Option::None,
    }
}

pub open spec fn form_entries_wf(entries: Seq<FormEntryV>) -> bool {
    forall|i: int| 0 <= i < entries.len() ==> form_values_wf((#[trigger] entries[i]).values)
}

/// Law: every well-formed form payload decodes back from its encoding.
pub proof fn lemma_form_round_trip(entries: Seq<FormEntryV>)
    requires
        form_entries_wf(entries),
    ensures
        spec_dec_form(spec_enc_form(entries)) == Option::Some(entries),
{
    let fields = Seq::new(
        entries.len(),
        |i: int| (entries[i].name, spec_enc_form_values(entries[i].values)),
    );
    assert forall|i: int| 0 <= i < fields.len() implies (#[trigger] spec_dec_form_values(
        fields[i].1,
    )) is Some by {
        lemma_form_values_round_trip(entries[i].values);
    }
    assert forall|i: int| 0 <= i < fields.len() implies #[trigger] spec_dec_form_values(
        fields[i].1,
    )->Some_0 == entries[i].values by {
        lemma_form_values_round_trip(entries[i].values);
    }
    assert(Seq::new(
        fields.len(),
        |i: int| FormEntryV { name: fields[i].0, values: spec_dec_form_values(fields[i].1)->Some_0 },
    ) =~= entries);
}

fn encode_form_values(vals: &Vec<FormValue>) -> (d: JsonValue)
    ensures
        json_view(d) == spec_enc_form_values(vals.deep_view()),
{
    let n = vals.len();
    let mut items: Vec<JsonValue> = Vec::new();
    let mut i: usize = 0;
    while i < n
        invariant
            n == vals.len(),
            0 <= i <= n,
            items@.len() == i,
            forall|k: int|
                0 <= k < i ==> #[trigger] json_view(items@[k]) == spec_enc_form_value(
                    vals@[k].deep_view(),
                ),
        decreases n - i,
    {
        items.push(encode_form_value(&vals[i]));
        i += 1;
    }
    proof {
        lemma_seq_view_index(items@);
        assert(json_view_seq(items@) =~= Seq::new(
            vals.deep_view().len(),
            |k: int| spec_enc_form_value(vals.deep_view()[k]),
        ));
    }
    JsonValue::Arr(items)
}

fn decode_form_values(d: &JsonValue) -> (r: Result<Vec<FormValue>, RelayError>)
    ensures
        r is Ok ==> spec_dec_form_values(json_view(*d)) == Option::Some(r->Ok_0.deep_view()),
        r is Err ==> spec_dec_form_values(json_view(*d)) is None && r->Err_0 is Parse,
{
    match d {
        JsonValue::Arr(items) => {
            let ghost vitems = json_view_seq(items@);
            proof {
                lemma_seq_view_index(items@);
            }
            let n = items.len();
            let mut out: Vec<FormValue> = Vec::new();
            let mut i: usize = 0;
            while i < n
                invariant
                    n == items.len(),
                    0 <= i <= n,
                    out@.len() == i,
                    vitems == json_view_seq(items@),
                    json_view(*d) == JsonV::Arr(vitems),
                    vitems.len() == n,
                    forall|k: int| 0 <= k < n ==> #[trigger] vitems[k] == json_view(items@[k]),
                    forall|k: int|
                        0 <= k < i ==> (#[trigger] spec_dec_form_value(vitems[k])) is Some
                            && spec_dec_form_value(vitems[k])->Some_0 == out@[k].deep_view(),
                decreases n - i,
            {
                match decode_form_value(&items[i]) {
                    Result::Ok(v) => {
                        out.push(v);
                    },
                    Result::Err(e) => {
                        proof {
                            assert(!(spec_dec_form_value(vitems[i as int]) is Some));
                        }
                        return Result::Err(e);
                    },
                }
                i += 1;
            }
            proof {
                assert forall|k: int| 0 <= k < n implies #[trigger] out.deep_view()[k]
                    == out@[k].deep_view() by {
                }
                assert(Seq::new(vitems.len(), |k: int| spec_dec_form_value(vitems[k])->Some_0)
                    =~= out.deep_view());
            }
            Result::Ok(out)
        },
        _ => Result::Err(decode_error("form values")),
    }
}

fn encode_form(entries: &Vec<FormEntry>) -> (d: JsonValue)
    ensures
        json_view(d) == spec_enc_form(entries.deep_view()),
{
    let n = entries.len();
    let mut fields: Vec<(String, JsonValue)> = Vec::new();
    let mut i: usize = 0;
    while i < n
        invariant
            n == entries.len(),
            0 <= i <= n,
            fields@.len() == i,
            forall|k: int|
                0 <= k < i ==> #[trigger] fields@[k].0@ == entries@[k].name@ && json_view(
                    fields@[k].1,
                ) == spec_enc_form_values(entries@[k].values.deep_view()),
        decreases n - i,
    {
        fields.push((entries[i].name.clone(), encode_form_values(&entries[i].values)));
        i += 1;
    }
    proof {
        lemma_fields_view_index(fields@);
        assert(json_view_fields(fields@) =~= Seq::new(
            entries.deep_view().len(),
            |k: int| (
                entries.deep_view()[k].name,
                spec_enc_form_values(entries.deep_view()[k].values),
            ),
        ));
    }
    JsonValue::Obj(fields)
}

fn decode_form(d: &JsonValue) -> (r: Result<Vec<FormEntry>, RelayError>)
    ensures
        r is Ok ==> spec_dec_form(json_view(*d)) == Option::Some(r->Ok_0.deep_view()),
        r is Err ==> spec_dec_form(json_view(*d)) is None && r->Err_0 is Parse,
{
    match d {
        JsonValue::Obj(fields) => {
            let ghost vf = json_view_fields(fields@);
            proof {
                lemma_fields_view_index(fields@);
            }
            let n = fields.len();
            let mut out: Vec<FormEntry> = Vec::new();
            let mut i: usize = 0;
            while i < n
                invariant
                    n == fields.len(),
                    0 <= i <= n,
                    out@.len() == i,
                    vf == json_view_fields(fields@),
                    json_view(*d) == JsonV::Obj(vf),
                    vf.len() == n,
                    forall|k: int|
                        0 <= k < n ==> #[trigger] vf[k] == (fields@[k].0@, json_view(fields@[k].1)),
                    forall|k: int|
                        0 <= k < i ==> (#[trigger] spec_dec_form_values(vf[k].1)) is Some
                            && out@[k].name@ == vf[k].0 && out@[k].values.deep_view()
                            == spec_dec_form_values(vf[k].1)->Some_0,
                decreases n - i,
            {
                match decode_form_values(&fields[i].1) {
                    Result::Ok(vals) => {
                        out.push(FormEntry { name: fields[i].0.clone(), values: vals });
                    },
                    Result::Err(e) => {
                        proof {
                            assert(!(spec_dec_form_values(vf[i as int].1) is Some));
                        }
                        return Result::Err(e);
                    },
                }
                i += 1;
            }
            proof {
                assert forall|k: int| 0 <= k < n implies #[trigger] out.deep_view()[k]
                    == out@[k].deep_view() by {
                }
                assert(Seq::new(
                    vf.len(),
                    |k: int| FormEntryV {
                        name: vf[k].0,
                        values: spec_dec_form_values(vf[k].1)->Some_0,
                    },
                ) =~= out.deep_view());
            }
            Result::Ok(out)
        },
        _ => Result::Err(decode_error("form")),
    }
}



/// A payload's advisory media tag and any nested media tags are well formed.
pub open spec fn content_wf(c: ContentTypeV) -> bool {
    match c {
        ContentTypeV::Text { media_type, .. } => media_wf(media_type),
        ContentTypeV::Json { media_type, .. } => media_wf(media_type),
        ContentTypeV::Xml { media_type, .. } => media_wf(media_type),
        ContentTypeV::Form { content, media_type } => media_wf(media_type) && form_entries_wf(
            content,
        ),
        ContentTypeV::Binary { media_type, .. } => media_wf(media_type),
        ContentTypeV::Multipart { content, media_type } => media_wf(media_type)
            && form_entries_wf(content),
        ContentTypeV::Urlencoded { media_type, .. } => media_wf(media_type),
    }
}

pub open spec fn spec_enc_content(c: ContentTypeV) -> JsonV {
    match c {
        ContentTypeV::Text { content, media_type } => JsonV::Obj(
            seq![
                ("kind"@, JsonV::Str("text"@)),
                ("content"@, JsonV::Str(content)),
                ("mediaType"@, spec_enc_media(media_type)),
            ],
        ),
        ContentTypeV::Json { content, media_type } => JsonV::Obj(
            seq![
                ("kind"@, JsonV::Str("json"@)),
                ("content"@, content),
                ("mediaType"@, spec_enc_media(media_type)),
            ],
        ),
        ContentTypeV::Xml { content, media_type } => JsonV::Obj(
            seq![
                ("kind"@, JsonV::Str("xml"@)),
                ("content"@, JsonV::Str(content)),
                ("mediaType"@, spec_enc_media(media_type)),
            ],
        ),
        ContentTypeV::Form { content, media_type } => JsonV::Obj(
            seq![
                ("kind"@, JsonV::Str("form"@)),
                ("content"@, spec_enc_form(content)),
                ("mediaType"@, spec_enc_media(media_type)),
            ],
        ),
        ContentTypeV::Binary { content, media_type, filename } => JsonV::Obj(
            seq![
                ("kind"@, JsonV::Str("binary"@)),
                ("content"@, bytes_doc(content)),
                ("mediaType"@, spec_enc_media(media_type)),
                ("filename"@, spec_enc_opt_str(filename)),
            ],
        ),
        ContentTypeV::Multipart { content, media_type } => JsonV::Obj(
            seq![
                ("kind"@, JsonV::Str("multipart"@)),
                ("content"@, spec_enc_form(content)),
                ("mediaType"@, spec_enc_media(media_type)),
            ],
        ),
        ContentTypeV::Urlencoded { content, media_type } => JsonV::Obj(
            seq![
                ("kind"@, JsonV::Str("urlencoded"@)),
                ("content"@, spec_enc_pairs(content)),
                ("mediaType"@, spec_enc_media(media_type)),
            ],
        ),
    }
}

pub open spec fn spec_dec_content(d: JsonV) -> Option<ContentTypeV> {
    match d {
        JsonV::Obj(fields) => {
            let mt = match lookup(fields, "mediaType"@) {
                Option::Some(x) => spec_dec_media(x),
                Option::None => Option::None,
            };
            let content = lookup(fields, "content"@);
            match spec_get_str(fields, "kind"@) {
                Option::Some(k) => if mt is Some && content is Some {
                    if k == "text"@ {
                        match content->Some_0 {
                            JsonV::Str(s) => Option::Some(
                                ContentTypeV::Text { content: s, media_type: mt->Some_0 },
                            ),
                            _ => Option::None,
                        }
                    } else if k == "json"@ {
                        Option::Some(
                            ContentTypeV::Json {
                                content: content->Some_0,
                                media_type: mt->Some_0,
                            },
                        )
                    } else if k == "xml"@ {
                        match content->Some_0 {
                            JsonV::Str(s) => Option::Some(
                                ContentTypeV::Xml { content: s, media_type: mt->Some_0 },
                            ),
                            _ => Option::None,
                        }
                    } else if k == "form"@ {
                        match spec_dec_form(content->Some_0) {
                            Option::Some(entries) => Option::Some(
                                ContentTypeV::Form { content: entries, media_type: mt->Some_0 },
                            ),
                            Option::None => Option::None,
                        }
                    } else if k == "binary"@ {
                        let filename = spec_get_opt_str(fields, "filename"@);
                        match spec_bytes_of(content->Some_0) {
                            Option::Some(b) => if filename is Some {
                                Option::Some(
                                    ContentTypeV::Binary {
                                        content: b,
                                        media_type: mt->Some_0,
                                        filename: filename->Some_0,
                                    },
                                )
                            } else {
                                Option::None
                            },
                            Option::None => Option::None,
                        }
                    } else if k == "multipart"@ {
                        match spec_dec_form(content->Some_0) {
                            Option::Some(entries) => Option::Some(
                                ContentTypeV::Multipart {
                                    content: entries,
                                    media_type: mt->Some_0,
                                },
                            ),
                            Option::None => Option::None,
                        }
                    } else if k == "urlencoded"@ {
                        match spec_dec_pairs(content->Some_0) {
                            Option::Some(pairs) => Option::Some(
                                ContentTypeV::Urlencoded {
                                    content: pairs,
                                    media_type: mt->Some_0,
                                },
                            ),
                            Option::None => Option::None,
                        }
                    } else {
                        Option::None
                    }
                } else {
                    Option::None
                },
                _ => Option::None,
            }
        },
        _ => Option::None,
    }
}

/// Law: every well-formed payload — all seven variants — decodes back from
/// its encoding.
#[verifier::rlimit(100)]
pub proof fn lemma_content_round_trip(c: ContentTypeV)
    requires
        content_wf(c),
    ensures
        spec_dec_content(spec_enc_content(c)) == Option::Some(c),
{
    reveal_strlit("kind");
    reveal_strlit("content");
    reveal_strlit("mediaType");
    reveal_strlit("filename");
    reveal_strlit("text");
    reveal_strlit("json");
    reveal_strlit("xml");
    reveal_strlit("form");
    reveal_strlit("binary");
    reveal_strlit("multipart");
    reveal_strlit("urlencoded");
    assert(("kind"@).len() == 4);
    assert(("content"@).len() == 7);
    assert(("mediaType"@).len() == 9);
    assert(("filename"@).len() == 8);
    assert(("text"@).len() == 4);
    assert(("json"@).len() == 4);
    assert(("xml"@).len() == 3);
    assert(("form"@).len() == 4);
    assert(("binary"@).len() == 6);
    assert(("multipart"@).len() == 9);
    assert(("urlencoded"@).len() == 10);
    assert(("json"@)[0] != ("text"@)[0]);
    assert(("form"@)[0] != ("text"@)[0]);
    assert(("form"@)[0] != ("json"@)[0]);
    assert(("kind"@)[0] != ("text"@)[0]);
    assert(("kind"@)[0] != ("json"@)[0]);
    assert(("kind"@)[0] != ("form"@)[0]);
    match c {
        ContentTypeV::Text { content, media_type } => {
            let fields = seq![
                ("kind"@, JsonV::Str("text"@)),
                ("content"@, JsonV::Str(content)),
                ("mediaType"@, spec_enc_media(media_type)),
            ];
            lemma_lookup_at(fields, 0);
            lemma_lookup_at(fields, 1);
            lemma_lookup_at(fields, 2);
            lemma_media_round_trip(media_type);
        },
        ContentTypeV::Json { content, media_type } => {
            let fields = seq![
                ("kind"@, JsonV::Str("json"@)),
                ("content"@, content),
                ("mediaType"@, spec_enc_media(media_type)),
            ];
            lemma_lookup_at(fields, 0);
            lemma_lookup_at(fields, 1);
            lemma_lookup_at(fields, 2);
            lemma_media_round_trip(media_type);
        },
        ContentTypeV::Xml { content, media_type } => {
            let fields = seq![
                ("kind"@, JsonV::Str("xml"@)),
                ("content"@, JsonV::Str(content)),
                ("mediaType"@, spec_enc_media(media_type)),
            ];
            lemma_lookup_at(fields, 0);
            lemma_lookup_at(fields, 1);
            lemma_lookup_at(fields, 2);
            lemma_media_round_trip(media_type);
        },
        ContentTypeV::Form { content, media_type } => {
            let fields = seq![
                ("kind"@, JsonV::Str("form"@)),
                ("content"@, spec_enc_form(content)),
                ("mediaType"@, spec_enc_media(media_type)),
            ];
            lemma_lookup_at(fields, 0);
            lemma_lookup_at(fields, 1);
            lemma_lookup_at(fields, 2);
            lemma_media_round_trip(media_type);
            lemma_form_round_trip(content);
        },
        ContentTypeV::Binary { content, media_type, filename } => {
            let fields = seq![
                ("kind"@, JsonV::Str("binary"@)),
                ("content"@, bytes_doc(content)),
                ("mediaType"@, spec_enc_media(media_type)),
                ("filename"@, spec_enc_opt_str(filename)),
            ];
            lemma_lookup_at(fields, 0);
            lemma_lookup_at(fields, 1);
            lemma_lookup_at(fields, 2);
            lemma_lookup_at(fields, 3);
            lemma_media_round_trip(media_type);
            lemma_bytes_round_trip(content);
        },
        ContentTypeV::Multipart { content, media_type } => {
            let fields = seq![
                ("kind"@, JsonV::Str("multipart"@)),
                ("content"@, spec_enc_form(content)),
                ("mediaType"@, spec_enc_media(media_type)),
            ];
            lemma_lookup_at(fields, 0);
            lemma_lookup_at(fields, 1);
            lemma_lookup_at(fields, 2);
            lemma_media_round_trip(media_type);
            lemma_form_round_trip(content);
        },
        ContentTypeV::Urlencoded { content, media_type } => {
            let fields = seq![
                ("kind"@, JsonV::Str("urlencoded"@)),
                ("content"@, spec_enc_pairs(content)),
                ("mediaType"@, spec_enc_media(media_type)),
            ];
            lemma_lookup_at(fields, 0);
            lemma_lookup_at(fields, 1);
            lemma_lookup_at(fields, 2);
            lemma_media_round_trip(media_type);
            lemma_pairs_round_trip(content);
        },
    }
}

pub fn encode_content(c: &ContentType) -> (d: JsonValue)
    ensures
        json_view(d) == spec_enc_content(c.deep_view()),
{
    match c {
        ContentType::Text { content, media_type } => {
            let mut fields: Vec<(String, JsonValue)> = Vec::new();
            fields.push((String::from_str("kind"), JsonValue::Str(String::from_str("text"))));
            fields.push((String::from_str("content"), JsonValue::Str(content.clone())));
            fields.push((String::from_str("mediaType"), encode_media(media_type)));
            proof {
                lemma_fields_view_index(fields@);
                assert(json_view_fields(fields@) =~= seq![
                    ("kind"@, JsonV::Str("text"@)),
                    ("content"@, JsonV::Str(content@)),
                    ("mediaType"@, spec_enc_media(media_type.deep_view())),
                ]);
            }
            JsonValue::Obj(fields)
        },
        ContentType::Json { content, media_type } => {
            let mut fields: Vec<(String, JsonValue)> = Vec::new();
            fields.push((String::from_str("kind"), JsonValue::Str(String::from_str("json"))));
            fields.push((String::from_str("content"), json_clone(content)));
            fields.push((String::from_str("mediaType"), encode_media(media_type)));
            proof {
                lemma_fields_view_index(fields@);
                assert(json_view_fields(fields@) =~= seq![
                    ("kind"@, JsonV::Str("json"@)),
                    ("content"@, json_view(*content)),
                    ("mediaType"@, spec_enc_media(media_type.deep_view())),
                ]);
            }
            JsonValue::Obj(fields)
        },
        ContentType::Xml { content, media_type } => {
            let mut fields: Vec<(String, JsonValue)> = Vec::new();
            fields.push((String::from_str("kind"), JsonValue::Str(String::from_str("xml"))));
            fields.push((String::from_str("content"), JsonValue::Str(content.clone())));
            fields.push((String::from_str("mediaType"), encode_media(media_type)));
            proof {
                lemma_fields_view_index(fields@);
                assert(json_view_fields(fields@) =~= seq![
                    ("kind"@, JsonV::Str("xml"@)),
                    ("content"@, JsonV::Str(content@)),
                    ("mediaType"@, spec_enc_media(media_type.deep_view())),
                ]);
            }
            JsonValue::Obj(fields)
        },
        ContentType::Form { content, media_type } => {
            let mut fields: Vec<(String, JsonValue)> = Vec::new();
            fields.push((String::from_str("kind"), JsonValue::Str(String::from_str("form"))));
            fields.push((String::from_str("content"), encode_form(content)));
            fields.push((String::from_str("mediaType"), encode_media(media_type)));
            proof {
                lemma_fields_view_index(fields@);
                assert(json_view_fields(fields@) =~= seq![
                    ("kind"@, JsonV::Str("form"@)),
                    ("content"@, spec_enc_form(content.deep_view())),
                    ("mediaType"@, spec_enc_media(media_type.deep_view())),
                ]);
            }
            JsonValue::Obj(fields)
        },
        ContentType::Binary { content, media_type, filename } => {
            let mut fields: Vec<(String, JsonValue)> = Vec::new();
            fields.push((String::from_str("kind"), JsonValue::Str(String::from_str("binary"))));
            fields.push((String::from_str("content"), encode_bytes(content)));
            fields.push((String::from_str("mediaType"), encode_media(media_type)));
            fields.push((String::from_str("filename"), enc_opt_str(filename)));
            proof {
                lemma_fields_view_index(fields@);
                assert(json_view_fields(fields@) =~= seq![
                    ("kind"@, JsonV::Str("binary"@)),
                    ("content"@, bytes_doc(content@)),
                    ("mediaType"@, spec_enc_media(media_type.deep_view())),
                    ("filename"@, spec_enc_opt_str(filename.deep_view())),
                ]);
            }
            JsonValue::Obj(fields)
        },
        ContentType::Multipart { content, media_type } => {
            let mut fields: Vec<(String, JsonValue)> = Vec::new();
            fields.push((String::from_str("kind"), JsonValue::Str(String::from_str("multipart"))));
            fields.push((String::from_str("content"), encode_form(content)));
            fields.push((String::from_str("mediaType"), encode_media(media_type)));
            proof {
                lemma_fields_view_index(fields@);
                assert(json_view_fields(fields@) =~= seq![
                    ("kind"@, JsonV::Str("multipart"@)),
                    ("content"@, spec_enc_form(content.deep_view())),
                    ("mediaType"@, spec_enc_media(media_type.deep_view())),
                ]);
            }
            JsonValue::Obj(fields)
        },
        ContentType::Urlencoded { content, media_type } => {
            let mut fields: Vec<(String, JsonValue)> = Vec::new();
            fields.push((String::from_str("kind"), JsonValue::Str(String::from_str("urlencoded"))));
            fields.push((String::from_str("content"), encode_pairs(content)));
            fields.push((String::from_str("mediaType"), encode_media(media_type)));
            proof {
                lemma_fields_view_index(fields@);
                assert(json_view_fields(fields@) =~= seq![
                    ("kind"@, JsonV::Str("urlencoded"@)),
                    ("content"@, spec_enc_pairs(content.deep_view())),
                    ("mediaType"@, spec_enc_media(media_type.deep_view())),
                ]);
            }
            JsonValue::Obj(fields)
        },
    }
}

pub fn decode_content(d: &JsonValue) -> (r: Result<ContentType, RelayError>)
    ensures
        r is Ok ==> spec_dec_content(json_view(*d)) == Option::Some(r->Ok_0.deep_view()),
        r is Err ==> spec_dec_content(json_view(*d)) is None && r->Err_0 is Parse,
{
    match d {
        JsonValue::Obj(fields) => {
            let kind = match get_str_field(fields, "kind") {
                Result::Ok(v) => v,
                Result::Err(e) => {
                    return Result::Err(e);
                },
            };
            let media_type = match obj_get(fields, "mediaType") {
                Option::Some(v) => match decode_media(v) {
                    Result::Ok(m) => m,
                    Result::Err(e) => {
                        return Result::Err(e);
                    },
                },
                Option::None => {
                    return Result::Err(decode_error("mediaType"));
                },
            };
            let content_doc = match obj_get(fields, "content") {
                Option::Some(v) => v,
                Option::None => {
                    return Result::Err(decode_error("content"));
                },
            };
            if str_eqx(kind.as_str(), "text") {
                match content_doc {
                    JsonValue::Str(s) => Result::Ok(
                        ContentType::Text { content: s.clone(), media_type },
                    ),
                    _ => Result::Err(decode_error("content")),
                }
            } else if str_eqx(kind.as_str(), "json") {
                Result::Ok(ContentType::Json { content: json_clone(content_doc), media_type })
            } else if str_eqx(kind.as_str(), "xml") {
                match content_doc {
                    JsonValue::Str(s) => Result::Ok(
                        ContentType::Xml { content: s.clone(), media_type },
                    ),
                    _ => Result::Err(decode_error("content")),
                }
            } else if str_eqx(kind.as_str(), "form") {
                match decode_form(content_doc) {
                    Result::Ok(entries) => Result::Ok(
                        ContentType::Form { content: entries, media_type },
                    ),
                    Result::Err(e) => Result::Err(e),
                }
            } else if str_eqx(kind.as_str(), "binary") {
                let filename = match get_opt_str_field(fields, "filename") {
                    Result::Ok(v) => v,
                    Result::Err(e) => {
                        return Result::Err(e);
                    },
                };
                match decode_bytes(content_doc, "content") {
                    Result::Ok(b) => Result::Ok(
                        ContentType::Binary { content: b, media_type, filename },
                    ),
                    Result::Err(e) => Result::Err(e),
                }
            } else if str_eqx(kind.as_str(), "multipart") {
                match decode_form(content_doc) {
                    Result::Ok(entries) => Result::Ok(
                        ContentType::Multipart { content: entries, media_type },
                    ),
                    Result::Err(e) => Result::Err(e),
                }
            } else if str_eqx(kind.as_str(), "urlencoded") {
                match decode_pairs(content_doc) {
                    Result::Ok(pairs) => Result::Ok(
                        ContentType::Urlencoded { content: pairs, media_type },
                    ),
                    Result::Err(e) => Result::Err(e),
                }
            } else {
                Result::Err(decode_error("kind"))
            }
        },
        _ => Result::Err(decode_error("content")),
    }
}



/// The wire form of a header mapping: one field per entry, in order, holding
/// the ordered array of that entry's values.
pub open spec fn spec_enc_headers(entries: Seq<HeaderEntryV>) -> JsonV {
    JsonV::Obj(
        Seq::new(
            entries.len(),
            |i: int| (
                entries[i].name,
                JsonV::Arr(
                    Seq::new(entries[i].values.len(), |j: int| JsonV::Str(entries[i].values[j])),
                ),
            ),
        ),
    )
}

pub open spec fn spec_str_values_of(d: JsonV) -> Option<Seq<Seq<char>>> {
    match d {
        JsonV::Arr(items) => if forall|i: int|
            0 <= i < items.len() ==> (#[trigger] items[i]) is Str {
            Option::Some(Seq::new(items.len(), |i: int| items[i]->Str_0))
        } else {
            Option::None
        },
        _ => Option::None,
    }
}

pub open spec fn spec_dec_headers(d: JsonV) -> Option<Seq<HeaderEntryV>> {
    match d {
        JsonV::Obj(fields) => if forall|i: int|
            0 <= i < fields.len() ==> (#[trigger] spec_str_values_of(fields[i].1)) is Some {
            Option::Some(
                Seq::new(
                    fields.len(),
                    |i: int| HeaderEntryV {
                        name: fields[i].0,
                        values: spec_str_values_of(fields[i].1)->Some_0,
                    },
                ),
            )
        } else {
            Option::None
        },
        _ => Option::None,
    }
}

/// Law: every header mapping decodes back from its encoding.
pub proof fn lemma_headers_round_trip(entries: Seq<HeaderEntryV>)
    ensures
        spec_dec_headers(spec_enc_headers(entries)) == Option::Some(entries),
{
    let fields = Seq::new(
        entries.len(),
        |i: int| (
            entries[i].name,
            JsonV::Arr(
                Seq::new(entries[i].values.len(), |j: int| JsonV::Str(entries[i].values[j])),
            ),
        ),
    );
    assert forall|i: int| 0 <= i < fields.len() implies (#[trigger] spec_str_values_of(
        fields[i].1,
    )) is Some by {
        let vals = Seq::new(entries[i].values.len(), |j: int| JsonV::Str(entries[i].values[j]));
        assert(forall|j: int| 0 <= j < vals.len() ==> (#[trigger] vals[j]) is Str);
    }
    assert forall|i: int| 0 <= i < fields.len() implies #[trigger] spec_str_values_of(
        fields[i].1,
    )->Some_0 == entries[i].values by {
        let vals = Seq::new(entries[i].values.len(), |j: int| JsonV::Str(entries[i].values[j]));
        assert(forall|j: int| 0 <= j < vals.len() ==> (#[trigger] vals[j]) is Str);
        assert(Seq::new(vals.len(), |j: int| vals[j]->Str_0) =~= entries[i].values);
    }
    assert(Seq::new(
        fields.len(),
        |i: int| HeaderEntryV { name: fields[i].0, values: spec_str_values_of(fields[i].1)->Some_0 },
    ) =~= entries);
}

fn encode_str_values(vals: &Vec<String>) -> (d: JsonValue)
    ensures
        json_view(d) == JsonV::Arr(
            Seq::new(vals.deep_view().len(), |j: int| JsonV::Str(vals.deep_view()[j])),
        ),
{
    let n = vals.len();
    let mut items: Vec<JsonValue> = Vec::new();
    let mut i: usize = 0;
    while i < n
        invariant
            n == vals.len(),
            0 <= i <= n,
            items@.len() == i,
            forall|k: int| 0 <= k < i ==> #[trigger] items@[k] == JsonValue::Str(vals@[k]),
        decreases n - i,
    {
        items.push(JsonValue::Str(vals[i].clone()));
        i += 1;
    }
    proof {
        lemma_seq_view_index(items@);
        assert(json_view_seq(items@) =~= Seq::new(
            vals.deep_view().len(),
            |j: int| JsonV::Str(vals.deep_view()[j]),
        ));
    }
    JsonValue::Arr(items)
}

fn decode_str_values(d: &JsonValue) -> (r: Result<Vec<String>, RelayError>)
    ensures
        r is Ok ==> spec_str_values_of(json_view(*d)) == Option::Some(r->Ok_0.deep_view()),
        r is Err ==> spec_str_values_of(json_view(*d)) is None && r->Err_0 is Parse,
{
    match d {
        JsonValue::Arr(items) => {
            let ghost vitems = json_view_seq(items@);
            proof {
                lemma_seq_view_index(items@);
            }
            let n = items.len();
            let mut out: Vec<String> = Vec::new();
            let mut i: usize = 0;
            while i < n
                invariant
                    n == items.len(),
                    0 <= i <= n,
                    out@.len() == i,
                    vitems == json_view_seq(items@),
                    json_view(*d) == JsonV::Arr(vitems),
                    vitems.len() == n,
                    forall|k: int| 0 <= k < n ==> #[trigger] vitems[k] == json_view(items@[k]),
                    forall|k: int|
                        0 <= k < i ==> (#[trigger] vitems[k]) is Str && out@[k]@
                            == vitems[k]->Str_0,
                decreases n - i,
            {
                match &items[i] {
                    JsonValue::Str(s) => {
                        out.push(s.clone());
                    },
                    _ => {
                        proof {
                            assert(!(vitems[i as int] is Str));
                        }
                        return Result::Err(decode_error("header values"));
                    },
                }
                i += 1;
            }
            proof {
                assert(Seq::new(vitems.len(), |k: int| vitems[k]->Str_0) =~= out.deep_view());
            }
            Result::Ok(out)
        },
        _ => Result::Err(decode_error("header values")),
    }
}

pub fn encode_headers(m: &HeaderMap) -> (d: JsonValue)
    ensures
        json_view(d) == spec_enc_headers(m@),
{
    let n = m.entries.len();
    let mut fields: Vec<(String, JsonValue)> = Vec::new();
    let mut i: usize = 0;
    while i < n
        invariant
            n == m.entries.len(),
            0 <= i <= n,
            fields@.len() == i,
            forall|k: int|
                0 <= k < i ==> #[trigger] fields@[k].0@ == m.entries@[k].name@ && json_view(
                    fields@[k].1,
                ) == JsonV::Arr(
                    Seq::new(
                        m.entries@[k].values.deep_view().len(),
                        |j: int| JsonV::Str(m.entries@[k].values.deep_view()[j]),
                    ),
                ),
        decreases n - i,
    {
        fields.push((m.entries[i].name.clone(), encode_str_values(&m.entries[i].values)));
        i += 1;
    }
    proof {
        lemma_fields_view_index(fields@);
        assert(json_view_fields(fields@) =~= Seq::new(
            m@.len(),
            |k: int| (
                m@[k].name,
                JsonV::Arr(Seq::new(m@[k].values.len(), |j: int| JsonV::Str(m@[k].values[j]))),
            ),
        ));
    }
    JsonValue::Obj(fields)
}

pub fn decode_headers(d: &JsonValue) -> (r: Result<HeaderMap, RelayError>)
    ensures
        r is Ok ==> spec_dec_headers(json_view(*d)) == Option::Some(r->Ok_0@),
        r is Err ==> spec_dec_headers(json_view(*d)) is None && r->Err_0 is Parse,
{
    match d {
        JsonValue::Obj(fields) => {
            let ghost vf = json_view_fields(fields@);
            proof {
                lemma_fields_view_index(fields@);
            }
            let n = fields.len();
            let mut out: Vec<HeaderEntry> = Vec::new();
            let mut i: usize = 0;
            while i < n
                invariant
                    n == fields.len(),
                    0 <= i <= n,
                    out@.len() == i,
                    vf == json_view_fields(fields@),
                    json_view(*d) == JsonV::Obj(vf),
                    vf.len() == n,
                    forall|k: int|
                        0 <= k < n ==> #[trigger] vf[k] == (fields@[k].0@, json_view(fields@[k].1)),
                    forall|k: int|
                        0 <= k < i ==> (#[trigger] spec_str_values_of(vf[k].1)) is Some
                            && out@[k].name@ == vf[k].0 && out@[k].values.deep_view()
                            == spec_str_values_of(vf[k].1)->Some_0,
                decreases n - i,
            {
                match decode_str_values(&fields[i].1) {
                    Result::Ok(vals) => {
                        out.push(HeaderEntry { name: fields[i].0.clone(), values: vals });
                    },
                    Result::Err(e) => {
                        proof {
                            assert(!(spec_str_values_of(vf[i as int].1) is Some));
                        }
                        return Result::Err(e);
                    },
                }
                i += 1;
            }
            let hm = HeaderMap { entries: out };
            proof {
                assert forall|k: int| 0 <= k < n implies #[trigger] hm@[k]
                    == (HeaderEntryV { name: vf[k].0, values: spec_str_values_of(vf[k].1)->Some_0 })
                     by {
                }
                assert(Seq::new(
                    vf.len(),
                    |k: int| HeaderEntryV {
                        name: vf[k].0,
                        values: spec_str_values_of(vf[k].1)->Some_0,
                    },
                ) =~= hm@);
            }
            Result::Ok(hm)
        },
        _ => Result::Err(decode_error("headers")),
    }
}



/// The wire form of an optional cookie list: an array of cookie documents,
/// or null for absence.
pub open spec fn spec_enc_cookies(cs: Option<Seq<CookieV>>) -> JsonV {
    match cs {
        Option::Some(list) => JsonV::Arr(Seq::new(list.len(), |i: int| spec_enc_cookie(list[i]))),
        Option::None => JsonV::Null,
    }
}

pub open spec fn spec_dec_cookies(d: JsonV) -> Option<Option<Seq<CookieV>>> {
    match d {
        JsonV::Null => Option::Some(Option::None),
        JsonV::Arr(items) => if forall|i: int|
            0 <= i < items.len() ==> (#[trigger] spec_dec_cookie(items[i])) is Some {
            Option::Some(
                Option::Some(Seq::new(items.len(), |i: int| spec_dec_cookie(items[i])->Some_0)),
            )
        } else {
            Option::None
        },
        _ => Option::None,
    }
}

/// Law: every optional cookie list decodes back from its encoding.
pub proof fn lemma_cookies_round_trip(cs: Option<Seq<CookieV>>)
    ensures
        spec_dec_cookies(spec_enc_cookies(cs)) == Option::Some(cs),
{
    match cs {
        Option::None => {
        },
        Option::Some(list) => {
            let items = Seq::new(list.len(), |i: int| spec_enc_cookie(list[i]));
            assert forall|i: int| 0 <= i < items.len() implies (#[trigger] spec_dec_cookie(
                items[i],
            )) is Some by {
                lemma_cookie_round_trip(list[i]);
            }
            assert forall|i: int| 0 <= i < items.len() implies #[trigger] spec_dec_cookie(
                items[i],
            )->Some_0 == list[i] by {
                lemma_cookie_round_trip(list[i]);
            }
            assert(Seq::new(items.len(), |i: int| spec_dec_cookie(items[i])->Some_0) =~= list);
        },
    }
}

fn encode_cookies(list: &Vec<Cookie>) -> (d: JsonValue)
    ensures
        json_view(d) == spec_enc_cookies(Option::Some(list.deep_view())),
{
    let n = list.len();
    let mut items: Vec<JsonValue> = Vec::new();
    let mut i: usize = 0;
    while i < n
        invariant
            n == list.len(),
            0 <= i <= n,
            items@.len() == i,
            forall|k: int|
                0 <= k < i ==> #[trigger] json_view(items@[k]) == spec_enc_cookie(
                    list@[k].deep_view(),
                ),
        decreases n - i,
    {
        items.push(encode_cookie(&list[i]));
        i += 1;
    }
    proof {
        lemma_seq_view_index(items@);
        assert(json_view_seq(items@) =~= Seq::new(
            list.deep_view().len(),
            |k: int| spec_enc_cookie(list.deep_view()[k]),
        ));
    }
    JsonValue::Arr(items)
}

fn decode_cookies(d: &JsonValue) -> (r: Result<Option<Vec<Cookie>>, RelayError>)
    ensures
        r is Ok ==> spec_dec_cookies(json_view(*d)) == Option::Some(
            match r->Ok_0 {
                Option::Some(list) => Option::Some(list.deep_view()),
                Option::None => Option::None,
            },
        ),
        r is Err ==> spec_dec_cookies(json_view(*d)) is None && r->Err_0 is Parse,
{
    match d {
        JsonValue::Null => Result::Ok(Option::None),
        JsonValue::Arr(items) => {
            let ghost vitems = json_view_seq(items@);
            proof {
                lemma_seq_view_index(items@);
            }
            let n = items.len();
            let mut out: Vec<Cookie> = Vec::new();
            let mut i: usize = 0;
            while i < n
                invariant
                    n == items.len(),
                    0 <= i <= n,
                    out@.len() == i,
                    vitems == json_view_seq(items@),
                    json_view(*d) == JsonV::Arr(vitems),
                    vitems.len() == n,
                    forall|k: int| 0 <= k < n ==> #[trigger] vitems[k] == json_view(items@[k]),
                    forall|k: int|
                        0 <= k < i ==> (#[trigger] spec_dec_cookie(vitems[k])) is Some
                            && spec_dec_cookie(vitems[k])->Some_0 == out@[k].deep_view(),
                decreases n - i,
            {
                match decode_cookie(&items[i]) {
                    Result::Ok(c) => {
                        out.push(c);
                    },
                    Result::Err(e) => {
                        proof {
                            assert(!(spec_dec_cookie(vitems[i as int]) is Some));
                        }
                        return Result::Err(e);
                    },
                }
                i += 1;
            }
            proof {
                assert(Seq::new(vitems.len(), |k: int| spec_dec_cookie(vitems[k])->Some_0)
                    =~= out.deep_view());
            }
            Result::Ok(Option::Some(out))
        },
        _ => Result::Err(decode_error("cookies")),
    }
}

pub open spec fn spec_enc_body(b: ResponseBodyV) -> JsonV {
    JsonV::Obj(
        seq![("content"@, bytes_doc(b.body)), ("mediaType"@, spec_enc_media(b.media_type))],
    )
}

pub open spec fn spec_dec_body(d: JsonV) -> Option<ResponseBodyV> {
    match d {
        JsonV::Obj(fields) => {
            let content = spec_get_bytes(fields, "content"@);
            let mt = match lookup(fields, "mediaType"@) {
                Option::Some(x) => spec_dec_media(x),
                Option::None => Option::None,
            };
            if content is Some && mt is Some {
                Option::Some(ResponseBodyV { body: content->Some_0, media_type: mt->Some_0 })
            } else {
                Option::None
            }
        },
        _ => Option::None,
    }
}

/// Law: every well-formed response body decodes back from its encoding.
pub proof fn lemma_body_round_trip(b: ResponseBodyV)
    requires
        media_wf(b.media_type),
    ensures
        spec_dec_body(spec_enc_body(b)) == Option::Some(b),
{
    reveal_strlit("content");
    reveal_strlit("mediaType");
    assert(("content"@).len() == 7);
    assert(("mediaType"@).len() == 9);
    let fields = seq![
        ("content"@, bytes_doc(b.body)),
        ("mediaType"@, spec_enc_media(b.media_type)),
    ];
    lemma_lookup_at(fields, 0);
    lemma_lookup_at(fields, 1);
    lemma_bytes_round_trip(b.body);
    lemma_media_round_trip(b.media_type);
}

pub fn encode_body(b: &ResponseBody) -> (d: JsonValue)
    ensures
        json_view(d) == spec_enc_body(b.deep_view()),
{
    let mut fields: Vec<(String, JsonValue)> = Vec::new();
    fields.push((String::from_str("content"), encode_bytes(&b.body)));
    fields.push((String::from_str("mediaType"), encode_media(&b.media_type)));
    proof {
        lemma_fields_view_index(fields@);
        assert(json_view_fields(fields@) =~= seq![
            ("content"@, bytes_doc(b.body@)),
            ("mediaType"@, spec_enc_media(b.media_type.deep_view())),
        ]);
    }
    JsonValue::Obj(fields)
}

pub fn decode_body(d: &JsonValue) -> (r: Result<ResponseBody, RelayError>)
    ensures
        r is Ok ==> spec_dec_body(json_view(*d)) == Option::Some(r->Ok_0.deep_view()),
        r is Err ==> spec_dec_body(json_view(*d)) is None && r->Err_0 is Parse,
{
    match d {
        JsonValue::Obj(fields) => {
            let body = match get_bytes_field(fields, "content") {
                Result::Ok(v) => v,
                Result::Err(e) => {
                    return Result::Err(e);
                },
            };
            let media_type = match obj_get(fields, "mediaType") {
                Option::Some(v) => match decode_media(v) {
                    Result::Ok(m) => m,
                    Result::Err(e) => {
                        return Result::Err(e);
                    },
                },
                Option::None => {
                    return Result::Err(decode_error("mediaType"));
                },
            };
            Result::Ok(ResponseBody { body, media_type })
        },
        _ => Result::Err(decode_error("body")),
    }
}

pub open spec fn spec_enc_response(r: ResponseV) -> JsonV {
    JsonV::Obj(
        seq![
            ("id"@, JsonV::NumI(r.id)),
            ("status"@, JsonV::NumU(r.status as u64)),
            ("statusText"@, JsonV::Str(r.status_text)),
            ("protocol"@, spec_enc_protocol(r.protocol)),
            ("headers"@, spec_enc_headers(r.headers)),
            ("cookies"@, spec_enc_cookies(r.cookies)),
            ("content"@, spec_enc_body(r.content)),
            ("meta"@, spec_enc_meta(r.meta)),
        ],
    )
}

pub open spec fn spec_dec_response(d: JsonV) -> Option<ResponseV> {
    match d {
        JsonV::Obj(fields) => {
            let id = spec_get_i64(fields, "id"@);
            let status = spec_get_u64(fields, "status"@);
            let status_text = spec_get_str(fields, "statusText"@);
            let protocol = match lookup(fields, "protocol"@) {
                Option::Some(x) => spec_dec_protocol(x),
                Option::None => Option::None,
            };
            let headers = match lookup(fields, "headers"@) {
                Option::Some(x) => spec_dec_headers(x),
                Option::None => Option::None,
            };
            let cookies = match lookup(fields, "cookies"@) {
                Option::None => Option::Some(Option::None),
                Option::Some(x) => spec_dec_cookies(x),
            };
            let content = match lookup(fields, "content"@) {
                Option::Some(x) => spec_dec_body(x),
                Option::None => Option::None,
            };
            let meta = match lookup(fields, "meta"@) {
                Option::Some(x) => spec_dec_meta(x),
                Option::None => Option::None,
            };
            if id is Some && status is Some && status->Some_0 <= u16::MAX as u64 && status_text
                is Some && protocol is Some && headers is Some && cookies is Some && content
                is Some && meta is Some {
                Option::Some(
                    ResponseV {
                        id: id->Some_0,
                        status: status->Some_0 as u16,
                        status_text: status_text->Some_0,
                        protocol: protocol->Some_0,
                        headers: headers->Some_0,
                        cookies: cookies->Some_0,
                        content: content->Some_0,
                        meta: (ResponseMeta {
                            timing: meta->Some_0.0,
                            size: SizeInfo::from_parts(
                                meta->Some_0.1.0,
                                meta->Some_0.1.1,
                                meta->Some_0.1.2,
                            ),
                        }),
                    },
                )
            } else {
                Option::None
            }
        },
        _ => Option::None,
    }
}



/// Law: every well-formed response — the full assembled record — decodes
/// back from its encoding.
#[verifier::rlimit(100)]
pub proof fn lemma_response_round_trip(r: ResponseV)
    requires
        media_wf(r.content.media_type),
        r.meta.size.wf(),
    ensures
        spec_dec_response(spec_enc_response(r)) == Option::Some(r),
{
    reveal_strlit("id");
    reveal_strlit("status");
    reveal_strlit("statusText");
    reveal_strlit("protocol");
    reveal_strlit("headers");
    reveal_strlit("cookies");
    reveal_strlit("content");
    reveal_strlit("meta");
    assert(("id"@).len() == 2);
    assert(("status"@).len() == 6);
    assert(("statusText"@).len() == 10);
    assert(("protocol"@).len() == 8);
    assert(("headers"@).len() == 7);
    assert(("cookies"@).len() == 7);
    assert(("content"@).len() == 7);
    assert(("meta"@).len() == 4);
    assert(("cookies"@)[0] != ("headers"@)[0]);
    assert(("content"@)[0] != ("headers"@)[0]);
    assert(("content"@)[2] != ("cookies"@)[2]);
    let fields = seq![
        ("id"@, JsonV::NumI(r.id)),
        ("status"@, JsonV::NumU(r.status as u64)),
        ("statusText"@, JsonV::Str(r.status_text)),
        ("protocol"@, spec_enc_protocol(r.protocol)),
        ("headers"@, spec_enc_headers(r.headers)),
        ("cookies"@, spec_enc_cookies(r.cookies)),
        ("content"@, spec_enc_body(r.content)),
        ("meta"@, spec_enc_meta(r.meta)),
    ];
    lemma_lookup_at(fields, 0);
    lemma_lookup_at(fields, 1);
    lemma_lookup_at(fields, 2);
    lemma_lookup_at(fields, 3);
    lemma_lookup_at(fields, 4);
    lemma_lookup_at(fields, 5);
    lemma_lookup_at(fields, 6);
    lemma_lookup_at(fields, 7);
    lemma_protocol_round_trip(r.protocol);
    lemma_headers_round_trip(r.headers);
    lemma_cookies_round_trip(r.cookies);
    lemma_body_round_trip(r.content);
    lemma_meta_round_trip(r.meta);
    SizeInfo::lemma_from_parts(
        r.meta.size.spec_headers(),
        r.meta.size.spec_body(),
        r.meta.size.spec_total(),
    );
    SizeInfo::lemma_parts_determine(
        SizeInfo::from_parts(
            r.meta.size.spec_headers(),
            r.meta.size.spec_body(),
            r.meta.size.spec_total(),
        ),
        r.meta.size,
    );
}

pub fn encode_response(r: &Response) -> (d: JsonValue)
    ensures
        json_view(d) == spec_enc_response(r.deep_view()),
{
    let cookies_val = match &r.cookies {
        Option::Some(list) => encode_cookies(list),
        Option::None => JsonValue::Null,
    };
    let mut fields: Vec<(String, JsonValue)> = Vec::new();
    fields.push((String::from_str("id"), JsonValue::NumI(r.id)));
    fields.push((String::from_str("status"), JsonValue::NumU(r.status as u64)));
    fields.push((String::from_str("statusText"), JsonValue::Str(r.status_text.clone())));
    fields.push((String::from_str("protocol"), encode_protocol(&r.protocol)));
    fields.push((String::from_str("headers"), encode_headers(&r.headers)));
    fields.push((String::from_str("cookies"), cookies_val));
    fields.push((String::from_str("content"), encode_body(&r.content)));
    fields.push((String::from_str("meta"), encode_meta(&r.meta)));
    proof {
        lemma_fields_view_index(fields@);
        let rv = r.deep_view();
        assert(json_view_fields(fields@) =~= seq![
            ("id"@, JsonV::NumI(rv.id)),
            ("status"@, JsonV::NumU(rv.status as u64)),
            ("statusText"@, JsonV::Str(rv.status_text)),
            ("protocol"@, spec_enc_protocol(rv.protocol)),
            ("headers"@, spec_enc_headers(rv.headers)),
            ("cookies"@, spec_enc_cookies(rv.cookies)),
            ("content"@, spec_enc_body(rv.content)),
            ("meta"@, spec_enc_meta(rv.meta)),
        ]);
    }
    JsonValue::Obj(fields)
}

pub fn decode_response(d: &JsonValue) -> (r: Result<Response, RelayError>)
    ensures
        r is Ok ==> spec_dec_response(json_view(*d)) == Option::Some(r->Ok_0.deep_view()),
        r is Err ==> spec_dec_response(json_view(*d)) is None && r->Err_0 is Parse,
{
    match d {
        JsonValue::Obj(fields) => {
            let id = match get_i64_field(fields, "id") {
                Result::Ok(v) => v,
                Result::Err(e) => {
                    return Result::Err(e);
                },
            };
            let status_u64 = match get_u64_field(fields, "status") {
                Result::Ok(v) => v,
                Result::Err(e) => {
                    return Result::Err(e);
                },
            };
            if status_u64 > 65535 {
                return Result::Err(decode_error("status"));
            }
            let status = status_u64 as u16;
            let status_text = match get_str_field(fields, "statusText") {
                Result::Ok(v) => v,
                Result::Err(e) => {
                    return Result::Err(e);
                },
            };
            let protocol = match obj_get(fields, "protocol") {
                Option::Some(v) => match decode_protocol(v) {
                    Result::Ok(p) => p,
                    Result::Err(e) => {
                        return Result::Err(e);
                    },
                },
                Option::None => {
                    return Result::Err(decode_error("protocol"));
                },
            };
            let headers = match obj_get(fields, "headers") {
                Option::Some(v) => match decode_headers(v) {
                    Result::Ok(h) => h,
                    Result::Err(e) => {
                        return Result::Err(e);
                    },
                },
                Option::None => {
                    return Result::Err(decode_error("headers"));
                },
            };
            let cookies = match obj_get(fields, "cookies") {
                Option::Some(v) => match decode_cookies(v) {
                    Result::Ok(c) => c,
                    Result::Err(e) => {
                        return Result::Err(e);
                    },
                },
                Option::None => Option::None,
            };
            let content = match obj_get(fields, "content") {
                Option::Some(v) => match decode_body(v) {
                    Result::Ok(b) => b,
                    Result::Err(e) => {
                        return Result::Err(e);
                    },
                },
                Option::None => {
                    return Result::Err(decode_error("content"));
                },
            };
            let meta = match obj_get(fields, "meta") {
                Option::Some(v) => match decode_meta(v) {
                    Result::Ok(m) => m,
                    Result::Err(e) => {
                        return Result::Err(e);
                    },
                },
                Option::None => {
                    return Result::Err(decode_error("meta"));
                },
            };
            proof {
                SizeInfo::lemma_from_parts(
                    meta.size.spec_headers(),
                    meta.size.spec_body(),
                    meta.size.spec_total(),
                );
                SizeInfo::lemma_parts_determine(
                    SizeInfo::from_parts(
                        meta.size.spec_headers(),
                        meta.size.spec_body(),
                        meta.size.spec_total(),
                    ),
                    meta.size,
                );
            }
            Result::Ok(
                Response { id, status, status_text, protocol, headers, cookies, content, meta },
            )
        },
        _ => Result::Err(decode_error("response")),
    }
}



pub open spec fn spec_enc_request(r: RequestV) -> JsonV {
    let headers_doc = match r.headers {
        Option::Some(h) => spec_enc_headers(h),
        Option::None => JsonV::Null,
    };
    let params_doc = match r.params {
        Option::Some(h) => spec_enc_headers(h),
        Option::None => JsonV::Null,
    };
    let content_doc = match r.content {
        Option::Some(c) => spec_enc_content(c),
        Option::None => JsonV::Null,
    };
    let auth_doc = match r.auth {
        Option::Some(a) => spec_enc_auth(a),
        Option::None => JsonV::Null,
    };
    let security_doc = match r.security {
        Option::Some(s) => spec_enc_security(s),
        Option::None => JsonV::Null,
    };
    let proxy_doc = match r.proxy {
        Option::Some(p) => spec_enc_proxy(p),
        Option::None => JsonV::Null,
    };
    JsonV::Obj(
        seq![
            ("id"@, JsonV::NumI(r.id)),
            ("url"@, JsonV::Str(r.url)),
            ("method"@, JsonV::Str(r.method)),
            ("protocol"@, spec_enc_protocol(r.protocol)),
            ("headers"@, headers_doc),
            ("params"@, params_doc),
            ("content"@, content_doc),
            ("auth"@, auth_doc),
            ("security"@, security_doc),
            ("proxy"@, proxy_doc),
        ],
    )
}

pub open spec fn spec_dec_request(d: JsonV) -> Option<RequestV> {
    match d {
        JsonV::Obj(fields) => {
            let id = spec_get_i64(fields, "id"@);
            let url = spec_get_str(fields, "url"@);
            let method = spec_get_str(fields, "method"@);
            let protocol = match lookup(fields, "protocol"@) {
                Option::Some(x) => spec_dec_protocol(x),
                Option::None => Option::None,
            };
            let headers = match lookup(fields, "headers"@) {
                Option::None => Option::Some(Option::None),
                Option::Some(JsonV::Null) => Option::Some(Option::None),
                Option::Some(x) => match spec_dec_headers(x) {
                    Option::Some(h) => Option::Some(Option::Some(h)),
                    Option::None => Option::None,
                },
            };
            let params = match lookup(fields, "params"@) {
                Option::None => Option::Some(Option::None),
                Option::Some(JsonV::Null) => Option::Some(Option::None),
                Option::Some(x) => match spec_dec_headers(x) {
                    Option::Some(h) => Option::Some(Option::Some(h)),
                    Option::None => Option::None,
                },
            };
            let content = match lookup(fields, "content"@) {
                Option::None => Option::Some(Option::None),
                Option::Some(JsonV::Null) => Option::Some(Option::None),
                Option::Some(x) => match spec_dec_content(x) {
                    Option::Some(c) => Option::Some(Option::Some(c)),
                    Option::None => Option::None,
                },
            };
            let auth = match lookup(fields, "auth"@) {
                Option::None => Option::Some(Option::None),
                Option::Some(JsonV::Null) => Option::Some(Option::None),
                Option::Some(x) => match spec_dec_auth(x) {
                    Option::Some(a) => Option::Some(Option::Some(a)),
                    Option::None => Option::None,
                },
            };
            let security = match lookup(fields, "security"@) {
                Option::None => Option::Some(Option::None),
                Option::Some(JsonV::Null) => Option::Some(Option::None),
                Option::Some(x) => match spec_dec_security(x) {
                    Option::Some(s) => Option::Some(Option::Some(s)),
                    Option::None => Option::None,
                },
            };
            let proxy = match lookup(fields, "proxy"@) {
                Option::None => Option::Some(Option::None),
                Option::Some(JsonV::Null) => Option::Some(Option::None),
                Option::Some(x) => match spec_dec_proxy(x) {
                    Option::Some(p) => Option::Some(Option::Some(p)),
                    Option::None => Option::None,
                },
            };
            if id is Some && url is Some && method is Some && protocol is Some && headers is Some
                && params is Some && content is Some && auth is Some && security is Some && proxy
                is Some {
                Option::Some(
                    RequestV {
                        id: id->Some_0,
                        url: url->Some_0,
                        method: method->Some_0,
                        protocol: protocol->Some_0,
                        headers: headers->Some_0,
                        params: params->Some_0,
                        content: content->Some_0,
                        auth: auth->Some_0,
                        security: security->Some_0,
                        proxy: proxy->Some_0,
                    },
                )
            } else {
                Option::None
            }
        },
        _ => Option::None,
    }
}

/// A request is well formed when its payload, if present, is.
pub open spec fn request_wf(r: RequestV) -> bool {
    match r.content {
        Option::Some(c) => content_wf(c),
        Option::None => true,
    }
}

/// Law: every well-formed request description decodes back from its
/// encoding.
#[verifier::rlimit(100)]
pub proof fn lemma_request_round_trip(r: RequestV)
    requires
        request_wf(r),
    ensures
        spec_dec_request(spec_enc_request(r)) == Option::Some(r),
{
    reveal_strlit("id");
    reveal_strlit("url");
    reveal_strlit("method");
    reveal_strlit("protocol");
    reveal_strlit("headers");
    reveal_strlit("params");
    reveal_strlit("content");
    reveal_strlit("auth");
    reveal_strlit("security");
    reveal_strlit("proxy");
    assert(("id"@).len() == 2);
    assert(("url"@).len() == 3);
    assert(("method"@).len() == 6);
    assert(("protocol"@).len() == 8);
    assert(("headers"@).len() == 7);
    assert(("params"@).len() == 6);
    assert(("content"@).len() == 7);
    assert(("auth"@).len() == 4);
    assert(("security"@).len() == 8);
    assert(("proxy"@).len() == 5);
    assert(("params"@)[0] != ("method"@)[0]);
    assert(("content"@)[0] != ("headers"@)[0]);
    assert(("security"@)[0] != ("protocol"@)[0]);
    let headers_doc = match r.headers {
        Option::Some(h) => spec_enc_headers(h),
        Option::None => JsonV::Null,
    };
    let params_doc = match r.params {
        Option::Some(h) => spec_enc_headers(h),
        Option::None => JsonV::Null,
    };
    let content_doc = match r.content {
        Option::Some(c) => spec_enc_content(c),
        Option::None => JsonV::Null,
    };
    let auth_doc = match r.auth {
        Option::Some(a) => spec_enc_auth(a),
        Option::None => JsonV::Null,
    };
    let security_doc = match r.security {
        Option::Some(s) => spec_enc_security(s),
        Option::None => JsonV::Null,
    };
    let proxy_doc = match r.proxy {
        Option::Some(p) => spec_enc_proxy(p),
        Option::None => JsonV::Null,
    };
    let fields = seq![
        ("id"@, JsonV::NumI(r.id)),
        ("url"@, JsonV::Str(r.url)),
        ("method"@, JsonV::Str(r.method)),
        ("protocol"@, spec_enc_protocol(r.protocol)),
        ("headers"@, headers_doc),
        ("params"@, params_doc),
        ("content"@, content_doc),
        ("auth"@, auth_doc),
        ("security"@, security_doc),
        ("proxy"@, proxy_doc),
    ];
    lemma_lookup_at(fields, 0);
    lemma_lookup_at(fields, 1);
    lemma_lookup_at(fields, 2);
    lemma_lookup_at(fields, 3);
    lemma_lookup_at(fields, 4);
    lemma_lookup_at(fields, 5);
    lemma_lookup_at(fields, 6);
    lemma_lookup_at(fields, 7);
    lemma_lookup_at(fields, 8);
    lemma_lookup_at(fields, 9);
    lemma_protocol_round_trip(r.protocol);
    match r.headers {
        Option::Some(h) => lemma_headers_round_trip(h),
        Option::None => (),
    }
    match r.params {
        Option::Some(h) => lemma_headers_round_trip(h),
        Option::None => (),
    }
    match r.content {
        Option::Some(c) => lemma_content_round_trip(c),
        Option::None => (),
    }
    match r.auth {
        Option::Some(a) => lemma_auth_round_trip(a),
        Option::None => (),
    }
    match r.security {
        Option::Some(s) => lemma_security_round_trip(s),
        Option::None => (),
    }
    match r.proxy {
        Option::Some(p) => lemma_proxy_round_trip(p),
        Option::None => (),
    }
}

pub fn encode_request(r: &Request) -> (d: JsonValue)
    ensures
        json_view(d) == spec_enc_request(r.deep_view()),
{
    let headers_val = match &r.headers {
        Option::Some(h) => encode_headers(h),
        Option::None => JsonValue::Null,
    };
    let params_val = match &r.params {
        Option::Some(h) => encode_headers(h),
        Option::None => JsonValue::Null,
    };
    let content_val = match &r.content {
        Option::Some(c) => encode_content(c),
        Option::None => JsonValue::Null,
    };
    let auth_val = match &r.auth {
        Option::Some(a) => encode_auth(a),
        Option::None => JsonValue::Null,
    };
    let security_val = match &r.security {
        Option::Some(s) => encode_security(s),
        Option::None => JsonValue::Null,
    };
    let proxy_val = match &r.proxy {
        Option::Some(p) => encode_proxy(p),
        Option::None => JsonValue::Null,
    };
    let mut fields: Vec<(String, JsonValue)> = Vec::new();
    fields.push((String::from_str("id"), JsonValue::NumI(r.id)));
    fields.push((String::from_str("url"), JsonValue::Str(r.url.clone())));
    fields.push((String::from_str("method"), JsonValue::Str(r.method.clone())));
    fields.push((String::from_str("protocol"), encode_protocol(&r.protocol)));
    fields.push((String::from_str("headers"), headers_val));
    fields.push((String::from_str("params"), params_val));
    fields.push((String::from_str("content"), content_val));
    fields.push((String::from_str("auth"), auth_val));
    fields.push((String::from_str("security"), security_val));
    fields.push((String::from_str("proxy"), proxy_val));
    proof {
        lemma_fields_view_index(fields@);
        let rv = r.deep_view();
        let headers_doc = match rv.headers {
            Option::Some(h) => spec_enc_headers(h),
            Option::None => JsonV::Null,
        };
        let params_doc = match rv.params {
            Option::Some(h) => spec_enc_headers(h),
            Option::None => JsonV::Null,
        };
        let content_doc = match rv.content {
            Option::Some(c) => spec_enc_content(c),
            Option::None => JsonV::Null,
        };
        let auth_doc = match rv.auth {
            Option::Some(a) => spec_enc_auth(a),
            Option::None => JsonV::Null,
        };
        let security_doc = match rv.security {
            Option::Some(s) => spec_enc_security(s),
            Option::None => JsonV::Null,
        };
        let proxy_doc = match rv.proxy {
            Option::Some(p) => spec_enc_proxy(p),
            Option::None => JsonV::Null,
        };
        assert(json_view_fields(fields@) =~= seq![
            ("id"@, JsonV::NumI(rv.id)),
            ("url"@, JsonV::Str(rv.url)),
            ("method"@, JsonV::Str(rv.method)),
            ("protocol"@, spec_enc_protocol(rv.protocol)),
            ("headers"@, headers_doc),
            ("params"@, params_doc),
            ("content"@, content_doc),
            ("auth"@, auth_doc),
            ("security"@, security_doc),
            ("proxy"@, proxy_doc),
        ]);
    }
    JsonValue::Obj(fields)
}

pub fn decode_request(d: &JsonValue) -> (r: Result<Request, RelayError>)
    ensures
        r is Ok ==> spec_dec_request(json_view(*d)) == Option::Some(r->Ok_0.deep_view()),
        r is Err ==> spec_dec_request(json_view(*d)) is None && r->Err_0 is Parse,
{
    match d {
        JsonValue::Obj(fields) => {
            let id = match get_i64_field(fields, "id") {
                Result::Ok(v) => v,
                Result::Err(e) => {
                    return Result::Err(e);
                },
            };
            let url = match get_str_field(fields, "url") {
                Result::Ok(v) => v,
                Result::Err(e) => {
                    return Result::Err(e);
                },
            };
            let method = match get_str_field(fields, "method") {
                Result::Ok(v) => v,
                Result::Err(e) => {
                    return Result::Err(e);
                },
            };
            let protocol = match obj_get(fields, "protocol") {
                Option::Some(v) => match decode_protocol(v) {
                    Result::Ok(p) => p,
                    Result::Err(e) => {
                        return Result::Err(e);
                    },
                },
                Option::None => {
                    return Result::Err(decode_error("protocol"));
                },
            };
            let headers = match obj_get(fields, "headers") {
                Option::Some(v) => match v {
                    JsonValue::Null => Option::None,
                    _ => match decode_headers(v) {
                        Result::Ok(h) => Option::Some(h),
                        Result::Err(e) => {
                            return Result::Err(e);
                        },
                    },
                },
                Option::None => Option::None,
            };
            let params = match obj_get(fields, "params") {
                Option::Some(v) => match v {
                    JsonValue::Null => Option::None,
                    _ => match decode_headers(v) {
                        Result::Ok(h) => Option::Some(h),
                        Result::Err(e) => {
                            return Result::Err(e);
                        },
                    },
                },
                Option::None => Option::None,
            };
            let content = match obj_get(fields, "content") {
                Option::Some(v) => match v {
                    JsonValue::Null => Option::None,
                    _ => match decode_content(v) {
                        Result::Ok(c) => Option::Some(c),
                        Result::Err(e) => {
                            return Result::Err(e);
                        },
                    },
                },
                Option::None => Option::None,
            };
            let auth = match obj_get(fields, "auth") {
                Option::Some(v) => match v {
                    JsonValue::Null => Option::None,
                    _ => match decode_auth(v) {
                        Result::Ok(a) => Option::Some(a),
                        Result::Err(e) => {
                            return Result::Err(e);
                        },
                    },
                },
                Option::None => Option::None,
            };
            let security = match obj_get(fields, "security") {
                Option::Some(v) => match v {
                    JsonValue::Null => Option::None,
                    _ => match decode_security(v) {
                        Result::Ok(s) => Option::Some(s),
                        Result::Err(e) => {
                            return Result::Err(e);
                        },
                    },
                },
                Option::None => Option::None,
            };
            let proxy = match obj_get(fields, "proxy") {
                Option::Some(v) => match v {
                    JsonValue::Null => Option::None,
                    _ => match decode_proxy(v) {
                        Result::Ok(p) => Option::Some(p),
                        Result::Err(e) => {
                            return Result::Err(e);
                        },
                    },
                },
                Option::None => Option::None,
            };
            Result::Ok(
                Request {
                    id,
                    url,
                    method,
                    protocol,
                    headers,
                    params,
                    content,
                    auth,
                    security,
                    proxy,
                },
            )
        },
        _ => Result::Err(decode_error("request")),
    }
}

} // verus!

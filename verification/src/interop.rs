//! The taxonomy: closed variant families for protocol versions, media types,
//! payload encodings, authentication schemes, security and proxy
//! configuration, plus the request and response records built from them.
//!
//! Every type here is plain data. Ghost mirror types (`...V`) give each record
//! a mathematical model over `Seq` so that contracts and the wire codec can
//! speak about values exactly.

use vstd::prelude::*;

use crate::wire::{json_view, JsonV, JsonValue};

verus! {

/// HTTP protocol version negotiated with the transport engine.
#[derive(Debug, Clone, Copy, PartialEq, Eq, Structural)]
pub enum Protocol {
    Http10,
    Http11,
    Http2,
    Http3,
}

impl DeepView for Protocol {
    type V = Protocol;

    open spec fn deep_view(&self) -> Protocol {
        *self
    }
}

/// Media type catalog: common MIME identifiers plus an open-world fallback
/// member that preserves an arbitrary unrecognized identifier.
#[derive(Debug, Clone, PartialEq, Eq)]
pub enum MediaType {
    TextPlain,
    TextHtml,
    TextCss,
    TextCsv,
    Json,
    JsonLd,
    Xml,
    TextXml,
    FormUrlEncoded,
    MultipartFormData,
    OctetStream,
    Other(String),
}

/// Model of [`MediaType`].
pub enum MediaTypeV {
    TextPlain,
    TextHtml,
    TextCss,
    TextCsv,
    Json,
    JsonLd,
    Xml,
    TextXml,
    FormUrlEncoded,
    MultipartFormData,
    OctetStream,
    Other(Seq<char>),
}

impl DeepView for MediaType {
    type V = MediaTypeV;

    open spec fn deep_view(&self) -> MediaTypeV {
        match self {
            MediaType::TextPlain => MediaTypeV::TextPlain,
            MediaType::TextHtml => MediaTypeV::TextHtml,
            MediaType::TextCss => MediaTypeV::TextCss,
            MediaType::TextCsv => MediaTypeV::TextCsv,
            MediaType::Json => MediaTypeV::Json,
            MediaType::JsonLd => MediaTypeV::JsonLd,
            MediaType::Xml => MediaTypeV::Xml,
            MediaType::TextXml => MediaTypeV::TextXml,
            MediaType::FormUrlEncoded => MediaTypeV::FormUrlEncoded,
            MediaType::MultipartFormData => MediaTypeV::MultipartFormData,
            MediaType::OctetStream => MediaTypeV::OctetStream,
            MediaType::Other(s) => MediaTypeV::Other(s@),
        }
    }
}

/// The canonical wire spelling of each catalog member; the fallback member
/// spells as the string it preserves.
pub open spec fn media_name(m: MediaTypeV) -> Seq<char> {
    match m {
        MediaTypeV::TextPlain => "text/plain"@,
        MediaTypeV::TextHtml => "text/html"@,
        MediaTypeV::TextCss => "text/css"@,
        MediaTypeV::TextCsv => "text/csv"@,
        MediaTypeV::Json => "application/json"@,
        MediaTypeV::JsonLd => "application/ld+json"@,
        MediaTypeV::Xml => "application/xml"@,
        MediaTypeV::TextXml => "text/xml"@,
        MediaTypeV::FormUrlEncoded => "application/x-www-form-urlencoded"@,
        MediaTypeV::MultipartFormData => "multipart/form-data"@,
        MediaTypeV::OctetStream => "application/octet-stream"@,
        MediaTypeV::Other(s) => s,
    }
}

/// A media type value is well formed when its fallback member does not spell
/// like a catalog member; the decoder never produces such a value.
pub open spec fn media_wf(m: MediaTypeV) -> bool {
    match m {
        MediaTypeV::Other(s) => {
            &&& s != "text/plain"@
            &&& s != "text/html"@
            &&& s != "text/css"@
            &&& s != "text/csv"@
            &&& s != "application/json"@
            &&& s != "application/ld+json"@
            &&& s != "application/xml"@
            &&& s != "text/xml"@
            &&& s != "application/x-www-form-urlencoded"@
            &&& s != "multipart/form-data"@
            &&& s != "application/octet-stream"@
        },
        _ => true,
    }
}

/// One value of a submitted form field: inline text or an uploaded file.
#[derive(Debug, Clone, PartialEq, Eq)]
pub enum FormValue {
    Text(String),
    File { filename: String, content_type: MediaType, data: Vec<u8> },
}

/// Model of [`FormValue`].
pub enum FormValueV {
    Text(Seq<char>),
    File { filename: Seq<char>, content_type: MediaTypeV, data: Seq<u8> },
}

impl DeepView for FormValue {
    type V = FormValueV;

    open spec fn deep_view(&self) -> FormValueV {
        match self {
            FormValue::Text(s) => FormValueV::Text(s@),
            FormValue::File { filename, content_type, data } => FormValueV::File {
                filename: filename@,
                content_type: content_type.deep_view(),
                data: data@,
            },
        }
    }
}

/// One named form field with its ordered values; repeating a field name over
/// several entries is legal (multi-value fields).
#[derive(Debug, Clone, PartialEq, Eq)]
pub struct FormEntry {
    pub name: String,
    pub values: Vec<FormValue>,
}

/// Model of [`FormEntry`].
pub struct FormEntryV {
    pub name: Seq<char>,
    pub values: Seq<FormValueV>,
}

impl DeepView for FormEntry {
    type V = FormEntryV;

    open spec fn deep_view(&self) -> FormEntryV {
        FormEntryV { name: self.name@, values: self.values.deep_view() }
    }
}

/// One key/value pair of a flat urlencoded payload.
#[derive(Debug, Clone, PartialEq, Eq)]
pub struct UrlPair {
    pub name: String,
    pub value: String,
}

/// Model of [`UrlPair`].
pub struct UrlPairV {
    pub name: Seq<char>,
    pub value: Seq<char>,
}

impl DeepView for UrlPair {
    type V = UrlPairV;

    open spec fn deep_view(&self) -> UrlPairV {
        UrlPairV { name: self.name@, value: self.value@ }
    }
}

/// Request or response payload: every variant carries a payload of the
/// matching shape plus an advisory media type tag. The tag is metadata and is
/// not validated against the variant.
#[derive(Debug, PartialEq, Eq)]
pub enum ContentType {
    Text { content: String, media_type: MediaType },
    Json { content: JsonValue, media_type: MediaType },
    Xml { content: String, media_type: MediaType },
    Form { content: Vec<FormEntry>, media_type: MediaType },
    Binary { content: Vec<u8>, media_type: MediaType, filename: Option<String> },
    Multipart { content: Vec<FormEntry>, media_type: MediaType },
    Urlencoded { content: Vec<UrlPair>, media_type: MediaType },
}

/// Model of [`ContentType`].
pub enum ContentTypeV {
    Text { content: Seq<char>, media_type: MediaTypeV },
    Json { content: JsonV, media_type: MediaTypeV },
    Xml { content: Seq<char>, media_type: MediaTypeV },
    Form { content: Seq<FormEntryV>, media_type: MediaTypeV },
    Binary { content: Seq<u8>, media_type: MediaTypeV, filename: Option<Seq<char>> },
    Multipart { content: Seq<FormEntryV>, media_type: MediaTypeV },
    Urlencoded { content: Seq<UrlPairV>, media_type: MediaTypeV },
}

impl DeepView for ContentType {
    type V = ContentTypeV;

    open spec fn deep_view(&self) -> ContentTypeV {
        match self {
            ContentType::Text { content, media_type } => ContentTypeV::Text {
                content: content@,
                media_type: media_type.deep_view(),
            },
            ContentType::Json { content, media_type } => ContentTypeV::Json {
                content: json_view(*content),
                media_type: media_type.deep_view(),
            },
            ContentType::Xml { content, media_type } => ContentTypeV::Xml {
                content: content@,
                media_type: media_type.deep_view(),
            },
            ContentType::Form { content, media_type } => ContentTypeV::Form {
                content: content.deep_view(),
                media_type: media_type.deep_view(),
            },
            ContentType::Binary { content, media_type, filename } => ContentTypeV::Binary {
                content: content@,
                media_type: media_type.deep_view(),
                filename: filename.deep_view(),
            },
            ContentType::Multipart { content, media_type } => ContentTypeV::Multipart {
                content: content.deep_view(),
                media_type: media_type.deep_view(),
            },
            ContentType::Urlencoded { content, media_type } => ContentTypeV::Urlencoded {
                content: content.deep_view(),
                media_type: media_type.deep_view(),
            },
        }
    }
}

/// Digest challenge algorithm.
#[derive(Debug, Clone, Copy, PartialEq, Eq, Structural)]
pub enum DigestAlgorithm {
    Md5,
    Sha256,
    Sha512,
}

impl DeepView for DigestAlgorithm {
    type V = DigestAlgorithm;

    open spec fn deep_view(&self) -> DigestAlgorithm {
        *self
    }
}

/// Digest quality-of-protection directive.
#[derive(Debug, Clone, Copy, PartialEq, Eq, Structural)]
pub enum DigestQop {
    Auth,
    AuthInt,
}

impl DeepView for DigestQop {
    type V = DigestQop;

    open spec fn deep_view(&self) -> DigestQop {
        *self
    }
}

/// Authentication scheme. Digest challenge parameters typically arrive from a
/// prior server challenge and may each be absent on a first attempt.
#[derive(Debug, Clone, PartialEq, Eq)]
pub enum AuthType {
    NoAuth,
    Basic {
        username: String,
        password: String,
    },
    Bearer {
        token: String,
    },
    Digest {
        username: String,
        password: String,
        realm: Option<String>,
        nonce: Option<String>,
        opaque: Option<String>,
        algorithm: Option<DigestAlgorithm>,
        qop: Option<DigestQop>,
        nc: Option<String>,
        cnonce: Option<String>,
    },
}

/// Model of [`AuthType`].
pub enum AuthTypeV {
    NoAuth,
    Basic {
        username: Seq<char>,
        password: Seq<char>,
    },
    Bearer {
        token: Seq<char>,
    },
    Digest {
        username: Seq<char>,
        password: Seq<char>,
        realm: Option<Seq<char>>,
        nonce: Option<Seq<char>>,
        opaque: Option<Seq<char>>,
        algorithm: Option<DigestAlgorithm>,
        qop: Option<DigestQop>,
        nc: Option<Seq<char>>,
        cnonce: Option<Seq<char>>,
    },
}

impl DeepView for AuthType {
    type V = AuthTypeV;

    open spec fn deep_view(&self) -> AuthTypeV {
        match self {
            AuthType::NoAuth => AuthTypeV::NoAuth,
            AuthType::Basic { username, password } => AuthTypeV::Basic {
                username: username@,
                password: password@,
            },
            AuthType::Bearer { token } => AuthTypeV::Bearer { token: token@ },
            AuthType::Digest { username, password, realm, nonce, opaque, algorithm, qop, nc, cnonce } => AuthTypeV::Digest {
                username: username@,
                password: password@,
                realm: realm.deep_view(),
                nonce: nonce.deep_view(),
                opaque: opaque.deep_view(),
                algorithm: algorithm.deep_view(),
                qop: qop.deep_view(),
                nc: nc.deep_view(),
                cnonce: cnonce.deep_view(),
            },
        }
    }
}

/// Client certificate material.
#[derive(Debug, Clone, PartialEq, Eq)]
pub enum CertificateType {
    Pem { cert: Vec<u8>, key: Vec<u8> },
    Pfx { data: Vec<u8>, password: String },
}

/// Model of [`CertificateType`].
pub enum CertificateTypeV {
    Pem { cert: Seq<u8>, key: Seq<u8> },
    Pfx { data: Seq<u8>, password: Seq<char> },
}

impl DeepView for CertificateType {
    type V = CertificateTypeV;

    open spec fn deep_view(&self) -> CertificateTypeV {
        match self {
            CertificateType::Pem { cert, key } => CertificateTypeV::Pem { cert: cert@, key: key@ },
            CertificateType::Pfx { data, password } => CertificateTypeV::Pfx {
                data: data@,
                password: password@,
            },
        }
    }
}

/// Certificate configuration; absence of a field defers to the transport
/// engine's default.
#[derive(Debug, Clone, PartialEq, Eq)]
pub struct CertificateConfig {
    pub client: Option<CertificateType>,
    pub ca: Option<Vec<Vec<u8>>>,
}

/// Model of [`CertificateConfig`].
pub struct CertificateConfigV {
    pub client: Option<CertificateTypeV>,
    pub ca: Option<Seq<Seq<u8>>>,
}

impl DeepView for CertificateConfig {
    type V = CertificateConfigV;

    open spec fn deep_view(&self) -> CertificateConfigV {
        CertificateConfigV { client: self.client.deep_view(), ca: self.ca.deep_view() }
    }
}

/// Security configuration; absence of a field defers to the transport
/// engine's default (conventionally verify-peer and verify-host enabled).
#[derive(Debug, Clone, PartialEq, Eq)]
pub struct SecurityConfig {
    pub certificates: Option<CertificateConfig>,
    pub validate_certificates: Option<bool>,
    pub verify_host: Option<bool>,
    pub verify_peer: Option<bool>,
}

/// Model of [`SecurityConfig`].
pub struct SecurityConfigV {
    pub certificates: Option<CertificateConfigV>,
    pub validate_certificates: Option<bool>,
    pub verify_host: Option<bool>,
    pub verify_peer: Option<bool>,
}

impl DeepView for SecurityConfig {
    type V = SecurityConfigV;

    open spec fn deep_view(&self) -> SecurityConfigV {
        SecurityConfigV {
            certificates: self.certificates.deep_view(),
            validate_certificates: self.validate_certificates,
            verify_host: self.verify_host,
            verify_peer: self.verify_peer,
        }
    }
}

/// Credentials for an authenticating proxy.
#[derive(Debug, Clone, PartialEq, Eq)]
pub struct ProxyAuth {
    pub username: String,
    pub password: String,
}

/// Model of [`ProxyAuth`].
pub struct ProxyAuthV {
    pub username: Seq<char>,
    pub password: Seq<char>,
}

impl DeepView for ProxyAuth {
    type V = ProxyAuthV;

    open spec fn deep_view(&self) -> ProxyAuthV {
        ProxyAuthV { username: self.username@, password: self.password@ }
    }
}

/// Proxy configuration: the proxy URL plus optional credentials.
#[derive(Debug, Clone, PartialEq, Eq)]
pub struct ProxyConfig {
    pub url: String,
    pub auth: Option<ProxyAuth>,
}

/// Model of [`ProxyConfig`].
pub struct ProxyConfigV {
    pub url: Seq<char>,
    pub auth: Option<ProxyAuthV>,
}

impl DeepView for ProxyConfig {
    type V = ProxyConfigV;

    open spec fn deep_view(&self) -> ProxyConfigV {
        ProxyConfigV { url: self.url@, auth: self.auth.deep_view() }
    }
}

/// Cookie same-site directive. `NoneAttr` stands for the wire spelling
/// "None".
#[derive(Debug, Clone, Copy, PartialEq, Eq, Structural)]
pub enum SameSite {
    Strict,
    Lax,
    NoneAttr,
}

impl DeepView for SameSite {
    type V = SameSite;

    open spec fn deep_view(&self) -> SameSite {
        *self
    }
}

/// A cookie with its independently optional attributes; expiry is in seconds
/// since the standard epoch.
#[derive(Debug, Clone, PartialEq, Eq)]
pub struct Cookie {
    pub name: String,
    pub value: String,
    pub domain: Option<String>,
    pub path: Option<String>,
    pub expires: Option<i64>,
    pub secure: Option<bool>,
    pub http_only: Option<bool>,
    pub same_site: Option<SameSite>,
}

/// Model of [`Cookie`].
pub struct CookieV {
    pub name: Seq<char>,
    pub value: Seq<char>,
    pub domain: Option<Seq<char>>,
    pub path: Option<Seq<char>>,
    pub expires: Option<i64>,
    pub secure: Option<bool>,
    pub http_only: Option<bool>,
    pub same_site: Option<SameSite>,
}

impl DeepView for Cookie {
    type V = CookieV;

    open spec fn deep_view(&self) -> CookieV {
        CookieV {
            name: self.name@,
            value: self.value@,
            domain: self.domain.deep_view(),
            path: self.path.deep_view(),
            expires: self.expires,
            secure: self.secure,
            http_only: self.http_only,
            same_site: self.same_site,
        }
    }
}

/// Transfer timing in milliseconds since the standard epoch. A negative
/// duration from clock skew is representable and passed through unchanged.
#[derive(Debug, Clone, Copy, PartialEq, Eq, Structural)]
pub struct TimingInfo {
    pub start: u64,
    pub end: u64,
}

impl DeepView for TimingInfo {
    type V = TimingInfo;

    open spec fn deep_view(&self) -> TimingInfo {
        *self
    }
}

/// Transfer sizes in bytes. The total is enforced to be the sum of the header
/// and body sizes at construction and is never independently settable.
#[derive(Debug, Clone, Copy, PartialEq, Eq, Structural)]
pub struct SizeInfo {
    headers: u64,
    body: u64,
    total: u64,
}

impl SizeInfo {
    /// Header byte count.
    pub closed spec fn spec_headers(&self) -> u64 {
        self.headers
    }

    /// Body byte count.
    pub closed spec fn spec_body(&self) -> u64 {
        self.body
    }

    /// Total byte count.
    pub closed spec fn spec_total(&self) -> u64 {
        self.total
    }

    /// The one invariant of the record: the total is the sum of its parts.
    pub open spec fn wf(&self) -> bool {
        self.spec_total() == self.spec_headers() + self.spec_body()
    }

    pub fn new(headers: u64, body: u64) -> (r: SizeInfo)
        requires
            headers + body <= u64::MAX,
        ensures
            r.spec_headers() == headers,
            r.spec_body() == body,
            r.spec_total() == headers + body,
            r.wf(),
    {
        SizeInfo { headers, body, total: headers + body }
    }

    pub fn headers(&self) -> (r: u64)
        ensures
            r == self.spec_headers(),
    {
        self.headers
    }

    pub fn body(&self) -> (r: u64)
        ensures
            r == self.spec_body(),
    {
        self.body
    }

    pub fn total(&self) -> (r: u64)
        ensures
            r == self.spec_total(),
    {
        self.total
    }

    /// The record holding the given parts; the wire decoder uses it to state
    /// exactly which record it reconstructs.
    pub closed spec fn from_parts(headers: u64, body: u64, total: u64) -> SizeInfo {
        SizeInfo { headers, body, total }
    }

    /// The parts of `from_parts` read back unchanged.
    pub proof fn lemma_from_parts(headers: u64, body: u64, total: u64)
        ensures
            Self::from_parts(headers, body, total).spec_headers() == headers,
            Self::from_parts(headers, body, total).spec_body() == body,
            Self::from_parts(headers, body, total).spec_total() == total,
    {
    }

    /// Two size records with the same parts are the same record.
    pub proof fn lemma_parts_determine(a: SizeInfo, b: SizeInfo)
        requires
            a.spec_headers() == b.spec_headers(),
            a.spec_body() == b.spec_body(),
            a.spec_total() == b.spec_total(),
        ensures
            a == b,
    {
    }
}

impl DeepView for SizeInfo {
    type V = SizeInfo;

    open spec fn deep_view(&self) -> SizeInfo {
        *self
    }
}

/// Timing and size metrics of one finished transfer.
#[derive(Debug, Clone, Copy, PartialEq, Eq, Structural)]
pub struct ResponseMeta {
    pub timing: TimingInfo,
    pub size: SizeInfo,
}

impl DeepView for ResponseMeta {
    type V = ResponseMeta;

    open spec fn deep_view(&self) -> ResponseMeta {
        *self
    }
}

/// One header name with its ordered value sequence.
#[derive(Debug, Clone, PartialEq, Eq)]
pub struct HeaderEntry {
    pub name: String,
    pub values: Vec<String>,
}

/// Model of [`HeaderEntry`].
pub struct HeaderEntryV {
    pub name: Seq<char>,
    pub values: Seq<Seq<char>>,
}

impl DeepView for HeaderEntry {
    type V = HeaderEntryV;

    open spec fn deep_view(&self) -> HeaderEntryV {
        HeaderEntryV { name: self.name@, values: self.values.deep_view() }
    }
}

/// A header mapping: an ordered association of header names to ordered value
/// sequences. Repeated headers live as several values under one entry.
#[derive(Debug, Clone, PartialEq, Eq)]
pub struct HeaderMap {
    pub entries: Vec<HeaderEntry>,
}

impl DeepView for HeaderMap {
    type V = Seq<HeaderEntryV>;

    open spec fn deep_view(&self) -> Seq<HeaderEntryV> {
        self.entries.deep_view()
    }
}

impl View for HeaderMap {
    type V = Seq<HeaderEntryV>;

    open spec fn view(&self) -> Seq<HeaderEntryV> {
        self.entries.deep_view()
    }
}

/// A declarative request description, immutable once constructed. The
/// correlation id is a caller-assigned token; its uniqueness is the caller's
/// responsibility and is not validated here.
#[derive(Debug, PartialEq, Eq)]
pub struct Request {
    pub id: i64,
    pub url: String,
    pub method: String,
    pub protocol: Protocol,
    pub headers: Option<HeaderMap>,
    pub params: Option<HeaderMap>,
    pub content: Option<ContentType>,
    pub auth: Option<AuthType>,
    pub security: Option<SecurityConfig>,
    pub proxy: Option<ProxyConfig>,
}

/// Model of [`Request`].
pub struct RequestV {
    pub id: i64,
    pub url: Seq<char>,
    pub method: Seq<char>,
    pub protocol: Protocol,
    pub headers: Option<Seq<HeaderEntryV>>,
    pub params: Option<Seq<HeaderEntryV>>,
    pub content: Option<ContentTypeV>,
    pub auth: Option<AuthTypeV>,
    pub security: Option<SecurityConfigV>,
    pub proxy: Option<ProxyConfigV>,
}

impl DeepView for Request {
    type V = RequestV;

    open spec fn deep_view(&self) -> RequestV {
        RequestV {
            id: self.id,
            url: self.url@,
            method: self.method@,
            protocol: self.protocol,
            headers: self.headers.deep_view(),
            params: self.params.deep_view(),
            content: self.content.deep_view(),
            auth: self.auth.deep_view(),
            security: self.security.deep_view(),
            proxy: self.proxy.deep_view(),
        }
    }
}

/// The response body bytes together with their classified media type.
#[derive(Debug, Clone, PartialEq, Eq)]
pub struct ResponseBody {
    pub body: Vec<u8>,
    pub media_type: MediaType,
}

/// Model of [`ResponseBody`].
pub struct ResponseBodyV {
    pub body: Seq<u8>,
    pub media_type: MediaTypeV,
}

impl DeepView for ResponseBody {
    type V = ResponseBodyV;

    open spec fn deep_view(&self) -> ResponseBodyV {
        ResponseBodyV { body: self.body@, media_type: self.media_type.deep_view() }
    }
}

/// A finished response, constructed exactly once by the response builder and
/// immutable thereafter. Cookies are left unset for an external collaborator
/// to populate.
#[derive(Debug, Clone, PartialEq, Eq)]
pub struct Response {
    pub id: i64,
    pub status: u16,
    pub status_text: String,
    pub protocol: Protocol,
    pub headers: HeaderMap,
    pub cookies: Option<Vec<Cookie>>,
    pub content: ResponseBody,
    pub meta: ResponseMeta,
}

/// Model of [`Response`].
pub struct ResponseV {
    pub id: i64,
    pub status: u16,
    pub status_text: Seq<char>,
    pub protocol: Protocol,
    pub headers: Seq<HeaderEntryV>,
    pub cookies: Option<Seq<CookieV>>,
    pub content: ResponseBodyV,
    pub meta: ResponseMeta,
}

impl DeepView for Response {
    type V = ResponseV;

    open spec fn deep_view(&self) -> ResponseV {
        ResponseV {
            id: self.id,
            status: self.status,
            status_text: self.status_text@,
            protocol: self.protocol,
            headers: self.headers.deep_view(),
            cookies: self.cookies.deep_view(),
            content: self.content.deep_view(),
            meta: self.meta,
        }
    }
}

} // verus!

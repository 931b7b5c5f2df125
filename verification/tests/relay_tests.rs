use relay_core::codec::{
    decode_auth, decode_cert, decode_cookie, decode_media, decode_meta, decode_protocol,
    decode_proxy, decode_security, decode_size, decode_timing, encode_auth, encode_cert,
    encode_cookie, encode_media, encode_meta, encode_protocol, encode_proxy, encode_security,
    encode_size, encode_timing,
};
use relay_core::error::RelayError;
use relay_core::header::{configure_content_type, configure_headers};
use relay_core::interop::{
    AuthType, CertificateConfig, CertificateType, Cookie, DigestAlgorithm, DigestQop, HeaderEntry,
    HeaderMap, MediaType, Protocol, ResponseMeta, SameSite, SecurityConfig, SizeInfo, TimingInfo,
};
use relay_core::response::{calculate_timing, determine_media_type, status_text, ResponseHandler};
use relay_core::wire::JsonValue;

fn header_map(entries: Vec<(&str, Vec<&str>)>) -> HeaderMap {
    HeaderMap {
        entries: entries
            .into_iter()
            .map(|(name, values)| HeaderEntry {
                name: name.to_string(),
                values: values.into_iter().map(|v| v.to_string()).collect(),
            })
            .collect(),
    }
}

#[test]
fn headers_install_on_engine_handle() {
    let mut easy = curl::easy::Easy::new();
    let m = header_map(vec![
        ("Accept", vec!["text/html", "application/json"]),
        ("X-Request-Id", vec!["42"]),
    ]);
    assert!(configure_headers(&mut easy, Some(&m)).is_ok());
}

#[test]
fn absent_headers_are_a_no_op() {
    let mut easy = curl::easy::Easy::new();
    assert!(configure_headers(&mut easy, None).is_ok());
}

#[test]
fn nul_in_header_value_is_a_network_error_naming_the_line() {
    let mut easy = curl::easy::Easy::new();
    let m = header_map(vec![("X-Bad", vec!["oh\0no"])]);
    match configure_headers(&mut easy, Some(&m)) {
        Err(RelayError::Network { message, cause }) => {
            assert!(message.contains("X-Bad: oh\0no"));
            assert!(cause.is_some());
        }
        other => panic!("expected a network error, got {:?}", other.is_ok()),
    }
}

#[test]
fn content_type_shorthand_installs_like_the_singleton_mapping() {
    let mut easy = curl::easy::Easy::new();
    assert!(configure_content_type(&mut easy, "application/json").is_ok());
    let mut easy2 = curl::easy::Easy::new();
    let m = header_map(vec![("Content-Type", vec!["application/json"])]);
    assert!(configure_headers(&mut easy2, Some(&m)).is_ok());
}

#[test]
fn json_with_charset_classifies_as_json() {
    let m = header_map(vec![("Content-Type", vec!["application/json; charset=utf-8"])]);
    assert_eq!(determine_media_type(&m), MediaType::Json);
}

#[test]
fn ld_json_classifies_as_json_ld() {
    let m = header_map(vec![("Content-Type", vec!["application/ld+json"])]);
    assert_eq!(determine_media_type(&m), MediaType::JsonLd);
}

#[test]
fn absent_content_type_classifies_as_text_plain() {
    let m = header_map(vec![("Accept", vec!["application/json"])]);
    assert_eq!(determine_media_type(&m), MediaType::TextPlain);
}

#[test]
fn content_type_key_matches_case_insensitively() {
    let m = header_map(vec![("content-TYPE", vec!["text/css"])]);
    assert_eq!(determine_media_type(&m), MediaType::TextCss);
}

#[test]
fn unknown_content_type_value_classifies_as_text_plain() {
    let m = header_map(vec![("Content-Type", vec!["video/mp4"])]);
    assert_eq!(determine_media_type(&m), MediaType::TextPlain);
}

#[test]
fn size_total_is_the_sum_of_parts() {
    let s = SizeInfo::new(120, 37);
    assert_eq!(s.headers(), 120);
    assert_eq!(s.body(), 37);
    assert_eq!(s.total(), 157);
}

#[test]
fn timing_keeps_start_and_end() {
    let t = 1_700_000_000_000i64;
    let info = calculate_timing(t, t + 250).unwrap();
    assert_eq!(info.start, t as u64);
    assert_eq!(info.end, t as u64 + 250);
    assert_eq!(info.end - info.start, 250);
}

#[test]
fn timing_before_the_epoch_is_a_parse_error() {
    match calculate_timing(-1, 5) {
        Err(RelayError::Parse { message, .. }) => {
            assert!(message.contains("start"));
        }
        _ => panic!("expected a parse error"),
    }
    assert!(calculate_timing(5, -1).is_err());
}

#[test]
fn build_assembles_the_full_response() {
    let headers = header_map(vec![("Content-Type", vec!["application/json; charset=utf-8"])]);
    let t = 1_700_000_000_000i64;
    let handler = ResponseHandler::new(
        7,
        headers,
        vec![b'{', b'}'],
        200,
        120,
        t,
        t + 250,
        Protocol::Http2,
    );
    let resp = handler.build().unwrap();
    assert_eq!(resp.id, 7);
    assert_eq!(resp.status, 200);
    assert_eq!(resp.status_text, "200 OK");
    assert_eq!(resp.protocol, Protocol::Http2);
    assert!(resp.cookies.is_none());
    assert_eq!(resp.content.media_type, MediaType::Json);
    assert_eq!(resp.content.body, vec![b'{', b'}']);
    assert_eq!(resp.meta.timing.start, t as u64);
    assert_eq!(resp.meta.timing.end, t as u64 + 250);
    assert_eq!(resp.meta.size.headers(), 120);
    assert_eq!(resp.meta.size.body(), 2);
    assert_eq!(resp.meta.size.total(), 122);
}

#[test]
fn build_with_sizes_from_the_scenario() {
    let headers = header_map(vec![]);
    let handler =
        ResponseHandler::new(1, headers, vec![0u8; 37], 204, 120, 0, 0, Protocol::Http11);
    let resp = handler.build().unwrap();
    assert_eq!(resp.meta.size.total(), 157);
}

#[test]
fn build_fails_on_pre_epoch_timestamp() {
    let handler =
        ResponseHandler::new(1, header_map(vec![]), vec![], 200, 0, -5, 10, Protocol::Http11);
    assert!(handler.build().is_err());
}

#[test]
fn status_text_is_the_canonical_line() {
    assert_eq!(status_text(200), "200 OK");
    assert_eq!(status_text(404), "404 Not Found");
    assert_eq!(status_text(418), "418 I'm a teapot");
    assert_eq!(status_text(599), "599 <unknown status code>");
}

#[test]
fn protocol_round_trips_with_fixed_spellings() {
    for (p, spelling) in [
        (Protocol::Http10, "http/1.0"),
        (Protocol::Http11, "http/1.1"),
        (Protocol::Http2, "http/2"),
        (Protocol::Http3, "http/3"),
    ] {
        let d = encode_protocol(&p);
        assert_eq!(d, JsonValue::Str(spelling.to_string()));
        assert_eq!(decode_protocol(&d).unwrap(), p);
    }
    assert!(decode_protocol(&JsonValue::Str("http/9".to_string())).is_err());
}

#[test]
fn media_type_round_trips_including_the_fallback() {
    for m in [
        MediaType::TextPlain,
        MediaType::TextHtml,
        MediaType::TextCss,
        MediaType::TextCsv,
        MediaType::Json,
        MediaType::JsonLd,
        MediaType::Xml,
        MediaType::TextXml,
        MediaType::FormUrlEncoded,
        MediaType::MultipartFormData,
        MediaType::OctetStream,
        MediaType::Other("application/wasm".to_string()),
    ] {
        let d = encode_media(&m);
        assert_eq!(decode_media(&d).unwrap(), m);
    }
    assert_eq!(
        encode_media(&MediaType::Json),
        JsonValue::Str("application/json".to_string())
    );
}

#[test]
fn digest_auth_with_absent_challenge_fields_round_trips() {
    let a = AuthType::Digest {
        username: "u".to_string(),
        password: "p".to_string(),
        realm: None,
        nonce: None,
        opaque: None,
        algorithm: None,
        qop: None,
        nc: None,
        cnonce: None,
    };
    let d = encode_auth(&a);
    assert_eq!(decode_auth(&d).unwrap(), a);
}

#[test]
fn auth_variants_round_trip() {
    let cases = vec![
        AuthType::NoAuth,
        AuthType::Basic { username: "user".to_string(), password: "pw".to_string() },
        AuthType::Bearer { token: "tok".to_string() },
        AuthType::Digest {
            username: "u".to_string(),
            password: "p".to_string(),
            realm: Some("r".to_string()),
            nonce: Some("n".to_string()),
            opaque: Some("o".to_string()),
            algorithm: Some(DigestAlgorithm::Sha256),
            qop: Some(DigestQop::AuthInt),
            nc: Some("00000001".to_string()),
            cnonce: Some("c".to_string()),
        },
    ];
    for a in cases {
        let d = encode_auth(&a);
        assert_eq!(decode_auth(&d).unwrap(), a);
    }
    assert!(decode_auth(&JsonValue::Null).is_err());
}

#[test]
fn certificates_round_trip() {
    let pem = CertificateType::Pem { cert: vec![1, 2, 3], key: vec![4, 5] };
    assert_eq!(decode_cert(&encode_cert(&pem)).unwrap(), pem);
    let pfx = CertificateType::Pfx { data: vec![9, 8], password: "s3cret".to_string() };
    assert_eq!(decode_cert(&encode_cert(&pfx)).unwrap(), pfx);
}

#[test]
fn security_config_round_trips() {
    let s = SecurityConfig {
        certificates: Some(CertificateConfig {
            client: Some(CertificateType::Pem { cert: vec![1], key: vec![2] }),
            ca: Some(vec![vec![3, 4], vec![5]]),
        }),
        validate_certificates: Some(true),
        verify_host: None,
        verify_peer: Some(false),
    };
    assert_eq!(decode_security(&encode_security(&s)).unwrap(), s);
    let empty = SecurityConfig {
        certificates: None,
        validate_certificates: None,
        verify_host: None,
        verify_peer: None,
    };
    assert_eq!(decode_security(&encode_security(&empty)).unwrap(), empty);
}

#[test]
fn proxy_and_cookie_round_trip() {
    let p = relay_core::interop::ProxyConfig {
        url: "http://proxy:8080".to_string(),
        auth: Some(relay_core::interop::ProxyAuth {
            username: "u".to_string(),
            password: "p".to_string(),
        }),
    };
    assert_eq!(decode_proxy(&encode_proxy(&p)).unwrap(), p);
    let c = Cookie {
        name: "sid".to_string(),
        value: "abc".to_string(),
        domain: Some("example.test".to_string()),
        path: None,
        expires: Some(1_700_000_000),
        secure: Some(true),
        http_only: None,
        same_site: Some(SameSite::NoneAttr),
    };
    assert_eq!(decode_cookie(&encode_cookie(&c)).unwrap(), c);
}

#[test]
fn metrics_round_trip_and_total_is_validated() {
    let t = TimingInfo { start: 10, end: 260 };
    assert_eq!(decode_timing(&encode_timing(&t)).unwrap(), t);
    let s = SizeInfo::new(120, 37);
    assert_eq!(decode_size(&encode_size(&s)).unwrap(), s);
    let m = ResponseMeta { timing: t, size: s };
    assert_eq!(decode_meta(&encode_meta(&m)).unwrap(), m);

    let bad = JsonValue::Obj(vec![
        ("headers".to_string(), JsonValue::NumU(120)),
        ("body".to_string(), JsonValue::NumU(37)),
        ("total".to_string(), JsonValue::NumU(158)),
    ]);
    match decode_size(&bad) {
        Err(RelayError::Parse { .. }) => {}
        _ => panic!("an inconsistent total must not decode"),
    }
}

use relay_core::codec::{
    decode_content, decode_headers, decode_request, decode_response, encode_content,
    encode_headers, encode_request, encode_response,
};
use relay_core::interop::{
    AuthType, ContentType, FormEntry, FormValue, HeaderEntry, HeaderMap, MediaType, Protocol,
    Request, Response, ResponseBody, ResponseMeta, SizeInfo, TimingInfo, UrlPair,
};
use relay_core::wire::JsonValue;

fn sample_headers() -> HeaderMap {
    HeaderMap {
        entries: vec![
            HeaderEntry {
                name: "Accept".to_string(),
                values: vec!["text/html".to_string(), "application/json".to_string()],
            },
            HeaderEntry { name: "Host".to_string(), values: vec!["example.test".to_string()] },
        ],
    }
}

#[test]
fn header_mapping_round_trips_keeping_order_and_repeats() {
    let m = sample_headers();
    assert_eq!(decode_headers(&encode_headers(&m)).unwrap(), m);
}

#[test]
fn content_variants_round_trip() {
    let cases = vec![
        ContentType::Text { content: "hello".to_string(), media_type: MediaType::TextPlain },
        ContentType::Json {
            content: JsonValue::Obj(vec![
                ("a".to_string(), JsonValue::NumU(1)),
                ("b".to_string(), JsonValue::Arr(vec![JsonValue::Bool(true), JsonValue::Null])),
                ("c".to_string(), JsonValue::NumRaw("2.5".to_string())),
            ]),
            media_type: MediaType::Json,
        },
        ContentType::Xml { content: "<r/>".to_string(), media_type: MediaType::Xml },
        ContentType::Form {
            content: vec![FormEntry {
                name: "field".to_string(),
                values: vec![
                    FormValue::Text("v1".to_string()),
                    FormValue::File {
                        filename: "a.bin".to_string(),
                        content_type: MediaType::OctetStream,
                        data: vec![0, 255, 7],
                    },
                ],
            }],
            media_type: MediaType::MultipartFormData,
        },
        ContentType::Binary {
            content: vec![1, 2, 3],
            media_type: MediaType::OctetStream,
            filename: Some("x.dat".to_string()),
        },
        ContentType::Multipart {
            content: vec![FormEntry {
                name: "part".to_string(),
                values: vec![FormValue::Text("t".to_string())],
            }],
            media_type: MediaType::MultipartFormData,
        },
        ContentType::Urlencoded {
            content: vec![UrlPair { name: "k".to_string(), value: "v".to_string() }],
            media_type: MediaType::FormUrlEncoded,
        },
    ];
    for c in cases {
        let d = encode_content(&c);
        assert_eq!(decode_content(&d).unwrap(), c);
    }
    assert!(decode_content(&JsonValue::Bool(false)).is_err());
}

#[test]
fn request_round_trips_with_and_without_optional_parts() {
    let full = Request {
        id: 11,
        url: "https://example.test/a".to_string(),
        method: "POST".to_string(),
        protocol: Protocol::Http2,
        headers: Some(sample_headers()),
        params: None,
        content: Some(ContentType::Text {
            content: "body".to_string(),
            media_type: MediaType::TextPlain,
        }),
        auth: Some(AuthType::Bearer { token: "t".to_string() }),
        security: None,
        proxy: None,
    };
    assert_eq!(decode_request(&encode_request(&full)).unwrap(), full);

    let bare = Request {
        id: -3,
        url: "http://example.test".to_string(),
        method: "GET".to_string(),
        protocol: Protocol::Http11,
        headers: None,
        params: None,
        content: None,
        auth: None,
        security: None,
        proxy: None,
    };
    assert_eq!(decode_request(&encode_request(&bare)).unwrap(), bare);
}

#[test]
fn response_round_trips() {
    let r = Response {
        id: 9,
        status: 200,
        status_text: "200 OK".to_string(),
        protocol: Protocol::Http11,
        headers: sample_headers(),
        cookies: None,
        content: ResponseBody { body: vec![b'o', b'k'], media_type: MediaType::TextPlain },
        meta: ResponseMeta {
            timing: TimingInfo { start: 5, end: 15 },
            size: SizeInfo::new(120, 2),
        },
    };
    let d = encode_response(&r);
    assert_eq!(decode_response(&d).unwrap(), r);
}

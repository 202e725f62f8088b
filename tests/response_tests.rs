use heliotrope::json::{json_text_within_limits, JsonValue};
use heliotrope::response::{handle_http_ping_result, handle_http_query_result, handle_http_update_result};
use heliotrope::{SolrError, SolrErrorKind, SolrPingResponse, SolrQueryResponse, SolrUpdateResponse, SolrValue};

const QUERY_BODY: &str = r#"{
  "responseHeader": {"status": 0, "QTime": 1},
  "response": {"numFound": 3, "start": 0,
    "docs": [{"id": "1"}, {"id": "2"}, {"id": "3"}]}
}"#;

fn decode_message(result: Result<SolrQueryResponse, SolrError>) -> String {
    match result {
        Ok(_) => panic!("expected an error"),
        Err(e) => {
            assert_eq!(e.kind, SolrErrorKind::Decode);
            assert_eq!(e.status, 0);
            assert_eq!(e.time, 0);
            e.message
        }
    }
}

#[test]
fn query_response_with_three_documents() {
    let response = SolrQueryResponse::from_json_str(QUERY_BODY).ok().unwrap();
    assert_eq!(response.status, 0);
    assert_eq!(response.time, 1);
    assert_eq!(response.total, 3);
    assert_eq!(response.start, 0);
    assert_eq!(response.items.len(), 3);
    for (i, item) in response.items.iter().enumerate() {
        assert_eq!(item.fields.len(), 1);
        assert_eq!(item.fields[0].name, "id");
        assert_eq!(item.fields[0].value, SolrValue::String((i + 1).to_string()));
    }
}

#[test]
fn query_response_field_kinds() {
    let body = r#"{"responseHeader":{"status":0,"QTime":2},
        "response":{"numFound":1,"start":5,"docs":[{"a":-1,"b":2.5,"c":true,"d":null,"e":[1],"f":"s"}]}}"#;
    let response = SolrQueryResponse::from_json_str(body).ok().unwrap();
    assert_eq!(response.start, 5);
    let fields = &response.items[0].fields;
    assert_eq!(fields.len(), 6);
    assert_eq!(fields[0].value, SolrValue::I64(-1));
    assert_eq!(fields[1].value, SolrValue::F64("2.5".to_string()));
    assert_eq!(fields[2].value, SolrValue::Boolean(true));
    assert_eq!(fields[3].value, SolrValue::Null);
    assert_eq!(fields[4].value, SolrValue::Null);
    assert_eq!(fields[5].value, SolrValue::String("s".to_string()));
}

#[test]
fn query_response_without_docs_is_an_error() {
    let body = r#"{"responseHeader":{"status":0,"QTime":1},"response":{"numFound":3,"start":0}}"#;
    assert_eq!(
        decode_message(SolrQueryResponse::from_json_str(body)),
        "SolrQueryResponse JSON parsing error: response.docs not found"
    );
    // The same text gives the same error again.
    assert_eq!(
        decode_message(SolrQueryResponse::from_json_str(body)),
        "SolrQueryResponse JSON parsing error: response.docs not found"
    );
}

#[test]
fn query_response_decode_errors() {
    assert_eq!(decode_message(SolrQueryResponse::from_json_str("not json")), "SolrQueryResponse JSON parsing error");
    assert_eq!(
        decode_message(SolrQueryResponse::from_json_str("[1]")),
        "SolrQueryResponse JSON parsing error: the reply is not a JSON object"
    );
    assert_eq!(
        decode_message(SolrQueryResponse::from_json_str("{}")),
        "SolrQueryResponse JSON parsing error: responseHeader not found"
    );
    assert_eq!(
        decode_message(SolrQueryResponse::from_json_str(r#"{"responseHeader":{"status":0}}"#)),
        "SolrQueryResponse JSON parsing error: responseHeader.QTime not found"
    );
    assert_eq!(
        decode_message(SolrQueryResponse::from_json_str(r#"{"responseHeader":{"status":-1,"QTime":1}}"#)),
        "SolrQueryResponse JSON parsing error: responseHeader.status has an unexpected value"
    );
    assert_eq!(
        decode_message(SolrQueryResponse::from_json_str(r#"{"responseHeader":{"status":0,"QTime":1}}"#)),
        "SolrQueryResponse JSON parsing error: response not found"
    );
    assert_eq!(
        decode_message(SolrQueryResponse::from_json_str(
            r#"{"responseHeader":{"status":0,"QTime":1},"response":{"numFound":"x","start":0,"docs":[]}}"#
        )),
        "SolrQueryResponse JSON parsing error: response.numFound has an unexpected value"
    );
    assert_eq!(
        decode_message(SolrQueryResponse::from_json_str(
            r#"{"responseHeader":{"status":0,"QTime":1},"response":{"numFound":0,"docs":[]}}"#
        )),
        "SolrQueryResponse JSON parsing error: response.start not found"
    );
    assert_eq!(
        decode_message(SolrQueryResponse::from_json_str(
            r#"{"responseHeader":{"status":0,"QTime":1},"response":{"numFound":0,"start":0,"docs":{}}}"#
        )),
        "SolrQueryResponse JSON parsing error: response.docs is not a JSON list"
    );
    assert_eq!(
        decode_message(SolrQueryResponse::from_json_str(
            r#"{"responseHeader":{"status":0,"QTime":1},"response":{"numFound":2,"start":0,"docs":[{"id":"1"},7]}}"#
        )),
        "SolrQueryResponse JSON parsing error: response.docs holds an element that is not a JSON object"
    );
}

#[test]
fn query_response_from_tree() {
    let header = JsonValue::Object(vec![
        ("QTime".to_string(), JsonValue::U64(4)),
        ("status".to_string(), JsonValue::U64(0)),
    ]);
    let response = JsonValue::Object(vec![
        ("docs".to_string(), JsonValue::Array(vec![])),
        ("numFound".to_string(), JsonValue::U64(0)),
        ("start".to_string(), JsonValue::U64(0)),
    ]);
    let root = JsonValue::Object(vec![
        ("response".to_string(), response),
        ("responseHeader".to_string(), header),
    ]);
    let decoded = SolrQueryResponse::from_json(&root).ok().unwrap();
    assert_eq!(decoded.time, 4);
    assert_eq!(decoded.items.len(), 0);
}

#[test]
fn update_response_decodes_header() {
    let response = SolrUpdateResponse::from_json_str(r#"{"responseHeader":{"status":0,"QTime":12}}"#).unwrap();
    assert_eq!(response, SolrUpdateResponse { status: 0, time: 12 });
    let error = SolrUpdateResponse::from_json_str(r#"{"responseHeader":{"QTime":12}}"#).err().unwrap();
    assert_eq!(error.kind, SolrErrorKind::Decode);
    assert_eq!(error.message, "SolrUpdateResponse JSON parsing error: responseHeader.status not found");
}

#[test]
fn ping_response_decodes_status_and_header() {
    let response =
        SolrPingResponse::from_json_str(r#"{"responseHeader":{"status":0,"QTime":3},"status":"OK"}"#).ok().unwrap();
    assert_eq!(response.ping_status, "OK");
    assert_eq!(response.status, 0);
    assert_eq!(response.time, 3);
    let error = SolrPingResponse::from_json_str(r#"{"responseHeader":{"status":0,"QTime":3}}"#).err().unwrap();
    assert_eq!(error.message, "SolrPingResponse JSON parsing error: status not found");
    let error = SolrPingResponse::from_json_str(r#"{"status":"OK"}"#).err().unwrap();
    assert_eq!(error.message, "SolrPingResponse JSON parsing error: responseHeader not found");
}

#[test]
fn server_error_decodes_code_and_message() {
    let error = SolrError::from_json_str(r#"{"error":{"msg":"undefined field foo","code":400}}"#);
    assert_eq!(error.kind, SolrErrorKind::Server);
    assert_eq!(error.status, 400);
    assert_eq!(error.time, 0);
    assert_eq!(error.message, "undefined field foo");
    let error = SolrError::from_json_str(r#"{"error":{"code":400}}"#);
    assert_eq!(error.kind, SolrErrorKind::Decode);
    assert_eq!(error.message, "SolrError JSON parsing error: error.msg not found");
}

#[test]
fn transport_error_is_its_own_kind() {
    let error = SolrError::transport("Network error");
    assert_eq!(error.kind, SolrErrorKind::Transport);
    assert_eq!(error.status, 0);
    assert_eq!(error.message, "Network error");
}

#[test]
fn replies_carrying_errors_become_server_errors() {
    let body = r#"{"responseHeader":{"status":400,"QTime":1},"error":{"msg":"bad","code":400}}"#;
    let error = handle_http_update_result(400, body).err().unwrap();
    assert_eq!(error.kind, SolrErrorKind::Server);
    assert_eq!(error.status, 400);
    assert_eq!(error.message, "bad");
    let error = handle_http_query_result(500, "Internal Server Error").err().unwrap();
    assert_eq!(error.kind, SolrErrorKind::Server);
    assert_eq!(error.status, 500);
    assert_eq!(error.message, "HTTP status 500");
    let error = handle_http_ping_result(200, "oops").err().unwrap();
    assert_eq!(error.kind, SolrErrorKind::Decode);
    assert_eq!(error.message, "SolrPingResponse JSON parsing error");
}

#[test]
fn successful_replies_decode_their_bodies() {
    let update = handle_http_update_result(200, r#"{"responseHeader":{"status":0,"QTime":7}}"#).unwrap();
    assert_eq!(update, SolrUpdateResponse { status: 0, time: 7 });
    let query = handle_http_query_result(200, QUERY_BODY).ok().unwrap();
    assert_eq!(query.total, 3);
    let ping = handle_http_ping_result(200, r#"{"responseHeader":{"status":0,"QTime":1},"status":"OK"}"#).ok().unwrap();
    assert_eq!(ping.ping_status, "OK");
}

fn header_with_key(key: &str) -> String {
    format!(r#"{{"responseHeader":{{"status":0,"QTime":1,"{}":1}},"response":{{"numFound":0,"start":0,"docs":[]}}}}"#, key)
}

#[test]
fn over_long_key_is_a_decode_error() {
    let long_key: String = std::iter::repeat('\u{e9}').take(32768).chain(std::iter::once('a')).collect();
    assert_eq!(
        decode_message(SolrQueryResponse::from_json_str(&header_with_key(&long_key))),
        "SolrQueryResponse JSON parsing error: the reply is not fit for the parser (too deep, too long a key or exponent, or a comma before a closing brace)"
    );
    let short_key: String = std::iter::repeat('k').take(1023).collect();
    assert!(SolrQueryResponse::from_json_str(&header_with_key(&short_key)).is_ok());
    let too_long: String = std::iter::repeat('k').take(1024).collect();
    assert!(SolrQueryResponse::from_json_str(&header_with_key(&too_long)).is_err());
}

#[test]
fn long_values_are_accepted() {
    let long_value: String = std::iter::repeat('v').take(100000).collect();
    let body = format!(
        r#"{{"responseHeader":{{"status":0,"QTime":1}},"response":{{"numFound":1,"start":0,"docs":[{{"text":"{}"}}]}}}}"#,
        long_value
    );
    let response = SolrQueryResponse::from_json_str(&body).ok().unwrap();
    assert_eq!(response.items[0].fields[0].value, SolrValue::String(long_value));
}

#[test]
fn over_long_exponent_is_a_decode_error() {
    let body = r#"{"responseHeader":{"status":0,"QTime":1},"response":{"numFound":1,"start":0,"docs":[{"x":1e12345678901234567890}]}}"#;
    assert_eq!(
        decode_message(SolrQueryResponse::from_json_str(body)),
        "SolrQueryResponse JSON parsing error: the reply is not fit for the parser (too deep, too long a key or exponent, or a comma before a closing brace)"
    );
    let error = handle_http_update_result(200, "1E+0000000000").err().unwrap();
    assert_eq!(error.message, "SolrUpdateResponse JSON parsing error: the reply is not fit for the parser (too deep, too long a key or exponent, or a comma before a closing brace)");
}

#[test]
fn over_deep_nesting_is_a_decode_error() {
    let deep = format!("{}{}", "[".repeat(65), "]".repeat(65));
    let error = SolrError::from_json_str(&deep);
    assert_eq!(error.kind, SolrErrorKind::Decode);
    assert_eq!(error.message, "SolrError JSON parsing error: the reply is not fit for the parser (too deep, too long a key or exponent, or a comma before a closing brace)");
    let fine = format!("{}{}", "[".repeat(64), "]".repeat(64));
    assert_eq!(SolrError::from_json_str(&fine).message, "SolrError JSON parsing error: error not found");
}

#[test]
fn out_of_range_float_decodes_to_null() {
    let body = r#"{"responseHeader":{"status":0,"QTime":1},"response":{"numFound":1,"start":0,"docs":[{"x":1e400,"y":-0.25}]}}"#;
    let response = SolrQueryResponse::from_json_str(body).ok().unwrap();
    assert_eq!(response.items[0].fields[0].value, SolrValue::Null);
    assert_eq!(response.items[0].fields[1].value, SolrValue::F64("-0.25".to_string()));
}

#[test]
fn limits_of_json_text() {
    assert!(json_text_within_limits(br#"{"a":[1,2.5e10,"e99999999999"]}"#));
    assert!(json_text_within_limits(br#"{"k\"ey":"x"}"#));
    assert!(!json_text_within_limits(b"1e1234567890"));
}

const UNFIT: &str = "SolrQueryResponse JSON parsing error: the reply is not fit for the parser (too deep, too long a key or exponent, or a comma before a closing brace)";

#[test]
fn comma_before_closing_brace_is_a_decode_error() {
    assert_eq!(decode_message(SolrQueryResponse::from_json_str(r#"[{"a":{"b":1,},2]"#)), UNFIT);
    assert_eq!(decode_message(SolrQueryResponse::from_json_str("{\"a\":1 ,\n\t }")), UNFIT);
    let error = SolrPingResponse::from_json_str(r#"[{"a":{"b":1,},2]"#).err().unwrap();
    assert_eq!(error.kind, SolrErrorKind::Decode);
    assert!(!json_text_within_limits(br#"{"a":1,}"#));
    assert!(json_text_within_limits(br#"{"a":",}"}"#));
    assert!(json_text_within_limits(br#"[1,{}]"#));
}

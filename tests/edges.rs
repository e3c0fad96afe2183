use zensend::form::encode_pairs;
use zensend::json::{i32_from, number_from, opt_str_from, str_from, JsonNode};
use zensend::{classify_envelope, is_json_content_type, ZenSendError};
use zensend::{
    check_balance_result, check_response, decode_envelope, get_prices_result, send_sms_result,
    ApiResponse, Client, Envelope, Error, Message, Method, Number, OriginatorType, SmsEncoding,
    DEFAULT_URL,
};

fn response(status: u16, content_type: Option<&str>, body: &str) -> ApiResponse {
    ApiResponse {
        status,
        content_type: content_type.map(|c| c.to_string()),
        body: body.to_string(),
    }
}

fn json(body: &str) -> ApiResponse {
    response(200, Some("application/json"), body)
}

fn client() -> Client {
    Client::new_with_url("secret".to_string(), "http://localhost".to_string())
}

#[test]
fn a_body_that_is_not_json_is_not_read() {
    let r = response(503, Some("text/html"), r#"{"success":{"balance":1}}"#);
    assert!(matches!(check_balance_result(&r), Err(Error::UnexpectedResponse(503))));
}

#[test]
fn a_missing_content_type_is_unexpected() {
    let r = response(404, None, r#"{"success":{"balance":1}}"#);
    assert!(matches!(check_response(&r), Err(Error::UnexpectedResponse(404))));
}

#[test]
fn a_json_content_type_with_a_charset_is_read() {
    let r = response(200, Some("application/json; charset=utf-8"), r#"{"success":{"balance":1}}"#);
    assert_eq!(Number::UInt(1), check_balance_result(&r).unwrap());
}

#[test]
fn a_root_that_is_no_object_is_a_decode_error() {
    assert!(matches!(check_response(&json("[1, 2]")), Err(Error::Json(_))));
    assert!(decode_envelope("\"text\"").is_err());
}

#[test]
fn a_success_wins_over_a_failure() {
    let body = r#"{"success":{"balance":-3},"failure":{"failcode":"X"}}"#;
    assert_eq!(Number::Int(-3), check_balance_result(&json(body)).unwrap());
}

#[test]
fn a_null_success_gives_way_to_the_failure() {
    let body = r#"{"success":null,"failure":{"failcode":"X","parameter":null}}"#;
    match check_response(&json(body)) {
        Err(Error::Api(e)) => {
            assert_eq!("X", e.failcode);
            assert_eq!(None, e.parameter);
        },
        _ => panic!("expected an api error"),
    }
}

#[test]
fn an_envelope_with_neither_field_is_malformed() {
    assert!(matches!(decode_envelope("{}"), Ok(Envelope::Malformed)));
    assert!(matches!(decode_envelope(r#"{"success":null,"failure":null}"#), Ok(Envelope::Malformed)));
}

#[test]
fn a_failure_without_a_failcode_is_a_decode_error() {
    let body = r#"{"failure":{"parameter":"BODY"}}"#;
    assert!(matches!(check_response(&json(body)), Err(Error::Json(_))));
    let body = r#"{"failure":{"failcode":7}}"#;
    assert!(matches!(check_response(&json(body)), Err(Error::Json(_))));
}

#[test]
fn a_payload_missing_a_field_is_a_decode_error() {
    let body = r#"{"success":{"numbers":1,"smsparts":1,"encoding":"gsm","cost_in_pence":1,"new_balance_in_pence":2}}"#;
    assert!(matches!(send_sms_result(&json(body)), Err(Error::Json(_))));
}

#[test]
fn a_count_beyond_32_bits_is_a_decode_error() {
    let body = r#"{"success":{"txguid":"A","numbers":4294967296,"smsparts":1,"encoding":"gsm","cost_in_pence":1,"new_balance_in_pence":2}}"#;
    assert!(matches!(send_sms_result(&json(body)), Err(Error::Json(_))));
}

#[test]
fn a_price_that_is_no_number_is_a_decode_error() {
    let body = r#"{"success":{"prices_in_pence":{"GB":"cheap"}}}"#;
    assert!(matches!(get_prices_result(&json(body)), Err(Error::Json(_))));
}

#[test]
fn prices_come_in_key_order() {
    let body = r#"{"success":{"prices_in_pence":{"US":2,"DE":1.5,"GB":3}}}"#;
    let prices = get_prices_result(&json(body)).unwrap();
    assert_eq!(
        vec![
            ("DE".to_string(), Number::Real("1.5".to_string())),
            ("GB".to_string(), Number::UInt(3)),
            ("US".to_string(), Number::UInt(2)),
        ],
        prices
    );
}

#[test]
fn an_empty_price_list_is_empty() {
    let body = r#"{"success":{"prices_in_pence":{}}}"#;
    assert_eq!(0, get_prices_result(&json(body)).unwrap().len());
}

#[test]
fn msisdn_ucs2_and_a_negative_ttl_are_sent() {
    let request = client().send_sms_request(&Message {
        originator: "447700900000",
        body: "Hi",
        numbers: &["1"],
        originator_type: OriginatorType::Msisdn,
        sms_encoding: SmsEncoding::Ucs2,
        time_to_live_in_minutes: Some(-5),
    });
    assert_eq!(
        Some("BODY=Hi&ORIGINATOR=447700900000&NUMBERS=1&ORIGINATOR_TYPE=msisdn&TIMETOLIVE=-5&ENCODING=ucs2".to_string()),
        request.body
    );
}

#[test]
fn the_encoding_comes_without_a_ttl() {
    let request = client().send_sms_request(&Message {
        originator: "Z",
        body: "B",
        numbers: &["1"],
        sms_encoding: SmsEncoding::Gsm,
        ..Default::default()
    });
    assert_eq!(
        Some("BODY=B&ORIGINATOR=Z&NUMBERS=1&ORIGINATOR_TYPE=alpha&ENCODING=gsm".to_string()),
        request.body
    );
}

#[test]
fn an_empty_number_list_sends_an_empty_value() {
    let request = client().send_sms_request(&Message { originator: "Z", body: "B", ..Default::default() });
    assert_eq!(
        Some("BODY=B&ORIGINATOR=Z&NUMBERS=&ORIGINATOR_TYPE=alpha".to_string()),
        request.body
    );
}

#[test]
fn reserved_and_non_ascii_characters_are_escaped() {
    let request = client().send_sms_request(&Message {
        originator: "Zen Send",
        body: "a&b=c é*-._~",
        numbers: &["1", "2", "3"],
        ..Default::default()
    });
    assert_eq!(
        Some("BODY=a%26b%3Dc+%C3%A9*-._%7E&ORIGINATOR=Zen+Send&NUMBERS=1%2C2%2C3&ORIGINATOR_TYPE=alpha".to_string()),
        request.body
    );
}

#[test]
fn a_lookup_number_with_a_plus_is_escaped() {
    let request = client().lookup_operator_request("+44 1");
    assert_eq!("/v3/operator_lookup?NUMBER=%2B44+1", request.path);
    assert_eq!("http://localhost/v3/operator_lookup?NUMBER=%2B44+1", request.url);
    assert_eq!(None, request.body);
}

#[test]
fn the_default_client_talks_to_production() {
    let c = Client::new("key".to_string());
    assert_eq!(DEFAULT_URL, c.url());
    assert_eq!("key", c.api_key());
    let request = c.get_prices_request();
    assert_eq!("https://api.zensend.io/v3/prices", request.url);
    assert_eq!("key", request.api_key);
}

#[test]
fn pairs_keep_their_order_and_repeated_keys() {
    assert_eq!("", encode_pairs(&vec![]));
    let pairs = vec![
        ("b".to_string(), "1".to_string()),
        ("a".to_string(), "".to_string()),
        ("b".to_string(), "2".to_string()),
    ];
    assert_eq!("b=1&a=&b=2", encode_pairs(&pairs));
}

#[test]
fn the_defaults_are_alpha_and_auto() {
    assert_eq!(OriginatorType::Alpha, OriginatorType::default());
    assert_eq!(SmsEncoding::Auto, SmsEncoding::default());
}


#[test]
fn a_success_beside_a_broken_failure_is_a_decode_error() {
    let body = r#"{"success":{"balance":1},"failure":{"parameter":"BODY"}}"#;
    assert!(matches!(check_balance_result(&json(body)), Err(Error::Json(_))));
    assert!(decode_envelope(body).is_err());
}

#[test]
fn a_body_beyond_the_size_limit_is_a_decode_error() {
    let body = format!(r#"{{"success":{{"balance":1}},"pad":"{}"}}"#, "a".repeat(70_000));
    assert!(matches!(check_balance_result(&json(&body)), Err(Error::Json(_))));
}

#[test]
fn long_nested_keys_are_refused_before_parsing() {
    let body = format!(r#"{{"{}":{{"{}":1}}}}"#, "a".repeat(40_000), "a".repeat(30_000));
    assert!(matches!(check_response(&json(&body)), Err(Error::Json(_))));
}

#[test]
fn deeply_nested_arrays_are_refused_before_parsing() {
    let body = format!("{}{}", "[".repeat(100_000), "]".repeat(100_000));
    assert!(matches!(check_response(&json(&body)), Err(Error::Json(_))));
    let shallow = format!(r#"{{"success":{{"balance":2}},"x":{}1{}}}"#, "[".repeat(100), "]".repeat(100));
    assert_eq!(Number::UInt(2), check_balance_result(&json(&shallow)).unwrap());
}

#[test]
fn content_type_parameters_are_not_parsed() {
    let r = response(200, Some("application/json; a=\"xé\""), r#"{"success":{"balance":1}}"#);
    assert_eq!(Number::UInt(1), check_balance_result(&r).unwrap());
    let r = response(200, Some("Application/JSON"), r#"{"success":{"balance":1}}"#);
    assert_eq!(Number::UInt(1), check_balance_result(&r).unwrap());
    let r = response(200, Some("application/jsonx;charset=utf-8"), r#"{"success":{"balance":1}}"#);
    assert!(matches!(check_balance_result(&r), Err(Error::UnexpectedResponse(200))));
}

#[test]
fn extreme_ttls_are_written_in_decimal() {
    for (ttl, text) in [(0, "0"), (i32::MIN, "-2147483648"), (i32::MAX, "2147483647"), (-7, "-7"), (1005, "1005")] {
        let request = client().send_sms_request(&Message {
            originator: "Z",
            body: "B",
            numbers: &["1"],
            time_to_live_in_minutes: Some(ttl),
            ..Default::default()
        });
        let expected = format!("BODY=B&ORIGINATOR=Z&NUMBERS=1&ORIGINATOR_TYPE=alpha&TIMETOLIVE={}", text);
        assert_eq!(Some(expected), request.body);
    }
}

#[test]
fn an_exponent_too_long_for_the_parser_is_refused() {
    let body = r#"{"success":{"balance":1e99999999999999999999}}"#;
    assert!(matches!(check_balance_result(&json(body)), Err(Error::Json(_))));
    assert!(decode_envelope("1e99999999999999999999").is_err());
    assert!(decode_envelope("[1E-99999999999999999999]").is_err());
}

#[test]
fn an_overflowing_number_is_infinite() {
    let body = r#"{"success":{"balance":1e400}}"#;
    assert_eq!(Number::Real("inf".to_string()), check_balance_result(&json(body)).unwrap());
    let body = r#"{"success":{"balance":-1e400}}"#;
    assert_eq!(Number::Real("-inf".to_string()), check_balance_result(&json(body)).unwrap());
    let body = r#"{"success":{"balance":1e2}}"#;
    assert_eq!(Number::Real("100".to_string()), check_balance_result(&json(body)).unwrap());
}

fn failure(code: &str) -> ZenSendError {
    ZenSendError { failcode: code.to_string(), parameter: None, cost_in_pence: None, new_balance_in_pence: None }
}

#[test]
fn envelopes_are_classified_from_their_nodes() {
    let obj = Some(JsonNode::Object(vec!["success".to_string()]));
    let node = Some(JsonNode::Object(vec![]));
    assert!(classify_envelope(Some(JsonNode::Array), node.clone(), None, Ok(failure("X"))).is_err());
    assert!(classify_envelope(None, node.clone(), None, Ok(failure("X"))).is_err());
    assert!(matches!(
        classify_envelope(obj.clone(), node.clone(), node.clone(), Ok(failure("X"))),
        Ok(Envelope::Success)
    ));
    assert_eq!(
        Err("bad".to_string()),
        classify_envelope(obj.clone(), node.clone(), node.clone(), Err("bad".to_string())).map(|_| ())
    );
    match classify_envelope(obj.clone(), Some(JsonNode::Null), node.clone(), Ok(failure("X"))) {
        Ok(Envelope::Failure(e)) => assert_eq!(failure("X"), e),
        _ => panic!("expected a failure"),
    }
    assert!(matches!(
        classify_envelope(obj.clone(), None, Some(JsonNode::Null), Err("unused".to_string())),
        Ok(Envelope::Malformed)
    ));
}

#[test]
fn field_values_are_read_from_their_nodes() {
    assert_eq!(Ok("a".to_string()), str_from(Some(JsonNode::Str("a".to_string())), "k"));
    assert!(str_from(Some(JsonNode::UInt(1)), "k").is_err());
    assert_eq!(Ok(-5), i32_from(Some(JsonNode::Int(-5)), "k"));
    assert!(i32_from(Some(JsonNode::Int(-2147483649)), "k").is_err());
    assert_eq!(Ok(2147483647), i32_from(Some(JsonNode::UInt(2147483647)), "k"));
    assert!(i32_from(Some(JsonNode::Real("1.5".to_string())), "k").is_err());
    assert_eq!(Ok(Number::Real("2.5".to_string())), number_from(Some(JsonNode::Real("2.5".to_string())), "k"));
    assert!(number_from(None, "k").is_err());
    assert_eq!(Ok(None), opt_str_from(None, "k"));
    assert_eq!(Ok(None), opt_str_from(Some(JsonNode::Null), "k"));
    assert!(opt_str_from(Some(JsonNode::Bool(true)), "k").is_err());
}

#[test]
fn content_types_are_judged_by_their_media_type() {
    assert!(is_json_content_type("application/json"));
    assert!(is_json_content_type("APPLICATION/Json;charset=\"é\""));
    assert!(!is_json_content_type("application/json ;"));
    assert!(!is_json_content_type("text/html; charset=utf-8"));
    assert!(!is_json_content_type(""));
}

//! Responses: the content-type check, the success/failure envelope, and the
//! payload of each operation.
use vstd::prelude::*;

use hyper::mime::{Mime, SubLevel, TopLevel};

use crate::json::{
    field, find_field, json_within_limits, within_json_limits, find_nested_field, find_root, find_top_field, i32_of, json_well_formed,
    nested_field, number_of, opt_number_of, opt_str_of, parse_check, read_i32, read_number,
    read_opt_number, read_opt_str, read_str, root, str_of, top_field, JsonNode, Number,
};

verus! {

/// What the transport hands back: the status code, the `Content-Type`
/// header if there was one, and the body as text.
#[derive(Debug)]
pub struct ApiResponse {
    pub status: u16,
    pub content_type: Option<String>,
    pub body: String,
}

/// The payload of a sent SMS.
#[derive(PartialEq, Debug, Clone)]
pub struct SmsResult {
    pub txguid: String,
    pub numbers: i32,
    pub smsparts: i32,
    pub encoding: String,
    pub cost_in_pence: Number,
    pub new_balance_in_pence: Number,
}

/// The payload of a registered keyword.
#[derive(PartialEq, Debug, Clone)]
pub struct CreateKeywordResult {
    pub cost_in_pence: Number,
    pub new_balance_in_pence: Number,
}

/// The payload of an operator lookup.
#[derive(PartialEq, Debug, Clone)]
pub struct OperatorLookupResult {
    pub mcc: String,
    pub mnc: String,
    pub operator: String,
    pub cost_in_pence: Number,
    pub new_balance_in_pence: Number,
}

/// The failure that the API reports.
#[derive(PartialEq, Debug, Clone)]
pub struct ZenSendError {
    pub failcode: String,
    pub parameter: Option<String>,
    pub cost_in_pence: Option<Number>,
    pub new_balance_in_pence: Option<Number>,
}

/// The error kinds of an operation. `Io` and `Http` come from the transport;
/// `Json` carries the diagnostic of a body that does not decode.
#[derive(Debug)]
pub enum Error {
    Io(String),
    Json(String),
    Http(String),
    Api(ZenSendError),
    UnexpectedResponse(u16),
}

/// `c` is `t`, or `t` is a lower-case ASCII letter and `c` its upper case.
pub open spec fn same_ignoring_case(c: char, t: char) -> bool {
    c == t || ('a' <= t && t <= 'z' && (c as u32) + 32 == (t as u32))
}

/// A media type (a `Content-Type` value without parameters) names
/// `application/json`, in any case of its letters.
pub open spec fn json_media_type(media_type: Seq<char>) -> bool {
    media_type.len() == "application/json"@.len() && forall|i: int|
        0 <= i < media_type.len() ==> same_ignoring_case(#[trigger] media_type[i], "application/json"@[i])
}

pub open spec fn no_semicolon(s: Seq<char>) -> bool {
    forall|j: int| 0 <= j < s.len() ==> #[trigger] s[j] != ';'
}

/// `k` is where the media type of a `Content-Type` value ends: at its
/// first `;`, or at its end.
pub open spec fn media_type_end(s: Seq<char>, k: int) -> bool {
    0 <= k <= s.len() && no_semicolon(s.take(k)) && (k == s.len() || s[k] == ';')
}

proof fn lemma_media_type_end_unique(s: Seq<char>, a: int, b: int)
    requires
        media_type_end(s, a),
        media_type_end(s, b),
    ensures
        a == b,
{
    if a < b {
        assert(s.take(b)[a] == s[a]);
    }
    if b < a {
        assert(s.take(a)[b] == s[b]);
    }
}

/// Relies on the `FromStr` of `hyper::mime::Mime`: it lower-cases the ASCII
/// letters and, with no `;`, reads a top level and a sub level of name
/// characters to the end, so the value parses as `application/json` exactly
/// when it is that text in any case. Without a `;` the parser never reaches
/// its parameter code, which can slice a non-ASCII value inside a character.
#[verifier::external_body]
fn is_json_media_type(media_type: &str) -> (r: bool)
    requires
        no_semicolon(media_type@),
    ensures
        r == json_media_type(media_type@),
{
    match media_type.parse::<Mime>() {
        Ok(Mime(TopLevel::Application, SubLevel::Json, _)) => true,
        _ => false,
    }
}

/// The position of the first `;` of the value, or its length.
fn media_type_len(content_type: &str) -> (k: usize)
    ensures
        media_type_end(content_type@, k as int),
{
    let n = content_type.unicode_len();
    let mut i: usize = 0;
    while i < n
        invariant
            n == content_type@.len(),
            0 <= i <= n,
            no_semicolon(content_type@.take(i as int)),
        decreases n - i,
    {
        if content_type.get_char(i) == ';' {
            return i;
        }
        assert(content_type@.take(i + 1).drop_last() =~= content_type@.take(i as int));
        i += 1;
    }
    assert(content_type@.take(n as int) =~= content_type@);
    i
}

/// A `Content-Type` value whose media type, parameters such as the charset
/// aside, is `application/json`.
pub open spec fn json_content_type(ct: Seq<char>) -> bool {
    exists|k: int| media_type_end(ct, k) && json_media_type(#[trigger] ct.take(k))
}

/// The response claims a JSON body.
pub open spec fn json_content(resp: ApiResponse) -> bool {
    match resp.content_type {
        Some(ct) => json_content_type(ct@),
        None => false,
    }
}

/// Whether a `Content-Type` value claims a JSON body; its parameters are not
/// parsed.
pub fn is_json_content_type(content_type: &str) -> (r: bool)
    ensures
        r == json_content_type(content_type@),
{
    let k = media_type_len(content_type);
    let media_type = content_type.substring_char(0, k);
    assert(media_type@ =~= content_type@.take(k as int));
    let b = is_json_media_type(media_type);
    proof {
        if !b {
            assert forall|k2: int| media_type_end(content_type@, k2) implies !json_media_type(
                #[trigger] content_type@.take(k2),
            ) by {
                lemma_media_type_end_unique(content_type@, k as int, k2);
            }
        }
    }
    b
}

/// The node is there and not `null`.
pub open spec fn node_present(n: Option<JsonNode>) -> bool {
    match n {
        Some(v) => v != JsonNode::Null,
        None => false,
    }
}

/// The envelope's field `key` is there and not `null`.
pub open spec fn present(text: Seq<char>, key: Seq<char>) -> bool {
    node_present(top_field(text, key))
}

/// The text is within the parser's limits, parses, and its root is an
/// object.
pub open spec fn object_text(text: Seq<char>) -> bool {
    json_within_limits(text) && json_well_formed(text) && root(text) matches Some(JsonNode::Object(_))
}

pub open spec fn opt_view(o: Option<String>) -> Option<Seq<char>> {
    match o {
        Some(s) => Some(s@),
        None => None,
    }
}

/// Every field of the failure object decodes.
pub open spec fn failure_decodes(text: Seq<char>) -> bool {
    &&& str_of(field(text, "failure"@, "failcode"@)) is Some
    &&& opt_str_of(field(text, "failure"@, "parameter"@)) is Some
    &&& opt_number_of(field(text, "failure"@, "cost_in_pence"@)) is Some
    &&& opt_number_of(field(text, "failure"@, "new_balance_in_pence"@)) is Some
}

/// `e` holds the fields of the failure object.
pub open spec fn failure_matches(text: Seq<char>, e: ZenSendError) -> bool {
    &&& str_of(field(text, "failure"@, "failcode"@)) == Some(e.failcode@)
    &&& opt_str_of(field(text, "failure"@, "parameter"@)) == Some(opt_view(e.parameter))
    &&& opt_number_of(field(text, "failure"@, "cost_in_pence"@)) == Some(e.cost_in_pence)
    &&& opt_number_of(field(text, "failure"@, "new_balance_in_pence"@))
        == Some(e.new_balance_in_pence)
}

/// The envelope's failure field is there and does not decode.
pub open spec fn failure_broken(text: Seq<char>) -> bool {
    present(text, "failure"@) && !failure_decodes(text)
}

/// The envelope carries a success payload, and no failure that does not
/// decode.
pub open spec fn envelope_success(text: Seq<char>) -> bool {
    object_text(text) && present(text, "success"@) && !failure_broken(text)
}

/// The envelope carries a failure and no success.
pub open spec fn envelope_failure(text: Seq<char>) -> bool {
    object_text(text) && !present(text, "success"@) && present(text, "failure"@)
        && failure_decodes(text)
}

/// The envelope carries neither field.
pub open spec fn envelope_neither(text: Seq<char>) -> bool {
    object_text(text) && !present(text, "success"@) && !present(text, "failure"@)
}

/// The text is no envelope: it is beyond the parser's limits, does not
/// parse, its root is no object, or its failure field does not decode
/// (whatever its success field holds).
pub open spec fn envelope_broken(text: Seq<char>) -> bool {
    !object_text(text) || failure_broken(text)
}

/// The three shapes of an envelope that decodes.
#[derive(Debug)]
pub enum Envelope {
    Success,
    Failure(ZenSendError),
    Malformed,
}

/// Reads the failure object of the envelope.
pub fn decode_failure(text: &str) -> (r: Result<ZenSendError, String>)
    ensures
        r is Ok <==> json_within_limits(text@) && failure_decodes(text@),
        r is Ok ==> failure_matches(text@, r.unwrap()),
{
    if !within_json_limits(text) {
        return Err("the body is beyond the parser's limits".to_owned());
    }
    let failcode = match read_str(text, "failure", "failcode") {
        Ok(v) => v,
        Err(d) => return Err(d),
    };
    let parameter = match read_opt_str(text, "failure", "parameter") {
        Ok(v) => v,
        Err(d) => return Err(d),
    };
    let cost_in_pence = match read_opt_number(text, "failure", "cost_in_pence") {
        Ok(v) => v,
        Err(d) => return Err(d),
    };
    let new_balance_in_pence = match read_opt_number(text, "failure", "new_balance_in_pence") {
        Ok(v) => v,
        Err(d) => return Err(d),
    };
    Ok(ZenSendError { failcode, parameter, cost_in_pence, new_balance_in_pence })
}

/// Classifies an envelope from its root node, its `success` and `failure`
/// nodes, and what reading the failure's fields gave: a root that is no
/// object, or a failure present whose fields do not decode, is an error; else
/// a success wins, then a failure; neither is `Malformed`.
pub fn classify_envelope(
    root: Option<JsonNode>,
    success: Option<JsonNode>,
    failure: Option<JsonNode>,
    failure_fields: Result<ZenSendError, String>,
) -> (r: Result<Envelope, String>)
    ensures
        !(root matches Some(JsonNode::Object(_))) ==> r is Err,
        root matches Some(JsonNode::Object(_)) ==> {
            if node_present(failure) && failure_fields is Err {
                r matches Err(d) && failure_fields == Err::<ZenSendError, String>(d)
            } else if node_present(success) {
                r matches Ok(Envelope::Success)
            } else if node_present(failure) {
                r matches Ok(Envelope::Failure(e)) && e == failure_fields.unwrap()
            } else {
                r matches Ok(Envelope::Malformed)
            }
        },
{
    match root {
        Some(JsonNode::Object(_)) => {},
        _ => return Err("expected an object".to_owned()),
    }
    let failure_present = failure.is_some() && !matches!(failure, Some(JsonNode::Null));
    let success_present = success.is_some() && !matches!(success, Some(JsonNode::Null));
    match failure_fields {
        Err(d) => {
            if failure_present {
                Err(d)
            } else if success_present {
                Ok(Envelope::Success)
            } else {
                Ok(Envelope::Malformed)
            }
        },
        Ok(e) => {
            if success_present {
                Ok(Envelope::Success)
            } else if failure_present {
                Ok(Envelope::Failure(e))
            } else {
                Ok(Envelope::Malformed)
            }
        },
    }
}

/// Decodes the envelope of a JSON body: a success wins over a failure that
/// decodes; a body beyond the parser's limits (size, bracket count, exponent
/// length), which the parser cannot read safely, gives a diagnostic too;
/// neither is `Malformed`; text that is no envelope gives a diagnostic.
pub fn decode_envelope(text: &str) -> (r: Result<Envelope, String>)
    ensures
        r is Err <==> envelope_broken(text@),
        r matches Ok(Envelope::Success) <==> envelope_success(text@),
        r matches Ok(Envelope::Malformed) <==> envelope_neither(text@),
        r matches Ok(Envelope::Failure(_)) <==> envelope_failure(text@),
        r matches Ok(Envelope::Failure(e)) ==> failure_matches(text@, e),
{
    if !within_json_limits(text) {
        return Err("the body is beyond the parser's limits".to_owned());
    }
    match parse_check(text) {
        Ok(()) => {},
        Err(d) => return Err(d),
    }
    let root = find_root(text);
    let success = find_top_field(text, "success");
    let failure = find_top_field(text, "failure");
    let fields = decode_failure(text);
    classify_envelope(root, success, failure, fields)
}

/// The response is JSON with a success payload.
pub open spec fn accepted(resp: ApiResponse) -> bool {
    json_content(resp) && envelope_success(resp.body@)
}

/// `e` is the error that the response stands for, when it is not accepted.
pub open spec fn refused_with(resp: ApiResponse, e: Error) -> bool {
    match e {
        Error::UnexpectedResponse(s) => s == resp.status && (!json_content(resp)
            || envelope_neither(resp.body@)),
        Error::Json(_) => json_content(resp) && envelope_broken(resp.body@),
        Error::Api(f) => json_content(resp) && envelope_failure(resp.body@)
            && failure_matches(resp.body@, f),
        _ => false,
    }
}

/// A JSON response whose envelope has neither field stands only for an
/// unexpected response with its own status; one whose body does not parse
/// only for a decode error.
pub proof fn lemma_refusals(resp: ApiResponse, e: Error)
    requires
        json_content(resp),
        refused_with(resp, e),
    ensures
        envelope_neither(resp.body@) ==> e == Error::UnexpectedResponse(resp.status),
        !json_well_formed(resp.body@) ==> e is Json,
{
}

/// Classifies a response: a body that is not JSON is not read; a JSON body
/// gives its envelope.
pub fn check_response(resp: &ApiResponse) -> (r: Result<(), Error>)
    ensures
        r is Ok <==> accepted(*resp),
        r matches Err(e) ==> refused_with(*resp, e),
{
    let is_json = match &resp.content_type {
        Some(ct) => is_json_content_type(ct.as_str()),
        None => false,
    };
    if !is_json {
        return Err(Error::UnexpectedResponse(resp.status));
    }
    match decode_envelope(resp.body.as_str()) {
        Ok(Envelope::Success) => Ok(()),
        Ok(Envelope::Failure(e)) => Err(Error::Api(e)),
        Ok(Envelope::Malformed) => Err(Error::UnexpectedResponse(resp.status)),
        Err(d) => Err(Error::Json(d)),
    }
}

/// Every field of an SMS payload decodes.
pub open spec fn sms_decodes(text: Seq<char>) -> bool {
    &&& str_of(field(text, "success"@, "txguid"@)) is Some
    &&& i32_of(field(text, "success"@, "numbers"@)) is Some
    &&& i32_of(field(text, "success"@, "smsparts"@)) is Some
    &&& str_of(field(text, "success"@, "encoding"@)) is Some
    &&& number_of(field(text, "success"@, "cost_in_pence"@)) is Some
    &&& number_of(field(text, "success"@, "new_balance_in_pence"@)) is Some
}

/// `r` holds the fields of the SMS payload.
pub open spec fn sms_matches(text: Seq<char>, r: SmsResult) -> bool {
    &&& str_of(field(text, "success"@, "txguid"@)) == Some(r.txguid@)
    &&& i32_of(field(text, "success"@, "numbers"@)) == Some(r.numbers)
    &&& i32_of(field(text, "success"@, "smsparts"@)) == Some(r.smsparts)
    &&& str_of(field(text, "success"@, "encoding"@)) == Some(r.encoding@)
    &&& number_of(field(text, "success"@, "cost_in_pence"@)) == Some(r.cost_in_pence)
    &&& number_of(field(text, "success"@, "new_balance_in_pence"@)) == Some(r.new_balance_in_pence)
}

/// Every field of a keyword payload decodes.
pub open spec fn keyword_decodes(text: Seq<char>) -> bool {
    &&& number_of(field(text, "success"@, "cost_in_pence"@)) is Some
    &&& number_of(field(text, "success"@, "new_balance_in_pence"@)) is Some
}

/// `r` holds the fields of the keyword payload.
pub open spec fn keyword_matches(text: Seq<char>, r: CreateKeywordResult) -> bool {
    &&& number_of(field(text, "success"@, "cost_in_pence"@)) == Some(r.cost_in_pence)
    &&& number_of(field(text, "success"@, "new_balance_in_pence"@)) == Some(r.new_balance_in_pence)
}

/// Every field of an operator lookup payload decodes.
pub open spec fn lookup_decodes(text: Seq<char>) -> bool {
    &&& str_of(field(text, "success"@, "mcc"@)) is Some
    &&& str_of(field(text, "success"@, "mnc"@)) is Some
    &&& str_of(field(text, "success"@, "operator"@)) is Some
    &&& number_of(field(text, "success"@, "cost_in_pence"@)) is Some
    &&& number_of(field(text, "success"@, "new_balance_in_pence"@)) is Some
}

/// `r` holds the fields of the operator lookup payload.
pub open spec fn lookup_matches(text: Seq<char>, r: OperatorLookupResult) -> bool {
    &&& str_of(field(text, "success"@, "mcc"@)) == Some(r.mcc@)
    &&& str_of(field(text, "success"@, "mnc"@)) == Some(r.mnc@)
    &&& str_of(field(text, "success"@, "operator"@)) == Some(r.operator@)
    &&& number_of(field(text, "success"@, "cost_in_pence"@)) == Some(r.cost_in_pence)
    &&& number_of(field(text, "success"@, "new_balance_in_pence"@)) == Some(r.new_balance_in_pence)
}

/// The balance in the payload.
pub open spec fn balance_of(text: Seq<char>) -> Option<Number> {
    number_of(field(text, "success"@, "balance"@))
}

/// The countries of the price list, in the parser's key order.
pub open spec fn price_countries(text: Seq<char>) -> Option<Seq<Seq<char>>> {
    match field(text, "success"@, "prices_in_pence"@) {
        Some(JsonNode::Object(keys)) => Some(keys@.map_values(|k: String| k@)),
        _ => None,
    }
}

/// The price of one country.
pub open spec fn price_of(text: Seq<char>, country: Seq<char>) -> Option<Number> {
    number_of(nested_field(text, "success"@, "prices_in_pence"@, country))
}

/// The price list is an object of numbers.
pub open spec fn prices_decode(text: Seq<char>) -> bool {
    match price_countries(text) {
        Some(cs) => forall|i: int| 0 <= i < cs.len() ==> (#[trigger] price_of(text, cs[i])) is Some,
        None => false,
    }
}

/// `r` lists each country of the price list with its price, in key order.
pub open spec fn prices_match(text: Seq<char>, r: Seq<(String, Number)>) -> bool {
    match price_countries(text) {
        Some(cs) => r.len() == cs.len() && forall|i: int| 0 <= i < cs.len() ==>
            (#[trigger] r[i]).0@ == cs[i] && price_of(text, cs[i]) == Some(r[i].1),
        None => false,
    }
}

/// Reads the payload of a sent SMS.
pub fn decode_sms_result(text: &str) -> (r: Result<SmsResult, String>)
    ensures
        r is Ok <==> json_within_limits(text@) && sms_decodes(text@),
        r matches Ok(v) ==> sms_matches(text@, v),
{
    if !within_json_limits(text) {
        return Err("the body is beyond the parser's limits".to_owned());
    }
    let txguid = match read_str(text, "success", "txguid") {
        Ok(v) => v,
        Err(d) => return Err(d),
    };
    let numbers = match read_i32(text, "success", "numbers") {
        Ok(v) => v,
        Err(d) => return Err(d),
    };
    let smsparts = match read_i32(text, "success", "smsparts") {
        Ok(v) => v,
        Err(d) => return Err(d),
    };
    let encoding = match read_str(text, "success", "encoding") {
        Ok(v) => v,
        Err(d) => return Err(d),
    };
    let cost_in_pence = match read_number(text, "success", "cost_in_pence") {
        Ok(v) => v,
        Err(d) => return Err(d),
    };
    let new_balance_in_pence = match read_number(text, "success", "new_balance_in_pence") {
        Ok(v) => v,
        Err(d) => return Err(d),
    };
    Ok(SmsResult { txguid, numbers, smsparts, encoding, cost_in_pence, new_balance_in_pence })
}

/// Reads the payload of a registered keyword.
pub fn decode_keyword_result(text: &str) -> (r: Result<CreateKeywordResult, String>)
    ensures
        r is Ok <==> json_within_limits(text@) && keyword_decodes(text@),
        r matches Ok(v) ==> keyword_matches(text@, v),
{
    if !within_json_limits(text) {
        return Err("the body is beyond the parser's limits".to_owned());
    }
    let cost_in_pence = match read_number(text, "success", "cost_in_pence") {
        Ok(v) => v,
        Err(d) => return Err(d),
    };
    let new_balance_in_pence = match read_number(text, "success", "new_balance_in_pence") {
        Ok(v) => v,
        Err(d) => return Err(d),
    };
    Ok(CreateKeywordResult { cost_in_pence, new_balance_in_pence })
}

/// Reads the payload of an operator lookup.
pub fn decode_lookup_result(text: &str) -> (r: Result<OperatorLookupResult, String>)
    ensures
        r is Ok <==> json_within_limits(text@) && lookup_decodes(text@),
        r matches Ok(v) ==> lookup_matches(text@, v),
{
    if !within_json_limits(text) {
        return Err("the body is beyond the parser's limits".to_owned());
    }
    let mcc = match read_str(text, "success", "mcc") {
        Ok(v) => v,
        Err(d) => return Err(d),
    };
    let mnc = match read_str(text, "success", "mnc") {
        Ok(v) => v,
        Err(d) => return Err(d),
    };
    let operator = match read_str(text, "success", "operator") {
        Ok(v) => v,
        Err(d) => return Err(d),
    };
    let cost_in_pence = match read_number(text, "success", "cost_in_pence") {
        Ok(v) => v,
        Err(d) => return Err(d),
    };
    let new_balance_in_pence = match read_number(text, "success", "new_balance_in_pence") {
        Ok(v) => v,
        Err(d) => return Err(d),
    };
    Ok(OperatorLookupResult { mcc, mnc, operator, cost_in_pence, new_balance_in_pence })
}

/// Reads the balance of the payload.
pub fn decode_balance(text: &str) -> (r: Result<Number, String>)
    ensures
        r is Ok <==> json_within_limits(text@) && balance_of(text@) is Some,
        r matches Ok(v) ==> balance_of(text@) == Some(v),
{
    if !within_json_limits(text) {
        return Err("the body is beyond the parser's limits".to_owned());
    }
    read_number(text, "success", "balance")
}

/// Reads the price list of the payload, one entry per country in key order.
pub fn decode_prices(text: &str) -> (r: Result<Vec<(String, Number)>, String>)
    ensures
        r is Ok <==> json_within_limits(text@) && prices_decode(text@),
        r matches Ok(v) ==> prices_match(text@, v@),
        r matches Ok(v) ==> v@.map_values(|p: (String, Number)| p.0@).no_duplicates(),
{
    if !within_json_limits(text) {
        return Err("the body is beyond the parser's limits".to_owned());
    }
    let countries = match find_field(text, "success", "prices_in_pence") {
        Some(JsonNode::Object(keys)) => keys,
        _ => return Err("expected an object at prices_in_pence".to_owned()),
    };
    let ghost cs = countries@.map_values(|k: String| k@);
    assert(price_countries(text@) == Some(cs));
    let mut out: Vec<(String, Number)> = Vec::new();
    let mut i: usize = 0;
    while i < countries.len()
        invariant
            0 <= i <= countries.len(),
            cs == countries@.map_values(|k: String| k@),
            price_countries(text@) == Some(cs),
            json_within_limits(text@),
            out.len() == i,
            forall|j: int| 0 <= j < i ==> (#[trigger] out@[j]).0@ == cs[j]
                && price_of(text@, cs[j]) == Some(out@[j].1),
        decreases countries.len() - i,
    {
        let country = countries[i].clone();
        match find_nested_field(text, "success", "prices_in_pence", country.as_str()) {
            Some(JsonNode::Int(n)) => out.push((country, Number::Int(n))),
            Some(JsonNode::UInt(n)) => out.push((country, Number::UInt(n))),
            Some(JsonNode::Real(n)) => out.push((country, Number::Real(n))),
            _ => {
                assert(price_of(text@, cs[i as int]) is None);
                return Err("expected a number at prices_in_pence".to_owned());
            },
        }
        i += 1;
    }
    assert forall|j: int| 0 <= j < cs.len() implies (#[trigger] price_of(text@, cs[j])) is Some by {
        assert(out@[j].0@ == cs[j]);
    }
    assert(out@.map_values(|p: (String, Number)| p.0@) =~= cs);
    Ok(out)
}

/// The outcome of an SMS send: the payload if the response is accepted and
/// it decodes, a decode error if it does not, else the response's error.
pub fn send_sms_result(resp: &ApiResponse) -> (r: Result<SmsResult, Error>)
    ensures
        r is Ok <==> accepted(*resp) && sms_decodes(resp.body@),
        r matches Ok(v) ==> sms_matches(resp.body@, v),
        accepted(*resp) && !sms_decodes(resp.body@) ==> r matches Err(Error::Json(_)),
        !accepted(*resp) ==> (r matches Err(e) && refused_with(*resp, e)),
{
    match check_response(resp) {
        Ok(()) => match decode_sms_result(resp.body.as_str()) {
            Ok(v) => Ok(v),
            Err(d) => Err(Error::Json(d)),
        },
        Err(e) => Err(e),
    }
}

/// The outcome of a keyword registration, as for `send_sms_result`.
pub fn create_keyword_result(resp: &ApiResponse) -> (r: Result<CreateKeywordResult, Error>)
    ensures
        r is Ok <==> accepted(*resp) && keyword_decodes(resp.body@),
        r matches Ok(v) ==> keyword_matches(resp.body@, v),
        accepted(*resp) && !keyword_decodes(resp.body@) ==> r matches Err(Error::Json(_)),
        !accepted(*resp) ==> (r matches Err(e) && refused_with(*resp, e)),
{
    match check_response(resp) {
        Ok(()) => match decode_keyword_result(resp.body.as_str()) {
            Ok(v) => Ok(v),
            Err(d) => Err(Error::Json(d)),
        },
        Err(e) => Err(e),
    }
}

/// The outcome of an operator lookup, as for `send_sms_result`.
pub fn lookup_operator_result(resp: &ApiResponse) -> (r: Result<OperatorLookupResult, Error>)
    ensures
        r is Ok <==> accepted(*resp) && lookup_decodes(resp.body@),
        r matches Ok(v) ==> lookup_matches(resp.body@, v),
        accepted(*resp) && !lookup_decodes(resp.body@) ==> r matches Err(Error::Json(_)),
        !accepted(*resp) ==> (r matches Err(e) && refused_with(*resp, e)),
{
    match check_response(resp) {
        Ok(()) => match decode_lookup_result(resp.body.as_str()) {
            Ok(v) => Ok(v),
            Err(d) => Err(Error::Json(d)),
        },
        Err(e) => Err(e),
    }
}

/// The outcome of a balance check: the bare balance of the payload.
pub fn check_balance_result(resp: &ApiResponse) -> (r: Result<Number, Error>)
    ensures
        r is Ok <==> accepted(*resp) && balance_of(resp.body@) is Some,
        r matches Ok(v) ==> balance_of(resp.body@) == Some(v),
        accepted(*resp) && balance_of(resp.body@) is None ==> r matches Err(Error::Json(_)),
        !accepted(*resp) ==> (r matches Err(e) && refused_with(*resp, e)),
{
    match check_response(resp) {
        Ok(()) => match decode_balance(resp.body.as_str()) {
            Ok(v) => Ok(v),
            Err(d) => Err(Error::Json(d)),
        },
        Err(e) => Err(e),
    }
}

/// The outcome of a price request: the bare price list of the payload.
pub fn get_prices_result(resp: &ApiResponse) -> (r: Result<Vec<(String, Number)>, Error>)
    ensures
        r is Ok <==> accepted(*resp) && prices_decode(resp.body@),
        r matches Ok(v) ==> prices_match(resp.body@, v@),
        r matches Ok(v) ==> v@.map_values(|p: (String, Number)| p.0@).no_duplicates(),
        accepted(*resp) && !prices_decode(resp.body@) ==> r matches Err(Error::Json(_)),
        !accepted(*resp) ==> (r matches Err(e) && refused_with(*resp, e)),
{
    match check_response(resp) {
        Ok(()) => match decode_prices(resp.body.as_str()) {
            Ok(v) => Ok(v),
            Err(d) => Err(Error::Json(d)),
        },
        Err(e) => Err(e),
    }
}

} // verus!

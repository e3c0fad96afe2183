//! The requests of each API operation: method, path, credential and
//! form-encoded parameters.
use vstd::prelude::*;

use crate::form::{
    all_ascii_pairs, all_plain, all_unreserved, ascii_escaped_pairs, encode_pairs, form_encoded,
    pairs_text, pairs_view,
};
use crate::text::{decimal_text, int_text, join_commas, joined, strs_view};

verus! {

/// The production endpoint of the API.
pub const DEFAULT_URL: &'static str = "https://api.zensend.io";

/// How the receiving handset shows the sender.
#[derive(PartialEq, Eq, Structural, Clone, Copy, Debug)]
pub enum OriginatorType {
    Alpha,
    Msisdn,
}

impl Default for OriginatorType {
    fn default() -> (r: OriginatorType)
        ensures
            r == OriginatorType::Alpha,
    {
        OriginatorType::Alpha
    }
}

/// The character encoding of a message; `Auto` leaves the choice to the API.
#[derive(PartialEq, Eq, Structural, Clone, Copy, Debug)]
pub enum SmsEncoding {
    Auto,
    Gsm,
    Ucs2,
}

impl Default for SmsEncoding {
    fn default() -> (r: SmsEncoding)
        ensures
            r == SmsEncoding::Auto,
    {
        SmsEncoding::Auto
    }
}

/// An SMS to send to one or more numbers.
#[derive(Default)]
pub struct Message<'a> {
    pub originator: &'a str,
    pub body: &'a str,
    pub numbers: &'a [&'a str],
    pub originator_type: OriginatorType,
    pub sms_encoding: SmsEncoding,
    pub time_to_live_in_minutes: Option<i32>,
}

/// A keyword to register on a shortcode.
#[derive(Default)]
pub struct CreateKeywordRequest<'a> {
    pub shortcode: &'a str,
    pub keyword: &'a str,
    pub is_sticky: bool,
    pub mo_url: Option<&'a str>,
}

#[derive(PartialEq, Eq, Structural, Clone, Copy, Debug)]
pub enum Method {
    Get,
    Post,
}

/// One HTTP request of the API. `path` holds the query string of a GET;
/// `url` is the client's base URL followed by `path`; `api_key` goes in the
/// `X-API-KEY` header.
#[derive(Debug)]
pub struct ApiRequest {
    pub method: Method,
    pub url: String,
    pub path: String,
    pub api_key: String,
    pub body: Option<String>,
}

/// The name of the header that carries the credential.
pub const API_KEY_HEADER: &'static str = "X-API-KEY";

pub open spec fn originator_type_text(t: OriginatorType) -> Seq<char> {
    match t {
        OriginatorType::Alpha => "alpha"@,
        OriginatorType::Msisdn => "msisdn"@,
    }
}

/// The parameters of an SMS, in wire order: the general ones, then the
/// time-to-live if given, then the encoding unless it is `Auto`.
pub open spec fn sms_params(m: Message) -> Seq<(Seq<char>, Seq<char>)> {
    let general = seq![
        ("BODY"@, m.body@),
        ("ORIGINATOR"@, m.originator@),
        ("NUMBERS"@, joined(strs_view(m.numbers@), ","@)),
        ("ORIGINATOR_TYPE"@, originator_type_text(m.originator_type)),
    ];
    let with_ttl = match m.time_to_live_in_minutes {
        Some(t) => general.push(("TIMETOLIVE"@, decimal_text(t as int))),
        None => general,
    };
    match m.sms_encoding {
        SmsEncoding::Auto => with_ttl,
        SmsEncoding::Gsm => with_ttl.push(("ENCODING"@, "gsm"@)),
        SmsEncoding::Ucs2 => with_ttl.push(("ENCODING"@, "ucs2"@)),
    }
}

pub open spec fn bool_text(b: bool) -> Seq<char> {
    if b { "true"@ } else { "false"@ }
}

/// The parameters of a keyword registration, in wire order; `MO_URL` only
/// when given.
pub open spec fn keyword_params(k: CreateKeywordRequest) -> Seq<(Seq<char>, Seq<char>)> {
    let general = seq![
        ("SHORTCODE"@, k.shortcode@),
        ("KEYWORD"@, k.keyword@),
        ("IS_STICKY"@, bool_text(k.is_sticky)),
    ];
    match k.mo_url {
        Some(u) => general.push(("MO_URL"@, u@)),
        None => general,
    }
}

pub open spec fn lookup_params(number: Seq<char>) -> Seq<(Seq<char>, Seq<char>)> {
    seq![("NUMBER"@, number)]
}

/// Some parameter has the key `key`.
pub open spec fn has_key(ps: Seq<(Seq<char>, Seq<char>)>, key: Seq<char>) -> bool {
    exists|i: int| 0 <= i < ps.len() && (#[trigger] ps[i]).0 == key
}

/// The parameters of an SMS start with `BODY`, `ORIGINATOR`, `NUMBERS` (the
/// numbers joined by commas, as one value) and `ORIGINATOR_TYPE`;
/// `TIMETOLIVE` is there exactly when a time-to-live is given, and
/// `ENCODING` exactly when the encoding is not `Auto`, with value `gsm` or
/// `ucs2`, after the time-to-live.
pub proof fn lemma_sms_params(m: Message)
    ensures
        sms_params(m).take(4) == seq![
            ("BODY"@, m.body@),
            ("ORIGINATOR"@, m.originator@),
            ("NUMBERS"@, joined(strs_view(m.numbers@), ","@)),
            ("ORIGINATOR_TYPE"@, originator_type_text(m.originator_type)),
        ],
        has_key(sms_params(m), "TIMETOLIVE"@) <==> m.time_to_live_in_minutes is Some,
        has_key(sms_params(m), "ENCODING"@) <==> m.sms_encoding != SmsEncoding::Auto,
        m.sms_encoding == SmsEncoding::Gsm ==> sms_params(m).last() == ("ENCODING"@, "gsm"@),
        m.sms_encoding == SmsEncoding::Ucs2 ==> sms_params(m).last() == ("ENCODING"@, "ucs2"@),
{
    reveal_strlit("BODY");
    reveal_strlit("ORIGINATOR");
    reveal_strlit("NUMBERS");
    reveal_strlit("ORIGINATOR_TYPE");
    reveal_strlit("TIMETOLIVE");
    reveal_strlit("ENCODING");
    let ps = sms_params(m);
    assert(ps.take(4) =~= seq![
        ("BODY"@, m.body@),
        ("ORIGINATOR"@, m.originator@),
        ("NUMBERS"@, joined(strs_view(m.numbers@), ","@)),
        ("ORIGINATOR_TYPE"@, originator_type_text(m.originator_type)),
    ]);
    assert("ORIGINATOR"@[0] != "TIMETOLIVE"@[0]);
    if m.time_to_live_in_minutes is Some {
        assert(ps[4].0 == "TIMETOLIVE"@);
    } else {
        assert forall|i: int| 0 <= i < ps.len() implies (#[trigger] ps[i]).0 != "TIMETOLIVE"@ by {
            if i == 1 {
                assert(ps[i].0[0] != "TIMETOLIVE"@[0]);
            }
        }
    }
    if m.sms_encoding != SmsEncoding::Auto {
        assert(ps.last().0 == "ENCODING"@);
    } else {
        assert forall|i: int| 0 <= i < ps.len() implies (#[trigger] ps[i]).0 != "ENCODING"@ by {
            assert(ps[i].0.len() != "ENCODING"@.len());
        }
    }
}

/// The parameters of a keyword registration are `SHORTCODE`, `KEYWORD`,
/// `IS_STICKY` (always, `true` or `false`), then `MO_URL` exactly when an
/// inbound-message URL is given.
pub proof fn lemma_keyword_params(k: CreateKeywordRequest)
    ensures
        keyword_params(k).take(3) == seq![
            ("SHORTCODE"@, k.shortcode@),
            ("KEYWORD"@, k.keyword@),
            ("IS_STICKY"@, if k.is_sticky { "true"@ } else { "false"@ }),
        ],
        has_key(keyword_params(k), "MO_URL"@) <==> k.mo_url is Some,
{
    reveal_strlit("SHORTCODE");
    reveal_strlit("KEYWORD");
    reveal_strlit("IS_STICKY");
    reveal_strlit("MO_URL");
    let ps = keyword_params(k);
    assert(ps.take(3) =~= seq![
        ("SHORTCODE"@, k.shortcode@),
        ("KEYWORD"@, k.keyword@),
        ("IS_STICKY"@, if k.is_sticky { "true"@ } else { "false"@ }),
    ]);
    if k.mo_url is Some {
        assert(ps[3].0 == "MO_URL"@);
    } else {
        assert forall|i: int| 0 <= i < ps.len() implies (#[trigger] ps[i]).0 != "MO_URL"@ by {
            assert(ps[i].0.len() != "MO_URL"@.len());
        }
    }
}

fn pair(key: &str, value: &str) -> (r: (String, String))
    ensures
        r.0@ == key@,
        r.1@ == value@,
{
    (key.to_owned(), value.to_owned())
}

/// The parameters of `message`, in wire order.
pub fn sms_pairs(message: &Message) -> (r: Vec<(String, String)>)
    ensures
        pairs_view(r@) == sms_params(*message),
{
    let numbers = join_commas(message.numbers);
    let originator_type = match message.originator_type {
        OriginatorType::Alpha => "alpha",
        OriginatorType::Msisdn => "msisdn",
    };
    let mut v: Vec<(String, String)> = Vec::new();
    v.push(pair("BODY", message.body));
    v.push(pair("ORIGINATOR", message.originator));
    v.push(pair("NUMBERS", numbers.as_str()));
    v.push(pair("ORIGINATOR_TYPE", originator_type));
    let ghost general = pairs_view(v@);
    match message.time_to_live_in_minutes {
        Some(minutes) => {
            let ttl = int_text(minutes);
            v.push(pair("TIMETOLIVE", ttl.as_str()));
        },
        None => {},
    }
    let ghost with_ttl = pairs_view(v@);
    match message.sms_encoding {
        SmsEncoding::Auto => {},
        SmsEncoding::Gsm => v.push(pair("ENCODING", "gsm")),
        SmsEncoding::Ucs2 => v.push(pair("ENCODING", "ucs2")),
    }
    assert(pairs_view(v@) =~= sms_params(*message));
    v
}

/// The parameters of `request`, in wire order.
pub fn keyword_pairs(request: &CreateKeywordRequest) -> (r: Vec<(String, String)>)
    ensures
        pairs_view(r@) == keyword_params(*request),
{
    let sticky = if request.is_sticky { "true" } else { "false" };
    let mut v: Vec<(String, String)> = Vec::new();
    v.push(pair("SHORTCODE", request.shortcode));
    v.push(pair("KEYWORD", request.keyword));
    v.push(pair("IS_STICKY", sticky));
    match request.mo_url {
        Some(url) => v.push(pair("MO_URL", url)),
        None => {},
    }
    assert(pairs_view(v@) =~= keyword_params(*request));
    v
}

/// Holds the credential and the base URL; both are fixed at construction.
pub struct Client {
    api_key: String,
    url: String,
}

/// `r` is the request of `c` with this method, path and body.
pub open spec fn request_for(
    r: ApiRequest,
    c: Client,
    method: Method,
    path: Seq<char>,
    body: Option<Seq<char>>,
) -> bool {
    &&& r.method == method
    &&& r.path@ == path
    &&& r.url@ == c.url_view() + path
    &&& r.api_key@ == c.api_key_view()
    &&& match body {
        Some(b) => r.body is Some && r.body.unwrap()@ == b,
        None => r.body is None,
    }
}

impl Client {
    pub closed spec fn api_key_view(&self) -> Seq<char> {
        self.api_key@
    }

    pub closed spec fn url_view(&self) -> Seq<char> {
        self.url@
    }

    /// A client of the production endpoint.
    pub fn new(api_key: String) -> (r: Client)
        ensures
            r.api_key_view() == api_key@,
            r.url_view() == DEFAULT_URL@,
    {
        Client { api_key, url: DEFAULT_URL.to_owned() }
    }

    /// A client of another endpoint (a test server, another deployment).
    pub fn new_with_url(api_key: String, url: String) -> (r: Client)
        ensures
            r.api_key_view() == api_key@,
            r.url_view() == url@,
    {
        Client { api_key, url }
    }

    pub fn api_key(&self) -> (r: &str)
        ensures
            r@ == self.api_key_view(),
    {
        self.api_key.as_str()
    }

    pub fn url(&self) -> (r: &str)
        ensures
            r@ == self.url_view(),
    {
        self.url.as_str()
    }

    fn request(&self, method: Method, path: String, body: Option<String>) -> (r: ApiRequest)
        ensures
            r.method == method,
            r.path@ == path@,
            r.url@ == self.url_view() + path@,
            r.api_key@ == self.api_key_view(),
            r.body == body,
    {
        let url = self.url.clone().concat(path.as_str());
        ApiRequest { method, url, path, api_key: self.api_key.clone(), body }
    }

    /// The POST that sends `message`.
    pub fn send_sms_request(&self, message: &Message) -> (r: ApiRequest)
        ensures
            request_for(r, *self, Method::Post, "/v3/sendsms"@, Some(form_encoded(sms_params(*message)))),
            all_plain(sms_params(*message)) ==> r.body.unwrap()@ == pairs_text(sms_params(*message)),
            all_ascii_pairs(sms_params(*message)) ==> r.body.unwrap()@
                == pairs_text(ascii_escaped_pairs(sms_params(*message))),
    {
        let body = encode_pairs(&sms_pairs(message));
        self.request(Method::Post, "/v3/sendsms".to_owned(), Some(body))
    }

    /// The POST that registers a keyword.
    pub fn create_keyword_request(&self, request: &CreateKeywordRequest) -> (r: ApiRequest)
        ensures
            request_for(r, *self, Method::Post, "/v3/keywords"@, Some(form_encoded(keyword_params(*request)))),
            all_plain(keyword_params(*request)) ==> r.body.unwrap()@
                == pairs_text(keyword_params(*request)),
            all_ascii_pairs(keyword_params(*request)) ==> r.body.unwrap()@
                == pairs_text(ascii_escaped_pairs(keyword_params(*request))),
    {
        let body = encode_pairs(&keyword_pairs(request));
        self.request(Method::Post, "/v3/keywords".to_owned(), Some(body))
    }

    /// The GET that looks up the operator of `number`; a number of digits
    /// only stands in the query as it is.
    pub fn lookup_operator_request(&self, number: &str) -> (r: ApiRequest)
        ensures
            request_for(r, *self, Method::Get, "/v3/operator_lookup?"@ + form_encoded(lookup_params(number@)), None),
            all_unreserved(number@) ==> r.path@ == "/v3/operator_lookup?NUMBER="@ + number@,
            all_ascii_pairs(lookup_params(number@)) ==> r.path@ == "/v3/operator_lookup?"@
                + pairs_text(ascii_escaped_pairs(lookup_params(number@))),
    {
        let mut pairs: Vec<(String, String)> = Vec::new();
        pairs.push(pair("NUMBER", number));
        assert(pairs_view(pairs@) =~= lookup_params(number@));
        let query = encode_pairs(&pairs);
        proof {
            reveal_strlit("NUMBER");
            assert(all_unreserved("NUMBER"@));
            if all_unreserved(number@) {
                assert(pairs_text(lookup_params(number@)) =~= "NUMBER"@ + "="@ + number@);
                reveal_strlit("/v3/operator_lookup?");
                reveal_strlit("/v3/operator_lookup?NUMBER=");
                reveal_strlit("=");
                assert("/v3/operator_lookup?"@ + ("NUMBER"@ + "="@ + number@) =~= "/v3/operator_lookup?NUMBER="@ + number@);
            }
        }
        let path = "/v3/operator_lookup?".to_owned().concat(query.as_str());
        self.request(Method::Get, path, None)
    }

    /// The GET of the account's balance.
    pub fn check_balance_request(&self) -> (r: ApiRequest)
        ensures
            request_for(r, *self, Method::Get, "/v3/checkbalance"@, None),
    {
        self.request(Method::Get, "/v3/checkbalance".to_owned(), None)
    }

    /// The GET of the price list.
    pub fn get_prices_request(&self) -> (r: ApiRequest)
        ensures
            request_for(r, *self, Method::Get, "/v3/prices"@, None),
    {
        self.request(Method::Get, "/v3/prices".to_owned(), None)
    }
}

} // verus!

use vstd::prelude::*;
use vstd::string::StrSliceExecFns;
use crate::config::Config;
use crate::jsonwire::{geo_body_is_object, geo_field};
use crate::transport::{http_get, response_status, response_text};

verus! {

/// How many seconds a request may take to connect, and to complete.
pub const REQUEST_TIMEOUT_SECS: u64 = 5;

/// Why a call against the remote API failed.
#[derive(Clone, Copy, Debug, PartialEq, Eq, Structural)]
pub enum ApiError {
    /// The request could not be sent, or timed out.
    TransportError,
    /// The remote answered with the contained non-success HTTP status.
    RemoteStatusError(u16),
    /// The response body could not be read as text, or does not decode as
    /// a geographical record.
    DecodeError,
}

/// The numeric value of a decimal digit, or -1 for any other character.
pub open spec fn spec_digit_val(c: char) -> int {
    match c {
        '0' => 0,
        '1' => 1,
        '2' => 2,
        '3' => 3,
        '4' => 4,
        '5' => 5,
        '6' => 6,
        '7' => 7,
        '8' => 8,
        '9' => 9,
        _ => -1,
    }
}

pub open spec fn spec_is_digit(c: char) -> bool {
    spec_digit_val(c) >= 0
}

pub open spec fn spec_all_digits(s: Seq<char>) -> bool {
    forall|i: int| 0 <= i < s.len() ==> spec_is_digit(#[trigger] s[i])
}

/// The value of a digit sequence read as a decimal number.
pub open spec fn spec_digits_val(s: Seq<char>) -> int
    decreases s.len(),
{
    if s.len() == 0 {
        0
    } else {
        spec_digits_val(s.drop_last()) * 10 + spec_digit_val(s.last())
    }
}

/// The integer a string denotes: an optional leading `-` followed by at
/// least one decimal digit and nothing else; `None` for any other shape.
pub open spec fn spec_parse_int(s: Seq<char>) -> Option<int> {
    if s.len() > 0 && s[0] == '-' {
        if s.len() > 1 && spec_all_digits(s.subrange(1, s.len() as int)) {
            Some(-spec_digits_val(s.subrange(1, s.len() as int)))
        } else {
            None
        }
    } else {
        if s.len() > 0 && spec_all_digits(s) {
            Some(spec_digits_val(s))
        } else {
            None
        }
    }
}

/// The lenient reading of a string as an `i32` field: its integer value
/// where the string denotes one in range, and the field default 0 anywhere
/// else.
pub open spec fn spec_parse_i32_or_zero(s: Seq<char>) -> int {
    match spec_parse_int(s) {
        Some(v) => if i32::MIN <= v <= i32::MAX {
            v
        } else {
            0
        },
        None => 0,
    }
}

proof fn lemma_digits_val_nonneg(s: Seq<char>)
    requires
        spec_all_digits(s),
    ensures
        spec_digits_val(s) >= 0,
    decreases s.len(),
{
    if s.len() > 0 {
        assert(spec_all_digits(s.drop_last())) by {
            assert(forall|i: int|
                0 <= i < s.len() - 1 ==> s.drop_last()[i] == #[trigger] s[i]);
        }
        lemma_digits_val_nonneg(s.drop_last());
    }
}

/// A digit sequence is worth at least any of its prefixes.
proof fn lemma_digits_val_prefix_le(s: Seq<char>, i: int)
    requires
        spec_all_digits(s),
        0 <= i <= s.len(),
    ensures
        spec_digits_val(s.subrange(0, i)) <= spec_digits_val(s),
    decreases s.len(),
{
    if i == s.len() {
        assert(s.subrange(0, i) =~= s);
    } else {
        let t = s.drop_last();
        assert(spec_all_digits(t)) by {
            assert(forall|j: int| 0 <= j < t.len() ==> t[j] == #[trigger] s[j]);
        }
        assert(s.subrange(0, i) =~= t.subrange(0, i));
        lemma_digits_val_prefix_le(t, i);
        lemma_digits_val_nonneg(t);
        assert(spec_digit_val(s.last()) >= 0);
        assert(spec_digits_val(s) == spec_digits_val(t) * 10 + spec_digit_val(s.last()));
        assert(spec_digits_val(t) * 10 >= spec_digits_val(t)) by (nonlinear_arith)
            requires spec_digits_val(t) >= 0;
    }
}

/// The numeric value of a decimal digit character.
fn digit_value(c: char) -> (r: Option<u64>)
    ensures
        match r {
            Some(d) => spec_is_digit(c) && d == spec_digit_val(c),
            None => !spec_is_digit(c),
        },
{
    match c {
        '0' => Some(0u64),
        '1' => Some(1u64),
        '2' => Some(2u64),
        '3' => Some(3u64),
        '4' => Some(4u64),
        '5' => Some(5u64),
        '6' => Some(6u64),
        '7' => Some(7u64),
        '8' => Some(8u64),
        '9' => Some(9u64),
        _ => None,
    }
}

/// Read a string as an `i32`, with the field default 0 for a string that
/// does not denote an integer in range.
pub fn parse_i32_or_default(s: &str) -> (r: i32)
    ensures
        r as int == spec_parse_i32_or_zero(s@),
{
    let len: usize = s.unicode_len();
    if len == 0 {
        return 0;
    }
    let neg: bool = s.get_char(0) == '-';
    let start: usize = if neg { 1 } else { 0 };
    if start == len {
        return 0;
    }
    let ghost mag = s@.subrange(start as int, len as int);
    let mut acc: u64 = 0;
    let mut i: usize = start;
    while i < len
        invariant
            start <= i <= len,
            len == s@.len(),
            start < len,
            neg == (s@[0] == '-'),
            start == (if neg { 1int } else { 0int }),
            mag == s@.subrange(start as int, len as int),
            spec_all_digits(s@.subrange(start as int, i as int)),
            acc as int == spec_digits_val(s@.subrange(start as int, i as int)),
            acc <= 2147483648,
        decreases len - i,
    {
        let c = s.get_char(i);
        match digit_value(c) {
            None => {
                proof {
                    assert(!spec_is_digit(mag[i - start]));
                }
                return 0;
            },
            Some(d) => {
                let ghost pre = s@.subrange(start as int, i as int);
                let ghost ext = s@.subrange(start as int, i + 1);
                proof {
                    assert(ext.drop_last() =~= pre);
                    assert(ext.last() == s@[i as int]);
                    assert(spec_all_digits(ext)) by {
                        assert(forall|j: int| 0 <= j < ext.len() - 1 ==> ext[j] == #[trigger] pre[j]);
                    }
                }
                acc = acc * 10 + d;
                if acc > 2147483648 {
                    proof {
                        if !neg {
                            assert(mag =~= s@);
                        }
                        if spec_all_digits(mag) {
                            assert(ext =~= mag.subrange(0, i + 1 - start));
                            lemma_digits_val_prefix_le(mag, i + 1 - start);
                        }
                    }
                    return 0;
                }
            },
        }
        i = i + 1;
    }
    proof {
        assert(s@.subrange(start as int, i as int) =~= mag);
        lemma_digits_val_nonneg(mag);
        if !neg {
            assert(mag =~= s@);
        }
    }
    if neg {
        (0i64 - (acc as i64)) as i32
    } else {
        if acc <= 2147483647 {
            acc as i32
        } else {
            0
        }
    }
}

/// The character of a decimal digit value.
pub open spec fn spec_digit_char(d: int) -> char {
    if d == 0 {
        '0'
    } else if d == 1 {
        '1'
    } else if d == 2 {
        '2'
    } else if d == 3 {
        '3'
    } else if d == 4 {
        '4'
    } else if d == 5 {
        '5'
    } else if d == 6 {
        '6'
    } else if d == 7 {
        '7'
    } else if d == 8 {
        '8'
    } else {
        '9'
    }
}

/// The decimal digits of a natural number, most significant first.
pub open spec fn spec_dec_digits(n: nat) -> Seq<char>
    decreases n,
{
    if n < 10 {
        seq![spec_digit_char(n as int)]
    } else {
        spec_dec_digits(n / 10) + seq![spec_digit_char((n % 10) as int)]
    }
}

/// The decimal text of an integer: a `-` before the digits where it is
/// negative.
pub open spec fn spec_dec_rep(v: int) -> Seq<char> {
    if v < 0 {
        seq!['-'] + spec_dec_digits((-v) as nat)
    } else {
        spec_dec_digits(v as nat)
    }
}

/// The one-character string of a decimal digit value.
fn digit_str(d: u64) -> (r: &'static str)
    requires
        d < 10,
    ensures
        r@ == seq![spec_digit_char(d as int)],
{
    if d == 0 {
        proof { reveal_strlit("0"); assert("0"@ =~= seq!['0']); }
        "0"
    } else if d == 1 {
        proof { reveal_strlit("1"); assert("1"@ =~= seq!['1']); }
        "1"
    } else if d == 2 {
        proof { reveal_strlit("2"); assert("2"@ =~= seq!['2']); }
        "2"
    } else if d == 3 {
        proof { reveal_strlit("3"); assert("3"@ =~= seq!['3']); }
        "3"
    } else if d == 4 {
        proof { reveal_strlit("4"); assert("4"@ =~= seq!['4']); }
        "4"
    } else if d == 5 {
        proof { reveal_strlit("5"); assert("5"@ =~= seq!['5']); }
        "5"
    } else if d == 6 {
        proof { reveal_strlit("6"); assert("6"@ =~= seq!['6']); }
        "6"
    } else if d == 7 {
        proof { reveal_strlit("7"); assert("7"@ =~= seq!['7']); }
        "7"
    } else if d == 8 {
        proof { reveal_strlit("8"); assert("8"@ =~= seq!['8']); }
        "8"
    } else {
        proof { reveal_strlit("9"); assert("9"@ =~= seq!['9']); }
        "9"
    }
}

/// Write a natural number as its decimal digits.
fn u64_to_digits(n: u64) -> (s: String)
    ensures
        s@ == spec_dec_digits(n as nat),
    decreases n,
{
    if n < 10 {
        digit_str(n).to_string()
    } else {
        let mut s = u64_to_digits(n / 10);
        s.append(digit_str(n % 10));
        s
    }
}

/// Write an integer as its decimal text.
pub fn i64_to_dec_string(v: i64) -> (s: String)
    ensures
        s@ == spec_dec_rep(v as int),
{
    if v >= 0 {
        u64_to_digits(v as u64)
    } else {
        let mag: u64 = if v == i64::MIN {
            9223372036854775808u64
        } else {
            (0i64 - v) as u64
        };
        let digits = u64_to_digits(mag);
        let mut s = "-".to_string();
        proof { reveal_strlit("-"); assert("-"@ =~= seq!['-']); }
        s.append(digits.as_str());
        s
    }
}

/// One field of a wire response, reduced to the shapes the decoder tells
/// apart: a JSON string, a JSON number with an integer value, any other
/// JSON number carried as its decimal text, an absent field, or a value of
/// any other JSON type.
#[derive(Clone, Debug, PartialEq)]
pub enum FieldValue {
    Text(String),
    Integer(i64),
    NumberText(String),
    Absent,
    Other,
}

/// The lenient reading of a wire field as a text field: the string it
/// holds, or the field default for anything else.
pub open spec fn spec_text_field(f: FieldValue) -> Seq<char> {
    match f {
        FieldValue::Text(s) => s@,
        _ => Seq::<char>::empty(),
    }
}

/// The lenient reading of a wire field as numeric-looking text (the
/// coordinate fields): a string is kept as it is, a number becomes its
/// decimal text, and anything else the field default.
pub open spec fn spec_numeric_text_field(f: FieldValue) -> Seq<char> {
    match f {
        FieldValue::Text(s) => s@,
        FieldValue::NumberText(s) => s@,
        FieldValue::Integer(v) => spec_dec_rep(v as int),
        _ => Seq::<char>::empty(),
    }
}

/// The lenient reading of a wire field as an `i32` field: an integer in
/// range is kept, a string is read as a decimal integer, and anything
/// else (a fractional number included) takes the field default 0.
pub open spec fn spec_int_field(f: FieldValue) -> int {
    match f {
        FieldValue::Integer(v) => if i32::MIN <= v <= i32::MAX {
            v as int
        } else {
            0
        },
        FieldValue::Text(s) => spec_parse_i32_or_zero(s@),
        _ => 0,
    }
}

pub fn coerce_text(f: FieldValue) -> (r: String)
    ensures
        r@ == spec_text_field(f),
{
    match f {
        FieldValue::Text(s) => s,
        _ => String::new(),
    }
}

pub fn coerce_numeric_text(f: FieldValue) -> (r: String)
    ensures
        r@ == spec_numeric_text_field(f),
{
    match f {
        FieldValue::Text(s) => s,
        FieldValue::NumberText(s) => s,
        FieldValue::Integer(v) => i64_to_dec_string(v),
        _ => String::new(),
    }
}

pub fn coerce_int(f: FieldValue) -> (r: i32)
    ensures
        r as int == spec_int_field(f),
{
    match f {
        FieldValue::Integer(v) => {
            if -2147483648i64 <= v && v <= 2147483647i64 {
                v as i32
            } else {
                0
            }
        },
        FieldValue::Text(s) => parse_i32_or_default(s.as_str()),
        _ => 0,
    }
}

/// The geographical record for one IP address, with the canonical type of
/// each field: text fields are strings, the code fields are 32-bit
/// integers, and the two coordinates are carried as their decimal text so
/// that the record holds the wire value exactly. A field the response does
/// not carry takes its default: the empty string, or 0.
#[derive(Clone, Debug, PartialEq)]
pub struct GeoInfo {
    pub ip: String,
    pub country: String,
    pub city: String,
    pub region: String,
    pub organization: String,
    pub timezone: String,
    pub country_code3: String,
    pub postal_code: String,
    pub continent_code: String,
    pub region_code: String,
    pub country_code: String,
    pub dma_code: i32,
    pub area_code: i32,
    pub offset: i32,
    pub asn: i32,
    pub longitude: String,
    pub latitude: String,
}

/// Every field of the record holds its default value.
pub open spec fn spec_geo_default(g: GeoInfo) -> bool {
    &&& g.ip@ == Seq::<char>::empty()
    &&& g.country@ == Seq::<char>::empty()
    &&& g.city@ == Seq::<char>::empty()
    &&& g.region@ == Seq::<char>::empty()
    &&& g.organization@ == Seq::<char>::empty()
    &&& g.timezone@ == Seq::<char>::empty()
    &&& g.country_code3@ == Seq::<char>::empty()
    &&& g.postal_code@ == Seq::<char>::empty()
    &&& g.continent_code@ == Seq::<char>::empty()
    &&& g.region_code@ == Seq::<char>::empty()
    &&& g.country_code@ == Seq::<char>::empty()
    &&& g.dma_code == 0
    &&& g.area_code == 0
    &&& g.offset == 0
    &&& g.asn == 0
    &&& g.longitude@ == Seq::<char>::empty()
    &&& g.latitude@ == Seq::<char>::empty()
}

impl Default for GeoInfo {
    /// The fully-defaulted record: empty strings and zeroes.
    fn default() -> (g: GeoInfo)
        ensures
            spec_geo_default(g),
    {
        GeoInfo {
            ip: String::new(),
            country: String::new(),
            city: String::new(),
            region: String::new(),
            organization: String::new(),
            timezone: String::new(),
            country_code3: String::new(),
            postal_code: String::new(),
            continent_code: String::new(),
            region_code: String::new(),
            country_code: String::new(),
            dma_code: 0,
            area_code: 0,
            offset: 0,
            asn: 0,
            longitude: String::new(),
            latitude: String::new(),
        }
    }
}

/// The seventeen wire fields of one geographical response, each already
/// reduced to a [`FieldValue`].
#[derive(Clone, Debug, PartialEq)]
pub struct GeoFields {
    pub ip: FieldValue,
    pub country: FieldValue,
    pub city: FieldValue,
    pub region: FieldValue,
    pub organization: FieldValue,
    pub timezone: FieldValue,
    pub country_code3: FieldValue,
    pub postal_code: FieldValue,
    pub continent_code: FieldValue,
    pub region_code: FieldValue,
    pub country_code: FieldValue,
    pub dma_code: FieldValue,
    pub area_code: FieldValue,
    pub offset: FieldValue,
    pub asn: FieldValue,
    pub longitude: FieldValue,
    pub latitude: FieldValue,
}

/// Build the record from the wire fields of one response: every field is
/// the lenient reading of its wire value, so a partly populated response
/// still yields a whole record.
pub fn geo_from_fields(f: GeoFields) -> (g: GeoInfo)
    ensures
        g.ip@ == spec_text_field(f.ip),
        g.country@ == spec_text_field(f.country),
        g.city@ == spec_text_field(f.city),
        g.region@ == spec_text_field(f.region),
        g.organization@ == spec_text_field(f.organization),
        g.timezone@ == spec_text_field(f.timezone),
        g.country_code3@ == spec_text_field(f.country_code3),
        g.postal_code@ == spec_text_field(f.postal_code),
        g.continent_code@ == spec_text_field(f.continent_code),
        g.region_code@ == spec_text_field(f.region_code),
        g.country_code@ == spec_text_field(f.country_code),
        g.dma_code as int == spec_int_field(f.dma_code),
        g.area_code as int == spec_int_field(f.area_code),
        g.offset as int == spec_int_field(f.offset),
        g.asn as int == spec_int_field(f.asn),
        g.longitude@ == spec_numeric_text_field(f.longitude),
        g.latitude@ == spec_numeric_text_field(f.latitude),
{
    GeoInfo {
        ip: coerce_text(f.ip),
        country: coerce_text(f.country),
        city: coerce_text(f.city),
        region: coerce_text(f.region),
        organization: coerce_text(f.organization),
        timezone: coerce_text(f.timezone),
        country_code3: coerce_text(f.country_code3),
        postal_code: coerce_text(f.postal_code),
        continent_code: coerce_text(f.continent_code),
        region_code: coerce_text(f.region_code),
        country_code: coerce_text(f.country_code),
        dma_code: coerce_int(f.dma_code),
        area_code: coerce_int(f.area_code),
        offset: coerce_int(f.offset),
        asn: coerce_int(f.asn),
        longitude: coerce_numeric_text(f.longitude),
        latitude: coerce_numeric_text(f.latitude),
    }
}

/// An HTTP status in the success range.
pub open spec fn spec_is_success(status: u16) -> bool {
    200 <= status < 300
}

/// What `call_addr` makes of one response, given its status and body: the
/// body itself on a success status, and the status error otherwise — the
/// body is never looked at then.
pub fn addr_from_response(status: u16, body: String) -> (r: Result<String, ApiError>)
    ensures
        spec_is_success(status) ==> r == Ok::<String, ApiError>(body),
        !spec_is_success(status) ==> r == Err::<String, ApiError>(
            ApiError::RemoteStatusError(status),
        ),
{
    if 200 <= status && status < 300 {
        Ok(body)
    } else {
        Err(ApiError::RemoteStatusError(status))
    }
}

/// The name of what serde_json decides of a response body: whether it is
/// one valid JSON value that is an object. Said of it only what the
/// trusted items in `jsonwire` state.
pub uninterp spec fn spec_geo_body_ok(s: Seq<char>) -> bool;

/// The name of the wire field that serde_json hands out of a body under a
/// key, reduced to the [`FieldValue`] shapes. Said of it only what the
/// trusted items in `jsonwire` state.
pub uninterp spec fn spec_geo_field(s: Seq<char>, key: Seq<char>) -> FieldValue;

/// Every field of the record is the lenient reading of the wire field the
/// body carries under the matching key.
pub open spec fn spec_decoded_geo_matches(g: GeoInfo, s: Seq<char>) -> bool {
    &&& g.ip@ == spec_text_field(spec_geo_field(s, "ip"@))
    &&& g.country@ == spec_text_field(spec_geo_field(s, "country"@))
    &&& g.city@ == spec_text_field(spec_geo_field(s, "city"@))
    &&& g.region@ == spec_text_field(spec_geo_field(s, "region"@))
    &&& g.organization@ == spec_text_field(spec_geo_field(s, "organization"@))
    &&& g.timezone@ == spec_text_field(spec_geo_field(s, "timezone"@))
    &&& g.country_code3@ == spec_text_field(spec_geo_field(s, "country_code3"@))
    &&& g.postal_code@ == spec_text_field(spec_geo_field(s, "postal_code"@))
    &&& g.continent_code@ == spec_text_field(spec_geo_field(s, "continent_code"@))
    &&& g.region_code@ == spec_text_field(spec_geo_field(s, "region_code"@))
    &&& g.country_code@ == spec_text_field(spec_geo_field(s, "country_code"@))
    &&& g.dma_code as int == spec_int_field(spec_geo_field(s, "dma_code"@))
    &&& g.area_code as int == spec_int_field(spec_geo_field(s, "area_code"@))
    &&& g.offset as int == spec_int_field(spec_geo_field(s, "offset"@))
    &&& g.asn as int == spec_int_field(spec_geo_field(s, "asn"@))
    &&& g.longitude@ == spec_numeric_text_field(spec_geo_field(s, "longitude"@))
    &&& g.latitude@ == spec_numeric_text_field(spec_geo_field(s, "latitude"@))
}

/// Decode a geographical response body: a body that is a JSON object
/// yields a whole record, every field the lenient reading of its wire
/// value (so a missing or mismatched field takes its default); any other
/// body is a decode error. No half-filled record is ever paired with an
/// error.
///
/// Each field is read from the body afresh, so that every wire answer is
/// a function of the body text, which the contract names.
pub fn decode_geo(body: &str) -> (r: Result<GeoInfo, ApiError>)
    ensures
        spec_geo_body_ok(body@) ==> (r matches Ok(g) && spec_decoded_geo_matches(g, body@)),
        !spec_geo_body_ok(body@) ==> r == Err::<GeoInfo, ApiError>(ApiError::DecodeError),
{
    if geo_body_is_object(body) {
        let fields = GeoFields {
            ip: geo_field(body, "ip"),
            country: geo_field(body, "country"),
            city: geo_field(body, "city"),
            region: geo_field(body, "region"),
            organization: geo_field(body, "organization"),
            timezone: geo_field(body, "timezone"),
            country_code3: geo_field(body, "country_code3"),
            postal_code: geo_field(body, "postal_code"),
            continent_code: geo_field(body, "continent_code"),
            region_code: geo_field(body, "region_code"),
            country_code: geo_field(body, "country_code"),
            dma_code: geo_field(body, "dma_code"),
            area_code: geo_field(body, "area_code"),
            offset: geo_field(body, "offset"),
            asn: geo_field(body, "asn"),
            longitude: geo_field(body, "longitude"),
            latitude: geo_field(body, "latitude"),
        };
        Ok(geo_from_fields(fields))
    } else {
        Err(ApiError::DecodeError)
    }
}

/// What `call_geo` makes of one response, given its status and body: the
/// decoded record on a success status, and the status error otherwise —
/// the body is not decoded then.
pub fn geo_from_response(status: u16, body: &str) -> (r: Result<GeoInfo, ApiError>)
    ensures
        !spec_is_success(status) ==> r == Err::<GeoInfo, ApiError>(
            ApiError::RemoteStatusError(status),
        ),
        spec_is_success(status) && spec_geo_body_ok(body@) ==> (r matches Ok(g)
            && spec_decoded_geo_matches(g, body@)),
        spec_is_success(status) && !spec_geo_body_ok(body@) ==> r == Err::<GeoInfo, ApiError>(
            ApiError::DecodeError,
        ),
{
    if 200 <= status && status < 300 {
        decode_geo(body)
    } else {
        Err(ApiError::RemoteStatusError(status))
    }
}

/// Call the IP address endpoint and return the IP as a String.
///
/// The network decides the outcome, so only this much holds of every call:
/// a status error carries a status outside the success range, and nothing
/// else is ever wrapped in one.
pub fn call_addr(seeip_cfg: Config) -> (r: Result<String, ApiError>)
    ensures
        r matches Err(ApiError::RemoteStatusError(s)) ==> !spec_is_success(s),
{
    match http_get(seeip_cfg.url.as_str(), REQUEST_TIMEOUT_SECS) {
        Err(_) => Err(ApiError::TransportError),
        Ok(resp) => {
            let status = response_status(&resp);
            if 200 <= status && status < 300 {
                match response_text(resp) {
                    Err(_) => Err(ApiError::DecodeError),
                    Ok(body) => addr_from_response(status, body),
                }
            } else {
                Err(ApiError::RemoteStatusError(status))
            }
        },
    }
}

/// Call the geographical endpoint and return the decoded record.
///
/// As with [`call_addr`], a status error always carries a status outside
/// the success range; every other failure is a transport or a decode
/// error.
pub fn call_geo(seeip_cfg: Config) -> (r: Result<GeoInfo, ApiError>)
    ensures
        r matches Err(ApiError::RemoteStatusError(s)) ==> !spec_is_success(s),
{
    match http_get(seeip_cfg.url.as_str(), REQUEST_TIMEOUT_SECS) {
        Err(_) => Err(ApiError::TransportError),
        Ok(resp) => {
            let status = response_status(&resp);
            if 200 <= status && status < 300 {
                match response_text(resp) {
                    Err(_) => Err(ApiError::DecodeError),
                    Ok(body) => geo_from_response(status, body.as_str()),
                }
            } else {
                Err(ApiError::RemoteStatusError(status))
            }
        },
    }
}

} // verus!

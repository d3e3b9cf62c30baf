use seeip::utils::{
    addr_from_response, coerce_int, coerce_numeric_text, coerce_text, decode_geo,
    geo_from_fields, geo_from_response, i64_to_dec_string, parse_i32_or_default, ApiError,
    FieldValue, GeoFields, GeoInfo,
};

fn assert_geo_default_except_country_code(info: &GeoInfo) {
    assert_eq!(info.ip, "");
    assert_eq!(info.country, "");
    assert_eq!(info.city, "");
    assert_eq!(info.region, "");
    assert_eq!(info.organization, "");
    assert_eq!(info.timezone, "");
    assert_eq!(info.country_code3, "");
    assert_eq!(info.postal_code, "");
    assert_eq!(info.continent_code, "");
    assert_eq!(info.region_code, "");
    assert_eq!(info.dma_code, 0);
    assert_eq!(info.area_code, 0);
    assert_eq!(info.offset, 0);
    assert_eq!(info.asn, 0);
    assert_eq!(info.longitude, "");
    assert_eq!(info.latitude, "");
}

#[test]
fn addr_success_returns_the_body_unchanged() {
    let r = addr_from_response(200, String::from("203.0.113.7"));
    assert_eq!(r, Ok(String::from("203.0.113.7")));
}

#[test]
fn addr_non_success_is_a_status_error() {
    let r = addr_from_response(503, String::from("203.0.113.7"));
    assert_eq!(r, Err(ApiError::RemoteStatusError(503)));
    let r = addr_from_response(404, String::new());
    assert_eq!(r, Err(ApiError::RemoteStatusError(404)));
    let r = addr_from_response(199, String::from("x"));
    assert_eq!(r, Err(ApiError::RemoteStatusError(199)));
    let r = addr_from_response(300, String::from("x"));
    assert_eq!(r, Err(ApiError::RemoteStatusError(300)));
}

#[test]
fn addr_decision_is_the_same_on_equal_responses() {
    let first = addr_from_response(200, String::from("203.0.113.7"));
    let second = addr_from_response(200, String::from("203.0.113.7"));
    assert_eq!(first, second);
    let first = addr_from_response(503, String::from("x"));
    let second = addr_from_response(503, String::from("x"));
    assert_eq!(first, second);
}

#[test]
fn geo_non_success_is_a_status_error_whatever_the_body() {
    let r = geo_from_response(503, "{\"country_code\":\"US\"}");
    assert_eq!(r, Err(ApiError::RemoteStatusError(503)));
    let r = geo_from_response(503, "this is not even json");
    assert_eq!(r, Err(ApiError::RemoteStatusError(503)));
}

#[test]
fn geo_single_field_defaults_the_rest() {
    let r = geo_from_response(200, "{\"country_code\":\"US\"}");
    let info = r.expect("a JSON object must decode");
    assert_eq!(info.country_code, "US");
    assert_geo_default_except_country_code(&info);
}

#[test]
fn geo_full_record_decodes() {
    let body = "{\
        \"ip\":\"208.67.222.222\",\
        \"organization\":\"OPENDNS\",\
        \"city\":\"San Francisco\",\
        \"region\":\"California\",\
        \"dma_code\":807,\
        \"area_code\":0,\
        \"timezone\":\"America/Los_Angeles\",\
        \"offset\":-28800,\
        \"longitude\":-122.4153,\
        \"latitude\":37.7753,\
        \"country_code3\":\"USA\",\
        \"postal_code\":\"94107\",\
        \"continent_code\":\"NA\",\
        \"country\":\"United States\",\
        \"region_code\":\"CA\",\
        \"country_code\":\"US\",\
        \"asn\":36692}";
    let info = decode_geo(body).expect("a JSON object must decode");
    assert_eq!(info.ip, "208.67.222.222");
    assert_eq!(info.organization, "OPENDNS");
    assert_eq!(info.city, "San Francisco");
    assert_eq!(info.region, "California");
    assert_eq!(info.dma_code, 807);
    assert_eq!(info.area_code, 0);
    assert_eq!(info.timezone, "America/Los_Angeles");
    assert_eq!(info.offset, -28800);
    assert_eq!(info.longitude, "-122.4153");
    assert_eq!(info.latitude, "37.7753");
    assert_eq!(info.country_code3, "USA");
    assert_eq!(info.postal_code, "94107");
    assert_eq!(info.continent_code, "NA");
    assert_eq!(info.country, "United States");
    assert_eq!(info.region_code, "CA");
    assert_eq!(info.country_code, "US");
    assert_eq!(info.asn, 36692);
}

#[test]
fn geo_numeric_fields_accept_both_wire_shapes() {
    let body = "{\
        \"dma_code\":\"807\",\
        \"offset\":\"-28800\",\
        \"asn\":36692,\
        \"longitude\":\"-122.4153\",\
        \"latitude\":37}";
    let info = decode_geo(body).expect("a JSON object must decode");
    assert_eq!(info.dma_code, 807);
    assert_eq!(info.offset, -28800);
    assert_eq!(info.asn, 36692);
    assert_eq!(info.longitude, "-122.4153");
    assert_eq!(info.latitude, "37");
}

#[test]
fn geo_mismatched_fields_take_their_defaults() {
    let body = "{\
        \"country\":12345,\
        \"dma_code\":37.5,\
        \"area_code\":\"eight\",\
        \"offset\":2147483648,\
        \"asn\":null,\
        \"longitude\":[1,2],\
        \"unknown_field\":\"ignored\"}";
    let info = decode_geo(body).expect("a JSON object must decode");
    assert_eq!(info.country, "");
    assert_eq!(info.dma_code, 0);
    assert_eq!(info.area_code, 0);
    assert_eq!(info.offset, 0);
    assert_eq!(info.asn, 0);
    assert_eq!(info.longitude, "");
}

#[test]
fn geo_non_object_bodies_are_decode_errors() {
    assert_eq!(decode_geo("not json at all"), Err(ApiError::DecodeError));
    assert_eq!(decode_geo(""), Err(ApiError::DecodeError));
    assert_eq!(decode_geo("\"203.0.113.7\""), Err(ApiError::DecodeError));
    assert_eq!(decode_geo("[1,2,3]"), Err(ApiError::DecodeError));
    assert_eq!(decode_geo("42"), Err(ApiError::DecodeError));
    assert_eq!(decode_geo("{\"a\":}"), Err(ApiError::DecodeError));
}

#[test]
fn geo_from_fields_coerces_each_field() {
    let fields = GeoFields {
        ip: FieldValue::Text(String::from("208.67.222.222")),
        country: FieldValue::Absent,
        city: FieldValue::Integer(7),
        region: FieldValue::Other,
        organization: FieldValue::Text(String::from("OPENDNS")),
        timezone: FieldValue::Absent,
        country_code3: FieldValue::Absent,
        postal_code: FieldValue::Absent,
        continent_code: FieldValue::Absent,
        region_code: FieldValue::Absent,
        country_code: FieldValue::Text(String::from("US")),
        dma_code: FieldValue::Text(String::from("807")),
        area_code: FieldValue::Integer(415),
        offset: FieldValue::NumberText(String::from("-2.5")),
        asn: FieldValue::Integer(2147483648),
        longitude: FieldValue::Integer(-122),
        latitude: FieldValue::NumberText(String::from("37.7753")),
    };
    let info = geo_from_fields(fields);
    assert_eq!(info.ip, "208.67.222.222");
    assert_eq!(info.country, "");
    assert_eq!(info.city, "");
    assert_eq!(info.region, "");
    assert_eq!(info.organization, "OPENDNS");
    assert_eq!(info.country_code, "US");
    assert_eq!(info.dma_code, 807);
    assert_eq!(info.area_code, 415);
    assert_eq!(info.offset, 0);
    assert_eq!(info.asn, 0);
    assert_eq!(info.longitude, "-122");
    assert_eq!(info.latitude, "37.7753");
}

#[test]
fn parse_i32_edges() {
    assert_eq!(parse_i32_or_default(""), 0);
    assert_eq!(parse_i32_or_default("-"), 0);
    assert_eq!(parse_i32_or_default("0"), 0);
    assert_eq!(parse_i32_or_default("-0"), 0);
    assert_eq!(parse_i32_or_default("007"), 7);
    assert_eq!(parse_i32_or_default("807"), 807);
    assert_eq!(parse_i32_or_default("-28800"), -28800);
    assert_eq!(parse_i32_or_default("2147483647"), 2147483647);
    assert_eq!(parse_i32_or_default("2147483648"), 0);
    assert_eq!(parse_i32_or_default("-2147483648"), -2147483648);
    assert_eq!(parse_i32_or_default("-2147483649"), 0);
    assert_eq!(parse_i32_or_default("99999999999999999999"), 0);
    assert_eq!(parse_i32_or_default("12a"), 0);
    assert_eq!(parse_i32_or_default("--5"), 0);
    assert_eq!(parse_i32_or_default("1.5"), 0);
    assert_eq!(parse_i32_or_default(" 5"), 0);
}

#[test]
fn dec_string_edges() {
    assert_eq!(i64_to_dec_string(0), "0");
    assert_eq!(i64_to_dec_string(7), "7");
    assert_eq!(i64_to_dec_string(-5), "-5");
    assert_eq!(i64_to_dec_string(1234567890), "1234567890");
    assert_eq!(i64_to_dec_string(i64::MAX), "9223372036854775807");
    assert_eq!(i64_to_dec_string(i64::MIN), "-9223372036854775808");
}

#[test]
fn coercions_match_their_field_kinds() {
    assert_eq!(coerce_text(FieldValue::Text(String::from("CA"))), "CA");
    assert_eq!(coerce_text(FieldValue::Integer(5)), "");
    assert_eq!(coerce_text(FieldValue::Absent), "");
    assert_eq!(coerce_int(FieldValue::Integer(-7)), -7);
    assert_eq!(coerce_int(FieldValue::Text(String::from("42"))), 42);
    assert_eq!(coerce_int(FieldValue::NumberText(String::from("1.5"))), 0);
    assert_eq!(coerce_int(FieldValue::Absent), 0);
    assert_eq!(
        coerce_numeric_text(FieldValue::NumberText(String::from("-0.5"))),
        "-0.5"
    );
    assert_eq!(coerce_numeric_text(FieldValue::Integer(37)), "37");
    assert_eq!(coerce_numeric_text(FieldValue::Other), "");
}

#[test]
fn default_record_is_fully_defaulted() {
    let info = GeoInfo::default();
    assert_eq!(info.country_code, "");
    assert_geo_default_except_country_code(&info);
}

use petstore::decode::parse_pet;
use petstore::json::{pet_to_json, pets_to_json};
use petstore::model::{Pet, Pets};
use petstore::num::{parse_u32, parse_u64, u64_to_dec};
use petstore::path::get_path_segments;
use petstore::query::{get_query_parameter, query_parameter_value};

fn v(s: &[u8]) -> Vec<u8> {
    s.to_vec()
}

#[test]
fn u64_decimal_digits() {
    assert_eq!(u64_to_dec(0), v(b"0"));
    assert_eq!(u64_to_dec(7), v(b"7"));
    assert_eq!(u64_to_dec(1024), v(b"1024"));
    assert_eq!(u64_to_dec(u64::MAX), v(b"18446744073709551615"));
}

#[test]
fn parse_u64_accepts_numerals() {
    assert_eq!(parse_u64(&v(b"42")), Some(42));
    assert_eq!(parse_u64(&v(b"+42")), Some(42));
    assert_eq!(parse_u64(&v(b"0042")), Some(42));
    assert_eq!(parse_u64(&v(b"0")), Some(0));
    assert_eq!(parse_u64(&v(b"18446744073709551615")), Some(u64::MAX));
}

#[test]
fn parse_u64_rejects_everything_else() {
    assert_eq!(parse_u64(&v(b"")), None);
    assert_eq!(parse_u64(&v(b"+")), None);
    assert_eq!(parse_u64(&v(b"12a")), None);
    assert_eq!(parse_u64(&v(b"-3")), None);
    assert_eq!(parse_u64(&v(b" 12")), None);
    assert_eq!(parse_u64(&v(b"18446744073709551616")), None);
}

#[test]
fn parse_u32_bounds() {
    assert_eq!(parse_u32(&v(b"4294967295")), Some(u32::MAX));
    assert_eq!(parse_u32(&v(b"4294967296")), None);
    assert_eq!(parse_u32(&v(b"99999999999999999999999")), None);
}

#[test]
fn path_segments_trim_and_split() {
    assert_eq!(get_path_segments(&v(b"/pets")), vec![v(b"pets")]);
    assert_eq!(get_path_segments(&v(b"//pets//")), vec![v(b"pets")]);
    assert_eq!(get_path_segments(&v(b"/pets/42")), vec![v(b"pets"), v(b"42")]);
    assert_eq!(get_path_segments(&v(b"/a//b/")), vec![v(b"a"), v(b""), v(b"b")]);
    assert_eq!(get_path_segments(&v(b"")), vec![v(b"")]);
    assert_eq!(get_path_segments(&v(b"/")), vec![v(b"")]);
}

#[test]
fn query_first_occurrence_wins() {
    assert_eq!(query_parameter_value(&v(b"a=1&a=2"), &v(b"a")), Some(v(b"1")));
}

#[test]
fn query_flag_parameter_reads_true() {
    assert_eq!(query_parameter_value(&v(b"debug&x=2"), &v(b"debug")), Some(v(b"true")));
}

#[test]
fn query_shapeless_pair_is_discarded() {
    assert_eq!(query_parameter_value(&v(b"a=1=2&a=3"), &v(b"a")), Some(v(b"3")));
}

#[test]
fn query_absent_or_unparsable_gives_nothing() {
    assert_eq!(query_parameter_value(&v(b""), &v(b"limit")), None);
    assert_eq!(get_query_parameter(&v(b"limit=abc"), &v(b"limit")), None);
    assert_eq!(get_query_parameter(&v(b"limit=9999999999"), &v(b"limit")), None);
    assert_eq!(get_query_parameter(&v(b"limit=2&offset=3"), &v(b"offset")), Some(3));
}

#[test]
fn pet_serializes_with_tag() {
    let p = Pet { id: 42, name: v(b"john"), tag: Some(v(b"doe")) };
    assert_eq!(pet_to_json(&p), v(b"{\"id\":42,\"name\":\"john\",\"tag\":\"doe\"}"));
}

#[test]
fn pet_serializes_without_tag() {
    let p = Pet { id: 1, name: v(b"Rex"), tag: None };
    assert_eq!(pet_to_json(&p), v(b"{\"id\":1,\"name\":\"Rex\",\"tag\":null}"));
}

#[test]
fn pet_serializes_escapes() {
    let p = Pet { id: 1, name: v(b"a\"b\\c\nd\x01"), tag: None };
    assert_eq!(pet_to_json(&p), v(b"{\"id\":1,\"name\":\"a\\\"b\\\\c\\nd\\u0001\",\"tag\":null}"));
}

#[test]
fn pets_serialize_as_items_array() {
    let ps = Pets {
        items: Some(vec![
            Pet { id: 3, name: v(b"john"), tag: Some(v(b"doe")) },
            Pet { id: 4, name: v(b"john"), tag: Some(v(b"doe")) },
        ]),
    };
    assert_eq!(
        pets_to_json(&ps),
        v(b"{\"items\":[{\"id\":3,\"name\":\"john\",\"tag\":\"doe\"},{\"id\":4,\"name\":\"john\",\"tag\":\"doe\"}]}")
    );
    assert_eq!(pets_to_json(&Pets { items: Some(vec![]) }), v(b"{\"items\":[]}"));
    assert_eq!(pets_to_json(&Pets { items: None }), v(b"{\"items\":null}"));
}

#[test]
fn parse_pet_accepts_plain_body() {
    let p = parse_pet(&v(b"{\"id\":1,\"name\":\"Rex\",\"tag\":null}"));
    assert_eq!(p, Some(Pet { id: 1, name: v(b"Rex"), tag: None }));
}

#[test]
fn parse_pet_accepts_any_member_order() {
    let p = parse_pet(&v(b"{\"tag\":\"doe\",\"name\":\"john\",\"id\":7}"));
    assert_eq!(p, Some(Pet { id: 7, name: v(b"john"), tag: Some(v(b"doe")) }));
}

#[test]
fn parse_pet_accepts_whitespace_and_missing_tag() {
    let p = parse_pet(&v(b" { \"id\" : 12 ,\t\"name\" :\n\"a b\" } "));
    assert_eq!(p, Some(Pet { id: 12, name: v(b"a b"), tag: None }));
}

#[test]
fn parse_pet_decodes_escapes() {
    let p = parse_pet(&v(b"{\"id\":1,\"name\":\"a\\\"b\\\\c\\n\",\"tag\":\"x\\/y\"}"));
    assert_eq!(p, Some(Pet { id: 1, name: v(b"a\"b\\c\n"), tag: Some(v(b"x/y")) }));
}

#[test]
fn parse_pet_rejects_missing_fields() {
    assert_eq!(parse_pet(&v(b"{}")), None);
    assert_eq!(parse_pet(&v(b"{\"id\":1}")), None);
    assert_eq!(parse_pet(&v(b"{\"name\":\"Rex\"}")), None);
    assert_eq!(parse_pet(&v(b"")), None);
}

#[test]
fn parse_pet_rejects_repeated_or_unknown_members() {
    assert_eq!(parse_pet(&v(b"{\"id\":1,\"id\":2,\"name\":\"Rex\"}")), None);
    assert_eq!(parse_pet(&v(b"{\"id\":1,\"name\":\"Rex\",\"color\":\"red\"}")), None);
    assert_eq!(parse_pet(&v(b"{\"id\":1,\"name\":\"a\",\"tag\":null,\"tag\":\"b\"}")), None);
}

#[test]
fn parse_pet_rejects_bad_numbers() {
    assert_eq!(parse_pet(&v(b"{\"id\":01,\"name\":\"Rex\"}")), None);
    assert_eq!(parse_pet(&v(b"{\"id\":18446744073709551616,\"name\":\"Rex\"}")), None);
    assert_eq!(parse_pet(&v(b"{\"id\":-1,\"name\":\"Rex\"}")), None);
    assert_eq!(parse_pet(&v(b"{\"id\":\"1\",\"name\":\"Rex\"}")), None);
}

#[test]
fn parse_pet_rejects_malformed_documents() {
    assert_eq!(parse_pet(&v(b"{\"id\":1,\"name\":\"Rex\"")), None);
    assert_eq!(parse_pet(&v(b"{\"id\":1,\"name\":\"Rex\"}x")), None);
    assert_eq!(parse_pet(&v(b"[{\"id\":1,\"name\":\"Rex\"}]")), None);
    assert_eq!(parse_pet(&v(b"{\"id\":1 \"name\":\"Rex\"}")), None);
    assert_eq!(parse_pet(&v(b"{\"id\":1,\"name\":\"a\\u0041\"}")), None);
    assert_eq!(parse_pet(&v(b"{\"id\":1,\"name\":\"a\nb\"}")), None);
}

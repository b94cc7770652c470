//! The JSON format: serialization, parsing, and their round trip.
use dcspkg::Package;
use dcspkg::json::package_from_json;
use dcspkg::json::package_list_from_json;
use dcspkg::json::package_list_to_json;
use dcspkg::json::package_to_json;

fn sample() -> Package {
    Package {
        name: "gcc".to_string(),
        description: Some("The GNU Compiler Collection".to_string()),
        version: Some("4.3.0".to_string()),
        image_url: None,
        archive_path: "gcc.dcspkg".to_string(),
        executable_path: Some("bin/gcc".to_string()),
        crc: 3735928559,
        has_installer: false,
        add_to_path: false,
    }
}

#[test]
fn serializes_one_descriptor_canonically() {
    let s = package_to_json(&sample());
    assert_eq!(
        s,
        "{\"name\":\"gcc\",\"description\":\"The GNU Compiler Collection\",\
         \"version\":\"4.3.0\",\"image_url\":null,\"archive_path\":\"gcc.dcspkg\",\
         \"executable_path\":\"bin/gcc\",\"crc\":3735928559,\
         \"has_installer\":false,\"add_to_path\":false}"
    );
}

#[test]
fn parses_what_it_serializes() {
    let p = sample();
    let s = package_to_json(&p);
    let q = package_from_json(&s).expect("canonical descriptor must parse");
    assert_eq!(p, q);
}

#[test]
fn parses_a_list_round_trip() {
    let l = vec![sample(), Package::default()];
    let s = package_list_to_json(&l);
    let l2 = package_list_from_json(&s).expect("canonical list must parse");
    assert_eq!(l, l2);
}

#[test]
fn accepts_whitespace_and_escapes() {
    let s = " { \"name\" : \"a\\\"b\\\\c\\u0041\\n\" , \"description\" : null ,\n\
              \"version\" : null , \"image_url\" : null , \"archive_path\" : \"x\" ,\
              \"executable_path\" : null , \"crc\" : 7 , \"has_installer\" : true ,\
              \"add_to_path\" : false } ";
    let p = package_from_json(s).expect("whitespace and escapes are part of the grammar");
    assert_eq!(p.name, "a\"b\\cA\n");
    assert_eq!(p.crc, 7);
    assert!(p.has_installer);
}

#[test]
fn rejects_malformed_input() {
    assert!(package_from_json("").is_none());
    assert!(package_from_json("{}").is_none());
    assert!(package_from_json("{\"name\":\"a\"}").is_none());
    assert!(package_list_from_json("[").is_none());
    assert!(package_list_from_json("[]x").is_none());
    // the crc must fit in 32 bits
    let s = package_to_json(&sample()).replace("3735928559", "4294967296");
    assert!(package_from_json(&s).is_none());
}

#[test]
fn parses_an_empty_list() {
    let l = package_list_from_json(" [ ] ").expect("an empty array is an empty registry");
    assert!(l.is_empty());
}

#[test]
fn escapes_round_trip() {
    let mut p = sample();
    p.name = "a\"b\\c\nd\te\u{1}".to_string();
    p.description = Some("line one\r\nline two".to_string());
    let s = package_to_json(&p);
    assert!(s.contains("\\u0001"));
    let q = package_from_json(&s).expect("escaped text must parse back");
    assert_eq!(p, q);
}

#[test]
fn upper_case_hex_escapes_parse() {
    let s = package_to_json(&sample()).replace("\"gcc\"", "\"\\u004A\\u004a\"");
    let p = package_from_json(&s).expect("hex digits of either case parse");
    assert_eq!(p.name, "JJ");
}

#[test]
fn escapes_beyond_ascii_are_refused() {
    let s = package_to_json(&sample()).replace("\"gcc\"", "\"\\u00e9\"");
    assert!(package_from_json(&s).is_none());
}

use renga_api_rs::api::uuid::strip_braces;
use renga_api_rs::{Error, UUID};

#[test]
fn braced_and_unbraced_identifiers_are_the_same() {
    let braced = UUID::from_braced_str("{D547F002-4A74-41BF-B1F0-ED8F5846098F}").unwrap();
    let unbraced = UUID::from_braced_str("D547F002-4A74-41BF-B1F0-ED8F5846098F").unwrap();
    assert_eq!(braced, unbraced);
    assert_eq!(braced.to_string(), "D547F002-4A74-41BF-B1F0-ED8F5846098F");
    assert_eq!(unbraced.to_string(), "D547F002-4A74-41BF-B1F0-ED8F5846098F");
}

#[test]
fn parsing_gives_the_fields() {
    let id = UUID::from_str("D547F002-4A74-41BF-B1F0-ED8F5846098F").unwrap();
    assert_eq!(
        id,
        UUID { data1: 0xd547f002, data2: 0x4a74, data3: 0x41bf, data4: 0xb1f0ed8f5846098f }
    );
}

#[test]
fn lower_case_parses_and_is_written_in_upper_case() {
    let id = UUID::from_str("d547f002-4a74-41bf-b1f0-ed8f5846098f").unwrap();
    assert_eq!(id.to_string(), "D547F002-4A74-41BF-B1F0-ED8F5846098F");
    let mixed = UUID::from_str("d547F002-4a74-41Bf-b1F0-eD8f5846098F").unwrap();
    assert_eq!(mixed, id);
}

#[test]
fn extreme_identifiers_round_trip() {
    let zero = UUID::from_str("00000000-0000-0000-0000-000000000000").unwrap();
    assert_eq!(zero, UUID::nil());
    assert_eq!(zero, UUID::default());
    assert_eq!(zero.to_string(), "00000000-0000-0000-0000-000000000000");
    let ones = UUID::from_str("FFFFFFFF-FFFF-FFFF-FFFF-FFFFFFFFFFFF").unwrap();
    assert_eq!(
        ones,
        UUID { data1: u32::MAX, data2: u16::MAX, data3: u16::MAX, data4: u64::MAX }
    );
    assert_eq!(ones.to_string(), "FFFFFFFF-FFFF-FFFF-FFFF-FFFFFFFFFFFF");
    let steps = UUID { data1: 0x0000000a, data2: 0x00b0, data3: 0x0c00, data4: 0x0001000000000002 };
    assert_eq!(steps.to_string(), "0000000A-00B0-0C00-0001-000000000002");
    assert_eq!(UUID::from_str(&steps.to_string()).unwrap(), steps);
}

#[test]
fn ill_formed_identifiers_are_refused() {
    let bad = [
        "",
        "D547F002",
        "D547F002-4A74-41BF-B1F0-ED8F5846098",
        "D547F002-4A74-41BF-B1F0-ED8F5846098F0",
        "D547F002_4A74-41BF-B1F0-ED8F5846098F",
        "D547F002-4A74-41BF-B1F0_ED8F5846098F",
        "D547F0024-A74-41BF-B1F0-ED8F5846098F",
        "G547F002-4A74-41BF-B1F0-ED8F5846098F",
        "D547F002-4A74-41BF-B1F0-ED8F5846098G",
        "D547F002-4A7--41BF-B1F0-ED8F5846098F",
        "{D547F002-4A74-41BF-B1F0-ED8F5846098F}",
        " D547F002-4A74-41BF-B1F0-ED8F584609F ",
        "D547F002-4A74-41BF-B1F0-ED8F58460\u{e9}8F",
    ];
    for text in bad {
        match UUID::from_str(text) {
            Err(Error::ParseError(message)) => {
                assert_eq!(message, format!("Failed to parse UUID from string: {}", text))
            }
            other => panic!("unexpected: {:?}", other),
        }
    }
}

#[test]
fn braces_are_stripped_from_both_ends() {
    assert_eq!(strip_braces("{abc}"), "abc");
    assert_eq!(strip_braces("abc"), "abc");
    assert_eq!(strip_braces("{{abc}}"), "abc");
    assert_eq!(strip_braces("{abc"), "abc");
    assert_eq!(strip_braces("abc}"), "abc");
    assert_eq!(strip_braces("}abc{"), "}abc{");
    assert_eq!(strip_braces("a{b}c"), "a{b}c");
    assert_eq!(strip_braces("{}"), "");
    assert_eq!(strip_braces("{{{"), "");
    assert_eq!(strip_braces("}}"), "");
    assert_eq!(strip_braces(""), "");
    assert_eq!(strip_braces("{\u{e9}}"), "\u{e9}");
}

#[test]
fn a_braced_identifier_that_is_ill_formed_names_the_stripped_text() {
    match UUID::from_braced_str("{not an identifier}") {
        Err(Error::ParseError(message)) => {
            assert_eq!(message, "Failed to parse UUID from string: not an identifier")
        }
        other => panic!("unexpected: {:?}", other),
    }
}

#[test]
fn identifiers_are_ordered_by_their_fields() {
    let low = UUID::from_str("00000000-0000-0000-0000-000000000001").unwrap();
    let mid = UUID::from_str("00000000-0000-0001-0000-000000000000").unwrap();
    let high = UUID::from_str("00000001-0000-0000-0000-000000000000").unwrap();
    assert!(low < mid);
    assert!(mid < high);
    assert!(UUID::nil() < low);
    let mut ids = vec![high, low, mid, low];
    ids.sort();
    ids.dedup();
    assert_eq!(ids, vec![low, mid, high]);
}

#[test]
fn the_fields_are_laid_out_as_the_system_lays_them_out() {
    let id = UUID::from_str("D547F002-4A74-41BF-B1F0-ED8F5846098F").unwrap();
    let parts = id.as_guid();
    assert_eq!(parts.0, 0xd547f002);
    assert_eq!(parts.1, 0x4a74);
    assert_eq!(parts.2, 0x41bf);
    assert_eq!(parts.3, [0xb1, 0xf0, 0xed, 0x8f, 0x58, 0x46, 0x09, 0x8f]);
    assert_eq!(id.into_inner(), parts);
    assert_eq!(UUID::from_guid(parts.0, parts.1, parts.2, parts.3), id);
    assert_eq!(UUID::from_guid(0, 0, 0, [0; 8]), UUID::nil());
    assert_eq!(
        UUID::from_guid(u32::MAX, u16::MAX, u16::MAX, [0xff; 8]).to_string(),
        "FFFFFFFF-FFFF-FFFF-FFFF-FFFFFFFFFFFF"
    );
    assert_eq!(
        UUID::from_guid(1, 2, 3, [1, 2, 3, 4, 5, 6, 7, 8]).to_string(),
        "00000001-0002-0003-0102-030405060708"
    );
    assert_eq!(
        UUID::from_guid(1, 2, 3, [1, 2, 3, 4, 5, 6, 7, 8]).as_guid().3,
        [1, 2, 3, 4, 5, 6, 7, 8]
    );
}

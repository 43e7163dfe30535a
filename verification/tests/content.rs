use vxs::addr::{get_addr, get_port, parse_u16};
use vxs::cmd::list_limit;
use vxs::config::Config;
use vxs::handlers::{partition_hashes, skip_label, Remove, Response};
use vxs::util::{find_char_from, mime_subtype, partial_infer};

const BYTES: &[u8] = &[0xFF, 0xD8, 0xFF, 0xAA];

#[test]
fn test_partial_infer() {
    assert_eq!("image/jpeg", partial_infer(BYTES));
}

#[test]
fn partial_infer_unrecognised_is_empty() {
    assert_eq!("", partial_infer(&[]));
    assert_eq!("", partial_infer(&[0x00, 0x01, 0x02]));
}

#[test]
fn mime_subtype_picks_second_segment() {
    assert_eq!(mime_subtype("image/jpeg"), Some("jpeg"));
    assert_eq!(mime_subtype("a/b/c"), Some("b"));
    assert_eq!(mime_subtype("text/"), Some(""));
    assert_eq!(mime_subtype("weird"), None);
    assert_eq!(mime_subtype(""), None);
}

#[test]
fn find_char_from_scans_forward() {
    assert_eq!(find_char_from("a:b:c", ':', 0), Some(1));
    assert_eq!(find_char_from("a:b:c", ':', 2), Some(3));
    assert_eq!(find_char_from("a:b:c", ':', 4), None);
    assert_eq!(find_char_from("abc", ':', 0), None);
}

#[test]
fn partition_hashes_splits_by_length() {
    let good1 = "a".repeat(24);
    let good2 = "b".repeat(24);
    let form = Remove {
        hashes: vec![
            good1.clone(),
            String::from("short"),
            good2.clone(),
            "c".repeat(25),
            String::new(),
        ],
    };
    let (removed, skipped) = partition_hashes(&form);
    assert_eq!(removed, vec![good1, good2]);
    assert_eq!(
        skipped,
        vec![String::from("short"), "c".repeat(25), String::new()]
    );
    let response = Response::new(removed, skipped);
    assert_eq!(response.hashes.len(), 2);
    assert_eq!(response.skipped.len(), 3);
}

#[test]
fn partition_hashes_of_nothing() {
    let form = Remove { hashes: vec![] };
    let (removed, skipped) = partition_hashes(&form);
    assert!(removed.is_empty());
    assert!(skipped.is_empty());
}

#[test]
fn skip_label_marks_unnamed_fields() {
    assert_eq!(skip_label(&String::new()), "[UNNAMED FIELD]");
    assert_eq!(skip_label(&String::from("avatar")), "avatar");
}

#[test]
fn port_prefers_config_then_environment() {
    let mut c = Config::default();
    c.port = Some(8080);
    assert_eq!(get_port(&c, Some(9000)), 8080);
    c.port = None;
    assert_eq!(get_port(&c, Some(9000)), 9000);
    assert_eq!(get_port(&c, None), 6345);
}

#[test]
fn addr_falls_back_to_loopback() {
    let mut c = Config::default();
    assert_eq!(get_addr(&c), "127.0.0.1");
    c.addr = Some(String::from("0.0.0.0"));
    assert_eq!(get_addr(&c), "0.0.0.0");
}

#[test]
fn parse_u16_accepts_exactly_port_numbers() {
    assert_eq!(parse_u16("6345"), Some(6345));
    assert_eq!(parse_u16("0"), Some(0));
    assert_eq!(parse_u16("65535"), Some(65535));
    assert_eq!(parse_u16("65536"), None);
    assert_eq!(parse_u16("99999999999999999999"), None);
    assert_eq!(parse_u16(""), None);
    assert_eq!(parse_u16("12a"), None);
    assert_eq!(parse_u16("-1"), None);
    assert_eq!(parse_u16(" 1"), None);
    assert_eq!(parse_u16("007"), Some(7));
}

#[test]
fn list_limit_clamps_to_length() {
    assert_eq!(list_limit(None, 5), 5);
    assert_eq!(list_limit(Some(3), 5), 3);
    assert_eq!(list_limit(Some(9), 5), 5);
    assert_eq!(list_limit(Some(0), 5), 0);
    assert_eq!(list_limit(Some(5), 5), 5);
    assert_eq!(list_limit(None, 0), 0);
}

use rgtk::cstr::{c_str_bytes, to_c_bytes};
use rgtk::gbool::{to_bool, to_gboolean};
use rgtk::position::{position_from_code, position_to_code, PositionType};
use rgtk::relief::{relief_from_code, relief_to_code, ReliefStyle};
use rgtk::text::text_from_c;

#[test]
fn gboolean_encoding_is_canonical() {
    assert_eq!(to_gboolean(true), 1);
    assert_eq!(to_gboolean(false), 0);
}

#[test]
fn gboolean_any_nonzero_is_true() {
    assert!(!to_bool(0));
    assert!(to_bool(1));
    assert!(to_bool(-5));
    assert!(to_bool(7));
}

#[test]
fn gboolean_round_trip() {
    assert!(to_bool(to_gboolean(true)));
    assert!(!to_bool(to_gboolean(false)));
}

#[test]
fn framing_appends_terminator() {
    assert_eq!(to_c_bytes(b"label"), Some(b"label\0".to_vec()));
}

#[test]
fn framing_empty_is_lone_terminator() {
    assert_eq!(to_c_bytes(b""), Some(vec![0u8]));
}

#[test]
fn framing_refuses_interior_nul() {
    assert_eq!(to_c_bytes(b"a\0b"), None);
}

#[test]
fn reading_stops_at_first_nul() {
    assert_eq!(c_str_bytes(b"abc\0"), Some(b"abc".to_vec()));
    assert_eq!(c_str_bytes(b"abc\0def\0"), Some(b"abc".to_vec()));
}

#[test]
fn reading_lone_terminator_is_empty() {
    assert_eq!(c_str_bytes(b"\0"), Some(Vec::new()));
}

#[test]
fn reading_unterminated_buffer_fails() {
    assert_eq!(c_str_bytes(b"abc"), None);
}

#[test]
fn frame_and_read_round_trip() {
    let framed = to_c_bytes(b"action.name").unwrap();
    assert_eq!(c_str_bytes(&framed), Some(b"action.name".to_vec()));
}

#[test]
fn text_null_pointer_is_none() {
    assert_eq!(text_from_c(None), None);
}

#[test]
fn text_ascii_decodes_as_itself() {
    assert_eq!(text_from_c(Some(b"hi\0".to_vec())), Some(String::from("hi")));
}

#[test]
fn text_multibyte_utf8_decodes() {
    assert_eq!(
        text_from_c(Some(b"caf\xC3\xA9\0".to_vec())),
        Some(String::from("caf\u{E9}"))
    );
}

#[test]
fn text_invalid_utf8_is_replaced() {
    assert_eq!(
        text_from_c(Some(vec![0xFFu8, 0u8])),
        Some(String::from("\u{FFFD}"))
    );
}

#[test]
fn text_unterminated_buffer_is_none() {
    assert_eq!(text_from_c(Some(b"hi".to_vec())), None);
}

#[test]
fn relief_codes_are_the_native_ones() {
    assert_eq!(relief_to_code(ReliefStyle::Normal), 0);
    assert_eq!(relief_to_code(ReliefStyle::Half), 1);
    assert_eq!(relief_to_code(ReliefStyle::NoRelief), 2);
}

#[test]
fn relief_round_trip_and_rejection() {
    assert_eq!(relief_from_code(0), Some(ReliefStyle::Normal));
    assert_eq!(relief_from_code(1), Some(ReliefStyle::Half));
    assert_eq!(relief_from_code(2), Some(ReliefStyle::NoRelief));
    assert_eq!(relief_from_code(3), None);
    assert_eq!(relief_from_code(-1), None);
}

#[test]
fn position_codes_are_the_native_ones() {
    assert_eq!(position_to_code(PositionType::Left), 0);
    assert_eq!(position_to_code(PositionType::Right), 1);
    assert_eq!(position_to_code(PositionType::Top), 2);
    assert_eq!(position_to_code(PositionType::Bottom), 3);
}

#[test]
fn position_round_trip_and_rejection() {
    assert_eq!(position_from_code(0), Some(PositionType::Left));
    assert_eq!(position_from_code(1), Some(PositionType::Right));
    assert_eq!(position_from_code(2), Some(PositionType::Top));
    assert_eq!(position_from_code(3), Some(PositionType::Bottom));
    assert_eq!(position_from_code(4), None);
    assert_eq!(position_from_code(-1), None);
}

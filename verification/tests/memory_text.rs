use probe_rs_ui::i18n::fill;
use probe_rs_ui::memview::dump_row_text;
use probe_rs_ui::memview::hex_column_text;
use probe_rs_ui::memview::hex_input_panics;
use probe_rs_ui::memview::parse_hex_bytes;

#[test]
fn fill_replaces_placeholders_in_order() {
    let args = vec!["a".to_string(), "42".to_string()];
    assert_eq!(fill("x={} y={}", &args), "x=a y=42");
}

#[test]
fn fill_keeps_placeholders_without_arguments() {
    let args = vec!["only".to_string()];
    assert_eq!(fill("{} and {}", &args), "only and {}");
    assert_eq!(fill("{}", &[]), "{}");
}

#[test]
fn fill_ignores_extra_arguments_and_plain_text() {
    let args = vec!["1".to_string(), "2".to_string()];
    assert_eq!(fill("no holes", &args), "no holes");
    assert_eq!(fill("{}{}{}", &args), "12{}");
}

#[test]
fn parse_hex_bytes_with_and_without_spaces() {
    assert_eq!(parse_hex_bytes("DE AD BE EF"), Some(vec![0xDE, 0xAD, 0xBE, 0xEF]));
    assert_eq!(parse_hex_bytes("DEADBEEF"), Some(vec![0xDE, 0xAD, 0xBE, 0xEF]));
    assert_eq!(parse_hex_bytes(" 0a\t0B\n"), Some(vec![0x0A, 0x0B]));
}

#[test]
fn parse_hex_bytes_refuses_bad_text() {
    assert_eq!(parse_hex_bytes(""), None);
    assert_eq!(parse_hex_bytes("   "), None);
    assert_eq!(parse_hex_bytes("ABC"), None);
    assert_eq!(parse_hex_bytes("GG"), None);
    assert_eq!(parse_hex_bytes("0x12"), None);
}

#[test]
fn parse_hex_bytes_takes_a_leading_plus_in_a_pair() {
    assert_eq!(parse_hex_bytes("+1"), Some(vec![0x01]));
    assert_eq!(parse_hex_bytes("1+"), None);
}

#[test]
fn hex_input_panics_on_split_characters() {
    assert!(hex_input_panics("aéb"));
    assert!(!hex_input_panics("é"));
    assert!(!hex_input_panics("DE AD"));
    assert!(!hex_input_panics(""));
}

#[test]
fn hex_column_formats_each_byte() {
    assert_eq!(hex_column_text(&[0x00, 0x0f, 0xab]), "00 0F AB ");
    assert_eq!(hex_column_text(&[]), "");
}

#[test]
fn dump_row_has_address_hex_and_text() {
    let row = dump_row_text(0x10, b"AB\x01");
    let expected = format!("{:08X}  {:<48}  {}", 0x10, "41 42 01 ", "AB.");
    assert_eq!(row, expected);
    assert!(row.starts_with("00000010  41 42 01 "));
    assert!(row.ends_with("  AB."));
    assert_eq!(row.len(), 8 + 2 + 48 + 2 + 3);
}

#[test]
fn dump_row_of_a_wide_address_keeps_every_digit() {
    let row = dump_row_text(0x1_2345_6789, &[0x7e]);
    assert_eq!(row, format!("{:08X}  {:<48}  {}", 0x1_2345_6789u64, "7E ", "~"));
}

#[test]
fn dump_row_of_a_full_line() {
    let bytes: Vec<u8> = (0x30..0x40).collect();
    let row = dump_row_text(0x2000_0000, &bytes);
    let hex: String = bytes.iter().map(|b| format!("{b:02X} ")).collect();
    assert_eq!(row, format!("{:08X}  {:<48}  {}", 0x2000_0000, hex, "0123456789:;<=>?"));
}

#[test]
fn parsing_the_hex_column_gives_the_bytes_back() {
    let bytes = vec![0x00, 0x7f, 0x80, 0xff, 0x12];
    let column = hex_column_text(&bytes);
    assert!(!hex_input_panics(&column));
    assert_eq!(parse_hex_bytes(&column), Some(bytes));
}

#[test]
fn hex_parsing_ignores_space_and_case() {
    assert_eq!(parse_hex_bytes("de ad"), parse_hex_bytes("DEAD"));
    assert_eq!(parse_hex_bytes("dEaD"), Some(vec![0xde, 0xad]));
    assert_eq!(parse_hex_bytes(" 0a\n0B "), parse_hex_bytes("0A0b"));
    assert_eq!(parse_hex_bytes("zz 11"), parse_hex_bytes("ZZ11"));
}

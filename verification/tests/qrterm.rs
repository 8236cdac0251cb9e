use osprey_svc::qrterm::{render, width_in_columns, QrError};

#[test]
fn renders_half_blocks_with_a_quiet_zone() {
    let rendered = render("osprey-test-payload").expect("render");
    assert!(rendered.lines().count() > 8);
    assert!(rendered.contains('█'));
    let first = rendered.lines().next().expect("a first line");
    assert!(!first.contains('█'), "expected a blank quiet-zone row");
}

#[test]
fn a_realistic_pairing_payload_fits_a_terminal() {
    let payload = "x".repeat(640);
    let rendered = render(&payload).expect("render");
    assert!(width_in_columns(&rendered) <= 120, "rendered {} columns wide", width_in_columns(&rendered));
}

#[test]
fn an_oversized_payload_is_an_error_not_a_panic() {
    let payload = "x".repeat(8000);
    assert_eq!(render(&payload).err(), Some(QrError::TooLarge));
}

#[test]
fn the_width_is_the_widest_line_in_characters() {
    assert_eq!(width_in_columns(""), 0);
    assert_eq!(width_in_columns("ab\nabcd\nc"), 4);
    assert_eq!(width_in_columns("ab\r\nabc\r\n"), 3);
    assert_eq!(width_in_columns("██\n█"), 2);
    let rendered = render("osprey").expect("render");
    let expected = rendered.lines().map(|l| l.chars().count()).max().unwrap_or(0);
    assert_eq!(width_in_columns(&rendered), expected);
}

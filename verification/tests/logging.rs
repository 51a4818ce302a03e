use nymlib::logging::{elapsed_style, header_map, status_style, ElapsedStyle, StatusStyle};

#[test]
fn header_map_uses_visible_text() {
    assert_eq!(header_map(Some(b"curl/8.0\tx"), "Unknown User Agent".to_string()), "curl/8.0\tx");
    assert_eq!(header_map(Some(b""), "Unknown Host".to_string()), "");
}

#[test]
fn header_map_falls_back() {
    assert_eq!(header_map(None, "Unknown Host".to_string()), "Unknown Host");
    assert_eq!(header_map(Some(&[0x68, 0xff, 0x69]), "Unknown Host".to_string()), "Unknown Host");
    assert_eq!(header_map(Some(&[0x68, 0x7f]), "fallback".to_string()), "fallback");
    assert_eq!(header_map(Some(&[0x0a]), "fallback".to_string()), "fallback");
}

#[test]
fn status_styles() {
    assert_eq!(status_style(200), StatusStyle::Success);
    assert_eq!(status_style(299), StatusStyle::Success);
    assert_eq!(status_style(301), StatusStyle::Other);
    assert_eq!(status_style(100), StatusStyle::Other);
    assert_eq!(status_style(404), StatusStyle::Failure);
    assert_eq!(status_style(503), StatusStyle::Failure);
    assert_eq!(status_style(600), StatusStyle::Other);
}

#[test]
fn elapsed_styles() {
    assert_eq!(elapsed_style(0), ElapsedStyle::Quick);
    assert_eq!(elapsed_style(50), ElapsedStyle::Quick);
    assert_eq!(elapsed_style(51), ElapsedStyle::Noticeable);
    assert_eq!(elapsed_style(200), ElapsedStyle::Noticeable);
    assert_eq!(elapsed_style(201), ElapsedStyle::Sluggish);
    assert_eq!(elapsed_style(500), ElapsedStyle::Sluggish);
    assert_eq!(elapsed_style(501), ElapsedStyle::Slow);
}

use codex_rc::banner::{banner, build_url, port_text};

#[test]
fn ports_are_written_in_decimal() {
    assert_eq!(port_text(0), "0");
    assert_eq!(port_text(7), "7");
    assert_eq!(port_text(9876), "9876");
    assert_eq!(port_text(65535), "65535");
}

#[test]
fn url_uses_local_address_or_localhost() {
    assert_eq!(build_url(Some("192.168.1.20".to_string()), 9876), "http://192.168.1.20:9876");
    assert_eq!(build_url(None, 80), "http://localhost:80");
}

#[test]
fn banner_shows_url_and_qr_code() {
    let text = banner("http://10.0.0.2:9876");
    assert!(text.starts_with("\n  codex-rc v0.2\n"));
    assert!(text.contains("  URL: http://10.0.0.2:9876\n"));
    assert!(text.contains('\u{2588}'));
    assert!(text.ends_with("  Scan QR or open URL on your phone\n  Press Ctrl+C to stop\n\n"));
}

#[test]
fn banner_without_qr_code_when_url_is_too_long() {
    let url = format!("http://{}", "x".repeat(8000));
    let text = banner(&url);
    assert!(!text.contains('\u{2588}'));
    assert!(text.contains("Scan QR"));
}

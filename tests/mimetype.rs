use wry::mimetype::MimeType;

#[test]
fn should_parse_mimetype_from_uri() {
    let css = MimeType::parse_from_uri(
        "https://unpkg.com/browse/bootstrap@4.1.0/dist/css/bootstrap-grid.css",
    )
    .to_string();
    assert_eq!(css, "text/css".to_string());

    let csv: String = MimeType::parse_from_uri("https://example.com/random.csv").to_string();
    assert_eq!(csv, "text/csv".to_string());

    let ico: String =
        MimeType::parse_from_uri("https://icons.duckduckgo.com/ip3/microsoft.com.ico").to_string();
    assert_eq!(ico, String::from("image/vnd.microsoft.icon"));

    let html: String = MimeType::parse_from_uri("https://tauri.studio/index.html").to_string();
    assert_eq!(html, String::from("text/html"));

    let js: String =
        MimeType::parse_from_uri("https://unpkg.com/react@17.0.1/umd/react.production.min.js")
            .to_string();
    assert_eq!(js, "text/javascript".to_string());

    let json: String =
        MimeType::parse_from_uri("https://unpkg.com/browse/react@17.0.1/build-info.json").to_string();
    assert_eq!(json, String::from("application/json"));

    let jsonld: String = MimeType::parse_from_uri("https:/example.com/hello.jsonld").to_string();
    assert_eq!(jsonld, String::from("application/ld+json"));

    let rtf: String = MimeType::parse_from_uri("https://example.com/document.rtf").to_string();
    assert_eq!(rtf, String::from("application/rtf"));

    let svg: String = MimeType::parse_from_uri("https://example.com/picture.svg").to_string();
    assert_eq!(svg, String::from("image/svg+xml"));

    let custom_scheme = MimeType::parse_from_uri("wry://tauri.studio").to_string();
    assert_eq!(custom_scheme, String::from("text/html"));
}

#[test]
fn bin_suffix_is_octet_stream() {
    assert_eq!(MimeType::parse_from_uri("https://example.com/blob.bin"), MimeType::OCTETSTREAM);
    assert_eq!(MimeType::OCTETSTREAM.to_string(), "application/octet-stream");
}

#[test]
fn uri_without_dot_is_its_own_suffix() {
    assert_eq!(MimeType::parse_from_uri("css"), MimeType::CSS);
    assert_eq!(MimeType::parse_from_uri("localhost"), MimeType::HTML);
}

#[test]
fn empty_uri_and_trailing_dot_are_html() {
    assert_eq!(MimeType::parse_from_uri(""), MimeType::HTML);
    assert_eq!(MimeType::parse_from_uri("https://example.com/file."), MimeType::HTML);
}

#[test]
fn only_last_suffix_counts() {
    assert_eq!(MimeType::parse_from_uri("archive.css.js"), MimeType::JS);
    assert_eq!(MimeType::parse_from_uri("data.json.ld"), MimeType::HTML);
}

#[test]
fn sniffed_type_wins_over_uri() {
    assert_eq!(MimeType::parse_sniffed(Some("image/png"), "https://example.com/a.css"), "image/png");
}

#[test]
fn plain_or_missing_sniff_falls_back_on_uri() {
    assert_eq!(MimeType::parse_sniffed(Some("text/plain"), "https://example.com/a.css"), "text/css");
    assert_eq!(MimeType::parse_sniffed(None, "https://example.com/a.rtf"), "application/rtf");
}

#[test]
fn parse_sniffs_png_content() {
    let png: Vec<u8> = vec![0x89, 0x50, 0x4E, 0x47, 0x0D, 0x0A, 0x1A, 0x0A, 0, 0, 0, 0x0D];
    assert_eq!(MimeType::parse(&png, "https://example.com/a.css"), "image/png");
}

#[test]
fn parse_unknown_content_uses_uri() {
    let text: Vec<u8> = b"just some words".to_vec();
    assert_eq!(MimeType::parse(&text, "https://example.com/a.csv"), "text/csv");
    assert_eq!(MimeType::parse(&Vec::new(), "https://example.com/a.svg"), "image/svg+xml");
}

#[test]
fn short_cr2_header_cannot_be_sniffed() {
    let c: Vec<u8> = vec![0x49, 0x49, 0x2A, 0x00, 0, 0, 0, 0, 0x43, 0x52];
    assert!(!MimeType::can_sniff(&c));
    let mut longer = c.clone();
    longer.push(0x02);
    assert!(MimeType::can_sniff(&longer));
    assert_eq!(MimeType::parse(&longer, "https://example.com/a.html"), "image/x-canon-cr2");
}

#[test]
fn overflowing_office_header_cannot_be_sniffed() {
    let mut c: Vec<u8> = vec![0x50, 0x4B, 0x03, 0x04];
    c.resize(30, 0);
    c[18] = 0xFF;
    c[19] = 0xFF;
    c[20] = 0xFF;
    c[21] = 0xFF;
    c.extend_from_slice(b"docProps");
    assert!(!MimeType::can_sniff(&c));
    c[18] = 0x00;
    c[19] = 0xF0;
    assert!(!MimeType::can_sniff(&c));
    c[19] = 0xE0;
    assert!(MimeType::can_sniff(&c));
    c[21] = 0x00;
    assert!(MimeType::can_sniff(&c));
}

#[test]
fn ordinary_content_can_be_sniffed() {
    assert!(MimeType::can_sniff(&Vec::new()));
    assert!(MimeType::can_sniff(&b"<html></html>".to_vec()));
}

use bootstrap::ip_details::{build_url, details_for_ip, DetailsError};
use bootstrap::text::{bool_str, dec_u16};

#[test]
fn decimal_rendering() {
    assert_eq!(dec_u16(0), "0");
    assert_eq!(dec_u16(7), "7");
    assert_eq!(dec_u16(3000), "3000");
    assert_eq!(dec_u16(65535), "65535");
    assert_eq!(bool_str(true), "true");
    assert_eq!(bool_str(false), "false");
}

#[test]
fn url_assembly() {
    assert_eq!(
        build_url("192.168.1.2", 3000, "/", false),
        "http://192.168.1.2:3000//"
    );
    assert_eq!(
        build_url("10.0.0.5", 8080, "start", true),
        "https://10.0.0.5:8080/start"
    );
}

#[test]
fn details_fields_follow_inputs() {
    let d = details_for_ip("10.0.0.5".into(), 8080, "/", true).unwrap();
    assert_eq!(d.ip, "10.0.0.5");
    assert_eq!(d.port, 8080);
    assert_eq!(d.path, "/");
    assert!(d.is_https);
    assert_eq!(d.url, "https://10.0.0.5:8080//");
    assert_eq!(d.ip_string, "10.0.0.5:8080");
}

#[test]
fn qr_rendering_produces_svg() {
    let d = details_for_ip("192.168.1.2".into(), 3000, "/", false).unwrap();
    assert!(d.svg_xml.starts_with("<?xml"));
    assert!(d.svg_xml.contains("<svg"));
    assert_ne!(d.svg_xml, d.url);
}

#[test]
fn oversized_url_is_refused() {
    let path: String = "x".repeat(4000);
    match details_for_ip("192.168.1.2".into(), 3000, &path, false) {
        Err(err) => assert_eq!(err, DetailsError::QrUnencodable),
        Ok(_) => panic!("an oversized URL must not encode"),
    }
}

#[test]
fn display_string_lists_fields() {
    let d = details_for_ip("10.0.0.5".into(), 8080, "/", true).unwrap();
    let expected = "ip_details:\n\
                    ip: 10.0.0.5\n\
                    port: 8080\n\
                    ip_string: 10.0.0.5:8080\n\
                    path: /\n\
                    is_https: true\n\
                    url: https://10.0.0.5:8080//\n";
    assert_eq!(d.display_string(), expected);
}

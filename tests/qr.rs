use datp::{MAX_MIN_DIMENSION, ec_level_from_code, otpauth_url, totp_qr_svg, version_from_code, EcLevel, TotpError, TotpQrConfig};

fn config(min_dimension: u32) -> TotpQrConfig<'static> {
    TotpQrConfig {
        account_name: "user@example.com",
        issuer: "MyApp",
        dark_color: "#000080",
        light_color: "#ffffcc",
        min_dimension,
        version: 5,
        ec_level: EcLevel::M,
    }
}

fn width_of(svg: &str) -> u32 {
    let start = svg.find("width=\"").unwrap() + 7;
    let end = start + svg[start..].find('"').unwrap();
    svg[start..end].parse().unwrap()
}

#[test]
fn enrollment_url_format() {
    assert_eq!(
        otpauth_url("MyApp", "user@example.com", "JBSWY3DPEHPK3PXP"),
        "otpauth://totp/MyApp:user@example.com?secret=JBSWY3DPEHPK3PXP&issuer=MyApp&algorithm=SHA1&digits=6&period=30"
    );
    assert_eq!(
        otpauth_url("", "", ""),
        "otpauth://totp/:?secret=&issuer=&algorithm=SHA1&digits=6&period=30"
    );
}

#[test]
fn svg_has_root_element_and_colors() {
    let svg = totp_qr_svg("JBSWY3DPEHPK3PXP", &config(250)).unwrap();
    assert!(svg.starts_with("<?xml version=\"1.0\" standalone=\"yes\"?><svg xmlns=\"http://www.w3.org/2000/svg\""));
    assert!(svg.ends_with("\"/></svg>"));
    assert!(svg.contains("fill=\"#000080\""));
    assert!(svg.contains("fill=\"#ffffcc\""));
    assert!(width_of(&svg) >= 250);
}

#[test]
fn svg_size_follows_min_dimension() {
    let small = totp_qr_svg("JBSWY3DPEHPK3PXP", &config(100)).unwrap();
    let large = totp_qr_svg("JBSWY3DPEHPK3PXP", &config(800)).unwrap();
    let (ws, wl) = (width_of(&small), width_of(&large));
    assert!(ws >= 100 && ws < 100 + 185);
    assert!(wl >= 800 && wl < 800 + 185);
    assert!(svg_side_divides(ws, wl));
    assert!(wl > ws * 4);
}

#[test]
fn oversized_url_is_an_encoding_error() {
    let long = "A".repeat(8000);
    assert_eq!(totp_qr_svg(&long, &config(100)), Err(TotpError::QrEncoding));
}

#[test]
fn compact_codes_clamp_to_defaults() {
    assert_eq!(version_from_code(0), 1);
    assert_eq!(version_from_code(4), 5);
    assert_eq!(version_from_code(5), 1);
    assert_eq!(version_from_code(255), 1);
    assert_eq!(ec_level_from_code(0), EcLevel::L);
    assert_eq!(ec_level_from_code(1), EcLevel::M);
    assert_eq!(ec_level_from_code(2), EcLevel::Q);
    assert_eq!(ec_level_from_code(3), EcLevel::H);
    assert_eq!(ec_level_from_code(9), EcLevel::M);
}

fn svg_side_divides(a: u32, b: u32) -> bool {
    // Both images draw the same symbol, so both sizes are multiples of its side.
    (29..=185).step_by(4).any(|u| a % u == 0 && b % u == 0 && a / u >= 1)
}

#[test]
fn zero_min_dimension_draws_one_pixel_per_module() {
    let svg = totp_qr_svg("JBSWY3DPEHPK3PXP", &config(0)).unwrap();
    let w = width_of(&svg);
    assert!((29..=185).contains(&w));
    assert_eq!((w - 25) % 4, 0);
}

#[test]
fn rendering_is_repeatable() {
    let a = totp_qr_svg("JBSWY3DPEHPK3PXP", &config(300)).unwrap();
    let b = totp_qr_svg("JBSWY3DPEHPK3PXP", &config(300)).unwrap();
    assert_eq!(a, b);
}

#[test]
fn level_changes_the_symbol() {
    let mut low = config(0);
    low.ec_level = EcLevel::L;
    let mut high = config(0);
    high.ec_level = EcLevel::H;
    let a = totp_qr_svg("JBSWY3DPEHPK3PXP", &low).unwrap();
    let b = totp_qr_svg("JBSWY3DPEHPK3PXP", &high).unwrap();
    assert_ne!(a, b);
    assert!(width_of(&b) >= width_of(&a));
}

#[test]
fn largest_min_dimension_is_accepted() {
    assert_eq!(MAX_MIN_DIMENSION, u32::MAX - 184);
}

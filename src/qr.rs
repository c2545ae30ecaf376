use crate::error::TotpError;
use qrcode::render::svg;
use qrcode::QrCode;
use vstd::arithmetic::div_mod::{
    lemma_div_by_self, lemma_div_is_ordered, lemma_fundamental_div_mod, lemma_mod_bound,
    lemma_mod_multiples_basic, lemma_mod_self_0,
};
use vstd::arithmetic::mul::{lemma_mul_inequality, lemma_mul_is_commutative};
use vstd::prelude::*;

verus! {

/// Error-correction level of a QR symbol.
#[derive(Clone, Copy, Debug, PartialEq, Eq, Structural)]
pub enum EcLevel {
    /// About 7% of the symbol may be damaged.
    L,
    /// About 15% of the symbol may be damaged.
    M,
    /// About 25% of the symbol may be damaged.
    Q,
    /// About 30% of the symbol may be damaged.
    H,
}

/// How an enrollment QR code is labelled and drawn.
pub struct TotpQrConfig<'a> {
    pub account_name: &'a str,
    pub issuer: &'a str,
    /// Colour of the dark modules, e.g. `#000000`.
    pub dark_color: &'a str,
    /// Colour of the light modules, e.g. `#ffffff`.
    pub light_color: &'a str,
    /// Minimum width and height of the image, in pixels.
    pub min_dimension: u32,
    /// The symbol size class asked for, from 1 to 5. The symbol is drawn at
    /// the smallest version that holds the URL.
    pub version: u8,
    pub ec_level: EcLevel,
}

/// The size class of a compact code from 0 to 4: versions 1 to 5, and
/// version 1 for any other code.
pub open spec fn version_of_code(code: u8) -> u8 {
    if code <= 4 {
        (code + 1) as u8
    } else {
        1
    }
}

/// The error-correction level of a compact code from 0 to 3: L, M, Q, H, and
/// M for any other code.
pub open spec fn ec_level_of_code(code: u8) -> EcLevel {
    if code == 0 {
        EcLevel::L
    } else if code == 2 {
        EcLevel::Q
    } else if code == 3 {
        EcLevel::H
    } else {
        EcLevel::M
    }
}

/// The `otpauth://` URL that enrolls a TOTP secret in an authenticator app.
pub open spec fn otpauth_url_of(issuer: Seq<char>, account_name: Seq<char>, secret: Seq<char>) -> Seq<
    char,
> {
    "otpauth://totp/"@ + issuer + ":"@ + account_name + "?secret="@ + secret + "&issuer="@ + issuer
        + "&algorithm=SHA1&digits=6&period=30"@
}

/// The largest `min_dimension` the renderer takes: the widest symbol is 185
/// modules across with its quiet zone, and the pixel size must stay in `u32`.
pub const MAX_MIN_DIMENSION: u32 = 4294967111;

/// The QR version (1 to 40) that the encoder picks for a text at a level, or
/// `None` where no version holds it.
pub uninterp spec fn qr_version_of(text: Seq<char>, ec: EcLevel) -> Option<nat>;

/// The SVG image that the renderer draws for a text, a level, a minimum size
/// and two colours.
pub uninterp spec fn qr_svg_of(
    text: Seq<char>,
    ec: EcLevel,
    min_dimension: u32,
    dark: Seq<char>,
    light: Seq<char>,
) -> Seq<char>;

/// Modules across a symbol of a version, with the four-module quiet zone on
/// each side.
pub open spec fn symbol_side(version: nat) -> nat {
    4 * version + 25
}

/// Pixels across the image of a symbol of a version: the least multiple of
/// the symbol's side that is at least `min_dimension`, and one pixel per
/// module where `min_dimension` is zero.
pub open spec fn image_side(version: nat, min_dimension: nat) -> nat {
    let u = symbol_side(version);
    if min_dimension == 0 {
        u
    } else {
        u * (((min_dimension + u - 1) as nat) / u)
    }
}

/// The decimal digits of a number, without leading zeros.
pub open spec fn decimal(n: nat) -> Seq<char>
    decreases n,
{
    if n < 10 {
        seq!["0123456789"@[n as int]]
    } else {
        decimal(n / 10) + seq!["0123456789"@[(n % 10) as int]]
    }
}

/// What every SVG image of the renderer begins with.
pub open spec fn svg_head() -> Seq<char> {
    "<?xml version=\"1.0\" standalone=\"yes\"?><svg xmlns=\"http://www.w3.org/2000/svg\""@
}

/// What every SVG image of the renderer ends with.
pub open spec fn svg_tail() -> Seq<char> {
    "\"/></svg>"@
}

/// The opening of an image `w` pixels square: the `svg` root element with its
/// size, the background filled with `light`, and the path of the dark modules
/// filled with `dark`.
pub open spec fn svg_opening(w: nat, dark: Seq<char>, light: Seq<char>) -> Seq<char> {
    svg_head() + " version=\"1.1\" width=\""@ + decimal(w) + "\" height=\""@ + decimal(w)
        + "\" viewBox=\"0 0 "@ + decimal(w) + " "@ + decimal(w)
        + "\" shape-rendering=\"crispEdges\"><rect x=\"0\" y=\"0\" width=\""@ + decimal(w)
        + "\" height=\""@ + decimal(w) + "\" fill=\""@ + light + "\"/><path fill=\""@ + dark
        + "\" d=\""@
}

/// A standalone SVG document: the XML declaration and the `svg` root element.
pub open spec fn is_svg_document(s: Seq<char>) -> bool {
    s.len() >= svg_head().len() + svg_tail().len() && s.subrange(0, svg_head().len() as int)
        == svg_head() && s.subrange(s.len() - svg_tail().len(), s.len() as int) == svg_tail()
}

/// Relies on QrCode::with_error_correction_level, then QrCode::render with
/// svg::Color. The encoder picks the smallest normal version (1 to 40) that
/// holds the bytes of the text at the level, and fails where none does. The
/// renderer scales each module to `ceil(min_dimension / side)` pixels (at
/// least one), writes the XML declaration and the `svg` element with that
/// size and the two colours as they are, and closes the path and the element
/// last. Both steps depend on their arguments alone.
#[verifier::external_body]
fn qr_render_svg(text: &str, ec: EcLevel, min_dimension: u32, dark: &str, light: &str) -> (r:
    Option<String>)
    requires
        min_dimension <= MAX_MIN_DIMENSION,
    ensures
        r is Some == qr_version_of(text@, ec) is Some,
        r is Some ==> 1 <= qr_version_of(text@, ec)->0 <= 40,
        r matches Some(s) ==> s@ == qr_svg_of(text@, ec, min_dimension, dark@, light@),
        r matches Some(s) ==> is_svg_document(s@),
        r matches Some(s) ==> svg_opening(
            image_side(qr_version_of(text@, ec)->0, min_dimension as nat),
            dark@,
            light@,
        ).is_prefix_of(s@),
{
    let level = match ec {
        EcLevel::L => qrcode::EcLevel::L,
        EcLevel::M => qrcode::EcLevel::M,
        EcLevel::Q => qrcode::EcLevel::Q,
        EcLevel::H => qrcode::EcLevel::H,
    };
    match QrCode::with_error_correction_level(text.as_bytes(), level) {
        Ok(code) => Some(
            code.render::<svg::Color>().min_dimensions(min_dimension, min_dimension).dark_color(
                svg::Color(dark),
            ).light_color(svg::Color(light)).build(),
        ),
        Err(_) => None,
    }
}

/// The image of a symbol is the least multiple of the symbol's side that
/// reaches the minimum size, and it never shrinks as the minimum grows.
pub proof fn lemma_image_side(version: nat, m1: nat, m2: nat)
    requires
        m1 <= m2,
    ensures
        image_side(version, m1) % symbol_side(version) == 0,
        image_side(version, m1) >= m1,
        m1 >= 1 ==> image_side(version, m1) < m1 + symbol_side(version),
        image_side(version, m1) <= image_side(version, m2),
{
    let u = symbol_side(version) as int;
    let q1 = (m1 + u - 1) / u;
    let q2 = (m2 + u - 1) / u;
    lemma_fundamental_div_mod(m1 + u - 1, u);
    lemma_mod_bound(m1 + u - 1, u);
    lemma_div_is_ordered(m1 + u - 1, m2 + u - 1, u);
    lemma_mul_is_commutative(u, q1);
    lemma_mod_multiples_basic(q1, u);
    if m1 >= 1 {
        lemma_mul_inequality(q1, q2, u);
        lemma_mul_is_commutative(u, q2);
    } else {
        if m2 >= 1 {
            lemma_div_is_ordered(u, m2 + u - 1, u);
            lemma_div_by_self(u);
            lemma_mul_inequality(1, q2, u);
            lemma_mul_is_commutative(u, q2);
        }
        lemma_mod_self_0(u);
    }
}

/// Maps a compact size code (0 to 4) to QR versions 1 to 5; any other code
/// falls back to version 1.
pub fn version_from_code(code: u8) -> (r: u8)
    ensures
        r == version_of_code(code),
        1 <= r <= 5,
{
    if code <= 4 {
        code + 1
    } else {
        1
    }
}

/// Maps a compact level code (0 to 3) to L, M, Q, H; any other code falls
/// back to M.
pub fn ec_level_from_code(code: u8) -> (r: EcLevel)
    ensures
        r == ec_level_of_code(code),
{
    if code == 0 {
        EcLevel::L
    } else if code == 2 {
        EcLevel::Q
    } else if code == 3 {
        EcLevel::H
    } else {
        EcLevel::M
    }
}

/// Builds the `otpauth://` enrollment URL. The parts are copied as they are,
/// without percent-encoding.
pub fn otpauth_url(issuer: &str, account_name: &str, secret_base32: &str) -> (r: String)
    ensures
        r@ == otpauth_url_of(issuer@, account_name@, secret_base32@),
{
    let mut url = String::from_str("otpauth://totp/");
    url.append(issuer);
    url.append(":");
    url.append(account_name);
    url.append("?secret=");
    url.append(secret_base32);
    url.append("&issuer=");
    url.append(issuer);
    url.append("&algorithm=SHA1&digits=6&period=30");
    url
}

/// Renders the enrollment QR code of a secret as an SVG document: the image
/// that the renderer draws for the `otpauth://` URL at the configured level,
/// size and colours. It fails, with `QrEncoding`, exactly where the URL fits
/// no QR symbol at the level.
pub fn totp_qr_svg(secret_base32: &str, config: &TotpQrConfig) -> (r: Result<String, TotpError>)
    requires
        config.min_dimension <= MAX_MIN_DIMENSION,
    ensures
        r is Ok == qr_version_of(
            otpauth_url_of(config.issuer@, config.account_name@, secret_base32@),
            config.ec_level,
        ) is Some,
        r matches Ok(s) ==> s@ == qr_svg_of(
            otpauth_url_of(config.issuer@, config.account_name@, secret_base32@),
            config.ec_level,
            config.min_dimension,
            config.dark_color@,
            config.light_color@,
        ),
        r matches Ok(s) ==> is_svg_document(s@),
        r matches Ok(s) ==> svg_opening(
            image_side(
                qr_version_of(
                    otpauth_url_of(config.issuer@, config.account_name@, secret_base32@),
                    config.ec_level,
                )->0,
                config.min_dimension as nat,
            ),
            config.dark_color@,
            config.light_color@,
        ).is_prefix_of(s@),
        r matches Err(e) ==> e == TotpError::QrEncoding,
{
    let url = otpauth_url(config.issuer, config.account_name, secret_base32);
    match qr_render_svg(
        url.as_str(),
        config.ec_level,
        config.min_dimension,
        config.dark_color,
        config.light_color,
    ) {
        Some(svg) => Ok(svg),
        None => Err(TotpError::QrEncoding),
    }
}

} // verus!

//! Time-based one-time passwords: secret generation, code computation and
//! enrollment QR rendering.

pub mod counter;
pub mod error;
pub mod otp;
pub mod qr;
pub mod secret;

pub use counter::{counter_bytes, time_counter};
pub use error::TotpError;
pub use otp::{
    code_at_reading, code_from_digest, compute_code, compute_code_now, hotp, totp_raw, totp_raw_now,
};
pub use qr::{
    ec_level_from_code, otpauth_url, totp_qr_svg, version_from_code, EcLevel, TotpQrConfig,
    MAX_MIN_DIMENSION,
};
pub use secret::{generate_totp_secret, random_secret_bytes, secret_from_bytes};

//! Deriving the scannable TOTP enrollment image from a generated secret.
//! The standard parameters apply: SHA-1, six digits, a thirty-second period.

use vstd::prelude::*;
use crate::errors::ApiError;

verus! {

/// Number of digits of a generated one-time code.
pub const OTP_DIGITS: usize = 6;

/// Accepted clock skew, in periods, when a code is checked.
pub const OTP_SKEW: u8 = 1;

/// Seconds each one-time code is valid for.
pub const OTP_PERIOD_SECONDS: u64 = 30;

/// Issuer and account label under which a secret is enrolled.
pub const OTP_LABEL: &'static str = "Northsky";

/// The PNG image of the QR code that enrolls the base32 secret under the
/// given issuer and account, with the standard TOTP parameters. The image is
/// a function of these arguments alone.
pub uninterp spec fn qr_png_of(base32: Seq<char>, issuer: Seq<char>, account: Seq<char>) -> Seq<
    u8,
>;

/// Whether the renderer accepts the base32 secret under the given issuer and
/// account: the base32 decodes, the secret is at least 128 bits, no label
/// holds a colon, and the otpauth URI fits a QR code. Like the image, a
/// function of these arguments alone.
pub uninterp spec fn qr_renders(base32: Seq<char>, issuer: Seq<char>, account: Seq<char>) -> bool;

/// Relies on totp_rs: `Secret::Encoded(..).to_bytes()` decodes the base32
/// secret, `TOTP::new` with SHA-1, `OTP_DIGITS`, `OTP_SKEW` and
/// `OTP_PERIOD_SECONDS` describes the enrollment, and `get_qr_png` renders
/// its otpauth URI as a PNG image. Each step computes from its arguments
/// alone, and so does each failure (malformed base32, a secret under 128
/// bits, a label with a colon, an oversized URI), which comes back as `Err`
/// with its description.
#[verifier::external_body]
fn totp_qr_png(base32: &str, issuer: &str, account: &str) -> (r: Result<Vec<u8>, String>)
    ensures
        r is Ok <==> qr_renders(base32@, issuer@, account@),
        r matches Ok(png) ==> png@ == qr_png_of(base32@, issuer@, account@),
{
    let secret = totp_rs::Secret::Encoded(base32.to_string()).to_bytes().map_err(
        |e| format!("{e:?}"),
    )?;
    let totp = totp_rs::TOTP::new(
        totp_rs::Algorithm::SHA1,
        OTP_DIGITS,
        OTP_SKEW,
        OTP_PERIOD_SECONDS,
        secret,
        Some(issuer.to_string()),
        account.to_string(),
    ).map_err(|e| format!("{e:?}"))?;
    totp.get_qr_png()
}

/// The mathematical value of a `QrCodeBase`.
pub struct QrCodeView {
    pub image: Seq<u8>,
    pub url: Seq<char>,
}

/// A derived QR code: the PNG image and the otpauth URL it encodes.
pub struct QrCodeBase {
    image: Vec<u8>,
    url: String,
}

impl View for QrCodeBase {
    type V = QrCodeView;

    closed spec fn view(&self) -> QrCodeView {
        QrCodeView { image: self.image@, url: self.url@ }
    }
}

impl QrCodeBase {
    /// Wraps a rendered image and the URL it encodes.
    pub fn new(image: Vec<u8>, url: String) -> (r: Self)
        ensures
            r@.image == image@,
            r@.url == url@,
    {
        QrCodeBase { image, url }
    }

    /// The PNG bytes of the image.
    pub fn image(&self) -> (r: &Vec<u8>)
        ensures
            r@ == self@.image,
    {
        &self.image
    }

    /// The otpauth URL the image encodes.
    pub fn url(&self) -> (r: &String)
        ensures
            r@ == self@.url,
    {
        &self.url
    }
}

impl Clone for QrCodeBase {
    fn clone(&self) -> (r: Self)
        ensures
            r@ == self@,
    {
        let mut image: Vec<u8> = Vec::new();
        let mut i: usize = 0;
        while i < self.image.len()
            invariant
                i <= self.image@.len(),
                image@ == self.image@.take(i as int),
            decreases self.image@.len() - i,
        {
            image.push(self.image[i]);
            proof {
                assert(image@ =~= self.image@.take(i + 1));
            }
            i = i + 1;
        }
        proof {
            assert(self.image@.take(self.image@.len() as int) =~= self.image@);
        }
        QrCodeBase { image, url: self.url.clone() }
    }
}

impl Default for QrCodeBase {
    fn default() -> (r: Self)
        ensures
            r@.image == Seq::<u8>::empty(),
            r@.url == Seq::<char>::empty(),
    {
        QrCodeBase { image: Vec::new(), url: String::new() }
    }
}

/// Derives the QR code for a generated secret: the enrollment image under
/// the fixed issuer and account label, paired with the otpauth URL. This
/// succeeds exactly when the renderer accepts the secret; one it rejects
/// reads as an undecodable response.
pub fn build_qr(base32: &String, url: &String) -> (r: Result<QrCodeBase, ApiError>)
    ensures
        r is Ok <==> qr_renders(base32@, OTP_LABEL@, OTP_LABEL@),
        r matches Ok(q) ==> q@.image == qr_png_of(base32@, OTP_LABEL@, OTP_LABEL@) && q@.url
            == url@,
        r is Err ==> r == Err::<QrCodeBase, ApiError>(ApiError::Decode),
{
    match totp_qr_png(base32.as_str(), OTP_LABEL, OTP_LABEL) {
        Ok(png) => Ok(QrCodeBase::new(png, url.clone())),
        Err(_) => Err(ApiError::Decode),
    }
}

} // verus!

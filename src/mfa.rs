//! MFA enrollment: reading the secret out of a scanned QR payload, and the device checks.

use vstd::prelude::*;
use crate::error::AppError;
use crate::models::MfaDevice;
use crate::session::text_pairs_view;
use crate::text::{opt_text, same_text};

verus! {

/// The decoded query pairs of `uri`, if `url` parses it as a URL.
pub uninterp spec fn uri_query_pairs(uri: Seq<char>) -> Option<Seq<(Seq<char>, Seq<char>)>>;


/// Relies on url::Url::parse and Url::query_pairs: the percent-decoded query pairs
/// in order, or `None` when the text is not a URL.
#[verifier::external_body]
fn query_pairs(uri: &str) -> (r: Option<Vec<(String, String)>>)
    ensures
        r.is_some() == uri_query_pairs(uri@).is_some(),
        r matches Some(v) ==> uri_query_pairs(uri@) == Some(text_pairs_view(v@)),
{
    url::Url::parse(uri).ok().map(|u| u.query_pairs().map(|(k, v)| (k.into_owned(), v.into_owned())).collect())
}

/// The payload of the first QR region, or why there is none.
pub open spec fn first_payload(scan: Seq<Option<Seq<char>>>) -> Result<Seq<char>, AppError> {
    if scan.len() == 0 {
        Err(AppError::NoQrFound)
    } else {
        match scan[0] {
            None => Err(AppError::QrDecodeFailed),
            Some(p) => Ok(p),
        }
    }
}

/// The value of the last `secret` pair, as a map built from the pairs keeps it.
pub open spec fn secret_param(pairs: Seq<(Seq<char>, Seq<char>)>) -> Option<Seq<char>>
    decreases pairs.len(),
{
    if pairs.len() == 0 {
        None
    } else if pairs.last().0 == "secret"@ {
        Some(pairs.last().1)
    } else {
        secret_param(pairs.drop_last())
    }
}

/// The secret that an OTP URI carries, or why there is none.
pub open spec fn uri_secret(uri: Seq<char>) -> Result<Seq<char>, AppError> {
    match uri_query_pairs(uri) {
        None => Err(AppError::InvalidOtpUri),
        Some(pairs) => match secret_param(pairs) {
            None => Err(AppError::SecretMissing),
            Some(s) => Ok(s),
        },
    }
}

/// The payloads of QR regions as views.
pub open spec fn payloads_view(scan: Seq<Option<String>>) -> Seq<Option<Seq<char>>> {
    scan.map_values(|o: Option<String>| opt_text(o))
}

/// The secret carried by the first QR region of a scan, or why there is none.
pub open spec fn scan_secret(scan: Seq<Option<Seq<char>>>) -> Result<Seq<char>, AppError> {
    match first_payload(scan) {
        Err(e) => Err(e),
        Ok(uri) => uri_secret(uri),
    }
}

/// `serial` is the serial of one of `devices`.
pub open spec fn lists_serial(devices: Seq<MfaDevice>, serial: Seq<char>) -> bool {
    exists|i: int| 0 <= i < devices.len() && (#[trigger] devices[i]).serial_number@ == serial
}

/// A text result as views.
pub open spec fn text_result(r: Result<String, AppError>) -> Result<Seq<char>, AppError> {
    match r {
        Ok(s) => Ok(s@),
        Err(e) => Err(e),
    }
}

/// Operations on MFA secrets and devices.
pub struct MfaManager;

impl MfaManager {
    /// The payload of the first region of a QR scan.
    pub fn payload_from_scan(scan: &Vec<Option<String>>) -> (r: Result<String, AppError>)
        ensures
            text_result(r) == first_payload(payloads_view(scan@)),
    {
        let ghost views = payloads_view(scan@);
        if scan.len() == 0 {
            return Err(AppError::NoQrFound);
        }
        assert(views[0] == opt_text(scan@[0]));
        match &scan[0] {
            None => Err(AppError::QrDecodeFailed),
            Some(p) => Ok(p.clone()),
        }
    }

    /// The value of the last `secret` pair among decoded query pairs.
    pub fn secret_from_query(pairs: &Vec<(String, String)>) -> (r: Option<String>)
        ensures
            opt_text(r) == secret_param(text_pairs_view(pairs@)),
    {
        let mut k: usize = pairs.len();
        proof {
            reveal_strlit("secret");
            assert(pairs@.subrange(0, k as int) =~= pairs@);
        }
        while k > 0
            invariant
                k <= pairs@.len(),
                secret_param(text_pairs_view(pairs@)) == secret_param(text_pairs_view(pairs@.subrange(0, k as int))),
            decreases k,
        {
            let ghost pre = text_pairs_view(pairs@.subrange(0, k as int));
            assert(pre.last() == (pairs@[k - 1].0@, pairs@[k - 1].1@));
            assert(pre.drop_last() =~= text_pairs_view(pairs@.subrange(0, k - 1)));
            if same_text(pairs[k - 1].0.as_str(), "secret") {
                return Some(pairs[k - 1].1.clone());
            }
            k = k - 1;
        }
        None
    }

    /// The secret of an `otpauth://` URI: its `secret` query parameter.
    pub fn parse_secret_from_uri(uri: &str) -> (r: Result<String, AppError>)
        ensures
            text_result(r) == uri_secret(uri@),
    {
        match query_pairs(uri) {
            None => Err(AppError::InvalidOtpUri),
            Some(pairs) => match Self::secret_from_query(&pairs) {
                None => Err(AppError::SecretMissing),
                Some(s) => Ok(s),
            },
        }
    }

    /// The secret carried by a scanned QR image: the `secret` parameter of the URI
    /// that its first QR region decodes to. `payloads` holds what each detected
    /// region decoded to, in detection order, `None` where decoding failed.
    pub fn import_qr_code(payloads: &Vec<Option<String>>) -> (r: Result<String, AppError>)
        ensures
            text_result(r) == scan_secret(payloads_view(payloads@)),
    {
        let uri = Self::payload_from_scan(payloads)?;
        Self::parse_secret_from_uri(uri.as_str())
    }

    /// The serial of the first listed device.
    pub fn serial_from_devices(devices: &Vec<MfaDevice>) -> (r: Result<String, AppError>)
        ensures
            devices@.len() == 0 <==> r == Err::<String, AppError>(AppError::NoMfaDevice),
            devices@.len() > 0 ==> (r matches Ok(s) && s@ == devices@[0].serial_number@),
    {
        if devices.len() == 0 {
            Err(AppError::NoMfaDevice)
        } else {
            Ok(devices[0].serial_number.clone())
        }
    }

    /// Confirms that the device `serial` is listed for the user.
    pub fn verify_device_listed(devices: &Vec<MfaDevice>, serial: &str) -> (r: Result<(), AppError>)
        ensures
            r is Ok <==> lists_serial(devices@, serial@),
            r is Err ==> r == Err::<(), AppError>(AppError::VerificationFailed),
    {
        let mut k: usize = 0;
        while k < devices.len()
            invariant
                k <= devices@.len(),
                forall|i: int| 0 <= i < k ==> (#[trigger] devices@[i]).serial_number@ != serial@,
            decreases devices@.len() - k,
        {
            if same_text(devices[k].serial_number.as_str(), serial) {
                return Ok(());
            }
            k = k + 1;
        }
        Err(AppError::VerificationFailed)
    }
}

} // verus!

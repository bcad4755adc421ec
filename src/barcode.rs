//! Barcode symbologies and the payloads that each accepts.

use vstd::prelude::*;
use crate::error::PrintError;

verus! {

/// The barcode symbologies that a job can ask for.
#[derive(Clone, Copy, Debug, PartialEq, Eq, Structural)]
pub enum BarcodeKind {
    Ean13,
    Ean8,
    Upca,
    Upce,
    Code39,
    Codabar,
    Itf,
}

/// Every character is an ASCII digit.
pub open spec fn all_digits(s: Seq<char>) -> bool {
    forall|i: int| 0 <= i < s.len() ==> '0' <= #[trigger] s[i] <= '9'
}

/// A character that CODE39 can encode.
pub open spec fn code39_char(c: char) -> bool {
    ('0' <= c <= '9') || ('A' <= c <= 'Z') || c == '$' || c == '%' || c == '*' || c == '+' || c == '-'
        || c == '.' || c == '/' || c == ' '
}

/// A character that CODABAR can encode.
pub open spec fn codabar_char(c: char) -> bool {
    ('0' <= c <= '9') || ('A' <= c <= 'D') || ('a' <= c <= 'd') || c == '$' || c == '+' || c == '-'
        || c == '.' || c == '/' || c == ':'
}

/// The payloads that the encoder accepts for each symbology. UPC-E takes six
/// digits, or anything that starts with `0`.
pub open spec fn payload_accepted(kind: BarcodeKind, s: Seq<char>) -> bool {
    match kind {
        BarcodeKind::Ean13 => all_digits(s) && (s.len() == 12 || s.len() == 13),
        BarcodeKind::Ean8 => all_digits(s) && (s.len() == 7 || s.len() == 8),
        BarcodeKind::Upca => all_digits(s) && (s.len() == 11 || s.len() == 12),
        BarcodeKind::Upce => (all_digits(s) && s.len() == 6) || (s.len() > 0 && s[0] == '0'),
        BarcodeKind::Code39 => s.len() >= 1 && forall|i: int| 0 <= i < s.len() ==> code39_char(#[trigger] s[i]),
        BarcodeKind::Codabar => s.len() >= 2 && forall|i: int| 0 <= i < s.len() ==> codabar_char(#[trigger] s[i]),
        BarcodeKind::Itf => s.len() >= 2 && all_digits(s),
    }
}

/// Relies on escpos::utils::Barcode::new, which returns an error exactly when
/// the payload breaks the symbology's rules (digits only and a set of
/// lengths for the UPC/EAN family and ITF, a character set for CODE39 and
/// CODABAR). Its lengths count bytes; on the payloads it accepts every
/// character is one byte.
#[verifier::external_body]
fn encoder_accepts(kind: BarcodeKind, data: &str) -> (r: bool)
    ensures
        r == payload_accepted(kind, data@),
{
    let system = match kind {
        BarcodeKind::Ean13 => escpos::utils::BarcodeSystem::EAN13,
        BarcodeKind::Ean8 => escpos::utils::BarcodeSystem::EAN8,
        BarcodeKind::Upca => escpos::utils::BarcodeSystem::UPCA,
        BarcodeKind::Upce => escpos::utils::BarcodeSystem::UPCE,
        BarcodeKind::Code39 => escpos::utils::BarcodeSystem::CODE39,
        BarcodeKind::Codabar => escpos::utils::BarcodeSystem::CODABAR,
        BarcodeKind::Itf => escpos::utils::BarcodeSystem::ITF,
    };
    escpos::utils::Barcode::new(system, data, escpos::utils::BarcodeOption::default()).is_ok()
}

/// Checks a payload against the symbology's rules.
pub fn check_payload(kind: BarcodeKind, payload: &String) -> (r: Result<(), PrintError>)
    ensures
        r is Ok <==> payload_accepted(kind, payload@),
        r is Err ==> r->Err_0 == PrintError::InvalidPayload(kind, *payload),
{
    if encoder_accepts(kind, payload.as_str()) {
        Ok(())
    } else {
        Err(PrintError::InvalidPayload(kind, payload.clone()))
    }
}

} // verus!

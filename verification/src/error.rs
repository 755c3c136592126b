//! The one error type of the library.

use vstd::prelude::*;
use crate::text::concat;
use crate::text::string_of;

verus! {

/// What can go wrong, from login to signing.
#[derive(Debug)]
pub enum Error {
    /// The bundle directory holds no `Info.plist`.
    BundleInfoPlistMissing,
    /// The bundle names no executable.
    BundleExecutableMissing,
    /// A provisioning profile or a binary holds no readable entitlements.
    ProvisioningEntitlementsUnknown,
    /// A certificate or a key is missing where one is needed to sign.
    CertificatePemMissing,
    /// The local key or the portal certificate could not be made, read or matched.
    Certificate(String),
    /// The developer portal answered with a result code and a message.
    DeveloperSession(i64, String),
    /// A request to the developer portal could not be made or read.
    DeveloperSessionRequestFailed,
    /// The authentication server answered with an error code and a message.
    AuthSrpWithMessage(i64, String),
    /// The password exchange failed without a message from the server.
    AuthSrp,
    /// The server asks for a login step that is not implemented.
    ExtraStep(String),
    /// The verification code was refused.
    Bad2faCode,
    /// A document from the server lacks a field or holds it in another form.
    Parse,
    /// A property list could not be read or written; the words are those of
    /// the reader or writer.
    Plist(String),
    /// A JSON document could not be read; the words are those of the reader.
    SerdeJson(String),
    /// A binary or its signature could not be read; the words are those of
    /// the reader.
    Codesign(String),
    /// A PEM document could not be read; the words are those of the reader.
    Pem(String),
    /// Anything else, in words.
    Other(String),
}

/// What an error means: its kind, and its numbers and words as such.
pub enum ErrorModel {
    BundleInfoPlistMissing,
    BundleExecutableMissing,
    ProvisioningEntitlementsUnknown,
    CertificatePemMissing,
    Certificate(Seq<char>),
    DeveloperSession(int, Seq<char>),
    DeveloperSessionRequestFailed,
    AuthSrpWithMessage(int, Seq<char>),
    AuthSrp,
    ExtraStep(Seq<char>),
    Bad2faCode,
    Parse,
    Plist(Seq<char>),
    SerdeJson(Seq<char>),
    Codesign(Seq<char>),
    Pem(Seq<char>),
    Other(Seq<char>),
}

impl View for Error {
    type V = ErrorModel;

    open spec fn view(&self) -> ErrorModel {
        match self {
            Error::BundleInfoPlistMissing => ErrorModel::BundleInfoPlistMissing,
            Error::BundleExecutableMissing => ErrorModel::BundleExecutableMissing,
            Error::ProvisioningEntitlementsUnknown => ErrorModel::ProvisioningEntitlementsUnknown,
            Error::CertificatePemMissing => ErrorModel::CertificatePemMissing,
            Error::Certificate(m) => ErrorModel::Certificate(m@),
            Error::DeveloperSession(code, m) => ErrorModel::DeveloperSession(*code as int, m@),
            Error::DeveloperSessionRequestFailed => ErrorModel::DeveloperSessionRequestFailed,
            Error::AuthSrpWithMessage(code, m) => ErrorModel::AuthSrpWithMessage(*code as int, m@),
            Error::AuthSrp => ErrorModel::AuthSrp,
            Error::ExtraStep(step) => ErrorModel::ExtraStep(step@),
            Error::Bad2faCode => ErrorModel::Bad2faCode,
            Error::Parse => ErrorModel::Parse,
            Error::Plist(m) => ErrorModel::Plist(m@),
            Error::SerdeJson(m) => ErrorModel::SerdeJson(m@),
            Error::Codesign(m) => ErrorModel::Codesign(m@),
            Error::Pem(m) => ErrorModel::Pem(m@),
            Error::Other(m) => ErrorModel::Other(m@),
        }
    }
}

/// The digit for a number under ten.
pub open spec fn decimal_digit(n: int) -> char {
    (0x30 + n) as u8 as char
}

/// The decimal digits of a number that is not negative, without leading
/// zeros.
pub open spec fn digits_of(n: int) -> Seq<char>
    decreases n,
{
    if n < 10 {
        seq![decimal_digit(n)]
    } else {
        digits_of(n / 10).push(decimal_digit(n % 10))
    }
}

/// A number in decimal digits, with a minus sign before them where it is
/// negative.
pub open spec fn decimal_text(n: int) -> Seq<char> {
    if n < 0 {
        seq!['-'] + digits_of(-n)
    } else {
        digits_of(n)
    }
}

fn push_digits(n: u64, out: &mut Vec<char>)
    ensures
        final(out)@ == old(out)@ + digits_of(n as int),
    decreases n,
{
    if n >= 10 {
        push_digits(n / 10, out);
    }
    let last: u8 = (n % 10) as u8;
    out.push((0x30 + last) as char);
    assert(final(out)@ =~= old(out)@ + digits_of(n as int));
}

/// A number in decimal digits.
pub fn decimal(n: i64) -> (s: String)
    ensures
        s@ == decimal_text(n as int),
{
    let mut out: Vec<char> = Vec::new();
    let size: u64 = if n == i64::MIN {
        0x8000_0000_0000_0000
    } else if n < 0 {
        (-n) as u64
    } else {
        n as u64
    };
    if n < 0 {
        out.push('-');
    }
    push_digits(size, &mut out);
    assert(out@ =~= decimal_text(n as int));
    string_of(&out)
}

/// The message of an error, for a reader.
pub open spec fn message_text(e: ErrorModel) -> Seq<char> {
    match e {
        ErrorModel::BundleInfoPlistMissing => "Info.plist not found"@,
        ErrorModel::BundleExecutableMissing => "Executable not found"@,
        ErrorModel::ProvisioningEntitlementsUnknown => "Entitlements not found"@,
        ErrorModel::CertificatePemMissing => "Missing certificate PEM data"@,
        ErrorModel::Certificate(m) => "Certificate error: "@ + m,
        ErrorModel::DeveloperSession(code, m) => "Developer session error "@ + decimal_text(code)
            + ": "@ + m,
        ErrorModel::DeveloperSessionRequestFailed => "Request to developer session failed"@,
        ErrorModel::AuthSrpWithMessage(code, m) => "Authentication SRP error "@ + decimal_text(
            code,
        ) + ": "@ + m,
        ErrorModel::AuthSrp => "Authentication SRP error"@,
        ErrorModel::ExtraStep(step) => "Authentication extra step required: "@ + step,
        ErrorModel::Bad2faCode => "Bad 2FA code"@,
        ErrorModel::Parse => "Failed to parse"@,
        ErrorModel::Other(m) => m,
        ErrorModel::Plist(m) => "Plist error: "@ + m,
        ErrorModel::SerdeJson(m) => "Serde JSON error: "@ + m,
        ErrorModel::Codesign(m) => "Codesign error: "@ + m,
        ErrorModel::Pem(m) => "Certificate PEM error: "@ + m,
    }
}

impl Error {
    /// The message for a reader.
    pub fn message(&self) -> (s: String)
        ensures
            s@ == message_text(self@),
    {
        match self {
            Error::BundleInfoPlistMissing => "Info.plist not found".to_owned(),
            Error::BundleExecutableMissing => "Executable not found".to_owned(),
            Error::ProvisioningEntitlementsUnknown => "Entitlements not found".to_owned(),
            Error::CertificatePemMissing => "Missing certificate PEM data".to_owned(),
            Error::Certificate(m) => concat("Certificate error: ", m.as_str()),
            Error::DeveloperSession(code, m) => {
                let a = concat("Developer session error ", decimal(*code).as_str());
                let b = concat(a.as_str(), ": ");
                concat(b.as_str(), m.as_str())
            },
            Error::DeveloperSessionRequestFailed => "Request to developer session failed".to_owned(),
            Error::AuthSrpWithMessage(code, m) => {
                let a = concat("Authentication SRP error ", decimal(*code).as_str());
                let b = concat(a.as_str(), ": ");
                concat(b.as_str(), m.as_str())
            },
            Error::AuthSrp => "Authentication SRP error".to_owned(),
            Error::ExtraStep(step) => concat("Authentication extra step required: ", step.as_str()),
            Error::Bad2faCode => "Bad 2FA code".to_owned(),
            Error::Parse => "Failed to parse".to_owned(),
            Error::Other(m) => m.clone(),
            Error::Plist(m) => concat("Plist error: ", m.as_str()),
            Error::SerdeJson(m) => concat("Serde JSON error: ", m.as_str()),
            Error::Codesign(m) => concat("Codesign error: ", m.as_str()),
            Error::Pem(m) => concat("Certificate PEM error: ", m.as_str()),
        }
    }
}

} // verus!

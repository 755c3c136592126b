//! Signing in to the authentication service: the password exchange, the
//! second factor and the tokens that a session hands out.
//!
//! Nothing here talks to a server. Each function builds what is to be sent or
//! reads what came back; whoever owns the connection carries the bytes.

use vstd::prelude::*;
use crate::error::Error;
use crate::error::ErrorModel;
use crate::property_list::PlistValue;
use crate::property_list::Plist;
use crate::property_list::plist_get;
use crate::property_list::plist_get_signed;
use crate::property_list::plist_get_string;
use crate::property_list::plist_get_data;
use crate::property_list::plist_dictionary_document;
use crate::property_list::lemma_view_unfold;

pub mod login;
pub mod request;
pub mod token;
pub mod two_factor;

verus! {

/// The address of the authentication service.
pub const GSA_ENDPOINT: &'static str = "https://gsa.apple.com/grandslam/GsService2";

/// The header that every request to the authentication service carries.
#[derive(Debug, Clone)]
pub struct RequestHeader {
    pub version: String,
}

/// The telephone to which a code is sent.
#[derive(Debug, Clone, Copy, PartialEq, Eq, Structural)]
pub struct PhoneNumber {
    pub id: u32,
}

/// A code as the user typed it.
#[derive(Debug, Clone)]
pub struct VerifyCode {
    pub code: String,
}

/// What is sent to ask for a code by SMS and, with the code filled in, to
/// have it verified.
#[derive(Debug, Clone)]
pub struct VerifyBody {
    pub phone_number: PhoneNumber,
    pub mode: String,
    pub security_code: Option<VerifyCode>,
}

/// Where a login stands. Exactly one state holds at any time, and each
/// answer of the server decides the next.
#[derive(Debug)]
pub enum LoginState {
    LoggedIn,
    NeedsDevice2FA,
    Needs2FAVerification,
    NeedsSMS2FA,
    NeedsSMS2FAVerification(VerifyBody),
    NeedsExtraStep(String),
    NeedsLogin,
}

/// What a verify body means.
pub struct VerifyBodyModel {
    pub phone_id: u32,
    pub mode: Seq<char>,
    pub code: Option<Seq<char>>,
}

impl View for VerifyBody {
    type V = VerifyBodyModel;

    open spec fn view(&self) -> VerifyBodyModel {
        VerifyBodyModel {
            phone_id: self.phone_number.id,
            mode: self.mode@,
            code: match self.security_code {
                Some(c) => Some(c.code@),
                None => None,
            },
        }
    }
}

/// What a login state means.
pub enum LoginStateModel {
    LoggedIn,
    NeedsDevice2FA,
    Needs2FAVerification,
    NeedsSMS2FA,
    NeedsSMS2FAVerification(VerifyBodyModel),
    NeedsExtraStep(Seq<char>),
    NeedsLogin,
}

impl View for LoginState {
    type V = LoginStateModel;

    open spec fn view(&self) -> LoginStateModel {
        match self {
            LoginState::LoggedIn => LoginStateModel::LoggedIn,
            LoginState::NeedsDevice2FA => LoginStateModel::NeedsDevice2FA,
            LoginState::Needs2FAVerification => LoginStateModel::Needs2FAVerification,
            LoginState::NeedsSMS2FA => LoginStateModel::NeedsSMS2FA,
            LoginState::NeedsSMS2FAVerification(body) => LoginStateModel::NeedsSMS2FAVerification(
                body@,
            ),
            LoginState::NeedsExtraStep(step) => LoginStateModel::NeedsExtraStep(step@),
            LoginState::NeedsLogin => LoginStateModel::NeedsLogin,
        }
    }
}

/// A telephone number that the account trusts.
#[derive(Debug, Clone)]
pub struct TrustedPhoneNumber {
    pub number_with_dial_code: String,
    pub last_two_digits: String,
    pub push_mode: String,
    pub id: u32,
}

/// What the server tells about the ways to pass the second factor.
#[derive(Debug)]
pub struct AuthenticationExtras {
    pub trusted_phone_numbers: Vec<TrustedPhoneNumber>,
    pub recovery_url: Option<String>,
    pub cant_use_phone_number_url: Option<String>,
    pub dont_have_access_url: Option<String>,
    pub recovery_web_url: Option<String>,
    pub repair_phone_number_url: Option<String>,
    pub repair_phone_number_web_url: Option<String>,
    pub new_state: Option<LoginState>,
}

/// The dictionary in which a response reports how the request went: the one
/// under `Status` where there is one, else the response itself.
pub open spec fn status_of(res: Plist) -> Plist {
    match plist_get(res, "Status"@) {
        Some(Plist::Dictionary(entries)) => Plist::Dictionary(entries),
        _ => res,
    }
}

/// The error code that a response reports.
pub open spec fn error_code(res: Plist) -> Option<int> {
    plist_get_signed(status_of(res), "ec"@)
}

/// The error message that a response reports; empty where it gives none.
pub open spec fn error_message(res: Plist) -> Seq<char> {
    match plist_get_string(status_of(res), "em"@) {
        Some(m) => m,
        None => Seq::empty(),
    }
}

/// The response proper inside the document that the server sent.
pub open spec fn response_of(doc: Plist) -> Option<Plist> {
    match plist_get(doc, "Response"@) {
        Some(Plist::Dictionary(entries)) => Some(Plist::Dictionary(entries)),
        _ => None,
    }
}

/// What reading the server's document gives: the response proper, or why
/// there is none.
pub open spec fn parsed_response(body: Seq<u8>) -> Result<Plist, ErrorModel> {
    match plist_dictionary_document(body) {
        Err(words) => Err(ErrorModel::Plist(words)),
        Ok(doc) => match response_of(doc) {
            Some(p) => Ok(p),
            None => Err(ErrorModel::Parse),
        },
    }
}

/// Reads the document that the authentication service sent and takes the
/// dictionary under `Response` out of it.
pub fn parse_response(body: &[u8]) -> (r: Result<PlistValue, Error>)
    ensures
        match r {
            Ok(v) => parsed_response(body@) == Ok::<Plist, ErrorModel>(v@),
            Err(e) => parsed_response(body@) == Err::<Plist, ErrorModel>(e@),
        },
{
    let doc = match PlistValue::parse_dictionary(body) {
        Ok(doc) => doc,
        Err(words) => {
            return Err(Error::Plist(words));
        },
    };
    match doc.get("Response") {
        Some(inner) => {
            proof {
                lemma_view_unfold(*inner);
            }
            match inner {
                PlistValue::Dictionary(_) => Ok(inner.duplicate()),
                _ => Err(Error::Parse),
            }
        },
        None => Err(Error::Parse),
    }
}

/// The status dictionary of a response.
pub fn status<'a>(res: &'a PlistValue) -> (r: &'a PlistValue)
    ensures
        r@ == status_of(res@),
{
    match res.get("Status") {
        Some(inner) => {
            proof {
                lemma_view_unfold(*inner);
            }
            match inner {
                PlistValue::Dictionary(_) => inner,
                _ => res,
            }
        },
        None => res,
    }
}

/// What a response says of the request: nothing where the error code is
/// zero, the server's refusal where it is not. A response without an error
/// code is malformed.
pub open spec fn checked(res: Plist) -> Result<(), ErrorModel> {
    match error_code(res) {
        None => Err(ErrorModel::Parse),
        Some(code) => if code == 0 {
            Ok(())
        } else {
            Err(ErrorModel::AuthSrpWithMessage(code, error_message(res)))
        },
    }
}

/// Whether the server reports an error.
pub fn check_error(res: &PlistValue) -> (r: Result<(), Error>)
    ensures
        match r {
            Ok(_) => checked(res@) is Ok,
            Err(e) => checked(res@) == Err::<(), ErrorModel>(e@),
        },
{
    let st = status(res);
    match st.get_signed("ec") {
        None => Err(Error::Parse),
        Some(code) => {
            if code == 0 {
                Ok(())
            } else {
                let message = match st.get_string("em") {
                    Some(m) => m.clone(),
                    None => String::new(),
                };
                Err(Error::AuthSrpWithMessage(code, message))
            }
        },
    }
}

/// A signed-in account: the session dictionary that the password exchange
/// yielded. It is there as a whole or not at all.
pub struct Account {
    pub spd: Option<PlistValue>,
}

/// The session dictionary of an account, where it has one.
pub open spec fn session_of(account: Account) -> Option<Plist> {
    match account.spd {
        Some(spd) => Some(spd@),
        None => None,
    }
}

/// The string under `key` in the session dictionary.
pub open spec fn session_string(account: Account, key: Seq<char>) -> Option<Seq<char>> {
    match session_of(account) {
        Some(spd) => plist_get_string(spd, key),
        None => None,
    }
}

/// The bytes under `key` in the session dictionary.
pub open spec fn session_data(account: Account, key: Seq<char>) -> Option<Seq<u8>> {
    match session_of(account) {
        Some(spd) => plist_get_data(spd, key),
        None => None,
    }
}

/// The password-equivalent token of the session: the string under `token`
/// in the dictionary under `com.apple.gs.idms.pet` in the dictionary under `t`.
pub open spec fn session_pet(account: Account) -> Option<Seq<char>> {
    match session_of(account) {
        Some(spd) => match plist_get(spd, "t"@) {
            Some(tokens) => match plist_get(tokens, "com.apple.gs.idms.pet"@) {
                Some(pet) => plist_get_string(pet, "token"@),
                None => None,
            },
            None => None,
        },
        None => None,
    }
}

impl Account {
    /// An account that is not signed in.
    pub fn new() -> (r: Account)
        ensures
            r.spd is None,
    {
        Account { spd: None }
    }

    /// An account with the session dictionary of a finished password exchange.
    pub fn with_session(spd: PlistValue) -> (r: Account)
        ensures
            r.spd == Some(spd),
    {
        Account { spd: Some(spd) }
    }

    /// The string under `key` in the session dictionary.
    pub fn session_text(&self, key: &str) -> (r: Option<&String>)
        ensures
            match r {
                Some(s) => session_string(*self, key@) == Some(s@),
                None => session_string(*self, key@) is None,
            },
    {
        match &self.spd {
            Some(spd) => spd.get_string(key),
            None => None,
        }
    }

    /// The bytes under `key` in the session dictionary.
    pub fn session_bytes(&self, key: &str) -> (r: Option<&Vec<u8>>)
        ensures
            match r {
                Some(d) => session_data(*self, key@) == Some(d@),
                None => session_data(*self, key@) is None,
            },
    {
        match &self.spd {
            Some(spd) => spd.get_data(key),
            None => None,
        }
    }

    /// The password-equivalent token, where the session holds one.
    pub fn get_pet(&self) -> (r: Option<String>)
        ensures
            match r {
                Some(s) => session_pet(*self) == Some(s@),
                None => session_pet(*self) is None,
            },
    {
        let spd = match &self.spd {
            Some(spd) => spd,
            None => {
                return None;
            },
        };
        let tokens = match spd.get("t") {
            Some(t) => t,
            None => {
                return None;
            },
        };
        let pet = match tokens.get("com.apple.gs.idms.pet") {
            Some(p) => p,
            None => {
                return None;
            },
        };
        match pet.get_string("token") {
            Some(s) => Some(s.clone()),
            None => None,
        }
    }

    /// The first and the last name of the account's owner, where the session
    /// holds both.
    pub fn get_name(&self) -> (r: Option<(String, String)>)
        ensures
            match r {
                Some((first, last)) => session_string(*self, "fn"@) == Some(first@)
                    && session_string(*self, "ln"@) == Some(last@),
                None => session_string(*self, "fn"@) is None || session_string(*self, "ln"@)
                    is None,
            },
    {
        let first = match self.session_text("fn") {
            Some(s) => s.clone(),
            None => {
                return None;
            },
        };
        match self.session_text("ln") {
            Some(last) => Some((first, last.clone())),
            None => None,
        }
    }
}

} // verus!

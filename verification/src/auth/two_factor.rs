//! The second factor: which step comes next in a login, and which state
//! each answer of the server leads to.
//!
//! The caller drives the login: it looks at the state, asks `next_step` what
//! to do, does it, and hands the answer to the function for that step. A step
//! run on another state than its own is refused.

use vstd::prelude::*;
use crate::auth::check_error;
use crate::auth::request::headers_view;
use crate::auth::request::push_header;
use crate::auth::request::two_factor_header_steps;
use crate::auth::request::Header;
use crate::auth::request::HeaderModel;
use crate::auth::request::HttpMethod;
use crate::auth::Account;
use crate::auth::checked;
use crate::auth::AuthenticationExtras;
use crate::auth::LoginState;
use crate::auth::LoginStateModel;
use crate::auth::PhoneNumber;
use crate::auth::VerifyBody;
use crate::auth::VerifyBodyModel;
use crate::auth::VerifyCode;
use crate::error::Error;
use crate::error::ErrorModel;
use crate::property_list::plist_dictionary_document;
use crate::property_list::PlistValue;
use crate::text::concat;

verus! {

/// What the driver of a login does next.
#[derive(Debug)]
pub enum LoginStep {
    /// Ask the server to push a code to the trusted devices.
    PushToDevices,
    /// Ask the user for the code and have it verified.
    VerifyCode,
    /// Ask the server to send a code by SMS to the telephone with this id.
    SendSms(u32),
    /// Ask the user for the code and have it verified for this telephone.
    VerifySmsCode(VerifyBody),
    /// Run the password exchange again.
    Login,
    /// The login is complete.
    Finished,
    /// The server asks for a step that is not implemented.
    Unsupported(String),
}

/// What a login step means.
pub enum LoginStepModel {
    PushToDevices,
    VerifyCode,
    SendSms(u32),
    VerifySmsCode(VerifyBodyModel),
    Login,
    Finished,
    Unsupported(Seq<char>),
}

impl View for LoginStep {
    type V = LoginStepModel;

    open spec fn view(&self) -> LoginStepModel {
        match self {
            LoginStep::PushToDevices => LoginStepModel::PushToDevices,
            LoginStep::VerifyCode => LoginStepModel::VerifyCode,
            LoginStep::SendSms(id) => LoginStepModel::SendSms(*id),
            LoginStep::VerifySmsCode(body) => LoginStepModel::VerifySmsCode(body@),
            LoginStep::Login => LoginStepModel::Login,
            LoginStep::Finished => LoginStepModel::Finished,
            LoginStep::Unsupported(step) => LoginStepModel::Unsupported(step@),
        }
    }
}

/// The step that a state calls for. The code by SMS goes to the first
/// telephone. An extra step that the server asks for is never passed over:
/// it ends the login as unsupported, whatever the session holds.
pub open spec fn step_for(state: LoginStateModel) -> LoginStepModel {
    match state {
        LoginStateModel::NeedsDevice2FA => LoginStepModel::PushToDevices,
        LoginStateModel::Needs2FAVerification => LoginStepModel::VerifyCode,
        LoginStateModel::NeedsSMS2FA => LoginStepModel::SendSms(1),
        LoginStateModel::NeedsSMS2FAVerification(body) => LoginStepModel::VerifySmsCode(body),
        LoginStateModel::NeedsLogin => LoginStepModel::Login,
        LoginStateModel::LoggedIn => LoginStepModel::Finished,
        LoginStateModel::NeedsExtraStep(step) => LoginStepModel::Unsupported(step),
    }
}

/// A copy of a verify body.
pub fn copy_body(body: &VerifyBody) -> (r: VerifyBody)
    ensures
        r@ == body@,
{
    VerifyBody {
        phone_number: PhoneNumber { id: body.phone_number.id },
        mode: body.mode.clone(),
        security_code: match &body.security_code {
            Some(c) => Some(VerifyCode { code: c.code.clone() }),
            None => None,
        },
    }
}

/// What to do next in the state given.
pub fn next_step(state: &LoginState) -> (r: LoginStep)
    ensures
        r@ == step_for(state@),
{
    match state {
        LoginState::NeedsDevice2FA => LoginStep::PushToDevices,
        LoginState::Needs2FAVerification => LoginStep::VerifyCode,
        LoginState::NeedsSMS2FA => LoginStep::SendSms(1),
        LoginState::NeedsSMS2FAVerification(body) => LoginStep::VerifySmsCode(copy_body(body)),
        LoginState::NeedsLogin => LoginStep::Login,
        LoginState::LoggedIn => LoginStep::Finished,
        LoginState::NeedsExtraStep(step) => LoginStep::Unsupported(step.clone()),
    }
}

/// The error that ends a login on a step that is not implemented.
pub fn unsupported_step(step: String) -> (e: Error)
    ensures
        e@ == ErrorModel::ExtraStep(step@),
{
    Error::ExtraStep(step)
}

/// The words of the error for a step run out of order.
pub open spec fn out_of_order_text() -> Seq<char> {
    "Login step out of order"@
}

/// The error for a step run on another state than its own.
pub fn out_of_order() -> (e: Error)
    ensures
        e@ == ErrorModel::Other(out_of_order_text()),
{
    Error::Other("Login step out of order".to_owned())
}

/// The body that asks for a code by SMS to the telephone with the id given.
pub open spec fn sms_body(phone_id: u32) -> VerifyBodyModel {
    VerifyBodyModel { phone_id, mode: "sms"@, code: None }
}

/// The body that asks for a code by SMS.
pub fn sms_request_body(phone_id: u32) -> (r: VerifyBody)
    ensures
        r@ == sms_body(phone_id),
{
    VerifyBody { phone_number: PhoneNumber { id: phone_id }, mode: "sms".to_owned(), security_code: None }
}

/// The body that has a code verified: the body of the request for the code,
/// with the code filled in.
pub fn sms_verify_body(code: String, body: VerifyBody) -> (r: VerifyBody)
    ensures
        r@ == (VerifyBodyModel { code: Some(code@), ..body@ }),
{
    VerifyBody {
        phone_number: body.phone_number,
        mode: body.mode,
        security_code: Some(VerifyCode { code }),
    }
}

/// The state after the server was asked to push a code to the trusted
/// devices: the code is awaited where the server agreed.
pub open spec fn after_device_push(state: LoginStateModel, success: bool) -> Result<
    LoginStateModel,
    ErrorModel,
> {
    if !(state is NeedsDevice2FA) {
        Err(ErrorModel::Other(out_of_order_text()))
    } else if success {
        Ok(LoginStateModel::Needs2FAVerification)
    } else {
        Err(ErrorModel::AuthSrp)
    }
}

/// The state after the server was asked to send a code by SMS: the code is
/// awaited, for the telephone asked for, where the server agreed.
pub open spec fn after_sms_request(
    state: LoginStateModel,
    success: bool,
    body: VerifyBodyModel,
) -> Result<LoginStateModel, ErrorModel> {
    if !(state is NeedsSMS2FA) {
        Err(ErrorModel::Other(out_of_order_text()))
    } else if success {
        Ok(LoginStateModel::NeedsSMS2FAVerification(body))
    } else {
        Err(ErrorModel::AuthSrp)
    }
}

/// The state after a code from a trusted device was checked: the password
/// exchange is run once more where the server reports no error.
pub open spec fn after_code_check(state: LoginStateModel, response: Seq<u8>) -> Result<
    LoginStateModel,
    ErrorModel,
> {
    if !(state is Needs2FAVerification) {
        Err(ErrorModel::Other(out_of_order_text()))
    } else {
        match plist_dictionary_document(response) {
            Err(words) => Err(ErrorModel::Plist(words)),
            Ok(doc) => match checked(doc) {
                Err(e) => Err(e),
                Ok(_) => Ok(LoginStateModel::NeedsLogin),
            },
        }
    }
}

/// The state after a code sent by SMS was checked: the password exchange is
/// run once more where the server answered with status 200, and the code was
/// wrong otherwise.
pub open spec fn after_sms_code_check(state: LoginStateModel, status: u16) -> Result<
    LoginStateModel,
    ErrorModel,
> {
    if !(state is NeedsSMS2FAVerification) {
        Err(ErrorModel::Other(out_of_order_text()))
    } else if status == 200 {
        Ok(LoginStateModel::NeedsLogin)
    } else {
        Err(ErrorModel::Bad2faCode)
    }
}

/// Takes the answer to a request for a push to the trusted devices.
pub fn device_push_result(state: &LoginState, success: bool) -> (r: Result<LoginState, Error>)
    ensures
        match r {
            Ok(next) => after_device_push(state@, success) == Ok::<LoginStateModel, ErrorModel>(
                next@,
            ),
            Err(e) => after_device_push(state@, success) == Err::<LoginStateModel, ErrorModel>(
                e@,
            ),
        },
{
    match state {
        LoginState::NeedsDevice2FA => {
            if success {
                Ok(LoginState::Needs2FAVerification)
            } else {
                Err(Error::AuthSrp)
            }
        },
        _ => Err(out_of_order()),
    }
}

/// Takes the answer to a request for a code by SMS.
pub fn sms_request_result(state: &LoginState, success: bool, body: VerifyBody) -> (r: Result<
    LoginState,
    Error,
>)
    ensures
        match r {
            Ok(next) => after_sms_request(state@, success, body@) == Ok::<
                LoginStateModel,
                ErrorModel,
            >(next@),
            Err(e) => after_sms_request(state@, success, body@) == Err::<
                LoginStateModel,
                ErrorModel,
            >(e@),
        },
{
    match state {
        LoginState::NeedsSMS2FA => {
            if success {
                Ok(LoginState::NeedsSMS2FAVerification(body))
            } else {
                Err(Error::AuthSrp)
            }
        },
        _ => Err(out_of_order()),
    }
}

/// Takes the answer to the verification of a code from a trusted device.
pub fn code_check_result(state: &LoginState, response: &[u8]) -> (r: Result<LoginState, Error>)
    ensures
        match r {
            Ok(next) => after_code_check(state@, response@) == Ok::<LoginStateModel, ErrorModel>(
                next@,
            ),
            Err(e) => after_code_check(state@, response@) == Err::<LoginStateModel, ErrorModel>(
                e@,
            ),
        },
{
    match state {
        LoginState::Needs2FAVerification => {
            let doc = match PlistValue::parse_dictionary(response) {
                Ok(doc) => doc,
                Err(words) => {
                    return Err(Error::Plist(words));
                },
            };
            match check_error(&doc) {
                Err(e) => Err(e),
                Ok(_) => Ok(LoginState::NeedsLogin),
            }
        },
        _ => Err(out_of_order()),
    }
}

/// Takes the answer to the verification of a code sent by SMS.
pub fn sms_code_check_result(state: &LoginState, status: u16) -> (r: Result<LoginState, Error>)
    ensures
        match r {
            Ok(next) => after_sms_code_check(state@, status) == Ok::<LoginStateModel, ErrorModel>(
                next@,
            ),
            Err(e) => after_sms_code_check(state@, status) == Err::<LoginStateModel, ErrorModel>(
                e@,
            ),
        },
{
    match state {
        LoginState::NeedsSMS2FAVerification(_) => {
            if status == 200 {
                Ok(LoginState::NeedsLogin)
            } else {
                Err(Error::Bad2faCode)
            }
        },
        _ => Err(out_of_order()),
    }
}

/// The state that the server's account of the second factor opens: with
/// status 201 a code has gone out by SMS to the first trusted telephone, and
/// its verification is owed.
pub open spec fn extras_state(status: u16, first_phone: Option<u32>) -> Option<LoginStateModel> {
    match first_phone {
        Some(id) => if status == 201 {
            Some(LoginStateModel::NeedsSMS2FAVerification(sms_body(id)))
        } else {
            None
        },
        None => None,
    }
}

/// The id of the first trusted telephone.
pub open spec fn first_phone(extras: AuthenticationExtras) -> Option<u32> {
    if extras.trusted_phone_numbers@.len() > 0 {
        Some(extras.trusted_phone_numbers@[0].id)
    } else {
        None
    }
}

/// Fills in the state that the server's account of the second factor opens.
/// Everything else stays as the server sent it.
pub fn get_auth_extras(status: u16, extras: AuthenticationExtras) -> (r: AuthenticationExtras)
    ensures
        match r.new_state {
            Some(state) => extras_state(status, first_phone(extras)) == Some(state@),
            None => extras_state(status, first_phone(extras)) is None,
        },
        r.trusted_phone_numbers == extras.trusted_phone_numbers,
        r.recovery_url == extras.recovery_url,
        r.cant_use_phone_number_url == extras.cant_use_phone_number_url,
        r.dont_have_access_url == extras.dont_have_access_url,
        r.recovery_web_url == extras.recovery_web_url,
        r.repair_phone_number_url == extras.repair_phone_number_url,
        r.repair_phone_number_web_url == extras.repair_phone_number_web_url,
{
    let mut extras = extras;
    if status == 201 && extras.trusted_phone_numbers.len() > 0 {
        let id = extras.trusted_phone_numbers[0].id;
        extras.new_state = Some(LoginState::NeedsSMS2FAVerification(sms_request_body(id)));
    } else {
        extras.new_state = None;
    }
    extras
}

/// The error for credentials that the caller could not supply.
pub fn credentials_error(reason: &str) -> (e: Error)
    ensures
        e@ == ErrorModel::AuthSrpWithMessage(
            0,
            "Failed to get Apple ID credentials: "@ + reason@,
        ),
{
    Error::AuthSrpWithMessage(0, concat("Failed to get Apple ID credentials: ", reason))
}

/// The error for a code that the caller could not supply.
pub fn code_error(sms: bool, reason: &str) -> (e: Error)
    ensures
        e@ == ErrorModel::AuthSrpWithMessage(
            0,
            if sms {
                "Failed to get SMS 2FA code: "@ + reason@
            } else {
                "Failed to get 2FA code: "@ + reason@
            },
        ),
{
    if sms {
        Error::AuthSrpWithMessage(0, concat("Failed to get SMS 2FA code: ", reason))
    } else {
        Error::AuthSrpWithMessage(0, concat("Failed to get 2FA code: ", reason))
    }
}

/// Where trusted devices are asked to show a code.
pub const TRUSTED_DEVICE_ENDPOINT: &'static str = "https://gsa.apple.com/auth/verify/trusteddevice";

/// Where a code from a trusted device is checked.
pub const CODE_ENDPOINT: &'static str = "https://gsa.apple.com/grandslam/GsService2/validate";

/// Where a code by SMS is asked for.
pub const SMS_ENDPOINT: &'static str = "https://gsa.apple.com/auth/verify/phone/";

/// Where a code that came by SMS is checked.
pub const SMS_CODE_ENDPOINT: &'static str = "https://gsa.apple.com/auth/verify/phone/securitycode";

/// How the request of a step goes out.
#[derive(Debug)]
pub struct StepRequest {
    pub method: HttpMethod,
    pub url: String,
    pub headers: Vec<Header>,
}

/// What the request of a step means.
pub struct StepRequestModel {
    pub method: HttpMethod,
    pub url: Seq<char>,
    pub headers: Seq<HeaderModel>,
}

impl View for StepRequest {
    type V = StepRequestModel;

    open spec fn view(&self) -> StepRequestModel {
        StepRequestModel { method: self.method, url: self.url@, headers: headers_view(self.headers@) }
    }
}

/// Where a request goes, how, whether it is about SMS, and which headers it
/// carries beside those of every second-factor request.
pub struct StepCall {
    pub method: HttpMethod,
    pub url: Seq<char>,
    pub sms: bool,
    pub extra: Seq<HeaderModel>,
}

/// Where the request of a step goes, how, and with which headers beside
/// those of every second-factor request; none for a step that asks the
/// second-factor service nothing. A code from a trusted device travels in a
/// header of its own; one that came by SMS travels in the body, and the
/// answer to it is asked for as JSON.
pub open spec fn step_call(step: LoginStepModel, code: Seq<char>) -> Option<StepCall> {
    match step {
        LoginStepModel::PushToDevices => Some(
            StepCall {
                method: HttpMethod::Get,
                url: TRUSTED_DEVICE_ENDPOINT@,
                sms: false,
                extra: Seq::empty(),
            },
        ),
        LoginStepModel::VerifyCode => Some(
            StepCall {
                method: HttpMethod::Get,
                url: CODE_ENDPOINT@,
                sms: false,
                extra: seq![crate::auth::request::set("security-code"@, code)],
            },
        ),
        LoginStepModel::SendSms(_) => Some(
            StepCall { method: HttpMethod::Put, url: SMS_ENDPOINT@, sms: true, extra: Seq::empty() },
        ),
        LoginStepModel::VerifySmsCode(_) => Some(
            StepCall {
                method: HttpMethod::Post,
                url: SMS_CODE_ENDPOINT@,
                sms: true,
                extra: seq![crate::auth::request::set("accept"@, "application/json"@)],
            },
        ),
        _ => None,
    }
}

/// The request of a step for an account: the headers of a second-factor
/// request, then those of the step.
pub open spec fn step_request_for(
    account: Account,
    step: LoginStepModel,
    code: Seq<char>,
    anisette: Seq<(String, String)>,
    locale: Seq<char>,
) -> Result<Option<StepRequestModel>, ErrorModel> {
    match step_call(step, code) {
        None => Ok(None),
        Some(call) => match two_factor_header_steps(account, call.sms, anisette, locale) {
            Err(e) => Err(e),
            Ok(headers) => Ok(
                Some(
                    StepRequestModel {
                        method: call.method,
                        url: call.url,
                        headers: headers + call.extra,
                    },
                ),
            ),
        },
    }
}

/// Whether a step needs a code from the user, and if so, whether the code
/// came by SMS.
pub open spec fn code_wanted(step: LoginStepModel) -> Option<bool> {
    match step {
        LoginStepModel::VerifyCode => Some(false),
        LoginStepModel::VerifySmsCode(_) => Some(true),
        _ => None,
    }
}

/// Whether a step needs a code from the user, and if so, whether the code
/// came by SMS.
pub fn wants_code(step: &LoginStep) -> (r: Option<bool>)
    ensures
        r == code_wanted(step@),
{
    match step {
        LoginStep::VerifyCode => Some(false),
        LoginStep::VerifySmsCode(_) => Some(true),
        _ => None,
    }
}

impl Account {
    /// The request that a step sends to the second-factor service, where it
    /// sends one. `code` is what the user typed, for the steps that check a
    /// code.
    pub fn step_request(
        &self,
        step: &LoginStep,
        code: &str,
        anisette: &Vec<(String, String)>,
        locale: &str,
    ) -> (r: Result<Option<StepRequest>, Error>)
        ensures
            match r {
                Ok(Some(request)) => step_request_for(*self, step@, code@, anisette@, locale@)
                    == Ok::<Option<StepRequestModel>, ErrorModel>(Some(request@)),
                Ok(None) => step_request_for(*self, step@, code@, anisette@, locale@) == Ok::<
                    Option<StepRequestModel>,
                    ErrorModel,
                >(None),
                Err(e) => step_request_for(*self, step@, code@, anisette@, locale@) == Err::<
                    Option<StepRequestModel>,
                    ErrorModel,
                >(e@),
            },
    {
        let (method, url, sms) = match step {
            LoginStep::PushToDevices => (HttpMethod::Get, TRUSTED_DEVICE_ENDPOINT, false),
            LoginStep::VerifyCode => (HttpMethod::Get, CODE_ENDPOINT, false),
            LoginStep::SendSms(_) => (HttpMethod::Put, SMS_ENDPOINT, true),
            LoginStep::VerifySmsCode(_) => (HttpMethod::Post, SMS_CODE_ENDPOINT, true),
            _ => {
                return Ok(None);
            },
        };
        let mut headers = match self.build_2fa_headers(sms, anisette, locale) {
            Ok(headers) => headers,
            Err(e) => {
                return Err(e);
            },
        };
        let ghost base = headers_view(headers@);
        match step {
            LoginStep::VerifyCode => {
                push_header(&mut headers, "security-code", code, false);
            },
            LoginStep::VerifySmsCode(_) => {
                push_header(&mut headers, "accept", "application/json", false);
            },
            _ => {
                assert(headers_view(headers@) =~= base + Seq::<HeaderModel>::empty());
            },
        }
        assert(headers_view(headers@) =~= base + step_call(step@, code@)->0.extra);
        Ok(Some(StepRequest { method, url: url.to_owned(), headers }))
    }
}

} // verus!

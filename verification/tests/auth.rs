use cbc::cipher::{block_padding::Pkcs7, BlockEncryptMut, KeyIvInit};
use grand_slam::auth::login::{
    challenge_request, create_session_key, decrypt_cbc, init_request, read_challenge,
    request_header, state_after_password, LoginAttempt,
};
use grand_slam::auth::request::{
    gsa_headers, qh_method, v1_method, Header, HttpMethod, RequestType,
};
use grand_slam::auth::token::{app_token_from, create_checksum};
use grand_slam::auth::two_factor::{
    code_check_result, code_error, credentials_error, device_push_result, get_auth_extras,
    next_step, sms_code_check_result, sms_request_body, sms_request_result, sms_verify_body,
    LoginStep,
};
use grand_slam::auth::{
    check_error, parse_response, Account, AuthenticationExtras, LoginState, TrustedPhoneNumber,
    GSA_ENDPOINT,
};
use grand_slam::error::Error;
use grand_slam::property_list::PlistValue;
use hmac::{Hmac, Mac};
use sha2::{Digest, Sha256};
use srp::client::SrpClient;
use srp::groups::G_2048;
use srp::server::SrpServer;

fn hex(bytes: &[u8]) -> String {
    bytes.iter().map(|b| format!("{:02x}", b)).collect()
}

fn dict(entries: Vec<(&str, PlistValue)>) -> PlistValue {
    PlistValue::dictionary(entries.into_iter().map(|(k, v)| (k.to_string(), v)).collect())
}

fn status(ec: i64, em: &str) -> PlistValue {
    dict(vec![("ec", PlistValue::Integer(ec)), ("em", PlistValue::text(em))])
}

fn wrap(response: PlistValue) -> Vec<u8> {
    dict(vec![("Response", response)]).to_xml().expect("writes")
}

fn cpd() -> PlistValue {
    dict(vec![("X-Apple-I-Client-Time", PlistValue::text("2024-01-01T00:00:00Z"))])
}

fn hmac_sha256(key: &[u8], message: &[u8]) -> Vec<u8> {
    let mut mac = Hmac::<Sha256>::new_from_slice(key).expect("any key");
    mac.update(message);
    mac.finalize().into_bytes().to_vec()
}

fn encrypt_payload(shared: &[u8], plain: &[u8]) -> Vec<u8> {
    let key = hmac_sha256(shared, b"extra data key:");
    let iv = hmac_sha256(shared, b"extra data iv:");
    cbc::Encryptor::<aes::Aes256>::new_from_slices(&key, &iv[..16])
        .expect("key and vector")
        .encrypt_padded_vec_mut::<Pkcs7>(plain)
}

struct Server {
    username: String,
    password: String,
    salt: Vec<u8>,
    iterations: u32,
    b: Vec<u8>,
}

impl Server {
    fn password_key(&self) -> Vec<u8> {
        let hashed = Sha256::digest(self.password.as_bytes());
        let mut out = [0u8; 32];
        pbkdf2::pbkdf2::<Hmac<Sha256>>(&hashed, &self.salt, self.iterations, &mut out).expect("key");
        out.to_vec()
    }

    fn password_verifier(&self) -> Vec<u8> {
        SrpClient::<Sha256>::new(&G_2048).compute_verifier(
            self.username.as_bytes(),
            &self.password_key(),
            &self.salt,
        )
    }

    fn init_response(&self) -> PlistValue {
        let b_pub = SrpServer::<Sha256>::new(&G_2048).compute_public_ephemeral(&self.b, &self.password_verifier());
        dict(vec![
            ("Status", status(0, "")),
            ("s", PlistValue::data(self.salt.clone())),
            ("B", PlistValue::data(b_pub)),
            ("i", PlistValue::Integer(self.iterations as i64)),
            ("c", PlistValue::text("cookie-1")),
        ])
    }

    fn complete_response(&self, a_pub: &[u8], m1: &[u8], session: &PlistValue) -> PlistValue {
        let server = SrpServer::<Sha256>::new(&G_2048);
        let checked = server.process_reply(&self.b, &self.password_verifier(), a_pub).expect("a fine A");
        checked.verify_client(m1).expect("the client's proof is the reference one");
        let spd = encrypt_payload(checked.key(), &session.to_xml().expect("writes"));
        dict(vec![
            ("Status", status(0, "")),
            ("M2", PlistValue::data(checked.proof().to_vec())),
            ("spd", PlistValue::data(spd)),
        ])
    }
}

fn server(iterations: u32) -> Server {
    Server {
        username: "user@example.com".to_string(),
        password: "correct horse".to_string(),
        salt: (0u8..16).collect(),
        iterations,
        b: (100u8..132).collect(),
    }
}

fn session(marker: Option<&str>) -> PlistValue {
    let mut entries = vec![
        ("adsid", PlistValue::text("000123-45")),
        ("GsIdmsToken", PlistValue::text("idms-token")),
        ("fn", PlistValue::text("Ada")),
        ("ln", PlistValue::text("Lovelace")),
        ("sk", PlistValue::data(vec![7u8; 32])),
        ("c", PlistValue::data(vec![1, 2, 3])),
    ];
    if let Some(m) = marker {
        entries.push(("Status", dict(vec![("au", PlistValue::text(m))])));
    }
    dict(entries)
}

fn run_password_exchange(server: &Server, password: &str, session_plain: &PlistValue) -> Result<(LoginState, PlistValue), Error> {
    let attempt = LoginAttempt::new(server.username.clone(), password.to_string());
    assert_eq!(attempt.secret.len(), 32);
    let first = attempt.init_packet(cpd())?;
    let sent = PlistValue::parse_dictionary(&first).expect("a property list");
    let request = sent.get("Request").expect("a request");
    assert_eq!(request.get_string("o").map(|s| s.as_str()), Some("init"));
    assert_eq!(request.get_string("u").map(|s| s.as_str()), Some(server.username.as_str()));
    let a_pub = request.get_data("A2k").expect("A").clone();
    let init = parse_response(&wrap(server.init_response()))?;
    let (second, exchange) = attempt.challenge(&init, cpd())?;
    let sent = PlistValue::parse_dictionary(&second).expect("a property list");
    let request = sent.get("Request").expect("a request");
    assert_eq!(request.get_string("o").map(|s| s.as_str()), Some("complete"));
    assert_eq!(request.get_string("c").map(|s| s.as_str()), Some("cookie-1"));
    let m1 = request.get_data("M1").expect("M1").clone();
    assert_eq!(m1, exchange.proof);
    let reference = SrpServer::<Sha256>::new(&G_2048)
        .process_reply(&server.b, &server.password_verifier(), &a_pub)
        .expect("a fine A");
    if reference.verify_client(&m1).is_err() {
        return Err(Error::AuthSrp);
    }
    assert_eq!(reference.key(), exchange.shared_key.as_slice());
    let complete = parse_response(&wrap(server.complete_response(&a_pub, &m1, session_plain)))?;
    attempt.finish(&exchange, &complete)
}

#[test]
fn endpoint_is_the_authentication_service() {
    assert_eq!(GSA_ENDPOINT, "https://gsa.apple.com/grandslam/GsService2");
}

#[test]
fn login_without_second_factor_is_logged_in() {
    for iterations in [1u32, 2, 1000] {
        let (state, spd) = run_password_exchange(&server(iterations), "correct horse", &session(None)).expect("logs in");
        assert!(matches!(state, LoginState::LoggedIn));
        let account = Account::with_session(spd);
        let (first, last) = account.get_name().expect("a name");
        assert_eq!(first, "Ada");
        assert_eq!(last, "Lovelace");
        assert!(!first.is_empty());
    }
}

#[test]
fn client_proof_is_the_reference_proof_for_a_fixed_secret() {
    let s = server(50);
    let attempt = LoginAttempt {
        username: s.username.clone(),
        password: s.password.clone(),
        secret: (1u8..33).collect(),
    };
    let (_, exchange) = attempt.challenge(&s.init_response(), cpd()).expect("a challenge");
    let client = SrpClient::<Sha256>::new(&G_2048);
    let b_pub = SrpServer::<Sha256>::new(&G_2048).compute_public_ephemeral(&s.b, &s.password_verifier());
    let reference = client
        .process_reply(&attempt.secret, s.username.as_bytes(), &s.password_key(), &s.salt, &b_pub)
        .expect("a verifier");
    assert_eq!(exchange.proof, reference.proof().to_vec());
    assert_eq!(exchange.shared_key, reference.key().to_vec());
    assert_ne!(exchange.proof, attempt.secret);
    let first = attempt.init_packet(cpd()).expect("a packet");
    let sent = PlistValue::parse_dictionary(&first).expect("a property list");
    let a_pub = sent.get("Request").and_then(|r| r.get_data("A2k")).expect("A").clone();
    assert_eq!(a_pub, client.compute_public_ephemeral(&attempt.secret));
    assert_eq!(a_pub.len(), 256);
    assert_eq!(exchange.challenge.iterations, 50);
    assert_eq!(exchange.challenge.cookie, "cookie-1");
}

#[test]
fn wrong_password_is_refused_by_the_reference_server() {
    let r = run_password_exchange(&server(10), "wrong horse", &session(None));
    assert!(matches!(r, Err(Error::AuthSrp)));
}

#[test]
fn wrong_server_proof_is_refused() {
    let s = server(10);
    let attempt = LoginAttempt::new(s.username.clone(), s.password.clone());
    let first = attempt.init_packet(cpd()).expect("a packet");
    let sent = PlistValue::parse_dictionary(&first).expect("a property list");
    let a_pub = sent.get("Request").and_then(|r| r.get_data("A2k")).expect("A").clone();
    let (_, exchange) = attempt.challenge(&s.init_response(), cpd()).expect("a challenge");
    let good = s.complete_response(&a_pub, &exchange.proof, &session(None));
    let spd = good.get_data("spd").expect("spd").clone();
    let mut m2 = good.get_data("M2").expect("M2").clone();
    m2[0] ^= 1;
    let bad = dict(vec![("Status", status(0, "")), ("M2", PlistValue::data(m2)), ("spd", PlistValue::data(spd.clone()))]);
    assert!(matches!(attempt.finish(&exchange, &bad), Err(Error::AuthSrp)));
    let no_proof = dict(vec![("Status", status(0, "")), ("spd", PlistValue::data(spd))]);
    assert!(matches!(attempt.finish(&exchange, &no_proof), Err(Error::Parse)));
    let m2 = good.get_data("M2").expect("M2").clone();
    let no_payload = dict(vec![("Status", status(0, "")), ("M2", PlistValue::data(m2.clone()))]);
    assert!(matches!(attempt.finish(&exchange, &no_payload), Err(Error::Parse)));
    let broken_payload = dict(vec![
        ("Status", status(0, "")),
        ("M2", PlistValue::data(m2)),
        ("spd", PlistValue::data(vec![1, 2, 3])),
    ]);
    assert!(matches!(attempt.finish(&exchange, &broken_payload), Err(Error::Parse)));
    assert!(attempt.finish(&exchange, &good).is_ok());
}

#[test]
fn server_refusal_carries_code_and_message() {
    let s = server(10);
    let attempt = LoginAttempt::new(s.username.clone(), s.password.clone());
    let refused = dict(vec![("Status", status(-20101, "Your Apple ID or password was incorrect."))]);
    match attempt.challenge(&refused, cpd()) {
        Err(Error::AuthSrpWithMessage(code, message)) => {
            assert_eq!(code, -20101);
            assert_eq!(message, "Your Apple ID or password was incorrect.");
        }
        other => panic!("unexpected {:?}", other.map(|_| ())),
    }
}

#[test]
fn malformed_challenge_is_a_parse_error() {
    let s = server(10);
    let attempt = LoginAttempt::new(s.username.clone(), s.password.clone());
    let good = s.init_response();
    assert!(read_challenge(&good).is_some());
    for missing in ["s", "B", "i", "c"] {
        let entries: Vec<(String, PlistValue)> = good
            .as_dictionary()
            .expect("a dictionary")
            .iter()
            .filter(|(k, _)| k != missing)
            .map(|(k, v)| (k.clone(), v.clone()))
            .collect();
        let partial = PlistValue::dictionary(entries);
        assert!(read_challenge(&partial).is_none());
        assert!(matches!(attempt.challenge(&partial, cpd()), Err(Error::Parse)));
    }
    let negative = good.clone().insert("i".to_string(), PlistValue::Integer(-1));
    assert!(read_challenge(&negative).is_none());
    let huge = good.clone().insert("i".to_string(), PlistValue::Integer(4294967296));
    assert!(read_challenge(&huge).is_none());
    let most = good.clone().insert("i".to_string(), PlistValue::Integer(4294967295));
    assert_eq!(read_challenge(&most).map(|c| c.iterations), Some(4294967295));
    let zero_b = good.insert("B".to_string(), PlistValue::data(vec![0]));
    assert!(matches!(attempt.challenge(&zero_b, cpd()), Err(Error::AuthSrp)));
}

#[test]
fn payload_round_trip() {
    for (shared, plain) in [
        (vec![1u8; 256], b"hello session".to_vec()),
        (vec![9u8, 8, 7], Vec::new()),
        ((0u8..=255).collect::<Vec<u8>>(), vec![0u8; 16]),
        (b"k".to_vec(), session(None).to_xml().expect("writes")),
    ] {
        let encrypted = encrypt_payload(&shared, &plain);
        assert_ne!(encrypted, plain);
        assert_eq!(decrypt_cbc(&shared, &encrypted), Some(plain));
    }
    assert_eq!(decrypt_cbc(b"k", &[1, 2, 3]), None);
    let other = encrypt_payload(b"other key", b"some text that is long enough");
    assert_ne!(decrypt_cbc(b"k", &other), Some(b"some text that is long enough".to_vec()));
}

#[test]
fn session_keys_are_hmac_sha256() {
    let tag = create_session_key(b"Jefe", "what do ya want for nothing?");
    assert_eq!(hex(&tag), "5bdcc146bf60754e6a042426089575c75a003f089d2739839dec58b964ec3843");
    assert_eq!(create_session_key(b"k", "extra data key:"), hmac_sha256(b"k", b"extra data key:"));
}

#[test]
fn packets_have_the_documented_shape() {
    let header = request_header();
    assert_eq!(header.get_string("Version").map(|s| s.as_str()), Some("1.0.1"));
    let init = init_request("u", vec![1, 2], cpd());
    let request = init.get("Request").expect("a request");
    let keys: Vec<&str> = request.as_dictionary().expect("a dictionary").iter().map(|(k, _)| k.as_str()).collect();
    assert_eq!(keys, vec!["A2k", "cpd", "o", "ps", "u"]);
    let ps = request.get("ps").and_then(|p| p.as_array()).expect("an array");
    assert_eq!(ps.len(), 2);
    assert_eq!(ps[0].as_string().map(|s| s.as_str()), Some("s2k"));
    assert_eq!(ps[1].as_string().map(|s| s.as_str()), Some("s2k_fo"));
    assert_eq!(init.get("Header").and_then(|h| h.get_string("Version")).map(|s| s.as_str()), Some("1.0.1"));
    let challenge = challenge_request("u", vec![3], "cookie", cpd());
    let request = challenge.get("Request").expect("a request");
    let keys: Vec<&str> = request.as_dictionary().expect("a dictionary").iter().map(|(k, _)| k.as_str()).collect();
    assert_eq!(keys, vec!["M1", "cpd", "c", "o", "u"]);
    assert_eq!(request.get_data("M1").cloned(), Some(vec![3u8]));
}

#[test]
fn responses_are_unwrapped_and_checked() {
    let ok = parse_response(&wrap(status(0, ""))).expect("a response");
    assert!(check_error(&ok).is_ok());
    let nested = dict(vec![("Status", status(0, "fine"))]);
    assert!(check_error(&nested).is_ok());
    let refused = dict(vec![("Status", status(-22406, "Unable to sign you in."))]);
    assert!(matches!(check_error(&refused), Err(Error::AuthSrpWithMessage(-22406, m)) if m == "Unable to sign you in."));
    let flat = status(5, "flat");
    assert!(matches!(check_error(&flat), Err(Error::AuthSrpWithMessage(5, m)) if m == "flat"));
    let wordless = dict(vec![("ec", PlistValue::Integer(9))]);
    assert!(matches!(check_error(&wordless), Err(Error::AuthSrpWithMessage(9, m)) if m.is_empty()));
    let codeless = dict(vec![("em", PlistValue::text("x"))]);
    assert!(matches!(check_error(&codeless), Err(Error::Parse)));
    let status_is_text = dict(vec![("Status", PlistValue::text("odd")), ("ec", PlistValue::Integer(0))]);
    assert!(check_error(&status_is_text).is_ok());
    assert!(matches!(parse_response(b"garbage"), Err(Error::Plist(_))));
    let no_response = dict(vec![("Other", status(0, ""))]).to_xml().expect("writes");
    assert!(matches!(parse_response(&no_response), Err(Error::Parse)));
    let text_response = dict(vec![("Response", PlistValue::text("x"))]).to_xml().expect("writes");
    assert!(matches!(parse_response(&text_response), Err(Error::Parse)));
}

#[test]
fn secondary_marker_decides_the_state() {
    assert!(matches!(state_after_password(&session(None)), LoginState::LoggedIn));
    assert!(matches!(state_after_password(&session(Some(""))), LoginState::LoggedIn));
    assert!(matches!(
        state_after_password(&session(Some("trustedDeviceSecondaryAuth"))),
        LoginState::NeedsDevice2FA
    ));
    assert!(matches!(state_after_password(&session(Some("secondaryAuth"))), LoginState::NeedsSMS2FA));
    assert!(matches!(
        state_after_password(&session(Some("repair"))),
        LoginState::NeedsExtraStep(s) if s == "repair"
    ));
    let flat = dict(vec![("au", PlistValue::text("secondaryAuth"))]);
    assert!(matches!(state_after_password(&flat), LoginState::NeedsSMS2FA));
}

#[test]
fn login_with_sms_second_factor_runs_to_the_end() {
    let s = server(20);
    let (mut state, _) = run_password_exchange(&s, "correct horse", &session(Some("secondaryAuth"))).expect("password accepted");
    assert!(matches!(state, LoginState::NeedsSMS2FA));
    let mut steps = Vec::new();
    let mut account = Account::new();
    for _ in 0..10 {
        let step = next_step(&state);
        steps.push(format!("{:?}", step));
        state = match step {
            LoginStep::SendSms(phone) => {
                assert_eq!(phone, 1);
                let body = sms_request_body(phone);
                sms_request_result(&state, true, body).expect("sent")
            }
            LoginStep::VerifySmsCode(body) => {
                assert!(matches!(state, LoginState::NeedsSMS2FAVerification(_)));
                let filled = sms_verify_body("123456".to_string(), body);
                assert_eq!(filled.security_code.as_ref().map(|c| c.code.as_str()), Some("123456"));
                assert_eq!(filled.mode, "sms");
                assert_eq!(filled.phone_number.id, 1);
                let next = sms_code_check_result(&state, 200).expect("the right code");
                assert!(matches!(next, LoginState::NeedsLogin));
                next
            }
            LoginStep::Login => {
                let (next, spd) = run_password_exchange(&s, "correct horse", &session(None)).expect("logs in");
                account = Account::with_session(spd);
                next
            }
            LoginStep::Finished => break,
            other => panic!("unexpected step {:?}", other),
        };
    }
    assert!(matches!(state, LoginState::LoggedIn));
    assert_eq!(steps.len(), 4);
    assert!(steps[0].starts_with("SendSms"));
    assert!(steps[1].starts_with("VerifySmsCode"));
    assert_eq!(steps[2], "Login");
    assert_eq!(steps[3], "Finished");
    assert_eq!(account.get_name().map(|n| n.0), Some("Ada".to_string()));
}

#[test]
fn device_second_factor_transitions() {
    let state = LoginState::NeedsDevice2FA;
    assert!(matches!(next_step(&state), LoginStep::PushToDevices));
    let waiting = device_push_result(&state, true).expect("pushed");
    assert!(matches!(waiting, LoginState::Needs2FAVerification));
    assert!(matches!(device_push_result(&state, false), Err(Error::AuthSrp)));
    assert!(matches!(next_step(&waiting), LoginStep::VerifyCode));
    let fine = status(0, "").to_xml().expect("writes");
    assert!(matches!(code_check_result(&waiting, &fine), Ok(LoginState::NeedsLogin)));
    let wrong = status(-21669, "Incorrect verification code").to_xml().expect("writes");
    assert!(matches!(
        code_check_result(&waiting, &wrong),
        Err(Error::AuthSrpWithMessage(-21669, m)) if m == "Incorrect verification code"
    ));
    assert!(matches!(code_check_result(&waiting, b"garbage"), Err(Error::Plist(_))));
    assert!(matches!(next_step(&LoginState::NeedsLogin), LoginStep::Login));
    assert!(matches!(next_step(&LoginState::LoggedIn), LoginStep::Finished));
}

#[test]
fn sms_second_factor_transitions() {
    let state = LoginState::NeedsSMS2FA;
    let body = sms_request_body(3);
    assert_eq!(body.phone_number.id, 3);
    assert_eq!(body.mode, "sms");
    assert!(body.security_code.is_none());
    assert!(matches!(sms_request_result(&state, false, sms_request_body(3)), Err(Error::AuthSrp)));
    let waiting = sms_request_result(&state, true, body).expect("sent");
    assert!(matches!(&waiting, LoginState::NeedsSMS2FAVerification(b) if b.phone_number.id == 3));
    assert!(matches!(sms_code_check_result(&waiting, 401), Err(Error::Bad2faCode)));
    assert!(matches!(sms_code_check_result(&waiting, 201), Err(Error::Bad2faCode)));
    assert!(matches!(sms_code_check_result(&waiting, 200), Ok(LoginState::NeedsLogin)));
}

#[test]
fn steps_out_of_order_are_refused() {
    let message = "Login step out of order";
    assert!(matches!(device_push_result(&LoginState::LoggedIn, true), Err(Error::Other(m)) if m == message));
    assert!(matches!(
        sms_request_result(&LoginState::NeedsDevice2FA, true, sms_request_body(1)),
        Err(Error::Other(m)) if m == message
    ));
    assert!(matches!(code_check_result(&LoginState::NeedsSMS2FA, b""), Err(Error::Other(m)) if m == message));
    assert!(matches!(sms_code_check_result(&LoginState::NeedsLogin, 200), Err(Error::Other(m)) if m == message));
}

#[test]
fn extra_step_is_never_passed_over() {
    let state = LoginState::NeedsExtraStep("repair".to_string());
    assert!(matches!(next_step(&state), LoginStep::Unsupported(s) if s == "repair"));
    assert!(!matches!(next_step(&state), LoginStep::Finished));
    let e = grand_slam::auth::two_factor::unsupported_step("repair".to_string());
    assert_eq!(e.message(), "Authentication extra step required: repair");
}

#[test]
fn closure_failures_become_authentication_errors() {
    assert_eq!(
        credentials_error("cancelled").message(),
        "Authentication SRP error 0: Failed to get Apple ID credentials: cancelled"
    );
    assert_eq!(code_error(false, "closed").message(), "Authentication SRP error 0: Failed to get 2FA code: closed");
    assert_eq!(code_error(true, "closed").message(), "Authentication SRP error 0: Failed to get SMS 2FA code: closed");
}

fn extras(phones: Vec<u32>) -> AuthenticationExtras {
    AuthenticationExtras {
        trusted_phone_numbers: phones
            .into_iter()
            .map(|id| TrustedPhoneNumber {
                number_with_dial_code: "+1 ••• ••• ••42".to_string(),
                last_two_digits: "42".to_string(),
                push_mode: "sms".to_string(),
                id,
            })
            .collect(),
        recovery_url: Some("r".to_string()),
        cant_use_phone_number_url: None,
        dont_have_access_url: None,
        recovery_web_url: None,
        repair_phone_number_url: None,
        repair_phone_number_web_url: None,
        new_state: None,
    }
}

#[test]
fn authentication_extras_open_the_sms_state_on_201() {
    let opened = get_auth_extras(201, extras(vec![5, 6]));
    assert!(matches!(opened.new_state, Some(LoginState::NeedsSMS2FAVerification(b)) if b.phone_number.id == 5 && b.mode == "sms"));
    assert_eq!(opened.trusted_phone_numbers.len(), 2);
    assert_eq!(opened.recovery_url.as_deref(), Some("r"));
    assert!(get_auth_extras(200, extras(vec![5])).new_state.is_none());
    assert!(get_auth_extras(201, extras(vec![])).new_state.is_none());
}

fn account() -> Account {
    Account::with_session(session(None))
}

fn pairs(headers: &[Header]) -> Vec<(String, String, bool)> {
    headers.iter().map(|h| (h.name.clone(), h.value.clone(), h.append)).collect()
}

#[test]
fn authentication_headers() {
    let headers = gsa_headers("<MacBookPro18,3>");
    assert_eq!(
        pairs(&headers),
        vec![
            ("Content-Type".to_string(), "text/x-xml-plist".to_string(), false),
            ("Accept".to_string(), "*/*".to_string(), false),
            ("User-Agent".to_string(), "akd/1.0 CFNetwork/978.0.7 Darwin/18.7.0".to_string(), false),
            ("X-MMe-Client-Info".to_string(), "<MacBookPro18,3>".to_string(), false),
        ]
    );
}

#[test]
fn second_factor_headers() {
    let anisette = vec![("X-Apple-I-MD".to_string(), "md".to_string())];
    let plist = account().build_2fa_headers(false, &anisette, "en_US").expect("headers");
    assert_eq!(
        pairs(&plist),
        vec![
            ("X-Apple-I-MD".to_string(), "md".to_string(), true),
            ("Content-Type".to_string(), "text/x-xml-plist".to_string(), false),
            ("Accept".to_string(), "text/x-xml-plist".to_string(), false),
            ("User-Agent".to_string(), "Xcode".to_string(), false),
            ("Accept-Language".to_string(), "en-us".to_string(), false),
            ("X-Apple-Identity-Token".to_string(), "MDAwMTIzLTQ1OmlkbXMtdG9rZW4=".to_string(), true),
            ("Loc".to_string(), "en_US".to_string(), false),
        ]
    );
    let sms = account().build_2fa_headers(true, &anisette, "en_US").expect("headers");
    assert_eq!(sms.len(), 5);
    assert!(sms.iter().all(|h| h.name != "Content-Type" && h.name != "Accept"));
    assert!(matches!(Account::new().build_2fa_headers(true, &anisette, "en_US"), Err(Error::Parse)));
}

#[test]
fn portal_headers() {
    let anisette = vec![("X-Apple-I-MD".to_string(), "md".to_string()), ("X-Mme-Device-Id".to_string(), "dev".to_string())];
    let qh = account().qh_headers("app-token", &anisette, Some("en_US")).expect("headers");
    assert_eq!(
        pairs(&qh),
        vec![
            ("Content-Type".to_string(), "text/x-xml-plist".to_string(), false),
            ("Accept".to_string(), "text/x-xml-plist".to_string(), false),
            ("Accept-Language".to_string(), "en-us".to_string(), false),
            ("User-Agent".to_string(), "Xcode".to_string(), false),
            ("X-Apple-I-Identity-Id".to_string(), "000123-45".to_string(), false),
            ("X-Apple-GS-Token".to_string(), "app-token".to_string(), false),
            ("X-Apple-I-MD".to_string(), "md".to_string(), false),
            ("X-Mme-Device-Id".to_string(), "dev".to_string(), false),
            ("X-Apple-Locale".to_string(), "en_US".to_string(), false),
        ]
    );
    let v1 = account().v1_headers("app-token", &anisette, None, Some(RequestType::Get)).expect("headers");
    let names: Vec<&str> = v1.iter().map(|h| h.name.as_str()).collect();
    assert_eq!(
        names,
        vec![
            "Content-Type",
            "Accept",
            "Accept-Language",
            "User-Agent",
            "X-Requested-With",
            "X-Apple-I-Identity-Id",
            "X-Apple-GS-Token",
            "X-Apple-I-MD",
            "X-Mme-Device-Id",
            "X-HTTP-Method-Override",
        ]
    );
    assert_eq!(v1[0].value, "application/vnd.api+json");
    assert_eq!(v1[1].value, "application/json, text/plain, */*");
    assert_eq!(v1[9].value, "GET");
    let post = account().v1_headers("t", &anisette, None, Some(RequestType::Post)).expect("headers");
    assert!(post.iter().all(|h| h.name != "X-HTTP-Method-Override"));
    assert!(matches!(Account::new().qh_headers("t", &anisette, None), Err(Error::Parse)));
    assert!(matches!(Account::new().v1_headers("t", &anisette, None, None), Err(Error::Parse)));
}

#[test]
fn request_methods() {
    assert_eq!(qh_method(true), HttpMethod::Post);
    assert_eq!(qh_method(false), HttpMethod::Get);
    assert_eq!(v1_method(Some(RequestType::Post), true), HttpMethod::Post);
    assert_eq!(v1_method(Some(RequestType::Patch), true), HttpMethod::Patch);
    assert_eq!(v1_method(Some(RequestType::Get), true), HttpMethod::Post);
    assert_eq!(v1_method(None, true), HttpMethod::Post);
    assert_eq!(v1_method(Some(RequestType::Patch), false), HttpMethod::Get);
    assert_eq!(v1_method(None, false), HttpMethod::Get);
}

#[test]
fn session_accessors() {
    let with_pet = dict(vec![(
        "t",
        dict(vec![("com.apple.gs.idms.pet", dict(vec![("token", PlistValue::text("pet-token"))]))]),
    )]);
    assert_eq!(Account::with_session(with_pet).get_pet().as_deref(), Some("pet-token"));
    assert_eq!(account().get_pet(), None);
    assert_eq!(Account::new().get_pet(), None);
    assert_eq!(Account::new().get_name(), None);
    assert_eq!(account().session_text("adsid").map(|s| s.as_str()), Some("000123-45"));
    assert_eq!(account().session_bytes("c").cloned(), Some(vec![1u8, 2, 3]));
    assert!(account().session_text("sk").is_none());
}

#[test]
fn token_request_carries_the_checksum() {
    let packet = account().app_token_request("com.apple.gs.xcode.auth", cpd()).expect("a packet");
    let sent = PlistValue::parse_dictionary(&packet).expect("a property list");
    let request = sent.get("Request").expect("a request");
    let keys: Vec<&str> = request.as_dictionary().expect("a dictionary").iter().map(|(k, _)| k.as_str()).collect();
    assert_eq!(keys, vec!["app", "c", "cpd", "o", "t", "u", "checksum"]);
    assert_eq!(request.get_string("o").map(|s| s.as_str()), Some("apptokens"));
    assert_eq!(request.get_string("t").map(|s| s.as_str()), Some("idms-token"));
    assert_eq!(request.get_string("u").map(|s| s.as_str()), Some("000123-45"));
    assert_eq!(request.get_data("c").cloned(), Some(vec![1u8, 2, 3]));
    let apps = request.get("app").and_then(|a| a.as_array()).expect("an array");
    assert_eq!(apps.len(), 1);
    assert_eq!(apps[0].as_string().map(|s| s.as_str()), Some("com.apple.gs.xcode.auth"));
    let expected = hmac_sha256(&[7u8; 32], b"apptokens000123-45com.apple.gs.xcode.auth");
    assert_eq!(request.get_data("checksum").cloned(), Some(expected.clone()));
    assert_eq!(create_checksum(&[7u8; 32], "000123-45", "com.apple.gs.xcode.auth"), expected);
    assert!(matches!(Account::new().app_token_request("x", cpd()), Err(Error::Parse)));
}

#[test]
fn encrypted_token_is_taken_apart() {
    let mut et = b"XYZ".to_vec();
    et.extend((0u8..16).collect::<Vec<u8>>());
    et.extend(vec![0xaau8; 20]);
    let res = dict(vec![("Status", status(0, "")), ("et", PlistValue::data(et.clone()))]);
    let token = account().encrypted_app_token(&res).expect("framed");
    assert_eq!(token.key, vec![7u8; 32]);
    assert_eq!(token.associated_data, b"XYZ".to_vec());
    assert_eq!(token.iv, (0u8..16).collect::<Vec<u8>>());
    assert_eq!(token.ciphertext_and_tag, vec![0xaau8; 20]);
    let short = dict(vec![("Status", status(0, "")), ("et", PlistValue::data(et[..34].to_vec()))]);
    assert!(matches!(account().encrypted_app_token(&short), Err(Error::Parse)));
    let least = dict(vec![("Status", status(0, "")), ("et", PlistValue::data(et[..35].to_vec()))]);
    assert_eq!(account().encrypted_app_token(&least).map(|t| t.ciphertext_and_tag.len()).ok(), Some(16));
    let mut other = et.clone();
    other[0] = b'A';
    let unknown = dict(vec![("Status", status(0, "")), ("et", PlistValue::data(other))]);
    assert!(matches!(
        account().encrypted_app_token(&unknown),
        Err(Error::AuthSrpWithMessage(0, m)) if m == "Encrypted token is in an unknown format."
    ));
    let missing = dict(vec![("Status", status(0, ""))]);
    assert!(matches!(account().encrypted_app_token(&missing), Err(Error::Parse)));
    let refused = dict(vec![("Status", status(-1, "no")), ("et", PlistValue::data(et.clone()))]);
    assert!(matches!(account().encrypted_app_token(&refused), Err(Error::AuthSrpWithMessage(-1, _))));
    let short_key = Account::with_session(session(None).insert("sk".to_string(), PlistValue::data(vec![1; 16])));
    let res = dict(vec![("Status", status(0, "")), ("et", PlistValue::data(et))]);
    assert!(matches!(short_key.encrypted_app_token(&res), Err(Error::Parse)));
}

#[test]
fn token_is_read_from_the_decrypted_document() {
    let plain = dict(vec![(
        "t",
        dict(vec![
            ("com.apple.gs.other", dict(vec![("token", PlistValue::text("other"))])),
            ("com.apple.gs.xcode.auth", dict(vec![("token", PlistValue::text("the-token")), ("duration", PlistValue::Integer(300))])),
        ]),
    )])
    .to_xml()
    .expect("writes");
    let token = app_token_from(Some(&plain), "com.apple.gs.xcode.auth").expect("a token");
    assert_eq!(token.auth_token, "the-token");
    assert_eq!(token.app, "com.apple.gs.xcode.auth");
    assert_eq!(token.app_tokens.as_dictionary().map(|d| d.len()), Some(2));
    assert!(matches!(app_token_from(Some(&plain), "com.apple.gs.missing"), Err(Error::Parse)));
    assert!(matches!(app_token_from(Some(b"garbage"), "x"), Err(Error::Parse)));
    assert!(matches!(
        app_token_from(None, "x"),
        Err(Error::AuthSrpWithMessage(0, m)) if m == "Failed to decrypt app token (Botan AES-256/GCM)."
    ));
    let tokenless = dict(vec![("t", dict(vec![("x", dict(vec![("other", PlistValue::text("o"))]))]))]).to_xml().expect("writes");
    assert!(matches!(app_token_from(Some(&tokenless), "x"), Err(Error::Parse)));
}

#[test]
fn each_step_names_its_request() {
    let anisette = vec![("X-Apple-I-MD".to_string(), "md".to_string())];
    let base = account().build_2fa_headers(false, &anisette, "en_US").expect("headers");
    let sms = account().build_2fa_headers(true, &anisette, "en_US").expect("headers");
    let push = account().step_request(&LoginStep::PushToDevices, "", &anisette, "en_US").expect("ok").expect("a request");
    assert_eq!(push.method, HttpMethod::Get);
    assert_eq!(push.url, "https://gsa.apple.com/auth/verify/trusteddevice");
    assert_eq!(pairs(&push.headers), pairs(&base));
    let check = account().step_request(&LoginStep::VerifyCode, "123456", &anisette, "en_US").expect("ok").expect("a request");
    assert_eq!(check.method, HttpMethod::Get);
    assert_eq!(check.url, "https://gsa.apple.com/grandslam/GsService2/validate");
    let mut wanted = pairs(&base);
    wanted.push(("security-code".to_string(), "123456".to_string(), false));
    assert_eq!(pairs(&check.headers), wanted);
    let ask = account().step_request(&LoginStep::SendSms(1), "", &anisette, "en_US").expect("ok").expect("a request");
    assert_eq!(ask.method, HttpMethod::Put);
    assert_eq!(ask.url, "https://gsa.apple.com/auth/verify/phone/");
    assert_eq!(pairs(&ask.headers), pairs(&sms));
    let body = sms_request_body(1);
    let code = account().step_request(&LoginStep::VerifySmsCode(body), "123456", &anisette, "en_US").expect("ok").expect("a request");
    assert_eq!(code.method, HttpMethod::Post);
    assert_eq!(code.url, "https://gsa.apple.com/auth/verify/phone/securitycode");
    let mut wanted = pairs(&sms);
    wanted.push(("accept".to_string(), "application/json".to_string(), false));
    assert_eq!(pairs(&code.headers), wanted);
    for step in [LoginStep::Login, LoginStep::Finished, LoginStep::Unsupported("repair".to_string())] {
        assert!(account().step_request(&step, "", &anisette, "en_US").expect("ok").is_none());
        assert_eq!(grand_slam::auth::two_factor::wants_code(&step), None);
    }
    assert!(matches!(Account::new().step_request(&LoginStep::PushToDevices, "", &anisette, "en_US"), Err(Error::Parse)));
    assert_eq!(grand_slam::auth::two_factor::wants_code(&LoginStep::VerifyCode), Some(false));
    assert_eq!(grand_slam::auth::two_factor::wants_code(&LoginStep::VerifySmsCode(sms_request_body(1))), Some(true));
    assert_eq!(grand_slam::auth::two_factor::wants_code(&LoginStep::PushToDevices), None);
    assert_eq!(grand_slam::auth::request::gsa_method(), HttpMethod::Post);
    assert_eq!(grand_slam::developer::PORTAL_SERVICE, "com.apple.gs.xcode.auth");
}

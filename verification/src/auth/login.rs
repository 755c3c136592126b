//! The password exchange: SRP-6a over the 2048-bit group with SHA-256, in two
//! rounds. `LoginAttempt` builds the packet of each round and reads the answer
//! to it.

use vstd::prelude::*;
use vstd::utf8::encode_utf8;
use crate::auth::check_error;
use crate::auth::checked;
use crate::auth::LoginState;
use crate::auth::LoginStateModel;
use crate::auth::status;
use crate::auth::status_of;
use crate::crypto::aes256_cbc_decrypt;
use crate::crypto::aes256_cbc_plaintext;
use crate::crypto::hmac_sha256;
use crate::crypto::hmac_sha256_tag;
use crate::crypto::pbkdf2_sha256;
use crate::crypto::pbkdf2_sha256_key;
use crate::crypto::random_secret;
use crate::crypto::sha256;
use crate::crypto::sha256_digest;
use crate::crypto::srp_process_reply;
use crate::crypto::srp_public_ephemeral;
use crate::crypto::srp_public_value;
use crate::crypto::srp_reply;
use crate::crypto::srp_server_proof_accepted;
use crate::crypto::srp_verify_server;
use crate::error::Error;
use crate::error::ErrorModel;
use crate::property_list::entries_view;
use crate::property_list::entry;
use crate::property_list::items_view;
use crate::property_list::plist_dictionary_document;
use crate::property_list::plist_get_data;
use crate::property_list::plist_get_signed;
use crate::property_list::plist_get_string;
use crate::property_list::plist_xml_text;
use crate::property_list::Plist;
use crate::property_list::PlistValue;
use crate::bytes::slice_of;
use crate::text::str_equal;

verus! {

/// The header of every request: the protocol version.
pub open spec fn request_header_model() -> Plist {
    Plist::Dictionary(seq![entry("Version"@, Plist::String("1.0.1"@))])
}

/// The packet of the first round: the client's public value, the device's
/// identity data, the operation, the protocols offered and the user name.
pub open spec fn init_request_model(username: Seq<char>, a_pub: Seq<u8>, cpd: Plist) -> Plist {
    Plist::Dictionary(
        seq![
            entry("Header"@, request_header_model()),
            entry(
                "Request"@,
                Plist::Dictionary(
                    seq![
                        entry("A2k"@, Plist::Data(a_pub)),
                        entry("cpd"@, cpd),
                        entry("o"@, Plist::String("init"@)),
                        entry(
                            "ps"@,
                            Plist::Array(seq![Plist::String("s2k"@), Plist::String("s2k_fo"@)]),
                        ),
                        entry("u"@, Plist::String(username)),
                    ],
                ),
            ),
        ],
    )
}

/// The packet of the second round: the client's proof, the device's identity
/// data, the server's cookie, the operation and the user name.
pub open spec fn challenge_request_model(
    username: Seq<char>,
    proof: Seq<u8>,
    cookie: Seq<char>,
    cpd: Plist,
) -> Plist {
    Plist::Dictionary(
        seq![
            entry("Header"@, request_header_model()),
            entry(
                "Request"@,
                Plist::Dictionary(
                    seq![
                        entry("M1"@, Plist::Data(proof)),
                        entry("cpd"@, cpd),
                        entry("c"@, Plist::String(cookie)),
                        entry("o"@, Plist::String("complete"@)),
                        entry("u"@, Plist::String(username)),
                    ],
                ),
            ),
        ],
    )
}

/// The request header as a property list.
pub fn request_header() -> (r: PlistValue)
    ensures
        r@ == request_header_model(),
{
    let mut entries: Vec<(String, PlistValue)> = Vec::new();
    entries.push(("Version".to_owned(), PlistValue::text("1.0.1")));
    assert(entries_view(entries@) =~= seq![entry("Version"@, Plist::String("1.0.1"@))]);
    PlistValue::dictionary(entries)
}

/// The packet of the first round as a property list.
pub fn init_request(username: &str, a_pub: Vec<u8>, cpd: PlistValue) -> (r: PlistValue)
    ensures
        r@ == init_request_model(username@, a_pub@, cpd@),
{
    let mut protocols: Vec<PlistValue> = Vec::new();
    protocols.push(PlistValue::text("s2k"));
    protocols.push(PlistValue::text("s2k_fo"));
    assert(items_view(protocols@) =~= seq![Plist::String("s2k"@), Plist::String("s2k_fo"@)]);
    let mut body: Vec<(String, PlistValue)> = Vec::new();
    body.push(("A2k".to_owned(), PlistValue::data(a_pub)));
    body.push(("cpd".to_owned(), cpd));
    body.push(("o".to_owned(), PlistValue::text("init")));
    body.push(("ps".to_owned(), PlistValue::array(protocols)));
    body.push(("u".to_owned(), PlistValue::text(username)));
    assert(entries_view(body@) =~= seq![
        entry("A2k"@, Plist::Data(a_pub@)),
        entry("cpd"@, cpd@),
        entry("o"@, Plist::String("init"@)),
        entry("ps"@, Plist::Array(seq![Plist::String("s2k"@), Plist::String("s2k_fo"@)])),
        entry("u"@, Plist::String(username@)),
    ]);
    let mut packet: Vec<(String, PlistValue)> = Vec::new();
    packet.push(("Header".to_owned(), request_header()));
    packet.push(("Request".to_owned(), PlistValue::dictionary(body)));
    assert(entries_view(packet@) =~= seq![
        entry("Header"@, request_header_model()),
        entry("Request"@, Plist::Dictionary(entries_view(body@))),
    ]);
    PlistValue::dictionary(packet)
}

/// The packet of the second round as a property list.
pub fn challenge_request(username: &str, proof: Vec<u8>, cookie: &str, cpd: PlistValue) -> (r:
    PlistValue)
    ensures
        r@ == challenge_request_model(username@, proof@, cookie@, cpd@),
{
    let mut body: Vec<(String, PlistValue)> = Vec::new();
    body.push(("M1".to_owned(), PlistValue::data(proof)));
    body.push(("cpd".to_owned(), cpd));
    body.push(("c".to_owned(), PlistValue::text(cookie)));
    body.push(("o".to_owned(), PlistValue::text("complete")));
    body.push(("u".to_owned(), PlistValue::text(username)));
    assert(entries_view(body@) =~= seq![
        entry("M1"@, Plist::Data(proof@)),
        entry("cpd"@, cpd@),
        entry("c"@, Plist::String(cookie@)),
        entry("o"@, Plist::String("complete"@)),
        entry("u"@, Plist::String(username@)),
    ]);
    let mut packet: Vec<(String, PlistValue)> = Vec::new();
    packet.push(("Header".to_owned(), request_header()));
    packet.push(("Request".to_owned(), PlistValue::dictionary(body)));
    assert(entries_view(packet@) =~= seq![
        entry("Header"@, request_header_model()),
        entry("Request"@, Plist::Dictionary(entries_view(body@))),
    ]);
    PlistValue::dictionary(packet)
}

/// Writes a packet as XML, or says why it cannot be written.
pub open spec fn packet_text(packet: Plist) -> Result<Seq<u8>, ErrorModel> {
    match plist_xml_text(packet) {
        Ok(bytes) => Ok(bytes),
        Err(words) => Err(ErrorModel::Plist(words)),
    }
}

/// A packet as the XML document that is sent.
pub fn write_packet(packet: &PlistValue) -> (r: Result<Vec<u8>, Error>)
    ensures
        match r {
            Ok(bytes) => packet_text(packet@) == Ok::<Seq<u8>, ErrorModel>(bytes@),
            Err(e) => packet_text(packet@) == Err::<Seq<u8>, ErrorModel>(e@),
        },
{
    match packet.to_xml() {
        Ok(bytes) => Ok(bytes),
        Err(words) => Err(Error::Plist(words)),
    }
}

/// What the server sends in answer to the first round.
pub struct ServerChallenge {
    pub salt: Vec<u8>,
    pub server_public: Vec<u8>,
    pub iterations: u32,
    pub cookie: String,
}

/// What a server challenge means.
pub struct ServerChallengeModel {
    pub salt: Seq<u8>,
    pub server_public: Seq<u8>,
    pub iterations: u32,
    pub cookie: Seq<char>,
}

impl View for ServerChallenge {
    type V = ServerChallengeModel;

    open spec fn view(&self) -> ServerChallengeModel {
        ServerChallengeModel {
            salt: self.salt@,
            server_public: self.server_public@,
            iterations: self.iterations,
            cookie: self.cookie@,
        }
    }
}

/// The challenge in a response to the first round: the salt under `s`, the
/// server's public value under `B`, the iteration count under `i` and the
/// cookie under `c`. A response that lacks one of them, or holds an iteration
/// count that no unsigned 32-bit integer holds, has none.
pub open spec fn server_challenge(res: Plist) -> Option<ServerChallengeModel> {
    match (
        plist_get_data(res, "s"@),
        plist_get_data(res, "B"@),
        plist_get_signed(res, "i"@),
        plist_get_string(res, "c"@),
    ) {
        (Some(salt), Some(server_public), Some(i), Some(cookie)) => if 0 <= i <= u32::MAX {
            Some(ServerChallengeModel { salt, server_public, iterations: i as u32, cookie })
        } else {
            None
        },
        _ => None,
    }
}

/// Reads the challenge out of a response to the first round.
pub fn read_challenge(res: &PlistValue) -> (r: Option<ServerChallenge>)
    ensures
        match r {
            Some(ch) => server_challenge(res@) == Some(ch@),
            None => server_challenge(res@) is None,
        },
{
    let salt = match res.get_data("s") {
        Some(d) => d.clone(),
        None => {
            return None;
        },
    };
    let server_public = match res.get_data("B") {
        Some(d) => d.clone(),
        None => {
            return None;
        },
    };
    let i = match res.get_signed("i") {
        Some(i) => i,
        None => {
            return None;
        },
    };
    let cookie = match res.get_string("c") {
        Some(c) => c.clone(),
        None => {
            return None;
        },
    };
    if i < 0 || i > 0xffff_ffff {
        return None;
    }
    Some(ServerChallenge { salt, server_public, iterations: i as u32, cookie })
}

/// The key that stands for the password in the exchange: PBKDF2 over the
/// SHA-256 digest of the password, with the server's salt and iteration count.
pub open spec fn password_key(password: Seq<char>, salt: Seq<u8>, iterations: u32) -> Seq<u8> {
    pbkdf2_sha256_key(sha256_digest(encode_utf8(password)), salt, iterations)
}

/// The client proof and the shared key of an exchange, as SRP-6a derives
/// them from the secret, the user name, the password key and the challenge.
pub open spec fn exchange_reply(
    secret: Seq<u8>,
    username: Seq<char>,
    password: Seq<char>,
    ch: ServerChallengeModel,
) -> Option<(Seq<u8>, Seq<u8>)> {
    srp_reply(
        secret,
        encode_utf8(username),
        password_key(password, ch.salt, ch.iterations),
        ch.salt,
        ch.server_public,
    )
}

/// The key under which the session payload is encrypted.
pub open spec fn payload_key(shared: Seq<u8>) -> Seq<u8> {
    hmac_sha256_tag(shared, encode_utf8("extra data key:"@))
}

/// The initialization vector of the session payload.
pub open spec fn payload_iv(shared: Seq<u8>) -> Seq<u8> {
    hmac_sha256_tag(shared, encode_utf8("extra data iv:"@)).take(16)
}

/// The session payload in the clear; `None` where it does not decrypt.
pub open spec fn decrypted_payload(shared: Seq<u8>, data: Seq<u8>) -> Option<Seq<u8>> {
    aes256_cbc_plaintext(payload_key(shared), payload_iv(shared), data)
}

/// Derives a key from the shared key of the exchange and a label.
pub fn create_session_key(shared: &[u8], name: &str) -> (r: Vec<u8>)
    ensures
        r@ == hmac_sha256_tag(shared@, encode_utf8(name@)),
        r@.len() == 32,
{
    hmac_sha256(shared, name.as_bytes())
}

/// Decrypts the session payload with the keys derived from the shared key.
pub fn decrypt_cbc(shared: &[u8], data: &[u8]) -> (r: Option<Vec<u8>>)
    ensures
        match r {
            Some(plain) => decrypted_payload(shared@, data@) == Some(plain@),
            None => decrypted_payload(shared@, data@) is None,
        },
{
    let key = create_session_key(shared, "extra data key:");
    let iv_source = create_session_key(shared, "extra data iv:");
    let iv = slice_of(iv_source.as_slice(), 0, 16);
    assert(iv@ =~= iv_source@.take(16));
    aes256_cbc_decrypt(key.as_slice(), iv.as_slice(), data)
}

/// The state that a secondary-authentication marker asks for: none or an
/// empty one means that the login is complete.
pub open spec fn marker_state(marker: Option<Seq<char>>) -> LoginStateModel {
    match marker {
        None => LoginStateModel::LoggedIn,
        Some(m) => if m.len() == 0 {
            LoginStateModel::LoggedIn
        } else if m == "trustedDeviceSecondaryAuth"@ {
            LoginStateModel::NeedsDevice2FA
        } else if m == "secondaryAuth"@ {
            LoginStateModel::NeedsSMS2FA
        } else {
            LoginStateModel::NeedsExtraStep(m)
        },
    }
}

/// The secondary-authentication marker of a session payload: the string
/// under `au` in its status dictionary.
pub open spec fn secondary_marker(session: Plist) -> Option<Seq<char>> {
    plist_get_string(status_of(session), "au"@)
}

/// The state that follows the password exchange: a non-empty marker names
/// the second factor that is still owed, and without one the login is
/// complete.
pub fn state_after_password(session: &PlistValue) -> (state: LoginState)
    ensures
        state@ == marker_state(secondary_marker(session@)),
{
    match status(session).get_string("au") {
        None => LoginState::LoggedIn,
        Some(m) => {
            proof {
                reveal_strlit("");
                assert(m@.len() == 0 <==> m@ =~= ""@);
            }
            if str_equal(m.as_str(), "") {
                LoginState::LoggedIn
            } else if str_equal(m.as_str(), "trustedDeviceSecondaryAuth") {
                LoginState::NeedsDevice2FA
            } else if str_equal(m.as_str(), "secondaryAuth") {
                LoginState::NeedsSMS2FA
            } else {
                LoginState::NeedsExtraStep(m.clone())
            }
        },
    }
}

/// One attempt to sign in with a user name and a password. The secret is the
/// client's private value of the exchange, drawn fresh for each attempt.
pub struct LoginAttempt {
    pub username: String,
    pub password: String,
    pub secret: Vec<u8>,
}

/// What the client keeps between the two rounds.
pub struct Exchange {
    pub challenge: ServerChallenge,
    pub proof: Vec<u8>,
    pub shared_key: Vec<u8>,
}

/// What an exchange means.
pub struct ExchangeModel {
    pub challenge: ServerChallengeModel,
    pub proof: Seq<u8>,
    pub shared_key: Seq<u8>,
}

impl View for Exchange {
    type V = ExchangeModel;

    open spec fn view(&self) -> ExchangeModel {
        ExchangeModel {
            challenge: self.challenge@,
            proof: self.proof@,
            shared_key: self.shared_key@,
        }
    }
}

/// The first packet of an attempt, as sent.
pub open spec fn init_packet_text(username: Seq<char>, secret: Seq<u8>, cpd: Plist) -> Result<
    Seq<u8>,
    ErrorModel,
> {
    packet_text(init_request_model(username, srp_public_value(secret), cpd))
}

/// What the answer to the first round leads to: the second packet, whose
/// proof is the one that SRP-6a derives, and the state of the exchange; the
/// server's refusal; `Parse` where the challenge is malformed; `AuthSrp`
/// where the server's public value is refused.
pub open spec fn challenge_outcome(
    secret: Seq<u8>,
    username: Seq<char>,
    password: Seq<char>,
    init: Plist,
    cpd: Plist,
) -> Result<(Seq<u8>, ExchangeModel), ErrorModel> {
    match checked(init) {
        Err(e) => Err(e),
        Ok(_) => match server_challenge(init) {
            None => Err(ErrorModel::Parse),
            Some(ch) => match exchange_reply(secret, username, password, ch) {
                None => Err(ErrorModel::AuthSrp),
                Some((proof, key)) => match packet_text(
                    challenge_request_model(username, proof, ch.cookie, cpd),
                ) {
                    Err(e) => Err(e),
                    Ok(bytes) => Ok(
                        (bytes, ExchangeModel { challenge: ch, proof, shared_key: key }),
                    ),
                },
            },
        },
    }
}

/// Whether the server's proof under `M2` is the one the exchange expects.
pub open spec fn server_proved(
    secret: Seq<u8>,
    username: Seq<char>,
    password: Seq<char>,
    ch: ServerChallengeModel,
    m2: Seq<u8>,
) -> bool {
    srp_server_proof_accepted(
        secret,
        encode_utf8(username),
        password_key(password, ch.salt, ch.iterations),
        ch.salt,
        ch.server_public,
        m2,
    )
}

/// What the answer to the second round leads to: the session dictionary,
/// decrypted from the payload under `spd`; the server's refusal; `AuthSrp`
/// where the server's proof is not the expected one; `Parse` where a field
/// is missing or the payload does not decrypt; `Plist` where the decrypted
/// payload is no dictionary.
pub open spec fn finish_outcome(
    secret: Seq<u8>,
    username: Seq<char>,
    password: Seq<char>,
    ex: ExchangeModel,
    complete: Plist,
) -> Result<Plist, ErrorModel> {
    match checked(complete) {
        Err(e) => Err(e),
        Ok(_) => match plist_get_data(complete, "M2"@) {
            None => Err(ErrorModel::Parse),
            Some(m2) => if !server_proved(secret, username, password, ex.challenge, m2) {
                Err(ErrorModel::AuthSrp)
            } else {
                match plist_get_data(complete, "spd"@) {
                    None => Err(ErrorModel::Parse),
                    Some(spd) => match decrypted_payload(ex.shared_key, spd) {
                        None => Err(ErrorModel::Parse),
                        Some(plain) => match plist_dictionary_document(plain) {
                            Err(words) => Err(ErrorModel::Plist(words)),
                            Ok(session) => Ok(session),
                        },
                    },
                }
            },
        },
    }
}

impl LoginAttempt {
    /// An attempt with a fresh secret of 32 bytes.
    pub fn new(username: String, password: String) -> (r: LoginAttempt)
        ensures
            r.username == username,
            r.password == password,
            r.secret@.len() == 32,
    {
        LoginAttempt { username, password, secret: random_secret() }
    }

    /// The packet of the first round.
    pub fn init_packet(&self, cpd: PlistValue) -> (r: Result<Vec<u8>, Error>)
        ensures
            match r {
                Ok(bytes) => init_packet_text(self.username@, self.secret@, cpd@) == Ok::<
                    Seq<u8>,
                    ErrorModel,
                >(bytes@),
                Err(e) => init_packet_text(self.username@, self.secret@, cpd@) == Err::<
                    Seq<u8>,
                    ErrorModel,
                >(e@),
            },
    {
        let a_pub = srp_public_ephemeral(self.secret.as_slice());
        let packet = init_request(self.username.as_str(), a_pub, cpd);
        write_packet(&packet)
    }

    /// Reads the answer to the first round and builds the packet of the second.
    pub fn challenge(&self, init: &PlistValue, cpd: PlistValue) -> (r: Result<
        (Vec<u8>, Exchange),
        Error,
    >)
        ensures
            match r {
                Ok((bytes, ex)) => challenge_outcome(
                    self.secret@,
                    self.username@,
                    self.password@,
                    init@,
                    cpd@,
                ) == Ok::<(Seq<u8>, ExchangeModel), ErrorModel>((bytes@, ex@)),
                Err(e) => challenge_outcome(
                    self.secret@,
                    self.username@,
                    self.password@,
                    init@,
                    cpd@,
                ) == Err::<(Seq<u8>, ExchangeModel), ErrorModel>(e@),
            },
    {
        match check_error(init) {
            Err(e) => {
                return Err(e);
            },
            Ok(_) => {},
        }
        let ch = match read_challenge(init) {
            Some(ch) => ch,
            None => {
                return Err(Error::Parse);
            },
        };
        let hashed = sha256(self.password.as_str().as_bytes());
        let key = pbkdf2_sha256(hashed.as_slice(), ch.salt.as_slice(), ch.iterations);
        let reply = match srp_process_reply(
            self.secret.as_slice(),
            self.username.as_str().as_bytes(),
            key.as_slice(),
            ch.salt.as_slice(),
            ch.server_public.as_slice(),
        ) {
            Some(reply) => reply,
            None => {
                return Err(Error::AuthSrp);
            },
        };
        let packet = challenge_request(
            self.username.as_str(),
            reply.proof.clone(),
            ch.cookie.as_str(),
            cpd,
        );
        match write_packet(&packet) {
            Err(e) => Err(e),
            Ok(bytes) => Ok(
                (bytes, Exchange { challenge: ch, proof: reply.proof, shared_key: reply.key }),
            ),
        }
    }

    /// Reads the answer to the second round: checks the server's proof,
    /// decrypts the session dictionary and tells the state that follows.
    pub fn finish(&self, exchange: &Exchange, complete: &PlistValue) -> (r: Result<
        (LoginState, PlistValue),
        Error,
    >)
        ensures
            match r {
                Ok((state, session)) => finish_outcome(
                    self.secret@,
                    self.username@,
                    self.password@,
                    exchange@,
                    complete@,
                ) == Ok::<Plist, ErrorModel>(session@) && state@ == marker_state(
                    secondary_marker(session@),
                ),
                Err(e) => finish_outcome(
                    self.secret@,
                    self.username@,
                    self.password@,
                    exchange@,
                    complete@,
                ) == Err::<Plist, ErrorModel>(e@),
            },
    {
        match check_error(complete) {
            Err(e) => {
                return Err(e);
            },
            Ok(_) => {},
        }
        let m2 = match complete.get_data("M2") {
            Some(m2) => m2,
            None => {
                return Err(Error::Parse);
            },
        };
        let hashed = sha256(self.password.as_str().as_bytes());
        let key = pbkdf2_sha256(
            hashed.as_slice(),
            exchange.challenge.salt.as_slice(),
            exchange.challenge.iterations,
        );
        let accepted = srp_verify_server(
            self.secret.as_slice(),
            self.username.as_str().as_bytes(),
            key.as_slice(),
            exchange.challenge.salt.as_slice(),
            exchange.challenge.server_public.as_slice(),
            m2.as_slice(),
        );
        if !accepted {
            return Err(Error::AuthSrp);
        }
        let spd = match complete.get_data("spd") {
            Some(spd) => spd,
            None => {
                return Err(Error::Parse);
            },
        };
        let plain = match decrypt_cbc(exchange.shared_key.as_slice(), spd.as_slice()) {
            Some(plain) => plain,
            None => {
                return Err(Error::Parse);
            },
        };
        let session = match PlistValue::parse_dictionary(plain.as_slice()) {
            Ok(session) => session,
            Err(words) => {
                return Err(Error::Plist(words));
            },
        };
        let state = state_after_password(&session);
        Ok((state, session))
    }
}

/// The handshake is that of the reference: wherever the answer to the first
/// round leads to a second packet, the proof in that packet is the client
/// proof that SRP-6a derives from the secret, the user name, the password
/// key and the server's challenge, and the key that is kept is the shared
/// key of that exchange.
pub proof fn lemma_client_proof_is_reference(
    secret: Seq<u8>,
    username: Seq<char>,
    password: Seq<char>,
    init: Plist,
    cpd: Plist,
)
    requires
        challenge_outcome(secret, username, password, init, cpd) is Ok,
    ensures
        server_challenge(init) is Some,
        ({
            let ch = server_challenge(init)->0;
            let outcome = challenge_outcome(secret, username, password, init, cpd)->Ok_0;
            &&& srp_reply(
                secret,
                encode_utf8(username),
                pbkdf2_sha256_key(sha256_digest(encode_utf8(password)), ch.salt, ch.iterations),
                ch.salt,
                ch.server_public,
            ) == Some((outcome.1.proof, outcome.1.shared_key))
            &&& packet_text(challenge_request_model(username, outcome.1.proof, ch.cookie, cpd))
                == Ok::<Seq<u8>, ErrorModel>(outcome.0)
            &&& outcome.1.challenge == ch
        }),
{
}

} // verus!

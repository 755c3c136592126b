//! Application tokens: credentials for one service each, which the
//! authentication service hands out to a signed-in session, encrypted under
//! the session key.

use vstd::prelude::*;
use vstd::utf8::encode_utf8;
use crate::auth::check_error;
use crate::auth::checked;
use crate::auth::login::request_header;
use crate::auth::login::request_header_model;
use crate::auth::login::packet_text;
use crate::auth::login::write_packet;
use crate::auth::session_data;
use crate::auth::session_string;
use crate::auth::Account;
use crate::bytes::join;
use crate::bytes::same;
use crate::bytes::slice_of;
use crate::crypto::hmac_sha256;
use crate::crypto::hmac_sha256_tag;
use crate::error::Error;
use crate::error::ErrorModel;
use crate::property_list::entries_view;
use crate::property_list::entry;
use crate::property_list::items_view;
use crate::property_list::lemma_view_unfold;
use crate::property_list::plist_dictionary_document;
use crate::property_list::plist_get;
use crate::property_list::plist_get_data;
use crate::property_list::plist_get_string;
use crate::property_list::Plist;
use crate::property_list::PlistValue;

verus! {

/// A token for one service, with the dictionary of tokens it was taken from.
#[derive(Debug)]
pub struct AppToken {
    pub app_tokens: PlistValue,
    pub auth_token: String,
    pub app: String,
}

/// The checksum that proves knowledge of the session key: the HMAC-SHA256
/// tag, under that key, of the operation tag, the account id and the service
/// name in a row.
pub open spec fn token_checksum(session_key: Seq<u8>, dsid: Seq<char>, app: Seq<char>) -> Seq<
    u8,
> {
    hmac_sha256_tag(
        session_key,
        encode_utf8("apptokens"@) + encode_utf8(dsid) + encode_utf8(app),
    )
}

/// The checksum of a token request: a tag of 32 bytes.
pub fn create_checksum(session_key: &[u8], dsid: &str, app_name: &str) -> (r: Vec<u8>)
    ensures
        r@ == token_checksum(session_key@, dsid@, app_name@),
        r@.len() == 32,
{
    let head = join("apptokens".as_bytes(), dsid.as_bytes());
    let message = join(head.as_slice(), app_name.as_bytes());
    hmac_sha256(session_key, message.as_slice())
}

/// What a token request is made from, out of the session dictionary.
pub struct TokenGrant {
    pub dsid: Seq<char>,
    pub auth_token: Seq<char>,
    pub session_key: Seq<u8>,
    pub cookie: Seq<u8>,
}

/// The account id under `adsid`, the session token under `GsIdmsToken`, the
/// session key under `sk` and the cookie under `c`; none where one is missing.
pub open spec fn token_grant(account: Account) -> Option<TokenGrant> {
    match (
        session_string(account, "adsid"@),
        session_string(account, "GsIdmsToken"@),
        session_data(account, "sk"@),
        session_data(account, "c"@),
    ) {
        (Some(dsid), Some(auth_token), Some(session_key), Some(cookie)) => Some(
            TokenGrant { dsid, auth_token, session_key, cookie },
        ),
        _ => None,
    }
}

/// The packet that asks for the token of one service.
pub open spec fn token_request_model(grant: TokenGrant, app: Seq<char>, cpd: Plist) -> Plist {
    Plist::Dictionary(
        seq![
            entry("Header"@, request_header_model()),
            entry(
                "Request"@,
                Plist::Dictionary(
                    seq![
                        entry("app"@, Plist::Array(seq![Plist::String(app)])),
                        entry("c"@, Plist::Data(grant.cookie)),
                        entry("cpd"@, cpd),
                        entry("o"@, Plist::String("apptokens"@)),
                        entry("t"@, Plist::String(grant.auth_token)),
                        entry("u"@, Plist::String(grant.dsid)),
                        entry(
                            "checksum"@,
                            Plist::Data(token_checksum(grant.session_key, grant.dsid, app)),
                        ),
                    ],
                ),
            ),
        ],
    )
}

/// The token request as sent; `Parse` where the account holds no complete session.
pub open spec fn token_request_text(account: Account, app: Seq<char>, cpd: Plist) -> Result<
    Seq<u8>,
    ErrorModel,
> {
    match token_grant(account) {
        None => Err(ErrorModel::Parse),
        Some(grant) => packet_text(token_request_model(grant, app, cpd)),
    }
}

/// An encrypted token taken apart: what AES-256-GCM needs to decrypt it.
pub struct EncryptedToken {
    pub key: Vec<u8>,
    pub associated_data: Vec<u8>,
    pub iv: Vec<u8>,
    pub ciphertext_and_tag: Vec<u8>,
}

/// What an encrypted token means.
pub struct EncryptedTokenModel {
    pub key: Seq<u8>,
    pub associated_data: Seq<u8>,
    pub iv: Seq<u8>,
    pub ciphertext_and_tag: Seq<u8>,
}

impl View for EncryptedToken {
    type V = EncryptedTokenModel;

    open spec fn view(&self) -> EncryptedTokenModel {
        EncryptedTokenModel {
            key: self.key@,
            associated_data: self.associated_data@,
            iv: self.iv@,
            ciphertext_and_tag: self.ciphertext_and_tag@,
        }
    }
}

/// The three bytes with which an encrypted token begins.
pub open spec fn token_magic() -> Seq<u8> {
    seq![0x58u8, 0x59u8, 0x5au8]
}

/// The words of the error for a token in another format.
pub open spec fn unknown_format_text() -> Seq<char> {
    "Encrypted token is in an unknown format."@
}

/// The words of the error for a token that does not decrypt.
pub open spec fn decryption_failed_text() -> Seq<char> {
    "Failed to decrypt app token (Botan AES-256/GCM)."@
}

/// The encrypted token of a response, taken apart: three bytes of magic,
/// which are the associated data, sixteen bytes of initialization vector,
/// then the ciphertext with its tag of sixteen bytes; the key is the session
/// key, which must be 32 bytes long.
pub open spec fn framed_token(account: Account, res: Plist) -> Result<
    EncryptedTokenModel,
    ErrorModel,
> {
    match checked(res) {
        Err(e) => Err(e),
        Ok(_) => match plist_get_data(res, "et"@) {
            None => Err(ErrorModel::Parse),
            Some(et) => if et.len() < 3 + 16 + 16 {
                Err(ErrorModel::Parse)
            } else if et.take(3) != token_magic() {
                Err(ErrorModel::AuthSrpWithMessage(0, unknown_format_text()))
            } else {
                match session_data(account, "sk"@) {
                    None => Err(ErrorModel::Parse),
                    Some(key) => if key.len() != 32 {
                        Err(ErrorModel::Parse)
                    } else {
                        Ok(
                            EncryptedTokenModel {
                                key,
                                associated_data: et.take(3),
                                iv: et.subrange(3, 19),
                                ciphertext_and_tag: et.skip(19),
                            },
                        )
                    },
                }
            },
        },
    }
}

/// The token for `app` in a decrypted token document: the string under
/// `token` in the dictionary under the service name in the dictionary under
/// `t`. The result is that outer dictionary and the token.
pub open spec fn token_in(doc: Plist, app: Seq<char>) -> Option<(Plist, Seq<char>)> {
    match plist_get(doc, "t"@) {
        Some(Plist::Dictionary(tokens)) => match plist_get(Plist::Dictionary(tokens), app) {
            Some(Plist::Dictionary(one)) => match plist_get_string(
                Plist::Dictionary(one),
                "token"@,
            ) {
                Some(token) => Some((Plist::Dictionary(tokens), token)),
                None => None,
            },
            _ => None,
        },
        _ => None,
    }
}

/// What decryption leads to: the token of the service asked for; the error
/// for a token that did not decrypt; `Parse` where the document is malformed
/// or holds no token for the service.
pub open spec fn token_outcome(plain: Option<Seq<u8>>, app: Seq<char>) -> Result<
    (Plist, Seq<char>),
    ErrorModel,
> {
    match plain {
        None => Err(ErrorModel::AuthSrpWithMessage(0, decryption_failed_text())),
        Some(bytes) => match plist_dictionary_document(bytes) {
            Err(_) => Err(ErrorModel::Parse),
            Ok(doc) => match token_in(doc, app) {
                Some(found) => Ok(found),
                None => Err(ErrorModel::Parse),
            },
        },
    }
}

impl Account {
    /// The packet that asks for the token of one service.
    pub fn app_token_request(&self, app_name: &str, cpd: PlistValue) -> (r: Result<
        Vec<u8>,
        Error,
    >)
        ensures
            match r {
                Ok(bytes) => token_request_text(*self, app_name@, cpd@) == Ok::<
                    Seq<u8>,
                    ErrorModel,
                >(bytes@),
                Err(e) => token_request_text(*self, app_name@, cpd@) == Err::<
                    Seq<u8>,
                    ErrorModel,
                >(e@),
            },
    {
        let dsid = match self.session_text("adsid") {
            Some(s) => s,
            None => {
                return Err(Error::Parse);
            },
        };
        let auth_token = match self.session_text("GsIdmsToken") {
            Some(s) => s,
            None => {
                return Err(Error::Parse);
            },
        };
        let sk = match self.session_bytes("sk") {
            Some(d) => d,
            None => {
                return Err(Error::Parse);
            },
        };
        let c = match self.session_bytes("c") {
            Some(d) => d,
            None => {
                return Err(Error::Parse);
            },
        };
        let checksum = create_checksum(sk.as_slice(), dsid.as_str(), app_name);
        let mut apps: Vec<PlistValue> = Vec::new();
        apps.push(PlistValue::text(app_name));
        assert(items_view(apps@) =~= seq![Plist::String(app_name@)]);
        let mut body: Vec<(String, PlistValue)> = Vec::new();
        body.push(("app".to_owned(), PlistValue::array(apps)));
        body.push(("c".to_owned(), PlistValue::data(c.clone())));
        body.push(("cpd".to_owned(), cpd));
        body.push(("o".to_owned(), PlistValue::text("apptokens")));
        body.push(("t".to_owned(), PlistValue::text(auth_token.as_str())));
        body.push(("u".to_owned(), PlistValue::text(dsid.as_str())));
        body.push(("checksum".to_owned(), PlistValue::data(checksum)));
        assert(entries_view(body@) =~= seq![
            entry("app"@, Plist::Array(seq![Plist::String(app_name@)])),
            entry("c"@, Plist::Data(c@)),
            entry("cpd"@, cpd@),
            entry("o"@, Plist::String("apptokens"@)),
            entry("t"@, Plist::String(auth_token@)),
            entry("u"@, Plist::String(dsid@)),
            entry("checksum"@, Plist::Data(token_checksum(sk@, dsid@, app_name@))),
        ]);
        let mut packet: Vec<(String, PlistValue)> = Vec::new();
        packet.push(("Header".to_owned(), request_header()));
        packet.push(("Request".to_owned(), PlistValue::dictionary(body)));
        assert(entries_view(packet@) =~= seq![
            entry("Header"@, request_header_model()),
            entry("Request"@, Plist::Dictionary(entries_view(body@))),
        ]);
        write_packet(&PlistValue::dictionary(packet))
    }

    /// Takes the encrypted token of a response apart.
    pub fn encrypted_app_token(&self, res: &PlistValue) -> (r: Result<EncryptedToken, Error>)
        ensures
            match r {
                Ok(t) => framed_token(*self, res@) == Ok::<EncryptedTokenModel, ErrorModel>(t@),
                Err(e) => framed_token(*self, res@) == Err::<EncryptedTokenModel, ErrorModel>(
                    e@,
                ),
            },
    {
        match check_error(res) {
            Err(e) => {
                return Err(e);
            },
            Ok(_) => {},
        }
        let et = match res.get_data("et") {
            Some(d) => d,
            None => {
                return Err(Error::Parse);
            },
        };
        if et.len() < 3 + 16 + 16 {
            return Err(Error::Parse);
        }
        let header = slice_of(et.as_slice(), 0, 3);
        assert(header@ =~= et@.take(3));
        let mut magic: Vec<u8> = Vec::new();
        magic.push(0x58u8);
        magic.push(0x59u8);
        magic.push(0x5au8);
        assert(magic@ =~= token_magic());
        if !same(header.as_slice(), magic.as_slice()) {
            return Err(
                Error::AuthSrpWithMessage(0, "Encrypted token is in an unknown format.".to_owned()),
            );
        }
        let sk = match self.session_bytes("sk") {
            Some(d) => d,
            None => {
                return Err(Error::Parse);
            },
        };
        if sk.len() != 32 {
            return Err(Error::Parse);
        }
        let iv = slice_of(et.as_slice(), 3, 19);
        let rest = slice_of(et.as_slice(), 19, et.len());
        assert(rest@ =~= et@.skip(19));
        Ok(
            EncryptedToken {
                key: sk.clone(),
                associated_data: header,
                iv,
                ciphertext_and_tag: rest,
            },
        )
    }
}

/// Reads the token of the service out of the decrypted document. `plain` is
/// what decryption gave: nothing where the tag did not hold.
pub fn app_token_from(plain: Option<&[u8]>, app_name: &str) -> (r: Result<AppToken, Error>)
    ensures
        match r {
            Ok(t) => token_outcome(
                match plain {
                    Some(b) => Some(b@),
                    None => None,
                },
                app_name@,
            ) == Ok::<(Plist, Seq<char>), ErrorModel>((t.app_tokens@, t.auth_token@)) && t.app@
                == app_name@,
            Err(e) => token_outcome(
                match plain {
                    Some(b) => Some(b@),
                    None => None,
                },
                app_name@,
            ) == Err::<(Plist, Seq<char>), ErrorModel>(e@),
        },
{
    let bytes = match plain {
        Some(b) => b,
        None => {
            return Err(
                Error::AuthSrpWithMessage(
                    0,
                    "Failed to decrypt app token (Botan AES-256/GCM).".to_owned(),
                ),
            );
        },
    };
    let doc = match PlistValue::parse_dictionary(bytes) {
        Ok(doc) => doc,
        Err(_) => {
            return Err(Error::Parse);
        },
    };
    let tokens = match doc.get("t") {
        Some(t) => t,
        None => {
            return Err(Error::Parse);
        },
    };
    proof {
        lemma_view_unfold(*tokens);
    }
    match tokens {
        PlistValue::Dictionary(_) => {},
        _ => {
            return Err(Error::Parse);
        },
    }
    let one = match tokens.get(app_name) {
        Some(o) => o,
        None => {
            return Err(Error::Parse);
        },
    };
    proof {
        lemma_view_unfold(*one);
    }
    match one {
        PlistValue::Dictionary(_) => {},
        _ => {
            return Err(Error::Parse);
        },
    }
    match one.get_string("token") {
        Some(token) => Ok(
            AppToken {
                app_tokens: tokens.duplicate(),
                auth_token: token.clone(),
                app: app_name.to_owned(),
            },
        ),
        None => Err(Error::Parse),
    }
}

} // verus!

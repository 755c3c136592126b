//! The developer portal: what is asked of it and how its answers are read.
//!
//! The portal speaks two dialects, an older one in property lists and a
//! newer one in JSON. Both report failure by a code and a message, and both
//! come out here as the same error.

use vstd::prelude::*;
use crate::auth::Account;
use crate::crypto::identifier_shaped;
use crate::crypto::random_identifier;
use crate::error::Error;
use crate::error::ErrorModel;
use crate::property_list::entries_view;
use crate::property_list::entry;
use crate::property_list::lemma_view_unfold;
use crate::property_list::plist_dictionary_document;
use crate::property_list::plist_get;
use crate::property_list::plist_get_string;
use crate::property_list::plist_xml_text;
use crate::property_list::set_entry;
use crate::property_list::with_entry;
use crate::property_list::Entry;
use crate::property_list::Plist;
use crate::property_list::PlistValue;
use crate::text::concat;

pub mod qh;
pub mod v1;

verus! {

/// The service in whose name the developer portal is asked: the name that
/// the application token for it is issued under.
pub const PORTAL_SERVICE: &'static str = "com.apple.gs.xcode.auth";


/// A session with the developer portal: a signed-in account.
pub struct DeveloperSession {
    pub account: Account,
}

impl DeveloperSession {
    /// A session for the account given.
    pub fn with(account: Account) -> (r: DeveloperSession)
        ensures
            r.account == account,
    {
        DeveloperSession { account }
    }
}

/// The address of a service of the portal.
pub open spec fn endpoint_text(endpoint: Seq<char>) -> Seq<char> {
    "https://developerservices2.apple.com/services"@ + endpoint
}

/// The address of a service of the portal.
pub fn developer_endpoint(endpoint: &str) -> (r: String)
    ensures
        r@ == endpoint_text(endpoint@),
{
    concat("https://developerservices2.apple.com/services", endpoint)
}

/// A request to the portal in the property-list dialect: where it goes and
/// what it says.
pub struct PortalRequest {
    pub url: String,
    pub body: Option<PlistValue>,
}

/// What a portal request means.
pub struct PortalRequestModel {
    pub url: Seq<char>,
    pub body: Option<Plist>,
}

impl View for PortalRequest {
    type V = PortalRequestModel;

    open spec fn view(&self) -> PortalRequestModel {
        PortalRequestModel {
            url: self.url@,
            body: match self.body {
                Some(b) => Some(b@),
                None => None,
            },
        }
    }
}

/// The entries `base` with each of `extra` bound in turn.
pub open spec fn merged(base: Seq<Entry>, extra: Seq<Entry>) -> Seq<Entry>
    decreases extra.len(),
{
    if extra.len() == 0 {
        base
    } else {
        merged(with_entry(base, extra[0].key, extra[0].value), extra.skip(1))
    }
}

/// Binds each of `extra` in `base`, in turn.
pub fn merge_entries(base: Vec<(String, PlistValue)>, extra: &Vec<(String, PlistValue)>) -> (r: Vec<
    (String, PlistValue),
>)
    ensures
        entries_view(r@) == merged(entries_view(base@), entries_view(extra@)),
{
    let ghost all = entries_view(extra@);
    let mut out = base;
    let mut i: usize = 0;
    assert(all.skip(0) =~= all);
    while i < extra.len()
        invariant
            i <= extra.len(),
            all == entries_view(extra@),
            merged(entries_view(base@), all) == merged(entries_view(out@), all.skip(i as int)),
        decreases extra.len() - i,
    {
        assert(all.skip(i as int).skip(1) =~= all.skip(i + 1));
        assert(all.skip(i as int)[0] == all[i as int]);
        out = set_entry(out, extra[i].0.clone(), extra[i].1.duplicate());
        i = i + 1;
    }
    out
}

/// The entries that a request in the property-list dialect carries: the
/// identifier of the request first, then those of the body.
pub open spec fn qh_request_entries(request_id: Seq<char>, body: Option<Plist>) -> Seq<Entry> {
    merged(
        seq![entry("requestId"@, Plist::String(request_id))],
        match body {
            Some(Plist::Dictionary(entries)) => entries,
            _ => Seq::empty(),
        },
    )
}

/// The document that is sent for a request in the property-list dialect.
pub open spec fn qh_request_text(request_id: Seq<char>, body: Option<Plist>) -> Result<
    Seq<u8>,
    ErrorModel,
> {
    match plist_xml_text(Plist::Dictionary(qh_request_entries(request_id, body))) {
        Ok(bytes) => Ok(bytes),
        Err(words) => Err(ErrorModel::Plist(words)),
    }
}

/// What the body of a request means, where there is one.
pub open spec fn body_view(body: Option<&PlistValue>) -> Option<Plist> {
    match body {
        Some(b) => Some(b@),
        None => None,
    }
}

/// The document that is sent for a request with the identifier given.
pub fn qh_request_document(request_id: &str, body: Option<&PlistValue>) -> (r: Result<
    Vec<u8>,
    Error,
>)
    ensures
        match r {
            Ok(bytes) => qh_request_text(
                request_id@,
                body_view(body),
            ) == Ok::<Seq<u8>, ErrorModel>(bytes@),
            Err(e) => qh_request_text(
                request_id@,
                body_view(body),
            ) == Err::<Seq<u8>, ErrorModel>(e@),
        },
{
    let mut base: Vec<(String, PlistValue)> = Vec::new();
    base.push(("requestId".to_owned(), PlistValue::text(request_id)));
    assert(entries_view(base@) =~= seq![entry("requestId"@, Plist::String(request_id@))]);
    let entries = match body {
        Some(b) => {
            proof {
                lemma_view_unfold(*b);
            }
            match b {
                PlistValue::Dictionary(extra) => merge_entries(base, extra),
                _ => base,
            }
        },
        None => base,
    };
    match PlistValue::dictionary(entries).to_xml() {
        Ok(bytes) => Ok(bytes),
        Err(words) => Err(Error::Plist(words)),
    }
}

/// The document that is sent for a request, with a fresh identifier: for
/// some text in the shape of an identifier, it is the document of that
/// request.
pub fn qh_new_request_document(body: Option<&PlistValue>) -> (r: Result<Vec<u8>, Error>)
    ensures
        exists|request_id: Seq<char>|
            identifier_shaped(request_id) && (match r {
                Ok(bytes) => #[trigger] qh_request_text(
                    request_id,
                    body_view(body),
                ) == Ok::<Seq<u8>, ErrorModel>(bytes@),
                Err(e) => qh_request_text(
                    request_id,
                    body_view(body),
                ) == Err::<Seq<u8>, ErrorModel>(e@),
            }),
{
    let request_id = random_identifier();
    qh_request_document(request_id.as_str(), body)
}

/// The result code of an answer in the property-list dialect: the integer
/// under `resultCode`, taken as zero where no signed 64-bit integer holds it.
pub open spec fn qh_result_code(doc: Plist) -> Option<int> {
    match plist_get(doc, "resultCode"@) {
        Some(Plist::Integer(i)) => if i64::MIN <= i <= i64::MAX {
            Some(i)
        } else {
            Some(0)
        },
        _ => None,
    }
}

/// The message of an answer in the property-list dialect.
pub open spec fn qh_result_message(doc: Plist) -> Seq<char> {
    match plist_get_string(doc, "resultString"@) {
        Some(m) => m,
        None => "Unknown"@,
    }
}

/// What an answer in the property-list dialect comes to: the document,
/// where its result code is zero; the portal's error with code and message,
/// where it is not; `DeveloperSessionRequestFailed` where the answer is no
/// dictionary; `Parse` where it holds no result code.
pub open spec fn qh_answer(body: Seq<u8>) -> Result<Plist, ErrorModel> {
    match plist_dictionary_document(body) {
        Err(_) => Err(ErrorModel::DeveloperSessionRequestFailed),
        Ok(doc) => match qh_result_code(doc) {
            None => Err(ErrorModel::Parse),
            Some(code) => if code != 0 {
                Err(ErrorModel::DeveloperSession(code, qh_result_message(doc)))
            } else {
                Ok(doc)
            },
        },
    }
}

/// Reads an answer in the property-list dialect.
pub fn qh_check_response(body: &[u8]) -> (r: Result<PlistValue, Error>)
    ensures
        match r {
            Ok(doc) => qh_answer(body@) == Ok::<Plist, ErrorModel>(doc@),
            Err(e) => qh_answer(body@) == Err::<Plist, ErrorModel>(e@),
        },
{
    let doc = match PlistValue::parse_dictionary(body) {
        Ok(doc) => doc,
        Err(_) => {
            return Err(Error::DeveloperSessionRequestFailed);
        },
    };
    let code = match doc.get("resultCode") {
        Some(PlistValue::Integer(i)) => *i,
        Some(PlistValue::Unsigned(u)) => {
            if *u <= 0x7fff_ffff_ffff_ffff {
                *u as i64
            } else {
                0
            }
        },
        _ => {
            return Err(Error::Parse);
        },
    };
    if code != 0 {
        let message = match doc.get_string("resultString") {
            Some(m) => m.clone(),
            None => "Unknown".to_owned(),
        };
        return Err(Error::DeveloperSession(code, message));
    }
    Ok(doc)
}

} // verus!

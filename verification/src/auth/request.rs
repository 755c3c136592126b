//! The headers that go with each kind of request, and the method it is sent
//! with.
//!
//! A list of headers is a list of steps: each either sets a header, in place
//! of any of that name set before, or adds one beside them.

use vstd::prelude::*;
use vstd::utf8::encode_utf8;
use crate::auth::session_string;
use crate::auth::Account;
use crate::crypto::base64_encode;
use crate::crypto::base64_text;
use crate::error::Error;
use crate::error::ErrorModel;
use crate::text::concat;

verus! {

/// The method that a request to the developer portal stands for.
#[derive(Debug, Clone, Copy, PartialEq, Eq, Structural)]
pub enum RequestType {
    Get,
    Post,
    Patch,
}

/// The method that a request is sent with.
#[derive(Debug, Clone, Copy, PartialEq, Eq, Structural)]
pub enum HttpMethod {
    Get,
    Post,
    Patch,
    Put,
}

/// One step in building the headers of a request.
#[derive(Debug)]
pub struct Header {
    pub name: String,
    pub value: String,
    /// Added beside the headers of that name, not set in their place.
    pub append: bool,
}

/// What a header step means.
pub struct HeaderModel {
    pub name: Seq<char>,
    pub value: Seq<char>,
    pub append: bool,
}

impl View for Header {
    type V = HeaderModel;

    open spec fn view(&self) -> HeaderModel {
        HeaderModel { name: self.name@, value: self.value@, append: self.append }
    }
}

/// A step that sets a header.
pub open spec fn set(name: Seq<char>, value: Seq<char>) -> HeaderModel {
    HeaderModel { name, value, append: false }
}

/// A step that adds a header.
pub open spec fn add_beside(name: Seq<char>, value: Seq<char>) -> HeaderModel {
    HeaderModel { name, value, append: true }
}

/// What a list of header steps means.
pub open spec fn headers_view(headers: Seq<Header>) -> Seq<HeaderModel> {
    Seq::new(headers.len(), |i: int| headers[i]@)
}

/// The steps that carry the pairs given, in their order.
pub open spec fn pairs_as_headers(pairs: Seq<(String, String)>, append: bool) -> Seq<HeaderModel> {
    Seq::new(
        pairs.len(),
        |i: int| HeaderModel { name: pairs[i].0@, value: pairs[i].1@, append },
    )
}

pub(crate) fn push_header(out: &mut Vec<Header>, name: &str, value: &str, append: bool)
    ensures
        headers_view(final(out)@) == headers_view(old(out)@).push(
            HeaderModel { name: name@, value: value@, append },
        ),
{
    out.push(Header { name: name.to_owned(), value: value.to_owned(), append });
    assert(headers_view(out@) =~= headers_view(old(out)@).push(
        HeaderModel { name: name@, value: value@, append },
    ));
}

fn push_pairs(out: &mut Vec<Header>, pairs: &Vec<(String, String)>, append: bool)
    ensures
        headers_view(final(out)@) == headers_view(old(out)@) + pairs_as_headers(pairs@, append),
{
    let mut i: usize = 0;
    assert(headers_view(out@) =~= headers_view(old(out)@) + pairs_as_headers(pairs@, append).take(
        0,
    ));
    while i < pairs.len()
        invariant
            i <= pairs.len(),
            headers_view(out@) == headers_view(old(out)@) + pairs_as_headers(
                pairs@,
                append,
            ).take(i as int),
        decreases pairs.len() - i,
    {
        push_header(out, pairs[i].0.as_str(), pairs[i].1.as_str(), append);
        assert(pairs_as_headers(pairs@, append).take(i + 1) =~= pairs_as_headers(
            pairs@,
            append,
        ).take(i as int).push(pairs_as_headers(pairs@, append)[i as int]));
        assert(headers_view(out@) =~= headers_view(old(out)@) + pairs_as_headers(
            pairs@,
            append,
        ).take(i + 1));
        i = i + 1;
    }
    assert(pairs_as_headers(pairs@, append).take(pairs.len() as int) =~= pairs_as_headers(
        pairs@,
        append,
    ));
}

/// The headers of a request to the authentication service.
pub open spec fn gsa_header_steps(client_info: Seq<char>) -> Seq<HeaderModel> {
    seq![
        set("Content-Type"@, "text/x-xml-plist"@),
        set("Accept"@, "*/*"@),
        set("User-Agent"@, "akd/1.0 CFNetwork/978.0.7 Darwin/18.7.0"@),
        set("X-MMe-Client-Info"@, client_info),
    ]
}

/// The headers of a request to the authentication service, with the
/// client information of the device.
pub fn gsa_headers(client_info: &str) -> (r: Vec<Header>)
    ensures
        headers_view(r@) == gsa_header_steps(client_info@),
{
    let mut out: Vec<Header> = Vec::new();
    assert(headers_view(out@) =~= Seq::<HeaderModel>::empty());
    push_header(&mut out, "Content-Type", "text/x-xml-plist", false);
    push_header(&mut out, "Accept", "*/*", false);
    push_header(&mut out, "User-Agent", "akd/1.0 CFNetwork/978.0.7 Darwin/18.7.0", false);
    push_header(&mut out, "X-MMe-Client-Info", client_info, false);
    assert(headers_view(out@) =~= gsa_header_steps(client_info@));
    out
}

/// The token that identifies a session to the second-factor endpoints: the
/// base64 text of the account id, a colon and the session token.
pub open spec fn identity_token(dsid: Seq<char>, token: Seq<char>) -> Seq<char> {
    base64_text(encode_utf8(dsid + ":"@ + token))
}

/// The account id and the session token of a session.
pub open spec fn identity_of(account: Account) -> Option<(Seq<char>, Seq<char>)> {
    match (session_string(account, "adsid"@), session_string(account, "GsIdmsToken"@)) {
        (Some(dsid), Some(token)) => Some((dsid, token)),
        _ => None,
    }
}

/// The longest identity, in bytes, that a token is made for.
pub const MAX_IDENTITY_BYTES: usize = 0x4000_0000;

/// The headers of a request to a second-factor endpoint: the device's
/// identity headers, the content types of a property list unless the request
/// is about SMS, the agent and the language, the identity token and the
/// locale. `Parse` where the session is incomplete or the identity is longer
/// than a token is made for.
pub open spec fn two_factor_header_steps(
    account: Account,
    sms: bool,
    anisette: Seq<(String, String)>,
    locale: Seq<char>,
) -> Result<Seq<HeaderModel>, ErrorModel> {
    match identity_of(account) {
        None => Err(ErrorModel::Parse),
        Some((dsid, token)) => if encode_utf8(dsid + ":"@ + token).len() > MAX_IDENTITY_BYTES {
            Err(ErrorModel::Parse)
        } else {
            Ok(
                pairs_as_headers(anisette, true) + (if sms {
                    Seq::<HeaderModel>::empty()
                } else {
                    seq![
                        set("Content-Type"@, "text/x-xml-plist"@),
                        set("Accept"@, "text/x-xml-plist"@),
                    ]
                }) + seq![
                    set("User-Agent"@, "Xcode"@),
                    set("Accept-Language"@, "en-us"@),
                    add_beside("X-Apple-Identity-Token"@, identity_token(dsid, token)),
                    set("Loc"@, locale),
                ],
            )
        },
    }
}

impl Account {
    /// The headers of a request to a second-factor endpoint.
    pub fn build_2fa_headers(
        &self,
        sms: bool,
        anisette: &Vec<(String, String)>,
        locale: &str,
    ) -> (r: Result<Vec<Header>, Error>)
        ensures
            match r {
                Ok(headers) => two_factor_header_steps(*self, sms, anisette@, locale@) == Ok::<
                    Seq<HeaderModel>,
                    ErrorModel,
                >(headers_view(headers@)),
                Err(e) => two_factor_header_steps(*self, sms, anisette@, locale@) == Err::<
                    Seq<HeaderModel>,
                    ErrorModel,
                >(e@),
            },
    {
        let dsid = match self.session_text("adsid") {
            Some(s) => s,
            None => {
                return Err(Error::Parse);
            },
        };
        let token = match self.session_text("GsIdmsToken") {
            Some(s) => s,
            None => {
                return Err(Error::Parse);
            },
        };
        let head = concat(dsid.as_str(), ":");
        let identity = concat(head.as_str(), token.as_str());
        let identity_bytes = identity.as_str().as_bytes();
        if identity_bytes.len() > MAX_IDENTITY_BYTES {
            return Err(Error::Parse);
        }
        let encoded = base64_encode(identity_bytes);
        let mut out: Vec<Header> = Vec::new();
        assert(headers_view(out@) =~= Seq::<HeaderModel>::empty());
        push_pairs(&mut out, anisette, true);
        if !sms {
            push_header(&mut out, "Content-Type", "text/x-xml-plist", false);
            push_header(&mut out, "Accept", "text/x-xml-plist", false);
        }
        push_header(&mut out, "User-Agent", "Xcode", false);
        push_header(&mut out, "Accept-Language", "en-us", false);
        push_header(&mut out, "X-Apple-Identity-Token", encoded.as_str(), true);
        push_header(&mut out, "Loc", locale, false);
        assert(headers_view(out@) =~= two_factor_header_steps(*self, sms, anisette@, locale@)->Ok_0);
        Ok(out)
    }
}

/// The headers that both dialects of the developer portal share after
/// their content types: the language, the agent, the account id, the
/// application token, the device's identity headers and, where the device
/// tells one, the locale.
pub open spec fn portal_common_steps(
    dsid: Seq<char>,
    app_token: Seq<char>,
    anisette: Seq<(String, String)>,
    locale: Option<Seq<char>>,
) -> Seq<HeaderModel> {
    seq![set("X-Apple-I-Identity-Id"@, dsid), set("X-Apple-GS-Token"@, app_token)]
        + pairs_as_headers(anisette, false) + (match locale {
        Some(l) => seq![set("X-Apple-Locale"@, l)],
        None => Seq::<HeaderModel>::empty(),
    })
}

/// The headers of a request in the property-list dialect of the portal.
pub open spec fn qh_header_steps(
    account: Account,
    app_token: Seq<char>,
    anisette: Seq<(String, String)>,
    locale: Option<Seq<char>>,
) -> Result<Seq<HeaderModel>, ErrorModel> {
    match session_string(account, "adsid"@) {
        None => Err(ErrorModel::Parse),
        Some(dsid) => Ok(
            seq![
                set("Content-Type"@, "text/x-xml-plist"@),
                set("Accept"@, "text/x-xml-plist"@),
                set("Accept-Language"@, "en-us"@),
                set("User-Agent"@, "Xcode"@),
            ] + portal_common_steps(dsid, app_token, anisette, locale),
        ),
    }
}

/// The headers of a request in the JSON dialect of the portal. A request
/// that stands for a GET says so in a header of its own, since it is sent as
/// a POST.
pub open spec fn v1_header_steps(
    account: Account,
    app_token: Seq<char>,
    anisette: Seq<(String, String)>,
    locale: Option<Seq<char>>,
    request_type: Option<RequestType>,
) -> Result<Seq<HeaderModel>, ErrorModel> {
    match session_string(account, "adsid"@) {
        None => Err(ErrorModel::Parse),
        Some(dsid) => Ok(
            seq![
                set("Content-Type"@, "application/vnd.api+json"@),
                set("Accept"@, "application/json, text/plain, */*"@),
                set("Accept-Language"@, "en-us"@),
                set("User-Agent"@, "Xcode"@),
                set("X-Requested-With"@, "XMLHttpRequest"@),
            ] + portal_common_steps(dsid, app_token, anisette, locale) + (if request_type
                == Some(RequestType::Get) {
                seq![set("X-HTTP-Method-Override"@, "GET"@)]
            } else {
                Seq::<HeaderModel>::empty()
            }),
        ),
    }
}

fn push_common(
    out: &mut Vec<Header>,
    dsid: &str,
    app_token: &str,
    anisette: &Vec<(String, String)>,
    locale: Option<&str>,
)
    ensures
        headers_view(final(out)@) == headers_view(old(out)@) + portal_common_steps(
            dsid@,
            app_token@,
            anisette@,
            match locale {
                Some(l) => Some(l@),
                None => None,
            },
        ),
{
    push_header(out, "X-Apple-I-Identity-Id", dsid, false);
    push_header(out, "X-Apple-GS-Token", app_token, false);
    push_pairs(out, anisette, false);
    match locale {
        Some(l) => {
            push_header(out, "X-Apple-Locale", l, false);
        },
        None => {},
    }
    assert(headers_view(out@) =~= headers_view(old(out)@) + portal_common_steps(
        dsid@,
        app_token@,
        anisette@,
        match locale {
            Some(l) => Some(l@),
            None => None,
        },
    ));
}

impl Account {
    /// The headers of a request in the property-list dialect of the portal.
    pub fn qh_headers(
        &self,
        app_token: &str,
        anisette: &Vec<(String, String)>,
        locale: Option<&str>,
    ) -> (r: Result<Vec<Header>, Error>)
        ensures
            match r {
                Ok(headers) => qh_header_steps(
                    *self,
                    app_token@,
                    anisette@,
                    match locale {
                        Some(l) => Some(l@),
                        None => None,
                    },
                ) == Ok::<Seq<HeaderModel>, ErrorModel>(headers_view(headers@)),
                Err(e) => qh_header_steps(
                    *self,
                    app_token@,
                    anisette@,
                    match locale {
                        Some(l) => Some(l@),
                        None => None,
                    },
                ) == Err::<Seq<HeaderModel>, ErrorModel>(e@),
            },
    {
        let dsid = match self.session_text("adsid") {
            Some(s) => s,
            None => {
                return Err(Error::Parse);
            },
        };
        let mut out: Vec<Header> = Vec::new();
        assert(headers_view(out@) =~= Seq::<HeaderModel>::empty());
        push_header(&mut out, "Content-Type", "text/x-xml-plist", false);
        push_header(&mut out, "Accept", "text/x-xml-plist", false);
        push_header(&mut out, "Accept-Language", "en-us", false);
        push_header(&mut out, "User-Agent", "Xcode", false);
        let ghost fixed = headers_view(out@);
        assert(fixed =~= seq![
            set("Content-Type"@, "text/x-xml-plist"@),
            set("Accept"@, "text/x-xml-plist"@),
            set("Accept-Language"@, "en-us"@),
            set("User-Agent"@, "Xcode"@),
        ]);
        push_common(&mut out, dsid.as_str(), app_token, anisette, locale);
        Ok(out)
    }

    /// The headers of a request in the JSON dialect of the portal.
    pub fn v1_headers(
        &self,
        app_token: &str,
        anisette: &Vec<(String, String)>,
        locale: Option<&str>,
        request_type: Option<RequestType>,
    ) -> (r: Result<Vec<Header>, Error>)
        ensures
            match r {
                Ok(headers) => v1_header_steps(
                    *self,
                    app_token@,
                    anisette@,
                    match locale {
                        Some(l) => Some(l@),
                        None => None,
                    },
                    request_type,
                ) == Ok::<Seq<HeaderModel>, ErrorModel>(headers_view(headers@)),
                Err(e) => v1_header_steps(
                    *self,
                    app_token@,
                    anisette@,
                    match locale {
                        Some(l) => Some(l@),
                        None => None,
                    },
                    request_type,
                ) == Err::<Seq<HeaderModel>, ErrorModel>(e@),
            },
    {
        let dsid = match self.session_text("adsid") {
            Some(s) => s,
            None => {
                return Err(Error::Parse);
            },
        };
        let mut out: Vec<Header> = Vec::new();
        assert(headers_view(out@) =~= Seq::<HeaderModel>::empty());
        push_header(&mut out, "Content-Type", "application/vnd.api+json", false);
        push_header(&mut out, "Accept", "application/json, text/plain, */*", false);
        push_header(&mut out, "Accept-Language", "en-us", false);
        push_header(&mut out, "User-Agent", "Xcode", false);
        push_header(&mut out, "X-Requested-With", "XMLHttpRequest", false);
        let ghost fixed = headers_view(out@);
        assert(fixed =~= seq![
            set("Content-Type"@, "application/vnd.api+json"@),
            set("Accept"@, "application/json, text/plain, */*"@),
            set("Accept-Language"@, "en-us"@),
            set("User-Agent"@, "Xcode"@),
            set("X-Requested-With"@, "XMLHttpRequest"@),
        ]);
        push_common(&mut out, dsid.as_str(), app_token, anisette, locale);
        match request_type {
            Some(RequestType::Get) => {
                push_header(&mut out, "X-HTTP-Method-Override", "GET", false);
            },
            _ => {},
        }
        assert(headers_view(out@) =~= v1_header_steps(
            *self,
            app_token@,
            anisette@,
            match locale {
                Some(l) => Some(l@),
                None => None,
            },
            request_type,
        )->Ok_0);
        Ok(out)
    }
}

/// The method of every request to the authentication service.
pub fn gsa_method() -> (m: HttpMethod)
    ensures
        m == HttpMethod::Post,
{
    HttpMethod::Post
}

/// The method of a request in the property-list dialect: a request with a
/// body is posted, one without is a GET.
pub fn qh_method(has_body: bool) -> (m: HttpMethod)
    ensures
        m == (if has_body {
            HttpMethod::Post
        } else {
            HttpMethod::Get
        }),
{
    if has_body {
        HttpMethod::Post
    } else {
        HttpMethod::Get
    }
}

/// The method of a request in the JSON dialect: a request with a body is
/// patched where it stands for a PATCH and posted otherwise, also where it
/// stands for a GET; one without a body is a GET.
pub open spec fn v1_method_for(request_type: Option<RequestType>, has_body: bool) -> HttpMethod {
    if !has_body {
        HttpMethod::Get
    } else if request_type == Some(RequestType::Patch) {
        HttpMethod::Patch
    } else {
        HttpMethod::Post
    }
}

/// The method of a request in the JSON dialect.
pub fn v1_method(request_type: Option<RequestType>, has_body: bool) -> (m: HttpMethod)
    ensures
        m == v1_method_for(request_type, has_body),
{
    if !has_body {
        return HttpMethod::Get;
    }
    match request_type {
        Some(RequestType::Patch) => HttpMethod::Patch,
        _ => HttpMethod::Post,
    }
}

} // verus!

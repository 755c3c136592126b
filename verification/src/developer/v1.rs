//! The newer dialect of the portal: requests and answers are JSON.

use vstd::prelude::*;
use crate::auth::request::RequestType;
use crate::developer::developer_endpoint;
use crate::developer::endpoint_text;
use crate::developer::qh::first_match;
use crate::developer::qh::no_match;
use crate::error::Error;
use crate::error::ErrorModel;
use crate::json::json_document;
use crate::json::json_first;
use crate::json::json_get;
use crate::json::json_items;
use crate::json::json_members;
use crate::json::json_string;
use crate::json::member;
use crate::json::Json;
use crate::json::JsonValue;
use crate::json::Member;
use crate::text::concat;
use crate::text::parse_integer;
use crate::text::parsed_integer;
use crate::text::str_equal;

verus! {

/// What the portal tells of an application identifier.
#[derive(Debug)]
pub struct AppIDAttributes {
    pub identifier: String,
    pub seed_id: String,
    pub has_exclusive_managed_capabilities: bool,
    pub name: String,
    pub bundle_type: String,
    pub wildcard: bool,
}

/// An application identifier registered with the portal.
#[derive(Debug)]
pub struct AppID {
    pub id: String,
    pub attributes: AppIDAttributes,
}

/// The application identifiers of a team.
#[derive(Debug)]
pub struct AppIDsResponse {
    pub data: Vec<AppID>,
}

/// One application identifier, as the answer to its change.
#[derive(Debug)]
pub struct AppIDResponse {
    pub data: AppID,
}

/// An entitlement key that a capability stands behind.
#[derive(Debug)]
pub struct CapabilityEntitlement {
    pub profile_key: String,
}

/// What the portal tells of a capability.
#[derive(Debug)]
pub struct CapabilityAttributes {
    pub entitlements: Option<Vec<CapabilityEntitlement>>,
    pub supports_wildcard: bool,
}

/// A capability that can be enabled on an application identifier.
#[derive(Debug)]
pub struct Capability {
    pub id: String,
    pub attributes: CapabilityAttributes,
}

/// The capabilities that the portal knows.
#[derive(Debug)]
pub struct CapabilitiesResponse {
    pub data: Vec<Capability>,
}

/// A request in the JSON dialect: where it goes, what it says and what
/// method it stands for.
pub struct V1Request {
    pub url: String,
    pub body: Option<JsonValue>,
    pub request_type: Option<RequestType>,
}

/// What a request in the JSON dialect means.
pub struct V1RequestModel {
    pub url: Seq<char>,
    pub body: Option<Json>,
    pub request_type: Option<RequestType>,
}

impl View for V1Request {
    type V = V1RequestModel;

    open spec fn view(&self) -> V1RequestModel {
        V1RequestModel {
            url: self.url@,
            body: match self.body {
                Some(b) => Some(b@),
                None => None,
            },
            request_type: self.request_type,
        }
    }
}

/// A member that holds a string.
pub open spec fn text_member(name: Seq<char>, value: Seq<char>) -> Member {
    member(name, Json::String(value))
}

fn push_member(members: &mut Vec<(String, JsonValue)>, name: &str, value: JsonValue)
    ensures
        json_members(final(members)@) == json_members(old(members)@).push(member(name@, value@)),
{
    members.push((name.to_owned(), value));
    assert(json_members(members@) =~= json_members(old(members)@).push(member(name@, value@)));
}

fn new_members() -> (r: Vec<(String, JsonValue)>)
    ensures
        json_members(r@) == Seq::<Member>::empty(),
{
    let r: Vec<(String, JsonValue)> = Vec::new();
    assert(json_members(r@) =~= Seq::<Member>::empty());
    r
}

/// A question put to the service at `path`: the team, and the parameters
/// of the query in the form of a URL.
pub open spec fn query_model(path: Seq<char>, team: Seq<char>, query: Seq<char>) -> V1RequestModel {
    V1RequestModel {
        url: endpoint_text(path),
        body: Some(
            Json::Object(
                seq![text_member("teamId"@, team), text_member("urlEncodedQueryParams"@, query)],
            ),
        ),
        request_type: Some(RequestType::Get),
    }
}

fn query(path: &str, team: &str, params: &str) -> (r: V1Request)
    ensures
        r@ == query_model(path@, team@, params@),
{
    let mut members = new_members();
    push_member(&mut members, "teamId", JsonValue::text(team));
    push_member(&mut members, "urlEncodedQueryParams", JsonValue::text(params));
    assert(json_members(members@) =~= seq![
        text_member("teamId"@, team@),
        text_member("urlEncodedQueryParams"@, params@),
    ]);
    V1Request {
        url: developer_endpoint(path),
        body: Some(JsonValue::object(members)),
        request_type: Some(RequestType::Get),
    }
}

/// Asks for the application identifiers of a team, a thousand at most.
pub fn v1_list_app_ids_request(team: &str) -> (r: V1Request)
    ensures
        r@ == query_model("/v1/bundleIds"@, team@, "limit=1000"@),
{
    query("/v1/bundleIds", team, "limit=1000")
}

/// Asks for the capabilities that the portal knows for iOS.
pub fn v1_list_capabilities_request(team: &str) -> (r: V1Request)
    ensures
        r@ == query_model("/v1/capabilities"@, team@, "filter[platform]=IOS"@),
{
    query("/v1/capabilities", team, "filter[platform]=IOS")
}

/// The identifiers of the application identifiers listed.
pub open spec fn v1_identifiers(list: Seq<AppID>) -> Seq<Seq<char>> {
    Seq::new(list.len(), |i: int| list[i].attributes.identifier@)
}

/// The first application identifier with the identifier given.
pub fn v1_get_app_id(list: &Vec<AppID>, app_id: &str) -> (r: Option<usize>)
    ensures
        match r {
            Some(i) => first_match(v1_identifiers(list@), app_id@, i as int),
            None => no_match(v1_identifiers(list@), app_id@),
        },
{
    let mut i: usize = 0;
    while i < list.len()
        invariant
            i <= list.len(),
            forall|j: int| 0 <= j < i ==> v1_identifiers(list@)[j] != app_id@,
        decreases list.len() - i,
    {
        if str_equal(list[i].attributes.identifier.as_str(), app_id) {
            return Some(i);
        }
        i = i + 1;
    }
    None
}

/// What enables one capability on an application identifier.
pub open spec fn capability_model(capability_id: Seq<char>) -> Json {
    Json::Object(
        seq![
            text_member("type"@, "bundleIdCapabilities"@),
            member(
                "attributes"@,
                Json::Object(
                    seq![
                        member("enabled"@, Json::Bool(true)),
                        member("settings"@, Json::Array(Seq::empty())),
                    ],
                ),
            ),
            member(
                "relationships"@,
                Json::Object(
                    seq![
                        member(
                            "capability"@,
                            Json::Object(
                                seq![
                                    member(
                                        "data"@,
                                        Json::Object(
                                            seq![
                                                text_member("type"@, "capabilities"@),
                                                text_member("id"@, capability_id),
                                            ],
                                        ),
                                    ),
                                ],
                            ),
                        ),
                    ],
                ),
            ),
        ],
    )
}

/// What enables each of the capabilities named, in their order.
pub open spec fn capability_models(ids: Seq<String>) -> Seq<Json> {
    Seq::new(ids.len(), |i: int| capability_model(ids[i]@))
}

/// The document that enables capabilities on an application identifier:
/// the identifier as the portal holds it, with the capabilities to enable.
pub open spec fn update_model(team: Seq<char>, app: AppID, capabilities: Seq<String>) -> Json {
    Json::Object(
        seq![
            member(
                "data"@,
                Json::Object(
                    seq![
                        text_member("type"@, "bundleIds"@),
                        text_member("id"@, app.id@),
                        member(
                            "attributes"@,
                            Json::Object(
                                seq![
                                    text_member("identifier"@, app.attributes.identifier@),
                                    text_member("seedId"@, app.attributes.seed_id@),
                                    text_member("teamId"@, team),
                                    text_member("name"@, app.attributes.name@),
                                    member("wildcard"@, Json::Bool(app.attributes.wildcard)),
                                ],
                            ),
                        ),
                        member(
                            "relationships"@,
                            Json::Object(
                                seq![
                                    member(
                                        "bundleIdCapabilities"@,
                                        Json::Object(
                                            seq![
                                                member(
                                                    "data"@,
                                                    Json::Array(capability_models(capabilities)),
                                                ),
                                            ],
                                        ),
                                    ),
                                ],
                            ),
                        ),
                    ],
                ),
            ),
        ],
    )
}

fn capability_entry(capability_id: &str) -> (r: JsonValue)
    ensures
        r@ == capability_model(capability_id@),
{
    let mut target = new_members();
    push_member(&mut target, "type", JsonValue::text("capabilities"));
    push_member(&mut target, "id", JsonValue::text(capability_id));
    assert(json_members(target@) =~= seq![
        text_member("type"@, "capabilities"@),
        text_member("id"@, capability_id@),
    ]);
    let mut capability = new_members();
    push_member(&mut capability, "data", JsonValue::object(target));
    assert(json_members(capability@) =~= seq![
        member(
            "data"@,
            Json::Object(
                seq![text_member("type"@, "capabilities"@), text_member("id"@, capability_id@)],
            ),
        ),
    ]);
    let mut relationships = new_members();
    push_member(&mut relationships, "capability", JsonValue::object(capability));
    assert(json_members(relationships@) =~= seq![
        member("capability"@, Json::Object(json_members(capability@))),
    ]);
    let none: Vec<JsonValue> = Vec::new();
    assert(json_items(none@) =~= Seq::<Json>::empty());
    let mut attributes = new_members();
    push_member(&mut attributes, "enabled", JsonValue::Bool(true));
    push_member(&mut attributes, "settings", JsonValue::array(none));
    assert(json_members(attributes@) =~= seq![
        member("enabled"@, Json::Bool(true)),
        member("settings"@, Json::Array(Seq::empty())),
    ]);
    let mut entry = new_members();
    push_member(&mut entry, "type", JsonValue::text("bundleIdCapabilities"));
    push_member(&mut entry, "attributes", JsonValue::object(attributes));
    push_member(&mut entry, "relationships", JsonValue::object(relationships));
    assert(json_members(entry@) =~= seq![
        text_member("type"@, "bundleIdCapabilities"@),
        member("attributes"@, Json::Object(json_members(attributes@))),
        member("relationships"@, Json::Object(json_members(relationships@))),
    ]);
    JsonValue::object(entry)
}

fn update_document(team: &str, app: &AppID, capabilities: &Vec<String>) -> (r: JsonValue)
    ensures
        r@ == update_model(team@, *app, capabilities@),
{
    let mut enabled: Vec<JsonValue> = Vec::new();
    let mut i: usize = 0;
    while i < capabilities.len()
        invariant
            i <= capabilities.len(),
            enabled.len() == i,
            forall|j: int| 0 <= j < i ==> enabled@[j]@ == capability_model(capabilities@[j]@),
        decreases capabilities.len() - i,
    {
        enabled.push(capability_entry(capabilities[i].as_str()));
        i = i + 1;
    }
    assert(json_items(enabled@) =~= capability_models(capabilities@));
    let mut list = new_members();
    push_member(&mut list, "data", JsonValue::array(enabled));
    assert(json_members(list@) =~= seq![
        member("data"@, Json::Array(capability_models(capabilities@))),
    ]);
    let mut relationships = new_members();
    push_member(&mut relationships, "bundleIdCapabilities", JsonValue::object(list));
    assert(json_members(relationships@) =~= seq![
        member("bundleIdCapabilities"@, Json::Object(json_members(list@))),
    ]);
    let mut attributes = new_members();
    push_member(&mut attributes, "identifier", JsonValue::text(app.attributes.identifier.as_str()));
    push_member(&mut attributes, "seedId", JsonValue::text(app.attributes.seed_id.as_str()));
    push_member(&mut attributes, "teamId", JsonValue::text(team));
    push_member(&mut attributes, "name", JsonValue::text(app.attributes.name.as_str()));
    push_member(&mut attributes, "wildcard", JsonValue::Bool(app.attributes.wildcard));
    assert(json_members(attributes@) =~= seq![
        text_member("identifier"@, app.attributes.identifier@),
        text_member("seedId"@, app.attributes.seed_id@),
        text_member("teamId"@, team@),
        text_member("name"@, app.attributes.name@),
        member("wildcard"@, Json::Bool(app.attributes.wildcard)),
    ]);
    let mut data = new_members();
    push_member(&mut data, "type", JsonValue::text("bundleIds"));
    push_member(&mut data, "id", JsonValue::text(app.id.as_str()));
    push_member(&mut data, "attributes", JsonValue::object(attributes));
    push_member(&mut data, "relationships", JsonValue::object(relationships));
    assert(json_members(data@) =~= seq![
        text_member("type"@, "bundleIds"@),
        text_member("id"@, app.id@),
        member("attributes"@, Json::Object(json_members(attributes@))),
        member("relationships"@, Json::Object(json_members(relationships@))),
    ]);
    let mut root = new_members();
    push_member(&mut root, "data", JsonValue::object(data));
    assert(json_members(root@) =~= seq![member("data"@, Json::Object(json_members(data@)))]);
    JsonValue::object(root)
}

/// The request that enables capabilities on the application identifier
/// with the identifier given: a PATCH to the address of that identifier.
/// Where the list holds no such identifier there is nothing to ask.
pub fn v1_update_app_id_request(
    list: &Vec<AppID>,
    team: &str,
    app_id: &str,
    capabilities: &Vec<String>,
) -> (r: Result<V1Request, Error>)
    ensures
        match r {
            Ok(request) => exists|i: int|
                first_match(v1_identifiers(list@), app_id@, i) && request@ == (V1RequestModel {
                    url: endpoint_text("/v1/bundleIds/"@ + list@[i].id@),
                    body: Some(update_model(team@, list@[i], capabilities@)),
                    request_type: Some(RequestType::Patch),
                }),
            Err(e) => no_match(v1_identifiers(list@), app_id@) && e@
                == ErrorModel::DeveloperSessionRequestFailed,
        },
{
    let i = match v1_get_app_id(list, app_id) {
        Some(i) => i,
        None => {
            return Err(Error::DeveloperSessionRequestFailed);
        },
    };
    let app = &list[i];
    let path = concat("/v1/bundleIds/", app.id.as_str());
    let request = V1Request {
        url: developer_endpoint(path.as_str()),
        body: Some(update_document(team, app, capabilities)),
        request_type: Some(RequestType::Patch),
    };
    assert(first_match(v1_identifiers(list@), app_id@, i as int));
    Ok(request)
}

/// The first error that an answer reports, where it reports one.
pub open spec fn first_error(doc: Json) -> Option<Json> {
    match json_get(doc, "errors"@) {
        Some(errors) => json_first(errors),
        None => None,
    }
}

/// The status of a reported error as a number; zero where it is none.
pub open spec fn error_status(error: Json) -> int {
    match json_get(error, "status"@) {
        Some(s) => match json_string(s) {
            Some(text) => match parsed_integer(text) {
                Some(n) => n,
                None => 0,
            },
            None => 0,
        },
        None => 0,
    }
}

/// The detail of a reported error.
pub open spec fn error_detail(error: Json) -> Seq<char> {
    match json_get(error, "detail"@) {
        Some(d) => match json_string(d) {
            Some(text) => text,
            None => "Unknown error"@,
        },
        None => "Unknown error"@,
    }
}

/// What an answer in the JSON dialect comes to: the document, where it
/// reports no error; the portal's error with the status and the detail of
/// the first error reported; `DeveloperSessionRequestFailed` where the
/// answer is no JSON.
pub open spec fn v1_answer(body: Seq<u8>) -> Result<Json, ErrorModel> {
    match json_document(body) {
        Err(_) => Err(ErrorModel::DeveloperSessionRequestFailed),
        Ok(doc) => match first_error(doc) {
            Some(error) => Err(
                ErrorModel::DeveloperSession(error_status(error), error_detail(error)),
            ),
            None => Ok(doc),
        },
    }
}

/// Reads an answer in the JSON dialect.
pub fn v1_check_response(body: &[u8]) -> (r: Result<JsonValue, Error>)
    ensures
        match r {
            Ok(doc) => v1_answer(body@) == Ok::<Json, ErrorModel>(doc@),
            Err(e) => v1_answer(body@) == Err::<Json, ErrorModel>(e@),
        },
{
    let doc = match JsonValue::parse(body) {
        Ok(doc) => doc,
        Err(_) => {
            return Err(Error::DeveloperSessionRequestFailed);
        },
    };
    let failure = match doc.get("errors") {
        Some(errors) => match errors.first() {
            Some(error) => {
                let status = match error.get("status") {
                    Some(s) => match s.as_str() {
                        Some(text) => match parse_integer(text.as_str()) {
                            Some(n) => n,
                            None => 0,
                        },
                        None => 0,
                    },
                    None => 0,
                };
                let detail = match error.get("detail") {
                    Some(d) => match d.as_str() {
                        Some(text) => text.clone(),
                        None => "Unknown error".to_owned(),
                    },
                    None => "Unknown error".to_owned(),
                };
                Some(Error::DeveloperSession(status, detail))
            },
            None => None,
        },
        None => None,
    };
    match failure {
        Some(e) => Err(e),
        None => Ok(doc),
    }
}

} // verus!

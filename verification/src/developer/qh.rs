//! The older dialect of the portal: requests and answers are property lists.

use vstd::prelude::*;
use crate::crypto::identifier_shaped;
use crate::crypto::random_identifier;
use crate::developer::developer_endpoint;
use crate::developer::endpoint_text;
use crate::developer::merge_entries;
use crate::developer::merged;
use crate::developer::PortalRequest;
use crate::developer::PortalRequestModel;
use crate::property_list::entries_view;
use crate::property_list::entry;
use crate::property_list::items_view;
use crate::property_list::Entry;
use crate::property_list::Plist;
use crate::property_list::PlistValue;
use crate::text::chars_of;
use crate::text::str_equal;
use crate::text::string_of;

verus! {

/// How a request went, as every answer of this dialect tells.
#[derive(Debug)]
pub struct ResponseMeta {
    pub result_code: i64,
    pub result_string: Option<String>,
}

/// A developer, as the portal describes one.
#[derive(Debug)]
pub struct Developer {
    pub developer_id: String,
    pub person_id: String,
    pub first_name: String,
    pub last_name: String,
    pub ds_first_name: String,
    pub ds_last_name: String,
    pub email: String,
    pub developer_status: String,
}

/// The answer to a question about the developer of a team.
#[derive(Debug)]
pub struct ViewDeveloperResponse {
    pub developer: Developer,
    pub meta: ResponseMeta,
}

/// An application group. `application_group` is the portal's own id of the
/// group, `identifier` the identifier that an application names.
#[derive(Debug)]
pub struct ApplicationGroup {
    pub application_group: String,
    pub name: String,
    pub status: String,
    pub prefix: String,
    pub identifier: String,
}

/// The application groups of a team.
#[derive(Debug)]
pub struct AppGroupsResponse {
    pub application_group_list: Vec<ApplicationGroup>,
    pub meta: ResponseMeta,
}

/// One application group, as the answer to its creation.
#[derive(Debug)]
pub struct AppGroupResponse {
    pub application_group: ApplicationGroup,
    pub meta: ResponseMeta,
}

/// An application identifier registered with the portal.
#[derive(Debug)]
pub struct AppID {
    pub app_id_id: String,
    pub name: String,
    pub identifier: String,
}

/// The application identifiers of a team.
#[derive(Debug)]
pub struct AppIDsResponse {
    pub app_ids: Vec<AppID>,
    pub meta: ResponseMeta,
}

/// One application identifier, as the answer to its creation or change.
#[derive(Debug)]
pub struct AppIDResponse {
    pub app_id: AppID,
    pub meta: ResponseMeta,
}

/// The kind of a certificate.
#[derive(Debug)]
pub struct CertType {
    pub name: String,
}

/// A development certificate as the portal lists it.
#[derive(Debug)]
pub struct Cert {
    pub name: String,
    pub certificate_id: String,
    pub serial_number: String,
    pub status: String,
    pub cert_type: Option<CertType>,
    pub cert_content: Vec<u8>,
    pub machine_name: Option<String>,
}

/// The development certificates of a team.
#[derive(Debug)]
pub struct CertsResponse {
    pub certificates: Vec<Cert>,
    pub meta: ResponseMeta,
}

/// A certificate request as the portal took it in.
#[derive(Debug)]
pub struct Csr {
    pub certificate_id: String,
    pub certificate_type: Option<CertType>,
    pub machine_name: Option<String>,
}

/// The answer to a certificate request.
#[derive(Debug)]
pub struct CsrResponse {
    pub cert_request: Csr,
    pub meta: ResponseMeta,
}

/// A device registered with a team.
#[derive(Debug)]
pub struct Device {
    pub device_id: String,
    pub name: String,
    pub device_number: String,
    pub device_platform: String,
    pub status: String,
    pub device_class: String,
}

/// The devices of a team.
#[derive(Debug)]
pub struct DevicesResponse {
    pub devices: Vec<Device>,
    pub meta: ResponseMeta,
}

/// One device, as the answer to its registration.
#[derive(Debug)]
pub struct DeviceResponse {
    pub device: Device,
    pub meta: ResponseMeta,
}

/// A team that the account belongs to.
#[derive(Debug)]
pub struct Team {
    pub status: String,
    pub name: String,
    pub team_id: String,
    pub team_type: String,
}

/// The teams of an account.
#[derive(Debug)]
pub struct TeamsResponse {
    pub teams: Vec<Team>,
    pub meta: ResponseMeta,
}

/// Whether a character may not stand in the name of an application
/// identifier or an application group.
pub open spec fn is_invalid_name_char(c: char) -> bool {
    c == '\\' || c == '/' || c == ':' || c == '*' || c == '?' || c == '"' || c == '<' || c == '>'
        || c == '|' || c == '.'
}

/// A name without the characters that may not stand in it.
pub open spec fn stripped_name(name: Seq<char>) -> Seq<char> {
    name.filter(|c: char| !is_invalid_name_char(c))
}

/// Takes the characters out of a name that the portal does not accept in it.
pub fn strip_invalid_name_chars(name: &str) -> (r: String)
    ensures
        r@ == stripped_name(name@),
{
    let chars = chars_of(name);
    let mut out: Vec<char> = Vec::new();
    let mut i: usize = 0;
    let ghost keep = |c: char| !is_invalid_name_char(c);
    assert(chars@.take(0).filter(keep) =~= Seq::<char>::empty()) by {
        assert(chars@.take(0) =~= Seq::<char>::empty());
    }
    while i < chars.len()
        invariant
            i <= chars.len(),
            keep == |c: char| !is_invalid_name_char(c),
            out@ == chars@.take(i as int).filter(keep),
        decreases chars.len() - i,
    {
        let c = chars[i];
        proof {
            assert(chars@.take(i + 1) =~= chars@.take(i as int).push(c));
            Seq::<char>::lemma_filter_push(chars@.take(i as int), c, keep);
        }
        if !(c == '\\' || c == '/' || c == ':' || c == '*' || c == '?' || c == '"' || c == '<'
            || c == '>' || c == '|' || c == '.') {
            out.push(c);
        }
        i = i + 1;
    }
    assert(chars@.take(chars.len() as int) =~= chars@);
    string_of(&out)
}

/// A request to the service at `path` with the entries given as its body.
pub open spec fn portal_request(path: Seq<char>, entries: Seq<Entry>) -> PortalRequestModel {
    PortalRequestModel { url: endpoint_text(path), body: Some(Plist::Dictionary(entries)) }
}

/// An entry that holds a string.
pub open spec fn field(key: Seq<char>, value: Seq<char>) -> Entry {
    entry(key, Plist::String(value))
}

fn request_with(path: &str, fields: Vec<(String, PlistValue)>) -> (r: PortalRequest)
    ensures
        r@ == portal_request(path@, entries_view(fields@)),
{
    PortalRequest { url: developer_endpoint(path), body: Some(PlistValue::dictionary(fields)) }
}

fn push_field(fields: &mut Vec<(String, PlistValue)>, key: &str, value: &str)
    ensures
        entries_view(final(fields)@) == entries_view(old(fields)@).push(field(key@, value@)),
{
    fields.push((key.to_owned(), PlistValue::text(value)));
    assert(entries_view(fields@) =~= entries_view(old(fields)@).push(field(key@, value@)));
}

fn team_fields(team_id: &str) -> (r: Vec<(String, PlistValue)>)
    ensures
        entries_view(r@) == seq![field("teamId"@, team_id@)],
{
    let mut fields: Vec<(String, PlistValue)> = Vec::new();
    assert(entries_view(fields@) =~= Seq::<Entry>::empty());
    push_field(&mut fields, "teamId", team_id);
    assert(entries_view(fields@) =~= seq![field("teamId"@, team_id@)]);
    fields
}

/// Asks who the developer of a team is.
pub fn qh_get_account_info_request(team_id: &str) -> (r: PortalRequest)
    ensures
        r@ == portal_request("/QH65B2/viewDeveloper.action"@, seq![field("teamId"@, team_id@)]),
{
    request_with("/QH65B2/viewDeveloper.action", team_fields(team_id))
}

/// Asks for the teams of the account.
pub fn qh_list_teams_request() -> (r: PortalRequest)
    ensures
        r@ == (PortalRequestModel { url: endpoint_text("/QH65B2/listTeams.action"@), body: None }),
{
    PortalRequest { url: developer_endpoint("/QH65B2/listTeams.action"), body: None }
}

/// Asks for the application groups of a team.
pub fn qh_list_app_groups_request(team_id: &str) -> (r: PortalRequest)
    ensures
        r@ == portal_request(
            "/QH65B2/ios/listApplicationGroups.action"@,
            seq![field("teamId"@, team_id@)],
        ),
{
    request_with("/QH65B2/ios/listApplicationGroups.action", team_fields(team_id))
}

/// Asks for a new application group. The name goes without the characters
/// that the portal does not accept.
pub fn qh_add_app_group_request(team_id: &str, name: &str, identifier: &str) -> (r: PortalRequest)
    ensures
        r@ == portal_request(
            "/QH65B2/ios/addApplicationGroup.action"@,
            seq![
                field("teamId"@, team_id@),
                field("name"@, stripped_name(name@)),
                field("identifier"@, identifier@),
            ],
        ),
{
    let mut fields = team_fields(team_id);
    push_field(&mut fields, "name", strip_invalid_name_chars(name).as_str());
    push_field(&mut fields, "identifier", identifier);
    assert(entries_view(fields@) =~= seq![
        field("teamId"@, team_id@),
        field("name"@, stripped_name(name@)),
        field("identifier"@, identifier@),
    ]);
    request_with("/QH65B2/ios/addApplicationGroup.action", fields)
}

/// The strings as property-list values.
pub open spec fn string_items(ids: Seq<String>) -> Seq<Plist> {
    Seq::new(ids.len(), |i: int| Plist::String(ids[i]@))
}

/// Asks to give an application identifier the groups named, all in one.
pub fn qh_assign_app_group_request(team_id: &str, app_id_id: &str, app_group_ids: &Vec<String>) -> (r:
    PortalRequest)
    ensures
        r@ == portal_request(
            "/QH65B2/ios/assignApplicationGroupToAppId.action"@,
            seq![
                field("teamId"@, team_id@),
                field("appIdId"@, app_id_id@),
                entry("applicationGroups"@, Plist::Array(string_items(app_group_ids@))),
            ],
        ),
{
    let mut groups: Vec<PlistValue> = Vec::new();
    let mut i: usize = 0;
    while i < app_group_ids.len()
        invariant
            i <= app_group_ids.len(),
            groups.len() == i,
            forall|j: int| 0 <= j < i ==> groups@[j]@ == Plist::String(app_group_ids@[j]@),
        decreases app_group_ids.len() - i,
    {
        groups.push(PlistValue::text(app_group_ids[i].as_str()));
        i = i + 1;
    }
    assert(items_view(groups@) =~= string_items(app_group_ids@));
    let mut fields = team_fields(team_id);
    push_field(&mut fields, "appIdId", app_id_id);
    let ghost before = entries_view(fields@);
    let list = PlistValue::array(groups);
    fields.push(("applicationGroups".to_owned(), list));
    assert(entries_view(fields@) =~= before.push(
        entry("applicationGroups"@, Plist::Array(string_items(app_group_ids@))),
    ));
    assert(entries_view(fields@) =~= seq![
        field("teamId"@, team_id@),
        field("appIdId"@, app_id_id@),
        entry("applicationGroups"@, Plist::Array(string_items(app_group_ids@))),
    ]);
    request_with("/QH65B2/ios/assignApplicationGroupToAppId.action", fields)
}

/// Asks for the application identifiers of a team.
pub fn qh_list_app_ids_request(team_id: &str) -> (r: PortalRequest)
    ensures
        r@ == portal_request("/QH65B2/ios/listAppIds.action"@, seq![field("teamId"@, team_id@)]),
{
    request_with("/QH65B2/ios/listAppIds.action", team_fields(team_id))
}

/// Asks for a new application identifier. The name goes without the
/// characters that the portal does not accept.
pub fn qh_add_app_id_request(team_id: &str, name: &str, identifier: &str) -> (r: PortalRequest)
    ensures
        r@ == portal_request(
            "/QH65B2/ios/addAppId.action"@,
            seq![
                field("teamId"@, team_id@),
                field("name"@, stripped_name(name@)),
                field("identifier"@, identifier@),
            ],
        ),
{
    let mut fields = team_fields(team_id);
    push_field(&mut fields, "name", strip_invalid_name_chars(name).as_str());
    push_field(&mut fields, "identifier", identifier);
    assert(entries_view(fields@) =~= seq![
        field("teamId"@, team_id@),
        field("name"@, stripped_name(name@)),
        field("identifier"@, identifier@),
    ]);
    request_with("/QH65B2/ios/addAppId.action", fields)
}

fn app_id_fields(team_id: &str, app_id_id: &str) -> (r: Vec<(String, PlistValue)>)
    ensures
        entries_view(r@) == seq![field("teamId"@, team_id@), field("appIdId"@, app_id_id@)],
{
    let mut fields = team_fields(team_id);
    push_field(&mut fields, "appIdId", app_id_id);
    assert(entries_view(fields@) =~= seq![
        field("teamId"@, team_id@),
        field("appIdId"@, app_id_id@),
    ]);
    fields
}

/// Asks to delete an application identifier.
pub fn qh_delete_app_id_request(team_id: &str, app_id_id: &str) -> (r: PortalRequest)
    ensures
        r@ == portal_request(
            "/QH65B2/ios/deleteAppId.action"@,
            seq![field("teamId"@, team_id@), field("appIdId"@, app_id_id@)],
        ),
{
    request_with("/QH65B2/ios/deleteAppId.action", app_id_fields(team_id, app_id_id))
}

/// Asks to change the features of an application identifier: the features
/// are bound in the body one by one, behind the team and the identifier.
pub fn qh_update_app_id_request(
    team_id: &str,
    app_id_id: &str,
    features: &Vec<(String, PlistValue)>,
) -> (r: PortalRequest)
    ensures
        r@ == portal_request(
            "/QH65B2/ios/updateAppId.action"@,
            merged(
                seq![field("teamId"@, team_id@), field("appIdId"@, app_id_id@)],
                entries_view(features@),
            ),
        ),
{
    let fields = merge_entries(app_id_fields(team_id, app_id_id), features);
    request_with("/QH65B2/ios/updateAppId.action", fields)
}

/// Asks for the provisioning profile of an application identifier.
pub fn qh_get_profile_request(team_id: &str, app_id_id: &str) -> (r: PortalRequest)
    ensures
        r@ == portal_request(
            "/QH65B2/ios/downloadTeamProvisioningProfile.action"@,
            seq![field("teamId"@, team_id@), field("appIdId"@, app_id_id@)],
        ),
{
    request_with(
        "/QH65B2/ios/downloadTeamProvisioningProfile.action",
        app_id_fields(team_id, app_id_id),
    )
}

/// Asks for the development certificates of a team.
pub fn qh_list_certs_request(team_id: &str) -> (r: PortalRequest)
    ensures
        r@ == portal_request(
            "/QH65B2/ios/listAllDevelopmentCerts.action"@,
            seq![field("teamId"@, team_id@)],
        ),
{
    request_with("/QH65B2/ios/listAllDevelopmentCerts.action", team_fields(team_id))
}

/// Asks to revoke the certificate with the serial number given.
pub fn qh_revoke_cert_request(team_id: &str, serial_number: &str) -> (r: PortalRequest)
    ensures
        r@ == portal_request(
            "/QH65B2/ios/revokeDevelopmentCert.action"@,
            seq![field("teamId"@, team_id@), field("serialNumber"@, serial_number@)],
        ),
{
    let mut fields = team_fields(team_id);
    push_field(&mut fields, "serialNumber", serial_number);
    assert(entries_view(fields@) =~= seq![
        field("teamId"@, team_id@),
        field("serialNumber"@, serial_number@),
    ]);
    request_with("/QH65B2/ios/revokeDevelopmentCert.action", fields)
}

/// The request that submits a certificate request for a machine.
pub open spec fn submit_csr_model(
    team_id: Seq<char>,
    csr: Seq<char>,
    machine_id: Seq<char>,
    machine_name: Seq<char>,
) -> PortalRequestModel {
    portal_request(
        "/QH65B2/ios/submitDevelopmentCSR.action"@,
        seq![
            field("teamId"@, team_id),
            field("csrContent"@, csr),
            field("machineId"@, machine_id),
            field("machineName"@, machine_name),
        ],
    )
}

/// Submits a certificate request under the machine identifier given.
pub fn qh_submit_cert_csr_request_for(
    team_id: &str,
    csr_data: &str,
    machine_id: &str,
    machine_name: &str,
) -> (r: PortalRequest)
    ensures
        r@ == submit_csr_model(team_id@, csr_data@, machine_id@, machine_name@),
{
    let mut fields = team_fields(team_id);
    push_field(&mut fields, "csrContent", csr_data);
    push_field(&mut fields, "machineId", machine_id);
    push_field(&mut fields, "machineName", machine_name);
    assert(entries_view(fields@) =~= seq![
        field("teamId"@, team_id@),
        field("csrContent"@, csr_data@),
        field("machineId"@, machine_id@),
        field("machineName"@, machine_name@),
    ]);
    request_with("/QH65B2/ios/submitDevelopmentCSR.action", fields)
}

/// Submits a certificate request under a fresh machine identifier: for some
/// text in the shape of an identifier, it is the request of that machine.
pub fn qh_submit_cert_csr_request(team_id: &str, csr_data: &str, machine_name: &str) -> (r:
    PortalRequest)
    ensures
        exists|machine_id: Seq<char>|
            identifier_shaped(machine_id) && r@ == #[trigger] submit_csr_model(
                team_id@,
                csr_data@,
                machine_id,
                machine_name@,
            ),
{
    let machine_id = random_identifier();
    qh_submit_cert_csr_request_for(team_id, csr_data, machine_id.as_str(), machine_name)
}

/// Asks for the devices of a team.
pub fn qh_list_devices_request(team_id: &str) -> (r: PortalRequest)
    ensures
        r@ == portal_request("/QH65B2/ios/listDevices.action"@, seq![field("teamId"@, team_id@)]),
{
    request_with("/QH65B2/ios/listDevices.action", team_fields(team_id))
}

/// Asks to register a device with a team.
pub fn qh_add_device_request(team_id: &str, device_name: &str, device_udid: &str) -> (r:
    PortalRequest)
    ensures
        r@ == portal_request(
            "/QH65B2/ios/addDevice.action"@,
            seq![
                field("teamId"@, team_id@),
                field("name"@, device_name@),
                field("deviceNumber"@, device_udid@),
            ],
        ),
{
    let mut fields = team_fields(team_id);
    push_field(&mut fields, "name", device_name);
    push_field(&mut fields, "deviceNumber", device_udid);
    assert(entries_view(fields@) =~= seq![
        field("teamId"@, team_id@),
        field("name"@, device_name@),
        field("deviceNumber"@, device_udid@),
    ]);
    request_with("/QH65B2/ios/addDevice.action", fields)
}

/// Whether `i` is the first position of `texts` at which `wanted` stands.
pub open spec fn first_match(texts: Seq<Seq<char>>, wanted: Seq<char>, i: int) -> bool {
    0 <= i < texts.len() && texts[i] == wanted && forall|j: int| 0 <= j < i ==> texts[j] != wanted
}

/// Whether `wanted` stands nowhere in `texts`.
pub open spec fn no_match(texts: Seq<Seq<char>>, wanted: Seq<char>) -> bool {
    forall|j: int| 0 <= j < texts.len() ==> texts[j] != wanted
}

/// The identifiers of the application identifiers listed.
pub open spec fn app_id_identifiers(list: Seq<AppID>) -> Seq<Seq<char>> {
    Seq::new(list.len(), |i: int| list[i].identifier@)
}

/// The identifiers of the application groups listed.
pub open spec fn app_group_identifiers(list: Seq<ApplicationGroup>) -> Seq<Seq<char>> {
    Seq::new(list.len(), |i: int| list[i].identifier@)
}

/// The device numbers of the devices listed.
pub open spec fn device_numbers(list: Seq<Device>) -> Seq<Seq<char>> {
    Seq::new(list.len(), |i: int| list[i].device_number@)
}

/// The first application identifier with the identifier given.
pub fn qh_get_app_id(list: &Vec<AppID>, identifier: &str) -> (r: Option<usize>)
    ensures
        match r {
            Some(i) => first_match(app_id_identifiers(list@), identifier@, i as int),
            None => no_match(app_id_identifiers(list@), identifier@),
        },
{
    let mut i: usize = 0;
    while i < list.len()
        invariant
            i <= list.len(),
            forall|j: int| 0 <= j < i ==> app_id_identifiers(list@)[j] != identifier@,
        decreases list.len() - i,
    {
        if str_equal(list[i].identifier.as_str(), identifier) {
            return Some(i);
        }
        i = i + 1;
    }
    None
}

/// The first application group with the identifier given.
pub fn qh_get_app_group(list: &Vec<ApplicationGroup>, identifier: &str) -> (r: Option<usize>)
    ensures
        match r {
            Some(i) => first_match(app_group_identifiers(list@), identifier@, i as int),
            None => no_match(app_group_identifiers(list@), identifier@),
        },
{
    let mut i: usize = 0;
    while i < list.len()
        invariant
            i <= list.len(),
            forall|j: int| 0 <= j < i ==> app_group_identifiers(list@)[j] != identifier@,
        decreases list.len() - i,
    {
        if str_equal(list[i].identifier.as_str(), identifier) {
            return Some(i);
        }
        i = i + 1;
    }
    None
}

/// The first device with the device number given.
pub fn qh_get_device(list: &Vec<Device>, device_udid: &str) -> (r: Option<usize>)
    ensures
        match r {
            Some(i) => first_match(device_numbers(list@), device_udid@, i as int),
            None => no_match(device_numbers(list@), device_udid@),
        },
{
    let mut i: usize = 0;
    while i < list.len()
        invariant
            i <= list.len(),
            forall|j: int| 0 <= j < i ==> device_numbers(list@)[j] != device_udid@,
        decreases list.len() - i,
    {
        if str_equal(list[i].device_number.as_str(), device_udid) {
            return Some(i);
        }
        i = i + 1;
    }
    None
}

/// What making sure that something exists comes to: it is there, at the
/// position given in the list, or it has to be asked for.
pub enum Ensured {
    Found(usize),
    Create(PortalRequest),
}

/// Makes sure that an application identifier exists: the one listed with
/// that identifier, else the request that adds it.
pub fn qh_ensure_app_id(list: &Vec<AppID>, team_id: &str, name: &str, identifier: &str) -> (r:
    Ensured)
    ensures
        match r {
            Ensured::Found(i) => first_match(app_id_identifiers(list@), identifier@, i as int),
            Ensured::Create(request) => no_match(app_id_identifiers(list@), identifier@)
                && request@ == portal_request(
                "/QH65B2/ios/addAppId.action"@,
                seq![
                    field("teamId"@, team_id@),
                    field("name"@, stripped_name(name@)),
                    field("identifier"@, identifier@),
                ],
            ),
        },
{
    match qh_get_app_id(list, identifier) {
        Some(i) => Ensured::Found(i),
        None => Ensured::Create(qh_add_app_id_request(team_id, name, identifier)),
    }
}

/// Makes sure that an application group exists: the one listed with that
/// identifier, else the request that adds it.
pub fn qh_ensure_app_group(
    list: &Vec<ApplicationGroup>,
    team_id: &str,
    name: &str,
    identifier: &str,
) -> (r: Ensured)
    ensures
        match r {
            Ensured::Found(i) => first_match(app_group_identifiers(list@), identifier@, i as int),
            Ensured::Create(request) => no_match(app_group_identifiers(list@), identifier@)
                && request@ == portal_request(
                "/QH65B2/ios/addApplicationGroup.action"@,
                seq![
                    field("teamId"@, team_id@),
                    field("name"@, stripped_name(name@)),
                    field("identifier"@, identifier@),
                ],
            ),
        },
{
    match qh_get_app_group(list, identifier) {
        Some(i) => Ensured::Found(i),
        None => Ensured::Create(qh_add_app_group_request(team_id, name, identifier)),
    }
}

} // verus!

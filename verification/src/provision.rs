//! Provisioning profiles: the signed documents that bind an application
//! identifier to a certificate and to the entitlements it may use.

use vstd::prelude::*;
use vstd::utf8::encode_utf8;
use crate::bytes::find_final;
use crate::bytes::find_first;
use crate::bytes::first_occurrence;
use crate::bytes::last_occurrence;
use crate::bytes::slice_of;
use crate::error::Error;
use crate::error::ErrorModel;
use crate::macho::entitlements_view;
use crate::macho::MachO;
use crate::property_list::items_view;
use crate::property_list::lemma_view_unfold;
use crate::property_list::plist_get;
use crate::property_list::plist_get_string;
use crate::property_list::plist_insert;
use crate::property_list::plist_xml_document;
use crate::property_list::plist_xml_text;
use crate::property_list::Entry;
use crate::property_list::Plist;
use crate::property_list::PlistValue;
use crate::text::chars_of;
use crate::text::chars_match_at;
use crate::text::concat;
use crate::text::replace;
use crate::text::replaced;
use crate::text::string_of;

verus! {

/// Whether the regular expression `pattern` matches somewhere in `text`, as
/// the `regex` crate decides it; false where the pattern is not valid.
pub uninterp spec fn regex_matches(pattern: Seq<char>, text: Seq<char>) -> bool;

/// `Regex::new` and `is_match` of the `regex` crate: whether the pattern
/// matches in the text. A pattern that the crate refuses matches nothing.
#[verifier::external_body]
pub(crate) fn regex_is_match(pattern: &str, text: &str) -> (r: bool)
    ensures
        r == regex_matches(pattern@, text@),
{
    regex::Regex::new(pattern).map_or(false, |re| re.is_match(text))
}

/// A provisioning profile: its bytes as issued, the property list inside
/// them, and the entitlements of that list, which can be changed in memory.
#[derive(Debug)]
pub struct MobileProvision {
    pub provision_data: Vec<u8>,
    provisioning_plist: PlistValue,
    entitlements: PlistValue,
}

/// What a provisioning profile means.
pub struct MobileProvisionModel {
    pub data: Seq<u8>,
    pub plist: Plist,
    pub entitlements: Plist,
}

impl View for MobileProvision {
    type V = MobileProvisionModel;

    closed spec fn view(&self) -> MobileProvisionModel {
        MobileProvisionModel {
            data: self.provision_data@,
            plist: self.provisioning_plist@,
            entitlements: self.entitlements@,
        }
    }
}

/// The property list inside a profile: from the first `<plist` up to the
/// end of the last `</plist>`; none where either is missing or the last
/// ends before the first begins.
#[verifier::opaque]
pub open spec fn embedded_document(data: Seq<u8>) -> Option<Seq<u8>> {
    let open = encode_utf8("<plist"@);
    let close = encode_utf8("</plist>"@);
    match (first_occurrence(data, open), last_occurrence(data, close)) {
        (Some(start), Some(last)) => if start <= last + close.len() {
            Some(data.subrange(start, last + close.len()))
        } else {
            None
        },
        _ => None,
    }
}

/// What loading a profile gives: its property list and the dictionary under
/// `Entitlements`.
pub open spec fn loaded(data: Seq<u8>) -> Result<(Plist, Plist), ErrorModel> {
    match embedded_document(data) {
        None => Err(ErrorModel::ProvisioningEntitlementsUnknown),
        Some(doc) => match plist_xml_document(doc) {
            Err(words) => Err(ErrorModel::Plist(words)),
            Ok(p) => match plist_get(p, "Entitlements"@) {
                Some(e) => if e is Dictionary {
                    Ok((p, e))
                } else {
                    Err(ErrorModel::ProvisioningEntitlementsUnknown)
                },
                None => Err(ErrorModel::ProvisioningEntitlementsUnknown),
            },
        },
    }
}

/// The profile as it is written into a bundle: its property list with
/// `Entitlements` bound to the entitlements as they stand, as an XML
/// document; the bytes as issued where that list cannot be written.
pub open spec fn written_profile(profile: MobileProvisionModel) -> Seq<u8> {
    match plist_xml_text(plist_insert(profile.plist, "Entitlements"@, profile.entitlements)) {
        Ok(bytes) => bytes,
        Err(_) => profile.data,
    }
}

/// A value with every `*` in it replaced by the application identifier: in
/// a string, and in each string of an array.
pub open spec fn wildcard_value(v: Plist, id: Seq<char>) -> Plist {
    match v {
        Plist::String(s) => Plist::String(replaced(s, "*"@, id)),
        Plist::Array(items) => Plist::Array(
            Seq::new(
                items.len(),
                |i: int|
                    match items[i] {
                        Plist::String(s) => Plist::String(replaced(s, "*"@, id)),
                        other => other,
                    },
            ),
        ),
        other => other,
    }
}

/// Entitlements with the wildcard resolved in every value.
pub open spec fn wildcard_resolved(entitlements: Plist, id: Seq<char>) -> Plist {
    match entitlements {
        Plist::Dictionary(entries) => Plist::Dictionary(
            Seq::new(
                entries.len(),
                |i: int| Entry { key: entries[i].key, value: wildcard_value(entries[i].value, id) },
            ),
        ),
        other => other,
    }
}

/// The pattern of a keychain access group that begins with a team
/// identifier: ten capitals or digits and a dot.
pub open spec fn team_prefix_pattern() -> Seq<char> {
    "^[A-Z0-9]{10}\\."@
}

/// A keychain access group under the team given, once it is known whether
/// the group begins with a team identifier: where it does, its first
/// eleven characters give way to the team and a dot.
pub open spec fn retargeted_where(group: Plist, team: Seq<char>, begins_with_team: bool) -> Plist {
    match group {
        Plist::String(s) => if begins_with_team && s.len() >= 11 {
            Plist::String(team + "."@ + s.skip(11))
        } else {
            group
        },
        _ => group,
    }
}

/// Whether a keychain access group begins with a team identifier.
pub open spec fn begins_with_team(group: Plist) -> bool {
    match group {
        Plist::String(s) => regex_matches(team_prefix_pattern(), s),
        _ => false,
    }
}

/// A keychain access group under the team given: where it begins with a
/// team identifier, that identifier gives way to the team's.
pub open spec fn retargeted(group: Plist, team: Seq<char>) -> Plist {
    retargeted_where(group, team, begins_with_team(group))
}

/// Entitlements with the keychain access groups of the binary taken over.
pub open spec fn with_keychain_groups(entitlements: Plist, binary: Plist) -> Plist {
    match plist_get(binary, "keychain-access-groups"@) {
        Some(Plist::Array(items)) => plist_insert(
            entitlements,
            "keychain-access-groups"@,
            Plist::Array(items),
        ),
        _ => entitlements,
    }
}

/// Entitlements whose keychain access groups stand under the team that the
/// entitlements themselves name.
pub open spec fn with_team_groups(entitlements: Plist) -> Plist {
    match plist_get_string(entitlements, "com.apple.developer.team-identifier"@) {
        Some(team) => match plist_get(entitlements, "keychain-access-groups"@) {
            Some(Plist::Array(groups)) => plist_insert(
                entitlements,
                "keychain-access-groups"@,
                Plist::Array(Seq::new(groups.len(), |i: int| retargeted(groups[i], team))),
            ),
            _ => entitlements,
        },
        None => entitlements,
    }
}

/// The entitlements of a profile merged with those of a binary.
pub open spec fn merged_entitlements(entitlements: Plist, binary: Plist) -> Plist {
    with_team_groups(with_keychain_groups(entitlements, binary))
}

/// A text without the dots at its start.
pub open spec fn without_leading_dots(s: Seq<char>) -> Seq<char>
    decreases s.len(),
{
    if s.len() > 0 && s[0] == '.' {
        without_leading_dots(s.skip(1))
    } else {
        s
    }
}

/// The first application identifier prefix of a profile. The outer option
/// tells whether the list has a first prefix at all, the inner one whether
/// it is a string.
pub open spec fn first_prefix(plist: Plist) -> Option<Option<Seq<char>>> {
    match plist_get(plist, "ApplicationIdentifierPrefix"@) {
        Some(Plist::Array(items)) => if items.len() > 0 {
            Some(
                match items[0] {
                    Plist::String(s) => Some(s),
                    _ => None,
                },
            )
        } else {
            None
        },
        _ => None,
    }
}

/// The bundle identifier that a profile is for: its application identifier
/// without the prefix and the dots that follow it.
pub open spec fn bundle_id_of(plist: Plist, entitlements: Plist) -> Option<Seq<char>> {
    match plist_get_string(entitlements, "application-identifier"@) {
        None => None,
        Some(app_id) => match first_prefix(plist) {
            None => None,
            Some(None) => Some(app_id),
            Some(Some(prefix)) => if prefix.is_prefix_of(app_id) {
                Some(without_leading_dots(app_id.skip(prefix.len() as int)))
            } else {
                Some(app_id)
            },
        },
    }
}

fn resolve_text(v: &PlistValue, id: &str) -> (r: PlistValue)
    ensures
        r@ == (match v@ {
            Plist::String(s) => Plist::String(replaced(s, "*"@, id@)),
            other => other,
        }),
{
    match v {
        PlistValue::String(s) => PlistValue::String(replace(s.as_str(), "*", id)),
        _ => v.duplicate(),
    }
}

fn resolve_value(v: &PlistValue, id: &str) -> (r: PlistValue)
    ensures
        r@ == wildcard_value(v@, id@),
{
    proof {
        lemma_view_unfold(*v);
    }
    match v {
        PlistValue::Array(items) => {
            let mut out: Vec<PlistValue> = Vec::new();
            let mut i: usize = 0;
            while i < items.len()
                invariant
                    i <= items.len(),
                    out.len() == i,
                    forall|j: int|
                        0 <= j < i ==> out@[j]@ == (match items@[j]@ {
                            Plist::String(s) => Plist::String(replaced(s, "*"@, id@)),
                            other => other,
                        }),
                decreases items.len() - i,
            {
                out.push(resolve_text(&items[i], id));
                i = i + 1;
            }
            let r = PlistValue::array(out);
            assert(r@->Array_0 =~= wildcard_value(v@, id@)->Array_0);
            r
        },
        _ => resolve_text(v, id),
    }
}

/// A keychain access group under the team given, once it is known whether
/// the group begins with a team identifier.
pub fn retarget_where(group: &PlistValue, team: &str, begins_with_team: bool) -> (r: PlistValue)
    ensures
        r@ == retargeted_where(group@, team@, begins_with_team),
{
    match group {
        PlistValue::String(s) => {
            let chars = chars_of(s.as_str());
            if begins_with_team && chars.len() >= 11 {
                let mut rest: Vec<char> = Vec::new();
                let mut i: usize = 11;
                while i < chars.len()
                    invariant
                        11 <= i <= chars.len(),
                        rest@ == chars@.subrange(11, i as int),
                    decreases chars.len() - i,
                {
                    rest.push(chars[i]);
                    i = i + 1;
                }
                assert(rest@ =~= chars@.skip(11));
                let head = concat(team, ".");
                PlistValue::String(concat(head.as_str(), string_of(&rest).as_str()))
            } else {
                group.duplicate()
            }
        },
        _ => group.duplicate(),
    }
}

fn retarget(group: &PlistValue, team: &str) -> (r: PlistValue)
    ensures
        r@ == retargeted(group@, team@),
{
    let begins = match group {
        PlistValue::String(s) => regex_is_match("^[A-Z0-9]{10}\\.", s.as_str()),
        _ => false,
    };
    retarget_where(group, team, begins)
}

fn trim_leading_dots(chars: &Vec<char>, from: usize) -> (r: Vec<char>)
    requires
        from <= chars.len(),
    ensures
        r@ == without_leading_dots(chars@.skip(from as int)),
{
    let mut start: usize = from;
    while start < chars.len() && chars[start] == '.'
        invariant
            from <= start <= chars.len(),
            without_leading_dots(chars@.skip(from as int)) == without_leading_dots(
                chars@.skip(start as int),
            ),
        decreases chars.len() - start,
    {
        assert(chars@.skip(start as int).skip(1) =~= chars@.skip(start + 1));
        assert(chars@.skip(start as int)[0] == chars@[start as int]);
        start = start + 1;
    }
    proof {
        if start < chars.len() {
            assert(chars@.skip(start as int)[0] == chars@[start as int]);
        }
    }
    let mut out: Vec<char> = Vec::new();
    let mut i: usize = start;
    while i < chars.len()
        invariant
            start <= i <= chars.len(),
            out@ == chars@.subrange(start as int, i as int),
        decreases chars.len() - i,
    {
        out.push(chars[i]);
        i = i + 1;
    }
    assert(out@ =~= chars@.skip(start as int));
    out
}

/// Takes the property list out of the bytes of a profile.
pub fn extract_plist_from_file(data: &[u8]) -> (r: Option<Vec<u8>>)
    ensures
        match r {
            Some(doc) => embedded_document(data@) == Some(doc@),
            None => embedded_document(data@) is None,
        },
{
    reveal(embedded_document);
    let open = "<plist".as_bytes();
    let close = "</plist>".as_bytes();
    let start = match find_first(data, open) {
        Some(i) => i,
        None => {
            return None;
        },
    };
    let last = match find_final(data, close) {
        Some(i) => i,
        None => {
            return None;
        },
    };
    let total = data.len();
    assert(last + close@.len() <= total);
    let end = last + close.len();
    if start > end {
        return None;
    }
    Some(slice_of(data, start, end))
}

impl MobileProvision {
    /// Loads a profile from its bytes.
    pub fn load_with_bytes(provision_data: Vec<u8>) -> (r: Result<MobileProvision, Error>)
        ensures
            match r {
                Ok(p) => loaded(provision_data@) == Ok::<(Plist, Plist), ErrorModel>(
                    (p@.plist, p@.entitlements),
                ) && p@.data == provision_data@,
                Err(e) => loaded(provision_data@) == Err::<(Plist, Plist), ErrorModel>(e@),
            },
    {
        let doc = match extract_plist_from_file(provision_data.as_slice()) {
            Some(doc) => doc,
            None => {
                return Err(Error::ProvisioningEntitlementsUnknown);
            },
        };
        let plist = match PlistValue::parse_xml(doc.as_slice()) {
            Ok(p) => p,
            Err(words) => {
                return Err(Error::Plist(words));
            },
        };
        let entitlements = match plist.get("Entitlements") {
            Some(e) => {
                proof {
                    lemma_view_unfold(*e);
                }
                match e {
                    PlistValue::Dictionary(_) => e.duplicate(),
                    _ => {
                        return Err(Error::ProvisioningEntitlementsUnknown);
                    },
                }
            },
            None => {
                return Err(Error::ProvisioningEntitlementsUnknown);
            },
        };
        Ok(MobileProvision { provision_data, provisioning_plist: plist, entitlements })
    }

    /// The entitlements of the profile, as they stand.
    pub fn entitlements(&self) -> (r: &PlistValue)
        ensures
            r@ == self@.entitlements,
    {
        &self.entitlements
    }

    /// The bytes of the profile as issued.
    pub fn data(&self) -> (r: &Vec<u8>)
        ensures
            r@ == self@.data,
    {
        &self.provision_data
    }

    /// A copy of the profile.
    pub fn duplicate(&self) -> (r: MobileProvision)
        ensures
            r@ == self@,
    {
        MobileProvision {
            provision_data: self.provision_data.clone(),
            provisioning_plist: self.provisioning_plist.duplicate(),
            entitlements: self.entitlements.duplicate(),
        }
    }

    /// Puts the application identifier in place of every `*` in the
    /// entitlements.
    pub fn replace_wildcard_in_entitlements(&mut self, new_application_id: &str)
        ensures
            final(self)@ == (MobileProvisionModel {
                entitlements: wildcard_resolved(old(self)@.entitlements, new_application_id@),
                ..old(self)@
            }),
    {
        proof {
            lemma_view_unfold(self.entitlements);
        }
        let resolved = match &self.entitlements {
            PlistValue::Dictionary(entries) => {
                let mut out: Vec<(String, PlistValue)> = Vec::new();
                let mut i: usize = 0;
                while i < entries.len()
                    invariant
                        i <= entries.len(),
                        out.len() == i,
                        forall|j: int|
                            0 <= j < i ==> out@[j].0@ == entries@[j].0@ && out@[j].1@
                                == wildcard_value(entries@[j].1@, new_application_id@),
                    decreases entries.len() - i,
                {
                    out.push((entries[i].0.clone(), resolve_value(&entries[i].1, new_application_id)));
                    i = i + 1;
                }
                let r = PlistValue::dictionary(out);
                assert(r@->Dictionary_0 =~= wildcard_resolved(
                    self.entitlements@,
                    new_application_id@,
                )->Dictionary_0);
                Some(r)
            },
            _ => None,
        };
        match resolved {
            Some(r) => {
                self.entitlements = r;
            },
            None => {},
        }
    }

    /// Merges the entitlements of a binary into those of the profile: its
    /// keychain access groups are taken over, and put under the profile's
    /// team. A value that holds no dictionary gives an error and changes
    /// nothing.
    pub fn merge_entitlements(&mut self, binary: &MachO) -> (r: Result<(), Error>)
        ensures
            match r {
                Ok(_) => entitlements_view(*binary) is Some && final(self)@ == (MobileProvisionModel {
                    entitlements: merged_entitlements(
                        old(self)@.entitlements,
                        entitlements_view(*binary)->0,
                    ),
                    ..old(self)@
                }),
                Err(e) => entitlements_view(*binary) is None && e@
                    == ErrorModel::ProvisioningEntitlementsUnknown && final(self)@ == old(self)@,
            },
    {
        let theirs = match &binary.entitlements {
            Some(e) => e,
            None => {
                return Err(Error::ProvisioningEntitlementsUnknown);
            },
        };
        let taken = match theirs.get("keychain-access-groups") {
            Some(groups) => {
                proof {
                    lemma_view_unfold(*groups);
                }
                match groups {
                    PlistValue::Array(_) => Some(groups.duplicate()),
                    _ => None,
                }
            },
            None => None,
        };
        let first = match taken {
            Some(groups) => self.entitlements.duplicate().insert(
                "keychain-access-groups".to_owned(),
                groups,
            ),
            None => self.entitlements.duplicate(),
        };
        let team = match first.get_string("com.apple.developer.team-identifier") {
            Some(t) => Some(t.clone()),
            None => None,
        };
        let moved = match &team {
            Some(team) => match first.get("keychain-access-groups") {
                Some(groups) => {
                    proof {
                        lemma_view_unfold(*groups);
                    }
                    match groups {
                        PlistValue::Array(items) => {
                            let mut out: Vec<PlistValue> = Vec::new();
                            let mut i: usize = 0;
                            while i < items.len()
                                invariant
                                    i <= items.len(),
                                    out.len() == i,
                                    forall|j: int|
                                        0 <= j < i ==> out@[j]@ == retargeted(items@[j]@, team@),
                                decreases items.len() - i,
                            {
                                out.push(retarget(&items[i], team.as_str()));
                                i = i + 1;
                            }
                            let list = PlistValue::array(out);
                            assert(list@->Array_0 =~= Seq::new(
                                items_view(items@).len(),
                                |i: int| retargeted(items_view(items@)[i], team@),
                            ));
                            Some(list)
                        },
                        _ => None,
                    }
                },
                None => None,
            },
            None => None,
        };
        let second = match moved {
            Some(list) => first.insert("keychain-access-groups".to_owned(), list),
            None => first,
        };
        self.entitlements = second;
        Ok(())
    }

    /// The bytes to write into a bundle for this profile: they hold the
    /// entitlements as they stand now, not as they were issued.
    pub fn to_embedded_bytes(&self) -> (r: Vec<u8>)
        ensures
            r@ == written_profile(self@),
    {
        let list = self.provisioning_plist.duplicate().insert(
            "Entitlements".to_owned(),
            self.entitlements.duplicate(),
        );
        match list.to_xml() {
            Ok(bytes) => bytes,
            Err(_) => self.provision_data.clone(),
        }
    }

    /// The entitlements as an XML document.
    pub fn entitlements_as_bytes(&self) -> (r: Result<Vec<u8>, Error>)
        ensures
            match r {
                Ok(bytes) => plist_xml_text(self@.entitlements) == Ok::<Seq<u8>, Seq<char>>(
                    bytes@,
                ),
                Err(e) => e@ is Plist && plist_xml_text(self@.entitlements) == Err::<
                    Seq<u8>,
                    Seq<char>,
                >(e@->Plist_0),
            },
    {
        match self.entitlements.to_xml() {
            Ok(bytes) => Ok(bytes),
            Err(words) => Err(Error::Plist(words)),
        }
    }

    /// The bundle identifier that the profile is for.
    pub fn bundle_id(&self) -> (r: Option<String>)
        ensures
            match r {
                Some(id) => bundle_id_of(self@.plist, self@.entitlements) == Some(id@),
                None => bundle_id_of(self@.plist, self@.entitlements) is None,
            },
    {
        let app_id = match self.entitlements.get_string("application-identifier") {
            Some(s) => s,
            None => {
                return None;
            },
        };
        let list = match self.provisioning_plist.get("ApplicationIdentifierPrefix") {
            Some(l) => l,
            None => {
                return None;
            },
        };
        let items = match list.as_array() {
            Some(items) => items,
            None => {
                return None;
            },
        };
        if items.len() == 0 {
            return None;
        }
        assert(items_view(items@)[0] == items@[0]@);
        let prefix = match items[0].as_string() {
            Some(p) => p,
            None => {
                return Some(app_id.clone());
            },
        };
        let id_chars = chars_of(app_id.as_str());
        let prefix_chars = chars_of(prefix.as_str());
        if prefix_chars.len() <= id_chars.len() && chars_match_at(&id_chars, &prefix_chars, 0) {
            assert(id_chars@.subrange(0, 0 + prefix_chars@.len() as int) =~= id_chars@.take(
                prefix_chars@.len() as int,
            ));
            let rest = trim_leading_dots(&id_chars, prefix_chars.len());
            Some(string_of(&rest))
        } else {
            proof {
                if prefix@.is_prefix_of(app_id@) {
                    assert(id_chars@.subrange(0, 0 + prefix_chars@.len() as int) =~= prefix_chars@);
                }
            }
            Some(app_id.clone())
        }
    }
}

} // verus!

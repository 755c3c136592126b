//! Entitlements: the permissions that a signed binary carries, and what
//! they ask of the developer portal.

use vstd::prelude::*;
use vstd::utf8::encode_utf8;
use crate::developer::v1::Capability;
use crate::developer::v1::CapabilityEntitlement;
use crate::error::Error;
use crate::error::ErrorModel;
use crate::property_list::items_view;
use crate::property_list::lemma_view_unfold;
use crate::property_list::plist_get;
use crate::property_list::plist_xml_document;
use crate::property_list::Plist;
use crate::property_list::PlistValue;
use crate::text::strings_view;
use layout::check_signature_range;
use layout::malformed_text;
use layout::signature_in_reach;

pub mod layout;

verus! {

/// The entitlements document in the code signature of the first
/// architecture of a Mach-O binary, as the `apple-codesign` crate reads it:
/// none where the binary is not signed or the signature holds none, and the
/// words of the crate's error where the binary cannot be read.
pub uninterp spec fn macho_entitlements_text(data: Seq<u8>) -> Result<Option<Seq<char>>, Seq<char>>;

/// `MachFile::parse`, `nth_macho(0)`, `code_signature` and `entitlements`
/// of the `apple-codesign` crate in a row: the entitlements document of the
/// first architecture as text. An error of the first three comes back in
/// the crate's words; an error of `entitlements` counts as none. The crate
/// cuts the signature out of the `__LINKEDIT` segment by the range that the
/// signature command names, and each blob out of the signature by the
/// table at its start, without a test, and panics where such a range lies
/// outside what it is cut from. A blob in the place of the entitlements
/// that is of another kind is handed to the parser for that kind. And the
/// `goblin` crate, which takes the file apart, reads every part of a file
/// of several architectures, an archive among them as an archive, and moves
/// the entry of each binary from the file to memory by plain arithmetic.
/// Files with such a range, such a blob, an entry that leaves the range of
/// the numbers, or a part that is no binary are left out.
#[verifier::external_body]
pub(crate) fn read_macho_entitlements(data: &[u8]) -> (r: Result<Option<String>, String>)
    requires
        signature_in_reach(data@),
    ensures
        match r {
            Ok(Some(text)) => macho_entitlements_text(data@) == Ok::<
                Option<Seq<char>>,
                Seq<char>,
            >(Some(text@)),
            Ok(None) => macho_entitlements_text(data@) == Ok::<Option<Seq<char>>, Seq<char>>(None),
            Err(words) => macho_entitlements_text(data@) == Err::<Option<Seq<char>>, Seq<char>>(
                words@,
            ),
        },
{
    let file = apple_codesign::MachFile::parse(data).map_err(|e| e.to_string())?;
    let signature = file.nth_macho(0).and_then(|m| m.code_signature()).map_err(|e| e.to_string())?;
    Ok(signature.and_then(|s| s.entitlements().ok().flatten()).map(|b| b.to_string()))
}

/// A Mach-O binary, as far as signing looks at it: its entitlements.
#[derive(Debug)]
pub struct MachO {
    pub entitlements: Option<PlistValue>,
}

/// The entitlements that a document read out of a binary holds: the
/// dictionary in it. A binary without such a document, or with a document
/// that is no dictionary, has no entitlements: it counts as one with an
/// empty dictionary.
pub open spec fn entitlements_from(read: Result<Option<Seq<char>>, Seq<char>>) -> Result<
    Option<Plist>,
    ErrorModel,
> {
    match read {
        Err(words) => Err(ErrorModel::Codesign(words)),
        Ok(None) => Ok(Some(Plist::Dictionary(Seq::empty()))),
        Ok(Some(text)) => match plist_xml_document(encode_utf8(text)) {
            Err(words) => Err(ErrorModel::Plist(words)),
            Ok(v) => if v is Dictionary {
                Ok(Some(v))
            } else {
                Ok(Some(Plist::Dictionary(Seq::empty())))
            },
        },
    }
}

/// The entitlements of a binary. A binary whose signature, or a blob in
/// it, lies outside what should hold it is refused before anything is read.
pub open spec fn macho_entitlements(data: Seq<u8>) -> Result<Option<Plist>, ErrorModel> {
    if !signature_in_reach(data) {
        Err(ErrorModel::Codesign(malformed_text()))
    } else {
        entitlements_from(macho_entitlements_text(data))
    }
}

/// What was read out of a binary, as text.
pub open spec fn read_view(read: Result<Option<String>, String>) -> Result<
    Option<Seq<char>>,
    Seq<char>,
> {
    match read {
        Ok(Some(text)) => Ok(Some(text@)),
        Ok(None) => Ok(None),
        Err(words) => Err(words@),
    }
}

/// What the entitlements of a `MachO` mean.
pub open spec fn entitlements_view(macho: MachO) -> Option<Plist> {
    match macho.entitlements {
        Some(e) => Some(e@),
        None => None,
    }
}

/// The strings among the items, in their order.
pub open spec fn strings_among(items: Seq<Plist>) -> Seq<Seq<char>>
    decreases items.len(),
{
    if items.len() == 0 {
        Seq::empty()
    } else {
        match items.last() {
            Plist::String(s) => strings_among(items.drop_last()).push(s),
            _ => strings_among(items.drop_last()),
        }
    }
}

/// The application groups that entitlements name: the strings in the array
/// under `com.apple.security.application-groups`.
pub open spec fn app_groups_of(entitlements: Option<Plist>) -> Option<Seq<Seq<char>>> {
    match entitlements {
        Some(e) => match plist_get(e, "com.apple.security.application-groups"@) {
            Some(Plist::Array(items)) => Some(strings_among(items)),
            _ => None,
        },
        None => None,
    }
}

/// The entitlement keys that a capability stands behind.
pub open spec fn capability_keys(capability: Capability) -> Seq<Seq<char>> {
    match capability.attributes.entitlements {
        Some(list) => Seq::new(list@.len(), |i: int| list@[i].profile_key@),
        None => Seq::empty(),
    }
}

/// Whether the entitlements hold one of the keys.
pub open spec fn holds_one_of(entitlements: Plist, keys: Seq<Seq<char>>) -> bool {
    exists|i: int| 0 <= i < keys.len() && plist_get(entitlements, #[trigger] keys[i]) is Some
}

/// The ids of the capabilities that the entitlements ask for, in the order
/// of the catalog: those that stand behind a key which the entitlements hold.
pub open spec fn enabled_ids(catalog: Seq<Capability>, entitlements: Plist) -> Seq<Seq<char>>
    decreases catalog.len(),
{
    if catalog.len() == 0 {
        Seq::empty()
    } else if holds_one_of(entitlements, capability_keys(catalog.last())) {
        enabled_ids(catalog.drop_last(), entitlements).push(catalog.last().id@)
    } else {
        enabled_ids(catalog.drop_last(), entitlements)
    }
}

/// The capabilities to enable for entitlements; none where there are no
/// entitlements or they ask for nothing.
pub open spec fn capabilities_of(catalog: Seq<Capability>, entitlements: Option<Plist>) -> Option<
    Seq<Seq<char>>,
> {
    match entitlements {
        Some(e) => if enabled_ids(catalog, e).len() == 0 {
            None
        } else {
            Some(enabled_ids(catalog, e))
        },
        None => None,
    }
}

fn holds_any(entitlements: &PlistValue, keys: &Vec<CapabilityEntitlement>) -> (r: bool)
    ensures
        r == holds_one_of(entitlements@, Seq::new(keys@.len(), |i: int| keys@[i].profile_key@)),
{
    let ghost all = Seq::new(keys@.len(), |i: int| keys@[i].profile_key@);
    let mut i: usize = 0;
    while i < keys.len()
        invariant
            i <= keys.len(),
            all == Seq::new(keys@.len(), |i: int| keys@[i].profile_key@),
            forall|j: int| 0 <= j < i ==> plist_get(entitlements@, #[trigger] all[j]) is None,
        decreases keys.len() - i,
    {
        if entitlements.get(keys[i].profile_key.as_str()).is_some() {
            assert(plist_get(entitlements@, all[i as int]) is Some);
            return true;
        }
        i = i + 1;
    }
    false
}

impl MachO {
    /// Reads the entitlements out of the bytes of a binary.
    pub fn new(data: &[u8]) -> (r: Result<MachO, Error>)
        ensures
            match r {
                Ok(m) => macho_entitlements(data@) == Ok::<Option<Plist>, ErrorModel>(
                    entitlements_view(m),
                ),
                Err(e) => macho_entitlements(data@) == Err::<Option<Plist>, ErrorModel>(e@),
            },
    {
        match check_signature_range(data) {
            Ok(_) => {},
            Err(e) => {
                return Err(e);
            },
        }
        MachO::from_read(read_macho_entitlements(data))
    }

    /// The binary whose code signature gave the document given, or none,
    /// or could not be read.
    pub fn from_read(read: Result<Option<String>, String>) -> (r: Result<MachO, Error>)
        ensures
            match r {
                Ok(m) => entitlements_from(read_view(read)) == Ok::<Option<Plist>, ErrorModel>(
                    entitlements_view(m),
                ),
                Err(e) => entitlements_from(read_view(read)) == Err::<Option<Plist>, ErrorModel>(
                    e@,
                ),
            },
    {
        let text = match read {
            Err(words) => {
                return Err(Error::Codesign(words));
            },
            Ok(None) => {
                return Ok(MachO::without_entitlements());
            },
            Ok(Some(text)) => text,
        };
        let value = match PlistValue::parse_xml(text.as_str().as_bytes()) {
            Ok(v) => v,
            Err(words) => {
                return Err(Error::Plist(words));
            },
        };
        proof {
            lemma_view_unfold(value);
        }
        match value {
            PlistValue::Dictionary(entries) => {
                let e = PlistValue::Dictionary(entries);
                Ok(MachO { entitlements: Some(e) })
            },
            _ => Ok(MachO::without_entitlements()),
        }
    }

    /// A binary without entitlements: it holds an empty dictionary.
    pub fn without_entitlements() -> (r: MachO)
        ensures
            entitlements_view(r) == Some(Plist::Dictionary(Seq::empty())),
    {
        let empty = PlistValue::dictionary(Vec::new());
        assert(crate::property_list::entries_view(Seq::<(String, PlistValue)>::empty()) =~= Seq::<
            crate::property_list::Entry,
        >::empty());
        MachO { entitlements: Some(empty) }
    }

    /// The application groups that the binary's entitlements name.
    pub fn app_groups_for_entitlements(&self) -> (r: Option<Vec<String>>)
        ensures
            match r {
                Some(groups) => app_groups_of(entitlements_view(*self)) == Some(
                    strings_view(groups@),
                ),
                None => app_groups_of(entitlements_view(*self)) is None,
            },
    {
        let entitlements = match &self.entitlements {
            Some(e) => e,
            None => {
                return None;
            },
        };
        let array = match entitlements.get("com.apple.security.application-groups") {
            Some(a) => a,
            None => {
                return None;
            },
        };
        let items = match array.as_array() {
            Some(items) => items,
            None => {
                return None;
            },
        };
        let ghost all = items_view(items@);
        let mut out: Vec<String> = Vec::new();
        let mut i: usize = 0;
        assert(strings_view(out@) =~= strings_among(all.take(0)));
        while i < items.len()
            invariant
                i <= items.len(),
                all == items_view(items@),
                strings_view(out@) == strings_among(all.take(i as int)),
            decreases items.len() - i,
        {
            proof {
                assert(all.take(i + 1).drop_last() =~= all.take(i as int));
                assert(all.take(i + 1).last() == items@[i as int]@);
            }
            match items[i].as_string() {
                Some(s) => {
                    let ghost before = strings_view(out@);
                    out.push(s.clone());
                    assert(strings_view(out@) =~= before.push(s@));
                },
                None => {},
            }
            i = i + 1;
        }
        assert(all.take(items.len() as int) =~= all);
        Some(out)
    }

    /// The capabilities of the catalog that the binary's entitlements ask
    /// for; none where it has no entitlements or they ask for nothing.
    pub fn capabilities_for_entitlements(&self, capabilities: &Vec<Capability>) -> (r: Option<
        Vec<String>,
    >)
        ensures
            match r {
                Some(ids) => capabilities_of(capabilities@, entitlements_view(*self)) == Some(
                    strings_view(ids@),
                ),
                None => capabilities_of(capabilities@, entitlements_view(*self)) is None,
            },
    {
        let entitlements = match &self.entitlements {
            Some(e) => e,
            None => {
                return None;
            },
        };
        let mut out: Vec<String> = Vec::new();
        let mut i: usize = 0;
        assert(strings_view(out@) =~= enabled_ids(capabilities@.take(0), entitlements@));
        while i < capabilities.len()
            invariant
                i <= capabilities.len(),
                strings_view(out@) == enabled_ids(capabilities@.take(i as int), entitlements@),
            decreases capabilities.len() - i,
        {
            proof {
                assert(capabilities@.take(i + 1).drop_last() =~= capabilities@.take(i as int));
                assert(capabilities@.take(i + 1).last() == capabilities@[i as int]);
            }
            let enabled = match &capabilities[i].attributes.entitlements {
                Some(keys) => holds_any(entitlements, keys),
                None => {
                    assert(!holds_one_of(entitlements@, capability_keys(capabilities@[i as int])));
                    false
                },
            };
            if enabled {
                let ghost before = strings_view(out@);
                out.push(capabilities[i].id.clone());
                assert(strings_view(out@) =~= before.push(capabilities@[i as int].id@));
            }
            i = i + 1;
        }
        assert(capabilities@.take(capabilities.len() as int) =~= capabilities@);
        if out.len() == 0 {
            None
        } else {
            Some(out)
        }
    }
}

} // verus!

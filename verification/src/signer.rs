//! Preparing an application for signing: the changes to its bundles, what
//! is registered with the portal, and what each bundle is signed with.
//!
//! The signer decides; it neither writes files nor signs. Its results say
//! what is to be written and signed, in which order.

use vstd::prelude::*;
use vstd::utf8::encode_utf8;
use crate::bundle::bundles_view;
use crate::bundle::info_string;
use crate::bundle::with_info_key;
use crate::bundle::path_view;
use crate::certificate::CertificateIdentity;
use crate::bundle::with_matching_identifier;
use crate::bundle::Bundle;
use crate::bundle::BundleModel;
use crate::bundle::BundleType;
use crate::bundle::PlistInfoTrait;
use crate::error::decimal;
use crate::error::decimal_text;
use crate::error::Error;
use crate::error::ErrorModel;
use crate::macho::entitlements_view;
use crate::macho::MachO;
use crate::property_list::entries_view;
use crate::property_list::entry;
use crate::property_list::plist_xml_text;
use crate::property_list::Entry;
use crate::property_list::Plist;
use crate::property_list::PlistValue;
use crate::provision::bundle_id_of;
use crate::provision::merged_entitlements;
use crate::provision::wildcard_resolved;
use crate::provision::written_profile;
use crate::provision::MobileProvision;
use crate::provision::MobileProvisionModel;
use crate::signing_order::signing_order;
use crate::signing_order::sort_for_signing;
use crate::text::concat;
use crate::text::str_equal;
use crate::text::strings_view;

verus! {

/// How the bundles of an application get their provisioning profiles.
#[derive(Debug, Clone, Copy, PartialEq, Eq, Structural)]
pub enum SignerMode {
    /// Every bundle is signed with a profile of its own.
    Default,
    /// Every bundle is signed with the profile of the application.
    Zsign,
}

/// The settings of a signing run with certificate and profiles at hand.
#[derive(Debug)]
pub struct SignerSettings {
    pub sign_shallow: bool,
    pub sign_mode: SignerMode,
    pub embed_mobileprovision: bool,
    pub custom_name: Option<String>,
    pub custom_identifier: Option<String>,
    pub custom_build_version: Option<String>,
}

impl Default for SignerSettings {
    fn default() -> (r: SignerSettings)
        ensures
            !r.sign_shallow,
            r.sign_mode == SignerMode::Default,
            r.embed_mobileprovision,
            r.custom_name is None,
            r.custom_identifier is None,
            r.custom_build_version is None,
    {
        SignerSettings {
            sign_shallow: false,
            sign_mode: SignerMode::Default,
            embed_mobileprovision: true,
            custom_name: None,
            custom_identifier: None,
            custom_build_version: None,
        }
    }
}

/// The application that is signed, as far as it needs special care.
#[derive(Debug, Clone, Copy, PartialEq, Eq, Structural)]
pub enum SignerApp {
    Default,
    SideStore,
    AltStore,
    LiveContainerAndSideStore,
}

/// What the signed application is for.
#[derive(Debug, Clone, Copy, PartialEq, Eq, Structural)]
pub enum SignerTarget {
    /// It is installed on a device.
    Install,
    /// It is exported as it is.
    Export,
}

/// The features that can be switched on in an application.
#[derive(Debug, Clone, Copy, PartialEq, Eq, Structural)]
pub struct SignerFeatures {
    pub support_minimum_os_version: bool,
    pub support_file_sharing: bool,
    pub support_ipad_fullscreen: bool,
    pub support_game_mode: bool,
    pub support_pro_motion: bool,
}

/// How provisioning profiles are embedded.
#[derive(Debug, Clone, Copy, PartialEq, Eq, Structural)]
pub struct SignerEmbedding {
    /// Only the application itself gets a profile.
    pub single_profile: bool,
}

/// The options of a run: fixed once it has begun.
#[derive(Debug)]
pub struct SignerOptions {
    pub custom_name: Option<String>,
    pub custom_version: Option<String>,
    pub custom_identifier: Option<String>,
    pub features: SignerFeatures,
    pub embedding: SignerEmbedding,
    pub app: SignerApp,
    pub mode: SignerTarget,
}

/// What an optional string means.
pub open spec fn optional_text(s: Option<String>) -> Option<Seq<char>> {
    match s {
        Some(t) => Some(t@),
        None => None,
    }
}

/// The keys that one part of the options binds in the `Info.plist` of the
/// application: the name, the two versions, and one or two keys for each
/// feature that is switched on.
pub open spec fn info_part(options: SignerOptions, part: int) -> Seq<Entry> {
    if part == 0 {
        match options.custom_name {
            Some(name) => seq![entry("CFBundleDisplayName"@, Plist::String(name@))],
            None => Seq::empty(),
        }
    } else if part == 1 {
        match options.custom_version {
            Some(version) => seq![
                entry("CFBundleShortVersionString"@, Plist::String(version@)),
                entry("CFBundleVersion"@, Plist::String(version@)),
            ],
            None => Seq::empty(),
        }
    } else if part == 2 && options.features.support_minimum_os_version {
        seq![entry("MinimumOSVersion"@, Plist::String("7.0"@))]
    } else if part == 3 && options.features.support_file_sharing {
        seq![
            entry("UIFileSharingEnabled"@, Plist::Boolean(true)),
            entry("UISupportsDocumentBrowser"@, Plist::Boolean(true)),
        ]
    } else if part == 4 && options.features.support_ipad_fullscreen {
        seq![entry("UIRequiresFullScreen"@, Plist::Boolean(true))]
    } else if part == 5 && options.features.support_game_mode {
        seq![entry("GCSupportsGameMode"@, Plist::Boolean(true))]
    } else if part == 6 && options.features.support_pro_motion {
        seq![entry("CADisableMinimumFrameDurationOnPhone"@, Plist::Boolean(true))]
    } else {
        Seq::empty()
    }
}

/// The keys that the first `parts` parts of the options bind, in order.
pub open spec fn info_steps_upto(options: SignerOptions, parts: int) -> Seq<Entry>
    decreases parts,
{
    if parts <= 0 {
        Seq::empty()
    } else {
        info_steps_upto(options, parts - 1) + info_part(options, parts - 1)
    }
}

/// The keys that the options bind in the `Info.plist` of the application,
/// in the order in which they are bound: the name, the two versions, then
/// the keys of minimum version, file sharing, full screen, game mode and
/// high refresh rate, each where it is switched on.
pub open spec fn info_steps(options: SignerOptions) -> Seq<Entry> {
    info_steps_upto(options, 7)
}

fn push_step(steps: &mut Vec<(String, PlistValue)>, key: &str, value: PlistValue)
    ensures
        entries_view(final(steps)@) == entries_view(old(steps)@).push(entry(key@, value@)),
{
    steps.push((key.to_owned(), value));
    assert(entries_view(steps@) =~= entries_view(old(steps)@).push(entry(key@, value@)));
}

/// The keys that one part of the options binds.
pub fn part_changes(options: &SignerOptions, part: u8) -> (r: Vec<(String, PlistValue)>)
    ensures
        entries_view(r@) == info_part(*options, part as int),
{
    let mut steps: Vec<(String, PlistValue)> = Vec::new();
    assert(entries_view(steps@) =~= Seq::<Entry>::empty());
    if part == 0 {
        match &options.custom_name {
            Some(name) => {
                push_step(&mut steps, "CFBundleDisplayName", PlistValue::text(name.as_str()));
            },
            None => {},
        }
    } else if part == 1 {
        match &options.custom_version {
            Some(version) => {
                push_step(
                    &mut steps,
                    "CFBundleShortVersionString",
                    PlistValue::text(version.as_str()),
                );
                push_step(&mut steps, "CFBundleVersion", PlistValue::text(version.as_str()));
            },
            None => {},
        }
    } else if part == 2 && options.features.support_minimum_os_version {
        push_step(&mut steps, "MinimumOSVersion", PlistValue::text("7.0"));
    } else if part == 3 && options.features.support_file_sharing {
        push_step(&mut steps, "UIFileSharingEnabled", PlistValue::Boolean(true));
        push_step(&mut steps, "UISupportsDocumentBrowser", PlistValue::Boolean(true));
    } else if part == 4 && options.features.support_ipad_fullscreen {
        push_step(&mut steps, "UIRequiresFullScreen", PlistValue::Boolean(true));
    } else if part == 5 && options.features.support_game_mode {
        push_step(&mut steps, "GCSupportsGameMode", PlistValue::Boolean(true));
    } else if part == 6 && options.features.support_pro_motion {
        push_step(&mut steps, "CADisableMinimumFrameDurationOnPhone", PlistValue::Boolean(true));
    }
    assert(entries_view(steps@) =~= info_part(*options, part as int));
    steps
}

/// The keys that the options bind in the `Info.plist` of the application.
pub fn info_changes(options: &SignerOptions) -> (r: Vec<(String, PlistValue)>)
    ensures
        entries_view(r@) == info_steps(*options),
{
    let mut steps: Vec<(String, PlistValue)> = Vec::new();
    assert(entries_view(steps@) =~= info_steps_upto(*options, 0));
    let mut part: u8 = 0;
    while part < 7
        invariant
            part <= 7,
            entries_view(steps@) == info_steps_upto(*options, part as int),
        decreases 7 - part,
    {
        let mut more = part_changes(options, part);
        let ghost a = entries_view(steps@);
        let ghost b = entries_view(more@);
        steps.append(&mut more);
        assert(entries_view(steps@) =~= a + b);
        part = part + 1;
    }
    steps
}

/// An `Info.plist` after the keys given are bound in it one by one: the
/// document as it stands at the end, and whether every step went well. The
/// first step that fails is the last that is tried.
pub open spec fn with_info_keys(info: Seq<u8>, steps: Seq<Entry>) -> (Seq<u8>, Result<
    (),
    ErrorModel,
>)
    decreases steps.len(),
{
    if steps.len() == 0 {
        (info, Ok(()))
    } else {
        match with_info_key(info, steps[0].key, steps[0].value) {
            Err(e) => (info, Err(e)),
            Ok(next) => with_info_keys(next, steps.skip(1)),
        }
    }
}

/// Binds the keys given in the `Info.plist` of a bundle, one by one.
pub fn apply_info_changes(bundle: &mut Bundle, steps: &Vec<(String, PlistValue)>) -> (r: Result<
    (),
    Error,
>)
    ensures
        final(bundle)@ == (BundleModel {
            info_plist: with_info_keys(old(bundle)@.info_plist, entries_view(steps@)).0,
            ..old(bundle)@
        }),
        match r {
            Ok(_) => with_info_keys(old(bundle)@.info_plist, entries_view(steps@)).1 is Ok,
            Err(e) => with_info_keys(old(bundle)@.info_plist, entries_view(steps@)).1 == Err::<
                (),
                ErrorModel,
            >(e@),
        },
{
    let ghost all = entries_view(steps@);
    let ghost start = bundle@;
    let mut i: usize = 0;
    assert(all.skip(0) =~= all);
    while i < steps.len()
        invariant
            i <= steps.len(),
            all == entries_view(steps@),
            start == old(bundle)@,
            bundle@ == (BundleModel { info_plist: bundle@.info_plist, ..start }),
            with_info_keys(start.info_plist, all) == with_info_keys(
                bundle@.info_plist,
                all.skip(i as int),
            ),
        decreases steps.len() - i,
    {
        proof {
            assert(all.skip(i as int).skip(1) =~= all.skip(i + 1));
            assert(all.skip(i as int)[0] == all[i as int]);
        }
        match bundle.set_info_plist_key(steps[i].0.as_str(), steps[i].1.duplicate()) {
            Err(e) => {
                return Err(e);
            },
            Ok(_) => {},
        }
        i = i + 1;
    }
    Ok(())
}

/// The identifier under which the application is installed: the one the
/// options ask for, else, unless the application is exported, its own
/// identifier followed by a dot and the team.
pub open spec fn effective_identifier(
    custom: Option<Seq<char>>,
    mode: SignerTarget,
    identifier: Option<Seq<char>>,
    team: Option<Seq<char>>,
) -> Option<Seq<char>> {
    match custom {
        Some(c) => Some(c),
        None => if mode != SignerTarget::Export {
            match (identifier, team) {
                (Some(i), Some(t)) => Some(i + "."@ + t),
                _ => None,
            }
        } else {
            None
        },
    }
}

/// The identifier under which the application is installed.
pub fn choose_identifier(
    custom: &Option<String>,
    mode: SignerTarget,
    identifier: &Option<String>,
    team: &Option<String>,
) -> (r: Option<String>)
    ensures
        optional_text(r) == effective_identifier(
            optional_text(*custom),
            mode,
            optional_text(*identifier),
            optional_text(*team),
        ),
{
    match custom {
        Some(c) => Some(c.clone()),
        None => {
            match mode {
                SignerTarget::Export => None,
                SignerTarget::Install => match (identifier, team) {
                    (Some(i), Some(t)) => {
                        let head = concat(i.as_str(), ".");
                        Some(concat(head.as_str(), t.as_str()))
                    },
                    _ => None,
                },
            }
        },
    }
}

/// The bundles after the old identifier is replaced by the new one in each,
/// from the first on: the bundles as they stand at the end, and whether
/// every bundle went well. The first bundle that fails is the last that is
/// tried.
pub open spec fn with_identifier_rewritten(
    bundles: Seq<BundleModel>,
    from: Seq<char>,
    to: Seq<char>,
) -> (Seq<BundleModel>, Result<(), ErrorModel>)
    decreases bundles.len(),
{
    if bundles.len() == 0 {
        (bundles, Ok(()))
    } else {
        match with_matching_identifier(bundles[0].info_plist, from, to) {
            Err(e) => (bundles, Err(e)),
            Ok(info) => {
                let rest = with_identifier_rewritten(bundles.skip(1), from, to);
                (seq![BundleModel { info_plist: info, ..bundles[0] }] + rest.0, rest.1)
            },
        }
    }
}

/// Replaces the old identifier by the new one in each of the bundles.
pub fn rewrite_identifiers(bundles: Vec<Bundle>, from: &str, to: &str) -> (r: (
    Vec<Bundle>,
    Result<(), Error>,
))
    ensures
        r.0.len() == bundles.len(),
        bundles_view(r.0@) == with_identifier_rewritten(bundles_view(bundles@), from@, to@).0,
        match r.1 {
            Ok(_) => with_identifier_rewritten(bundles_view(bundles@), from@, to@).1 is Ok,
            Err(e) => with_identifier_rewritten(bundles_view(bundles@), from@, to@).1 == Err::<
                (),
                ErrorModel,
            >(e@),
        },
{
    let ghost all = bundles_view(bundles@);
    let mut out: Vec<Bundle> = Vec::new();
    let mut failure: Option<Error> = None;
    let mut i: usize = 0;
    assert(all.skip(0) =~= all);
    assert(bundles_view(out@) =~= Seq::<BundleModel>::empty());
    while i < bundles.len()
        invariant
            i <= bundles.len(),
            all == bundles_view(bundles@),
            out.len() == i,
            match failure {
                None => with_identifier_rewritten(all, from@, to@).0 == bundles_view(out@)
                    + with_identifier_rewritten(all.skip(i as int), from@, to@).0
                    && with_identifier_rewritten(all, from@, to@).1 == with_identifier_rewritten(
                    all.skip(i as int),
                    from@,
                    to@,
                ).1,
                Some(e) => with_identifier_rewritten(all, from@, to@).0 == bundles_view(out@)
                    + all.skip(i as int) && with_identifier_rewritten(all, from@, to@).1 == Err::<
                    (),
                    ErrorModel,
                >(e@),
            },
        decreases bundles.len() - i,
    {
        let ghost rest = all.skip(i as int);
        let ghost done = bundles_view(out@);
        proof {
            assert(rest.skip(1) =~= all.skip(i + 1));
            assert(rest[0] == bundles@[i as int]@);
        }
        let mut b = bundles[i].duplicate();
        if failure.is_none() {
            match b.set_matching_identifier(from, to) {
                Ok(_) => {
                    out.push(b);
                    proof {
                        let tail = with_identifier_rewritten(rest.skip(1), from@, to@).0;
                        assert(bundles_view(out@) =~= done.push(b@));
                        assert(done + (seq![b@] + tail) =~= done.push(b@) + tail);
                    }
                },
                Err(e) => {
                    out.push(b);
                    proof {
                        assert(bundles_view(out@) =~= done.push(rest[0]));
                        assert(done + rest =~= done.push(rest[0]) + rest.skip(1));
                    }
                    failure = Some(e);
                },
            }
        } else {
            out.push(b);
            proof {
                assert(bundles_view(out@) =~= done.push(rest[0]));
                assert(done + rest =~= done.push(rest[0]) + rest.skip(1));
            }
        }
        i = i + 1;
    }
    proof {
        assert(all.skip(bundles.len() as int) =~= Seq::<BundleModel>::empty());
        assert(bundles_view(out@) + Seq::<BundleModel>::empty() =~= bundles_view(out@));
    }
    match failure {
        Some(e) => (out, Err(e)),
        None => (out, Ok(())),
    }
}

/// The XML document of an empty set of entitlements.
pub open spec fn empty_entitlements_text() -> Seq<char> {
    "<?xml version=\"1.0\" encoding=\"UTF-8\"?>\n<!DOCTYPE plist PUBLIC \"-//Apple//DTD PLIST 1.0//EN\" \"http://www.apple.com/DTDs/PropertyList-1.0.dtd\">\n<plist version=\"1.0\">\n<dict/>\n</plist>\n"@
}

/// What settings are made for: always the bundle's main binary.
#[derive(Debug, Clone, Copy, PartialEq, Eq, Structural)]
pub enum SigningScope {
    Main,
}

/// What one bundle is signed with.
#[derive(Debug)]
pub struct SignJob {
    /// The bundle to sign, by the components of its path.
    pub dir: Vec<String>,
    /// The entitlements to sign it with, as an XML document.
    pub entitlements_xml: Vec<u8>,
    /// The provisioning profile to write into the bundle as
    /// `embedded.mobileprovision` before it is signed: it holds the
    /// entitlements that the bundle is signed with.
    pub embedded_profile: Option<Vec<u8>>,
    /// What the entitlements are set for.
    pub scope: SigningScope,
    /// Whether what is nested in the bundle is left unsigned.
    pub shallow: bool,
    /// Whether the signature is made for notarization.
    pub for_notarization: bool,
}

/// What a sign job means.
pub struct SignJobModel {
    pub dir: Seq<Seq<char>>,
    pub entitlements_xml: Seq<u8>,
    pub embedded_profile: Option<Seq<u8>>,
    pub scope: SigningScope,
    pub shallow: bool,
    pub for_notarization: bool,
}

impl View for SignJob {
    type V = SignJobModel;

    open spec fn view(&self) -> SignJobModel {
        SignJobModel {
            dir: strings_view(self.dir@),
            entitlements_xml: self.entitlements_xml@,
            embedded_profile: match self.embedded_profile {
                Some(p) => Some(p@),
                None => None,
            },
            scope: self.scope,
            shallow: self.shallow,
            for_notarization: self.for_notarization,
        }
    }
}

/// What a list of profiles means.
pub open spec fn profiles_view(profiles: Seq<MobileProvision>) -> Seq<MobileProvisionModel> {
    Seq::new(profiles.len(), |i: int| profiles[i]@)
}

/// The first profile from position `from` on that is for the bundle
/// identifier given.
pub open spec fn first_profile_for(profiles: Seq<MobileProvisionModel>, id: Seq<char>, from: int) -> Option<
    int,
>
    decreases profiles.len() - from,
{
    if from < 0 || from >= profiles.len() {
        None
    } else if bundle_id_of(profiles[from].plist, profiles[from].entitlements) == Some(id) {
        Some(from)
    } else {
        first_profile_for(profiles, id, from + 1)
    }
}

/// The profile that a bundle is signed with: the first that is for its
/// identifier, else the first of all.
pub open spec fn profile_for(profiles: Seq<MobileProvisionModel>, id: Option<Seq<char>>) -> int {
    match id {
        Some(id) => match first_profile_for(profiles, id, 0) {
            Some(i) => i,
            None => 0,
        },
        None => 0,
    }
}

/// The entitlements that a bundle is signed with: those of its profile,
/// with the wildcard resolved to the bundle's identifier and merged with
/// those of its binary, where it has an identifier and such a binary.
pub open spec fn prepared_entitlements(
    profile: MobileProvisionModel,
    id: Option<Seq<char>>,
    binary: Option<Plist>,
) -> Plist {
    let resolved = match id {
        Some(id) => wildcard_resolved(profile.entitlements, id),
        None => profile.entitlements,
    };
    match binary {
        Some(b) => merged_entitlements(resolved, b),
        None => resolved,
    }
}

/// A profile with other entitlements in place of its own.
pub open spec fn with_entitlements(profile: MobileProvisionModel, entitlements: Plist) -> MobileProvisionModel {
    MobileProvisionModel { data: profile.data, plist: profile.plist, entitlements }
}

/// Whether bundles of a kind carry a provisioning profile.
pub open spec fn carries_profile(kind: BundleType) -> bool {
    kind is App || kind is AppExtension
}

/// What a bundle is signed with. An application or an extension gets a
/// profile, where there is any, and the entitlements prepared from it; the
/// profile is written with those prepared entitlements in it. Every other
/// bundle gets no profile and an empty set of entitlements. Whatever the
/// bundle, the entitlements are set for its main binary, what is nested in
/// it is signed along, and the signature is not made for notarization.
pub open spec fn sign_job_for(
    bundle: BundleModel,
    profiles: Seq<MobileProvisionModel>,
    binary: Option<Plist>,
) -> SignJobModel {
    if carries_profile(bundle.kind) && profiles.len() > 0 {
        let id = info_string(bundle.info_plist, "CFBundleIdentifier"@);
        let profile = profiles[profile_for(profiles, id)];
        let prepared = prepared_entitlements(profile, id, binary);
        SignJobModel {
            dir: bundle.dir,
            entitlements_xml: match plist_xml_text(prepared) {
                Ok(bytes) => bytes,
                Err(_) => encode_utf8(empty_entitlements_text()),
            },
            embedded_profile: Some(written_profile(with_entitlements(profile, prepared))),
            scope: SigningScope::Main,
            shallow: false,
            for_notarization: false,
        }
    } else {
        SignJobModel {
            dir: bundle.dir,
            entitlements_xml: encode_utf8(empty_entitlements_text()),
            embedded_profile: None,
            scope: SigningScope::Main,
            shallow: false,
            for_notarization: false,
        }
    }
}

fn empty_entitlements() -> (r: Vec<u8>)
    ensures
        r@ == encode_utf8(empty_entitlements_text()),
{
    crate::bytes::to_vec(
        "<?xml version=\"1.0\" encoding=\"UTF-8\"?>\n<!DOCTYPE plist PUBLIC \"-//Apple//DTD PLIST 1.0//EN\" \"http://www.apple.com/DTDs/PropertyList-1.0.dtd\">\n<plist version=\"1.0\">\n<dict/>\n</plist>\n".as_bytes(),
    )
}

fn choose_profile(profiles: &Vec<MobileProvision>, id: &Option<String>) -> (r: usize)
    requires
        profiles.len() > 0,
    ensures
        r == profile_for(profiles_view(profiles@), optional_text(*id)),
        r < profiles.len(),
{
    let wanted = match id {
        Some(id) => id,
        None => {
            return 0;
        },
    };
    let ghost all = profiles_view(profiles@);
    let mut i: usize = 0;
    while i < profiles.len()
        invariant
            i <= profiles.len(),
            all == profiles_view(profiles@),
            optional_text(*id) == Some(wanted@),
            first_profile_for(all, wanted@, 0) == first_profile_for(all, wanted@, i as int),
        decreases profiles.len() - i,
    {
        assert(all[i as int] == profiles@[i as int]@);
        let matches = match profiles[i].bundle_id() {
            Some(found) => str_equal(found.as_str(), wanted.as_str()),
            None => false,
        };
        if matches {
            return i;
        }
        i = i + 1;
    }
    0
}

/// What one bundle is signed with. `binary` is the bundle's executable,
/// where it could be read.
pub fn sign_job(bundle: &Bundle, profiles: &Vec<MobileProvision>, binary: Option<&MachO>) -> (r:
    SignJob)
    ensures
        r@ == sign_job_for(
            bundle@,
            profiles_view(profiles@),
            match binary {
                Some(m) => entitlements_view(*m),
                None => None,
            },
        ),
{
    let dir = crate::bundle::copy_path(bundle.get_dir());
    let kind = bundle.bundle_type();
    let carries = match kind {
        BundleType::App => true,
        BundleType::AppExtension => true,
        _ => false,
    };
    if !carries || profiles.len() == 0 {
        return SignJob {
            dir,
            entitlements_xml: empty_entitlements(),
            embedded_profile: None,
            scope: SigningScope::Main,
            shallow: false,
            for_notarization: false,
        };
    }
    let id = bundle.get_bundle_identifier();
    let chosen = choose_profile(profiles, &id);
    assert(profiles_view(profiles@)[chosen as int] == profiles@[chosen as int]@);
    let mut profile = profiles[chosen].duplicate();
    match &id {
        Some(id) => {
            profile.replace_wildcard_in_entitlements(id.as_str());
        },
        None => {},
    }
    match binary {
        Some(m) => {
            match profile.merge_entitlements(m) {
                Ok(_) => {},
                Err(_) => {},
            }
        },
        None => {},
    }
    let xml = match profile.entitlements_as_bytes() {
        Ok(bytes) => bytes,
        Err(_) => empty_entitlements(),
    };
    SignJob {
        dir,
        entitlements_xml: xml,
        embedded_profile: Some(profile.to_embedded_bytes()),
        scope: SigningScope::Main,
        shallow: false,
        for_notarization: false,
    }
}

/// A file that is to be written.
#[derive(Debug)]
pub struct FileWrite {
    /// Where it goes, by the components of its path.
    pub path: Vec<String>,
    pub contents: Vec<u8>,
}

/// What a file to write means.
pub struct FileWriteModel {
    pub path: Seq<Seq<char>>,
    pub contents: Seq<u8>,
}

impl View for FileWrite {
    type V = FileWriteModel;

    open spec fn view(&self) -> FileWriteModel {
        FileWriteModel { path: strings_view(self.path@), contents: self.contents@ }
    }
}

/// The certificate that an application store inside the application signs
/// with in its turn: as a PKCS#12 archive, with its serial number.
#[derive(Debug)]
pub struct StoreCertificate {
    pub p12_data: Vec<u8>,
    pub serial_number: String,
}

/// What came of modifying the bundles of an application.
#[derive(Debug)]
pub struct Modified {
    /// The bundles as they stand.
    pub bundles: Vec<Bundle>,
    /// The identifier under which the application is installed.
    pub identifier: Option<String>,
    /// A file to write beside the changed `Info.plist` documents.
    pub write: Option<FileWrite>,
    /// Whether every change went well.
    pub result: Result<(), Error>,
}

/// What a modification means.
pub struct ModifiedModel {
    pub bundles: Seq<BundleModel>,
    pub identifier: Option<Seq<char>>,
    pub write: Option<FileWriteModel>,
    pub result: Result<(), ErrorModel>,
}

impl View for Modified {
    type V = ModifiedModel;

    open spec fn view(&self) -> ModifiedModel {
        ModifiedModel {
            bundles: bundles_view(self.bundles@),
            identifier: optional_text(self.identifier),
            write: match self.write {
                Some(w) => Some(w@),
                None => None,
            },
            result: match self.result {
                Ok(_) => Ok(()),
                Err(e) => Err(e@),
            },
        }
    }
}

/// The bundles with the keys given bound in the `Info.plist` of the bundle
/// at position `at`, and whether that went well.
pub open spec fn with_keys_at(bundles: Seq<BundleModel>, at: int, steps: Seq<Entry>) -> (
    Seq<BundleModel>,
    Result<(), ErrorModel>,
) {
    let changed = with_info_keys(bundles[at].info_plist, steps);
    (bundles.update(at, BundleModel { info_plist: changed.0, ..bundles[at] }), changed.1)
}

/// Binds the keys given in the `Info.plist` of the bundle at position `at`.
pub fn change_info_at(bundles: Vec<Bundle>, at: usize, steps: &Vec<(String, PlistValue)>) -> (r: (
    Vec<Bundle>,
    Result<(), Error>,
))
    requires
        at < bundles.len(),
    ensures
        r.0.len() == bundles.len(),
        bundles_view(r.0@) == with_keys_at(bundles_view(bundles@), at as int, entries_view(steps@)).0,
        match r.1 {
            Ok(_) => with_keys_at(bundles_view(bundles@), at as int, entries_view(steps@)).1 is Ok,
            Err(e) => with_keys_at(bundles_view(bundles@), at as int, entries_view(steps@)).1
                == Err::<(), ErrorModel>(e@),
        },
{
    let ghost before = bundles_view(bundles@);
    let mut bundles = bundles;
    let mut target = bundles.remove(at);
    assert(target@ == before[at as int]);
    let result = apply_info_changes(&mut target, steps);
    let ghost after = target@;
    bundles.insert(at, target);
    assert(bundles_view(bundles@) =~= before.update(at as int, after));
    (bundles, result)
}

/// The bundle in which the store's certificate is embedded: the
/// application itself for the two stores, the store's framework where the
/// store comes inside a container, and none for any other application.
pub open spec fn store_target(app: SignerApp, bundles: Seq<BundleModel>) -> Option<int> {
    match app {
        SignerApp::Default => None,
        SignerApp::SideStore => Some(bundles.len() - 1),
        SignerApp::AltStore => Some(bundles.len() - 1),
        SignerApp::LiveContainerAndSideStore => first_named(
            bundles,
            "SideStoreApp.framework"@,
            0,
        ),
    }
}

/// The first bundle from position `from` on whose directory has the name given.
pub open spec fn first_named(bundles: Seq<BundleModel>, name: Seq<char>, from: int) -> Option<int>
    decreases bundles.len() - from,
{
    if from < 0 || from >= bundles.len() {
        None
    } else if bundles[from].dir.len() > 0 && bundles[from].dir.last() == name {
        Some(from)
    } else {
        first_named(bundles, name, from + 1)
    }
}

fn find_named(bundles: &Vec<Bundle>, name: &str) -> (r: Option<usize>)
    ensures
        match r {
            Some(i) => first_named(bundles_view(bundles@), name@, 0) == Some(i as int) && i
                < bundles.len(),
            None => first_named(bundles_view(bundles@), name@, 0) is None,
        },
{
    let ghost all = bundles_view(bundles@);
    let mut i: usize = 0;
    while i < bundles.len()
        invariant
            i <= bundles.len(),
            all == bundles_view(bundles@),
            first_named(all, name@, 0) == first_named(all, name@, i as int),
        decreases bundles.len() - i,
    {
        let dir = bundles[i].get_dir();
        assert(all[i as int] == bundles@[i as int]@);
        if dir.len() > 0 {
            assert(path_view(dir@).last() == dir@[dir.len() - 1]@);
            if str_equal(dir[dir.len() - 1].as_str(), name) {
                return Some(i);
            }
        }
        i = i + 1;
    }
    None
}

/// What modifying the bundles of an application comes to. The bundles are
/// given in the order of signing, the application last.
///
/// First the keys that the options ask for are bound in the application's
/// `Info.plist`. Then the identifier under which the application is
/// installed is settled, and the application's own identifier gives way to
/// it in every bundle. Last, where the application is a store and brings a
/// certificate, the certificate is embedded. The first step that fails ends
/// the modification; what was changed before stays changed.
pub open spec fn modified(
    options: SignerOptions,
    bundles: Seq<BundleModel>,
    team: Option<Seq<char>>,
    store: Option<StoreCertificate>,
) -> ModifiedModel {
    if bundles.len() == 0 {
        ModifiedModel {
            bundles,
            identifier: optional_text(options.custom_identifier),
            write: None,
            result: Err(ErrorModel::BundleInfoPlistMissing),
        }
    } else {
        let first = with_keys_at(bundles, bundles.len() - 1, info_steps(options));
        let own = info_string(first.0.last().info_plist, "CFBundleIdentifier"@);
        let identifier = if first.1 is Ok {
            effective_identifier(optional_text(options.custom_identifier), options.mode, own, team)
        } else {
            optional_text(options.custom_identifier)
        };
        if first.1 is Err {
            ModifiedModel { bundles: first.0, identifier, write: None, result: first.1 }
        } else {
            let second = match (identifier, own) {
                (Some(to), Some(from)) => with_identifier_rewritten(first.0, from, to),
                _ => (first.0, Ok(())),
            };
            if second.1 is Err {
                ModifiedModel { bundles: second.0, identifier, write: None, result: second.1 }
            } else {
                match (store, store_target(options.app, second.0)) {
                    (Some(certificate), Some(at)) => {
                        let third = with_keys_at(
                            second.0,
                            at,
                            seq![entry("ALTCertificateID"@, Plist::String(certificate.serial_number@))],
                        );
                        ModifiedModel {
                            bundles: third.0,
                            identifier,
                            write: if third.1 is Ok {
                                Some(
                                    FileWriteModel {
                                        path: second.0[at].dir.push("ALTCertificate.p12"@),
                                        contents: certificate.p12_data@,
                                    },
                                )
                            } else {
                                None
                            },
                            result: third.1,
                        }
                    },
                    _ => ModifiedModel { bundles: second.0, identifier, write: None, result: Ok(()) },
                }
            }
        }
    }
}

/// The signer of an application: its certificate, its options, and the
/// provisioning profiles that registration brought.
#[derive(Debug)]
pub struct Signer {
    pub certificate: Option<CertificateIdentity>,
    pub options: SignerOptions,
    pub provisioning_files: Vec<MobileProvision>,
}

impl Signer {
    /// A signer with the certificate and the options given, and no
    /// provisioning profiles yet.
    pub fn new(certificate: Option<CertificateIdentity>, options: SignerOptions) -> (r: Signer)
        ensures
            r.options == options,
            r.provisioning_files@.len() == 0,
            r.certificate == certificate,
    {
        Signer { certificate, options, provisioning_files: Vec::new() }
    }

    /// A signer without a certificate: what it signs is signed ad hoc.
    pub fn adhoc(options: SignerOptions) -> (r: Signer)
        ensures
            r.options == options,
            r.provisioning_files@.len() == 0,
            r.certificate is None,
    {
        Signer { certificate: None, options, provisioning_files: Vec::new() }
    }

    /// Takes the provisioning profiles that registration brought.
    pub fn set_provisioning_files(&mut self, profiles: Vec<MobileProvision>)
        ensures
            final(self).provisioning_files@ == profiles@,
            final(self).options == old(self).options,
            final(self).certificate == old(self).certificate,
    {
        self.provisioning_files = profiles;
    }

    /// Modifies the bundles of an application as the options ask. The
    /// bundles are given in the order of signing, the application last. The
    /// identifier that was settled becomes the signer's custom identifier.
    pub fn modify_bundle(
        &mut self,
        bundles: Vec<Bundle>,
        team_id: &Option<String>,
        store: Option<&StoreCertificate>,
    ) -> (r: Modified)
        ensures
            r@ == modified(
                old(self).options,
                bundles_view(bundles@),
                optional_text(*team_id),
                match store {
                    Some(s) => Some(*s),
                    None => None,
                },
            ),
            optional_text(final(self).options.custom_identifier) == r@.identifier,
            final(self).options.custom_name == old(self).options.custom_name,
            final(self).options.custom_version == old(self).options.custom_version,
            final(self).options.features == old(self).options.features,
            final(self).options.embedding == old(self).options.embedding,
            final(self).options.app == old(self).options.app,
            final(self).options.mode == old(self).options.mode,
            final(self).provisioning_files@ == old(self).provisioning_files@,
            final(self).certificate == old(self).certificate,
    {
        let ghost input = bundles_view(bundles@);
        if bundles.len() == 0 {
            let identifier = match &self.options.custom_identifier {
                Some(c) => Some(c.clone()),
                None => None,
            };
            return Modified {
                bundles,
                identifier,
                write: None,
                result: Err(Error::BundleInfoPlistMissing),
            };
        }
        let last = bundles.len() - 1;
        let steps = info_changes(&self.options);
        let (bundles, first) = change_info_at(bundles, last, &steps);
        match first {
            Err(e) => {
                let identifier = match &self.options.custom_identifier {
                    Some(c) => Some(c.clone()),
                    None => None,
                };
                return Modified { bundles, identifier, write: None, result: Err(e) };
            },
            Ok(_) => {},
        }
        assert(bundles_view(bundles@).last() == bundles@[last as int]@);
        let own = bundles[last].get_bundle_identifier();
        let identifier = choose_identifier(
            &self.options.custom_identifier,
            self.options.mode,
            &own,
            team_id,
        );
        self.options.custom_identifier = match &identifier {
            Some(c) => Some(c.clone()),
            None => None,
        };
        let (bundles, second) = match (&identifier, &own) {
            (Some(to), Some(from)) => rewrite_identifiers(bundles, from.as_str(), to.as_str()),
            _ => (bundles, Ok(())),
        };
        match second {
            Err(e) => {
                return Modified { bundles, identifier, write: None, result: Err(e) };
            },
            Ok(_) => {},
        }
        let certificate = match store {
            Some(c) => c,
            None => {
                return Modified { bundles, identifier, write: None, result: Ok(()) };
            },
        };
        let target = match self.options.app {
            SignerApp::Default => None,
            SignerApp::SideStore => Some(bundles.len() - 1),
            SignerApp::AltStore => Some(bundles.len() - 1),
            SignerApp::LiveContainerAndSideStore => find_named(&bundles, "SideStoreApp.framework"),
        };
        let at = match target {
            Some(at) => at,
            None => {
                return Modified { bundles, identifier, write: None, result: Ok(()) };
            },
        };
        assert(bundles_view(bundles@)[at as int] == bundles@[at as int]@);
        let path = crate::bundle::child_path(bundles[at].get_dir(), "ALTCertificate.p12");
        assert(strings_view(path@) =~= path_view(path@));
        let mut keys: Vec<(String, PlistValue)> = Vec::new();
        keys.push(
            ("ALTCertificateID".to_owned(), PlistValue::text(certificate.serial_number.as_str())),
        );
        assert(entries_view(keys@) =~= seq![
            entry("ALTCertificateID"@, Plist::String(certificate.serial_number@)),
        ]);
        let ghost expected = modified(
            old(self).options,
            input,
            optional_text(*team_id),
            match store {
                Some(s) => Some(*s),
                None => None,
            },
        );
        let (bundles, third) = change_info_at(bundles, at, &keys);
        match third {
            Err(e) => Modified { bundles, identifier, write: None, result: Err(e) },
            Ok(_) => {
                assert(expected.result->Ok_0 == ());
                Modified {
                    bundles,
                    identifier,
                    write: Some(FileWrite { path, contents: certificate.p12_data.clone() }),
                    result: Ok(()),
                }
            },
        }
    }
}

/// Whether a bundle is registered with the portal: it is an application or
/// an extension and, where only the application gets a profile, it is the
/// application itself.
pub open spec fn is_registered(options: SignerOptions, bundle: BundleModel, root: BundleModel) -> bool {
    carries_profile(bundle.kind) && (!options.embedding.single_profile || bundle.dir == root.dir)
}

/// The positions of the bundles to register among the first `n`.
pub open spec fn registered_among(options: SignerOptions, bundles: Seq<BundleModel>, n: int) -> Seq<
    int,
>
    decreases n,
{
    if n <= 0 || bundles.len() == 0 {
        Seq::empty()
    } else if n <= bundles.len() && is_registered(options, bundles[n - 1], bundles.last()) {
        registered_among(options, bundles, n - 1).push(n - 1)
    } else {
        registered_among(options, bundles, n - 1)
    }
}

/// What a list of positions means.
pub open spec fn positions_view(positions: Seq<usize>) -> Seq<int> {
    Seq::new(positions.len(), |i: int| positions[i] as int)
}

fn same_path(a: &Vec<String>, b: &Vec<String>) -> (r: bool)
    ensures
        r == (path_view(a@) == path_view(b@)),
{
    if a.len() != b.len() {
        assert(path_view(a@).len() != path_view(b@).len());
        return false;
    }
    let mut i: usize = 0;
    while i < a.len()
        invariant
            a.len() == b.len(),
            i <= a.len(),
            forall|j: int| 0 <= j < i ==> a@[j]@ == b@[j]@,
        decreases a.len() - i,
    {
        if !str_equal(a[i].as_str(), b[i].as_str()) {
            assert(path_view(a@)[i as int] != path_view(b@)[i as int]);
            return false;
        }
        i = i + 1;
    }
    assert(path_view(a@) =~= path_view(b@));
    true
}

impl Signer {
    /// The positions of the bundles that are registered with the portal,
    /// among the bundles in the order of signing, the application last.
    pub fn bundles_to_register(&self, bundles: &Vec<Bundle>) -> (r: Vec<usize>)
        ensures
            positions_view(r@) == registered_among(
                self.options,
                bundles_view(bundles@),
                bundles.len() as int,
            ),
            forall|i: int| 0 <= i < r.len() ==> r@[i] < bundles.len(),
    {
        let ghost all = bundles_view(bundles@);
        let mut out: Vec<usize> = Vec::new();
        if bundles.len() == 0 {
            assert(positions_view(out@) =~= Seq::<int>::empty());
            return out;
        }
        let root = &bundles[bundles.len() - 1];
        assert(all.last() == root@);
        let mut i: usize = 0;
        assert(positions_view(out@) =~= registered_among(self.options, all, 0));
        while i < bundles.len()
            invariant
                i <= bundles.len(),
                bundles.len() > 0,
                all == bundles_view(bundles@),
                all.last() == root@,
                positions_view(out@) == registered_among(self.options, all, i as int),
                forall|k: int| 0 <= k < out.len() ==> out@[k] < bundles.len(),
            decreases bundles.len() - i,
        {
            assert(all[i as int] == bundles@[i as int]@);
            let carries = match bundles[i].bundle_type() {
                BundleType::App => true,
                BundleType::AppExtension => true,
                _ => false,
            };
            let wanted = carries && (!self.options.embedding.single_profile || same_path(
                bundles[i].get_dir(),
                root.get_dir(),
            ));
            if wanted {
                let ghost before = positions_view(out@);
                out.push(i);
                assert(positions_view(out@) =~= before.push(i as int));
            }
            i = i + 1;
        }
        out
    }

    /// What each bundle is signed with, in the order of signing: deepest
    /// first, whatever the order in which the bundles are given. `binaries`
    /// holds the executable of each bundle as given, where it could be
    /// read; a bundle beyond its end has none.
    pub fn sign_bundle(&self, bundles: &Vec<Bundle>, binaries: &Vec<Option<MachO>>) -> (r: Vec<
        SignJob,
    >)
        ensures
            r.len() == bundles.len(),
            r.len() == signing_order(bundles_view(bundles@)).len(),
            forall|k: int|
                0 <= k < r.len() ==> (#[trigger] r@[k])@ == sign_job_for(
                    signing_order(bundles_view(bundles@))[k],
                    profiles_view(self.provisioning_files@),
                    binary_at(
                        bundles_view(bundles@),
                        binaries@,
                        signing_order(bundles_view(bundles@))[k].dir,
                        0,
                    ),
                ),
            forall|i: int, j: int|
                0 <= i < j < r.len() ==> (#[trigger] r@[i])@.dir.len() >= (#[trigger] r@[j])@.dir.len(),
    {
        let sorted = sort_for_signing(bundles);
        let ghost given = bundles_view(bundles@);
        let ghost order = signing_order(given);
        proof {
            crate::signing_order::lemma_signing_order(given);
            assert(bundles_view(sorted@).len() == sorted.len());
        }
        let mut jobs: Vec<SignJob> = Vec::new();
        let mut k: usize = 0;
        while k < sorted.len()
            invariant
                k <= sorted.len(),
                sorted.len() == bundles.len(),
                given == bundles_view(bundles@),
                order == bundles_view(sorted@),
                jobs.len() == k,
                forall|j: int|
                    0 <= j < k ==> (#[trigger] jobs@[j])@ == sign_job_for(
                        order[j],
                        profiles_view(self.provisioning_files@),
                        binary_at(given, binaries@, order[j].dir, 0),
                    ),
            decreases sorted.len() - k,
        {
            assert(order[k as int] == sorted@[k as int]@);
            let binary = find_binary(bundles, binaries, sorted[k].get_dir());
            jobs.push(sign_job(&sorted[k], &self.provisioning_files, binary));
            k = k + 1;
        }
        proof {
            assert forall|i: int, j: int| 0 <= i < j < jobs.len() implies (#[trigger] jobs@[i])@.dir.len()
                >= (#[trigger] jobs@[j])@.dir.len() by {
                assert(jobs@[i]@.dir == order[i].dir);
                assert(jobs@[j]@.dir == order[j].dir);
                assert(crate::signing_order::depth_of(order[i]) >= crate::signing_order::depth_of(
                    order[j],
                ));
            }
        }
        jobs
    }
}

/// The entitlements of the executable of the first bundle from `from` on
/// that lies at `dir`, where that executable was read.
pub open spec fn binary_at(
    bundles: Seq<BundleModel>,
    binaries: Seq<Option<MachO>>,
    dir: Seq<Seq<char>>,
    from: int,
) -> Option<Plist>
    decreases bundles.len() - from,
{
    if from < 0 || from >= bundles.len() {
        None
    } else if bundles[from].dir == dir {
        if from < binaries.len() {
            match binaries[from] {
                Some(m) => entitlements_view(m),
                None => None,
            }
        } else {
            None
        }
    } else {
        binary_at(bundles, binaries, dir, from + 1)
    }
}

fn find_binary<'a>(bundles: &Vec<Bundle>, binaries: &'a Vec<Option<MachO>>, dir: &Vec<String>) -> (r:
    Option<&'a MachO>)
    ensures
        match r {
            Some(m) => entitlements_view(*m),
            None => None,
        } == binary_at(bundles_view(bundles@), binaries@, path_view(dir@), 0),
{
    let ghost all = bundles_view(bundles@);
    let mut i: usize = 0;
    while i < bundles.len()
        invariant
            i <= bundles.len(),
            all == bundles_view(bundles@),
            binary_at(all, binaries@, path_view(dir@), 0) == binary_at(
                all,
                binaries@,
                path_view(dir@),
                i as int,
            ),
        decreases bundles.len() - i,
    {
        assert(all[i as int] == bundles@[i as int]@);
        if same_path(bundles[i].get_dir(), dir) {
            if i < binaries.len() {
                return match &binaries[i] {
                    Some(m) => Some(m),
                    None => None,
                };
            }
            return None;
        }
        i = i + 1;
    }
    None
}

/// The application groups of a binary under a team: each group followed by
/// a dot and the team.
pub open spec fn team_groups(groups: Seq<String>, team: Seq<char>) -> Seq<Seq<char>> {
    Seq::new(groups.len(), |i: int| groups[i]@ + "."@ + team)
}

/// The application groups of a binary under the team given.
pub fn group_identifiers(groups: &Vec<String>, team_id: &str) -> (r: Vec<String>)
    ensures
        strings_view(r@) == team_groups(groups@, team_id@),
{
    let mut out: Vec<String> = Vec::new();
    let mut i: usize = 0;
    while i < groups.len()
        invariant
            i <= groups.len(),
            out.len() == i,
            forall|j: int| 0 <= j < i ==> out@[j]@ == groups@[j]@ + "."@ + team_id@,
        decreases groups.len() - i,
    {
        let head = concat(groups[i].as_str(), ".");
        out.push(concat(head.as_str(), team_id));
        i = i + 1;
    }
    assert(strings_view(out@) =~= team_groups(groups@, team_id@));
    out
}

/// The value under which a store learns its application groups: their
/// identifiers under the team, in an array.
pub fn store_groups_value(groups: &Vec<String>, team_id: &str) -> (r: PlistValue)
    ensures
        r@ == Plist::Array(
            Seq::new(groups@.len(), |i: int| Plist::String(groups@[i]@ + "."@ + team_id@)),
        ),
{
    let ids = group_identifiers(groups, team_id);
    assert(strings_view(ids@).len() == ids.len());
    let mut items: Vec<PlistValue> = Vec::new();
    let mut i: usize = 0;
    while i < ids.len()
        invariant
            i <= ids.len(),
            ids.len() == groups.len(),
            strings_view(ids@) == team_groups(groups@, team_id@),
            items.len() == i,
            forall|j: int| 0 <= j < i ==> items@[j]@ == Plist::String(groups@[j]@ + "."@ + team_id@),
        decreases ids.len() - i,
    {
        assert(strings_view(ids@)[i as int] == ids@[i as int]@);
        items.push(PlistValue::text(ids[i].as_str()));
        i = i + 1;
    }
    let r = PlistValue::array(items);
    assert(r@->Array_0 =~= Seq::new(
        groups@.len(),
        |i: int| Plist::String(groups@[i]@ + "."@ + team_id@),
    ));
    r
}

/// Whether an application is a store that learns its application groups
/// from its own `Info.plist`.
pub open spec fn keeps_groups(app: SignerApp) -> bool {
    app is SideStore || app is AltStore
}

/// What is bound under `ALTAppGroups` in the application's `Info.plist`
/// once its groups are registered: for a store the identifiers of the
/// groups under the team, in an array; for every other application nothing.
pub open spec fn store_groups_for(app: SignerApp, groups: Seq<String>, team: Seq<char>) -> Option<
    Plist,
> {
    if keeps_groups(app) {
        Some(Plist::Array(Seq::new(groups.len(), |i: int| Plist::String(groups[i]@ + "."@ + team))))
    } else {
        None
    }
}

/// The value to bind under `ALTAppGroups` for the application given, where
/// there is one to bind.
pub fn store_groups(app: SignerApp, groups: &Vec<String>, team_id: &str) -> (r: Option<PlistValue>)
    ensures
        match r {
            Some(v) => store_groups_for(app, groups@, team_id@) == Some(v@),
            None => store_groups_for(app, groups@, team_id@) is None,
        },
{
    match app {
        SignerApp::SideStore => Some(store_groups_value(groups, team_id)),
        SignerApp::AltStore => Some(store_groups_value(groups, team_id)),
        _ => None,
    }
}

/// What one bundle is signed with under plain settings.
#[derive(Debug)]
pub struct SettingsJob {
    /// The bundle to sign, by the components of its path.
    pub dir: Vec<String>,
    /// The entitlements to sign it with, where there are any.
    pub entitlements_xml: Option<Vec<u8>>,
    /// The provisioning profile to write into the bundle before it is signed.
    pub embedded_profile: Option<Vec<u8>>,
    /// Whether what is nested in the bundle is left as it is.
    pub shallow: bool,
    /// What the entitlements are set for.
    pub scope: SigningScope,
    /// Whether the signature is made for notarization.
    pub for_notarization: bool,
}

/// What a job under plain settings means.
pub struct SettingsJobModel {
    pub dir: Seq<Seq<char>>,
    pub entitlements_xml: Option<Seq<u8>>,
    pub embedded_profile: Option<Seq<u8>>,
    pub shallow: bool,
    pub scope: SigningScope,
    pub for_notarization: bool,
}

impl View for SettingsJob {
    type V = SettingsJobModel;

    open spec fn view(&self) -> SettingsJobModel {
        SettingsJobModel {
            dir: strings_view(self.dir@),
            entitlements_xml: match self.entitlements_xml {
                Some(x) => Some(x@),
                None => None,
            },
            embedded_profile: match self.embedded_profile {
                Some(p) => Some(p@),
                None => None,
            },
            shallow: self.shallow,
            scope: self.scope,
            for_notarization: self.for_notarization,
        }
    }
}

/// What a list of jobs means.
pub open spec fn jobs_view(jobs: Seq<SettingsJob>) -> Seq<SettingsJobModel> {
    Seq::new(jobs.len(), |i: int| jobs[i]@)
}

/// The entitlements of a profile as an XML document, where they can be written.
pub open spec fn entitlements_document(profile: MobileProvisionModel) -> Option<Seq<u8>> {
    match plist_xml_text(profile.entitlements) {
        Ok(bytes) => Some(bytes),
        Err(_) => None,
    }
}

/// What a bundle is signed with where every bundle gets a profile of its
/// own: an application or an extension gets the profile that is for its
/// identifier, else the first, with that profile's entitlements, and the
/// profile is written with the entitlements it holds now; every other
/// bundle gets neither. Nothing nested is signed along.
pub open spec fn own_profile_job(bundle: BundleModel, profiles: Seq<MobileProvisionModel>) -> SettingsJobModel {
    if carries_profile(bundle.kind) && profiles.len() > 0 {
        let profile = profiles[profile_for(
            profiles,
            info_string(bundle.info_plist, "CFBundleIdentifier"@),
        )];
        SettingsJobModel {
            dir: bundle.dir,
            entitlements_xml: entitlements_document(profile),
            embedded_profile: Some(written_profile(profile)),
            shallow: true,
            scope: SigningScope::Main,
            for_notarization: false,
        }
    } else {
        SettingsJobModel {
            dir: bundle.dir,
            entitlements_xml: None,
            embedded_profile: None,
            shallow: true,
            scope: SigningScope::Main,
            for_notarization: false,
        }
    }
}

/// What is signed under plain settings, in order. With one profile for all,
/// only the application is signed, with the first profile, which is
/// embedded where the settings say so; without a profile nothing is signed.
/// With a profile for each, every bundle is signed, deepest first and the
/// application last.
pub open spec fn settings_jobs(
    settings: SignerSettings,
    embedded: Seq<BundleModel>,
    root: BundleModel,
    profiles: Seq<MobileProvisionModel>,
) -> Seq<SettingsJobModel> {
    match settings.sign_mode {
        SignerMode::Zsign => if profiles.len() > 0 {
            seq![
                SettingsJobModel {
                    dir: root.dir,
                    entitlements_xml: entitlements_document(profiles[0]),
                    embedded_profile: if settings.embed_mobileprovision {
                        Some(written_profile(profiles[0]))
                    } else {
                        None
                    },
                    shallow: settings.sign_shallow,
                    scope: SigningScope::Main,
                    for_notarization: false,
                },
            ]
        } else {
            Seq::empty()
        },
        SignerMode::Default => {
            let order = signing_order(embedded.push(root));
            Seq::new(order.len(), |i: int| own_profile_job(order[i], profiles))
        },
    }
}

fn profile_document(profile: &MobileProvision) -> (r: Option<Vec<u8>>)
    ensures
        match r {
            Some(x) => entitlements_document(profile@) == Some(x@),
            None => entitlements_document(profile@) is None,
        },
{
    match profile.entitlements_as_bytes() {
        Ok(bytes) => Some(bytes),
        Err(_) => None,
    }
}

fn own_job(bundle: &Bundle, profiles: &Vec<MobileProvision>) -> (r: SettingsJob)
    ensures
        r@ == own_profile_job(bundle@, profiles_view(profiles@)),
{
    let dir = crate::bundle::copy_path(bundle.get_dir());
    let carries = match bundle.bundle_type() {
        BundleType::App => true,
        BundleType::AppExtension => true,
        _ => false,
    };
    if !carries || profiles.len() == 0 {
        return SettingsJob {
            dir,
            entitlements_xml: None,
            embedded_profile: None,
            shallow: true,
            scope: SigningScope::Main,
            for_notarization: false,
        };
    }
    let id = bundle.get_bundle_identifier();
    let chosen = choose_profile(profiles, &id);
    assert(profiles_view(profiles@)[chosen as int] == profiles@[chosen as int]@);
    SettingsJob {
        dir,
        entitlements_xml: profile_document(&profiles[chosen]),
        embedded_profile: Some(profiles[chosen].to_embedded_bytes()),
        shallow: true,
        scope: SigningScope::Main,
        for_notarization: false,
    }
}

/// What is signed under plain settings, in order.
pub fn sign(
    settings: &SignerSettings,
    embedded: &Vec<Bundle>,
    root: &Bundle,
    profiles: &Vec<MobileProvision>,
) -> (r: Vec<SettingsJob>)
    ensures
        jobs_view(r@) == settings_jobs(
            *settings,
            bundles_view(embedded@),
            root@,
            profiles_view(profiles@),
        ),
{
    let mut jobs: Vec<SettingsJob> = Vec::new();
    match settings.sign_mode {
        SignerMode::Zsign => {
            if profiles.len() > 0 {
                assert(profiles_view(profiles@)[0] == profiles@[0]@);
                let embedded_profile = if settings.embed_mobileprovision {
                    Some(profiles[0].to_embedded_bytes())
                } else {
                    None
                };
                jobs.push(
                    SettingsJob {
                        dir: crate::bundle::copy_path(root.get_dir()),
                        entitlements_xml: profile_document(&profiles[0]),
                        embedded_profile,
                        shallow: settings.sign_shallow,
                        scope: SigningScope::Main,
                        for_notarization: false,
                    },
                );
            }
            assert(jobs_view(jobs@) =~= settings_jobs(
                *settings,
                bundles_view(embedded@),
                root@,
                profiles_view(profiles@),
            ));
            jobs
        },
        SignerMode::Default => {
            let mut all: Vec<Bundle> = Vec::new();
            let mut i: usize = 0;
            while i < embedded.len()
                invariant
                    i <= embedded.len(),
                    all.len() == i,
                    forall|j: int| 0 <= j < i ==> all@[j]@ == embedded@[j]@,
                decreases embedded.len() - i,
            {
                all.push(embedded[i].duplicate());
                i = i + 1;
            }
            all.push(root.duplicate());
            assert(bundles_view(all@) =~= bundles_view(embedded@).push(root@));
            let order = sort_for_signing(&all);
            let ghost wanted = signing_order(bundles_view(embedded@).push(root@));
            let mut k: usize = 0;
            while k < order.len()
                invariant
                    k <= order.len(),
                    bundles_view(order@) == wanted,
                    jobs.len() == k,
                    forall|j: int|
                        0 <= j < k ==> jobs@[j]@ == own_profile_job(
                            wanted[j],
                            profiles_view(profiles@),
                        ),
                decreases order.len() - k,
            {
                assert(bundles_view(order@)[k as int] == order@[k as int]@);
                jobs.push(own_job(&order[k], profiles));
                k = k + 1;
            }
            assert(bundles_view(order@).len() == order.len());
            assert(jobs_view(jobs@) =~= settings_jobs(
                *settings,
                bundles_view(embedded@),
                root@,
                profiles_view(profiles@),
            ));
            jobs
        },
    }
}

/// What changing an application under plain settings comes to: the
/// embedded bundles and the application as they stand, and whether every
/// change went well.
pub struct Changed {
    pub embedded: Vec<Bundle>,
    pub root: Bundle,
    pub result: Result<(), Error>,
}

/// What such a change means.
pub struct ChangedModel {
    pub embedded: Seq<BundleModel>,
    pub root: BundleModel,
    pub result: Result<(), ErrorModel>,
}

impl View for Changed {
    type V = ChangedModel;

    open spec fn view(&self) -> ChangedModel {
        ChangedModel {
            embedded: bundles_view(self.embedded@),
            root: self.root@,
            result: match self.result {
                Ok(_) => Ok(()),
                Err(e) => Err(e@),
            },
        }
    }
}

/// The keys that plain settings bind in the `Info.plist` of the
/// application: the identifier, the name and the two versions, each where
/// the settings give one. The identifier is bound only where the
/// application had one before.
pub open spec fn settings_steps(settings: SignerSettings, had_identifier: bool) -> Seq<Entry> {
    (match settings.custom_identifier {
        Some(id) => if had_identifier {
            seq![entry("CFBundleIdentifier"@, Plist::String(id@))]
        } else {
            Seq::empty()
        },
        None => Seq::empty(),
    }) + (match settings.custom_name {
        Some(name) => seq![entry("CFBundleDisplayName"@, Plist::String(name@))],
        None => Seq::empty(),
    }) + (match settings.custom_build_version {
        Some(version) => seq![
            entry("CFBundleShortVersionString"@, Plist::String(version@)),
            entry("CFBundleVersion"@, Plist::String(version@)),
        ],
        None => Seq::empty(),
    })
}

/// What changing an application under plain settings comes to. Where the
/// settings give an identifier and the application has one, the
/// application's identifier gives way to the new one in every embedded
/// bundle first. Then the settings' keys are bound in the application.
pub open spec fn changed(settings: SignerSettings, embedded: Seq<BundleModel>, root: BundleModel) -> ChangedModel {
    let own = info_string(root.info_plist, "CFBundleIdentifier"@);
    let first = match (settings.custom_identifier, own) {
        (Some(to), Some(from)) => with_identifier_rewritten(embedded, from, to@),
        _ => (embedded, Ok(())),
    };
    if first.1 is Err {
        ChangedModel { embedded: first.0, root, result: first.1 }
    } else {
        let second = with_info_keys(root.info_plist, settings_steps(settings, own is Some));
        ChangedModel {
            embedded: first.0,
            root: BundleModel { info_plist: second.0, ..root },
            result: second.1,
        }
    }
}

/// Changes an application as plain settings ask.
pub fn apply_settings(settings: &SignerSettings, embedded: Vec<Bundle>, root: Bundle) -> (r: Changed)
    ensures
        r@ == changed(*settings, bundles_view(embedded@), root@),
{
    let own = root.get_bundle_identifier();
    let (embedded, first) = match (&settings.custom_identifier, &own) {
        (Some(to), Some(from)) => rewrite_identifiers(embedded, from.as_str(), to.as_str()),
        _ => (embedded, Ok(())),
    };
    match first {
        Err(e) => {
            return Changed { embedded, root, result: Err(e) };
        },
        Ok(_) => {},
    }
    let mut steps: Vec<(String, PlistValue)> = Vec::new();
    assert(entries_view(steps@) =~= Seq::<Entry>::empty());
    match (&settings.custom_identifier, &own) {
        (Some(id), Some(_)) => {
            push_step(&mut steps, "CFBundleIdentifier", PlistValue::text(id.as_str()));
        },
        _ => {},
    }
    match &settings.custom_name {
        Some(name) => {
            push_step(&mut steps, "CFBundleDisplayName", PlistValue::text(name.as_str()));
        },
        None => {},
    }
    match &settings.custom_build_version {
        Some(version) => {
            push_step(&mut steps, "CFBundleShortVersionString", PlistValue::text(version.as_str()));
            push_step(&mut steps, "CFBundleVersion", PlistValue::text(version.as_str()));
        },
        None => {},
    }
    assert(entries_view(steps@) =~= settings_steps(*settings, own is Some));
    let mut root = root;
    let ghost before = root@;
    let second = apply_info_changes(&mut root, &steps);
    match second {
        Err(e) => Changed { embedded, root, result: Err(e) },
        Ok(_) => {
            proof {
                let w = with_info_keys(before.info_plist, entries_view(steps@));
                assert(w.1 is Ok);
                assert(w.1->Ok_0 == ());
            }
            Changed { embedded, root, result: Ok(()) }
        },
    }
}

/// Whether a job embeds the profile given as it stands once the
/// entitlements have been prepared for the bundle, and signs with those
/// same entitlements wherever they can be written.
pub open spec fn embeds_prepared(
    job: SignJobModel,
    profile: MobileProvisionModel,
    id: Option<Seq<char>>,
    binary: Option<Plist>,
) -> bool {
    let prepared = prepared_entitlements(profile, id, binary);
    job.embedded_profile == Some(written_profile(with_entitlements(profile, prepared))) && (
    plist_xml_text(prepared) is Ok ==> plist_xml_text(prepared) == Ok::<Seq<u8>, Seq<char>>(
        job.entitlements_xml,
    ))
}

/// An application or an extension is signed with exactly one embedded
/// profile wherever there is a profile at all; no other bundle gets one.
/// The profile embedded is one of those given, written with the
/// entitlements that the bundle is signed with.
pub proof fn lemma_one_profile_per_signable_bundle(
    bundle: BundleModel,
    profiles: Seq<MobileProvisionModel>,
    binary: Option<Plist>,
)
    ensures
        sign_job_for(bundle, profiles, binary).embedded_profile is Some <==> carries_profile(
            bundle.kind,
        ) && profiles.len() > 0,
        sign_job_for(bundle, profiles, binary).embedded_profile is Some ==> exists|i: int|
            0 <= i < profiles.len() && embeds_prepared(
                sign_job_for(bundle, profiles, binary),
                #[trigger] profiles[i],
                info_string(bundle.info_plist, "CFBundleIdentifier"@),
                binary,
            ),
        sign_job_for(bundle, profiles, binary).dir == bundle.dir,
{
    if carries_profile(bundle.kind) && profiles.len() > 0 {
        let id = info_string(bundle.info_plist, "CFBundleIdentifier"@);
        lemma_profile_for_in_range(profiles, id);
        let i = profile_for(profiles, id);
        assert(embeds_prepared(sign_job_for(bundle, profiles, binary), profiles[i], id, binary));
    }
}

/// A bundle that carries no profile, or any bundle where there is no
/// profile, is signed in place with the empty set of entitlements, set for
/// its main binary, with all that is nested in it and not for notarization;
/// nothing is written into it.
pub proof fn lemma_bundle_without_profile(
    bundle: BundleModel,
    profiles: Seq<MobileProvisionModel>,
    binary: Option<Plist>,
)
    requires
        !carries_profile(bundle.kind) || profiles.len() == 0,
    ensures
        sign_job_for(bundle, profiles, binary) == (SignJobModel {
            dir: bundle.dir,
            entitlements_xml: encode_utf8(empty_entitlements_text()),
            embedded_profile: None,
            scope: SigningScope::Main,
            shallow: false,
            for_notarization: false,
        }),
{
}

/// Whatever the bundle, it is signed with all that is nested in it and not
/// for notarization, and its entitlements are set for its main binary.
pub proof fn lemma_signed_whole(
    bundle: BundleModel,
    profiles: Seq<MobileProvisionModel>,
    binary: Option<Plist>,
)
    ensures
        !sign_job_for(bundle, profiles, binary).shallow,
        !sign_job_for(bundle, profiles, binary).for_notarization,
        sign_job_for(bundle, profiles, binary).scope == SigningScope::Main,
{
}

/// The profile chosen for a bundle is one of the profiles.
pub proof fn lemma_profile_for_in_range(profiles: Seq<MobileProvisionModel>, id: Option<Seq<char>>)
    requires
        profiles.len() > 0,
    ensures
        0 <= profile_for(profiles, id) < profiles.len(),
{
    match id {
        Some(id) => {
            lemma_first_profile_in_range(profiles, id, 0);
        },
        None => {},
    }
}

/// The first profile found from a position on lies at or behind it.
pub proof fn lemma_first_profile_in_range(
    profiles: Seq<MobileProvisionModel>,
    id: Seq<char>,
    from: int,
)
    ensures
        match first_profile_for(profiles, id, from) {
            Some(i) => from <= i < profiles.len() && 0 <= i,
            None => true,
        },
    decreases profiles.len() - from,
{
    if 0 <= from < profiles.len() && bundle_id_of(
        profiles[from].plist,
        profiles[from].entitlements,
    ) != Some(id) {
        lemma_first_profile_in_range(profiles, id, from + 1);
    }
}

/// A stage of the work, as it is shown to the user.
#[derive(Debug)]
pub enum Stage {
    RegisteringDevice,
    ExtractingPackage,
    /// Registering the bundle with this name.
    Registering(String),
    /// Signing the bundle with this name.
    Signing(String),
    /// Installing, so many percent done.
    Installing(u8),
}

/// The words for a stage.
pub open spec fn stage_text(stage: Stage) -> Seq<char> {
    match stage {
        Stage::RegisteringDevice => "registering device"@,
        Stage::ExtractingPackage => "extracting package"@,
        Stage::Registering(name) => "registering "@ + name@,
        Stage::Signing(name) => "signing "@ + name@,
        Stage::Installing(percent) => "installing… "@ + decimal_text(percent as int) + "%"@,
    }
}

impl Stage {
    /// The words for the stage.
    pub fn message(&self) -> (r: String)
        ensures
            r@ == stage_text(*self),
    {
        match self {
            Stage::RegisteringDevice => "registering device".to_owned(),
            Stage::ExtractingPackage => "extracting package".to_owned(),
            Stage::Registering(name) => concat("registering ", name.as_str()),
            Stage::Signing(name) => concat("signing ", name.as_str()),
            Stage::Installing(percent) => {
                let number = decimal(*percent as i64);
                let head = concat("installing… ", number.as_str());
                concat(head.as_str(), "%")
            },
        }
    }
}

} // verus!

use grand_slam::bundle::{Bundle, BundleType, PlistInfoTrait};
use grand_slam::developer::v1::{Capability, CapabilityAttributes, CapabilityEntitlement};
use grand_slam::error::Error;
use grand_slam::macho::layout::{check_signature_range, signature_fits};
use grand_slam::macho::MachO;
use grand_slam::property_list::PlistValue;
use grand_slam::provision::{extract_plist_from_file, MobileProvision};
use grand_slam::signer::{
    apply_settings, choose_identifier, group_identifiers, info_changes, rewrite_identifiers,
    sign, sign_job, store_groups_value, Signer, SignerApp, SignerEmbedding, SignerFeatures,
    SignerMode, SignerOptions, SignerSettings, SignerTarget, SigningScope, Stage,
    StoreCertificate,
};

fn dict(entries: Vec<(&str, PlistValue)>) -> PlistValue {
    PlistValue::dictionary(entries.into_iter().map(|(k, v)| (k.to_string(), v)).collect())
}

fn texts(items: &[&str]) -> PlistValue {
    PlistValue::array(items.iter().map(|s| PlistValue::text(s)).collect())
}

fn profile_bytes(app_id: &str, team: &str, extra: Vec<(&str, PlistValue)>) -> Vec<u8> {
    let mut bytes = vec![0x30u8, 0x82, 0x01, 0x00, 0xff];
    bytes.extend(profile_document(app_id, team, extra));
    bytes.extend(vec![0xa0u8, 0x00, 0x31, 0x82]);
    bytes
}

fn profile_document(app_id: &str, team: &str, extra: Vec<(&str, PlistValue)>) -> Vec<u8> {
    let mut entitlements = vec![
        ("application-identifier", PlistValue::text(app_id)),
        ("com.apple.developer.team-identifier", PlistValue::text(team)),
        ("get-task-allow", PlistValue::Boolean(true)),
    ];
    entitlements.extend(extra);
    let doc = dict(vec![
        ("AppIDName", PlistValue::text("Demo")),
        ("ApplicationIdentifierPrefix", texts(&[team])),
        ("Entitlements", dict(entitlements)),
    ]);
    doc.to_xml().expect("writes")
}

fn written(app_id: &str) -> Vec<u8> {
    profile_document(app_id, "TEAM123456", vec![])
}

fn profile(app_id: &str) -> MobileProvision {
    MobileProvision::load_with_bytes(profile_bytes(app_id, "TEAM123456", vec![])).expect("loads")
}

fn info(identifier: &str) -> Vec<u8> {
    dict(vec![
        ("CFBundleIdentifier", PlistValue::text(identifier)),
        ("CFBundleExecutable", PlistValue::text("Binary")),
        ("CFBundleName", PlistValue::text("Demo")),
    ])
    .to_xml()
    .expect("writes")
}

fn bundle(parts: &[&str], identifier: &str) -> Bundle {
    Bundle::new(parts.iter().map(|p| p.to_string()).collect(), Some(info(identifier))).expect("a bundle")
}

fn is_empty_dictionary(m: &MachO) -> bool {
    matches!(&m.entitlements, Some(PlistValue::Dictionary(entries)) if entries.is_empty())
}

fn binary(entitlements: Option<PlistValue>) -> MachO {
    MachO { entitlements }
}

fn options() -> SignerOptions {
    SignerOptions {
        custom_name: None,
        custom_version: None,
        custom_identifier: None,
        features: SignerFeatures {
            support_minimum_os_version: false,
            support_file_sharing: false,
            support_ipad_fullscreen: false,
            support_game_mode: false,
            support_pro_motion: false,
        },
        embedding: SignerEmbedding { single_profile: false },
        app: SignerApp::Default,
        mode: SignerTarget::Install,
    }
}

#[test]
fn profile_is_found_inside_its_envelope() {
    let bytes = profile_bytes("TEAM123456.com.foo.app", "TEAM123456", vec![]);
    let doc = extract_plist_from_file(&bytes).expect("found");
    assert!(doc.starts_with(b"<plist"));
    assert!(doc.ends_with(b"</plist>"));
    assert_eq!(extract_plist_from_file(b"<plist></plist><plist>x</plist>tail"), Some(b"<plist></plist><plist>x</plist>".to_vec()));
    assert_eq!(extract_plist_from_file(b"no document"), None);
    assert_eq!(extract_plist_from_file(b"<plist only"), None);
    assert_eq!(extract_plist_from_file(b"only </plist>"), None);
    assert_eq!(extract_plist_from_file(b"</plist> then <plist"), None);
    assert_eq!(extract_plist_from_file(b"x</plist><plist"), Some(Vec::new()));
    assert!(matches!(MobileProvision::load_with_bytes(b"x</plist><plist".to_vec()), Err(Error::Plist(_))));
}

#[test]
fn profile_is_loaded() {
    let bytes = profile_bytes("TEAM123456.com.foo.app", "TEAM123456", vec![]);
    let p = MobileProvision::load_with_bytes(bytes.clone()).expect("loads");
    assert_eq!(p.provision_data, bytes);
    assert_eq!(p.data(), &bytes);
    assert_eq!(
        p.entitlements().get_string("application-identifier").map(|s| s.as_str()),
        Some("TEAM123456.com.foo.app")
    );
    assert_eq!(p.bundle_id().as_deref(), Some("com.foo.app"));
    assert!(matches!(MobileProvision::load_with_bytes(b"nothing".to_vec()), Err(Error::ProvisioningEntitlementsUnknown)));
    assert!(matches!(MobileProvision::load_with_bytes(b"<plist>broken</plist>".to_vec()), Err(Error::Plist(_))));
    let no_entitlements = dict(vec![("AppIDName", PlistValue::text("x"))]).to_xml().expect("writes");
    assert!(matches!(MobileProvision::load_with_bytes(no_entitlements), Err(Error::ProvisioningEntitlementsUnknown)));
    let text_entitlements = dict(vec![("Entitlements", PlistValue::text("x"))]).to_xml().expect("writes");
    assert!(matches!(MobileProvision::load_with_bytes(text_entitlements), Err(Error::ProvisioningEntitlementsUnknown)));
}

fn loaded(doc: PlistValue) -> MobileProvision {
    MobileProvision::load_with_bytes(doc.to_xml().expect("writes")).expect("loads")
}

#[test]
fn bundle_identifier_of_a_profile() {
    assert_eq!(profile("TEAM123456.com.foo.app").bundle_id().as_deref(), Some("com.foo.app"));
    assert_eq!(profile("TEAM123456...dots").bundle_id().as_deref(), Some("dots"));
    assert_eq!(profile("TEAM123456.*").bundle_id().as_deref(), Some("*"));
    assert_eq!(profile("OTHER.com.foo.app").bundle_id().as_deref(), Some("OTHER.com.foo.app"));
    assert_eq!(profile("TEAM123456").bundle_id().as_deref(), Some(""));
    let no_prefix = loaded(dict(vec![("Entitlements", dict(vec![("application-identifier", PlistValue::text("A.b"))]))]));
    assert_eq!(no_prefix.bundle_id(), None);
    let empty_prefix = loaded(dict(vec![
        ("ApplicationIdentifierPrefix", PlistValue::array(vec![])),
        ("Entitlements", dict(vec![("application-identifier", PlistValue::text("A.b"))])),
    ]));
    assert_eq!(empty_prefix.bundle_id(), None);
    let odd_prefix = loaded(dict(vec![
        ("ApplicationIdentifierPrefix", PlistValue::array(vec![PlistValue::Integer(1)])),
        ("Entitlements", dict(vec![("application-identifier", PlistValue::text("A.b"))])),
    ]));
    assert_eq!(odd_prefix.bundle_id().as_deref(), Some("A.b"));
    let no_id = loaded(dict(vec![
        ("ApplicationIdentifierPrefix", texts(&["A"])),
        ("Entitlements", dict(vec![("other", PlistValue::text("A.b"))])),
    ]));
    assert_eq!(no_id.bundle_id(), None);
}

#[test]
fn wildcard_is_resolved_in_strings_and_arrays() {
    let bytes = profile_bytes(
        "TEAM123456.*",
        "TEAM123456",
        vec![
            ("keychain-access-groups", PlistValue::array(vec![PlistValue::text("TEAM123456.*"), PlistValue::Integer(3), PlistValue::text("plain")])),
            ("nested", dict(vec![("inner", PlistValue::text("*"))])),
        ],
    );
    let mut p = MobileProvision::load_with_bytes(bytes).expect("loads");
    p.replace_wildcard_in_entitlements("com.foo.app");
    let e = p.entitlements();
    assert_eq!(e.get_string("application-identifier").map(|s| s.as_str()), Some("TEAM123456.com.foo.app"));
    assert_eq!(e.get_string("com.apple.developer.team-identifier").map(|s| s.as_str()), Some("TEAM123456"));
    let groups = e.get("keychain-access-groups").and_then(|g| g.as_array()).expect("an array");
    assert_eq!(groups[0].as_string().map(|s| s.as_str()), Some("TEAM123456.com.foo.app"));
    assert_eq!(groups[1].as_signed_integer(), Some(3));
    assert_eq!(groups[2].as_string().map(|s| s.as_str()), Some("plain"));
    assert_eq!(e.get("nested").and_then(|n| n.get_string("inner")).map(|s| s.as_str()), Some("*"));
    assert!(matches!(e.get("get-task-allow"), Some(PlistValue::Boolean(true))));
    assert_eq!(p.bundle_id().as_deref(), Some("com.foo.app"));
}

#[test]
fn keychain_groups_of_the_binary_are_taken_over_under_the_team() {
    let mut p = profile("TEAM123456.com.foo.app");
    let theirs = dict(vec![
        ("application-identifier", PlistValue::text("OLDTEAM000.com.foo.app")),
        (
            "keychain-access-groups",
            PlistValue::array(vec![
                PlistValue::text("OLDTEAM000.com.foo.shared"),
                PlistValue::text("oldteam000.lower"),
                PlistValue::text("SHORT.x"),
                PlistValue::text("ABCDEFGHIJ."),
                PlistValue::Boolean(true),
            ]),
        ),
    ]);
    p.merge_entitlements(&binary(Some(theirs))).expect("merged");
    let groups = p.entitlements().get("keychain-access-groups").and_then(|g| g.as_array()).expect("an array");
    assert_eq!(groups[0].as_string().map(|s| s.as_str()), Some("TEAM123456.com.foo.shared"));
    assert_eq!(groups[1].as_string().map(|s| s.as_str()), Some("oldteam000.lower"));
    assert_eq!(groups[2].as_string().map(|s| s.as_str()), Some("SHORT.x"));
    assert_eq!(groups[3].as_string().map(|s| s.as_str()), Some("TEAM123456."));
    assert!(matches!(groups[4], PlistValue::Boolean(true)));
    assert_eq!(
        p.entitlements().get_string("application-identifier").map(|s| s.as_str()),
        Some("TEAM123456.com.foo.app")
    );
    let mut q = profile("TEAM123456.com.foo.app");
    let before = format!("{:?}", q.entitlements());
    assert!(matches!(q.merge_entitlements(&binary(None)), Err(Error::ProvisioningEntitlementsUnknown)));
    assert_eq!(format!("{:?}", q.entitlements()), before);
    q.merge_entitlements(&binary(Some(dict(vec![("other", PlistValue::text("x"))])))).expect("merged");
    assert_eq!(format!("{:?}", q.entitlements()), before);
}

#[test]
fn entitlements_are_written_as_xml() {
    let p = profile("TEAM123456.com.foo.app");
    let xml = p.entitlements_as_bytes().expect("writes");
    let again = PlistValue::parse_xml(&xml).expect("reads");
    assert_eq!(format!("{:?}", again), format!("{:?}", p.entitlements()));
    assert_eq!(format!("{:?}", p.duplicate()), format!("{:?}", p));
}

#[test]
fn binaries_without_signature_have_no_entitlements() {
    assert!(matches!(MachO::new(b"certainly not a binary"), Err(Error::Codesign(_))));
    assert!(matches!(MachO::new(b""), Err(Error::Codesign(_))));
    let mut header = Vec::new();
    for word in [0xfeedfacfu32, 0x0100000c, 0, 2, 0, 0, 0, 0] {
        header.extend(word.to_le_bytes());
    }
    let unsigned = MachO::new(&header).expect("a binary without commands");
    assert!(is_empty_dictionary(&unsigned));
    assert_eq!(unsigned.app_groups_for_entitlements(), None);
    assert_eq!(unsigned.capabilities_for_entitlements(&Vec::new()), None);
    let mut p = profile("TEAM123456.com.foo.app");
    let before = p.entitlements_as_bytes().expect("writes");
    assert!(p.merge_entitlements(&unsigned).is_ok());
    assert_eq!(p.entitlements_as_bytes().expect("writes"), before);
    assert!(is_empty_dictionary(&MachO::without_entitlements()));
    assert!(is_empty_dictionary(&MachO::from_read(Ok(None)).expect("a binary")));
    assert!(is_empty_dictionary(&MachO::from_read(Ok(Some("<plist><string>x</string></plist>".to_string()))).expect("a binary")));
    assert!(matches!(MachO::from_read(Err("broken".to_string())), Err(Error::Codesign(m)) if m == "broken"));
    assert!(matches!(MachO::from_read(Ok(Some("no list".to_string()))), Err(Error::Plist(_))));
}

fn capability(id: &str, keys: Option<Vec<&str>>) -> Capability {
    Capability {
        id: id.to_string(),
        attributes: CapabilityAttributes {
            entitlements: keys.map(|ks| ks.into_iter().map(|k| CapabilityEntitlement { profile_key: k.to_string() }).collect()),
            supports_wildcard: false,
        },
    }
}

#[test]
fn capabilities_follow_the_entitlement_keys() {
    let m = binary(Some(dict(vec![
        ("aps-environment", PlistValue::text("development")),
        ("com.apple.security.application-groups", PlistValue::array(vec![PlistValue::text("group.a"), PlistValue::Integer(1), PlistValue::text("group.b")])),
        ("com.apple.developer.healthkit", PlistValue::Boolean(true)),
    ])));
    let catalog = vec![
        capability("PUSH_NOTIFICATIONS", Some(vec!["aps-environment"])),
        capability("ICLOUD", Some(vec!["com.apple.developer.icloud-services", "com.apple.developer.ubiquity-kvstore-identifier"])),
        capability("NO_KEYS", None),
        capability("EMPTY", Some(vec![])),
        capability("HEALTHKIT", Some(vec!["com.apple.developer.healthkit.access", "com.apple.developer.healthkit"])),
        capability("APP_GROUPS", Some(vec!["com.apple.security.application-groups"])),
    ];
    assert_eq!(
        m.capabilities_for_entitlements(&catalog),
        Some(vec!["PUSH_NOTIFICATIONS".to_string(), "HEALTHKIT".to_string(), "APP_GROUPS".to_string()])
    );
    assert_eq!(m.capabilities_for_entitlements(&catalog[1..4].iter().map(|c| capability(&c.id, None)).collect()), None);
    assert_eq!(m.capabilities_for_entitlements(&Vec::new()), None);
    assert_eq!(m.app_groups_for_entitlements(), Some(vec!["group.a".to_string(), "group.b".to_string()]));
    let no_groups = binary(Some(dict(vec![("aps-environment", PlistValue::text("d"))])));
    assert_eq!(no_groups.app_groups_for_entitlements(), None);
    let odd_groups = binary(Some(dict(vec![("com.apple.security.application-groups", PlistValue::text("group.a"))])));
    assert_eq!(odd_groups.app_groups_for_entitlements(), None);
    assert_eq!(binary(None).capabilities_for_entitlements(&catalog), None);
}

#[test]
fn groups_stand_under_the_team() {
    let groups = vec!["group.a".to_string(), "group.b".to_string()];
    assert_eq!(group_identifiers(&groups, "TEAM"), vec!["group.a.TEAM".to_string(), "group.b.TEAM".to_string()]);
    let value = store_groups_value(&groups, "TEAM");
    let items = value.as_array().expect("an array");
    assert_eq!(items.len(), 2);
    assert_eq!(items[1].as_string().map(|s| s.as_str()), Some("group.b.TEAM"));
    assert!(group_identifiers(&Vec::new(), "TEAM").is_empty());
}

#[test]
fn options_bind_keys_in_order() {
    let mut o = options();
    assert!(info_changes(&o).is_empty());
    o.custom_name = Some("New".to_string());
    o.custom_version = Some("9.9".to_string());
    o.features.support_minimum_os_version = true;
    o.features.support_file_sharing = true;
    o.features.support_ipad_fullscreen = true;
    o.features.support_game_mode = true;
    o.features.support_pro_motion = true;
    let steps = info_changes(&o);
    let keys: Vec<&str> = steps.iter().map(|(k, _)| k.as_str()).collect();
    assert_eq!(
        keys,
        vec![
            "CFBundleDisplayName",
            "CFBundleShortVersionString",
            "CFBundleVersion",
            "MinimumOSVersion",
            "UIFileSharingEnabled",
            "UISupportsDocumentBrowser",
            "UIRequiresFullScreen",
            "GCSupportsGameMode",
            "CADisableMinimumFrameDurationOnPhone",
        ]
    );
    assert_eq!(steps[3].1.as_string().map(|s| s.as_str()), Some("7.0"));
    assert!(matches!(steps[8].1, PlistValue::Boolean(true)));
    o.features.support_file_sharing = false;
    o.custom_name = None;
    assert_eq!(info_changes(&o).len(), 6);
}

#[test]
fn identifier_for_installation() {
    let id = Some("com.foo.app".to_string());
    let team = Some("TEAM".to_string());
    let custom = Some("org.mine".to_string());
    assert_eq!(choose_identifier(&None, SignerTarget::Install, &id, &team), Some("com.foo.app.TEAM".to_string()));
    assert_eq!(choose_identifier(&None, SignerTarget::Export, &id, &team), None);
    assert_eq!(choose_identifier(&custom, SignerTarget::Export, &id, &team), custom);
    assert_eq!(choose_identifier(&custom, SignerTarget::Install, &id, &team), custom);
    assert_eq!(choose_identifier(&None, SignerTarget::Install, &None, &team), None);
    assert_eq!(choose_identifier(&None, SignerTarget::Install, &id, &None), None);
}

fn sorted_bundles() -> Vec<Bundle> {
    vec![
        bundle(&["Demo.app", "PlugIns", "Share.appex"], "com.foo.app.share"),
        bundle(&["Demo.app", "Frameworks", "SideStoreApp.framework"], "org.store.framework"),
        bundle(&["Demo.app"], "com.foo.app"),
    ]
}

#[test]
fn bundles_are_modified_as_the_options_ask() {
    let mut o = options();
    o.custom_name = Some("Renamed".to_string());
    o.features.support_game_mode = true;
    let mut signer = Signer::new(None, o);
    let done = signer.modify_bundle(sorted_bundles(), &Some("TEAM".to_string()), None);
    assert!(done.result.is_ok());
    assert!(done.write.is_none());
    assert_eq!(done.identifier.as_deref(), Some("com.foo.app.TEAM"));
    assert_eq!(signer.options.custom_identifier.as_deref(), Some("com.foo.app.TEAM"));
    assert_eq!(done.bundles.len(), 3);
    assert_eq!(done.bundles[0].get_bundle_identifier().as_deref(), Some("com.foo.app.TEAM.share"));
    assert_eq!(done.bundles[1].get_bundle_identifier().as_deref(), Some("org.store.framework"));
    assert_eq!(done.bundles[2].get_bundle_identifier().as_deref(), Some("com.foo.app.TEAM"));
    assert_eq!(done.bundles[2].get_name().as_deref(), Some("Renamed"));
    assert_eq!(done.bundles[0].get_name().as_deref(), Some("Demo"));
    let root = PlistValue::parse(done.bundles[2].info_plist()).expect("reads");
    assert!(matches!(root.get("GCSupportsGameMode"), Some(PlistValue::Boolean(true))));
    assert!(root.get("UIFileSharingEnabled").is_none());
}

#[test]
fn exported_bundles_keep_their_identifier() {
    let mut o = options();
    o.mode = SignerTarget::Export;
    let mut signer = Signer::adhoc(o);
    assert!(signer.certificate.is_none());
    let done = signer.modify_bundle(sorted_bundles(), &Some("TEAM".to_string()), None);
    assert!(done.result.is_ok());
    assert_eq!(done.identifier, None);
    assert_eq!(done.bundles[0].get_bundle_identifier().as_deref(), Some("com.foo.app.share"));
    assert_eq!(done.bundles[2].get_bundle_identifier().as_deref(), Some("com.foo.app"));
    let nothing = signer.modify_bundle(Vec::new(), &None, None);
    assert!(matches!(nothing.result, Err(Error::BundleInfoPlistMissing)));
}

#[test]
fn store_certificate_is_embedded() {
    let store = StoreCertificate { p12_data: vec![1, 2, 3], serial_number: "a1b2c".to_string() };
    let mut o = options();
    o.app = SignerApp::SideStore;
    let mut signer = Signer::new(None, o);
    let done = signer.modify_bundle(sorted_bundles(), &None, Some(&store));
    assert!(done.result.is_ok());
    let write = done.write.expect("a file");
    assert_eq!(write.path, vec!["Demo.app".to_string(), "ALTCertificate.p12".to_string()]);
    assert_eq!(write.contents, vec![1u8, 2, 3]);
    let root = PlistValue::parse(done.bundles[2].info_plist()).expect("reads");
    assert_eq!(root.get_string("ALTCertificateID").map(|s| s.as_str()), Some("a1b2c"));
    let mut o = options();
    o.app = SignerApp::LiveContainerAndSideStore;
    let mut signer = Signer::new(None, o);
    let done = signer.modify_bundle(sorted_bundles(), &None, Some(&store));
    let write = done.write.expect("a file");
    assert_eq!(
        write.path,
        vec!["Demo.app".to_string(), "Frameworks".to_string(), "SideStoreApp.framework".to_string(), "ALTCertificate.p12".to_string()]
    );
    let framework = PlistValue::parse(done.bundles[1].info_plist()).expect("reads");
    assert_eq!(framework.get_string("ALTCertificateID").map(|s| s.as_str()), Some("a1b2c"));
    let root = PlistValue::parse(done.bundles[2].info_plist()).expect("reads");
    assert!(root.get("ALTCertificateID").is_none());
    let mut signer = Signer::new(None, options());
    assert!(signer.modify_bundle(sorted_bundles(), &None, Some(&store)).write.is_none());
}

#[test]
fn a_broken_bundle_stops_the_rewriting_where_it_stands() {
    let broken = Bundle::new(vec!["Demo.app".to_string(), "Bad.appex".to_string()], Some(b"garbage".to_vec())).expect("a bundle");
    let bundles = vec![
        bundle(&["Demo.app", "A.appex"], "com.foo.app.a"),
        broken,
        bundle(&["Demo.app", "B.appex"], "com.foo.app.b"),
    ];
    let (after, result) = rewrite_identifiers(bundles, "com.foo.app", "org.new");
    assert!(matches!(result, Err(Error::Plist(_))));
    assert_eq!(after.len(), 3);
    assert_eq!(after[0].get_bundle_identifier().as_deref(), Some("org.new.a"));
    assert_eq!(after[1].info_plist(), &b"garbage".to_vec());
    assert_eq!(after[2].get_bundle_identifier().as_deref(), Some("com.foo.app.b"));
}

#[test]
fn only_applications_and_extensions_are_registered() {
    let signer = Signer::new(None, options());
    assert_eq!(signer.bundles_to_register(&sorted_bundles()), vec![0, 2]);
    let mut o = options();
    o.embedding.single_profile = true;
    let single = Signer::new(None, o);
    assert_eq!(single.bundles_to_register(&sorted_bundles()), vec![2]);
    assert!(single.bundles_to_register(&Vec::new()).is_empty());
}

#[test]
fn each_bundle_is_signed_with_its_profile() {
    let profiles = vec![profile("TEAM123456.com.foo.app"), profile("TEAM123456.com.foo.app.share")];
    let share = bundle(&["Demo.app", "PlugIns", "Share.appex"], "com.foo.app.share");
    let job = sign_job(&share, &profiles, None);
    assert_eq!(job.dir, vec!["Demo.app".to_string(), "PlugIns".to_string(), "Share.appex".to_string()]);
    assert_eq!(job.embedded_profile, Some(written("TEAM123456.com.foo.app.share")));
    let e = PlistValue::parse_xml(&job.entitlements_xml).expect("reads");
    assert_eq!(e.get_string("application-identifier").map(|s| s.as_str()), Some("TEAM123456.com.foo.app.share"));
    let stranger = bundle(&["Demo.app", "PlugIns", "Odd.appex"], "com.unknown");
    let job = sign_job(&stranger, &profiles, None);
    assert_eq!(job.embedded_profile, Some(written("TEAM123456.com.foo.app")));
    let framework = bundle(&["Demo.app", "Frameworks", "Core.framework"], "com.foo.app");
    let job = sign_job(&framework, &profiles, None);
    assert!(job.embedded_profile.is_none());
    let empty = String::from_utf8(job.entitlements_xml).expect("text");
    assert!(empty.starts_with("<?xml version=\"1.0\" encoding=\"UTF-8\"?>\n<!DOCTYPE plist"));
    assert!(empty.ends_with("<plist version=\"1.0\">\n<dict/>\n</plist>\n"));
    let job = sign_job(&share, &Vec::new(), None);
    assert!(job.embedded_profile.is_none());
    assert!(PlistValue::parse_xml(&job.entitlements_xml).expect("reads").as_dictionary().expect("a dictionary").is_empty());
}

#[test]
fn wildcard_profile_is_resolved_for_the_bundle_and_merged_with_its_binary() {
    let wildcard = MobileProvision::load_with_bytes(profile_bytes("TEAM123456.*", "TEAM123456", vec![])).expect("loads");
    let app = bundle(&["Demo.app"], "com.foo.app");
    let theirs = binary(Some(dict(vec![(
        "keychain-access-groups",
        PlistValue::array(vec![PlistValue::text("OLDTEAM000.com.foo.app")]),
    )])));
    let job = sign_job(&app, &vec![wildcard], Some(&theirs));
    let e = PlistValue::parse_xml(&job.entitlements_xml).expect("reads");
    assert_eq!(e.get_string("application-identifier").map(|s| s.as_str()), Some("TEAM123456.com.foo.app"));
    let groups = e.get("keychain-access-groups").and_then(|g| g.as_array()).expect("an array");
    assert_eq!(groups[0].as_string().map(|s| s.as_str()), Some("TEAM123456.com.foo.app"));
    assert!(job.embedded_profile.is_some());
}

#[test]
fn embedded_profile_holds_the_entitlements_signed_with() {
    let issued = profile_bytes("TEAM123456.*", "TEAM123456", vec![]);
    let wildcard = MobileProvision::load_with_bytes(issued.clone()).expect("loads");
    let app = bundle(&["Demo.app"], "com.foo.app");
    let theirs = binary(Some(dict(vec![(
        "keychain-access-groups",
        PlistValue::array(vec![PlistValue::text("OLDTEAM000.com.foo.app")]),
    )])));
    let job = sign_job(&app, &vec![wildcard], Some(&theirs));
    let embedded = job.embedded_profile.expect("a profile");
    assert_ne!(embedded, issued);
    let list = PlistValue::parse_xml(&embedded).expect("reads");
    assert_eq!(list.get_string("AppIDName").map(|s| s.as_str()), Some("Demo"));
    let inside = list.get("Entitlements").expect("entitlements");
    assert_eq!(inside.to_xml().expect("writes"), job.entitlements_xml);
    assert_eq!(inside.get_string("application-identifier").map(|s| s.as_str()), Some("TEAM123456.com.foo.app"));
    let expected = profile_document(
        "TEAM123456.com.foo.app",
        "TEAM123456",
        vec![("keychain-access-groups", PlistValue::array(vec![PlistValue::text("TEAM123456.com.foo.app")]))],
    );
    assert_eq!(embedded, expected);
}

#[test]
fn a_profile_changed_in_memory_is_written_as_changed() {
    let mut changed = profile("TEAM123456.*");
    assert_eq!(changed.to_embedded_bytes(), written("TEAM123456.*"));
    changed.replace_wildcard_in_entitlements("com.foo.app");
    assert_eq!(changed.to_embedded_bytes(), written("TEAM123456.com.foo.app"));
    assert_eq!(changed.provision_data, profile_bytes("TEAM123456.*", "TEAM123456", vec![]));
}

#[test]
fn sign_plan_is_deepest_first_whatever_the_order_given() {
    let mut signer = Signer::new(None, options());
    signer.set_provisioning_files(vec![profile("TEAM123456.*")]);
    let theirs = binary(Some(dict(vec![(
        "keychain-access-groups",
        PlistValue::array(vec![PlistValue::text("OLDTEAM000.com.foo.app.share")]),
    )])));
    let bundles = vec![
        bundle(&["Demo.app"], "com.foo.app"),
        bundle(&["Demo.app", "PlugIns", "Share.appex"], "com.foo.app.share"),
        bundle(&["Demo.app", "PlugIns", "Share.appex", "Frameworks", "In.framework"], "com.foo.in"),
    ];
    let jobs = signer.sign_bundle(&bundles, &vec![None, Some(theirs)]);
    let dirs: Vec<String> = jobs.iter().map(|j| j.dir.join("/")).collect();
    assert_eq!(
        dirs,
        vec![
            "Demo.app/PlugIns/Share.appex/Frameworks/In.framework",
            "Demo.app/PlugIns/Share.appex",
            "Demo.app",
        ]
    );
    assert!(jobs[0].embedded_profile.is_none());
    assert!(jobs[1].embedded_profile.is_some() && jobs[2].embedded_profile.is_some());
    let share = PlistValue::parse_xml(&jobs[1].entitlements_xml).expect("reads");
    assert_eq!(share.get_string("application-identifier").map(|s| s.as_str()), Some("TEAM123456.com.foo.app.share"));
    assert!(share.get("keychain-access-groups").is_some());
    let app = PlistValue::parse_xml(&jobs[2].entitlements_xml).expect("reads");
    assert!(app.get("keychain-access-groups").is_none());
    for job in &jobs {
        assert_eq!(job.scope, SigningScope::Main);
        assert!(!job.shallow);
        assert!(!job.for_notarization);
    }
    let again = signer.sign_bundle(&sorted_bundles(), &Vec::new());
    assert_eq!(again.len(), 3);
    assert_eq!(again[2].dir, vec!["Demo.app".to_string()]);
}

#[test]
fn bundles_without_a_profile_are_signed_whole_and_not_for_notarization() {
    let framework = bundle(&["Demo.app", "Frameworks", "Core.framework"], "com.foo.core");
    for job in [
        sign_job(&framework, &vec![profile("TEAM123456.com.foo.app")], None),
        sign_job(&bundle(&["Demo.app"], "com.foo.app"), &Vec::new(), None),
        sign_job(&bundle(&["Demo.app", "Odd.thing"], "com.foo.odd"), &vec![profile("TEAM123456.com.foo.app")], None),
    ] {
        assert_eq!(job.scope, SigningScope::Main);
        assert!(!job.shallow);
        assert!(!job.for_notarization);
        assert!(job.embedded_profile.is_none());
        assert!(String::from_utf8(job.entitlements_xml).expect("text").ends_with("<dict/>\n</plist>\n"));
    }
}

#[test]
fn default_settings() {
    let s = SignerSettings::default();
    assert!(!s.sign_shallow);
    assert_eq!(s.sign_mode, SignerMode::Default);
    assert!(s.embed_mobileprovision);
    assert!(s.custom_name.is_none() && s.custom_identifier.is_none() && s.custom_build_version.is_none());
}

#[test]
fn plain_settings_sign_every_bundle_deepest_first() {
    let profiles = vec![profile("TEAM123456.com.foo.app"), profile("TEAM123456.com.foo.app.share")];
    let embedded = vec![
        bundle(&["Demo.app", "Frameworks", "Core.framework"], "com.foo.core"),
        bundle(&["Demo.app", "PlugIns", "Share.appex"], "com.foo.app.share"),
        bundle(&["Demo.app", "PlugIns", "Share.appex", "Frameworks", "In.framework"], "com.foo.in"),
    ];
    let root = bundle(&["Demo.app"], "com.foo.app");
    let jobs = sign(&SignerSettings::default(), &embedded, &root, &profiles);
    let dirs: Vec<String> = jobs.iter().map(|j| j.dir.join("/")).collect();
    assert_eq!(
        dirs,
        vec![
            "Demo.app/PlugIns/Share.appex/Frameworks/In.framework",
            "Demo.app/PlugIns/Share.appex",
            "Demo.app/Frameworks/Core.framework",
            "Demo.app",
        ]
    );
    assert!(jobs.iter().all(|j| j.shallow));
    assert!(jobs[0].embedded_profile.is_none() && jobs[0].entitlements_xml.is_none());
    assert_eq!(jobs[1].embedded_profile, Some(written("TEAM123456.com.foo.app.share")));
    assert_eq!(jobs[3].embedded_profile, Some(written("TEAM123456.com.foo.app")));
    let e = PlistValue::parse_xml(jobs[1].entitlements_xml.as_ref().expect("entitlements")).expect("reads");
    assert_eq!(e.get_string("application-identifier").map(|s| s.as_str()), Some("TEAM123456.com.foo.app.share"));
}

#[test]
fn one_profile_for_all_signs_only_the_application() {
    let profiles = vec![profile("TEAM123456.com.foo.app")];
    let embedded = vec![bundle(&["Demo.app", "PlugIns", "Share.appex"], "com.foo.app.share")];
    let root = bundle(&["Demo.app"], "com.foo.app");
    let mut settings = SignerSettings::default();
    settings.sign_mode = SignerMode::Zsign;
    let jobs = sign(&settings, &embedded, &root, &profiles);
    assert_eq!(jobs.len(), 1);
    assert_eq!(jobs[0].dir, vec!["Demo.app".to_string()]);
    assert!(!jobs[0].shallow);
    assert_eq!(jobs[0].embedded_profile, Some(written("TEAM123456.com.foo.app")));
    settings.embed_mobileprovision = false;
    settings.sign_shallow = true;
    let jobs = sign(&settings, &embedded, &root, &profiles);
    assert!(jobs[0].embedded_profile.is_none());
    assert!(jobs[0].shallow);
    assert!(jobs[0].entitlements_xml.is_some());
    assert!(sign(&settings, &embedded, &root, &Vec::new()).is_empty());
}

#[test]
fn plain_settings_change_the_application() {
    let mut settings = SignerSettings::default();
    settings.custom_identifier = Some("org.new".to_string());
    settings.custom_name = Some("Named".to_string());
    settings.custom_build_version = Some("3.0".to_string());
    let embedded = vec![
        bundle(&["Demo.app", "PlugIns", "Share.appex"], "com.foo.app.share"),
        bundle(&["Demo.app", "Frameworks", "Core.framework"], "com.other.core"),
    ];
    let done = apply_settings(&settings, embedded, bundle(&["Demo.app"], "com.foo.app"));
    assert!(done.result.is_ok());
    assert_eq!(done.embedded[0].get_bundle_identifier().as_deref(), Some("org.new.share"));
    assert_eq!(done.embedded[1].get_bundle_identifier().as_deref(), Some("com.other.core"));
    assert_eq!(done.root.get_bundle_identifier().as_deref(), Some("org.new"));
    assert_eq!(done.root.get_name().as_deref(), Some("Named"));
    assert_eq!(done.root.get_version().as_deref(), Some("3.0"));
    assert_eq!(done.root.get_build_version().as_deref(), Some("3.0"));
    let untouched = apply_settings(&SignerSettings::default(), Vec::new(), bundle(&["Demo.app"], "com.foo.app"));
    assert!(untouched.result.is_ok());
    assert_eq!(untouched.root.info_plist(), &info("com.foo.app"));
}

#[test]
fn stages_are_named_for_the_user() {
    assert_eq!(Stage::RegisteringDevice.message(), "registering device");
    assert_eq!(Stage::ExtractingPackage.message(), "extracting package");
    assert_eq!(Stage::Registering("Demo".to_string()).message(), "registering Demo");
    assert_eq!(Stage::Signing("Share".to_string()).message(), "signing Share");
    assert_eq!(Stage::Installing(42).message(), "installing\u{2026} 42%");
    assert_eq!(Stage::Installing(0).message(), "installing\u{2026} 0%");
    assert_eq!(Stage::Installing(100).message(), "installing\u{2026} 100%");
}

#[test]
fn entitlements_are_read_from_a_signed_binary() {
    let unsigned = apple_codesign::macho_builder::MachOBuilder::new_aarch64(2)
        .write_macho()
        .expect("a binary");
    assert!(is_empty_dictionary(&MachO::new(&unsigned).expect("reads")));
    let wanted = dict(vec![
        ("application-identifier", PlistValue::text("TEAM123456.com.foo.app")),
        ("com.apple.security.application-groups", texts(&["group.com.foo"])),
        ("get-task-allow", PlistValue::Boolean(true)),
    ]);
    let xml = String::from_utf8(wanted.to_xml().expect("writes")).expect("text");
    let mut settings = apple_codesign::SigningSettings::default();
    settings.set_binary_identifier(apple_codesign::SettingsScope::Main, "com.foo.app");
    settings
        .set_entitlements_xml(apple_codesign::SettingsScope::Main, xml)
        .expect("entitlements");
    let mut signed = Vec::new();
    apple_codesign::MachOSigner::new(&unsigned)
        .expect("a signer")
        .write_signed_binary(&settings, &mut signed)
        .expect("signed");
    assert_ne!(signed, unsigned);
    let m = MachO::new(&signed).expect("reads");
    let found = m.entitlements.as_ref().expect("entitlements");
    assert_eq!(
        found.get_string("application-identifier").map(|s| s.as_str()),
        Some("TEAM123456.com.foo.app")
    );
    assert!(matches!(found.get("get-task-allow"), Some(PlistValue::Boolean(true))));
    assert_eq!(m.app_groups_for_entitlements(), Some(vec!["group.com.foo".to_string()]));
    let catalog = vec![capability("APP_GROUPS", Some(vec!["com.apple.security.application-groups"]))];
    assert_eq!(m.capabilities_for_entitlements(&catalog), Some(vec!["APP_GROUPS".to_string()]));
}

fn le32(n: u32) -> Vec<u8> {
    n.to_le_bytes().to_vec()
}

fn le64(n: u64) -> Vec<u8> {
    n.to_le_bytes().to_vec()
}

fn linkedit_name() -> Vec<u8> {
    let mut name = b"__LINKEDIT".to_vec();
    name.resize(16, 0);
    name
}

fn small_binary(segment: (u64, u64), signature: (u32, u32)) -> Vec<u8> {
    binary_with(segment, signature, &[0xfa, 0xde, 0x0c, 0xc0, 0, 0, 0, 12, 0, 0, 0, 0, 0, 0, 0, 0])
}

fn binary_with(segment: (u64, u64), signature: (u32, u32), payload: &[u8]) -> Vec<u8> {
    let mut b = vec![0xcf, 0xfa, 0xed, 0xfe];
    for word in [0x0100_000c, 0, 2, 2, 88, 0, 0] {
        b.extend(le32(word));
    }
    b.extend(le32(0x19));
    b.extend(le32(72));
    b.extend(linkedit_name());
    for long in [0, 0x4000, segment.0, segment.1] {
        b.extend(le64(long));
    }
    for word in [1, 1, 0, 0] {
        b.extend(le32(word));
    }
    for word in [0x1d, 16, signature.0, signature.1] {
        b.extend(le32(word));
    }
    assert_eq!(b.len(), 120);
    b.extend(payload);
    b
}

fn be32(n: u32) -> Vec<u8> {
    n.to_be_bytes().to_vec()
}

fn signature_with(entries: &[(u32, u32)], blobs: &[u8]) -> Vec<u8> {
    let mut sig = be32(0xfade_0cc0);
    sig.extend(be32(0));
    sig.extend(be32(entries.len() as u32));
    for (kind, offset) in entries {
        sig.extend(be32(*kind));
        sig.extend(be32(*offset));
    }
    sig.extend(blobs);
    sig
}

fn signed_with(sig: &[u8]) -> Vec<u8> {
    binary_with((120, sig.len() as u64), (120, sig.len() as u32), sig)
}

fn out_of_reach(r: Result<MachO, Error>) -> bool {
    matches!(r, Err(Error::Codesign(m)) if m == "malformed Mach-O binary or code signature")
}

#[test]
fn signature_inside_its_segment_is_read() {
    let good = small_binary((120, 16), (120, 16));
    assert!(signature_fits(&good));
    assert!(check_signature_range(&good).is_ok());
    assert!(!out_of_reach(MachO::new(&good)));
    let inner = small_binary((120, 16), (124, 12));
    assert!(signature_fits(&inner));
    assert!(!out_of_reach(MachO::new(&inner)));
}

#[test]
fn signature_before_its_segment_is_refused() {
    let early = small_binary((124, 12), (120, 12));
    assert!(!signature_fits(&early));
    assert!(out_of_reach(MachO::new(&early)));
}

#[test]
fn signature_longer_than_its_segment_is_refused() {
    let long = small_binary((120, 16), (120, 17));
    assert!(!signature_fits(&long));
    assert!(out_of_reach(MachO::new(&long)));
    let late = small_binary((120, 16), (130, 8));
    assert!(!signature_fits(&late));
    assert!(out_of_reach(MachO::new(&late)));
    let beyond = small_binary((120, 16), (4000, 16));
    assert!(matches!(
        check_signature_range(&beyond),
        Err(Error::Codesign(m)) if m == "malformed Mach-O binary or code signature"
    ));
    assert!(out_of_reach(MachO::new(&beyond)));
}

#[test]
fn every_architecture_is_looked_at() {
    let good = small_binary((120, 16), (120, 16));
    let bad = small_binary((120, 16), (120, 17));
    let table = |first: &Vec<u8>, second: &Vec<u8>| {
        let mut b = vec![0xca, 0xfe, 0xba, 0xbe, 0, 0, 0, 2];
        let mut at: u32 = 48;
        for part in [first, second] {
            for word in [0x0100_000c_u32, 0, at, part.len() as u32, 0] {
                b.extend(word.to_be_bytes());
            }
            at += part.len() as u32;
        }
        b.extend(first.iter());
        b.extend(second.iter());
        b
    };
    assert!(!signature_fits(&table(&bad, &good)));
    assert!(out_of_reach(MachO::new(&table(&bad, &good))));
    assert!(!signature_fits(&table(&good, &bad)));
    assert!(out_of_reach(MachO::new(&table(&good, &bad))));
    assert!(signature_fits(&table(&good, &good)));
    assert!(!out_of_reach(MachO::new(&table(&good, &good))));
    let mut archive = b"!<arch>\n".to_vec();
    archive.resize(68, b' ');
    assert!(!signature_fits(&table(&good, &archive)));
    assert!(out_of_reach(MachO::new(&table(&good, &archive))));
    assert!(!signature_fits(&table(&archive, &good)));
    assert!(out_of_reach(MachO::new(&table(&archive, &good))));
    assert!(!signature_fits(&table(&good, &b"plain text, no binary".to_vec())));
}

#[test]
fn bytes_that_are_no_binary_hold_nothing_out_of_reach() {
    assert!(signature_fits(b""));
    assert!(signature_fits(b"plain text, no binary"));
    assert!(signature_fits(&[0xcf, 0xfa, 0xed, 0xfe, 0, 0]));
    assert!(matches!(MachO::new(b"plain text, no binary"), Err(Error::Codesign(_))));
}

#[test]
fn only_stores_keep_their_groups() {
    let groups = vec!["group.a".to_string(), "group.b".to_string()];
    for app in [SignerApp::SideStore, SignerApp::AltStore] {
        let value = grand_slam::signer::store_groups(app, &groups, "TEAM").expect("a value");
        let items = value.as_array().expect("an array");
        assert_eq!(items.len(), 2);
        assert_eq!(items[0].as_string().map(|s| s.as_str()), Some("group.a.TEAM"));
        assert_eq!(items[1].as_string().map(|s| s.as_str()), Some("group.b.TEAM"));
    }
    assert!(grand_slam::signer::store_groups(SignerApp::Default, &groups, "TEAM").is_none());
    assert!(grand_slam::signer::store_groups(SignerApp::LiveContainerAndSideStore, &groups, "TEAM").is_none());
}

#[test]
fn entitlements_are_read_from_a_small_signature() {
    let text = b"<plist><dict><key>get-task-allow</key><true/></dict></plist>";
    let mut blob = be32(0xfade_7171);
    blob.extend(be32(8 + text.len() as u32));
    blob.extend(text);
    let binary = signed_with(&signature_with(&[(5, 20)], &blob));
    assert!(signature_fits(&binary));
    let m = MachO::new(&binary).expect("reads");
    let found = m.entitlements.expect("entitlements");
    assert!(matches!(found.get("get-task-allow"), Some(PlistValue::Boolean(true))));
}

#[test]
fn blobs_outside_the_signature_are_refused() {
    let blob = [be32(0xfade_7171), be32(8)].concat();
    let beyond = signed_with(&signature_with(&[(5, 4000)], &blob));
    assert!(!signature_fits(&beyond));
    assert!(out_of_reach(MachO::new(&beyond)));
    let two = [blob.clone(), blob.clone()].concat();
    let backwards = signed_with(&signature_with(&[(0, 36), (5, 28)], &two));
    assert!(!signature_fits(&backwards));
    assert!(out_of_reach(MachO::new(&backwards)));
    let forwards = signed_with(&signature_with(&[(5, 28), (0, 36)], &two));
    assert!(signature_fits(&forwards));
    assert!(!out_of_reach(MachO::new(&forwards)));
    let mut cut = signature_with(&[(5, 28), (0, 36)], &two);
    cut.truncate(16);
    let cut = signed_with(&cut);
    assert!(!signature_fits(&cut));
    assert!(out_of_reach(MachO::new(&cut)));
}

#[test]
fn a_blob_of_another_kind_in_the_place_of_the_entitlements_is_refused() {
    let blob = [be32(0xfade_0c02), be32(8)].concat();
    let strange = signed_with(&signature_with(&[(5, 20)], &blob));
    assert!(!signature_fits(&strange));
    assert!(out_of_reach(MachO::new(&strange)));
    let elsewhere = signed_with(&signature_with(&[(3, 20)], &blob));
    assert!(signature_fits(&elsewhere));
    assert!(matches!(MachO::new(&elsewhere), Ok(m) if is_empty_dictionary(&m)));
    let short = [be32(0xfade_0c02), be32(4)].concat();
    let short = signed_with(&signature_with(&[(5, 20)], &short));
    assert!(!signature_fits(&short));
    assert!(out_of_reach(MachO::new(&short)));
    let headless = signed_with(&signature_with(&[(3, 20)], &be32(0xfade_0c02)));
    assert!(!signature_fits(&headless));
    assert!(out_of_reach(MachO::new(&headless)));
}

fn segment_command(name: &[u8], address: u64, offset: u64, size: u64) -> Vec<u8> {
    let mut c = [le32(0x19), le32(72)].concat();
    let mut padded = name.to_vec();
    padded.resize(16, 0);
    c.extend(padded);
    for long in [address, 0x4000, offset, size] {
        c.extend(le64(long));
    }
    for word in [1, 1, 0, 0] {
        c.extend(le32(word));
    }
    c
}

fn binary_of(commands: &[Vec<u8>]) -> Vec<u8> {
    let size: usize = commands.iter().map(|c| c.len()).sum();
    let mut b = vec![0xcf, 0xfa, 0xed, 0xfe];
    for word in [0x0100_000c, 0, 2, commands.len() as u32, size as u32, 0, 0] {
        b.extend(le32(word));
    }
    for c in commands {
        b.extend(c.iter());
    }
    b
}

fn entry_command(offset: u64) -> Vec<u8> {
    [le32(0x8000_0028), le32(24), le64(offset), le64(0)].concat()
}

#[test]
fn an_entry_that_leaves_the_range_of_addresses_is_refused() {
    let plain = binary_of(&[segment_command(b"__TEXT", 0x1_0000_0000, 0, 0), entry_command(0x4000)]);
    assert!(signature_fits(&plain));
    assert!(matches!(MachO::new(&plain), Ok(m) if is_empty_dictionary(&m)));
    let before = binary_of(&[segment_command(b"__TEXT", 0, 16, 0), entry_command(0x4000)]);
    assert!(!signature_fits(&before));
    assert!(out_of_reach(MachO::new(&before)));
    let beyond = binary_of(&[segment_command(b"__TEXT", u64::MAX, 0, 0), entry_command(1)]);
    assert!(!signature_fits(&beyond));
    assert!(out_of_reach(MachO::new(&beyond)));
    let unentered = binary_of(&[segment_command(b"__TEXT", 0, 16, 0)]);
    assert!(signature_fits(&unentered));
    let other = binary_of(&[segment_command(b"__DATA", 0, 16, 0), entry_command(0x4000)]);
    assert!(signature_fits(&other));
    assert!(matches!(MachO::new(&other), Err(Error::Codesign(_))));
}

#[test]
fn a_group_under_another_team_is_put_under_ours() {
    let group = PlistValue::text("OLDTEAM000.com.foo.shared");
    let moved = grand_slam::provision::retarget_where(&group, "TEAM123456", true);
    assert_eq!(moved.as_string().map(|s| s.as_str()), Some("TEAM123456.com.foo.shared"));
    let kept = grand_slam::provision::retarget_where(&group, "TEAM123456", false);
    assert_eq!(kept.as_string().map(|s| s.as_str()), Some("OLDTEAM000.com.foo.shared"));
    let short = grand_slam::provision::retarget_where(&PlistValue::text("SHORT.x"), "TEAM123456", true);
    assert_eq!(short.as_string().map(|s| s.as_str()), Some("SHORT.x"));
    let bare = grand_slam::provision::retarget_where(&PlistValue::text("OLDTEAM000."), "TEAM123456", true);
    assert_eq!(bare.as_string().map(|s| s.as_str()), Some("TEAM123456."));
    let other = grand_slam::provision::retarget_where(&PlistValue::Boolean(true), "TEAM123456", true);
    assert!(matches!(other, PlistValue::Boolean(true)));
}

use grand_slam::bundle::{
    bundle_type_for_name, is_bundle_dir, Bundle, BundleType, DirNode, PlistInfoTrait,
};
use grand_slam::error::Error;
use grand_slam::property_list::PlistValue;
use grand_slam::signing_order::sort_for_signing;

fn info(identifier: &str, name: &str) -> Vec<u8> {
    let mut entries = vec![
        ("CFBundleIdentifier".to_string(), PlistValue::text(identifier)),
        ("CFBundleExecutable".to_string(), PlistValue::text("Binary")),
        ("CFBundleShortVersionString".to_string(), PlistValue::text("1.0")),
        ("CFBundleVersion".to_string(), PlistValue::text("100")),
    ];
    if !name.is_empty() {
        entries.push(("CFBundleName".to_string(), PlistValue::text(name)));
    }
    PlistValue::dictionary(entries).to_xml().expect("writes")
}

fn file(name: &str) -> DirNode {
    DirNode { name: name.to_string(), is_dir: false, info_plist: None, entries: None }
}

fn dir(name: &str, info_plist: Option<Vec<u8>>, entries: Vec<DirNode>) -> DirNode {
    DirNode { name: name.to_string(), is_dir: true, info_plist, entries: Some(entries) }
}

fn path(parts: &[&str]) -> Vec<String> {
    parts.iter().map(|p| p.to_string()).collect()
}

fn sample_tree() -> DirNode {
    dir(
        "Demo.app",
        Some(info("com.foo.app", "Demo")),
        vec![
            file("Binary"),
            file("Info.plist"),
            dir(
                "Frameworks",
                None,
                vec![
                    dir(
                        "Core.framework",
                        Some(info("com.foo.app.core", "Core")),
                        vec![dir(
                            "Deep.framework",
                            Some(info("com.foo.app.deep", "Deep")),
                            vec![],
                        )],
                    ),
                    dir("NoPlist.framework", None, vec![]),
                ],
            ),
            dir(
                "PlugIns",
                None,
                vec![dir(
                    "Share.appex",
                    Some(info("com.foo.app.share", "Share")),
                    vec![dir("Main.storyboardc", Some(info("x", "x")), vec![])],
                )],
            ),
            dir(
                "Watch",
                None,
                vec![dir(
                    "Watch.app",
                    Some(info("com.foo.app.watchkitapp", "Watch")),
                    vec![dir(
                        "Inside.appex",
                        Some(info("com.foo.app.watchkitextension", "Inside")),
                        vec![],
                    )],
                )],
            ),
            dir("Base.lproj", Some(info("odd", "odd")), vec![]),
            dir("Launch.storyboardc", Some(info("y", "y")), vec![dir("A.framework", Some(info("z", "z")), vec![])]),
        ],
    )
}

fn root_bundle() -> Bundle {
    let tree = sample_tree();
    Bundle::new(path(&["Payload", "Demo.app"]), tree.info_plist).expect("a bundle")
}

fn dirs(bundles: &[Bundle]) -> Vec<String> {
    bundles.iter().map(|b| b.get_dir().join("/")).collect()
}

#[test]
fn kinds_by_extension() {
    assert_eq!(BundleType::from_extension("app"), Some(BundleType::App));
    assert_eq!(BundleType::from_extension("appex"), Some(BundleType::AppExtension));
    assert_eq!(BundleType::from_extension("framework"), Some(BundleType::Framework));
    assert_eq!(BundleType::from_extension("bundle"), Some(BundleType::Unknown));
    assert_eq!(BundleType::from_extension(""), Some(BundleType::Unknown));
    assert_eq!(BundleType::from_extension("APP"), Some(BundleType::Unknown));
}

#[test]
fn kinds_by_name() {
    assert_eq!(bundle_type_for_name("Demo.app"), BundleType::App);
    assert_eq!(bundle_type_for_name("Share.appex"), BundleType::AppExtension);
    assert_eq!(bundle_type_for_name("a.b.framework"), BundleType::Framework);
    assert_eq!(bundle_type_for_name("Demo"), BundleType::Unknown);
    assert_eq!(bundle_type_for_name(".app"), BundleType::Unknown);
    assert_eq!(bundle_type_for_name("Demo."), BundleType::Unknown);
    assert_eq!(bundle_type_for_name("Demo.app.zip"), BundleType::Unknown);
}

#[test]
fn names_shaped_like_bundles() {
    assert!(is_bundle_dir("Demo.app"));
    assert!(is_bundle_dir("Base.lproj"));
    assert!(is_bundle_dir(".hidden"));
    assert!(!is_bundle_dir("Frameworks"));
    assert!(!is_bundle_dir(""));
}

#[test]
fn a_directory_without_info_plist_is_no_bundle() {
    let missing = Bundle::new(path(&["Payload", "Demo.app"]), None);
    assert!(matches!(missing, Err(Error::BundleInfoPlistMissing)));
    let found = Bundle::new(path(&["Payload", "Demo.app"]), Some(info("a", "b"))).expect("a bundle");
    assert_eq!(found._type, BundleType::App);
    assert_eq!(found.bundle_type(), BundleType::App);
    assert_eq!(found.get_dir(), &path(&["Payload", "Demo.app"]));
    assert_eq!(found.depth(), 2);
    let nameless = Bundle::new(Vec::new(), Some(info("a", "b"))).expect("a bundle");
    assert_eq!(nameless._type, BundleType::Unknown);
}

#[test]
fn discovery_finds_nested_bundles_in_listing_order() {
    let tree = sample_tree();
    let found = root_bundle().get_embedded_bundles(&tree).expect("listed");
    assert_eq!(
        dirs(&found),
        vec![
            "Payload/Demo.app/Frameworks/Core.framework",
            "Payload/Demo.app/Frameworks/Core.framework/Deep.framework",
            "Payload/Demo.app/PlugIns/Share.appex",
            "Payload/Demo.app/Watch/Watch.app",
            "Payload/Demo.app/Base.lproj",
        ]
    );
    let kinds: Vec<BundleType> = found.iter().map(|b| b._type).collect();
    assert_eq!(
        kinds,
        vec![
            BundleType::Framework,
            BundleType::Framework,
            BundleType::AppExtension,
            BundleType::App,
            BundleType::Unknown,
        ]
    );
    assert_eq!(found[2].get_bundle_identifier().as_deref(), Some("com.foo.app.share"));
}

#[test]
fn discovery_is_repeatable() {
    let tree = sample_tree();
    let root = root_bundle();
    let first = root.get_embedded_bundles(&tree).expect("listed");
    let second = root.get_embedded_bundles(&tree).expect("listed");
    assert_eq!(format!("{:?}", first), format!("{:?}", second));
    assert_eq!(format!("{:?}", tree), format!("{:?}", sample_tree()));
}

#[test]
fn discovery_of_an_unlisted_directory_is_an_error() {
    let unreadable = DirNode {
        name: "Demo.app".to_string(),
        is_dir: true,
        info_plist: Some(info("a", "b")),
        entries: None,
    };
    let r = root_bundle().get_embedded_bundles(&unreadable);
    assert!(matches!(r, Err(Error::Other(_))));
    let inner_unreadable = dir(
        "Demo.app",
        Some(info("a", "b")),
        vec![DirNode {
            name: "Locked.framework".to_string(),
            is_dir: true,
            info_plist: Some(info("l", "l")),
            entries: None,
        }],
    );
    let found = root_bundle().get_embedded_bundles(&inner_unreadable).expect("listed");
    assert_eq!(dirs(&found), vec!["Payload/Demo.app/Locked.framework"]);
}

#[test]
fn signing_order_is_deepest_first_and_root_last() {
    let tree = dir(
        "App.app",
        Some(info("com.foo.app", "App")),
        vec![
            dir("One.framework", Some(info("com.foo.app.one", "One")), vec![]),
            dir("Two.appex", Some(info("com.foo.app.two", "Two")), vec![]),
        ],
    );
    let root = Bundle::new(path(&["App.app"]), tree.info_plist.clone()).expect("a bundle");
    let order = root.collect_bundles_sorted(&tree).expect("listed");
    assert_eq!(dirs(&order), vec!["App.app/Two.appex", "App.app/One.framework", "App.app"]);
    let depths: Vec<usize> = order.iter().map(|b| b.depth()).collect();
    assert_eq!(depths, vec![2, 2, 1]);
}

#[test]
fn signing_order_of_the_sample_tree() {
    let tree = sample_tree();
    let order = root_bundle().collect_bundles_sorted(&tree).expect("listed");
    assert_eq!(
        dirs(&order),
        vec![
            "Payload/Demo.app/Frameworks/Core.framework/Deep.framework",
            "Payload/Demo.app/Watch/Watch.app",
            "Payload/Demo.app/PlugIns/Share.appex",
            "Payload/Demo.app/Frameworks/Core.framework",
            "Payload/Demo.app/Base.lproj",
            "Payload/Demo.app",
        ]
    );
    for pair in order.windows(2) {
        assert!(pair[0].depth() >= pair[1].depth());
    }
}

#[test]
fn sorting_keeps_every_bundle() {
    let a = Bundle::new(path(&["a", "b", "c.app"]), Some(info("a", "a"))).expect("a bundle");
    let b = Bundle::new(path(&["a"]), Some(info("b", "b"))).expect("a bundle");
    let c = Bundle::new(path(&["a", "b"]), Some(info("c", "c"))).expect("a bundle");
    let d = Bundle::new(path(&["x", "y"]), Some(info("d", "d"))).expect("a bundle");
    let sorted = sort_for_signing(&vec![a, b, c, d]);
    assert_eq!(dirs(&sorted), vec!["a/b/c.app", "x/y", "a/b", "a"]);
    assert!(sort_for_signing(&Vec::new()).is_empty());
}

#[test]
fn info_plist_is_read() {
    let b = root_bundle();
    assert_eq!(b.get_name().as_deref(), Some("Demo"));
    assert_eq!(b.get_executable().as_deref(), Some("Binary"));
    assert_eq!(b.get_bundle_identifier().as_deref(), Some("com.foo.app"));
    assert_eq!(b.get_version().as_deref(), Some("1.0"));
    assert_eq!(b.get_build_version().as_deref(), Some("100"));
    let nameless = Bundle::new(path(&["x.app"]), Some(info("a", ""))).expect("a bundle");
    assert_eq!(nameless.get_name().as_deref(), Some("Binary"));
    let broken = Bundle::new(path(&["x.app"]), Some(b"garbage".to_vec())).expect("a bundle");
    assert_eq!(broken.get_name(), None);
    assert_eq!(broken.get_bundle_identifier(), None);
}

#[test]
fn name_version_and_identifier_are_set() {
    let mut b = root_bundle();
    b.set_name("Renamed").expect("set");
    b.set_version("2.5").expect("set");
    b.set_bundle_identifier("org.new.id").expect("set");
    assert_eq!(b.get_name().as_deref(), Some("Renamed"));
    assert_eq!(b.get_version().as_deref(), Some("2.5"));
    assert_eq!(b.get_build_version().as_deref(), Some("2.5"));
    assert_eq!(b.get_bundle_identifier().as_deref(), Some("org.new.id"));
    assert_eq!(b.get_executable().as_deref(), Some("Binary"));
    assert_eq!(b.get_dir(), &path(&["Payload", "Demo.app"]));
}

#[test]
fn setting_a_key_in_a_broken_document_fails_and_changes_nothing() {
    let mut broken = Bundle::new(path(&["x.app"]), Some(b"garbage".to_vec())).expect("a bundle");
    assert!(matches!(broken.set_name("n"), Err(Error::Plist(_))));
    assert!(matches!(broken.set_version("1"), Err(Error::Plist(_))));
    assert!(matches!(broken.set_matching_identifier("a", "b"), Err(Error::Plist(_))));
    assert_eq!(broken.info_plist(), &b"garbage".to_vec());
}

#[test]
fn matching_identifier_is_rewritten_in_all_three_places() {
    let attributes = PlistValue::dictionary(vec![(
        "WKAppBundleIdentifier".to_string(),
        PlistValue::text("com.foo.app.watchkitapp"),
    )]);
    let extension = PlistValue::dictionary(vec![
        ("NSExtensionPointIdentifier".to_string(), PlistValue::text("com.apple.watchkit")),
        ("NSExtensionAttributes".to_string(), attributes),
    ]);
    let doc = PlistValue::dictionary(vec![
        ("CFBundleIdentifier".to_string(), PlistValue::text("com.foo.app.watchkitextension")),
        ("WKCompanionAppBundleIdentifier".to_string(), PlistValue::text("com.foo.app")),
        ("NSExtension".to_string(), extension),
        ("Other".to_string(), PlistValue::text("com.foo.app")),
    ]);
    let mut b = Bundle::new(path(&["x.appex"]), Some(doc.to_xml().expect("writes"))).expect("a bundle");
    b.set_matching_identifier("com.foo.app", "com.foo.app.TEAMID").expect("rewritten");
    let after = PlistValue::parse(b.info_plist()).expect("reads");
    assert_eq!(
        after.get_string("CFBundleIdentifier").map(|s| s.as_str()),
        Some("com.foo.app.TEAMID.watchkitextension")
    );
    assert_eq!(
        after.get_string("WKCompanionAppBundleIdentifier").map(|s| s.as_str()),
        Some("com.foo.app.TEAMID")
    );
    let inner = after
        .get("NSExtension")
        .and_then(|e| e.get("NSExtensionAttributes"))
        .and_then(|a| a.get_string("WKAppBundleIdentifier"))
        .map(|s| s.as_str());
    assert_eq!(inner, Some("com.foo.app.TEAMID.watchkitapp"));
    assert_eq!(
        after.get("NSExtension").and_then(|e| e.get_string("NSExtensionPointIdentifier")).map(|s| s.as_str()),
        Some("com.apple.watchkit")
    );
    assert_eq!(after.get_string("Other").map(|s| s.as_str()), Some("com.foo.app"));
}

#[test]
fn a_bundle_that_does_not_name_the_identifier_is_left_byte_for_byte() {
    let mut b = Bundle::new(path(&["x.framework"]), Some(info("org.else.lib", "Lib"))).expect("a bundle");
    let before = b.info_plist().clone();
    b.set_matching_identifier("com.foo.app", "com.foo.app.TEAMID").expect("nothing to do");
    assert_eq!(b.info_plist(), &before);
}

use grand_slam::bytes::{find, find_final, find_first, find_last, join, matches_at, same, slice_of, to_vec};
use grand_slam::developer::qh::strip_invalid_name_chars;
use grand_slam::error::Error;
use grand_slam::property_list::PlistValue;
use grand_slam::text::{chars_of, ends_with, replace, starts_with, str_equal};

fn sample_xml() -> Vec<u8> {
    let text = "<?xml version=\"1.0\" encoding=\"UTF-8\"?>\n\
<!DOCTYPE plist PUBLIC \"-//Apple//DTD PLIST 1.0//EN\" \"http://www.apple.com/DTDs/PropertyList-1.0.dtd\">\n\
<plist version=\"1.0\">\n<dict>\n\
<key>name</key><string>Plume</string>\n\
<key>count</key><integer>42</integer>\n\
<key>big</key><integer>18446744073709551615</integer>\n\
<key>blob</key><data>AQID</data>\n\
<key>flag</key><true/>\n\
<key>when</key><date>2024-01-02T03:04:05Z</date>\n\
<key>list</key><array><string>a</string><integer>7</integer></array>\n\
<key>inner</key><dict><key>x</key><string>y</string></dict>\n\
</dict>\n</plist>\n";
    text.as_bytes().to_vec()
}

#[test]
fn replace_rewrites_every_occurrence() {
    assert_eq!(replace("a.b.a", "a", "xy"), "xy.b.xy");
    assert_eq!(replace("aaa", "aa", "b"), "ba");
    assert_eq!(replace("abc", "d", "x"), "abc");
    assert_eq!(replace("abc", "abcd", "x"), "abc");
    assert_eq!(replace("", "a", "x"), "");
}

#[test]
fn replace_with_empty_pattern_goes_between_characters() {
    assert_eq!(replace("ab", "", "-"), "-a-b-");
    assert_eq!(replace("", "", "-"), "-");
    assert_eq!(replace("ab", "", "-"), "ab".replace("", "-"));
}

#[test]
fn replace_agrees_with_std_on_samples() {
    let samples = ["com.foo.app", "com.foo.app.com.foo.app", "xcom.foo.appx", "", "....", "ünï.cödé"];
    let patterns = ["com.foo.app", ".", "o", "ü", "pp"];
    for s in samples {
        for p in patterns {
            assert_eq!(replace(s, p, "NEW"), s.replace(p, "NEW"));
        }
    }
}

#[test]
fn identifier_rewrite_keeps_what_follows_the_old_identifier() {
    let rewritten = replace("com.foo.app.watchkitextension", "com.foo.app", "com.foo.app.TEAMID");
    assert_eq!(rewritten, "com.foo.app.TEAMID.watchkitextension");
    assert_ne!(rewritten, "com.foo.app.watchkitTEAMIDextension");
    assert_eq!(replace("org.other.thing", "com.foo.app", "com.foo.app.TEAMID"), "org.other.thing");
}

#[test]
fn text_helpers() {
    assert_eq!(chars_of("héllo"), vec!['h', 'é', 'l', 'l', 'o']);
    assert!(str_equal("abc", "abc"));
    assert!(!str_equal("abc", "abd"));
    assert!(ends_with("Main.storyboardc", ".storyboardc"));
    assert!(!ends_with("c", ".storyboardc"));
    assert!(ends_with("x", ""));
    assert!(starts_with("com.foo", "com."));
    assert!(!starts_with("co", "com."));
}

#[test]
fn invalid_name_characters_are_stripped() {
    assert_eq!(strip_invalid_name_chars("My.App: \"Best\" <v1>|a/b\\c*?"), "MyApp Best v1abc");
    assert_eq!(strip_invalid_name_chars("Plain Name"), "Plain Name");
    assert_eq!(strip_invalid_name_chars("...."), "");
}

#[test]
fn plist_is_read_and_looked_up() {
    let doc = PlistValue::parse_xml(&sample_xml()).expect("reads");
    assert_eq!(doc.get_string("name").map(|s| s.as_str()), Some("Plume"));
    assert_eq!(doc.get_signed("count"), Some(42));
    assert_eq!(doc.get_signed("big"), None);
    assert!(matches!(doc.get("big"), Some(PlistValue::Unsigned(18446744073709551615))));
    assert_eq!(doc.get_data("blob").cloned(), Some(vec![1u8, 2, 3]));
    assert!(matches!(doc.get("flag"), Some(PlistValue::Boolean(true))));
    assert!(matches!(doc.get("when"), Some(PlistValue::Other(_))));
    assert!(doc.get("missing").is_none());
    assert!(doc.get_string("count").is_none());
    let list = doc.get("list").and_then(|l| l.as_array()).expect("an array");
    assert_eq!(list.len(), 2);
    assert_eq!(list[0].as_string().map(|s| s.as_str()), Some("a"));
    assert_eq!(list[1].as_signed_integer(), Some(7));
    let inner = doc.get("inner").expect("a dictionary");
    assert_eq!(inner.get_string("x").map(|s| s.as_str()), Some("y"));
    assert_eq!(inner.as_dictionary().map(|d| d.len()), Some(1));
}

#[test]
fn plist_any_encoding_and_dictionary_readers_agree_on_xml() {
    let a = PlistValue::parse(&sample_xml()).expect("reads");
    let b = PlistValue::parse_dictionary(&sample_xml()).expect("reads");
    assert_eq!(format!("{:?}", a), format!("{:?}", b));
}

#[test]
fn plist_dictionary_reader_refuses_an_array() {
    let text = "<?xml version=\"1.0\" encoding=\"UTF-8\"?><plist version=\"1.0\"><array><string>a</string></array></plist>";
    assert!(PlistValue::parse(text.as_bytes()).is_ok());
    assert!(PlistValue::parse_dictionary(text.as_bytes()).is_err());
}

#[test]
fn plist_reader_reports_garbage() {
    assert!(PlistValue::parse(b"not a plist at all").is_err());
    assert!(PlistValue::parse_xml(b"<plist><dict><key>a</key></dict>").is_err());
}

#[test]
fn plist_insert_replaces_in_place_or_appends() {
    let doc = PlistValue::parse_xml(&sample_xml()).expect("reads");
    let doc = doc.insert("count".to_string(), PlistValue::Integer(43));
    let doc = doc.insert("fresh".to_string(), PlistValue::text("new"));
    let entries = doc.as_dictionary().expect("a dictionary");
    assert_eq!(entries.len(), 9);
    assert_eq!(entries[1].0, "count");
    assert_eq!(entries[1].1.as_signed_integer(), Some(43));
    assert_eq!(entries[8].0, "fresh");
    let not_a_dictionary = PlistValue::text("s").insert("k".to_string(), PlistValue::Integer(1));
    assert_eq!(not_a_dictionary.as_string().map(|s| s.as_str()), Some("s"));
}

#[test]
fn plist_written_and_read_again_is_the_same() {
    let doc = PlistValue::parse_xml(&sample_xml()).expect("reads");
    let xml = doc.to_xml().expect("writes");
    let text = String::from_utf8(xml.clone()).expect("text");
    assert!(text.contains("<key>name</key>"));
    assert!(text.contains("<string>Plume</string>"));
    assert!(text.contains("<date>2024-01-02T03:04:05Z</date>"));
    let again = PlistValue::parse_xml(&xml).expect("reads again");
    assert_eq!(format!("{:?}", doc), format!("{:?}", again));
    assert_eq!(format!("{:?}", doc.duplicate()), format!("{:?}", doc));
    assert_eq!(format!("{:?}", doc.clone()), format!("{:?}", doc));
}

#[test]
fn plist_built_by_hand_is_written_in_order() {
    let doc = PlistValue::dictionary(vec![
        ("b".to_string(), PlistValue::text("1")),
        ("a".to_string(), PlistValue::array(vec![PlistValue::Boolean(false), PlistValue::data(vec![255])])),
    ]);
    let text = String::from_utf8(doc.to_xml().expect("writes")).expect("text");
    let b = text.find("<key>b</key>").expect("b");
    let a = text.find("<key>a</key>").expect("a");
    assert!(b < a);
    assert!(text.contains("<false/>"));
    assert!(text.contains("/w=="));
}

#[test]
fn error_messages() {
    assert_eq!(Error::BundleInfoPlistMissing.message(), "Info.plist not found");
    assert_eq!(Error::BundleExecutableMissing.message(), "Executable not found");
    assert_eq!(Error::ProvisioningEntitlementsUnknown.message(), "Entitlements not found");
    assert_eq!(Error::CertificatePemMissing.message(), "Missing certificate PEM data");
    assert_eq!(Error::Certificate("bad".to_string()).message(), "Certificate error: bad");
    assert_eq!(
        Error::DeveloperSession(7460, "quota".to_string()).message(),
        "Developer session error 7460: quota"
    );
    assert_eq!(Error::DeveloperSessionRequestFailed.message(), "Request to developer session failed");
    assert_eq!(
        Error::AuthSrpWithMessage(-20101, "no".to_string()).message(),
        "Authentication SRP error -20101: no"
    );
    assert_eq!(Error::AuthSrp.message(), "Authentication SRP error");
    assert_eq!(Error::ExtraStep("repair".to_string()).message(), "Authentication extra step required: repair");
    assert_eq!(Error::Bad2faCode.message(), "Bad 2FA code");
    assert_eq!(Error::Parse.message(), "Failed to parse");
    assert_eq!(Error::Plist("x".to_string()).message(), "Plist error: x");
    assert_eq!(Error::SerdeJson("x".to_string()).message(), "Serde JSON error: x");
    assert_eq!(Error::Codesign("x".to_string()).message(), "Codesign error: x");
    assert_eq!(Error::Pem("x".to_string()).message(), "Certificate PEM error: x");
    assert_eq!(Error::Other("just this".to_string()).message(), "just this");
}

#[test]
fn byte_strings_are_searched_from_both_ends() {
    let data = b"ab--ab--ab";
    assert_eq!(find(data, b"ab"), Some(0));
    assert_eq!(find_first(data, b"--"), Some(2));
    assert_eq!(find_last(data, b"ab"), Some(8));
    assert_eq!(find_final(data, b"--"), Some(6));
    assert_eq!(find(data, b"abc"), None);
    assert_eq!(find_last(data, b"abc"), None);
    assert_eq!(find(data, b""), Some(0));
    assert_eq!(find_last(data, b""), Some(10));
    assert_eq!(find(b"", b"a"), None);
    assert_eq!(find(b"", b""), Some(0));
    assert_eq!(find(b"aaa", b"aaaa"), None);
    assert!(matches_at(data, b"--", 2));
    assert!(!matches_at(data, b"--", 3));
    assert!(matches_at(data, b"", 10));
}

#[test]
fn byte_strings_are_joined_cut_and_compared() {
    assert_eq!(join(b"ab", b"cd"), b"abcd".to_vec());
    assert_eq!(join(b"", b""), Vec::<u8>::new());
    assert_eq!(slice_of(b"abcdef", 2, 4), b"cd".to_vec());
    assert_eq!(slice_of(b"abcdef", 6, 6), Vec::<u8>::new());
    assert_eq!(to_vec(b"xyz"), b"xyz".to_vec());
    assert!(same(b"abc", b"abc"));
    assert!(!same(b"abc", b"abd"));
    assert!(!same(b"abc", b"ab"));
    assert!(same(b"", b""));
}

#[test]
fn of_two_entries_with_one_key_the_first_is_read_and_written() {
    let twice = PlistValue::dictionary(vec![
        ("a".to_string(), PlistValue::text("first")),
        ("b".to_string(), PlistValue::text("between")),
        ("a".to_string(), PlistValue::text("second")),
    ]);
    assert_eq!(twice.get_string("a").map(|s| s.as_str()), Some("first"));
    let read = PlistValue::parse_xml(&twice.to_xml().expect("writes")).expect("reads");
    assert_eq!(read.get_string("a").map(|s| s.as_str()), Some("first"));
    let entries = read.as_dictionary().expect("a dictionary");
    assert_eq!(entries.len(), 2);
    assert_eq!(entries[0].0, "a");
    assert_eq!(entries[1].0, "b");
    let made = twice.plain_copy();
    let kept = made.as_dictionary().expect("a dictionary");
    assert_eq!(kept.len(), 2);
    assert_eq!(kept[0].1.as_string().map(|s| s.as_str()), Some("first"));
    let nested = PlistValue::array(vec![PlistValue::dictionary(vec![
        ("k".to_string(), PlistValue::Integer(1)),
        ("k".to_string(), PlistValue::Integer(2)),
    ])]);
    let read = PlistValue::parse_xml(&nested.to_xml().expect("writes")).expect("reads");
    let inner = read.as_array().expect("an array")[0].as_dictionary().expect("a dictionary");
    assert_eq!(inner.len(), 1);
    assert!(matches!(inner[0].1, PlistValue::Integer(1)));
    let plain = PlistValue::dictionary(vec![
        ("z".to_string(), PlistValue::text("1")),
        ("y".to_string(), PlistValue::text("2")),
        ("x".to_string(), PlistValue::text("3")),
    ]);
    let read = PlistValue::parse_xml(&plain.to_xml().expect("writes")).expect("reads");
    let keys: Vec<&str> = read.as_dictionary().expect("a dictionary").iter().map(|e| e.0.as_str()).collect();
    assert_eq!(keys, vec!["z", "y", "x"]);
}

#[test]
fn numbers_are_written_in_decimal_digits() {
    for n in [0i64, 1, 9, 10, 11, 99, 100, 7460, -1, -9, -10, -35070, i64::MAX, i64::MIN, i64::MIN + 1] {
        assert_eq!(grand_slam::error::decimal(n), n.to_string());
    }
    assert_eq!(grand_slam::error::decimal(-7460), "-7460");
    assert_eq!(grand_slam::error::decimal(9223372036854775807), "9223372036854775807");
    assert_eq!(grand_slam::error::decimal(i64::MIN), "-9223372036854775808");
}

#[test]
fn bytes_are_written_in_hexadecimal_digits() {
    let all: Vec<u8> = (0..=255u8).collect();
    assert_eq!(grand_slam::crypto::hex_encode(&all), hex::encode(&all));
    assert_eq!(grand_slam::crypto::hex_encode(&[0x00, 0x0f, 0xa0, 0xff]), "000fa0ff");
    assert_eq!(grand_slam::crypto::hex_encode(&[]), "");
}

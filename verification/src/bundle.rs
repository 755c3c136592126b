//! Bundles: directories that hold an `Info.plist`, classified by their
//! extension, and the tree they form inside an application.
//!
//! The library works on a directory tree that was read beforehand: each
//! directory with its name, the contents of its `Info.plist` where it has one,
//! and its entries. What is changed in a bundle is changed in memory; writing
//! it back is the caller's part.

use vstd::prelude::*;
use crate::error::Error;
use crate::error::ErrorModel;
use crate::property_list::plist_document;
use crate::property_list::plist_get;
use crate::property_list::plist_get_string;
use crate::property_list::plist_insert;
use crate::property_list::plist_xml_text;
use crate::property_list::lemma_view_unfold;
use crate::property_list::Plist;
use crate::property_list::PlistValue;
use crate::text::replace;
use crate::text::replaced;
use crate::text::chars_of;
use crate::text::ends_with;
use crate::text::str_equal;
use crate::text::string_of;

verus! {

/// The kind of a bundle directory, decided by its extension.
#[derive(Debug, Clone, Copy, PartialEq, Eq, Structural)]
pub enum BundleType {
    App,
    AppExtension,
    Framework,
    Unknown,
}

/// The kind that belongs to a directory extension.
pub open spec fn bundle_type_of(ext: Seq<char>) -> BundleType {
    if ext == "app"@ {
        BundleType::App
    } else if ext == "appex"@ {
        BundleType::AppExtension
    } else if ext == "framework"@ {
        BundleType::Framework
    } else {
        BundleType::Unknown
    }
}

impl BundleType {
    /// The kind that belongs to an extension. Every extension has one: what
    /// is none of the known kinds is `Unknown`.
    pub fn from_extension(ext: &str) -> (r: Option<BundleType>)
        ensures
            r == Some(bundle_type_of(ext@)),
    {
        if str_equal(ext, "app") {
            Some(BundleType::App)
        } else if str_equal(ext, "appex") {
            Some(BundleType::AppExtension)
        } else if str_equal(ext, "framework") {
            Some(BundleType::Framework)
        } else {
            Some(BundleType::Unknown)
        }
    }
}

/// The last position of `c` in `s`, or -1 where it does not occur.
pub open spec fn last_index_of(s: Seq<char>, c: char) -> int
    decreases s.len(),
{
    if s.len() == 0 {
        -1
    } else if s.last() == c {
        s.len() - 1
    } else {
        last_index_of(s.drop_last(), c)
    }
}

/// The last position of `c` is a position of `c`, and none comes after it.
pub proof fn lemma_last_index_of(s: Seq<char>, c: char)
    ensures
        -1 <= last_index_of(s, c) < s.len(),
        last_index_of(s, c) >= 0 ==> s[last_index_of(s, c)] == c,
        forall|j: int| last_index_of(s, c) < j < s.len() ==> s[j] != c,
    decreases s.len(),
{
    if s.len() > 0 && s.last() != c {
        lemma_last_index_of(s.drop_last(), c);
        assert forall|j: int| last_index_of(s, c) < j < s.len() implies s[j] != c by {
            if j < s.len() - 1 {
                assert(s.drop_last()[j] == s[j]);
            }
        }
    }
}

/// The last position of `c` in the characters given.
pub fn find_last_char(s: &Vec<char>, c: char) -> (r: Option<usize>)
    ensures
        match r {
            Some(k) => last_index_of(s@, c) == k,
            None => last_index_of(s@, c) == -1,
        },
{
    let mut i: usize = s.len();
    assert(s@.take(i as int) =~= s@);
    while i > 0
        invariant
            i <= s.len(),
            last_index_of(s@, c) == last_index_of(s@.take(i as int), c),
        decreases i,
    {
        if s[i - 1] == c {
            return Some(i - 1);
        }
        assert(s@.take(i as int).drop_last() =~= s@.take(i - 1));
        i = i - 1;
    }
    None
}

/// The extension of a file name: what follows its last dot, where that dot
/// is not the first character.
pub open spec fn extension_of(name: Seq<char>) -> Option<Seq<char>> {
    let k = last_index_of(name, '.');
    if k > 0 {
        Some(name.skip(k + 1))
    } else {
        None
    }
}

/// The kind of a directory with the name given.
pub open spec fn kind_of_name(name: Seq<char>) -> BundleType {
    match extension_of(name) {
        Some(ext) => bundle_type_of(ext),
        None => BundleType::Unknown,
    }
}

/// The kind of a directory with the name given.
pub fn bundle_type_for_name(name: &str) -> (r: BundleType)
    ensures
        r == kind_of_name(name@),
{
    let chars = chars_of(name);
    proof {
        lemma_last_index_of(chars@, '.');
    }
    match find_last_char(&chars, '.') {
        Some(k) => {
            if k == 0 {
                return BundleType::Unknown;
            }
            assert(k < chars.len());
            let mut ext: Vec<char> = Vec::new();
            let mut i: usize = k + 1;
            while i < chars.len()
                invariant
                    k < i <= chars.len(),
                    ext@ == chars@.subrange(k + 1, i as int),
                decreases chars.len() - i,
            {
                ext.push(chars[i]);
                i = i + 1;
            }
            assert(ext@ =~= chars@.skip(k + 1));
            let text = string_of(&ext);
            match BundleType::from_extension(text.as_str()) {
                Some(kind) => kind,
                None => BundleType::Unknown,
            }
        },
        None => BundleType::Unknown,
    }
}

/// Whether a name is shaped like that of a bundle: it holds a dot.
pub fn is_bundle_dir(name: &str) -> (r: bool)
    ensures
        r == (last_index_of(name@, '.') >= 0),
{
    let chars = chars_of(name);
    match find_last_char(&chars, '.') {
        Some(_) => true,
        None => false,
    }
}

/// A directory entry as it was read: its name, whether it is a directory,
/// the contents of the `Info.plist` directly inside it where there is one,
/// and its own entries in the order in which they were listed. A directory
/// that could not be listed has no entries.
#[derive(Debug)]
pub struct DirNode {
    pub name: String,
    pub is_dir: bool,
    pub info_plist: Option<Vec<u8>>,
    pub entries: Option<Vec<DirNode>>,
}

/// A bundle: where it lies, given by the components of its path, what kind
/// it is, and the contents of its `Info.plist`.
#[derive(Debug)]
pub struct Bundle {
    dir: Vec<String>,
    pub _type: BundleType,
    info_plist: Vec<u8>,
}

/// What a bundle means.
pub struct BundleModel {
    pub dir: Seq<Seq<char>>,
    pub kind: BundleType,
    pub info_plist: Seq<u8>,
}

/// What a path means: the text of each component.
pub open spec fn path_view(path: Seq<String>) -> Seq<Seq<char>> {
    Seq::new(path.len(), |i: int| path[i]@)
}

impl View for Bundle {
    type V = BundleModel;

    closed spec fn view(&self) -> BundleModel {
        BundleModel { dir: path_view(self.dir@), kind: self._type, info_plist: self.info_plist@ }
    }
}

/// What a list of bundles means.
pub open spec fn bundles_view(bundles: Seq<Bundle>) -> Seq<BundleModel> {
    Seq::new(bundles.len(), |i: int| bundles[i]@)
}

/// The parts in a row.
pub open spec fn joined(parts: Seq<Seq<BundleModel>>) -> Seq<BundleModel>
    decreases parts.len(),
{
    if parts.len() == 0 {
        Seq::empty()
    } else {
        joined(parts.drop_last()) + parts.last()
    }
}

/// Whether a name is that of a compiled storyboard, which is no bundle
/// whatever it holds.
pub open spec fn is_compiled_resource(name: Seq<char>) -> bool {
    ".storyboardc"@.is_suffix_of(name)
}

/// What is found at one directory entry that lies in the directory
/// `parent`, given what was found below each of its own entries.
///
/// A compiled storyboard is passed over with all it holds. An entry whose
/// name holds a dot and which holds an `Info.plist` is a bundle; below an
/// application nothing further is looked for, below any other bundle the
/// search goes on. Any other directory is searched.
pub open spec fn found_at(parent: Seq<Seq<char>>, node: DirNode, below: Seq<Seq<BundleModel>>) -> Seq<
    BundleModel,
> {
    if is_compiled_resource(node.name@) {
        Seq::empty()
    } else if last_index_of(node.name@, '.') >= 0 && node.info_plist is Some {
        let bundle = BundleModel {
            dir: parent.push(node.name@),
            kind: kind_of_name(node.name@),
            info_plist: node.info_plist->0@,
        };
        if bundle.kind is App {
            seq![bundle]
        } else {
            seq![bundle] + joined(below)
        }
    } else if node.is_dir {
        joined(below)
    } else {
        Seq::empty()
    }
}

/// What is found at and below each entry of the directory `path`, whose
/// listing `node` holds: one part for each entry, in the order of the listing.
pub open spec fn found_below(path: Seq<Seq<char>>, node: DirNode) -> Seq<Seq<BundleModel>>
    decreases node,
{
    match node.entries {
        Some(entries) => Seq::new(
            entries@.len(),
            |i: int|
                if 0 <= i < entries@.len() {
                    found_at(
                        path,
                        entries@[i],
                        found_below(path.push(entries@[i].name@), entries@[i]),
                    )
                } else {
                    Seq::empty()
                },
        ),
        None => Seq::empty(),
    }
}

/// The bundles found at and below one directory entry that lies in the
/// directory `parent`, in the order of discovery.
pub open spec fn discovered(parent: Seq<Seq<char>>, node: DirNode) -> Seq<BundleModel> {
    found_at(parent, node, found_below(parent.push(node.name@), node))
}

/// The bundles found below each of the entries of the directory `path`.
pub open spec fn discovered_in(path: Seq<Seq<char>>, entries: Seq<DirNode>) -> Seq<BundleModel> {
    joined(Seq::new(entries.len(), |i: int| discovered(path, entries[i])))
}

/// What is found below a listed directory is what is discovered at each of
/// its entries.
pub proof fn lemma_found_below(path: Seq<Seq<char>>, node: DirNode)
    ensures
        match node.entries {
            Some(entries) => joined(found_below(path, node)) == discovered_in(path, entries@),
            None => joined(found_below(path, node)) == Seq::<BundleModel>::empty(),
        },
{
    match node.entries {
        Some(entries) => {
            assert(found_below(path, node) =~= Seq::new(
                entries@.len(),
                |i: int| discovered(path, entries@[i]),
            ));
        },
        None => {},
    }
}

/// The bundles embedded in a directory: those found below its entries. A
/// directory that could not be listed gives an error.
pub open spec fn embedded_in(path: Seq<Seq<char>>, node: DirNode) -> Option<Seq<BundleModel>> {
    match node.entries {
        Some(entries) => Some(discovered_in(path, entries@)),
        None => None,
    }
}

/// Whether two listings hold the same: the same names, kinds of entry and
/// `Info.plist` contents, entry for entry and all the way down.
pub open spec fn same_listing(a: DirNode, b: DirNode) -> bool
    decreases a,
{
    &&& a.name@ == b.name@
    &&& a.is_dir == b.is_dir
    &&& match (a.info_plist, b.info_plist) {
        (Some(x), Some(y)) => x@ == y@,
        (None, None) => true,
        _ => false,
    }
    &&& match (a.entries, b.entries) {
        (Some(x), Some(y)) => x@.len() == y@.len() && forall|i: int|
            0 <= i < x@.len() ==> same_listing(x@[i], #[trigger] y@[i]),
        (None, None) => true,
        _ => false,
    }
}

/// Discovery depends on nothing but what the directory holds: two listings
/// that hold the same give the same bundles, of the same kinds, in the same
/// order. Reading a directory twice and searching it twice finds the same.
pub proof fn lemma_discovery_repeatable(parent: Seq<Seq<char>>, a: DirNode, b: DirNode)
    requires
        same_listing(a, b),
    ensures
        found_below(parent.push(a.name@), a) == found_below(parent.push(b.name@), b),
        discovered(parent, a) == discovered(parent, b),
        embedded_in(parent, a) == embedded_in(parent, b),
    decreases a,
{
    let path = parent.push(a.name@);
    match (a.entries, b.entries) {
        (Some(x), Some(y)) => {
            assert forall|i: int| 0 <= i < x@.len() implies found_at(
                path,
                x@[i],
                found_below(path.push(x@[i].name@), x@[i]),
            ) == found_at(path, y@[i], found_below(path.push(y@[i].name@), y@[i])) by {
                assert(same_listing(x@[i], y@[i]));
                lemma_discovery_repeatable(path, x@[i], y@[i]);
            }
            assert(found_below(path, a) =~= found_below(path, b));
            assert forall|i: int| 0 <= i < x@.len() implies discovered(parent, x@[i])
                == discovered(parent, y@[i]) by {
                assert(same_listing(x@[i], y@[i]));
                lemma_discovery_repeatable(parent, x@[i], y@[i]);
            }
            assert(Seq::new(x@.len(), |i: int| discovered(parent, x@[i])) =~= Seq::new(
                y@.len(),
                |i: int| discovered(parent, y@[i]),
            ));
        },
        _ => {},
    }
}

/// A copy of a path.
pub fn copy_path(path: &Vec<String>) -> (r: Vec<String>)
    ensures
        path_view(r@) == path_view(path@),
{
    let mut r: Vec<String> = Vec::new();
    let mut i: usize = 0;
    while i < path.len()
        invariant
            i <= path.len(),
            r.len() == i,
            forall|j: int| 0 <= j < i ==> r@[j]@ == path@[j]@,
        decreases path.len() - i,
    {
        r.push(path[i].clone());
        i = i + 1;
    }
    assert(path_view(r@) =~= path_view(path@));
    r
}

/// The path of an entry of the directory `parent`.
pub fn child_path(parent: &Vec<String>, name: &str) -> (r: Vec<String>)
    ensures
        path_view(r@) == path_view(parent@).push(name@),
{
    let mut r = copy_path(parent);
    let ghost before = path_view(r@);
    r.push(name.to_owned());
    assert(path_view(r@) =~= before.push(name@));
    r
}

fn append_bundles(out: &mut Vec<Bundle>, more: Vec<Bundle>)
    ensures
        bundles_view(final(out)@) == bundles_view(old(out)@) + bundles_view(more@),
{
    let mut more = more;
    let ghost a = bundles_view(out@);
    let ghost b = bundles_view(more@);
    out.append(&mut more);
    assert(bundles_view(out@) =~= a + b);
}

/// Searches the entries of the directory `path`.
fn collect_entries(path: &Vec<String>, entries: &Vec<DirNode>, Ghost(node): Ghost<DirNode>) -> (r:
    Vec<Bundle>)
    requires
        node.entries == Some(*entries),
    ensures
        bundles_view(r@) == discovered_in(path_view(path@), entries@),
    decreases node, 0int,
{
    let ghost parts = Seq::new(
        entries@.len(),
        |i: int| discovered(path_view(path@), entries@[i]),
    );
    let mut out: Vec<Bundle> = Vec::new();
    let mut i: usize = 0;
    assert(bundles_view(out@) =~= joined(parts.take(0)));
    assert(decreases_to!(node => node.entries));
    assert(decreases_to!(node.entries => node.entries->0));
    assert(decreases_to!(node => *entries));
    while i < entries.len()
        invariant
            i <= entries.len(),
            decreases_to!(node => *entries),
            parts == Seq::new(
                entries@.len(),
                |i: int| discovered(path_view(path@), entries@[i]),
            ),
            bundles_view(out@) == joined(parts.take(i as int)),
        decreases entries.len() - i,
    {
        proof {
            vstd::std_specs::vec::axiom_vec_index_decreases(*entries, i as int);
        }
        let found = collect_bundles(path, &entries[i]);
        append_bundles(&mut out, found);
        proof {
            assert(parts.take(i + 1).drop_last() =~= parts.take(i as int));
            assert(parts.take(i + 1).last() == parts[i as int]);
        }
        i = i + 1;
    }
    assert(parts.take(entries.len() as int) =~= parts);
    out
}

/// Searches one entry of the directory `parent` and what lies below it.
fn collect_bundles(parent: &Vec<String>, node: &DirNode) -> (r: Vec<Bundle>)
    ensures
        bundles_view(r@) == discovered(path_view(parent@), *node),
    decreases node, 1int,
{
    let path = child_path(parent, node.name.as_str());
    let mut out: Vec<Bundle> = Vec::new();
    assert(bundles_view(out@) =~= Seq::<BundleModel>::empty());
    if ends_with(node.name.as_str(), ".storyboardc") {
        return out;
    }
    let ghost below = joined(found_below(path_view(path@), *node));
    proof {
        lemma_found_below(path_view(path@), *node);
    }
    let ghost expected = discovered(path_view(parent@), *node);
    assert(!is_compiled_resource(node.name@));
    let shaped = is_bundle_dir(node.name.as_str());
    let mut search_below = false;
    if shaped && node.info_plist.is_some() {
        let kind = bundle_type_for_name(node.name.as_str());
        let info = match &node.info_plist {
            Some(bytes) => bytes.clone(),
            None => Vec::new(),
        };
        let bundle = Bundle { dir: copy_path(&path), _type: kind, info_plist: info };
        out.push(bundle);
        assert(bundles_view(out@) =~= seq![
            BundleModel {
                dir: path_view(path@),
                kind: kind_of_name(node.name@),
                info_plist: node.info_plist->0@,
            },
        ]);
        match kind {
            BundleType::App => {},
            _ => {
                search_below = true;
            },
        }
    } else if node.is_dir {
        search_below = true;
    }
    let ghost head = bundles_view(out@);
    assert(expected == if search_below {
        head + below
    } else {
        head
    }) by {
        assert(Seq::<BundleModel>::empty() + below =~= below);
    }
    if search_below {
        match &node.entries {
            Some(entries) => {
                let found = collect_entries(&path, entries, Ghost(*node));
                append_bundles(&mut out, found);
            },
            None => {
                assert(head + below =~= head);
            },
        }
    }
    out
}

impl Bundle {
    /// The bundle at the path given, whose last component is the name of the
    /// directory. A directory without an `Info.plist` is no bundle.
    pub fn new(path: Vec<String>, info_plist: Option<Vec<u8>>) -> (r: Result<Bundle, Error>)
        ensures
            match r {
                Ok(b) => info_plist is Some && b@ == (BundleModel {
                    dir: path_view(path@),
                    kind: if path@.len() > 0 {
                        kind_of_name(path@.last()@)
                    } else {
                        BundleType::Unknown
                    },
                    info_plist: info_plist->0@,
                }),
                Err(e) => info_plist is None && e is BundleInfoPlistMissing,
            },
    {
        let info = match info_plist {
            Some(bytes) => bytes,
            None => {
                return Err(Error::BundleInfoPlistMissing);
            },
        };
        let kind = if path.len() > 0 {
            bundle_type_for_name(path[path.len() - 1].as_str())
        } else {
            BundleType::Unknown
        };
        Ok(Bundle { dir: path, _type: kind, info_plist: info })
    }

    /// The components of the path at which the bundle lies.
    pub fn get_dir(&self) -> (r: &Vec<String>)
        ensures
            path_view(r@) == self@.dir,
    {
        &self.dir
    }

    /// The contents of the bundle's `Info.plist`.
    pub fn info_plist(&self) -> (r: &Vec<u8>)
        ensures
            r@ == self@.info_plist,
    {
        &self.info_plist
    }

    /// The kind of the bundle.
    pub fn bundle_type(&self) -> (r: BundleType)
        ensures
            r == self@.kind,
    {
        self._type
    }

    /// How many components the bundle's path has.
    pub fn depth(&self) -> (r: usize)
        ensures
            r == self@.dir.len(),
    {
        self.dir.len()
    }

    /// A copy of the bundle.
    pub fn duplicate(&self) -> (r: Bundle)
        ensures
            r@ == self@,
    {
        Bundle { dir: copy_path(&self.dir), _type: self._type, info_plist: self.info_plist.clone() }
    }

    /// The bundles embedded in this one, found in the listing of its
    /// directory, in the order of discovery. `BundleInfoPlistMissing` never
    /// comes from here; a directory that could not be listed gives `Other`.
    pub fn get_embedded_bundles(&self, listing: &DirNode) -> (r: Result<Vec<Bundle>, Error>)
        ensures
            match r {
                Ok(bundles) => embedded_in(self@.dir, *listing) == Some(bundles_view(bundles@)),
                Err(e) => embedded_in(self@.dir, *listing) is None && e@
                    == ErrorModel::Other(unreadable_text()),
            },
    {
        match &listing.entries {
            Some(entries) => Ok(collect_entries(&self.dir, entries, Ghost(*listing))),
            None => Err(Error::Other("Directory could not be read".to_owned())),
        }
    }
}

/// The words of the error for a directory that could not be listed.
pub open spec fn unreadable_text() -> Seq<char> {
    "Directory could not be read"@
}

/// The string under `key` in an `Info.plist`; none where the document cannot
/// be read, is no dictionary, or holds no string there.
pub open spec fn info_string(info: Seq<u8>, key: Seq<char>) -> Option<Seq<char>> {
    match plist_document(info) {
        Ok(doc) => plist_get_string(doc, key),
        Err(_) => None,
    }
}

/// The name of a bundle: its display name, else its name, else the name of
/// its executable.
pub open spec fn info_name(info: Seq<u8>) -> Option<Seq<char>> {
    match info_string(info, "CFBundleDisplayName"@) {
        Some(n) => Some(n),
        None => match info_string(info, "CFBundleName"@) {
            Some(n) => Some(n),
            None => info_string(info, "CFBundleExecutable"@),
        },
    }
}

/// What an `Info.plist` tells of its bundle.
pub trait PlistInfoTrait {
    fn get_name(&self) -> Option<String>;

    fn get_executable(&self) -> Option<String>;

    fn get_bundle_identifier(&self) -> Option<String>;

    fn get_version(&self) -> Option<String>;

    fn get_build_version(&self) -> Option<String>;
}

/// The string under `key` in the `Info.plist` given.
pub fn read_info_string(info: &[u8], key: &str) -> (r: Option<String>)
    ensures
        match r {
            Some(s) => info_string(info@, key@) == Some(s@),
            None => info_string(info@, key@) is None,
        },
{
    match PlistValue::parse(info) {
        Ok(doc) => match doc.get_string(key) {
            Some(s) => Some(s.clone()),
            None => None,
        },
        Err(_) => None,
    }
}

impl PlistInfoTrait for Bundle {
    /// The display name, else the name, else the name of the executable.
    fn get_name(&self) -> (r: Option<String>)
        ensures
            match r {
                Some(s) => info_name(self@.info_plist) == Some(s@),
                None => info_name(self@.info_plist) is None,
            },
    {
        match read_info_string(self.info_plist.as_slice(), "CFBundleDisplayName") {
            Some(n) => Some(n),
            None => match read_info_string(self.info_plist.as_slice(), "CFBundleName") {
                Some(n) => Some(n),
                None => self.get_executable(),
            },
        }
    }

    /// The name of the executable.
    fn get_executable(&self) -> (r: Option<String>)
        ensures
            match r {
                Some(s) => info_string(self@.info_plist, "CFBundleExecutable"@) == Some(s@),
                None => info_string(self@.info_plist, "CFBundleExecutable"@) is None,
            },
    {
        read_info_string(self.info_plist.as_slice(), "CFBundleExecutable")
    }

    /// The bundle identifier.
    fn get_bundle_identifier(&self) -> (r: Option<String>)
        ensures
            match r {
                Some(s) => info_string(self@.info_plist, "CFBundleIdentifier"@) == Some(s@),
                None => info_string(self@.info_plist, "CFBundleIdentifier"@) is None,
            },
    {
        read_info_string(self.info_plist.as_slice(), "CFBundleIdentifier")
    }

    /// The version shown to the user.
    fn get_version(&self) -> (r: Option<String>)
        ensures
            match r {
                Some(s) => info_string(self@.info_plist, "CFBundleShortVersionString"@) == Some(
                    s@,
                ),
                None => info_string(self@.info_plist, "CFBundleShortVersionString"@) is None,
            },
    {
        read_info_string(self.info_plist.as_slice(), "CFBundleShortVersionString")
    }

    /// The build version.
    fn get_build_version(&self) -> (r: Option<String>)
        ensures
            match r {
                Some(s) => info_string(self@.info_plist, "CFBundleVersion"@) == Some(s@),
                None => info_string(self@.info_plist, "CFBundleVersion"@) is None,
            },
    {
        read_info_string(self.info_plist.as_slice(), "CFBundleVersion")
    }
}

/// An `Info.plist` with `key` bound to `value`, written anew as XML. A
/// document that is no dictionary is written as it is.
pub open spec fn with_info_key(info: Seq<u8>, key: Seq<char>, value: Plist) -> Result<
    Seq<u8>,
    ErrorModel,
> {
    match plist_document(info) {
        Err(words) => Err(ErrorModel::Plist(words)),
        Ok(doc) => match plist_xml_text(plist_insert(doc, key, value)) {
            Ok(bytes) => Ok(bytes),
            Err(words) => Err(ErrorModel::Plist(words)),
        },
    }
}

/// An `Info.plist` with both version keys bound to `version`: the document
/// as it stands at the end, and whether both steps went well. Where the
/// second step fails the first is kept.
pub open spec fn with_version(info: Seq<u8>, version: Seq<char>) -> (Seq<u8>, Result<
    (),
    ErrorModel,
>) {
    match with_info_key(info, "CFBundleShortVersionString"@, Plist::String(version)) {
        Err(e) => (info, Err(e)),
        Ok(first) => match with_info_key(first, "CFBundleVersion"@, Plist::String(version)) {
            Err(e) => (first, Err(e)),
            Ok(second) => (second, Ok(())),
        },
    }
}

/// A dictionary in which the string under `key` has every occurrence of the
/// old identifier replaced by the new one. Anything else is left as it is.
pub open spec fn rewritten_string(d: Plist, key: Seq<char>, from: Seq<char>, to: Seq<char>) -> Plist {
    match plist_get_string(d, key) {
        Some(v) => plist_insert(d, key, Plist::String(replaced(v, from, to))),
        None => d,
    }
}

/// Whether the string under `key` holds the old identifier, so that
/// rewriting changes it.
pub open spec fn string_changes(d: Plist, key: Seq<char>, from: Seq<char>, to: Seq<char>) -> bool {
    match plist_get_string(d, key) {
        Some(v) => replaced(v, from, to) != v,
        None => false,
    }
}

/// The attributes of the extension that a document declares: the dictionary
/// under `NSExtensionAttributes` in the dictionary under `NSExtension`, with
/// that outer dictionary.
pub open spec fn extension_attributes(d: Plist) -> Option<(Plist, Plist)> {
    match plist_get(d, "NSExtension"@) {
        Some(ext) => if ext is Dictionary {
            match plist_get(ext, "NSExtensionAttributes"@) {
                Some(attrs) => if attrs is Dictionary {
                    Some((ext, attrs))
                } else {
                    None
                },
                None => None,
            }
        } else {
            None
        },
        None => None,
    }
}

/// A document in which the application identifier among the extension's
/// attributes is rewritten.
pub open spec fn rewritten_extension(d: Plist, from: Seq<char>, to: Seq<char>) -> Plist {
    match extension_attributes(d) {
        Some((ext, attrs)) => match plist_get_string(attrs, "WKAppBundleIdentifier"@) {
            Some(_) => plist_insert(
                d,
                "NSExtension"@,
                plist_insert(
                    ext,
                    "NSExtensionAttributes"@,
                    rewritten_string(attrs, "WKAppBundleIdentifier"@, from, to),
                ),
            ),
            None => d,
        },
        None => d,
    }
}

/// Whether rewriting changes the application identifier among the
/// extension's attributes.
pub open spec fn extension_changes(d: Plist, from: Seq<char>, to: Seq<char>) -> bool {
    match extension_attributes(d) {
        Some((_, attrs)) => string_changes(attrs, "WKAppBundleIdentifier"@, from, to),
        None => false,
    }
}

/// A document with the old identifier replaced by the new one wherever a
/// bundle names an identifier: its own, that of its companion application,
/// and that of the application among its extension's attributes.
pub open spec fn rewritten_document(d: Plist, from: Seq<char>, to: Seq<char>) -> Plist {
    rewritten_extension(
        rewritten_string(
            rewritten_string(d, "CFBundleIdentifier"@, from, to),
            "WKCompanionAppBundleIdentifier"@,
            from,
            to,
        ),
        from,
        to,
    )
}

/// Whether rewriting changes any of the three.
pub open spec fn document_changes(d: Plist, from: Seq<char>, to: Seq<char>) -> bool {
    let first = rewritten_string(d, "CFBundleIdentifier"@, from, to);
    let second = rewritten_string(first, "WKCompanionAppBundleIdentifier"@, from, to);
    string_changes(d, "CFBundleIdentifier"@, from, to) || string_changes(
        first,
        "WKCompanionAppBundleIdentifier"@,
        from,
        to,
    ) || extension_changes(second, from, to)
}

/// An `Info.plist` with the identifiers rewritten. Where nothing changes
/// the document stays as it is, byte for byte; else it is written anew.
pub open spec fn with_matching_identifier(info: Seq<u8>, from: Seq<char>, to: Seq<char>) -> Result<
    Seq<u8>,
    ErrorModel,
> {
    match plist_document(info) {
        Err(words) => Err(ErrorModel::Plist(words)),
        Ok(doc) => if document_changes(doc, from, to) {
            match plist_xml_text(rewritten_document(doc, from, to)) {
                Ok(bytes) => Ok(bytes),
                Err(words) => Err(ErrorModel::Plist(words)),
            }
        } else {
            Ok(info)
        },
    }
}

/// Rewrites the string under `key`, and tells whether that changed it.
pub fn rewrite_string(doc: PlistValue, key: &str, from: &str, to: &str) -> (r: (PlistValue, bool))
    ensures
        r.0@ == rewritten_string(doc@, key@, from@, to@),
        r.1 == string_changes(doc@, key@, from@, to@),
{
    let renamed = match doc.get_string(key) {
        Some(v) => Some((replace(v.as_str(), from, to), v.clone())),
        None => None,
    };
    match renamed {
        Some((new_value, old_value)) => {
            let changed = new_value != old_value;
            (doc.insert(key.to_owned(), PlistValue::String(new_value)), changed)
        },
        None => (doc, false),
    }
}

/// Rewrites the application identifier among the extension's attributes,
/// and tells whether that changed it.
pub fn rewrite_extension(doc: PlistValue, from: &str, to: &str) -> (r: (PlistValue, bool))
    ensures
        r.0@ == rewritten_extension(doc@, from@, to@),
        r.1 == extension_changes(doc@, from@, to@),
{
    let parts = match doc.get("NSExtension") {
        Some(ext) => {
            proof {
                lemma_view_unfold(*ext);
            }
            match ext {
                PlistValue::Dictionary(_) => match ext.get("NSExtensionAttributes") {
                    Some(attrs) => {
                        proof {
                            lemma_view_unfold(*attrs);
                        }
                        match attrs {
                            PlistValue::Dictionary(_) => Some((ext.duplicate(), attrs.duplicate())),
                            _ => None,
                        }
                    },
                    None => None,
                },
                _ => None,
            }
        },
        None => None,
    };
    match parts {
        Some((ext, attrs)) => {
            let present = attrs.get_string("WKAppBundleIdentifier").is_some();
            if present {
                let (new_attrs, changed) = rewrite_string(attrs, "WKAppBundleIdentifier", from, to);
                let new_ext = ext.insert("NSExtensionAttributes".to_owned(), new_attrs);
                (doc.insert("NSExtension".to_owned(), new_ext), changed)
            } else {
                (doc, false)
            }
        },
        None => (doc, false),
    }
}

impl Bundle {
    /// Puts other contents in place of the bundle's `Info.plist`.
    pub fn replace_info_plist(&mut self, bytes: Vec<u8>)
        ensures
            final(self)@ == (BundleModel { info_plist: bytes@, ..old(self)@ }),
    {
        self.info_plist = bytes;
    }

    /// Binds `key` to `value` in the bundle's `Info.plist` and writes the
    /// document anew. On an error the bundle stays as it was.
    pub fn set_info_plist_key(&mut self, key: &str, value: PlistValue) -> (r: Result<(), Error>)
        ensures
            match r {
                Ok(_) => with_info_key(old(self)@.info_plist, key@, value@) == Ok::<
                    Seq<u8>,
                    ErrorModel,
                >(final(self)@.info_plist) && final(self)@ == (BundleModel {
                    info_plist: final(self)@.info_plist,
                    ..old(self)@
                }),
                Err(e) => with_info_key(old(self)@.info_plist, key@, value@) == Err::<
                    Seq<u8>,
                    ErrorModel,
                >(e@) && final(self)@ == old(self)@,
            },
    {
        let doc = match PlistValue::parse(self.info_plist.as_slice()) {
            Ok(doc) => doc,
            Err(words) => {
                return Err(Error::Plist(words));
            },
        };
        let updated = doc.insert(key.to_owned(), value);
        match updated.to_xml() {
            Ok(bytes) => {
                self.info_plist = bytes;
                Ok(())
            },
            Err(words) => Err(Error::Plist(words)),
        }
    }

    /// Sets the name that is shown to the user.
    pub fn set_name(&mut self, new_name: &str) -> (r: Result<(), Error>)
        ensures
            match r {
                Ok(_) => with_info_key(
                    old(self)@.info_plist,
                    "CFBundleDisplayName"@,
                    Plist::String(new_name@),
                ) == Ok::<Seq<u8>, ErrorModel>(final(self)@.info_plist) && final(self)@ == (
                BundleModel { info_plist: final(self)@.info_plist, ..old(self)@ }),
                Err(e) => with_info_key(
                    old(self)@.info_plist,
                    "CFBundleDisplayName"@,
                    Plist::String(new_name@),
                ) == Err::<Seq<u8>, ErrorModel>(e@) && final(self)@ == old(self)@,
            },
    {
        self.set_info_plist_key("CFBundleDisplayName", PlistValue::text(new_name))
    }

    /// Sets the version shown to the user and the build version.
    pub fn set_version(&mut self, new_version: &str) -> (r: Result<(), Error>)
        ensures
            final(self)@ == (BundleModel {
                info_plist: with_version(old(self)@.info_plist, new_version@).0,
                ..old(self)@
            }),
            match r {
                Ok(_) => with_version(old(self)@.info_plist, new_version@).1 is Ok,
                Err(e) => with_version(old(self)@.info_plist, new_version@).1 == Err::<
                    (),
                    ErrorModel,
                >(e@),
            },
    {
        match self.set_info_plist_key("CFBundleShortVersionString", PlistValue::text(new_version)) {
            Err(e) => {
                return Err(e);
            },
            Ok(_) => {},
        }
        self.set_info_plist_key("CFBundleVersion", PlistValue::text(new_version))
    }

    /// Sets the bundle identifier.
    pub fn set_bundle_identifier(&mut self, new_identifier: &str) -> (r: Result<(), Error>)
        ensures
            match r {
                Ok(_) => with_info_key(
                    old(self)@.info_plist,
                    "CFBundleIdentifier"@,
                    Plist::String(new_identifier@),
                ) == Ok::<Seq<u8>, ErrorModel>(final(self)@.info_plist) && final(self)@ == (
                BundleModel { info_plist: final(self)@.info_plist, ..old(self)@ }),
                Err(e) => with_info_key(
                    old(self)@.info_plist,
                    "CFBundleIdentifier"@,
                    Plist::String(new_identifier@),
                ) == Err::<Seq<u8>, ErrorModel>(e@) && final(self)@ == old(self)@,
            },
    {
        self.set_info_plist_key("CFBundleIdentifier", PlistValue::text(new_identifier))
    }

    /// Replaces the old identifier by the new one wherever the bundle names
    /// an identifier. The document is written anew only where that changes
    /// something. On an error the bundle stays as it was.
    pub fn set_matching_identifier(&mut self, old_identifier: &str, new_identifier: &str) -> (r:
        Result<(), Error>)
        ensures
            match r {
                Ok(_) => with_matching_identifier(
                    old(self)@.info_plist,
                    old_identifier@,
                    new_identifier@,
                ) == Ok::<Seq<u8>, ErrorModel>(final(self)@.info_plist) && final(self)@ == (
                BundleModel { info_plist: final(self)@.info_plist, ..old(self)@ }),
                Err(e) => with_matching_identifier(
                    old(self)@.info_plist,
                    old_identifier@,
                    new_identifier@,
                ) == Err::<Seq<u8>, ErrorModel>(e@) && final(self)@ == old(self)@,
            },
    {
        let doc = match PlistValue::parse(self.info_plist.as_slice()) {
            Ok(doc) => doc,
            Err(words) => {
                return Err(Error::Plist(words));
            },
        };
        let (first, c1) = rewrite_string(doc, "CFBundleIdentifier", old_identifier, new_identifier);
        let (second, c2) = rewrite_string(
            first,
            "WKCompanionAppBundleIdentifier",
            old_identifier,
            new_identifier,
        );
        let (third, c3) = rewrite_extension(second, old_identifier, new_identifier);
        if c1 || c2 || c3 {
            match third.to_xml() {
                Ok(bytes) => {
                    self.info_plist = bytes;
                    Ok(())
                },
                Err(words) => Err(Error::Plist(words)),
            }
        } else {
            Ok(())
        }
    }
}

} // verus!

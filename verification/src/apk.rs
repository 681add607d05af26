//! What is read from an application archive: its package, the processor
//! architectures it has native code for, and the activity to start.
//!
//! The host opens the archive and decodes its manifest; what the names and
//! the elements mean is decided here.

use vstd::prelude::*;
use vstd::string::StrSliceExecFns;
use vstd::string::StringExecFns;

use crate::error::ErrorKind;
use crate::error::ErrorModel;
use crate::error::SandboxError;
use crate::path::join;
use crate::path::joined_path;
use crate::text::ends_with;
use crate::text::has_prefix;
use crate::text::has_suffix;
use crate::text::same_text;
use crate::text::slice;
use crate::text::split;
use crate::text::split_on;
use crate::text::starts_with;
use crate::text::text_of;

verus! {

/// A processor architecture that an archive can hold native code for.
#[derive(Debug, Clone, Copy, PartialEq, Eq, Hash, Structural)]
pub enum Abi {
    Arm64V8a,
    ArmV7a,
    X86_64,
    X86,
}

impl Abi {
    /// The name of the directory that holds the architecture's libraries.
    pub open spec fn text(self) -> Seq<char> {
        match self {
            Abi::Arm64V8a => "arm64-v8a"@,
            Abi::ArmV7a => "armeabi-v7a"@,
            Abi::X86_64 => "x86_64"@,
            Abi::X86 => "x86"@,
        }
    }

    /// The architecture whose directory is called `s`, if there is one.
    pub open spec fn named(s: Seq<char>) -> Option<Abi> {
        if s == "arm64-v8a"@ {
            Some(Abi::Arm64V8a)
        } else if s == "armeabi-v7a"@ {
            Some(Abi::ArmV7a)
        } else if s == "x86_64"@ {
            Some(Abi::X86_64)
        } else if s == "x86"@ {
            Some(Abi::X86)
        } else {
            None
        }
    }

    /// The architecture whose directory is called `s`.
    pub fn from_str_opt(s: &str) -> (r: Option<Abi>)
        ensures
            r == Abi::named(s@),
    {
        if same_text(s, "arm64-v8a") {
            Some(Abi::Arm64V8a)
        } else if same_text(s, "armeabi-v7a") {
            Some(Abi::ArmV7a)
        } else if same_text(s, "x86_64") {
            Some(Abi::X86_64)
        } else if same_text(s, "x86") {
            Some(Abi::X86)
        } else {
            None
        }
    }

    /// The name of the directory that holds the architecture's libraries.
    pub fn as_str(&self) -> (r: &'static str)
        ensures
            r@ == self.text(),
    {
        match self {
            Abi::Arm64V8a => "arm64-v8a",
            Abi::ArmV7a => "armeabi-v7a",
            Abi::X86_64 => "x86_64",
            Abi::X86 => "x86",
        }
    }
}

/// The four directory names are different, so the name of an architecture tells
/// which one it is.
pub proof fn law_abi_is_told_by_its_name(abi: Abi)
    ensures
        Abi::named(abi.text()) == Some(abi),
{
    reveal_strlit("arm64-v8a");
    reveal_strlit("armeabi-v7a");
    reveal_strlit("x86_64");
    reveal_strlit("x86");
    assert("arm64-v8a"@.len() == 9);
    assert("armeabi-v7a"@.len() == 11);
    assert("x86_64"@.len() == 6);
    assert("x86"@.len() == 3);
}

/// What an archive is for.
#[derive(Debug, Clone, PartialEq, Eq)]
pub struct ApkInfo {
    pub package_name: String,
    pub supported_abis: Vec<Abi>,
}

/// What the manifest of an archive says.
#[derive(Debug, Clone, PartialEq, Eq)]
pub struct AppManifest {
    pub package_name: String,
    pub version_code: Option<i32>,
    pub version_name: Option<String>,
    pub main_activity: Option<String>,
}

/// What an [`AppManifest`] is, as plain values.
pub struct AppManifestModel {
    pub package_name: Seq<char>,
    pub version_code: Option<i32>,
    pub version_name: Option<Seq<char>>,
    pub main_activity: Option<Seq<char>>,
}

impl DeepView for AppManifest {
    type V = AppManifestModel;

    open spec fn deep_view(&self) -> AppManifestModel {
        AppManifestModel {
            package_name: self.package_name@,
            version_code: self.version_code,
            version_name: self.version_name.deep_view(),
            main_activity: self.main_activity.deep_view(),
        }
    }
}

/// The architecture that the name of an archive entry stands for: the entry
/// lies below `lib/`, and the directory right below that names an
/// architecture.
pub open spec fn entry_abi(name: Seq<char>) -> Option<Abi> {
    if has_prefix(name, "lib/"@) && split_on(name, '/').len() > 1 {
        Abi::named(split_on(name, '/')[1])
    } else {
        None
    }
}

/// Tells which architecture the name of an archive entry stands for.
pub fn abi_of_entry(name: &str) -> (r: Option<Abi>)
    ensures
        r == entry_abi(name@),
{
    if !starts_with(name, "lib/") {
        return None;
    }
    let parts = split(name, '/');
    if parts.len() > 1 {
        assert(parts[1]@ == parts.deep_view()[1]);
        Abi::from_str_opt(parts[1].as_str())
    } else {
        None
    }
}

/// The architectures that the first `n` entries stand for, each once, in
/// the order in which they first occur.
pub open spec fn abis_among(names: Seq<Seq<char>>, n: int) -> Seq<Abi>
    decreases n,
{
    if n <= 0 {
        Seq::empty()
    } else {
        let before = abis_among(names, n - 1);
        match entry_abi(names[n - 1]) {
            Some(abi) => if before.contains(abi) {
                before
            } else {
                before.push(abi)
            },
            None => before,
        }
    }
}

fn holds(abis: &Vec<Abi>, abi: Abi) -> (r: bool)
    ensures
        r == abis@.contains(abi),
{
    let mut i: usize = 0;
    while i < abis.len()
        invariant
            i <= abis.len(),
            forall|j: int| 0 <= j < i ==> abis@[j] != abi,
        decreases abis.len() - i,
    {
        if abis[i] == abi {
            return true;
        }
        i += 1;
    }
    false
}

/// The architectures that an archive with these entries has native code
/// for.
pub fn supported_abis(names: &Vec<String>) -> (abis: Vec<Abi>)
    ensures
        abis@ == abis_among(names.deep_view(), names.len() as int),
{
    let mut abis: Vec<Abi> = Vec::new();
    let mut i: usize = 0;
    assert(abis@ =~= abis_among(names.deep_view(), 0));
    while i < names.len()
        invariant
            i <= names.len(),
            abis@ == abis_among(names.deep_view(), i as int),
        decreases names.len() - i,
    {
        assert(names[i as int]@ == names.deep_view()[i as int]);
        match abi_of_entry(names[i].as_str()) {
            Some(abi) => {
                if !holds(&abis, abi) {
                    abis.push(abi);
                }
            },
            None => {},
        }
        i += 1;
    }
    abis
}

/// Where a library of the archive goes: an entry below the directory of
/// the architecture whose name ends in `.so` goes below `target` under the
/// rest of its name. Other entries go nowhere.
pub open spec fn library_target(name: Seq<char>, abi: Abi, target: Seq<char>) -> Option<Seq<char>> {
    let prefix = "lib/"@ + abi.text() + "/"@;
    if has_prefix(name, prefix) && has_suffix(name, ".so"@) {
        Some(joined_path(target, name.subrange(prefix.len() as int, name.len() as int)))
    } else {
        None
    }
}

/// The decimal number that `digits` spell, if they are digits.
pub open spec fn digits_value(digits: Seq<char>) -> Option<int>
    decreases digits.len(),
{
    if digits.len() == 0 {
        Some(0)
    } else {
        let last = digits.last();
        match digits_value(digits.drop_last()) {
            Some(before) => if '0' <= last <= '9' {
                Some(before * 10 + (last as int - '0' as int))
            } else {
                None
            },
            None => None,
        }
    }
}

/// The number that `s` spells: an optional sign and at least one digit,
/// nothing else, and a value that a 32-bit integer holds.
pub open spec fn number(s: Seq<char>) -> Option<i32> {
    let signed = s.len() > 0 && (s[0] == '-' || s[0] == '+');
    let digits = if signed {
        s.drop_first()
    } else {
        s
    };
    if digits.len() == 0 {
        None
    } else {
        match digits_value(digits) {
            Some(value) => {
                let v = if signed && s[0] == '-' {
                    -value
                } else {
                    value
                };
                if i32::MIN <= v <= i32::MAX {
                    Some(v as i32)
                } else {
                    None
                }
            },
            None => None,
        }
    }
}

proof fn lemma_digits_value_grows(digits: Seq<char>)
    requires
        digits_value(digits) is Some,
        digits.len() > 0,
    ensures
        digits_value(digits.drop_last()) is Some,
        digits_value(digits)->Some_0 >= digits_value(digits.drop_last())->Some_0 * 10,
        digits_value(digits.drop_last())->Some_0 >= 0,
    decreases digits.len(),
{
    if digits.drop_last().len() > 0 {
        lemma_digits_value_grows(digits.drop_last());
    }
}

proof fn lemma_digits_prefix(digits: Seq<char>, n: int)
    requires
        0 <= n <= digits.len(),
        digits_value(digits) is Some,
    ensures
        digits_value(digits.take(n)) is Some,
        0 <= digits_value(digits.take(n))->Some_0 <= digits_value(digits)->Some_0,
    decreases digits.len() - n,
{
    if n == digits.len() {
        assert(digits.take(n) =~= digits);
        if digits.len() > 0 {
            lemma_digits_value_grows(digits);
        }
    } else {
        lemma_digits_prefix(digits, n + 1);
        assert(digits.take(n + 1).drop_last() =~= digits.take(n));
        lemma_digits_value_grows(digits.take(n + 1));
    }
}

proof fn lemma_not_digits(digits: Seq<char>, n: int)
    requires
        0 <= n <= digits.len(),
        digits_value(digits.take(n)) is None,
    ensures
        digits_value(digits) is None,
    decreases digits.len() - n,
{
    if n == digits.len() {
        assert(digits.take(n) =~= digits);
    } else {
        assert(digits.take(n + 1).drop_last() =~= digits.take(n));
        lemma_not_digits(digits, n + 1);
    }
}

/// Reads a 32-bit integer in decimal notation.
pub fn parse_number(s: &str) -> (r: Option<i32>)
    ensures
        r == number(s@),
{
    let v = crate::text::to_chars(s);
    let n = v.len();
    if n == 0 {
        return None;
    }
    let negative = v[0] == '-';
    let signed = negative || v[0] == '+';
    let start: usize = if signed {
        1
    } else {
        0
    };
    if start == n {
        assert(v@.drop_first().len() == 0);
        return None;
    }
    let ghost digits = if signed {
        v@.drop_first()
    } else {
        v@
    };
    assert(digits =~= v@.skip(start as int));
    let mut value: i64 = 0;
    let mut i: usize = start;
    assert(digits.take(0) =~= Seq::<char>::empty());
    while i < n
        invariant
            start <= i <= n,
            start < n,
            n == v@.len(),
            v@ == s@,
            signed == (v@[0] == '-' || v@[0] == '+'),
            negative == (v@[0] == '-'),
            digits == v@.skip(start as int),
            digits == if signed {
                v@.drop_first()
            } else {
                v@
            },
            digits_value(digits.take(i - start)) == Some(value as int),
            0 <= value <= 2147483648,
        decreases n - i,
    {
        let c = v[i];
        let ghost head = digits.take(i - start);
        let ghost next = digits.take(i - start + 1);
        assert(next.drop_last() =~= head);
        assert(next.last() == c);
        if c < '0' || c > '9' {
            assert(digits_value(next) is None);
            proof {
                lemma_not_digits(digits, i - start + 1);
            }
            return None;
        }
        let d: i64 = (c as u32 - '0' as u32) as i64;
        value = value * 10 + d;
        if value > 2147483648 {
            proof {
                if digits_value(digits) is Some {
                    lemma_digits_prefix(digits, i - start + 1);
                } else {
                }
            }
            return None;
        }
        i += 1;
    }
    assert(digits.take(n - start) =~= digits);
    if negative {
        Some((-value) as i32)
    } else if value > 2147483647 {
        None
    } else {
        Some(value as i32)
    }
}

/// An element of a decoded manifest: its tag, its attributes in the order
/// of the document, and what it holds.
#[derive(Debug)]
pub struct XmlElement {
    pub tag: String,
    pub attributes: Vec<(String, String)>,
    pub children: Vec<XmlNode>,
}

/// A node of a decoded manifest.
#[derive(Debug)]
pub enum XmlNode {
    Element(XmlElement),
    Cdata(String),
}

/// The value of the last attribute called `name` among the first `n`.
pub open spec fn attribute_among(attributes: Seq<(String, String)>, name: Seq<char>, n: int) -> Option<
    Seq<char>,
>
    decreases n,
{
    if n <= 0 {
        None
    } else if attributes[n - 1].0@ == name {
        Some(attributes[n - 1].1@)
    } else {
        attribute_among(attributes, name, n - 1)
    }
}

impl XmlElement {
    /// The value of the attribute `name`. Where the document gives an
    /// attribute twice, the later value counts.
    pub open spec fn attribute(&self, name: Seq<char>) -> Option<Seq<char>> {
        attribute_among(self.attributes@, name, self.attributes@.len() as int)
    }

    /// Whether the `i`-th child is an element with the tag `tag`.
    pub open spec fn child_is(&self, i: int, tag: Seq<char>) -> bool {
        0 <= i < self.children@.len() && (self.children@[i] matches XmlNode::Element(child)
            && child.tag@ == tag)
    }

    /// The `i`-th child, where it is an element.
    pub open spec fn child(&self, i: int) -> XmlElement {
        self.children@[i]->Element_0
    }

    /// Whether the element, an intent filter, names the main action.
    pub open spec fn names_main_action(&self) -> bool {
        exists|i: int|
            #[trigger] self.child_is(i, "action"@) && self.child(i).attribute("android:name"@)
                == Some("android.intent.action.MAIN"@)
    }

    /// Whether the element, an activity, has an intent filter for the main
    /// action.
    pub open spec fn has_main_filter(&self) -> bool {
        exists|i: int|
            #[trigger] self.child_is(i, "intent-filter"@) && self.child(i).names_main_action()
    }

    /// Whether the `j`-th child of the `i`-th child is an activity that can
    /// be started as the main activity: it is an activity of an
    /// application, it has a name, and one of its intent filters names the
    /// main action.
    pub open spec fn is_main_activity(&self, i: int, j: int) -> bool {
        &&& self.child_is(i, "application"@)
        &&& self.child(i).child_is(j, "activity"@)
        &&& self.child(i).child(j).has_main_filter()
        &&& self.child(i).child(j).attribute("android:name"@) is Some
    }

    /// Whether `(a, b)` comes before `(i, j)` in the order of the document.
    pub open spec fn precedes(a: int, b: int, i: int, j: int) -> bool {
        a < i || (a == i && b < j)
    }

    /// Whether the main activity is the `j`-th child of the `i`-th child:
    /// the first in the document that can be started as one.
    pub open spec fn main_activity_at(&self, i: int, j: int) -> bool {
        &&& self.is_main_activity(i, j)
        &&& forall|a: int, b: int|
            Self::precedes(a, b, i, j) ==> !#[trigger] self.is_main_activity(a, b)
    }

    /// Looks up the attribute `name`.
    pub fn get_attribute(&self, name: &str) -> (r: Option<&str>)
        ensures
            text_of(r) == self.attribute(name@),
    {
        let mut i: usize = self.attributes.len();
        while i > 0
            invariant
                i <= self.attributes.len(),
                self.attribute(name@) == attribute_among(self.attributes@, name@, i as int),
            decreases i,
        {
            if same_text(self.attributes[i - 1].0.as_str(), name) {
                return Some(self.attributes[i - 1].1.as_str());
            }
            i -= 1;
        }
        None
    }

    fn element_at(&self, i: usize, tag: &str) -> (r: Option<&XmlElement>)
        requires
            i < self.children.len(),
        ensures
            r is Some <==> self.child_is(i as int, tag@),
            r matches Some(child) ==> *child == self.child(i as int),
    {
        match &self.children[i] {
            XmlNode::Element(child) => {
                if same_text(child.tag.as_str(), tag) {
                    Some(child)
                } else {
                    None
                }
            },
            XmlNode::Cdata(_) => None,
        }
    }

    fn declares_main_action(&self) -> (r: bool)
        ensures
            r == self.names_main_action(),
    {
        let mut i: usize = 0;
        while i < self.children.len()
            invariant
                i <= self.children.len(),
                forall|k: int|
                    0 <= k < i ==> !(#[trigger] self.child_is(k, "action"@) && self.child(
                        k,
                    ).attribute("android:name"@) == Some("android.intent.action.MAIN"@)),
            decreases self.children.len() - i,
        {
            match self.element_at(i, "action") {
                Some(action) => {
                    match action.get_attribute("android:name") {
                        Some(name) => {
                            if same_text(name, "android.intent.action.MAIN") {
                                assert(self.child_is(i as int, "action"@));
                                return true;
                            }
                        },
                        None => {},
                    }
                },
                None => {},
            }
            i += 1;
        }
        false
    }

    /// Tells whether the element, an activity, has an intent filter for the
    /// main action.
    pub fn has_main_intent_filter(&self) -> (r: bool)
        ensures
            r == self.has_main_filter(),
    {
        let mut i: usize = 0;
        while i < self.children.len()
            invariant
                i <= self.children.len(),
                forall|k: int|
                    0 <= k < i ==> !(#[trigger] self.child_is(k, "intent-filter"@) && self.child(
                        k,
                    ).names_main_action()),
            decreases self.children.len() - i,
        {
            match self.element_at(i, "intent-filter") {
                Some(filter) => {
                    if filter.declares_main_action() {
                        assert(self.child_is(i as int, "intent-filter"@));
                        return true;
                    }
                },
                None => {},
            }
            i += 1;
        }
        false
    }

    fn main_activity_in(&self, i: usize) -> (r: Option<(usize, String)>)
        requires
            self.child_is(i as int, "application"@),
        ensures
            r is None <==> forall|j: int| !#[trigger] self.is_main_activity(i as int, j),
            r matches Some((j, name)) ==> self.is_main_activity(i as int, j as int)
                && self.child(i as int).child(j as int).attribute("android:name"@) == Some(name@)
                && forall|b: int| b < j ==> !#[trigger] self.is_main_activity(i as int, b),
    {
        let app = match &self.children[i] {
            XmlNode::Element(app) => app,
            XmlNode::Cdata(_) => {
                return None;
            },
        };
        let mut j: usize = 0;
        while j < app.children.len()
            invariant
                j <= app.children.len(),
                self.child_is(i as int, "application"@),
                *app == self.child(i as int),
                forall|b: int| b < j ==> !#[trigger] self.is_main_activity(i as int, b),
            decreases app.children.len() - j,
        {
            match app.element_at(j, "activity") {
                Some(activity) => {
                    if activity.has_main_intent_filter() {
                        match activity.get_attribute("android:name") {
                            Some(name) => {
                                assert(self.is_main_activity(i as int, j as int));
                                return Some((j, String::from_str(name)));
                            },
                            None => {},
                        }
                    }
                },
                None => {},
            }
            j += 1;
        }
        None
    }

    /// Finds the main activity of a manifest: the name of the first activity
    /// of an application that has a name and an intent filter for the main
    /// action.
    pub fn find_main_activity(&self) -> (r: Option<String>)
        ensures
            r is None <==> forall|i: int, j: int| !#[trigger] self.is_main_activity(i, j),
            r matches Some(name) ==> exists|i: int, j: int|
                #[trigger] self.main_activity_at(i, j) && self.child(i).child(j).attribute(
                    "android:name"@,
                ) == Some(name@),
    {
        let mut i: usize = 0;
        while i < self.children.len()
            invariant
                i <= self.children.len(),
                forall|a: int, b: int| a < i ==> !#[trigger] self.is_main_activity(a, b),
            decreases self.children.len() - i,
        {
            if self.element_at(i, "application").is_some() {
                match self.main_activity_in(i) {
                    Some((j, name)) => {
                        assert(self.main_activity_at(i as int, j as int));
                        return Some(name);
                    },
                    None => {},
                }
            }
            i += 1;
        }
        None
    }
}

/// A manifest that cannot be used, and why.
pub open spec fn manifest_failure(message: Seq<char>) -> ErrorModel {
    ErrorModel { kind: ErrorKind::Archive, message }
}

/// The package that a decoded manifest names: the `package` attribute of
/// its root, which must be a `manifest` element.
pub fn extract_package_name(root: &Option<XmlNode>) -> (r: Result<String, SandboxError>)
    ensures
        r is Ok <==> (*root matches Some(XmlNode::Element(element)) && element.tag@ == "manifest"@
            && element.attribute("package"@) is Some),
        r matches Ok(name) ==> Some(name@) == root->Some_0->Element_0.attribute("package"@),
        r matches Err(e) ==> e.deep_view() == manifest_failure(
            "Could not find package attribute in AndroidManifest.xml"@,
        ),
{
    match root {
        Some(XmlNode::Element(element)) => {
            if same_text(element.tag.as_str(), "manifest") {
                match element.get_attribute("package") {
                    Some(package) => {
                        return Ok(String::from_str(package));
                    },
                    None => {},
                }
            }
        },
        _ => {},
    }
    Err(
        SandboxError::new(
            ErrorKind::Archive,
            String::from_str("Could not find package attribute in AndroidManifest.xml"),
        ),
    )
}

/// Looks into an archive.
#[derive(Debug, Clone, PartialEq, Eq)]
pub struct ApkInspector {
    pub path: String,
}

impl ApkInspector {
    /// An inspector for the archive at `path`.
    pub fn new(path: &str) -> (inspector: ApkInspector)
        ensures
            inspector.path@ == path@,
    {
        ApkInspector { path: String::from_str(path) }
    }

    /// Says what the archive is for, from the names of its entries and its
    /// decoded manifest.
    pub fn inspect(&self, names: &Vec<String>, root: &Option<XmlNode>) -> (r: Result<
        ApkInfo,
        SandboxError,
    >)
        ensures
            r is Ok <==> (*root matches Some(XmlNode::Element(element)) && element.tag@
                == "manifest"@ && element.attribute("package"@) is Some),
            r matches Ok(info) ==> Some(info.package_name@)
                == root->Some_0->Element_0.attribute("package"@) && info.supported_abis@
                == abis_among(names.deep_view(), names.len() as int),
            r matches Err(e) ==> e.deep_view() == manifest_failure(
                "Could not find package attribute in AndroidManifest.xml"@,
            ),
    {
        let abis = supported_abis(names);
        match extract_package_name(root) {
            Ok(package_name) => Ok(ApkInfo { package_name, supported_abis: abis }),
            Err(error) => Err(error),
        }
    }

    /// Says where the entry `name` of the archive is unpacked to, if it is a
    /// library for `abi`.
    pub fn extract_libs(&self, name: &str, target_dir: &str, abi: &Abi) -> (r: Option<String>)
        ensures
            r.deep_view() == library_target(name@, *abi, target_dir@),
    {
        let mut prefix = String::from_str("lib/");
        prefix.append(abi.as_str());
        prefix.append("/");
        if starts_with(name, prefix.as_str()) && ends_with(name, ".so") {
            let skip = prefix.as_str().unicode_len();
            let total = name.unicode_len();
            let rest = slice(name, skip, total);
            Some(join(target_dir, rest.as_str()))
        } else {
            None
        }
    }

    /// Reads the decoded manifest: the package, the version, and the main
    /// activity. The root must be a `manifest` element that names a
    /// package; a document without a root gives an empty manifest.
    pub fn parse_manifest(&self, root: &Option<XmlNode>) -> (r: Result<AppManifest, SandboxError>)
        ensures
            match *root {
                Some(XmlNode::Element(element)) => if element.tag@ != "manifest"@ {
                    r matches Err(e) && e.deep_view() == manifest_failure(
                        "Root element is not <manifest>"@,
                    )
                } else if element.attribute("package"@) is None {
                    r matches Err(e) && e.deep_view() == manifest_failure(
                        "Missing package attribute in manifest"@,
                    )
                } else {
                    &&& r matches Ok(manifest)
                    &&& Some(manifest.package_name@) == element.attribute("package"@)
                    &&& manifest.version_code == (match element.attribute(
                        "android:versionCode"@,
                    ) {
                        Some(code) => number(code),
                        None => None,
                    })
                    &&& manifest.version_name.deep_view() == element.attribute(
                        "android:versionName"@,
                    )
                    &&& manifest.main_activity is None <==> forall|i: int, j: int|
                        !#[trigger] element.is_main_activity(i, j)
                    &&& manifest.main_activity matches Some(name) ==> exists|i: int, j: int|
                        #[trigger] element.main_activity_at(i, j) && element.child(i).child(
                            j,
                        ).attribute("android:name"@) == Some(name@)
                },
                _ => r matches Ok(manifest) && manifest.deep_view() == (AppManifestModel {
                    package_name: Seq::empty(),
                    version_code: None,
                    version_name: None,
                    main_activity: None,
                }),
            },
    {
        let element = match root {
            Some(XmlNode::Element(element)) => element,
            _ => {
                return Ok(
                    AppManifest {
                        package_name: String::new(),
                        version_code: None,
                        version_name: None,
                        main_activity: None,
                    },
                );
            },
        };
        if !same_text(element.tag.as_str(), "manifest") {
            return Err(
                SandboxError::new(
                    ErrorKind::Archive,
                    String::from_str("Root element is not <manifest>"),
                ),
            );
        }
        let package_name = match element.get_attribute("package") {
            Some(package) => String::from_str(package),
            None => {
                return Err(
                    SandboxError::new(
                        ErrorKind::Archive,
                        String::from_str("Missing package attribute in manifest"),
                    ),
                );
            },
        };
        let version_code = match element.get_attribute("android:versionCode") {
            Some(code) => parse_number(code),
            None => None,
        };
        let version_name = match element.get_attribute("android:versionName") {
            Some(name) => Some(String::from_str(name)),
            None => None,
        };
        let main_activity = element.find_main_activity();
        Ok(AppManifest { package_name, version_code, version_name, main_activity })
    }
}

} // verus!

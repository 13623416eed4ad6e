//! Names: the registry's qualified type names, and the spellings derived from
//! names that the generated code uses.
use vstd::prelude::*;

use super::text::same_text;

verus! {

/// The namespace a registered type lives in.
#[derive(Debug, Clone)]
pub enum Namespace {
    /// The root namespace (no namespace prefix).
    Root,
    /// A named namespace.
    Named(String),
}

/// A type's name in the registry: its namespace and its simple name.
#[derive(Debug, Clone)]
pub struct QualifiedTypeName {
    pub namespace: Namespace,
    pub name: String,
}

/// A qualified name as plain values: the namespace (`None` for the root) and
/// the simple name.
pub type QualifiedNameView = (Option<Seq<char>>, Seq<char>);

impl View for Namespace {
    type V = Option<Seq<char>>;

    open spec fn view(&self) -> Option<Seq<char>> {
        match self {
            Namespace::Root => None,
            Namespace::Named(n) => Some(n@),
        }
    }
}

impl View for QualifiedTypeName {
    type V = QualifiedNameView;

    open spec fn view(&self) -> QualifiedNameView {
        (self.namespace@, self.name@)
    }
}

impl Namespace {
    /// Whether this is the root namespace.
    pub fn is_root(&self) -> (b: bool)
        ensures
            b == (self@ is None),
    {
        match self {
            Namespace::Root => true,
            Namespace::Named(_) => false,
        }
    }
}

impl QualifiedTypeName {
    /// A name in the root namespace.
    pub fn root(name: &str) -> (q: Self)
        ensures
            q@ == (None::<Seq<char>>, name@),
    {
        QualifiedTypeName { namespace: Namespace::Root, name: String::from_str(name) }
    }

    /// A name in the namespace `namespace`.
    pub fn named(namespace: &str, name: &str) -> (q: Self)
        ensures
            q@ == (Some(namespace@), name@),
    {
        QualifiedTypeName {
            namespace: Namespace::Named(String::from_str(namespace)),
            name: String::from_str(name),
        }
    }

    /// Whether two qualified names are the same name.
    pub fn same_as(&self, other: &QualifiedTypeName) -> (b: bool)
        ensures
            b == (self@ == other@),
    {
        let same_ns = match (&self.namespace, &other.namespace) {
            (Namespace::Root, Namespace::Root) => true,
            (Namespace::Named(a), Namespace::Named(b)) => same_text(a.as_str(), b.as_str()),
            _ => false,
        };
        same_ns && same_text(self.name.as_str(), other.name.as_str())
    }

    /// An owned copy, with the same name.
    pub fn copy(&self) -> (q: Self)
        ensures
            q@ == self@,
            q == *self,
    {
        let namespace = match &self.namespace {
            Namespace::Root => Namespace::Root,
            Namespace::Named(n) => Namespace::Named(n.clone()),
        };
        QualifiedTypeName { namespace, name: self.name.clone() }
    }
}

/// The position of the last `c` in `s`, or `-1` when there is none.
pub open spec fn last_index_of(s: Seq<char>, c: char) -> int
    decreases s.len(),
{
    if s.len() == 0 {
        -1
    } else if s.last() == c {
        s.len() - 1
    } else {
        last_index_of(s.drop_last(), c)
    }
}

/// What follows the last `c` in `s`; all of `s` when it holds no `c`.
pub open spec fn last_segment(s: Seq<char>, c: char) -> Seq<char> {
    s.subrange(last_index_of(s, c) + 1, s.len() as int)
}

/// `s` without the run of `c` it ends in.
pub open spec fn trim_end(s: Seq<char>, c: char) -> Seq<char>
    decreases s.len(),
{
    if s.len() > 0 && s.last() == c {
        trim_end(s.drop_last(), c)
    } else {
        s
    }
}

/// The part of `s` after its last `sep`; all of `s` when it holds none.
pub fn after_last<'a>(s: &'a str, sep: char) -> (res: &'a str)
    ensures
        res@ == last_segment(s@, sep),
{
    let len = s.unicode_len();
    let mut i: usize = len;
    while i > 0
        invariant_except_break
            len == s@.len(),
            0 <= i <= len,
            forall|j: int| i <= j < len ==> s@[j] != sep,
        ensures
            len == s@.len(),
            0 <= i <= len,
            forall|j: int| i <= j < len ==> s@[j] != sep,
            i > 0 ==> s@[i - 1] == sep,
        decreases i,
    {
        if s.get_char(i - 1) == sep {
            break;
        }
        i = i - 1;
    }
    proof {
        lemma_last_is_last(s@, sep, i as int);
    }
    s.substring_char(i, len)
}

proof fn lemma_last_is_last(s: Seq<char>, c: char, i: int)
    requires
        0 <= i <= s.len(),
        i > 0 ==> s[i - 1] == c,
        forall|j: int| i <= j < s.len() ==> s[j] != c,
    ensures
        last_index_of(s, c) == i - 1,
    decreases s.len(),
{
    if s.len() > 0 && s.last() != c {
        lemma_last_is_last(s.drop_last(), c, i);
    }
}

/// `s` without the run of `c` it ends in.
pub fn trim_end_char<'a>(s: &'a str, c: char) -> (res: &'a str)
    ensures
        res@ == trim_end(s@, c),
{
    let len = s.unicode_len();
    let mut i: usize = len;
    proof {
        assert(s@.subrange(0, len as int) == s@);
    }
    while i > 0
        invariant_except_break
            len == s@.len(),
            0 <= i <= len,
            trim_end(s@.subrange(0, i as int), c) == trim_end(s@, c),
        ensures
            len == s@.len(),
            0 <= i <= len,
            trim_end(s@.subrange(0, i as int), c) == trim_end(s@, c),
            i > 0 ==> s@[i - 1] != c,
        decreases i,
    {
        if s.get_char(i - 1) != c {
            break;
        }
        proof {
            assert(s@.subrange(0, i as int).drop_last() == s@.subrange(0, i - 1));
        }
        i = i - 1;
    }
    s.substring_char(0, i)
}

/// The name of the Swift package at `package_path`: its last path segment,
/// ignoring trailing slashes.
pub fn package_name(package_path: &str) -> (res: &str)
    ensures
        res@ == last_segment(trim_end(package_path@, '/'), '/'),
{
    let trimmed = trim_end_char(package_path, '/');
    after_last(trimmed, '/')
}

/// heck's lower camel case of `s`: a pure function of the characters of `s`.
pub uninterp spec fn heck_lower_camel(s: Seq<char>) -> Seq<char>;

/// heck's upper camel case of `s`: a pure function of the characters of `s`.
pub uninterp spec fn heck_upper_camel(s: Seq<char>) -> Seq<char>;

/// Calls `heck::ToLowerCamelCase::to_lower_camel_case`, whose result is named
/// `heck_lower_camel` of the input's characters; nothing more is claimed of
/// it.
#[verifier::external_body]
fn heck_to_lower_camel_case(s: &str) -> (res: String)
    ensures
        res@ == heck_lower_camel(s@),
{
    heck::ToLowerCamelCase::to_lower_camel_case(s)
}

/// Calls `heck::ToUpperCamelCase::to_upper_camel_case`, whose result is named
/// `heck_upper_camel` of the input's characters; nothing more is claimed of
/// it.
#[verifier::external_body]
fn heck_to_upper_camel_case(s: &str) -> (res: String)
    ensures
        res@ == heck_upper_camel(s@),
{
    heck::ToUpperCamelCase::to_upper_camel_case(s)
}

/// The lower-camel-cased form the Kotlin, Swift and TypeScript emitters use
/// for a member derived from a type or variant name.
pub fn lower_camel(name: &str) -> (res: String)
    ensures
        res@ == heck_lower_camel(name@),
{
    heck_to_lower_camel_case(name)
}

/// The upper-camel-cased form of `name`, as heck spells it.
pub fn upper_camel(name: &str) -> (res: String)
    ensures
        res@ == heck_upper_camel(name@),
{
    heck_to_upper_camel_case(name)
}

/// The base name of the file a package or namespace writes its own module
/// into: the last dotted segment, upper camel cased.
pub fn module_file_stem(package_name: &str) -> (res: String)
    ensures
        res@ == heck_upper_camel(last_segment(package_name@, '.')),
{
    heck_to_upper_camel_case(after_last(package_name, '.'))
}

} // verus!

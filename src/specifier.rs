//! Package-protocol specifiers: parsing them into a package request, the map
//! from resolved specifiers to entry files, and the resolution policy.

use vstd::prelude::*;
use crate::source::{chars_of, has_prefix, starts_with};

verus! {

/// The prefix that marks a specifier as a registry package.
pub const PACKAGE_PROTOCOL: &'static str = "npm:";

/// A package name with an exact version, or none for the latest one.
#[derive(Debug, Clone)]
pub struct PackageRequest {
    pub name: String,
    pub version: Option<String>,
}

/// Where the search for the version separator starts: after the leading `@`
/// of a scoped name, else at the start.
pub open spec fn scope_start(s: Seq<char>) -> int {
    if s.len() > 0 && s[0] == '@' {
        1
    } else {
        0
    }
}

/// `i` is the last `@` at or after the scope start: the one that separates
/// the version.
pub open spec fn version_separator(s: Seq<char>, i: int) -> bool {
    scope_start(s) <= i < s.len() && s[i] == '@' && forall|j: int| i < j < s.len() ==> s[j] != '@'
}

/// The name and version that a package spec (the text after the protocol
/// prefix) stands for.
pub open spec fn request_parts(s: Seq<char>, name: Seq<char>, version: Option<Seq<char>>) -> bool {
    (exists|i: int| version_separator(s, i) && name == s.take(i) && version == Some(s.skip(i + 1)))
        || ((forall|i: int| !version_separator(s, i)) && name == s && version is None)
}

impl PackageRequest {
    pub open spec fn version_view(&self) -> Option<Seq<char>> {
        match self.version {
            Some(v) => Some(v@),
            None => None,
        }
    }
}

/// Splits a package spec such as `name`, `name@1.0.0`, `@scope/name` or
/// `@scope/name@1.0.0` into name and version.
pub fn parse_package_spec(spec: &str) -> (r: PackageRequest)
    ensures
        request_parts(spec@, r.name@, r.version_view()),
{
    let cs = chars_of(spec);
    let start: usize = if cs.len() > 0 && cs[0] == '@' { 1 } else { 0 };
    let mut i: usize = cs.len();
    while i > start
        invariant
            cs@ == spec@,
            start == scope_start(spec@),
            start <= i <= cs@.len(),
            forall|j: int| i <= j < cs@.len() ==> cs@[j] != '@',
        decreases i,
    {
        if cs[i - 1] == '@' {
            let at = i - 1;
            let name = String::from_str(spec.substring_char(0, at));
            let version = String::from_str(spec.substring_char(at + 1, cs.len()));
            assert(version_separator(spec@, at as int));
            assert(name@ =~= spec@.take(at as int));
            assert(version@ =~= spec@.skip(at + 1));
            return PackageRequest { name, version: Some(version) };
        }
        i = i - 1;
    }
    PackageRequest { name: String::from_str(spec), version: None }
}

/// The package request behind a package-protocol specifier, or none where
/// the specifier lacks the protocol prefix.
pub fn package_request(specifier: &str) -> (r: Option<PackageRequest>)
    ensures
        has_prefix(specifier@, PACKAGE_PROTOCOL@) <==> r is Some,
        r matches Some(req) ==> request_parts(
            specifier@.skip(PACKAGE_PROTOCOL@.len() as int),
            req.name@,
            req.version_view(),
        ),
{
    if !starts_with(specifier, PACKAGE_PROTOCOL) {
        return None;
    }
    let n = specifier.unicode_len();
    let p = PACKAGE_PROTOCOL.unicode_len();
    let rest = specifier.substring_char(p, n);
    assert(rest@ =~= specifier@.skip(PACKAGE_PROTOCOL@.len() as int));
    Some(parse_package_spec(rest))
}

/// The value stored last under `key` among `entries`.
pub open spec fn lookup(entries: Seq<(Seq<char>, Seq<char>)>, key: Seq<char>) -> Option<Seq<char>>
    decreases entries.len(),
{
    if entries.len() == 0 {
        None
    } else if entries.last().0 == key {
        Some(entries.last().1)
    } else {
        lookup(entries.drop_last(), key)
    }
}

/// Maps each package-protocol specifier that was loaded to the local path of
/// its entry file, so that imports relative to that module can be resolved.
/// The entries are kept in a `Vec`, the last one for a key winning: vstd's
/// `HashMap` specification proves next to nothing about lookups by `String`
/// keys, while a scan of a `Vec` is proved exactly.
#[derive(Debug, Clone)]
pub struct SpecifierPathMap {
    entries: Vec<(String, String)>,
}

impl SpecifierPathMap {
    pub closed spec fn entries_view(&self) -> Seq<(Seq<char>, Seq<char>)> {
        self.entries@.map_values(|e: (String, String)| (e.0@, e.1@))
    }

    /// The path recorded for `key`, if any.
    pub open spec fn path_of(&self, key: Seq<char>) -> Option<Seq<char>> {
        lookup(self.entries_view(), key)
    }

    pub fn new() -> (r: Self)
        ensures
            forall|k: Seq<char>| r.path_of(k) is None,
    {
        let r = SpecifierPathMap { entries: Vec::new() };
        assert(r.entries_view().len() == 0);
        r
    }

    /// Records `path` for `specifier`, replacing what was recorded before.
    pub fn insert(&mut self, specifier: String, path: String)
        ensures
            final(self).path_of(specifier@) == Some(path@),
            forall|k: Seq<char>| k != specifier@ ==> final(self).path_of(k) == old(self).path_of(k),
    {
        let ghost key = specifier@;
        let ghost val = path@;
        self.entries.push((specifier, path));
        assert(self.entries_view().drop_last() =~= old(self).entries_view());
        assert(self.entries_view().last() == (key, val));
    }

    /// The path recorded for `specifier`.
    pub fn get(&self, specifier: &String) -> (r: Option<String>)
        ensures
            r matches Some(p) ==> self.path_of(specifier@) == Some(p@),
            r is None ==> self.path_of(specifier@) is None,
    {
        let mut i: usize = self.entries.len();
        assert(self.entries_view().take(i as int) =~= self.entries_view());
        while i > 0
            invariant
                i <= self.entries@.len(),
                lookup(self.entries_view(), specifier@) == lookup(self.entries_view().take(i as int), specifier@),
            decreases i,
        {
            let ghost t = self.entries_view().take(i as int);
            assert(t.drop_last() =~= self.entries_view().take(i - 1));
            if self.entries[i - 1].0 == *specifier {
                return Some(self.entries[i - 1].1.clone());
            }
            i = i - 1;
        }
        None
    }
}

/// How a module specifier is to be resolved.
#[derive(Debug, Clone)]
pub enum Resolution {
    /// A package-protocol specifier: kept as it is, resolved when loaded.
    Deferred,
    /// Resolved by the filesystem, relative to this referrer.
    Filesystem { referrer: String },
    /// The referrer is a package-protocol specifier that was never loaded.
    UnknownReferrer,
}

/// The resolution policy: package specifiers are deferred; a specifier
/// inside a package module resolves against that module's recorded entry
/// path; everything else resolves against the referrer as given.
pub fn resolve_specifier(map: &SpecifierPathMap, specifier: &str, referrer: &String) -> (r: Resolution)
    ensures
        has_prefix(specifier@, PACKAGE_PROTOCOL@) ==> r is Deferred,
        !has_prefix(specifier@, PACKAGE_PROTOCOL@) && has_prefix(referrer@, PACKAGE_PROTOCOL@) ==> match map.path_of(referrer@) {
            Some(p) => r matches Resolution::Filesystem { referrer: q } && q@ == p,
            None => r is UnknownReferrer,
        },
        !has_prefix(specifier@, PACKAGE_PROTOCOL@) && !has_prefix(referrer@, PACKAGE_PROTOCOL@) ==> (
            r matches Resolution::Filesystem { referrer: q } && q@ == referrer@),
{
    if starts_with(specifier, PACKAGE_PROTOCOL) {
        Resolution::Deferred
    } else if starts_with(referrer.as_str(), PACKAGE_PROTOCOL) {
        match map.get(referrer) {
            Some(p) => Resolution::Filesystem { referrer: p },
            None => Resolution::UnknownReferrer,
        }
    } else {
        Resolution::Filesystem { referrer: referrer.clone() }
    }
}

} // verus!

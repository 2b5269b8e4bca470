//! The package resolver's rules: where a package lives in the cache, how its
//! version and tarball are read from registry metadata, and which files of
//! its manifest are the entry point and the type definitions.

use vstd::prelude::*;
use crate::json::{json_node_at, json_str_at, key_views, json_valid, is_json, json_lookup, string_at, JsonNode, JsonView};

verus! {

/// The registry that packages come from unless another is named.
pub const DEFAULT_REGISTRY_URL: &'static str = "https://registry.npmjs.org";

/// The directory under the platform cache directory that holds the packages.
pub const CACHE_SUBDIR: &'static str = "executejs/npm";

/// The directory inside a package directory into which the tarball unpacks.
pub const PACKAGE_SUBDIR: &'static str = "package";

/// The manifest file of a package.
pub const MANIFEST_FILE: &'static str = "package.json";

/// The entry file used where the manifest names none.
pub const DEFAULT_ENTRY: &'static str = "index.js";

/// `base` and `part` joined by a path separator.
pub open spec fn join_path(base: Seq<char>, part: Seq<char>) -> Seq<char> {
    base + seq!['/'] + part
}

/// Joins two path pieces with a separator.
pub fn join(base: &str, part: &str) -> (r: String)
    ensures
        r@ == join_path(base@, part@),
{
    let mut r = String::from_str(base);
    r.append("/");
    r.append(part);
    proof {
        reveal_strlit("/");
    }
    assert(r@ =~= join_path(base@, part@));
    r
}

/// Why registry metadata or a manifest could not be used.
#[derive(Debug, Clone, Copy, PartialEq, Eq, Structural)]
pub enum ResolveError {
    /// The registry metadata is not JSON.
    InvalidMetadata,
    /// The metadata has no latest tag, or no versions member.
    LatestVersionMissing,
    /// The metadata has no record of the requested version.
    VersionNotFound,
    /// The version record names no tarball.
    TarballUrlNotFound,
    /// The package manifest is not JSON.
    InvalidManifest,
}

/// The description of each error.
pub open spec fn error_text(e: ResolveError) -> Seq<char> {
    match e {
        ResolveError::InvalidMetadata => "레지스트리 응답을 해석할 수 없습니다"@,
        ResolveError::LatestVersionMissing => "최신 버전을 찾을 수 없습니다"@,
        ResolveError::VersionNotFound => "패키지 버전을 찾을 수 없습니다"@,
        ResolveError::TarballUrlNotFound => "tarball URL을 찾을 수 없습니다"@,
        ResolveError::InvalidManifest => "package.json을 해석할 수 없습니다"@,
    }
}

impl ResolveError {
    /// A description of the error for a person to read.
    pub fn message(&self) -> (r: String)
        ensures
            r@ == error_text(*self),
    {
        match self {
            ResolveError::InvalidMetadata => String::from_str("레지스트리 응답을 해석할 수 없습니다"),
            ResolveError::LatestVersionMissing => String::from_str("최신 버전을 찾을 수 없습니다"),
            ResolveError::VersionNotFound => String::from_str("패키지 버전을 찾을 수 없습니다"),
            ResolveError::TarballUrlNotFound => String::from_str("tarball URL을 찾을 수 없습니다"),
            ResolveError::InvalidManifest => String::from_str("package.json을 해석할 수 없습니다"),
        }
    }
}

/// The file that a conditional export names: the string itself, or the
/// `default` string of an object.
pub open spec fn condition_target(m: Seq<char>, cond: Seq<Seq<char>>) -> Option<Seq<char>> {
    match json_node_at(m, cond) {
        Some(JsonView::Str(s)) => Some(s),
        Some(JsonView::Object) => json_str_at(m, cond.push("default"@)),
        _ => None,
    }
}

/// The first file that the ECMAScript-module-first priority finds in a
/// manifest: `exports["."].import`, then `module`, then `exports["."]` as a
/// string, then `exports["."].require`, then `main`.
pub open spec fn entry_in_manifest(m: Seq<char>) -> Option<Seq<char>> {
    let import = condition_target(m, seq!["exports"@, "."@, "import"@]);
    let module = json_str_at(m, seq!["module"@]);
    let dot = json_str_at(m, seq!["exports"@, "."@]);
    let require = condition_target(m, seq!["exports"@, "."@, "require"@]);
    let main = json_str_at(m, seq!["main"@]);
    if import is Some {
        import
    } else if module is Some {
        module
    } else if dot is Some {
        dot
    } else if require is Some {
        require
    } else {
        main
    }
}

/// The entry file that a manifest names, or the default one.
pub open spec fn entry_name(m: Seq<char>) -> Seq<char> {
    match entry_in_manifest(m) {
        Some(e) => e,
        None => DEFAULT_ENTRY@,
    }
}

/// The type-definition file that a manifest names: `types`, else `typings`.
pub open spec fn types_name(m: Seq<char>) -> Option<Seq<char>> {
    let types = json_str_at(m, seq!["types"@]);
    if types is Some {
        types
    } else {
        json_str_at(m, seq!["typings"@])
    }
}

/// The latest version that registry metadata tags, where it has one and a
/// versions member.
pub open spec fn latest_in_metadata(m: Seq<char>) -> Option<Seq<char>> {
    if json_node_at(m, seq!["versions"@]) is Some {
        json_str_at(m, seq!["dist-tags"@, "latest"@])
    } else {
        None
    }
}

/// The tarball URL that registry metadata gives for `version`.
pub open spec fn tarball_in_metadata(m: Seq<char>, version: Seq<char>) -> Option<Seq<char>> {
    if json_node_at(m, seq!["versions"@, version]) == Some(JsonView::Object) {
        json_str_at(m, seq!["versions"@, version, "dist"@, "tarball"@])
    } else {
        None
    }
}

/// What reading the latest version out of registry metadata gives.
pub open spec fn latest_result(m: Seq<char>) -> Result<Seq<char>, ResolveError> {
    if !json_valid(m) {
        Err(ResolveError::InvalidMetadata)
    } else {
        match latest_in_metadata(m) {
            Some(v) => Ok(v),
            None => Err(ResolveError::LatestVersionMissing),
        }
    }
}

/// What reading the tarball URL of `version` out of registry metadata gives.
pub open spec fn tarball_result(m: Seq<char>, version: Seq<char>) -> Result<Seq<char>, ResolveError> {
    if !json_valid(m) {
        Err(ResolveError::InvalidMetadata)
    } else if json_node_at(m, seq!["versions"@, version]) != Some(JsonView::Object) {
        Err(ResolveError::VersionNotFound)
    } else {
        match tarball_in_metadata(m, version) {
            Some(u) => Ok(u),
            None => Err(ResolveError::TarballUrlNotFound),
        }
    }
}

/// A string result by its view.
pub open spec fn result_view(r: Result<String, ResolveError>) -> Result<Seq<char>, ResolveError> {
    match r {
        Ok(s) => Ok(s@),
        Err(e) => Err(e),
    }
}

/// The directory of the unpacked package inside a package directory.
pub open spec fn unpacked_dir(package_dir: Seq<char>) -> Seq<char> {
    join_path(package_dir, PACKAGE_SUBDIR@)
}

/// Resolves package names to directories of a local cache, fetched from a
/// registry.
#[derive(Debug, Clone)]
pub struct NpmResolver {
    cache_dir: String,
    registry_url: String,
}

impl NpmResolver {
    pub closed spec fn cache_dir_view(&self) -> Seq<char> {
        self.cache_dir@
    }

    pub closed spec fn registry_url_view(&self) -> Seq<char> {
        self.registry_url@
    }

    /// A resolver over the default registry whose cache lies in the
    /// packages directory under the platform cache directory `cache_root`.
    pub fn new(cache_root: &str) -> (r: Self)
        ensures
            r.cache_dir_view() == join_path(cache_root@, CACHE_SUBDIR@),
            r.registry_url_view() == DEFAULT_REGISTRY_URL@,
    {
        NpmResolver { cache_dir: join(cache_root, CACHE_SUBDIR), registry_url: String::from_str(DEFAULT_REGISTRY_URL) }
    }

    /// A resolver with the given cache directory and registry.
    pub fn with_cache_dir(cache_dir: String, registry_url: String) -> (r: Self)
        ensures
            r.cache_dir_view() == cache_dir@,
            r.registry_url_view() == registry_url@,
    {
        NpmResolver { cache_dir, registry_url }
    }

    pub fn cache_dir(&self) -> (r: &str)
        ensures
            r@ == self.cache_dir_view(),
    {
        self.cache_dir.as_str()
    }

    pub fn registry_url(&self) -> (r: &str)
        ensures
            r@ == self.registry_url_view(),
    {
        self.registry_url.as_str()
    }

    /// The registry address of a package's metadata.
    pub fn metadata_url(&self, package_name: &str) -> (r: String)
        ensures
            r@ == join_path(self.registry_url_view(), package_name@),
    {
        join(self.registry_url.as_str(), package_name)
    }

    /// The cache directory of one version of a package.
    pub fn package_dir(&self, package_name: &str, version: &str) -> (r: String)
        ensures
            r@ == join_path(join_path(self.cache_dir_view(), package_name@), version@),
    {
        let d = join(self.cache_dir.as_str(), package_name);
        join(d.as_str(), version)
    }

    /// The manifest inside a package directory, whose presence marks the
    /// package as cached.
    pub fn manifest_path(&self, package_dir: &str) -> (r: String)
        ensures
            r@ == join_path(unpacked_dir(package_dir@), MANIFEST_FILE@),
    {
        let d = join(package_dir, PACKAGE_SUBDIR);
        join(d.as_str(), MANIFEST_FILE)
    }

    /// The version that registry metadata tags as latest.
    pub fn latest_version(&self, metadata: &str) -> (r: Result<String, ResolveError>)
        ensures
            result_view(r) == latest_result(metadata@),
    {
        if !is_json(metadata) {
            return Err(ResolveError::InvalidMetadata);
        }
        let versions = json_lookup(metadata, &["versions"]);
        proof {
            assert(key_views(["versions"]@) =~= seq!["versions"@]);
            assert(key_views(["dist-tags", "latest"]@) =~= seq!["dist-tags"@, "latest"@]);
        }
        if versions.is_none() {
            return Err(ResolveError::LatestVersionMissing);
        }
        match string_at(metadata, &["dist-tags", "latest"]) {
            Some(v) => Ok(v),
            None => Err(ResolveError::LatestVersionMissing),
        }
    }

    /// The tarball URL that registry metadata gives for a version.
    pub fn tarball_url(&self, metadata: &str, version: &str) -> (r: Result<String, ResolveError>)
        ensures
            result_view(r) == tarball_result(metadata@, version@),
    {
        if !is_json(metadata) {
            return Err(ResolveError::InvalidMetadata);
        }
        let record = json_lookup(metadata, &["versions", version]);
        proof {
            assert(key_views(["versions", version]@) =~= seq!["versions"@, version@]);
            assert(key_views(["versions", version, "dist", "tarball"]@) =~= seq!["versions"@, version@, "dist"@, "tarball"@]);
        }
        match record {
            Some(JsonNode::Object) => {},
            _ => {
                return Err(ResolveError::VersionNotFound);
            },
        }
        match string_at(metadata, &["versions", version, "dist", "tarball"]) {
            Some(u) => Ok(u),
            None => Err(ResolveError::TarballUrlNotFound),
        }
    }

    /// The entry file of an unpacked package, from the text of its manifest:
    /// the file that the ECMAScript-module-first priority picks, inside the
    /// unpacked directory.
    pub fn find_entry_point(&self, package_dir: &str, manifest: &str) -> (r: Result<String, ResolveError>)
        ensures
            !json_valid(manifest@) ==> r == Err::<String, ResolveError>(ResolveError::InvalidManifest),
            json_valid(manifest@) ==> (r matches Ok(p) && p@ == join_path(unpacked_dir(package_dir@), entry_name(manifest@))),
    {
        if !is_json(manifest) {
            return Err(ResolveError::InvalidManifest);
        }
        let name = entry_point_name(manifest);
        let d = join(package_dir, PACKAGE_SUBDIR);
        Ok(join(d.as_str(), name.as_str()))
    }

    /// The type-definition file that the manifest names, inside the unpacked
    /// directory; none where it names none. Whether that file exists is for
    /// the caller to check.
    pub fn find_type_definitions(&self, package_dir: &str, manifest: &str) -> (r: Result<Option<String>, ResolveError>)
        ensures
            !json_valid(manifest@) ==> r == Err::<Option<String>, ResolveError>(ResolveError::InvalidManifest),
            json_valid(manifest@) ==> match types_name(manifest@) {
                Some(t) => r matches Ok(Some(p)) && p@ == join_path(unpacked_dir(package_dir@), t),
                None => r matches Ok(None),
            },
    {
        if !is_json(manifest) {
            return Err(ResolveError::InvalidManifest);
        }
        proof {
            assert(key_views(["types"]@) =~= seq!["types"@]);
            assert(key_views(["typings"]@) =~= seq!["typings"@]);
        }
        let t = match string_at(manifest, &["types"]) {
            Some(t) => Some(t),
            None => string_at(manifest, &["typings"]),
        };
        match t {
            Some(t) => {
                let d = join(package_dir, PACKAGE_SUBDIR);
                Ok(Some(join(d.as_str(), t.as_str())))
            },
            None => Ok(None),
        }
    }
}

/// The file that the conditional export at `cond` names.
fn condition_file(manifest: &str, cond: &[&str], default: &[&str]) -> (r: Option<String>)
    requires
        key_views(default@) == key_views(cond@).push("default"@),
    ensures
        match r {
            Some(f) => condition_target(manifest@, key_views(cond@)) == Some(f@),
            None => condition_target(manifest@, key_views(cond@)) is None,
        },
{
    match json_lookup(manifest, cond) {
        Some(JsonNode::Str(s)) => Some(s),
        Some(JsonNode::Object) => string_at(manifest, default),
        _ => None,
    }
}

/// The entry file that a manifest names, by the ECMAScript-module-first
/// priority, or the default entry.
pub fn entry_point_name(manifest: &str) -> (r: String)
    ensures
        r@ == entry_name(manifest@),
{
    proof {
        assert(key_views(["exports", ".", "import", "default"]@) =~= key_views(["exports", ".", "import"]@).push("default"@));
        assert(key_views(["exports", ".", "import"]@) =~= seq!["exports"@, "."@, "import"@]);
        assert(key_views(["module"]@) =~= seq!["module"@]);
        assert(key_views(["exports", "."]@) =~= seq!["exports"@, "."@]);
        assert(key_views(["exports", ".", "require", "default"]@) =~= key_views(["exports", ".", "require"]@).push("default"@));
        assert(key_views(["exports", ".", "require"]@) =~= seq!["exports"@, "."@, "require"@]);
        assert(key_views(["main"]@) =~= seq!["main"@]);
    }
    if let Some(e) = condition_file(manifest, &["exports", ".", "import"], &["exports", ".", "import", "default"]) {
        return e;
    }
    if let Some(e) = string_at(manifest, &["module"]) {
        return e;
    }
    if let Some(e) = string_at(manifest, &["exports", "."]) {
        return e;
    }
    if let Some(e) = condition_file(manifest, &["exports", ".", "require"], &["exports", ".", "require", "default"]) {
        return e;
    }
    if let Some(e) = string_at(manifest, &["main"]) {
        return e;
    }
    String::from_str(DEFAULT_ENTRY)
}

/// Where a manifest's `exports["."].import` names a file, that file is the
/// entry point, whatever `module`, `main` or the CommonJS export say.
pub proof fn lemma_import_export_wins(m: Seq<char>, target: Seq<char>)
    requires
        condition_target(m, seq!["exports"@, "."@, "import"@]) == Some(target),
    ensures
        entry_name(m) == target,
{
}

/// A manifest whose `exports["."].import` is the string `target` has that
/// file as its entry point, even where `main` names another.
pub proof fn lemma_import_string_beats_main(m: Seq<char>, target: Seq<char>)
    requires
        json_node_at(m, seq!["exports"@, "."@, "import"@]) == Some(JsonView::Str(target)),
    ensures
        entry_name(m) == target,
{
}

} // verus!

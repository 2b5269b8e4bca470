//! Installing a package into the cache, as a machine that decides each next
//! step; the caller performs each step (a request, a check on disk, an
//! unpack) and hands back what came of it.

use vstd::prelude::*;
use crate::resolver::{
    NpmResolver, error_text, join_path, latest_result,
    tarball_result, unpacked_dir, MANIFEST_FILE,
};

verus! {

/// The bytes that the gzip stream `data` decompresses to, or none where
/// `data` is not a gzip stream.
pub uninterp spec fn gunzip_of(data: Seq<u8>) -> Option<Seq<u8>>;

/// Relies on flate2::read::GzDecoder: read to its end, it yields the
/// decompressed bytes of the gzip stream it wraps, or an error.
#[verifier::external_body]
fn gunzip(data: &[u8]) -> (r: Option<Vec<u8>>)
    ensures
        match r {
            Some(v) => gunzip_of(data@) == Some(v@),
            None => gunzip_of(data@) is None,
        },
{
    let mut out = Vec::new();
    std::io::Read::read_to_end(&mut flate2::read::GzDecoder::new(data), &mut out).ok()?;
    Some(out)
}

/// The message of an install whose tarball is not a gzip stream.
pub const GUNZIP_FAILED: &'static str = "tarball 압축 해제 실패";

/// The message of an install handed an event that its step does not await.
pub const UNEXPECTED_EVENT: &'static str = "설치 단계와 맞지 않는 이벤트";

/// Where an install stands.
#[derive(Debug, Clone, Copy, PartialEq, Eq, Structural)]
pub enum Phase {
    /// Awaits the registry metadata, to learn the latest version.
    AwaitLatest,
    /// Awaits whether the manifest is present in the cache.
    AwaitCache,
    /// Awaits the registry metadata, to learn the tarball URL.
    AwaitTarballUrl,
    /// Awaits the tarball bytes.
    AwaitDownload,
    /// Awaits the unpacking of the tarball into the package directory.
    AwaitUnpack,
    Finished,
    Failed,
}

/// What the caller is to do next.
#[derive(Debug, Clone)]
pub enum InstallAction {
    /// GET this URL and hand back the body as text.
    FetchMetadata { url: String },
    /// Check whether this manifest file exists.
    CheckCache { manifest: String },
    /// GET this URL and hand back the body as bytes.
    Download { url: String },
    /// Remove the directory if it exists, create it, and unpack this tar
    /// archive into it.
    Unpack { dir: String, archive: Vec<u8> },
    /// The package is installed in this directory.
    Finished { dir: String },
    /// The install failed.
    Failed { message: String },
}

/// What came of an action.
#[derive(Debug)]
pub enum InstallEvent {
    Metadata(Result<String, String>),
    CacheChecked(bool),
    Downloaded(Result<Vec<u8>, String>),
    Unpacked(Result<(), String>),
}

/// An action by its views.
pub enum ActionModel {
    FetchMetadata(Seq<char>),
    CheckCache(Seq<char>),
    Download(Seq<char>),
    Unpack(Seq<char>, Seq<u8>),
    Finished(Seq<char>),
    Failed(Seq<char>),
}

/// An event by its views.
pub enum EventModel {
    Metadata(Result<Seq<char>, Seq<char>>),
    CacheChecked(bool),
    Downloaded(Result<Seq<u8>, Seq<char>>),
    Unpacked(Result<(), Seq<char>>),
}

/// An install by its views.
pub struct InstallModel {
    pub phase: Phase,
    pub name: Seq<char>,
    pub version: Option<Seq<char>>,
    pub dir: Seq<char>,
}

impl InstallAction {
    pub open spec fn model(&self) -> ActionModel {
        match self {
            InstallAction::FetchMetadata { url } => ActionModel::FetchMetadata(url@),
            InstallAction::CheckCache { manifest } => ActionModel::CheckCache(manifest@),
            InstallAction::Download { url } => ActionModel::Download(url@),
            InstallAction::Unpack { dir, archive } => ActionModel::Unpack(dir@, archive@),
            InstallAction::Finished { dir } => ActionModel::Finished(dir@),
            InstallAction::Failed { message } => ActionModel::Failed(message@),
        }
    }
}

impl InstallEvent {
    pub open spec fn model(&self) -> EventModel {
        match self {
            InstallEvent::Metadata(Ok(t)) => EventModel::Metadata(Ok(t@)),
            InstallEvent::Metadata(Err(m)) => EventModel::Metadata(Err(m@)),
            InstallEvent::CacheChecked(b) => EventModel::CacheChecked(*b),
            InstallEvent::Downloaded(Ok(b)) => EventModel::Downloaded(Ok(b@)),
            InstallEvent::Downloaded(Err(m)) => EventModel::Downloaded(Err(m@)),
            InstallEvent::Unpacked(Ok(())) => EventModel::Unpacked(Ok(())),
            InstallEvent::Unpacked(Err(m)) => EventModel::Unpacked(Err(m@)),
        }
    }
}

/// Whether an action goes to the network.
pub open spec fn is_network(a: ActionModel) -> bool {
    a is FetchMetadata || a is Download
}

/// The manifest whose presence marks a package directory as cached.
pub open spec fn manifest_of(dir: Seq<char>) -> Seq<char> {
    join_path(unpacked_dir(dir), MANIFEST_FILE@)
}

/// The cache directory of a version of a package.
pub open spec fn dir_of(cache: Seq<char>, name: Seq<char>, version: Seq<char>) -> Seq<char> {
    join_path(join_path(cache, name), version)
}

/// The install with its version known: it checks the cache next.
pub open spec fn check_cache(cache: Seq<char>, name: Seq<char>, version: Seq<char>) -> (InstallModel, ActionModel) {
    let dir = dir_of(cache, name, version);
    (
        InstallModel { phase: Phase::AwaitCache, name, version: Some(version), dir },
        ActionModel::CheckCache(manifest_of(dir)),
    )
}

/// The install `s` failed with `message`.
pub open spec fn fail(s: InstallModel, message: Seq<char>) -> (InstallModel, ActionModel) {
    (InstallModel { phase: Phase::Failed, ..s }, ActionModel::Failed(message))
}

/// `s` moved to `phase`, with `action` to do.
pub open spec fn goto(s: InstallModel, phase: Phase, action: ActionModel) -> (InstallModel, ActionModel) {
    (InstallModel { phase, ..s }, action)
}

/// How an install of `name` starts: with the cache check where the version
/// is given, else with a request for the registry metadata.
pub open spec fn start_model(cache: Seq<char>, registry: Seq<char>, name: Seq<char>, version: Option<Seq<char>>) -> (InstallModel, ActionModel) {
    match version {
        Some(v) => check_cache(cache, name, v),
        None => (
            InstallModel { phase: Phase::AwaitLatest, name, version: None, dir: Seq::empty() },
            ActionModel::FetchMetadata(join_path(registry, name)),
        ),
    }
}

/// The version of an install, where it is known.
pub open spec fn version_of(s: InstallModel) -> Seq<char> {
    match s.version {
        Some(v) => v,
        None => Seq::empty(),
    }
}

/// The step an install takes on an event.
pub open spec fn step_model(cache: Seq<char>, registry: Seq<char>, s: InstallModel, e: EventModel) -> (InstallModel, ActionModel) {
    match (s.phase, e) {
        (Phase::AwaitLatest, EventModel::Metadata(Ok(text))) => match latest_result(text) {
            Ok(v) => check_cache(cache, s.name, v),
            Err(err) => fail(s, error_text(err)),
        },
        (Phase::AwaitLatest, EventModel::Metadata(Err(m))) => fail(s, m),
        (Phase::AwaitCache, EventModel::CacheChecked(true)) => goto(s, Phase::Finished, ActionModel::Finished(s.dir)),
        (Phase::AwaitCache, EventModel::CacheChecked(false)) => goto(
            s,
            Phase::AwaitTarballUrl,
            ActionModel::FetchMetadata(join_path(registry, s.name)),
        ),
        (Phase::AwaitTarballUrl, EventModel::Metadata(Ok(text))) => match tarball_result(text, version_of(s)) {
            Ok(u) => goto(s, Phase::AwaitDownload, ActionModel::Download(u)),
            Err(err) => fail(s, error_text(err)),
        },
        (Phase::AwaitTarballUrl, EventModel::Metadata(Err(m))) => fail(s, m),
        (Phase::AwaitDownload, EventModel::Downloaded(Ok(b))) => match gunzip_of(b) {
            Some(t) => goto(s, Phase::AwaitUnpack, ActionModel::Unpack(s.dir, t)),
            None => fail(s, GUNZIP_FAILED@),
        },
        (Phase::AwaitDownload, EventModel::Downloaded(Err(m))) => fail(s, m),
        (Phase::AwaitUnpack, EventModel::Unpacked(Ok(()))) => goto(s, Phase::Finished, ActionModel::Finished(s.dir)),
        (Phase::AwaitUnpack, EventModel::Unpacked(Err(m))) => fail(s, m),
        _ => fail(s, UNEXPECTED_EVENT@),
    }
}

/// Whether an install has passed the point where it downloads.
pub open spec fn past_download(p: Phase) -> bool {
    p == Phase::AwaitDownload || p == Phase::AwaitUnpack || p == Phase::Finished || p == Phase::Failed
}

/// An install of a package at a given version whose manifest is already in
/// the cache goes to no network: it checks the cache, and on finding the
/// manifest it finishes with the cached directory.
pub proof fn lemma_cached_install_is_offline(cache: Seq<char>, registry: Seq<char>, name: Seq<char>, version: Seq<char>)
    ensures
        ({
            let (s1, a1) = start_model(cache, registry, name, Some(version));
            let (s2, a2) = step_model(cache, registry, s1, EventModel::CacheChecked(true));
            &&& a1 == ActionModel::CheckCache(manifest_of(dir_of(cache, name, version)))
            &&& !is_network(a1)
            &&& a2 == ActionModel::Finished(dir_of(cache, name, version))
            &&& !is_network(a2)
            &&& s2.phase == Phase::Finished
        }),
{
}

/// An install downloads at most once: a download is asked for only on the
/// step that leaves the tarball-URL phase, and once past that point no step
/// asks for one again or goes back.
pub proof fn lemma_download_at_most_once(cache: Seq<char>, registry: Seq<char>, s: InstallModel, e: EventModel)
    ensures
        ({
            let (s2, a) = step_model(cache, registry, s, e);
            &&& a is Download ==> s.phase == Phase::AwaitTarballUrl && s2.phase == Phase::AwaitDownload
            &&& past_download(s.phase) ==> past_download(s2.phase) && !(a is Download)
        }),
{
}

/// One install of a package in progress.
#[derive(Debug, Clone)]
pub struct Install {
    phase: Phase,
    name: String,
    version: Option<String>,
    dir: String,
}

impl Install {
    pub closed spec fn model(&self) -> InstallModel {
        InstallModel {
            phase: self.phase,
            name: self.name@,
            version: match self.version {
                Some(v) => Some(v@),
                None => None,
            },
            dir: self.dir@,
        }
    }

    pub fn phase(&self) -> (r: Phase)
        ensures
            r == self.model().phase,
    {
        self.phase
    }

    fn at_cache_check(resolver: &NpmResolver, name: String, version: String) -> (r: (Install, InstallAction))
        ensures
            (r.0.model(), r.1.model()) == check_cache(resolver.cache_dir_view(), name@, version@),
    {
        let dir = resolver.package_dir(name.as_str(), version.as_str());
        let manifest = resolver.manifest_path(dir.as_str());
        (Install { phase: Phase::AwaitCache, name, version: Some(version), dir }, InstallAction::CheckCache { manifest })
    }

    /// Starts installing `name`, at `version` or else at the latest one.
    pub fn start(resolver: &NpmResolver, name: &str, version: Option<&str>) -> (r: (Install, InstallAction))
        ensures
            (r.0.model(), r.1.model()) == start_model(
                resolver.cache_dir_view(),
                resolver.registry_url_view(),
                name@,
                match version {
                    Some(v) => Some(v@),
                    None => None,
                },
            ),
    {
        match version {
            Some(v) => Self::at_cache_check(resolver, String::from_str(name), String::from_str(v)),
            None => {
                let url = resolver.metadata_url(name);
                (
                    Install { phase: Phase::AwaitLatest, name: String::from_str(name), version: None, dir: String::new() },
                    InstallAction::FetchMetadata { url },
                )
            },
        }
    }

    fn fail(&mut self, message: String) -> (r: InstallAction)
        ensures
            (final(self).model(), r.model()) == fail(old(self).model(), message@),
    {
        self.phase = Phase::Failed;
        InstallAction::Failed { message }
    }

    /// Takes the step that `event` calls for, and says what to do next.
    pub fn step(&mut self, resolver: &NpmResolver, event: InstallEvent) -> (r: InstallAction)
        ensures
            (final(self).model(), r.model()) == step_model(
                resolver.cache_dir_view(),
                resolver.registry_url_view(),
                old(self).model(),
                event.model(),
            ),
    {
        let ghost e = event.model();
        match (self.phase, event) {
            (Phase::AwaitLatest, InstallEvent::Metadata(Ok(text))) => {
                let latest = resolver.latest_version(text.as_str());
                match latest {
                    Ok(v) => {
                        let (next, action) = Self::at_cache_check(resolver, self.name.clone(), v);
                        *self = next;
                        action
                    },
                    Err(err) => self.fail(err.message()),
                }
            },
            (Phase::AwaitCache, InstallEvent::CacheChecked(present)) => {
                if present {
                    self.phase = Phase::Finished;
                    InstallAction::Finished { dir: self.dir.clone() }
                } else {
                    self.phase = Phase::AwaitTarballUrl;
                    InstallAction::FetchMetadata { url: resolver.metadata_url(self.name.as_str()) }
                }
            },
            (Phase::AwaitTarballUrl, InstallEvent::Metadata(Ok(text))) => {
                let version = match &self.version {
                    Some(v) => v.clone(),
                    None => String::new(),
                };
                match resolver.tarball_url(text.as_str(), version.as_str()) {
                    Ok(u) => {
                        self.phase = Phase::AwaitDownload;
                        InstallAction::Download { url: u }
                    },
                    Err(err) => self.fail(err.message()),
                }
            },
            (Phase::AwaitLatest, InstallEvent::Metadata(Err(m))) => self.fail(m),
            (Phase::AwaitTarballUrl, InstallEvent::Metadata(Err(m))) => self.fail(m),
            (Phase::AwaitDownload, InstallEvent::Downloaded(Ok(bytes))) => {
                match gunzip(bytes.as_slice()) {
                    Some(t) => {
                        self.phase = Phase::AwaitUnpack;
                        InstallAction::Unpack { dir: self.dir.clone(), archive: t }
                    },
                    None => self.fail(String::from_str(GUNZIP_FAILED)),
                }
            },
            (Phase::AwaitDownload, InstallEvent::Downloaded(Err(m))) => self.fail(m),
            (Phase::AwaitUnpack, InstallEvent::Unpacked(Ok(()))) => {
                self.phase = Phase::Finished;
                InstallAction::Finished { dir: self.dir.clone() }
            },
            (Phase::AwaitUnpack, InstallEvent::Unpacked(Err(m))) => self.fail(m),
            _ => self.fail(String::from_str(UNEXPECTED_EVENT)),
        }
    }
}

} // verus!

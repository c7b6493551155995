//! Installing PDFium from the latest release of `bblanchon/pdfium-binaries`.
//!
//! The installation alternates work on the host (looking at the install
//! directory, talking to the GitHub API, downloading and unpacking an
//! archive) with decisions on what that work gave. [`PdfiumInstall`] holds the
//! decisions: it is told each outcome as an event and answers with the next
//! action.

use vstd::prelude::*;
use vstd::string::*;
use crate::text::str_eq;
use crate::platform::{
    check_pdfium_platform, spec_pdfium_asset, spec_target_name, string_result, target_name,
};
use crate::artifact::{Artifact, BuildError, BuildErrorView};

verus! {

/// One downloadable file of a GitHub release.
pub struct GithubAsset {
    /// The file name.
    pub name: String,
    /// Where the file is downloaded from.
    pub browser_download_url: String,
}

impl View for GithubAsset {
    type V = (Seq<char>, Seq<char>);

    open spec fn view(&self) -> (Seq<char>, Seq<char>) {
        (self.name@, self.browser_download_url@)
    }
}

/// The part of a GitHub release description that the installation reads.
pub struct GithubRelease {
    /// The downloadable files, in the order the API lists them.
    pub assets: Vec<GithubAsset>,
}

impl View for GithubRelease {
    type V = Seq<(Seq<char>, Seq<char>)>;

    open spec fn view(&self) -> Seq<(Seq<char>, Seq<char>)> {
        self.assets@.map_values(|a: GithubAsset| a@)
    }
}

/// Whether `i` is the position of the first asset called `name`.
pub open spec fn spec_is_first_asset(assets: Seq<(Seq<char>, Seq<char>)>, name: Seq<char>, i: int) -> bool {
    &&& 0 <= i < assets.len()
    &&& assets[i].0 == name
    &&& forall|j: int| 0 <= j < i ==> assets[j].0 != name
}

/// The download address of the first asset called `name`, if there is one.
pub open spec fn spec_asset_url(assets: Seq<(Seq<char>, Seq<char>)>, name: Seq<char>) -> Option<Seq<char>> {
    if exists|i: int| spec_is_first_asset(assets, name, i) {
        Some(assets[choose|i: int| spec_is_first_asset(assets, name, i)].1)
    } else {
        None
    }
}

/// There is at most one first asset of a name.
pub proof fn lemma_first_asset_unique(assets: Seq<(Seq<char>, Seq<char>)>, name: Seq<char>, i: int, k: int)
    requires
        spec_is_first_asset(assets, name, i),
        spec_is_first_asset(assets, name, k),
    ensures
        i == k,
{
    if i < k {
        assert(assets[i].0 != name);
    } else if k < i {
        assert(assets[k].0 != name);
    }
}

/// The position of the first asset called `name`, if any asset is called so.
pub fn asset_position(release: &GithubRelease, name: &str) -> (r: Option<usize>)
    ensures
        match r {
            Some(i) => spec_is_first_asset(release@, name@, i as int),
            None => forall|j: int| 0 <= j < release@.len() ==> release@[j].0 != name@,
        },
{
    let n = release.assets.len();
    let mut i: usize = 0;
    while i < n
        invariant
            n == release.assets@.len(),
            n == release@.len(),
            i <= n,
            forall|j: int| 0 <= j < i ==> release@[j].0 != name@,
        decreases n - i,
    {
        if str_eq(release.assets[i].name.as_str(), name) {
            return Some(i);
        }
        i = i + 1;
    }
    None
}

/// The asset called `name`, if there is one: the first of that name.
pub fn find_asset<'a>(release: &'a GithubRelease, name: &str) -> (r: Option<&'a GithubAsset>)
    ensures
        match r {
            Some(a) => spec_asset_url(release@, name@) == Some(a.browser_download_url@) && a.name@
                == name@,
            None => spec_asset_url(release@, name@) is None,
        },
{
    match asset_position(release, name) {
        Some(i) => {
            proof {
                let k = choose|k: int| spec_is_first_asset(release@, name@, k);
                lemma_first_asset_unique(release@, name@, i as int, k);
            }
            Some(&release.assets[i])
        },
        None => None,
    }
}

/// The GitHub API address of the latest PDFium release.
pub open spec fn spec_release_url() -> Seq<char> {
    "https://api.github.com/repos/bblanchon/pdfium-binaries/releases/latest"@
}

/// The user agent the GitHub API is called with.
pub open spec fn spec_user_agent() -> Seq<char> {
    "jevy-binaries/1.0"@
}

/// Where PDFium is unpacked, below the vcpkg checkout.
pub open spec fn spec_pdfium_dir() -> Seq<Seq<char>> {
    seq!["pdfium"@]
}

/// Whether an HTTP status means success (200 to 299).
pub open spec fn spec_is_success(status: u16) -> bool {
    200 <= status < 300
}

/// Whether an HTTP status means success (200 to 299).
pub fn is_success(status: u16) -> (b: bool)
    ensures
        b == spec_is_success(status),
{
    200 <= status && status < 300
}

/// Where the installation stands.
#[derive(Debug, Clone, Copy, PartialEq, Eq, Structural)]
pub enum PdfiumPhase {
    /// Waiting to learn whether the install directory exists.
    CheckingDir,
    /// Waiting for the status of the release request.
    RequestingRelease,
    /// Waiting for the release description.
    ReadingRelease,
    /// Waiting for the archive to be downloaded.
    Downloading,
    /// Waiting for the archive to be unpacked.
    Extracting,
    /// PDFium is in place.
    Finished,
    /// The installation failed.
    Failed,
}

/// What the host reports after performing an action.
pub enum PdfiumEvent {
    /// Whether the install directory exists.
    Exists(bool),
    /// The HTTP status of the release request.
    Status(u16),
    /// The release description, or `None` when the answer was not one.
    Release(Option<GithubRelease>),
    /// The archive was downloaded, or unpacked.
    Done,
}

/// A [`PdfiumEvent`] seen through the characters of its strings.
pub enum PdfiumEventView {
    Exists(bool),
    Status(u16),
    Release(Option<Seq<(Seq<char>, Seq<char>)>>),
    Done,
}

impl View for PdfiumEvent {
    type V = PdfiumEventView;

    open spec fn view(&self) -> PdfiumEventView {
        match self {
            PdfiumEvent::Exists(b) => PdfiumEventView::Exists(*b),
            PdfiumEvent::Status(s) => PdfiumEventView::Status(*s),
            PdfiumEvent::Release(None) => PdfiumEventView::Release(None),
            PdfiumEvent::Release(Some(r)) => PdfiumEventView::Release(Some(r@)),
            PdfiumEvent::Done => PdfiumEventView::Done,
        }
    }
}

/// What the host is to do next.
pub enum PdfiumAction {
    /// Look whether `vcpkg/pdfium` exists.
    CheckDir,
    /// Ask the GitHub API for the latest release (a GET with this user agent)
    /// and report the status of the answer.
    RequestRelease { url: String, user_agent: String },
    /// Read the answer and report the release it describes.
    ReadRelease,
    /// Download the archive at this address.
    Download { url: String },
    /// Create `vcpkg/pdfium` and unpack the gzipped tar archive into it.
    Extract,
    /// PDFium was already in place; nothing was downloaded.
    AlreadyInstalled(Artifact),
    /// PDFium was downloaded and unpacked.
    Installed(Artifact),
    /// Stop with this failure.
    Fail(BuildError),
}

/// A [`PdfiumAction`] seen through the characters of its strings.
pub enum PdfiumActionView {
    CheckDir,
    RequestRelease(Seq<char>, Seq<char>),
    ReadRelease,
    Download(Seq<char>),
    Extract,
    AlreadyInstalled((Seq<char>, Seq<Seq<char>>)),
    Installed((Seq<char>, Seq<Seq<char>>)),
    Fail(BuildErrorView),
}

impl View for PdfiumAction {
    type V = PdfiumActionView;

    open spec fn view(&self) -> PdfiumActionView {
        match self {
            PdfiumAction::CheckDir => PdfiumActionView::CheckDir,
            PdfiumAction::RequestRelease { url, user_agent } => PdfiumActionView::RequestRelease(
                url@,
                user_agent@,
            ),
            PdfiumAction::ReadRelease => PdfiumActionView::ReadRelease,
            PdfiumAction::Download { url } => PdfiumActionView::Download(url@),
            PdfiumAction::Extract => PdfiumActionView::Extract,
            PdfiumAction::AlreadyInstalled(a) => PdfiumActionView::AlreadyInstalled(a@),
            PdfiumAction::Installed(a) => PdfiumActionView::Installed(a@),
            PdfiumAction::Fail(e) => PdfiumActionView::Fail(e@),
        }
    }
}

/// The artifact PDFium yields on a host.
pub open spec fn spec_pdfium_artifact(os: Seq<char>, arch: Seq<char>) -> (Seq<char>, Seq<Seq<char>>) {
    (spec_target_name("pdfium"@, os, arch), spec_pdfium_dir())
}

/// Which events a phase waits for.
pub open spec fn spec_pdfium_expects(phase: PdfiumPhase, event: PdfiumEventView) -> bool {
    match phase {
        PdfiumPhase::CheckingDir => event is Exists,
        PdfiumPhase::RequestingRelease => event is Status,
        PdfiumPhase::ReadingRelease => event is Release,
        PdfiumPhase::Downloading => event is Done,
        PdfiumPhase::Extracting => event is Done,
        PdfiumPhase::Finished => false,
        PdfiumPhase::Failed => false,
    }
}

/// Whether this event, in this phase, leads to naming the release asset,
/// which needs a host that PDFium is released for.
pub open spec fn spec_names_asset_next(phase: PdfiumPhase, event: PdfiumEventView) -> bool {
    phase == PdfiumPhase::CheckingDir && event == PdfiumEventView::Exists(false)
}

/// The name of the release asset of a supported host.
pub open spec fn spec_asset_name(os: Seq<char>, arch: Seq<char>) -> Seq<char> {
    match spec_pdfium_asset(os, arch) {
        Ok(name) => name,
        Err(_) => Seq::empty(),
    }
}

/// The next phase and action of the installation.
pub open spec fn spec_pdfium_step(
    os: Seq<char>,
    arch: Seq<char>,
    phase: PdfiumPhase,
    event: PdfiumEventView,
) -> (PdfiumPhase, PdfiumActionView) {
    match (phase, event) {
        (PdfiumPhase::CheckingDir, PdfiumEventView::Exists(true)) => (
            PdfiumPhase::Finished,
            PdfiumActionView::AlreadyInstalled(spec_pdfium_artifact(os, arch)),
        ),
        (PdfiumPhase::CheckingDir, PdfiumEventView::Exists(false)) => (
            PdfiumPhase::RequestingRelease,
            PdfiumActionView::RequestRelease(spec_release_url(), spec_user_agent()),
        ),
        (PdfiumPhase::RequestingRelease, PdfiumEventView::Status(s)) => if spec_is_success(s) {
            (PdfiumPhase::ReadingRelease, PdfiumActionView::ReadRelease)
        } else {
            (PdfiumPhase::Failed, PdfiumActionView::Fail(BuildErrorView::ReleaseRequestFailed(s)))
        },
        (PdfiumPhase::ReadingRelease, PdfiumEventView::Release(None)) => (
            PdfiumPhase::Failed,
            PdfiumActionView::Fail(BuildErrorView::ReleaseParseFailed),
        ),
        (PdfiumPhase::ReadingRelease, PdfiumEventView::Release(Some(r))) => match spec_asset_url(
            r,
            spec_asset_name(os, arch),
        ) {
            Some(url) => (PdfiumPhase::Downloading, PdfiumActionView::Download(url)),
            None => (
                PdfiumPhase::Failed,
                PdfiumActionView::Fail(BuildErrorView::AssetNotFound(spec_asset_name(os, arch))),
            ),
        },
        (PdfiumPhase::Downloading, PdfiumEventView::Done) => (
            PdfiumPhase::Extracting,
            PdfiumActionView::Extract,
        ),
        (PdfiumPhase::Extracting, PdfiumEventView::Done) => (
            PdfiumPhase::Finished,
            PdfiumActionView::Installed(spec_pdfium_artifact(os, arch)),
        ),
        _ => (phase, PdfiumActionView::CheckDir),
    }
}

/// The installation of PDFium on one host.
pub struct PdfiumInstall {
    /// The host operating system.
    pub os: String,
    /// The host architecture.
    pub arch: String,
    /// The release asset to download; empty until it is named.
    pub asset: String,
    /// Where the installation stands.
    pub phase: PdfiumPhase,
}

impl PdfiumInstall {
    /// The asset is named for the host once the installation goes online.
    pub open spec fn wf(&self) -> bool {
        match self.phase {
            PdfiumPhase::RequestingRelease | PdfiumPhase::ReadingRelease => spec_pdfium_asset(
                self.os@,
                self.arch@,
            ) == Ok::<Seq<char>, crate::platform::PdfiumPlatformError>(self.asset@),
            _ => true,
        }
    }

    /// Starts the installation: the first action looks for the install directory.
    pub fn new(os: &str, arch: &str) -> (r: (PdfiumInstall, PdfiumAction))
        ensures
            r.0.wf(),
            r.0.os@ == os@,
            r.0.arch@ == arch@,
            r.0.phase == PdfiumPhase::CheckingDir,
            r.1@ == PdfiumActionView::CheckDir,
    {
        (
            PdfiumInstall {
                os: String::from_str(os),
                arch: String::from_str(arch),
                asset: String::new(),
                phase: PdfiumPhase::CheckingDir,
            },
            PdfiumAction::CheckDir,
        )
    }

    /// Whether the installation waits for this event.
    pub fn expects(&self, event: &PdfiumEvent) -> (b: bool)
        ensures
            b == spec_pdfium_expects(self.phase, event@),
    {
        match self.phase {
            PdfiumPhase::CheckingDir => matches!(event, PdfiumEvent::Exists(_)),
            PdfiumPhase::RequestingRelease => matches!(event, PdfiumEvent::Status(_)),
            PdfiumPhase::ReadingRelease => matches!(event, PdfiumEvent::Release(_)),
            PdfiumPhase::Downloading => matches!(event, PdfiumEvent::Done),
            PdfiumPhase::Extracting => matches!(event, PdfiumEvent::Done),
            PdfiumPhase::Finished => false,
            PdfiumPhase::Failed => false,
        }
    }

    /// Whether this event leads to naming the release asset, which needs a
    /// host that PDFium is released for.
    pub fn names_asset_next(&self, event: &PdfiumEvent) -> (b: bool)
        ensures
            b == spec_names_asset_next(self.phase, event@),
    {
        match (self.phase, event) {
            (PdfiumPhase::CheckingDir, PdfiumEvent::Exists(false)) => true,
            _ => false,
        }
    }

    fn artifact(&self) -> (a: Artifact)
        ensures
            a@ == spec_pdfium_artifact(self.os@, self.arch@),
    {
        let mut dir: Vec<String> = Vec::new();
        dir.push(String::from_str("pdfium"));
        let a = Artifact { name: target_name("pdfium", self.os.as_str(), self.arch.as_str()), dir };
        assert(a.dir.deep_view() =~= spec_pdfium_dir());
        a
    }

    /// Takes the outcome of the last action and gives the next one.
    pub fn step(&mut self, event: PdfiumEvent) -> (action: PdfiumAction)
        requires
            old(self).wf(),
            spec_pdfium_expects(old(self).phase, event@),
            spec_names_asset_next(old(self).phase, event@) ==> spec_pdfium_asset(
                old(self).os@,
                old(self).arch@,
            ) is Ok,
        ensures
            final(self).wf(),
            final(self).os == old(self).os,
            final(self).arch == old(self).arch,
            (final(self).phase, action@) == spec_pdfium_step(
                old(self).os@,
                old(self).arch@,
                old(self).phase,
                event@,
            ),
    {
        match (self.phase, event) {
            (PdfiumPhase::CheckingDir, PdfiumEvent::Exists(true)) => {
                self.phase = PdfiumPhase::Finished;
                PdfiumAction::AlreadyInstalled(self.artifact())
            },
            (PdfiumPhase::CheckingDir, PdfiumEvent::Exists(false)) => {
                let asset = check_pdfium_platform(self.os.as_str(), self.arch.as_str());
                match asset {
                    Ok(name) => {
                        self.asset = name;
                    },
                    Err(_) => {
                        proof {
                            assert(false);
                        }
                    },
                }
                self.phase = PdfiumPhase::RequestingRelease;
                PdfiumAction::RequestRelease {
                    url: String::from_str(
                        "https://api.github.com/repos/bblanchon/pdfium-binaries/releases/latest",
                    ),
                    user_agent: String::from_str("jevy-binaries/1.0"),
                }
            },
            (PdfiumPhase::RequestingRelease, PdfiumEvent::Status(s)) => {
                if is_success(s) {
                    self.phase = PdfiumPhase::ReadingRelease;
                    PdfiumAction::ReadRelease
                } else {
                    self.phase = PdfiumPhase::Failed;
                    PdfiumAction::Fail(BuildError::ReleaseRequestFailed { status: s })
                }
            },
            (PdfiumPhase::ReadingRelease, PdfiumEvent::Release(None)) => {
                self.phase = PdfiumPhase::Failed;
                PdfiumAction::Fail(BuildError::ReleaseParseFailed)
            },
            (PdfiumPhase::ReadingRelease, PdfiumEvent::Release(Some(release))) => {
                match find_asset(&release, self.asset.as_str()) {
                    Some(a) => {
                        let url = a.browser_download_url.clone();
                        self.phase = PdfiumPhase::Downloading;
                        PdfiumAction::Download { url }
                    },
                    None => {
                        self.phase = PdfiumPhase::Failed;
                        PdfiumAction::Fail(BuildError::AssetNotFound { asset: self.asset.clone() })
                    },
                }
            },
            (PdfiumPhase::Downloading, PdfiumEvent::Done) => {
                self.phase = PdfiumPhase::Extracting;
                PdfiumAction::Extract
            },
            (PdfiumPhase::Extracting, PdfiumEvent::Done) => {
                self.phase = PdfiumPhase::Finished;
                PdfiumAction::Installed(self.artifact())
            },
            _ => {
                proof {
                    assert(false);
                }
                PdfiumAction::CheckDir
            },
        }
    }
}

} // verus!

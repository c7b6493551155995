//! What the installation steps produce and how they fail.

use vstd::prelude::*;

verus! {

/// A program to run, with its arguments.
pub struct ToolCommand {
    /// The program, as it is looked up or as a path.
    pub program: String,
    /// The arguments, in order.
    pub args: Vec<String>,
    /// Whether the program runs inside the vcpkg checkout (else in the
    /// current directory).
    pub in_vcpkg_root: bool,
}

impl View for ToolCommand {
    type V = (Seq<char>, Seq<Seq<char>>, bool);

    open spec fn view(&self) -> (Seq<char>, Seq<Seq<char>>, bool) {
        (self.program@, self.args.deep_view(), self.in_vcpkg_root)
    }
}

/// A built or downloaded set of binaries, ready to be harvested.
pub struct Artifact {
    /// The name of the directory it is harvested into, such as `ffmpeg-linux-x64`.
    pub name: String,
    /// Where it lies, as path components below the vcpkg checkout.
    pub dir: Vec<String>,
}

impl View for Artifact {
    type V = (Seq<char>, Seq<Seq<char>>);

    open spec fn view(&self) -> (Seq<char>, Seq<Seq<char>>) {
        (self.name@, self.dir.deep_view())
    }
}

/// Why a step of the build failed (as opposed to an I/O error of the host).
#[derive(Debug)]
pub enum BuildError {
    /// `git clone` of vcpkg exited unsuccessfully.
    CloneFailed,
    /// The vcpkg bootstrap script exited unsuccessfully.
    BootstrapFailed,
    /// `vcpkg install` exited unsuccessfully.
    VcpkgInstallFailed,
    /// The GitHub release API answered with a status outside 200..=299.
    ReleaseRequestFailed { status: u16 },
    /// The GitHub release API answer was not a release description.
    ReleaseParseFailed,
    /// The latest release has no asset of this name.
    AssetNotFound { asset: String },
}

/// A [`BuildError`] seen through the characters of its strings.
pub enum BuildErrorView {
    CloneFailed,
    BootstrapFailed,
    VcpkgInstallFailed,
    ReleaseRequestFailed(u16),
    ReleaseParseFailed,
    AssetNotFound(Seq<char>),
}

impl View for BuildError {
    type V = BuildErrorView;

    open spec fn view(&self) -> BuildErrorView {
        match self {
            BuildError::CloneFailed => BuildErrorView::CloneFailed,
            BuildError::BootstrapFailed => BuildErrorView::BootstrapFailed,
            BuildError::VcpkgInstallFailed => BuildErrorView::VcpkgInstallFailed,
            BuildError::ReleaseRequestFailed { status } => BuildErrorView::ReleaseRequestFailed(
                *status,
            ),
            BuildError::ReleaseParseFailed => BuildErrorView::ReleaseParseFailed,
            BuildError::AssetNotFound { asset } => BuildErrorView::AssetNotFound(asset@),
        }
    }
}

/// Builds a vector from two strings.
pub fn two_strings(a: String, b: String) -> (v: Vec<String>)
    ensures
        v.deep_view() == seq![a@, b@],
{
    let mut v: Vec<String> = Vec::new();
    v.push(a);
    v.push(b);
    assert(v.deep_view() =~= seq![a@, b@]);
    v
}

} // verus!


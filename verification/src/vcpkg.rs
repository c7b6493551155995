//! Preparing the vcpkg checkout: clone it when it is missing, bootstrap it,
//! and, outside Windows, write the custom triplet file that makes vcpkg link
//! the C runtime dynamically and the libraries statically.
//!
//! The procedure alternates work on the host (looking at directories,
//! running git and the bootstrap script, writing a file) with decisions on
//! what that work gave. [`VcpkgSetup`] holds the decisions: it is told each
//! outcome as an event and answers with the next action.

use vstd::prelude::*;
use vstd::string::*;
use crate::text::str_eq;
use crate::artifact::{BuildError, BuildErrorView, ToolCommand};

verus! {

/// Where vcpkg is cloned from.
pub open spec fn spec_vcpkg_repository() -> Seq<char> {
    "https://github.com/microsoft/vcpkg.git"@
}

/// The bootstrap script, relative to the vcpkg checkout.
pub open spec fn spec_bootstrap_script(os: Seq<char>) -> Seq<char> {
    if os == "windows"@ {
        "bootstrap-vcpkg.bat"@
    } else {
        "./bootstrap-vcpkg.sh"@
    }
}

/// `VCPKG_TARGET_ARCHITECTURE` of the custom triplet.
pub open spec fn spec_triplet_architecture(arch: Seq<char>) -> Option<Seq<char>> {
    if arch == "aarch64"@ || arch == "arm64"@ {
        Some("arm64"@)
    } else if arch == "x86_64"@ || arch == "x64"@ {
        Some("x86_64"@)
    } else {
        None
    }
}

/// `VCPKG_CMAKE_SYSTEM_NAME` of the custom triplet.
pub open spec fn spec_triplet_system(os: Seq<char>) -> Option<Seq<char>> {
    if os == "macos"@ {
        Some("Darwin"@)
    } else if os == "linux"@ {
        Some("Linux"@)
    } else {
        None
    }
}

/// The hosts for which a custom triplet file can be written.
pub open spec fn spec_custom_triplet_supported(os: Seq<char>, arch: Seq<char>) -> bool {
    spec_triplet_architecture(arch) is Some && spec_triplet_system(os) is Some
}

/// The text of the custom triplet file.
pub open spec fn spec_triplet_file_content(architecture: Seq<char>, system: Seq<char>) -> Seq<char> {
    "set(VCPKG_TARGET_ARCHITECTURE "@ + architecture + ")\nset(VCPKG_CRT_LINKAGE dynamic)\nset(VCPKG_LIBRARY_LINKAGE static)\nset(VCPKG_CMAKE_SYSTEM_NAME "@
        + system + ")\n"@
}

/// The name of the custom triplet file, inside vcpkg's `triplets` directory.
pub open spec fn spec_triplet_file_name(triplet: Seq<char>) -> Seq<char> {
    triplet + ".cmake"@
}

/// The `VCPKG_TARGET_ARCHITECTURE` for a host architecture, if it has one.
pub fn triplet_architecture(arch: &str) -> (r: Option<&'static str>)
    ensures
        match r {
            Some(a) => spec_triplet_architecture(arch@) == Some(a@),
            None => spec_triplet_architecture(arch@) is None,
        },
{
    if str_eq(arch, "aarch64") || str_eq(arch, "arm64") {
        Some("arm64")
    } else if str_eq(arch, "x86_64") || str_eq(arch, "x64") {
        Some("x86_64")
    } else {
        None
    }
}

/// The `VCPKG_CMAKE_SYSTEM_NAME` for a host operating system, if it has one.
pub fn triplet_system(os: &str) -> (r: Option<&'static str>)
    ensures
        match r {
            Some(s) => spec_triplet_system(os@) == Some(s@),
            None => spec_triplet_system(os@) is None,
        },
{
    if str_eq(os, "macos") {
        Some("Darwin")
    } else if str_eq(os, "linux") {
        Some("Linux")
    } else {
        None
    }
}

/// The text of the custom triplet file for a host that has one.
pub fn triplet_file_content(os: &str, arch: &str) -> (c: String)
    requires
        spec_custom_triplet_supported(os@, arch@),
    ensures
        c@ == spec_triplet_file_content(
            spec_triplet_architecture(arch@).unwrap(),
            spec_triplet_system(os@).unwrap(),
        ),
{
    let a = match triplet_architecture(arch) {
        Some(a) => a,
        None => {
            proof {
                assert(false);
            }
            ""
        },
    };
    let s = match triplet_system(os) {
        Some(s) => s,
        None => {
            proof {
                assert(false);
            }
            ""
        },
    };
    let mut c = String::from_str("set(VCPKG_TARGET_ARCHITECTURE ");
    c.append(a);
    c.append(
        ")\nset(VCPKG_CRT_LINKAGE dynamic)\nset(VCPKG_LIBRARY_LINKAGE static)\nset(VCPKG_CMAKE_SYSTEM_NAME ",
    );
    c.append(s);
    c.append(")\n");
    c
}

/// The name of the custom triplet file of a triplet.
pub fn triplet_file_name(triplet: &str) -> (n: String)
    ensures
        n@ == spec_triplet_file_name(triplet@),
{
    let mut n = String::from_str(triplet);
    n.append(".cmake");
    n
}

/// Where the preparation stands.
#[derive(Debug, Clone, Copy, PartialEq, Eq, Structural)]
pub enum VcpkgPhase {
    /// Waiting to learn whether the checkout exists.
    CheckingCheckout,
    /// Waiting for `git clone` to exit.
    Cloning,
    /// Waiting for the bootstrap script to exit.
    Bootstrapping,
    /// Waiting to learn whether the `triplets` directory exists.
    CheckingTriplets,
    /// Waiting for the `triplets` directory to be created.
    CreatingTriplets,
    /// Waiting for the custom triplet file to be written.
    WritingTriplet,
    /// The checkout is ready.
    Finished,
    /// A tool exited unsuccessfully.
    Failed,
}

/// What the host reports after performing an action.
#[derive(Debug, Clone, Copy, PartialEq, Eq, Structural)]
pub enum VcpkgEvent {
    /// Whether the directory that was looked at exists.
    Exists(bool),
    /// Whether the program that was run exited successfully.
    Exited(bool),
    /// The directory was created or the file written.
    Done,
}

/// What the host is to do next.
pub enum VcpkgAction {
    /// Look whether the checkout directory `vcpkg` exists.
    CheckCheckout,
    /// Clone vcpkg with this command and report whether it exited successfully.
    Clone(ToolCommand),
    /// Bootstrap vcpkg with this command and report whether it exited successfully.
    Bootstrap(ToolCommand),
    /// Look whether `vcpkg/triplets` exists.
    CheckTripletsDir,
    /// Create `vcpkg/triplets`.
    CreateTripletsDir,
    /// Write `vcpkg/triplets/<file_name>` with this content.
    WriteTriplet { file_name: String, content: String },
    /// The checkout is ready.
    Finish,
    /// Stop with this failure.
    Fail(BuildError),
}

/// A [`VcpkgAction`] seen through the characters of its strings.
pub enum VcpkgActionView {
    CheckCheckout,
    Clone((Seq<char>, Seq<Seq<char>>, bool)),
    Bootstrap((Seq<char>, Seq<Seq<char>>, bool)),
    CheckTripletsDir,
    CreateTripletsDir,
    WriteTriplet(Seq<char>, Seq<char>),
    Finish,
    Fail(BuildErrorView),
}

impl View for VcpkgAction {
    type V = VcpkgActionView;

    open spec fn view(&self) -> VcpkgActionView {
        match self {
            VcpkgAction::CheckCheckout => VcpkgActionView::CheckCheckout,
            VcpkgAction::Clone(c) => VcpkgActionView::Clone(c@),
            VcpkgAction::Bootstrap(c) => VcpkgActionView::Bootstrap(c@),
            VcpkgAction::CheckTripletsDir => VcpkgActionView::CheckTripletsDir,
            VcpkgAction::CreateTripletsDir => VcpkgActionView::CreateTripletsDir,
            VcpkgAction::WriteTriplet { file_name, content } => VcpkgActionView::WriteTriplet(
                file_name@,
                content@,
            ),
            VcpkgAction::Finish => VcpkgActionView::Finish,
            VcpkgAction::Fail(e) => VcpkgActionView::Fail(e@),
        }
    }
}

/// The `git clone` of vcpkg, run in the current directory.
pub open spec fn spec_clone_command() -> (Seq<char>, Seq<Seq<char>>, bool) {
    ("git"@, seq!["clone"@, spec_vcpkg_repository()], false)
}

/// The bootstrap script, run without arguments inside the checkout.
pub open spec fn spec_bootstrap_command(os: Seq<char>) -> (Seq<char>, Seq<Seq<char>>, bool) {
    (spec_bootstrap_script(os), Seq::empty(), true)
}

/// The action that writes the custom triplet file.
pub open spec fn spec_write_triplet(os: Seq<char>, arch: Seq<char>, triplet: Seq<char>) -> VcpkgActionView {
    VcpkgActionView::WriteTriplet(
        spec_triplet_file_name(triplet),
        spec_triplet_file_content(
            spec_triplet_architecture(arch).unwrap(),
            spec_triplet_system(os).unwrap(),
        ),
    )
}

/// Which events a phase waits for.
pub open spec fn spec_vcpkg_expects(phase: VcpkgPhase, event: VcpkgEvent) -> bool {
    match phase {
        VcpkgPhase::CheckingCheckout => event is Exists,
        VcpkgPhase::Cloning => event is Exited,
        VcpkgPhase::Bootstrapping => event is Exited,
        VcpkgPhase::CheckingTriplets => event is Exists,
        VcpkgPhase::CreatingTriplets => event is Done,
        VcpkgPhase::WritingTriplet => event is Done,
        VcpkgPhase::Finished => false,
        VcpkgPhase::Failed => false,
    }
}

/// Whether this event, in this phase, leads to writing the custom triplet file.
pub open spec fn spec_writes_triplet_next(phase: VcpkgPhase, event: VcpkgEvent) -> bool {
    (phase == VcpkgPhase::CheckingTriplets && event == VcpkgEvent::Exists(true)) || (phase
        == VcpkgPhase::CreatingTriplets && event == VcpkgEvent::Done)
}

/// The next phase and action of the preparation.
pub open spec fn spec_vcpkg_step(
    os: Seq<char>,
    arch: Seq<char>,
    triplet: Seq<char>,
    phase: VcpkgPhase,
    event: VcpkgEvent,
) -> (VcpkgPhase, VcpkgActionView) {
    match (phase, event) {
        (VcpkgPhase::CheckingCheckout, VcpkgEvent::Exists(true)) => (
            VcpkgPhase::Bootstrapping,
            VcpkgActionView::Bootstrap(spec_bootstrap_command(os)),
        ),
        (VcpkgPhase::CheckingCheckout, VcpkgEvent::Exists(false)) => (
            VcpkgPhase::Cloning,
            VcpkgActionView::Clone(spec_clone_command()),
        ),
        (VcpkgPhase::Cloning, VcpkgEvent::Exited(true)) => (
            VcpkgPhase::Bootstrapping,
            VcpkgActionView::Bootstrap(spec_bootstrap_command(os)),
        ),
        (VcpkgPhase::Cloning, VcpkgEvent::Exited(false)) => (
            VcpkgPhase::Failed,
            VcpkgActionView::Fail(BuildErrorView::CloneFailed),
        ),
        (VcpkgPhase::Bootstrapping, VcpkgEvent::Exited(false)) => (
            VcpkgPhase::Failed,
            VcpkgActionView::Fail(BuildErrorView::BootstrapFailed),
        ),
        (VcpkgPhase::Bootstrapping, VcpkgEvent::Exited(true)) => if os == "windows"@ {
            (VcpkgPhase::Finished, VcpkgActionView::Finish)
        } else {
            (VcpkgPhase::CheckingTriplets, VcpkgActionView::CheckTripletsDir)
        },
        (VcpkgPhase::CheckingTriplets, VcpkgEvent::Exists(false)) => (
            VcpkgPhase::CreatingTriplets,
            VcpkgActionView::CreateTripletsDir,
        ),
        (VcpkgPhase::CheckingTriplets, VcpkgEvent::Exists(true)) => (
            VcpkgPhase::WritingTriplet,
            spec_write_triplet(os, arch, triplet),
        ),
        (VcpkgPhase::CreatingTriplets, VcpkgEvent::Done) => (
            VcpkgPhase::WritingTriplet,
            spec_write_triplet(os, arch, triplet),
        ),
        (VcpkgPhase::WritingTriplet, VcpkgEvent::Done) => (
            VcpkgPhase::Finished,
            VcpkgActionView::Finish,
        ),
        _ => (phase, VcpkgActionView::Finish),
    }
}

/// The preparation of the vcpkg checkout for one host and triplet.
pub struct VcpkgSetup {
    /// The host operating system.
    pub os: String,
    /// The host architecture.
    pub arch: String,
    /// The triplet that will be built.
    pub triplet: String,
    /// Where the preparation stands.
    pub phase: VcpkgPhase,
}

fn bootstrap_command(os: &str) -> (c: ToolCommand)
    ensures
        c@ == spec_bootstrap_command(os@),
{
    let script = if str_eq(os, "windows") {
        "bootstrap-vcpkg.bat"
    } else {
        "./bootstrap-vcpkg.sh"
    };
    let c = ToolCommand { program: String::from_str(script), args: Vec::new(), in_vcpkg_root: true };
    assert(c.args.deep_view() =~= Seq::<Seq<char>>::empty());
    c
}

fn clone_command() -> (c: ToolCommand)
    ensures
        c@ == spec_clone_command(),
{
    let mut args: Vec<String> = Vec::new();
    args.push(String::from_str("clone"));
    args.push(String::from_str("https://github.com/microsoft/vcpkg.git"));
    let c = ToolCommand { program: String::from_str("git"), args, in_vcpkg_root: false };
    assert(c.args.deep_view() =~= seq!["clone"@, spec_vcpkg_repository()]);
    c
}

impl VcpkgSetup {
    /// Starts preparing the checkout: the first action looks for it.
    pub fn new(os: &str, arch: &str, triplet: &str) -> (r: (VcpkgSetup, VcpkgAction))
        ensures
            r.0.os@ == os@,
            r.0.arch@ == arch@,
            r.0.triplet@ == triplet@,
            r.0.phase == VcpkgPhase::CheckingCheckout,
            r.1@ == VcpkgActionView::CheckCheckout,
    {
        (
            VcpkgSetup {
                os: String::from_str(os),
                arch: String::from_str(arch),
                triplet: String::from_str(triplet),
                phase: VcpkgPhase::CheckingCheckout,
            },
            VcpkgAction::CheckCheckout,
        )
    }

    /// Whether the preparation waits for this event.
    pub fn expects(&self, event: VcpkgEvent) -> (b: bool)
        ensures
            b == spec_vcpkg_expects(self.phase, event),
    {
        match self.phase {
            VcpkgPhase::CheckingCheckout => matches!(event, VcpkgEvent::Exists(_)),
            VcpkgPhase::Cloning => matches!(event, VcpkgEvent::Exited(_)),
            VcpkgPhase::Bootstrapping => matches!(event, VcpkgEvent::Exited(_)),
            VcpkgPhase::CheckingTriplets => matches!(event, VcpkgEvent::Exists(_)),
            VcpkgPhase::CreatingTriplets => matches!(event, VcpkgEvent::Done),
            VcpkgPhase::WritingTriplet => matches!(event, VcpkgEvent::Done),
            VcpkgPhase::Finished => false,
            VcpkgPhase::Failed => false,
        }
    }

    /// Whether this event leads to writing the custom triplet file, which
    /// needs a host that has one.
    pub fn writes_triplet_next(&self, event: VcpkgEvent) -> (b: bool)
        ensures
            b == spec_writes_triplet_next(self.phase, event),
    {
        match (self.phase, event) {
            (VcpkgPhase::CheckingTriplets, VcpkgEvent::Exists(true)) => true,
            (VcpkgPhase::CreatingTriplets, VcpkgEvent::Done) => true,
            _ => false,
        }
    }

    /// Takes the outcome of the last action and gives the next one.
    pub fn step(&mut self, event: VcpkgEvent) -> (action: VcpkgAction)
        requires
            spec_vcpkg_expects(old(self).phase, event),
            spec_writes_triplet_next(old(self).phase, event) ==> spec_custom_triplet_supported(
                old(self).os@,
                old(self).arch@,
            ),
        ensures
            final(self).os == old(self).os,
            final(self).arch == old(self).arch,
            final(self).triplet == old(self).triplet,
            (final(self).phase, action@) == spec_vcpkg_step(
                old(self).os@,
                old(self).arch@,
                old(self).triplet@,
                old(self).phase,
                event,
            ),
    {
        match (self.phase, event) {
            (VcpkgPhase::CheckingCheckout, VcpkgEvent::Exists(true)) => {
                self.phase = VcpkgPhase::Bootstrapping;
                VcpkgAction::Bootstrap(bootstrap_command(self.os.as_str()))
            },
            (VcpkgPhase::CheckingCheckout, VcpkgEvent::Exists(false)) => {
                self.phase = VcpkgPhase::Cloning;
                VcpkgAction::Clone(clone_command())
            },
            (VcpkgPhase::Cloning, VcpkgEvent::Exited(true)) => {
                self.phase = VcpkgPhase::Bootstrapping;
                VcpkgAction::Bootstrap(bootstrap_command(self.os.as_str()))
            },
            (VcpkgPhase::Cloning, VcpkgEvent::Exited(false)) => {
                self.phase = VcpkgPhase::Failed;
                VcpkgAction::Fail(BuildError::CloneFailed)
            },
            (VcpkgPhase::Bootstrapping, VcpkgEvent::Exited(false)) => {
                self.phase = VcpkgPhase::Failed;
                VcpkgAction::Fail(BuildError::BootstrapFailed)
            },
            (VcpkgPhase::Bootstrapping, VcpkgEvent::Exited(true)) => {
                if str_eq(self.os.as_str(), "windows") {
                    self.phase = VcpkgPhase::Finished;
                    VcpkgAction::Finish
                } else {
                    self.phase = VcpkgPhase::CheckingTriplets;
                    VcpkgAction::CheckTripletsDir
                }
            },
            (VcpkgPhase::CheckingTriplets, VcpkgEvent::Exists(false)) => {
                self.phase = VcpkgPhase::CreatingTriplets;
                VcpkgAction::CreateTripletsDir
            },
            (VcpkgPhase::CheckingTriplets, VcpkgEvent::Exists(true)) => {
                self.phase = VcpkgPhase::WritingTriplet;
                VcpkgAction::WriteTriplet {
                    file_name: triplet_file_name(self.triplet.as_str()),
                    content: triplet_file_content(self.os.as_str(), self.arch.as_str()),
                }
            },
            (VcpkgPhase::CreatingTriplets, VcpkgEvent::Done) => {
                self.phase = VcpkgPhase::WritingTriplet;
                VcpkgAction::WriteTriplet {
                    file_name: triplet_file_name(self.triplet.as_str()),
                    content: triplet_file_content(self.os.as_str(), self.arch.as_str()),
                }
            },
            (VcpkgPhase::WritingTriplet, VcpkgEvent::Done) => {
                self.phase = VcpkgPhase::Finished;
                VcpkgAction::Finish
            },
            _ => {
                proof {
                    assert(false);
                }
                VcpkgAction::Finish
            },
        }
    }
}

} // verus!

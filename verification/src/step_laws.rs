//! What each step-by-step procedure asks of the host, stated for every phase
//! and every outcome: which commands run where, which directories are
//! touched, what is downloaded, and when each procedure stops.

use vstd::prelude::*;
use crate::artifact::BuildErrorView;
use crate::platform::{spec_arch_label, spec_os_label};
use crate::vcpkg::{
    spec_triplet_architecture, spec_triplet_file_content, spec_triplet_system,
    spec_vcpkg_expects, spec_vcpkg_step, spec_writes_triplet_next, VcpkgActionView, VcpkgEvent,
    VcpkgPhase,
};
use crate::pdfium::{
    spec_asset_name, spec_asset_url, spec_is_first_asset, spec_names_asset_next,
    spec_pdfium_expects, spec_pdfium_step, PdfiumActionView, PdfiumEventView, PdfiumPhase,
};
use crate::harvest::{
    spec_harvest_begin, spec_harvest_expects, spec_harvest_step, HarvestActionView, HarvestEvent,
    HarvestPhase,
};

verus! {

/// The preparation of vcpkg clones it from Microsoft's repository with git,
/// in the current directory, exactly when the checkout is missing; it runs the
/// bootstrap script, without arguments and inside the checkout, exactly when
/// the checkout was found or has just been cloned.
pub proof fn law_vcpkg_commands(
    os: Seq<char>,
    arch: Seq<char>,
    triplet: Seq<char>,
    phase: VcpkgPhase,
    event: VcpkgEvent,
)
    requires
        spec_vcpkg_expects(phase, event),
    ensures
        ({
            let a = spec_vcpkg_step(os, arch, triplet, phase, event).1;
            &&& (a is Clone) == (phase == VcpkgPhase::CheckingCheckout && event
                == VcpkgEvent::Exists(false))
            &&& a is Clone ==> a->Clone_0 == (
                "git"@,
                seq!["clone"@, "https://github.com/microsoft/vcpkg.git"@],
                false,
            )
            &&& (a is Bootstrap) == ((phase == VcpkgPhase::CheckingCheckout && event
                == VcpkgEvent::Exists(true)) || (phase == VcpkgPhase::Cloning && event
                == VcpkgEvent::Exited(true)))
            &&& a is Bootstrap ==> a->Bootstrap_0 == (
                if os == "windows"@ {
                    "bootstrap-vcpkg.bat"@
                } else {
                    "./bootstrap-vcpkg.sh"@
                },
                Seq::<Seq<char>>::empty(),
                true,
            )
        }),
{
}

/// How the preparation of vcpkg ends: a failed clone or bootstrap stops it
/// with that failure; after a successful bootstrap Windows is done, and every
/// other system goes on to the `triplets` directory, creating it only when it
/// is missing, and then writes the custom triplet file of the host, named
/// `<triplet>.cmake`, after which it is done.
pub proof fn law_vcpkg_outcomes(
    os: Seq<char>,
    arch: Seq<char>,
    triplet: Seq<char>,
    phase: VcpkgPhase,
    event: VcpkgEvent,
)
    requires
        spec_vcpkg_expects(phase, event),
    ensures
        ({
            let r = spec_vcpkg_step(os, arch, triplet, phase, event);
            let a = r.1;
            &&& (a == VcpkgActionView::Fail(BuildErrorView::CloneFailed)) == (phase
                == VcpkgPhase::Cloning && event == VcpkgEvent::Exited(false))
            &&& (a == VcpkgActionView::Fail(BuildErrorView::BootstrapFailed)) == (phase
                == VcpkgPhase::Bootstrapping && event == VcpkgEvent::Exited(false))
            &&& (a is Fail) == (r.0 == VcpkgPhase::Failed)
            &&& (phase == VcpkgPhase::Bootstrapping && event == VcpkgEvent::Exited(true)) ==> (
            a == VcpkgActionView::Finish) == (os == "windows"@)
            &&& (a == VcpkgActionView::CheckTripletsDir) == (phase == VcpkgPhase::Bootstrapping
                && event == VcpkgEvent::Exited(true) && os != "windows"@)
            &&& (a == VcpkgActionView::CreateTripletsDir) == (phase == VcpkgPhase::CheckingTriplets
                && event == VcpkgEvent::Exists(false))
            &&& (a is WriteTriplet) == ((phase == VcpkgPhase::CheckingTriplets && event
                == VcpkgEvent::Exists(true)) || (phase == VcpkgPhase::CreatingTriplets && event
                == VcpkgEvent::Done))
            &&& a is WriteTriplet ==> a == VcpkgActionView::WriteTriplet(
                triplet + ".cmake"@,
                spec_triplet_file_content(
                    spec_triplet_architecture(arch).unwrap(),
                    spec_triplet_system(os).unwrap(),
                ),
            )
            &&& (a == VcpkgActionView::Finish) == ((phase == VcpkgPhase::WritingTriplet && event
                == VcpkgEvent::Done) || (phase == VcpkgPhase::Bootstrapping && event
                == VcpkgEvent::Exited(true) && os == "windows"@))
            &&& (a == VcpkgActionView::Finish) == (r.0 == VcpkgPhase::Finished)
        }),
{
}

/// When some asset of a release has a name, a first asset of that name exists.
pub proof fn lemma_first_asset_exists(assets: Seq<(Seq<char>, Seq<char>)>, name: Seq<char>, i: int)
    requires
        0 <= i < assets.len(),
        assets[i].0 == name,
    ensures
        exists|k: int| spec_is_first_asset(assets, name, k),
    decreases i,
{
    if forall|j: int| 0 <= j < i ==> assets[j].0 != name {
        assert(spec_is_first_asset(assets, name, i));
    } else {
        let j = choose|j: int| 0 <= j < i && assets[j].0 == name;
        lemma_first_asset_exists(assets, name, j);
    }
}

/// The asset looked up by name is the first one of that name in the order
/// the release lists them, and none is found only when no asset has it.
pub proof fn law_asset_lookup(assets: Seq<(Seq<char>, Seq<char>)>, name: Seq<char>)
    ensures
        spec_asset_url(assets, name) matches Some(url) ==> exists|i: int|
            0 <= i < assets.len() && #[trigger] assets[i] == (name, url) && forall|j: int|
                0 <= j < i ==> assets[j].0 != name,
        spec_asset_url(assets, name) is None ==> forall|i: int|
            0 <= i < assets.len() ==> assets[i].0 != name,
{
    if exists|k: int| spec_is_first_asset(assets, name, k) {
        let k = choose|k: int| spec_is_first_asset(assets, name, k);
        assert(assets[k] == (name, assets[k].1));
    } else {
        assert forall|i: int| 0 <= i < assets.len() implies assets[i].0 != name by {
            if assets[i].0 == name {
                lemma_first_asset_exists(assets, name, i);
            }
        }
    }
}

/// The installation of PDFium downloads nothing when `pdfium/` is already in
/// place; otherwise it asks the GitHub API for the latest release of
/// `bblanchon/pdfium-binaries` as `jevy-binaries/1.0`, stops on any status
/// outside 200..=299 with that status, stops when the answer is no release,
/// downloads the first asset named for the host and stops when there is
/// none, then unpacks it. Either way the artifact is `pdfium-<os>-<arch>`
/// lying in `pdfium/`.
pub proof fn law_pdfium_protocol(os: Seq<char>, arch: Seq<char>, phase: PdfiumPhase, event: PdfiumEventView)
    requires
        spec_pdfium_expects(phase, event),
    ensures
        ({
            let r = spec_pdfium_step(os, arch, phase, event);
            let a = r.1;
            let artifact = (
                "pdfium"@ + "-"@ + spec_os_label(os) + "-"@ + spec_arch_label(arch),
                seq!["pdfium"@],
            );
            let name = spec_asset_name(os, arch);
            &&& (a is AlreadyInstalled) == (phase == PdfiumPhase::CheckingDir && event
                == PdfiumEventView::Exists(true))
            &&& a is AlreadyInstalled ==> a->AlreadyInstalled_0 == artifact
            &&& (a is Installed) == (phase == PdfiumPhase::Extracting && event
                == PdfiumEventView::Done)
            &&& a is Installed ==> a->Installed_0 == artifact
            &&& (a is RequestRelease) == (phase == PdfiumPhase::CheckingDir && event
                == PdfiumEventView::Exists(false))
            &&& a is RequestRelease ==> a == PdfiumActionView::RequestRelease(
                "https://api.github.com/repos/bblanchon/pdfium-binaries/releases/latest"@,
                "jevy-binaries/1.0"@,
            )
            &&& (a is ReadRelease) == (phase == PdfiumPhase::RequestingRelease && (
            event matches PdfiumEventView::Status(s) && 200 <= s <= 299))
            &&& forall|s: u16|
                (phase == PdfiumPhase::RequestingRelease && event == PdfiumEventView::Status(s)
                    && !(200 <= s <= 299)) ==> a == PdfiumActionView::Fail(
                    BuildErrorView::ReleaseRequestFailed(s),
                )
            &&& (a == PdfiumActionView::Fail(BuildErrorView::ReleaseParseFailed)) == (phase
                == PdfiumPhase::ReadingRelease && event == PdfiumEventView::Release(None))
            &&& a matches PdfiumActionView::Download(url) ==> (phase == PdfiumPhase::ReadingRelease
                && (event matches PdfiumEventView::Release(Some(assets)) && exists|i: int|
                0 <= i < assets.len() && #[trigger] assets[i] == (name, url) && forall|j: int|
                    0 <= j < i ==> assets[j].0 != name))
            &&& (phase == PdfiumPhase::ReadingRelease && (event matches PdfiumEventView::Release(
                Some(assets),
            ) && exists|i: int| 0 <= i < assets.len() && #[trigger] assets[i].0 == name))
                ==> a is Download
            &&& a matches PdfiumActionView::Fail(BuildErrorView::AssetNotFound(n)) ==> (n == name
                && phase == PdfiumPhase::ReadingRelease && (event matches PdfiumEventView::Release(
                Some(assets),
            ) && forall|i: int| 0 <= i < assets.len() ==> assets[i].0 != name))
            &&& (a is Extract) == (phase == PdfiumPhase::Downloading && event
                == PdfiumEventView::Done)
            &&& (a is Fail) == (r.0 == PdfiumPhase::Failed)
        }),
{
    reveal_strlit("pdfium");
    match event {
        PdfiumEventView::Release(Some(assets)) => {
            law_asset_lookup(assets, spec_asset_name(os, arch));
            if exists|i: int| 0 <= i < assets.len() && #[trigger] assets[i].0 == spec_asset_name(os, arch) {
                let i = choose|i: int| 0 <= i < assets.len() && #[trigger] assets[i].0 == spec_asset_name(os, arch);
                lemma_first_asset_exists(assets, spec_asset_name(os, arch), i);
            }
        },
        _ => {},
    }
}

/// A harvest starts at the first artifact's directory `dist/<name>`, or is
/// over at once when there is nothing to harvest.
pub proof fn law_harvest_start(artifacts: Seq<Seq<char>>)
    ensures
        artifacts.len() == 0 ==> spec_harvest_begin(artifacts, 0) == (
            HarvestPhase::Finished,
            HarvestActionView::Finish,
        ),
        artifacts.len() > 0 ==> spec_harvest_begin(artifacts, 0) == (
            HarvestPhase::Checking,
            HarvestActionView::CheckOutputDir(seq!["dist"@, artifacts[0]]),
        ),
{
}

/// Every directory a harvest step touches is `dist/<name>` of the artifact
/// being harvested: that one is checked, removed only when it exists,
/// created, and copied into; then the harvest moves to the next artifact, and
/// ends after the last one.
pub proof fn law_harvest_directories(
    artifacts: Seq<Seq<char>>,
    index: int,
    phase: HarvestPhase,
    event: HarvestEvent,
)
    requires
        0 <= index < artifacts.len(),
        phase != HarvestPhase::Finished,
        spec_harvest_expects(phase, event),
    ensures
        ({
            let r = spec_harvest_step(artifacts, index, phase, event);
            let a = r.2;
            let own = seq!["dist"@, artifacts[index]];
            &&& r.1 == if phase == HarvestPhase::Copying {
                index + 1
            } else {
                index
            }
            &&& (a is RemoveOutputDir) == (phase == HarvestPhase::Checking && event
                == HarvestEvent::Exists(true))
            &&& a is RemoveOutputDir ==> a->RemoveOutputDir_0 == own
            &&& (a is CreateOutputDir) == ((phase == HarvestPhase::Checking && event
                == HarvestEvent::Exists(false)) || phase == HarvestPhase::Removing)
            &&& a is CreateOutputDir ==> a->CreateOutputDir_0 == own
            &&& (a is Copy) == (phase == HarvestPhase::Creating)
            &&& a is Copy ==> a == HarvestActionView::Copy(index, own)
            &&& a is CheckOutputDir ==> (phase == HarvestPhase::Copying && index + 1
                < artifacts.len() && a->CheckOutputDir_0 == seq!["dist"@, artifacts[index + 1]])
            &&& (a is Finish) == (phase == HarvestPhase::Copying && index + 1 == artifacts.len())
            &&& (a is Finish) == (r.0 == HarvestPhase::Finished)
        }),
{
}

/// What the preparation of vcpkg waits for: an answer on whether a
/// directory exists while looking for the checkout or for `triplets`, an exit
/// status while cloning or bootstrapping, a completion while creating
/// `triplets` or writing the file, and nothing once finished or failed. It
/// writes the triplet file next exactly after finding `triplets` or creating
/// it. After each action it stands in the phase that waits for that action's
/// outcome.
pub proof fn law_vcpkg_phases(
    os: Seq<char>,
    arch: Seq<char>,
    triplet: Seq<char>,
    phase: VcpkgPhase,
    event: VcpkgEvent,
)
    ensures
        spec_vcpkg_expects(phase, event) == (((phase == VcpkgPhase::CheckingCheckout || phase
            == VcpkgPhase::CheckingTriplets) && event is Exists) || ((phase == VcpkgPhase::Cloning
            || phase == VcpkgPhase::Bootstrapping) && event is Exited) || ((phase
            == VcpkgPhase::CreatingTriplets || phase == VcpkgPhase::WritingTriplet) && event
            == VcpkgEvent::Done)),
        spec_writes_triplet_next(phase, event) == ((phase == VcpkgPhase::CheckingTriplets
            && event == VcpkgEvent::Exists(true)) || (phase == VcpkgPhase::CreatingTriplets
            && event == VcpkgEvent::Done)),
        spec_vcpkg_expects(phase, event) ==> ({
            let r = spec_vcpkg_step(os, arch, triplet, phase, event);
            &&& r.1 is Clone ==> r.0 == VcpkgPhase::Cloning
            &&& r.1 is Bootstrap ==> r.0 == VcpkgPhase::Bootstrapping
            &&& r.1 == VcpkgActionView::CheckTripletsDir ==> r.0 == VcpkgPhase::CheckingTriplets
            &&& r.1 == VcpkgActionView::CreateTripletsDir ==> r.0 == VcpkgPhase::CreatingTriplets
            &&& r.1 is WriteTriplet ==> r.0 == VcpkgPhase::WritingTriplet
            &&& r.1 != VcpkgActionView::CheckCheckout
        }),
{
}

/// What the installation of PDFium waits for: whether `pdfium/` exists
/// while looking for it, a status while requesting the release, the release
/// while reading it, a completion while downloading or unpacking, and nothing
/// once finished or failed. It names the asset next exactly when `pdfium/`
/// was found missing. After each action it stands in the phase that waits for
/// that action's outcome.
pub proof fn law_pdfium_phases(os: Seq<char>, arch: Seq<char>, phase: PdfiumPhase, event: PdfiumEventView)
    ensures
        spec_pdfium_expects(phase, event) == ((phase == PdfiumPhase::CheckingDir && event is Exists)
            || (phase == PdfiumPhase::RequestingRelease && event is Status) || (phase
            == PdfiumPhase::ReadingRelease && event is Release) || ((phase == PdfiumPhase::Downloading
            || phase == PdfiumPhase::Extracting) && event == PdfiumEventView::Done)),
        spec_names_asset_next(phase, event) == (phase == PdfiumPhase::CheckingDir && event
            == PdfiumEventView::Exists(false)),
        spec_pdfium_expects(phase, event) ==> ({
            let r = spec_pdfium_step(os, arch, phase, event);
            &&& r.1 is RequestRelease ==> r.0 == PdfiumPhase::RequestingRelease
            &&& r.1 is ReadRelease ==> r.0 == PdfiumPhase::ReadingRelease
            &&& r.1 is Download ==> r.0 == PdfiumPhase::Downloading
            &&& r.1 is Extract ==> r.0 == PdfiumPhase::Extracting
            &&& (r.1 is AlreadyInstalled || r.1 is Installed) == (r.0 == PdfiumPhase::Finished)
            &&& r.1 != PdfiumActionView::CheckDir
        }),
{
}

/// What a harvest waits for: whether the output directory exists while
/// looking at it, a completion while removing, creating or copying, and
/// nothing once finished. After each action it stands in the phase that waits
/// for that action's outcome.
pub proof fn law_harvest_phases(
    artifacts: Seq<Seq<char>>,
    index: int,
    phase: HarvestPhase,
    event: HarvestEvent,
)
    ensures
        spec_harvest_expects(phase, event) == ((phase == HarvestPhase::Checking && event is Exists)
            || ((phase == HarvestPhase::Removing || phase == HarvestPhase::Creating || phase
            == HarvestPhase::Copying) && event == HarvestEvent::Done)),
        spec_harvest_expects(phase, event) ==> ({
            let r = spec_harvest_step(artifacts, index, phase, event);
            &&& r.2 is CheckOutputDir ==> r.0 == HarvestPhase::Checking
            &&& r.2 is RemoveOutputDir ==> r.0 == HarvestPhase::Removing
            &&& r.2 is CreateOutputDir ==> r.0 == HarvestPhase::Creating
            &&& r.2 is Copy ==> r.0 == HarvestPhase::Copying
        }),
{
}

} // verus!

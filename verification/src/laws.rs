//! Properties that tie the planning functions together.

use vstd::prelude::*;
use crate::platform::{
    spec_triplet, spec_pdfium_asset, spec_target_name, PdfiumPlatformError, TripletError,
};
use crate::vcpkg::{
    spec_custom_triplet_supported, spec_triplet_architecture, spec_triplet_system,
    spec_vcpkg_expects, spec_vcpkg_step, VcpkgActionView, VcpkgEvent, VcpkgPhase,
};
use crate::harvest::spec_output_dir;
use crate::pdfium::{spec_pdfium_step, PdfiumEventView, PdfiumPhase};

verus! {

/// The PDFium release asset a host downloads is the archive of the name the
/// PDFium artifact is harvested under: `<target name>.tgz`.
pub proof fn law_pdfium_asset_is_target_archive(os: Seq<char>, arch: Seq<char>)
    requires
        spec_pdfium_asset(os, arch) is Ok,
    ensures
        spec_pdfium_asset(os, arch) == Ok::<Seq<char>, PdfiumPlatformError>(
            spec_target_name("pdfium"@, os, arch) + ".tgz"@,
        ),
{
    reveal_strlit("pdfium-");
    reveal_strlit("pdfium");
    reveal_strlit("-");
    assert("pdfium-"@ =~= "pdfium"@ + "-"@);
    let name = spec_pdfium_asset(os, arch)->Ok_0;
    assert(name =~= spec_target_name("pdfium"@, os, arch) + ".tgz"@);
}

/// The FFmpeg and PDFium artifacts are never harvested under the same name,
/// whatever hosts they were made on, so neither harvest directory replaces
/// the other.
pub proof fn law_artifact_names_distinct(os1: Seq<char>, arch1: Seq<char>, os2: Seq<char>, arch2: Seq<char>)
    ensures
        spec_target_name("ffmpeg"@, os1, arch1) != spec_target_name("pdfium"@, os2, arch2),
        spec_output_dir(spec_target_name("ffmpeg"@, os1, arch1)) != spec_output_dir(
            spec_target_name("pdfium"@, os2, arch2),
        ),
{
    reveal_strlit("ffmpeg");
    reveal_strlit("pdfium");
    let f = spec_target_name("ffmpeg"@, os1, arch1);
    let p = spec_target_name("pdfium"@, os2, arch2);
    assert(f[0] == 'f');
    assert(p[0] == 'p');
    assert(spec_output_dir(f)[1] == f);
    assert(spec_output_dir(p)[1] == p);
}

/// Every host that has a vcpkg triplet and is not Windows can be given the
/// custom triplet file, so preparing vcpkg for it never stops at that step.
pub proof fn law_triplet_host_has_custom_triplet(os: Seq<char>, arch: Seq<char>)
    requires
        spec_triplet(os, arch) is Ok,
        os != "windows"@,
    ensures
        spec_custom_triplet_supported(os, arch),
{
}

/// The triplet name that the custom triplet file describes.
pub open spec fn spec_described_triplet(architecture: Seq<char>, system: Seq<char>) -> Seq<char> {
    (if architecture == "arm64"@ {
        "arm64"@
    } else {
        "x64"@
    }) + "-"@ + (if system == "Darwin"@ {
        "osx"@
    } else {
        "linux"@
    }) + "-static"@
}

/// Outside Windows, the custom triplet file written for a host describes the
/// very triplet the host builds for: its architecture and system name the
/// triplet's two first parts.
pub proof fn law_custom_triplet_describes_triplet(os: Seq<char>, arch: Seq<char>)
    requires
        spec_triplet(os, arch) is Ok,
        os != "windows"@,
    ensures
        spec_triplet(os, arch) == Ok::<Seq<char>, TripletError>(
            spec_described_triplet(
                spec_triplet_architecture(arch).unwrap(),
                spec_triplet_system(os).unwrap(),
            ),
        ),
{
    reveal_strlit("arm64");
    reveal_strlit("x86_64");
    reveal_strlit("x64");
    reveal_strlit("osx");
    reveal_strlit("linux");
    reveal_strlit("Darwin");
    reveal_strlit("Linux");
    reveal_strlit("-");
    reveal_strlit("-static");
    reveal_strlit("arm64-osx-static");
    reveal_strlit("x64-osx-static");
    reveal_strlit("x64-linux-static");
    assert("x86_64"@ != "arm64"@) by {
        assert("x86_64"@[0] != "arm64"@[0]);
    }
    reveal_strlit("aarch64");
    assert("x86_64"@ != "aarch64"@) by {
        assert("x86_64"@[1] != "aarch64"@[1]);
    }
    assert("Linux"@ != "Darwin"@) by {
        assert("Linux"@[0] != "Darwin"@[0]);
    }
    assert("arm64-osx-static"@ =~= "arm64"@ + "-"@ + "osx"@ + "-static"@);
    assert("x64-osx-static"@ =~= "x64"@ + "-"@ + "osx"@ + "-static"@);
    assert("x64-linux-static"@ =~= "x64"@ + "-"@ + "linux"@ + "-static"@);
    if os == "macos"@ {
        assert(spec_triplet_system(os) == Some("Darwin"@));
        if arch == "aarch64"@ {
            assert(spec_triplet_architecture(arch) == Some("arm64"@));
        } else {
            assert(spec_triplet_architecture(arch) == Some("x86_64"@));
        }
    } else {
        assert(os == "linux"@);
        assert(spec_triplet_system(os) == Some("Linux"@));
        assert(spec_triplet_architecture(arch) == Some("x86_64"@));
    }
}

/// The phases a preparation for Windows can be in.
pub open spec fn spec_windows_phase(phase: VcpkgPhase) -> bool {
    ||| phase == VcpkgPhase::CheckingCheckout
    ||| phase == VcpkgPhase::Cloning
    ||| phase == VcpkgPhase::Bootstrapping
    ||| phase == VcpkgPhase::Finished
    ||| phase == VcpkgPhase::Failed
}

/// On Windows the preparation of vcpkg never writes a custom triplet file:
/// from the first phase on, every step stays among the phases that precede
/// the triplet directory, and none asks for the file.
pub proof fn law_windows_writes_no_triplet(
    arch: Seq<char>,
    triplet: Seq<char>,
    phase: VcpkgPhase,
    event: VcpkgEvent,
)
    requires
        spec_windows_phase(phase),
        spec_vcpkg_expects(phase, event),
    ensures
        spec_windows_phase(spec_vcpkg_step("windows"@, arch, triplet, phase, event).0),
        !(spec_vcpkg_step("windows"@, arch, triplet, phase, event).1 is WriteTriplet),
        spec_vcpkg_step("windows"@, arch, triplet, phase, event).1 != VcpkgActionView::CheckTripletsDir,
{
}

/// PDFium yields the same artifact whether it was already in place or was
/// downloaded and unpacked just now.
pub proof fn law_pdfium_artifact_same_either_way(os: Seq<char>, arch: Seq<char>)
    ensures
        ({
            let skipped = spec_pdfium_step(os, arch, PdfiumPhase::CheckingDir, PdfiumEventView::Exists(true)).1;
            let installed = spec_pdfium_step(os, arch, PdfiumPhase::Extracting, PdfiumEventView::Done).1;
            &&& skipped is AlreadyInstalled
            &&& installed is Installed
            &&& skipped->AlreadyInstalled_0 == installed->Installed_0
        }),
{
}

} // verus!

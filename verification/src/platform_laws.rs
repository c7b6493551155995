//! What the host tables say, stated host by host: which hosts have a triplet
//! or a PDFium asset, and what every name a host gets is made of.

use vstd::prelude::*;
use crate::platform::{
    spec_arch_label, spec_os_label, spec_pdfium_asset, spec_target_name, spec_triplet,
    string_result, PdfiumPlatformError, TripletError,
};
use crate::ffmpeg::{
    spec_ffmpeg_artifact, spec_ffmpeg_install_command, spec_ffmpeg_installed_dir,
    spec_ffmpeg_package, spec_ffmpeg_target_name, spec_vcpkg_executable,
};
use crate::vcpkg::{
    spec_bootstrap_script, spec_custom_triplet_supported, spec_triplet_architecture,
    spec_triplet_file_content, spec_triplet_file_name, spec_triplet_system,
};
use crate::pdfium::{
    spec_asset_name, spec_is_first_asset, spec_is_success, spec_pdfium_artifact,
    spec_pdfium_dir, spec_release_url, spec_user_agent,
};
use crate::harvest::spec_output_dir;

verus! {

/// The host names the tables tell apart are different strings.
pub proof fn lemma_host_names_distinct()
    ensures
        "macos"@ != "windows"@,
        "macos"@ != "linux"@,
        "windows"@ != "linux"@,
        "aarch64"@ != "x86_64"@,
        "aarch64"@ != "arm64"@,
        "aarch64"@ != "x64"@,
        "x86_64"@ != "arm64"@,
        "x86_64"@ != "x64"@,
        "arm64"@ != "x64"@,
{
    reveal_strlit("macos");
    reveal_strlit("windows");
    reveal_strlit("linux");
    reveal_strlit("aarch64");
    reveal_strlit("x86_64");
    reveal_strlit("arm64");
    reveal_strlit("x64");
    assert("macos"@[0] != "windows"@[0]);
    assert("macos"@[0] != "linux"@[0]);
    assert("windows"@[0] != "linux"@[0]);
    assert("aarch64"@[0] != "x86_64"@[0]);
    assert("aarch64"@[1] != "arm64"@[1]);
    assert("aarch64"@[0] != "x64"@[0]);
    assert("x86_64"@[0] != "arm64"@[0]);
    assert("x86_64"@[1] != "x64"@[1]);
    assert("arm64"@[0] != "x64"@[0]);
}

/// The triplet of every host: Apple and Windows hosts on ARM64 or x86-64,
/// and Linux on x86-64, have one; every other host is refused, and the
/// refusal names what is unsupported.
pub proof fn law_triplet_of_every_host(os: Seq<char>, arch: Seq<char>)
    ensures
        os == "macos"@ && arch == "aarch64"@ ==> spec_triplet(os, arch) == Ok::<
            Seq<char>,
            TripletError,
        >("arm64-osx-static"@),
        os == "macos"@ && arch == "x86_64"@ ==> spec_triplet(os, arch) == Ok::<
            Seq<char>,
            TripletError,
        >("x64-osx-static"@),
        os == "windows"@ && arch == "aarch64"@ ==> spec_triplet(os, arch) == Ok::<
            Seq<char>,
            TripletError,
        >("arm64-windows-static-md"@),
        os == "windows"@ && arch == "x86_64"@ ==> spec_triplet(os, arch) == Ok::<
            Seq<char>,
            TripletError,
        >("x64-windows-static-md"@),
        os == "linux"@ && arch == "x86_64"@ ==> spec_triplet(os, arch) == Ok::<
            Seq<char>,
            TripletError,
        >("x64-linux-static"@),
        os == "macos"@ && arch != "aarch64"@ && arch != "x86_64"@ ==> spec_triplet(os, arch)
            == Err::<Seq<char>, TripletError>(TripletError::UnsupportedMacArch),
        os == "windows"@ && arch != "aarch64"@ && arch != "x86_64"@ ==> spec_triplet(os, arch)
            == Err::<Seq<char>, TripletError>(TripletError::UnsupportedWindowsArch),
        os == "linux"@ && arch != "x86_64"@ ==> spec_triplet(os, arch) == Err::<
            Seq<char>,
            TripletError,
        >(TripletError::UnsupportedLinuxArch),
        os != "macos"@ && os != "windows"@ && os != "linux"@ ==> spec_triplet(os, arch) == Err::<
            Seq<char>,
            TripletError,
        >(TripletError::UnsupportedOs),
{
    lemma_host_names_distinct();
}

/// PDFium is released for macOS, Windows and Linux, each on x86-64 and on
/// ARM64: every one of these six hosts gets an asset.
pub proof fn law_pdfium_asset_of_supported_hosts(os: Seq<char>, arch: Seq<char>)
    requires
        os == "macos"@ || os == "windows"@ || os == "linux"@,
        arch == "x86_64"@ || arch == "aarch64"@,
    ensures
        spec_pdfium_asset(os, arch) is Ok,
{
    lemma_host_names_distinct();
}

/// A host gets no PDFium asset only for its operating system, or, on a
/// supported system, only for its architecture.
pub proof fn law_pdfium_asset_refusals(os: Seq<char>, arch: Seq<char>)
    ensures
        os != "macos"@ && os != "windows"@ && os != "linux"@ ==> spec_pdfium_asset(os, arch)
            == Err::<Seq<char>, PdfiumPlatformError>(PdfiumPlatformError::UnsupportedOs),
        (os == "macos"@ || os == "windows"@ || os == "linux"@) && arch != "x86_64"@ && arch
            != "aarch64"@ ==> spec_pdfium_asset(os, arch) == Err::<
            Seq<char>,
            PdfiumPlatformError,
        >(PdfiumPlatformError::UnsupportedArch),
{
    lemma_host_names_distinct();
}

/// The labels an artifact name carries: `mac` for macOS, `win` for Windows
/// and `linux` for every other system; `x64` for x86-64 and `arm64` for every
/// other architecture. A target name is the component, the system label and
/// the architecture label, joined by dashes.
pub proof fn law_artifact_labels(component: Seq<char>, os: Seq<char>, arch: Seq<char>)
    ensures
        os == "macos"@ ==> spec_os_label(os) == "mac"@,
        os == "windows"@ ==> spec_os_label(os) == "win"@,
        os != "macos"@ && os != "windows"@ ==> spec_os_label(os) == "linux"@,
        arch == "x86_64"@ ==> spec_arch_label(arch) == "x64"@,
        arch != "x86_64"@ ==> spec_arch_label(arch) == "arm64"@,
        spec_target_name(component, os, arch) == component + "-"@ + spec_os_label(os) + "-"@
            + spec_arch_label(arch),
{
    lemma_host_names_distinct();
}

/// vcpkg is run as `vcpkg.exe` exactly on Windows, and as `./vcpkg` on every
/// other system, macOS and Linux included; its bootstrap script is the batch
/// file exactly on Windows and the shell script elsewhere.
pub proof fn law_vcpkg_executable(os: Seq<char>)
    ensures
        (spec_vcpkg_executable(os) == "vcpkg.exe"@) == (os == "windows"@),
        os != "windows"@ ==> spec_vcpkg_executable(os) == "./vcpkg"@,
        (spec_bootstrap_script(os) == "bootstrap-vcpkg.bat"@) == (os == "windows"@),
        os != "windows"@ ==> spec_bootstrap_script(os) == "./bootstrap-vcpkg.sh"@,
{
    reveal_strlit("vcpkg.exe");
    reveal_strlit("./vcpkg");
    reveal_strlit("bootstrap-vcpkg.bat");
    reveal_strlit("./bootstrap-vcpkg.sh");
    assert("vcpkg.exe"@[0] != "./vcpkg"@[0]);
    assert("bootstrap-vcpkg.bat"@[0] != "./bootstrap-vcpkg.sh"@[0]);
}

/// The FFmpeg package asks for the core and the six features the factory
/// ships, for exactly the given triplet, and is installed below
/// `installed/<triplet>`.
pub proof fn law_ffmpeg_package(triplet: Seq<char>)
    ensures
        spec_ffmpeg_package(triplet) == "ffmpeg"@ + "["@ + "core,avcodec,avformat,avfilter"@
            + ",swresample,swscale,dav1d"@ + "]"@ + ":"@ + triplet,
        spec_ffmpeg_installed_dir(triplet) == seq!["installed"@, triplet],
{
    reveal_strlit("ffmpeg[core,avcodec,avformat,avfilter,swresample,swscale,dav1d]:");
    reveal_strlit("ffmpeg");
    reveal_strlit("[");
    reveal_strlit("core,avcodec,avformat,avfilter");
    reveal_strlit(",swresample,swscale,dav1d");
    reveal_strlit("]");
    reveal_strlit(":");
    assert("ffmpeg[core,avcodec,avformat,avfilter,swresample,swscale,dav1d]:"@ =~= "ffmpeg"@
        + "["@ + "core,avcodec,avformat,avfilter"@ + ",swresample,swscale,dav1d"@ + "]"@
        + ":"@);
}

/// The custom triplet declares the architecture `arm64` for ARM hosts and
/// `x86_64` for x86-64 hosts (under either spelling), and the CMake system
/// `Darwin` for macOS and `Linux` for Linux; no other host has one.
pub proof fn law_custom_triplet_table(os: Seq<char>, arch: Seq<char>)
    ensures
        arch == "aarch64"@ || arch == "arm64"@ ==> spec_triplet_architecture(arch) == Some(
            "arm64"@,
        ),
        arch == "x86_64"@ || arch == "x64"@ ==> spec_triplet_architecture(arch) == Some(
            "x86_64"@,
        ),
        arch != "aarch64"@ && arch != "arm64"@ && arch != "x86_64"@ && arch != "x64"@
            ==> spec_triplet_architecture(arch) is None,
        os == "macos"@ ==> spec_triplet_system(os) == Some("Darwin"@),
        os == "linux"@ ==> spec_triplet_system(os) == Some("Linux"@),
        os != "macos"@ && os != "linux"@ ==> spec_triplet_system(os) is None,
{
    lemma_host_names_distinct();
}

/// The custom triplet file holds four lines, of which only the architecture
/// and the system name vary: the C runtime is always linked dynamically and
/// the libraries always statically. It is named after the triplet, with the
/// `.cmake` extension.
pub proof fn law_triplet_file(architecture: Seq<char>, system: Seq<char>, triplet: Seq<char>)
    ensures
        spec_triplet_file_content(architecture, system) == ("set(VCPKG_TARGET_ARCHITECTURE "@
            + architecture + ")"@ + "\n"@) + ("set(VCPKG_CRT_LINKAGE dynamic)"@ + "\n"@) + (
        "set(VCPKG_LIBRARY_LINKAGE static)"@ + "\n"@) + ("set(VCPKG_CMAKE_SYSTEM_NAME "@ + system
            + ")"@ + "\n"@),
        spec_triplet_file_name(triplet) == triplet + "."@ + "cmake"@,
{
    reveal_strlit(
        ")\nset(VCPKG_CRT_LINKAGE dynamic)\nset(VCPKG_LIBRARY_LINKAGE static)\nset(VCPKG_CMAKE_SYSTEM_NAME ",
    );
    reveal_strlit(")\n");
    reveal_strlit(")");
    reveal_strlit("\n");
    reveal_strlit("set(VCPKG_CRT_LINKAGE dynamic)");
    reveal_strlit("set(VCPKG_LIBRARY_LINKAGE static)");
    reveal_strlit("set(VCPKG_CMAKE_SYSTEM_NAME ");
    reveal_strlit(".cmake");
    reveal_strlit(".");
    reveal_strlit("cmake");
    let mid = ")\nset(VCPKG_CRT_LINKAGE dynamic)\nset(VCPKG_LIBRARY_LINKAGE static)\nset(VCPKG_CMAKE_SYSTEM_NAME "@;
    assert(mid =~= ")"@ + "\n"@ + ("set(VCPKG_CRT_LINKAGE dynamic)"@ + "\n"@) + (
    "set(VCPKG_LIBRARY_LINKAGE static)"@ + "\n"@) + "set(VCPKG_CMAKE_SYSTEM_NAME "@);
    assert(")\n"@ =~= ")"@ + "\n"@);
    assert(spec_triplet_file_content(architecture, system) =~= ("set(VCPKG_TARGET_ARCHITECTURE "@
        + architecture + ")"@ + "\n"@) + ("set(VCPKG_CRT_LINKAGE dynamic)"@ + "\n"@) + (
    "set(VCPKG_LIBRARY_LINKAGE static)"@ + "\n"@) + ("set(VCPKG_CMAKE_SYSTEM_NAME "@ + system
        + ")"@ + "\n"@));
    assert(".cmake"@ =~= "."@ + "cmake"@);
}

/// A string result is seen through its string's characters, and an error
/// stays the same error.
pub proof fn law_string_result<E>(s: String, e: E)
    ensures
        string_result(Ok::<String, E>(s)) == Ok::<Seq<char>, E>(s@),
        string_result(Err::<String, E>(e)) == Err::<Seq<char>, E>(e),
{
}

/// FFmpeg is installed by running vcpkg's executable for the host with
/// `install`, the package and `--recurse`, inside the checkout; its artifact
/// is `ffmpeg-<os>-<arch>` lying in `installed/<triplet>`.
pub proof fn law_ffmpeg_install(os: Seq<char>, arch: Seq<char>, triplet: Seq<char>)
    ensures
        spec_ffmpeg_install_command(os, triplet) == (
            spec_vcpkg_executable(os),
            seq!["install"@, spec_ffmpeg_package(triplet), "--recurse"@],
            true,
        ),
        spec_ffmpeg_target_name(os, arch) == "ffmpeg"@ + "-"@ + spec_os_label(os) + "-"@
            + spec_arch_label(arch),
        spec_ffmpeg_artifact(os, arch, triplet) == (
            "ffmpeg"@ + "-"@ + spec_os_label(os) + "-"@ + spec_arch_label(arch),
            seq!["installed"@, triplet],
        ),
{
}

/// A host can be given the custom triplet file exactly when both its
/// architecture and its system have a triplet name.
pub proof fn law_custom_triplet_supported(os: Seq<char>, arch: Seq<char>)
    ensures
        spec_custom_triplet_supported(os, arch) == (spec_triplet_architecture(arch) is Some
            && spec_triplet_system(os) is Some),
{
}

/// PDFium's release is asked for at the GitHub API address of
/// `bblanchon/pdfium-binaries`'s latest release, as `jevy-binaries/1.0`; a
/// status means success exactly from 200 to 299; PDFium lies in `pdfium/`
/// under the name `pdfium-<os>-<arch>`; and the asset looked for is the one
/// the host's PDFium platform names.
pub proof fn law_pdfium_constants(os: Seq<char>, arch: Seq<char>, status: u16)
    ensures
        spec_release_url() == "https://api.github.com/repos/bblanchon/pdfium-binaries/releases/latest"@,
        spec_user_agent() == "jevy-binaries/1.0"@,
        spec_is_success(status) == (200 <= status && status <= 299),
        spec_pdfium_dir() == seq!["pdfium"@],
        spec_pdfium_artifact(os, arch) == (
            "pdfium"@ + "-"@ + spec_os_label(os) + "-"@ + spec_arch_label(arch),
            seq!["pdfium"@],
        ),
        spec_pdfium_asset(os, arch) matches Ok(name) ==> spec_asset_name(os, arch) == name,
{
}

/// Position `i` holds the first asset of a name exactly when it is a position
/// of the release, that asset has the name, and no asset before it has.
pub proof fn law_first_asset(assets: Seq<(Seq<char>, Seq<char>)>, name: Seq<char>, i: int)
    ensures
        spec_is_first_asset(assets, name, i) == (0 <= i < assets.len() && assets[i].0 == name
            && forall|j: int| 0 <= j < i ==> assets[j].0 != name),
{
}

/// An artifact is harvested into `dist/<name>`.
pub proof fn law_output_dir(name: Seq<char>)
    ensures
        spec_output_dir(name) == seq!["dist"@, name],
{
}

} // verus!

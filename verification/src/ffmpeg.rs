//! Installing FFmpeg with vcpkg.

use vstd::prelude::*;
use vstd::string::*;
use crate::text::str_eq;
use crate::platform::{spec_target_name, target_name};
use crate::artifact::{Artifact, BuildError, ToolCommand, two_strings};

verus! {

/// The vcpkg executable, relative to the vcpkg checkout.
pub open spec fn spec_vcpkg_executable(os: Seq<char>) -> Seq<char> {
    if os == "windows"@ {
        "vcpkg.exe"@
    } else {
        "./vcpkg"@
    }
}

/// The vcpkg package specification: FFmpeg with the features the factory
/// ships, for the given triplet.
pub open spec fn spec_ffmpeg_package(triplet: Seq<char>) -> Seq<char> {
    "ffmpeg[core,avcodec,avformat,avfilter,swresample,swscale,dav1d]:"@ + triplet
}

/// Where vcpkg installs the packages of a triplet, below the vcpkg checkout.
pub open spec fn spec_ffmpeg_installed_dir(triplet: Seq<char>) -> Seq<Seq<char>> {
    seq!["installed"@, triplet]
}

/// The command that installs FFmpeg for a triplet: the vcpkg executable with
/// `install <package> --recurse`, run inside the vcpkg checkout.
pub open spec fn spec_ffmpeg_install_command(os: Seq<char>, triplet: Seq<char>) -> (
    Seq<char>,
    Seq<Seq<char>>,
    bool,
) {
    (spec_vcpkg_executable(os), seq!["install"@, spec_ffmpeg_package(triplet), "--recurse"@], true)
}

/// The name FFmpeg's artifact is harvested under.
pub open spec fn spec_ffmpeg_target_name(os: Seq<char>, arch: Seq<char>) -> Seq<char> {
    spec_target_name("ffmpeg"@, os, arch)
}

/// The artifact FFmpeg yields: named for the host, lying in vcpkg's install
/// tree of the triplet.
pub open spec fn spec_ffmpeg_artifact(os: Seq<char>, arch: Seq<char>, triplet: Seq<char>) -> (
    Seq<char>,
    Seq<Seq<char>>,
) {
    (spec_ffmpeg_target_name(os, arch), spec_ffmpeg_installed_dir(triplet))
}

/// The vcpkg executable of a host.
pub fn vcpkg_executable(os: &str) -> (exe: &'static str)
    ensures
        exe@ == spec_vcpkg_executable(os@),
{
    if str_eq(os, "windows") {
        "vcpkg.exe"
    } else {
        "./vcpkg"
    }
}

/// The vcpkg package specification for a triplet.
pub fn ffmpeg_package(triplet: &str) -> (p: String)
    ensures
        p@ == spec_ffmpeg_package(triplet@),
{
    let mut p = String::from_str("ffmpeg[core,avcodec,avformat,avfilter,swresample,swscale,dav1d]:");
    p.append(triplet);
    p
}

/// The command that installs FFmpeg: `<vcpkg> install <package> --recurse`,
/// run inside the vcpkg checkout.
pub fn ffmpeg_install_command(os: &str, triplet: &str) -> (c: ToolCommand)
    ensures
        c@ == spec_ffmpeg_install_command(os@, triplet@),
{
    let mut args: Vec<String> = Vec::new();
    args.push(String::from_str("install"));
    args.push(ffmpeg_package(triplet));
    args.push(String::from_str("--recurse"));
    let c = ToolCommand { program: String::from_str(vcpkg_executable(os)), args, in_vcpkg_root: true };
    assert(c.args.deep_view() =~= seq!["install"@, spec_ffmpeg_package(triplet@), "--recurse"@]);
    c
}

/// The name FFmpeg's artifact is harvested under, such as `ffmpeg-mac-arm64`.
pub fn ffmpeg_target_name(os: &str, arch: &str) -> (n: String)
    ensures
        n@ == spec_ffmpeg_target_name(os@, arch@),
{
    target_name("ffmpeg", os, arch)
}

/// What the installation yields once `vcpkg install` has exited: on success the
/// artifact, named for the host and lying in vcpkg's install tree of the
/// triplet; otherwise the failure.
pub fn ffmpeg_install_outcome(succeeded: bool, os: &str, arch: &str, triplet: &str) -> (r: Result<
    Artifact,
    BuildError,
>)
    ensures
        succeeded <==> r is Ok,
        r matches Ok(a) ==> a@ == spec_ffmpeg_artifact(os@, arch@, triplet@),
        r matches Err(e) ==> e is VcpkgInstallFailed,
{
    if !succeeded {
        return Err(BuildError::VcpkgInstallFailed);
    }
    let name = ffmpeg_target_name(os, arch);
    let dir = two_strings(String::from_str("installed"), String::from_str(triplet));
    Ok(Artifact { name, dir })
}

} // verus!

//! The host platform: which vcpkg triplet it builds for, which PDFium release
//! asset it downloads, and the labels its artifacts are named with.
//!
//! A platform is given as the two strings that Rust reports for the host
//! (`std::env::consts::OS` and `std::env::consts::ARCH`), for example
//! `"linux"` and `"x86_64"`.

use vstd::prelude::*;
use vstd::string::*;
use crate::text::str_eq;

verus! {

/// A `Result` holding a `String`, seen through the string's characters.
pub open spec fn string_result<E>(r: Result<String, E>) -> Result<Seq<char>, E> {
    match r {
        Ok(s) => Ok(s@),
        Err(e) => Err(e),
    }
}

/// Why no vcpkg triplet exists for a host.
#[derive(Debug, Clone, Copy, PartialEq, Eq, Structural)]
pub enum TripletError {
    /// macOS on an architecture other than `aarch64` and `x86_64`.
    UnsupportedMacArch,
    /// Windows on an architecture other than `aarch64` and `x86_64`.
    UnsupportedWindowsArch,
    /// Linux on an architecture other than `x86_64`.
    UnsupportedLinuxArch,
    /// An operating system other than macOS, Windows and Linux.
    UnsupportedOs,
}

/// The static vcpkg triplet that a host builds for.
pub open spec fn spec_triplet(os: Seq<char>, arch: Seq<char>) -> Result<Seq<char>, TripletError> {
    if os == "macos"@ {
        if arch == "aarch64"@ {
            Ok("arm64-osx-static"@)
        } else if arch == "x86_64"@ {
            Ok("x64-osx-static"@)
        } else {
            Err(TripletError::UnsupportedMacArch)
        }
    } else if os == "windows"@ {
        if arch == "aarch64"@ {
            Ok("arm64-windows-static-md"@)
        } else if arch == "x86_64"@ {
            Ok("x64-windows-static-md"@)
        } else {
            Err(TripletError::UnsupportedWindowsArch)
        }
    } else if os == "linux"@ {
        if arch == "x86_64"@ {
            Ok("x64-linux-static"@)
        } else {
            Err(TripletError::UnsupportedLinuxArch)
        }
    } else {
        Err(TripletError::UnsupportedOs)
    }
}

/// The vcpkg triplet of a host, or why it has none.
pub fn check_triplet(os: &str, arch: &str) -> (r: Result<String, TripletError>)
    ensures
        string_result(r) == spec_triplet(os@, arch@),
{
    if str_eq(os, "macos") {
        if str_eq(arch, "aarch64") {
            Ok(String::from_str("arm64-osx-static"))
        } else if str_eq(arch, "x86_64") {
            Ok(String::from_str("x64-osx-static"))
        } else {
            Err(TripletError::UnsupportedMacArch)
        }
    } else if str_eq(os, "windows") {
        if str_eq(arch, "aarch64") {
            Ok(String::from_str("arm64-windows-static-md"))
        } else if str_eq(arch, "x86_64") {
            Ok(String::from_str("x64-windows-static-md"))
        } else {
            Err(TripletError::UnsupportedWindowsArch)
        }
    } else if str_eq(os, "linux") {
        if str_eq(arch, "x86_64") {
            Ok(String::from_str("x64-linux-static"))
        } else {
            Err(TripletError::UnsupportedLinuxArch)
        }
    } else {
        Err(TripletError::UnsupportedOs)
    }
}

/// The vcpkg triplet of a supported host.
pub fn determine_triplet(os: &str, arch: &str) -> (t: String)
    requires
        spec_triplet(os@, arch@) is Ok,
    ensures
        spec_triplet(os@, arch@) == Ok::<Seq<char>, TripletError>(t@),
{
    match check_triplet(os, arch) {
        Ok(t) => t,
        Err(_) => {
            proof {
                assert(false);
            }
            String::new()
        },
    }
}

/// Why no PDFium release asset exists for a host.
#[derive(Debug, Clone, Copy, PartialEq, Eq, Structural)]
pub enum PdfiumPlatformError {
    /// An operating system other than macOS, Windows and Linux.
    UnsupportedOs,
    /// An architecture other than `x86_64` and `aarch64`.
    UnsupportedArch,
}

/// The platform part of a PDFium asset name.
pub open spec fn spec_pdfium_os(os: Seq<char>) -> Option<Seq<char>> {
    if os == "macos"@ {
        Some("mac"@)
    } else if os == "windows"@ {
        Some("win"@)
    } else if os == "linux"@ {
        Some("linux"@)
    } else {
        None
    }
}

/// The architecture part of a PDFium asset name.
pub open spec fn spec_pdfium_arch(arch: Seq<char>) -> Option<Seq<char>> {
    if arch == "x86_64"@ {
        Some("x64"@)
    } else if arch == "aarch64"@ {
        Some("arm64"@)
    } else {
        None
    }
}

/// The name of the PDFium release asset for a host; the operating system is
/// checked before the architecture.
pub open spec fn spec_pdfium_asset(os: Seq<char>, arch: Seq<char>) -> Result<
    Seq<char>,
    PdfiumPlatformError,
> {
    match spec_pdfium_os(os) {
        None => Err(PdfiumPlatformError::UnsupportedOs),
        Some(p) => match spec_pdfium_arch(arch) {
            None => Err(PdfiumPlatformError::UnsupportedArch),
            Some(a) => Ok("pdfium-"@ + p + "-"@ + a + ".tgz"@),
        },
    }
}

fn pdfium_os(os: &str) -> (r: Option<&'static str>)
    ensures
        match r {
            Some(s) => spec_pdfium_os(os@) == Some(s@),
            None => spec_pdfium_os(os@) is None,
        },
{
    if str_eq(os, "macos") {
        Some("mac")
    } else if str_eq(os, "windows") {
        Some("win")
    } else if str_eq(os, "linux") {
        Some("linux")
    } else {
        None
    }
}

fn pdfium_arch(arch: &str) -> (r: Option<&'static str>)
    ensures
        match r {
            Some(s) => spec_pdfium_arch(arch@) == Some(s@),
            None => spec_pdfium_arch(arch@) is None,
        },
{
    if str_eq(arch, "x86_64") {
        Some("x64")
    } else if str_eq(arch, "aarch64") {
        Some("arm64")
    } else {
        None
    }
}

/// The PDFium release asset of a host, or why it has none.
pub fn check_pdfium_platform(os: &str, arch: &str) -> (r: Result<String, PdfiumPlatformError>)
    ensures
        string_result(r) == spec_pdfium_asset(os@, arch@),
{
    match pdfium_os(os) {
        None => Err(PdfiumPlatformError::UnsupportedOs),
        Some(p) => match pdfium_arch(arch) {
            None => Err(PdfiumPlatformError::UnsupportedArch),
            Some(a) => {
                let mut name = String::from_str("pdfium-");
                name.append(p);
                name.append("-");
                name.append(a);
                name.append(".tgz");
                Ok(name)
            },
        },
    }
}

/// The PDFium release asset of a supported host, such as `pdfium-linux-x64.tgz`.
pub fn determine_pdfium_platform(os: &str, arch: &str) -> (name: String)
    requires
        spec_pdfium_asset(os@, arch@) is Ok,
    ensures
        spec_pdfium_asset(os@, arch@) == Ok::<Seq<char>, PdfiumPlatformError>(name@),
{
    match check_pdfium_platform(os, arch) {
        Ok(name) => name,
        Err(_) => {
            proof {
                assert(false);
            }
            String::new()
        },
    }
}

/// The operating-system label of an artifact name: anything that is neither
/// macOS nor Windows is labelled as Linux.
pub open spec fn spec_os_label(os: Seq<char>) -> Seq<char> {
    if os == "macos"@ {
        "mac"@
    } else if os == "windows"@ {
        "win"@
    } else {
        "linux"@
    }
}

/// The architecture label of an artifact name: anything that is not `x86_64`
/// is labelled as `arm64`.
pub open spec fn spec_arch_label(arch: Seq<char>) -> Seq<char> {
    if arch == "x86_64"@ {
        "x64"@
    } else {
        "arm64"@
    }
}

/// The name under which an artifact of a component is harvested, such as
/// `ffmpeg-linux-x64`.
pub open spec fn spec_target_name(component: Seq<char>, os: Seq<char>, arch: Seq<char>) -> Seq<
    char,
> {
    component + "-"@ + spec_os_label(os) + "-"@ + spec_arch_label(arch)
}

/// The operating-system label of an artifact name.
pub fn os_label(os: &str) -> (l: &'static str)
    ensures
        l@ == spec_os_label(os@),
{
    if str_eq(os, "macos") {
        "mac"
    } else if str_eq(os, "windows") {
        "win"
    } else {
        "linux"
    }
}

/// The architecture label of an artifact name.
pub fn arch_label(arch: &str) -> (l: &'static str)
    ensures
        l@ == spec_arch_label(arch@),
{
    if str_eq(arch, "x86_64") {
        "x64"
    } else {
        "arm64"
    }
}

/// The name under which an artifact of `component` is harvested on a host.
pub fn target_name(component: &str, os: &str, arch: &str) -> (n: String)
    ensures
        n@ == spec_target_name(component@, os@, arch@),
{
    let mut n = String::from_str(component);
    n.append("-");
    n.append(os_label(os));
    n.append("-");
    n.append(arch_label(arch));
    n
}

} // verus!

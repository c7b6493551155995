use jevy_binaries::platform::{
    arch_label, check_pdfium_platform, check_triplet, determine_pdfium_platform, determine_triplet,
    os_label, target_name, PdfiumPlatformError, TripletError,
};
use jevy_binaries::ffmpeg::{
    ffmpeg_install_command, ffmpeg_install_outcome, ffmpeg_package, ffmpeg_target_name,
    vcpkg_executable,
};
use jevy_binaries::artifact::BuildError;
use jevy_binaries::text::str_eq;

#[test]
fn triplets_of_supported_hosts() {
    assert_eq!(determine_triplet("macos", "aarch64"), "arm64-osx-static");
    assert_eq!(determine_triplet("macos", "x86_64"), "x64-osx-static");
    assert_eq!(determine_triplet("windows", "aarch64"), "arm64-windows-static-md");
    assert_eq!(determine_triplet("windows", "x86_64"), "x64-windows-static-md");
    assert_eq!(determine_triplet("linux", "x86_64"), "x64-linux-static");
}

#[test]
fn triplet_errors_of_unsupported_hosts() {
    assert!(matches!(check_triplet("macos", "powerpc"), Err(TripletError::UnsupportedMacArch)));
    assert!(matches!(check_triplet("windows", "x86"), Err(TripletError::UnsupportedWindowsArch)));
    assert!(matches!(check_triplet("linux", "aarch64"), Err(TripletError::UnsupportedLinuxArch)));
    assert!(matches!(check_triplet("freebsd", "x86_64"), Err(TripletError::UnsupportedOs)));
    assert!(matches!(check_triplet("", ""), Err(TripletError::UnsupportedOs)));
}

#[test]
fn pdfium_assets_of_supported_hosts() {
    assert_eq!(determine_pdfium_platform("macos", "aarch64"), "pdfium-mac-arm64.tgz");
    assert_eq!(determine_pdfium_platform("macos", "x86_64"), "pdfium-mac-x64.tgz");
    assert_eq!(determine_pdfium_platform("windows", "x86_64"), "pdfium-win-x64.tgz");
    assert_eq!(determine_pdfium_platform("linux", "aarch64"), "pdfium-linux-arm64.tgz");
    assert_eq!(determine_pdfium_platform("linux", "x86_64"), "pdfium-linux-x64.tgz");
}

#[test]
fn pdfium_platform_errors() {
    // The operating system is checked before the architecture.
    assert!(matches!(check_pdfium_platform("ios", "riscv64"), Err(PdfiumPlatformError::UnsupportedOs)));
    assert!(matches!(check_pdfium_platform("linux", "riscv64"), Err(PdfiumPlatformError::UnsupportedArch)));
}

#[test]
fn artifact_labels_default_to_linux_and_arm64() {
    assert_eq!(os_label("macos"), "mac");
    assert_eq!(os_label("windows"), "win");
    assert_eq!(os_label("linux"), "linux");
    assert_eq!(os_label("freebsd"), "linux");
    assert_eq!(arch_label("x86_64"), "x64");
    assert_eq!(arch_label("aarch64"), "arm64");
    assert_eq!(arch_label("riscv64"), "arm64");
    assert_eq!(target_name("pdfium", "windows", "x86_64"), "pdfium-win-x64");
}

#[test]
fn ffmpeg_names_and_command() {
    assert_eq!(ffmpeg_target_name("macos", "aarch64"), "ffmpeg-mac-arm64");
    assert_eq!(ffmpeg_target_name("linux", "x86_64"), "ffmpeg-linux-x64");
    assert_eq!(vcpkg_executable("windows"), "vcpkg.exe");
    assert_eq!(vcpkg_executable("linux"), "./vcpkg");
    assert_eq!(
        ffmpeg_package("x64-linux-static"),
        "ffmpeg[core,avcodec,avformat,avfilter,swresample,swscale,dav1d]:x64-linux-static"
    );
    let c = ffmpeg_install_command("windows", "x64-windows-static-md");
    assert_eq!(c.program, "vcpkg.exe");
    assert_eq!(
        c.args,
        vec![
            "install".to_string(),
            "ffmpeg[core,avcodec,avformat,avfilter,swresample,swscale,dav1d]:x64-windows-static-md".to_string(),
            "--recurse".to_string(),
        ]
    );
    assert!(c.in_vcpkg_root);
}

#[test]
fn ffmpeg_outcome() {
    let ok = ffmpeg_install_outcome(true, "linux", "x86_64", "x64-linux-static").unwrap();
    assert_eq!(ok.name, "ffmpeg-linux-x64");
    assert_eq!(ok.dir, vec!["installed".to_string(), "x64-linux-static".to_string()]);
    assert!(matches!(
        ffmpeg_install_outcome(false, "linux", "x86_64", "x64-linux-static"),
        Err(BuildError::VcpkgInstallFailed)
    ));
}

#[test]
fn pdfium_asset_is_target_archive_on_every_supported_host() {
    for os in ["macos", "windows", "linux", "freebsd"] {
        for arch in ["x86_64", "aarch64", "x86"] {
            if let Ok(asset) = check_pdfium_platform(os, arch) {
                assert_eq!(asset, format!("{}.tgz", target_name("pdfium", os, arch)));
            }
        }
    }
}

#[test]
fn artifact_names_never_collide() {
    for os in ["macos", "windows", "linux"] {
        for arch in ["x86_64", "aarch64"] {
            assert_ne!(ffmpeg_target_name(os, arch), target_name("pdfium", os, arch));
        }
    }
}

#[test]
fn string_equality() {
    assert!(str_eq("", ""));
    assert!(str_eq("macos", "macos"));
    assert!(!str_eq("macos", "macOS"));
    assert!(!str_eq("mac", "macos"));
    assert!(str_eq("ünïcode", "ünïcode"));
}

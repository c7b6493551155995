use jevy_binaries::artifact::{Artifact, BuildError};
use jevy_binaries::harvest::{output_dir, Harvest, HarvestAction, HarvestEvent, HarvestPhase};
use jevy_binaries::pdfium::{
    asset_position, find_asset, is_success, GithubAsset, GithubRelease, PdfiumAction, PdfiumEvent,
    PdfiumInstall, PdfiumPhase,
};
use jevy_binaries::vcpkg::{
    triplet_architecture, triplet_file_content, triplet_file_name, triplet_system, VcpkgAction,
    VcpkgEvent, VcpkgPhase, VcpkgSetup,
};

fn strings(v: &[&str]) -> Vec<String> {
    v.iter().map(|s| s.to_string()).collect()
}

fn release(assets: &[(&str, &str)]) -> GithubRelease {
    GithubRelease {
        assets: assets
            .iter()
            .map(|(n, u)| GithubAsset { name: n.to_string(), browser_download_url: u.to_string() })
            .collect(),
    }
}

#[test]
fn custom_triplet_file() {
    assert_eq!(triplet_file_name("x64-linux-static"), "x64-linux-static.cmake");
    assert_eq!(
        triplet_file_content("linux", "x86_64"),
        "set(VCPKG_TARGET_ARCHITECTURE x86_64)\nset(VCPKG_CRT_LINKAGE dynamic)\nset(VCPKG_LIBRARY_LINKAGE static)\nset(VCPKG_CMAKE_SYSTEM_NAME Linux)\n"
    );
    assert_eq!(
        triplet_file_content("macos", "arm64"),
        "set(VCPKG_TARGET_ARCHITECTURE arm64)\nset(VCPKG_CRT_LINKAGE dynamic)\nset(VCPKG_LIBRARY_LINKAGE static)\nset(VCPKG_CMAKE_SYSTEM_NAME Darwin)\n"
    );
    assert_eq!(triplet_architecture("aarch64"), Some("arm64"));
    assert_eq!(triplet_architecture("x64"), Some("x86_64"));
    assert_eq!(triplet_architecture("riscv64"), None);
    assert_eq!(triplet_system("macos"), Some("Darwin"));
    assert_eq!(triplet_system("windows"), None);
}

#[test]
fn vcpkg_fresh_clone_on_linux() {
    let (mut s, a) = VcpkgSetup::new("linux", "x86_64", "x64-linux-static");
    assert!(matches!(a, VcpkgAction::CheckCheckout));
    match s.step(VcpkgEvent::Exists(false)) {
        VcpkgAction::Clone(c) => {
            assert_eq!(c.program, "git");
            assert_eq!(c.args, strings(&["clone", "https://github.com/microsoft/vcpkg.git"]));
            assert!(!c.in_vcpkg_root);
        }
        _ => panic!("expected clone"),
    }
    match s.step(VcpkgEvent::Exited(true)) {
        VcpkgAction::Bootstrap(c) => {
            assert_eq!(c.program, "./bootstrap-vcpkg.sh");
            assert!(c.args.is_empty());
            assert!(c.in_vcpkg_root);
        }
        _ => panic!("expected bootstrap"),
    }
    assert!(matches!(s.step(VcpkgEvent::Exited(true)), VcpkgAction::CheckTripletsDir));
    assert!(matches!(s.step(VcpkgEvent::Exists(false)), VcpkgAction::CreateTripletsDir));
    assert!(s.writes_triplet_next(VcpkgEvent::Done));
    match s.step(VcpkgEvent::Done) {
        VcpkgAction::WriteTriplet { file_name, content } => {
            assert_eq!(file_name, "x64-linux-static.cmake");
            assert!(content.contains("VCPKG_CMAKE_SYSTEM_NAME Linux"));
        }
        _ => panic!("expected triplet file"),
    }
    assert!(matches!(s.step(VcpkgEvent::Done), VcpkgAction::Finish));
    assert_eq!(s.phase, VcpkgPhase::Finished);
    assert!(!s.expects(VcpkgEvent::Done));
}

#[test]
fn vcpkg_on_windows_stops_after_bootstrap() {
    let (mut s, _) = VcpkgSetup::new("windows", "x86_64", "x64-windows-static-md");
    match s.step(VcpkgEvent::Exists(true)) {
        VcpkgAction::Bootstrap(c) => assert_eq!(c.program, "bootstrap-vcpkg.bat"),
        _ => panic!("expected bootstrap"),
    }
    assert!(matches!(s.step(VcpkgEvent::Exited(true)), VcpkgAction::Finish));
    assert_eq!(s.phase, VcpkgPhase::Finished);
}

#[test]
fn vcpkg_failures() {
    let (mut s, _) = VcpkgSetup::new("macos", "aarch64", "arm64-osx-static");
    s.step(VcpkgEvent::Exists(false));
    assert!(matches!(s.step(VcpkgEvent::Exited(false)), VcpkgAction::Fail(BuildError::CloneFailed)));
    assert_eq!(s.phase, VcpkgPhase::Failed);

    let (mut s, _) = VcpkgSetup::new("macos", "aarch64", "arm64-osx-static");
    s.step(VcpkgEvent::Exists(true));
    assert!(matches!(s.step(VcpkgEvent::Exited(false)), VcpkgAction::Fail(BuildError::BootstrapFailed)));
}

#[test]
fn vcpkg_existing_triplets_dir_goes_straight_to_the_file() {
    let (mut s, _) = VcpkgSetup::new("macos", "x86_64", "x64-osx-static");
    s.step(VcpkgEvent::Exists(true));
    s.step(VcpkgEvent::Exited(true));
    match s.step(VcpkgEvent::Exists(true)) {
        VcpkgAction::WriteTriplet { file_name, content } => {
            assert_eq!(file_name, "x64-osx-static.cmake");
            assert!(content.starts_with("set(VCPKG_TARGET_ARCHITECTURE x86_64)\n"));
            assert!(content.ends_with("set(VCPKG_CMAKE_SYSTEM_NAME Darwin)\n"));
        }
        _ => panic!("expected triplet file"),
    }
}

#[test]
fn asset_lookup_takes_the_first_match() {
    let r = release(&[("a.tgz", "u1"), ("pdfium-linux-x64.tgz", "u2"), ("pdfium-linux-x64.tgz", "u3")]);
    assert_eq!(asset_position(&r, "pdfium-linux-x64.tgz"), Some(1));
    assert_eq!(find_asset(&r, "pdfium-linux-x64.tgz").unwrap().browser_download_url, "u2");
    assert_eq!(asset_position(&r, "pdfium-mac-x64.tgz"), None);
    assert!(find_asset(&release(&[]), "a.tgz").is_none());
}

#[test]
fn status_success_range() {
    assert!(!is_success(199));
    assert!(is_success(200));
    assert!(is_success(299));
    assert!(!is_success(300));
    assert!(!is_success(404));
}

#[test]
fn pdfium_skips_an_existing_install() {
    let (mut p, a) = PdfiumInstall::new("linux", "x86_64");
    assert!(matches!(a, PdfiumAction::CheckDir));
    match p.step(PdfiumEvent::Exists(true)) {
        PdfiumAction::AlreadyInstalled(Artifact { name, dir }) => {
            assert_eq!(name, "pdfium-linux-x64");
            assert_eq!(dir, strings(&["pdfium"]));
        }
        _ => panic!("expected skip"),
    }
    assert_eq!(p.phase, PdfiumPhase::Finished);
}

#[test]
fn pdfium_download_and_extract() {
    let (mut p, _) = PdfiumInstall::new("macos", "aarch64");
    assert!(p.names_asset_next(&PdfiumEvent::Exists(false)));
    match p.step(PdfiumEvent::Exists(false)) {
        PdfiumAction::RequestRelease { url, user_agent } => {
            assert_eq!(url, "https://api.github.com/repos/bblanchon/pdfium-binaries/releases/latest");
            assert_eq!(user_agent, "jevy-binaries/1.0");
        }
        _ => panic!("expected request"),
    }
    assert_eq!(p.asset, "pdfium-mac-arm64.tgz");
    assert!(matches!(p.step(PdfiumEvent::Status(200)), PdfiumAction::ReadRelease));
    let r = release(&[("pdfium-mac-x64.tgz", "x"), ("pdfium-mac-arm64.tgz", "https://dl/arm")]);
    match p.step(PdfiumEvent::Release(Some(r))) {
        PdfiumAction::Download { url } => assert_eq!(url, "https://dl/arm"),
        _ => panic!("expected download"),
    }
    assert!(matches!(p.step(PdfiumEvent::Done), PdfiumAction::Extract));
    match p.step(PdfiumEvent::Done) {
        PdfiumAction::Installed(a) => assert_eq!(a.name, "pdfium-mac-arm64"),
        _ => panic!("expected installed"),
    }
}

#[test]
fn pdfium_failures() {
    let (mut p, _) = PdfiumInstall::new("linux", "x86_64");
    p.step(PdfiumEvent::Exists(false));
    assert!(matches!(
        p.step(PdfiumEvent::Status(403)),
        PdfiumAction::Fail(BuildError::ReleaseRequestFailed { status: 403 })
    ));

    let (mut p, _) = PdfiumInstall::new("linux", "x86_64");
    p.step(PdfiumEvent::Exists(false));
    p.step(PdfiumEvent::Status(200));
    assert!(matches!(p.step(PdfiumEvent::Release(None)), PdfiumAction::Fail(BuildError::ReleaseParseFailed)));

    let (mut p, _) = PdfiumInstall::new("linux", "x86_64");
    p.step(PdfiumEvent::Exists(false));
    p.step(PdfiumEvent::Status(200));
    match p.step(PdfiumEvent::Release(Some(release(&[("pdfium-win-x64.tgz", "u")])))) {
        PdfiumAction::Fail(BuildError::AssetNotFound { asset }) => assert_eq!(asset, "pdfium-linux-x64.tgz"),
        _ => panic!("expected missing asset"),
    }
    assert_eq!(p.phase, PdfiumPhase::Failed);
}

#[test]
fn harvest_replaces_existing_output() {
    let (mut h, a) = Harvest::new(strings(&["ffmpeg-linux-x64", "pdfium-linux-x64"]));
    match a {
        HarvestAction::CheckOutputDir(d) => assert_eq!(d, strings(&["dist", "ffmpeg-linux-x64"])),
        _ => panic!("expected check"),
    }
    assert!(matches!(h.step(HarvestEvent::Exists(true)), HarvestAction::RemoveOutputDir(_)));
    assert!(matches!(h.step(HarvestEvent::Done), HarvestAction::CreateOutputDir(_)));
    match h.step(HarvestEvent::Done) {
        HarvestAction::Copy { index, to } => {
            assert_eq!(index, 0);
            assert_eq!(to, strings(&["dist", "ffmpeg-linux-x64"]));
        }
        _ => panic!("expected copy"),
    }
    match h.step(HarvestEvent::Done) {
        HarvestAction::CheckOutputDir(d) => assert_eq!(d, output_dir("pdfium-linux-x64")),
        _ => panic!("expected second artifact"),
    }
    assert_eq!(h.index, 1);
    assert!(matches!(h.step(HarvestEvent::Exists(false)), HarvestAction::CreateOutputDir(_)));
    assert!(matches!(h.step(HarvestEvent::Done), HarvestAction::Copy { index: 1, .. }));
    assert!(matches!(h.step(HarvestEvent::Done), HarvestAction::Finish));
    assert_eq!(h.phase, HarvestPhase::Finished);
}

#[test]
fn harvest_of_nothing_is_done_at_once() {
    let (h, a) = Harvest::new(Vec::new());
    assert!(matches!(a, HarvestAction::Finish));
    assert_eq!(h.phase, HarvestPhase::Finished);
}

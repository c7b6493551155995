//! How the library's values are seen in its contracts: every string is seen
//! through its characters, every vector of strings through the sequence of
//! theirs, and nothing else is changed or dropped.

use vstd::prelude::*;
use crate::artifact::{Artifact, BuildError, BuildErrorView, ToolCommand};
use crate::vcpkg::{VcpkgAction, VcpkgActionView};
use crate::pdfium::{
    GithubAsset, GithubRelease, PdfiumAction, PdfiumActionView, PdfiumEvent, PdfiumEventView,
};
use crate::harvest::{Harvest, HarvestAction, HarvestActionView};

verus! {

/// A vector of strings is seen as the sequence of its strings' characters.
pub proof fn law_strings_view(v: Vec<String>)
    ensures
        v.deep_view().len() == v@.len(),
        forall|i: int| 0 <= i < v@.len() ==> #[trigger] v.deep_view()[i] == v@[i]@,
{
}

/// A command is seen as its program, its arguments, and where it runs.
pub proof fn law_tool_command_view(c: ToolCommand)
    ensures
        c@.0 == c.program@,
        c@.1 == c.args.deep_view(),
        c@.2 == c.in_vcpkg_root,
{
}

/// An artifact is seen as its name and its directory.
pub proof fn law_artifact_view(a: Artifact)
    ensures
        a@.0 == a.name@,
        a@.1 == a.dir.deep_view(),
{
}

/// Each failure is seen as the same failure, with the same status or asset name.
pub proof fn law_build_error_view(e: BuildError)
    ensures
        e is CloneFailed ==> e@ == BuildErrorView::CloneFailed,
        e is BootstrapFailed ==> e@ == BuildErrorView::BootstrapFailed,
        e is VcpkgInstallFailed ==> e@ == BuildErrorView::VcpkgInstallFailed,
        e matches BuildError::ReleaseRequestFailed { status } ==> e@
            == BuildErrorView::ReleaseRequestFailed(status),
        e is ReleaseParseFailed ==> e@ == BuildErrorView::ReleaseParseFailed,
        e matches BuildError::AssetNotFound { asset } ==> e@ == BuildErrorView::AssetNotFound(
            asset@,
        ),
{
}

/// Each action of the vcpkg preparation is seen as the same action.
pub proof fn law_vcpkg_action_view(a: VcpkgAction)
    ensures
        a is CheckCheckout ==> a@ == VcpkgActionView::CheckCheckout,
        a matches VcpkgAction::Clone(c) ==> a@ == VcpkgActionView::Clone(c@),
        a matches VcpkgAction::Bootstrap(c) ==> a@ == VcpkgActionView::Bootstrap(c@),
        a is CheckTripletsDir ==> a@ == VcpkgActionView::CheckTripletsDir,
        a is CreateTripletsDir ==> a@ == VcpkgActionView::CreateTripletsDir,
        a matches VcpkgAction::WriteTriplet { file_name, content } ==> a@
            == VcpkgActionView::WriteTriplet(file_name@, content@),
        a is Finish ==> a@ == VcpkgActionView::Finish,
        a matches VcpkgAction::Fail(e) ==> a@ == VcpkgActionView::Fail(e@),
{
}

/// A release asset is seen as its name and its address; a release as the
/// sequence of its assets, in order.
pub proof fn law_release_view(asset: GithubAsset, release: GithubRelease)
    ensures
        asset@ == (asset.name@, asset.browser_download_url@),
        release@.len() == release.assets@.len(),
        forall|i: int|
            0 <= i < release.assets@.len() ==> #[trigger] release@[i] == (
                release.assets@[i].name@,
                release.assets@[i].browser_download_url@,
            ),
{
}

/// Each outcome reported to the PDFium installation is seen as the same outcome.
pub proof fn law_pdfium_event_view(e: PdfiumEvent)
    ensures
        e matches PdfiumEvent::Exists(b) ==> e@ == PdfiumEventView::Exists(b),
        e matches PdfiumEvent::Status(s) ==> e@ == PdfiumEventView::Status(s),
        e matches PdfiumEvent::Release(None) ==> e@ == PdfiumEventView::Release(None),
        e matches PdfiumEvent::Release(Some(r)) ==> e@ == PdfiumEventView::Release(Some(r@)),
        e is Done ==> e@ == PdfiumEventView::Done,
{
}

/// Each action of the PDFium installation is seen as the same action.
pub proof fn law_pdfium_action_view(a: PdfiumAction)
    ensures
        a is CheckDir ==> a@ == PdfiumActionView::CheckDir,
        a matches PdfiumAction::RequestRelease { url, user_agent } ==> a@
            == PdfiumActionView::RequestRelease(url@, user_agent@),
        a is ReadRelease ==> a@ == PdfiumActionView::ReadRelease,
        a matches PdfiumAction::Download { url } ==> a@ == PdfiumActionView::Download(url@),
        a is Extract ==> a@ == PdfiumActionView::Extract,
        a matches PdfiumAction::AlreadyInstalled(x) ==> a@ == PdfiumActionView::AlreadyInstalled(
            x@,
        ),
        a matches PdfiumAction::Installed(x) ==> a@ == PdfiumActionView::Installed(x@),
        a matches PdfiumAction::Fail(e) ==> a@ == PdfiumActionView::Fail(e@),
{
}

/// Each action of a harvest is seen as the same action, and a harvest's
/// artifacts as their names.
pub proof fn law_harvest_view(a: HarvestAction, h: Harvest)
    ensures
        a matches HarvestAction::CheckOutputDir(d) ==> a@ == HarvestActionView::CheckOutputDir(
            d.deep_view(),
        ),
        a matches HarvestAction::RemoveOutputDir(d) ==> a@ == HarvestActionView::RemoveOutputDir(
            d.deep_view(),
        ),
        a matches HarvestAction::CreateOutputDir(d) ==> a@ == HarvestActionView::CreateOutputDir(
            d.deep_view(),
        ),
        a matches HarvestAction::Copy { index, to } ==> a@ == HarvestActionView::Copy(
            index as int,
            to.deep_view(),
        ),
        a is Finish ==> a@ == HarvestActionView::Finish,
        h.artifacts_view() == h.artifacts.deep_view(),
{
}

} // verus!

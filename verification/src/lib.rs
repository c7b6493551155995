//! Planning logic of the FFmpeg / PDFium binary factory: which vcpkg triplet a
//! host builds for, which artifacts it produces and under which names, and the
//! decision procedures that drive the external tools (vcpkg, git, the GitHub
//! release API) one observed outcome at a time.

pub mod text;

pub mod platform;
pub mod artifact;
pub mod ffmpeg;
pub mod vcpkg;
pub mod pdfium;
pub mod harvest;
pub mod laws;
pub mod platform_laws;
pub mod step_laws;
pub mod view_laws;

//! Error taxonomy of the automation layer and the export pipeline.

use vstd::prelude::*;

verus! {

/// A failure of the dynamic automation layer.
#[derive(Clone, Copy, PartialEq, Eq, Structural, Debug)]
pub enum OleError {
    /// The program identifier is not registered with the automation registry.
    ResolutionError,
    /// The automation server could not be instantiated (for example, the
    /// application is not installed).
    InstantiationError,
    /// The member name did not resolve to a dispatch identifier on the
    /// target object.
    MemberNotFound,
    /// A typed accessor was applied to a variant whose active tag differs
    /// from the requested one; carries the requested and the actual tag.
    TypeMismatch { expected: u16, actual: u16 },
    /// The remote object reported a failure while executing the call.
    InvocationError,
}

/// The adapter step at which a provider attempt failed.
#[derive(Clone, Copy, PartialEq, Eq, Structural, Debug)]
pub enum AdapterStep {
    Create,
    SetVisible,
    GetDocuments,
    OpenDocument,
    Export,
    CloseDocument,
}

/// A provider-adapter failure: which step failed, and how.
#[derive(Clone, Copy, PartialEq, Eq, Structural, Debug)]
pub struct AdapterError {
    pub step: AdapterStep,
    pub err: OleError,
}

/// A failure of the whole Docx-to-PDF pipeline.
#[derive(Clone, Copy, PartialEq, Eq, Structural, Debug)]
pub enum PdfError {
    /// Initializing the process-wide automation runtime failed; fatal, no
    /// fallback exists for it.
    RuntimeInitError,
    /// The chosen provider completed but returned a non-zero status code.
    ExportStatusError { status: i32 },
    /// Both provider adapters failed.
    ExportFailed,
}

/// A failure of one of the two subprocess conversion stages: the tool exited
/// with the given non-zero status.
#[derive(Clone, Copy, PartialEq, Eq, Structural, Debug)]
pub enum StageError {
    StageFailed { status: i32 },
}

} // verus!

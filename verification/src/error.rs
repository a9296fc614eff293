//! Why a file is left out of the document, and why a run does not start.

use vstd::prelude::*;

verus! {

/// How loudly an event is logged.
#[derive(Clone, Copy, Debug, PartialEq, Eq, Structural)]
pub enum Severity {
    /// Expected and common: a file without geolocation.
    Trace,
    /// A file or an entry that could not be dealt with.
    Error,
}

/// The four ways in which a file ends without a record.
#[derive(Clone, Copy, Debug, PartialEq, Eq, Structural)]
pub enum OutcomeKind {
    /// The metadata was read and holds no geolocation.
    NoGeoData,
    /// The metadata could not be read.
    ExtractionError,
    /// No thumbnail name can be derived from the path.
    NamingError,
    /// The thumbnail could not be made.
    ThumbnailError,
}

/// Why one file is skipped. The run goes on with the next file.
#[derive(Debug, PartialEq, Eq)]
pub enum EMError {
    /// The file's metadata holds no geolocation.
    NoGPSInformation { filename: Vec<u8> },
    /// The metadata reader failed on the file; `detail` is what it said.
    MetadataUnreadable { filename: Vec<u8>, detail: String },
    /// The path ends in no file name, so there is no stem.
    NoFileStem { filename: Vec<u8> },
    /// The file name has no extension.
    NoFileExtension { filename: Vec<u8> },
    /// A part of the path that has to be text is not.
    NoLosslessProcessingPossible { filename: Vec<u8> },
    /// The image could not be loaded; `detail` is what the resizer said.
    ImageUnreadable { filename: Vec<u8>, detail: String },
    /// A file already stands where the thumbnail would go.
    ThumbnailExists { destination: Vec<u8> },
    /// The thumbnail could not be written; `detail` is what the resizer said.
    ThumbnailUnwritable { destination: Vec<u8>, detail: String },
}

/// An [`EMError`] as a mathematical value.
pub ghost enum EMErrorView {
    NoGPSInformation { filename: Seq<u8> },
    MetadataUnreadable { filename: Seq<u8>, detail: Seq<char> },
    NoFileStem { filename: Seq<u8> },
    NoFileExtension { filename: Seq<u8> },
    NoLosslessProcessingPossible { filename: Seq<u8> },
    ImageUnreadable { filename: Seq<u8>, detail: Seq<char> },
    ThumbnailExists { destination: Seq<u8> },
    ThumbnailUnwritable { destination: Seq<u8>, detail: Seq<char> },
}

impl EMErrorView {
    /// Which of the four ways this is.
    pub open spec fn kind(self) -> OutcomeKind {
        match self {
            EMErrorView::NoGPSInformation { .. } => OutcomeKind::NoGeoData,
            EMErrorView::MetadataUnreadable { .. } => OutcomeKind::ExtractionError,
            EMErrorView::NoFileStem { .. } => OutcomeKind::NamingError,
            EMErrorView::NoFileExtension { .. } => OutcomeKind::NamingError,
            EMErrorView::NoLosslessProcessingPossible { .. } => OutcomeKind::NamingError,
            EMErrorView::ImageUnreadable { .. } => OutcomeKind::ThumbnailError,
            EMErrorView::ThumbnailExists { .. } => OutcomeKind::ThumbnailError,
            EMErrorView::ThumbnailUnwritable { .. } => OutcomeKind::ThumbnailError,
        }
    }

    /// How loudly this is logged: a file without geolocation is no fault.
    pub open spec fn severity(self) -> Severity {
        if self.kind() == OutcomeKind::NoGeoData {
            Severity::Trace
        } else {
            Severity::Error
        }
    }
}

impl View for EMError {
    type V = EMErrorView;

    open spec fn view(&self) -> EMErrorView {
        match self {
            EMError::NoGPSInformation { filename } => EMErrorView::NoGPSInformation {
                filename: filename@,
            },
            EMError::MetadataUnreadable { filename, detail } => EMErrorView::MetadataUnreadable {
                filename: filename@,
                detail: detail@,
            },
            EMError::NoFileStem { filename } => EMErrorView::NoFileStem { filename: filename@ },
            EMError::NoFileExtension { filename } => EMErrorView::NoFileExtension {
                filename: filename@,
            },
            EMError::NoLosslessProcessingPossible {
                filename,
            } => EMErrorView::NoLosslessProcessingPossible { filename: filename@ },
            EMError::ImageUnreadable { filename, detail } => EMErrorView::ImageUnreadable {
                filename: filename@,
                detail: detail@,
            },
            EMError::ThumbnailExists { destination } => EMErrorView::ThumbnailExists {
                destination: destination@,
            },
            EMError::ThumbnailUnwritable {
                destination,
                detail,
            } => EMErrorView::ThumbnailUnwritable { destination: destination@, detail: detail@ },
        }
    }
}

impl EMError {
    /// Which of the four ways this is.
    pub fn kind(&self) -> (kind: OutcomeKind)
        ensures
            kind == self@.kind(),
    {
        match self {
            EMError::NoGPSInformation { .. } => OutcomeKind::NoGeoData,
            EMError::MetadataUnreadable { .. } => OutcomeKind::ExtractionError,
            EMError::NoFileStem { .. } => OutcomeKind::NamingError,
            EMError::NoFileExtension { .. } => OutcomeKind::NamingError,
            EMError::NoLosslessProcessingPossible { .. } => OutcomeKind::NamingError,
            EMError::ImageUnreadable { .. } => OutcomeKind::ThumbnailError,
            EMError::ThumbnailExists { .. } => OutcomeKind::ThumbnailError,
            EMError::ThumbnailUnwritable { .. } => OutcomeKind::ThumbnailError,
        }
    }

    /// How loudly this is logged.
    pub fn severity(&self) -> (severity: Severity)
        ensures
            severity == self@.severity(),
    {
        match self.kind() {
            OutcomeKind::NoGeoData => Severity::Trace,
            _ => Severity::Error,
        }
    }
}

/// Why a run does not start. Nothing has been read or written by then.
#[derive(Clone, Copy, Debug, PartialEq, Eq, Structural)]
pub enum FatalError {
    /// The output directory is the input directory or lies below it.
    OutputInsideInput,
    /// The output path names no directory.
    OutputNotDirectory,
}

} // verus!

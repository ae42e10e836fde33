//! Jobs: the payload of a task.
//!
//! A job is a closed, tagged union of work kinds, each carrying only the data
//! its executor needs. Running a job is the embedding program's business;
//! this crate only carries the description and the typed outcome.
use crate::uuid_string::UuidString;
use vstd::prelude::*;

verus! {

/// How a video is to be processed.
#[derive(Debug, Clone, Copy, PartialEq, Eq, Structural)]
pub enum ProcessingType {
    CompressImportantVideo,
    CompressCrumpleVideo,
    CompressShredVideo,
}

/// A typed failure reported by a job executor.
#[derive(Debug, Clone)]
pub enum Error {
    /// The executor failed without further detail.
    UnknownError,
    /// The media library could not be opened.
    LibraryError(String),
}

/// The mathematical value of a job error.
pub enum ErrorView {
    UnknownError,
    LibraryError(Seq<char>),
}

impl View for Error {
    type V = ErrorView;

    open spec fn view(&self) -> ErrorView {
        match self {
            Error::UnknownError => ErrorView::UnknownError,
            Error::LibraryError(m) => ErrorView::LibraryError(m@),
        }
    }
}

/// A typed success payload reported by a job executor.
#[derive(Debug, Clone)]
pub enum Success {
    /// Nothing to report beyond completion.
    Void,
    /// A video was processed; the source is dry, the outcome wet.
    ProcessedVideo { dry: UuidString, wet: UuidString },
    /// A video was cut; the source is the cloth, the outcome the fragment.
    CutVideo { cloth: UuidString, fragment: UuidString },
}

/// The mathematical value of a success payload.
pub enum SuccessView {
    Void,
    ProcessedVideo { dry: u128, wet: u128 },
    CutVideo { cloth: u128, fragment: u128 },
}

impl View for Success {
    type V = SuccessView;

    open spec fn view(&self) -> SuccessView {
        match self {
            Success::Void => SuccessView::Void,
            Success::ProcessedVideo { dry, wet } => SuccessView::ProcessedVideo {
                dry: dry@,
                wet: wet@,
            },
            Success::CutVideo { cloth, fragment } => SuccessView::CutVideo {
                cloth: cloth@,
                fragment: fragment@,
            },
        }
    }
}

/// One kind of work, with the data needed to carry it out. Paths are held in
/// their textual form.
#[derive(Debug, Clone)]
pub enum Job {
    Sleep { time_nanos: u64 },
    DisplayMessage { message: String },
    DisplayMessageAndSleep { message: String, time_nanos: u64 },
    CutVideo {
        source_proof_uuid: UuidString,
        source_path: String,
        cut_point_start_ms: Option<u64>,
        cut_point_end_ms: Option<u64>,
        destination_path: String,
    },
    ProcessVideo {
        source_proof_uuid: UuidString,
        source_path: String,
        processing_type: ProcessingType,
        destination_path: String,
    },
}

/// The mathematical value of a job.
pub enum JobView {
    Sleep { time_nanos: u64 },
    DisplayMessage { message: Seq<char> },
    DisplayMessageAndSleep { message: Seq<char>, time_nanos: u64 },
    CutVideo {
        source_proof_uuid: u128,
        source_path: Seq<char>,
        cut_point_start_ms: Option<u64>,
        cut_point_end_ms: Option<u64>,
        destination_path: Seq<char>,
    },
    ProcessVideo {
        source_proof_uuid: u128,
        source_path: Seq<char>,
        processing_type: ProcessingType,
        destination_path: Seq<char>,
    },
}

impl View for Job {
    type V = JobView;

    open spec fn view(&self) -> JobView {
        match self {
            Job::Sleep { time_nanos } => JobView::Sleep { time_nanos: *time_nanos },
            Job::DisplayMessage { message } => JobView::DisplayMessage { message: message@ },
            Job::DisplayMessageAndSleep { message, time_nanos } => JobView::DisplayMessageAndSleep {
                message: message@,
                time_nanos: *time_nanos,
            },
            Job::CutVideo {
                source_proof_uuid,
                source_path,
                cut_point_start_ms,
                cut_point_end_ms,
                destination_path,
            } => JobView::CutVideo {
                source_proof_uuid: source_proof_uuid@,
                source_path: source_path@,
                cut_point_start_ms: *cut_point_start_ms,
                cut_point_end_ms: *cut_point_end_ms,
                destination_path: destination_path@,
            },
            Job::ProcessVideo {
                source_proof_uuid,
                source_path,
                processing_type,
                destination_path,
            } => JobView::ProcessVideo {
                source_proof_uuid: source_proof_uuid@,
                source_path: source_path@,
                processing_type: *processing_type,
                destination_path: destination_path@,
            },
        }
    }
}

} // verus!

verus! {

impl Error {
    /// An exact copy.
    pub fn duplicate(&self) -> (r: Error)
        ensures
            r@ == self@,
    {
        match self {
            Error::UnknownError => Error::UnknownError,
            Error::LibraryError(m) => Error::LibraryError(m.clone()),
        }
    }
}

impl Success {
    /// An exact copy.
    pub fn duplicate(&self) -> (r: Success)
        ensures
            r@ == self@,
    {
        match self {
            Success::Void => Success::Void,
            Success::ProcessedVideo { dry, wet } => Success::ProcessedVideo {
                dry: *dry,
                wet: *wet,
            },
            Success::CutVideo { cloth, fragment } => Success::CutVideo {
                cloth: *cloth,
                fragment: *fragment,
            },
        }
    }
}

impl Job {
    /// An exact copy.
    pub fn duplicate(&self) -> (r: Job)
        ensures
            r@ == self@,
    {
        match self {
            Job::Sleep { time_nanos } => Job::Sleep { time_nanos: *time_nanos },
            Job::DisplayMessage { message } => Job::DisplayMessage { message: message.clone() },
            Job::DisplayMessageAndSleep { message, time_nanos } => Job::DisplayMessageAndSleep {
                message: message.clone(),
                time_nanos: *time_nanos,
            },
            Job::CutVideo {
                source_proof_uuid,
                source_path,
                cut_point_start_ms,
                cut_point_end_ms,
                destination_path,
            } => Job::CutVideo {
                source_proof_uuid: *source_proof_uuid,
                source_path: source_path.clone(),
                cut_point_start_ms: *cut_point_start_ms,
                cut_point_end_ms: *cut_point_end_ms,
                destination_path: destination_path.clone(),
            },
            Job::ProcessVideo {
                source_proof_uuid,
                source_path,
                processing_type,
                destination_path,
            } => Job::ProcessVideo {
                source_proof_uuid: *source_proof_uuid,
                source_path: source_path.clone(),
                processing_type: *processing_type,
                destination_path: destination_path.clone(),
            },
        }
    }
}

} // verus!

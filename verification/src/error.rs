//! The failures of the pipeline.

use vstd::prelude::*;

verus! {

/// The four families of failure that a handler reports.
#[derive(Clone, Copy, Debug, PartialEq, Eq, Structural)]
pub enum ErrorKind {
    /// The payload handed to a handler cannot be processed.
    InputInvalid,
    /// A call to the conference, event or transcoding service did not succeed.
    ExternalCallFailed,
    /// A query or a transaction did not succeed.
    PersistenceFailed,
    /// The adjustment or the transcoding itself reported a failure.
    UpstreamReportedFailure,
}

/// The external operation that a failed call was meant to perform.
#[derive(Clone, Copy, Debug, PartialEq, Eq, Structural)]
pub enum Call {
    AdjustRoom,
    ReadRoom,
    ListEvents,
    CreateTask,
    Publish,
}

/// Why a handler gave up.
#[derive(Clone, Copy, Debug, PartialEq, Eq, Structural)]
pub enum Error {
    /// An upload notice came without tracks.
    EmptyTrackList,
    /// An uploaded track has no recording.
    MissingRecording { rtc_id: u128 },
    /// No track holds a segment, so there is nothing to adjust the room to.
    NoSegments,
    /// The class has no recordings to transcode.
    NoRecordings,
    /// The opening time of the event room is not an included bound.
    WrongRoomOpeningTime,
    /// The scope of the class is missing from the tags of a notice.
    MissingScope,
    /// No class is known under the scope that a notice names.
    ClassNotFound,
    /// The duration that the transcoding reported is not a number.
    InvalidDuration,
    /// The transcoding succeeded for a template that this kind of class does not use.
    UnexpectedTemplate,
    /// No post-processing is defined for this kind of class.
    UnsupportedClassType,
    /// A parameter of a request cannot be read.
    InvalidParameter,
    /// The host reported an outcome that does not answer the action it was asked for.
    UnexpectedOutcome,
    /// The room adjustment reported an error.
    AdjustFailed,
    /// The transcoding reported an error.
    TranscodingFailed,
    /// A call to another service failed.
    ExternalCallFailed { call: Call },
    /// A call to another service was not answered in time.
    ExternalCallTimedOut { call: Call },
    /// The database refused a query or a transaction.
    PersistenceFailed,
}

impl Error {
    /// The family that this failure belongs to.
    pub open spec fn spec_kind(self) -> ErrorKind {
        match self {
            Error::EmptyTrackList => ErrorKind::InputInvalid,
            Error::MissingRecording { .. } => ErrorKind::InputInvalid,
            Error::NoSegments => ErrorKind::InputInvalid,
            Error::NoRecordings => ErrorKind::InputInvalid,
            Error::WrongRoomOpeningTime => ErrorKind::InputInvalid,
            Error::MissingScope => ErrorKind::InputInvalid,
            Error::ClassNotFound => ErrorKind::InputInvalid,
            Error::InvalidDuration => ErrorKind::InputInvalid,
            Error::UnexpectedTemplate => ErrorKind::InputInvalid,
            Error::UnsupportedClassType => ErrorKind::InputInvalid,
            Error::InvalidParameter => ErrorKind::InputInvalid,
            Error::UnexpectedOutcome => ErrorKind::InputInvalid,
            Error::AdjustFailed => ErrorKind::UpstreamReportedFailure,
            Error::TranscodingFailed => ErrorKind::UpstreamReportedFailure,
            Error::ExternalCallFailed { .. } => ErrorKind::ExternalCallFailed,
            Error::ExternalCallTimedOut { .. } => ErrorKind::ExternalCallFailed,
            Error::PersistenceFailed => ErrorKind::PersistenceFailed,
        }
    }

    /// The family that this failure belongs to.
    #[verifier::when_used_as_spec(spec_kind)]
    pub fn kind(self) -> (k: ErrorKind)
        ensures
            k == self.spec_kind(),
    {
        match self {
            Error::EmptyTrackList => ErrorKind::InputInvalid,
            Error::MissingRecording { .. } => ErrorKind::InputInvalid,
            Error::NoSegments => ErrorKind::InputInvalid,
            Error::NoRecordings => ErrorKind::InputInvalid,
            Error::WrongRoomOpeningTime => ErrorKind::InputInvalid,
            Error::MissingScope => ErrorKind::InputInvalid,
            Error::ClassNotFound => ErrorKind::InputInvalid,
            Error::InvalidDuration => ErrorKind::InputInvalid,
            Error::UnexpectedTemplate => ErrorKind::InputInvalid,
            Error::UnsupportedClassType => ErrorKind::InputInvalid,
            Error::InvalidParameter => ErrorKind::InputInvalid,
            Error::UnexpectedOutcome => ErrorKind::InputInvalid,
            Error::AdjustFailed => ErrorKind::UpstreamReportedFailure,
            Error::TranscodingFailed => ErrorKind::UpstreamReportedFailure,
            Error::ExternalCallFailed { .. } => ErrorKind::ExternalCallFailed,
            Error::ExternalCallTimedOut { .. } => ErrorKind::ExternalCallFailed,
            Error::PersistenceFailed => ErrorKind::PersistenceFailed,
        }
    }
}

} // verus!

//! The route-level error taxonomy: which errors are the client's (rejected
//! parameters, answered 400) and which are the bridge's or the remote
//! player's (answered 500), with the message each carries.

use vstd::prelude::*;

verus! {

/// A failed call to the remote player or to another collaborator, reduced to
/// the message that describes it.
pub struct RemoteError {
    pub message: String,
}

/// Everything a route can answer instead of its result. Variants carrying a
/// `String` hold the underlying failure's message.
pub enum ApiError {
    ListConnections(String),
    GetIdentity(String),
    Metadata(String),
    PlayPause(String),
    /// The seek route was called without an `offset` parameter.
    MissingOffset,
    /// The seek route's `offset` parameter is not a usable signed number.
    InvalidOffset,
    Seek(String),
    Position(String),
    SetPosition(String),
    /// The set-position route was called without a `track_id` or `position`
    /// parameter.
    MissingTrackId,
    /// The set-position route's `position` parameter is not a signed number.
    InvalidPosition,
    /// The set-position route's `track_id` is not a path-shaped identifier.
    InvalidTrackId,
    PlaybackStatus(String),
    ReadImage(String),
    LoadImage(String),
    Volume(String),
}

impl ApiError {
    /// Parameter rejections are the client's fault; everything else is a
    /// server-side failure.
    pub open spec fn status_code_spec(&self) -> u16 {
        match self {
            ApiError::MissingOffset => 400,
            ApiError::InvalidOffset => 400,
            ApiError::MissingTrackId => 400,
            ApiError::InvalidPosition => 400,
            ApiError::InvalidTrackId => 400,
            _ => 500,
        }
    }

    /// The HTTP status this error is answered with.
    pub fn status_code(&self) -> (code: u16)
        ensures
            code == self.status_code_spec(),
    {
        match self {
            ApiError::MissingOffset => 400,
            ApiError::InvalidOffset => 400,
            ApiError::MissingTrackId => 400,
            ApiError::InvalidPosition => 400,
            ApiError::InvalidTrackId => 400,
            _ => 500,
        }
    }

    /// The text the error is answered with.
    pub open spec fn message_spec(&self) -> Seq<char> {
        match self {
            ApiError::ListConnections(m) => m@,
            ApiError::GetIdentity(m) => "failed to get identity: "@ + m@,
            ApiError::Metadata(m) => m@,
            ApiError::PlayPause(m) => m@,
            ApiError::MissingOffset => "missing offset"@,
            ApiError::InvalidOffset => "invalid offset"@,
            ApiError::Seek(m) => m@,
            ApiError::Position(m) => m@,
            ApiError::SetPosition(m) => m@,
            ApiError::MissingTrackId => "missing track id"@,
            ApiError::InvalidPosition => "invalid position"@,
            ApiError::InvalidTrackId => "invalid track id"@,
            ApiError::PlaybackStatus(m) => m@,
            ApiError::ReadImage(m) => "failed to read image: "@ + m@,
            ApiError::LoadImage(m) => "failed to load image: "@ + m@,
            ApiError::Volume(m) => m@,
        }
    }

    /// Render the error's message.
    pub fn message(&self) -> (r: String)
        ensures
            r@ == self.message_spec(),
    {
        match self {
            ApiError::ListConnections(m) => m.clone(),
            ApiError::GetIdentity(m) => String::from_str("failed to get identity: ").concat(
                m.as_str(),
            ),
            ApiError::Metadata(m) => m.clone(),
            ApiError::PlayPause(m) => m.clone(),
            ApiError::MissingOffset => String::from_str("missing offset"),
            ApiError::InvalidOffset => String::from_str("invalid offset"),
            ApiError::Seek(m) => m.clone(),
            ApiError::Position(m) => m.clone(),
            ApiError::SetPosition(m) => m.clone(),
            ApiError::MissingTrackId => String::from_str("missing track id"),
            ApiError::InvalidPosition => String::from_str("invalid position"),
            ApiError::InvalidTrackId => String::from_str("invalid track id"),
            ApiError::PlaybackStatus(m) => m.clone(),
            ApiError::ReadImage(m) => String::from_str("failed to read image: ").concat(m.as_str()),
            ApiError::LoadImage(m) => String::from_str("failed to load image: ").concat(m.as_str()),
            ApiError::Volume(m) => m.clone(),
        }
    }
}

} // verus!

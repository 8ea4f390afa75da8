//! Errors of cameras, and how a camera's zoom changes.
use vstd::prelude::*;

verus! {

#[derive(Clone, Copy, Debug, PartialEq, Eq, Structural)]
pub enum CameraError {
    /// Indicates that the source is not a `PerspectiveCamera`.
    NotPerspectiveCamera,
    /// Indicates that the source is not an `OrthographicCamera`.
    NotOrthographicCamera,
    /// Indicates that the camera type is unknown.
    UnknownCameraType,
}

impl CameraError {
    pub open spec fn spec_message(self) -> Seq<char> {
        match self {
            CameraError::NotPerspectiveCamera => "Source is not a PerspectiveCamera"@,
            CameraError::NotOrthographicCamera => "Source is not a OrthographicCamera"@,
            CameraError::UnknownCameraType => "Unknown camera type"@,
        }
    }

    /// The error's message, as it is displayed.
    pub fn to_string(&self) -> (r: String)
        ensures
            r@ == self.spec_message(),
    {
        match self {
            CameraError::NotPerspectiveCamera => "Source is not a PerspectiveCamera".to_owned(),
            CameraError::NotOrthographicCamera => "Source is not a OrthographicCamera".to_owned(),
            CameraError::UnknownCameraType => "Unknown camera type".to_owned(),
        }
    }
}

/// The zoom a camera at zoom `current` takes when asked for `zoom`: `zoom`
/// raised to at least 1, or none when that is the zoom it has already (the
/// zoom does not change).
pub fn zoom_change(current: i32, zoom: i32) -> (r: Option<i32>)
    ensures
        r == (if (if zoom < 1 { 1i32 } else { zoom }) == current {
            None
        } else {
            Some(if zoom < 1 { 1i32 } else { zoom })
        }),
{
    let clamped = if zoom < 1 { 1 } else { zoom };
    if clamped == current {
        None
    } else {
        Some(clamped)
    }
}

} // verus!

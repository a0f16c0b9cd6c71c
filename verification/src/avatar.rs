//! Avatar: the image loading status shared by the root, image and fallback
//! parts, and the rules that decide which of image and fallback is shown.

use vstd::prelude::*;

verus! {

/// Image loading status.
#[derive(Clone, Copy, Debug, PartialEq, Eq, Hash, Structural)]
pub enum ImageLoadingStatus {
    /// No image source provided or not yet started.
    Idle,
    /// Image is currently loading.
    Loading,
    /// Image loaded successfully.
    Loaded,
    /// Image failed to load.
    Error,
}

impl ImageLoadingStatus {
    /// Returns the status as a lowercase string.
    pub fn as_str(&self) -> (s: &'static str)
        ensures
            s@ == match *self {
                ImageLoadingStatus::Idle => "idle"@,
                ImageLoadingStatus::Loading => "loading"@,
                ImageLoadingStatus::Loaded => "loaded"@,
                ImageLoadingStatus::Error => "error"@,
            },
    {
        match self {
            ImageLoadingStatus::Idle => "idle",
            ImageLoadingStatus::Loading => "loading",
            ImageLoadingStatus::Loaded => "loaded",
            ImageLoadingStatus::Error => "error",
        }
    }
}

impl Default for ImageLoadingStatus {
    /// The status before any source is loaded: `Idle`.
    fn default() -> (r: Self)
        ensures
            r == ImageLoadingStatus::Idle,
    {
        ImageLoadingStatus::Idle
    }
}

/// State of the avatar parts.
#[derive(Clone, Copy, Debug, PartialEq, Eq, Structural)]
pub struct AvatarState {
    pub image_loading_status: ImageLoadingStatus,
}

/// Whether the image part renders its `<img>`: only once the image loaded.
pub fn image_visible(status: ImageLoadingStatus) -> (r: bool)
    ensures
        r == (status == ImageLoadingStatus::Loaded),
{
    status == ImageLoadingStatus::Loaded
}

/// Whether the fallback part is shown: the image has not loaded and the
/// optional delay has passed.
pub fn fallback_visible(status: ImageLoadingStatus, delay_passed: bool) -> (r: bool)
    ensures
        r == (status != ImageLoadingStatus::Loaded && delay_passed),
{
    status != ImageLoadingStatus::Loaded && delay_passed
}

/// What happens to the image the avatar preloads.
#[derive(Clone, Copy, Debug, PartialEq, Eq, Structural)]
pub enum ImageEvent {
    /// Preloading starts, with or without an image source.
    Started { has_source: bool },
    /// The image finished loading.
    Loaded,
    /// The image failed to load.
    Failed,
}

/// The loading status after `event`; it is also the status reported to the
/// status-change callback. Without a source, loading fails at once.
pub fn status_after(event: ImageEvent) -> (s: ImageLoadingStatus)
    ensures
        s == match event {
            ImageEvent::Started { has_source } => if has_source {
                ImageLoadingStatus::Loading
            } else {
                ImageLoadingStatus::Error
            },
            ImageEvent::Loaded => ImageLoadingStatus::Loaded,
            ImageEvent::Failed => ImageLoadingStatus::Error,
        },
{
    match event {
        ImageEvent::Started { has_source } => {
            if has_source {
                ImageLoadingStatus::Loading
            } else {
                ImageLoadingStatus::Error
            }
        },
        ImageEvent::Loaded => ImageLoadingStatus::Loaded,
        ImageEvent::Failed => ImageLoadingStatus::Error,
    }
}

/// Whether the fallback's delay counts as passed before any timer fires:
/// only when no delay was given.
pub fn fallback_delay_passed_initially(delay: Option<i32>) -> (r: bool)
    ensures
        r == delay is None,
{
    delay.is_none()
}

/// The image and the fallback are never shown at the same time, and once the
/// delay has passed exactly one of them is shown.
pub proof fn lemma_image_and_fallback_exclusive(status: ImageLoadingStatus, delay_passed: bool)
    ensures
        !(status == ImageLoadingStatus::Loaded && (status != ImageLoadingStatus::Loaded
            && delay_passed)),
        delay_passed ==> (status == ImageLoadingStatus::Loaded) != (status
            != ImageLoadingStatus::Loaded && delay_passed),
{
}

} // verus!

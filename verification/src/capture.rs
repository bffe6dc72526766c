//! The two capture requests, image and text, from the check of the settings
//! to the result: which call comes next and what each outcome leads to.
//!
//! The calls to the platform, the cache and the recognizer are the caller's;
//! this module decides their order, does the work on the pixels in between
//! and puts the result together.

use vstd::prelude::*;
use vstd::string::*;
use crate::acquire::{copy_failure, failure_sentence, FailedStep};
use crate::error::{default_message, CaptureError, ErrorKind};
use crate::pixels::{reordered, ChannelOrder};
use crate::raster::{
    capture_failure_says,
    capture_png,
    capture_screen_png,
    encoded_capture,
    encoded_screenshot,
    image_of,
    screenshot_failure_says,
    to_canonical,
    EncodedModel,
    EncodedPng,
    ImageModel,
    NormalizedImage,
    RawPixelBuffer,
};
use crate::recognize::{check_dimensions, exceeds_limit, recognized_text};
use crate::region::{
    capture_region,
    normalize_title,
    region_of,
    shown_title,
    CaptureRegion,
    WindowBounds,
};
use crate::scale::{Ratio, ScaleFactor, MAX_IMAGE_DIM};
use crate::text::{text_of, trimmed};

verus! {

/// What a request asks for.
#[derive(Clone, Copy, Debug, PartialEq, Eq, Structural)]
pub enum Operation {
    /// A stored image of the screen.
    Image,
    /// The text on the screen.
    Text,
}

/// The operating system that the request runs on.
#[derive(Clone, Copy, Debug, PartialEq, Eq, Structural)]
pub enum Platform {
    /// Captures the window in the foreground.
    Windows,
    /// Captures the whole screen through a screenshot tool.
    MacOs,
    /// Has no capture backend.
    Other,
}

/// The call that a request asks its caller to make next, or how it ended.
#[derive(Clone, Copy, Debug, PartialEq, Eq, Structural)]
pub enum ServiceStep {
    /// Read the capture switch from the stored settings, now.
    ReadGate,
    /// Ask the platform for the bounds and the title of the window in the
    /// foreground.
    FindWindow,
    /// Copy the pixels of `region` from the screen.
    CopyPixels,
    /// Take a screenshot of the whole screen.
    TakeScreenshot,
    /// Store `encoded` in the capture cache.
    Persist,
    /// Ask the recognizer for the longest edge it takes.
    QueryRecognizer,
    /// Run the recognizer on `image`.
    Recognize,
    /// The request is answered.
    Finished,
    /// The request failed; `error` says why.
    Failed,
}

/// Dimensions of a captured image and the ratio between them and the
/// dimensions of what was captured.
#[derive(Clone, Copy, Debug)]
pub struct CaptureResolution {
    pub width: u32,
    pub height: u32,
    pub scale_factor: ScaleFactor,
}

/// What a resolution is.
pub struct ResolutionModel {
    pub width: u32,
    pub height: u32,
    pub scale: Ratio,
}

impl View for CaptureResolution {
    type V = ResolutionModel;

    open spec fn view(&self) -> ResolutionModel {
        ResolutionModel { width: self.width, height: self.height, scale: self.scale_factor@ }
    }
}

/// The answer to an image request.
#[derive(Debug)]
pub struct CaptureResult {
    pub mime_type: &'static str,
    pub file_path: String,
    pub source: &'static str,
    pub app_name: Option<String>,
    pub resolution: CaptureResolution,
}

/// What the answer to an image request is.
pub struct ResultModel {
    pub mime_type: Seq<char>,
    pub file_path: Seq<char>,
    pub source: Seq<char>,
    pub app_name: Option<Seq<char>>,
    pub resolution: ResolutionModel,
}

impl View for CaptureResult {
    type V = ResultModel;

    open spec fn view(&self) -> ResultModel {
        ResultModel {
            mime_type: self.mime_type@,
            file_path: self.file_path@,
            source: self.source@,
            app_name: text_of(self.app_name),
            resolution: self.resolution@,
        }
    }
}

/// The answer to a text request.
#[derive(Debug)]
pub struct TextCapture {
    pub text: String,
    pub source: &'static str,
    pub app_name: Option<String>,
    pub resolution: CaptureResolution,
}

/// What the answer to a text request is.
pub struct TextModel {
    pub text: Seq<char>,
    pub source: Seq<char>,
    pub app_name: Option<Seq<char>>,
    pub resolution: ResolutionModel,
}

impl View for TextCapture {
    type V = TextModel;

    open spec fn view(&self) -> TextModel {
        TextModel {
            text: self.text@,
            source: self.source@,
            app_name: text_of(self.app_name),
            resolution: self.resolution@,
        }
    }
}

/// How a result names what was captured on `platform`.
pub open spec fn source_of(platform: Platform) -> Seq<char> {
    if platform == Platform::MacOs {
        "screen"@
    } else {
        "window"@
    }
}

/// Something that a request is told.
pub enum ServiceEvent {
    /// The capture switch was read.
    Gate(bool),
    /// The window in the foreground has these bounds and this title.
    WindowFound(WindowBounds, Option<Seq<char>>),
    /// No window is in the foreground.
    WindowMissing,
    /// The bounds of the window could not be read.
    WindowUnreadable,
    /// The pixels of the region, in this channel order.
    PixelsCopied(Seq<u8>, ChannelOrder),
    /// The copy failed at this step.
    PixelsFailed(FailedStep),
    /// The file that the screenshot tool wrote.
    ScreenshotTaken(Seq<u8>),
    /// There is no screenshot, for a reason of this kind.
    ScreenshotFailed(ErrorKind),
    /// The capture is stored under this path.
    Persisted(Seq<char>),
    /// The capture is not stored, for a reason of this kind.
    PersistFailed(ErrorKind),
    /// The longest edge that the recognizer takes, or none where there is no
    /// recognizer.
    RecognizerLimit(Option<u32>),
    /// What the recognizer read.
    Recognized(Seq<char>),
    /// The recognizer failed.
    RecognizerFailed,
}

/// What a request is: what it asks for, where it stands and what it has
/// gathered so far.
pub struct ServiceModel {
    pub operation: Operation,
    pub platform: Platform,
    pub limit: u32,
    pub step: ServiceStep,
    pub region: Option<CaptureRegion>,
    pub title: Option<Seq<char>>,
    pub encoded: Option<EncodedModel>,
    pub image: Option<ImageModel>,
    pub failure: Option<ErrorKind>,
    pub result: Option<ResultModel>,
    pub text: Option<TextModel>,
}

impl ServiceModel {
    /// A request that has not asked for anything yet. Images are stored with
    /// a longer edge of at most `limit` pixels.
    pub open spec fn start(operation: Operation, platform: Platform, limit: u32) -> ServiceModel {
        ServiceModel {
            operation,
            platform,
            limit,
            step: ServiceStep::ReadGate,
            region: None,
            title: None,
            encoded: None,
            image: None,
            failure: None,
            result: None,
            text: None,
        }
    }

    /// Whether the request is over.
    pub open spec fn is_over(self) -> bool {
        self.step == ServiceStep::Finished || self.step == ServiceStep::Failed
    }

    /// The request at `step`, all else as it was.
    pub open spec fn at(self, step: ServiceStep) -> ServiceModel {
        ServiceModel { step, ..self }
    }

    /// The request, failed for a reason of `kind`.
    pub open spec fn failed(self, kind: ErrorKind) -> ServiceModel {
        ServiceModel { step: ServiceStep::Failed, failure: Some(kind), ..self }
    }

    /// The request with `outcome` of the work on the pixels: on to storing
    /// the encoded image, or failed.
    pub open spec fn with_encoded(self, outcome: Result<EncodedModel, ErrorKind>) -> ServiceModel {
        match outcome {
            Ok(encoded) => ServiceModel { step: ServiceStep::Persist, encoded: Some(encoded), ..self },
            Err(kind) => self.failed(kind),
        }
    }

    /// The capture switch was read. A request is refused where the switch is
    /// off; where it is on, the platform decides how the capture starts.
    pub open spec fn on_gate(self, enabled: bool) -> ServiceModel {
        if self.step != ServiceStep::ReadGate {
            self
        } else if !enabled {
            self.failed(ErrorKind::ToolDisabled)
        } else if self.platform == Platform::Windows {
            self.at(ServiceStep::FindWindow)
        } else if self.platform == Platform::MacOs && self.operation == Operation::Image {
            self.at(ServiceStep::TakeScreenshot)
        } else {
            self.failed(ErrorKind::UnsupportedPlatform)
        }
    }

    /// The window in the foreground was found. A window without area ends
    /// the request; a title of white space counts as no title.
    pub open spec fn on_window_found(self, bounds: WindowBounds, title: Option<Seq<char>>) -> ServiceModel {
        if self.step != ServiceStep::FindWindow {
            self
        } else if region_of(bounds).is_empty() {
            self.failed(ErrorKind::EmptyRegion)
        } else {
            ServiceModel {
                step: ServiceStep::CopyPixels,
                region: Some(region_of(bounds)),
                title: match title {
                    Some(text) => shown_title(text),
                    None => None,
                },
                ..self
            }
        }
    }

    /// No window is in the foreground.
    pub open spec fn on_window_missing(self) -> ServiceModel {
        if self.step == ServiceStep::FindWindow {
            self.failed(ErrorKind::NoActiveWindow)
        } else {
            self
        }
    }

    /// The bounds of the window could not be read.
    pub open spec fn on_window_unreadable(self) -> ServiceModel {
        if self.step == ServiceStep::FindWindow {
            self.failed(ErrorKind::PlatformResourceFailure)
        } else {
            self
        }
    }

    /// The pixels of the region were copied. An image request downscales and
    /// encodes them; a text request keeps them for the recognizer.
    pub open spec fn on_pixels_copied(self, bytes: Seq<u8>, order: ChannelOrder) -> ServiceModel {
        if self.step == ServiceStep::CopyPixels && self.region is Some {
            let region = self.region->0;
            let raw = ImageModel {
                width: region.width,
                height: region.height,
                pixels: reordered(bytes, order),
            };
            if self.operation == Operation::Image {
                self.with_encoded(encoded_capture(raw, self.limit))
            } else {
                match image_of(raw.width, raw.height, raw.pixels) {
                    Ok(image) => ServiceModel {
                        step: ServiceStep::QueryRecognizer,
                        image: Some(image),
                        ..self
                    },
                    Err(kind) => self.failed(kind),
                }
            }
        } else {
            self
        }
    }

    /// The pixels of the region could not be copied.
    pub open spec fn on_pixels_failed(self) -> ServiceModel {
        if self.step == ServiceStep::CopyPixels {
            self.failed(ErrorKind::PlatformResourceFailure)
        } else {
            self
        }
    }

    /// The screenshot tool wrote `file`.
    pub open spec fn on_screenshot_taken(self, file: Seq<u8>) -> ServiceModel {
        if self.step == ServiceStep::TakeScreenshot {
            self.with_encoded(encoded_screenshot(file, self.limit))
        } else {
            self
        }
    }

    /// There is no screenshot.
    pub open spec fn on_screenshot_failed(self, kind: ErrorKind) -> ServiceModel {
        if self.step == ServiceStep::TakeScreenshot {
            self.failed(kind)
        } else {
            self
        }
    }

    /// The encoded image is stored under `path`. The answer reports the
    /// dimensions and the ratio of the stored image.
    pub open spec fn on_persisted(self, path: Seq<char>) -> ServiceModel {
        if self.step == ServiceStep::Persist && self.encoded is Some {
            let encoded = self.encoded->0;
            ServiceModel {
                step: ServiceStep::Finished,
                result: Some(
                    ResultModel {
                        mime_type: "image/png"@,
                        file_path: path,
                        source: source_of(self.platform),
                        app_name: self.title,
                        resolution: ResolutionModel {
                            width: encoded.width,
                            height: encoded.height,
                            scale: encoded.scale,
                        },
                    },
                ),
                ..self
            }
        } else {
            self
        }
    }

    /// The encoded image could not be stored. No path is returned.
    pub open spec fn on_persist_failed(self, kind: ErrorKind) -> ServiceModel {
        if self.step == ServiceStep::Persist {
            self.failed(kind)
        } else {
            self
        }
    }

    /// The recognizer told the longest edge it takes. An image beyond it is
    /// refused before the engine runs.
    pub open spec fn on_recognizer_limit(self, max_dimension: Option<u32>) -> ServiceModel {
        if self.step == ServiceStep::QueryRecognizer && self.image is Some {
            match max_dimension {
                None => self.failed(ErrorKind::EngineUnavailable),
                Some(longest) => if exceeds_limit(
                    self.image->0.width,
                    self.image->0.height,
                    longest,
                ) {
                    self.failed(ErrorKind::RegionTooLarge)
                } else {
                    self.at(ServiceStep::Recognize)
                },
            }
        } else {
            self
        }
    }

    /// The recognizer read `text`. The answer holds it without the white
    /// space at its ends.
    pub open spec fn on_recognized(self, text: Seq<char>) -> ServiceModel {
        if self.step == ServiceStep::Recognize && self.image is Some {
            ServiceModel {
                step: ServiceStep::Finished,
                text: Some(
                    TextModel {
                        text: trimmed(text),
                        source: source_of(self.platform),
                        app_name: self.title,
                        resolution: ResolutionModel {
                            width: self.image->0.width,
                            height: self.image->0.height,
                            scale: Ratio::one(),
                        },
                    },
                ),
                ..self
            }
        } else {
            self
        }
    }

    /// The recognizer failed.
    pub open spec fn on_recognizer_failed(self) -> ServiceModel {
        if self.step == ServiceStep::Recognize {
            self.failed(ErrorKind::EngineUnavailable)
        } else {
            self
        }
    }

    /// The request after it was told `event`.
    pub open spec fn on(self, event: ServiceEvent) -> ServiceModel {
        match event {
            ServiceEvent::Gate(enabled) => self.on_gate(enabled),
            ServiceEvent::WindowFound(bounds, title) => self.on_window_found(bounds, title),
            ServiceEvent::WindowMissing => self.on_window_missing(),
            ServiceEvent::WindowUnreadable => self.on_window_unreadable(),
            ServiceEvent::PixelsCopied(bytes, order) => self.on_pixels_copied(bytes, order),
            ServiceEvent::PixelsFailed(_) => self.on_pixels_failed(),
            ServiceEvent::ScreenshotTaken(file) => self.on_screenshot_taken(file),
            ServiceEvent::ScreenshotFailed(kind) => self.on_screenshot_failed(kind),
            ServiceEvent::Persisted(path) => self.on_persisted(path),
            ServiceEvent::PersistFailed(kind) => self.on_persist_failed(kind),
            ServiceEvent::RecognizerLimit(longest) => self.on_recognizer_limit(longest),
            ServiceEvent::Recognized(text) => self.on_recognized(text),
            ServiceEvent::RecognizerFailed => self.on_recognizer_failed(),
        }
    }

    /// The request after it was told `events`, one after the other.
    pub open spec fn after(self, events: Seq<ServiceEvent>) -> ServiceModel
        decreases events.len(),
    {
        if events.len() == 0 {
            self
        } else {
            self.after(events.drop_last()).on(events.last())
        }
    }

    /// What a request has gathered at each of its steps: a region to copy,
    /// a proper image to recognize, an encoded image to store, an answer
    /// when it is finished and a reason when it failed.
    pub open spec fn well_formed(self) -> bool {
        &&& self.step == ServiceStep::CopyPixels ==> self.region is Some && !self.region->0.is_empty()
        &&& self.step == ServiceStep::Persist ==> self.encoded is Some && self.operation
            == Operation::Image
        &&& self.step == ServiceStep::TakeScreenshot ==> self.operation == Operation::Image
        &&& (self.step == ServiceStep::QueryRecognizer || self.step == ServiceStep::Recognize)
            ==> self.image is Some && self.image->0.well_formed() && self.operation
            == Operation::Text
        &&& self.step == ServiceStep::Failed <==> self.failure is Some
        &&& self.step == ServiceStep::Finished <==> self.result is Some || self.text is Some
        &&& self.result is Some ==> self.operation == Operation::Image
        &&& self.text is Some ==> self.operation == Operation::Text
    }
}

/// A request that is over stays as it is, whatever it is told: it asks for
/// no further call.
pub proof fn lemma_over_is_final(request: ServiceModel, events: Seq<ServiceEvent>)
    requires
        request.is_over(),
    ensures
        request.after(events) == request,
    decreases events.len(),
{
    if events.len() > 0 {
        lemma_over_is_final(request, events.drop_last());
    }
}

/// Every request keeps what it has gathered in step with where it stands.
pub proof fn lemma_step_keeps_well_formed(request: ServiceModel, event: ServiceEvent)
    requires
        request.well_formed(),
    ensures
        request.on(event).well_formed(),
{
}

/// With the capture switch off, a request of either kind on any platform
/// fails as disabled and asks for nothing after the switch was read: no
/// window is looked for, no pixel is copied, no screenshot is taken and no
/// file is written, whatever the request is told afterwards.
pub proof fn lemma_disabled_gate_ends_request(
    operation: Operation,
    platform: Platform,
    limit: u32,
    events: Seq<ServiceEvent>,
)
    ensures
        ServiceModel::start(operation, platform, limit).step == ServiceStep::ReadGate,
        ServiceModel::start(operation, platform, limit).on_gate(false).after(events).step
            == ServiceStep::Failed,
        ServiceModel::start(operation, platform, limit).on_gate(false).after(events).failure
            == Some(ErrorKind::ToolDisabled),
        ServiceModel::start(operation, platform, limit).on_gate(false).after(events).result is None,
        ServiceModel::start(operation, platform, limit).on_gate(false).after(events).text is None,
{
    lemma_over_is_final(ServiceModel::start(operation, platform, limit).on_gate(false), events);
}

/// A region without width or without height ends a request of either kind
/// as an empty region, and the request asks for nothing after the bounds
/// were read: no pixel is copied, whatever the request is told afterwards.
pub proof fn lemma_empty_region_ends_request(
    request: ServiceModel,
    bounds: WindowBounds,
    title: Option<Seq<char>>,
    events: Seq<ServiceEvent>,
)
    requires
        request.step == ServiceStep::FindWindow,
        region_of(bounds).width == 0 || region_of(bounds).height == 0,
    ensures
        request.on_window_found(bounds, title).after(events).step == ServiceStep::Failed,
        request.on_window_found(bounds, title).after(events).failure == Some(
            ErrorKind::EmptyRegion,
        ),
        request.on_window_found(bounds, title).after(events).region == request.region,
{
    lemma_over_is_final(request.on_window_found(bounds, title), events);
}

/// An image with an edge beyond what the recognizer takes ends the request
/// as too large, and the engine is never asked to run.
pub proof fn lemma_oversized_image_is_not_recognized(
    request: ServiceModel,
    longest: u32,
    events: Seq<ServiceEvent>,
)
    requires
        request.step == ServiceStep::QueryRecognizer,
        request.image is Some,
        request.image->0.width > longest || request.image->0.height > longest,
    ensures
        request.on_recognizer_limit(Some(longest)).after(events).step == ServiceStep::Failed,
        request.on_recognizer_limit(Some(longest)).after(events).failure == Some(
            ErrorKind::RegionTooLarge,
        ),
{
    lemma_over_is_final(request.on_recognizer_limit(Some(longest)), events);
}

/// A request that could not store its image returns no path, and one whose
/// image could not be encoded never asks for a file to be written.
pub proof fn lemma_no_partial_result(request: ServiceModel, kind: ErrorKind, path: Seq<char>)
    requires
        request.well_formed(),
    ensures
        request.step == ServiceStep::Persist ==> request.on_persist_failed(kind).result is None,
        request.on_persisted(path).result is Some ==> request.on_persisted(path).step
            == ServiceStep::Finished,
        request.step == ServiceStep::Failed ==> request.on_persisted(path).result is None,
{
}

/// An image request for a window whose pixels arrive whole and can be
/// encoded is answered with the path under which the image was stored, the
/// title of the window and the resolution of the stored image: that of the
/// region at a ratio of one where the region fits the limit, and else the
/// scaled one at the ratio of the limit to the longer edge.
pub proof fn lemma_image_request_reports_stored_image(
    limit: u32,
    bounds: WindowBounds,
    title: Option<Seq<char>>,
    bytes: Seq<u8>,
    order: ChannelOrder,
    path: Seq<char>,
)
    requires
        !region_of(bounds).is_empty(),
        bytes.len() == 4 * region_of(bounds).width * region_of(bounds).height,
        encoded_capture(
            ImageModel {
                width: region_of(bounds).width,
                height: region_of(bounds).height,
                pixels: reordered(bytes, order),
            },
            limit,
        ) is Ok,
    ensures
        ({
            let region = region_of(bounds);
            let image = ImageModel {
                width: region.width,
                height: region.height,
                pixels: reordered(bytes, order),
            };
            let scaled = crate::raster::downscaled(image, limit);
            let answered = ServiceModel::start(Operation::Image, Platform::Windows, limit).on_gate(
                true,
            ).on_window_found(bounds, title).on_pixels_copied(bytes, order).on_persisted(path);
            &&& answered.step == ServiceStep::Finished
            &&& answered.failure is None
            &&& answered.result is Some
            &&& answered.result->0.file_path == path
            &&& answered.result->0.mime_type == "image/png"@
            &&& answered.result->0.source == "window"@
            &&& answered.result->0.resolution.width == scaled.0.width
            &&& answered.result->0.resolution.height == scaled.0.height
            &&& answered.result->0.resolution.scale == scaled.1
            &&& crate::scale::longer_edge(region.width as nat, region.height as nat) <= limit ==> {
                &&& answered.result->0.resolution.width == region.width
                &&& answered.result->0.resolution.height == region.height
                &&& answered.result->0.resolution.scale == Ratio::one()
            }
        }),
{
}

/// A text request for a window whose pixels arrive whole and fit the
/// recognizer is answered with what the recognizer read, without the white
/// space at its ends, and with the resolution of the region at a ratio of
/// one; nothing is stored.
pub proof fn lemma_text_request_reports_trimmed_text(
    limit: u32,
    bounds: WindowBounds,
    title: Option<Seq<char>>,
    bytes: Seq<u8>,
    order: ChannelOrder,
    longest: u32,
    read: Seq<char>,
)
    requires
        !region_of(bounds).is_empty(),
        bytes.len() == 4 * region_of(bounds).width * region_of(bounds).height,
        region_of(bounds).width <= crate::codec::MAX_EDGE,
        region_of(bounds).height <= crate::codec::MAX_EDGE,
        region_of(bounds).width <= longest,
        region_of(bounds).height <= longest,
    ensures
        ({
            let region = region_of(bounds);
            let asked = ServiceModel::start(Operation::Text, Platform::Windows, limit).on_gate(
                true,
            ).on_window_found(bounds, title).on_pixels_copied(bytes, order).on_recognizer_limit(
                Some(longest),
            );
            let answered = asked.on_recognized(read);
            &&& asked.step == ServiceStep::Recognize
            &&& asked.image == Some(
                ImageModel {
                    width: region.width,
                    height: region.height,
                    pixels: reordered(bytes, order),
                },
            )
            &&& answered.step == ServiceStep::Finished
            &&& answered.encoded is None
            &&& answered.result is None
            &&& answered.text is Some
            &&& answered.text->0.text == trimmed(read)
            &&& answered.text->0.resolution.width == region.width
            &&& answered.text->0.resolution.height == region.height
            &&& answered.text->0.resolution.scale == Ratio::one()
        }),
{
}

/// A request in progress.
pub struct CaptureService {
    operation: Operation,
    platform: Platform,
    limit: u32,
    step: ServiceStep,
    region: Option<CaptureRegion>,
    title: Option<String>,
    encoded: Option<EncodedPng>,
    image: Option<NormalizedImage>,
    error: Option<CaptureError>,
    result: Option<CaptureResult>,
    text: Option<TextCapture>,
}

impl View for CaptureService {
    type V = ServiceModel;

    closed spec fn view(&self) -> ServiceModel {
        ServiceModel {
            operation: self.operation,
            platform: self.platform,
            limit: self.limit,
            step: self.step,
            region: self.region,
            title: text_of(self.title),
            encoded: match self.encoded {
                Some(encoded) => Some(encoded@),
                None => None,
            },
            image: match self.image {
                Some(image) => Some(image@),
                None => None,
            },
            failure: match self.error {
                Some(error) => Some(error.kind),
                None => None,
            },
            result: match self.result {
                Some(result) => Some(result@),
                None => None,
            },
            text: match self.text {
                Some(text) => Some(text@),
                None => None,
            },
        }
    }
}

/// A request for a stored image of the screen on `platform`. Its first call
/// is for the capture switch.
pub fn capture_screen_image(platform: Platform) -> (out: CaptureService)
    ensures
        out@ == ServiceModel::start(Operation::Image, platform, MAX_IMAGE_DIM),
        out.failure_text() == Seq::<char>::empty(),
{
    CaptureService::begin(Operation::Image, platform, MAX_IMAGE_DIM)
}

/// A request for the text on the screen on `platform`. Its first call is for
/// the capture switch.
pub fn capture_screen_text(platform: Platform) -> (out: CaptureService)
    ensures
        out@ == ServiceModel::start(Operation::Text, platform, MAX_IMAGE_DIM),
        out.failure_text() == Seq::<char>::empty(),
{
    CaptureService::begin(Operation::Text, platform, MAX_IMAGE_DIM)
}

impl CaptureService {
    /// The sentence of the error that the request failed with; empty where
    /// it has not failed.
    pub closed spec fn failure_text(&self) -> Seq<char> {
        match self.error {
            Some(error) => error.message@,
            None => Seq::empty(),
        }
    }

    /// A request for `operation` on `platform` that stores images with a
    /// longer edge of at most `limit` pixels.
    pub fn begin(operation: Operation, platform: Platform, limit: u32) -> (out: CaptureService)
        ensures
            out@ == ServiceModel::start(operation, platform, limit),
            out.failure_text() == Seq::<char>::empty(),
    {
        CaptureService {
            operation,
            platform,
            limit,
            step: ServiceStep::ReadGate,
            region: None,
            title: None,
            encoded: None,
            image: None,
            error: None,
            result: None,
            text: None,
        }
    }

    /// The call to make next, or how the request ended.
    pub fn step(&self) -> (out: ServiceStep)
        ensures
            out == self@.step,
    {
        self.step
    }

    /// The region to copy.
    pub fn region(&self) -> (out: Option<CaptureRegion>)
        ensures
            out == self@.region,
    {
        self.region
    }

    /// The encoded image to store.
    pub fn encoded(&self) -> (out: Option<&EncodedPng>)
        ensures
            match out {
                Some(encoded) => self@.encoded == Some(encoded@),
                None => self@.encoded is None,
            },
    {
        self.encoded.as_ref()
    }

    /// The image to hand to the recognizer.
    pub fn image(&self) -> (out: Option<&NormalizedImage>)
        ensures
            match out {
                Some(image) => self@.image == Some(image@),
                None => self@.image is None,
            },
    {
        self.image.as_ref()
    }

    /// Why the request failed, if it did.
    pub fn error(&self) -> (out: Option<CaptureError>)
        ensures
            match out {
                Some(error) => self@.failure == Some(error.kind) && error.message@
                    == self.failure_text(),
                None => self@.failure is None,
            },
    {
        match &self.error {
            Some(error) => Some(error.clone()),
            None => None,
        }
    }

    /// The answer to an image request, taken out of it.
    pub fn take_result(&mut self) -> (out: Option<CaptureResult>)
        ensures
            match out {
                Some(result) => old(self)@.result == Some(result@),
                None => old(self)@.result is None,
            },
            final(self)@ == (ServiceModel { result: None, ..old(self)@ }),
            final(self).failure_text() == old(self).failure_text(),
    {
        self.result.take()
    }

    /// The answer to a text request, taken out of it.
    pub fn take_text(&mut self) -> (out: Option<TextCapture>)
        ensures
            match out {
                Some(text) => old(self)@.text == Some(text@),
                None => old(self)@.text is None,
            },
            final(self)@ == (ServiceModel { text: None, ..old(self)@ }),
            final(self).failure_text() == old(self).failure_text(),
    {
        self.text.take()
    }

    /// Ends the request with `error`.
    fn fail(&mut self, error: CaptureError)
        ensures
            final(self)@ == old(self)@.failed(error.kind),
            final(self).failure_text() == error.message@,
    {
        self.step = ServiceStep::Failed;
        self.error = Some(error);
    }

    /// Goes on to storing `outcome`, or ends the request with its error.
    fn keep_encoded(&mut self, outcome: Result<EncodedPng, CaptureError>, Ghost(expected): Ghost<
        Result<EncodedModel, ErrorKind>,
    >)
        requires
            crate::error::agrees(outcome, expected),
        ensures
            final(self)@ == old(self)@.with_encoded(expected),
            outcome matches Err(error) ==> final(self).failure_text() == error.message@,
            outcome is Ok ==> final(self).failure_text() == old(self).failure_text(),
    {
        match outcome {
            Ok(encoded) => {
                self.encoded = Some(encoded);
                self.step = ServiceStep::Persist;
            },
            Err(error) => {
                self.fail(error);
            },
        }
    }

    /// The capture switch was read from the stored settings.
    pub fn gate_read(&mut self, enabled: bool) -> (out: ServiceStep)
        ensures
            final(self)@ == old(self)@.on_gate(enabled),
            out == final(self)@.step,
            old(self)@.is_over() || out != ServiceStep::Failed ==> final(self).failure_text()
                == old(self).failure_text(),
            old(self)@.step == ServiceStep::ReadGate && out == ServiceStep::Failed
                ==> final(self).failure_text() == default_message(final(self)@.failure->0),
    {
        if self.step == ServiceStep::ReadGate {
            if !enabled {
                self.fail(CaptureError::of_kind(ErrorKind::ToolDisabled));
            } else if self.platform == Platform::Windows {
                self.step = ServiceStep::FindWindow;
            } else if self.platform == Platform::MacOs && self.operation == Operation::Image {
                self.step = ServiceStep::TakeScreenshot;
            } else {
                self.fail(CaptureError::of_kind(ErrorKind::UnsupportedPlatform));
            }
        }
        self.step
    }

    /// The window in the foreground has `bounds` and shows `title`.
    pub fn window_found(&mut self, bounds: WindowBounds, title: Option<String>) -> (out: ServiceStep)
        ensures
            final(self)@ == old(self)@.on_window_found(bounds, text_of(title)),
            out == final(self)@.step,
            old(self)@.is_over() || out != ServiceStep::Failed ==> final(self).failure_text()
                == old(self).failure_text(),
            old(self)@.step == ServiceStep::FindWindow && out == ServiceStep::Failed
                ==> final(self).failure_text() == default_message(ErrorKind::EmptyRegion),
    {
        if self.step == ServiceStep::FindWindow {
            match capture_region(bounds) {
                Ok(region) => {
                    self.region = Some(region);
                    self.title = match title {
                        Some(text) => normalize_title(text),
                        None => None,
                    };
                    self.step = ServiceStep::CopyPixels;
                },
                Err(error) => {
                    self.fail(error);
                },
            }
        }
        self.step
    }

    /// No window is in the foreground.
    pub fn window_missing(&mut self) -> (out: ServiceStep)
        ensures
            final(self)@ == old(self)@.on_window_missing(),
            out == final(self)@.step,
            old(self)@.is_over() || out != ServiceStep::Failed ==> final(self).failure_text()
                == old(self).failure_text(),
            old(self)@.step == ServiceStep::FindWindow ==> final(self).failure_text()
                == default_message(ErrorKind::NoActiveWindow),
    {
        if self.step == ServiceStep::FindWindow {
            self.fail(CaptureError::of_kind(ErrorKind::NoActiveWindow));
        }
        self.step
    }

    /// The bounds of the window in the foreground could not be read.
    pub fn window_unreadable(&mut self) -> (out: ServiceStep)
        ensures
            final(self)@ == old(self)@.on_window_unreadable(),
            out == final(self)@.step,
            old(self)@.is_over() || out != ServiceStep::Failed ==> final(self).failure_text()
                == old(self).failure_text(),
            old(self)@.step == ServiceStep::FindWindow ==> final(self).failure_text()
                == "Failed to read active window bounds."@,
    {
        if self.step == ServiceStep::FindWindow {
            self.fail(
                CaptureError::described(
                    ErrorKind::PlatformResourceFailure,
                    "Failed to read active window bounds.",
                ),
            );
        }
        self.step
    }

    /// The pixels of the region were copied into `bytes`, in channel order
    /// `order`.
    pub fn pixels_copied(&mut self, bytes: Vec<u8>, order: ChannelOrder) -> (out: ServiceStep)
        ensures
            final(self)@ == old(self)@.on_pixels_copied(bytes@, order),
            out == final(self)@.step,
            old(self)@.is_over() || out != ServiceStep::Failed ==> final(self).failure_text()
                == old(self).failure_text(),
            old(self)@.step == ServiceStep::CopyPixels && out == ServiceStep::Failed
                ==> capture_failure_says(
                ImageModel {
                    width: old(self)@.region->0.width,
                    height: old(self)@.region->0.height,
                    pixels: reordered(bytes@, order),
                },
                final(self).failure_text(),
                final(self)@.failure->0,
            ),
    {
        if self.step == ServiceStep::CopyPixels {
            match self.region {
                Some(region) => {
                    let raw = RawPixelBuffer {
                        width: region.width,
                        height: region.height,
                        order,
                        bytes,
                    };
                    match self.operation {
                        Operation::Image => {
                            let ghost expected = encoded_capture(raw@, self.limit);
                            let outcome = capture_png(raw, self.limit);
                            self.keep_encoded(outcome, Ghost(expected));
                        },
                        Operation::Text => {
                            match to_canonical(raw) {
                                Ok(image) => {
                                    self.image = Some(image);
                                    self.step = ServiceStep::QueryRecognizer;
                                },
                                Err(error) => {
                                    self.fail(error);
                                },
                            }
                        },
                    }
                },
                None => {},
            }
        }
        self.step
    }

    /// The pixels of the region could not be copied; `step` is the call that
    /// failed.
    pub fn pixels_failed(&mut self, step: FailedStep) -> (out: ServiceStep)
        ensures
            final(self)@ == old(self)@.on_pixels_failed(),
            out == final(self)@.step,
            old(self)@.is_over() || out != ServiceStep::Failed ==> final(self).failure_text()
                == old(self).failure_text(),
            old(self)@.step == ServiceStep::CopyPixels ==> final(self).failure_text()
                == failure_sentence(step),
    {
        if self.step == ServiceStep::CopyPixels {
            self.fail(copy_failure(step));
        }
        self.step
    }

    /// The screenshot tool wrote `file`.
    pub fn screenshot_taken(&mut self, file: &[u8]) -> (out: ServiceStep)
        ensures
            final(self)@ == old(self)@.on_screenshot_taken(file@),
            out == final(self)@.step,
            old(self)@.is_over() || out != ServiceStep::Failed ==> final(self).failure_text()
                == old(self).failure_text(),
            old(self)@.step == ServiceStep::TakeScreenshot && out == ServiceStep::Failed
                ==> screenshot_failure_says(
                file@,
                final(self).failure_text(),
                final(self)@.failure->0,
            ),
    {
        if self.step == ServiceStep::TakeScreenshot {
            let ghost expected = encoded_screenshot(file@, self.limit);
            let outcome = capture_screen_png(file, self.limit);
            self.keep_encoded(outcome, Ghost(expected));
        }
        self.step
    }

    /// There is no screenshot; `error` says why.
    pub fn screenshot_failed(&mut self, error: CaptureError) -> (out: ServiceStep)
        ensures
            final(self)@ == old(self)@.on_screenshot_failed(error.kind),
            out == final(self)@.step,
            old(self)@.is_over() || out != ServiceStep::Failed ==> final(self).failure_text()
                == old(self).failure_text(),
            old(self)@.step == ServiceStep::TakeScreenshot ==> final(self).failure_text()
                == error.message@,
    {
        if self.step == ServiceStep::TakeScreenshot {
            self.fail(error);
        }
        self.step
    }

    /// The encoded image is stored under `path`.
    pub fn persisted(&mut self, path: String) -> (out: ServiceStep)
        ensures
            final(self)@ == old(self)@.on_persisted(path@),
            out == final(self)@.step,
            old(self)@.is_over() || out != ServiceStep::Failed ==> final(self).failure_text()
                == old(self).failure_text(),
    {
        if self.step == ServiceStep::Persist {
            let resolution = match &self.encoded {
                Some(encoded) => Some(
                    CaptureResolution {
                        width: encoded.width(),
                        height: encoded.height(),
                        scale_factor: encoded.scale_factor(),
                    },
                ),
                None => None,
            };
            match resolution {
                Some(resolution) => {
                    let app_name = match &self.title {
                        Some(title) => Some(title.clone()),
                        None => None,
                    };
                    self.result = Some(
                        CaptureResult {
                            mime_type: "image/png",
                            file_path: path,
                            source: Self::source(self.platform),
                            app_name,
                            resolution,
                        },
                    );
                    self.step = ServiceStep::Finished;
                },
                None => {},
            }
        }
        self.step
    }

    /// The encoded image could not be stored; `error` says why.
    pub fn persist_failed(&mut self, error: CaptureError) -> (out: ServiceStep)
        ensures
            final(self)@ == old(self)@.on_persist_failed(error.kind),
            out == final(self)@.step,
            old(self)@.is_over() || out != ServiceStep::Failed ==> final(self).failure_text()
                == old(self).failure_text(),
            old(self)@.step == ServiceStep::Persist ==> final(self).failure_text()
                == error.message@,
    {
        if self.step == ServiceStep::Persist {
            self.fail(error);
        }
        self.step
    }

    /// The recognizer takes edges of up to `max_dimension` pixels; `None`
    /// says that there is no recognizer.
    pub fn recognizer_limit(&mut self, max_dimension: Option<u32>) -> (out: ServiceStep)
        ensures
            final(self)@ == old(self)@.on_recognizer_limit(max_dimension),
            out == final(self)@.step,
            old(self)@.is_over() || out != ServiceStep::Failed ==> final(self).failure_text()
                == old(self).failure_text(),
            old(self)@.step == ServiceStep::QueryRecognizer && out == ServiceStep::Failed
                ==> final(self).failure_text() == default_message(final(self)@.failure->0),
    {
        if self.step == ServiceStep::QueryRecognizer {
            let dimensions = match &self.image {
                Some(image) => Some((image.width(), image.height())),
                None => None,
            };
            match dimensions {
                Some((width, height)) => {
                    match max_dimension {
                        None => {
                            self.fail(CaptureError::of_kind(ErrorKind::EngineUnavailable));
                        },
                        Some(longest) => {
                            match check_dimensions(width, height, longest) {
                                Ok(()) => {
                                    self.step = ServiceStep::Recognize;
                                },
                                Err(error) => {
                                    self.fail(error);
                                },
                            }
                        },
                    }
                },
                None => {},
            }
        }
        self.step
    }

    /// The recognizer read `engine_output`.
    pub fn recognized(&mut self, engine_output: &str) -> (out: ServiceStep)
        ensures
            final(self)@ == old(self)@.on_recognized(engine_output@),
            out == final(self)@.step,
            old(self)@.is_over() || out != ServiceStep::Failed ==> final(self).failure_text()
                == old(self).failure_text(),
    {
        if self.step == ServiceStep::Recognize {
            let dimensions = match &self.image {
                Some(image) => Some((image.width(), image.height())),
                None => None,
            };
            match dimensions {
                Some((width, height)) => {
                    let app_name = match &self.title {
                        Some(title) => Some(title.clone()),
                        None => None,
                    };
                    self.text = Some(
                        TextCapture {
                            text: recognized_text(engine_output),
                            source: Self::source(self.platform),
                            app_name,
                            resolution: CaptureResolution {
                                width,
                                height,
                                scale_factor: ScaleFactor::identity(),
                            },
                        },
                    );
                    self.step = ServiceStep::Finished;
                },
                None => {},
            }
        }
        self.step
    }

    /// The recognizer could not be started or failed; `detail` says how.
    pub fn recognizer_failed(&mut self, detail: &str) -> (out: ServiceStep)
        ensures
            final(self)@ == old(self)@.on_recognizer_failed(),
            out == final(self)@.step,
            old(self)@.is_over() || out != ServiceStep::Failed ==> final(self).failure_text()
                == old(self).failure_text(),
            old(self)@.step == ServiceStep::Recognize ==> final(self).failure_text()
                == "Text recognition failed: "@ + detail@,
    {
        if self.step == ServiceStep::Recognize {
            self.fail(
                CaptureError::with_detail(
                    ErrorKind::EngineUnavailable,
                    "Text recognition failed: ",
                    detail,
                ),
            );
        }
        self.step
    }

    /// How a result names what was captured on `platform`.
    fn source(platform: Platform) -> (out: &'static str)
        ensures
            out@ == source_of(platform),
    {
        if platform == Platform::MacOs {
            "screen"
        } else {
            "window"
        }
    }
}

} // verus!

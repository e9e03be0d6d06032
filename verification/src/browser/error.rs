use chromiumoxide::error::CdpError;
use tokio::time::error::Elapsed;
use vstd::prelude::*;
use vstd::std_specs::convert::FromSpecImpl;

verus! {

/// What can go wrong with the browser, by kind.
#[derive(Clone, Copy, Debug, PartialEq, Eq, Structural)]
pub enum BrowserError {
    PageCreation,
    WebSocket,
    Timeout,
    NetworkIO,
    BrowserLaunch,
    FrameNotFound,
    Navigation,
    Serialization,
    Decoding,
    ChromeInternal,
    JavaScriptError,
    InvalidUrl,
    BuildBrowserConfigError,
    Unknown,
}

/// The failures that the browser protocol client reports, by variant and
/// without what each carries.
#[derive(Clone, Copy, Debug, PartialEq, Eq, Structural)]
pub enum CdpFailure {
    Ws,
    Io,
    Serde,
    Chrome,
    NoResponse,
    UnexpectedWsMessage,
    ChannelSendError,
    LaunchExit,
    LaunchTimeout,
    LaunchIo,
    Timeout,
    FrameNotFound,
    ChromeMessage,
    DecodeError,
    ScrollingFailed,
    NotFound,
    JavascriptException,
    Url,
}

/// The error of the browser protocol client.
#[verifier::external_type_specification]
#[verifier::external_body]
pub struct ExCdpError(CdpError);

/// The error of a timer that ran out.
#[verifier::external_type_specification]
#[verifier::external_body]
pub struct ExElapsed(Elapsed);

/// The variant of a protocol error.
pub uninterp spec fn failure_of(error: CdpError) -> CdpFailure;

/// Tells the variants of `chromiumoxide::error::CdpError` apart. The result
/// names the variant of the error and nothing else of it.
#[verifier::external_body]
fn classify(error: &CdpError) -> (failure: CdpFailure)
    ensures
        failure == failure_of(*error),
{
    match error {
        CdpError::Ws(_) => CdpFailure::Ws, CdpError::Io(_) => CdpFailure::Io,
        CdpError::Serde(_) => CdpFailure::Serde, CdpError::Chrome(_) => CdpFailure::Chrome,
        CdpError::NoResponse => CdpFailure::NoResponse, CdpError::UnexpectedWsMessage(_) => CdpFailure::UnexpectedWsMessage,
        CdpError::ChannelSendError(_) => CdpFailure::ChannelSendError, CdpError::LaunchExit(_, _) => CdpFailure::LaunchExit,
        CdpError::LaunchTimeout(_) => CdpFailure::LaunchTimeout, CdpError::LaunchIo(_, _) => CdpFailure::LaunchIo,
        CdpError::Timeout => CdpFailure::Timeout, CdpError::FrameNotFound(_) => CdpFailure::FrameNotFound,
        CdpError::ChromeMessage(_) => CdpFailure::ChromeMessage, CdpError::DecodeError(_) => CdpFailure::DecodeError,
        CdpError::ScrollingFailed(_) => CdpFailure::ScrollingFailed, CdpError::NotFound => CdpFailure::NotFound,
        CdpError::JavascriptException(_) => CdpFailure::JavascriptException, CdpError::Url(_) => CdpFailure::Url,
    }
}

/// The kind of browser error that a protocol failure counts as.
pub open spec fn error_of_failure(failure: CdpFailure) -> BrowserError {
    match failure {
        CdpFailure::Ws | CdpFailure::UnexpectedWsMessage => BrowserError::WebSocket,
        CdpFailure::Io | CdpFailure::ChannelSendError => BrowserError::NetworkIO,
        CdpFailure::Serde => BrowserError::Serialization,
        CdpFailure::Chrome | CdpFailure::ChromeMessage | CdpFailure::ScrollingFailed =>
            BrowserError::ChromeInternal,
        CdpFailure::NoResponse | CdpFailure::Timeout => BrowserError::Timeout,
        CdpFailure::LaunchExit | CdpFailure::LaunchTimeout | CdpFailure::LaunchIo =>
            BrowserError::BrowserLaunch,
        CdpFailure::FrameNotFound => BrowserError::FrameNotFound,
        CdpFailure::DecodeError => BrowserError::Decoding,
        CdpFailure::NotFound => BrowserError::PageCreation,
        CdpFailure::JavascriptException => BrowserError::JavaScriptError,
        CdpFailure::Url => BrowserError::InvalidUrl,
    }
}

impl BrowserError {
    /// The kind of browser error that a protocol failure counts as.
    pub fn from_failure(failure: CdpFailure) -> (error: BrowserError)
        ensures
            error == error_of_failure(failure),
    {
        match failure {
            CdpFailure::Ws => BrowserError::WebSocket,
            CdpFailure::Io => BrowserError::NetworkIO,
            CdpFailure::Serde => BrowserError::Serialization,
            CdpFailure::Chrome => BrowserError::ChromeInternal,
            CdpFailure::NoResponse => BrowserError::Timeout,
            CdpFailure::UnexpectedWsMessage => BrowserError::WebSocket,
            CdpFailure::ChannelSendError => BrowserError::NetworkIO,
            CdpFailure::LaunchExit | CdpFailure::LaunchTimeout | CdpFailure::LaunchIo =>
                BrowserError::BrowserLaunch,
            CdpFailure::Timeout => BrowserError::Timeout,
            CdpFailure::FrameNotFound => BrowserError::FrameNotFound,
            CdpFailure::ChromeMessage => BrowserError::ChromeInternal,
            CdpFailure::DecodeError => BrowserError::Decoding,
            CdpFailure::ScrollingFailed => BrowserError::ChromeInternal,
            CdpFailure::NotFound => BrowserError::PageCreation,
            CdpFailure::JavascriptException => BrowserError::JavaScriptError,
            CdpFailure::Url => BrowserError::InvalidUrl,
        }
    }

    /// The words that describe the kind of error.
    pub open spec fn message_of(self) -> Seq<char> {
        match self {
            BrowserError::PageCreation => "failed to create page"@,
            BrowserError::WebSocket => "websocket communication failed"@,
            BrowserError::Timeout => "connection timeout"@,
            BrowserError::NetworkIO => "network I/O error"@,
            BrowserError::BrowserLaunch => "browser launch failed"@,
            BrowserError::FrameNotFound => "frame not found"@,
            BrowserError::Navigation => "navigation failed"@,
            BrowserError::Serialization => "serialization error"@,
            BrowserError::Decoding => "decoding error"@,
            BrowserError::ChromeInternal => "chrome internal error"@,
            BrowserError::JavaScriptError => "javascript exception"@,
            BrowserError::InvalidUrl => "invalid URL"@,
            BrowserError::BuildBrowserConfigError => "invalid browser config"@,
            BrowserError::Unknown => "unknown error"@,
        }
    }

    /// The words that describe the kind of error.
    pub fn message(&self) -> (text: &'static str)
        ensures
            text@ == self.message_of(),
    {
        match self {
            BrowserError::PageCreation => "failed to create page",
            BrowserError::WebSocket => "websocket communication failed",
            BrowserError::Timeout => "connection timeout",
            BrowserError::NetworkIO => "network I/O error",
            BrowserError::BrowserLaunch => "browser launch failed",
            BrowserError::FrameNotFound => "frame not found",
            BrowserError::Navigation => "navigation failed",
            BrowserError::Serialization => "serialization error",
            BrowserError::Decoding => "decoding error",
            BrowserError::ChromeInternal => "chrome internal error",
            BrowserError::JavaScriptError => "javascript exception",
            BrowserError::InvalidUrl => "invalid URL",
            BrowserError::BuildBrowserConfigError => "invalid browser config",
            BrowserError::Unknown => "unknown error",
        }
    }
}

impl From<CdpError> for BrowserError {
    fn from(error: CdpError) -> (r: BrowserError) {
        BrowserError::from_failure(classify(&error))
    }
}

impl FromSpecImpl<CdpError> for BrowserError {
    open spec fn obeys_from_spec() -> bool {
        true
    }

    open spec fn from_spec(error: CdpError) -> BrowserError {
        error_of_failure(failure_of(error))
    }
}

impl From<Elapsed> for BrowserError {
    fn from(elapsed: Elapsed) -> (r: BrowserError) {
        BrowserError::Timeout
    }
}

impl FromSpecImpl<Elapsed> for BrowserError {
    open spec fn obeys_from_spec() -> bool {
        true
    }

    open spec fn from_spec(elapsed: Elapsed) -> BrowserError {
        BrowserError::Timeout
    }
}

} // verus!

//! The errors of the command line interface.
use vstd::prelude::*;
use crate::api::error::{Error as ApiError, UreqFailure};
use crate::config::ConfigLoadError;
use crate::text::{u64_to_string, decimal};

verus! {

broadcast use vstd::string::group_string_axioms;

/// A failure of the line editor.
#[derive(Debug)]
pub enum ReadlineFailure {
    /// The user pressed Ctrl-C.
    Interrupted,
    /// The input ended.
    Eof,
    /// Anything else; the text describes it.
    Other(String),
}

/// An error of the command line interface.
#[derive(Debug)]
pub enum Error {
    Api(ApiError),
    Config(ConfigLoadError),
    Readline(ReadlineFailure),
    /// The player could not be run; the text describes why.
    VideoLaunch(String),
    /// The browser could not be run; the text describes why.
    BrowserLaunch(String),
    /// The standard input could not be read; the text describes why.
    Stdin(String),
    BlockedInstance(String),
}

/// The short text that names an error.
pub open spec fn error_title(e: Error) -> Seq<char> {
    match e {
        Error::Api(_) => "Error connecting to the API"@,
        Error::Config(_) => "Config error"@,
        Error::Readline(_) => "Input error"@,
        Error::Stdin(_) => "Input error"@,
        Error::VideoLaunch(_) => "Unable to launch video"@,
        Error::BrowserLaunch(_) => "Unable to launch video"@,
        Error::BlockedInstance(s) => "Can't connect to a blocked instance: "@ + s@,
    }
}

/// What is told of an error of the API that can be got over, with the code
/// of the answer where there is one; `None` for an error that ends the run.
pub open spec fn api_error_notice(e: ApiError) -> Option<Seq<char>> {
    match e {
        ApiError::Ureq(UreqFailure::Status(code, _)) => if 400 <= code < 500 {
            Some(
                "Error encountered while connecting to the desired instance: "@ + decimal(code as nat)
                    + "\nThis is likely because the server you are trying to connect isn't a PeerTube instance."@,
            )
        } else if code >= 500 {
            Some(
                "The server you are trying to connect failed to process the request: "@ + decimal(code as nat)
                    + "\nThis likely isn't a bug from peertube-viewer-rs.\n                        "@,
            )
        } else {
            None
        },
        ApiError::Serde(_) => Some(SERDE_NOTICE@),
        ApiError::NoContent => Some(NO_CONTENT_NOTICE@),
        _ => None,
    }
}

/// What is told when an answer of the server cannot be read.
pub const SERDE_NOTICE: &'static str = "peertube-viewer-rs was not capable of understanding the response from the server\nThis is might happen if the server you are trying to connect isn't a PeerTube instance.\nIf not, it is a bug from peertube-viewer-rs";

/// What is told when a video has no file and no stream.
pub const NO_CONTENT_NOTICE: &'static str = "No content seems to be available for this video\nThis is might happen if video you are trying to play comes from a instance that is down\nIf not, it is a bug from peertube-viewer-rs";

/// What is told of an error that can be got over; `None` for one that ends the run.
pub open spec fn error_notice(e: Error) -> Option<Seq<char>> {
    match e {
        Error::Api(a) => api_error_notice(a),
        _ => None,
    }
}

/// Does the error end the run without a word (the user interrupted or closed the input)?
pub open spec fn is_quiet(e: Error) -> bool {
    matches!(e, Error::Readline(ReadlineFailure::Interrupted)) || matches!(e, Error::Readline(ReadlineFailure::Eof))
}

impl Error {
    /// The short text that names the error.
    pub fn title(&self) -> (r: String)
        ensures
            r@ == error_title(*self),
    {
        match self {
            Error::Api(_) => String::from_str("Error connecting to the API"),
            Error::Config(_) => String::from_str("Config error"),
            Error::Readline(_) => String::from_str("Input error"),
            Error::Stdin(_) => String::from_str("Input error"),
            Error::VideoLaunch(_) => String::from_str("Unable to launch video"),
            Error::BrowserLaunch(_) => String::from_str("Unable to launch video"),
            Error::BlockedInstance(s) => {
                let mut m = String::from_str("Can't connect to a blocked instance: ");
                m.append(s.as_str());
                m
            },
        }
    }

    /// What to tell of the error when the browsing can go on after it;
    /// `None` when it ends the run.
    pub fn notice(&self) -> (r: Option<String>)
        ensures
            opt_view(r) == error_notice(*self),
    {
        match self {
            Error::Api(ApiError::Ureq(UreqFailure::Status(code, _))) => {
                if *code >= 400 && *code < 500 {
                    let mut m = String::from_str("Error encountered while connecting to the desired instance: ");
                    let c = u64_to_string(*code as u64);
                    m.append(c.as_str());
                    m.append("\nThis is likely because the server you are trying to connect isn't a PeerTube instance.");
                    Some(m)
                } else if *code >= 500 {
                    let mut m = String::from_str("The server you are trying to connect failed to process the request: ");
                    let c = u64_to_string(*code as u64);
                    m.append(c.as_str());
                    m.append("\nThis likely isn't a bug from peertube-viewer-rs.\n                        ");
                    Some(m)
                } else {
                    None
                }
            },
            Error::Api(ApiError::Serde(_)) => Some(String::from_str(SERDE_NOTICE)),
            Error::Api(ApiError::NoContent) => Some(String::from_str(NO_CONTENT_NOTICE)),
            _ => None,
        }
    }

    /// Does the error end the run without a word?
    pub fn is_quiet(&self) -> (r: bool)
        ensures
            r == is_quiet(*self),
    {
        match self {
            Error::Readline(ReadlineFailure::Interrupted) => true,
            Error::Readline(ReadlineFailure::Eof) => true,
            _ => false,
        }
    }

    /// What is told of an error that ends the run.
    pub fn unexpected_message(&self) -> (r: String)
        ensures
            r@ == "Unexpected error: "@ + error_title(*self) + "\nThis is likely an error with peertube-viewer-rs.\n"@,
    {
        let mut m = String::from_str("Unexpected error: ");
        let t = self.title();
        m.append(t.as_str());
        m.append("\nThis is likely an error with peertube-viewer-rs.\n");
        m
    }
}

/// The value of an optional string.
pub open spec fn opt_view(o: Option<String>) -> Option<Seq<char>> {
    match o {
        Some(s) => Some(s@),
        None => None,
    }
}

impl From<ApiError> for Error {
    fn from(err: ApiError) -> (r: Error) {
        Error::Api(err)
    }
}

impl vstd::std_specs::convert::FromSpecImpl<ApiError> for Error {
    open spec fn obeys_from_spec() -> bool {
        true
    }

    open spec fn from_spec(err: ApiError) -> Error {
        Error::Api(err)
    }
}

} // verus!
